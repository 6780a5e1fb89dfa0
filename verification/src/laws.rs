//! Laws of the ingestion pipeline, proved over the spec transitions:
//! well-formedness is preserved by every event; hash-mismatched media
//! records and foreign-authority labels are never persisted; deleting an
//! absent key changes nothing; a replayed create/update/delete history
//! ending in the delete leaves no surviving row; and a purging identity
//! event leaves zero rows for its did anywhere.

use vstd::prelude::*;
use vstd::seq_lib::*;
use crate::events::{MediaRecordModel, LabelRecordModel, TapRecordEventDataModel,
    TapIdentityEventDataModel, TapEventModel, RecordKind, spec_route};
use crate::keys::{is_valid_media_rkey, media_rkey_cid};
use crate::store::{StoreModel, MediaRowModel, LabelRowModel, unique_by, contains_key,
    index_of_key, lemma_unique_update, lemma_unique_push, lemma_unique_remove,
    lemma_unique_filter, media_key, account_key, label_key, rule_key, spec_media_upsert,
    spec_media_delete, spec_media_purge, spec_label_upsert, spec_label_delete, spec_rule_upsert,
    spec_rule_delete, spec_account_profile_upsert, spec_account_profile_clear,
    spec_account_set_rev, spec_account_remove};
use crate::handlers::{media_reject_reason, label_reject_reason, media_outcome, label_outcome,
    Outcome, spec_post_create, spec_favourite_create, spec_post_delete, spec_favourite_delete,
    spec_profile_delete, spec_label_create, spec_label_delete_event, spec_rule_delete_event,
    spec_identity, spec_process_record, spec_handle_event, spec_record_outcome,
    is_purging_status};

verus! {

// ---------------------------------------------------------------------
// Well-formedness is preserved by every event.
// ---------------------------------------------------------------------

/// Every transition of one inbound event keeps the store well formed:
/// composite keys stay unique in every table.
pub proof fn lemma_handle_event_preserves_wf(s: StoreModel, ev: TapEventModel, now: i64)
    requires
        s.wf(),
    ensures
        spec_handle_event(s, ev, now).wf(),
{
    match ev {
        TapEventModel::Identity { identity, .. } => {
            lemma_identity_preserves_wf(s, identity);
        },
        TapEventModel::Record { record, .. } => {
            lemma_process_record_preserves_wf(s, record, now);
        },
    }
}

/// An identity event keeps the store well formed.
pub proof fn lemma_identity_preserves_wf(s: StoreModel, idm: TapIdentityEventDataModel)
    requires
        s.wf(),
    ensures
        spec_identity(s, idm).wf(),
{
    if is_purging_status(idm.status) {
        if contains_key(s.accounts, account_key(), idm.did) {
            lemma_unique_remove(s.accounts, account_key(), index_of_key(s.accounts, account_key(), idm.did));
        }
        lemma_unique_filter(s.posts, media_key(), |r: MediaRowModel| r.did != idm.did);
        lemma_unique_filter(s.favourites, media_key(), |r: MediaRowModel| r.did != idm.did);
        lemma_unique_filter(s.labels, label_key(), |r: LabelRowModel| r.did != idm.did);
        lemma_unique_filter(s.rules, rule_key(), |r: crate::store::RuleRowModel| r.did != idm.did);
    } else {
        if contains_key(s.accounts, account_key(), idm.did) {
            let i = index_of_key(s.accounts, account_key(), idm.did);
            assert(0 <= i < s.accounts.len() && account_key()(s.accounts[i]) == idm.did);
            lemma_unique_update(
                s.accounts,
                account_key(),
                i,
                crate::store::account_updated_identity(s.accounts[i], idm.handle, idm.is_active, idm.status),
            );
        } else {
            lemma_unique_push(
                s.accounts,
                account_key(),
                crate::store::account_fresh_identity(idm.did, idm.handle, idm.is_active, idm.status),
            );
        }
    }
}

/// A record event keeps the store well formed.
pub proof fn lemma_process_record_preserves_wf(s: StoreModel, rd: TapRecordEventDataModel, now: i64)
    requires
        s.wf(),
    ensures
        spec_process_record(s, rd, now).wf(),
{
    let s1 = crate::handlers::spec_apply_record_tables(s, rd, now);
    assert(s1.wf()) by {
        lemma_apply_record_tables_preserves_wf(s, rd, now);
    }
    if spec_record_outcome(rd) == Outcome::Applied {
        lemma_account_ops_unique(s1.accounts, rd.did);
    }
}

/// The table mutation of a record event keeps the store well formed.
pub proof fn lemma_apply_record_tables_preserves_wf(s: StoreModel, rd: TapRecordEventDataModel, now: i64)
    requires
        s.wf(),
    ensures
        crate::handlers::spec_apply_record_tables(s, rd, now).wf(),
{
    let t = crate::handlers::spec_apply_record_tables(s, rd, now);
    lemma_media_ops_unique(s.posts, rd.did, rd.rkey, now);
    lemma_media_ops_unique(s.favourites, rd.did, rd.rkey, now);
    lemma_label_ops_unique(s.labels, rd.did, rd.rkey, now);
    lemma_rule_ops_unique(s.rules, rd.did, rd.rkey, now);
    lemma_account_ops_unique(s.accounts, rd.did);
}

/// Upsert and delete on the media tables keep keys unique, whatever the
/// record carried.
proof fn lemma_media_ops_unique(s: Seq<MediaRowModel>, did: Seq<char>, rkey: Seq<char>, now: i64)
    requires
        unique_by(s, media_key()),
    ensures
        forall|d: MediaRecordModel|
            unique_by(#[trigger] spec_media_upsert(s, did, rkey, d, now), media_key()),
        unique_by(spec_media_delete(s, did, rkey), media_key()),
{
    assert forall|d: MediaRecordModel|
        unique_by(#[trigger] spec_media_upsert(s, did, rkey, d, now), media_key()) by {
        if contains_key(s, media_key(), (did, rkey)) {
            let i = index_of_key(s, media_key(), (did, rkey));
            assert(0 <= i < s.len() && media_key()(s[i]) == (did, rkey));
            lemma_unique_update(s, media_key(), i, crate::store::media_updated_row(s[i], d, now));
        } else {
            lemma_unique_push(s, media_key(), crate::store::media_fresh_row(did, rkey, d));
        }
    }
    if contains_key(s, media_key(), (did, rkey)) {
        let i = index_of_key(s, media_key(), (did, rkey));
        assert(0 <= i < s.len() && media_key()(s[i]) == (did, rkey));
        lemma_unique_remove(s, media_key(), i);
    }
}

/// Upsert and delete on the label table keep keys unique.
proof fn lemma_label_ops_unique(s: Seq<LabelRowModel>, did: Seq<char>, rkey: Seq<char>, now: i64)
    requires
        unique_by(s, label_key()),
    ensures
        forall|d: LabelRecordModel|
            unique_by(#[trigger] spec_label_upsert(s, did, rkey, d, now), label_key()),
        unique_by(spec_label_delete(s, did, rkey), label_key()),
{
    assert forall|d: LabelRecordModel|
        unique_by(#[trigger] spec_label_upsert(s, did, rkey, d, now), label_key()) by {
        if contains_key(s, label_key(), (did, rkey)) {
            let i = index_of_key(s, label_key(), (did, rkey));
            assert(0 <= i < s.len() && label_key()(s[i]) == (did, rkey));
            lemma_unique_update(s, label_key(), i, crate::store::label_updated_row(s[i], d, now));
        } else {
            lemma_unique_push(s, label_key(), crate::store::label_fresh_row(did, rkey, d));
        }
    }
    if contains_key(s, label_key(), (did, rkey)) {
        let i = index_of_key(s, label_key(), (did, rkey));
        assert(0 <= i < s.len() && label_key()(s[i]) == (did, rkey));
        lemma_unique_remove(s, label_key(), i);
    }
}

/// Upsert and delete on the rule table keep keys unique.
proof fn lemma_rule_ops_unique(s: Seq<crate::store::RuleRowModel>, did: Seq<char>, rkey: Seq<char>, now: i64)
    requires
        unique_by(s, rule_key()),
    ensures
        forall|d: crate::events::RuleRecordModel|
            unique_by(#[trigger] spec_rule_upsert(s, did, rkey, d, now), rule_key()),
        unique_by(spec_rule_delete(s, did, rkey), rule_key()),
{
    assert forall|d: crate::events::RuleRecordModel|
        unique_by(#[trigger] spec_rule_upsert(s, did, rkey, d, now), rule_key()) by {
        if contains_key(s, rule_key(), (did, rkey)) {
            let i = index_of_key(s, rule_key(), (did, rkey));
            assert(0 <= i < s.len() && rule_key()(s[i]) == (did, rkey));
            lemma_unique_update(s, rule_key(), i, crate::store::rule_updated_row(s[i], d, now));
        } else {
            lemma_unique_push(s, rule_key(), crate::store::rule_fresh_row(did, rkey, d));
        }
    }
    if contains_key(s, rule_key(), (did, rkey)) {
        let i = index_of_key(s, rule_key(), (did, rkey));
        assert(0 <= i < s.len() && rule_key()(s[i]) == (did, rkey));
        lemma_unique_remove(s, rule_key(), i);
    }
}

/// Profile upsert, clear and rev update on the account table keep keys
/// unique.
proof fn lemma_account_ops_unique(s: Seq<crate::store::AccountRowModel>, did: Seq<char>)
    requires
        unique_by(s, account_key()),
    ensures
        forall|d: crate::events::ProfileRecordModel|
            unique_by(#[trigger] spec_account_profile_upsert(s, did, d), account_key()),
        unique_by(spec_account_profile_clear(s, did), account_key()),
        forall|rev: Seq<char>|
            unique_by(#[trigger] spec_account_set_rev(s, did, rev), account_key()),
{
    assert forall|d: crate::events::ProfileRecordModel|
        unique_by(#[trigger] spec_account_profile_upsert(s, did, d), account_key()) by {
        if contains_key(s, account_key(), did) {
            let i = index_of_key(s, account_key(), did);
            assert(0 <= i < s.len() && account_key()(s[i]) == did);
            lemma_unique_update(s, account_key(), i, crate::store::account_updated_profile(s[i], d));
        } else {
            lemma_unique_push(s, account_key(), crate::store::account_fresh_profile(did, d));
        }
    }
    if contains_key(s, account_key(), did) {
        let i = index_of_key(s, account_key(), did);
        assert(0 <= i < s.len() && account_key()(s[i]) == did);
        lemma_unique_update(s, account_key(), i, crate::store::account_cleared_profile(s[i]));
    }
    assert forall|rev: Seq<char>|
        unique_by(#[trigger] spec_account_set_rev(s, did, rev), account_key()) by {
        if contains_key(s, account_key(), did) {
            let i = index_of_key(s, account_key(), did);
            assert(0 <= i < s.len() && account_key()(s[i]) == did);
            lemma_unique_update(s, account_key(), i, crate::store::AccountRowModel { rev: Some(rev), ..s[i] });
        }
    }
}


// ---------------------------------------------------------------------
// Removal by key actually removes the key.
// ---------------------------------------------------------------------

/// Unconditional removal by key, generically.
pub open spec fn seq_remove_key<T, K>(s: Seq<T>, kf: spec_fn(T) -> K, k: K) -> Seq<T> {
    if contains_key(s, kf, k) {
        s.remove(index_of_key(s, kf, k))
    } else {
        s
    }
}

/// Under unique keys, removal by key leaves no row with that key.
pub proof fn lemma_remove_key_absent<T, K>(s: Seq<T>, kf: spec_fn(T) -> K, k: K)
    requires
        unique_by(s, kf),
    ensures
        !contains_key(seq_remove_key(s, kf, k), kf, k),
{
    if contains_key(s, kf, k) {
        let i = index_of_key(s, kf, k);
        assert(0 <= i < s.len() && kf(s[i]) == k);
        let t = s.remove(i);
        s.remove_ensures(i);
        assert forall|j: int| 0 <= j < t.len() implies kf(#[trigger] t[j]) != k by {
            let j0: int = if j < i { j } else { j + 1 };
            assert(t[j] == s[j0]);
            if kf(s[j0]) == k {
                assert(kf(s[i]) == kf(s[j0]));
            }
        }
    }
}

// ---------------------------------------------------------------------
// Deleting a never-created key is a no-op leaving the store unchanged.
// ---------------------------------------------------------------------

/// A delete for a (did, rkey) that was never created changes no table;
/// and when the account row is absent too, the whole record event is a
/// no-op on the store.
pub proof fn lemma_delete_absent_noop(s: StoreModel, rd: TapRecordEventDataModel, now: i64)
    requires
        rd.action is Delete,
    ensures
        !contains_key(s.posts, media_key(), (rd.did, rd.rkey)) ==> spec_post_delete(s, rd) == s,
        !contains_key(s.favourites, media_key(), (rd.did, rd.rkey)) ==> spec_favourite_delete(s, rd) == s,
        !contains_key(s.labels, label_key(), (rd.did, rd.rkey)) ==> spec_label_delete_event(s, rd) == s,
        !contains_key(s.rules, rule_key(), (rd.did, rd.rkey)) ==> spec_rule_delete_event(s, rd) == s,
        !contains_key(s.accounts, account_key(), rd.did) ==> spec_profile_delete(s, rd) == s,
        (spec_route(rd.collection) == Some(RecordKind::Post)
            && !contains_key(s.posts, media_key(), (rd.did, rd.rkey))
            && !contains_key(s.accounts, account_key(), rd.did))
            ==> spec_process_record(s, rd, now) == s,
{
    if !contains_key(s.posts, media_key(), (rd.did, rd.rkey)) {
        assert(spec_post_delete(s, rd) =~= s);
    }
    if !contains_key(s.favourites, media_key(), (rd.did, rd.rkey)) {
        assert(spec_favourite_delete(s, rd) =~= s);
    }
    if !contains_key(s.labels, label_key(), (rd.did, rd.rkey)) {
        assert(spec_label_delete_event(s, rd) =~= s);
    }
    if !contains_key(s.accounts, account_key(), rd.did) {
        assert(spec_profile_delete(s, rd) =~= s);
    }
    if !contains_key(s.rules, rule_key(), (rd.did, rd.rkey)) {
        assert(spec_rule_delete_event(s, rd) =~= s);
    }
    if spec_route(rd.collection) == Some(RecordKind::Post) && !contains_key(
        s.posts,
        media_key(),
        (rd.did, rd.rkey),
    ) && !contains_key(s.accounts, account_key(), rd.did) {
        assert(spec_process_record(s, rd, now) =~= s);
    }
}

// ---------------------------------------------------------------------
// A replayed create/update/delete history ending in the delete leaves
// no surviving row: idempotent under redelivery.
// ---------------------------------------------------------------------

/// A whole event history applied in order.
pub open spec fn spec_apply_events(s: StoreModel, evs: Seq<TapEventModel>, now: i64) -> StoreModel
    decreases evs.len(),
{
    if evs.len() == 0 {
        s
    } else {
        spec_handle_event(spec_apply_events(s, evs.drop_last(), now), evs.last(), now)
    }
}

/// Every event history keeps the store well formed.
pub proof fn lemma_apply_events_preserves_wf(s: StoreModel, evs: Seq<TapEventModel>, now: i64)
    requires
        s.wf(),
    ensures
        spec_apply_events(s, evs, now).wf(),
    decreases evs.len(),
{
    if evs.len() > 0 {
        lemma_apply_events_preserves_wf(s, evs.drop_last(), now);
        lemma_handle_event_preserves_wf(spec_apply_events(s, evs.drop_last(), now), evs.last(), now);
    }
}

/// Any history of events for one (did, rkey) — creates, updates and
/// deletes in any replay multiplicity — whose last event is the post
/// delete leaves no surviving post row for that key.
pub proof fn lemma_replayed_delete_leaves_no_row(
    s: StoreModel,
    evs: Seq<TapEventModel>,
    did: Seq<char>,
    rkey: Seq<char>,
    now: i64,
)
    requires
        s.wf(),
        evs.len() > 0,
        evs.last() matches TapEventModel::Record { record: rd, .. } && rd.action is Delete
            && rd.did == did && rd.rkey == rkey && spec_route(rd.collection) == Some(
            RecordKind::Post,
        ),
    ensures
        !contains_key(spec_apply_events(s, evs, now).posts, media_key(), (did, rkey)),
{
    let prev = spec_apply_events(s, evs.drop_last(), now);
    lemma_apply_events_preserves_wf(s, evs.drop_last(), now);
    let rd = evs.last()->Record_record;
    assert(spec_apply_events(s, evs, now) == spec_process_record(prev, rd, now));
    let s1 = crate::handlers::spec_apply_record_tables(prev, rd, now);
    assert(s1.posts == spec_media_delete(prev.posts, did, rkey));
    assert(spec_media_delete(prev.posts, did, rkey) == seq_remove_key(
        prev.posts,
        media_key(),
        (did, rkey),
    ));
    lemma_remove_key_absent(prev.posts, media_key(), (did, rkey));
    assert(spec_process_record(prev, rd, now).posts == s1.posts);
}

// ---------------------------------------------------------------------
// A purging identity event leaves zero rows for its did anywhere.
// ---------------------------------------------------------------------

/// After an identity event with a purging status (deleted or takendown)
/// for a did, no table holds a row that references that did.
pub proof fn lemma_purge_leaves_no_rows(s: StoreModel, idm: TapIdentityEventDataModel)
    requires
        s.wf(),
        is_purging_status(idm.status),
    ensures
        !contains_key(spec_identity(s, idm).accounts, account_key(), idm.did),
        forall|i: int| 0 <= i < spec_identity(s, idm).posts.len()
            ==> (#[trigger] spec_identity(s, idm).posts[i]).did != idm.did,
        forall|i: int| 0 <= i < spec_identity(s, idm).favourites.len()
            ==> (#[trigger] spec_identity(s, idm).favourites[i]).did != idm.did,
        forall|i: int| 0 <= i < spec_identity(s, idm).labels.len()
            ==> (#[trigger] spec_identity(s, idm).labels[i]).did != idm.did,
        forall|i: int| 0 <= i < spec_identity(s, idm).rules.len()
            ==> (#[trigger] spec_identity(s, idm).rules[i]).did != idm.did,
{
    let t = spec_identity(s, idm);
    assert(spec_account_remove(s.accounts, idm.did) == seq_remove_key(
        s.accounts,
        account_key(),
        idm.did,
    ));
    lemma_remove_key_absent(s.accounts, account_key(), idm.did);
    assert forall|i: int| 0 <= i < t.posts.len() implies (#[trigger] t.posts[i]).did != idm.did by {
        s.posts.lemma_filter_pred(|r: MediaRowModel| r.did != idm.did, i);
    }
    assert forall|i: int| 0 <= i < t.favourites.len() implies (#[trigger] t.favourites[i]).did
        != idm.did by {
        s.favourites.lemma_filter_pred(|r: MediaRowModel| r.did != idm.did, i);
    }
    assert forall|i: int| 0 <= i < t.labels.len() implies (#[trigger] t.labels[i]).did
        != idm.did by {
        s.labels.lemma_filter_pred(|r: LabelRowModel| r.did != idm.did, i);
    }
    assert forall|i: int| 0 <= i < t.rules.len() implies (#[trigger] t.rules[i]).did
        != idm.did by {
        s.rules.lemma_filter_pred(|r: crate::store::RuleRowModel| r.did != idm.did, i);
    }
}

// ---------------------------------------------------------------------
// A hash-mismatched media record is rejected and never persisted.
// ---------------------------------------------------------------------

/// A media record whose rkey does not parse as `<tid>:<cid>`, or whose
/// embedded hash differs from the blob's own hash, is rejected: the
/// outcome reports a rejection and the store is left exactly as it was.
pub proof fn lemma_media_mismatch_never_persisted(
    s: StoreModel,
    rd: TapRecordEventDataModel,
    d: MediaRecordModel,
    now: i64,
)
    requires
        !(is_valid_media_rkey(rd.rkey) && media_rkey_cid(rd.rkey) == d.blob.cid),
    ensures
        media_outcome(rd.rkey, d) is Rejected,
        spec_post_create(s, rd, d, now) == s,
        spec_favourite_create(s, rd, d, now) == s,
{
    assert(media_reject_reason(rd.rkey, d) is Some);
}

/// One row with a matching embedded hash.
pub open spec fn media_row_hash_ok(r: MediaRowModel) -> bool {
    &&& is_valid_media_rkey(r.rkey)
    &&& media_rkey_cid(r.rkey) == r.media_blob_cid
}

/// Every persisted post and favourite carries an rkey whose embedded
/// content hash equals the stored blob hash.
pub open spec fn media_hash_consistent(s: StoreModel) -> bool {
    &&& forall|i: int| 0 <= i < s.posts.len() ==> media_row_hash_ok(#[trigger] s.posts[i])
    &&& forall|i: int| 0 <= i < s.favourites.len() ==> media_row_hash_ok(
        #[trigger] s.favourites[i],
    )
}

/// Hash consistency of one media table survives its upsert (of an
/// accepted record), its delete, and its purge.
proof fn lemma_media_table_hash_ok(
    rows: Seq<MediaRowModel>,
    did: Seq<char>,
    rkey: Seq<char>,
    now: i64,
)
    requires
        unique_by(rows, media_key()),
        forall|i: int| 0 <= i < rows.len() ==> media_row_hash_ok(#[trigger] rows[i]),
    ensures
        forall|d: MediaRecordModel| media_reject_reason(rkey, d) is None
            ==> forall|i: int| 0 <= i < spec_media_upsert(rows, did, rkey, d, now).len()
                ==> media_row_hash_ok(#[trigger] spec_media_upsert(rows, did, rkey, d, now)[i]),
        forall|i: int| 0 <= i < spec_media_delete(rows, did, rkey).len() ==> media_row_hash_ok(
            #[trigger] spec_media_delete(rows, did, rkey)[i],
        ),
        forall|pdid: Seq<char>, i: int| 0 <= i < spec_media_purge(rows, pdid).len()
            ==> media_row_hash_ok(#[trigger] spec_media_purge(rows, pdid)[i]),
{
    assert forall|d: MediaRecordModel| media_reject_reason(rkey, d) is None implies forall|i: int|
        0 <= i < spec_media_upsert(rows, did, rkey, d, now).len() ==> media_row_hash_ok(
        #[trigger] spec_media_upsert(rows, did, rkey, d, now)[i],
    ) by {
        let t = spec_media_upsert(rows, did, rkey, d, now);
        if contains_key(rows, media_key(), (did, rkey)) {
            let j = index_of_key(rows, media_key(), (did, rkey));
            assert(0 <= j < rows.len() && media_key()(rows[j]) == (did, rkey));
            assert forall|i: int| 0 <= i < t.len() implies media_row_hash_ok(
                #[trigger] t[i],
            ) by {
                if i == j {
                    assert(media_row_hash_ok(rows[j]));
                } else {
                    assert(t[i] == rows[i]);
                }
            }
        } else {
            assert forall|i: int| 0 <= i < t.len() implies media_row_hash_ok(
                #[trigger] t[i],
            ) by {
                if i < rows.len() {
                    assert(t[i] == rows[i]);
                }
            }
        }
    }
    if contains_key(rows, media_key(), (did, rkey)) {
        let j = index_of_key(rows, media_key(), (did, rkey));
        assert(0 <= j < rows.len() && media_key()(rows[j]) == (did, rkey));
        let t = rows.remove(j);
        rows.remove_ensures(j);
        assert forall|i: int| 0 <= i < t.len() implies media_row_hash_ok(#[trigger] t[i]) by {
            let i0: int = if i < j { i } else { i + 1 };
            assert(t[i] == rows[i0]);
        }
    }
    assert forall|pdid: Seq<char>, i: int| 0 <= i < spec_media_purge(rows, pdid).len()
        implies media_row_hash_ok(#[trigger] spec_media_purge(rows, pdid)[i]) by {
        let t = spec_media_purge(rows, pdid);
        lemma_unique_filter(rows, media_key(), |r: MediaRowModel| r.did != pdid);
        assert(t.contains(t[i]));
        assert(rows.contains(t[i]));
        let i0 = choose|i0: int| 0 <= i0 < rows.len() && rows[i0] == t[i];
        assert(media_row_hash_ok(rows[i0]));
    }
}

/// Every transition of one inbound event preserves hash consistency of
/// the post and favourite tables: a record whose embedded hash does not
/// match its blob is never persisted.
pub proof fn lemma_handle_event_preserves_media_hash(s: StoreModel, ev: TapEventModel, now: i64)
    requires
        s.wf(),
        media_hash_consistent(s),
    ensures
        media_hash_consistent(spec_handle_event(s, ev, now)),
{
    match ev {
        TapEventModel::Identity { identity, .. } => {
            if is_purging_status(identity.status) {
                lemma_media_table_hash_ok(s.posts, identity.did, identity.did, now);
                lemma_media_table_hash_ok(s.favourites, identity.did, identity.did, now);
            }
        },
        TapEventModel::Record { record: rd, .. } => {
            lemma_media_table_hash_ok(s.posts, rd.did, rd.rkey, now);
            lemma_media_table_hash_ok(s.favourites, rd.did, rd.rkey, now);
        },
    }
}

// ---------------------------------------------------------------------
// A label whose rule authority differs from its issuing did is never
// persisted.
// ---------------------------------------------------------------------

/// A label whose rule authority is not the issuing did is rejected: the
/// outcome reports the rejection and the store is left exactly as it
/// was.
pub proof fn lemma_foreign_label_never_persisted(
    s: StoreModel,
    rd: TapRecordEventDataModel,
    d: LabelRecordModel,
    now: i64,
)
    requires
        d.rule.authority != rd.did,
    ensures
        label_outcome(rd.did, d) is Rejected,
        spec_label_create(s, rd, d, now) == s,
{
    assert(label_reject_reason(rd.did, d) is Some);
}

/// One label row issued under its own rule authority.
pub open spec fn label_row_authority_ok(r: LabelRowModel) -> bool {
    r.rule_did == r.did
}

/// Every persisted label references a rule of its own issuer.
pub open spec fn label_authority_consistent(s: StoreModel) -> bool {
    forall|i: int| 0 <= i < s.labels.len() ==> label_row_authority_ok(#[trigger] s.labels[i])
}

/// Every transition of one inbound event preserves label authority
/// consistency.
pub proof fn lemma_handle_event_preserves_label_authority(
    s: StoreModel,
    ev: TapEventModel,
    now: i64,
)
    requires
        s.wf(),
        label_authority_consistent(s),
    ensures
        label_authority_consistent(spec_handle_event(s, ev, now)),
{
    let t = spec_handle_event(s, ev, now);
    match ev {
        TapEventModel::Identity { identity, .. } => {
            if is_purging_status(identity.status) {
                lemma_unique_filter(s.labels, label_key(), |r: LabelRowModel| r.did != identity.did);
                assert forall|i: int| 0 <= i < t.labels.len() implies label_row_authority_ok(
                    #[trigger] t.labels[i],
                ) by {
                    assert(t.labels.contains(t.labels[i]));
                    assert(s.labels.contains(t.labels[i]));
                    let i0 = choose|i0: int| 0 <= i0 < s.labels.len() && s.labels[i0]
                        == t.labels[i];
                    assert(label_row_authority_ok(s.labels[i0]));
                }
            }
        },
        TapEventModel::Record { record: rd, .. } => {
            lemma_label_table_authority_ok(s.labels, rd.did, rd.rkey, now);
        },
    }
}

/// Authority consistency of the label table survives its upsert (of an
/// accepted label) and its delete.
proof fn lemma_label_table_authority_ok(
    rows: Seq<LabelRowModel>,
    did: Seq<char>,
    rkey: Seq<char>,
    now: i64,
)
    requires
        unique_by(rows, label_key()),
        forall|i: int| 0 <= i < rows.len() ==> label_row_authority_ok(#[trigger] rows[i]),
    ensures
        forall|d: LabelRecordModel| label_reject_reason(did, d) is None
            ==> forall|i: int| 0 <= i < spec_label_upsert(rows, did, rkey, d, now).len()
                ==> label_row_authority_ok(#[trigger] spec_label_upsert(rows, did, rkey, d, now)[i]),
        forall|i: int| 0 <= i < spec_label_delete(rows, did, rkey).len() ==> label_row_authority_ok(
            #[trigger] spec_label_delete(rows, did, rkey)[i],
        ),
{
    assert forall|d: LabelRecordModel| label_reject_reason(did, d) is None implies forall|i: int|
        0 <= i < spec_label_upsert(rows, did, rkey, d, now).len() ==> label_row_authority_ok(
        #[trigger] spec_label_upsert(rows, did, rkey, d, now)[i],
    ) by {
        let t = spec_label_upsert(rows, did, rkey, d, now);
        assert(d.rule.authority == did);
        if contains_key(rows, label_key(), (did, rkey)) {
            let j = index_of_key(rows, label_key(), (did, rkey));
            assert(0 <= j < rows.len() && label_key()(rows[j]) == (did, rkey));
            assert forall|i: int| 0 <= i < t.len() implies label_row_authority_ok(
                #[trigger] t[i],
            ) by {
                if i == j {
                    assert(rows[j].did == did);
                } else {
                    assert(t[i] == rows[i]);
                }
            }
        } else {
            assert forall|i: int| 0 <= i < t.len() implies label_row_authority_ok(
                #[trigger] t[i],
            ) by {
                if i < rows.len() {
                    assert(t[i] == rows[i]);
                }
            }
        }
    }
    if contains_key(rows, label_key(), (did, rkey)) {
        let j = index_of_key(rows, label_key(), (did, rkey));
        assert(0 <= j < rows.len() && label_key()(rows[j]) == (did, rkey));
        let t = rows.remove(j);
        rows.remove_ensures(j);
        assert forall|i: int| 0 <= i < t.len() implies label_row_authority_ok(
            #[trigger] t[i],
        ) by {
            let i0: int = if i < j { i } else { i + 1 };
            assert(t[i] == rows[i0]);
        }
    }
}

} // verus!
