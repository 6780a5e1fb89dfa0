//! The per-record-kind validate+persist state machines, the identity
//! handler, and the top-level event dispatcher.
//!
//! A validation failure is a rejected no-op: nothing is written and the
//! event is still acknowledged. A collection outside the registry is a
//! skip-and-log no-op, also acknowledged; this policy is applied
//! uniformly to creates, updates and deletes.

use vstd::prelude::*;
use crate::events::{MediaRecord, MediaRecordModel, ProfileRecord, ProfileRecordModel, LabelRecord,
    LabelRecordModel, RuleRecord, RuleRecordModel, RuleBehaviour, RuleBehaviourModel,
    TapRecordData, TapRecordDataModel, TapRecordAction, TapRecordActionModel, TapRecordEventData,
    TapRecordEventDataModel, TapIdentityEventData, TapIdentityEventDataModel, TapEvent,
    TapEventModel, RecordKind, spec_route, route_collection, rule_nsid};
use crate::keys::{first_colon, is_valid_tid, is_valid_cid, split_first_colon, check_tid, check_cid};
use crate::store::{Store, StoreModel, spec_media_upsert, spec_media_delete, spec_media_purge,
    spec_label_upsert, spec_label_delete, spec_label_purge, spec_rule_upsert, spec_rule_delete,
    spec_rule_purge, spec_account_identity_upsert, spec_account_profile_upsert,
    spec_account_profile_clear, spec_account_set_rev, spec_account_remove, media_upsert,
    media_delete, media_purge, label_upsert, label_delete, label_purge, rule_upsert, rule_delete,
    rule_purge, account_identity_upsert, account_profile_upsert, account_profile_clear,
    account_set_rev, account_remove};
use crate::text::str_eq;

verus! {

/// The byte ceiling for a post or favourite media blob.
pub const POST_BLOB_CEILING: u64 = 10 * 1024 * 1024;

/// The byte ceiling for an avatar blob.
pub const AVATAR_BLOB_CEILING: u64 = 3 * 1024 * 1024;

/// Why a record was rejected. Every rejection is a no-op: the event is
/// acknowledged and nothing is written.
#[derive(Debug, Clone, Copy, PartialEq, Eq, Structural)]
pub enum RejectReason {
    /// The rkey of a media record does not split as `<tid>:<cid>`.
    MalformedRkey,
    /// The TID half of the rkey is not structurally valid.
    InvalidTid,
    /// A CID (in the rkey, or of an avatar blob) is not structurally valid.
    InvalidCid,
    /// The content hash embedded in the rkey differs from the blob's hash.
    HashMismatch,
    /// The blob's mimetype is not allow-listed.
    DisallowedMime,
    /// The blob's declared size exceeds the ceiling.
    OversizeBlob,
    /// A profile record whose rkey is not the sentinel `self`.
    NotSelfRkey,
    /// A label whose rule reference lacks a collection or an rkey.
    IncompleteRuleRef,
    /// A label whose rule reference names a foreign collection.
    WrongRuleCollection,
    /// A label whose rule authority differs from its issuing did.
    ForeignRuleAuthority,
    /// A rule whose behaviour is not one of the two known variants.
    UnknownBehaviour,
    /// A payload whose shape does not match the collection it came under.
    PayloadShape,
}

/// What processing one event came to.
#[derive(Debug, Clone, Copy, PartialEq, Eq, Structural)]
pub enum Outcome {
    /// Validated and persisted (or a delete, which always applies).
    Applied,
    /// A validation failure: a no-op, still acknowledged.
    Rejected(RejectReason),
    /// A collection outside the fixed registry: a no-op, still acknowledged.
    Unsupported,
    /// A persistence fault reported by the caller's storage layer; the
    /// event is not acknowledged. Never produced here.
    Fault,
}

// ---------------------------------------------------------------------
// Validation.
// ---------------------------------------------------------------------

/// The mimetypes allowed for post and favourite media blobs.
pub open spec fn is_allowed_media_mime(m: Seq<char>) -> bool {
    m == "image/gif"@ || m == "image/webp"@
}

/// The mimetypes allowed for avatar blobs.
pub open spec fn is_allowed_avatar_mime(m: Seq<char>) -> bool {
    m == "image/png"@ || m == "image/jpeg"@
}

/// Why a post or favourite would be rejected, or `None` when it is
/// accepted: the rkey must split as `<tid>:<cid>`, both halves valid,
/// the embedded hash must equal the blob's own hash, the mimetype must
/// be allow-listed, and the size must not exceed the ceiling. The size
/// policy is monotonic: everything above the ceiling is rejected, not
/// only a size exactly at it.
pub open spec fn media_reject_reason(rkey: Seq<char>, d: MediaRecordModel) -> Option<RejectReason> {
    let p = first_colon(rkey);
    if p < 0 {
        Some(RejectReason::MalformedRkey)
    } else if !is_valid_tid(rkey.subrange(0, p)) {
        Some(RejectReason::InvalidTid)
    } else if !is_valid_cid(rkey.subrange(p + 1, rkey.len() as int)) {
        Some(RejectReason::InvalidCid)
    } else if rkey.subrange(p + 1, rkey.len() as int) != d.blob.cid {
        Some(RejectReason::HashMismatch)
    } else if !is_allowed_media_mime(d.blob.mime_type) {
        Some(RejectReason::DisallowedMime)
    } else if d.blob.size > POST_BLOB_CEILING {
        Some(RejectReason::OversizeBlob)
    } else {
        None
    }
}

/// Why a profile would be rejected, or `None`: the rkey must equal the
/// sentinel `self`, and an avatar blob, when present, must carry a valid
/// CID, an allow-listed mimetype and a size within the ceiling.
pub open spec fn profile_reject_reason(rkey: Seq<char>, d: ProfileRecordModel) -> Option<
    RejectReason,
> {
    if rkey != "self"@ {
        Some(RejectReason::NotSelfRkey)
    } else {
        match d.avatar {
            None => None,
            Some(b) => {
                if !is_valid_cid(b.cid) {
                    Some(RejectReason::InvalidCid)
                } else if !is_allowed_avatar_mime(b.mime_type) {
                    Some(RejectReason::DisallowedMime)
                } else if b.size > AVATAR_BLOB_CEILING {
                    Some(RejectReason::OversizeBlob)
                } else {
                    None
                }
            },
        }
    }
}

/// Why a label would be rejected, or `None`: its rule reference must be
/// fully qualified, name the fixed rule collection, and carry the
/// issuing did as its authority.
pub open spec fn label_reject_reason(did: Seq<char>, d: LabelRecordModel) -> Option<RejectReason> {
    match (d.rule.collection, d.rule.rkey) {
        (Some(c), Some(_)) => {
            if c != rule_nsid() {
                Some(RejectReason::WrongRuleCollection)
            } else if d.rule.authority != did {
                Some(RejectReason::ForeignRuleAuthority)
            } else {
                None
            }
        },
        _ => Some(RejectReason::IncompleteRuleRef),
    }
}

/// Why a rule would be rejected, or `None`: its behaviour must be one of
/// the two known variants.
pub open spec fn rule_reject_reason(d: RuleRecordModel) -> Option<RejectReason> {
    match d.behaviour {
        RuleBehaviourModel::Unknown => Some(RejectReason::UnknownBehaviour),
        _ => None,
    }
}

/// Checks a post or favourite record, returning why it would be
/// rejected, or `None` when it is accepted.
pub fn media_validate(rkey: &str, d: &MediaRecord) -> (r: Option<RejectReason>)
    ensures
        r == media_reject_reason(rkey@, d.deep_view()),
{
    match split_first_colon(rkey) {
        None => Some(RejectReason::MalformedRkey),
        Some((tid_part, cid_part)) => {
            if !check_tid(tid_part.as_str()) {
                Some(RejectReason::InvalidTid)
            } else if !check_cid(cid_part.as_str()) {
                Some(RejectReason::InvalidCid)
            } else if !str_eq(cid_part.as_str(), d.blob.cid.as_str()) {
                Some(RejectReason::HashMismatch)
            } else if !(str_eq(d.blob.mime_type.as_str(), "image/gif") || str_eq(
                d.blob.mime_type.as_str(),
                "image/webp",
            )) {
                Some(RejectReason::DisallowedMime)
            } else if d.blob.size > POST_BLOB_CEILING {
                Some(RejectReason::OversizeBlob)
            } else {
                None
            }
        },
    }
}

/// Checks a profile record, returning why it would be rejected, or
/// `None` when it is accepted.
pub fn profile_validate(rkey: &str, d: &ProfileRecord) -> (r: Option<RejectReason>)
    ensures
        r == profile_reject_reason(rkey@, d.deep_view()),
{
    if !str_eq(rkey, "self") {
        return Some(RejectReason::NotSelfRkey);
    }
    match &d.avatar {
        None => None,
        Some(b) => {
            if !check_cid(b.cid.as_str()) {
                Some(RejectReason::InvalidCid)
            } else if !(str_eq(b.mime_type.as_str(), "image/png") || str_eq(
                b.mime_type.as_str(),
                "image/jpeg",
            )) {
                Some(RejectReason::DisallowedMime)
            } else if b.size > AVATAR_BLOB_CEILING {
                Some(RejectReason::OversizeBlob)
            } else {
                None
            }
        },
    }
}

/// Checks a label record against its issuing did, returning why it
/// would be rejected, or `None` when it is accepted.
pub fn label_validate(did: &str, d: &LabelRecord) -> (r: Option<RejectReason>)
    ensures
        r == label_reject_reason(did@, d.deep_view()),
{
    match (&d.rule.collection, &d.rule.rkey) {
        (Some(c), Some(_)) => {
            if !str_eq(c.as_str(), "net.gifdex.labeler.rule") {
                Some(RejectReason::WrongRuleCollection)
            } else if !str_eq(d.rule.authority.as_str(), did) {
                Some(RejectReason::ForeignRuleAuthority)
            } else {
                None
            }
        },
        _ => Some(RejectReason::IncompleteRuleRef),
    }
}

/// Checks a rule record, returning why it would be rejected, or `None`
/// when it is accepted.
pub fn rule_validate(d: &RuleRecord) -> (r: Option<RejectReason>)
    ensures
        r == rule_reject_reason(d.deep_view()),
{
    match &d.behaviour {
        RuleBehaviour::Unknown => Some(RejectReason::UnknownBehaviour),
        _ => None,
    }
}


// ---------------------------------------------------------------------
// Per-kind validate+persist transitions on the store.
// ---------------------------------------------------------------------

/// The outcome of a media upsert: applied, or rejected with its reason.
pub open spec fn media_outcome(rkey: Seq<char>, d: MediaRecordModel) -> Outcome {
    match media_reject_reason(rkey, d) {
        None => Outcome::Applied,
        Some(r) => Outcome::Rejected(r),
    }
}

/// A post create/update: validate, then upsert; a rejection writes nothing.
pub open spec fn spec_post_create(s: StoreModel, rd: TapRecordEventDataModel, d: MediaRecordModel, now: i64) -> StoreModel {
    if media_reject_reason(rd.rkey, d) is None {
        StoreModel { posts: spec_media_upsert(s.posts, rd.did, rd.rkey, d, now), ..s }
    } else {
        s
    }
}

/// A favourite create/update: the same transition on the favourite table.
pub open spec fn spec_favourite_create(s: StoreModel, rd: TapRecordEventDataModel, d: MediaRecordModel, now: i64) -> StoreModel {
    if media_reject_reason(rd.rkey, d) is None {
        StoreModel { favourites: spec_media_upsert(s.favourites, rd.did, rd.rkey, d, now), ..s }
    } else {
        s
    }
}

/// A post delete: unconditional removal by key.
pub open spec fn spec_post_delete(s: StoreModel, rd: TapRecordEventDataModel) -> StoreModel {
    StoreModel { posts: spec_media_delete(s.posts, rd.did, rd.rkey), ..s }
}

/// A favourite delete: unconditional removal by key.
pub open spec fn spec_favourite_delete(s: StoreModel, rd: TapRecordEventDataModel) -> StoreModel {
    StoreModel { favourites: spec_media_delete(s.favourites, rd.did, rd.rkey), ..s }
}

/// The outcome of a profile upsert.
pub open spec fn profile_outcome(rkey: Seq<char>, d: ProfileRecordModel) -> Outcome {
    match profile_reject_reason(rkey, d) {
        None => Outcome::Applied,
        Some(r) => Outcome::Rejected(r),
    }
}

/// A profile create/update: validate, then upsert the user-defined
/// fields of the account row.
pub open spec fn spec_profile_create(s: StoreModel, rd: TapRecordEventDataModel, d: ProfileRecordModel) -> StoreModel {
    if profile_reject_reason(rd.rkey, d) is None {
        StoreModel { accounts: spec_account_profile_upsert(s.accounts, rd.did, d), ..s }
    } else {
        s
    }
}

/// The outcome of a profile delete: the sentinel rkey is still required.
pub open spec fn profile_delete_outcome(rkey: Seq<char>) -> Outcome {
    if rkey == "self"@ {
        Outcome::Applied
    } else {
        Outcome::Rejected(RejectReason::NotSelfRkey)
    }
}

/// A profile delete: clears the user-defined fields of the account row.
pub open spec fn spec_profile_delete(s: StoreModel, rd: TapRecordEventDataModel) -> StoreModel {
    if rd.rkey == "self"@ {
        StoreModel { accounts: spec_account_profile_clear(s.accounts, rd.did), ..s }
    } else {
        s
    }
}

/// The outcome of a label upsert.
pub open spec fn label_outcome(did: Seq<char>, d: LabelRecordModel) -> Outcome {
    match label_reject_reason(did, d) {
        None => Outcome::Applied,
        Some(r) => Outcome::Rejected(r),
    }
}

/// A label create/update: validate the rule reference, then upsert.
pub open spec fn spec_label_create(s: StoreModel, rd: TapRecordEventDataModel, d: LabelRecordModel, now: i64) -> StoreModel {
    if label_reject_reason(rd.did, d) is None {
        StoreModel { labels: spec_label_upsert(s.labels, rd.did, rd.rkey, d, now), ..s }
    } else {
        s
    }
}

/// A label delete: unconditional removal by key.
pub open spec fn spec_label_delete_event(s: StoreModel, rd: TapRecordEventDataModel) -> StoreModel {
    StoreModel { labels: spec_label_delete(s.labels, rd.did, rd.rkey), ..s }
}

/// The outcome of a rule upsert.
pub open spec fn rule_outcome(d: RuleRecordModel) -> Outcome {
    match rule_reject_reason(d) {
        None => Outcome::Applied,
        Some(r) => Outcome::Rejected(r),
    }
}

/// A rule create/update: validate the behaviour, then upsert.
pub open spec fn spec_rule_create(s: StoreModel, rd: TapRecordEventDataModel, d: RuleRecordModel, now: i64) -> StoreModel {
    if rule_reject_reason(d) is None {
        StoreModel { rules: spec_rule_upsert(s.rules, rd.did, rd.rkey, d, now), ..s }
    } else {
        s
    }
}

/// A rule delete: unconditional removal by key.
pub open spec fn spec_rule_delete_event(s: StoreModel, rd: TapRecordEventDataModel) -> StoreModel {
    StoreModel { rules: spec_rule_delete(s.rules, rd.did, rd.rkey), ..s }
}

/// Validates a post record and upserts it into the post table; a
/// validation failure writes nothing and reports why.
pub fn handle_post_create(store: &mut Store, record_data: &TapRecordEventData, data: &MediaRecord, now: i64) -> (o: Outcome)
    requires
        old(store)@.wf(),
    ensures
        final(store)@.wf(),
        final(store)@ == spec_post_create(old(store)@, record_data.deep_view(), data.deep_view(), now),
        o == media_outcome(record_data.rkey@, data.deep_view()),
{
    match media_validate(record_data.rkey.as_str(), data) {
        Some(r) => Outcome::Rejected(r),
        None => {
            media_upsert(&mut store.posts, &record_data.did, &record_data.rkey, data, now);
            proof {
                assert(store@ =~= spec_post_create(
                    old(store)@,
                    record_data.deep_view(),
                    data.deep_view(),
                    now,
                ));
            }
            Outcome::Applied
        },
    }
}

/// Validates a favourite record and upserts it into the favourite table.
pub fn handle_favourite_create_event(store: &mut Store, record_data: &TapRecordEventData, data: &MediaRecord, now: i64) -> (o: Outcome)
    requires
        old(store)@.wf(),
    ensures
        final(store)@.wf(),
        final(store)@ == spec_favourite_create(old(store)@, record_data.deep_view(), data.deep_view(), now),
        o == media_outcome(record_data.rkey@, data.deep_view()),
{
    match media_validate(record_data.rkey.as_str(), data) {
        Some(r) => Outcome::Rejected(r),
        None => {
            media_upsert(&mut store.favourites, &record_data.did, &record_data.rkey, data, now);
            proof {
                assert(store@ =~= spec_favourite_create(
                    old(store)@,
                    record_data.deep_view(),
                    data.deep_view(),
                    now,
                ));
            }
            Outcome::Applied
        },
    }
}

/// Deletes a post by key; an absent key is a successful no-op.
pub fn handle_post_delete(store: &mut Store, record_data: &TapRecordEventData) -> (o: Outcome)
    requires
        old(store)@.wf(),
    ensures
        final(store)@.wf(),
        final(store)@ == spec_post_delete(old(store)@, record_data.deep_view()),
        o == Outcome::Applied,
{
    media_delete(&mut store.posts, &record_data.did, &record_data.rkey);
    proof {
        assert(store@ =~= spec_post_delete(old(store)@, record_data.deep_view()));
    }
    Outcome::Applied
}

/// Deletes a favourite by key; an absent key is a successful no-op.
pub fn handle_favourite_delete_event(store: &mut Store, record_data: &TapRecordEventData) -> (o: Outcome)
    requires
        old(store)@.wf(),
    ensures
        final(store)@.wf(),
        final(store)@ == spec_favourite_delete(old(store)@, record_data.deep_view()),
        o == Outcome::Applied,
{
    media_delete(&mut store.favourites, &record_data.did, &record_data.rkey);
    proof {
        assert(store@ =~= spec_favourite_delete(old(store)@, record_data.deep_view()));
    }
    Outcome::Applied
}

/// Validates a profile record and upserts the account's user-defined
/// fields; a validation failure writes nothing and reports why.
pub fn handle_profile_create_event(store: &mut Store, record_data: &TapRecordEventData, data: &ProfileRecord) -> (o: Outcome)
    requires
        old(store)@.wf(),
    ensures
        final(store)@.wf(),
        final(store)@ == spec_profile_create(old(store)@, record_data.deep_view(), data.deep_view()),
        o == profile_outcome(record_data.rkey@, data.deep_view()),
{
    match profile_validate(record_data.rkey.as_str(), data) {
        Some(r) => Outcome::Rejected(r),
        None => {
            account_profile_upsert(&mut store.accounts, &record_data.did, data);
            proof {
                assert(store@ =~= spec_profile_create(
                    old(store)@,
                    record_data.deep_view(),
                    data.deep_view(),
                ));
            }
            Outcome::Applied
        },
    }
}

/// Clears the account's user-defined profile fields; the sentinel rkey
/// is still required, and an absent account is a successful no-op.
pub fn handle_profile_delete_event(store: &mut Store, record_data: &TapRecordEventData) -> (o: Outcome)
    requires
        old(store)@.wf(),
    ensures
        final(store)@.wf(),
        final(store)@ == spec_profile_delete(old(store)@, record_data.deep_view()),
        o == profile_delete_outcome(record_data.rkey@),
{
    if !str_eq(record_data.rkey.as_str(), "self") {
        return Outcome::Rejected(RejectReason::NotSelfRkey);
    }
    account_profile_clear(&mut store.accounts, &record_data.did);
    proof {
        assert(store@ =~= spec_profile_delete(old(store)@, record_data.deep_view()));
    }
    Outcome::Applied
}

/// Validates a label's rule reference and upserts the label; a
/// validation failure writes nothing and reports why.
pub fn handle_label_create_event(store: &mut Store, record_data: &TapRecordEventData, data: &LabelRecord, now: i64) -> (o: Outcome)
    requires
        old(store)@.wf(),
    ensures
        final(store)@.wf(),
        final(store)@ == spec_label_create(old(store)@, record_data.deep_view(), data.deep_view(), now),
        o == label_outcome(record_data.did@, data.deep_view()),
{
    match label_validate(record_data.did.as_str(), data) {
        Some(r) => Outcome::Rejected(r),
        None => {
            label_upsert(&mut store.labels, &record_data.did, &record_data.rkey, data, now);
            proof {
                assert(store@ =~= spec_label_create(
                    old(store)@,
                    record_data.deep_view(),
                    data.deep_view(),
                    now,
                ));
            }
            Outcome::Applied
        },
    }
}

/// Deletes a label by key; an absent key is a successful no-op.
pub fn handle_label_delete_event(store: &mut Store, record_data: &TapRecordEventData) -> (o: Outcome)
    requires
        old(store)@.wf(),
    ensures
        final(store)@.wf(),
        final(store)@ == spec_label_delete_event(old(store)@, record_data.deep_view()),
        o == Outcome::Applied,
{
    label_delete(&mut store.labels, &record_data.did, &record_data.rkey);
    proof {
        assert(store@ =~= spec_label_delete_event(old(store)@, record_data.deep_view()));
    }
    Outcome::Applied
}

/// Validates a rule's behaviour and upserts the rule; an unknown
/// behaviour variant is rejected, never stored.
pub fn handle_rule_create_event(store: &mut Store, record_data: &TapRecordEventData, data: &RuleRecord, now: i64) -> (o: Outcome)
    requires
        old(store)@.wf(),
    ensures
        final(store)@.wf(),
        final(store)@ == spec_rule_create(old(store)@, record_data.deep_view(), data.deep_view(), now),
        o == rule_outcome(data.deep_view()),
{
    match rule_validate(data) {
        Some(r) => Outcome::Rejected(r),
        None => {
            rule_upsert(&mut store.rules, &record_data.did, &record_data.rkey, data, now);
            proof {
                assert(store@ =~= spec_rule_create(
                    old(store)@,
                    record_data.deep_view(),
                    data.deep_view(),
                    now,
                ));
            }
            Outcome::Applied
        },
    }
}

/// Deletes a rule by key; an absent key is a successful no-op.
pub fn handle_rule_delete_event(store: &mut Store, record_data: &TapRecordEventData) -> (o: Outcome)
    requires
        old(store)@.wf(),
    ensures
        final(store)@.wf(),
        final(store)@ == spec_rule_delete_event(old(store)@, record_data.deep_view()),
        o == Outcome::Applied,
{
    rule_delete(&mut store.rules, &record_data.did, &record_data.rkey);
    proof {
        assert(store@ =~= spec_rule_delete_event(old(store)@, record_data.deep_view()));
    }
    Outcome::Applied
}

// ---------------------------------------------------------------------
// The identity handler.
// ---------------------------------------------------------------------

/// The statuses that irrevocably purge an account.
pub open spec fn is_purging_status(status: Seq<char>) -> bool {
    status == "deleted"@ || status == "takendown"@
}

/// The purge of one account: the account row and every dependent row in
/// every record table for that did.
pub open spec fn spec_purge_account(s: StoreModel, did: Seq<char>) -> StoreModel {
    StoreModel {
        accounts: spec_account_remove(s.accounts, did),
        posts: spec_media_purge(s.posts, did),
        favourites: spec_media_purge(s.favourites, did),
        labels: spec_label_purge(s.labels, did),
        rules: spec_rule_purge(s.rules, did),
    }
}

/// An identity event: a purging status removes the account and all its
/// rows; any other status upserts handle, activity and status,
/// preserving the profile fields.
pub open spec fn spec_identity(s: StoreModel, idm: TapIdentityEventDataModel) -> StoreModel {
    if is_purging_status(idm.status) {
        spec_purge_account(s, idm.did)
    } else {
        StoreModel {
            accounts: spec_account_identity_upsert(
                s.accounts,
                idm.did,
                idm.handle,
                idm.is_active,
                idm.status,
            ),
            ..s
        }
    }
}

/// Applies an account lifecycle transition.
pub fn handle_identity(store: &mut Store, identity: &TapIdentityEventData) -> (o: Outcome)
    requires
        old(store)@.wf(),
    ensures
        final(store)@.wf(),
        final(store)@ == spec_identity(old(store)@, identity.deep_view()),
        o == Outcome::Applied,
{
    if str_eq(identity.status.as_str(), "deleted") || str_eq(identity.status.as_str(), "takendown") {
        account_remove(&mut store.accounts, &identity.did);
        media_purge(&mut store.posts, &identity.did);
        media_purge(&mut store.favourites, &identity.did);
        label_purge(&mut store.labels, &identity.did);
        rule_purge(&mut store.rules, &identity.did);
        proof {
            assert(store@ =~= spec_identity(old(store)@, identity.deep_view()));
        }
        return Outcome::Applied;
    }
    account_identity_upsert(
        &mut store.accounts,
        &identity.did,
        &identity.handle,
        identity.is_active,
        &identity.status,
    );
    proof {
        assert(store@ =~= spec_identity(old(store)@, identity.deep_view()));
    }
    Outcome::Applied
}


// ---------------------------------------------------------------------
// The record router and the top-level dispatcher.
// ---------------------------------------------------------------------

/// What one record event comes to: the router misses on an unknown
/// collection; a payload under the wrong collection is rejected; the
/// per-kind validation decides the rest. Deletes carry no payload and
/// always apply (a profile delete still requires the sentinel rkey).
pub open spec fn spec_record_outcome(rd: TapRecordEventDataModel) -> Outcome {
    match rd.action {
        TapRecordActionModel::Create { record, .. } | TapRecordActionModel::Update {
            record,
            ..
        } => match spec_route(rd.collection) {
            None => Outcome::Unsupported,
            Some(RecordKind::Post) => match record {
                TapRecordDataModel::Post(d) => media_outcome(rd.rkey, d),
                _ => Outcome::Rejected(RejectReason::PayloadShape),
            },
            Some(RecordKind::Favourite) => match record {
                TapRecordDataModel::Favourite(d) => media_outcome(rd.rkey, d),
                _ => Outcome::Rejected(RejectReason::PayloadShape),
            },
            Some(RecordKind::Profile) => match record {
                TapRecordDataModel::Profile(d) => profile_outcome(rd.rkey, d),
                _ => Outcome::Rejected(RejectReason::PayloadShape),
            },
            Some(RecordKind::Label) => match record {
                TapRecordDataModel::Label(d) => label_outcome(rd.did, d),
                _ => Outcome::Rejected(RejectReason::PayloadShape),
            },
            Some(RecordKind::Rule) => match record {
                TapRecordDataModel::Rule(d) => rule_outcome(d),
                _ => Outcome::Rejected(RejectReason::PayloadShape),
            },
        },
        TapRecordActionModel::Delete => match spec_route(rd.collection) {
            None => Outcome::Unsupported,
            Some(RecordKind::Profile) => profile_delete_outcome(rd.rkey),
            Some(_) => Outcome::Applied,
        },
    }
}

/// The table transition of one record event, before the rev watermark.
pub open spec fn spec_apply_record_tables(s: StoreModel, rd: TapRecordEventDataModel, now: i64) -> StoreModel {
    match rd.action {
        TapRecordActionModel::Create { record, .. } | TapRecordActionModel::Update {
            record,
            ..
        } => match spec_route(rd.collection) {
            None => s,
            Some(RecordKind::Post) => match record {
                TapRecordDataModel::Post(d) => spec_post_create(s, rd, d, now),
                _ => s,
            },
            Some(RecordKind::Favourite) => match record {
                TapRecordDataModel::Favourite(d) => spec_favourite_create(s, rd, d, now),
                _ => s,
            },
            Some(RecordKind::Profile) => match record {
                TapRecordDataModel::Profile(d) => spec_profile_create(s, rd, d),
                _ => s,
            },
            Some(RecordKind::Label) => match record {
                TapRecordDataModel::Label(d) => spec_label_create(s, rd, d, now),
                _ => s,
            },
            Some(RecordKind::Rule) => match record {
                TapRecordDataModel::Rule(d) => spec_rule_create(s, rd, d, now),
                _ => s,
            },
        },
        TapRecordActionModel::Delete => match spec_route(rd.collection) {
            None => s,
            Some(RecordKind::Post) => spec_post_delete(s, rd),
            Some(RecordKind::Favourite) => spec_favourite_delete(s, rd),
            Some(RecordKind::Profile) => spec_profile_delete(s, rd),
            Some(RecordKind::Label) => spec_label_delete_event(s, rd),
            Some(RecordKind::Rule) => spec_rule_delete_event(s, rd),
        },
    }
}

/// One record event as one atomic transition: the table mutation and,
/// when the event applied, the account's rev watermark, together.
/// A rejected or unsupported event writes nothing at all.
pub open spec fn spec_process_record(s: StoreModel, rd: TapRecordEventDataModel, now: i64) -> StoreModel {
    let s1 = spec_apply_record_tables(s, rd, now);
    if spec_record_outcome(rd) == Outcome::Applied {
        StoreModel { accounts: spec_account_set_rev(s1.accounts, rd.did, rd.rev), ..s1 }
    } else {
        s1
    }
}

/// The transition of one inbound event.
pub open spec fn spec_handle_event(s: StoreModel, ev: TapEventModel, now: i64) -> StoreModel {
    match ev {
        TapEventModel::Identity { identity, .. } => spec_identity(s, identity),
        TapEventModel::Record { record, .. } => spec_process_record(s, record, now),
    }
}

/// The outcome of one inbound event.
pub open spec fn spec_event_outcome(ev: TapEventModel) -> Outcome {
    match ev {
        TapEventModel::Identity { .. } => Outcome::Applied,
        TapEventModel::Record { record, .. } => spec_record_outcome(record),
    }
}

/// The id of one inbound event, echoed in its acknowledgment.
pub open spec fn spec_event_id(ev: TapEventModel) -> usize {
    match ev {
        TapEventModel::Identity { id, .. } => id,
        TapEventModel::Record { id, .. } => id,
    }
}

/// Routes one record event to its handler and, when it applied, updates
/// the account's rev watermark in the same transition.
fn apply_record_event(store: &mut Store, rd: &TapRecordEventData, now: i64) -> (o: Outcome)
    requires
        old(store)@.wf(),
    ensures
        final(store)@.wf(),
        final(store)@ == spec_process_record(old(store)@, rd.deep_view(), now),
        o == spec_record_outcome(rd.deep_view()),
{
    let outcome = match &rd.action {
        TapRecordAction::Create { record, .. } | TapRecordAction::Update { record, .. } => {
            match route_collection(rd.collection.as_str()) {
                None => Outcome::Unsupported,
                Some(RecordKind::Post) => match record {
                    TapRecordData::Post(d) => handle_post_create(store, rd, d, now),
                    _ => Outcome::Rejected(RejectReason::PayloadShape),
                },
                Some(RecordKind::Favourite) => match record {
                    TapRecordData::Favourite(d) => handle_favourite_create_event(store, rd, d, now),
                    _ => Outcome::Rejected(RejectReason::PayloadShape),
                },
                Some(RecordKind::Profile) => match record {
                    TapRecordData::Profile(d) => handle_profile_create_event(store, rd, d),
                    _ => Outcome::Rejected(RejectReason::PayloadShape),
                },
                Some(RecordKind::Label) => match record {
                    TapRecordData::Label(d) => handle_label_create_event(store, rd, d, now),
                    _ => Outcome::Rejected(RejectReason::PayloadShape),
                },
                Some(RecordKind::Rule) => match record {
                    TapRecordData::Rule(d) => handle_rule_create_event(store, rd, d, now),
                    _ => Outcome::Rejected(RejectReason::PayloadShape),
                },
            }
        },
        TapRecordAction::Delete => match route_collection(rd.collection.as_str()) {
            None => Outcome::Unsupported,
            Some(RecordKind::Post) => handle_post_delete(store, rd),
            Some(RecordKind::Favourite) => handle_favourite_delete_event(store, rd),
            Some(RecordKind::Profile) => handle_profile_delete_event(store, rd),
            Some(RecordKind::Label) => handle_label_delete_event(store, rd),
            Some(RecordKind::Rule) => handle_rule_delete_event(store, rd),
        },
    };
    match outcome {
        Outcome::Applied => {
            account_set_rev(&mut store.accounts, &rd.did, &rd.rev);
            proof {
                assert(store@ =~= spec_process_record(old(store)@, rd.deep_view(), now));
            }
        },
        _ => {
            proof {
                assert(store@ =~= spec_process_record(old(store)@, rd.deep_view(), now));
            }
        },
    }
    outcome
}

/// Applies one inbound event to the projection and returns the event id
/// with its outcome; the caller acknowledges by that id when the
/// outcome asks for it.
pub fn handle_event(store: &mut Store, data: &TapEvent, now: i64) -> (r: (usize, Outcome))
    requires
        old(store)@.wf(),
    ensures
        final(store)@.wf(),
        final(store)@ == spec_handle_event(old(store)@, data.deep_view(), now),
        r.0 == spec_event_id(data.deep_view()),
        r.1 == spec_event_outcome(data.deep_view()),
{
    match data {
        TapEvent::Identity { id, identity } => {
            let o = handle_identity(store, identity);
            (*id, o)
        },
        TapEvent::Record { id, record } => {
            let o = apply_record_event(store, record, now);
            (*id, o)
        },
    }
}

} // verus!
