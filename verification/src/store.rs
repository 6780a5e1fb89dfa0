//! The relational projection: five tables keyed by did (accounts) or
//! (did, rkey) (posts, favourites, labels, rules), modelled as sequences
//! of rows with unique keys. Every mutation is a verified transition.

use vstd::prelude::*;
use vstd::seq_lib::*;
use crate::events::{MediaRecord, MediaRecordModel, ProfileRecord, ProfileRecordModel, LabelRecord,
    LabelRecordModel, RuleRecord, RuleRecordModel, RuleBehaviour, RuleBehaviourModel};
use crate::text::{str_eq, clone_string, clone_opt_string, clone_vec_string, clone_opt_vec_string};

verus! {

// ---------------------------------------------------------------------
// Generic facts about sequences with unique keys.
// ---------------------------------------------------------------------

/// The rows of `s` have pairwise distinct keys under `kf`.
pub open spec fn unique_by<T, K>(s: Seq<T>, kf: spec_fn(T) -> K) -> bool {
    forall|i: int, j: int| 0 <= i < j < s.len() ==> kf(#[trigger] s[i]) != kf(#[trigger] s[j])
}

/// Some row of `s` has key `k` under `kf`.
pub open spec fn contains_key<T, K>(s: Seq<T>, kf: spec_fn(T) -> K, k: K) -> bool {
    exists|i: int| 0 <= i < s.len() && kf(#[trigger] s[i]) == k
}

/// The index of the row of `s` with key `k`; meaningful when the key
/// occurs and the keys are unique.
pub open spec fn index_of_key<T, K>(s: Seq<T>, kf: spec_fn(T) -> K, k: K) -> int {
    choose|i: int| 0 <= i < s.len() && kf(#[trigger] s[i]) == k
}

/// Under unique keys, the row found at `i` is the row `index_of_key` names.
pub proof fn lemma_index_of_key<T, K>(s: Seq<T>, kf: spec_fn(T) -> K, k: K, i: int)
    requires
        unique_by(s, kf),
        0 <= i < s.len(),
        kf(s[i]) == k,
    ensures
        contains_key(s, kf, k),
        index_of_key(s, kf, k) == i,
{
    assert(contains_key(s, kf, k));
    let j = index_of_key(s, kf, k);
    if j != i {
        assert(kf(s[i]) != kf(s[j]));
    }
}

/// Replacing a row by one with the same key keeps the keys unique.
pub proof fn lemma_unique_update<T, K>(s: Seq<T>, kf: spec_fn(T) -> K, i: int, x: T)
    requires
        unique_by(s, kf),
        0 <= i < s.len(),
        kf(x) == kf(s[i]),
    ensures
        unique_by(s.update(i, x), kf),
{
    let t = s.update(i, x);
    assert forall|a: int, b: int| 0 <= a < b < t.len() implies kf(#[trigger] t[a]) != kf(
        #[trigger] t[b],
    ) by {
        assert(kf(s[a]) != kf(s[b]));
    }
}

/// Appending a row whose key is absent keeps the keys unique.
pub proof fn lemma_unique_push<T, K>(s: Seq<T>, kf: spec_fn(T) -> K, x: T)
    requires
        unique_by(s, kf),
        !contains_key(s, kf, kf(x)),
    ensures
        unique_by(s.push(x), kf),
{
    let t = s.push(x);
    assert forall|a: int, b: int| 0 <= a < b < t.len() implies kf(#[trigger] t[a]) != kf(
        #[trigger] t[b],
    ) by {
        if b < s.len() {
            assert(kf(s[a]) != kf(s[b]));
        } else {
            assert(t[a] == s[a]);
            if kf(t[a]) == kf(x) {
                assert(contains_key(s, kf, kf(x)));
            }
        }
    }
}

/// Removing a row keeps the keys unique.
pub proof fn lemma_unique_remove<T, K>(s: Seq<T>, kf: spec_fn(T) -> K, i: int)
    requires
        unique_by(s, kf),
        0 <= i < s.len(),
    ensures
        unique_by(s.remove(i), kf),
{
    let t = s.remove(i);
    s.remove_ensures(i);
    assert forall|a: int, b: int| 0 <= a < b < t.len() implies kf(#[trigger] t[a]) != kf(
        #[trigger] t[b],
    ) by {
        let a0: int = if a < i { a } else { a + 1 };
        let b0: int = if b < i { b } else { b + 1 };
        assert(t[a] == s[a0]);
        assert(t[b] == s[b0]);
        assert(kf(s[a0]) != kf(s[b0]));
    }
}

/// Filtering keeps the keys unique, and keeps only rows of `s`.
pub proof fn lemma_unique_filter<T, K>(s: Seq<T>, kf: spec_fn(T) -> K, p: spec_fn(T) -> bool)
    requires
        unique_by(s, kf),
    ensures
        unique_by(s.filter(p), kf),
        forall|x: T| #[trigger] s.filter(p).contains(x) ==> s.contains(x),
    decreases s.len(),
{
    reveal(Seq::filter);
    if s.len() == 0 {
    } else {
        let d = s.drop_last();
        assert(unique_by(d, kf)) by {
            assert forall|i: int, j: int| 0 <= i < j < d.len() implies kf(#[trigger] d[i]) != kf(
                #[trigger] d[j],
            ) by {
                assert(kf(s[i]) != kf(s[j]));
            }
        }
        lemma_unique_filter(d, kf, p);
        let f = d.filter(p);
        if p(s.last()) {
            let t = f.push(s.last());
            assert(s.filter(p) == t);
            assert forall|a: int, b: int| 0 <= a < b < t.len() implies kf(#[trigger] t[a]) != kf(
                #[trigger] t[b],
            ) by {
                if b < f.len() {
                    assert(kf(f[a]) != kf(f[b]));
                } else {
                    assert(t[a] == f[a]);
                    assert(f.contains(f[a]));
                    assert(d.contains(f[a]));
                    let i0 = choose|i0: int| 0 <= i0 < d.len() && d[i0] == f[a];
                    assert(s[i0] == d[i0]);
                    assert(kf(s[i0]) != kf(s[s.len() - 1]));
                }
            }
            assert forall|x: T| #[trigger] t.contains(x) implies s.contains(x) by {
                let i0 = choose|i0: int| 0 <= i0 < t.len() && t[i0] == x;
                if i0 < f.len() {
                    assert(f.contains(x));
                    assert(d.contains(x));
                    let i1 = choose|i1: int| 0 <= i1 < d.len() && d[i1] == x;
                    assert(s[i1] == x);
                } else {
                    assert(s[s.len() - 1] == x);
                }
            }
        } else {
            assert(s.filter(p) == f);
            assert forall|x: T| #[trigger] f.contains(x) implies s.contains(x) by {
                assert(d.contains(x));
                let i1 = choose|i1: int| 0 <= i1 < d.len() && d[i1] == x;
                assert(s[i1] == x);
            }
        }
    }
}

// ---------------------------------------------------------------------
// Rows and their models.
// ---------------------------------------------------------------------

/// A post or favourite row.
#[derive(Debug, Clone)]
pub struct MediaRow {
    pub did: String,
    pub rkey: String,
    pub media_blob_cid: String,
    pub media_blob_mime: String,
    pub title: String,
    pub alt: Option<String>,
    pub tags: Vec<String>,
    pub languages: Option<Vec<String>>,
    pub created_at: i64,
    pub edited_at: Option<i64>,
}

pub struct MediaRowModel {
    pub did: Seq<char>,
    pub rkey: Seq<char>,
    pub media_blob_cid: Seq<char>,
    pub media_blob_mime: Seq<char>,
    pub title: Seq<char>,
    pub alt: Option<Seq<char>>,
    pub tags: Seq<Seq<char>>,
    pub languages: Option<Seq<Seq<char>>>,
    pub created_at: i64,
    pub edited_at: Option<i64>,
}

impl DeepView for MediaRow {
    type V = MediaRowModel;

    open spec fn deep_view(&self) -> MediaRowModel {
        MediaRowModel {
            did: self.did.deep_view(),
            rkey: self.rkey.deep_view(),
            media_blob_cid: self.media_blob_cid.deep_view(),
            media_blob_mime: self.media_blob_mime.deep_view(),
            title: self.title.deep_view(),
            alt: self.alt.deep_view(),
            tags: self.tags.deep_view(),
            languages: self.languages.deep_view(),
            created_at: self.created_at,
            edited_at: self.edited_at,
        }
    }
}

/// The key of a media row.
pub open spec fn media_key() -> spec_fn(MediaRowModel) -> (Seq<char>, Seq<char>) {
    |r: MediaRowModel| (r.did, r.rkey)
}

/// An account row.
#[derive(Debug, Clone)]
pub struct AccountRow {
    pub did: String,
    pub handle: Option<String>,
    pub is_active: bool,
    pub status: Option<String>,
    pub rev: Option<String>,
    pub display_name: Option<String>,
    pub pronouns: Option<String>,
    pub avatar_cid: Option<String>,
    pub created_at: Option<i64>,
}

pub struct AccountRowModel {
    pub did: Seq<char>,
    pub handle: Option<Seq<char>>,
    pub is_active: bool,
    pub status: Option<Seq<char>>,
    pub rev: Option<Seq<char>>,
    pub display_name: Option<Seq<char>>,
    pub pronouns: Option<Seq<char>>,
    pub avatar_cid: Option<Seq<char>>,
    pub created_at: Option<i64>,
}

impl DeepView for AccountRow {
    type V = AccountRowModel;

    open spec fn deep_view(&self) -> AccountRowModel {
        AccountRowModel {
            did: self.did.deep_view(),
            handle: self.handle.deep_view(),
            is_active: self.is_active,
            status: self.status.deep_view(),
            rev: self.rev.deep_view(),
            display_name: self.display_name.deep_view(),
            pronouns: self.pronouns.deep_view(),
            avatar_cid: self.avatar_cid.deep_view(),
            created_at: self.created_at,
        }
    }
}

/// The key of an account row.
pub open spec fn account_key() -> spec_fn(AccountRowModel) -> Seq<char> {
    |r: AccountRowModel| r.did
}

/// A label row.
#[derive(Debug, Clone)]
pub struct LabelRow {
    pub did: String,
    pub rkey: String,
    pub rule_did: String,
    pub rule_rkey: String,
    pub subject_did: String,
    pub subject_collection: Option<String>,
    pub subject_rkey: Option<String>,
    pub reason: Option<String>,
    pub created_at: i64,
    pub edited_at: Option<i64>,
    pub expires_at: Option<i64>,
}

pub struct LabelRowModel {
    pub did: Seq<char>,
    pub rkey: Seq<char>,
    pub rule_did: Seq<char>,
    pub rule_rkey: Seq<char>,
    pub subject_did: Seq<char>,
    pub subject_collection: Option<Seq<char>>,
    pub subject_rkey: Option<Seq<char>>,
    pub reason: Option<Seq<char>>,
    pub created_at: i64,
    pub edited_at: Option<i64>,
    pub expires_at: Option<i64>,
}

impl DeepView for LabelRow {
    type V = LabelRowModel;

    open spec fn deep_view(&self) -> LabelRowModel {
        LabelRowModel {
            did: self.did.deep_view(),
            rkey: self.rkey.deep_view(),
            rule_did: self.rule_did.deep_view(),
            rule_rkey: self.rule_rkey.deep_view(),
            subject_did: self.subject_did.deep_view(),
            subject_collection: self.subject_collection.deep_view(),
            subject_rkey: self.subject_rkey.deep_view(),
            reason: self.reason.deep_view(),
            created_at: self.created_at,
            edited_at: self.edited_at,
            expires_at: self.expires_at,
        }
    }
}

/// The key of a label row.
pub open spec fn label_key() -> spec_fn(LabelRowModel) -> (Seq<char>, Seq<char>) {
    |r: LabelRowModel| (r.did, r.rkey)
}

/// A labeler rule row. Its behaviour holds one of the two known
/// variants; the `Unknown` sentinel is rejected before this point.
#[derive(Debug, Clone)]
pub struct RuleRow {
    pub did: String,
    pub rkey: String,
    pub name: String,
    pub description: String,
    pub behaviour: RuleBehaviour,
    pub created_at: i64,
    pub edited_at: Option<i64>,
}

pub struct RuleRowModel {
    pub did: Seq<char>,
    pub rkey: Seq<char>,
    pub name: Seq<char>,
    pub description: Seq<char>,
    pub behaviour: RuleBehaviourModel,
    pub created_at: i64,
    pub edited_at: Option<i64>,
}

impl DeepView for RuleRow {
    type V = RuleRowModel;

    open spec fn deep_view(&self) -> RuleRowModel {
        RuleRowModel {
            did: self.did.deep_view(),
            rkey: self.rkey.deep_view(),
            name: self.name.deep_view(),
            description: self.description.deep_view(),
            behaviour: self.behaviour.deep_view(),
            created_at: self.created_at,
            edited_at: self.edited_at,
        }
    }
}

/// The key of a rule row.
pub open spec fn rule_key() -> spec_fn(RuleRowModel) -> (Seq<char>, Seq<char>) {
    |r: RuleRowModel| (r.did, r.rkey)
}

// ---------------------------------------------------------------------
// The store.
// ---------------------------------------------------------------------

/// The projection: one vector per table.
#[derive(Debug)]
pub struct Store {
    pub accounts: Vec<AccountRow>,
    pub posts: Vec<MediaRow>,
    pub favourites: Vec<MediaRow>,
    pub labels: Vec<LabelRow>,
    pub rules: Vec<RuleRow>,
}

/// The mathematical model of the store.
#[verifier::ext_equal]
pub struct StoreModel {
    pub accounts: Seq<AccountRowModel>,
    pub posts: Seq<MediaRowModel>,
    pub favourites: Seq<MediaRowModel>,
    pub labels: Seq<LabelRowModel>,
    pub rules: Seq<RuleRowModel>,
}

impl View for Store {
    type V = StoreModel;

    open spec fn view(&self) -> StoreModel {
        StoreModel {
            accounts: self.accounts.deep_view(),
            posts: self.posts.deep_view(),
            favourites: self.favourites.deep_view(),
            labels: self.labels.deep_view(),
            rules: self.rules.deep_view(),
        }
    }
}

impl StoreModel {
    /// Every composite key is unique.
    pub open spec fn wf(self) -> bool {
        &&& unique_by(self.accounts, account_key())
        &&& unique_by(self.posts, media_key())
        &&& unique_by(self.favourites, media_key())
        &&& unique_by(self.labels, label_key())
        &&& unique_by(self.rules, rule_key())
    }

    pub open spec fn empty() -> StoreModel {
        StoreModel {
            accounts: Seq::empty(),
            posts: Seq::empty(),
            favourites: Seq::empty(),
            labels: Seq::empty(),
            rules: Seq::empty(),
        }
    }
}

impl Store {
    /// An empty projection.
    pub fn new() -> (s: Store)
        ensures
            s@ == StoreModel::empty(),
            s@.wf(),
    {
        let s = Store {
            accounts: Vec::new(),
            posts: Vec::new(),
            favourites: Vec::new(),
            labels: Vec::new(),
            rules: Vec::new(),
        };
        proof {
            assert(s@ =~= StoreModel::empty());
        }
        s
    }
}

// ---------------------------------------------------------------------
// Media table transitions (posts and favourites share them).
// ---------------------------------------------------------------------

/// A media row as first persisted: `created_at` from the record,
/// `edited_at` unset.
pub open spec fn media_fresh_row(did: Seq<char>, rkey: Seq<char>, d: MediaRecordModel) -> MediaRowModel {
    MediaRowModel {
        did: did,
        rkey: rkey,
        media_blob_cid: d.blob.cid,
        media_blob_mime: d.blob.mime_type,
        title: d.title,
        alt: d.alt,
        tags: d.tags,
        languages: d.languages,
        created_at: d.created_at,
        edited_at: None,
    }
}

/// A media row after an update: only the mutable fields (title, alt
/// text, tags) change, plus the server-assigned `edited_at`; the key,
/// the blob reference and `created_at` are never overwritten.
pub open spec fn media_updated_row(r: MediaRowModel, d: MediaRecordModel, now: i64) -> MediaRowModel {
    MediaRowModel { title: d.title, alt: d.alt, tags: d.tags, edited_at: Some(now), ..r }
}

/// Insert-or-update-on-conflict keyed on (did, rkey).
pub open spec fn spec_media_upsert(
    s: Seq<MediaRowModel>,
    did: Seq<char>,
    rkey: Seq<char>,
    d: MediaRecordModel,
    now: i64,
) -> Seq<MediaRowModel> {
    if contains_key(s, media_key(), (did, rkey)) {
        let i = index_of_key(s, media_key(), (did, rkey));
        s.update(i, media_updated_row(s[i], d, now))
    } else {
        s.push(media_fresh_row(did, rkey, d))
    }
}

/// Unconditional removal by key; removing an absent key is a no-op.
pub open spec fn spec_media_delete(
    s: Seq<MediaRowModel>,
    did: Seq<char>,
    rkey: Seq<char>,
) -> Seq<MediaRowModel> {
    if contains_key(s, media_key(), (did, rkey)) {
        s.remove(index_of_key(s, media_key(), (did, rkey)))
    } else {
        s
    }
}

/// Removal of every row of one account.
pub open spec fn spec_media_purge(s: Seq<MediaRowModel>, did: Seq<char>) -> Seq<MediaRowModel> {
    s.filter(|r: MediaRowModel| r.did != did)
}

/// Builds the persisted form of a media record.
fn media_fresh(did: &String, rkey: &String, d: &MediaRecord) -> (r: MediaRow)
    ensures
        r.deep_view() == media_fresh_row(did@, rkey@, d.deep_view()),
{
    MediaRow {
        did: clone_string(did),
        rkey: clone_string(rkey),
        media_blob_cid: clone_string(&d.blob.cid),
        media_blob_mime: clone_string(&d.blob.mime_type),
        title: clone_string(&d.title),
        alt: clone_opt_string(&d.alt),
        tags: clone_vec_string(&d.tags),
        languages: clone_opt_vec_string(&d.languages),
        created_at: d.created_at,
        edited_at: None,
    }
}

/// Upserts a media record into a table keyed on (did, rkey).
#[verifier::loop_isolation(false)]
pub(crate) fn media_upsert(
    v: &mut Vec<MediaRow>,
    did: &String,
    rkey: &String,
    d: &MediaRecord,
    now: i64,
)
    requires
        unique_by(old(v).deep_view(), media_key()),
    ensures
        final(v).deep_view() == spec_media_upsert(
            old(v).deep_view(),
            did@,
            rkey@,
            d.deep_view(),
            now,
        ),
        unique_by(final(v).deep_view(), media_key()),
{
    let ghost s0 = v.deep_view();
    let ghost k = (did@, rkey@);
    let mut i: usize = 0;
    while i < v.len()
        invariant
            0 <= i <= v@.len(),
            s0 == v.deep_view(),
            s0.len() == v@.len(),
            unique_by(s0, media_key()),
            forall|j: int| 0 <= j < i ==> media_key()(#[trigger] s0[j]) != k,
        decreases v@.len() - i,
    {
        proof {
            assert(s0[i as int] == v@[i as int].deep_view());
        }
        if str_eq(v[i].did.as_str(), did.as_str()) && str_eq(v[i].rkey.as_str(), rkey.as_str()) {
            let updated = {
                let r = &v[i];
                MediaRow {
                    did: clone_string(&r.did),
                    rkey: clone_string(&r.rkey),
                    media_blob_cid: clone_string(&r.media_blob_cid),
                    media_blob_mime: clone_string(&r.media_blob_mime),
                    title: clone_string(&d.title),
                    alt: clone_opt_string(&d.alt),
                    tags: clone_vec_string(&d.tags),
                    languages: clone_opt_vec_string(&r.languages),
                    created_at: r.created_at,
                    edited_at: Some(now),
                }
            };
            let ghost urow = media_updated_row(s0[i as int], d.deep_view(), now);
            proof {
                assert(media_key()(s0[i as int]) == k);
                lemma_index_of_key(s0, media_key(), k, i as int);
                assert(updated.deep_view() =~= urow);
                lemma_unique_update(s0, media_key(), i as int, urow);
            }
            v.set(i, updated);
            proof {
                assert(v.deep_view() =~= s0.update(i as int, urow));
            }
            return ;
        }
        i += 1;
    }
    proof {
        assert(!contains_key(s0, media_key(), k));
        lemma_unique_push(s0, media_key(), media_fresh_row(did@, rkey@, d.deep_view()));
    }
    let fresh = media_fresh(did, rkey, d);
    v.push(fresh);
    proof {
        assert(v.deep_view() =~= s0.push(media_fresh_row(did@, rkey@, d.deep_view())));
    }
}

/// Deletes a media record by key; deleting an absent key is a no-op.
#[verifier::loop_isolation(false)]
pub(crate) fn media_delete(v: &mut Vec<MediaRow>, did: &String, rkey: &String)
    requires
        unique_by(old(v).deep_view(), media_key()),
    ensures
        final(v).deep_view() == spec_media_delete(old(v).deep_view(), did@, rkey@),
        unique_by(final(v).deep_view(), media_key()),
{
    let ghost s0 = v.deep_view();
    let ghost k = (did@, rkey@);
    let mut i: usize = 0;
    while i < v.len()
        invariant
            0 <= i <= v@.len(),
            s0 == v.deep_view(),
            s0.len() == v@.len(),
            unique_by(s0, media_key()),
            forall|j: int| 0 <= j < i ==> media_key()(#[trigger] s0[j]) != k,
        decreases v@.len() - i,
    {
        let ghost vs0 = v@;
        proof {
            assert(s0[i as int] == v@[i as int].deep_view());
        }
        if str_eq(v[i].did.as_str(), did.as_str()) && str_eq(v[i].rkey.as_str(), rkey.as_str()) {
            proof {
                assert(media_key()(s0[i as int]) == k);
                lemma_index_of_key(s0, media_key(), k, i as int);
                lemma_unique_remove(s0, media_key(), i as int);
            }
            let _ = v.remove(i);
            proof {
                vs0.remove_ensures(i as int);
                s0.remove_ensures(i as int);
                assert(v.deep_view() =~= s0.remove(i as int));
            }
            return ;
        }
        i += 1;
    }
    proof {
        assert(!contains_key(s0, media_key(), k));
    }
}

/// Removes every media row of one account.
#[verifier::loop_isolation(false)]
pub(crate) fn media_purge(v: &mut Vec<MediaRow>, did: &String)
    requires
        unique_by(old(v).deep_view(), media_key()),
    ensures
        final(v).deep_view() == spec_media_purge(old(v).deep_view(), did@),
        unique_by(final(v).deep_view(), media_key()),
{
    let ghost s0 = v.deep_view();
    let ghost p = |r: MediaRowModel| r.did != did@;
    let mut keep: Vec<MediaRow> = Vec::new();
    let mut i: usize = 0;
    proof {
        reveal(Seq::filter);
        assert(s0.take(0).filter(p) =~= Seq::<MediaRowModel>::empty());
        assert(keep.deep_view() =~= Seq::<MediaRowModel>::empty());
    }
    while i < v.len()
        invariant
            0 <= i <= v@.len(),
            s0 == v.deep_view(),
            s0.len() == v@.len(),
            keep.deep_view() == s0.take(i as int).filter(p),
        decreases v@.len() - i,
    {
        let ghost kdv = keep.deep_view();
        proof {
            assert(s0[i as int] == v@[i as int].deep_view());
        }
        let keep_this = !str_eq(v[i].did.as_str(), did.as_str());
        proof {
            reveal(Seq::filter);
            assert(s0.take(i + 1).drop_last() =~= s0.take(i as int));
            assert(s0.take(i + 1).last() == s0[i as int]);
        }
        if keep_this {
            let row = {
                let r = &v[i];
                MediaRow {
                    did: clone_string(&r.did),
                    rkey: clone_string(&r.rkey),
                    media_blob_cid: clone_string(&r.media_blob_cid),
                    media_blob_mime: clone_string(&r.media_blob_mime),
                    title: clone_string(&r.title),
                    alt: clone_opt_string(&r.alt),
                    tags: clone_vec_string(&r.tags),
                    languages: clone_opt_vec_string(&r.languages),
                    created_at: r.created_at,
                    edited_at: r.edited_at,
                }
            };
            proof {
                assert(row.deep_view() =~= s0[i as int]);
            }
            keep.push(row);
            proof {
                assert(keep.deep_view() =~= kdv.push(s0[i as int]));
            }
        }
        proof {
            reveal(Seq::filter);
            assert(keep.deep_view() == s0.take(i + 1).filter(p));
        }
        i += 1;
    }
    proof {
        assert(s0.take(s0.len() as int) =~= s0);
        lemma_unique_filter(s0, media_key(), p);
    }
    *v = keep;
}


// ---------------------------------------------------------------------
// Label table transitions.
// ---------------------------------------------------------------------

/// The rkey of a fully qualified reference; empty when absent.
pub open spec fn ref_rkey_or_empty(r: Option<Seq<char>>) -> Seq<char> {
    match r {
        Some(x) => x,
        None => Seq::empty(),
    }
}

/// A label row as first persisted.
pub open spec fn label_fresh_row(did: Seq<char>, rkey: Seq<char>, d: LabelRecordModel) -> LabelRowModel {
    LabelRowModel {
        did: did,
        rkey: rkey,
        rule_did: d.rule.authority,
        rule_rkey: ref_rkey_or_empty(d.rule.rkey),
        subject_did: d.subject.authority,
        subject_collection: d.subject.collection,
        subject_rkey: d.subject.rkey,
        reason: d.reason,
        created_at: d.created_at,
        edited_at: None,
        expires_at: d.expires_at,
    }
}

/// A label row after an update: the rule and subject references, reason
/// and expiry change, plus the server-assigned `edited_at`; the key and
/// `created_at` are never overwritten.
pub open spec fn label_updated_row(r: LabelRowModel, d: LabelRecordModel, now: i64) -> LabelRowModel {
    LabelRowModel {
        rule_did: d.rule.authority,
        rule_rkey: ref_rkey_or_empty(d.rule.rkey),
        subject_did: d.subject.authority,
        subject_collection: d.subject.collection,
        subject_rkey: d.subject.rkey,
        reason: d.reason,
        expires_at: d.expires_at,
        edited_at: Some(now),
        ..r
    }
}

/// Insert-or-update-on-conflict keyed on (did, rkey).
pub open spec fn spec_label_upsert(
    s: Seq<LabelRowModel>,
    did: Seq<char>,
    rkey: Seq<char>,
    d: LabelRecordModel,
    now: i64,
) -> Seq<LabelRowModel> {
    if contains_key(s, label_key(), (did, rkey)) {
        let i = index_of_key(s, label_key(), (did, rkey));
        s.update(i, label_updated_row(s[i], d, now))
    } else {
        s.push(label_fresh_row(did, rkey, d))
    }
}

/// Unconditional removal by key; removing an absent key is a no-op.
pub open spec fn spec_label_delete(
    s: Seq<LabelRowModel>,
    did: Seq<char>,
    rkey: Seq<char>,
) -> Seq<LabelRowModel> {
    if contains_key(s, label_key(), (did, rkey)) {
        s.remove(index_of_key(s, label_key(), (did, rkey)))
    } else {
        s
    }
}

/// Removal of every label row of one account.
pub open spec fn spec_label_purge(s: Seq<LabelRowModel>, did: Seq<char>) -> Seq<LabelRowModel> {
    s.filter(|r: LabelRowModel| r.did != did)
}

/// The rkey of a reference, cloned; the empty string when absent.
fn ref_rkey_string(r: &Option<String>) -> (out: String)
    ensures
        out@ == ref_rkey_or_empty(r.deep_view()),
{
    match r {
        Some(x) => clone_string(x),
        None => String::new(),
    }
}

/// Builds the persisted form of a label record.
fn label_fresh(did: &String, rkey: &String, d: &LabelRecord) -> (r: LabelRow)
    ensures
        r.deep_view() == label_fresh_row(did@, rkey@, d.deep_view()),
{
    LabelRow {
        did: clone_string(did),
        rkey: clone_string(rkey),
        rule_did: clone_string(&d.rule.authority),
        rule_rkey: ref_rkey_string(&d.rule.rkey),
        subject_did: clone_string(&d.subject.authority),
        subject_collection: clone_opt_string(&d.subject.collection),
        subject_rkey: clone_opt_string(&d.subject.rkey),
        reason: clone_opt_string(&d.reason),
        created_at: d.created_at,
        edited_at: None,
        expires_at: d.expires_at,
    }
}

/// Upserts a label into the label table.
#[verifier::loop_isolation(false)]
pub(crate) fn label_upsert(
    v: &mut Vec<LabelRow>,
    did: &String,
    rkey: &String,
    d: &LabelRecord,
    now: i64,
)
    requires
        unique_by(old(v).deep_view(), label_key()),
    ensures
        final(v).deep_view() == spec_label_upsert(
            old(v).deep_view(),
            did@,
            rkey@,
            d.deep_view(),
            now,
        ),
        unique_by(final(v).deep_view(), label_key()),
{
    let ghost s0 = v.deep_view();
    let ghost k = (did@, rkey@);
    let mut i: usize = 0;
    while i < v.len()
        invariant
            0 <= i <= v@.len(),
            s0 == v.deep_view(),
            s0.len() == v@.len(),
            forall|j: int| 0 <= j < i ==> label_key()(#[trigger] s0[j]) != k,
        decreases v@.len() - i,
    {
        proof {
            assert(s0[i as int] == v@[i as int].deep_view());
        }
        if str_eq(v[i].did.as_str(), did.as_str()) && str_eq(v[i].rkey.as_str(), rkey.as_str()) {
            let updated = {
                let r = &v[i];
                LabelRow {
                    did: clone_string(&r.did),
                    rkey: clone_string(&r.rkey),
                    rule_did: clone_string(&d.rule.authority),
                    rule_rkey: ref_rkey_string(&d.rule.rkey),
                    subject_did: clone_string(&d.subject.authority),
                    subject_collection: clone_opt_string(&d.subject.collection),
                    subject_rkey: clone_opt_string(&d.subject.rkey),
                    reason: clone_opt_string(&d.reason),
                    created_at: r.created_at,
                    edited_at: Some(now),
                    expires_at: d.expires_at,
                }
            };
            let ghost urow = label_updated_row(s0[i as int], d.deep_view(), now);
            proof {
                assert(label_key()(s0[i as int]) == k);
                lemma_index_of_key(s0, label_key(), k, i as int);
                assert(updated.deep_view() =~= urow);
                lemma_unique_update(s0, label_key(), i as int, urow);
            }
            v.set(i, updated);
            proof {
                assert(v.deep_view() =~= s0.update(i as int, urow));
            }
            return ;
        }
        i += 1;
    }
    proof {
        assert(!contains_key(s0, label_key(), k));
        lemma_unique_push(s0, label_key(), label_fresh_row(did@, rkey@, d.deep_view()));
    }
    let fresh = label_fresh(did, rkey, d);
    v.push(fresh);
    proof {
        assert(v.deep_view() =~= s0.push(label_fresh_row(did@, rkey@, d.deep_view())));
    }
}

/// Deletes a label by key; deleting an absent key is a no-op.
#[verifier::loop_isolation(false)]
pub(crate) fn label_delete(v: &mut Vec<LabelRow>, did: &String, rkey: &String)
    requires
        unique_by(old(v).deep_view(), label_key()),
    ensures
        final(v).deep_view() == spec_label_delete(old(v).deep_view(), did@, rkey@),
        unique_by(final(v).deep_view(), label_key()),
{
    let ghost s0 = v.deep_view();
    let ghost k = (did@, rkey@);
    let mut i: usize = 0;
    while i < v.len()
        invariant
            0 <= i <= v@.len(),
            s0 == v.deep_view(),
            s0.len() == v@.len(),
            forall|j: int| 0 <= j < i ==> label_key()(#[trigger] s0[j]) != k,
        decreases v@.len() - i,
    {
        let ghost vs0 = v@;
        proof {
            assert(s0[i as int] == v@[i as int].deep_view());
        }
        if str_eq(v[i].did.as_str(), did.as_str()) && str_eq(v[i].rkey.as_str(), rkey.as_str()) {
            proof {
                assert(label_key()(s0[i as int]) == k);
                lemma_index_of_key(s0, label_key(), k, i as int);
                lemma_unique_remove(s0, label_key(), i as int);
            }
            let _ = v.remove(i);
            proof {
                vs0.remove_ensures(i as int);
                s0.remove_ensures(i as int);
                assert(v.deep_view() =~= s0.remove(i as int));
            }
            return ;
        }
        i += 1;
    }
    proof {
        assert(!contains_key(s0, label_key(), k));
    }
}

/// Removes every label row of one account.
#[verifier::loop_isolation(false)]
pub(crate) fn label_purge(v: &mut Vec<LabelRow>, did: &String)
    requires
        unique_by(old(v).deep_view(), label_key()),
    ensures
        final(v).deep_view() == spec_label_purge(old(v).deep_view(), did@),
        unique_by(final(v).deep_view(), label_key()),
{
    let ghost s0 = v.deep_view();
    let ghost p = |r: LabelRowModel| r.did != did@;
    let mut keep: Vec<LabelRow> = Vec::new();
    let mut i: usize = 0;
    proof {
        reveal(Seq::filter);
        assert(s0.take(0).filter(p) =~= Seq::<LabelRowModel>::empty());
        assert(keep.deep_view() =~= Seq::<LabelRowModel>::empty());
    }
    while i < v.len()
        invariant
            0 <= i <= v@.len(),
            s0 == v.deep_view(),
            s0.len() == v@.len(),
            keep.deep_view() == s0.take(i as int).filter(p),
        decreases v@.len() - i,
    {
        let ghost kdv = keep.deep_view();
        proof {
            assert(s0[i as int] == v@[i as int].deep_view());
        }
        let keep_this = !str_eq(v[i].did.as_str(), did.as_str());
        proof {
            reveal(Seq::filter);
            assert(s0.take(i + 1).drop_last() =~= s0.take(i as int));
            assert(s0.take(i + 1).last() == s0[i as int]);
        }
        if keep_this {
            let row = {
                let r = &v[i];
                LabelRow {
                    did: clone_string(&r.did),
                    rkey: clone_string(&r.rkey),
                    rule_did: clone_string(&r.rule_did),
                    rule_rkey: clone_string(&r.rule_rkey),
                    subject_did: clone_string(&r.subject_did),
                    subject_collection: clone_opt_string(&r.subject_collection),
                    subject_rkey: clone_opt_string(&r.subject_rkey),
                    reason: clone_opt_string(&r.reason),
                    created_at: r.created_at,
                    edited_at: r.edited_at,
                    expires_at: r.expires_at,
                }
            };
            proof {
                assert(row.deep_view() =~= s0[i as int]);
            }
            keep.push(row);
            proof {
                assert(keep.deep_view() =~= kdv.push(s0[i as int]));
            }
        }
        proof {
            reveal(Seq::filter);
            assert(keep.deep_view() == s0.take(i + 1).filter(p));
        }
        i += 1;
    }
    proof {
        assert(s0.take(s0.len() as int) =~= s0);
        lemma_unique_filter(s0, label_key(), p);
    }
    *v = keep;
}

// ---------------------------------------------------------------------
// Rule table transitions.
// ---------------------------------------------------------------------

/// A rule row as first persisted.
pub open spec fn rule_fresh_row(did: Seq<char>, rkey: Seq<char>, d: RuleRecordModel) -> RuleRowModel {
    RuleRowModel {
        did: did,
        rkey: rkey,
        name: d.name,
        description: d.description,
        behaviour: d.behaviour,
        created_at: d.created_at,
        edited_at: None,
    }
}

/// A rule row after an update: name, description and behaviour change,
/// plus the server-assigned `edited_at`; the key and `created_at` are
/// never overwritten.
pub open spec fn rule_updated_row(r: RuleRowModel, d: RuleRecordModel, now: i64) -> RuleRowModel {
    RuleRowModel {
        name: d.name,
        description: d.description,
        behaviour: d.behaviour,
        edited_at: Some(now),
        ..r
    }
}

/// Insert-or-update-on-conflict keyed on (did, rkey).
pub open spec fn spec_rule_upsert(
    s: Seq<RuleRowModel>,
    did: Seq<char>,
    rkey: Seq<char>,
    d: RuleRecordModel,
    now: i64,
) -> Seq<RuleRowModel> {
    if contains_key(s, rule_key(), (did, rkey)) {
        let i = index_of_key(s, rule_key(), (did, rkey));
        s.update(i, rule_updated_row(s[i], d, now))
    } else {
        s.push(rule_fresh_row(did, rkey, d))
    }
}

/// Unconditional removal by key; removing an absent key is a no-op.
pub open spec fn spec_rule_delete(
    s: Seq<RuleRowModel>,
    did: Seq<char>,
    rkey: Seq<char>,
) -> Seq<RuleRowModel> {
    if contains_key(s, rule_key(), (did, rkey)) {
        s.remove(index_of_key(s, rule_key(), (did, rkey)))
    } else {
        s
    }
}

/// Removal of every rule row of one account.
pub open spec fn spec_rule_purge(s: Seq<RuleRowModel>, did: Seq<char>) -> Seq<RuleRowModel> {
    s.filter(|r: RuleRowModel| r.did != did)
}

/// Clones a rule behaviour, keeping its variant and fields.
fn clone_behaviour(b: &RuleBehaviour) -> (r: RuleBehaviour)
    ensures
        r.deep_view() == b.deep_view(),
{
    match b {
        RuleBehaviour::Annotate { default_setting, adult_content } => RuleBehaviour::Annotate {
            default_setting: clone_string(default_setting),
            adult_content: *adult_content,
        },
        RuleBehaviour::Moderate { takedown } => RuleBehaviour::Moderate { takedown: *takedown },
        RuleBehaviour::Unknown => RuleBehaviour::Unknown,
    }
}

/// Builds the persisted form of a rule record.
fn rule_fresh(did: &String, rkey: &String, d: &RuleRecord) -> (r: RuleRow)
    ensures
        r.deep_view() == rule_fresh_row(did@, rkey@, d.deep_view()),
{
    RuleRow {
        did: clone_string(did),
        rkey: clone_string(rkey),
        name: clone_string(&d.name),
        description: clone_string(&d.description),
        behaviour: clone_behaviour(&d.behaviour),
        created_at: d.created_at,
        edited_at: None,
    }
}

/// Upserts a rule into the rule table.
#[verifier::loop_isolation(false)]
pub(crate) fn rule_upsert(
    v: &mut Vec<RuleRow>,
    did: &String,
    rkey: &String,
    d: &RuleRecord,
    now: i64,
)
    requires
        unique_by(old(v).deep_view(), rule_key()),
    ensures
        final(v).deep_view() == spec_rule_upsert(
            old(v).deep_view(),
            did@,
            rkey@,
            d.deep_view(),
            now,
        ),
        unique_by(final(v).deep_view(), rule_key()),
{
    let ghost s0 = v.deep_view();
    let ghost k = (did@, rkey@);
    let mut i: usize = 0;
    while i < v.len()
        invariant
            0 <= i <= v@.len(),
            s0 == v.deep_view(),
            s0.len() == v@.len(),
            forall|j: int| 0 <= j < i ==> rule_key()(#[trigger] s0[j]) != k,
        decreases v@.len() - i,
    {
        proof {
            assert(s0[i as int] == v@[i as int].deep_view());
        }
        if str_eq(v[i].did.as_str(), did.as_str()) && str_eq(v[i].rkey.as_str(), rkey.as_str()) {
            let updated = {
                let r = &v[i];
                RuleRow {
                    did: clone_string(&r.did),
                    rkey: clone_string(&r.rkey),
                    name: clone_string(&d.name),
                    description: clone_string(&d.description),
                    behaviour: clone_behaviour(&d.behaviour),
                    created_at: r.created_at,
                    edited_at: Some(now),
                }
            };
            let ghost urow = rule_updated_row(s0[i as int], d.deep_view(), now);
            proof {
                assert(rule_key()(s0[i as int]) == k);
                lemma_index_of_key(s0, rule_key(), k, i as int);
                assert(updated.deep_view() =~= urow);
                lemma_unique_update(s0, rule_key(), i as int, urow);
            }
            v.set(i, updated);
            proof {
                assert(v.deep_view() =~= s0.update(i as int, urow));
            }
            return ;
        }
        i += 1;
    }
    proof {
        assert(!contains_key(s0, rule_key(), k));
        lemma_unique_push(s0, rule_key(), rule_fresh_row(did@, rkey@, d.deep_view()));
    }
    let fresh = rule_fresh(did, rkey, d);
    v.push(fresh);
    proof {
        assert(v.deep_view() =~= s0.push(rule_fresh_row(did@, rkey@, d.deep_view())));
    }
}

/// Deletes a rule by key; deleting an absent key is a no-op.
#[verifier::loop_isolation(false)]
pub(crate) fn rule_delete(v: &mut Vec<RuleRow>, did: &String, rkey: &String)
    requires
        unique_by(old(v).deep_view(), rule_key()),
    ensures
        final(v).deep_view() == spec_rule_delete(old(v).deep_view(), did@, rkey@),
        unique_by(final(v).deep_view(), rule_key()),
{
    let ghost s0 = v.deep_view();
    let ghost k = (did@, rkey@);
    let mut i: usize = 0;
    while i < v.len()
        invariant
            0 <= i <= v@.len(),
            s0 == v.deep_view(),
            s0.len() == v@.len(),
            forall|j: int| 0 <= j < i ==> rule_key()(#[trigger] s0[j]) != k,
        decreases v@.len() - i,
    {
        let ghost vs0 = v@;
        proof {
            assert(s0[i as int] == v@[i as int].deep_view());
        }
        if str_eq(v[i].did.as_str(), did.as_str()) && str_eq(v[i].rkey.as_str(), rkey.as_str()) {
            proof {
                assert(rule_key()(s0[i as int]) == k);
                lemma_index_of_key(s0, rule_key(), k, i as int);
                lemma_unique_remove(s0, rule_key(), i as int);
            }
            let _ = v.remove(i);
            proof {
                vs0.remove_ensures(i as int);
                s0.remove_ensures(i as int);
                assert(v.deep_view() =~= s0.remove(i as int));
            }
            return ;
        }
        i += 1;
    }
    proof {
        assert(!contains_key(s0, rule_key(), k));
    }
}

/// Removes every rule row of one account.
#[verifier::loop_isolation(false)]
pub(crate) fn rule_purge(v: &mut Vec<RuleRow>, did: &String)
    requires
        unique_by(old(v).deep_view(), rule_key()),
    ensures
        final(v).deep_view() == spec_rule_purge(old(v).deep_view(), did@),
        unique_by(final(v).deep_view(), rule_key()),
{
    let ghost s0 = v.deep_view();
    let ghost p = |r: RuleRowModel| r.did != did@;
    let mut keep: Vec<RuleRow> = Vec::new();
    let mut i: usize = 0;
    proof {
        reveal(Seq::filter);
        assert(s0.take(0).filter(p) =~= Seq::<RuleRowModel>::empty());
        assert(keep.deep_view() =~= Seq::<RuleRowModel>::empty());
    }
    while i < v.len()
        invariant
            0 <= i <= v@.len(),
            s0 == v.deep_view(),
            s0.len() == v@.len(),
            keep.deep_view() == s0.take(i as int).filter(p),
        decreases v@.len() - i,
    {
        let ghost kdv = keep.deep_view();
        proof {
            assert(s0[i as int] == v@[i as int].deep_view());
        }
        let keep_this = !str_eq(v[i].did.as_str(), did.as_str());
        proof {
            reveal(Seq::filter);
            assert(s0.take(i + 1).drop_last() =~= s0.take(i as int));
            assert(s0.take(i + 1).last() == s0[i as int]);
        }
        if keep_this {
            let row = {
                let r = &v[i];
                RuleRow {
                    did: clone_string(&r.did),
                    rkey: clone_string(&r.rkey),
                    name: clone_string(&r.name),
                    description: clone_string(&r.description),
                    behaviour: clone_behaviour(&r.behaviour),
                    created_at: r.created_at,
                    edited_at: r.edited_at,
                }
            };
            proof {
                assert(row.deep_view() =~= s0[i as int]);
            }
            keep.push(row);
            proof {
                assert(keep.deep_view() =~= kdv.push(s0[i as int]));
            }
        }
        proof {
            reveal(Seq::filter);
            assert(keep.deep_view() == s0.take(i + 1).filter(p));
        }
        i += 1;
    }
    proof {
        assert(s0.take(s0.len() as int) =~= s0);
        lemma_unique_filter(s0, rule_key(), p);
    }
    *v = keep;
}


// ---------------------------------------------------------------------
// Account table transitions.
// ---------------------------------------------------------------------

/// An account row created by an identity event.
pub open spec fn account_fresh_identity(
    did: Seq<char>,
    handle: Seq<char>,
    is_active: bool,
    status: Seq<char>,
) -> AccountRowModel {
    AccountRowModel {
        did: did,
        handle: Some(handle),
        is_active: is_active,
        status: Some(status),
        rev: None,
        display_name: None,
        pronouns: None,
        avatar_cid: None,
        created_at: None,
    }
}

/// An account row after an identity update: handle, activity and status
/// change; the profile fields stay untouched.
pub open spec fn account_updated_identity(
    r: AccountRowModel,
    handle: Seq<char>,
    is_active: bool,
    status: Seq<char>,
) -> AccountRowModel {
    AccountRowModel { handle: Some(handle), is_active: is_active, status: Some(status), ..r }
}

/// Identity upsert keyed on did.
pub open spec fn spec_account_identity_upsert(
    s: Seq<AccountRowModel>,
    did: Seq<char>,
    handle: Seq<char>,
    is_active: bool,
    status: Seq<char>,
) -> Seq<AccountRowModel> {
    if contains_key(s, account_key(), did) {
        let i = index_of_key(s, account_key(), did);
        s.update(i, account_updated_identity(s[i], handle, is_active, status))
    } else {
        s.push(account_fresh_identity(did, handle, is_active, status))
    }
}

/// The avatar blob CID carried by a profile record, when any.
pub open spec fn avatar_cid_of(d: ProfileRecordModel) -> Option<Seq<char>> {
    match d.avatar {
        Some(b) => Some(b.cid),
        None => None,
    }
}

/// An account row created by a profile event alone: the identity fields
/// stay unset until an identity event supplies them.
pub open spec fn account_fresh_profile(did: Seq<char>, d: ProfileRecordModel) -> AccountRowModel {
    AccountRowModel {
        did: did,
        handle: None,
        is_active: false,
        status: None,
        rev: None,
        display_name: d.display_name,
        pronouns: d.pronouns,
        avatar_cid: avatar_cid_of(d),
        created_at: Some(d.created_at),
    }
}

/// An account row after a profile update: the user-defined fields
/// change; `created_at` is set only when previously unset, never
/// overwritten.
pub open spec fn account_updated_profile(r: AccountRowModel, d: ProfileRecordModel) -> AccountRowModel {
    AccountRowModel {
        display_name: d.display_name,
        pronouns: d.pronouns,
        avatar_cid: avatar_cid_of(d),
        created_at: if r.created_at is None {
            Some(d.created_at)
        } else {
            r.created_at
        },
        ..r
    }
}

/// Profile upsert keyed on did.
pub open spec fn spec_account_profile_upsert(
    s: Seq<AccountRowModel>,
    did: Seq<char>,
    d: ProfileRecordModel,
) -> Seq<AccountRowModel> {
    if contains_key(s, account_key(), did) {
        let i = index_of_key(s, account_key(), did);
        s.update(i, account_updated_profile(s[i], d))
    } else {
        s.push(account_fresh_profile(did, d))
    }
}

/// An account row with its user-defined profile fields cleared.
pub open spec fn account_cleared_profile(r: AccountRowModel) -> AccountRowModel {
    AccountRowModel { display_name: None, pronouns: None, avatar_cid: None, ..r }
}

/// Clearing the profile fields of an account; absent did is a no-op.
pub open spec fn spec_account_profile_clear(
    s: Seq<AccountRowModel>,
    did: Seq<char>,
) -> Seq<AccountRowModel> {
    if contains_key(s, account_key(), did) {
        let i = index_of_key(s, account_key(), did);
        s.update(i, account_cleared_profile(s[i]))
    } else {
        s
    }
}

/// Setting the repository-revision watermark; absent did is a no-op.
pub open spec fn spec_account_set_rev(
    s: Seq<AccountRowModel>,
    did: Seq<char>,
    rev: Seq<char>,
) -> Seq<AccountRowModel> {
    if contains_key(s, account_key(), did) {
        let i = index_of_key(s, account_key(), did);
        s.update(i, AccountRowModel { rev: Some(rev), ..s[i] })
    } else {
        s
    }
}

/// Removal of the account row; absent did is a no-op.
pub open spec fn spec_account_remove(s: Seq<AccountRowModel>, did: Seq<char>) -> Seq<AccountRowModel> {
    if contains_key(s, account_key(), did) {
        s.remove(index_of_key(s, account_key(), did))
    } else {
        s
    }
}

/// Clones an account row, replacing nothing.
fn account_row_clone(r: &AccountRow) -> (out: AccountRow)
    ensures
        out.deep_view() == r.deep_view(),
{
    let out = AccountRow {
        did: clone_string(&r.did),
        handle: clone_opt_string(&r.handle),
        is_active: r.is_active,
        status: clone_opt_string(&r.status),
        rev: clone_opt_string(&r.rev),
        display_name: clone_opt_string(&r.display_name),
        pronouns: clone_opt_string(&r.pronouns),
        avatar_cid: clone_opt_string(&r.avatar_cid),
        created_at: r.created_at,
    };
    proof {
        assert(out.deep_view() =~= r.deep_view());
    }
    out
}

/// Upserts the identity fields of an account.
#[verifier::loop_isolation(false)]
pub(crate) fn account_identity_upsert(
    v: &mut Vec<AccountRow>,
    did: &String,
    handle: &String,
    is_active: bool,
    status: &String,
)
    requires
        unique_by(old(v).deep_view(), account_key()),
    ensures
        final(v).deep_view() == spec_account_identity_upsert(
            old(v).deep_view(),
            did@,
            handle@,
            is_active,
            status@,
        ),
        unique_by(final(v).deep_view(), account_key()),
{
    let ghost s0 = v.deep_view();
    let mut i: usize = 0;
    while i < v.len()
        invariant
            0 <= i <= v@.len(),
            s0 == v.deep_view(),
            s0.len() == v@.len(),
            forall|j: int| 0 <= j < i ==> account_key()(#[trigger] s0[j]) != did@,
        decreases v@.len() - i,
    {
        proof {
            assert(s0[i as int] == v@[i as int].deep_view());
        }
        if str_eq(v[i].did.as_str(), did.as_str()) {
            let updated = {
                let r = &v[i];
                AccountRow {
                    did: clone_string(&r.did),
                    handle: Some(clone_string(handle)),
                    is_active: is_active,
                    status: Some(clone_string(status)),
                    rev: clone_opt_string(&r.rev),
                    display_name: clone_opt_string(&r.display_name),
                    pronouns: clone_opt_string(&r.pronouns),
                    avatar_cid: clone_opt_string(&r.avatar_cid),
                    created_at: r.created_at,
                }
            };
            let ghost urow = account_updated_identity(s0[i as int], handle@, is_active, status@);
            proof {
                assert(account_key()(s0[i as int]) == did@);
                lemma_index_of_key(s0, account_key(), did@, i as int);
                assert(updated.deep_view() =~= urow);
                lemma_unique_update(s0, account_key(), i as int, urow);
            }
            v.set(i, updated);
            proof {
                assert(v.deep_view() =~= s0.update(i as int, urow));
            }
            return ;
        }
        i += 1;
    }
    proof {
        assert(!contains_key(s0, account_key(), did@));
        lemma_unique_push(
            s0,
            account_key(),
            account_fresh_identity(did@, handle@, is_active, status@),
        );
    }
    let fresh = AccountRow {
        did: clone_string(did),
        handle: Some(clone_string(handle)),
        is_active: is_active,
        status: Some(clone_string(status)),
        rev: None,
        display_name: None,
        pronouns: None,
        avatar_cid: None,
        created_at: None,
    };
    proof {
        assert(fresh.deep_view() =~= account_fresh_identity(did@, handle@, is_active, status@));
    }
    v.push(fresh);
    proof {
        assert(v.deep_view() =~= s0.push(
            account_fresh_identity(did@, handle@, is_active, status@),
        ));
    }
}

/// The avatar CID of a profile record, cloned.
fn avatar_cid_string(d: &ProfileRecord) -> (out: Option<String>)
    ensures
        out.deep_view() == avatar_cid_of(d.deep_view()),
{
    match &d.avatar {
        Some(b) => Some(clone_string(&b.cid)),
        None => None,
    }
}

/// Upserts the user-defined profile fields of an account.
#[verifier::loop_isolation(false)]
pub(crate) fn account_profile_upsert(v: &mut Vec<AccountRow>, did: &String, d: &ProfileRecord)
    requires
        unique_by(old(v).deep_view(), account_key()),
    ensures
        final(v).deep_view() == spec_account_profile_upsert(
            old(v).deep_view(),
            did@,
            d.deep_view(),
        ),
        unique_by(final(v).deep_view(), account_key()),
{
    let ghost s0 = v.deep_view();
    let mut i: usize = 0;
    while i < v.len()
        invariant
            0 <= i <= v@.len(),
            s0 == v.deep_view(),
            s0.len() == v@.len(),
            forall|j: int| 0 <= j < i ==> account_key()(#[trigger] s0[j]) != did@,
        decreases v@.len() - i,
    {
        proof {
            assert(s0[i as int] == v@[i as int].deep_view());
        }
        if str_eq(v[i].did.as_str(), did.as_str()) {
            let fill_created = v[i].created_at.is_none();
            let updated = {
                let r = &v[i];
                AccountRow {
                    did: clone_string(&r.did),
                    handle: clone_opt_string(&r.handle),
                    is_active: r.is_active,
                    status: clone_opt_string(&r.status),
                    rev: clone_opt_string(&r.rev),
                    display_name: clone_opt_string(&d.display_name),
                    pronouns: clone_opt_string(&d.pronouns),
                    avatar_cid: avatar_cid_string(d),
                    created_at: if fill_created {
                        Some(d.created_at)
                    } else {
                        r.created_at
                    },
                }
            };
            let ghost urow = account_updated_profile(s0[i as int], d.deep_view());
            proof {
                assert(account_key()(s0[i as int]) == did@);
                lemma_index_of_key(s0, account_key(), did@, i as int);
                assert(updated.deep_view() =~= urow);
                lemma_unique_update(s0, account_key(), i as int, urow);
            }
            v.set(i, updated);
            proof {
                assert(v.deep_view() =~= s0.update(i as int, urow));
            }
            return ;
        }
        i += 1;
    }
    proof {
        assert(!contains_key(s0, account_key(), did@));
        lemma_unique_push(s0, account_key(), account_fresh_profile(did@, d.deep_view()));
    }
    let fresh = AccountRow {
        did: clone_string(did),
        handle: None,
        is_active: false,
        status: None,
        rev: None,
        display_name: clone_opt_string(&d.display_name),
        pronouns: clone_opt_string(&d.pronouns),
        avatar_cid: avatar_cid_string(d),
        created_at: Some(d.created_at),
    };
    proof {
        assert(fresh.deep_view() =~= account_fresh_profile(did@, d.deep_view()));
    }
    v.push(fresh);
    proof {
        assert(v.deep_view() =~= s0.push(account_fresh_profile(did@, d.deep_view())));
    }
}

/// Clears the user-defined profile fields of an account; an absent did
/// is a no-op.
#[verifier::loop_isolation(false)]
pub(crate) fn account_profile_clear(v: &mut Vec<AccountRow>, did: &String)
    requires
        unique_by(old(v).deep_view(), account_key()),
    ensures
        final(v).deep_view() == spec_account_profile_clear(old(v).deep_view(), did@),
        unique_by(final(v).deep_view(), account_key()),
{
    let ghost s0 = v.deep_view();
    let mut i: usize = 0;
    while i < v.len()
        invariant
            0 <= i <= v@.len(),
            s0 == v.deep_view(),
            s0.len() == v@.len(),
            forall|j: int| 0 <= j < i ==> account_key()(#[trigger] s0[j]) != did@,
        decreases v@.len() - i,
    {
        proof {
            assert(s0[i as int] == v@[i as int].deep_view());
        }
        if str_eq(v[i].did.as_str(), did.as_str()) {
            let updated = {
                let r = &v[i];
                AccountRow {
                    did: clone_string(&r.did),
                    handle: clone_opt_string(&r.handle),
                    is_active: r.is_active,
                    status: clone_opt_string(&r.status),
                    rev: clone_opt_string(&r.rev),
                    display_name: None,
                    pronouns: None,
                    avatar_cid: None,
                    created_at: r.created_at,
                }
            };
            let ghost urow = account_cleared_profile(s0[i as int]);
            proof {
                assert(account_key()(s0[i as int]) == did@);
                lemma_index_of_key(s0, account_key(), did@, i as int);
                assert(updated.deep_view() =~= urow);
                lemma_unique_update(s0, account_key(), i as int, urow);
            }
            v.set(i, updated);
            proof {
                assert(v.deep_view() =~= s0.update(i as int, urow));
            }
            return ;
        }
        i += 1;
    }
    proof {
        assert(!contains_key(s0, account_key(), did@));
    }
}

/// Sets the repository-revision watermark of an account; an absent did
/// is a no-op.
#[verifier::loop_isolation(false)]
pub(crate) fn account_set_rev(v: &mut Vec<AccountRow>, did: &String, rev: &String)
    requires
        unique_by(old(v).deep_view(), account_key()),
    ensures
        final(v).deep_view() == spec_account_set_rev(old(v).deep_view(), did@, rev@),
        unique_by(final(v).deep_view(), account_key()),
{
    let ghost s0 = v.deep_view();
    let mut i: usize = 0;
    while i < v.len()
        invariant
            0 <= i <= v@.len(),
            s0 == v.deep_view(),
            s0.len() == v@.len(),
            forall|j: int| 0 <= j < i ==> account_key()(#[trigger] s0[j]) != did@,
        decreases v@.len() - i,
    {
        proof {
            assert(s0[i as int] == v@[i as int].deep_view());
        }
        if str_eq(v[i].did.as_str(), did.as_str()) {
            let updated = {
                let r = &v[i];
                AccountRow {
                    did: clone_string(&r.did),
                    handle: clone_opt_string(&r.handle),
                    is_active: r.is_active,
                    status: clone_opt_string(&r.status),
                    rev: Some(clone_string(rev)),
                    display_name: clone_opt_string(&r.display_name),
                    pronouns: clone_opt_string(&r.pronouns),
                    avatar_cid: clone_opt_string(&r.avatar_cid),
                    created_at: r.created_at,
                }
            };
            let ghost urow = AccountRowModel { rev: Some(rev@), ..s0[i as int] };
            proof {
                assert(account_key()(s0[i as int]) == did@);
                lemma_index_of_key(s0, account_key(), did@, i as int);
                assert(updated.deep_view() =~= urow);
                lemma_unique_update(s0, account_key(), i as int, urow);
            }
            v.set(i, updated);
            proof {
                assert(v.deep_view() =~= s0.update(i as int, urow));
            }
            return ;
        }
        i += 1;
    }
    proof {
        assert(!contains_key(s0, account_key(), did@));
    }
}

/// Removes the account row of one did; an absent did is a no-op.
#[verifier::loop_isolation(false)]
pub(crate) fn account_remove(v: &mut Vec<AccountRow>, did: &String)
    requires
        unique_by(old(v).deep_view(), account_key()),
    ensures
        final(v).deep_view() == spec_account_remove(old(v).deep_view(), did@),
        unique_by(final(v).deep_view(), account_key()),
{
    let ghost s0 = v.deep_view();
    let mut i: usize = 0;
    while i < v.len()
        invariant
            0 <= i <= v@.len(),
            s0 == v.deep_view(),
            s0.len() == v@.len(),
            forall|j: int| 0 <= j < i ==> account_key()(#[trigger] s0[j]) != did@,
        decreases v@.len() - i,
    {
        let ghost vs0 = v@;
        proof {
            assert(s0[i as int] == v@[i as int].deep_view());
        }
        if str_eq(v[i].did.as_str(), did.as_str()) {
            proof {
                assert(account_key()(s0[i as int]) == did@);
                lemma_index_of_key(s0, account_key(), did@, i as int);
                lemma_unique_remove(s0, account_key(), i as int);
            }
            let _ = v.remove(i);
            proof {
                vs0.remove_ensures(i as int);
                s0.remove_ensures(i as int);
                assert(v.deep_view() =~= s0.remove(i as int));
            }
            return ;
        }
        i += 1;
    }
    proof {
        assert(!contains_key(s0, account_key(), did@));
    }
}

} // verus!
