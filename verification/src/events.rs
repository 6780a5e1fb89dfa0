//! Inbound event envelope: the tagged union of identity and record
//! events, the per-kind record payloads, and the router that maps a
//! record's collection identifier to one of the five fixed handlers.

use vstd::prelude::*;
use crate::text::str_eq;

verus! {

// ---------------------------------------------------------------------
// Record payloads and their mathematical models.
// ---------------------------------------------------------------------

/// A reference to a content-addressed blob, as carried inside a record.
#[derive(Debug, Clone)]
pub struct BlobRef {
    pub cid: String,
    pub mime_type: String,
    pub size: u64,
}

pub struct BlobRefModel {
    pub cid: Seq<char>,
    pub mime_type: Seq<char>,
    pub size: u64,
}

impl DeepView for BlobRef {
    type V = BlobRefModel;

    open spec fn deep_view(&self) -> BlobRefModel {
        BlobRefModel {
            cid: self.cid.deep_view(),
            mime_type: self.mime_type.deep_view(),
            size: self.size,
        }
    }
}

/// A post or favourite payload: a media blob with its presentation
/// fields. Posts and favourites share this shape.
#[derive(Debug, Clone)]
pub struct MediaRecord {
    pub blob: BlobRef,
    pub alt: Option<String>,
    pub title: String,
    pub tags: Vec<String>,
    pub languages: Option<Vec<String>>,
    pub created_at: i64,
}

pub struct MediaRecordModel {
    pub blob: BlobRefModel,
    pub alt: Option<Seq<char>>,
    pub title: Seq<char>,
    pub tags: Seq<Seq<char>>,
    pub languages: Option<Seq<Seq<char>>>,
    pub created_at: i64,
}

impl DeepView for MediaRecord {
    type V = MediaRecordModel;

    open spec fn deep_view(&self) -> MediaRecordModel {
        MediaRecordModel {
            blob: self.blob.deep_view(),
            alt: self.alt.deep_view(),
            title: self.title.deep_view(),
            tags: self.tags.deep_view(),
            languages: self.languages.deep_view(),
            created_at: self.created_at,
        }
    }
}

/// An actor profile payload.
#[derive(Debug, Clone)]
pub struct ProfileRecord {
    pub display_name: Option<String>,
    pub pronouns: Option<String>,
    pub avatar: Option<BlobRef>,
    pub created_at: i64,
}

pub struct ProfileRecordModel {
    pub display_name: Option<Seq<char>>,
    pub pronouns: Option<Seq<char>>,
    pub avatar: Option<BlobRefModel>,
    pub created_at: i64,
}

impl DeepView for ProfileRecord {
    type V = ProfileRecordModel;

    open spec fn deep_view(&self) -> ProfileRecordModel {
        ProfileRecordModel {
            display_name: self.display_name.deep_view(),
            pronouns: self.pronouns.deep_view(),
            avatar: self.avatar.deep_view(),
            created_at: self.created_at,
        }
    }
}

/// A cross-record pointer: an authority plus, when fully qualified, the
/// collection and rkey of the referenced record.
#[derive(Debug, Clone)]
pub struct AtUriRef {
    pub authority: String,
    pub collection: Option<String>,
    pub rkey: Option<String>,
}

pub struct AtUriRefModel {
    pub authority: Seq<char>,
    pub collection: Option<Seq<char>>,
    pub rkey: Option<Seq<char>>,
}

impl DeepView for AtUriRef {
    type V = AtUriRefModel;

    open spec fn deep_view(&self) -> AtUriRefModel {
        AtUriRefModel {
            authority: self.authority.deep_view(),
            collection: self.collection.deep_view(),
            rkey: self.rkey.deep_view(),
        }
    }
}

/// A moderation label payload: a subject and the rule applied to it.
#[derive(Debug, Clone)]
pub struct LabelRecord {
    pub subject: AtUriRef,
    pub rule: AtUriRef,
    pub reason: Option<String>,
    pub created_at: i64,
    pub expires_at: Option<i64>,
}

pub struct LabelRecordModel {
    pub subject: AtUriRefModel,
    pub rule: AtUriRefModel,
    pub reason: Option<Seq<char>>,
    pub created_at: i64,
    pub expires_at: Option<i64>,
}

impl DeepView for LabelRecord {
    type V = LabelRecordModel;

    open spec fn deep_view(&self) -> LabelRecordModel {
        LabelRecordModel {
            subject: self.subject.deep_view(),
            rule: self.rule.deep_view(),
            reason: self.reason.deep_view(),
            created_at: self.created_at,
            expires_at: self.expires_at,
        }
    }
}

/// The behaviour of a labeler rule: a closed tagged variant with an
/// explicit fallback for unsupported variants, which are rejected and
/// never stored.
#[derive(Debug, Clone)]
pub enum RuleBehaviour {
    Annotate { default_setting: String, adult_content: bool },
    Moderate { takedown: bool },
    Unknown,
}

pub enum RuleBehaviourModel {
    Annotate { default_setting: Seq<char>, adult_content: bool },
    Moderate { takedown: bool },
    Unknown,
}

impl DeepView for RuleBehaviour {
    type V = RuleBehaviourModel;

    open spec fn deep_view(&self) -> RuleBehaviourModel {
        match self {
            RuleBehaviour::Annotate { default_setting, adult_content } => {
                RuleBehaviourModel::Annotate {
                    default_setting: default_setting.deep_view(),
                    adult_content: *adult_content,
                }
            },
            RuleBehaviour::Moderate { takedown } => {
                RuleBehaviourModel::Moderate { takedown: *takedown }
            },
            RuleBehaviour::Unknown => RuleBehaviourModel::Unknown,
        }
    }
}

/// A labeler rule payload.
#[derive(Debug, Clone)]
pub struct RuleRecord {
    pub name: String,
    pub description: String,
    pub behaviour: RuleBehaviour,
    pub created_at: i64,
}

pub struct RuleRecordModel {
    pub name: Seq<char>,
    pub description: Seq<char>,
    pub behaviour: RuleBehaviourModel,
    pub created_at: i64,
}

impl DeepView for RuleRecord {
    type V = RuleRecordModel;

    open spec fn deep_view(&self) -> RuleRecordModel {
        RuleRecordModel {
            name: self.name.deep_view(),
            description: self.description.deep_view(),
            behaviour: self.behaviour.deep_view(),
            created_at: self.created_at,
        }
    }
}

// ---------------------------------------------------------------------
// The envelope.
// ---------------------------------------------------------------------

/// A record payload decoded by its discriminant into one of the five
/// known shapes, or the `Unknown` sentinel for unsupported types.
#[derive(Debug, Clone)]
pub enum TapRecordData {
    Post(MediaRecord),
    Favourite(MediaRecord),
    Profile(ProfileRecord),
    Label(LabelRecord),
    Rule(RuleRecord),
    Unknown,
}

pub enum TapRecordDataModel {
    Post(MediaRecordModel),
    Favourite(MediaRecordModel),
    Profile(ProfileRecordModel),
    Label(LabelRecordModel),
    Rule(RuleRecordModel),
    Unknown,
}

impl DeepView for TapRecordData {
    type V = TapRecordDataModel;

    open spec fn deep_view(&self) -> TapRecordDataModel {
        match self {
            TapRecordData::Post(d) => TapRecordDataModel::Post(d.deep_view()),
            TapRecordData::Favourite(d) => TapRecordDataModel::Favourite(d.deep_view()),
            TapRecordData::Profile(d) => TapRecordDataModel::Profile(d.deep_view()),
            TapRecordData::Label(d) => TapRecordDataModel::Label(d.deep_view()),
            TapRecordData::Rule(d) => TapRecordDataModel::Rule(d.deep_view()),
            TapRecordData::Unknown => TapRecordDataModel::Unknown,
        }
    }
}

/// What a record event does: create or update with a payload and its
/// content hash, or delete.
#[derive(Debug, Clone)]
pub enum TapRecordAction {
    Create { record: TapRecordData, cid: String },
    Update { record: TapRecordData, cid: String },
    Delete,
}

pub enum TapRecordActionModel {
    Create { record: TapRecordDataModel, cid: Seq<char> },
    Update { record: TapRecordDataModel, cid: Seq<char> },
    Delete,
}

impl DeepView for TapRecordAction {
    type V = TapRecordActionModel;

    open spec fn deep_view(&self) -> TapRecordActionModel {
        match self {
            TapRecordAction::Create { record, cid } => TapRecordActionModel::Create {
                record: record.deep_view(),
                cid: cid.deep_view(),
            },
            TapRecordAction::Update { record, cid } => TapRecordActionModel::Update {
                record: record.deep_view(),
                cid: cid.deep_view(),
            },
            TapRecordAction::Delete => TapRecordActionModel::Delete,
        }
    }
}

/// A record event: which repository changed, where, and how.
#[derive(Debug, Clone)]
pub struct TapRecordEventData {
    pub live: bool,
    pub did: String,
    pub rev: String,
    pub collection: String,
    pub rkey: String,
    pub action: TapRecordAction,
}

pub struct TapRecordEventDataModel {
    pub live: bool,
    pub did: Seq<char>,
    pub rev: Seq<char>,
    pub collection: Seq<char>,
    pub rkey: Seq<char>,
    pub action: TapRecordActionModel,
}

impl DeepView for TapRecordEventData {
    type V = TapRecordEventDataModel;

    open spec fn deep_view(&self) -> TapRecordEventDataModel {
        TapRecordEventDataModel {
            live: self.live,
            did: self.did.deep_view(),
            rev: self.rev.deep_view(),
            collection: self.collection.deep_view(),
            rkey: self.rkey.deep_view(),
            action: self.action.deep_view(),
        }
    }
}

/// An account lifecycle event.
#[derive(Debug, Clone)]
pub struct TapIdentityEventData {
    pub did: String,
    pub handle: String,
    pub is_active: bool,
    pub status: String,
}

pub struct TapIdentityEventDataModel {
    pub did: Seq<char>,
    pub handle: Seq<char>,
    pub is_active: bool,
    pub status: Seq<char>,
}

impl DeepView for TapIdentityEventData {
    type V = TapIdentityEventDataModel;

    open spec fn deep_view(&self) -> TapIdentityEventDataModel {
        TapIdentityEventDataModel {
            did: self.did.deep_view(),
            handle: self.handle.deep_view(),
            is_active: self.is_active,
            status: self.status.deep_view(),
        }
    }
}

/// An inbound frame decoded into the tagged envelope.
#[derive(Debug, Clone)]
pub enum TapEvent {
    Record { id: usize, record: TapRecordEventData },
    Identity { id: usize, identity: TapIdentityEventData },
}

pub enum TapEventModel {
    Record { id: usize, record: TapRecordEventDataModel },
    Identity { id: usize, identity: TapIdentityEventDataModel },
}

impl DeepView for TapEvent {
    type V = TapEventModel;

    open spec fn deep_view(&self) -> TapEventModel {
        match self {
            TapEvent::Record { id, record } => TapEventModel::Record {
                id: *id,
                record: record.deep_view(),
            },
            TapEvent::Identity { id, identity } => TapEventModel::Identity {
                id: *id,
                identity: identity.deep_view(),
            },
        }
    }
}

// ---------------------------------------------------------------------
// The record router.
// ---------------------------------------------------------------------

/// The five record kinds the ingester persists.
#[derive(Debug, Clone, Copy, PartialEq, Eq, Structural)]
pub enum RecordKind {
    Post,
    Favourite,
    Profile,
    Label,
    Rule,
}

pub open spec fn post_nsid() -> Seq<char> {
    "net.gifdex.feed.post"@
}

pub open spec fn favourite_nsid() -> Seq<char> {
    "net.gifdex.feed.favourite"@
}

pub open spec fn profile_nsid() -> Seq<char> {
    "net.gifdex.actor.profile"@
}

pub open spec fn label_nsid() -> Seq<char> {
    "net.gifdex.labeler.label"@
}

pub open spec fn rule_nsid() -> Seq<char> {
    "net.gifdex.labeler.rule"@
}

/// The fixed five-entry registry: an exact-match lookup from a
/// collection identifier to a record kind.
pub open spec fn spec_route(collection: Seq<char>) -> Option<RecordKind> {
    if collection == post_nsid() {
        Some(RecordKind::Post)
    } else if collection == favourite_nsid() {
        Some(RecordKind::Favourite)
    } else if collection == profile_nsid() {
        Some(RecordKind::Profile)
    } else if collection == label_nsid() {
        Some(RecordKind::Label)
    } else if collection == rule_nsid() {
        Some(RecordKind::Rule)
    } else {
        None
    }
}

/// Routes a collection identifier to its handler kind; `None` for a
/// collection outside the registry.
pub fn route_collection(collection: &str) -> (r: Option<RecordKind>)
    ensures
        r == spec_route(collection@),
{
    if str_eq(collection, "net.gifdex.feed.post") {
        Some(RecordKind::Post)
    } else if str_eq(collection, "net.gifdex.feed.favourite") {
        Some(RecordKind::Favourite)
    } else if str_eq(collection, "net.gifdex.actor.profile") {
        Some(RecordKind::Profile)
    } else if str_eq(collection, "net.gifdex.labeler.label") {
        Some(RecordKind::Label)
    } else if str_eq(collection, "net.gifdex.labeler.rule") {
        Some(RecordKind::Rule)
    } else {
        None
    }
}

} // verus!
