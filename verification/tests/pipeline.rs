use gifdex_ingest::events::{AtUriRef, BlobRef, LabelRecord, MediaRecord, ProfileRecord,
    RuleBehaviour, RuleRecord, TapEvent, TapIdentityEventData, TapRecordAction, TapRecordData,
    TapRecordEventData};
use gifdex_ingest::handlers::handle_profile_create_event;
use gifdex_ingest::governor::{ack_frame, should_ack};
use gifdex_ingest::handlers::{handle_event, handle_identity, Outcome, RejectReason};
use gifdex_ingest::store::Store;

const TID: &str = "3jzfcijpj2z2a";
const CID: &str = "bafybeigdyrztabcdefghijklmnop";

fn media(mime: &str, size: u64, cid: &str) -> MediaRecord {
    MediaRecord {
        blob: BlobRef { cid: cid.to_string(), mime_type: mime.to_string(), size },
        alt: Some("a gif".to_string()),
        title: "title".to_string(),
        tags: vec!["tag".to_string()],
        languages: None,
        created_at: 1700000000000,
    }
}

fn post_event(id: usize, did: &str, action: TapRecordAction) -> TapEvent {
    TapEvent::Record {
        id,
        record: TapRecordEventData {
            live: true,
            did: did.to_string(),
            rev: "3jzfcijpj2z2b".to_string(),
            collection: "net.gifdex.feed.post".to_string(),
            rkey: format!("{}:{}", TID, CID),
            action,
        },
    }
}

#[test]
fn post_create_inserts_one_row_and_acknowledges() {
    let mut store = Store::new();
    let ev = post_event(
        7,
        "did:example:alice",
        TapRecordAction::Create {
            record: TapRecordData::Post(media("image/gif", 500000, CID)),
            cid: CID.to_string(),
        },
    );
    let (id, outcome) = handle_event(&mut store, &ev, 1700000001000);
    assert_eq!(id, 7);
    assert_eq!(outcome, Outcome::Applied);
    assert_eq!(store.posts.len(), 1);
    let row = &store.posts[0];
    assert_eq!(row.did, "did:example:alice");
    assert_eq!(row.rkey, format!("{}:{}", TID, CID));
    assert_eq!(row.media_blob_cid, CID);
    assert_eq!(row.media_blob_mime, "image/gif");
    assert_eq!(row.title, "title");
    assert_eq!(row.created_at, 1700000000000);
    assert_eq!(row.edited_at, None);
    assert!(should_ack(&outcome));
    assert_eq!(
        String::from_utf8(ack_frame(id)).unwrap(),
        "{\"type\":\"ack\",\"id\":7}"
    );
}

#[test]
fn post_create_wrong_mimetype_no_row_still_acknowledged() {
    let mut store = Store::new();
    let ev = post_event(
        8,
        "did:example:alice",
        TapRecordAction::Create {
            record: TapRecordData::Post(media("application/pdf", 500000, CID)),
            cid: CID.to_string(),
        },
    );
    let (id, outcome) = handle_event(&mut store, &ev, 1700000001000);
    assert_eq!(id, 8);
    assert_eq!(outcome, Outcome::Rejected(RejectReason::DisallowedMime));
    assert_eq!(store.posts.len(), 0);
    assert_eq!(store.accounts.len(), 0);
    assert!(should_ack(&outcome));
}

#[test]
fn post_hash_mismatch_never_persisted() {
    let mut store = Store::new();
    let ev = post_event(
        9,
        "did:example:alice",
        TapRecordAction::Create {
            record: TapRecordData::Post(media("image/gif", 500000, "bafybeiothercontenthash")),
            cid: "bafybeiothercontenthash".to_string(),
        },
    );
    let (_, outcome) = handle_event(&mut store, &ev, 0);
    assert_eq!(outcome, Outcome::Rejected(RejectReason::HashMismatch));
    assert!(store.posts.is_empty());
}

#[test]
fn delete_of_never_created_key_is_noop() {
    let mut store = Store::new();
    let ev = post_event(10, "did:example:alice", TapRecordAction::Delete);
    let (_, outcome) = handle_event(&mut store, &ev, 0);
    assert_eq!(outcome, Outcome::Applied);
    assert!(store.posts.is_empty());
    assert!(store.accounts.is_empty());
    assert!(store.favourites.is_empty());
    assert!(store.labels.is_empty());
    assert!(store.rules.is_empty());
}

#[test]
fn create_update_delete_replayed_leaves_no_row() {
    let mut store = Store::new();
    let create = || TapRecordAction::Create {
        record: TapRecordData::Post(media("image/gif", 1000, CID)),
        cid: CID.to_string(),
    };
    let update = || TapRecordAction::Update {
        record: TapRecordData::Post(media("image/webp", 1000, CID)),
        cid: CID.to_string(),
    };
    // Replayed under redelivery: each event delivered more than once,
    // the delete last.
    let history = vec![
        create(), create(), update(), create(), update(), update(),
        TapRecordAction::Delete, create(), update(), TapRecordAction::Delete,
        TapRecordAction::Delete,
    ];
    for (n, action) in history.into_iter().enumerate() {
        let (_, outcome) = handle_event(&mut store, &post_event(n, "did:example:alice", action), n as i64);
        assert!(should_ack(&outcome));
    }
    assert!(store.posts.is_empty());
}

#[test]
fn update_preserves_created_at_and_sets_edited_at() {
    let mut store = Store::new();
    let (_, o1) = handle_event(
        &mut store,
        &post_event(1, "did:example:alice", TapRecordAction::Create {
            record: TapRecordData::Post(media("image/gif", 1000, CID)),
            cid: CID.to_string(),
        }),
        111,
    );
    assert_eq!(o1, Outcome::Applied);
    let mut changed = media("image/gif", 1000, CID);
    changed.title = "new title".to_string();
    let (_, o2) = handle_event(
        &mut store,
        &post_event(2, "did:example:alice", TapRecordAction::Update {
            record: TapRecordData::Post(changed),
            cid: CID.to_string(),
        }),
        222,
    );
    assert_eq!(o2, Outcome::Applied);
    assert_eq!(store.posts.len(), 1);
    assert_eq!(store.posts[0].title, "new title");
    assert_eq!(store.posts[0].created_at, 1700000000000);
    assert_eq!(store.posts[0].edited_at, Some(222));
}

#[test]
fn unknown_collection_is_skip_and_acknowledge() {
    let mut store = Store::new();
    let ev = TapEvent::Record {
        id: 3,
        record: TapRecordEventData {
            live: true,
            did: "did:example:alice".to_string(),
            rev: "3jzfcijpj2z2b".to_string(),
            collection: "net.other.kind".to_string(),
            rkey: "whatever".to_string(),
            action: TapRecordAction::Delete,
        },
    };
    let (_, outcome) = handle_event(&mut store, &ev, 0);
    assert_eq!(outcome, Outcome::Unsupported);
    assert!(should_ack(&outcome));
    assert!(store.posts.is_empty() && store.accounts.is_empty());
}

#[test]
fn record_event_updates_rev_watermark() {
    let mut store = Store::new();
    let identity = TapIdentityEventData {
        did: "did:example:alice".to_string(),
        handle: "alice.example".to_string(),
        is_active: true,
        status: "active".to_string(),
    };
    assert_eq!(handle_identity(&mut store, &identity), Outcome::Applied);
    assert_eq!(store.accounts.len(), 1);
    assert_eq!(store.accounts[0].rev, None);
    let (_, outcome) = handle_event(
        &mut store,
        &post_event(4, "did:example:alice", TapRecordAction::Create {
            record: TapRecordData::Post(media("image/gif", 1000, CID)),
            cid: CID.to_string(),
        }),
        0,
    );
    assert_eq!(outcome, Outcome::Applied);
    assert_eq!(store.accounts[0].rev, Some("3jzfcijpj2z2b".to_string()));
}

#[test]
fn identity_deleted_purges_every_row_of_the_did() {
    let mut store = Store::new();
    let identity = TapIdentityEventData {
        did: "did:example:1".to_string(),
        handle: "one.example".to_string(),
        is_active: true,
        status: "active".to_string(),
    };
    handle_identity(&mut store, &identity);
    for n in 0..3usize {
        let (_, o) = handle_event(
            &mut store,
            &post_event(n, "did:example:1", TapRecordAction::Create {
                record: TapRecordData::Post(media("image/gif", 1000, CID)),
                cid: CID.to_string(),
            }),
            0,
        );
        assert_eq!(o, Outcome::Applied);
    }
    let other = TapIdentityEventData {
        did: "did:example:2".to_string(),
        handle: "two.example".to_string(),
        is_active: true,
        status: "active".to_string(),
    };
    handle_identity(&mut store, &other);

    let deleted = TapIdentityEventData {
        did: "did:example:1".to_string(),
        handle: "one.example".to_string(),
        is_active: false,
        status: "deleted".to_string(),
    };
    let ev = TapEvent::Identity { id: 42, identity: deleted };
    let (id, outcome) = handle_event(&mut store, &ev, 0);
    assert_eq!(id, 42);
    assert_eq!(outcome, Outcome::Applied);
    assert!(store.posts.iter().all(|r| r.did != "did:example:1"));
    assert!(store.favourites.iter().all(|r| r.did != "did:example:1"));
    assert!(store.labels.iter().all(|r| r.did != "did:example:1"));
    assert!(store.rules.iter().all(|r| r.did != "did:example:1"));
    assert!(store.accounts.iter().all(|r| r.did != "did:example:1"));
    // The unrelated account survives.
    assert_eq!(store.accounts.len(), 1);
    assert_eq!(store.accounts[0].did, "did:example:2");
}

#[test]
fn identity_takendown_purges_like_deleted() {
    let mut store = Store::new();
    let identity = TapIdentityEventData {
        did: "did:example:1".to_string(),
        handle: "one.example".to_string(),
        is_active: true,
        status: "takendown".to_string(),
    };
    handle_identity(
        &mut store,
        &TapIdentityEventData { status: "active".to_string(), ..identity.clone() },
    );
    assert_eq!(store.accounts.len(), 1);
    handle_identity(&mut store, &identity);
    assert!(store.accounts.is_empty());
}

#[test]
fn identity_upsert_preserves_profile_fields() {
    let mut store = Store::new();
    let rd = TapRecordEventData {
        live: true,
        did: "did:example:alice".to_string(),
        rev: "3jzfcijpj2z2b".to_string(),
        collection: "net.gifdex.actor.profile".to_string(),
        rkey: "self".to_string(),
        action: TapRecordAction::Delete,
    };
    let profile = ProfileRecord {
        display_name: Some("Alice".to_string()),
        pronouns: None,
        avatar: None,
        created_at: 5,
    };
    assert_eq!(handle_profile_create_event(&mut store, &rd, &profile), Outcome::Applied);
    let identity = TapIdentityEventData {
        did: "did:example:alice".to_string(),
        handle: "alice.example".to_string(),
        is_active: true,
        status: "active".to_string(),
    };
    handle_identity(&mut store, &identity);
    assert_eq!(store.accounts.len(), 1);
    assert_eq!(store.accounts[0].display_name, Some("Alice".to_string()));
    assert_eq!(store.accounts[0].handle, Some("alice.example".to_string()));
}

#[test]
fn payload_under_wrong_collection_is_rejected() {
    let mut store = Store::new();
    let profile = ProfileRecord {
        display_name: None,
        pronouns: None,
        avatar: None,
        created_at: 0,
    };
    // A profile payload arriving under the post collection.
    let ev = TapEvent::Record {
        id: 11,
        record: TapRecordEventData {
            live: true,
            did: "did:example:alice".to_string(),
            rev: "3jzfcijpj2z2b".to_string(),
            collection: "net.gifdex.feed.post".to_string(),
            rkey: "self".to_string(),
            action: TapRecordAction::Create {
                record: TapRecordData::Profile(profile),
                cid: CID.to_string(),
            },
        },
    };
    let (_, outcome) = handle_event(&mut store, &ev, 0);
    assert_eq!(outcome, Outcome::Rejected(RejectReason::PayloadShape));
    assert!(store.posts.is_empty() && store.accounts.is_empty());
}

#[test]
fn favourite_create_and_delete_roundtrip() {
    let mut store = Store::new();
    let rkey = format!("{}:{}", TID, CID);
    let mk = |action: TapRecordAction| TapEvent::Record {
        id: 0,
        record: TapRecordEventData {
            live: true,
            did: "did:example:alice".to_string(),
            rev: "3jzfcijpj2z2b".to_string(),
            collection: "net.gifdex.feed.favourite".to_string(),
            rkey: rkey.clone(),
            action,
        },
    };
    let (_, o1) = handle_event(
        &mut store,
        &mk(TapRecordAction::Create {
            record: TapRecordData::Favourite(media("image/webp", 1, CID)),
            cid: CID.to_string(),
        }),
        0,
    );
    assert_eq!(o1, Outcome::Applied);
    assert_eq!(store.favourites.len(), 1);
    assert!(store.posts.is_empty());
    let (_, o2) = handle_event(&mut store, &mk(TapRecordAction::Delete), 0);
    assert_eq!(o2, Outcome::Applied);
    assert!(store.favourites.is_empty());
}

#[test]
fn profile_delete_requires_self_rkey() {
    let mut store = Store::new();
    let mk = |rkey: &str| TapEvent::Record {
        id: 0,
        record: TapRecordEventData {
            live: true,
            did: "did:example:alice".to_string(),
            rev: "3jzfcijpj2z2b".to_string(),
            collection: "net.gifdex.actor.profile".to_string(),
            rkey: rkey.to_string(),
            action: TapRecordAction::Delete,
        },
    };
    let (_, o) = handle_event(&mut store, &mk("other"), 0);
    assert_eq!(o, Outcome::Rejected(RejectReason::NotSelfRkey));
    let (_, o2) = handle_event(&mut store, &mk("self"), 0);
    assert_eq!(o2, Outcome::Applied);
}

#[test]
fn label_and_rule_events_persist_and_delete() {
    let mut store = Store::new();
    let did = "did:example:labeler";
    let rule_ev = TapEvent::Record {
        id: 1,
        record: TapRecordEventData {
            live: true,
            did: did.to_string(),
            rev: "3jzfcijpj2z2b".to_string(),
            collection: "net.gifdex.labeler.rule".to_string(),
            rkey: "rule-1".to_string(),
            action: TapRecordAction::Create {
                record: TapRecordData::Rule(RuleRecord {
                    name: "spam".to_string(),
                    description: "spammy".to_string(),
                    behaviour: RuleBehaviour::Annotate {
                        default_setting: "warn".to_string(),
                        adult_content: false,
                    },
                    created_at: 1,
                }),
                cid: CID.to_string(),
            },
        },
    };
    let (_, o) = handle_event(&mut store, &rule_ev, 0);
    assert_eq!(o, Outcome::Applied);
    assert_eq!(store.rules.len(), 1);

    let label_ev = TapEvent::Record {
        id: 2,
        record: TapRecordEventData {
            live: true,
            did: did.to_string(),
            rev: "3jzfcijpj2z2b".to_string(),
            collection: "net.gifdex.labeler.label".to_string(),
            rkey: "label-1".to_string(),
            action: TapRecordAction::Create {
                record: TapRecordData::Label(LabelRecord {
                    subject: AtUriRef {
                        authority: "did:example:alice".to_string(),
                        collection: Some("net.gifdex.feed.post".to_string()),
                        rkey: Some("whatever".to_string()),
                    },
                    rule: AtUriRef {
                        authority: did.to_string(),
                        collection: Some("net.gifdex.labeler.rule".to_string()),
                        rkey: Some("rule-1".to_string()),
                    },
                    reason: None,
                    created_at: 2,
                    expires_at: None,
                }),
                cid: CID.to_string(),
            },
        },
    };
    let (_, o2) = handle_event(&mut store, &label_ev, 0);
    assert_eq!(o2, Outcome::Applied);
    assert_eq!(store.labels.len(), 1);
    assert_eq!(store.labels[0].rule_did, did);
    assert_eq!(store.labels[0].rule_rkey, "rule-1");

    // Deletes remove both rows again.
    let del = |collection: &str, rkey: &str| TapEvent::Record {
        id: 3,
        record: TapRecordEventData {
            live: true,
            did: did.to_string(),
            rev: "3jzfcijpj2z2b".to_string(),
            collection: collection.to_string(),
            rkey: rkey.to_string(),
            action: TapRecordAction::Delete,
        },
    };
    handle_event(&mut store, &del("net.gifdex.labeler.label", "label-1"), 0);
    handle_event(&mut store, &del("net.gifdex.labeler.rule", "rule-1"), 0);
    assert!(store.labels.is_empty());
    assert!(store.rules.is_empty());
}
