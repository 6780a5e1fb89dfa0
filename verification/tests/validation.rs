use gifdex_ingest::events::{AtUriRef, BlobRef, LabelRecord, MediaRecord, RuleBehaviour,
    RuleRecord, RecordKind, route_collection};
use gifdex_ingest::handlers::{label_validate, media_validate, rule_validate, profile_validate,
    RejectReason};
use gifdex_ingest::events::ProfileRecord;
use gifdex_ingest::keys::{check_cid, check_tid, check_media_rkey, split_first_colon};

const TID: &str = "3jzfcijpj2z2a";
const CID: &str = "bafybeigdyrztabcdefghijklmnop";

fn media(mime: &str, size: u64, cid: &str) -> MediaRecord {
    MediaRecord {
        blob: BlobRef { cid: cid.to_string(), mime_type: mime.to_string(), size },
        alt: Some("alt text".to_string()),
        title: "a title".to_string(),
        tags: vec!["one".to_string(), "two".to_string()],
        languages: Some(vec!["en".to_string()]),
        created_at: 1700000000000,
    }
}

#[test]
fn valid_tid_accepted() {
    assert!(check_tid(TID));
}

#[test]
fn tid_wrong_length_rejected() {
    assert!(!check_tid("3jzfcijpj2z2"));
    assert!(!check_tid("3jzfcijpj2z2aa"));
    assert!(!check_tid(""));
}

#[test]
fn tid_bad_alphabet_rejected() {
    // '1' is outside the base32-sortable alphabet.
    assert!(!check_tid("3jzfcijpj1z2a"));
    // 'z' may not lead: the leading character has its high bit clear.
    assert!(!check_tid("zjzfcijpj2z2a"));
}

#[test]
fn valid_cid_accepted() {
    assert!(check_cid(CID));
}

#[test]
fn cid_must_start_with_multibase_prefix() {
    assert!(!check_cid("qafybeigdyrztabc"));
    assert!(!check_cid("Aafybeigdyrztabc"));
}

#[test]
fn cid_too_short_rejected() {
    assert!(!check_cid("bafybei"));
    assert!(!check_cid(""));
}

#[test]
fn cid_bad_alphabet_rejected() {
    assert!(!check_cid("bafybeigdyrzt0abc"));
    assert!(!check_cid("bafybeigdyrztABC"));
}

#[test]
fn split_first_colon_splits_once() {
    let (a, b) = split_first_colon("left:right:rest").unwrap();
    assert_eq!(a, "left");
    assert_eq!(b, "right:rest");
    assert!(split_first_colon("nocolon").is_none());
}

#[test]
fn media_rkey_matches_blob() {
    let rkey = format!("{}:{}", TID, CID);
    assert!(check_media_rkey(&rkey, CID));
    assert!(!check_media_rkey(&rkey, "bafybeidifferenthash"));
    assert!(!check_media_rkey(TID, CID));
}

#[test]
fn media_accepted_when_all_checks_pass() {
    let rkey = format!("{}:{}", TID, CID);
    assert!(media_validate(&rkey, &media("image/gif", 500000, CID)).is_none());
    assert!(media_validate(&rkey, &media("image/webp", 500000, CID)).is_none());
}

#[test]
fn media_hash_mismatch_rejected() {
    let rkey = format!("{}:{}", TID, "bafybeiothercontenthash");
    assert_eq!(
        media_validate(&rkey, &media("image/gif", 500000, CID)),
        Some(RejectReason::HashMismatch)
    );
}

#[test]
fn media_malformed_rkey_rejected() {
    assert_eq!(
        media_validate("noseparator", &media("image/gif", 500000, CID)),
        Some(RejectReason::MalformedRkey)
    );
    assert_eq!(
        media_validate("badtid:bafybeigdyrztabc", &media("image/gif", 500000, "bafybeigdyrztabc")),
        Some(RejectReason::InvalidTid)
    );
    let rkey = format!("{}:x", TID);
    assert_eq!(
        media_validate(&rkey, &media("image/gif", 500000, "x")),
        Some(RejectReason::InvalidCid)
    );
}

#[test]
fn media_disallowed_mimetype_rejected() {
    let rkey = format!("{}:{}", TID, CID);
    assert_eq!(
        media_validate(&rkey, &media("application/pdf", 500000, CID)),
        Some(RejectReason::DisallowedMime)
    );
}

#[test]
fn media_size_ceiling_is_monotonic() {
    // The ceiling check rejects everything above the limit, not only a
    // size exactly at it.
    let rkey = format!("{}:{}", TID, CID);
    assert!(media_validate(&rkey, &media("image/gif", 10 * 1024 * 1024, CID)).is_none());
    assert_eq!(
        media_validate(&rkey, &media("image/gif", 10 * 1024 * 1024 + 1, CID)),
        Some(RejectReason::OversizeBlob)
    );
    assert_eq!(
        media_validate(&rkey, &media("image/gif", u64::MAX, CID)),
        Some(RejectReason::OversizeBlob)
    );
}

fn profile(avatar: Option<BlobRef>) -> ProfileRecord {
    ProfileRecord {
        display_name: Some("Display".to_string()),
        pronouns: Some("they/them".to_string()),
        avatar,
        created_at: 1700000000000,
    }
}

#[test]
fn profile_requires_self_rkey() {
    assert_eq!(profile_validate("other", &profile(None)), Some(RejectReason::NotSelfRkey));
    assert!(profile_validate("self", &profile(None)).is_none());
}

#[test]
fn profile_avatar_checks() {
    let good = BlobRef { cid: CID.to_string(), mime_type: "image/png".to_string(), size: 1000 };
    assert!(profile_validate("self", &profile(Some(good))).is_none());
    let bad_cid = BlobRef { cid: "nope".to_string(), mime_type: "image/png".to_string(), size: 1 };
    assert_eq!(
        profile_validate("self", &profile(Some(bad_cid))),
        Some(RejectReason::InvalidCid)
    );
    let bad_mime = BlobRef { cid: CID.to_string(), mime_type: "image/gif".to_string(), size: 1 };
    assert_eq!(
        profile_validate("self", &profile(Some(bad_mime))),
        Some(RejectReason::DisallowedMime)
    );
    let big = BlobRef {
        cid: CID.to_string(),
        mime_type: "image/jpeg".to_string(),
        size: 3 * 1024 * 1024 + 1,
    };
    assert_eq!(
        profile_validate("self", &profile(Some(big))),
        Some(RejectReason::OversizeBlob)
    );
}

fn label(rule: AtUriRef) -> LabelRecord {
    LabelRecord {
        subject: AtUriRef {
            authority: "did:example:subject".to_string(),
            collection: Some("net.gifdex.feed.post".to_string()),
            rkey: Some("3jzfcijpj2z2a:bafybeigdyrztabc".to_string()),
        },
        rule,
        reason: Some("why".to_string()),
        created_at: 1700000000000,
        expires_at: None,
    }
}

#[test]
fn label_own_rule_accepted() {
    let rule = AtUriRef {
        authority: "did:example:labeler".to_string(),
        collection: Some("net.gifdex.labeler.rule".to_string()),
        rkey: Some("rule-1".to_string()),
    };
    assert!(label_validate("did:example:labeler", &label(rule)).is_none());
}

#[test]
fn label_foreign_authority_rejected() {
    let rule = AtUriRef {
        authority: "did:example:someoneelse".to_string(),
        collection: Some("net.gifdex.labeler.rule".to_string()),
        rkey: Some("rule-1".to_string()),
    };
    assert_eq!(
        label_validate("did:example:labeler", &label(rule)),
        Some(RejectReason::ForeignRuleAuthority)
    );
}

#[test]
fn label_incomplete_rule_ref_rejected() {
    let no_collection = AtUriRef {
        authority: "did:example:labeler".to_string(),
        collection: None,
        rkey: Some("rule-1".to_string()),
    };
    assert_eq!(
        label_validate("did:example:labeler", &label(no_collection)),
        Some(RejectReason::IncompleteRuleRef)
    );
    let no_rkey = AtUriRef {
        authority: "did:example:labeler".to_string(),
        collection: Some("net.gifdex.labeler.rule".to_string()),
        rkey: None,
    };
    assert_eq!(
        label_validate("did:example:labeler", &label(no_rkey)),
        Some(RejectReason::IncompleteRuleRef)
    );
}

#[test]
fn label_wrong_collection_rejected() {
    let wrong = AtUriRef {
        authority: "did:example:labeler".to_string(),
        collection: Some("net.gifdex.feed.post".to_string()),
        rkey: Some("rule-1".to_string()),
    };
    assert_eq!(
        label_validate("did:example:labeler", &label(wrong)),
        Some(RejectReason::WrongRuleCollection)
    );
}

#[test]
fn rule_unknown_behaviour_rejected() {
    let rule = RuleRecord {
        name: "name".to_string(),
        description: "desc".to_string(),
        behaviour: RuleBehaviour::Unknown,
        created_at: 0,
    };
    assert_eq!(rule_validate(&rule), Some(RejectReason::UnknownBehaviour));
    let ok = RuleRecord {
        name: "name".to_string(),
        description: "desc".to_string(),
        behaviour: RuleBehaviour::Moderate { takedown: true },
        created_at: 0,
    };
    assert!(rule_validate(&ok).is_none());
}

#[test]
fn router_matches_exactly_five_collections() {
    assert_eq!(route_collection("net.gifdex.feed.post"), Some(RecordKind::Post));
    assert_eq!(route_collection("net.gifdex.feed.favourite"), Some(RecordKind::Favourite));
    assert_eq!(route_collection("net.gifdex.actor.profile"), Some(RecordKind::Profile));
    assert_eq!(route_collection("net.gifdex.labeler.label"), Some(RecordKind::Label));
    assert_eq!(route_collection("net.gifdex.labeler.rule"), Some(RecordKind::Rule));
    assert_eq!(route_collection("net.gifdex.feed.posts"), None);
    assert_eq!(route_collection(""), None);
}
