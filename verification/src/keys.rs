//! Record-key tokens: TIDs (timestamp-ordered identifiers), CIDs
//! (self-describing content hashes) and the compound `<tid>:<cid>` rkey
//! used by media records.

use vstd::prelude::*;
use crate::text::str_eq;

verus! {

/// A character of the base32-sortable alphabet used by TIDs.
pub open spec fn is_tid_char(c: char) -> bool {
    ('2' <= c && c <= '7') || ('a' <= c && c <= 'z')
}

/// A character admissible as the leading character of a TID: the leading
/// character additionally has its high bit clear, which restricts it to
/// the first half of the alphabet.
pub open spec fn is_tid_lead_char(c: char) -> bool {
    ('2' <= c && c <= '7') || ('a' <= c && c <= 'j')
}

/// A structurally valid TID: exactly 13 characters of the base32-sortable
/// alphabet, the first drawn from the restricted leading subset.
pub open spec fn is_valid_tid(s: Seq<char>) -> bool {
    &&& s.len() == 13
    &&& is_tid_lead_char(s[0])
    &&& forall|i: int| 0 <= i < s.len() ==> is_tid_char(#[trigger] s[i])
}

/// A character of the base32 lowercase alphabet used by CIDs.
pub open spec fn is_cid_char(c: char) -> bool {
    ('a' <= c && c <= 'z') || ('2' <= c && c <= '7')
}

/// A structurally valid CID: the base32 multibase prefix `b` followed by
/// at least seven base32 characters carrying the self-describing hash.
pub open spec fn is_valid_cid(s: Seq<char>) -> bool {
    &&& s.len() >= 8
    &&& s[0] == 'b'
    &&& forall|i: int| 1 <= i < s.len() ==> is_cid_char(#[trigger] s[i])
}

/// Checks whether `s` is a structurally valid TID.
pub fn check_tid(s: &str) -> (r: bool)
    ensures
        r == is_valid_tid(s@),
{
    let n = s.unicode_len();
    if n != 13 {
        return false;
    }
    let c0 = s.get_char(0);
    if !((('2' <= c0 && c0 <= '7') || ('a' <= c0 && c0 <= 'j'))) {
        return false;
    }
    let mut i: usize = 1;
    while i < n
        invariant
            1 <= i <= n,
            n == s@.len() == 13,
            is_tid_lead_char(s@[0]),
            forall|j: int| 0 <= j < i ==> is_tid_char(#[trigger] s@[j]),
        decreases n - i,
    {
        let c = s.get_char(i);
        if !((('2' <= c && c <= '7') || ('a' <= c && c <= 'z'))) {
            return false;
        }
        i += 1;
    }
    true
}

/// Checks whether `s` is a structurally valid CID.
pub fn check_cid(s: &str) -> (r: bool)
    ensures
        r == is_valid_cid(s@),
{
    let n = s.unicode_len();
    if n < 8 {
        return false;
    }
    if s.get_char(0) != 'b' {
        return false;
    }
    let mut i: usize = 1;
    while i < n
        invariant
            1 <= i <= n,
            n == s@.len(),
            n >= 8,
            s@[0] == 'b',
            forall|j: int| 1 <= j < i ==> is_cid_char(#[trigger] s@[j]),
        decreases n - i,
    {
        let c = s.get_char(i);
        if !((('a' <= c && c <= 'z') || ('2' <= c && c <= '7'))) {
            return false;
        }
        i += 1;
    }
    true
}

/// The position of the first `:` in `s`, or -1 when none occurs.
pub open spec fn first_colon(s: Seq<char>) -> int
    decreases s.len(),
{
    if s.len() == 0 {
        -1
    } else if s[0] == ':' {
        0
    } else {
        let r = first_colon(s.drop_first());
        if r < 0 {
            -1
        } else {
            r + 1
        }
    }
}

/// The first colon splits the sequence and occurs nowhere earlier.
pub proof fn lemma_first_colon(s: Seq<char>)
    ensures
        first_colon(s) < 0 ==> forall|i: int| 0 <= i < s.len() ==> s[i] != ':',
        first_colon(s) >= 0 ==> {
            &&& first_colon(s) < s.len()
            &&& s[first_colon(s)] == ':'
            &&& forall|i: int| 0 <= i < first_colon(s) ==> s[i] != ':'
        },
    decreases s.len(),
{
    if s.len() > 0 && s[0] != ':' {
        lemma_first_colon(s.drop_first());
        assert forall|i: int| 0 <= i < s.len() && i != 0 implies s[i] == s.drop_first()[i
            - 1] by {}
    }
}

/// The rkey of a media record splits as `<tid>:<cid>` at its first colon,
/// both halves structurally valid.
pub open spec fn is_valid_media_rkey(s: Seq<char>) -> bool {
    let p = first_colon(s);
    &&& p >= 0
    &&& is_valid_tid(s.subrange(0, p))
    &&& is_valid_cid(s.subrange(p + 1, s.len() as int))
}

/// The CID embedded in a media rkey: everything after the first colon.
pub open spec fn media_rkey_cid(s: Seq<char>) -> Seq<char> {
    s.subrange(first_colon(s) + 1, s.len() as int)
}

/// Splits `s` at its first colon, returning the prefix and suffix, or
/// `None` when `s` holds no colon.
pub fn split_first_colon(s: &str) -> (r: Option<(String, String)>)
    ensures
        match r {
            Some(pair) => {
                &&& first_colon(s@) >= 0
                &&& pair.0@ == s@.subrange(0, first_colon(s@))
                &&& pair.1@ == s@.subrange(first_colon(s@) + 1, s@.len() as int)
            },
            None => first_colon(s@) < 0,
        },
{
    let n = s.unicode_len();
    let mut i: usize = 0;
    while i < n
        invariant
            0 <= i <= n,
            n == s@.len(),
            forall|j: int| 0 <= j < i ==> s@[j] != ':',
        decreases n - i,
    {
        if s.get_char(i) == ':' {
            proof {
                lemma_first_colon(s@);
                if first_colon(s@) < 0 {
                    assert(s@[i as int] != ':');
                }
                if first_colon(s@) < i {
                    assert(s@[first_colon(s@)] != ':');
                }
                if first_colon(s@) > i {
                    assert(s@[i as int] != ':');
                }
            }
            let pre = s.substring_char(0, i).to_owned();
            let post = s.substring_char(i + 1, n).to_owned();
            return Some((pre, post));
        }
        i += 1;
    }
    proof {
        lemma_first_colon(s@);
        if first_colon(s@) >= 0 {
            assert(s@[first_colon(s@)] != ':');
        }
    }
    None
}

/// Checks that `rkey` has the compound `<tid>:<cid>` shape and that its
/// embedded CID equals `blob_cid`, the hash of the record's media blob.
pub fn check_media_rkey(rkey: &str, blob_cid: &str) -> (r: bool)
    ensures
        r == (is_valid_media_rkey(rkey@) && media_rkey_cid(rkey@) == blob_cid@),
{
    match split_first_colon(rkey) {
        None => false,
        Some((tid_part, cid_part)) => {
            if !check_tid(tid_part.as_str()) {
                return false;
            }
            if !check_cid(cid_part.as_str()) {
                return false;
            }
            str_eq(cid_part.as_str(), blob_cid)
        },
    }
}

} // verus!
