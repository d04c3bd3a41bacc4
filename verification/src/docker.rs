//! Docker image tags.

use vstd::prelude::*;
use vstd::string::*;

use std::hash::{Hash, Hasher};

use crate::patterns::{is_tag_char, regex_replace_all, sanitize_tag, TAG_FORBIDDEN_PATTERN};
use crate::text::{hex_upper, to_hex_upper};

verus! {

/// The longest tag that Docker accepts.
pub const MAX_TAG_LENGTH: usize = 63;

/// The hash that a `DefaultHasher` made by `DefaultHasher::new` gives of a string.
pub uninterp spec fn default_hash_of(s: Seq<char>) -> u64;

/// The tag that `normalize_tag` gives: the sanitized tag, and, when it is
/// longer than the limit, its head followed by the uppercase hexadecimal
/// writing of its hash, so that the whole is exactly as long as the limit.
pub open spec fn normalized_tag(tag: Seq<char>) -> Seq<char> {
    let t = sanitize_tag(tag);
    if t.len() > MAX_TAG_LENGTH {
        let h = hex_upper(default_hash_of(t) as nat);
        t.take(MAX_TAG_LENGTH - h.len()) + h
    } else {
        t
    }
}

/// Hashes a string with a `DefaultHasher` made by `DefaultHasher::new`; all the
/// hashers made that way are the same, so the hash depends on the string alone.
#[verifier::external_body]
fn hash_with_default_hasher(s: &String) -> (h: u64)
    ensures
        h == default_hash_of(s@),
{
    let mut hasher = std::collections::hash_map::DefaultHasher::new();
    s.hash(&mut hasher);
    hasher.finish()
}

/// Turns any branch name into a valid Docker tag.
pub fn normalize_tag(tag: String) -> (res: String)
    ensures
        res@ == normalized_tag(tag@),
{
    let sanitized = regex_replace_all(TAG_FORBIDDEN_PATTERN, tag.as_str(), "-");
    proof {
        reveal_strlit("-");
    }
    let len = sanitized.as_str().unicode_len();
    if len > MAX_TAG_LENGTH {
        let hash = to_hex_upper(hash_with_default_hasher(&sanitized));
        let hash_len = hash.as_str().unicode_len();
        proof {
            crate::text::lemma_hex_upper_len_u64(default_hash_of(sanitized@) as nat);
        }
        let head = sanitized.as_str().substring_char(0, MAX_TAG_LENGTH - hash_len);
        let res = head.to_owned().concat(hash.as_str());
        res
    } else {
        sanitized
    }
}

} // verus!

verus! {

/// Every digit of an uppercase hexadecimal writing may stand in a tag.
proof fn lemma_hex_upper_tag_chars(n: nat)
    ensures
        forall|i: int| 0 <= i < hex_upper(n).len() ==> is_tag_char(#[trigger] hex_upper(n)[i]),
    decreases n,
{
    if n >= 16 {
        lemma_hex_upper_tag_chars(n / 16);
        let d = n % 16;
        assert(is_tag_char(crate::text::hex_digit(d)));
        let h = hex_upper(n);
        let prev = hex_upper(n / 16);
        assert(h == prev.push(crate::text::hex_digit(d)));
        assert forall|i: int| 0 <= i < h.len() implies is_tag_char(#[trigger] h[i]) by {
            if i < prev.len() {
                assert(h[i] == prev[i]);
            }
        }
    } else {
        assert(is_tag_char(crate::text::hex_digit(n)));
    }
}

/// The text is a valid Docker tag: made of allowed characters only, and no
/// longer than the limit.
pub open spec fn valid_tag(t: Seq<char>) -> bool {
    &&& t.len() <= MAX_TAG_LENGTH
    &&& forall|i: int| 0 <= i < t.len() ==> is_tag_char(#[trigger] t[i])
}

/// Any branch name normalizes into a valid Docker tag; a sanitized name that
/// was too long is cut to exactly the limit.
pub proof fn lemma_normalized_tag_valid(tag: Seq<char>)
    ensures
        valid_tag(normalized_tag(tag)),
        sanitize_tag(tag).len() <= MAX_TAG_LENGTH ==> normalized_tag(tag) == sanitize_tag(tag),
        sanitize_tag(tag).len() > MAX_TAG_LENGTH ==> normalized_tag(tag).len() == MAX_TAG_LENGTH,
{
    let t = sanitize_tag(tag);
    assert forall|i: int| 0 <= i < t.len() implies is_tag_char(#[trigger] t[i]) by {}
    if t.len() > MAX_TAG_LENGTH {
        let n = default_hash_of(t) as nat;
        let h = hex_upper(n);
        crate::text::lemma_hex_upper_len_u64(n);
        lemma_hex_upper_tag_chars(n);
        let r = t.take(MAX_TAG_LENGTH - h.len()) + h;
        assert forall|i: int| 0 <= i < r.len() implies is_tag_char(#[trigger] r[i]) by {
            if i < MAX_TAG_LENGTH - h.len() {
                assert(r[i] == t[i]);
            } else {
                assert(r[i] == h[i - (MAX_TAG_LENGTH - h.len())]);
            }
        }
    }
}

/// Sanitizing a text made of allowed characters leaves it unchanged.
proof fn lemma_sanitize_valid(t: Seq<char>)
    requires
        forall|i: int| 0 <= i < t.len() ==> is_tag_char(#[trigger] t[i]),
    ensures
        sanitize_tag(t) == t,
{
    assert(sanitize_tag(t) =~= t);
}

/// Normalizing a tag twice gives the same tag as normalizing it once.
pub proof fn lemma_normalize_tag_idempotent(tag: Seq<char>)
    ensures
        normalized_tag(normalized_tag(tag)) == normalized_tag(tag),
{
    lemma_normalized_tag_valid(tag);
    let n = normalized_tag(tag);
    lemma_sanitize_valid(n);
}

} // verus!
