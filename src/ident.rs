//! Minting of slugs and owner secrets.

use rand::Rng;
use vstd::prelude::*;

verus! {

/// Number of characters of an owner secret.
pub const OWNER_SECRET_LEN: usize = 32;

/// Number of characters of a slug, hyphens included.
pub const SLUG_LEN: usize = 36;

/// A lowercase hexadecimal digit.
pub open spec fn is_lower_hex(c: char) -> bool {
    ('0' <= c && c <= '9') || ('a' <= c && c <= 'f')
}

/// An ASCII letter or digit.
pub open spec fn is_alphanumeric(c: char) -> bool {
    ('A' <= c && c <= 'Z') || ('a' <= c && c <= 'z') || ('0' <= c && c <= '9')
}

/// Where the hyphens of a slug stand: after the groups of 8, 4, 4 and 4 digits.
pub open spec fn is_slug_hyphen_index(i: int) -> bool {
    i == 8 || i == 13 || i == 18 || i == 23
}

/// The canonical hyphenated form of a 128-bit identifier: 36 characters,
/// hexadecimal digits in groups of 8-4-4-4-12 separated by hyphens.
pub open spec fn is_slug(s: Seq<char>) -> bool {
    &&& s.len() == SLUG_LEN
    &&& forall|i: int|
        0 <= i < s.len() ==> if is_slug_hyphen_index(i) {
            s[i] == '-'
        } else {
            is_lower_hex(#[trigger] s[i])
        }
}

/// 32 characters, each an ASCII letter or digit.
pub open spec fn is_owner_secret(s: Seq<char>) -> bool {
    &&& s.len() == OWNER_SECRET_LEN
    &&& forall|i: int| 0 <= i < s.len() ==> is_alphanumeric(#[trigger] s[i])
}

#[verifier::external_type_specification]
#[verifier::external_body]
pub struct ExThreadRng(rand::rngs::ThreadRng);

/// Relies on std's `String::push`, which appends one character.
pub assume_specification[ String::push ](s: &mut String, ch: char)
    ensures
        final(s)@ == old(s)@.push(ch),
;

/// Relies on uuid's `Uuid::new_v4` for 128 fresh random bits and on the
/// `Display` of `Uuid::to_hyphenated`, which writes lowercase hex digits in
/// groups of 8-4-4-4-12 joined by hyphens. `new_v4` panics only when the
/// operating system yields no random bytes at all.
#[verifier::external_body]
fn random_slug() -> (r: String)
    ensures
        is_slug(r@),
{
    uuid::Uuid::new_v4().to_hyphenated().to_string()
}

/// Relies on rand's `thread_rng`, the thread-local generator seeded from the
/// operating system.
#[verifier::external_body]
fn secure_rng() -> (r: rand::rngs::ThreadRng) {
    rand::thread_rng()
}

/// Relies on rand's `Alphanumeric` distribution, which draws uniformly
/// from `A-Z`, `a-z` and `0-9`.
#[verifier::external_body]
fn sample_alphanumeric(rng: &mut rand::rngs::ThreadRng) -> (c: char)
    ensures
        is_alphanumeric(c),
{
    rng.sample(rand::distributions::Alphanumeric)
}

/// A fresh slug: a random universally unique identifier in hyphenated form.
pub fn new_slug() -> (r: String)
    ensures
        is_slug(r@),
{
    random_slug()
}

/// A fresh owner secret: 32 characters drawn independently and uniformly
/// from the 62 ASCII letters and digits.
pub fn new_owner_secret() -> (r: String)
    ensures
        is_owner_secret(r@),
{
    let mut rng = secure_rng();
    let mut s = String::new();
    let mut i: usize = 0;
    while i < OWNER_SECRET_LEN
        invariant
            i <= OWNER_SECRET_LEN,
            s@.len() == i,
            forall|j: int| 0 <= j < s@.len() ==> is_alphanumeric(#[trigger] s@[j]),
        decreases OWNER_SECRET_LEN - i,
    {
        let c = sample_alphanumeric(&mut rng);
        s.push(c);
        i = i + 1;
    }
    s
}

} // verus!
