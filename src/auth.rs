//! Gating of the create endpoint by the process-wide master secret.

use vstd::prelude::*;
use vstd::string::StringSliceAdditionalSpecFns;

verus! {

/// Whether a create request carrying `given` is admitted when the service
/// was started with `master` (absent when no master secret is configured).
pub open spec fn authorized(master: Option<Seq<char>>, given: Option<Seq<char>>) -> bool {
    match master {
        None => true,
        Some(m) => given == Some(m),
    }
}

proof fn lemma_bytes_eq_iff_chars_eq(a: &str, b: &str)
    ensures
        (a.spec_bytes() == b.spec_bytes()) == (a@ == b@),
{
    broadcast use vstd::utf8::encode_utf8_decode_utf8;

    if a.spec_bytes() == b.spec_bytes() {
        assert(vstd::utf8::decode_utf8(a.spec_bytes()) == a@);
        assert(vstd::utf8::decode_utf8(b.spec_bytes()) == b@);
    }
}

/// Compares two secrets byte by byte without stopping at the first
/// difference, so that the time taken depends on the lengths only.
pub fn secrets_match(given: &str, expected: &str) -> (r: bool)
    ensures
        r == (given@ == expected@),
{
    let g = given.as_bytes();
    let e = expected.as_bytes();
    proof {
        lemma_bytes_eq_iff_chars_eq(given, expected);
    }
    if g.len() != e.len() {
        return false;
    }
    let mut diff: u8 = 0;
    let mut i: usize = 0;
    while i < g.len()
        invariant
            g@ == given.spec_bytes(),
            e@ == expected.spec_bytes(),
            g@.len() == e@.len(),
            i <= g@.len(),
            (diff == 0) == (forall|j: int| 0 <= j < i ==> g@[j] == e@[j]),
        decreases g@.len() - i,
    {
        let x: u8 = g[i];
        let y: u8 = e[i];
        let next: u8 = diff | (x ^ y);
        assert((next == 0) == (diff == 0 && x == y)) by (bit_vector)
            requires
                next == diff | (x ^ y),
        ;
        diff = next;
        i = i + 1;
    }
    proof {
        if diff == 0 {
            assert(g@ =~= e@);
        }
    }
    diff == 0
}

/// Decides whether a create request may proceed: always when no master
/// secret is configured, otherwise only when the request carries exactly it.
pub fn authorize(master: &Option<String>, given: &Option<String>) -> (r: bool)
    ensures
        r == authorized(master.deep_view(), given.deep_view()),
{
    match master {
        None => true,
        Some(m) => match given {
            None => false,
            Some(g) => secrets_match(g.as_str(), m.as_str()),
        },
    }
}

} // verus!
