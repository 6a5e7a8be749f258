//! Small string operations that the rest of the library states its
//! messages and inputs with.

use vstd::prelude::*;

verus! {

/// `s` starts with `prefix`.
pub open spec fn starts_with(s: Seq<char>, prefix: Seq<char>) -> bool {
    prefix.len() <= s.len() && s.subrange(0, prefix.len() as int) == prefix
}

/// A text made of `prefix` and then `tail` starts with `prefix`.
pub broadcast proof fn lemma_starts_with_concat(prefix: Seq<char>, tail: Seq<char>)
    ensures
        #[trigger] starts_with(prefix + tail, prefix),
{
    assert((prefix + tail).subrange(0, prefix.len() as int) =~= prefix);
}

/// What `str::trim` leaves of the characters `s`.
pub uninterp spec fn trimmed(s: Seq<char>) -> Seq<char>;

/// Relies on `str::trim`: the text without its leading and trailing
/// whitespace, which depends on the characters alone.
#[verifier::external_body]
pub(crate) fn trim(s: &str) -> (r: &str)
    ensures
        r@ == trimmed(s@),
{
    s.trim()
}

/// Relies on `String::push_str`: `tail` is appended at the end.
#[verifier::external_body]
fn push_str(s: &mut String, tail: &str)
    ensures
        final(s)@ == old(s)@ + tail@,
{
    s.push_str(tail)
}

/// The text `prefix` followed by `detail`.
pub fn prefixed(prefix: &str, detail: &str) -> (r: String)
    ensures
        r@ == prefix@ + detail@,
        starts_with(r@, prefix@),
{
    let mut r = prefix.to_owned();
    push_str(&mut r, detail);
    assert(r@.subrange(0, prefix@.len() as int) =~= prefix@);
    r
}

} // verus!
