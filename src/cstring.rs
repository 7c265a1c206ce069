//! Null-terminated byte strings for the native logging boundary.
//!
//! The native entry points read their text arguments up to the first null
//! byte, so an interior null would silently cut a message short. Every null
//! byte is therefore replaced by a visible placeholder before the text is
//! terminated.
use vstd::prelude::*;
use vstd::string::StringSliceAdditionalSpecFns;

verus! {

/// The text that stands in for an interior null byte: `(null)`.
pub open spec fn placeholder() -> Seq<u8> {
    seq![40u8, 110u8, 117u8, 108u8, 108u8, 41u8]
}

/// What one input byte becomes once sanitized.
pub open spec fn sanitized_byte(b: u8) -> Seq<u8> {
    if b == 0 {
        placeholder()
    } else {
        seq![b]
    }
}

/// The input with every null byte replaced by the placeholder.
pub open spec fn sanitize(s: Seq<u8>) -> Seq<u8>
    decreases s.len(),
{
    if s.len() == 0 {
        Seq::empty()
    } else {
        sanitize(s.drop_last()) + sanitized_byte(s.last())
    }
}

/// The null-terminated form handed across the native boundary.
pub open spec fn c_string_of(s: Seq<u8>) -> Seq<u8> {
    sanitize(s).push(0u8)
}

pub open spec fn has_no_null(s: Seq<u8>) -> bool {
    forall|i: int| 0 <= i < s.len() ==> s[i] != 0u8
}

/// Sanitizing a concatenation sanitizes each part on its own: every byte is
/// replaced independently of its neighbours.
pub proof fn lemma_sanitize_concat(a: Seq<u8>, b: Seq<u8>)
    ensures
        sanitize(a + b) == sanitize(a) + sanitize(b),
    decreases b.len(),
{
    if b.len() == 0 {
        assert(a + b =~= a);
        assert(sanitize(a) + sanitize(b) =~= sanitize(a));
    } else {
        assert((a + b).drop_last() =~= a + b.drop_last());
        assert((a + b).last() == b.last());
        lemma_sanitize_concat(a, b.drop_last());
        assert(sanitize(a) + sanitize(b.drop_last()) + sanitized_byte(b.last())
            =~= sanitize(a) + (sanitize(b.drop_last()) + sanitized_byte(b.last())));
    }
}

/// A sanitized text holds no null byte.
pub proof fn lemma_sanitize_has_no_null(s: Seq<u8>)
    ensures
        has_no_null(sanitize(s)),
    decreases s.len(),
{
    if s.len() > 0 {
        lemma_sanitize_has_no_null(s.drop_last());
        let p = sanitize(s.drop_last());
        let q = sanitized_byte(s.last());
        assert(has_no_null(q));
        assert forall|i: int| 0 <= i < (p + q).len() implies (p + q)[i] != 0u8 by {
            if i < p.len() {
                assert((p + q)[i] == p[i]);
            } else {
                assert((p + q)[i] == q[i - p.len()]);
            }
        }
    }
}

/// A text without null bytes passes through sanitizing unchanged.
pub proof fn lemma_sanitize_identity(s: Seq<u8>)
    requires
        has_no_null(s),
    ensures
        sanitize(s) == s,
    decreases s.len(),
{
    if s.len() > 0 {
        assert(has_no_null(s.drop_last()));
        lemma_sanitize_identity(s.drop_last());
        assert(s.drop_last().push(s.last()) =~= s);
        assert(sanitize(s.drop_last()) + sanitized_byte(s.last()) =~= s);
    }
}

/// Sanitizing is the identity on its own output: a second pass changes nothing.
pub proof fn lemma_sanitize_idempotent(s: Seq<u8>)
    ensures
        sanitize(sanitize(s)) == sanitize(s),
{
    lemma_sanitize_has_no_null(s);
    lemma_sanitize_identity(sanitize(s));
}

/// Replaces every null byte of `s` by the placeholder, keeping every other
/// byte in place.
pub fn sanitize_bytes(s: &[u8]) -> (r: Vec<u8>)
    ensures
        r@ == sanitize(s@),
{
    let mut out: Vec<u8> = Vec::new();
    let mut i: usize = 0;
    while i < s.len()
        invariant
            i <= s@.len(),
            out@ == sanitize(s@.subrange(0, i as int)),
        decreases s@.len() - i,
    {
        let b: u8 = s[i];
        proof {
            let pre = s@.subrange(0, i as int + 1);
            assert(pre.drop_last() =~= s@.subrange(0, i as int));
            assert(pre.last() == b);
        }
        if b == 0u8 {
            out.push(40u8);
            out.push(110u8);
            out.push(117u8);
            out.push(108u8);
            out.push(108u8);
            out.push(41u8);
        } else {
            out.push(b);
        }
        proof {
            assert(out@ =~= sanitize(s@.subrange(0, i as int)) + sanitized_byte(b));
        }
        i = i + 1;
    }
    assert(s@.subrange(0, s@.len() as int) =~= s@);
    out
}

/// Turns `message` into the null-terminated bytes that the native boundary
/// reads: interior null bytes become `(null)`, and one null byte ends it.
pub fn to_cstr(message: &str) -> (r: Vec<u8>)
    ensures
        r@ == c_string_of(message.spec_bytes()),
{
    let mut r = sanitize_bytes(message.as_bytes());
    r.push(0u8);
    r
}

} // verus!
