//! Small text utilities: substring search, decimal rendering, and case
//! folding through the standard library.

use vstd::prelude::*;

verus! {

/// Whether the needle occurs in the haystack starting at position `i`.
pub open spec fn spec_contains_at(h: Seq<char>, n: Seq<char>, i: int) -> bool {
    0 <= i && i + n.len() <= h.len() && h.subrange(i, i + n.len()) == n
}

/// Whether the needle occurs anywhere in the haystack.
pub open spec fn spec_contains(h: Seq<char>, n: Seq<char>) -> bool {
    exists|i: int| spec_contains_at(h, n, i)
}

/// Substring search: whether `needle` occurs in `haystack`.
pub fn str_contains(haystack: &str, needle: &str) -> (r: bool)
    ensures
        r == spec_contains(haystack@, needle@),
{
    let hl = haystack.unicode_len();
    let nl = needle.unicode_len();
    if nl > hl {
        proof {
            assert(forall|i: int| !spec_contains_at(haystack@, needle@, i));
        }
        return false;
    }
    if nl == 0 {
        proof {
            assert(haystack@.subrange(0, 0) =~= needle@);
            assert(spec_contains_at(haystack@, needle@, 0));
        }
        return true;
    }
    let mut i: usize = 0;
    while i <= hl - nl
        invariant
            0 < nl <= hl,
            hl == haystack@.len(),
            nl == needle@.len(),
            i <= hl - nl + 1,
            forall|k: int| 0 <= k < i ==> !spec_contains_at(haystack@, needle@, k),
        decreases hl - nl - i + 1,
    {
        let mut j: usize = 0;
        let mut matches_here = true;
        while j < nl && matches_here
            invariant
                0 < nl <= hl,
                hl == haystack@.len(),
                nl == needle@.len(),
                i + nl <= hl,
                j <= nl,
                matches_here ==> forall|t: int| 0 <= t < j ==> haystack@[i + t] == needle@[t],
                !matches_here ==> !spec_contains_at(haystack@, needle@, i as int),
            decreases nl - j, (if matches_here { 1int } else { 0int }),
        {
            if haystack.get_char(i + j) != needle.get_char(j) {
                proof {
                    assert(haystack@.subrange(i as int, i + nl as int)[j as int] == haystack@[i
                        + j]);
                }
                matches_here = false;
            } else {
                j = j + 1;
            }
        }
        if matches_here {
            proof {
                assert(haystack@.subrange(i as int, i + nl as int) =~= needle@);
                assert(spec_contains_at(haystack@, needle@, i as int));
            }
            return true;
        }
        i = i + 1;
    }
    proof {
        assert(forall|k: int| 0 <= k < i ==> !spec_contains_at(haystack@, needle@, k));
        assert(forall|k: int| i <= k ==> !spec_contains_at(haystack@, needle@, k));
    }
    false
}

/// The case folding of a character sequence, as the standard library
/// computes it. The result depends on the characters alone.
pub uninterp spec fn lower_of(s: Seq<char>) -> Seq<char>;

/// Relies on str::to_lowercase: full case folding, a function of the
/// characters alone.
#[verifier::external_body]
pub fn lowercase(s: &str) -> (r: String)
    ensures
        r@ == lower_of(s@),
{
    s.to_lowercase()
}

/// Decimal rendering of a value, most significant digit first.
pub open spec fn spec_dec(v: nat) -> Seq<char>
    decreases v,
{
    if v < 10 {
        crate::keys::spec_hex_digit(v as u32)
    } else {
        spec_dec((v / 10) as nat) + crate::keys::spec_hex_digit((v % 10) as u32)
    }
}

/// Append the decimal rendering of a value.
pub fn push_dec(s: &mut String, v: u32)
    ensures
        final(s)@ == old(s)@ + spec_dec(v as nat),
    decreases v,
{
    if v < 10 {
        s.append(crate::keys::hex_digit_str(v));
    } else {
        push_dec(s, v / 10);
        s.append(crate::keys::hex_digit_str(v % 10));
        assert(s@ =~= old(s)@ + spec_dec(v as nat));
    }
}

} // verus!
