//! The checksum engine: the IP-style "fast checksum" over a buffer region.
//!
//! The checksum of a byte region is the one's-complement sum of its 16-bit
//! big-endian words (an odd trailing byte is the high byte of a zero-padded
//! word), with each carry folded back in, complemented at the end.

use vstd::prelude::*;

verus! {

/// One's-complement addition of two 16-bit quantities: the carry out of the
/// top bit is folded back into the sum.
pub open spec fn oc_add(a: int, b: int) -> int {
    if a + b > 0xFFFF {
        a + b - 0xFFFF
    } else {
        a + b
    }
}

/// One's-complement sum of the 16-bit big-endian words of `s`. An odd
/// trailing byte is treated as the high byte of a zero-padded word.
pub open spec fn oc_sum(s: Seq<u8>) -> int
    decreases s.len(),
{
    if s.len() == 0 {
        0
    } else if s.len() % 2 == 1 {
        oc_add(oc_sum(s.subrange(0, s.len() - 1)), (s[s.len() - 1] as int) * 256)
    } else {
        oc_add(
            oc_sum(s.subrange(0, s.len() - 2)),
            (s[s.len() - 2] as int) * 256 + (s[s.len() - 1] as int),
        )
    }
}

/// The plain (unbounded) sum of the 16-bit big-endian words of `s`, with
/// the same zero-padding of an odd trailing byte.
pub open spec fn word_total(s: Seq<u8>) -> int
    decreases s.len(),
{
    if s.len() == 0 {
        0
    } else if s.len() % 2 == 1 {
        word_total(s.subrange(0, s.len() - 1)) + (s[s.len() - 1] as int) * 256
    } else {
        word_total(s.subrange(0, s.len() - 2)) + (s[s.len() - 2] as int) * 256 + (s[s.len()
            - 1] as int)
    }
}

/// Folding the carry back in after each addition loses nothing: the one's-
/// complement sum differs from the plain word sum by a non-negative
/// multiple of 0xFFFF, so summing first and folding afterwards reaches the
/// same value.
pub proof fn lemma_oc_sum_folds_plain_sum(s: Seq<u8>)
    ensures
        exists|k: int| k >= 0 && word_total(s) == oc_sum(s) + #[trigger] (k * 0xFFFF),
    decreases s.len(),
{
    if s.len() == 0 {
        assert(word_total(s) == oc_sum(s) + 0 * 0xFFFF);
    } else {
        let head = if s.len() % 2 == 1 {
            s.subrange(0, s.len() - 1)
        } else {
            s.subrange(0, s.len() - 2)
        };
        lemma_oc_sum_folds_plain_sum(head);
        let k0 = choose|k: int| k >= 0 && word_total(head) == oc_sum(head) + #[trigger] (k
            * 0xFFFF);
        let word = if s.len() % 2 == 1 {
            (s[s.len() - 1] as int) * 256
        } else {
            (s[s.len() - 2] as int) * 256 + (s[s.len() - 1] as int)
        };
        if oc_sum(head) + word > 0xFFFF {
            assert(word_total(s) == oc_sum(s) + (k0 + 1) * 0xFFFF);
        } else {
            assert(word_total(s) == oc_sum(s) + k0 * 0xFFFF);
        }
    }
}

/// The checksum of a byte region: the complement of its one's-complement sum.
pub open spec fn checksum_spec(s: Seq<u8>) -> u16 {
    (0xFFFF - oc_sum(s)) as u16
}

/// The one's-complement sum always stays within 16 bits.
pub proof fn lemma_oc_sum_range(s: Seq<u8>)
    ensures
        0 <= oc_sum(s) <= 0xFFFF,
    decreases s.len(),
{
    if s.len() == 0 {
    } else if s.len() % 2 == 1 {
        lemma_oc_sum_range(s.subrange(0, s.len() - 1));
    } else {
        lemma_oc_sum_range(s.subrange(0, s.len() - 2));
    }
}

/// Computes the checksum of `buffer`'s first `length` bytes. Stateless and
/// order-independent: the result is a pure function of those bytes.
pub fn fast_checksum(buffer: &[u8], length: usize) -> (r: u16)
    requires
        length <= buffer@.len(),
    ensures
        r == checksum_spec(buffer@.subrange(0, length as int)),
{
    let mut acc: u32 = 0;
    let mut i: usize = 0;
    while length - i >= 2
        invariant
            length <= buffer@.len(),
            i <= length,
            i % 2 == 0,
            acc <= 0xFFFF,
            acc == oc_sum(buffer@.subrange(0, i as int)),
        decreases length - i,
    {
        let word: u32 = (buffer[i] as u32) * 256 + (buffer[i + 1] as u32);
        acc = acc + word;
        if acc > 0xFFFF {
            acc = acc - 0xFFFF;
        }
        proof {
            let t = buffer@.subrange(0, i + 2);
            assert(t.subrange(0, t.len() - 2) =~= buffer@.subrange(0, i as int));
        }
        i = i + 2;
    }
    if i < length {
        let word: u32 = (buffer[i] as u32) * 256;
        acc = acc + word;
        if acc > 0xFFFF {
            acc = acc - 0xFFFF;
        }
        proof {
            let t = buffer@.subrange(0, length as int);
            assert(t.subrange(0, t.len() - 1) =~= buffer@.subrange(0, i as int));
        }
    }
    proof {
        lemma_oc_sum_range(buffer@.subrange(0, length as int));
    }
    (0xFFFF - acc) as u16
}

} // verus!
