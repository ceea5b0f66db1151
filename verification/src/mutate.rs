//! The address mutator: given a frame believed to hold an IPv4 packet after
//! its Ethernet header, toggles a marked bit in both the source and the
//! destination address, recomputes the header checksum in place, and stamps
//! the frame with a new owning device identity. The transformation is
//! deterministic and reversible; it exists to make a looped-back frame's
//! departure and arrival addresses visibly distinct.

use vstd::prelude::*;
use vstd::slice::slice_subrange;
use crate::checksum::{checksum_spec, fast_checksum};
use crate::frame::Frame;

verus! {

/// The frame is too short for an Ethernet header plus a minimal IPv4 header.
#[derive(Clone, Copy, Debug, PartialEq, Eq, Structural)]
pub enum MutationError {
    TooShort,
}

/// The least frame length the mutator accepts: a 14-byte Ethernet header
/// followed by a minimal 20-byte IPv4 header.
pub const MIN_MUTABLE_LEN: usize = 34;

/// The frame offset of the IPv4 header checksum field (header offset 10).
pub const CHECK_OFFSET: usize = 24;

/// The frame offset of the IPv4 source address (header offset 12).
pub const SADDR_OFFSET: usize = 26;

/// The frame offset of the IPv4 destination address (header offset 16).
pub const DADDR_OFFSET: usize = 30;

/// The frame bytes with the marked address bit toggled: bit 16 of each
/// address in network bit order, the high bit of the third octet.
pub open spec fn flipped_addrs(s: Seq<u8>) -> Seq<u8> {
    s.update(28, s[28] ^ 0x80).update(32, s[32] ^ 0x80)
}

/// The frame bytes with the IPv4 checksum field zeroed.
pub open spec fn with_check_zeroed(s: Seq<u8>) -> Seq<u8> {
    s.update(24, 0u8).update(25, 0u8)
}

/// The 20-byte IPv4 header region of a frame.
pub open spec fn ipv4_header(s: Seq<u8>) -> Seq<u8> {
    s.subrange(14, 34)
}

/// The checksum the mutator stores: computed over the mutated header with
/// the checksum field zeroed.
pub open spec fn restamped_checksum(s: Seq<u8>) -> u16 {
    checksum_spec(ipv4_header(with_check_zeroed(flipped_addrs(s))))
}

/// What the mutator leaves in the frame buffer: both addresses flipped and
/// the recomputed checksum stored big-endian in the checksum field.
pub open spec fn mutate_spec(s: Seq<u8>) -> Seq<u8> {
    let c = restamped_checksum(s);
    flipped_addrs(s).update(24, (c / 256) as u8).update(25, (c % 256) as u8)
}

/// Mutates `frame` in place: flips the marked bit of the IPv4 source and
/// destination addresses, recomputes and stores the header checksum, and
/// stamps the frame's device identity to `new_dev`. All-or-nothing on the
/// length check: a frame shorter than 34 bytes is left byte-for-byte
/// unchanged and the error is reported up the call chain. No new buffer is
/// allocated.
pub fn mutate_and_restamp(frame: &mut Frame, new_dev: usize) -> (r: Result<(), MutationError>)
    ensures
        old(frame).bytes@.len() < 34 ==> (r == Err::<(), MutationError>(MutationError::TooShort)
            && final(frame).bytes@ == old(frame).bytes@
            && final(frame).dev == old(frame).dev),
        old(frame).bytes@.len() >= 34 ==> (r == Ok::<(), MutationError>(())
            && final(frame).bytes@ == mutate_spec(old(frame).bytes@)
            && final(frame).dev == new_dev),
{
    if frame.bytes.len() < MIN_MUTABLE_LEN {
        return Err(MutationError::TooShort);
    }
    let s28 = frame.bytes[SADDR_OFFSET + 2];
    frame.bytes[SADDR_OFFSET + 2] = s28 ^ 0x80;
    let s32 = frame.bytes[DADDR_OFFSET + 2];
    frame.bytes[DADDR_OFFSET + 2] = s32 ^ 0x80;
    frame.bytes[CHECK_OFFSET] = 0;
    frame.bytes[CHECK_OFFSET + 1] = 0;
    proof {
        assert(frame.bytes@ =~= with_check_zeroed(flipped_addrs(old(frame).bytes@)));
    }
    let header = slice_subrange(frame.bytes.as_slice(), 14, 34);
    let c = fast_checksum(header, 20);
    proof {
        assert(header@.subrange(0, 20) =~= ipv4_header(with_check_zeroed(flipped_addrs(
            old(frame).bytes@,
        ))));
    }
    frame.bytes[CHECK_OFFSET] = (c / 256) as u8;
    frame.bytes[CHECK_OFFSET + 1] = (c % 256) as u8;
    frame.dev = new_dev;
    proof {
        assert(frame.bytes@ =~= mutate_spec(old(frame).bytes@));
    }
    Ok(())
}

/// Mutation involution: applying the address flip twice restores every byte
/// outside the stored-checksum field — in particular both the source and the
/// destination address — bit for bit.
pub proof fn lemma_mutation_involution(s: Seq<u8>)
    requires
        s.len() >= 34,
    ensures
        mutate_spec(mutate_spec(s)).len() == s.len(),
        forall|i: int|
            0 <= i < s.len() && i != 24 && i != 25 ==> mutate_spec(mutate_spec(s))[i] == s[i],
{
    assert(forall|x: u8| #[trigger] ((x ^ 0x80) ^ 0x80) == x) by (bit_vector);
}

/// Checksum consistency: in a mutated frame, the stored checksum field
/// equals the checksum recomputed over the mutated header with the checksum
/// field zeroed.
pub proof fn lemma_restamp_consistent(s: Seq<u8>)
    requires
        s.len() >= 34,
    ensures
        ({
            let m = mutate_spec(s);
            (m[24] as int) * 256 + (m[25] as int) == checksum_spec(
                ipv4_header(with_check_zeroed(m)),
            )
        }),
{
    let m = mutate_spec(s);
    let c = restamped_checksum(s);
    assert(with_check_zeroed(m) =~= with_check_zeroed(flipped_addrs(s)));
    assert((m[24] as int) * 256 + (m[25] as int) == c) by {
        assert(m[24] == (c / 256) as u8);
        assert(m[25] == (c % 256) as u8);
    }
}

} // verus!
