//! The frame buffer: one network frame as the driver sees it, an owned,
//! contiguous byte region together with the identity of the virtual device
//! the frame is associated with.

use vstd::prelude::*;

verus! {

/// An owned frame buffer. `dev` is the handle (pair index) of the virtual
/// device the frame is currently associated with: the device it was handed
/// to for transmission, or, after restamping, the device it is to appear to
/// have arrived on.
#[derive(Debug)]
pub struct Frame {
    pub bytes: Vec<u8>,
    pub dev: usize,
}

impl Frame {
    /// Wraps an owned byte region as a frame associated with device `dev`.
    pub fn new(bytes: Vec<u8>, dev: usize) -> (r: Frame)
        ensures
            r.bytes@ == bytes@,
            r.dev == dev,
    {
        Frame { bytes, dev }
    }

    /// Duplicates the frame into a second, independently owned buffer with
    /// copied bytes and the same device identity. The original and the
    /// duplicate can thereafter be released independently.
    pub fn duplicate(&self) -> (r: Frame)
        ensures
            r.bytes@ == self.bytes@,
            r.dev == self.dev,
    {
        let mut copy: Vec<u8> = Vec::new();
        let mut i: usize = 0;
        while i < self.bytes.len()
            invariant
                i <= self.bytes@.len(),
                copy@ == self.bytes@.subrange(0, i as int),
            decreases self.bytes@.len() - i,
        {
            copy.push(self.bytes[i]);
            proof {
                assert(copy@ =~= self.bytes@.subrange(0, i + 1));
            }
            i = i + 1;
        }
        proof {
            assert(copy@ =~= self.bytes@);
        }
        Frame { bytes: copy, dev: self.dev }
    }
}

} // verus!
