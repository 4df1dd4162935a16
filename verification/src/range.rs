//! Half-open ranges of 64-bit addresses.

use vstd::prelude::*;

verus! {

/// The addresses `start <= a < end`.
#[derive(Debug, Clone, Copy, PartialEq, Eq, Structural)]
pub struct AddrRange {
    pub start: u64,
    pub end: u64,
}

impl AddrRange {
    /// A range is well formed when it does not end before it starts.
    pub open spec fn wf(self) -> bool {
        self.start <= self.end
    }

    /// Whether `address` lies in the range.
    pub open spec fn spec_contains(self, address: u64) -> bool {
        self.start <= address < self.end
    }

    /// The number of addresses in the range; zero when it is not well formed.
    pub open spec fn spec_len(self) -> nat {
        if self.start <= self.end {
            (self.end - self.start) as nat
        } else {
            0
        }
    }

    /// The range from `start` up to, and without, `end`; `None` when `end` lies
    /// before `start`.
    pub fn new(start: u64, end: u64) -> (r: Option<AddrRange>)
        ensures
            r == (if start <= end {
                Some(AddrRange { start, end })
            } else {
                None
            }),
    {
        if start <= end {
            Some(AddrRange { start, end })
        } else {
            None
        }
    }

    /// Tests whether `address` lies in the range.
    pub fn contains(&self, address: u64) -> (r: bool)
        ensures
            r == self.spec_contains(address),
    {
        self.start <= address && address < self.end
    }

    /// The number of addresses in the range.
    pub fn len(&self) -> (r: u64)
        ensures
            r == self.spec_len(),
    {
        if self.start <= self.end {
            self.end - self.start
        } else {
            0
        }
    }

    /// Whether the range holds no address.
    pub fn is_empty(&self) -> (r: bool)
        ensures
            r == (self.spec_len() == 0),
    {
        self.start >= self.end
    }
}

} // verus!
