//! A snapshot of the memory that unwinding reads: the stack, and the data that
//! encoded pointers refer to. Values are stored least significant byte first.

use vstd::prelude::*;

verus! {

/// The bytes found from address `base` on.
pub struct Region {
    pub base: u64,
    pub bytes: Vec<u8>,
}

impl Region {
    /// Whether the region holds the byte at `address`.
    pub open spec fn covers(self, address: u64) -> bool {
        self.base <= address && address - self.base < self.bytes@.len()
    }

    fn holds(&self, address: u64) -> (r: bool)
        ensures
            r == self.covers(address),
    {
        self.base <= address && ((address - self.base) as u128) < (self.bytes.len() as u128)
    }
}

/// A set of regions. Where two regions hold the same address, the one added
/// first is read.
pub struct Memory {
    pub regions: Vec<Region>,
}

/// The index of the first region that holds `address`.
pub open spec fn first_covering(regions: Seq<Region>, address: u64) -> Option<int>
    decreases regions.len(),
{
    if regions.len() == 0 {
        None
    } else {
        match first_covering(regions.drop_last(), address) {
            Some(i) => Some(i),
            None => if regions.last().covers(address) {
                Some(regions.len() - 1)
            } else {
                None
            },
        }
    }
}

/// The number that eight bytes stand for, least significant byte first.
pub open spec fn le_u64(bytes: Seq<u8>) -> int
    recommends
        bytes.len() == 8,
{
    bytes[0] + 0x100 * bytes[1] + 0x1_0000 * bytes[2] + 0x100_0000 * bytes[3] + 0x1_0000_0000
        * bytes[4] + 0x100_0000_0000 * bytes[5] + 0x1_0000_0000_0000 * bytes[6]
        + 0x100_0000_0000_0000 * bytes[7]
}

proof fn lemma_first_covering_stays(regions: Seq<Region>, n: int, address: u64)
    requires
        0 <= n <= regions.len(),
    ensures
        first_covering(regions.take(n), address) is Some ==> first_covering(regions, address)
            == first_covering(regions.take(n), address),
    decreases regions.len() - n,
{
    if n == regions.len() {
        assert(regions.take(n) =~= regions);
    } else {
        assert(regions.take(n + 1).drop_last() =~= regions.take(n));
        lemma_first_covering_stays(regions, n + 1, address);
    }
}

impl Memory {
    /// The 64-bit value at `address`: that of the eight bytes from `address`
    /// on, where the first region that holds `address` holds them all.
    pub open spec fn spec_read_u64(self, address: u64) -> Option<u64> {
        match first_covering(self.regions@, address) {
            Some(i) => {
                let region = self.regions@[i];
                let at = address - region.base;
                if at + 8 <= region.bytes@.len() {
                    Some(le_u64(region.bytes@.subrange(at, at + 8)) as u64)
                } else {
                    None
                }
            },
            None => None,
        }
    }

    /// The bytes from `start` up to `end`, cut short where the region that
    /// holds `start` ends before `end`. An empty range has no bytes, wherever
    /// it lies.
    pub open spec fn spec_read_bytes(self, start: u64, end: u64) -> Option<Seq<u8>> {
        if end <= start {
            Some(Seq::empty())
        } else {
            match first_covering(self.regions@, start) {
                Some(i) => {
                    let region = self.regions@[i];
                    let at = start - region.base;
                    let len = if end - start <= region.bytes@.len() - at {
                        end - start
                    } else {
                        region.bytes@.len() - at
                    };
                    Some(region.bytes@.subrange(at, at + len))
                },
                None => None,
            }
        }
    }

    /// A snapshot that holds nothing.
    pub fn new() -> (r: Memory)
        ensures
            r.regions@ == Seq::<Region>::empty(),
    {
        Memory { regions: Vec::new() }
    }

    /// Adds the bytes found from `base` on. Addresses that an earlier region
    /// holds keep their bytes.
    pub fn add_region(&mut self, base: u64, bytes: Vec<u8>)
        ensures
            final(self).regions@ == old(self).regions@.push(Region { base, bytes }),
    {
        self.regions.push(Region { base, bytes });
    }

    fn find(&self, address: u64) -> (r: Option<usize>)
        ensures
            match r {
                Some(i) => first_covering(self.regions@, address) == Some(i as int) && i
                    < self.regions@.len() && self.regions@[i as int].covers(address),
                None => first_covering(self.regions@, address) is None,
            },
    {
        let mut i: usize = 0;
        while i < self.regions.len()
            invariant
                i <= self.regions.len(),
                first_covering(self.regions@.take(i as int), address) is None,
            decreases self.regions.len() - i,
        {
            proof {
                assert(self.regions@.take(i + 1).drop_last() =~= self.regions@.take(i as int));
                lemma_first_covering_stays(self.regions@, i + 1, address);
            }
            if self.regions[i].holds(address) {
                return Some(i);
            }
            i += 1;
        }
        assert(self.regions@.take(i as int) =~= self.regions@);
        None
    }

    /// Reads the 64-bit value at `address`.
    pub fn read_u64(&self, address: u64) -> (r: Option<u64>)
        ensures
            r == self.spec_read_u64(address),
    {
        let i = match self.find(address) {
            Some(i) => i,
            None => { return None; },
        };
        let region = &self.regions[i];
        assert(region.covers(address));
        let at: usize = (address - region.base) as usize;
        if region.bytes.len() - at < 8 {
            return None;
        }
        let ghost window = region.bytes@.subrange(at as int, at + 8);
        let b0: u64 = region.bytes[at] as u64;
        let b1: u64 = region.bytes[at + 1] as u64;
        let b2: u64 = region.bytes[at + 2] as u64;
        let b3: u64 = region.bytes[at + 3] as u64;
        let b4: u64 = region.bytes[at + 4] as u64;
        let b5: u64 = region.bytes[at + 5] as u64;
        let b6: u64 = region.bytes[at + 6] as u64;
        let b7: u64 = region.bytes[at + 7] as u64;
        assert(window[0] == b0 && window[1] == b1 && window[2] == b2 && window[3] == b3
            && window[4] == b4 && window[5] == b5 && window[6] == b6 && window[7] == b7);
        Some(
            b0 + 0x100 * b1 + 0x1_0000 * b2 + 0x100_0000 * b3 + 0x1_0000_0000 * b4
                + 0x100_0000_0000 * b5 + 0x1_0000_0000_0000 * b6 + 0x100_0000_0000_0000 * b7,
        )
    }

    /// Copies the bytes from `start` up to `end`, as far as the region that
    /// holds `start` has them.
    pub fn read_bytes(&self, start: u64, end: u64) -> (r: Option<Vec<u8>>)
        ensures
            match (r, self.spec_read_bytes(start, end)) {
                (Some(bytes), Some(expected)) => bytes@ == expected,
                (None, None) => true,
                _ => false,
            },
    {
        if end <= start {
            return Some(Vec::new());
        }
        let i = match self.find(start) {
            Some(i) => i,
            None => { return None; },
        };
        let region = &self.regions[i];
        assert(region.covers(start));
        let at: usize = (start - region.base) as usize;
        let available: usize = region.bytes.len() - at;
        let len: usize = if end - start <= available as u64 {
            (end - start) as usize
        } else {
            available
        };
        let mut bytes: Vec<u8> = Vec::new();
        let mut k: usize = 0;
        while k < len
            invariant
                k <= len,
                at + len <= region.bytes@.len() <= usize::MAX,
                bytes@ == region.bytes@.subrange(at as int, at + k),
            decreases len - k,
        {
            bytes.push(region.bytes[at + k]);
            k += 1;
            assert(bytes@ =~= region.bytes@.subrange(at as int, at + k));
        }
        Some(bytes)
    }
}

} // verus!
