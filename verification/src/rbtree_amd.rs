//! Keys of the interval index: an address range given by its start and its
//! length.

use vstd::prelude::*;

verus! {

/// A range of addresses: `size` bytes from `addr`.
///
/// A range of length zero still occupies its start address, so that two
/// entries of one index never share a start.
#[allow(non_camel_case_types)]
#[derive(Debug, Copy, Clone, PartialEq, Eq, Structural)]
pub struct rbtree_key_s {
    pub addr: u64,
    pub size: u64,
}

#[allow(non_camel_case_types)]
pub type rbtree_key_t = rbtree_key_s;

impl rbtree_key_s {
    /// The first address of the range.
    pub open spec fn start(self) -> int {
        self.addr as int
    }

    /// One past the last address of the range.
    pub open spec fn end(self) -> int {
        if self.size == 0 {
            self.addr + 1
        } else {
            self.addr + self.size
        }
    }

    /// Whether address `a` lies in the range.
    pub open spec fn contains(self, a: int) -> bool {
        self.start() <= a < self.end()
    }

    /// Whether the two ranges share an address.
    pub open spec fn overlaps(self, other: Self) -> bool {
        self.start() < other.end() && other.start() < self.end()
    }

    /// The order of keys: by start address first, then by length.
    pub open spec fn precedes(self, other: Self) -> bool {
        self.addr < other.addr || (self.addr == other.addr && self.size < other.size)
    }

    /// The number of addresses the range occupies: its length, and one for an
    /// empty range.
    pub fn span(&self) -> (r: u64)
        ensures
            r == self.end() - self.start(),
            r >= 1,
    {
        if self.size == 0 {
            1
        } else {
            self.size
        }
    }

    /// Whether the whole range lies below address `a`.
    pub fn ends_by(&self, a: u64) -> (r: bool)
        ensures
            r == (self.end() <= a),
    {
        a > self.addr && a - self.addr >= self.span()
    }

    /// Whether address `a` lies in the range.
    pub fn contains_addr(&self, a: u64) -> (r: bool)
        ensures
            r == self.contains(a as int),
    {
        a >= self.addr && a - self.addr < self.span()
    }

    /// Whether the two ranges share an address.
    pub fn intersects(&self, other: &Self) -> (r: bool)
        ensures
            r == self.overlaps(*other),
    {
        if self.addr <= other.addr {
            other.addr - self.addr < self.span()
        } else {
            self.addr - other.addr < other.span()
        }
    }

    /// Whether this key comes before `other` in the order of keys.
    pub fn less_than(&self, other: &Self) -> (r: bool)
        ensures
            r == self.precedes(*other),
    {
        self.addr < other.addr || (self.addr == other.addr && self.size < other.size)
    }
}

/// The key of the range of `size` bytes from `addr`.
pub fn rbtree_key(addr: u64, size: u64) -> (key: rbtree_key_t)
    ensures
        key.addr == addr,
        key.size == size,
{
    rbtree_key_s { addr, size }
}

} // verus!
