//! The address resolver: walking a pointer path one read at a time.
//!
//! A path is a list of offsets.  Starting from a base address, every offset
//! but the last is added to the address at hand and a pointer is read there,
//! which becomes the next address at hand; the last offset is added to the
//! last address at hand and the value itself is read there.  The reads belong
//! to the caller: a [`Walk`] only says where the next one goes and of which
//! kind it is.

use vstd::prelude::*;

verus! {

/// The address `offset` bytes past `from`, in a 64-bit address space that
/// wraps around.
pub open spec fn offset_address(from: u64, offset: u64) -> u64 {
    if from + offset > u64::MAX {
        (from + offset - 0x1_0000_0000_0000_0000) as u64
    } else {
        (from + offset) as u64
    }
}

/// What is read at an address.
#[derive(Clone, Copy, Debug, PartialEq, Eq, Structural)]
pub enum ReadKind {
    /// A 64-bit pointer, which the walk goes on from.
    Pointer,
    /// The 32-bit signed value the path leads to.
    Value,
}

/// A position on a pointer path: `hop` offsets have been followed and led to
/// `from`.
#[derive(Clone, Copy, Debug, PartialEq, Eq, Structural)]
pub struct Walk {
    pub hop: usize,
    pub from: u64,
}

impl Walk {
    /// The walk that has followed nothing yet.
    pub open spec fn spec_begin(base: u64) -> Walk {
        Walk { hop: 0, from: base }
    }

    /// Whether the path has an offset left for this walk to follow.
    pub open spec fn in_path(self, path: Seq<u64>) -> bool {
        self.hop < path.len()
    }

    /// Whether the next read is the one of the value.
    pub open spec fn spec_at_last_hop(self, path: Seq<u64>) -> bool {
        self.hop + 1 == path.len()
    }

    /// Where the next read goes.
    pub open spec fn spec_address(self, path: Seq<u64>) -> u64
        recommends
            self.in_path(path),
    {
        offset_address(self.from, path[self.hop as int])
    }

    /// What the next read is of.
    pub open spec fn spec_kind(self, path: Seq<u64>) -> ReadKind {
        if self.spec_at_last_hop(path) {
            ReadKind::Value
        } else {
            ReadKind::Pointer
        }
    }

    /// The walk after the next read gave `pointer`.
    pub open spec fn spec_advanced(self, pointer: u64) -> Walk {
        Walk { hop: (self.hop + 1) as usize, from: pointer }
    }

    /// Begins a walk at `base`.
    #[verifier::when_used_as_spec(spec_begin)]
    pub fn begin(base: u64) -> (walk: Walk)
        ensures
            walk == Walk::spec_begin(base),
    {
        Walk { hop: 0, from: base }
    }

    /// Whether the next read is the one of the value.
    pub fn at_last_hop(&self, path: &[u64]) -> (last: bool)
        requires
            self.in_path(path@),
        ensures
            last == self.spec_at_last_hop(path@),
    {
        let hops: usize = path.len();
        self.hop + 1 == hops
    }

    /// What the next read is of: a pointer at every offset but the last.
    pub fn kind(&self, path: &[u64]) -> (kind: ReadKind)
        requires
            self.in_path(path@),
        ensures
            kind == self.spec_kind(path@),
    {
        if self.at_last_hop(path) {
            ReadKind::Value
        } else {
            ReadKind::Pointer
        }
    }

    /// Where the next read goes: the address at hand plus the next offset.
    pub fn address(&self, path: &[u64]) -> (address: u64)
        requires
            self.in_path(path@),
        ensures
            address == self.spec_address(path@),
    {
        self.from.wrapping_add(path[self.hop])
    }

    /// Follows the pointer that the last read gave.  There is nothing to
    /// follow once the value has been read, so the walk must not be at its
    /// last hop.
    pub fn advance(&self, pointer: u64, path: &[u64]) -> (walk: Walk)
        requires
            self.in_path(path@),
            !self.spec_at_last_hop(path@),
        ensures
            walk == self.spec_advanced(pointer),
            walk.in_path(path@),
    {
        let hops: usize = path.len();
        Walk { hop: self.hop + 1, from: pointer }
    }
}

} // verus!
