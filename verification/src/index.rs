//! The top-level parsing context: creation options and the exactly-once
//! disposal discipline.

use vstd::prelude::*;

verus! {

/// Option bit: leave declarations that came from precompiled headers out.
pub const INDEX_EXCLUDE_DECLARATIONS_FROM_PCH: u32 = 0x1;
/// Option bit: print diagnostics to standard error as they are produced.
pub const INDEX_DISPLAY_DIAGNOSTICS: u32 = 0x2;

/// The two independent index-creation options, combined as the native
/// bitmask.
#[derive(Debug, Clone, Copy, PartialEq, Eq, Structural)]
pub struct IndexOptions {
    bits: u32,
}

impl IndexOptions {
    /// The native bitmask.
    pub closed spec fn spec_bits(&self) -> u32 {
        self.bits
    }

    /// Whether declarations from precompiled headers are excluded.
    pub open spec fn spec_excludes_pch(&self) -> bool {
        self.spec_bits() & INDEX_EXCLUDE_DECLARATIONS_FROM_PCH
            == INDEX_EXCLUDE_DECLARATIONS_FROM_PCH
    }

    /// Whether diagnostics are printed to standard error.
    pub open spec fn spec_displays_diagnostics(&self) -> bool {
        self.spec_bits() & INDEX_DISPLAY_DIAGNOSTICS == INDEX_DISPLAY_DIAGNOSTICS
    }

    /// The empty option set.
    pub fn empty() -> (o: IndexOptions)
        ensures
            o.spec_bits() == 0,
    {
        IndexOptions { bits: 0 }
    }

    /// An option set from a native bitmask, keeping only the known bits.
    pub fn from_bits_truncate(bits: u32) -> (o: IndexOptions)
        ensures
            o.spec_bits() == bits & (INDEX_EXCLUDE_DECLARATIONS_FROM_PCH
                | INDEX_DISPLAY_DIAGNOSTICS),
    {
        IndexOptions { bits: bits & (INDEX_EXCLUDE_DECLARATIONS_FROM_PCH
            | INDEX_DISPLAY_DIAGNOSTICS) }
    }

    /// True when every bit of `mask` is set in this option set.
    pub fn contains(&self, mask: u32) -> (r: bool)
        ensures
            r == (self.spec_bits() & mask == mask),
    {
        self.bits & mask == mask
    }

    /// The native bitmask.
    pub fn bits(&self) -> (r: u32)
        ensures
            r == self.spec_bits(),
    {
        self.bits
    }

    /// The two option flags as the pair of integers the native creation call
    /// takes: one integer per independent boolean, 1 when the option is set.
    pub fn native_args(&self) -> (r: (i32, i32))
        ensures
            r.0 == if self.spec_excludes_pch() {
                1i32
            } else {
                0i32
            },
            r.1 == if self.spec_displays_diagnostics() {
                1i32
            } else {
                0i32
            },
    {
        let exclude: i32 = if self.contains(INDEX_EXCLUDE_DECLARATIONS_FROM_PCH) {
            1
        } else {
            0
        };
        let display: i32 = if self.contains(INDEX_DISPLAY_DIAGNOSTICS) {
            1
        } else {
            0
        };
        (exclude, display)
    }
}

/// Owns one native parsing-context handle. The handle is disposed exactly
/// once — [`Index::dispose`] yields it the first time and refuses every
/// later time — and the context must outlive every translation unit it
/// creates; parsing therefore demands an undisposed index.
#[derive(Debug)]
pub struct Index {
    handle: u64,
    options: IndexOptions,
    disposed: bool,
}

impl Index {
    /// The wrapped native handle.
    pub closed spec fn spec_handle(&self) -> u64 {
        self.handle
    }

    /// The options the context was created with.
    pub closed spec fn spec_options(&self) -> IndexOptions {
        self.options
    }

    /// Whether the handle has already been yielded for disposal.
    pub closed spec fn spec_disposed(&self) -> bool {
        self.disposed
    }

    /// Adopts the native handle that the creation call returned, together
    /// with the options it was created with.
    pub fn from_native(handle: u64, options: IndexOptions) -> (idx: Index)
        ensures
            idx.spec_handle() == handle,
            idx.spec_options() == options,
            !idx.spec_disposed(),
    {
        Index { handle, options, disposed: false }
    }

    /// The wrapped native handle, for use in native calls while the context
    /// is alive.
    pub fn handle(&self) -> (h: u64)
        requires
            !self.spec_disposed(),
        ensures
            h == self.spec_handle(),
    {
        self.handle
    }

    /// The options the context was created with.
    pub fn options(&self) -> (o: IndexOptions)
        ensures
            o == self.spec_options(),
    {
        self.options
    }

    /// Yields the wrapped handle for native disposal the first time it is
    /// called; every later call yields nothing and changes nothing, so the
    /// native disposal happens exactly once per context.
    pub fn dispose(&mut self) -> (h: Option<u64>)
        ensures
            !old(self).spec_disposed() ==> h == Some(old(self).spec_handle()),
            old(self).spec_disposed() ==> h is None,
            final(self).spec_disposed(),
            final(self).spec_handle() == old(self).spec_handle(),
            final(self).spec_options() == old(self).spec_options(),
    {
        if self.disposed {
            None
        } else {
            self.disposed = true;
            Some(self.handle)
        }
    }

    /// Whether the handle has already been yielded for disposal.
    pub fn is_disposed(&self) -> (r: bool)
        ensures
            r == self.spec_disposed(),
    {
        self.disposed
    }
}

} // verus!
