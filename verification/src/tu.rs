//! The parsed-AST resource: parse flags, the classification of parse
//! outcomes, and the exactly-once disposal discipline.

use vstd::prelude::*;

use crate::error::{ErrorCode, NATIVE_SUCCESS};
use crate::index::Index;

verus! {

/// Parse flag: build a detailed preprocessing record.
pub const PARSE_DETAILED_PREPROCESSING_RECORD: u32 = 0x01;
/// Parse flag: the translation unit is incomplete.
pub const PARSE_INCOMPLETE: u32 = 0x02;
/// Parse flag: build a precompiled preamble.
pub const PARSE_PRECOMPILED_PREAMBLE: u32 = 0x04;
/// Parse flag: cache code-completion results.
pub const PARSE_CACHE_COMPLETION_RESULTS: u32 = 0x08;
/// Parse flag: the translation unit will be serialized.
pub const PARSE_FOR_SERIALIZATION: u32 = 0x10;
/// Parse flag: chained precompiled headers.
pub const PARSE_CXX_CHAINED_PCH: u32 = 0x20;
/// Parse flag: skip function bodies.
pub const PARSE_SKIP_FUNCTION_BODIES: u32 = 0x40;
/// Parse flag: include brief comments in code completions.
pub const PARSE_INCLUDE_BRIEF_COMMENTS_IN_CODE_COMPLETIONS: u32 = 0x80;
/// All parse flag bits this layer knows.
pub const PARSE_KNOWN_FLAGS: u32 = 0xFF;

/// The bitwise-independent parse options, combined as the native bitmask.
#[derive(Debug, Clone, Copy, PartialEq, Eq, Structural)]
pub struct ParseFlags {
    bits: u32,
}

impl ParseFlags {
    /// The native bitmask.
    pub closed spec fn spec_bits(&self) -> u32 {
        self.bits
    }

    /// The empty flag set.
    pub fn empty() -> (f: ParseFlags)
        ensures
            f.spec_bits() == 0,
    {
        ParseFlags { bits: 0 }
    }

    /// A flag set from a native bitmask, keeping only the known bits.
    pub fn from_bits_truncate(bits: u32) -> (f: ParseFlags)
        ensures
            f.spec_bits() == bits & PARSE_KNOWN_FLAGS,
    {
        ParseFlags { bits: bits & PARSE_KNOWN_FLAGS }
    }

    /// True when every bit of `mask` is set in this flag set.
    pub fn contains(&self, mask: u32) -> (r: bool)
        ensures
            r == (self.spec_bits() & mask == mask),
    {
        self.bits & mask == mask
    }

    /// The native bitmask, as the parse call takes it.
    pub fn bits(&self) -> (r: u32)
        ensures
            r == self.spec_bits(),
    {
        self.bits
    }
}

/// Owns one native parsed-AST handle, produced only by a successful parse.
/// It remembers the source filename and the flags it was parsed with, and
/// its handle is disposed exactly once — [`TranslationUnit::dispose`] yields
/// it the first time and refuses every later time. Two units never share a
/// handle's ownership: disposing one cannot touch another.
#[derive(Debug)]
pub struct TranslationUnit {
    handle: u64,
    filename: String,
    flags: ParseFlags,
    disposed: bool,
}

impl TranslationUnit {
    /// The wrapped native handle.
    pub closed spec fn spec_handle(&self) -> u64 {
        self.handle
    }

    /// The source filename the unit was parsed from.
    pub closed spec fn spec_filename(&self) -> Seq<char> {
        self.filename@
    }

    /// The flags the unit was parsed with.
    pub closed spec fn spec_flags(&self) -> ParseFlags {
        self.flags
    }

    /// Whether the handle has already been yielded for disposal.
    pub closed spec fn spec_disposed(&self) -> bool {
        self.disposed
    }

    /// Classifies the outcome of the native parse call.
    ///
    /// On the success code, and only then, the returned native handle
    /// becomes an owned translation unit that remembers the filename and the
    /// flags it was parsed with. On every other code the classified error
    /// comes back instead — never `Success` — and no unit is produced, so
    /// there is nothing to leak. The creating context must still be alive.
    pub fn from_parse_result(
        index: &Index,
        code: i32,
        handle: u64,
        filename: String,
        flags: ParseFlags,
    ) -> (r: Result<TranslationUnit, ErrorCode>)
        requires
            !index.spec_disposed(),
        ensures
            code == NATIVE_SUCCESS ==> (r matches Ok(tu) && tu.spec_handle() == handle
                && tu.spec_filename() == filename@ && tu.spec_flags() == flags
                && !tu.spec_disposed()),
            code != NATIVE_SUCCESS ==> (r matches Err(e) && e == ErrorCode::spec_from_native(
                code as int,
            ) && !(e is Success)),
    {
        let error_code = ErrorCode::from_native(code);
        if error_code.is_success() {
            Ok(TranslationUnit { handle, filename, flags, disposed: false })
        } else {
            Err(error_code)
        }
    }

    /// The wrapped native handle, for use in native calls while the unit is
    /// alive.
    pub fn handle(&self) -> (h: u64)
        requires
            !self.spec_disposed(),
        ensures
            h == self.spec_handle(),
    {
        self.handle
    }

    /// The source filename the unit was parsed from.
    pub fn filename(&self) -> (r: &String)
        ensures
            r@ == self.spec_filename(),
    {
        &self.filename
    }

    /// The flags the unit was parsed with.
    pub fn flags(&self) -> (f: ParseFlags)
        ensures
            f == self.spec_flags(),
    {
        self.flags
    }

    /// Yields the wrapped handle for native disposal the first time it is
    /// called; every later call yields nothing and changes nothing, so the
    /// native disposal happens exactly once per unit.
    pub fn dispose(&mut self) -> (h: Option<u64>)
        ensures
            !old(self).spec_disposed() ==> h == Some(old(self).spec_handle()),
            old(self).spec_disposed() ==> h is None,
            final(self).spec_disposed(),
            final(self).spec_handle() == old(self).spec_handle(),
            final(self).spec_filename() == old(self).spec_filename(),
            final(self).spec_flags() == old(self).spec_flags(),
    {
        if self.disposed {
            None
        } else {
            self.disposed = true;
            Some(self.handle)
        }
    }

    /// Whether the handle has already been yielded for disposal.
    pub fn is_disposed(&self) -> (r: bool)
        ensures
            r == self.spec_disposed(),
    {
        self.disposed
    }
}

} // verus!
