//! Owned native string handles: exactly-once disposal and advisory text
//! decoding.

use vstd::prelude::*;
use vstd::string::StringExecFns;
use vstd::utf8::{decode_utf8, valid_utf8};

verus! {

/// The fixed sentinel text returned when a native string's bytes are not
/// valid UTF-8.
pub open spec fn spec_invalid_text() -> Seq<char> {
    "<invalid-text>"@
}

/// The advisory text of a native string's bytes: their UTF-8 decoding when
/// they are valid UTF-8, and the fixed sentinel otherwise. Decoding never
/// fails hard, because display strings must never abort a traversal.
pub open spec fn spec_text(bytes: Seq<u8>) -> Seq<char> {
    if valid_utf8(bytes) {
        decode_utf8(bytes)
    } else {
        spec_invalid_text()
    }
}

/// Relies on std's `str::from_utf8`: it succeeds exactly on byte sequences
/// that are valid UTF-8, borrowing the bytes as the decoded text.
#[verifier::external_body]
fn bytes_to_str(bytes: &[u8]) -> (r: Option<&str>)
    ensures
        r is Some <==> valid_utf8(bytes@),
        r matches Some(s) ==> s@ == decode_utf8(bytes@),
{
    std::str::from_utf8(bytes).ok()
}

/// Wraps exactly one native-library-allocated string: the handle that the
/// native library returned and the bytes it points at. The handle is
/// disposed exactly once — [`OwnedString::dispose`] yields it the first time
/// and refuses every later time — so the native disposal call can neither be
/// skipped nor repeated.
#[derive(Debug)]
pub struct OwnedString {
    handle: u64,
    bytes: Vec<u8>,
    disposed: bool,
}

impl OwnedString {
    /// The wrapped native handle.
    pub closed spec fn spec_handle(&self) -> u64 {
        self.handle
    }

    /// The bytes the native string holds.
    pub closed spec fn spec_bytes(&self) -> Seq<u8> {
        self.bytes@
    }

    /// Whether the handle has already been yielded for disposal.
    pub closed spec fn spec_disposed(&self) -> bool {
        self.disposed
    }

    /// Takes ownership of a native string: the handle the native library
    /// returned, together with the bytes it points at.
    pub fn from_native(handle: u64, bytes: Vec<u8>) -> (s: OwnedString)
        ensures
            s.spec_handle() == handle,
            s.spec_bytes() == bytes@,
            !s.spec_disposed(),
    {
        OwnedString { handle, bytes, disposed: false }
    }

    /// The wrapped bytes decoded as UTF-8 text; bytes that are not valid
    /// UTF-8 yield the fixed sentinel rather than an error.
    pub fn to_str(&self) -> (r: String)
        requires
            !self.spec_disposed(),
        ensures
            r@ == spec_text(self.spec_bytes()),
    {
        match bytes_to_str(self.bytes.as_slice()) {
            Some(s) => String::from_str(s),
            None => String::from_str("<invalid-text>"),
        }
    }

    /// Yields the wrapped handle for native disposal the first time it is
    /// called; every later call yields nothing and changes nothing, so the
    /// native disposal happens exactly once per instance.
    pub fn dispose(&mut self) -> (h: Option<u64>)
        ensures
            !old(self).spec_disposed() ==> h == Some(old(self).spec_handle()),
            old(self).spec_disposed() ==> h is None,
            final(self).spec_disposed(),
            final(self).spec_handle() == old(self).spec_handle(),
            final(self).spec_bytes() == old(self).spec_bytes(),
    {
        if self.disposed {
            None
        } else {
            self.disposed = true;
            Some(self.handle)
        }
    }

    /// Whether the handle has already been yielded for disposal.
    pub fn is_disposed(&self) -> (r: bool)
        ensures
            r == self.spec_disposed(),
    {
        self.disposed
    }
}

} // verus!
