//! Signpost identifiers and signpost events for performance tracing.
//!
//! An identifier is one of three kinds: the shared exclusive sentinel, a
//! value that the native side generates for a channel, or one that it derives
//! from an object's address. The last two come from native calls, made outside
//! this library, and reach it through `OSSignpostID::from_native`.
use vstd::prelude::*;
use crate::channel::{native_text, Channel, OSLog};
use crate::cstring::to_cstr;

verus! {

/// The identifier shared by every exclusive signpost.
pub const OS_SIGNPOST_ID_EXCLUSIVE: u64 = 0xEEEE_B0B5_B2B2_EEEE;

/// The identifier that marks no signpost.
pub const OS_SIGNPOST_ID_NULL: u64 = 0;

/// The identifier that marks an invalid signpost.
pub const OS_SIGNPOST_ID_INVALID: u64 = 0xFFFF_FFFF_FFFF_FFFF;

/// An opaque identifier that ties signpost events together.
#[derive(Clone, Copy, Debug, PartialEq, Eq, Structural)]
pub struct OSSignpostID {
    inner: u64,
}

impl View for OSSignpostID {
    type V = u64;

    closed spec fn view(&self) -> u64 {
        self.inner
    }
}

impl Default for OSSignpostID {
    /// The exclusive identifier: cheap, shared by all such signposts, and
    /// enough when at most one interval of a name is open at a time.
    fn default() -> (r: OSSignpostID)
        ensures
            r@ == OS_SIGNPOST_ID_EXCLUSIVE,
    {
        OSSignpostID { inner: OS_SIGNPOST_ID_EXCLUSIVE }
    }
}

impl OSSignpostID {
    pub fn value(&self) -> (r: u64)
        ensures
            r == self@,
    {
        self.inner
    }

    /// The identifier that a native call returned, kept as it is.
    pub fn from_native(id: u64) -> (r: OSSignpostID)
        ensures
            r@ == id,
    {
        OSSignpostID { inner: id }
    }
}

/// One signpost event as the native emit call takes it.
pub struct SignpostRecord {
    pub channel: Channel,
    pub id: u64,
    pub name: Vec<u8>,
    pub format: Vec<u8>,
    pub message: Vec<u8>,
}

impl OSLog {
    /// The record that marks an event named `name` under identifier `spid`.
    pub fn signpost_event(&self, spid: &OSSignpostID, name: &str, format: &str, message: &str) -> (r:
        SignpostRecord)
        ensures
            r.channel@ == self@,
            r.id == spid@,
            r.name@ == native_text(name@),
            r.format@ == native_text(format@),
            r.message@ == native_text(message@),
    {
        SignpostRecord {
            channel: self.channel().duplicate(),
            id: spid.value(),
            name: to_cstr(name),
            format: to_cstr(format),
            message: to_cstr(message),
        }
    }
}

/// Two exclusive identifiers are the same value, and two identifiers kept
/// from the same native value are equal.
pub proof fn lemma_identifiers_repeat(a: OSSignpostID, b: OSSignpostID)
    ensures
        a@ == OS_SIGNPOST_ID_EXCLUSIVE && b@ == OS_SIGNPOST_ID_EXCLUSIVE ==> a == b,
        a@ == b@ ==> a == b,
{
}

} // verus!
