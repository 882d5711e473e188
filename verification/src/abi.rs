//! The C-ABI contract between the runtime and a loaded user library: the
//! three-word record in which byte arrays cross the boundary, and the
//! traits a reloadable application implements on top of the raw entry
//! points.

use vstd::prelude::*;
use vstd::slice::slice_index_get;

verus! {

/// Whether two byte strings hold the same bytes.
pub fn bytes_eq(a: &[u8], b: &[u8]) -> (r: bool)
    ensures
        r == (a@ == b@),
{
    let an = a.len();
    let bn = b.len();
    if an != bn {
        return false;
    }
    let mut i: usize = 0;
    while i < an
        invariant
            an == a@.len() && an == b@.len(),
            i <= an,
            forall|j: int| 0 <= j < i ==> a@[j] == b@[j],
        decreases an - i,
    {
        if *slice_index_get(a, i) != *slice_index_get(b, i) {
            return false;
        }
        i = i + 1;
    }
    proof {
        assert(a@ =~= b@);
    }
    true
}

/// The supervisor-ABI version this runtime speaks. A library built against
/// another version must not be run.
pub const SERVER_VERSION: u8 = 0;

/// Symbol of the library's ABI-version query: `() -> u8`.
pub const ENTRY_VERSION: &'static str = "hotbolt_entry_version";

/// Symbol of the single user-code invocation, called in a loop.
pub const ENTRY_RUN: &'static str = "hotbolt_entry_run";

/// Symbol that constructs user state from a borrowed byte image; an empty
/// image yields the default state.
pub const ENTRY_STATE_NEW: &'static str = "hotbolt_entry_state_new";

/// Symbol that destroys a state object.
pub const ENTRY_STATE_DROP: &'static str = "hotbolt_entry_state_drop";

/// Symbol that produces an owned, transferable byte image of the state.
pub const ENTRY_STATE_SERIALIZE_NEW: &'static str = "hotbolt_entry_state_serialize_new";

/// Symbol that frees a byte image the library produced: library memory is
/// freed only by the library.
pub const ENTRY_STATE_SERIALIZE_DROP: &'static str = "hotbolt_entry_state_serialize_drop";

/// Symbol that returns the current state as a byte image.
pub const ENTRY_STATE_GET: &'static str = "hotbolt_entry_state_get";

/// Symbol that constructs the per-load, non-serializable user object.
pub const ENTRY_APP_NEW: &'static str = "hotbolt_entry_app_new";

/// Symbol that destroys the per-load user object.
pub const ENTRY_APP_DROP: &'static str = "hotbolt_entry_app_drop";

/// Symbol of the version tag query, answering from static memory.
pub const ENTRY_APP_VERSION: &'static str = "hotbolt_entry_app_version";

/// Symbol deciding whether a prior version's serialized state may be
/// handed to this build.
pub const ENTRY_APP_COMPATIBLE: &'static str = "hotbolt_entry_app_compatible";

/// Whether a loaded library's ABI version is the one this runtime speaks:
/// anything else is a fatal load error.
pub fn version_compatible(entry_version: u8) -> (r: bool)
    ensures
        r == (entry_version == SERVER_VERSION),
{
    entry_version == SERVER_VERSION
}

/// The record in which a byte array crosses the C ABI boundary: an address,
/// a length, and a capacity. The capacity is meaningful only for owned
/// (transferred) arrays. An address of zero stands for the null pointer;
/// an empty array has a null address, zero length and zero capacity.
pub struct RawFfiArray {
    pub data: usize,
    pub len: usize,
    pub capacity: usize,
}

impl RawFfiArray {
    /// An array is well formed when emptiness, a null address and a zero
    /// capacity coincide, as the boundary contract demands of empty arrays.
    pub open spec fn well_formed(&self) -> bool {
        &&& (self.len == 0 <==> self.data == 0)
        &&& (self.data == 0 ==> self.capacity == 0)
    }

    /// Returns the empty array: null address, zero length, zero capacity.
    pub fn empty() -> (r: RawFfiArray)
        ensures
            r.data == 0,
            r.len == 0,
            r.capacity == 0,
            r.well_formed(),
    {
        RawFfiArray { data: 0, len: 0, capacity: 0 }
    }

    /// Returns true if the length is 0.
    pub fn is_empty(&self) -> (r: bool)
        ensures
            r == (self.len == 0),
    {
        self.len == 0
    }
}

/// Whether the server functionality handed to user code is enabled at all;
/// a disabled server lets calls through it be skipped at compile time.
pub trait ServerEnabled {
    fn is_server_enabled() -> bool;
}

/// The restart requests every server facade offers to user code: both kinds
/// tear the client down and relaunch the supervisor itself.
pub trait ServerBase<T>: ServerEnabled {
    /// Restarts both the client and the application with an empty state.
    fn restart_hard(&self);

    /// Restarts both the client and the application with the given state.
    fn restart_hard_with(&self, state: &T);
}

/// The full server facade: soft restarts replace only the user program,
/// within the same supervisor.
pub trait Server<T>: ServerBase<T> {
    /// Restarts the application (not the client) with an empty state.
    fn restart_soft(&self);

    /// Restarts the application (not the client) with the given state.
    fn restart_soft_with(&self, state: &T);
}

/// The serializable, volatile state of the application.
pub trait State: Sized {
    fn new() -> Self;
}

/// Serializes a value as an owned byte array for the boundary.
pub trait Serializer<T> {
    fn serialize(value: &T) -> Result<RawFfiArray, ()>;
}

/// Reconstructs a value from a borrowed byte array.
pub trait Deserializer<T> {
    fn deserialize(bytes: &[u8]) -> Result<T, ()>;
}

/// Pairs a state type with its serialization facilities.
pub trait StateConverter {
    type State: State;
    type Serializer: Serializer<Self::State>;
    type Deserializer: Deserializer<Self::State>;
}

/// The non-serializable, per-load state of the application.
pub trait App: Sized {
    fn new() -> Self;
}

/// Application versioning: the version tag is an opaque byte sequence, and
/// the library itself decides whether a prior tag is compatible.
pub trait Compatibility {
    /// The tag identifying this build, from static memory.
    fn version() -> &'static [u8];

    /// Whether serialized state written under the given tag may be handed
    /// to this build. Unless an implementation decides otherwise, only the
    /// identical tag is compatible.
    fn is_compatible(other: &[u8]) -> bool {
        bytes_eq(Self::version(), other)
    }
}

} // verus!
