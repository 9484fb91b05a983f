//! Plain-value description of a storage volume, as handed out by the native
//! library's volume-information call.

use vstd::prelude::*;

verus! {

/// A snapshot of one storage volume's kind and sizes.
#[derive(Clone, Debug)]
pub struct StorageVolInfo {
    /// See: `virStorageVolType` flags
    pub kind: u32,
    /// Logical size bytes.
    pub capacity: u64,
    /// Current allocation bytes
    pub allocation: u64,
}

} // verus!
