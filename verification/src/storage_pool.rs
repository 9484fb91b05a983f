//! Plain-value description of a storage pool, as handed out by the native
//! library's pool-information call.

use vstd::prelude::*;

verus! {

/// A snapshot of one storage pool's state and sizes.
#[derive(Clone, Debug)]
pub struct StoragePoolInfo {
    /// A `StoragePoolState` flags
    pub state: u32,
    /// Logical size bytes.
    pub capacity: u64,
    /// Current allocation bytes.
    pub allocation: u64,
    /// Remaining free space bytes.
    pub available: u64,
}

} // verus!
