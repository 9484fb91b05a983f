use virt::storage_pool::StoragePoolInfo;
use virt::storage_vol::StorageVolInfo;

#[test]
fn storage_pool_info_fields() {
    let info = StoragePoolInfo {
        state: 2,
        capacity: 1 << 30,
        allocation: 1 << 20,
        available: (1 << 30) - (1 << 20),
    };
    assert_eq!(info.state, 2);
    let copy = info.clone();
    assert_eq!(copy.capacity, 1 << 30);
    assert_eq!(copy.available, info.capacity - info.allocation);
}

#[test]
fn storage_vol_info_fields() {
    let info = StorageVolInfo {
        kind: 1,
        capacity: 4096,
        allocation: 512,
    };
    let copy = info.clone();
    assert_eq!(copy.kind, 1);
    assert_eq!(copy.capacity, 4096);
    assert_eq!(copy.allocation, 512);
}
