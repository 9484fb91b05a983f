use virt::util::c_ulong_to_u64;
use virt::util::dec_string;

#[test]
fn widen_c_ulong() {
    assert_eq!(c_ulong_to_u64(0), 0);
    assert_eq!(c_ulong_to_u64(42), 42);
    assert_eq!(c_ulong_to_u64(u64::MAX), u64::MAX);
}

#[test]
fn decimal_rendering() {
    assert_eq!(dec_string(0), "0");
    assert_eq!(dec_string(7), "7");
    assert_eq!(dec_string(10), "10");
    assert_eq!(dec_string(305), "305");
    assert_eq!(dec_string(u32::MAX), "4294967295");
}
