use keep_backend::sgx::cpuid::{
    features, flc_support, max_size_32, max_size_64, misc_select, sgx_support, version_1, version_2,
    xfrm,
};
use keep_backend::sgx::data::CpuidResult;

fn leaf(eax: u32, ebx: u32, ecx: u32, edx: u32) -> CpuidResult {
    CpuidResult { eax, ebx, ecx, edx }
}

#[test]
fn sgx_support_is_bit_two_of_ebx() {
    assert!(sgx_support(leaf(0, 0b100, 0, 0)));
    assert!(sgx_support(leaf(0, u32::MAX, 0, 0)));
    assert!(!sgx_support(leaf(u32::MAX, !0b100, u32::MAX, u32::MAX)));
}

#[test]
fn versions_are_the_two_low_bits_of_eax() {
    assert!(version_1(leaf(0b01, 0, 0, 0)));
    assert!(!version_1(leaf(0b10, u32::MAX, u32::MAX, u32::MAX)));
    assert!(version_2(leaf(0b10, 0, 0, 0)));
    assert!(!version_2(leaf(0b01, u32::MAX, u32::MAX, u32::MAX)));
}

#[test]
fn flc_support_is_bit_thirty_of_ecx() {
    assert!(flc_support(leaf(0, 0, 1 << 30, 0)));
    assert!(!flc_support(leaf(u32::MAX, u32::MAX, !(1 << 30), u32::MAX)));
}

#[test]
fn max_sizes_are_powers_of_two_from_the_two_low_bytes_of_edx() {
    assert_eq!(max_size_32(leaf(0, 0, 0, 0x241f)), Some(1 << 31));
    assert_eq!(max_size_64(leaf(0, 0, 0, 0x241f)), Some(1 << 36));
    assert_eq!(max_size_32(leaf(0, 0, 0, 0xffff_ff00)), Some(1));
    assert_eq!(max_size_64(leaf(0, 0, 0, 0xffff_00ff)), Some(1));
    assert_eq!(max_size_32(leaf(0, 0, 0, 63)), Some(1 << 63));
    assert_eq!(max_size_32(leaf(0, 0, 0, 64)), None);
    assert_eq!(max_size_64(leaf(0, 0, 0, 0x4000)), None);
    assert_eq!(max_size_64(leaf(0, 0, 0, 0xff00)), None);
}

#[test]
fn misc_select_prints_the_flags_it_knows() {
    let known = sgx::parameters::MiscSelect::from_bits(1).unwrap();
    let text = format!("{:?}", known);
    assert!(text.contains("EXINFO"));
    assert_eq!(misc_select(leaf(7, 1, 7, 7)), (true, Some(text)));
    assert_eq!(misc_select(leaf(0, 0, 0, 0)).0, true);
    assert_eq!(misc_select(leaf(1, 2, 0, 0)), (false, None));
    assert_eq!(misc_select(leaf(1, u32::MAX, 0, 0)), (false, None));
}

#[test]
fn features_are_read_from_ebx_above_eax() {
    let bits = sgx::parameters::Features::all().bits();
    let known = sgx::parameters::Features::from_bits(bits).unwrap();
    let found = features(leaf(bits as u32, (bits >> 32) as u32, 0xdead, 0xbeef));
    assert_eq!(found, (true, Some(format!("{:?}", known))));
    assert!(found.1.unwrap().len() > 2);
    let unknown = !bits;
    assert_ne!(unknown, 0);
    assert_eq!(features(leaf(unknown as u32, (unknown >> 32) as u32, 0, 0)), (false, None));
    let low = sgx::parameters::Features::from_bits(bits & 0xffff_ffff).unwrap();
    assert_eq!(features(leaf(bits as u32, 0, 0, 0)), (true, Some(format!("{:?}", low))));
}

#[test]
fn xfrm_is_read_from_edx_above_ecx() {
    let bits = sgx::parameters::Xfrm::all().bits();
    let known = sgx::parameters::Xfrm::from_bits(bits).unwrap();
    let found = xfrm(leaf(0xdead, 0xbeef, bits as u32, (bits >> 32) as u32));
    assert_eq!(found, (true, Some(format!("{:?}", known))));
    let unknown = !bits;
    assert_ne!(unknown, 0);
    assert_eq!(xfrm(leaf(0, 0, unknown as u32, (unknown >> 32) as u32)), (false, None));
}
