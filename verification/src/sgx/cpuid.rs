//! What the CPUID leaves say of SGX: which bits stand for which feature.

use vstd::prelude::*;
use crate::sgx::data::{text_of, CpuidResult};

verus! {

/// How `sgx::parameters::MiscSelect` prints the flags that `bits` holds;
/// nothing where a bit is set that is no flag of it.
pub uninterp spec fn misc_select_text(bits: u32) -> Option<Seq<char>>;

/// How `sgx::parameters::Features` prints the flags that `bits` holds;
/// nothing where a bit is set that is no flag of it.
pub uninterp spec fn features_text(bits: u64) -> Option<Seq<char>>;

/// How `sgx::parameters::Xfrm` prints the flags that `bits` holds; nothing
/// where a bit is set that is no flag of it.
pub uninterp spec fn xfrm_text(bits: u64) -> Option<Seq<char>>;

/// Calls `sgx::parameters::MiscSelect::from_bits` and prints the flags as
/// `Debug` does. The contract claims that the outcome depends on the bits
/// alone.
#[verifier::external_body]
fn misc_select_flags(bits: u32) -> (text: Option<String>)
    ensures
        text_of(text) == misc_select_text(bits),
{
    match sgx::parameters::MiscSelect::from_bits(bits) {
        Some(flags) => Some(format!("{flags:?}")),
        None => None,
    }
}

/// Calls `sgx::parameters::Features::from_bits` and prints the flags as
/// `Debug` does. The contract claims that the outcome depends on the bits
/// alone.
#[verifier::external_body]
fn features_flags(bits: u64) -> (text: Option<String>)
    ensures
        text_of(text) == features_text(bits),
{
    match sgx::parameters::Features::from_bits(bits) {
        Some(flags) => Some(format!("{flags:?}")),
        None => None,
    }
}

/// Calls `sgx::parameters::Xfrm::from_bits` and prints the flags as `Debug`
/// does. The contract claims that the outcome depends on the bits alone.
#[verifier::external_body]
fn xfrm_flags(bits: u64) -> (text: Option<String>)
    ensures
        text_of(text) == xfrm_text(bits),
{
    match sgx::parameters::Xfrm::from_bits(bits) {
        Some(flags) => Some(format!("{flags:?}")),
        None => None,
    }
}

/// Two registers as one number of 64 bits, `high` above `low`.
pub open spec fn joined(high: u32, low: u32) -> u64 {
    (high as u64) << 32 | low as u64
}

/// Two registers as one number of 64 bits, `high` above `low`.
fn join(high: u32, low: u32) -> (bits: u64)
    ensures
        bits == joined(high, low),
{
    (high as u64) << 32 | low as u64
}

/// Whether the processor supports SGX: bit 2 of `ebx` in leaf 7.
pub fn sgx_support(leaf: CpuidResult) -> (supported: bool)
    ensures
        supported == (leaf.ebx & (1u32 << 2) != 0),
{
    leaf.ebx & (1u32 << 2) != 0
}

/// Whether the first version of SGX is supported: bit 0 of `eax` in the SGX
/// leaf.
pub fn version_1(leaf: CpuidResult) -> (supported: bool)
    ensures
        supported == (leaf.eax & (1u32 << 0) != 0),
{
    leaf.eax & (1u32 << 0) != 0
}

/// Whether the second version of SGX is supported: bit 1 of `eax` in the
/// SGX leaf.
pub fn version_2(leaf: CpuidResult) -> (supported: bool)
    ensures
        supported == (leaf.eax & (1u32 << 1) != 0),
{
    leaf.eax & (1u32 << 1) != 0
}

/// Whether flexible launch control is supported: bit 30 of `ecx` in leaf 7.
pub fn flc_support(leaf: CpuidResult) -> (supported: bool)
    ensures
        supported == (leaf.ecx & (1u32 << 30) != 0),
{
    leaf.ecx & (1u32 << 30) != 0
}

/// The largest enclave outside 64-bit mode, as the power of two that the low
/// byte of `edx` names. A power that does not fit 64 bits is none.
pub fn max_size_32(leaf: CpuidResult) -> (size: Option<u64>)
    ensures
        size == enclave_size(leaf.edx & 0xff),
{
    size_of_power(leaf.edx & 0xff)
}

/// The largest enclave in 64-bit mode, as the power of two that the second
/// byte of `edx` names. A power that does not fit 64 bits is none.
pub fn max_size_64(leaf: CpuidResult) -> (size: Option<u64>)
    ensures
        size == enclave_size(leaf.edx >> 8 & 0xff),
{
    size_of_power(leaf.edx >> 8 & 0xff)
}

/// Two to the power of `bits`, where it fits 64 bits.
pub open spec fn enclave_size(bits: u32) -> Option<u64> {
    if bits < 64 {
        Some(1u64 << bits)
    } else {
        None
    }
}

/// Two to the power of `bits`, where it fits 64 bits.
fn size_of_power(bits: u32) -> (size: Option<u64>)
    ensures
        size == enclave_size(bits),
{
    if bits < 64 {
        Some(1u64 << bits)
    } else {
        None
    }
}

/// The data that the state save area can be asked for, from `ebx` of the
/// SGX leaf: supported where every bit is a flag that is known, and then
/// with the flags as text.
pub fn misc_select(leaf: CpuidResult) -> (found: (bool, Option<String>))
    ensures
        found.0 == misc_select_text(leaf.ebx).is_some(),
        text_of(found.1) == misc_select_text(leaf.ebx),
{
    match misc_select_flags(leaf.ebx) {
        Some(text) => (true, Some(text)),
        None => (false, None),
    }
}

/// The features of enclaves, from `ebx` above `eax` of sub-leaf 1 of the SGX
/// leaf: supported where every bit is a flag that is known, and then with
/// the flags as text.
pub fn features(leaf: CpuidResult) -> (found: (bool, Option<String>))
    ensures
        found.0 == features_text(joined(leaf.ebx, leaf.eax)).is_some(),
        text_of(found.1) == features_text(joined(leaf.ebx, leaf.eax)),
{
    match features_flags(join(leaf.ebx, leaf.eax)) {
        Some(text) => (true, Some(text)),
        None => (false, None),
    }
}

/// The extended features of enclaves, from `edx` above `ecx` of sub-leaf 1
/// of the SGX leaf: supported where every bit is a flag that is known, and
/// then with the flags as text.
pub fn xfrm(leaf: CpuidResult) -> (found: (bool, Option<String>))
    ensures
        found.0 == xfrm_text(joined(leaf.edx, leaf.ecx)).is_some(),
        text_of(found.1) == xfrm_text(joined(leaf.edx, leaf.ecx)),
{
    match xfrm_flags(join(leaf.edx, leaf.ecx)) {
        Some(text) => (true, Some(text)),
        None => (false, None),
    }
}

} // verus!
