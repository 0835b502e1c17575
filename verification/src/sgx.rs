//! Whether a platform is ready to host a keep in an SGX enclave: the probes
//! and the record that each of them leaves.

pub mod cpuid;
pub mod data;
pub mod tcb;
