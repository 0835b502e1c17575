//! The hypervisor-backed core of a keep, and the probes that report whether a
//! platform is ready to host one.
//!
//! The library decides; it performs no system call. Whatever needs the host or
//! the hypervisor is handed out as a step for the caller to perform, and the
//! outcome is handed back as a reply.

pub mod kvm;
pub mod sgx;
pub mod text;
