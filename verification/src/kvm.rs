//! A virtual machine as the hypervisor sees it: its memory regions, its
//! virtual CPUs, and the steps that add either.

pub mod cpu;
pub mod error;
pub mod mem;
pub mod vm;
