use keep_backend::kvm::cpu::{Allocator, Cpu, CpuidEntry, Registers};
use keep_backend::kvm::error::Error;
use keep_backend::kvm::mem::{KvmUserspaceMemoryRegion, Prefix, Region};
use keep_backend::kvm::vm::{ThreadReply, ThreadStep, VirtualMachine};

const HOST_ZERO: u64 = 0x7f00_0000_0000;
const SHARED: u64 = HOST_ZERO + 0x1000;
const PML4T: u64 = HOST_ZERO + 0x3000;

fn thread_machine() -> VirtualMachine {
    let descriptor = KvmUserspaceMemoryRegion {
        slot: 0,
        flags: 0,
        guest_phys_addr: 0,
        memory_size: 65536,
        userspace_addr: HOST_ZERO,
    };
    let prefix = Prefix { shared_pages: SHARED, pml4t: PML4T };
    VirtualMachine::new(Region::with_prefix(0, descriptor, prefix).unwrap(), 0x5000, 0x4000).unwrap()
}

fn registers(seed: u64) -> Registers {
    Registers {
        rax: seed + 1,
        rbx: seed + 2,
        rcx: seed + 3,
        rdx: seed + 4,
        rsi: seed + 5,
        rdi: seed + 6,
        rsp: seed + 7,
        rbp: seed + 8,
        r8: seed + 9,
        r9: seed + 10,
        r10: seed + 11,
        r11: seed + 12,
        r12: seed + 13,
        r13: seed + 14,
        r14: seed + 15,
        r15: seed + 16,
        rip: seed + 17,
        rflags: seed + 18,
    }
}

fn leaves(count: usize) -> Vec<CpuidEntry> {
    (0..count)
        .map(|k| CpuidEntry {
            function: k as u32,
            index: 1,
            flags: 2,
            eax: 3,
            ebx: 4,
            ecx: 5,
            edx: 6,
            padding: [7, 8, 9],
        })
        .collect()
}

/// Runs a request for a thread against a hypervisor that does all it is
/// asked, and returns every step in order.
fn boot(vm: &mut VirtualMachine) -> Vec<ThreadStep> {
    let mut steps = vec![vm.add_thread()];
    loop {
        let reply = match steps.last().unwrap() {
            ThreadStep::CreateVcpu { .. } => ThreadReply::Created,
            ThreadStep::GetRegisters { .. } => ThreadReply::Registers { registers: registers(100) },
            ThreadStep::SetRegisters { .. } => ThreadReply::RegistersSet,
            ThreadStep::GetSupportedCpuid { .. } => ThreadReply::Cpuid { entries: leaves(5) },
            ThreadStep::SetCpuid { .. } => ThreadReply::CpuidSet,
            _ => return steps,
        };
        let next = vm.add_thread_next(steps.last().unwrap().clone(), reply);
        steps.push(next);
    }
}

#[test]
fn allocator_counts_up_from_zero() {
    let mut ids = Allocator::new();
    assert_eq!(ids.peek(), 0);
    assert!(!ids.exhausted());
    for expected in 0..100u64 {
        assert_eq!(ids.next(), expected);
        assert_eq!(ids.peek(), expected + 1);
    }
}

#[test]
fn cpu_records_its_three_values() {
    let cpu = Cpu::new(0, 0x5000, 0x3000);
    assert_eq!(cpu.id(), 0);
    assert_eq!(cpu.shim_entry(), 0x5000);
    assert_eq!(cpu.cr3(), 0x3000);
}

#[test]
fn first_thread_boots_in_the_given_order() {
    let mut vm = thread_machine();
    let steps = boot(&mut vm);
    let mut programmed = registers(100);
    programmed.rsi = 0x4000;
    programmed.rdi = 0x1000;
    assert_eq!(
        steps,
        vec![
            ThreadStep::CreateVcpu { id: 0 },
            ThreadStep::GetRegisters { id: 0 },
            ThreadStep::SetRegisters { id: 0, registers: programmed },
            ThreadStep::GetSupportedCpuid { id: 0, max_entries: 256 },
            ThreadStep::SetCpuid { id: 0, entries: leaves(5) },
            ThreadStep::Done { cpu: Cpu::new(0, 0x5000, 0x3000) },
        ]
    );
}

#[test]
fn first_thread_records_the_page_table_offset_and_the_second_is_unsupported() {
    let mut vm = thread_machine();
    let steps = boot(&mut vm);
    match steps.last().unwrap() {
        ThreadStep::Done { cpu } => {
            assert_eq!(cpu.id(), 0);
            assert_eq!(cpu.cr3(), PML4T - HOST_ZERO);
            assert_eq!(cpu.shim_entry(), 0x5000);
        }
        other => panic!("the first thread was not set up: {:?}", other),
    }
    assert_eq!(vm.add_thread(), ThreadStep::Fail { discard: None, error: Error::Unsupported });
}

#[test]
fn boot_values_lie_inside_the_first_region() {
    let mut vm = thread_machine();
    let length = vm.region(0).unwrap().as_guest().count;
    for step in boot(&mut vm) {
        match step {
            ThreadStep::SetRegisters { registers, .. } => {
                assert!(registers.rsi < length);
                assert!(registers.rdi < length);
                assert_eq!(registers.rdi, SHARED - HOST_ZERO);
                assert_eq!(registers.rsi, vm.shim_start());
            }
            ThreadStep::Done { cpu } => assert!(cpu.cr3() < length),
            _ => {}
        }
    }
}

#[test]
fn every_request_takes_the_next_identifier() {
    let mut vm = thread_machine();
    assert_eq!(vm.threads_requested(), 0);
    assert_eq!(vm.add_thread(), ThreadStep::CreateVcpu { id: 0 });
    assert_eq!(vm.threads_requested(), 1);
    for issued in 1..10u64 {
        assert_eq!(vm.add_thread(), ThreadStep::Fail { discard: None, error: Error::Unsupported });
        assert_eq!(vm.threads_requested(), issued + 1);
    }
}

#[test]
fn failed_first_thread_still_uses_up_its_identifier() {
    let mut vm = thread_machine();
    let step = vm.add_thread();
    assert_eq!(
        vm.add_thread_next(step, ThreadReply::Failed { errno: 16 }),
        ThreadStep::Fail { discard: None, error: Error::Hypervisor { errno: 16 } }
    );
    assert_eq!(vm.threads_requested(), 1);
    assert_eq!(vm.add_thread(), ThreadStep::Fail { discard: None, error: Error::Unsupported });
}

#[test]
fn refusal_after_creation_discards_the_virtual_cpu() {
    let vm = thread_machine();
    let refused = ThreadStep::Fail { discard: Some(0), error: Error::Hypervisor { errno: 5 } };
    let failed = || ThreadReply::Failed { errno: 5 };
    assert_eq!(vm.add_thread_next(ThreadStep::GetRegisters { id: 0 }, failed()), refused);
    assert_eq!(
        vm.add_thread_next(ThreadStep::SetRegisters { id: 0, registers: registers(0) }, failed()),
        refused
    );
    assert_eq!(
        vm.add_thread_next(ThreadStep::GetSupportedCpuid { id: 0, max_entries: 256 }, failed()),
        refused
    );
    assert_eq!(vm.add_thread_next(ThreadStep::SetCpuid { id: 0, entries: leaves(1) }, failed()), refused);
}

#[test]
fn only_the_boot_registers_change() {
    let vm = thread_machine();
    let read = registers(7);
    match vm.add_thread_next(ThreadStep::GetRegisters { id: 0 }, ThreadReply::Registers { registers: read }) {
        ThreadStep::SetRegisters { id, registers: written } => {
            assert_eq!(id, 0);
            assert_eq!(written, Registers { rsi: 0x4000, rdi: 0x1000, ..read });
        }
        other => panic!("no registers to write: {:?}", other),
    }
}

#[test]
fn leaves_are_passed_through_up_to_the_most_the_hypervisor_hands_out() {
    let vm = thread_machine();
    let ask = || ThreadStep::GetSupportedCpuid { id: 0, max_entries: 256 };
    assert_eq!(
        vm.add_thread_next(ask(), ThreadReply::Cpuid { entries: leaves(256) }),
        ThreadStep::SetCpuid { id: 0, entries: leaves(256) }
    );
    assert_eq!(
        vm.add_thread_next(ask(), ThreadReply::Cpuid { entries: leaves(0) }),
        ThreadStep::SetCpuid { id: 0, entries: leaves(0) }
    );
    assert_eq!(
        vm.add_thread_next(ask(), ThreadReply::Cpuid { entries: leaves(257) }),
        ThreadStep::Fail { discard: Some(0), error: Error::Protocol }
    );
    assert_eq!(
        vm.add_thread_next(ThreadStep::SetRegisters { id: 0, registers: registers(0) }, ThreadReply::RegistersSet),
        ask()
    );
}

#[test]
fn steps_for_another_virtual_cpu_are_unsupported() {
    let vm = thread_machine();
    assert_eq!(
        vm.add_thread_next(ThreadStep::CreateVcpu { id: 1 }, ThreadReply::Failed { errno: 1 }),
        ThreadStep::Fail { discard: None, error: Error::Unsupported }
    );
    assert_eq!(
        vm.add_thread_next(ThreadStep::CreateVcpu { id: 1 }, ThreadReply::Created),
        ThreadStep::Fail { discard: Some(1), error: Error::Unsupported }
    );
    assert_eq!(
        vm.add_thread_next(ThreadStep::GetRegisters { id: 3 }, ThreadReply::Registers { registers: registers(0) }),
        ThreadStep::Fail { discard: Some(3), error: Error::Unsupported }
    );
    assert_eq!(
        vm.add_thread_next(ThreadStep::SetCpuid { id: 2, entries: leaves(1) }, ThreadReply::CpuidSet),
        ThreadStep::Fail { discard: Some(2), error: Error::Unsupported }
    );
}

#[test]
fn thread_reply_that_does_not_answer_the_step_is_a_protocol_error() {
    let vm = thread_machine();
    assert_eq!(
        vm.add_thread_next(ThreadStep::CreateVcpu { id: 0 }, ThreadReply::RegistersSet),
        ThreadStep::Fail { discard: None, error: Error::Protocol }
    );
    assert_eq!(
        vm.add_thread_next(ThreadStep::GetRegisters { id: 0 }, ThreadReply::Created),
        ThreadStep::Fail { discard: Some(0), error: Error::Protocol }
    );
    assert_eq!(
        vm.add_thread_next(ThreadStep::SetCpuid { id: 0, entries: leaves(2) }, ThreadReply::RegistersSet),
        ThreadStep::Fail { discard: Some(0), error: Error::Protocol }
    );
    assert_eq!(
        vm.add_thread_next(ThreadStep::Done { cpu: Cpu::new(0, 1, 2) }, ThreadReply::CpuidSet),
        ThreadStep::Fail { discard: None, error: Error::Protocol }
    );
    assert_eq!(
        vm.add_thread_next(
            ThreadStep::Fail { discard: Some(0), error: Error::Unsupported },
            ThreadReply::Failed { errno: 1 }
        ),
        ThreadStep::Fail { discard: None, error: Error::Protocol }
    );
}
