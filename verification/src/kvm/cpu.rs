//! Virtual CPU identifiers and the record kept of each virtual CPU.

use vstd::prelude::*;

verus! {

/// Issues virtual CPU identifiers: 0 first, then each one greater by one than
/// the last. No identifier is issued twice.
pub struct Allocator {
    next: u64,
}

/// What one call of [`Allocator::next`] does: it returns the number of
/// identifiers issued before it, and one more is issued after it.
pub open spec fn issues(pre: Allocator, id: u64, post: Allocator) -> bool {
    &&& id == pre.issued()
    &&& post.issued() == pre.issued() + 1
}

impl Allocator {
    /// The number of identifiers issued so far, which is also the identifier
    /// that comes next.
    pub closed spec fn issued(&self) -> nat {
        self.next as nat
    }

    /// An allocator that has issued nothing.
    pub fn new() -> (fresh: Allocator)
        ensures
            fresh.issued() == 0,
    {
        Allocator { next: 0 }
    }

    /// Whether every identifier that fits the counter has been issued.
    pub fn exhausted(&self) -> (full: bool)
        ensures
            full <==> self.issued() == u64::MAX,
            self.issued() <= u64::MAX,
    {
        self.next == u64::MAX
    }

    /// The identifier that the next call of `next` returns.
    pub fn peek(&self) -> (id: u64)
        ensures
            id == self.issued(),
    {
        self.next
    }

    /// Returns the current counter and advances it by one.
    pub fn next(&mut self) -> (id: u64)
        requires
            old(self).issued() < u64::MAX,
        ensures
            issues(*old(self), id, *final(self)),
    {
        let id: u64 = self.next;
        self.next = id + 1;
        id
    }
}

/// Over any run of calls of [`Allocator::next`], the identifiers returned
/// count up by one from the number issued before the run, in call order.
/// `states[k]` is the allocator before call `k`, `states[k + 1]` after it.
pub proof fn lemma_ids_count_up(states: Seq<Allocator>, ids: Seq<u64>)
    requires
        states.len() == ids.len() + 1,
        forall|k: int| 0 <= k < ids.len() ==> issues(states[k], #[trigger] ids[k], states[k + 1]),
    ensures
        forall|k: int| 0 <= k < ids.len() ==> #[trigger] ids[k] == states[0].issued() + k,
        forall|k: int|
            0 <= k <= ids.len() ==> (#[trigger] states[k]).issued() == states[0].issued() + k,
    decreases ids.len(),
{
    if ids.len() > 0 {
        let n = ids.len() - 1;
        lemma_ids_count_up(states.take(n + 1), ids.take(n));
        assert(states.take(n + 1)[n] == states[n]);
        assert(states.take(n + 1)[0] == states[0]);
        assert(issues(states[n], ids[n], states[n + 1]));
        assert forall|k: int| 0 <= k < ids.len() implies #[trigger] ids[k] == states[0].issued()
            + k by {
            if k < n {
                assert(ids.take(n)[k] == ids[k]);
            }
        }
        assert forall|k: int| 0 <= k <= ids.len() implies (#[trigger] states[k]).issued()
            == states[0].issued() + k by {
            if k <= n {
                assert(states.take(n + 1)[k] == states[k]);
            }
        }
    }
}

/// Over any run of calls of [`Allocator::next`], no identifier is returned
/// twice, and a later call returns a greater identifier than an earlier one.
pub proof fn lemma_ids_unique(states: Seq<Allocator>, ids: Seq<u64>)
    requires
        states.len() == ids.len() + 1,
        forall|k: int| 0 <= k < ids.len() ==> issues(states[k], #[trigger] ids[k], states[k + 1]),
    ensures
        forall|j: int, k: int| 0 <= j < k < ids.len() ==> ids[j] < ids[k],
        ids.no_duplicates(),
{
    lemma_ids_count_up(states, ids);
}

/// The general-purpose registers of a virtual CPU. The fields and their order
/// are those of the hypervisor's own register block.
#[derive(Clone, Copy, Debug, PartialEq, Eq, Structural)]
pub struct Registers {
    pub rax: u64,
    pub rbx: u64,
    pub rcx: u64,
    pub rdx: u64,
    pub rsi: u64,
    pub rdi: u64,
    pub rsp: u64,
    pub rbp: u64,
    pub r8: u64,
    pub r9: u64,
    pub r10: u64,
    pub r11: u64,
    pub r12: u64,
    pub r13: u64,
    pub r14: u64,
    pub r15: u64,
    pub rip: u64,
    pub rflags: u64,
}

/// One feature-identification leaf as the hypervisor reports it and takes it
/// back. The fields and their order are those of the hypervisor's own entry.
#[derive(Clone, Copy, Debug, PartialEq, Eq)]
pub struct CpuidEntry {
    pub function: u32,
    pub index: u32,
    pub flags: u32,
    pub eax: u32,
    pub ebx: u32,
    pub ecx: u32,
    pub edx: u32,
    pub padding: [u32; 3],
}

/// A virtual CPU that has been set up: its identifier, the entry point of the
/// trusted runtime, and where the top-level page table lies in guest memory.
#[derive(Clone, Copy, Debug, PartialEq, Eq)]
pub struct Cpu {
    id: u64,
    shim_entry: u64,
    cr3: u64,
}

impl Cpu {
    pub closed spec fn spec_id(&self) -> u64 {
        self.id
    }

    pub closed spec fn spec_shim_entry(&self) -> u64 {
        self.shim_entry
    }

    pub closed spec fn spec_cr3(&self) -> u64 {
        self.cr3
    }

    /// The record of the virtual CPU with these three values.
    pub closed spec fn of(id: u64, shim_entry: u64, cr3: u64) -> Cpu {
        Cpu { id, shim_entry, cr3 }
    }

    /// Records a virtual CPU.
    pub fn new(id: u64, shim_entry: u64, cr3: u64) -> (cpu: Cpu)
        ensures
            cpu == Cpu::of(id, shim_entry, cr3),
            cpu.spec_id() == id,
            cpu.spec_shim_entry() == shim_entry,
            cpu.spec_cr3() == cr3,
    {
        Cpu { id, shim_entry, cr3 }
    }

    /// The identifier that the allocator issued for this virtual CPU.
    #[verifier::when_used_as_spec(spec_id)]
    pub fn id(&self) -> (id: u64)
        ensures
            id == self.spec_id(),
    {
        self.id
    }

    /// The guest-physical address at which the trusted runtime is entered.
    #[verifier::when_used_as_spec(spec_shim_entry)]
    pub fn shim_entry(&self) -> (addr: u64)
        ensures
            addr == self.spec_shim_entry(),
    {
        self.shim_entry
    }

    /// The offset of the top-level page table in guest memory, for the
    /// page-table base register.
    #[verifier::when_used_as_spec(spec_cr3)]
    pub fn cr3(&self) -> (offset: u64)
        ensures
            offset == self.spec_cr3(),
    {
        self.cr3
    }
}

} // verus!
