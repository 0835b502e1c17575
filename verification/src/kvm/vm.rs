//! The virtual machine: an ordered list of memory regions, the allocator of
//! virtual CPU identifiers, and the two addresses of the trusted runtime.
//!
//! Memory and threads are added in steps. A step names the one thing that the
//! caller has to ask of the host or of the hypervisor; the caller hands the
//! outcome back as a reply and receives the next step, until the step is
//! `Done` or `Fail`. The caller holds the machine exclusively from the first
//! step of a request to its last.

use vstd::prelude::*;
use crate::kvm::cpu::{issues, Allocator, Cpu, CpuidEntry, Registers};
use crate::kvm::error::Error;
use crate::kvm::mem::{KvmUserspaceMemoryRegion, Region, Span};

verus! {

/// The size of a page of guest memory, in bytes.
pub const PAGE_SIZE: u64 = 4096;

/// A mapping to ask of the host: `len` bytes at an address of the host's
/// choice, filled with zeros, with the protection and kind given.
#[derive(Clone, Copy, Debug, PartialEq, Eq, Structural)]
pub struct MapRequest {
    pub len: usize,
    pub read: bool,
    pub write: bool,
    pub private: bool,
    pub anonymous: bool,
}

/// What is to be done next for a request for memory.
#[derive(Clone, Copy, Debug, PartialEq, Eq, Structural)]
pub enum MemoryStep {
    /// Ask the host for this mapping.
    MapMemory { request: MapRequest },
    /// Ask the hypervisor to register this region.
    RegisterMemory { region: KvmUserspaceMemoryRegion },
    /// The region is part of the machine and owns its mapping, which starts
    /// at the host address `addr`.
    Done { addr: i64 },
    /// The request failed and the machine is as it was. A mapping named here
    /// was made for the request and is to be released.
    Fail { release: Option<Span>, error: Error },
}

/// What came of the step that was asked for.
#[derive(Clone, Copy, Debug, PartialEq, Eq, Structural)]
pub enum MemoryReply {
    /// The host made the mapping, at `addr`.
    Mapped { addr: u64 },
    /// The hypervisor registered the region.
    Registered,
    /// The host or the hypervisor refused, with this error number.
    Failed { errno: i32 },
}

/// The machine: its regions in the order of their slots, the identifiers
/// issued so far, and where the trusted runtime starts and is entered.
pub struct VirtualMachine {
    id_alloc: Allocator,
    regions: Vec<Region>,
    shim_entry: u64,
    shim_start: u64,
}

/// What holds of the regions of every machine. There is a first region, and
/// it alone holds the prefix. Each region sits in the slot of its position.
/// Each starts in guest-physical memory where the one before it ends, and
/// none wraps around. No two host mappings share an address.
pub open spec fn layout_ok(regions: Seq<Region>) -> bool {
    &&& regions.len() >= 1
    &&& regions[0].spec_prefix() is Some
    &&& forall|i: int|
        0 <= i < regions.len() ==> {
            &&& (#[trigger] regions[i]).wf()
            &&& regions[i].spec_slot() == i
            &&& regions[i].spec_descriptor().slot == i
            &&& regions[i].guest().fits()
            &&& regions[i].virt().fits()
        }
    &&& forall|i: int|
        1 <= i < regions.len() ==> {
            &&& (#[trigger] regions[i]).spec_prefix() is None
            &&& regions[i].guest().start == regions[i - 1].guest().end()
        }
    &&& forall|i: int, j: int|
        0 <= i < j < regions.len() ==> (#[trigger] regions[i]).virt().disjoint(
            (#[trigger] regions[j]).virt(),
        )
}

/// Whether a region can be the first of a machine.
pub open spec fn first_region_ok(region: Region) -> bool {
    &&& region.spec_slot() == 0
    &&& region.spec_descriptor().slot == 0
    &&& region.spec_prefix() is Some
    &&& region.guest().fits()
    &&& region.virt().fits()
}

/// `after` is `before` with one region more at its end: the region without a
/// prefix that `region` describes.
pub open spec fn appended(
    before: Seq<Region>,
    after: Seq<Region>,
    region: KvmUserspaceMemoryRegion,
) -> bool {
    &&& after.len() == before.len() + 1
    &&& after.take(before.len() as int) == before
    &&& after.last().spec_slot() == region.slot
    &&& after.last().spec_descriptor() == region
    &&& after.last().spec_prefix() is None
}

/// What a request for memory that is done has changed: `region` could be
/// added to `pre`, and `post` has it as its last region.
pub open spec fn memory_added(
    pre: VirtualMachine,
    region: KvmUserspaceMemoryRegion,
    post: VirtualMachine,
) -> bool {
    &&& pre.admits(region)
    &&& appended(pre.regions(), post.regions(), region)
}

/// What one call that holds the machine exclusively can make of it: the
/// two addresses of the trusted runtime stay, the regions stay or one that
/// the machine admits is added at their end, and the identifiers issued stay
/// or are one more.
pub open spec fn moved(pre: VirtualMachine, post: VirtualMachine) -> bool {
    &&& post.spec_shim_entry() == pre.spec_shim_entry()
    &&& post.spec_shim_start() == pre.spec_shim_start()
    &&& post.regions() == pre.regions() || exists|region: KvmUserspaceMemoryRegion|
        #[trigger] memory_added(pre, region, post)
    &&& post.ids().issued() == pre.ids().issued() || post.ids().issued() == pre.ids().issued()
        + 1
}

/// The bytes of the regions at the positions from `from` up to, not
/// including, `to`.
pub open spec fn bytes_between(regions: Seq<Region>, from: int, to: int) -> int
    decreases to - from,
{
    if to <= from {
        0
    } else {
        bytes_between(regions, from, to - 1) + regions[to - 1].guest().count
    }
}

impl VirtualMachine {
    /// The regions, in the order in which they were added.
    pub closed spec fn regions(&self) -> Seq<Region> {
        self.regions@
    }

    /// The allocator of virtual CPU identifiers.
    pub closed spec fn ids(&self) -> Allocator {
        self.id_alloc
    }

    /// The guest-physical address at which the trusted runtime is entered.
    pub closed spec fn spec_shim_entry(&self) -> u64 {
        self.shim_entry
    }

    /// The guest-physical address at which the trusted runtime was loaded.
    pub closed spec fn spec_shim_start(&self) -> u64 {
        self.shim_start
    }

    /// What holds of every machine.
    pub open spec fn wf(&self) -> bool {
        layout_ok(self.regions())
    }

    /// The descriptor of the region that comes next, for a mapping of `len`
    /// bytes at the host address `addr`: the next slot, no flags, and the
    /// guest-physical address at which the last region ends.
    pub open spec fn next_region(&self, len: u64, addr: u64) -> KvmUserspaceMemoryRegion {
        KvmUserspaceMemoryRegion {
            slot: self.regions().len() as u32,
            flags: 0,
            guest_phys_addr: self.regions().last().guest().end() as u64,
            memory_size: len,
            userspace_addr: addr,
        }
    }

    /// Whether `region` can be added as it is: it is the region that comes
    /// next for its size and host address, it is not empty, neither of its
    /// ranges wraps around, and its mapping shares no address with the
    /// mapping of a region in use.
    pub open spec fn admits(&self, region: KvmUserspaceMemoryRegion) -> bool {
        &&& self.regions().len() <= u32::MAX
        &&& region == self.next_region(region.memory_size, region.userspace_addr)
        &&& region.memory_size > 0
        &&& region.guest().fits()
        &&& region.virt().fits()
        &&& forall|i: int|
            0 <= i < self.regions().len() ==> (#[trigger] self.regions()[i]).virt().disjoint(
                region.virt(),
            )
    }

    /// A machine that has the one region and has issued no identifier, where
    /// the region can be the first of a machine.
    pub fn new(region_zero: Region, shim_entry: u64, shim_start: u64) -> (made: Option<
        VirtualMachine,
    >)
        requires
            region_zero.wf(),
        ensures
            made is Some <==> first_region_ok(region_zero),
            made matches Some(vm) ==> {
                &&& vm.wf()
                &&& vm.regions() == seq![region_zero]
                &&& vm.ids().issued() == 0
                &&& vm.spec_shim_entry() == shim_entry
                &&& vm.spec_shim_start() == shim_start
            },
    {
        if region_zero.slot() != 0 || region_zero.descriptor().slot != 0
            || !region_zero.has_prefix() || region_zero.as_guest().checked_end().is_none()
            || region_zero.as_virt().checked_end().is_none() {
            return None;
        }
        let mut regions: Vec<Region> = Vec::new();
        regions.push(region_zero);
        Some(VirtualMachine { id_alloc: Allocator::new(), regions, shim_entry, shim_start })
    }

    /// The number of regions.
    pub fn region_count(&self) -> (count: usize)
        ensures
            count == self.regions().len(),
    {
        self.regions.len()
    }

    /// The region in slot `index`.
    pub fn region(&self, index: usize) -> (found: Option<Region>)
        ensures
            index < self.regions().len() ==> found == Some(self.regions()[index as int]),
            index >= self.regions().len() ==> found is None,
    {
        if index < self.regions.len() {
            Some(self.regions[index])
        } else {
            None
        }
    }

    /// The guest-physical address at which the trusted runtime is entered.
    #[verifier::when_used_as_spec(spec_shim_entry)]
    pub fn shim_entry(&self) -> (addr: u64)
        ensures
            addr == self.spec_shim_entry(),
    {
        self.shim_entry
    }

    /// The guest-physical address at which the trusted runtime was loaded.
    #[verifier::when_used_as_spec(spec_shim_start)]
    pub fn shim_start(&self) -> (addr: u64)
        ensures
            addr == self.spec_shim_start(),
    {
        self.shim_start
    }

    /// The number of identifiers issued so far.
    pub fn threads_requested(&self) -> (count: u64)
        ensures
            count == self.ids().issued(),
    {
        self.id_alloc.peek()
    }
}

impl VirtualMachine {
    /// The first step of a request for `pages` pages of memory: the mapping
    /// to ask of the host, or why no memory of that size can be added.
    pub open spec fn memory_plan(&self, pages: u64) -> MemoryStep {
        if pages == 0 {
            MemoryStep::Fail { release: None, error: Error::NoPages }
        } else if pages * PAGE_SIZE > usize::MAX || self.regions().len() > u32::MAX
            || self.regions().last().guest().end() + pages * PAGE_SIZE > u64::MAX {
            MemoryStep::Fail { release: None, error: Error::OutOfRange }
        } else {
            MemoryStep::MapMemory {
                request: MapRequest {
                    len: (pages * PAGE_SIZE) as usize,
                    read: true,
                    write: true,
                    private: true,
                    anonymous: true,
                },
            }
        }
    }

    /// The step that follows `step` once `reply` has come in for it.
    ///
    /// A mapping that the host made is described to the hypervisor as the
    /// region that comes next; a mapping that cannot be added is released
    /// instead. Once the hypervisor has registered the region, the request
    /// is done. A refusal ends the request, and a mapping made for it is
    /// released. So does a reply that does not answer the step.
    pub open spec fn memory_step_after(&self, step: MemoryStep, reply: MemoryReply) -> MemoryStep {
        match step {
            MemoryStep::MapMemory { request } => match reply {
                MemoryReply::Mapped { addr } => {
                    let region = self.next_region(request.len as u64, addr);
                    if self.admits(region) {
                        MemoryStep::RegisterMemory { region }
                    } else {
                        MemoryStep::Fail {
                            release: Some(Span { start: addr, count: request.len as u64 }),
                            error: Error::InvalidMapping,
                        }
                    }
                },
                MemoryReply::Failed { errno } => MemoryStep::Fail {
                    release: None,
                    error: Error::MapFailed { errno },
                },
                MemoryReply::Registered => MemoryStep::Fail {
                    release: None,
                    error: Error::Protocol,
                },
            },
            MemoryStep::RegisterMemory { region } => match reply {
                MemoryReply::Registered => if self.admits(region) {
                    MemoryStep::Done { addr: region.userspace_addr as i64 }
                } else {
                    MemoryStep::Fail { release: Some(region.virt()), error: Error::Protocol }
                },
                MemoryReply::Failed { errno } => MemoryStep::Fail {
                    release: Some(region.virt()),
                    error: Error::Hypervisor { errno },
                },
                MemoryReply::Mapped { .. } => MemoryStep::Fail {
                    release: Some(region.virt()),
                    error: Error::Protocol,
                },
            },
            _ => MemoryStep::Fail { release: None, error: Error::Protocol },
        }
    }

    /// Whether `region` can be added as it is.
    fn admissible(&self, region: &KvmUserspaceMemoryRegion) -> (ok: bool)
        requires
            self.wf(),
        ensures
            ok == self.admits(*region),
    {
        let count: usize = self.regions.len();
        if count > u32::MAX as usize {
            return false;
        }
        let last: Span = self.regions[count - 1].as_guest();
        let start: u64 = match last.checked_end() {
            Some(end) => end,
            None => { return false; },
        };
        if region.slot != count as u32 || region.flags != 0 || region.guest_phys_addr != start
            || region.memory_size == 0 {
            return false;
        }
        let guest = Span { start: region.guest_phys_addr, count: region.memory_size };
        let virt = Span { start: region.userspace_addr, count: region.memory_size };
        if guest.checked_end().is_none() || virt.checked_end().is_none() {
            return false;
        }
        let mut index: usize = 0;
        while index < count
            invariant
                count == self.regions.len(),
                index <= count,
                virt == region.virt(),
                forall|i: int|
                    0 <= i < index ==> (#[trigger] self.regions()[i]).virt().disjoint(virt),
            decreases count - index,
        {
            if !self.regions[index].as_virt().is_disjoint(&virt) {
                return false;
            }
            index += 1;
        }
        true
    }

    /// Starts a request for `pages` pages of memory, of 4096 bytes each. The
    /// machine stays as it is.
    ///
    /// The step returned asks for a mapping of that size, readable and
    /// writable, private and anonymous. No page, or more bytes than the
    /// machine can address after its last region, fails at once.
    pub fn add_memory(&mut self, pages: u64) -> (step: MemoryStep)
        requires
            old(self).wf(),
        ensures
            step == old(self).memory_plan(pages),
            *final(self) == *old(self),
            moved(*old(self), *final(self)),
    {
        if pages == 0 {
            return MemoryStep::Fail { release: None, error: Error::NoPages };
        }
        let out_of_range = MemoryStep::Fail { release: None, error: Error::OutOfRange };
        let size: u64 = match pages.checked_mul(PAGE_SIZE) {
            Some(size) => size,
            None => { return out_of_range; },
        };
        if size > usize::MAX as u64 || self.regions.len() > u32::MAX as usize {
            return out_of_range;
        }
        let last: Span = self.regions[self.regions.len() - 1].as_guest();
        let start: u64 = match last.checked_end() {
            Some(end) => end,
            None => { return out_of_range; },
        };
        if start.checked_add(size).is_none() {
            return out_of_range;
        }
        MemoryStep::MapMemory {
            request: MapRequest {
                len: size as usize,
                read: true,
                write: true,
                private: true,
                anonymous: true,
            },
        }
    }

    /// Takes the reply to a step of a request for memory and returns the step
    /// that follows.
    ///
    /// The machine changes with one outcome only: when the hypervisor has
    /// registered a region that can be added, the region is appended, in the
    /// next slot and without a prefix, and the step is `Done` with the host
    /// address of its mapping. Whenever the request ends otherwise after the
    /// host has made a mapping, the step names that mapping for release.
    pub fn add_memory_next(&mut self, step: MemoryStep, reply: MemoryReply) -> (next: MemoryStep)
        requires
            old(self).wf(),
        ensures
            next == old(self).memory_step_after(step, reply),
            final(self).wf(),
            final(self).ids() == old(self).ids(),
            final(self).spec_shim_entry() == old(self).spec_shim_entry(),
            final(self).spec_shim_start() == old(self).spec_shim_start(),
            next is Done ==> step is RegisterMemory && memory_added(
                *old(self),
                step->region,
                *final(self),
            ),
            !(next is Done) ==> final(self).regions() == old(self).regions(),
            step is RegisterMemory && !(next is Done) ==> next == (MemoryStep::Fail {
                release: Some(step->region.virt()),
                error: next->error,
            }),
            moved(*old(self), *final(self)),
    {
        match step {
            MemoryStep::MapMemory { request } => match reply {
                MemoryReply::Mapped { addr } => {
                    let count: usize = self.regions.len();
                    let last: Span = self.regions[count - 1].as_guest();
                    let invalid = MemoryStep::Fail {
                        release: Some(Span { start: addr, count: request.len as u64 }),
                        error: Error::InvalidMapping,
                    };
                    if count > u32::MAX as usize {
                        return invalid;
                    }
                    let start: u64 = match last.checked_end() {
                        Some(end) => end,
                        None => { return invalid; },
                    };
                    let region = KvmUserspaceMemoryRegion {
                        slot: count as u32,
                        flags: 0,
                        guest_phys_addr: start,
                        memory_size: request.len as u64,
                        userspace_addr: addr,
                    };
                    if self.admissible(&region) {
                        MemoryStep::RegisterMemory { region }
                    } else {
                        invalid
                    }
                },
                MemoryReply::Failed { errno } => MemoryStep::Fail {
                    release: None,
                    error: Error::MapFailed { errno },
                },
                MemoryReply::Registered => MemoryStep::Fail {
                    release: None,
                    error: Error::Protocol,
                },
            },
            MemoryStep::RegisterMemory { region } => {
                let mapping = Span { start: region.userspace_addr, count: region.memory_size };
                match reply {
                    MemoryReply::Registered => {
                        if !self.admissible(&region) {
                            return MemoryStep::Fail {
                                release: Some(mapping),
                                error: Error::Protocol,
                            };
                        }
                        let added = Region::new(region.slot, region);
                        self.regions.push(added);
                        proof {
                            assert(self.regions().take(old(self).regions().len() as int)
                                == old(self).regions());
                            assert(memory_added(*old(self), region, *self));
                            lemma_append_keeps_layout(*old(self), region, *self);
                        }
                        let addr: i64 = #[verifier::truncate] (region.userspace_addr as i64);
                        MemoryStep::Done { addr }
                    },
                    MemoryReply::Failed { errno } => MemoryStep::Fail {
                        release: Some(mapping),
                        error: Error::Hypervisor { errno },
                    },
                    MemoryReply::Mapped { .. } => MemoryStep::Fail {
                        release: Some(mapping),
                        error: Error::Protocol,
                    },
                }
            },
            _ => MemoryStep::Fail { release: None, error: Error::Protocol },
        }
    }
}

/// Adding a region that the machine admits keeps the layout of its regions.
pub proof fn lemma_append_keeps_layout(
    pre: VirtualMachine,
    region: KvmUserspaceMemoryRegion,
    post: VirtualMachine,
)
    requires
        pre.wf(),
        memory_added(pre, region, post),
    ensures
        post.wf(),
{
    let before = pre.regions();
    let after = post.regions();
    assert forall|i: int| 0 <= i < before.len() implies after[i] == before[i] by {
        assert(after.take(before.len() as int)[i] == after[i]);
    }
    assert forall|i: int| 0 <= i < after.len() implies {
        &&& (#[trigger] after[i]).wf()
        &&& after[i].spec_slot() == i
        &&& after[i].spec_descriptor().slot == i
        &&& after[i].guest().fits()
        &&& after[i].virt().fits()
    } by {
        if i < before.len() {
            assert(after[i] == before[i]);
        }
    }
    assert forall|i: int| 1 <= i < after.len() implies {
        &&& (#[trigger] after[i]).spec_prefix() is None
        &&& after[i].guest().start == after[i - 1].guest().end()
    } by {
        assert(after[i - 1] == before[i - 1]);
        if i < before.len() {
            assert(after[i] == before[i]);
        }
    }
    assert forall|i: int, j: int| 0 <= i < j < after.len() implies (
    #[trigger] after[i]).virt().disjoint((#[trigger] after[j]).virt()) by {
        assert(after[i] == before[i]);
        if j < before.len() {
            assert(after[j] == before[j]);
        }
    }
}

/// In every machine, a region starts in guest-physical memory where the
/// first region ends, plus the bytes of the regions between the two: the
/// regions after the first form one range without a gap, in the order in
/// which they were added.
pub proof fn lemma_regions_contiguous(vm: VirtualMachine, k: int)
    requires
        vm.wf(),
        1 <= k < vm.regions().len(),
    ensures
        vm.regions()[k].guest().start == vm.regions()[0].guest().end() + bytes_between(
            vm.regions(),
            1,
            k,
        ),
    decreases k,
{
    if k > 1 {
        lemma_regions_contiguous(vm, k - 1);
        assert(vm.regions()[k].guest().start == vm.regions()[k - 1].guest().end());
    } else {
        assert(vm.regions()[1].guest().start == vm.regions()[0].guest().end());
        assert(bytes_between(vm.regions(), 1, 1) == 0);
    }
}

/// In every machine, a region ends in guest-physical memory no later than
/// any region after it starts, so no two regions share a guest-physical
/// address.
pub proof fn lemma_regions_disjoint(vm: VirtualMachine, i: int, j: int)
    requires
        vm.wf(),
        0 <= i < j < vm.regions().len(),
    ensures
        vm.regions()[i].guest().end() <= vm.regions()[j].guest().start,
        vm.regions()[i].guest().disjoint(vm.regions()[j].guest()),
        vm.regions()[j].guest().disjoint(vm.regions()[i].guest()),
    decreases j - i,
{
    if j > i + 1 {
        lemma_regions_disjoint(vm, i, j - 1);
    }
    assert(vm.regions()[j].guest().start == vm.regions()[j - 1].guest().end());
}

/// What a run of requests for memory that were done is: `states[k]` is the
/// machine before request `k` and `states[k + 1]` the machine after it, to
/// which the request has added the region `added[k]`.
pub open spec fn memory_run(
    states: Seq<VirtualMachine>,
    added: Seq<KvmUserspaceMemoryRegion>,
) -> bool {
    &&& states.len() == added.len() + 1
    &&& states[0].wf()
    &&& forall|k: int|
        0 <= k < added.len() ==> memory_added(states[k], #[trigger] added[k], states[k + 1])
}

/// Over any run of requests for memory that were done, the regions of the
/// machine are those it had before the run followed by the regions added,
/// in call order.
pub proof fn lemma_memory_in_call_order(
    states: Seq<VirtualMachine>,
    added: Seq<KvmUserspaceMemoryRegion>,
)
    requires
        memory_run(states, added),
    ensures
        states.last().wf(),
        states.last().regions().len() == states[0].regions().len() + added.len(),
        forall|i: int|
            0 <= i < states[0].regions().len() ==> (#[trigger] states.last().regions()[i])
                == states[0].regions()[i],
        forall|k: int|
            0 <= k < added.len() ==> (#[trigger] states.last().regions()[states[0].regions().len()
                + k]).spec_descriptor() == added[k],
    decreases added.len(),
{
    if added.len() == 0 {
        assert(states.last() == states[0]);
    } else {
        let n = added.len() - 1;
        let shorter = states.take(n + 1);
        let fewer = added.take(n);
        assert(memory_run(shorter, fewer)) by {
            assert(shorter[0] == states[0]);
            assert forall|k: int| 0 <= k < fewer.len() implies memory_added(
                shorter[k],
                #[trigger] fewer[k],
                shorter[k + 1],
            ) by {
                assert(memory_added(states[k], added[k], states[k + 1]));
            }
        }
        lemma_memory_in_call_order(shorter, fewer);
        assert(shorter[0] == states[0]);
        assert(shorter.last() == states[n]);
        assert(states.last() == states[n + 1]);
        assert(memory_added(states[n], added[n], states[n + 1]));
        lemma_append_keeps_layout(states[n], added[n], states[n + 1]);
        lemma_appended_keeps_regions(states[n].regions(), states[n + 1].regions(), added[n]);
        assert forall|k: int| 0 <= k < added.len() implies (
        #[trigger] states[n + 1].regions()[states[0].regions().len() + k]).spec_descriptor()
            == added[k] by {
            if k < n {
                assert(fewer[k] == added[k]);
            }
        }
    }
}

/// A list of regions that was appended to still holds each region that it
/// held, at its position.
proof fn lemma_appended_keeps_regions(
    before: Seq<Region>,
    after: Seq<Region>,
    region: KvmUserspaceMemoryRegion,
)
    requires
        appended(before, after, region),
    ensures
        forall|i: int| 0 <= i < before.len() ==> #[trigger] after[i] == before[i],
{
    assert forall|i: int| 0 <= i < before.len() implies #[trigger] after[i] == before[i] by {
        assert(after.take(before.len() as int)[i] == after[i]);
    }
}

/// Over any run of requests for memory that were done, the regions added lie
/// in guest-physical memory one after the other, in call order, from where
/// the last region before the run ends: each starts there plus the bytes of
/// the regions added before it.
pub proof fn lemma_memory_added_contiguous(
    states: Seq<VirtualMachine>,
    added: Seq<KvmUserspaceMemoryRegion>,
    k: int,
)
    requires
        memory_run(states, added),
        0 <= k < added.len(),
    ensures
        added[k].guest_phys_addr == states[0].regions().last().guest().end() + bytes_between(
            states.last().regions(),
            states[0].regions().len() as int,
            states[0].regions().len() + k,
        ),
{
    lemma_memory_in_call_order(states, added);
    let first = states[0].regions();
    let all = states.last().regions();
    let held = first.len() as int;
    assert(all[held + k].spec_descriptor() == added[k]);
    assert(all[held - 1] == first[held - 1]);
    lemma_regions_contiguous(states.last(), held + k);
    lemma_bytes_between_split(all, 1, held, held + k);
    if held > 1 {
        lemma_regions_contiguous(states.last(), held - 1);
        assert(bytes_between(all, 1, held) == bytes_between(all, 1, held - 1) + all[held
            - 1].guest().count);
    } else {
        assert(bytes_between(all, 1, 1) == 0);
    }
}

/// The bytes of a run of regions are those of its two parts.
proof fn lemma_bytes_between_split(regions: Seq<Region>, from: int, mid: int, to: int)
    requires
        from <= mid <= to,
    ensures
        bytes_between(regions, from, to) == bytes_between(regions, from, mid) + bytes_between(
            regions,
            mid,
            to,
        ),
    decreases to - mid,
{
    if to > mid {
        lemma_bytes_between_split(regions, from, mid, to - 1);
    }
}

/// What is to be done next for a request for a thread.
#[derive(Clone, Debug, PartialEq, Eq)]
pub enum ThreadStep {
    /// Ask the hypervisor for a virtual CPU with this identifier.
    CreateVcpu { id: u64 },
    /// Read the general-purpose registers of the virtual CPU.
    GetRegisters { id: u64 },
    /// Write these general-purpose registers to the virtual CPU.
    SetRegisters { id: u64, registers: Registers },
    /// Ask the hypervisor for the feature-identification leaves that it
    /// supports, `max_entries` of them at most.
    GetSupportedCpuid { id: u64, max_entries: usize },
    /// Give the virtual CPU these feature-identification leaves.
    SetCpuid { id: u64, entries: Vec<CpuidEntry> },
    /// The virtual CPU is set up.
    Done { cpu: Cpu },
    /// The request failed. A virtual CPU named here was created for the
    /// request and is to be dropped: it must not be run.
    Fail { discard: Option<u64>, error: Error },
}

/// What came of the step that was asked for.
#[derive(Clone, Debug, PartialEq, Eq)]
pub enum ThreadReply {
    /// The hypervisor created the virtual CPU.
    Created,
    /// The registers as read from the virtual CPU.
    Registers { registers: Registers },
    /// The registers were written.
    RegistersSet,
    /// The leaves that the hypervisor supports.
    Cpuid { entries: Vec<CpuidEntry> },
    /// The leaves were given to the virtual CPU.
    CpuidSet,
    /// The hypervisor refused, with this error number.
    Failed { errno: i32 },
}

impl ThreadStep {
    /// The identifier of the virtual CPU that the step is for, where the step
    /// asks for something.
    pub open spec fn id(self) -> Option<u64> {
        match self {
            ThreadStep::CreateVcpu { id } => Some(id),
            ThreadStep::GetRegisters { id } => Some(id),
            ThreadStep::SetRegisters { id, .. } => Some(id),
            ThreadStep::GetSupportedCpuid { id, .. } => Some(id),
            ThreadStep::SetCpuid { id, .. } => Some(id),
            _ => None,
        }
    }

    /// The virtual CPU that exists when the step is asked for: none before
    /// the hypervisor has created it.
    pub open spec fn created(self) -> Option<u64> {
        match self {
            ThreadStep::CreateVcpu { .. } => None,
            _ => self.id(),
        }
    }
}

/// What the start of a request for a thread does: the step is the one that
/// the identifiers issued before it call for, and the request takes the next
/// identifier, unless none is left.
pub open spec fn thread_requested(
    pre: VirtualMachine,
    step: ThreadStep,
    post: VirtualMachine,
) -> bool {
    &&& step == pre.thread_plan()
    &&& pre.ids().issued() < u64::MAX ==> issues(
        pre.ids(),
        pre.ids().issued() as u64,
        post.ids(),
    )
    &&& pre.ids().issued() >= u64::MAX ==> post.ids() == pre.ids()
}

/// The most feature-identification leaves that the hypervisor is asked for.
pub open spec fn max_cpuid_entries() -> usize {
    256
}

/// Reads the constant `kvm_bindings::KVM_MAX_CPUID_ENTRIES`, the most leaves
/// that the hypervisor's interface takes or hands out in one call. The
/// contract claims its value, 256, as the bindings define it.
#[verifier::external_body]
fn kvm_max_cpuid_entries() -> (max: usize)
    ensures
        max == max_cpuid_entries(),
{
    kvm_bindings::KVM_MAX_CPUID_ENTRIES
}

impl VirtualMachine {
    /// The offset in the first region of the first of the pages shared with
    /// the guest.
    pub open spec fn shared_pages_offset(&self) -> u64 {
        (self.regions()[0].spec_prefix()->0.shared_pages - self.regions()[0].virt().start) as u64
    }

    /// The offset in the first region of the top-level page table.
    pub open spec fn page_table_offset(&self) -> u64 {
        (self.regions()[0].spec_prefix()->0.pml4t - self.regions()[0].virt().start) as u64
    }

    /// The registers that the first virtual CPU boots with, given the
    /// registers it has: the source register holds the address at which the
    /// trusted runtime was loaded, the destination register the offset of the
    /// shared pages, and every other register is as it was.
    pub open spec fn boot_registers(&self, registers: Registers) -> Registers {
        Registers { rsi: self.spec_shim_start(), rdi: self.shared_pages_offset(), ..registers }
    }

    /// The first step of a request for a thread, by the number of
    /// identifiers issued before it: the first virtual CPU is asked of the
    /// hypervisor, any other is unsupported.
    pub open spec fn thread_plan(&self) -> ThreadStep {
        if self.ids().issued() == 0 {
            ThreadStep::CreateVcpu { id: 0 }
        } else {
            ThreadStep::Fail { discard: None, error: Error::Unsupported }
        }
    }

    /// The step that follows `step` once `reply` has come in for it.
    ///
    /// The order is: create the virtual CPU, read its registers, write the
    /// boot registers, ask for the supported leaves, hand them to the virtual
    /// CPU unchanged, done. A step that asks for nothing has no reply. A step
    /// for a virtual CPU other than the first is unsupported. A refusal ends
    /// the request, and so does a reply that does not answer the step, or
    /// more leaves than were asked for.
    pub open spec fn thread_step_after(&self, step: ThreadStep, reply: ThreadReply) -> ThreadStep {
        if step.id() is None {
            ThreadStep::Fail { discard: None, error: Error::Protocol }
        } else if step.id() != Some(0u64) {
            ThreadStep::Fail {
                discard: if reply is Created {
                    step.id()
                } else {
                    step.created()
                },
                error: Error::Unsupported,
            }
        } else if reply is Failed {
            ThreadStep::Fail {
                discard: step.created(),
                error: Error::Hypervisor { errno: reply->errno },
            }
        } else {
            match (step, reply) {
                (ThreadStep::CreateVcpu { id }, ThreadReply::Created) => ThreadStep::GetRegisters {
                    id,
                },
                (
                    ThreadStep::GetRegisters { id },
                    ThreadReply::Registers { registers },
                ) => ThreadStep::SetRegisters { id, registers: self.boot_registers(registers) },
                (
                    ThreadStep::SetRegisters { id, .. },
                    ThreadReply::RegistersSet,
                ) => ThreadStep::GetSupportedCpuid { id, max_entries: max_cpuid_entries() },
                (ThreadStep::GetSupportedCpuid { id, .. }, ThreadReply::Cpuid { entries }) => {
                    if entries@.len() <= max_cpuid_entries() {
                        ThreadStep::SetCpuid { id, entries }
                    } else {
                        ThreadStep::Fail { discard: Some(id), error: Error::Protocol }
                    }
                },
                (ThreadStep::SetCpuid { id, .. }, ThreadReply::CpuidSet) => ThreadStep::Done {
                    cpu: Cpu::of(id, self.spec_shim_entry(), self.page_table_offset()),
                },
                _ => ThreadStep::Fail { discard: step.created(), error: Error::Protocol },
            }
        }
    }

    /// Starts a request for a thread. The allocator issues the next
    /// identifier, whatever comes of the request.
    ///
    /// The first virtual CPU is asked of the hypervisor. For any other the
    /// request fails as unsupported, and the hypervisor is asked for nothing.
    /// Once every identifier has been issued, none is issued any more.
    pub fn add_thread(&mut self) -> (step: ThreadStep)
        requires
            old(self).wf(),
        ensures
            thread_requested(*old(self), step, *final(self)),
            moved(*old(self), *final(self)),
            final(self).regions() == old(self).regions(),
            final(self).spec_shim_entry() == old(self).spec_shim_entry(),
            final(self).spec_shim_start() == old(self).spec_shim_start(),
            final(self).wf(),
    {
        let unsupported = ThreadStep::Fail { discard: None, error: Error::Unsupported };
        if self.id_alloc.exhausted() {
            return unsupported;
        }
        let id: u64 = self.id_alloc.next();
        if id == 0 {
            ThreadStep::CreateVcpu { id }
        } else {
            unsupported
        }
    }

    /// Takes the reply to a step of a request for a thread and returns the
    /// step that follows. The machine stays as it is.
    ///
    /// The registers written hold offsets inside the first region, and so
    /// does the page-table base that the finished virtual CPU records.
    pub fn add_thread_next(&self, step: ThreadStep, reply: ThreadReply) -> (next: ThreadStep)
        requires
            self.wf(),
        ensures
            next == self.thread_step_after(step, reply),
            next matches ThreadStep::SetRegisters { registers, .. } ==> registers.rsi
                == self.spec_shim_start() && registers.rdi == self.shared_pages_offset()
                && registers.rdi < self.regions()[0].guest().count,
            next matches ThreadStep::Done { cpu } ==> cpu.spec_id() == 0 && cpu.spec_shim_entry()
                == self.spec_shim_entry() && cpu.spec_cr3() == self.page_table_offset()
                && cpu.spec_cr3() < self.regions()[0].guest().count,
            !(next is CreateVcpu),
    {
        let id: u64 = match step {
            ThreadStep::CreateVcpu { id } => id,
            ThreadStep::GetRegisters { id } => id,
            ThreadStep::SetRegisters { id, .. } => id,
            ThreadStep::GetSupportedCpuid { id, .. } => id,
            ThreadStep::SetCpuid { id, .. } => id,
            _ => { return ThreadStep::Fail { discard: None, error: Error::Protocol }; },
        };
        let created: Option<u64> = match step {
            ThreadStep::CreateVcpu { .. } => None,
            _ => Some(id),
        };
        if id != 0 {
            let discard: Option<u64> = match reply {
                ThreadReply::Created => Some(id),
                _ => created,
            };
            return ThreadStep::Fail { discard, error: Error::Unsupported };
        }
        let region_zero: &Region = &self.regions[0];
        let prefix = region_zero.prefix();
        match (step, reply) {
            (_, ThreadReply::Failed { errno }) => ThreadStep::Fail {
                discard: created,
                error: Error::Hypervisor { errno },
            },
            (ThreadStep::CreateVcpu { .. }, ThreadReply::Created) => ThreadStep::GetRegisters {
                id,
            },
            (ThreadStep::GetRegisters { .. }, ThreadReply::Registers { registers }) => {
                let mut registers = registers;
                registers.rsi = self.shim_start;
                registers.rdi = region_zero.translate_to_guest(prefix.shared_pages).unwrap();
                ThreadStep::SetRegisters { id, registers }
            },
            (ThreadStep::SetRegisters { .. }, ThreadReply::RegistersSet) => {
                ThreadStep::GetSupportedCpuid { id, max_entries: kvm_max_cpuid_entries() }
            },
            (ThreadStep::GetSupportedCpuid { .. }, ThreadReply::Cpuid { entries }) => {
                if entries.len() <= kvm_max_cpuid_entries() {
                    ThreadStep::SetCpuid { id, entries }
                } else {
                    ThreadStep::Fail { discard: created, error: Error::Protocol }
                }
            },
            (ThreadStep::SetCpuid { .. }, ThreadReply::CpuidSet) => {
                let cr3: u64 = region_zero.translate_to_guest(prefix.pml4t).unwrap();
                ThreadStep::Done { cpu: Cpu::new(id, self.shim_entry, cr3) }
            },
            _ => ThreadStep::Fail { discard: created, error: Error::Protocol },
        }
    }
}

/// Over any run of calls that hold the machine exclusively, one after the
/// other and in whatever order the callers came, the machine keeps its
/// layout: no two regions share an address, in guest or in host memory. A
/// region that was added stays where it is, and the identifiers issued only
/// grow, so none is issued twice. `states[k]` is the machine before call
/// `k`, `states[k + 1]` after it.
pub proof fn lemma_any_run_keeps_machine(states: Seq<VirtualMachine>, j: int, k: int)
    requires
        states[0].wf(),
        forall|n: int| 0 <= n < states.len() - 1 ==> moved(#[trigger] states[n], states[n + 1]),
        0 <= j <= k < states.len(),
    ensures
        states[k].wf(),
        states[j].regions().len() <= states[k].regions().len(),
        forall|i: int|
            0 <= i < states[j].regions().len() ==> #[trigger] states[k].regions()[i]
                == states[j].regions()[i],
        states[j].ids().issued() <= states[k].ids().issued(),
    decreases k,
{
    if k > 0 {
        if j < k {
            lemma_any_run_keeps_machine(states, j, k - 1);
        } else {
            lemma_any_run_keeps_machine(states, 0, k - 1);
        }
        let pre = states[k - 1];
        let post = states[k];
        assert(moved(pre, post));
        if post.regions() != pre.regions() {
            let region = choose|region: KvmUserspaceMemoryRegion|
                #[trigger] memory_added(pre, region, post);
            lemma_append_keeps_layout(pre, region, post);
            lemma_appended_keeps_regions(pre.regions(), post.regions(), region);
        }
    }
}

/// Over any run of requests for a thread on a machine that has issued no
/// identifier, the requests take the identifiers 0, 1, 2 and so on in call
/// order, the first request asks the hypervisor for the virtual CPU 0, and
/// every later one fails as unsupported and asks the hypervisor for
/// nothing. `states[k]` is the machine before request `k`, `states[k + 1]`
/// after it, and `steps[k]` the step that the request starts with.
pub proof fn lemma_threads_in_call_order(states: Seq<VirtualMachine>, steps: Seq<ThreadStep>)
    requires
        states.len() == steps.len() + 1,
        steps.len() <= u64::MAX,
        states[0].ids().issued() == 0,
        forall|k: int|
            0 <= k < steps.len() ==> thread_requested(
                states[k],
                #[trigger] steps[k],
                states[k + 1],
            ),
    ensures
        forall|k: int| 0 <= k <= steps.len() ==> (#[trigger] states[k]).ids().issued() == k,
        forall|k: int|
            0 <= k < steps.len() ==> #[trigger] steps[k] == if k == 0 {
                ThreadStep::CreateVcpu { id: 0 }
            } else {
                ThreadStep::Fail { discard: None, error: Error::Unsupported }
            },
    decreases steps.len(),
{
    if steps.len() > 0 {
        let n = steps.len() - 1;
        lemma_threads_in_call_order(states.take(n + 1), steps.take(n));
        assert(states.take(n + 1)[n] == states[n]);
        assert(thread_requested(states[n], steps[n], states[n + 1]));
        assert forall|k: int| 0 <= k <= steps.len() implies (#[trigger] states[k]).ids().issued()
            == k by {
            if k <= n {
                assert(states.take(n + 1)[k] == states[k]);
            }
        }
        assert forall|k: int| 0 <= k < steps.len() implies #[trigger] steps[k] == if k == 0 {
            ThreadStep::CreateVcpu { id: 0 }
        } else {
            ThreadStep::Fail { discard: None, error: Error::Unsupported }
        } by {
            if k < n {
                assert(steps.take(n)[k] == steps[k]);
            }
        }
    }
}

/// In every machine whose trusted runtime was loaded inside the first
/// region, the three values that the first virtual CPU boots with lie
/// inside the first region: the source register, the destination register
/// and the page-table base are each less than the length of the region.
pub proof fn lemma_boot_values_in_first_region(vm: VirtualMachine, registers: Registers)
    requires
        vm.wf(),
        vm.spec_shim_start() < vm.regions()[0].guest().count,
    ensures
        0 <= vm.boot_registers(registers).rsi < vm.regions()[0].guest().count,
        0 <= vm.boot_registers(registers).rdi < vm.regions()[0].guest().count,
        0 <= vm.page_table_offset() < vm.regions()[0].guest().count,
{
    assert(vm.regions()[0].wf());
}

} // verus!
