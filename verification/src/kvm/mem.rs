//! Memory regions: one run of guest-physical addresses each, backed by one
//! host mapping of the same length.

use vstd::prelude::*;

verus! {

/// A run of addresses: `count` bytes from `start` on.
#[derive(Clone, Copy, Debug, PartialEq, Eq, Structural)]
pub struct Span {
    pub start: u64,
    pub count: u64,
}

impl Span {
    /// The first address after the run.
    pub open spec fn end(self) -> int {
        self.start + self.count
    }

    /// Whether the run ends within the address space.
    pub open spec fn fits(self) -> bool {
        self.end() <= u64::MAX
    }

    /// Whether `addr` lies in the run.
    pub open spec fn contains(self, addr: u64) -> bool {
        self.start <= addr < self.end()
    }

    /// Whether the two runs have no address in common.
    pub open spec fn disjoint(self, other: Span) -> bool {
        forall|addr: u64| !(self.contains(addr) && other.contains(addr))
    }

    /// The first address after the run, where it lies within the address space.
    pub fn checked_end(&self) -> (end: Option<u64>)
        ensures
            self.fits() ==> end == Some((self.start + self.count) as u64),
            !self.fits() ==> end is None,
    {
        self.start.checked_add(self.count)
    }

    /// Whether `addr` lies in the run.
    pub fn includes(&self, addr: u64) -> (inside: bool)
        ensures
            inside == self.contains(addr),
    {
        addr >= self.start && addr - self.start < self.count
    }

    /// Whether the two runs have no address in common.
    pub fn is_disjoint(&self, other: &Span) -> (apart: bool)
        ensures
            apart == self.disjoint(*other),
    {
        if self.count == 0 || other.count == 0 {
            return true;
        }
        let apart = if self.start <= other.start {
            other.start - self.start >= self.count
        } else {
            self.start - other.start >= other.count
        };
        proof {
            if !apart {
                let shared: u64 = if self.start <= other.start {
                    other.start
                } else {
                    self.start
                };
                assert(self.contains(shared) && other.contains(shared));
            }
        }
        apart
    }
}

/// A memory region as the hypervisor is told of it. The fields and their
/// order are those of the hypervisor's own descriptor.
#[derive(Clone, Copy, Debug, PartialEq, Eq, Structural)]
pub struct KvmUserspaceMemoryRegion {
    pub slot: u32,
    pub flags: u32,
    pub guest_phys_addr: u64,
    pub memory_size: u64,
    pub userspace_addr: u64,
}

impl KvmUserspaceMemoryRegion {
    /// The guest-physical addresses that the descriptor covers.
    pub open spec fn guest(self) -> Span {
        Span { start: self.guest_phys_addr, count: self.memory_size }
    }

    /// The host-virtual addresses of the mapping behind them.
    pub open spec fn virt(self) -> Span {
        Span { start: self.userspace_addr, count: self.memory_size }
    }
}

/// Where the structures that the first virtual CPU boots from lie in host
/// memory: the first of the pages shared with the guest, and the top-level
/// page table.
#[derive(Clone, Copy, Debug, PartialEq, Eq, Structural)]
pub struct Prefix {
    pub shared_pages: u64,
    pub pml4t: u64,
}

/// One run of guest-physical memory and the host mapping behind it.
#[derive(Clone, Copy, Debug)]
pub struct Region {
    slot: u32,
    region: KvmUserspaceMemoryRegion,
    prefix: Option<Prefix>,
}

impl Region {
    /// The slot under which the hypervisor knows the region.
    pub closed spec fn spec_slot(&self) -> u32 {
        self.slot
    }

    /// The descriptor that the region was made from.
    pub closed spec fn spec_descriptor(&self) -> KvmUserspaceMemoryRegion {
        self.region
    }

    /// The prefix, for the one region that holds it.
    pub closed spec fn spec_prefix(&self) -> Option<Prefix> {
        self.prefix
    }

    /// The guest-physical addresses of the region.
    pub open spec fn guest(&self) -> Span {
        self.spec_descriptor().guest()
    }

    /// The host-virtual addresses of the mapping behind the region.
    pub open spec fn virt(&self) -> Span {
        self.spec_descriptor().virt()
    }

    /// A prefix lies inside the mapping of the region that holds it.
    pub open spec fn wf(&self) -> bool {
        self.spec_prefix() matches Some(prefix) ==> self.virt().contains(prefix.shared_pages)
            && self.virt().contains(prefix.pml4t)
    }

    /// The offset in the region of the host address `host_addr`, which is the
    /// same in guest and in host memory, the two being mapped one to one.
    pub open spec fn offset_of(&self, host_addr: u64) -> Option<u64> {
        if self.virt().contains(host_addr) {
            Some((host_addr - self.virt().start) as u64)
        } else {
            None
        }
    }

    /// A region without a prefix.
    pub fn new(slot: u32, region: KvmUserspaceMemoryRegion) -> (made: Region)
        ensures
            made.spec_slot() == slot,
            made.spec_descriptor() == region,
            made.spec_prefix() is None,
            made.wf(),
    {
        Region { slot, region, prefix: None }
    }

    /// A region that holds a prefix, where the prefix lies inside its mapping.
    pub fn with_prefix(slot: u32, region: KvmUserspaceMemoryRegion, prefix: Prefix) -> (made:
        Option<Region>)
        ensures
            made is Some <==> region.virt().contains(prefix.shared_pages) && region.virt().contains(
                prefix.pml4t,
            ),
            made matches Some(r) ==> r.spec_slot() == slot && r.spec_descriptor() == region
                && r.spec_prefix() == Some(prefix) && r.wf(),
    {
        let made = Region { slot, region, prefix: Some(prefix) };
        let virt = made.as_virt();
        if virt.includes(prefix.shared_pages) && virt.includes(prefix.pml4t) {
            Some(made)
        } else {
            None
        }
    }

    /// The slot under which the hypervisor knows the region.
    pub fn slot(&self) -> (slot: u32)
        ensures
            slot == self.spec_slot(),
    {
        self.slot
    }

    /// The descriptor that the region was made from.
    pub fn descriptor(&self) -> (region: KvmUserspaceMemoryRegion)
        ensures
            region == self.spec_descriptor(),
    {
        self.region
    }

    /// The guest-physical addresses of the region.
    pub fn as_guest(&self) -> (span: Span)
        ensures
            span == self.guest(),
    {
        Span { start: self.region.guest_phys_addr, count: self.region.memory_size }
    }

    /// The host-virtual addresses of the mapping behind the region.
    pub fn as_virt(&self) -> (span: Span)
        ensures
            span == self.virt(),
    {
        Span { start: self.region.userspace_addr, count: self.region.memory_size }
    }

    /// Whether the region holds the prefix.
    pub fn has_prefix(&self) -> (held: bool)
        ensures
            held == self.spec_prefix().is_some(),
    {
        self.prefix.is_some()
    }

    /// The prefix of the region that holds it.
    pub fn prefix(&self) -> (prefix: Prefix)
        requires
            self.spec_prefix() is Some,
        ensures
            Some(prefix) == self.spec_prefix(),
    {
        self.prefix.unwrap()
    }

    /// Translates a host address inside the region's mapping to its offset in
    /// the region. An address outside the mapping has none.
    pub fn translate_to_guest(&self, host_addr: u64) -> (offset: Option<u64>)
        ensures
            offset == self.offset_of(host_addr),
            offset matches Some(o) ==> o < self.guest().count,
    {
        if self.as_virt().includes(host_addr) {
            Some(host_addr - self.region.userspace_addr)
        } else {
            None
        }
    }
}

} // verus!
