//! The growable, word-addressed memory: an ordered sequence of fixed-size
//! regions with flat 32-bit addressing over all of them.
//!
//! Address `a` resolves to region `a / MEM_SIZE`, offset `a % MEM_SIZE`.
//! Reading beyond the allocated regions returns `0` (defined "zero page"
//! behavior); writing beyond them is a reported `RegionFault`.

use vstd::prelude::*;
use vstd::arithmetic::div_mod::lemma_fundamental_div_mod;
use vstd::arithmetic::div_mod::lemma_mod_bound;

verus! {

/// Number of storage cells in one memory region.
pub const MEM_SIZE: usize = 2048;

/// Error for a write that addresses a region that has not been allocated.
pub struct RegionFault;

/// A fixed-capacity block of storage cells.
pub struct MemoryBlock {
    pub memory: Vec<u32>,
}

/// The contents of a region that has just been allocated: all cells zero.
pub open spec fn zero_region() -> Seq<u32> {
    Seq::new(MEM_SIZE as nat, |i: int| 0u32)
}

impl MemoryBlock {
    pub open spec fn wf(&self) -> bool {
        self.memory@.len() == MEM_SIZE
    }

    /// A freshly zero-initialized region.
    pub fn new() -> (r: MemoryBlock)
        ensures
            r.wf(),
            r.memory@ == zero_region(),
    {
        let mut memory: Vec<u32> = Vec::new();
        let mut i: usize = 0;
        while i < MEM_SIZE
            invariant
                i <= MEM_SIZE,
                memory@.len() == i,
                forall|j: int| 0 <= j < i ==> memory@[j] == 0u32,
            decreases MEM_SIZE - i,
        {
            memory.push(0);
            i = i + 1;
        }
        proof {
            assert(memory@ =~= zero_region());
        }
        MemoryBlock { memory }
    }
}

/// The region that address `addr` falls in.
pub open spec fn region_index(addr: u32) -> int {
    addr as int / MEM_SIZE as int
}

/// The cell within its region that address `addr` falls on.
pub open spec fn region_offset(addr: u32) -> int {
    addr as int % MEM_SIZE as int
}

/// A memory model is well formed when every region holds exactly
/// `MEM_SIZE` cells.
pub open spec fn wf_mem(m: Seq<Seq<u32>>) -> bool {
    forall|i: int| 0 <= i < m.len() ==> (#[trigger] m[i]).len() == MEM_SIZE
}

/// The cell value at address `addr`; `0` beyond the allocated regions.
pub open spec fn read_at(m: Seq<Seq<u32>>, addr: u32) -> u32 {
    if region_index(addr) < m.len() {
        m[region_index(addr)][region_offset(addr)]
    } else {
        0
    }
}

/// The memory after writing `v` at address `addr` (defined only for
/// addresses whose region is allocated).
pub open spec fn write_at(m: Seq<Seq<u32>>, addr: u32, v: u32) -> Seq<Seq<u32>> {
    m.update(region_index(addr), m[region_index(addr)].update(region_offset(addr), v))
}

/// The number of addressable cells.
pub open spec fn addressable_size(m: Seq<Seq<u32>>) -> int {
    m.len() * MEM_SIZE
}

/// The offset of any address lies inside its region.
pub proof fn lemma_region_offset_in_range(addr: u32)
    ensures
        0 <= region_offset(addr) < MEM_SIZE,
        0 <= region_index(addr),
{
    lemma_mod_bound(addr as int, MEM_SIZE as int);
    lemma_fundamental_div_mod(addr as int, MEM_SIZE as int);
}

/// Writing a value to an address and then reading that address returns
/// the written value.
pub proof fn lemma_write_then_read(m: Seq<Seq<u32>>, addr: u32, v: u32)
    requires
        wf_mem(m),
        region_index(addr) < m.len(),
    ensures
        read_at(write_at(m, addr, v), addr) == v,
        wf_mem(write_at(m, addr, v)),
        write_at(m, addr, v).len() == m.len(),
{
    lemma_region_offset_in_range(addr);
}

/// Writing one address leaves the value at every other address unchanged.
pub proof fn lemma_write_preserves_others(m: Seq<Seq<u32>>, addr: u32, v: u32, other: u32)
    requires
        wf_mem(m),
        region_index(addr) < m.len(),
        other != addr,
    ensures
        read_at(write_at(m, addr, v), other) == read_at(m, other),
{
    lemma_region_offset_in_range(addr);
    lemma_region_offset_in_range(other);
    lemma_fundamental_div_mod(addr as int, MEM_SIZE as int);
    lemma_fundamental_div_mod(other as int, MEM_SIZE as int);
}

/// Reading any address in a region at or beyond the allocated count
/// returns zero.
pub proof fn lemma_read_beyond_regions(m: Seq<Seq<u32>>, addr: u32)
    requires
        region_index(addr) >= m.len(),
    ensures
        read_at(m, addr) == 0,
{
}

/// The flat, growable address space: an ordered sequence of regions.
pub struct AddressSpace {
    pub regions: Vec<MemoryBlock>,
}

impl View for AddressSpace {
    type V = Seq<Seq<u32>>;

    open spec fn view(&self) -> Seq<Seq<u32>> {
        self.regions@.map_values(|b: MemoryBlock| b.memory@)
    }
}

impl AddressSpace {
    pub open spec fn wf(&self) -> bool {
        wf_mem(self@)
    }

    /// An address space with no regions allocated yet.
    pub fn empty() -> (r: AddressSpace)
        ensures
            r.wf(),
            r@.len() == 0,
    {
        AddressSpace { regions: Vec::new() }
    }

    /// The number of allocated regions.
    pub fn region_count(&self) -> (n: usize)
        ensures
            n == self@.len(),
    {
        self.regions.len()
    }

    /// The cell value at `addr`; `0` if the resolved region exceeds the
    /// allocated count ("zero page" behavior, not an error).
    pub fn read(&self, addr: u32) -> (v: u32)
        requires
            self.wf(),
        ensures
            v == read_at(self@, addr),
    {
        proof {
            lemma_region_offset_in_range(addr);
        }
        let region: usize = addr as usize / MEM_SIZE;
        let offset: usize = addr as usize % MEM_SIZE;
        if region < self.regions.len() {
            proof {
                assert(self@[region as int] == self.regions@[region as int].memory@);
            }
            self.regions[region].memory[offset]
        } else {
            0
        }
    }

    /// Writes `value` at `addr`; a `RegionFault` if the resolved region
    /// exceeds the allocated count, with the memory left unchanged.
    pub fn write(&mut self, addr: u32, value: u32) -> (r: Result<(), RegionFault>)
        requires
            old(self).wf(),
        ensures
            final(self).wf(),
            region_index(addr) < old(self)@.len() ==> r is Ok && final(self)@
                == write_at(old(self)@, addr, value),
            region_index(addr) >= old(self)@.len() ==> r is Err && *final(self) == *old(self),
    {
        proof {
            lemma_region_offset_in_range(addr);
        }
        let region: usize = addr as usize / MEM_SIZE;
        let offset: usize = addr as usize % MEM_SIZE;
        if region < self.regions.len() {
            proof {
                assert(self@[region as int] == self.regions@[region as int].memory@);
            }
            self.regions[region].memory[offset] = value;
            proof {
                assert(self@ =~= write_at(old(self)@, addr, value));
            }
            Ok(())
        } else {
            Err(RegionFault)
        }
    }

    /// Appends one freshly zero-initialized region; its index is the
    /// previous region count. Monotonic and irreversible.
    pub fn grow(&mut self)
        requires
            old(self).wf(),
        ensures
            final(self).wf(),
            final(self)@ == old(self)@.push(zero_region()),
            final(self)@.len() == old(self)@.len() + 1,
            addressable_size(final(self)@) == addressable_size(old(self)@) + MEM_SIZE,
    {
        self.regions.push(MemoryBlock::new());
        proof {
            assert(self@ =~= old(self)@.push(zero_region()));
        }
    }
}

} // verus!
