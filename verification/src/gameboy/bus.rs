use vstd::prelude::*;

use super::mmu::{boot_rom_after, context_after_write, spec_read, Mmu, MmuContext, MMU};

verus! {

/// What the CPU asks of the memory bus during one machine cycle.
#[derive(Debug, Clone, Copy, PartialEq, Eq, PartialOrd, Ord, Hash, Structural)]
pub enum MemoryOperation {
    /// No memory access during this cycle.
    NoOp,
    Read { address: u16 },
    Write { address: u16, value: u8 },
}

/// The data bus: it holds the byte the last read brought.
#[derive(Debug)]
pub struct Bus {
    data: u8,
}

impl Bus {
    pub closed spec fn spec_data(&self) -> u8 {
        self.data
    }

    /// A bus holding 0.
    pub fn new() -> (r: Self)
        ensures
            r.spec_data() == 0,
    {
        Self { data: 0 }
    }

    /// Carries out the memory operation of the cycle: a read brings the byte onto the bus, a
    /// write goes to the memory map.
    pub fn tick(&mut self, memory_operation: MemoryOperation, mmu: &mut MMU, ctx: &mut MmuContext)
        requires
            old(ctx).wf(),
        ensures
            final(ctx).wf(),
            match memory_operation {
                MemoryOperation::NoOp => final(self).spec_data() == old(self).spec_data() && *final(mmu) == *old(mmu)
                    && final(ctx).view() == old(ctx).view(),
                MemoryOperation::Read { address } => final(self).spec_data() == spec_read(old(mmu).spec_boot_rom_enabled(), old(ctx).view(), address)
                    && *final(mmu) == *old(mmu) && final(ctx).view() == old(ctx).view(),
                MemoryOperation::Write { address, value } => final(self).spec_data() == old(self).spec_data()
                    && final(ctx).view() == context_after_write(old(mmu).spec_boot_rom_enabled(), old(ctx).view(), address, value)
                    && final(mmu).spec_boot_rom_enabled() == boot_rom_after(old(mmu).spec_boot_rom_enabled(), address, value),
            },
    {
        match memory_operation {
            MemoryOperation::NoOp => {},
            MemoryOperation::Read { address } => self.data = mmu.read_byte(ctx, address),
            MemoryOperation::Write { address, value } => mmu.write_byte(ctx, address, value),
        }
    }

    /// The byte on the bus.
    pub fn data(&self) -> (r: u8)
        ensures
            r == self.spec_data(),
    {
        self.data
    }
}

} // verus!
