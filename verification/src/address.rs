//! The console's canonical address window and its translation to host addresses.

use vstd::prelude::*;

verus! {

/// First address of the canonical window.
pub const GC_RAM_START: u32 = 0x8000_0000;

/// Last address of the canonical window (inclusive).
pub const GC_RAM_END: u32 = 0x8180_0000;

/// Size of the console's RAM allocation unit: 32 MiB.
pub const GC_RAM_SIZE: usize = 0x200_0000;

/// An emulated address is valid when it lies inside the canonical window.
pub open spec fn valid_address(addr: u32) -> bool {
    GC_RAM_START <= addr <= GC_RAM_END
}

/// Offset of an emulated address from the start of the emulated RAM.
pub open spec fn ram_offset(addr: u32) -> int {
    addr as int % 0x8000_0000
}

/// Host address that backs `addr` in a region mapped at `base`.
pub open spec fn host_address(base: int, addr: u32) -> int {
    base + ram_offset(addr)
}

/// Offset of an address of the canonical window from the start of the
/// emulated RAM: the address modulo `0x8000_0000`.
pub fn offset_of(addr: u32) -> (offset: u32)
    requires
        valid_address(addr),
    ensures
        offset == ram_offset(addr),
        offset == addr - GC_RAM_START,
        offset <= GC_RAM_END - GC_RAM_START,
{
    addr % GC_RAM_START
}

/// Tells whether `addr` lies inside the canonical window.
pub fn is_valid_address(addr: u32) -> (ok: bool)
    ensures
        ok == valid_address(addr),
{
    addr >= GC_RAM_START && addr <= GC_RAM_END
}

} // verus!
