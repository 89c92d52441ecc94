//! The same target layouts in the flat form the linker-script generator
//! reads: origin and length of each memory, absent memories as `None`.

use crate::memory_maps::{memory_map_entries, MemoryLayout as RegionLayout, MemoryRegion};
use vstd::prelude::*;

verus! {

/// The memories of one microcontroller, one field per origin and length.
#[derive(Debug, Clone, Copy, PartialEq, Eq, Structural)]
pub struct MemoryLayout {
    pub flash_origin: u32,
    pub flash_len: u32,
    pub ram_origin: u32,
    pub ram_len: u32,
    pub itcm_origin: Option<u32>,
    pub itcm_len: Option<u32>,
    pub dtcm_origin: Option<u32>,
    pub dtcm_len: Option<u32>,
    pub axi_origin: Option<u32>,
    pub axi_len: Option<u32>,
    pub ccm_origin: Option<u32>,
    pub ccm_len: Option<u32>,
}

/// The origin of an optional region.
pub open spec fn origin_of(r: Option<MemoryRegion>) -> Option<u32> {
    match r {
        Some(r) => Some(r.origin),
        None => None,
    }
}

/// The size of an optional region.
pub open spec fn size_of(r: Option<MemoryRegion>) -> Option<u32> {
    match r {
        Some(r) => Some(r.size),
        None => None,
    }
}

/// The flat form of a region layout.
pub open spec fn flatten(l: RegionLayout) -> MemoryLayout {
    MemoryLayout {
        flash_origin: l.flash.origin,
        flash_len: l.flash.size,
        ram_origin: l.ram.origin,
        ram_len: l.ram.size,
        itcm_origin: origin_of(l.itcm),
        itcm_len: size_of(l.itcm),
        dtcm_origin: origin_of(l.dtcm),
        dtcm_len: size_of(l.dtcm),
        axi_origin: origin_of(l.axi_sram),
        axi_len: size_of(l.axi_sram),
        ccm_origin: origin_of(l.ccm),
        ccm_len: size_of(l.ccm),
    }
}

/// The flat layout with only flash and RAM.
pub open spec fn flat_plain(flash_origin: u32, flash_len: u32, ram_origin: u32, ram_len: u32) -> MemoryLayout {
    MemoryLayout {
        flash_origin,
        flash_len,
        ram_origin,
        ram_len,
        itcm_origin: None,
        itcm_len: None,
        dtcm_origin: None,
        dtcm_len: None,
        axi_origin: None,
        axi_len: None,
        ccm_origin: None,
        ccm_len: None,
    }
}

/// The flat layouts of the supported targets, by name.
pub open spec fn flat_memory_map_entries() -> Seq<(Seq<char>, MemoryLayout)> {
    seq![
        ("stm32h750"@, MemoryLayout {
            dtcm_origin: Some(0x20000000),
            dtcm_len: Some(0x20000),
            axi_origin: Some(0x24000000),
            axi_len: Some(0x80000),
            ..flat_plain(0x08000000, 0x20000, 0x24000000, 0x80000)
        }),
        ("stm32f407"@, MemoryLayout {
            ccm_origin: Some(0x10000000),
            ccm_len: Some(0x10000),
            ..flat_plain(0x08000000, 0x100000, 0x20000000, 0x30000)
        }),
        ("nrf9160"@, flat_plain(0x00000000, 0x100000, 0x20000000, 0x40000)),
        ("lpc55s69"@, flat_plain(0x00000000, 0xA0000, 0x20000000, 0x50000)),
        ("renesas_ra8m1"@, flat_plain(0x00000000, 0x200000, 0x20000000, 0x100000)),
    ]
}

fn exec_flat_plain(flash_origin: u32, flash_len: u32, ram_origin: u32, ram_len: u32) -> (l: MemoryLayout)
    ensures
        l == flat_plain(flash_origin, flash_len, ram_origin, ram_len),
{
    MemoryLayout {
        flash_origin,
        flash_len,
        ram_origin,
        ram_len,
        itcm_origin: None,
        itcm_len: None,
        dtcm_origin: None,
        dtcm_len: None,
        axi_origin: None,
        axi_len: None,
        ccm_origin: None,
        ccm_len: None,
    }
}

/// The flat memory layouts of the supported targets, keyed by target name,
/// in the order stm32h750, stm32f407, nrf9160, lpc55s69, renesas_ra8m1.
pub fn get_memory_maps() -> (maps: Vec<(&'static str, MemoryLayout)>)
    ensures
        maps@.len() == flat_memory_map_entries().len(),
        forall|i: int|
            0 <= i < maps@.len() ==> (#[trigger] maps@[i]).0@ == flat_memory_map_entries()[i].0
                && maps@[i].1 == flat_memory_map_entries()[i].1,
{
    let mut maps: Vec<(&'static str, MemoryLayout)> = Vec::new();
    maps.push(
        (
            "stm32h750",
            MemoryLayout {
                flash_origin: 0x08000000,
                flash_len: 128 * 1024,
                ram_origin: 0x24000000,
                ram_len: 512 * 1024,
                itcm_origin: None,
                itcm_len: None,
                dtcm_origin: Some(0x20000000),
                dtcm_len: Some(128 * 1024),
                axi_origin: Some(0x24000000),
                axi_len: Some(512 * 1024),
                ccm_origin: None,
                ccm_len: None,
            },
        ),
    );
    maps.push(
        (
            "stm32f407",
            MemoryLayout {
                flash_origin: 0x08000000,
                flash_len: 1024 * 1024,
                ram_origin: 0x20000000,
                ram_len: 192 * 1024,
                itcm_origin: None,
                itcm_len: None,
                dtcm_origin: None,
                dtcm_len: None,
                axi_origin: None,
                axi_len: None,
                ccm_origin: Some(0x10000000),
                ccm_len: Some(64 * 1024),
            },
        ),
    );
    maps.push(("nrf9160", exec_flat_plain(0x00000000, 1024 * 1024, 0x20000000, 256 * 1024)));
    maps.push(("lpc55s69", exec_flat_plain(0x00000000, 640 * 1024, 0x20000000, 320 * 1024)));
    maps.push(("renesas_ra8m1", exec_flat_plain(0x00000000, 2 * 1024 * 1024, 0x20000000, 1024 * 1024)));
    maps
}

/// The flat layouts the linker-script generator reads describe the same
/// targets, in the same order, with the same memories as the region
/// layouts the firmware uses.
pub proof fn lemma_flat_layouts_agree(i: int)
    requires
        0 <= i < flat_memory_map_entries().len(),
    ensures
        flat_memory_map_entries().len() == memory_map_entries().len(),
        flat_memory_map_entries()[i].0 == memory_map_entries()[i].0,
        flat_memory_map_entries()[i].1 == flatten(memory_map_entries()[i].1),
{
}

} // verus!
