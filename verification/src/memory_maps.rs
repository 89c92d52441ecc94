//! Flash and RAM layouts of the supported microcontrollers, as regions.

use vstd::prelude::*;

verus! {

/// A contiguous address range.
#[derive(Debug, Clone, Copy, PartialEq, Eq, Structural)]
pub struct MemoryRegion {
    pub origin: u32,
    pub size: u32,
}

/// The memories of one microcontroller.
#[derive(Debug, Clone, Copy, PartialEq, Eq, Structural)]
pub struct MemoryLayout {
    pub flash: MemoryRegion,
    pub ram: MemoryRegion,
    pub itcm: Option<MemoryRegion>,
    pub dtcm: Option<MemoryRegion>,
    pub axi_sram: Option<MemoryRegion>,
    pub ccm: Option<MemoryRegion>,
}

/// A region given by origin and size.
pub open spec fn region(origin: u32, size: u32) -> MemoryRegion {
    MemoryRegion { origin, size }
}

/// STM32H750: 128 KiB flash, AXI SRAM as main RAM, DTCM.
pub open spec fn stm32h750_layout() -> MemoryLayout {
    MemoryLayout {
        flash: region(0x08000000, 0x20000),
        ram: region(0x24000000, 0x80000),
        itcm: None,
        dtcm: Some(region(0x20000000, 0x20000)),
        axi_sram: Some(region(0x24000000, 0x80000)),
        ccm: None,
    }
}

/// STM32F407: 1 MiB flash, 192 KiB RAM, 64 KiB CCM.
pub open spec fn stm32f407_layout() -> MemoryLayout {
    MemoryLayout {
        flash: region(0x08000000, 0x100000),
        ram: region(0x20000000, 0x30000),
        itcm: None,
        dtcm: None,
        axi_sram: None,
        ccm: Some(region(0x10000000, 0x10000)),
    }
}

/// A layout with only flash and RAM.
pub open spec fn plain_layout(flash_size: u32, ram_size: u32) -> MemoryLayout {
    MemoryLayout {
        flash: region(0x00000000, flash_size),
        ram: region(0x20000000, ram_size),
        itcm: None,
        dtcm: None,
        axi_sram: None,
        ccm: None,
    }
}

/// nRF9160: 1 MiB flash, 256 KiB RAM.
pub open spec fn nrf9160_layout() -> MemoryLayout {
    plain_layout(0x100000, 0x40000)
}

/// LPC55S69: 640 KiB flash, 320 KiB RAM.
pub open spec fn lpc55s69_layout() -> MemoryLayout {
    plain_layout(0xA0000, 0x50000)
}

/// Renesas RA8M1: 2 MiB flash, 1 MiB RAM.
pub open spec fn renesas_ra8m1_layout() -> MemoryLayout {
    plain_layout(0x200000, 0x100000)
}

/// The layouts of the supported targets, by name.
pub open spec fn memory_map_entries() -> Seq<(Seq<char>, MemoryLayout)> {
    seq![
        ("stm32h750"@, stm32h750_layout()),
        ("stm32f407"@, stm32f407_layout()),
        ("nrf9160"@, nrf9160_layout()),
        ("lpc55s69"@, lpc55s69_layout()),
        ("renesas_ra8m1"@, renesas_ra8m1_layout()),
    ]
}

/// The region ends within the 32-bit address space.
pub open spec fn region_fits(r: MemoryRegion) -> bool {
    r.origin as int + r.size as int <= 0x1_0000_0000
}

/// Two regions share no address.
pub open spec fn disjoint(a: MemoryRegion, b: MemoryRegion) -> bool {
    a.origin as int + a.size as int <= b.origin as int || b.origin as int + b.size as int <= a.origin as int
}

/// An optional region is disjoint from `r`.
pub open spec fn disjoint_opt(a: Option<MemoryRegion>, r: MemoryRegion) -> bool {
    match a {
        Some(a) => disjoint(a, r) && region_fits(a),
        None => true,
    }
}

/// A sound layout: every region fits the address space, flash is disjoint
/// from RAM and from every tightly-coupled or auxiliary RAM, and the
/// tightly-coupled and core-coupled RAMs are disjoint from main RAM.
pub open spec fn layout_sound(l: MemoryLayout) -> bool {
    &&& region_fits(l.flash)
    &&& region_fits(l.ram)
    &&& disjoint(l.flash, l.ram)
    &&& disjoint_opt(l.itcm, l.flash)
    &&& disjoint_opt(l.dtcm, l.flash)
    &&& disjoint_opt(l.axi_sram, l.flash)
    &&& disjoint_opt(l.ccm, l.flash)
    &&& disjoint_opt(l.itcm, l.ram)
    &&& disjoint_opt(l.dtcm, l.ram)
    &&& disjoint_opt(l.ccm, l.ram)
}

fn exec_region(origin: u32, size: u32) -> (r: MemoryRegion)
    ensures
        r == region(origin, size),
{
    MemoryRegion { origin, size }
}

fn exec_plain_layout(flash_size: u32, ram_size: u32) -> (l: MemoryLayout)
    ensures
        l == plain_layout(flash_size, ram_size),
{
    MemoryLayout {
        flash: exec_region(0x00000000, flash_size),
        ram: exec_region(0x20000000, ram_size),
        itcm: None,
        dtcm: None,
        axi_sram: None,
        ccm: None,
    }
}

/// The memory layouts of the supported targets, keyed by target name, in
/// the order stm32h750, stm32f407, nrf9160, lpc55s69, renesas_ra8m1.
pub fn get_memory_maps() -> (maps: Vec<(&'static str, MemoryLayout)>)
    ensures
        maps@.len() == memory_map_entries().len(),
        forall|i: int|
            0 <= i < maps@.len() ==> (#[trigger] maps@[i]).0@ == memory_map_entries()[i].0
                && maps@[i].1 == memory_map_entries()[i].1,
{
    let mut maps: Vec<(&'static str, MemoryLayout)> = Vec::new();
    maps.push(
        (
            "stm32h750",
            MemoryLayout {
                flash: exec_region(0x08000000, 128 * 1024),
                ram: exec_region(0x24000000, 512 * 1024),
                itcm: None,
                dtcm: Some(exec_region(0x20000000, 128 * 1024)),
                axi_sram: Some(exec_region(0x24000000, 512 * 1024)),
                ccm: None,
            },
        ),
    );
    maps.push(
        (
            "stm32f407",
            MemoryLayout {
                flash: exec_region(0x08000000, 1024 * 1024),
                ram: exec_region(0x20000000, 192 * 1024),
                itcm: None,
                dtcm: None,
                axi_sram: None,
                ccm: Some(exec_region(0x10000000, 64 * 1024)),
            },
        ),
    );
    maps.push(("nrf9160", exec_plain_layout(1024 * 1024, 256 * 1024)));
    maps.push(("lpc55s69", exec_plain_layout(640 * 1024, 320 * 1024)));
    maps.push(("renesas_ra8m1", exec_plain_layout(2 * 1024 * 1024, 1024 * 1024)));
    maps
}

/// Every supported layout is sound.
pub proof fn lemma_layouts_sound(i: int)
    requires
        0 <= i < memory_map_entries().len(),
    ensures
        layout_sound(memory_map_entries()[i].1),
{
}

/// The target names are pairwise distinct, so the list is a map.
pub proof fn lemma_target_names_distinct(i: int, j: int)
    requires
        0 <= i < memory_map_entries().len(),
        0 <= j < memory_map_entries().len(),
        i != j,
    ensures
        memory_map_entries()[i].0 != memory_map_entries()[j].0,
{
    reveal_strlit("stm32h750");
    reveal_strlit("stm32f407");
    reveal_strlit("nrf9160");
    reveal_strlit("lpc55s69");
    reveal_strlit("renesas_ra8m1");
    let a = memory_map_entries()[i].0;
    let b = memory_map_entries()[j].0;
    if a.len() == b.len() {
        if i == 0 || j == 0 {
            assert(a[6] != b[6]);
        } else {
            assert(a[0] != b[0] || a[1] != b[1]);
        }
    }
}

} // verus!
