use oxide_motive::build_memory_maps;
use oxide_motive::knock::{is_knock_cylinder, recovery_due};
use oxide_motive::memory_maps::{get_memory_maps, MemoryRegion};
use oxide_motive::scheduler::{AngularScheduler, EventType, ScheduledEvent};
use oxide_motive::trigger_decoder::{SyncState, TriggerDecoder};

#[test]
fn validate_memory_regions() {
    // Simulated addresses from the linker script.
    let flash_start: u32 = 0x0800_8000;
    let flash_end = flash_start + 96 * 1024;
    let dtcm_start: u32 = 0x2000_0000;
    let dtcm_end = dtcm_start + 128 * 1024;
    let axi_sram_start: u32 = 0x2400_0000;
    let axi_sram_end = axi_sram_start + 512 * 1024;
    let sram4_start: u32 = 0x3800_0000;
    let sram4_end = sram4_start + 64 * 1024;

    println!("Simulated Device Memory Layout Validation:");
    println!("  DTCM:      0x{:08x} - 0x{:08x}", dtcm_start, dtcm_end);
    println!("  AXI_SRAM:  0x{:08x} - 0x{:08x}", axi_sram_start, axi_sram_end);
    println!("  SRAM4:     0x{:08x} - 0x{:08x}", sram4_start, sram4_end);

    assert!(flash_start < flash_end);
    assert!(dtcm_start < dtcm_end);
    assert!(axi_sram_start < axi_sram_end);
    assert!(sram4_start < sram4_end);
    assert_eq!(dtcm_start, 0x2000_0000);
    assert_eq!(axi_sram_start, 0x2400_0000);
    assert_eq!(sram4_start, 0x3800_0000);

    // The H7 layout the firmware links against agrees with these regions.
    let maps = get_memory_maps();
    let h7 = maps.iter().find(|(name, _)| *name == "stm32h750").unwrap().1;
    assert_eq!(h7.dtcm, Some(MemoryRegion { origin: dtcm_start, size: dtcm_end - dtcm_start }));
    assert_eq!(
        h7.axi_sram,
        Some(MemoryRegion { origin: axi_sram_start, size: axi_sram_end - axi_sram_start })
    );
}

#[test]
fn memory_maps_list_every_target_once() {
    let maps = get_memory_maps();
    let names: Vec<&str> = maps.iter().map(|(n, _)| *n).collect();
    assert_eq!(names, vec!["stm32h750", "stm32f407", "nrf9160", "lpc55s69", "renesas_ra8m1"]);
    let f4 = maps[1].1;
    assert_eq!(f4.flash, MemoryRegion { origin: 0x0800_0000, size: 1024 * 1024 });
    assert_eq!(f4.ram, MemoryRegion { origin: 0x2000_0000, size: 192 * 1024 });
    assert_eq!(f4.ccm, Some(MemoryRegion { origin: 0x1000_0000, size: 64 * 1024 }));
    assert_eq!(maps[4].1.flash.size, 2 * 1024 * 1024);
}

#[test]
fn flat_memory_maps_agree_with_region_maps() {
    let regions = get_memory_maps();
    let flat = build_memory_maps::get_memory_maps();
    assert_eq!(regions.len(), flat.len());
    for ((rn, r), (fname, f)) in regions.iter().zip(flat.iter()) {
        assert_eq!(rn, fname);
        assert_eq!(f.flash_origin, r.flash.origin);
        assert_eq!(f.flash_len, r.flash.size);
        assert_eq!(f.ram_origin, r.ram.origin);
        assert_eq!(f.ram_len, r.ram.size);
        assert_eq!(f.dtcm_origin, r.dtcm.map(|m| m.origin));
        assert_eq!(f.dtcm_len, r.dtcm.map(|m| m.size));
        assert_eq!(f.axi_origin, r.axi_sram.map(|m| m.origin));
        assert_eq!(f.ccm_len, r.ccm.map(|m| m.size));
        assert_eq!(f.itcm_origin, r.itcm.map(|m| m.origin));
    }
}

#[test]
fn test_angular_scheduler() {
    let mut scheduler = AngularScheduler::new();
    scheduler
        .schedule(ScheduledEvent { angle: 180, event_type: EventType::Ignition, channel: 0, duration: 100 })
        .unwrap();
    scheduler
        .schedule(ScheduledEvent { angle: 360, event_type: EventType::Injection, channel: 1, duration: 200 })
        .unwrap();

    assert_eq!(scheduler.pop_ready(100), None);
    let event = scheduler.pop_ready(200).unwrap();
    assert_eq!(event.angle, 180);
    assert_eq!(scheduler.pop_ready(400).unwrap().angle, 360);
    assert_eq!(scheduler.pop_ready(400), None);
}

#[test]
fn scheduler_releases_in_order_whatever_the_insertion_order() {
    let mut scheduler = AngularScheduler::new();
    for angle in [500u16, 20, 300, 20, 90] {
        scheduler
            .schedule(ScheduledEvent { angle, event_type: EventType::Injection, channel: 2, duration: 5 })
            .unwrap();
    }
    scheduler
        .schedule(ScheduledEvent { angle: 20, event_type: EventType::Ignition, channel: 7, duration: 1 })
        .unwrap();
    let mut released = Vec::new();
    while let Some(e) = scheduler.pop_ready(u16::MAX) {
        released.push((e.angle, e.event_type));
    }
    assert_eq!(
        released,
        vec![
            (20, EventType::Ignition),
            (20, EventType::Injection),
            (20, EventType::Injection),
            (90, EventType::Injection),
            (300, EventType::Injection),
            (500, EventType::Injection),
        ]
    );
}

#[test]
fn scheduler_refuses_the_65th_event() {
    let mut scheduler = AngularScheduler::new();
    for i in 0..64u16 {
        assert_eq!(
            scheduler.schedule(ScheduledEvent { angle: i, event_type: EventType::Ignition, channel: 0, duration: 0 }),
            Ok(())
        );
    }
    assert_eq!(
        scheduler.schedule(ScheduledEvent { angle: 0, event_type: EventType::Ignition, channel: 0, duration: 0 }),
        Err(())
    );
    assert_eq!(scheduler.pop_ready(0).unwrap().angle, 0);
    assert_eq!(
        scheduler.schedule(ScheduledEvent { angle: 1, event_type: EventType::Ignition, channel: 0, duration: 0 }),
        Ok(())
    );
}

#[test]
fn test_trigger_decoder() {
    let mut decoder = TriggerDecoder::new();
    let mut timestamp: u32 = 0;
    // A 60-2 wheel at 1200 RPM: 50 ms per revolution, 0.833 ms per tooth.
    for _ in 0..58 {
        timestamp += 833;
        assert!(decoder.pulse_is_defined(timestamp));
        decoder.handle_interrupt_pulse(timestamp);
    }
    timestamp += 833 * 3; // the missing teeth
    assert!(decoder.pulse_is_defined(timestamp));
    let (rpm, _, state) = decoder.handle_interrupt_pulse(timestamp);

    assert_eq!(state, SyncState::Synced);
    assert!(rpm > 1100 && rpm < 1300);
}

#[test]
fn trigger_decoder_reports_exact_speed_at_the_gap() {
    let mut decoder = TriggerDecoder::new();
    let mut timestamp: u32 = 0;
    for _ in 0..58 {
        timestamp += 833;
        let (rpm, angle, state) = decoder.handle_interrupt_pulse(timestamp);
        assert_eq!(rpm, 0);
        assert_eq!(angle, 0);
        assert_eq!(state, SyncState::Searching);
    }
    timestamp += 833 * 3;
    let (rpm, _, state) = decoder.handle_interrupt_pulse(timestamp);
    assert_eq!(state, SyncState::Synced);
    // One revolution: 58 teeth of 833 us and the 2499 us gap.
    assert_eq!(rpm as u32, 60_000_000 / (58 * 833 + 2499));
    // The next tooth starts a new revolution history of two intervals.
    timestamp += 833;
    let (rpm, _, state) = decoder.handle_interrupt_pulse(timestamp);
    assert_eq!(state, SyncState::Synced);
    assert_eq!(rpm as u32, 60_000_000 / (2499 + 833));
}

#[test]
fn trigger_decoder_remembers_only_64_intervals() {
    let mut decoder = TriggerDecoder::new();
    let mut timestamp: u32 = 0;
    for _ in 0..100 {
        timestamp += 1000;
        let (rpm, _, state) = decoder.handle_interrupt_pulse(timestamp);
        assert_eq!((rpm, state), (0, SyncState::Searching));
    }
    timestamp += 3000;
    let (rpm, _, state) = decoder.handle_interrupt_pulse(timestamp);
    assert_eq!(state, SyncState::Synced);
    assert_eq!(rpm as u32, 60_000_000 / (64 * 1000 + 3000));
}

#[test]
fn trigger_decoder_accepts_long_histories_across_timer_wrap() {
    let mut decoder = TriggerDecoder::new();
    // The first interval is counted from time zero, so it is nearly 2^32 us.
    let mut timestamp: u32 = u32::MAX - 1000;
    decoder.handle_interrupt_pulse(timestamp);
    for _ in 0..6 {
        timestamp = timestamp.wrapping_add(500);
        assert!(decoder.pulse_is_defined(timestamp));
        let (rpm, _, state) = decoder.handle_interrupt_pulse(timestamp);
        assert_eq!((rpm, state), (0, SyncState::Searching));
    }
}

#[test]
fn knock_recovery_after_half_a_second() {
    assert!(!recovery_due(500_000_000, 0));
    assert!(recovery_due(500_000_001, 0));
    assert!(!recovery_due(10, 10));
    assert!(is_knock_cylinder(3));
    assert!(!is_knock_cylinder(4));
}
