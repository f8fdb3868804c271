use n329x_core::extdev::sd::CurrentState;
use n329x_core::peripherals::aic::{AICConfig, InterruptNumber};
use n329x_core::peripherals::sys::{calculate_pll_fout, ClockSource, ClockSource1B};
use n329x_core::peripherals::tmr::TimerMode;
use n329x_core::peripherals::vpost::{FrameBufferFormat, ParallelRGBBusType};

#[test]
fn test_calculate_pll_fout() {
    assert_eq!(calculate_pll_fout(0x0000001e), 192_000_000);
}

#[test]
fn pll_fout_upll_value() {
    // The 192 MHz system PLL setting used during bring-up.
    assert_eq!(calculate_pll_fout(0x0000447e), 192_000_000);
}

fn set_level(aic: &mut AICConfig, source: u8, level: u32) {
    let word = (source / 4) as usize;
    let shift = (source % 4) * 8;
    aic.levels[word] = (aic.levels[word] & !(0xffu32 << shift)) | (level << shift);
}

#[test]
fn masked_source_never_latches() {
    // A masked source returns "no latch" regardless of trigger mode or levels.
    for mode in [0x00u32, 0x10, 0x20, 0x30] {
        for (incoming, latched) in [(false, false), (false, true), (true, false), (true, true)] {
            let mut aic = AICConfig::default();
            set_level(&mut aic, 14, mode | 0x3);
            aic.apply_enable_mask(InterruptNumber::TMR0.as_mask());
            assert!(!aic.check_interrupt(InterruptNumber::TMR0, incoming, latched));
            assert_eq!(aic.status_map, 0);
            assert_eq!(aic.status, [0u32; 8]);
        }
    }
}

#[test]
fn trigger_modes_fire_as_documented() {
    // low-level, high-level, falling-edge, rising-edge
    let cases = [
        (0x00u32, false, false, true),
        (0x00, true, false, false),
        (0x10, true, false, true),
        (0x10, false, false, false),
        (0x20, false, true, true),
        (0x20, false, false, false),
        (0x20, true, false, false),
        (0x30, true, false, true),
        (0x30, true, true, false),
        (0x30, false, true, false),
    ];
    for (mode, incoming, latched, fires) in cases {
        let mut aic = AICConfig::default();
        set_level(&mut aic, 14, mode | 0x3);
        let fired = aic.check_interrupt(InterruptNumber::TMR0, incoming, latched);
        assert_eq!(fired, fires);
    }
}

#[test]
fn summary_tracks_pending_after_mutations() {
    let mut aic = AICConfig::default();
    set_level(&mut aic, 14, 0x12);  // priority 2, high-level
    set_level(&mut aic, 17, 0x15);  // priority 5, high-level
    assert!(aic.check_interrupt(InterruptNumber::TMR0, true, false));
    assert!(aic.summary_ok());
    assert_eq!(aic.status_map, 1 << 2);
    assert_eq!(aic.status[2], 1 << 14);
    assert!(aic.check_interrupt(InterruptNumber::SIC, true, false));
    assert!(aic.summary_ok());
    assert_eq!(aic.status_map, (1 << 2) | (1 << 5));

    // mask-apply operations re-derive the summary from scratch
    aic.apply_status_clear_mask(1 << 14);
    assert!(aic.summary_ok());
    assert_eq!(aic.status_map, 1 << 5);
    aic.apply_status_set_mask(1 << 14);
    assert!(aic.summary_ok());
    assert_eq!(aic.status_map, (1 << 2) | (1 << 5));

    // popping keeps the summary in lock-step too
    let (prio, num) = aic.pop_next_interrupt();
    assert_eq!((prio, num), (2, 14));
    assert!(aic.summary_ok());
    assert_eq!(aic.status_map, 1 << 5);
}

#[test]
fn joint_status_round_trips() {
    let mut aic = AICConfig::default();
    set_level(&mut aic, 3, 0x11);  // priority 1
    set_level(&mut aic, 9, 0x14);  // priority 4
    set_level(&mut aic, 30, 0x17);  // priority 7
    assert!(aic.check_interrupt(InterruptNumber::EXTINT1, true, false));
    assert!(aic.check_interrupt(InterruptNumber::VIDEOIN, true, false));
    assert!(aic.check_interrupt(InterruptNumber::I2C, true, false));
    let before_status = aic.status;
    let before_map = aic.status_map;
    let joint = aic.get_joint_status();
    assert_eq!(joint, (1 << 3) | (1 << 9) | (1 << 30));
    aic.set_joint_status(joint);
    assert_eq!(aic.status, before_status);
    assert_eq!(aic.status_map, before_map);
}

#[test]
fn unflatten_moves_bits_to_new_priority() {
    // A flattened write is re-sorted through the current priority table.
    let mut aic = AICConfig::default();
    set_level(&mut aic, 5, 0x13);  // priority 3
    aic.set_joint_status(1 << 5);
    assert_eq!(aic.status[3], 1 << 5);
    assert_eq!(aic.status_map, 1 << 3);
    // Retarget the source to priority 6 and unflatten again.
    set_level(&mut aic, 5, 0x16);
    let joint = aic.get_joint_status();
    aic.set_joint_status(joint);
    assert_eq!(aic.status[3], 0);
    assert_eq!(aic.status[6], 1 << 5);
    assert_eq!(aic.status_map, 1 << 6);
}

#[test]
fn arbitration_picks_lowest_priority_then_lowest_source() {
    let mut aic = AICConfig::default();
    set_level(&mut aic, 20, 0x11);  // priority 1
    set_level(&mut aic, 8, 0x11);  // priority 1
    set_level(&mut aic, 2, 0x14);  // priority 4
    assert!(aic.check_interrupt(InterruptNumber::SPIMS0, true, false));
    assert!(aic.check_interrupt(InterruptNumber::VPOST, true, false));
    assert!(aic.check_interrupt(InterruptNumber::EXTINT0, true, false));
    assert_eq!(aic.next_interrupt(), (1, 8));
    let popped = aic.pop_next_interrupt();
    assert_eq!(popped, (1, 8));
    assert_eq!(aic.current_interrupt, (1, 8));
    assert_eq!(aic.next_interrupt(), (1, 20));
}

#[test]
fn source_numbering_matches_offsets() {
    assert_eq!(InterruptNumber::WDT.number(), 1);
    assert_eq!(InterruptNumber::PWR.number(), 31);
    assert_eq!(InterruptNumber::TMR0.as_offset_shift(), (3, 16));
    assert_eq!(InterruptNumber::SIC.as_mask(), 1 << 17);
}

#[test]
fn register_field_encodings_round_trip() {
    for v in 0u32..16 {
        assert_eq!(CurrentState::from_encoding(v).encoding(), v);
    }
    let sources = [ClockSource::XIN, ClockSource::X32K, ClockSource::APLL, ClockSource::UPLL];
    for (v, s) in sources.iter().enumerate() {
        assert_eq!(ClockSource::from_encoding(v as u32), *s);
    }
    assert_eq!(ClockSource1B::from_encoding(0), ClockSource1B::XIN);
    assert_eq!(ClockSource1B::from_encoding(1), ClockSource1B::X32K);
    let modes = [
        TimerMode::OneShot,
        TimerMode::Periodic,
        TimerMode::Toggle,
        TimerMode::Uninterrupted,
    ];
    for (v, m) in modes.iter().enumerate() {
        assert_eq!(TimerMode::from_encoding(v as u32), *m);
    }
    for v in 0u32..8 {
        let _ = FrameBufferFormat::from_encoding(v);
    }
    assert_eq!(FrameBufferFormat::from_encoding(1), FrameBufferFormat::RGB565);
    assert_eq!(ParallelRGBBusType::from_encoding(2), ParallelRGBBusType::RGB888);
}
