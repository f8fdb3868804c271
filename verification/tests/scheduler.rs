use n329x_core::device::{
    check_stop_condition, request_quit, request_stop, Device, ExtraState, HostAction, QuitDetail,
    StopReason, StopReasonKind,
};
use n329x_core::exception::{exception_effects, ExceptionType};
use n329x_core::extdev::input::{Input, KeyPress, KeyType};
use n329x_core::extdev::sd::{CurrentState, RecvAction};
use n329x_core::peripherals::aic;
use n329x_core::peripherals::sic;
use n329x_core::{parse_boot_header, read_le_u32, BootHeader, RuntimeError};

fn ready_state() -> ExtraState {
    let mut state = ExtraState::default();
    state.clk.tick_config.vsync = 4;
    state.clk.tick_config.apb = 1;
    state.clk.ahbclk.bits = (1 << 0) | (1 << 21);  // CPU and storage clocks on
    state
}

#[test]
fn tick_and_frame_step_service_in_one_pass() {
    let mut state = ready_state();
    let mut device = Device::default();
    request_stop(&mut state, StopReasonKind::Tick);
    request_stop(&mut state, StopReasonKind::FrameStep);
    assert!(!state.stop_reason.is_empty());

    let outcome = device.tick(&mut state);
    assert!(outcome.proceed);
    // Frame presentation comes first in the fixed order; the idle devices
    // generate nothing, so the set is empty before the CPU resumes.
    assert_eq!(outcome.actions, vec![HostAction::RenderFrame]);
    assert!(outcome.dma.is_none());
    assert!(state.stop_reason.is_empty());
}

#[test]
fn dispatch_order_is_frame_then_svc_then_tick() {
    let mut state = ready_state();
    let mut device = Device::default();
    // Make an interrupt pending so the tick phase raises an exception.
    state.aic.levels[3] = 0x12121212;  // priority 2, high-level for sources 12..=15
    aic::post_interrupt(&mut state, aic::InterruptNumber::TMR0, true, false);
    assert!(state.stop_reason.tick);
    request_stop(&mut state, StopReasonKind::FrameStep);
    request_stop(&mut state, StopReasonKind::Svc);

    let outcome = device.tick(&mut state);
    assert!(outcome.proceed);
    assert_eq!(
        outcome.actions,
        vec![
            HostAction::RenderFrame,
            HostAction::RaiseException(ExceptionType::SupervisorCall),
            HostAction::RaiseException(ExceptionType::IRQ),
        ]
    );
    assert!(state.stop_reason.is_empty());
    // The pending interrupt was popped and recorded as in service.
    assert_eq!(state.aic.current_interrupt, (2, 14));
    assert_eq!(state.aic.status[2], 0);
}

#[test]
fn priority_zero_uses_fast_interrupt() {
    let mut state = ready_state();
    let mut device = Device::default();
    state.aic.levels[3] = 0x10101010;  // priority 0, high-level
    aic::post_interrupt(&mut state, aic::InterruptNumber::TMR0, true, false);
    let outcome = device.tick(&mut state);
    assert_eq!(outcome.actions, vec![HostAction::RaiseException(ExceptionType::FIQ)]);
}

#[test]
fn quit_wins_over_everything() {
    let mut state = ready_state();
    let mut device = Device::default();
    request_stop(&mut state, StopReasonKind::FrameStep);
    request_quit(&mut state, QuitDetail::UserSpecified);
    // A later, lower-priority quit does not replace the first.
    request_quit(&mut state, QuitDetail::CPUHalt);
    assert_eq!(state.stop_reason.quit, Some(QuitDetail::UserSpecified));

    let outcome = device.tick(&mut state);
    assert!(!outcome.proceed);
    assert_eq!(outcome.quit, Some(QuitDetail::UserSpecified));
    assert!(outcome.actions.is_empty());
    assert!(state.stop_reason.is_empty());
}

#[test]
fn gated_cpu_clock_quits_the_session() {
    let mut state = ready_state();
    state.clk.ahbclk.bits = 1 << 21;  // storage on, CPU gate off
    let mut device = Device::default();
    request_stop(&mut state, StopReasonKind::Tick);
    let outcome = device.tick(&mut state);
    assert!(!outcome.proceed);
    assert_eq!(outcome.quit, Some(QuitDetail::CPUHalt));
    assert_eq!(state.stop_reason.quit, Some(QuitDetail::CPUHalt));
}

#[test]
fn frame_step_predicate_fires_on_vsync_boundary() {
    let mut state = ready_state();
    state.steps = 2;
    assert!(!check_stop_condition(&mut state));  // step 3
    assert_eq!(state.stop_reason, StopReason::default());
    assert!(check_stop_condition(&mut state));  // step 4: vsync boundary
    assert!(state.stop_reason.frame_step);
    assert!(!state.stop_reason.tick);
}

#[test]
fn timer_compare_posts_interrupt_and_requests_tick() {
    let mut state = ready_state();
    // Program the first timer's interrupt line: priority 2, high-level.
    state.aic.levels[3] = 0x12 << 16;
    // Enable channel 0, compare at 2, prescaler 0 (one count per APB tick).
    state.tmr.channels[0].control.bits = 1 << 30;
    state.tmr.channels[0].compare = 2;
    state.steps = 0;
    assert!(!check_stop_condition(&mut state));  // count reaches 1, no match
    assert_eq!(state.tmr.channels[0].count, 1);
    assert!(check_stop_condition(&mut state));  // count reaches the compare
    assert_eq!(state.tmr.status & 0x1, 0x1);
    assert!(state.stop_reason.tick);
    // One-shot mode disarms the channel.
    assert!(!state.tmr.channels[0].control.get_enable());
    // The interrupt is latched at the source's table priority.
    assert_eq!(state.aic.status[2] & (1 << 14), 1 << 14);
}

#[test]
fn exception_effects_compute_documented_values() {
    let fx = exception_effects(ExceptionType::IRQ, 0x1000, 0x60000010);
    assert_eq!(fx.vector_address, 0xff000018);
    assert_eq!(fx.link_register, 0x1004);
    assert_eq!(fx.new_cpsr, 0x60000012 | 0x80);
    assert_eq!(fx.saved_cpsr, 0x60000010);

    let fx = exception_effects(ExceptionType::DataAbort, 0x2000, 0x10);
    assert_eq!(fx.link_register, 0x2008);
    assert_eq!(fx.vector_address, 0xff000010);

    assert_eq!(ExceptionType::Reset.to_vector_address(), 0xff000000);
    assert_eq!(ExceptionType::FIQ.to_vector_address(), 0xff00001c);
}

#[test]
fn svc_interrupt_requests_stop() {
    let mut state = ready_state();
    n329x_core::exception::intr(&mut state, 2);
    assert!(state.stop_reason.svc);
    let mut state2 = ready_state();
    n329x_core::exception::intr(&mut state2, 7);
    assert_eq!(state2.stop_reason.quit, Some(QuitDetail::CPUException));
}

#[test]
fn input_queues_deduplicate_touch() {
    let mut input = Input::default();
    input.touch_move((10, 20));
    input.touch_move((10, 20));  // duplicate dropped
    input.touch_move((11, 20));
    input.touch_release();
    input.touch_move((11, 20));  // after a release the same point queues again
    assert_eq!(input.check_touch(), Some(Some((10, 20))));
    assert_eq!(input.check_touch(), Some(Some((11, 20))));
    assert_eq!(input.check_touch(), Some(None));
    assert_eq!(input.check_touch(), Some(Some((11, 20))));
    assert_eq!(input.check_touch(), None);

    input.key_press(KeyType::Home);
    input.key_release(KeyType::Home);
    assert_eq!(input.check_key(), Some(KeyPress::Press(KeyType::Home)));
    assert_eq!(input.check_key(), Some(KeyPress::Release(KeyType::Home)));
    assert_eq!(input.check_key(), None);
}

#[test]
fn boot_header_parses_and_rejects() {
    let mut header = [0u8; 32];
    header[0..4].copy_from_slice(&0x57425aa5u32.to_le_bytes());
    header[4..8].copy_from_slice(&0x8000u32.to_le_bytes());
    header[8..12].copy_from_slice(&0x1234u32.to_le_bytes());
    header[12..16].copy_from_slice(&0xa55a4257u32.to_le_bytes());
    assert_eq!(
        parse_boot_header(&header),
        Ok(BootHeader { load_addr: 0x8000, load_size: 0x1234 })
    );

    header[0] = 0;
    assert_eq!(parse_boot_header(&header), Err(RuntimeError::LoaderInvalidMagic));
    assert_eq!(parse_boot_header(&header[..8]), Err(RuntimeError::LoaderParserFailed));

    assert_eq!(read_le_u32(&[0x78, 0x56, 0x34, 0x12]), Ok(0x12345678));
    assert_eq!(read_le_u32(&[1, 2, 3]), Err(RuntimeError::LoaderParserFailed));
}

#[test]
fn sic_command_packs_r1_response() {
    let mut state = ready_state();
    let mut device = Device::default();
    let mut img = vec![0u8; 1024 * 1024];
    for (i, b) in img.iter_mut().enumerate() {
        *b = (i % 17) as u8;
    }
    device.internal_sd.mount(img).unwrap();

    // Stage CMD0 with the command-enable bit on port 0.
    state.sic.sd_control.bits = 1 | (0 << 8);
    state.sic.sd_arg = 0;
    let dma = sic::tick(&mut state, &mut device);
    assert!(dma.is_none());
    // Single-shot: the enable bit dropped, the checksum-ok flag rose.
    assert_eq!(state.sic.sd_control.bits & 1, 0);
    assert_eq!(state.sic.sd_irq.bits & (1 << 2), 1 << 2);
    // R1 packing: command number in the top byte, status split around it.
    assert_eq!(state.sic.sd_response, (0, 0));
    assert_eq!(device.internal_sd.card_status.get_current_state(), CurrentState::Idle);
}

#[test]
fn sic_timeout_on_unmapped_card() {
    let mut state = ready_state();
    let mut device = Device::default();
    // Port 0 card is unmounted: the command times out.
    state.aic.levels[4] = 0x12 << 8;  // the controller's line: priority 2, high-level
    state.sic.sd_control.bits = 1 | (18 << 8) | (1 << 2);
    state.sic.sd_irq_enable.bits = 1 << 12;  // command-timeout interrupt enabled
    let dma = sic::tick(&mut state, &mut device);
    assert!(dma.is_none());
    assert_eq!(state.sic.sd_irq.bits & (1 << 12), 1 << 12);  // timeout_cmd
    assert_eq!(state.sic.sd_irq.bits & (1 << 13), 1 << 13);  // timeout_dat
    assert_eq!(state.sic.sd_control.bits & (1 << 2), 0);  // data-in cancelled
    // The controller's interrupt line was posted and a tick requested.
    assert!(state.stop_reason.tick);
    assert_ne!(state.aic.status_map, 0);
}

#[test]
fn sic_block_read_stages_dma() {
    let mut state = ready_state();
    let mut device = Device::default();
    let mut img = vec![0u8; 1024 * 1024];
    for (i, b) in img.iter_mut().enumerate() {
        *b = (i % 13) as u8;
    }
    device.internal_sd.mount(img.clone()).unwrap();
    // Bring the card to Transfer through the protocol.
    let _ = device.internal_sd.make_request(0, 0);
    let _ = device.internal_sd.make_request(55, 0);
    let _ = device.internal_sd.make_request(41, 0x00ff8000);
    let _ = device.internal_sd.make_request(2, 0);
    let _ = device.internal_sd.make_request(3, 0);
    let _ = device.internal_sd.make_request(7, 1 << 16);

    // Stage CMD18 (sector 4) with command and data-in enables, 512-byte unit.
    state.sic.sd_io_size = 512;
    state.sic.sd_arg = 4;
    state.sic.dma_dest_addr = 0x80001000;
    state.sic.sd_control.bits = 1 | (1 << 2) | (18 << 8);
    let dma = sic::tick(&mut state, &mut device).expect("a transfer must be staged");
    assert_eq!(dma.dest, 0x80001000);
    assert_eq!(&dma.bytes[..], &img[2048..2560]);
    assert_eq!(
        device.internal_sd.recv_action,
        RecvAction::FTLRead { sector_index: 5 }
    );
    // Both one-shot enables dropped.
    assert_eq!(state.sic.sd_control.bits & 0b101, 0);

    // The embedding program wrote the bytes successfully.
    state.aic.levels[4] = 0x12 << 8;  // the controller's line: priority 2, high-level
    state.sic.sd_irq_enable.bits = 1;  // block-transfer-done interrupt
    sic::dma_complete(&mut state, dma.bytes.len(), true);
    assert_eq!(state.sic.dma_count, 512);
    assert_eq!(state.sic.dma_dest_addr, 0x80001200);
    assert_eq!(state.sic.sd_irq.bits & 0b1001, 0b1001);  // done + data CRC ok
    assert!(state.stop_reason.tick);
}

#[test]
fn dma_failure_flags_target_abort() {
    let mut state = ready_state();
    state.aic.levels[4] = 0x12 << 8;  // the controller's line: priority 2, high-level
    state.sic.dma_irq_enable.bits = 1;
    sic::dma_complete(&mut state, 512, false);
    assert_eq!(state.sic.dma_irq_status.bits & 1, 1);
    assert_eq!(state.sic.sd_irq.bits & (1 << 3), 0);
    assert_eq!(state.sic.dma_count, 0);
    assert!(state.stop_reason.tick);
}

#[test]
fn sic_reset_suppresses_command() {
    let mut state = ready_state();
    let mut device = Device::default();
    device.internal_sd.mount(vec![0u8; 1024 * 1024]).unwrap();
    // Both a software reset and a command are staged: only the reset runs.
    state.sic.sd_control.bits = 1 | (1 << 14);
    let dma = sic::tick(&mut state, &mut device);
    assert!(dma.is_none());
    assert_eq!(state.sic.sd_control.bits & (1 << 14), 0);  // reset acknowledged
    assert_eq!(state.sic.sd_control.bits & 1, 1);  // command still staged
    assert_eq!(state.sic.sd_irq.bits & (1 << 7), 1 << 7);  // card available
}

#[test]
fn aic_register_interface() {
    let mut state = ready_state();
    // Program source 14 to priority 2, high-level trigger.
    aic::write(&mut state, 0xc, 4, 0x00120000);
    assert_eq!(aic::read(&mut state, 0xc, 4), 0x00120000);
    // Write-1-to-set on the joint status latches through the table.
    aic::write(&mut state, 0x128, 4, 1 << 14);
    assert!(state.aic.step);
    assert!(state.stop_reason.tick);
    assert_eq!(aic::read(&mut state, 0x108, 4), 1 << 14);
    // Reading the joint status acknowledged the step flag.
    assert!(!state.aic.step);
    assert_eq!(state.aic.status[2], 1 << 14);
    // Write-1-to-clear drops it without requesting a dispatch.
    let before = state.stop_reason;
    aic::write(&mut state, 0x12c, 4, 1 << 14);
    assert_eq!(aic::read(&mut state, 0x108, 4), 0);
    assert_eq!(state.stop_reason, before);
    // Mask registers keep their documented polarity: set disables.
    aic::write(&mut state, 0x120, 4, 0xff);
    assert_eq!(state.aic.enabled, 0xff);
    aic::write(&mut state, 0x124, 4, 0x0f);
    assert_eq!(state.aic.enabled, 0xf0);
    assert_eq!(aic::read(&mut state, 0x114, 4), 0xf0);
}

#[test]
fn quit_details_have_messages() {
    assert_eq!(QuitDetail::UserSpecified.message(), "Stopping emulator...");
    assert_eq!(QuitDetail::CPUHalt.message(), "CPU halted.");
}

#[test]
fn sic_register_interface() {
    let mut state = ready_state();
    // FIFO window: aligned little-endian access at every width.
    sic::write(&mut state, 0x10, 4, 0xaabbccdd);
    assert_eq!(sic::read(&state, 0x10, 4), 0xaabbccdd);
    assert_eq!(sic::read(&state, 0x10, 1), 0xdd);
    assert_eq!(sic::read(&state, 0x12, 2), 0xaabb);
    assert_eq!(sic::read(&state, 0x11, 2), 0);  // misaligned reads as zero
    sic::write(&mut state, 0x12, 2, 0x1122);
    assert_eq!(sic::read(&state, 0x10, 4), 0x1122ccdd);

    // Block length stores length minus one.
    sic::write(&mut state, 0x838, 4, 511);
    assert_eq!(state.sic.sd_io_size, 512);
    assert_eq!(sic::read(&state, 0x838, 4), 511);

    // Interrupt status is write-1-to-clear.
    state.sic.sd_irq.bits = 0b1101;
    sic::write(&mut state, 0x82c, 4, 0b0100);
    assert_eq!(state.sic.sd_irq.bits, 0b1001);

    // Command/argument registers hold their raw values.
    sic::write(&mut state, 0x824, 4, 0x12345678);
    assert_eq!(state.sic.sd_arg, 0x12345678);
    sic::write(&mut state, 0x408, 4, 0x80001000);
    assert_eq!(sic::read(&state, 0x408, 4), 0x80001000);
}

#[test]
fn block_length_wrap_reads_back() {
    // Writing the all-ones length wraps the transfer unit to zero; the
    // register interface and the tick tolerate that state.
    let mut state = ready_state();
    let mut device = Device::default();
    sic::write(&mut state, 0x838, 4, 0xffffffff);
    assert_eq!(state.sic.sd_io_size, 0);
    assert_eq!(sic::read(&state, 0x838, 4), 0xffffffff);
    device.internal_sd.mount(vec![0u8; 1024 * 1024]).unwrap();
    // A data-in tick with a zero-length unit stages an empty transfer.
    state.sic.sd_control.bits = 1 << 2;
    let dma = sic::tick(&mut state, &mut device);
    assert!(dma.is_none() || dma.unwrap().bytes.is_empty());
    assert_eq!(state.sic.sd_control.bits & (1 << 2), 0);
}

#[test]
fn timeout_effects_visible_at_tick() {
    // The command-timeout bookkeeping of the controller tick, observed at
    // the tick boundary: flags raised, data phase cancelled, enables
    // dropped, interrupt posted.
    let mut state = ready_state();
    let mut device = Device::default();
    state.aic.levels[4] = 0x12 << 8;  // the controller's line: priority 2, high-level
    state.sic.sd_irq_enable.bits = 1 << 13;  // only the data-timeout interrupt enabled
    state.sic.sd_control.bits = 1 | (9 << 8) | (1 << 2) | (1 << 3);
    let dma = sic::tick(&mut state, &mut device);
    assert!(dma.is_none());
    assert_eq!(state.sic.sd_irq.bits & (1 << 12), 1 << 12);
    assert_eq!(state.sic.sd_irq.bits & (1 << 13), 1 << 13);
    assert_eq!(state.sic.sd_control.bits & 0b1101, 0);  // co_en, di_en, do_en all dropped
    assert!(state.stop_reason.tick);
    assert_eq!(state.aic.status[2] & (1 << 17), 1 << 17);
}
