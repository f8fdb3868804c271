use n329x_core::extdev::sd::{CurrentState, RecvAction, Response, SD};
use n329x_core::RuntimeError;

fn test_image() -> Vec<u8> {
    // One MiB, each byte a deterministic pattern of its offset.
    let mut img = vec![0u8; 1024 * 1024];
    for (i, b) in img.iter_mut().enumerate() {
        *b = (i % 251) as u8;
    }
    img
}

fn mounted_card() -> SD {
    let mut card = SD::default();
    card.mount(test_image()).unwrap();
    card
}

/// Drive the card to the Transfer state through the documented bring-up.
fn card_in_transfer() -> SD {
    let mut card = mounted_card();
    let _ = card.make_request(0, 0);
    let _ = card.make_request(55, 0);
    let _ = card.make_request(41, 0x00ff8000);
    let _ = card.make_request(2, 0);
    let _ = card.make_request(3, 0);
    let _ = card.make_request(7, 1 << 16);
    assert_eq!(card.card_status.get_current_state(), CurrentState::Transfer);
    card
}

#[test]
fn cmd0_resets_from_any_state() {
    // From freshly mounted, from Transfer, and from SendingData.
    let mut cards = vec![mounted_card(), card_in_transfer()];
    let mut sending = card_in_transfer();
    let _ = sending.make_request(18, 10);
    assert_eq!(sending.card_status.get_current_state(), CurrentState::SendingData);
    cards.push(sending);
    for card in cards.iter_mut() {
        match card.make_request(0, 0) {
            Response::R1(r1) => {
                assert_eq!(r1.cmd, 0);
                assert_eq!(r1.status.bits, 0);
            },
            _ => panic!("CMD0 must answer with a short status response"),
        }
        assert_eq!(card.card_status.bits, 0);
        assert_eq!(card.rca, 0);
        assert_eq!(card.card_status.get_current_state(), CurrentState::Idle);
    }
}

#[test]
fn card_bring_up_scenario() {
    let mut card = mounted_card();
    match card.make_request(0, 0) {
        Response::R1(_) => {},
        _ => panic!("CMD0"),
    }
    assert_eq!(card.card_status.get_current_state(), CurrentState::Idle);

    // Capability probe: a zero voltage window leaves the card Idle.
    let _ = card.make_request(55, 0);
    match card.make_request(41, 0) {
        Response::R3(r3) => {
            assert_eq!(r3.ocr, 0x00ffff00);
            assert!(!r3.power_up);
            assert!(!r3.is_sdhc);
        },
        _ => panic!("ACMD41 probe"),
    }
    assert_eq!(card.card_status.get_current_state(), CurrentState::Idle);

    // Committing a voltage window powers the card up.
    let _ = card.make_request(55, 0);
    match card.make_request(41, 0x00ff8000) {
        Response::R3(r3) => {
            assert_eq!(r3.ocr, 0x00ff8000);
            assert!(r3.power_up);
        },
        _ => panic!("ACMD41 commit"),
    }
    assert_eq!(card.card_status.get_current_state(), CurrentState::Ready);

    match card.make_request(2, 0) {
        Response::R2(r2) => {
            assert_eq!(r2.cid_csd.len(), 16);
            assert_eq!(
                r2.cid_csd,
                [
                    0x00, 0x45, 0x6d, 0x49, 0x6e, 0x74, 0x53, 0x44, 0x10, 0xde, 0xad, 0xbe, 0xef,
                    0x00, 0xe1, 0x6f
                ]
            );
        },
        _ => panic!("CMD2"),
    }
    assert_eq!(card.card_status.get_current_state(), CurrentState::Identification);

    match card.make_request(3, 0) {
        Response::R6(r6) => assert_eq!(r6.rca, 1),
        _ => panic!("CMD3"),
    }
    assert_eq!(card.card_status.get_current_state(), CurrentState::StandBy);
    assert_eq!(card.rca, 1);
}

#[test]
fn cmd7_deselect_reverts_to_standby() {
    let mut card = card_in_transfer();
    match card.make_request(7, 9 << 16) {
        Response::R1(r1) => assert_eq!(r1.cmd, 7),
        _ => panic!("CMD7 deselect must answer"),
    }
    assert_eq!(card.card_status.get_current_state(), CurrentState::StandBy);
}

#[test]
fn cmd7_reselect_is_illegal() {
    let mut card = card_in_transfer();
    match card.make_request(7, 1 << 16) {
        Response::RNone => {},
        _ => panic!("re-selecting the selected card must give no response"),
    }
    assert!(card.card_status.get_illegal_command());
    assert_eq!(card.card_status.get_current_state(), CurrentState::Transfer);
}

#[test]
fn block_read_scenario() {
    let mut card = card_in_transfer();
    // Block length 512.
    match card.make_request(16, 512) {
        Response::R1(r1) => assert!(!r1.status.get_block_len_error()),
        _ => panic!("CMD16"),
    }
    assert_eq!(card.io_size, 512);

    match card.make_request(18, 10) {
        Response::R1(_) => {},
        _ => panic!("CMD18"),
    }
    assert_eq!(card.card_status.get_current_state(), CurrentState::SendingData);
    assert_eq!(card.recv_action, RecvAction::FTLRead { sector_index: 10 });

    let img = test_image();
    let bytes = card.recv_data(512).unwrap();
    assert_eq!(&bytes[..], &img[5120..5632]);
    assert_eq!(card.recv_action, RecvAction::FTLRead { sector_index: 11 });

    match card.make_request(12, 0) {
        Response::R1(_) => {},
        _ => panic!("CMD12"),
    }
    assert_eq!(card.card_status.get_current_state(), CurrentState::Transfer);
    assert_eq!(card.recv_action, RecvAction::NoAction);
}

#[test]
fn cmd9_in_idle_is_illegal() {
    let mut card = mounted_card();
    let _ = card.make_request(0, 0);
    match card.make_request(9, 0) {
        Response::RNone => {},
        _ => panic!("CMD9 from Idle must give no response"),
    }
    assert!(card.card_status.get_illegal_command());
    assert_eq!(card.card_status.get_current_state(), CurrentState::Idle);
}

#[test]
fn cmd16_rejects_out_of_range_lengths() {
    for bad in [0u32, 513, 4096] {
        let mut card = card_in_transfer();
        match card.make_request(16, bad) {
            Response::R1(r1) => {
                assert_eq!(r1.cmd, 16);
                assert!(r1.status.get_block_len_error());
            },
            _ => panic!("CMD16 must still answer"),
        }
        assert!(card.card_status.get_block_len_error());
        assert_eq!(card.io_size, 0);
        assert_eq!(card.card_status.get_current_state(), CurrentState::Transfer);
    }
}

#[test]
fn status_clears_on_read() {
    let mut card = card_in_transfer();
    // Provoke the block-length error bit, then watch a status read clear it.
    let _ = card.make_request(16, 0);
    assert!(card.card_status.get_block_len_error());
    match card.make_request(7, 9 << 16) {
        // The reply carries the pre-clear status; the stored one is cleared.
        Response::R1(r1) => assert!(r1.status.get_block_len_error()),
        _ => panic!("CMD7"),
    }
    assert!(!card.card_status.get_block_len_error());
}

#[test]
fn app_command_latch_is_consumed() {
    let mut card = mounted_card();
    let _ = card.make_request(0, 0);
    let _ = card.make_request(55, 0);
    assert!(card.card_status.get_app_command());
    // An application command illegal in Idle still consumes the latch.
    match card.make_request(51, 0) {
        Response::RNone => {},
        _ => panic!("ACMD51 from Idle is illegal"),
    }
    assert!(!card.card_status.get_app_command());
    assert!(card.card_status.get_illegal_command());
}

#[test]
fn unmounted_card_ignores_commands() {
    let mut card = SD::default();
    match card.make_request(0, 0) {
        Response::RNone => {},
        _ => panic!("unmounted card must not answer"),
    }
    assert_eq!(card.card_status.bits, 0);
}

#[test]
fn mount_twice_fails() {
    let mut card = mounted_card();
    assert_eq!(card.mount(test_image()), Err(RuntimeError::SDAlreadyMounted));
    card.unmount();
    assert!(!card.is_mounted());
    assert!(card.mount(test_image()).is_ok());
}

#[test]
fn capacity_class_from_size() {
    let mut card = SD::default();
    card.mount(vec![0u8; 1024 * 1024]).unwrap();
    let _ = card.make_request(55, 0);
    match card.make_request(41, 0x00ff8000) {
        Response::R3(r3) => assert!(!r3.is_sdhc),
        _ => panic!("ACMD41"),
    }
}

#[test]
fn recv_without_staged_action_is_an_error() {
    let mut card = card_in_transfer();
    assert_eq!(card.recv_data(512), Err(RuntimeError::SDNoStagedAction));
}

#[test]
fn scr_read_scenario() {
    let mut card = card_in_transfer();
    let _ = card.make_request(55, 0);
    match card.make_request(51, 0) {
        Response::R1(r1) => assert_eq!(r1.cmd, 51),
        _ => panic!("ACMD51"),
    }
    assert_eq!(card.card_status.get_current_state(), CurrentState::SendingData);
    let bytes = card.recv_data(8).unwrap();
    assert_eq!(&bytes[..], &[0x02, 0x05, 0, 0, 0, 0, 0, 0]);
    assert_eq!(card.card_status.get_current_state(), CurrentState::Transfer);
    assert_eq!(card.recv_action, RecvAction::NoAction);
}

#[test]
fn function_status_read() {
    let mut card = card_in_transfer();
    // Probe group 1 (the access-mode group) for function 1, without commit.
    match card.make_request(6, 0x00fffff1) {
        Response::R1(r1) => assert_eq!(r1.cmd, 6),
        _ => panic!("CMD6"),
    }
    let bytes = card.recv_data(64).unwrap();
    // Maximum current: 200 mA.
    assert_eq!(&bytes[0..2], &[0x00, 0xc8]);
    // Capability tables: groups 6..2 default-only, group 1 adds high speed.
    assert_eq!(&bytes[2..4], &[0x80, 0x01]);
    assert_eq!(&bytes[12..14], &[0x80, 0x03]);
    // Function 1 of group 1 is selectable; other groups keep (nothing selected).
    assert_eq!(&bytes[14..17], &[0x00, 0x00, 0x01]);
    assert_eq!(bytes[17], 0x01);
    assert!(bytes[18..].iter().all(|b| *b == 0));
    assert_eq!(card.selected_functions, 0);
    assert_eq!(card.card_status.get_current_state(), CurrentState::Transfer);
}

#[test]
fn function_switch_commits_when_legal() {
    let mut card = card_in_transfer();
    let _ = card.make_request(6, 0x80fffff1);
    let bytes = card.recv_data(64).unwrap();
    assert_eq!(&bytes[14..17], &[0x00, 0x00, 0x01]);
    assert_eq!(card.selected_functions, 1);
}

#[test]
fn function_switch_rejects_unsupported() {
    let mut card = card_in_transfer();
    // Function 7 of group 1 is not in the capability table.
    let _ = card.make_request(6, 0x80fffff7);
    let bytes = card.recv_data(64).unwrap();
    // The group answers all-ones to reject, and nothing is committed.
    assert_eq!(bytes[16] & 0xf, 0xf);
    assert_eq!(card.selected_functions, 0);
}

#[test]
fn cmd9_returns_capacity_descriptor() {
    let mut card = mounted_card();
    let _ = card.make_request(0, 0);
    let _ = card.make_request(55, 0);
    let _ = card.make_request(41, 0x00ff8000);
    let _ = card.make_request(2, 0);
    let _ = card.make_request(3, 0);
    assert_eq!(card.card_status.get_current_state(), CurrentState::StandBy);
    match card.make_request(9, 1 << 16) {
        Response::R2(r2) => {
            // Standard-capacity register for a 1 MiB image: version 1.0
            // layout, 25 MHz, classes 0x5b5, 1024-byte blocks, device size
            // code 1 with a 512x multiplier.
            assert_eq!(
                r2.cid_csd,
                [
                    0x00, 0x00, 0x00, 0x32, 0x5b, 0x5a, 0x80, 0x00, 0x7f, 0xff, 0xff, 0x80, 0x0a,
                    0xa0, 0x00, 0x01
                ]
            );
        },
        _ => panic!("CMD9 from StandBy must return the register"),
    }
    // A non-matching address is illegal.
    match card.make_request(9, 5 << 16) {
        Response::RNone => {},
        _ => panic!("CMD9 with a wrong address is illegal"),
    }
    assert!(card.card_status.get_illegal_command());
}

#[test]
fn cmd8_echoes_check_pattern_only_in_idle() {
    let mut card = mounted_card();
    let _ = card.make_request(0, 0);
    match card.make_request(8, 0x1aa) {
        Response::R7(r7) => {
            assert_eq!(r7.voltage_accepted, 0x1);
            assert_eq!(r7.check, 0xaa);
        },
        _ => panic!("CMD8 from Idle"),
    }
    let mut selected = card_in_transfer();
    match selected.make_request(8, 0x1aa) {
        Response::RNone => {},
        _ => panic!("CMD8 outside Idle is illegal"),
    }
}

#[test]
fn cmd10_ignores_wrong_address() {
    let mut card = mounted_card();
    let _ = card.make_request(0, 0);
    let _ = card.make_request(55, 0);
    let _ = card.make_request(41, 0x00ff8000);
    let _ = card.make_request(2, 0);
    let _ = card.make_request(3, 0);
    // Wrong address: silently ignored, no illegal-command bit.
    match card.make_request(10, 7 << 16) {
        Response::RNone => {},
        _ => panic!("CMD10 to another card must be ignored"),
    }
    assert!(!card.card_status.get_illegal_command());
    // Matching address from StandBy returns the identification register.
    match card.make_request(10, 1 << 16) {
        Response::R2(r2) => assert_eq!(r2.cid_csd[1], 0x45),
        _ => panic!("CMD10"),
    }
}
