use ble_session::checksum::crc16;
use ble_session::config::standard_command;
use ble_session::frame::{
    check_notification, decode_notification, encode_command, u8asu16be, validate, FrameError,
};

fn frame_of(payload: &[u8]) -> Vec<u8> {
    let c = crc16(payload);
    let mut raw = payload.to_vec();
    raw.push((c & 0xFF) as u8);
    raw.push((c >> 8) as u8);
    raw
}

#[test]
fn checksum_field_takes_its_high_half_from_the_last_byte() {
    assert_eq!(u8asu16be([0x34, 0x12]), 0x1234);
    assert_eq!(u8asu16be([0x12, 0x34]), 0x3412);
    assert_eq!(u8asu16be([0xFF, 0x00]), 0x00FF);
    assert_eq!(u8asu16be([0x00, 0xFF]), 0xFF00);
    assert_eq!(u8asu16be([0x00, 0x00]), 0x0000);
    assert_eq!(u8asu16be([0xFF, 0xFF]), 0xFFFF);
    assert_eq!(u8asu16be([0x6A, 0xD4]), 0xD46A);
}

#[test]
fn checksum_field_reads_every_pair() {
    for first in 0..=255u8 {
        for second in 0..=255u8 {
            let expected = (second as u16) * 256 + first as u16;
            assert_eq!(u8asu16be([first, second]), expected);
        }
    }
}

#[test]
fn command_is_written_as_it_is_laid_out() {
    let layout: [u8; 7] = [0x01, 0x06, 0x07, 0x00, 0x00, 0x54, 0x19];
    assert_eq!(encode_command(&layout), vec![0x01, 0x06, 0x07, 0x00, 0x00, 0x54, 0x19]);
    let other: [u8; 7] = [9, 8, 7, 6, 5, 4, 3];
    assert_eq!(encode_command(&other), vec![9, 8, 7, 6, 5, 4, 3]);
    assert_eq!(encode_command(&standard_command()), layout.to_vec());
}

#[test]
fn frame_shorter_than_its_checksum_field_is_too_short() {
    assert_eq!(decode_notification(&[]), Err(FrameError::FrameTooShort));
    assert_eq!(decode_notification(&[0x00]), Err(FrameError::FrameTooShort));
    assert_eq!(decode_notification(&[0xFF]), Err(FrameError::FrameTooShort));
}

#[test]
fn frame_of_two_bytes_has_an_empty_payload() {
    assert_eq!(decode_notification(&[0xFF, 0xFF]), Ok((vec![], 0xFFFF)));
    assert_eq!(decode_notification(&[0x34, 0x12]), Ok((vec![], 0x1234)));
    assert!(validate(&[], 0xFFFF));
    assert_eq!(check_notification(&[0xFF, 0xFF]), Ok((vec![], 0xFFFF)));
}

#[test]
fn decoding_splits_payload_from_checksum_field() {
    assert_eq!(
        decode_notification(&[0xAB, 0xCD, 0x6A, 0xD4]),
        Ok((vec![0xAB, 0xCD], 0xD46A))
    );
    // Decoding does not validate: a wrong field still decodes.
    assert_eq!(decode_notification(&[0x01, 0x02, 0x03]), Ok((vec![0x01], 0x0302)));
}

#[test]
fn framed_payload_round_trips() {
    let payloads: Vec<Vec<u8>> = vec![
        vec![],
        vec![0x00],
        vec![0xAB, 0xCD],
        "123456789".as_bytes().to_vec(),
        (0..=255).collect(),
    ];
    for payload in &payloads {
        let c = crc16(payload);
        let raw = frame_of(payload);
        assert_eq!(raw.len(), payload.len() + 2);
        assert_eq!(decode_notification(&raw), Ok((payload.clone(), c)));
        assert!(validate(payload, c));
        assert_eq!(check_notification(&raw), Ok((payload.clone(), c)));
    }
}

#[test]
fn validation_compares_with_the_computed_checksum() {
    assert!(validate(&[0xAB, 0xCD], 0xD46A));
    assert!(!validate(&[0xAB, 0xCD], 0x6AD4));
    assert!(!validate(&[0xAB, 0xCD], 0xD46B));
    assert!(validate("123456789".as_bytes(), 0x29B1));
    assert!(!validate("123456789".as_bytes(), 0xFFFF));
}

#[test]
fn changed_payload_fails_validation() {
    let payload: Vec<u8> = vec![0x10, 0x20, 0x30, 0x40];
    let declared = crc16(&payload);
    for at in 0..payload.len() {
        let mut changed = payload.clone();
        changed[at] ^= 0x01;
        assert!(!validate(&changed, declared));
        let mut raw = changed.clone();
        raw.push((declared & 0xFF) as u8);
        raw.push((declared >> 8) as u8);
        assert_eq!(check_notification(&raw), Err(FrameError::ChecksumMismatch));
    }
}

#[test]
fn checking_names_each_reason() {
    assert_eq!(check_notification(&[]), Err(FrameError::FrameTooShort));
    assert_eq!(check_notification(&[0x42]), Err(FrameError::FrameTooShort));
    assert_eq!(
        check_notification(&[0xAB, 0xCD, 0xD4, 0x6A]),
        Err(FrameError::ChecksumMismatch)
    );
    assert_eq!(
        check_notification(&[0xAB, 0xCD, 0x6A, 0xD4]),
        Ok((vec![0xAB, 0xCD], 0xD46A))
    );
}

#[test]
fn standard_command_carries_its_own_checksum() {
    let command = standard_command();
    assert_eq!(command, [0x01, 0x06, 0x07, 0x00, 0x00, 0x54, 0x19]);
    assert_eq!(
        check_notification(&command),
        Ok((vec![0x01, 0x06, 0x07, 0x00, 0x00], 0x1954))
    );
}
