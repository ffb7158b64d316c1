use ble_session::checksum::crc16;

#[test]
fn checksum_of_nothing_is_the_preset() {
    assert_eq!(crc16(&[]), 0xFFFF);
}

#[test]
fn checksum_of_the_digits_one_to_nine() {
    let digits: [u8; 9] = [0x31, 0x32, 0x33, 0x34, 0x35, 0x36, 0x37, 0x38, 0x39];
    assert_eq!(crc16(&digits), 0x29B1);
    assert_eq!(crc16("123456789".as_bytes()), 0x29B1);
}

#[test]
fn checksum_of_single_bytes() {
    assert_eq!(crc16(&[0x00]), 0xE1F0);
    assert_eq!(crc16(&[0x01]), 0xF1D1);
    assert_eq!(crc16(&[0x41]), 0xB915);
    assert_eq!(crc16(&[0x80]), 0x7078);
    assert_eq!(crc16(&[0xFF]), 0xFF00);
}

#[test]
fn checksum_of_longer_inputs() {
    assert_eq!(crc16(&[0x00, 0x00]), 0x1D0F);
    assert_eq!(crc16(&[0xFF, 0xFF]), 0x0000);
    assert_eq!(crc16(&[0xAB, 0xCD]), 0xD46A);
    assert_eq!(crc16("hello".as_bytes()), 0xD26E);
    let all: Vec<u8> = (0..=255).collect();
    assert_eq!(crc16(&all), 0x3FBD);
}

#[test]
fn checksum_is_the_same_on_every_call() {
    let inputs: Vec<Vec<u8>> = vec![
        vec![],
        vec![0x00],
        vec![0xAB, 0xCD],
        "123456789".as_bytes().to_vec(),
        (0..=255).collect(),
    ];
    for input in &inputs {
        let first = crc16(input);
        let copy = input.clone();
        for _ in 0..4 {
            assert_eq!(crc16(input), first);
            assert_eq!(crc16(&copy), first);
        }
    }
}

#[test]
fn checksum_of_a_prefix_carries_into_the_whole() {
    // The trailing bytes of a frame are not part of what is summed: the
    // checksum of a payload differs from that of the payload with its field.
    let payload: [u8; 2] = [0xAB, 0xCD];
    let frame: [u8; 4] = [0xAB, 0xCD, 0x6A, 0xD4];
    assert_eq!(crc16(&frame[..2]), crc16(&payload));
    assert_ne!(crc16(&frame), crc16(&payload));
}

#[test]
fn changing_any_single_byte_changes_the_checksum() {
    let payloads: Vec<Vec<u8>> = vec![
        vec![0x00],
        vec![0xAB, 0xCD],
        vec![0x01, 0x06, 0x07, 0x00, 0x00],
        "123456789".as_bytes().to_vec(),
    ];
    for payload in &payloads {
        let unchanged = crc16(payload);
        for at in 0..payload.len() {
            for byte in 0..=255u8 {
                if byte == payload[at] {
                    continue;
                }
                let mut changed = payload.clone();
                changed[at] = byte;
                assert_ne!(crc16(&changed), unchanged);
            }
        }
    }
}
