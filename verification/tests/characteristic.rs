use ble_session::characteristic::{resolve, Characteristic};

const A: u128 = 0x0000_2a37_0000_1000_8000_0080_5f9b_34fb;
const B: u128 = 0xbe94_0001_7333_be46_b7ae_689e_7172_2bd5;
const C: u128 = 0xbe94_0002_7333_be46_b7ae_689e_7172_2bd5;

#[test]
fn resolution_returns_the_entry_with_the_identifier() {
    let list = vec![
        Characteristic { identifier: A, properties: 0x02 },
        Characteristic { identifier: B, properties: 0x18 },
    ];
    assert_eq!(resolve(&list, B), Some(Characteristic { identifier: B, properties: 0x18 }));
    assert_eq!(resolve(&list, A), Some(Characteristic { identifier: A, properties: 0x02 }));
}

#[test]
fn resolution_finds_nothing_for_an_absent_identifier() {
    let list = vec![
        Characteristic { identifier: A, properties: 0x02 },
        Characteristic { identifier: B, properties: 0x18 },
    ];
    assert_eq!(resolve(&list, C), None);
    assert_eq!(resolve(&[], B), None);
}

#[test]
fn resolution_takes_the_first_of_equal_identifiers() {
    let list = vec![
        Characteristic { identifier: A, properties: 0x02 },
        Characteristic { identifier: B, properties: 0x10 },
        Characteristic { identifier: B, properties: 0x08 },
    ];
    assert_eq!(resolve(&list, B), Some(Characteristic { identifier: B, properties: 0x10 }));
}

#[test]
fn resolution_asks_for_the_exact_identifier() {
    let list = vec![Characteristic { identifier: B, properties: 0x18 }];
    assert_eq!(resolve(&list, B + 1), None);
    assert_eq!(resolve(&list, B - 1), None);
    assert_eq!(resolve(&list, B ^ (1u128 << 127)), None);
    assert_eq!(resolve(&list, 0), None);
}
