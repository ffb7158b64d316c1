use ble_session::config::{assemble, configure, observed_configuration, standard_command};

const OBSERVED_ID: u128 = 0xbe94_0001_7333_be46_b7ae_689e_7172_2bd5;

#[test]
fn observed_configuration_holds_the_protocol_constants() {
    let config = observed_configuration().expect("the identifiers are well formed");
    assert_eq!(config.name_fragment, "E66");
    assert_eq!(config.notify_id, OBSERVED_ID);
    assert_eq!(config.command_id, OBSERVED_ID);
    assert_eq!(config.command, [0x01, 0x06, 0x07, 0x00, 0x00, 0x54, 0x19]);
    assert_eq!(config.handler_ceiling, 100);
}

#[test]
fn identifiers_are_read_as_the_uuid_crate_reads_them() {
    let text = "be940001-7333-be46-b7ae-689e71722bd5";
    let config = configure("E66", text, text, standard_command(), 100).unwrap();
    let expected = uuid::Uuid::parse_str(text).unwrap();
    assert_eq!(config.notify_id, expected.as_u128());
    assert_eq!(uuid::Uuid::from_u128(config.command_id), expected);
    assert_eq!(config.notify_id, OBSERVED_ID);
}

#[test]
fn identifiers_are_read_independently() {
    let config = configure(
        "E66",
        "be940001-7333-be46-b7ae-689e71722bd5",
        "be940002-7333-be46-b7ae-689e71722bd5",
        standard_command(),
        4,
    )
    .unwrap();
    assert_eq!(config.notify_id, 0xbe94_0001_7333_be46_b7ae_689e_7172_2bd5);
    assert_eq!(config.command_id, 0xbe94_0002_7333_be46_b7ae_689e_7172_2bd5);
    assert_eq!(config.handler_ceiling, 4);
}

#[test]
fn identifiers_are_read_in_every_form_the_crate_takes() {
    let command = standard_command();
    let upper = configure("x", "BE940001-7333-BE46-B7AE-689E71722BD5", "0", command, 1);
    assert!(upper.is_none());
    let forms = [
        "be940001-7333-be46-b7ae-689e71722bd5",
        "BE940001-7333-BE46-B7AE-689E71722BD5",
        "be9400017333be46b7ae689e71722bd5",
        "urn:uuid:be940001-7333-be46-b7ae-689e71722bd5",
    ];
    for form in forms.iter() {
        let config = configure("x", form, form, command, 1).unwrap();
        assert_eq!(config.notify_id, OBSERVED_ID);
        assert_eq!(config.command_id, OBSERVED_ID);
    }
}

#[test]
fn text_that_is_no_identifier_gives_no_configuration() {
    let good = "be940001-7333-be46-b7ae-689e71722bd5";
    let command = standard_command();
    let bad = [
        "",
        "E66",
        "be940001-7333-be46-b7ae-689e71722bd",
        "be940001-7333-be46-b7ae-689e71722bd55",
        "be940001-7333-be46-b7ae-689e71722bdg",
        "be940001+7333-be46-b7ae-689e71722bd5",
        "be940001-7333-be46-b7ae689e-71722bd5",
    ];
    for text in bad.iter() {
        assert!(configure("E66", text, good, command, 100).is_none());
        assert!(configure("E66", good, text, command, 100).is_none());
        assert!(configure("E66", text, text, command, 100).is_none());
    }
    assert!(configure("E66", good, good, command, 100).is_some());
}

#[test]
fn assembling_needs_both_identifiers() {
    let command = standard_command();
    assert!(assemble("E66", None, None, command, 100).is_none());
    assert!(assemble("E66", Some(1), None, command, 100).is_none());
    assert!(assemble("E66", None, Some(2), command, 100).is_none());
    let config = assemble("E66", Some(1), Some(2), command, 100).unwrap();
    assert_eq!(config.name_fragment, "E66");
    assert_eq!(config.notify_id, 1);
    assert_eq!(config.command_id, 2);
    assert_eq!(config.command, command);
    assert_eq!(config.handler_ceiling, 100);
}
