//! The configuration of a session: the constants of the device protocol,
//! gathered in one value that is handed to the session when it is made.

use vstd::prelude::*;

verus! {

/// What a session needs to know about the device it talks to.
#[derive(Clone, Debug, PartialEq, Eq)]
pub struct SessionConfig {
    /// The fragment that the advertised name of the device contains.
    pub name_fragment: String,
    /// The identifier of the characteristic that notifies.
    pub notify_id: u128,
    /// The identifier of the characteristic that takes the command.
    pub command_id: u128,
    /// The command, as it is laid out for the device.
    pub command: [u8; 7],
    /// How many notification handlers may run side by side.
    pub handler_ceiling: usize,
}

/// A configuration as a mathematical value.
pub struct ConfigView {
    pub name_fragment: Seq<char>,
    pub notify_id: u128,
    pub command_id: u128,
    pub command: Seq<u8>,
    pub handler_ceiling: usize,
}

impl View for SessionConfig {
    type V = ConfigView;

    open spec fn view(&self) -> ConfigView {
        ConfigView {
            name_fragment: self.name_fragment@,
            notify_id: self.notify_id,
            command_id: self.command_id,
            command: self.command@,
            handler_ceiling: self.handler_ceiling,
        }
    }
}

/// The 128-bit value that the `uuid` crate reads from `text`: the sixteen
/// bytes of the identifier, first byte highest. There is none where the crate
/// does not take `text` for an identifier.
pub uninterp spec fn uuid_value(text: Seq<char>) -> Option<u128>;

/// The configuration made of the given parts, where both identifiers are
/// there.
pub open spec fn assembled(
    name_fragment: Seq<char>,
    notify_id: Option<u128>,
    command_id: Option<u128>,
    command: Seq<u8>,
    handler_ceiling: usize,
) -> Option<ConfigView> {
    match (notify_id, command_id) {
        (Some(notify_id), Some(command_id)) => Some(
            ConfigView { name_fragment, notify_id, command_id, command, handler_ceiling },
        ),
        _ => None,
    }
}

/// The command of the observed device, byte for byte.
pub open spec fn observed_command() -> Seq<u8> {
    seq![0x01u8, 0x06u8, 0x07u8, 0x00u8, 0x00u8, 0x54u8, 0x19u8]
}

/// The view of a configuration that may be missing.
pub open spec fn view_of(config: Option<SessionConfig>) -> Option<ConfigView> {
    match config {
        Some(config) => Some(config@),
        None => None,
    }
}

/// Reads an identifier from its text with `uuid::Uuid::from_str` and packs it
/// into 128 bits with `uuid::Uuid::as_u128`. Not proved: that the value is
/// `uuid_value` of the text, which is to say that the crate reads the same
/// text to the same value every time, and turns down the same texts.
#[verifier::external_body]
fn read_uuid(text: &str) -> (value: Option<u128>)
    ensures
        value == uuid_value(text@),
{
    let parsed: Result<uuid::Uuid, uuid::Error> = std::str::FromStr::from_str(text);
    match parsed {
        Ok(id) => Some(id.as_u128()),
        Err(_) => None,
    }
}

/// Makes a configuration from parts of which the identifiers may be missing:
/// there is one exactly where both identifiers are there.
pub fn assemble(
    name_fragment: &str,
    notify_id: Option<u128>,
    command_id: Option<u128>,
    command: [u8; 7],
    handler_ceiling: usize,
) -> (config: Option<SessionConfig>)
    ensures
        view_of(config) == assembled(
            name_fragment@,
            notify_id,
            command_id,
            command@,
            handler_ceiling,
        ),
{
    match (notify_id, command_id) {
        (Some(notify_id), Some(command_id)) => Some(
            SessionConfig {
                name_fragment: name_fragment.to_owned(),
                notify_id,
                command_id,
                command,
                handler_ceiling,
            },
        ),
        _ => None,
    }
}

/// Makes a configuration from identifiers given as text. The two identifiers
/// are read independently of each other; there is no configuration where
/// either text is not an identifier.
pub fn configure(
    name_fragment: &str,
    notify_text: &str,
    command_text: &str,
    command: [u8; 7],
    handler_ceiling: usize,
) -> (config: Option<SessionConfig>)
    ensures
        view_of(config) == assembled(
            name_fragment@,
            uuid_value(notify_text@),
            uuid_value(command_text@),
            command@,
            handler_ceiling,
        ),
{
    let notify_id: Option<u128> = read_uuid(notify_text);
    let command_id: Option<u128> = read_uuid(command_text);
    assemble(name_fragment, notify_id, command_id, command, handler_ceiling)
}

/// The command of the observed device.
pub fn standard_command() -> (command: [u8; 7])
    ensures
        command@ == observed_command(),
{
    let command: [u8; 7] = [0x01, 0x06, 0x07, 0x00, 0x00, 0x54, 0x19];
    assert(command@ =~= observed_command());
    command
}

/// The configuration of the observed device: names that contain `E66`, one
/// identifier for both characteristics, the standard command, and at most a
/// hundred handlers side by side.
pub fn observed_configuration() -> (config: Option<SessionConfig>)
    ensures
        view_of(config) == assembled(
            "E66"@,
            uuid_value("be940001-7333-be46-b7ae-689e71722bd5"@),
            uuid_value("be940001-7333-be46-b7ae-689e71722bd5"@),
            observed_command(),
            100,
        ),
{
    configure(
        "E66",
        "be940001-7333-be46-b7ae-689e71722bd5",
        "be940001-7333-be46-b7ae-689e71722bd5",
        standard_command(),
        100,
    )
}

} // verus!
