//! The session controller: the phases a session goes through, from the first
//! scan to the last notification, and what it asks of the Bluetooth stack at
//! each step.
//!
//! The controller does no input or output. It is told what happened, as an
//! [`Event`], and answers with what is to be done next, as an [`Action`]. A
//! phase names the outside work whose outcome the session is waiting for.

use crate::characteristic::{resolve, resolved, Characteristic};
use crate::checksum::checksum;
use crate::config::{ConfigView, SessionConfig};
use crate::device::{first_match, select, PeripheralDescriptor};
use crate::frame::{
    check_notification, checked, encode_command, framed, framed_payload_round_trips, FrameError,
};
use vstd::prelude::*;

verus! {

/// Why a session ended before it could listen, or while it did.
#[derive(Clone, Copy, Debug, PartialEq, Eq, Structural)]
pub enum SessionError {
    /// The stack reported that an operation failed.
    StackError,
    /// No discovered peripheral advertised a matching name.
    DeviceNotFound,
    /// The stack could not connect to the selected peripheral.
    ConnectError,
    /// The peripheral lacks the notify or the command characteristic.
    CharacteristicNotFound,
}

/// The connected peripheral and the two characteristics the session uses.
#[derive(Clone, Copy, Debug, PartialEq, Eq, Structural)]
pub struct Link {
    /// The handle of the peripheral, as its descriptor gave it.
    pub peripheral: usize,
    /// The characteristic whose notifications the session receives.
    pub notify: Characteristic,
    /// The characteristic the command is written to.
    pub command: Characteristic,
}

/// Where a session stands.
#[derive(Clone, Copy, Debug, PartialEq, Eq)]
pub enum Phase {
    /// Nothing has been asked for yet.
    Idle,
    /// The scan runs; the session waits for the scan window to elapse.
    Scanning,
    /// The session waits for the list of discovered peripherals.
    Selecting,
    /// The session waits for the connection to the selected peripheral.
    Connecting { peripheral: usize },
    /// The session waits for the characteristics of the peripheral.
    Discovering { peripheral: usize },
    /// The session waits for the subscription to the notify characteristic.
    Subscribing(Link),
    /// Subscribed; the session waits for the notification stream to be open.
    Ready(Link),
    /// The command is on its way; the session waits for the write to end.
    Sending(Link),
    /// The session takes notifications until it is shut down.
    Listening(Link),
    /// The session is over, with the failure that ended it, if one did.
    Closed { failure: Option<SessionError> },
}

/// What the caller reports to the session.
#[derive(Clone, Debug, PartialEq, Eq)]
pub enum Event {
    /// The session is asked to begin.
    Start,
    /// The outside work that the last action asked for is done.
    Completed,
    /// The stack reported that the outside work failed.
    Failed,
    /// The peripherals that the scan discovered, in discovery order.
    Peripherals(Vec<PeripheralDescriptor>),
    /// The characteristics that discovery found on the peripheral.
    Characteristics(Vec<Characteristic>),
    /// The bytes of one notification.
    Notification(Vec<u8>),
    /// The session is asked to end.
    Shutdown,
    /// The stack reported that the peripheral is gone.
    Disconnected,
}

/// What the session asks of the caller.
#[derive(Clone, Debug, PartialEq, Eq)]
pub enum Action {
    /// Nothing: the event has no meaning in the phase it came in.
    Nothing,
    /// Start the scan, and report `Completed` when the scan window is over.
    StartScan,
    /// Report the peripherals that were discovered.
    ListPeripherals,
    /// Connect to the peripheral with this handle.
    Connect { peripheral: usize },
    /// Discover the characteristics of the peripheral and report them.
    DiscoverCharacteristics { peripheral: usize },
    /// Subscribe to this characteristic.
    Subscribe { characteristic: Characteristic },
    /// Open the stream on which notifications arrive.
    OpenNotifications,
    /// Write these bytes to this characteristic, with or without asking the
    /// peripheral to acknowledge them.
    Write { target: Characteristic, bytes: Vec<u8>, acknowledged: bool },
    /// Report each notification as it arrives, running at most
    /// `handler_ceiling` handlers side by side. `write_acknowledged` says
    /// whether the write of the command succeeded.
    Listen { handler_ceiling: usize, write_acknowledged: bool },
    /// The notification held a valid frame with this payload and checksum.
    Accept { payload: Vec<u8>, checksum: u16 },
    /// The notification was turned down.
    Reject { reason: FrameError },
    /// Unsubscribe from this characteristic, then disconnect the peripheral.
    Disconnect { peripheral: usize, unsubscribe: Characteristic },
    /// Let go of the peripheral, which is gone already.
    Release { peripheral: usize },
    /// Give up and report this failure.
    Abort { error: SessionError },
}

/// An action as a mathematical value.
pub enum ActionView {
    Nothing,
    StartScan,
    ListPeripherals,
    Connect { peripheral: usize },
    DiscoverCharacteristics { peripheral: usize },
    Subscribe { characteristic: Characteristic },
    OpenNotifications,
    Write { target: Characteristic, bytes: Seq<u8>, acknowledged: bool },
    Listen { handler_ceiling: usize, write_acknowledged: bool },
    Accept { payload: Seq<u8>, checksum: u16 },
    Reject { reason: FrameError },
    Disconnect { peripheral: usize, unsubscribe: Characteristic },
    Release { peripheral: usize },
    Abort { error: SessionError },
}

impl View for Action {
    type V = ActionView;

    open spec fn view(&self) -> ActionView {
        match *self {
            Action::Nothing => ActionView::Nothing,
            Action::StartScan => ActionView::StartScan,
            Action::ListPeripherals => ActionView::ListPeripherals,
            Action::Connect { peripheral } => ActionView::Connect { peripheral },
            Action::DiscoverCharacteristics { peripheral } => ActionView::DiscoverCharacteristics {
                peripheral,
            },
            Action::Subscribe { characteristic } => ActionView::Subscribe { characteristic },
            Action::OpenNotifications => ActionView::OpenNotifications,
            Action::Write { target, bytes, acknowledged } => ActionView::Write {
                target,
                bytes: bytes@,
                acknowledged,
            },
            Action::Listen { handler_ceiling, write_acknowledged } => ActionView::Listen {
                handler_ceiling,
                write_acknowledged,
            },
            Action::Accept { payload, checksum } => ActionView::Accept {
                payload: payload@,
                checksum,
            },
            Action::Reject { reason } => ActionView::Reject { reason },
            Action::Disconnect { peripheral, unsubscribe } => ActionView::Disconnect {
                peripheral,
                unsubscribe,
            },
            Action::Release { peripheral } => ActionView::Release { peripheral },
            Action::Abort { error } => ActionView::Abort { error },
        }
    }
}

/// A session: its configuration, which never changes, and its phase.
#[derive(Clone, Debug, PartialEq, Eq)]
pub struct Session {
    pub config: SessionConfig,
    pub phase: Phase,
}

/// How far along a phase is. Phases are passed in this order and in no other.
pub open spec fn rank(phase: Phase) -> nat {
    match phase {
        Phase::Idle => 0,
        Phase::Scanning => 1,
        Phase::Selecting => 2,
        Phase::Connecting { .. } => 3,
        Phase::Discovering { .. } => 4,
        Phase::Subscribing(_) => 5,
        Phase::Ready(_) => 6,
        Phase::Sending(_) => 7,
        Phase::Listening(_) => 8,
        Phase::Closed { .. } => 9,
    }
}

/// The failure that ends the session where the stack reports one in `phase`.
/// There is none before the session has begun and after it has ended, nor
/// while the command is being written: a failed write does not end it.
pub open spec fn failure_in(phase: Phase) -> Option<SessionError> {
    match phase {
        Phase::Idle => None,
        Phase::Connecting { .. } => Some(SessionError::ConnectError),
        Phase::Sending(_) => None,
        Phase::Closed { .. } => None,
        _ => Some(SessionError::StackError),
    }
}

/// The phase after the selection among `found`.
pub open spec fn after_selection(config: ConfigView, found: Seq<PeripheralDescriptor>) -> Phase {
    match first_match(found, config.name_fragment) {
        Some(at) => Phase::Connecting { peripheral: found[at].handle },
        None => Phase::Closed { failure: Some(SessionError::DeviceNotFound) },
    }
}

/// The phase after the two characteristics were looked for among `found`.
pub open spec fn after_resolution(
    config: ConfigView,
    peripheral: usize,
    found: Seq<Characteristic>,
) -> Phase {
    match (resolved(found, config.notify_id), resolved(found, config.command_id)) {
        (Some(notify), Some(command)) => Phase::Subscribing(Link { peripheral, notify, command }),
        _ => Phase::Closed { failure: Some(SessionError::CharacteristicNotFound) },
    }
}

/// The phase that follows `phase` on `event`.
pub open spec fn next_phase(config: ConfigView, phase: Phase, event: Event) -> Phase {
    match event {
        Event::Start => match phase {
            Phase::Idle => Phase::Scanning,
            _ => phase,
        },
        Event::Completed => match phase {
            Phase::Scanning => Phase::Selecting,
            Phase::Connecting { peripheral } => Phase::Discovering { peripheral },
            Phase::Subscribing(link) => Phase::Ready(link),
            Phase::Ready(link) => Phase::Sending(link),
            Phase::Sending(link) => Phase::Listening(link),
            _ => phase,
        },
        Event::Failed => match phase {
            Phase::Sending(link) => Phase::Listening(link),
            _ => match failure_in(phase) {
                Some(error) => Phase::Closed { failure: Some(error) },
                None => phase,
            },
        },
        Event::Peripherals(found) => match phase {
            Phase::Selecting => after_selection(config, found@),
            _ => phase,
        },
        Event::Characteristics(found) => match phase {
            Phase::Discovering { peripheral } => after_resolution(config, peripheral, found@),
            _ => phase,
        },
        Event::Notification(_) => phase,
        Event::Shutdown => match phase {
            Phase::Listening(_) => Phase::Closed { failure: None },
            _ => phase,
        },
        Event::Disconnected => match phase {
            Phase::Listening(_) => Phase::Closed { failure: None },
            _ => phase,
        },
    }
}

/// What the session asks for on entering `phase`.
pub open spec fn entry_action(config: ConfigView, phase: Phase) -> ActionView {
    match phase {
        Phase::Idle => ActionView::Nothing,
        Phase::Scanning => ActionView::StartScan,
        Phase::Selecting => ActionView::ListPeripherals,
        Phase::Connecting { peripheral } => ActionView::Connect { peripheral },
        Phase::Discovering { peripheral } => ActionView::DiscoverCharacteristics { peripheral },
        Phase::Subscribing(link) => ActionView::Subscribe { characteristic: link.notify },
        Phase::Ready(_) => ActionView::OpenNotifications,
        Phase::Sending(link) => ActionView::Write {
            target: link.command,
            bytes: config.command,
            acknowledged: true,
        },
        Phase::Listening(_) => ActionView::Listen {
            handler_ceiling: config.handler_ceiling,
            write_acknowledged: true,
        },
        Phase::Closed { failure } => match failure {
            Some(error) => ActionView::Abort { error },
            None => ActionView::Nothing,
        },
    }
}

/// What the session reports for a notification that holds `raw`.
pub open spec fn verdict(raw: Seq<u8>) -> ActionView {
    match checked(raw) {
        Ok((payload, checksum)) => ActionView::Accept { payload, checksum },
        Err(reason) => ActionView::Reject { reason },
    }
}

/// What the session asks for when `event` comes in `phase`.
pub open spec fn next_action(config: ConfigView, phase: Phase, event: Event) -> ActionView {
    let next = next_phase(config, phase, event);
    match (phase, event) {
        (Phase::Listening(_), Event::Notification(raw)) => verdict(raw@),
        (Phase::Listening(link), Event::Shutdown) => ActionView::Disconnect {
            peripheral: link.peripheral,
            unsubscribe: link.notify,
        },
        (Phase::Listening(link), Event::Disconnected) => ActionView::Release {
            peripheral: link.peripheral,
        },
        (Phase::Sending(_), Event::Failed) => ActionView::Listen {
            handler_ceiling: config.handler_ceiling,
            write_acknowledged: false,
        },
        _ => if next == phase {
            ActionView::Nothing
        } else {
            entry_action(config, next)
        },
    }
}

impl Session {
    /// A session that has not begun.
    pub fn new(config: SessionConfig) -> (session: Session)
        ensures
            session.config == config,
            session.phase == Phase::Idle,
    {
        Session { config, phase: Phase::Idle }
    }

    /// Moves to `phase` and gives the action that entering it asks for.
    fn enter(&mut self, phase: Phase) -> (action: Action)
        ensures
            final(self).config == old(self).config,
            final(self).phase == phase,
            action@ == entry_action(old(self).config@, phase),
    {
        self.phase = phase;
        match phase {
            Phase::Idle => Action::Nothing,
            Phase::Scanning => Action::StartScan,
            Phase::Selecting => Action::ListPeripherals,
            Phase::Connecting { peripheral } => Action::Connect { peripheral },
            Phase::Discovering { peripheral } => Action::DiscoverCharacteristics { peripheral },
            Phase::Subscribing(link) => Action::Subscribe { characteristic: link.notify },
            Phase::Ready(_) => Action::OpenNotifications,
            Phase::Sending(link) => Action::Write {
                target: link.command,
                bytes: encode_command(&self.config.command),
                acknowledged: true,
            },
            Phase::Listening(_) => Action::Listen {
                handler_ceiling: self.config.handler_ceiling,
                write_acknowledged: true,
            },
            Phase::Closed { failure } => match failure {
                Some(error) => Action::Abort { error },
                None => Action::Nothing,
            },
        }
    }

    /// Takes one event: moves the session to the phase that follows, and
    /// gives the action that the caller is to perform next. An event that has
    /// no meaning in the current phase changes nothing and asks for nothing.
    pub fn step(&mut self, event: &Event) -> (action: Action)
        ensures
            final(self).config == old(self).config,
            final(self).phase == next_phase(old(self).config@, old(self).phase, *event),
            action@ == next_action(old(self).config@, old(self).phase, *event),
    {
        let phase: Phase = self.phase;
        match event {
            Event::Start => match phase {
                Phase::Idle => self.enter(Phase::Scanning),
                _ => Action::Nothing,
            },
            Event::Completed => match phase {
                Phase::Scanning => self.enter(Phase::Selecting),
                Phase::Connecting { peripheral } => self.enter(Phase::Discovering { peripheral }),
                Phase::Subscribing(link) => self.enter(Phase::Ready(link)),
                Phase::Ready(link) => self.enter(Phase::Sending(link)),
                Phase::Sending(link) => self.enter(Phase::Listening(link)),
                _ => Action::Nothing,
            },
            Event::Failed => match phase {
                Phase::Idle => Action::Nothing,
                Phase::Closed { .. } => Action::Nothing,
                Phase::Sending(link) => {
                    self.phase = Phase::Listening(link);
                    Action::Listen {
                        handler_ceiling: self.config.handler_ceiling,
                        write_acknowledged: false,
                    }
                },
                Phase::Connecting { .. } => self.enter(
                    Phase::Closed { failure: Some(SessionError::ConnectError) },
                ),
                _ => self.enter(Phase::Closed { failure: Some(SessionError::StackError) }),
            },
            Event::Peripherals(found) => match phase {
                Phase::Selecting => {
                    match select(found.as_slice(), self.config.name_fragment.as_str()) {
                        Some(chosen) => self.enter(Phase::Connecting { peripheral: chosen.handle }),
                        None => self.enter(
                            Phase::Closed { failure: Some(SessionError::DeviceNotFound) },
                        ),
                    }
                },
                _ => Action::Nothing,
            },
            Event::Characteristics(found) => match phase {
                Phase::Discovering { peripheral } => {
                    let notify: Option<Characteristic> = resolve(
                        found.as_slice(),
                        self.config.notify_id,
                    );
                    let command: Option<Characteristic> = resolve(
                        found.as_slice(),
                        self.config.command_id,
                    );
                    match (notify, command) {
                        (Some(notify), Some(command)) => self.enter(
                            Phase::Subscribing(Link { peripheral, notify, command }),
                        ),
                        _ => self.enter(
                            Phase::Closed { failure: Some(SessionError::CharacteristicNotFound) },
                        ),
                    }
                },
                _ => Action::Nothing,
            },
            Event::Notification(raw) => match phase {
                Phase::Listening(_) => match check_notification(raw.as_slice()) {
                    Ok((payload, checksum)) => Action::Accept { payload, checksum },
                    Err(reason) => Action::Reject { reason },
                },
                _ => Action::Nothing,
            },
            Event::Shutdown => match phase {
                Phase::Listening(link) => {
                    self.phase = Phase::Closed { failure: None };
                    Action::Disconnect { peripheral: link.peripheral, unsubscribe: link.notify }
                },
                _ => Action::Nothing,
            },
            Event::Disconnected => match phase {
                Phase::Listening(link) => {
                    self.phase = Phase::Closed { failure: None };
                    Action::Release { peripheral: link.peripheral }
                },
                _ => Action::Nothing,
            },
        }
    }
}

/// Phases are passed in one direction: an event leaves the phase as it is,
/// moves it to the phase that comes next, or closes the session.
pub proof fn phases_only_advance(config: ConfigView, phase: Phase, event: Event)
    ensures
        rank(next_phase(config, phase, event)) >= rank(phase),
        ({
            let next = next_phase(config, phase, event);
            next == phase || rank(next) == rank(phase) + 1 || next is Closed
        }),
{
}

/// A closed session stays as it is, whatever comes, and asks for nothing.
pub proof fn closed_is_final(config: ConfigView, failure: Option<SessionError>, event: Event)
    ensures
        next_phase(config, Phase::Closed { failure }, event) == (Phase::Closed { failure }),
        next_action(config, Phase::Closed { failure }, event) == ActionView::Nothing,
{
}

/// No frame ends a session: a notification leaves a listening session
/// listening, and the answer is the verdict on the frame, never a failure of
/// the session.
pub proof fn frames_leave_session_listening(config: ConfigView, link: Link, raw: Vec<u8>)
    ensures
        next_phase(config, Phase::Listening(link), Event::Notification(raw)) == Phase::Listening(
            link,
        ),
        next_action(config, Phase::Listening(link), Event::Notification(raw)) == verdict(raw@),
        verdict(raw@) is Accept || verdict(raw@) is Reject,
{
}

/// A failure of the stack before the command is sent ends the session, and
/// the session says so: it closes with the failure and asks to abort with it.
/// The failure is `ConnectError` while connecting and `StackError` elsewhere.
pub proof fn startup_failure_ends_session(config: ConfigView, phase: Phase)
    requires
        1 <= rank(phase) <= 6,
    ensures
        failure_in(phase) is Some,
        failure_in(phase) == Some(SessionError::ConnectError) <==> phase is Connecting,
        next_phase(config, phase, Event::Failed) == (Phase::Closed { failure: failure_in(phase) }),
        next_action(config, phase, Event::Failed) == (ActionView::Abort {
            error: failure_in(phase)->0,
        }),
{
}

/// A failed write does not end the session: the session goes on to listen,
/// and the action says that the write was not acknowledged.
pub proof fn failed_write_is_not_fatal(config: ConfigView, link: Link)
    ensures
        next_phase(config, Phase::Sending(link), Event::Failed) == Phase::Listening(link),
        next_action(config, Phase::Sending(link), Event::Failed) == (ActionView::Listen {
            handler_ceiling: config.handler_ceiling,
            write_acknowledged: false,
        }),
{
}

/// No failure is passed over in silence: where the stack reports one to a
/// session that has begun and has not ended, the action reports it.
pub proof fn no_failure_goes_unreported(config: ConfigView, phase: Phase)
    requires
        !(phase is Idle),
        !(phase is Closed),
    ensures
        ({
            let action = next_action(config, phase, Event::Failed);
            action is Abort || (action matches ActionView::Listen { write_acknowledged, .. }
                && !write_acknowledged)
        }),
{
}

/// A listening session accepts a payload that is framed with its own
/// checksum, and gives back that payload and that checksum.
pub proof fn framed_payload_is_accepted(
    config: ConfigView,
    link: Link,
    raw: Vec<u8>,
    payload: Seq<u8>,
)
    requires
        raw@ == framed(payload, checksum(payload)),
    ensures
        next_action(config, Phase::Listening(link), Event::Notification(raw)) == (
        ActionView::Accept { payload, checksum: checksum(payload) }),
{
    framed_payload_round_trips(payload);
}

/// A session that meets no failure listens after eight events. Where a
/// discovered peripheral advertises the fragment and the peripheral exposes
/// both characteristics, the session connects to the first such peripheral,
/// subscribes to the notify characteristic, writes the configured command to
/// the command characteristic and asks for an acknowledgment, and then
/// listens.
pub proof fn uneventful_session_listens(
    config: ConfigView,
    peripherals: Vec<PeripheralDescriptor>,
    characteristics: Vec<Characteristic>,
)
    requires
        first_match(peripherals@, config.name_fragment) is Some,
        resolved(characteristics@, config.notify_id) is Some,
        resolved(characteristics@, config.command_id) is Some,
    ensures
        ({
            let link = Link {
                peripheral: peripherals@[first_match(peripherals@, config.name_fragment)->0].handle,
                notify: resolved(characteristics@, config.notify_id)->0,
                command: resolved(characteristics@, config.command_id)->0,
            };
            let scanning = next_phase(config, Phase::Idle, Event::Start);
            let selecting = next_phase(config, scanning, Event::Completed);
            let connecting = next_phase(config, selecting, Event::Peripherals(peripherals));
            let discovering = next_phase(config, connecting, Event::Completed);
            let subscribing = next_phase(
                config,
                discovering,
                Event::Characteristics(characteristics),
            );
            let ready = next_phase(config, subscribing, Event::Completed);
            let sending = next_phase(config, ready, Event::Completed);
            let listening = next_phase(config, sending, Event::Completed);
            &&& connecting == (Phase::Connecting { peripheral: link.peripheral })
            &&& subscribing == Phase::Subscribing(link)
            &&& next_action(config, discovering, Event::Characteristics(characteristics)) == (
            ActionView::Subscribe { characteristic: link.notify })
            &&& next_action(config, ready, Event::Completed) == (ActionView::Write {
                target: link.command,
                bytes: config.command,
                acknowledged: true,
            })
            &&& listening == Phase::Listening(link)
        }),
{
}

} // verus!
