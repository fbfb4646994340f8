//! The session as a state machine.
//!
//! The library never touches the transport.  It hands out an `Action`, the
//! caller performs it on the device and reports what happened as an
//! `Event`, and the machine answers with the next action.  An exchange is a
//! write followed by one read, so exactly one command is in flight at any
//! time.  This module holds the mathematical model of the machine: the
//! state, and the transition that each event causes.

use crate::command::{fixed_echo_payload, reboot_magic, start_payload};
use crate::echo::echo_reply_valid;
use crate::firmware::{chunk_count_of, chunk_of};
use crate::frame::{is_terminal, request_frame, status_of, CommandKind, ProtocolVersion};
use crate::info::{app_offset_of, info_decodable, info_view_of, InfoView};
use crate::status::{error_of, Failure};
use vstd::prelude::*;

verus! {

/// Timeout of the throwaway read that opens an Info operation and drains
/// what the transport still holds.
pub const DRAIN_TIMEOUT_MS: i32 = 1;

/// Timeout of the read after an Info request.
pub const INFO_TIMEOUT_MS: i32 = 100;

/// Timeout of the read after an Echo request.
pub const ECHO_TIMEOUT_MS: i32 = 100;

/// Timeout of each read while the device erases.
pub const ERASE_TIMEOUT_MS: i32 = 100;

/// Timeout of the read after a StartProgramming request.
pub const START_TIMEOUT_MS: i32 = 400;

/// Timeout of the read after each ProgramData request.
pub const DATA_TIMEOUT_MS: i32 = 40;

/// Timeout of the read after a Reboot request.
pub const REBOOT_TIMEOUT_MS: i32 = 40;

/// Sequence number of an Info request.
pub const INFO_SEQ: u8 = 0;

/// Sequence number of an Echo request.
pub const ECHO_SEQ: u8 = 9;

/// Sequence number of an EraseApp request.
pub const ERASE_SEQ: u8 = 0;

/// Sequence number of a StartProgramming request.
pub const START_SEQ: u8 = 9;

/// Sequence number of every ProgramData request.  The device tells the
/// chunks apart by counting bytes, not by this number.
pub const DATA_SEQ: u8 = 1;

/// Sequence number of a Reboot request.
pub const REBOOT_SEQ: u8 = 3;

/// What the transport reported of the last action.
#[derive(Clone, Copy, Debug, PartialEq, Eq)]
pub enum Event {
    /// The read returned bytes; these are the eight bytes of its buffer.
    Received([u8; 8]),
    /// The read returned no byte before its deadline.
    TimedOut,
    /// The write or the read itself failed.
    TransportFailed,
}

/// Where a session stands.
#[derive(Clone, Copy, Debug, PartialEq, Eq, Structural)]
pub enum Phase {
    /// No operation was started yet.
    Idle,
    /// Info: the throwaway read is under way.
    InfoDrain,
    /// Info: the request was sent, once or, after one timeout, twice.
    InfoQuery { retried: bool },
    /// Echo: the request was sent.
    Echo,
    /// Erase: the request was sent and no terminal frame has come yet.
    Erasing,
    /// Program: the StartProgramming request was sent.
    ProgramStarted,
    /// Program: the chunks up to and including `chunk` were sent.
    Streaming { chunk: usize },
    /// Reboot: the request was sent.
    Rebooting,
    /// The last operation succeeded.
    Done,
    /// The last operation was given up.
    Failed(Failure),
}

/// What the caller is to do next.
#[derive(Debug, PartialEq, Eq)]
pub enum Action {
    /// Read one frame, waiting at most `timeout_ms` milliseconds.
    Listen { timeout_ms: i32 },
    /// Write `frame`, then read one frame, waiting at most `timeout_ms`
    /// milliseconds.
    Exchange { frame: Vec<u8>, timeout_ms: i32 },
    /// Nothing: the operation succeeded.
    Done,
    /// Nothing: the operation was given up.
    Abort(Failure),
}

/// An action, with the frame as a sequence of bytes.
pub enum ActionView {
    Listen { timeout_ms: i32 },
    Exchange { frame: Seq<u8>, timeout_ms: i32 },
    Done,
    Abort(Failure),
}

impl View for Action {
    type V = ActionView;

    open spec fn view(&self) -> ActionView {
        match *self {
            Action::Listen { timeout_ms } => ActionView::Listen { timeout_ms },
            Action::Exchange { frame, timeout_ms } => ActionView::Exchange {
                frame: frame@,
                timeout_ms,
            },
            Action::Done => ActionView::Done,
            Action::Abort(failure) => ActionView::Abort(failure),
        }
    }
}

impl ActionView {
    /// Whether the action asks for a write or a read on the transport.
    pub open spec fn touches_transport(self) -> bool {
        self is Listen || self is Exchange
    }
}

/// The state of a session.
pub struct Session {
    /// The protocol version that the session was made for.
    pub version: ProtocolVersion,
    /// The flash offset of the application: zero until an Info operation
    /// succeeds.
    pub app_offset: nat,
    /// Where the session stands.
    pub phase: Phase,
    /// The image of the last Program operation.
    pub firmware: Seq<u8>,
    /// The payload of the last Echo request.
    pub echo_payload: Seq<u8>,
    /// What the last successful Info operation reported.
    pub info: Option<InfoView>,
}

impl Session {
    /// Whether no operation is under way.
    pub open spec fn settled(self) -> bool {
        self.phase is Idle || self.phase is Done || self.phase is Failed
    }

    /// The endpoint id that opens every request of the session.
    pub open spec fn endpoint(self) -> u8 {
        self.version.spec_endpoint()
    }

    /// The Info request of the session.
    pub open spec fn info_request(self) -> Seq<u8> {
        request_frame(self.endpoint(), CommandKind::Info, INFO_SEQ, Seq::empty())
    }

    /// The Echo request with the payload that the session holds.
    pub open spec fn echo_request(self) -> Seq<u8> {
        request_frame(self.endpoint(), CommandKind::Echo, ECHO_SEQ, self.echo_payload)
    }

    /// The EraseApp request of the session.
    pub open spec fn erase_request(self) -> Seq<u8> {
        request_frame(self.endpoint(), CommandKind::EraseApp, ERASE_SEQ, Seq::empty())
    }

    /// The StartProgramming request for the image and the application
    /// offset that the session holds.
    pub open spec fn start_request(self) -> Seq<u8> {
        request_frame(
            self.endpoint(),
            CommandKind::StartProgramming,
            START_SEQ,
            start_payload(self.firmware.len(), self.app_offset),
        )
    }

    /// The ProgramData request for chunk `chunk` of the image.
    pub open spec fn data_request(self, chunk: nat) -> Seq<u8> {
        request_frame(
            self.endpoint(),
            CommandKind::ProgramData,
            DATA_SEQ,
            chunk_of(self.firmware, chunk),
        )
    }

    /// The Reboot request of the session.
    pub open spec fn reboot_request(self) -> Seq<u8> {
        request_frame(self.endpoint(), CommandKind::Reboot, REBOOT_SEQ, reboot_magic())
    }

    /// The session in another phase.
    pub open spec fn at(self, phase: Phase) -> Session {
        Session { phase, ..self }
    }

    /// The operation succeeds.
    pub open spec fn finish(self) -> (Session, ActionView) {
        (self.at(Phase::Done), ActionView::Done)
    }

    /// The operation is given up.
    pub open spec fn fail(self, failure: Failure) -> (Session, ActionView) {
        (self.at(Phase::Failed(failure)), ActionView::Abort(failure))
    }

    /// Chunk `chunk` goes out, or the operation succeeds if the image has
    /// no such chunk.
    pub open spec fn send_chunk(self, chunk: nat) -> (Session, ActionView) {
        if chunk < chunk_count_of(self.firmware.len()) {
            (
                self.at(Phase::Streaming { chunk: chunk as usize }),
                ActionView::Exchange {
                    frame: self.data_request(chunk),
                    timeout_ms: DATA_TIMEOUT_MS,
                },
            )
        } else {
            self.finish()
        }
    }

    /// The Info request goes out, for the first or the second time.
    pub open spec fn send_info(self, retried: bool) -> (Session, ActionView) {
        (
            self.at(Phase::InfoQuery { retried }),
            ActionView::Exchange { frame: self.info_request(), timeout_ms: INFO_TIMEOUT_MS },
        )
    }
}

/// A fresh session: idle, with the application offset at zero.
pub open spec fn initial(version: ProtocolVersion) -> Session {
    Session {
        version,
        app_offset: 0,
        phase: Phase::Idle,
        firmware: Seq::empty(),
        echo_payload: fixed_echo_payload(),
        info: None,
    }
}

/// Starting an Info operation: a throwaway read comes first.
pub open spec fn begin_info(s: Session) -> (Session, ActionView) {
    (s.at(Phase::InfoDrain), ActionView::Listen { timeout_ms: DRAIN_TIMEOUT_MS })
}

/// Starting an Echo self-test with the given payload.
pub open spec fn begin_echo(s: Session, payload: Seq<u8>) -> (Session, ActionView) {
    let next = Session { echo_payload: payload, phase: Phase::Echo, ..s };
    (next, ActionView::Exchange { frame: next.echo_request(), timeout_ms: ECHO_TIMEOUT_MS })
}

/// Starting an Erase operation.
pub open spec fn begin_erase(s: Session) -> (Session, ActionView) {
    (
        s.at(Phase::Erasing),
        ActionView::Exchange { frame: s.erase_request(), timeout_ms: ERASE_TIMEOUT_MS },
    )
}

/// Starting a Program operation for the given image.  The request carries
/// the application offset that the session holds.
pub open spec fn begin_program(s: Session, firmware: Seq<u8>) -> (Session, ActionView) {
    if s.version.spec_supports(CommandKind::StartProgramming) && s.version.spec_supports(
        CommandKind::ProgramData,
    ) {
        let next = Session { firmware, phase: Phase::ProgramStarted, ..s };
        (
            next,
            ActionView::Exchange { frame: next.start_request(), timeout_ms: START_TIMEOUT_MS },
        )
    } else {
        s.fail(Failure::Unsupported)
    }
}

/// Starting a Reboot operation.
pub open spec fn begin_reboot(s: Session) -> (Session, ActionView) {
    if s.version.spec_supports(CommandKind::Reboot) {
        (
            s.at(Phase::Rebooting),
            ActionView::Exchange { frame: s.reboot_request(), timeout_ms: REBOOT_TIMEOUT_MS },
        )
    } else {
        s.fail(Failure::Unsupported)
    }
}

/// After the throwaway read: whatever it returned, the Info request goes
/// out.
pub open spec fn after_drain(s: Session, event: Event) -> (Session, ActionView) {
    match event {
        Event::TransportFailed => s.fail(Failure::Transport),
        _ => s.send_info(false),
    }
}

/// After an Info exchange: a first timeout is answered with one more
/// request, a second one is final.  A response sets the application offset,
/// unless its geometry cannot be held.
pub open spec fn after_info(s: Session, retried: bool, event: Event) -> (Session, ActionView) {
    match event {
        Event::TransportFailed => s.fail(Failure::Transport),
        Event::TimedOut => if retried {
            s.fail(Failure::Timeout)
        } else {
            s.send_info(true)
        },
        Event::Received(frame) => if info_decodable(frame@) {
            Session {
                app_offset: app_offset_of(frame@),
                info: Some(info_view_of(frame@)),
                ..s
            }.finish()
        } else {
            s.fail(Failure::InvalidInfo)
        },
    }
}

/// After an Echo exchange: one attempt, and the response must be the
/// expected one.  A response that deviates in any way, a non-zero status
/// included, is a protocol failure.
pub open spec fn after_echo(s: Session, event: Event) -> (Session, ActionView) {
    match event {
        Event::TransportFailed => s.fail(Failure::Transport),
        Event::TimedOut => s.fail(Failure::Timeout),
        Event::Received(frame) => if echo_reply_valid(s.echo_request(), frame@) {
            s.finish()
        } else {
            s.fail(Failure::Protocol)
        },
    }
}

/// After a read of an Erase operation: a non-zero status ends it at once;
/// a terminal frame completes it; any other frame is followed by one more
/// read.
pub open spec fn after_erase(s: Session, event: Event) -> (Session, ActionView) {
    match event {
        Event::TransportFailed => s.fail(Failure::Transport),
        Event::TimedOut => s.fail(Failure::Timeout),
        Event::Received(frame) => if status_of(frame@) != 0 {
            s.fail(Failure::Device(error_of(status_of(frame@))))
        } else if is_terminal(frame@) {
            s.finish()
        } else {
            (s, ActionView::Listen { timeout_ms: ERASE_TIMEOUT_MS })
        },
    }
}

/// After the StartProgramming exchange: status zero lets the first chunk
/// go out.
pub open spec fn after_start(s: Session, event: Event) -> (Session, ActionView) {
    match event {
        Event::TransportFailed => s.fail(Failure::Transport),
        Event::TimedOut => s.fail(Failure::Timeout),
        Event::Received(frame) => if status_of(frame@) != 0 {
            s.fail(Failure::Device(error_of(status_of(frame@))))
        } else {
            s.send_chunk(0)
        },
    }
}

/// After the exchange of chunk `chunk`: a non-zero status ends the upload
/// at once; status zero lets the next chunk go out, and completes the
/// operation after the last one.
pub open spec fn after_chunk(s: Session, chunk: usize, event: Event) -> (Session, ActionView) {
    match event {
        Event::TransportFailed => s.fail(Failure::Transport),
        Event::TimedOut => s.fail(Failure::Timeout),
        Event::Received(frame) => if status_of(frame@) != 0 {
            s.fail(Failure::Device(error_of(status_of(frame@))))
        } else {
            s.send_chunk((chunk + 1) as nat)
        },
    }
}

/// After the Reboot exchange: silence means that the device left the bus
/// to restart, and counts as success.
pub open spec fn after_reboot(s: Session, event: Event) -> (Session, ActionView) {
    match event {
        Event::TransportFailed => s.fail(Failure::Transport),
        Event::TimedOut => s.finish(),
        Event::Received(frame) => if status_of(frame@) != 0 {
            s.fail(Failure::Device(error_of(status_of(frame@))))
        } else {
            s.finish()
        },
    }
}

/// The transition of the machine: the state after an event, and the action
/// that answers it.  A settled session ignores events.
pub open spec fn on_event(s: Session, event: Event) -> (Session, ActionView) {
    match s.phase {
        Phase::Idle => (s, ActionView::Done),
        Phase::Done => (s, ActionView::Done),
        Phase::Failed(failure) => (s, ActionView::Abort(failure)),
        Phase::InfoDrain => after_drain(s, event),
        Phase::InfoQuery { retried } => after_info(s, retried, event),
        Phase::Echo => after_echo(s, event),
        Phase::Erasing => after_erase(s, event),
        Phase::ProgramStarted => after_start(s, event),
        Phase::Streaming { chunk } => after_chunk(s, chunk, event),
        Phase::Rebooting => after_reboot(s, event),
    }
}

/// The machine after a sequence of events, and the actions that answered
/// them.
pub open spec fn run(s: Session, events: Seq<Event>) -> (Session, Seq<ActionView>)
    decreases events.len(),
{
    if events.len() == 0 {
        (s, Seq::empty())
    } else {
        let (before, actions) = run(s, events.drop_last());
        let (after, action) = on_event(before, events.last());
        (after, actions.push(action))
    }
}

} // verus!
