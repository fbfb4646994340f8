//! The bootloader session.
//!
//! A `Bootloader` holds what the host knows of one device and runs one
//! operation at a time.  A method that is named after an operation starts
//! it and returns the first action; `advance` takes what the transport
//! reported of the last action and returns the next one.  Each of them does
//! what the model in `machine` says, for every state and every event.

use crate::command::fixed_echo_payload;
use crate::echo::check_echo;
use crate::entropy::draw_payload;
use crate::firmware::{chunk, chunk_count, chunk_count_of};
use crate::frame::{encode, CommandKind, ProtocolVersion};
pub use crate::info::BootloaderInfo;
use crate::machine::{
    after_chunk, after_drain, after_echo, after_erase, after_info, after_reboot, after_start,
    begin_echo, begin_erase, begin_info, begin_program, begin_reboot, initial, on_event, Action,
    Event, Phase, Session, DATA_SEQ, DATA_TIMEOUT_MS, DRAIN_TIMEOUT_MS, ECHO_SEQ, ECHO_TIMEOUT_MS,
    ERASE_SEQ, ERASE_TIMEOUT_MS, INFO_SEQ, INFO_TIMEOUT_MS, REBOOT_SEQ, REBOOT_TIMEOUT_MS,
    START_SEQ, START_TIMEOUT_MS,
};
pub use crate::status::{
    bootloader_error_from_u8, dumb_from, BootloaderError, BootloaderReason, Failure,
};
use vstd::prelude::*;

verus! {

/// A session with one bootloader.
pub struct Bootloader {
    version: ProtocolVersion,
    app_offset: u32,
    phase: Phase,
    firmware: Vec<u8>,
    echo_payload: [u8; 7],
    info: Option<BootloaderInfo>,
}

impl View for Bootloader {
    type V = Session;

    closed spec fn view(&self) -> Session {
        Session {
            version: self.version,
            app_offset: self.app_offset as nat,
            phase: self.phase,
            firmware: self.firmware@,
            echo_payload: self.echo_payload@,
            info: match self.info {
                Some(info) => Some(info@),
                None => None,
            },
        }
    }
}

impl Bootloader {
    /// A fresh session for a device that speaks the given protocol version.
    pub fn new(version: ProtocolVersion) -> (session: Bootloader)
        ensures
            session@ == initial(version),
    {
        let echo_payload: [u8; 7] = [0xff, 0xff, 0xff, 0xff, 0xff, 0xff, 0xff];
        assert(echo_payload@ =~= fixed_echo_payload());
        let firmware: Vec<u8> = Vec::new();
        Bootloader {
            version,
            app_offset: 0,
            phase: Phase::Idle,
            firmware,
            echo_payload,
            info: None,
        }
    }

    /// The protocol version of the session.
    pub fn version(&self) -> (version: ProtocolVersion)
        ensures
            version == self@.version,
    {
        self.version
    }

    /// Where the session stands.
    pub fn phase(&self) -> (phase: Phase)
        ensures
            phase == self@.phase,
    {
        self.phase
    }

    /// The flash offset of the application: zero until an Info operation
    /// succeeds.
    pub fn app_offset(&self) -> (offset: u32)
        ensures
            offset == self@.app_offset,
    {
        self.app_offset
    }

    /// What the last successful Info operation reported.
    pub fn info(&self) -> (info: Option<BootloaderInfo>)
        ensures
            info.is_some() == self@.info.is_some(),
            info.is_some() ==> info.unwrap()@ == self@.info.unwrap(),
    {
        self.info
    }

    /// Whether no operation is under way.
    pub fn is_settled(&self) -> (settled: bool)
        ensures
            settled == self@.settled(),
    {
        match self.phase {
            Phase::Idle | Phase::Done | Phase::Failed(_) => true,
            _ => false,
        }
    }

    /// Starts an Info operation, which reads the flash geometry and sets
    /// the application offset.
    pub fn print_info(&mut self) -> (action: Action)
        ensures
            (final(self)@, action@) == begin_info(old(self)@),
    {
        self.phase = Phase::InfoDrain;
        Action::Listen { timeout_ms: DRAIN_TIMEOUT_MS }
    }

    /// Starts an Echo self-test with the fixed payload.
    pub fn echo_test(&mut self) -> (action: Action)
        ensures
            (final(self)@, action@) == begin_echo(old(self)@, fixed_echo_payload()),
    {
        let payload: [u8; 7] = [0xff, 0xff, 0xff, 0xff, 0xff, 0xff, 0xff];
        assert(payload@ =~= fixed_echo_payload());
        self.echo_test_with(payload)
    }

    /// Starts an Echo self-test with the given payload.
    pub fn echo_test_with(&mut self, payload: [u8; 7]) -> (action: Action)
        ensures
            (final(self)@, action@) == begin_echo(old(self)@, payload@),
    {
        self.echo_payload = payload;
        self.phase = Phase::Echo;
        let frame = encode(
            self.version.endpoint(),
            CommandKind::Echo,
            ECHO_SEQ,
            self.echo_payload.as_slice(),
        );
        Action::Exchange { frame, timeout_ms: ECHO_TIMEOUT_MS }
    }

    /// The payload of an Echo self-test that asked for random bytes: the
    /// bytes that were drawn, or the fixed payload if there are none.
    pub fn echo_payload_from(drawn: Option<[u8; 7]>) -> (payload: [u8; 7])
        ensures
            drawn.is_some() ==> payload == drawn.unwrap(),
            drawn.is_none() ==> payload@ == fixed_echo_payload(),
    {
        match drawn {
            Some(bytes) => bytes,
            None => {
                let payload: [u8; 7] = [0xff, 0xff, 0xff, 0xff, 0xff, 0xff, 0xff];
                payload
            },
        }
    }

    /// Starts an Echo self-test with seven bytes from the random source of
    /// the operating system, or with the fixed payload where that source
    /// delivers nothing.
    pub fn echo_test_random(&mut self) -> (action: Action)
        ensures
            exists|payload: Seq<u8>|
                payload.len() == 7 && (final(self)@, action@) == #[trigger] begin_echo(
                    old(self)@,
                    payload,
                ),
    {
        let payload = Self::echo_payload_from(draw_payload());
        self.echo_test_with(payload)
    }

    /// Starts an Erase operation, which erases the whole application
    /// region.
    pub fn erase_app(&mut self) -> (action: Action)
        ensures
            (final(self)@, action@) == begin_erase(old(self)@),
    {
        self.phase = Phase::Erasing;
        let frame = Self::make_erase_app_cmd(self.version.endpoint(), ERASE_SEQ);
        Action::Exchange { frame, timeout_ms: ERASE_TIMEOUT_MS }
    }

    /// Starts a Program operation, which writes the image to the flash at
    /// the application offset of the session.
    pub fn program_app(&mut self, firmware: Vec<u8>) -> (action: Action)
        ensures
            (final(self)@, action@) == begin_program(old(self)@, firmware@),
    {
        if self.version.supports(CommandKind::StartProgramming) && self.version.supports(
            CommandKind::ProgramData,
        ) {
            self.firmware = firmware;
            self.phase = Phase::ProgramStarted;
            let frame = Self::make_start_cmd(
                self.version.endpoint(),
                START_SEQ,
                self.firmware.len(),
                self.app_offset,
            );
            Action::Exchange { frame, timeout_ms: START_TIMEOUT_MS }
        } else {
            self.fail(Failure::Unsupported)
        }
    }

    /// Starts a Reboot operation.
    pub fn reboot(&mut self) -> (action: Action)
        ensures
            (final(self)@, action@) == begin_reboot(old(self)@),
    {
        if self.version.supports(CommandKind::Reboot) {
            self.phase = Phase::Rebooting;
            let frame = Self::make_reboot_cmd(self.version.endpoint(), REBOOT_SEQ);
            Action::Exchange { frame, timeout_ms: REBOOT_TIMEOUT_MS }
        } else {
            self.fail(Failure::Unsupported)
        }
    }

    /// Takes what the transport reported of the last action and returns
    /// the next action.
    pub fn advance(&mut self, event: Event) -> (action: Action)
        ensures
            (final(self)@, action@) == on_event(old(self)@, event),
    {
        match self.phase {
            Phase::Idle => Action::Done,
            Phase::Done => Action::Done,
            Phase::Failed(failure) => Action::Abort(failure),
            Phase::InfoDrain => self.after_drain(event),
            Phase::InfoQuery { retried } => self.after_info(retried, event),
            Phase::Echo => self.after_echo(event),
            Phase::Erasing => self.after_erase(event),
            Phase::ProgramStarted => self.after_start(event),
            Phase::Streaming { chunk } => self.after_chunk(chunk, event),
            Phase::Rebooting => self.after_reboot(event),
        }
    }

    fn finish(&mut self) -> (action: Action)
        ensures
            (final(self)@, action@) == old(self)@.finish(),
    {
        self.phase = Phase::Done;
        Action::Done
    }

    fn fail(&mut self, failure: Failure) -> (action: Action)
        ensures
            (final(self)@, action@) == old(self)@.fail(failure),
    {
        self.phase = Phase::Failed(failure);
        Action::Abort(failure)
    }

    fn send_info(&mut self, retried: bool) -> (action: Action)
        ensures
            (final(self)@, action@) == old(self)@.send_info(retried),
    {
        self.phase = Phase::InfoQuery { retried };
        let frame = Self::make_info_cmd(self.version.endpoint(), INFO_SEQ);
        Action::Exchange { frame, timeout_ms: INFO_TIMEOUT_MS }
    }

    fn send_chunk(&mut self, index: usize) -> (action: Action)
        ensures
            (final(self)@, action@) == old(self)@.send_chunk(index as nat),
    {
        if index < chunk_count(self.firmware.len()) {
            self.phase = Phase::Streaming { chunk: index };
            let piece = chunk(self.firmware.as_slice(), index);
            let frame = Self::make_program_data(self.version.endpoint(), DATA_SEQ, piece);
            Action::Exchange { frame, timeout_ms: DATA_TIMEOUT_MS }
        } else {
            self.finish()
        }
    }

    fn after_drain(&mut self, event: Event) -> (action: Action)
        ensures
            (final(self)@, action@) == after_drain(old(self)@, event),
    {
        match event {
            Event::TransportFailed => self.fail(Failure::Transport),
            _ => self.send_info(false),
        }
    }

    fn after_info(&mut self, retried: bool, event: Event) -> (action: Action)
        ensures
            (final(self)@, action@) == after_info(old(self)@, retried, event),
    {
        match event {
            Event::TransportFailed => self.fail(Failure::Transport),
            Event::TimedOut => if retried {
                self.fail(Failure::Timeout)
            } else {
                self.send_info(true)
            },
            Event::Received(frame) => match Self::decode_bootloader_info(frame) {
                Some(info) => {
                    self.app_offset = info.app_offset();
                    self.info = Some(info);
                    self.finish()
                },
                None => self.fail(Failure::InvalidInfo),
            },
        }
    }

    fn after_echo(&mut self, event: Event) -> (action: Action)
        ensures
            (final(self)@, action@) == after_echo(old(self)@, event),
    {
        match event {
            Event::TransportFailed => self.fail(Failure::Transport),
            Event::TimedOut => self.fail(Failure::Timeout),
            Event::Received(frame) => {
                let request = encode(
                    self.version.endpoint(),
                    CommandKind::Echo,
                    ECHO_SEQ,
                    self.echo_payload.as_slice(),
                );
                if check_echo(request.as_slice(), &frame) {
                    self.finish()
                } else {
                    self.fail(Failure::Protocol)
                }
            },
        }
    }

    fn after_erase(&mut self, event: Event) -> (action: Action)
        ensures
            (final(self)@, action@) == after_erase(old(self)@, event),
    {
        match event {
            Event::TransportFailed => self.fail(Failure::Transport),
            Event::TimedOut => self.fail(Failure::Timeout),
            Event::Received(frame) => {
                let response = crate::frame::decode(&frame);
                if response.status != 0 {
                    self.fail(Failure::Device(bootloader_error_from_u8(response.status)))
                } else if response.is_terminal() {
                    self.finish()
                } else {
                    Action::Listen { timeout_ms: ERASE_TIMEOUT_MS }
                }
            },
        }
    }

    fn after_start(&mut self, event: Event) -> (action: Action)
        ensures
            (final(self)@, action@) == after_start(old(self)@, event),
    {
        match event {
            Event::TransportFailed => self.fail(Failure::Transport),
            Event::TimedOut => self.fail(Failure::Timeout),
            Event::Received(frame) => {
                let status = frame[1];
                if status != 0 {
                    self.fail(Failure::Device(bootloader_error_from_u8(status)))
                } else {
                    self.send_chunk(0)
                }
            },
        }
    }

    fn after_chunk(&mut self, sent: usize, event: Event) -> (action: Action)
        ensures
            (final(self)@, action@) == after_chunk(old(self)@, sent, event),
    {
        match event {
            Event::TransportFailed => self.fail(Failure::Transport),
            Event::TimedOut => self.fail(Failure::Timeout),
            Event::Received(frame) => {
                let status = frame[1];
                if status != 0 {
                    self.fail(Failure::Device(bootloader_error_from_u8(status)))
                } else if sent == usize::MAX {
                    assert(chunk_count_of(self.firmware.len() as nat) <= sent);
                    self.finish()
                } else {
                    self.send_chunk(sent + 1)
                }
            },
        }
    }

    fn after_reboot(&mut self, event: Event) -> (action: Action)
        ensures
            (final(self)@, action@) == after_reboot(old(self)@, event),
    {
        match event {
            Event::TransportFailed => self.fail(Failure::Transport),
            Event::TimedOut => self.finish(),
            Event::Received(frame) => {
                let status = frame[1];
                if status != 0 {
                    self.fail(Failure::Device(bootloader_error_from_u8(status)))
                } else {
                    self.finish()
                }
            },
        }
    }
}

} // verus!
