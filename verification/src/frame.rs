//! The frame codec.
//!
//! A request is nine bytes: the endpoint id, a command byte that carries the
//! command id in its low nibble and the sequence number in its high nibble,
//! and seven payload bytes.  A response is eight bytes: a byte with the
//! echoed sequence number in its high nibble and the frame type in its low
//! nibble, a status byte, and six payload bytes.

use vstd::prelude::*;

verus! {

/// Length of a request frame, endpoint id included.
pub const REQUEST_LEN: usize = 9;

/// Length of a response frame.
pub const RESPONSE_LEN: usize = 8;

/// Number of payload bytes in a request frame.
pub const PAYLOAD_LEN: usize = 7;

/// The frame type of a response that ends an operation.
pub const RESULT_FRAME: u8 = 15;

/// The commands of the bootloader protocol.
#[derive(Clone, Copy, Debug, PartialEq, Eq, Structural)]
pub enum CommandKind {
    Info,
    EraseApp,
    StartProgramming,
    ProgramData,
    Echo,
    Reboot,
}

/// The two versions of the protocol.  They differ in the endpoint id that
/// opens every request and in the commands that the device understands.
#[derive(Clone, Copy, Debug, PartialEq, Eq, Structural)]
pub enum ProtocolVersion {
    /// Endpoint 1: every command.
    Full,
    /// Endpoint 2: Info, EraseApp and Echo only.
    Minimal,
}

impl CommandKind {
    /// The command id, as it travels in the low nibble of the command byte.
    pub open spec fn spec_id(self) -> u8 {
        match self {
            CommandKind::Info => 0,
            CommandKind::EraseApp => 2,
            CommandKind::StartProgramming => 3,
            CommandKind::ProgramData => 4,
            CommandKind::Echo => 9,
            CommandKind::Reboot => 10,
        }
    }

    /// The byte that fills the unused tail of the payload: `0xff` for
    /// firmware data, zero for control commands.
    pub open spec fn spec_pad(self) -> u8 {
        match self {
            CommandKind::ProgramData => 0xff,
            _ => 0,
        }
    }

    /// The command that an id stands for, if any.
    pub open spec fn spec_from_id(id: u8) -> Option<CommandKind> {
        match id {
            0 => Some(CommandKind::Info),
            2 => Some(CommandKind::EraseApp),
            3 => Some(CommandKind::StartProgramming),
            4 => Some(CommandKind::ProgramData),
            9 => Some(CommandKind::Echo),
            10 => Some(CommandKind::Reboot),
            _ => None,
        }
    }

    #[verifier::when_used_as_spec(spec_id)]
    pub fn id(self) -> (id: u8)
        ensures
            id == self.spec_id(),
            id < 16,
    {
        match self {
            CommandKind::Info => 0,
            CommandKind::EraseApp => 2,
            CommandKind::StartProgramming => 3,
            CommandKind::ProgramData => 4,
            CommandKind::Echo => 9,
            CommandKind::Reboot => 10,
        }
    }

    #[verifier::when_used_as_spec(spec_pad)]
    pub fn pad(self) -> (pad: u8)
        ensures
            pad == self.spec_pad(),
    {
        match self {
            CommandKind::ProgramData => 0xff,
            _ => 0,
        }
    }

    #[verifier::when_used_as_spec(spec_from_id)]
    pub fn from_id(id: u8) -> (kind: Option<CommandKind>)
        ensures
            kind == CommandKind::spec_from_id(id),
    {
        match id {
            0 => Some(CommandKind::Info),
            2 => Some(CommandKind::EraseApp),
            3 => Some(CommandKind::StartProgramming),
            4 => Some(CommandKind::ProgramData),
            9 => Some(CommandKind::Echo),
            10 => Some(CommandKind::Reboot),
            _ => None,
        }
    }
}

impl ProtocolVersion {
    /// The endpoint id that opens every request of this version.
    pub open spec fn spec_endpoint(self) -> u8 {
        match self {
            ProtocolVersion::Full => 1,
            ProtocolVersion::Minimal => 2,
        }
    }

    /// Whether the command belongs to this version's command set.
    pub open spec fn spec_supports(self, kind: CommandKind) -> bool {
        match self {
            ProtocolVersion::Full => true,
            ProtocolVersion::Minimal => kind == CommandKind::Info || kind == CommandKind::EraseApp
                || kind == CommandKind::Echo,
        }
    }

    #[verifier::when_used_as_spec(spec_endpoint)]
    pub fn endpoint(self) -> (endpoint: u8)
        ensures
            endpoint == self.spec_endpoint(),
    {
        match self {
            ProtocolVersion::Full => 1,
            ProtocolVersion::Minimal => 2,
        }
    }

    #[verifier::when_used_as_spec(spec_supports)]
    pub fn supports(self, kind: CommandKind) -> (supported: bool)
        ensures
            supported == self.spec_supports(kind),
    {
        match self {
            ProtocolVersion::Full => true,
            ProtocolVersion::Minimal => match kind {
                CommandKind::Info | CommandKind::EraseApp | CommandKind::Echo => true,
                _ => false,
            },
        }
    }
}

/// The command byte: the command id in the low nibble and the sequence
/// number, taken modulo 16, in the high nibble.
pub open spec fn command_byte(kind: CommandKind, seq: u8) -> u8 {
    ((seq % 16) * 16 + kind.spec_id()) as u8
}

/// The seven payload bytes of a request: the given bytes, cut after the
/// seventh, then the pad byte up to seven.
pub open spec fn padded_payload(payload: Seq<u8>, pad: u8) -> Seq<u8> {
    Seq::new(
        7,
        |i: int|
            if i < payload.len() {
                payload[i]
            } else {
                pad
            },
    )
}

/// The request frame for a command.
pub open spec fn request_frame(endpoint: u8, kind: CommandKind, seq: u8, payload: Seq<u8>) -> Seq<
    u8,
> {
    seq![endpoint, command_byte(kind, seq)] + padded_payload(payload, kind.spec_pad())
}

/// The sequence number that a response echoes.
pub open spec fn seq_echo_of(frame: Seq<u8>) -> u8 {
    frame[0] / 16
}

/// The frame type of a response.
pub open spec fn frame_type_of(frame: Seq<u8>) -> u8 {
    frame[0] % 16
}

/// The status byte of a response; zero means success.
pub open spec fn status_of(frame: Seq<u8>) -> u8 {
    frame[1]
}

/// Whether a response ends its operation.  No other frame type does.
pub open spec fn is_terminal(frame: Seq<u8>) -> bool {
    frame_type_of(frame) == RESULT_FRAME
}

/// A decoded response frame.
#[derive(Clone, Copy, Debug, PartialEq, Eq)]
pub struct Response {
    pub seq_echo: u8,
    pub frame_type: u8,
    pub status: u8,
    pub payload: [u8; 6],
}

impl Response {
    /// Whether this response ends its operation.
    pub fn is_terminal(&self) -> (terminal: bool)
        ensures
            terminal == (self.frame_type == RESULT_FRAME),
    {
        self.frame_type == RESULT_FRAME
    }
}

/// Builds the request frame for a command.  A payload shorter than seven
/// bytes is filled up with the command's pad byte; bytes after the seventh
/// are left out.
pub fn encode(endpoint: u8, kind: CommandKind, seq: u8, payload: &[u8]) -> (frame: Vec<u8>)
    ensures
        frame@ == request_frame(endpoint, kind, seq, payload@),
{
    let id = kind.id();
    let header: u8 = id | ((seq & 0x0f) << 4);
    assert(header == ((seq % 16) * 16 + id) as u8) by (bit_vector)
        requires
            id < 16,
            header == id | ((seq & 0x0f) << 4),
    ;
    let pad = kind.pad();
    let mut frame: Vec<u8> = Vec::with_capacity(REQUEST_LEN);
    frame.push(endpoint);
    frame.push(header);
    let mut i: usize = 0;
    while i < PAYLOAD_LEN
        invariant
            i <= PAYLOAD_LEN,
            pad == kind.spec_pad(),
            frame@.len() == i + 2,
            frame@[0] == endpoint,
            frame@[1] == command_byte(kind, seq),
            forall|j: int|
                0 <= j < i ==> frame@[j + 2] == padded_payload(payload@, kind.spec_pad())[j],
        decreases PAYLOAD_LEN - i,
    {
        let byte = if i < payload.len() {
            payload[i]
        } else {
            pad
        };
        frame.push(byte);
        i += 1;
    }
    frame
}

/// Splits a response frame into its fields.
pub fn decode(frame: &[u8; 8]) -> (response: Response)
    ensures
        response.seq_echo == seq_echo_of(frame@),
        response.frame_type == frame_type_of(frame@),
        response.status == status_of(frame@),
        response.payload@ == frame@.subrange(2, 8),
{
    let head = frame[0];
    let seq_echo = head >> 4;
    let frame_type = head & 0x0f;
    assert(seq_echo == head / 16) by (bit_vector)
        requires
            seq_echo == head >> 4,
    ;
    assert(frame_type == head % 16) by (bit_vector)
        requires
            frame_type == head & 0x0f,
    ;
    let payload = [frame[2], frame[3], frame[4], frame[5], frame[6], frame[7]];
    Response { seq_echo, frame_type, status: frame[1], payload }
}

/// The eight bytes that follow the endpoint id of a request have the
/// layout of a response, and reading them back as one recovers the command
/// id and the sequence number modulo 16: every sequence number from 0 to 15
/// comes back unchanged.
pub proof fn lemma_header_round_trip(endpoint: u8, kind: CommandKind, seq: u8, payload: Seq<u8>)
    ensures
        request_frame(endpoint, kind, seq, payload).len() == 9,
        frame_type_of(request_frame(endpoint, kind, seq, payload).subrange(1, 9)) == kind.spec_id(),
        CommandKind::spec_from_id(
            frame_type_of(request_frame(endpoint, kind, seq, payload).subrange(1, 9)),
        ) == Some(kind),
        seq_echo_of(request_frame(endpoint, kind, seq, payload).subrange(1, 9)) == seq % 16,
        seq < 16 ==> seq_echo_of(request_frame(endpoint, kind, seq, payload).subrange(1, 9)) == seq,
{
}

/// The payload of a request frame holds the given bytes in order, and the
/// pad byte of the command after them.
pub proof fn lemma_request_layout(endpoint: u8, kind: CommandKind, seq: u8, payload: Seq<u8>)
    ensures
        request_frame(endpoint, kind, seq, payload).len() == 9,
        request_frame(endpoint, kind, seq, payload)[0] == endpoint,
        request_frame(endpoint, kind, seq, payload)[1] == command_byte(kind, seq),
        forall|i: int|
            2 <= i < 9 && i - 2 < payload.len() ==> #[trigger] request_frame(
                endpoint,
                kind,
                seq,
                payload,
            )[i] == payload[i - 2],
        forall|i: int|
            2 <= i < 9 && i - 2 >= payload.len() ==> #[trigger] request_frame(
                endpoint,
                kind,
                seq,
                payload,
            )[i] == kind.spec_pad(),
{
}

} // verus!
