//! The request frame of each command.

use crate::frame::{encode, request_frame, CommandKind};
use crate::bootloader::Bootloader;
use vstd::prelude::*;

verus! {

/// The payload that every Echo request carries unless the caller brings
/// one: seven bytes `0xff`.
pub open spec fn fixed_echo_payload() -> Seq<u8> {
    Seq::new(7, |i: int| 0xffu8)
}

/// The payload that tells a Reboot request from line noise.
pub open spec fn reboot_magic() -> Seq<u8> {
    seq![0x91u8, 0x82u8, 0x73u8, 0x64u8, 0xadu8, 0xefu8, 0xbau8]
}

/// The payload of a StartProgramming request: a zero, the low 16 bits of
/// the firmware length and the 32 bits of the flash offset, each with its
/// low byte first.
pub open spec fn start_payload(count: nat, offset: nat) -> Seq<u8> {
    seq![
        0u8,
        (count % 256) as u8,
        ((count / 256) % 256) as u8,
        (offset % 256) as u8,
        ((offset / 256) % 256) as u8,
        ((offset / 65536) % 256) as u8,
        ((offset / 16777216) % 256) as u8,
    ]
}

impl Bootloader {
    /// The Info request: no payload.
    pub fn make_info_cmd(ep_num: u8, seq_num: u8) -> (frame: Vec<u8>)
        ensures
            frame@ == request_frame(ep_num, CommandKind::Info, seq_num, Seq::empty()),
    {
        let payload: [u8; 0] = [];
        encode(ep_num, CommandKind::Info, seq_num, payload.as_slice())
    }

    /// The EraseApp request: no payload.
    pub fn make_erase_app_cmd(ep_num: u8, seq_num: u8) -> (frame: Vec<u8>)
        ensures
            frame@ == request_frame(ep_num, CommandKind::EraseApp, seq_num, Seq::empty()),
    {
        let payload: [u8; 0] = [];
        encode(ep_num, CommandKind::EraseApp, seq_num, payload.as_slice())
    }

    /// The Echo request with the fixed payload.
    pub fn make_echo_cmd(ep_num: u8, seq_num: u8) -> (frame: Vec<u8>)
        ensures
            frame@ == request_frame(ep_num, CommandKind::Echo, seq_num, fixed_echo_payload()),
    {
        let payload: [u8; 7] = [0xff, 0xff, 0xff, 0xff, 0xff, 0xff, 0xff];
        encode(ep_num, CommandKind::Echo, seq_num, payload.as_slice())
    }

    /// The Reboot request.
    pub fn make_reboot_cmd(ep_num: u8, seq_num: u8) -> (frame: Vec<u8>)
        ensures
            frame@ == request_frame(ep_num, CommandKind::Reboot, seq_num, reboot_magic()),
    {
        let payload: [u8; 7] = [0x91, 0x82, 0x73, 0x64, 0xad, 0xef, 0xba];
        encode(ep_num, CommandKind::Reboot, seq_num, payload.as_slice())
    }

    /// The StartProgramming request for a firmware of `count` bytes that
    /// goes to byte `offset` of the flash.  Only the low 16 bits of `count`
    /// travel.
    pub fn make_start_cmd(ep_num: u8, seq_num: u8, count: usize, offset: u32) -> (frame: Vec<u8>)
        ensures
            frame@ == request_frame(
                ep_num,
                CommandKind::StartProgramming,
                seq_num,
                start_payload(count as nat, offset as nat),
            ),
    {
        let payload: [u8; 7] = [
            0,
            (count % 256) as u8,
            ((count / 256) % 256) as u8,
            (offset % 256) as u8,
            ((offset / 256) % 256) as u8,
            ((offset / 65536) % 256) as u8,
            (offset / 16777216) as u8,
        ];
        encode(ep_num, CommandKind::StartProgramming, seq_num, payload.as_slice())
    }

    /// The ProgramData request for one chunk of firmware: the chunk, then
    /// `0xff` up to seven bytes.
    pub fn make_program_data(ep_num: u8, seq_num: u8, data: &[u8]) -> (frame: Vec<u8>)
        ensures
            frame@ == request_frame(ep_num, CommandKind::ProgramData, seq_num, data@),
    {
        encode(ep_num, CommandKind::ProgramData, seq_num, data)
    }
}

} // verus!
