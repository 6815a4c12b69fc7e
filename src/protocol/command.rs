use vstd::prelude::*;

use crate::bytes::{le16, push_all};
use crate::error::LoaderError;

verus! {

/// The mask ROM's commands.
#[derive(Clone, Copy, Debug, PartialEq, Eq, Structural)]
pub enum Command {
    GetChipId,
    GetBootInfo,
    LoadBootHeader,
    LoadPublicKey1,
    LoadPublicKey2,
    LoadSignature1,
    LoadSignature2,
    LoadAesIV,
    LoadSegHeader,
    LoadSegData,
    CheckImage,
    RunImage,
    ChangeRate,
    Reset,
    ClockSet,
    OptFinish,
    FlashErase,
    FlashWrite,
    FlashRead,
    FlashBoot,
    FlashXipRead,
    FlashSwitchBank,
    FlashReadJedecId,
    FlashReadStatusReg,
    FlashWriteStatusReg,
    FlashWriteCheck,
    FlashSetParam,
    FlashChipErase,
    FlashReadSha,
    FlashXipReadSha,
    FlashDecompressWrite,
    EfuseWrite,
    EfuseRead,
    EfuseReadMac,
    EfuseWriteMac,
    FlashXipReadStart,
    FlashXipReadFinish,
    LogRead,
    EfuseSecurityWrite,
    EfuseSecurityRead,
    EcdhGetPk,
    EcdhChallenge,
}

impl Command {
    pub open spec fn spec_opcode(self) -> u8 {
        match self {
            Command::GetChipId => 0x05,
            Command::GetBootInfo => 0x10,
            Command::LoadBootHeader => 0x11,
            Command::LoadPublicKey1 => 0x12,
            Command::LoadPublicKey2 => 0x13,
            Command::LoadSignature1 => 0x14,
            Command::LoadSignature2 => 0x15,
            Command::LoadAesIV => 0x16,
            Command::LoadSegHeader => 0x17,
            Command::LoadSegData => 0x18,
            Command::CheckImage => 0x19,
            Command::RunImage => 0x1a,
            Command::ChangeRate => 0x20,
            Command::Reset => 0x21,
            Command::ClockSet => 0x22,
            Command::OptFinish => 0x23,
            Command::FlashErase => 0x30,
            Command::FlashWrite => 0x31,
            Command::FlashRead => 0x32,
            Command::FlashBoot => 0x33,
            Command::FlashXipRead => 0x34,
            Command::FlashSwitchBank => 0x35,
            Command::FlashReadJedecId => 0x36,
            Command::FlashReadStatusReg => 0x37,
            Command::FlashWriteStatusReg => 0x38,
            Command::FlashWriteCheck => 0x3a,
            Command::FlashSetParam => 0x3b,
            Command::FlashChipErase => 0x3c,
            Command::FlashReadSha => 0x3d,
            Command::FlashXipReadSha => 0x3e,
            Command::FlashDecompressWrite => 0x3f,
            Command::EfuseWrite => 0x40,
            Command::EfuseRead => 0x41,
            Command::EfuseReadMac => 0x42,
            Command::EfuseWriteMac => 0x43,
            Command::FlashXipReadStart => 0x60,
            Command::FlashXipReadFinish => 0x61,
            Command::LogRead => 0x71,
            Command::EfuseSecurityWrite => 0x80,
            Command::EfuseSecurityRead => 0x81,
            Command::EcdhGetPk => 0x90,
            Command::EcdhChallenge => 0x91,
        }
    }

    pub fn opcode(self) -> (r: u8)
        ensures
            r == self.spec_opcode(),
    {
        match self {
            Command::GetChipId => 0x05,
            Command::GetBootInfo => 0x10,
            Command::LoadBootHeader => 0x11,
            Command::LoadPublicKey1 => 0x12,
            Command::LoadPublicKey2 => 0x13,
            Command::LoadSignature1 => 0x14,
            Command::LoadSignature2 => 0x15,
            Command::LoadAesIV => 0x16,
            Command::LoadSegHeader => 0x17,
            Command::LoadSegData => 0x18,
            Command::CheckImage => 0x19,
            Command::RunImage => 0x1a,
            Command::ChangeRate => 0x20,
            Command::Reset => 0x21,
            Command::ClockSet => 0x22,
            Command::OptFinish => 0x23,
            Command::FlashErase => 0x30,
            Command::FlashWrite => 0x31,
            Command::FlashRead => 0x32,
            Command::FlashBoot => 0x33,
            Command::FlashXipRead => 0x34,
            Command::FlashSwitchBank => 0x35,
            Command::FlashReadJedecId => 0x36,
            Command::FlashReadStatusReg => 0x37,
            Command::FlashWriteStatusReg => 0x38,
            Command::FlashWriteCheck => 0x3a,
            Command::FlashSetParam => 0x3b,
            Command::FlashChipErase => 0x3c,
            Command::FlashReadSha => 0x3d,
            Command::FlashXipReadSha => 0x3e,
            Command::FlashDecompressWrite => 0x3f,
            Command::EfuseWrite => 0x40,
            Command::EfuseRead => 0x41,
            Command::EfuseReadMac => 0x42,
            Command::EfuseWriteMac => 0x43,
            Command::FlashXipReadStart => 0x60,
            Command::FlashXipReadFinish => 0x61,
            Command::LogRead => 0x71,
            Command::EfuseSecurityWrite => 0x80,
            Command::EfuseSecurityRead => 0x81,
            Command::EcdhGetPk => 0x90,
            Command::EcdhChallenge => 0x91,
        }
    }

    /// Whether the device follows a successful status with a length and a
    /// payload. Reset, flash parameter setting, fuse writing, image checking
    /// and running answer with the status alone.
    pub open spec fn spec_has_response(self) -> bool {
        !(self is CheckImage || self is RunImage || self is Reset || self is FlashSetParam
            || self is EfuseWrite)
    }

    pub fn has_response(self) -> (r: bool)
        ensures
            r == self.spec_has_response(),
    {
        match self {
            Command::CheckImage | Command::RunImage | Command::Reset | Command::FlashSetParam
            | Command::EfuseWrite => false,
            _ => true,
        }
    }
}

/// The first four bytes of a command frame: the opcode and the payload length.
#[derive(Clone, Copy, Debug)]
pub struct CommandPacket {
    pub command: u8,
    pub size: u16,
}

pub const CMD_SIZE: usize = 4;

impl CommandPacket {
    /// Opcode, a reserved zero byte, and the little-endian payload length.
    pub fn to_slice(self) -> (r: [u8; CMD_SIZE])
        ensures
            r@ == seq![self.command, 0u8] + le16(self.size),
    {
        let sz = self.size;
        let l0 = sz as u8;
        let l1 = (sz >> 8u16) as u8;
        let r = [self.command, 0, l0, l1];
        assert(r@ =~= seq![self.command, 0u8] + le16(self.size));
        r
    }
}

/// Largest payload a command frame can carry.
pub const MAX_PAYLOAD: usize = 0xffff;

/// The frame that sends `payload` with `command`.
pub open spec fn frame_bytes(command: Command, payload: Seq<u8>) -> Seq<u8> {
    seq![command.spec_opcode(), 0u8] + le16(payload.len() as u16) + payload
}

/// Builds the frame that sends `payload` with `command`; fails where the
/// payload does not fit the length field.
pub fn encode_frame(command: Command, payload: &[u8]) -> (r: Result<Vec<u8>, LoaderError>)
    ensures
        r is Ok <==> payload@.len() <= MAX_PAYLOAD,
        r matches Ok(f) ==> f@ == frame_bytes(command, payload@),
        r matches Err(e) ==> e == (LoaderError::PayloadTooLong { len: payload@.len() as usize }),
{
    if payload.len() > MAX_PAYLOAD {
        return Err(LoaderError::PayloadTooLong { len: payload.len() });
    }
    let head = CommandPacket { command: command.opcode(), size: payload.len() as u16 }.to_slice();
    let mut f: Vec<u8> = Vec::new();
    push_all(&mut f, head.as_slice());
    push_all(&mut f, payload);
    assert(f@ =~= frame_bytes(command, payload@));
    Ok(f)
}

/// The text of an error code of the mask ROM.
pub open spec fn error_text(code: u16) -> Seq<char> {
    if code == 0x0102 {
        "command length error"@
    } else if code == 0x0104 {
        "command sequence error"@
    } else if code == 0x0204 {
        "image boot header CRC error"@
    } else if code == 0x0205 {
        "fuses expected encryption but none in image boot header"@
    } else if code == 0x0210 {
        "image section header CRC error"@
    } else if code == 0x0217 {
        "image hash error"@
    } else if code == 0x0405 {
        "eFuse read addr error"@
    } else {
        "unknown error"@
    }
}

/// Looks up the text of an error code of the mask ROM.
pub fn code_to_msg(code: u16) -> (r: &'static str)
    ensures
        r@ == error_text(code),
{
    match code {
        0x0102 => "command length error",
        0x0104 => "command sequence error",
        0x0204 => "image boot header CRC error",
        0x0205 => "fuses expected encryption but none in image boot header",
        0x0210 => "image section header CRC error",
        0x0217 => "image hash error",
        0x0405 => "eFuse read addr error",
        _ => "unknown error",
    }
}

impl LoaderError {
    /// For a failed command, the text of its code; otherwise `None`.
    pub fn code_text(&self) -> (r: Option<&'static str>)
        ensures
            r is Some <==> self is CommandFailed,
            r matches Some(t) ==> t@ == error_text(self->code),
    {
        match self {
            LoaderError::CommandFailed { code } => Some(code_to_msg(*code)),
            _ => None,
        }
    }
}

} // verus!
