//! Messages of the VE.Direct HEX protocol: the commands sent to a device,
//! their frames on the wire, and the responses that come back.
use vstd::prelude::*;

use crate::text::{hex_upper, push_hex_upper};

verus! {

/// Flag byte of a `Get`/`Set` message.
#[derive(Clone, Copy, Debug, PartialEq, Eq, Structural)]
pub struct Flags {
    pub bits: u8,
}

impl Flags {
    /// No flag set.
    pub fn none() -> (f: Flags)
        ensures
            f.bits == 0,
    {
        Flags { bits: 0x0 }
    }

    /// The register id is unknown to the device.
    pub fn unknown_id() -> (f: Flags)
        ensures
            f.bits == 0x01,
    {
        Flags { bits: 0x01 }
    }

    /// The register is not supported by the device.
    pub fn not_supported() -> (f: Flags)
        ensures
            f.bits == 0x02,
    {
        Flags { bits: 0x02 }
    }

    /// A parameter of the message was wrong.
    pub fn parameter_error() -> (f: Flags)
        ensures
            f.bits == 0x04,
    {
        Flags { bits: 0x04 }
    }

    /// The raw flag byte.
    pub fn bits(&self) -> (b: u8)
        ensures
            b == self.bits,
    {
        self.bits
    }

    /// The flags whose byte is `bits`, where every set bit is a known flag.
    pub fn from_bits(bits: u8) -> (f: Option<Flags>)
        ensures
            match f {
                Some(g) => g.bits == bits && bits & 0xf8 == 0,
                None => bits & 0xf8 != 0,
            },
    {
        if bits & 0xf8 == 0 {
            Some(Flags { bits })
        } else {
            None
        }
    }
}

/// A command sent to a device.
pub enum Command {
    /// 0: enter the boot loader.
    EnterBoot,
    /// 1: check for presence; answered by a ping response.
    Ping,
    /// 3: ask for the firmware version.
    AppVersion,
    /// 4: ask for the product id.
    DeviceID,
    /// 6: restart the device.
    Restart,
    /// 7: read register `.0`.
    Get(u16, Flags),
    /// 8: write `.2` to register `.0`.
    SetValue(u16, Flags, u64),
    /// A: asynchronous register update.
    Async(u16, Flags, u64),
}

/// The command number of `c` in the protocol.
pub open spec fn command_code(c: Command) -> u8 {
    match c {
        Command::EnterBoot => 0x0,
        Command::Ping => 0x1,
        Command::AppVersion => 0x3,
        Command::DeviceID => 0x4,
        Command::Restart => 0x6,
        Command::Get(_, _) => 0x7,
        Command::SetValue(_, _, _) => 0x8,
        Command::Async(_, _, _) => 0xA,
    }
}

/// The payload that a frame of `c` carries, as a number: for `Get` the
/// register id shifted left by two with the flag bits added, else zero.
pub open spec fn command_payload(c: Command) -> u64 {
    match c {
        Command::Get(v, flags) => (v as u64 * 4 + flags.bits as u64) as u64,
        _ => 0,
    }
}

/// Whether a frame can be built for `c` (the boot, set and async frames are
/// not defined).
pub open spec fn has_frame(c: Command) -> bool {
    !(c is EnterBoot || c is SetValue || c is Async)
}

/// The check byte of a frame for command number `code`: the bytes of a frame
/// add up to 0x55.
pub open spec fn check_byte(code: u8) -> u8 {
    (0x55 - code) as u8
}

/// In a frame without payload the command number and the check byte add up
/// to 0x55 modulo 256, as the protocol asks of the bytes of a frame.
pub proof fn lemma_check_byte_completes(code: u8)
    requires
        code <= 0x55,
    ensures
        (code + check_byte(code)) % 256 == 0x55,
{
}

/// The frame text `:` code [payload] check, newline, each in upper-case hex;
/// a zero payload is left out.
pub open spec fn frame_text(code: u8, payload: u64, check: u8) -> Seq<char> {
    seq![':'] + hex_upper(code as nat) + (if payload == 0 {
        Seq::<char>::empty()
    } else {
        hex_upper(payload as nat)
    }) + hex_upper(check as nat) + seq!['\n']
}

/// `x` with its eight bytes in reverse order.
pub open spec fn swap_bytes_u64(x: u64) -> u64 {
    ((x & 0xff) << 56) | (((x >> 8) & 0xff) << 48) | (((x >> 16) & 0xff) << 40) | (((x >> 24) & 0xff)
        << 32) | (((x >> 32) & 0xff) << 24) | (((x >> 40) & 0xff) << 16) | (((x >> 48) & 0xff) << 8)
        | ((x >> 56) & 0xff)
}

/// `u64::to_le`: the value unchanged on a little-endian target, with its
/// bytes swapped on a big-endian one. Which of the two holds depends on the
/// machine, so the contract states only that it is one of them.
#[verifier::external_body]
fn u64_to_le(x: u64) -> (r: u64)
    ensures
        r == x || r == swap_bytes_u64(x),
{
    x.to_le()
}

impl Command {
    /// The command number of this command.
    pub fn command(&self) -> (c: u8)
        ensures
            c == command_code(*self),
    {
        match self {
            Command::EnterBoot => 0x0,
            Command::Ping => 0x1,
            Command::AppVersion => 0x3,
            Command::DeviceID => 0x4,
            Command::Restart => 0x6,
            Command::Get(_, _) => 0x7,
            Command::SetValue(_, _, _) => 0x8,
            Command::Async(_, _, _) => 0xA,
        }
    }

    /// The frame that sends this command. The payload is written in the
    /// target's little-endian form, which is the payload itself on a
    /// little-endian machine.
    pub fn build(&self) -> (s: String)
        requires
            has_frame(*self),
        ensures
            s@ == frame_text(command_code(*self), command_payload(*self), check_byte(command_code(*self)))
                || s@ == frame_text(
                command_code(*self),
                swap_bytes_u64(command_payload(*self)),
                check_byte(command_code(*self)),
            ),
    {
        let command = self.command();
        let cmd: u64 = match self {
            Command::Get(v, flags) => {
                let w: u64 = *v as u64;
                assert((w << 2) == w * 4) by (bit_vector)
                    requires
                        w <= 0xffff,
                ;
                (w << 2) + flags.bits as u64
            },
            _ => 0x0,
        };
        let cmd = u64_to_le(cmd);
        let check: u8 = 0x55 - command;
        let mut out = String::new();
        out.append(":");
        push_hex_upper(&mut out, command as u64);
        if cmd != 0 {
            push_hex_upper(&mut out, cmd);
        }
        push_hex_upper(&mut out, check as u64);
        out.append("\n");
        proof {
            reveal_strlit(":");
            reveal_strlit("\n");
        }
        assert(out@ =~= frame_text(command, cmd, check));
        out
    }
}

/// A response from a device.
pub enum Response {
    /// 1: the command was executed; the payload depends on the command.
    Done(u64),
    /// 3: the command number `.0` is not known.
    Unknown(u64),
    /// 4: the frame was malformed.
    FrameError,
    /// 4: the boot loader failed.
    BootLoaderError,
    /// 5: answer to a ping: the version and the firmware type.
    Ping(String, u8),
    /// 7: the value of a register.
    Get(u16, Flags, u64),
    /// 8: the value written to a register.
    SetValue(u16, Flags, u64),
}

/// The response number of `r` in the protocol.
pub open spec fn response_code(r: Response) -> u8 {
    match r {
        Response::Done(_) => 1,
        Response::Unknown(_) => 3,
        Response::FrameError => 4,
        Response::BootLoaderError => 4,
        Response::Ping(_, _) => 5,
        Response::Get(_, _, _) => 7,
        Response::SetValue(_, _, _) => 8,
    }
}

impl Response {
    /// The response number of this response.
    pub fn command(&self) -> (c: u8)
        ensures
            c == response_code(*self),
    {
        match self {
            Response::Done(_) => 1,
            Response::Unknown(_) => 3,
            Response::FrameError | Response::BootLoaderError => 4,
            Response::Ping(_, _) => 5,
            Response::Get(_, _, _) => 7,
            Response::SetValue(_, _, _) => 8,
        }
    }
}

} // verus!
