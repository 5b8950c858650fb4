//! The control channel's wire format: one-byte commands from the service,
//! and the line by which a device logs in.

use vstd::prelude::*;

verus! {

/// The byte `#`: the connection is alive.
pub const KEEP_ALIVE: u8 = 0x23;

/// The byte `!`: new messages wait on the service.
pub const NEW_DATA: u8 = 0x21;

/// The byte `R`: drop the connection and open a new one.
pub const RELOAD: u8 = 0x52;

/// The byte `E`: the credentials are no longer good.
pub const PERMANENT_ERROR: u8 = 0x45;

/// The byte `A`: the device logged in elsewhere.
pub const SUPERSEDED: u8 = 0x41;

/// What a control frame asks for.
#[derive(Clone, Copy, Debug, PartialEq, Eq, Structural)]
pub enum Command {
    KeepAlive,
    NewData,
    ReloadRequested,
    PermanentError,
    SessionSupersededElsewhere,
    Unknown(u8),
}

/// The command that a byte stands for.
pub open spec fn command_of(byte: u8) -> Command {
    if byte == KEEP_ALIVE {
        Command::KeepAlive
    } else if byte == NEW_DATA {
        Command::NewData
    } else if byte == RELOAD {
        Command::ReloadRequested
    } else if byte == PERMANENT_ERROR {
        Command::PermanentError
    } else if byte == SUPERSEDED {
        Command::SessionSupersededElsewhere
    } else {
        Command::Unknown(byte)
    }
}

/// The command of a binary payload: a payload of exactly one byte carries
/// one, any other length carries none.
pub open spec fn payload_command(payload: Seq<u8>) -> Option<Command> {
    if payload.len() == 1 {
        Some(command_of(payload[0]))
    } else {
        None
    }
}

/// Whether a command ends the session for good.
pub open spec fn ends_session(command: Command) -> bool {
    command == Command::PermanentError || command == Command::SessionSupersededElsewhere
}

/// Decodes one byte of the control channel.
pub fn decode(byte: u8) -> (command: Command)
    ensures
        command == command_of(byte),
{
    if byte == KEEP_ALIVE {
        Command::KeepAlive
    } else if byte == NEW_DATA {
        Command::NewData
    } else if byte == RELOAD {
        Command::ReloadRequested
    } else if byte == PERMANENT_ERROR {
        Command::PermanentError
    } else if byte == SUPERSEDED {
        Command::SessionSupersededElsewhere
    } else {
        Command::Unknown(byte)
    }
}

/// Decodes a binary payload.
pub fn decode_payload(payload: &[u8]) -> (command: Option<Command>)
    ensures
        command == payload_command(payload@),
{
    if payload.len() == 1 {
        Some(decode(payload[0]))
    } else {
        None
    }
}

/// The characters of the login line for a device.
pub open spec fn login_text(device_id: Seq<char>, secret: Seq<char>) -> Seq<char> {
    "login:"@ + device_id + ":"@ + secret + "\n"@
}

/// The first frame that goes out on a new connection.
pub fn login_line(device_id: &str, secret: &str) -> (line: String)
    ensures
        line@ == login_text(device_id@, secret@),
{
    let mut line = String::from_str("login:");
    line.append(device_id);
    line.append(":");
    line.append(secret);
    line.append("\n");
    line
}

/// Decoding depends on the byte alone, and only the five assigned bytes
/// give a command other than `Unknown`.
pub proof fn lemma_decode_table(byte: u8)
    ensures
        command_of(0x23) == Command::KeepAlive,
        command_of(0x21) == Command::NewData,
        command_of(0x52) == Command::ReloadRequested,
        command_of(0x45) == Command::PermanentError,
        command_of(0x41) == Command::SessionSupersededElsewhere,
        byte != 0x23 && byte != 0x21 && byte != 0x52 && byte != 0x45 && byte != 0x41
            ==> command_of(byte) == Command::Unknown(byte),
{
}

} // verus!
