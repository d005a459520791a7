use vstd::prelude::*;
use vstd::string::StrSliceExecFns;
use vstd::utf8::{
    decode_utf8, encode_utf8, encode_utf8_decode_utf8, encode_utf8_valid_utf8, valid_utf8,
};

use crate::command::{mode_code, reads, target_access, target_path, writes, Access, Command, Mode};
use crate::encoding::{
    decimal, encode_device_count, free_of, join_passwords, join_with, lemma_split_join, split_on,
    split_passwords, views, SEPARATOR,
};
use crate::text::from_utf8;

verus! {

/// What the kernel answered to the last action.
#[derive(Clone, Debug, PartialEq, Eq)]
pub enum Event {
    /// The file was opened.
    Opened,
    /// The file could not be opened.
    OpenFailed { cause: String },
    /// The file was read to its end.
    ReadDone { bytes: Vec<u8> },
    /// Reading failed.
    ReadFailed { cause: String },
    /// The whole payload was written.
    WriteDone,
    /// Writing failed, or wrote only part of the payload.
    WriteFailed { cause: String },
    /// The control call returned this value.
    ControlReturned { ret: i32 },
}

/// What to do next.
#[derive(Debug, PartialEq, Eq)]
pub enum Action {
    /// Open the file, never creating it.
    Open { path: String, access: Access },
    /// Read the open file to its end.
    ReadToEnd,
    /// Write all these bytes to the open file.
    WriteAll { bytes: Vec<u8> },
    /// Issue the control call with this code on the open file.
    Control { code: u64 },
    /// Close the file; the command is over with this outcome.
    Finish { outcome: Result<Report, CmdError> },
}

/// The result of a command that succeeded.
#[derive(Clone, Debug, PartialEq, Eq)]
pub enum Report {
    /// The status text, as the driver gave it.
    Status { text: String },
    /// The driver now has this many devices.
    DevicesSet { count: u8 },
    /// The device was switched to the mode.
    ModeSet { device: String, mode: Mode },
    /// The password list was replaced.
    PasswordsSet,
    /// The password list.
    Passwords { list: Vec<String> },
    /// The one-time password that the device gave.
    Otp { device: String, otp: String },
    /// The device accepted the one-time password.
    Approved { device: String },
}

/// Why a command failed.
#[derive(Clone, Debug, PartialEq, Eq)]
pub enum CmdError {
    /// The file is missing or access was denied.
    Open { path: String, cause: String },
    /// Reading the open file failed.
    Read { path: String, cause: String },
    /// The driver refused what was written to a parameter.
    Write { path: String, cause: String },
    /// The control call failed; the device keeps its former mode.
    Ioctl { path: String },
    /// The bytes read are not valid UTF-8 text.
    Decode { path: String },
    /// The device rejected the one-time password.
    Validation { device: String },
}

/// The bytes that set-passwords writes for a list.
pub open spec fn password_payload(list: Seq<Seq<char>>) -> Seq<u8> {
    encode_utf8(join_with(list, SEPARATOR))
}

/// The list that show-passwords makes of the bytes read, if they are text.
pub open spec fn password_listing(bytes: Seq<u8>) -> Option<Seq<Seq<char>>> {
    if valid_utf8(bytes) {
        Some(split_on(decode_utf8(bytes), SEPARATOR))
    } else {
        None
    }
}

/// The bytes a writing command writes.
pub open spec fn payload(cmd: Command) -> Seq<u8> {
    match cmd {
        Command::SetDevices { devices } => decimal(devices as nat),
        Command::SetPasswords { passwords } => password_payload(views(passwords@)),
        Command::Validate { otp, .. } => encode_utf8(otp@),
        _ => Seq::empty(),
    }
}

/// Whether an event can answer an action of the command.
pub open spec fn event_fits(cmd: Command, event: Event) -> bool {
    match event {
        Event::Opened | Event::OpenFailed { .. } => true,
        Event::ReadDone { .. } | Event::ReadFailed { .. } => reads(cmd),
        Event::WriteDone | Event::WriteFailed { .. } => writes(cmd),
        Event::ControlReturned { .. } => cmd is SetMode,
    }
}

/// The action a command performs on its open file.
pub open spec fn is_operation(cmd: Command, a: Action) -> bool {
    if reads(cmd) {
        a is ReadToEnd
    } else if writes(cmd) {
        a matches Action::WriteAll { bytes } && bytes@ == payload(cmd)
    } else {
        cmd matches Command::SetMode { mode, .. } && a == (Action::Control { code: mode_code(mode) })
    }
}

/// The outcome of a reading command, given the bytes read.
pub open spec fn read_outcome(cmd: Command, bytes: Seq<u8>, o: Result<Report, CmdError>) -> bool {
    if !valid_utf8(bytes) {
        o matches Err(CmdError::Decode { path }) && path@ == target_path(cmd)
    } else {
        match cmd {
            Command::Status => o matches Ok(Report::Status { text }) && text@ == decode_utf8(bytes),
            Command::ShowPasswords => o matches Ok(Report::Passwords { list })
                && Some(views(list@)) == password_listing(bytes),
            Command::Request { device } => o matches Ok(Report::Otp { device: d, otp })
                && d@ == device@ && otp@ == decode_utf8(bytes),
            _ => false,
        }
    }
}

/// The outcome of a writing command whose payload was written.
pub open spec fn written_outcome(cmd: Command, o: Result<Report, CmdError>) -> bool {
    match cmd {
        Command::SetDevices { devices } => o == Ok::<Report, CmdError>(
            Report::DevicesSet { count: devices },
        ),
        Command::SetPasswords { .. } => o == Ok::<Report, CmdError>(Report::PasswordsSet),
        Command::Validate { device, .. } => o matches Ok(Report::Approved { device: d })
            && d@ == device@,
        _ => false,
    }
}

/// The outcome of a writing command whose write failed: for validation the
/// failure is the device's rejection, for a parameter the driver's refusal.
pub open spec fn write_failed_outcome(cmd: Command, cause: Seq<char>, o: Result<Report, CmdError>) -> bool {
    match cmd {
        Command::Validate { device, .. } => o matches Err(CmdError::Validation { device: d })
            && d@ == device@,
        _ => o matches Err(CmdError::Write { path, cause: c }) && path@ == target_path(cmd)
            && c@ == cause,
    }
}

/// The outcome of set-mode once the control call returned: a negative value
/// is failure.
pub open spec fn control_outcome(cmd: Command, ret: i32, o: Result<Report, CmdError>) -> bool {
    match cmd {
        Command::SetMode { device, mode } => if ret < 0 {
            o matches Err(CmdError::Ioctl { path }) && path@ == device@
        } else {
            o matches Ok(Report::ModeSet { device: d, mode: m }) && d@ == device@ && m == mode
        },
        _ => false,
    }
}

/// The outcome of a command, given the event that ends it.
pub open spec fn concludes(cmd: Command, event: Event, o: Result<Report, CmdError>) -> bool {
    match event {
        Event::Opened => false,
        Event::OpenFailed { cause } => o matches Err(CmdError::Open { path, cause: c })
            && path@ == target_path(cmd) && c@ == cause@,
        Event::ReadFailed { cause } => o matches Err(CmdError::Read { path, cause: c })
            && path@ == target_path(cmd) && c@ == cause@,
        Event::ReadDone { bytes } => read_outcome(cmd, bytes@, o),
        Event::WriteDone => written_outcome(cmd, o),
        Event::WriteFailed { cause } => write_failed_outcome(cmd, cause@, o),
        Event::ControlReturned { ret } => control_outcome(cmd, ret, o),
    }
}

/// The first action of a command: open its file, for reading or for writing.
pub fn begin(cmd: &Command) -> (r: Action)
    ensures
        r matches Action::Open { path, access } && path@ == target_path(*cmd) && access
            == target_access(*cmd),
{
    Action::Open { path: cmd.path(), access: cmd.access() }
}

/// Whether `event` can answer an action of `cmd`.
pub fn fits(cmd: &Command, event: &Event) -> (r: bool)
    ensures
        r == event_fits(*cmd, *event),
{
    match event {
        Event::Opened | Event::OpenFailed { .. } => true,
        Event::ReadDone { .. } | Event::ReadFailed { .. } => match cmd {
            Command::Status | Command::ShowPasswords | Command::Request { .. } => true,
            _ => false,
        },
        Event::WriteDone | Event::WriteFailed { .. } => match cmd {
            Command::SetDevices { .. } | Command::SetPasswords { .. } | Command::Validate {
                ..
            } => true,
            _ => false,
        },
        Event::ControlReturned { .. } => match cmd {
            Command::SetMode { .. } => true,
            _ => false,
        },
    }
}

/// The bytes of a string, as UTF-8.
fn utf8_bytes(s: &String) -> (r: Vec<u8>)
    ensures
        r@ == encode_utf8(s@),
{
    s.as_str().as_bytes_vec()
}

/// The action that follows `event`, the kernel's answer to the command's last
/// action. After the file is opened comes the command's one operation; any
/// other event ends the command, with the outcome that the event means.
pub fn step(cmd: &Command, event: Event) -> (r: Action)
    requires
        event_fits(*cmd, event),
    ensures
        event is Opened ==> is_operation(*cmd, r),
        !(event is Opened) ==> (r matches Action::Finish { outcome } && concludes(
            *cmd,
            event,
            outcome,
        )),
        event is OpenFailed ==> (r matches Action::Finish { outcome: Err(CmdError::Open { .. }) }),
        (*cmd is Validate && event is WriteFailed) ==> (r matches Action::Finish {
            outcome: Err(CmdError::Validation { .. }),
        }),
{
    match event {
        Event::Opened => match cmd {
            Command::Status | Command::ShowPasswords | Command::Request { .. } => Action::ReadToEnd,
            Command::SetDevices { devices } => Action::WriteAll {
                bytes: encode_device_count(*devices),
            },
            Command::SetPasswords { passwords } => Action::WriteAll {
                bytes: utf8_bytes(&join_passwords(passwords)),
            },
            Command::Validate { otp, .. } => Action::WriteAll { bytes: utf8_bytes(otp) },
            Command::SetMode { mode, .. } => Action::Control { code: mode.code() },
        },
        Event::OpenFailed { cause } => Action::Finish {
            outcome: Err(CmdError::Open { path: cmd.path(), cause }),
        },
        Event::ReadFailed { cause } => Action::Finish {
            outcome: Err(CmdError::Read { path: cmd.path(), cause }),
        },
        Event::ReadDone { bytes } => Action::Finish { outcome: read_report(cmd, bytes) },
        Event::WriteDone => Action::Finish {
            outcome: match cmd {
                Command::SetDevices { devices } => Ok(Report::DevicesSet { count: *devices }),
                Command::SetPasswords { .. } => Ok(Report::PasswordsSet),
                Command::Validate { device, .. } => Ok(Report::Approved { device: device.clone() }),
                _ => unreached(),
            },
        },
        Event::WriteFailed { cause } => Action::Finish {
            outcome: match cmd {
                Command::Validate { device, .. } => Err(
                    CmdError::Validation { device: device.clone() },
                ),
                _ => Err(CmdError::Write { path: cmd.path(), cause }),
            },
        },
        Event::ControlReturned { ret } => Action::Finish {
            outcome: match cmd {
                Command::SetMode { device, mode } => if ret < 0 {
                    Err(CmdError::Ioctl { path: device.clone() })
                } else {
                    Ok(Report::ModeSet { device: device.clone(), mode: *mode })
                },
                _ => unreached(),
            },
        },
    }
}

/// The outcome of a reading command, given everything read from its file.
fn read_report(cmd: &Command, bytes: Vec<u8>) -> (o: Result<Report, CmdError>)
    requires
        reads(*cmd),
    ensures
        read_outcome(*cmd, bytes@, o),
{
    let ghost read = bytes@;
    match from_utf8(bytes) {
        None => Err(CmdError::Decode { path: cmd.path() }),
        Some(text) => match cmd {
            Command::Status => Ok(Report::Status { text }),
            Command::ShowPasswords => {
                let list = split_passwords(text.as_str());
                assert(Some(views(list@)) == password_listing(read));
                Ok(Report::Passwords { list })
            },
            Command::Request { device } => Ok(Report::Otp { device: device.clone(), otp: text }),
            _ => unreached(),
        },
    }
}

/// Passwords written by set-passwords and read back by show-passwords come
/// back unchanged and in order, when the list is not empty and no password
/// holds a comma.
pub proof fn lemma_passwords_round_trip(passwords: Seq<String>)
    requires
        passwords.len() >= 1,
        forall|i: int| 0 <= i < passwords.len() ==> free_of(#[trigger] passwords[i]@, SEPARATOR),
    ensures
        password_listing(password_payload(views(passwords))) == Some(views(passwords)),
{
    let list = views(passwords);
    assert forall|i: int| 0 <= i < list.len() implies free_of(#[trigger] list[i], SEPARATOR) by {
        assert(list[i] == passwords[i]@);
    };
    let text = join_with(list, SEPARATOR);
    encode_utf8_valid_utf8(text);
    encode_utf8_decode_utf8(text);
    lemma_split_join(list, SEPARATOR);
}

} // verus!
