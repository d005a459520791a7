use vstd::prelude::*;
use vstd::string::StringExecFns;

verus! {

/// Operating mode of a device.
#[derive(Clone, Copy, Debug, PartialEq, Eq, Structural)]
pub enum Mode {
    /// The device hands out passwords from the shared list.
    List,
    /// The device computes passwords algorithmically.
    Algo,
}

/// The control code of a mode, as the driver's ABI fixes it.
pub open spec fn mode_code(mode: Mode) -> u64 {
    match mode {
        Mode::List => 0,
        Mode::Algo => 1,
    }
}

impl Mode {
    /// The numeric code passed to the driver's control call for this mode.
    pub fn code(self) -> (r: u64)
        ensures
            r == mode_code(self),
            r <= 1,
    {
        match self {
            Mode::List => 0,
            Mode::Algo => 1,
        }
    }
}

/// How a file is opened: for reading or for writing, never both.
#[derive(Clone, Copy, Debug, PartialEq, Eq, Structural)]
pub enum Access {
    ReadOnly,
    WriteOnly,
}

/// Aggregate status of all devices.
pub const STATUS_PATH: &'static str = "/proc/otp";

/// Driver parameter holding the number of devices.
pub const DEVICES_PATH: &'static str = "/sys/module/otp/parameters/devices";

/// Driver parameter holding the shared password list.
pub const PASSWORDS_PATH: &'static str = "/sys/module/otp/parameters/pwd_list";

/// One command of the tool.
#[derive(Clone, Debug, PartialEq, Eq)]
pub enum Command {
    /// Display the devices' status.
    Status,
    /// Change the number of devices.
    SetDevices { devices: u8 },
    /// Change the mode of a device.
    SetMode { device: String, mode: Mode },
    /// Replace the shared password list.
    SetPasswords { passwords: Vec<String> },
    /// Show the shared password list.
    ShowPasswords,
    /// Request a one-time password from a device.
    Request { device: String },
    /// Submit a one-time password to a device for validation.
    Validate { device: String, otp: String },
}

/// The parsed invocation of the tool: the command to run.
#[derive(Clone, Debug, PartialEq, Eq)]
pub struct App {
    pub command: Command,
}

/// The file a command works on.
pub open spec fn target_path(cmd: Command) -> Seq<char> {
    match cmd {
        Command::Status => STATUS_PATH@,
        Command::SetDevices { .. } => DEVICES_PATH@,
        Command::SetPasswords { .. } => PASSWORDS_PATH@,
        Command::ShowPasswords => PASSWORDS_PATH@,
        Command::SetMode { device, .. } => device@,
        Command::Request { device } => device@,
        Command::Validate { device, .. } => device@,
    }
}

/// Whether a command reads its file to the end.
pub open spec fn reads(cmd: Command) -> bool {
    cmd is Status || cmd is ShowPasswords || cmd is Request
}

/// Whether a command writes a payload to its file.
pub open spec fn writes(cmd: Command) -> bool {
    cmd is SetDevices || cmd is SetPasswords || cmd is Validate
}

/// The access a command opens its file with: only a reading command reads.
pub open spec fn target_access(cmd: Command) -> Access {
    if reads(cmd) {
        Access::ReadOnly
    } else {
        Access::WriteOnly
    }
}

impl Command {
    /// The path of the file this command opens.
    pub fn path(&self) -> (r: String)
        ensures
            r@ == target_path(*self),
    {
        match self {
            Command::Status => String::from_str(STATUS_PATH),
            Command::SetDevices { .. } => String::from_str(DEVICES_PATH),
            Command::SetPasswords { .. } => String::from_str(PASSWORDS_PATH),
            Command::ShowPasswords => String::from_str(PASSWORDS_PATH),
            Command::SetMode { device, .. } => device.clone(),
            Command::Request { device } => device.clone(),
            Command::Validate { device, .. } => device.clone(),
        }
    }

    /// The access this command opens its file with.
    pub fn access(&self) -> (r: Access)
        ensures
            r == target_access(*self),
    {
        match self {
            Command::Status | Command::ShowPasswords | Command::Request { .. } => Access::ReadOnly,
            _ => Access::WriteOnly,
        }
    }
}

} // verus!
