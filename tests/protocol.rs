use otp_tool::command::{DEVICES_PATH, PASSWORDS_PATH, STATUS_PATH};
use otp_tool::encoding::{encode_device_count, join_passwords, split_passwords};
use otp_tool::protocol::{begin, fits, step, Action, CmdError, Event, Report};
use otp_tool::{Access, App, Command, Mode};

fn strings(items: &[&str]) -> Vec<String> {
    items.iter().map(|s| s.to_string()).collect()
}

fn all_commands(device: &str) -> Vec<Command> {
    vec![
        Command::Status,
        Command::SetDevices { devices: 3 },
        Command::SetMode { device: device.to_string(), mode: Mode::List },
        Command::SetPasswords { passwords: strings(&["a"]) },
        Command::ShowPasswords,
        Command::Request { device: device.to_string() },
        Command::Validate { device: device.to_string(), otp: "123".to_string() },
    ]
}

#[test]
fn mode_codes_are_stable() {
    assert_eq!(Mode::List.code(), 0);
    assert_eq!(Mode::Algo.code(), 1);
}

#[test]
fn set_mode_algo_scenario() {
    let cmd = Command::SetMode { device: "/dev/otp0".to_string(), mode: Mode::Algo };
    assert_eq!(
        begin(&cmd),
        Action::Open { path: "/dev/otp0".to_string(), access: Access::WriteOnly }
    );
    assert_eq!(step(&cmd, Event::Opened), Action::Control { code: 1 });
    assert_eq!(
        step(&cmd, Event::ControlReturned { ret: 0 }),
        Action::Finish {
            outcome: Ok(Report::ModeSet { device: "/dev/otp0".to_string(), mode: Mode::Algo })
        }
    );
}

#[test]
fn set_mode_list_sends_zero() {
    let cmd = Command::SetMode { device: "/dev/otp1".to_string(), mode: Mode::List };
    assert_eq!(step(&cmd, Event::Opened), Action::Control { code: 0 });
}

#[test]
fn failed_control_call_is_ioctl_error() {
    let cmd = Command::SetMode { device: "/dev/otp0".to_string(), mode: Mode::List };
    assert_eq!(
        step(&cmd, Event::ControlReturned { ret: -1 }),
        Action::Finish { outcome: Err(CmdError::Ioctl { path: "/dev/otp0".to_string() }) }
    );
}

#[test]
fn set_passwords_then_show_scenario() {
    let set = Command::SetPasswords { passwords: strings(&["foo", "bar", "baz"]) };
    assert_eq!(
        begin(&set),
        Action::Open { path: PASSWORDS_PATH.to_string(), access: Access::WriteOnly }
    );
    let written = match step(&set, Event::Opened) {
        Action::WriteAll { bytes } => bytes,
        other => panic!("unexpected action {:?}", other),
    };
    assert_eq!(written, b"foo,bar,baz".to_vec());
    assert_eq!(
        step(&set, Event::WriteDone),
        Action::Finish { outcome: Ok(Report::PasswordsSet) }
    );

    let show = Command::ShowPasswords;
    assert_eq!(
        begin(&show),
        Action::Open { path: PASSWORDS_PATH.to_string(), access: Access::ReadOnly }
    );
    assert_eq!(step(&show, Event::Opened), Action::ReadToEnd);
    assert_eq!(
        step(&show, Event::ReadDone { bytes: written }),
        Action::Finish { outcome: Ok(Report::Passwords { list: strings(&["foo", "bar", "baz"]) }) }
    );
}

#[test]
fn password_round_trip_keeps_order_and_text() {
    let list = strings(&["zeta", "", "ünï", "a b"]);
    let text = join_passwords(&list);
    assert_eq!(text, "zeta,,ünï,a b");
    assert_eq!(split_passwords(&text), list);
}

#[test]
fn empty_password_list_reads_back_as_one_empty_password() {
    let text = join_passwords(&Vec::new());
    assert_eq!(text, "");
    assert_eq!(split_passwords(&text), strings(&[""]));
}

#[test]
fn split_keeps_empty_pieces() {
    assert_eq!(split_passwords(",a,,b,"), strings(&["", "a", "", "b", ""]));
    assert_eq!(split_passwords("single"), strings(&["single"]));
}

#[test]
fn request_empty_otp_scenario() {
    let cmd = Command::Request { device: "/dev/otp0".to_string() };
    assert_eq!(
        begin(&cmd),
        Action::Open { path: "/dev/otp0".to_string(), access: Access::ReadOnly }
    );
    assert_eq!(step(&cmd, Event::Opened), Action::ReadToEnd);
    assert_eq!(
        step(&cmd, Event::ReadDone { bytes: Vec::new() }),
        Action::Finish {
            outcome: Ok(Report::Otp { device: "/dev/otp0".to_string(), otp: String::new() })
        }
    );
}

#[test]
fn request_returns_decoded_otp() {
    let cmd = Command::Request { device: "/dev/otp2".to_string() };
    assert_eq!(
        step(&cmd, Event::ReadDone { bytes: "4821é".as_bytes().to_vec() }),
        Action::Finish {
            outcome: Ok(Report::Otp { device: "/dev/otp2".to_string(), otp: "4821é".to_string() })
        }
    );
}

#[test]
fn device_count_is_plain_decimal() {
    assert_eq!(encode_device_count(0), b"0".to_vec());
    assert_eq!(encode_device_count(7), b"7".to_vec());
    assert_eq!(encode_device_count(10), b"10".to_vec());
    assert_eq!(encode_device_count(42), b"42".to_vec());
    assert_eq!(encode_device_count(100), b"100".to_vec());
    assert_eq!(encode_device_count(255), b"255".to_vec());
    for n in 0..=255u8 {
        assert_eq!(encode_device_count(n), n.to_string().into_bytes());
    }
}

#[test]
fn set_devices_writes_count() {
    let cmd = Command::SetDevices { devices: 128 };
    assert_eq!(
        begin(&cmd),
        Action::Open { path: DEVICES_PATH.to_string(), access: Access::WriteOnly }
    );
    assert_eq!(step(&cmd, Event::Opened), Action::WriteAll { bytes: b"128".to_vec() });
    assert_eq!(
        step(&cmd, Event::WriteDone),
        Action::Finish { outcome: Ok(Report::DevicesSet { count: 128 }) }
    );
}

#[test]
fn refused_device_count_is_write_error() {
    let cmd = Command::SetDevices { devices: 200 };
    assert_eq!(
        step(&cmd, Event::WriteFailed { cause: "Invalid argument".to_string() }),
        Action::Finish {
            outcome: Err(CmdError::Write {
                path: DEVICES_PATH.to_string(),
                cause: "Invalid argument".to_string()
            })
        }
    );
}

#[test]
fn refused_passwords_are_write_error() {
    let cmd = Command::SetPasswords { passwords: strings(&["x"]) };
    assert_eq!(
        step(&cmd, Event::WriteFailed { cause: "busy".to_string() }),
        Action::Finish {
            outcome: Err(CmdError::Write { path: PASSWORDS_PATH.to_string(), cause: "busy".to_string() })
        }
    );
}

#[test]
fn validate_writes_otp_and_approves() {
    let cmd = Command::Validate { device: "/dev/otp0".to_string(), otp: "987654".to_string() };
    assert_eq!(
        begin(&cmd),
        Action::Open { path: "/dev/otp0".to_string(), access: Access::WriteOnly }
    );
    assert_eq!(step(&cmd, Event::Opened), Action::WriteAll { bytes: b"987654".to_vec() });
    assert_eq!(
        step(&cmd, Event::WriteDone),
        Action::Finish { outcome: Ok(Report::Approved { device: "/dev/otp0".to_string() }) }
    );
}

#[test]
fn failed_validation_write_is_rejection() {
    let cmd = Command::Validate { device: "/dev/otp0".to_string(), otp: "000000".to_string() };
    for cause in ["Invalid argument", "short write", ""] {
        assert_eq!(
            step(&cmd, Event::WriteFailed { cause: cause.to_string() }),
            Action::Finish {
                outcome: Err(CmdError::Validation { device: "/dev/otp0".to_string() })
            }
        );
    }
}

#[test]
fn missing_device_fails_to_open_for_every_command() {
    for cmd in all_commands("/dev/missing") {
        let path = match begin(&cmd) {
            Action::Open { path, .. } => path,
            other => panic!("unexpected action {:?}", other),
        };
        let cause = "No such file or directory".to_string();
        assert_eq!(
            step(&cmd, Event::OpenFailed { cause: cause.clone() }),
            Action::Finish { outcome: Err(CmdError::Open { path, cause }) }
        );
    }
}

#[test]
fn status_is_read_verbatim() {
    let cmd = Command::Status;
    assert_eq!(
        begin(&cmd),
        Action::Open { path: STATUS_PATH.to_string(), access: Access::ReadOnly }
    );
    let text = "otp0: list\notp1: algo\n";
    assert_eq!(
        step(&cmd, Event::ReadDone { bytes: text.as_bytes().to_vec() }),
        Action::Finish { outcome: Ok(Report::Status { text: text.to_string() }) }
    );
}

#[test]
fn read_failure_is_read_error() {
    let cmd = Command::Status;
    assert_eq!(
        step(&cmd, Event::ReadFailed { cause: "I/O error".to_string() }),
        Action::Finish {
            outcome: Err(CmdError::Read { path: STATUS_PATH.to_string(), cause: "I/O error".to_string() })
        }
    );
}

#[test]
fn invalid_text_is_decode_error() {
    let bad = vec![0x66, 0xff, 0x6f];
    assert_eq!(
        step(&Command::ShowPasswords, Event::ReadDone { bytes: bad.clone() }),
        Action::Finish { outcome: Err(CmdError::Decode { path: PASSWORDS_PATH.to_string() }) }
    );
    let cmd = Command::Request { device: "/dev/otp3".to_string() };
    assert_eq!(
        step(&cmd, Event::ReadDone { bytes: vec![0xc0, 0x80] }),
        Action::Finish { outcome: Err(CmdError::Decode { path: "/dev/otp3".to_string() }) }
    );
}

#[test]
fn events_fit_only_their_commands() {
    let read = Command::Request { device: "/dev/otp0".to_string() };
    let write = Command::SetDevices { devices: 1 };
    let control = Command::SetMode { device: "/dev/otp0".to_string(), mode: Mode::Algo };
    for cmd in all_commands("/dev/otp0") {
        assert!(fits(&cmd, &Event::Opened));
        assert!(fits(&cmd, &Event::OpenFailed { cause: String::new() }));
    }
    assert!(fits(&read, &Event::ReadDone { bytes: Vec::new() }));
    assert!(!fits(&read, &Event::WriteDone));
    assert!(!fits(&read, &Event::ControlReturned { ret: 0 }));
    assert!(fits(&write, &Event::WriteFailed { cause: String::new() }));
    assert!(!fits(&write, &Event::ReadFailed { cause: String::new() }));
    assert!(fits(&control, &Event::ControlReturned { ret: 0 }));
    assert!(!fits(&control, &Event::WriteDone));
}

#[test]
fn app_holds_its_command() {
    let app = App { command: Command::ShowPasswords };
    assert_eq!(app.command.path(), PASSWORDS_PATH);
    assert_eq!(app.command.access(), Access::ReadOnly);
}
