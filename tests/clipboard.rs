use clipboard_bridge::helper::{
    get_run_result, set_payload, set_run_result, ExitReport, GetRun, SetRun,
};
use clipboard_bridge::native::{get_text, native_get_result, native_set_result, NativeRead};
use clipboard_bridge::{ClipboardError, Helper};

fn echo(text: &str) -> Result<String, ClipboardError> {
    let payload = set_payload(text);
    assert_eq!(
        set_run_result(SetRun::Ran { input_written: true, exit: ExitReport::Success }),
        Ok(())
    );
    get_run_result(GetRun::Ran { exit: ExitReport::Success, output: payload })
}

#[test]
fn helper_programs_are_named() {
    assert_eq!(Helper::Store.program(), "termux-clipboard-set");
    assert_eq!(Helper::Fetch.program(), "termux-clipboard-get");
}

#[test]
fn payload_is_utf8_bytes() {
    assert_eq!(set_payload("hé\n"), vec![b'h', 0xC3, 0xA9, b'\n']);
    assert_eq!(set_payload(""), Vec::<u8>::new());
}

#[test]
fn round_trip_hello_world() {
    assert_eq!(echo("hello\nworld"), Ok("hello\nworld".to_string()));
}

#[test]
fn round_trip_empty() {
    assert_eq!(echo(""), Ok(String::new()));
}

#[test]
fn round_trip_unicode_and_controls() {
    let text = "tab\there\r\n\u{0}bell\u{7} – ünïcødé 🦀";
    assert_eq!(echo(text), Ok(text.to_string()));
}

#[test]
fn set_helper_failure_status() {
    for written in [true, false] {
        assert_eq!(
            set_run_result(SetRun::Ran { input_written: written, exit: ExitReport::Failure }),
            Err(ClipboardError::HelperProcessFailed(Helper::Store))
        );
    }
}

#[test]
fn set_helper_missing() {
    assert_eq!(
        set_run_result(SetRun::NotSpawned),
        Err(ClipboardError::HelperSpawnFailed(Helper::Store))
    );
}

#[test]
fn set_helper_io_failures() {
    assert_eq!(
        set_run_result(SetRun::Ran { input_written: false, exit: ExitReport::Success }),
        Err(ClipboardError::IoFailed(Helper::Store))
    );
    assert_eq!(
        set_run_result(SetRun::Ran { input_written: true, exit: ExitReport::Unknown }),
        Err(ClipboardError::IoFailed(Helper::Store))
    );
}

#[test]
fn get_helper_failure_status() {
    let run = GetRun::Ran { exit: ExitReport::Failure, output: b"partial garbage".to_vec() };
    assert_eq!(get_run_result(run), Err(ClipboardError::HelperProcessFailed(Helper::Fetch)));
}

#[test]
fn get_helper_missing() {
    assert_eq!(
        get_run_result(GetRun::NotSpawned),
        Err(ClipboardError::HelperSpawnFailed(Helper::Fetch))
    );
}

#[test]
fn get_helper_wait_failure() {
    let run = GetRun::Ran { exit: ExitReport::Unknown, output: Vec::new() };
    assert_eq!(get_run_result(run), Err(ClipboardError::IoFailed(Helper::Fetch)));
}

#[test]
fn get_helper_invalid_utf8_is_replaced() {
    let run = GetRun::Ran { exit: ExitReport::Success, output: vec![b'a', 0xFF, b'b', 0xC3] };
    assert_eq!(get_run_result(run), Ok("a\u{FFFD}b\u{FFFD}".to_string()));
}

#[test]
fn get_helper_empty_output() {
    let run = GetRun::Ran { exit: ExitReport::Success, output: Vec::new() };
    assert_eq!(get_run_result(run), Ok(String::new()));
}

#[test]
fn native_set_outcomes() {
    assert_eq!(native_set_result(false, false), Err(ClipboardError::ClipboardUnavailable));
    assert_eq!(native_set_result(false, true), Err(ClipboardError::ClipboardUnavailable));
    assert_eq!(native_set_result(true, false), Err(ClipboardError::WriteFailed));
    assert_eq!(native_set_result(true, true), Ok(()));
}

#[test]
fn native_get_outcomes() {
    assert_eq!(native_get_result(NativeRead::Unavailable), Err(ClipboardError::ClipboardUnavailable));
    assert_eq!(native_get_result(NativeRead::Failed), Err(ClipboardError::ReadFailed));
    assert_eq!(native_get_result(NativeRead::NoText), Ok(String::new()));
    assert_eq!(
        native_get_result(NativeRead::Text("hello\nworld".to_string())),
        Ok("hello\nworld".to_string())
    );
}

#[test]
fn native_get_does_not_panic() {
    match get_text() {
        Ok(_) | Err(ClipboardError::ClipboardUnavailable) | Err(ClipboardError::ReadFailed) => {}
        Err(other) => panic!("unexpected error {:?}", other),
    }
}
