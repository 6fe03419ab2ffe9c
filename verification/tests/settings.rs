use share_frame::settings::{next_path_step, removal_succeeded, run_command_line, PathStep, INITIAL_PATH_CAPACITY};
use share_frame::settings_dialog::{startup_change, IDOK};

#[test]
fn command_line_quotes_path_and_adds_flag() {
    let exe: Vec<u16> = "C:\\Program Files\\share-frame.exe".encode_utf16().collect();
    let cmd = run_command_line(&exe);
    let mut expected: Vec<u16> = "\"C:\\Program Files\\share-frame.exe\" --minimized".encode_utf16().collect();
    expected.push(0);
    assert_eq!(cmd, expected);
    assert_eq!(cmd.len(), exe.len() + 15);
}

#[test]
fn command_line_of_empty_path() {
    let cmd = run_command_line(&[]);
    let mut expected: Vec<u16> = "\"\" --minimized".encode_utf16().collect();
    expected.push(0);
    assert_eq!(cmd, expected);
}

#[test]
fn path_buffer_steps() {
    assert_eq!(next_path_step(INITIAL_PATH_CAPACITY, 0, false), PathStep::Failed);
    assert_eq!(next_path_step(260, 42, false), PathStep::Done(42));
    assert_eq!(next_path_step(260, 260, true), PathStep::Grow(520));
    assert_eq!(next_path_step(260, 260, false), PathStep::Done(260));
}

#[test]
fn removal_of_missing_value_is_success() {
    assert!(removal_succeeded(0));
    assert!(removal_succeeded(2));
    assert!(!removal_succeeded(5));
}

#[test]
fn dialog_changes_only_on_ok_with_a_change() {
    assert_eq!(startup_change(false, Some((IDOK, true))), Some(true));
    assert_eq!(startup_change(true, Some((IDOK, false))), Some(false));
    assert_eq!(startup_change(true, Some((IDOK, true))), None);
    assert_eq!(startup_change(false, Some((2, true))), None);
    assert_eq!(startup_change(false, None), None);
}
