use brewkeep::autostart::{
    find_schtasks, is_autostart_enabled, registry_value_bytes, restore_command, set_autostart,
    startup_task_create_args, startup_task_delete_args, startup_task_query_args, AutostartAction,
    AutostartError, AutostartEvent, ProbeAction, ProbeEvent, SCHTASKS_SYSTEM32, SCHTASKS_SYSWOW64,
};

fn utf16le(s: &str) -> Vec<u8> {
    s.encode_utf16().flat_map(|u| u.to_le_bytes()).collect()
}

#[test]
fn schtasks_lookup_order() {
    assert_eq!(find_schtasks(true, true), Some("C:\\Windows\\System32\\schtasks.exe".to_string()));
    assert_eq!(find_schtasks(true, false), Some(SCHTASKS_SYSTEM32.to_string()));
    assert_eq!(find_schtasks(false, true), Some("C:\\Windows\\SysWOW64\\schtasks.exe".to_string()));
    assert_eq!(find_schtasks(false, true), Some(SCHTASKS_SYSWOW64.to_string()));
    assert_eq!(find_schtasks(false, false), Some("schtasks.exe".to_string()));
}

#[test]
fn restore_command_quotes_the_path() {
    assert_eq!(
        restore_command("C:\\Program Files\\BrewKeep\\brewkeep.exe"),
        "\"C:\\Program Files\\BrewKeep\\brewkeep.exe\" --restore"
    );
}

#[test]
fn task_arguments() {
    assert_eq!(
        startup_task_create_args("C:\\b.exe"),
        vec![
            "/create", "/tn", "BrewKeep", "/tr", "\"C:\\b.exe\" --restore", "/sc", "onstart", "/rl",
            "highest", "/f", "/ru", "SYSTEM",
        ]
    );
    assert_eq!(startup_task_delete_args(), vec!["/delete", "/tn", "BrewKeep", "/f"]);
    assert_eq!(startup_task_query_args(), vec!["/query", "/tn", "BrewKeep", "/fo", "list"]);
}

#[test]
fn registry_value_is_quoted_utf16() {
    let path = "C:\\Apps\\brewkeep.exe";
    assert_eq!(registry_value_bytes(path), utf16le("\"C:\\Apps\\brewkeep.exe\""));
    assert_eq!(registry_value_bytes(""), vec![0x22, 0, 0x22, 0]);
    assert_eq!(registry_value_bytes("A"), vec![0x22, 0, 0x41, 0, 0x22, 0]);
}

#[test]
fn registry_value_encodes_non_ascii() {
    for path in ["C:\\Users\\Jos\u{e9}\\b.exe", "D:\\\u{65e5}\u{672c}\\b.exe", "E:\\\u{1f600}\\b.exe"] {
        assert_eq!(registry_value_bytes(path), utf16le(&format!("\"{}\"", path)));
    }
    // U+1F600 is the surrogate pair D83D DE00.
    assert_eq!(registry_value_bytes("\u{1f600}"), vec![0x22, 0, 0x3d, 0xd8, 0x00, 0xde, 0x22, 0]);
}

#[test]
fn enabling_autostart_step_by_step() {
    assert!(matches!(set_autostart(true, &AutostartEvent::Started), AutostartAction::EnsureStartupTask));
    assert!(matches!(set_autostart(true, &AutostartEvent::TaskUpdated), AutostartAction::OpenRunKey));
    assert!(matches!(set_autostart(true, &AutostartEvent::KeyOpened(0)), AutostartAction::QueryExePath));
    match set_autostart(true, &AutostartEvent::ExePath(Ok("C:\\b.exe".to_string()))) {
        AutostartAction::WriteRunValue(bytes) => assert_eq!(bytes, utf16le("\"C:\\b.exe\"")),
        _ => panic!("expected a write"),
    }
    match set_autostart(true, &AutostartEvent::ValueWritten(0)) {
        AutostartAction::Finish { close_key, result } => {
            assert!(close_key);
            assert!(result.is_ok());
        }
        _ => panic!("expected the end"),
    }
}

#[test]
fn disabling_autostart_step_by_step() {
    assert!(matches!(set_autostart(false, &AutostartEvent::Started), AutostartAction::RemoveStartupTask));
    assert!(matches!(set_autostart(false, &AutostartEvent::TaskUpdated), AutostartAction::OpenRunKey));
    assert!(matches!(set_autostart(false, &AutostartEvent::KeyOpened(0)), AutostartAction::DeleteRunValue));
    match set_autostart(false, &AutostartEvent::ValueDeleted(0)) {
        AutostartAction::Finish { close_key, result } => {
            assert!(close_key);
            assert!(result.is_ok());
        }
        _ => panic!("expected the end"),
    }
}

fn finish_error(action: AutostartAction) -> (bool, String) {
    match action {
        AutostartAction::Finish { close_key, result: Err(e) } => (close_key, e.message()),
        _ => panic!("expected a failure"),
    }
}

#[test]
fn autostart_failures() {
    assert_eq!(
        finish_error(set_autostart(true, &AutostartEvent::KeyOpened(5))),
        (false, "Failed to open registry key: WIN32_ERROR(5)".to_string())
    );
    assert_eq!(
        finish_error(set_autostart(true, &AutostartEvent::ExePath(Err("not found".to_string())))),
        (false, "not found".to_string())
    );
    assert_eq!(
        finish_error(set_autostart(true, &AutostartEvent::ValueWritten(1021))),
        (true, "Failed to write registry value: WIN32_ERROR(1021)".to_string())
    );
    assert_eq!(
        finish_error(set_autostart(false, &AutostartEvent::ValueDeleted(2))),
        (true, "Failed to delete registry value: WIN32_ERROR(2)".to_string())
    );
}

#[test]
fn error_messages_match_debug_output() {
    for code in [0u32, 2, 5, 10, 1021, 4294967295] {
        assert_eq!(
            AutostartError::OpenKey(code).message(),
            format!("Failed to open registry key: WIN32_ERROR({})", code)
        );
    }
}

#[test]
fn probing_autostart() {
    assert_eq!(is_autostart_enabled(ProbeEvent::Started), ProbeAction::QueryTask);
    assert_eq!(
        is_autostart_enabled(ProbeEvent::TaskChecked(true)),
        ProbeAction::Finish { close_key: false, enabled: true }
    );
    assert_eq!(is_autostart_enabled(ProbeEvent::TaskChecked(false)), ProbeAction::OpenRunKey);
    assert_eq!(
        is_autostart_enabled(ProbeEvent::KeyOpened(2)),
        ProbeAction::Finish { close_key: false, enabled: false }
    );
    assert_eq!(is_autostart_enabled(ProbeEvent::KeyOpened(0)), ProbeAction::QueryRunValue);
    assert_eq!(
        is_autostart_enabled(ProbeEvent::ValueQueried(0)),
        ProbeAction::Finish { close_key: true, enabled: true }
    );
    assert_eq!(
        is_autostart_enabled(ProbeEvent::ValueQueried(2)),
        ProbeAction::Finish { close_key: true, enabled: false }
    );
}
