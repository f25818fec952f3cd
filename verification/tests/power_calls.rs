use brewkeep::power::{
    check_dword, hold_awake, parse_state_file, prevent_system_sleep, release_awake, restore,
    restore_from_state_file, save_state_file, set_monitor_timeout, set_monitor_timeout_values,
    snapshot_current, snapshot_plan, state_file_path, ExecutionState, PowerCall, PowerRun, E_FAIL,
};
use windows_core::HRESULT;

fn write_plan(ac: u32, dc: u32) -> Vec<PowerCall> {
    vec![
        PowerCall::GetActiveScheme,
        PowerCall::WriteAcMonitorTimeout(ac),
        PowerCall::WriteDcMonitorTimeout(dc),
        PowerCall::SetActiveScheme,
    ]
}

/// Runs a plan, answering each call with the next of `answers`.
fn run(plan: Vec<PowerCall>, answers: &[(u32, u32)]) -> (PowerRun, Vec<PowerCall>) {
    let mut run = PowerRun::new(plan);
    let mut made = Vec::new();
    let mut k = 0;
    while let Some(call) = run.next_call() {
        made.push(call);
        let (status, value) = answers[k];
        k += 1;
        run.record(status, value);
    }
    (run, made)
}

#[test]
fn execution_state_requests() {
    assert_eq!(
        hold_awake(),
        ExecutionState { continuous: true, system_required: true, display_required: true }
    );
    assert_eq!(
        prevent_system_sleep(),
        ExecutionState { continuous: true, system_required: true, display_required: false }
    );
    assert_eq!(
        release_awake(),
        ExecutionState { continuous: true, system_required: false, display_required: false }
    );
}

#[test]
fn check_dword_ok_only_on_zero() {
    assert!(check_dword(0, "fine").is_ok());
    let e = check_dword(5, "PowerReadACValueIndex failed").unwrap_err();
    assert_eq!(e.code, E_FAIL);
    assert_eq!(e.message, "PowerReadACValueIndex failed");
    assert_eq!(E_FAIL, 0x80004005u32 as i32);
    assert_eq!(e.to_windows_error().code(), HRESULT(E_FAIL));
}

#[test]
fn timeout_plans() {
    assert_eq!(set_monitor_timeout_values(120, 300), write_plan(120, 300));
    assert_eq!(set_monitor_timeout(30), write_plan(30, 30));
    assert_eq!(set_monitor_timeout(60), set_monitor_timeout_values(60, 60));
    assert_eq!(
        snapshot_plan(),
        vec![PowerCall::GetActiveScheme, PowerCall::ReadAcMonitorTimeout, PowerCall::ReadDcMonitorTimeout]
    );
}

#[test]
fn failure_messages() {
    assert_eq!(PowerCall::GetActiveScheme.failure_message(), "PowerGetActiveScheme failed");
    assert_eq!(PowerCall::ReadAcMonitorTimeout.failure_message(), "PowerReadACValueIndex failed");
    assert_eq!(PowerCall::ReadDcMonitorTimeout.failure_message(), "PowerReadDCValueIndex failed");
    assert_eq!(PowerCall::WriteAcMonitorTimeout(1).failure_message(), "PowerWriteACValueIndex failed");
    assert_eq!(PowerCall::WriteDcMonitorTimeout(1).failure_message(), "PowerWriteDCValueIndex failed");
    assert_eq!(PowerCall::SetActiveScheme.failure_message(), "PowerSetActiveScheme failed");
}

#[test]
fn run_makes_every_call_when_all_succeed() {
    let (r, made) = run(set_monitor_timeout(30), &[(0, 0), (0, 0), (0, 0), (0, 0)]);
    assert_eq!(made, write_plan(30, 30));
    assert_eq!(r.failed_call(), None);
    assert!(r.outcome().is_ok());
}

#[test]
fn run_stops_at_first_failure() {
    let (r, made) = run(set_monitor_timeout_values(10, 20), &[(0, 0), (0, 0), (87, 0)]);
    assert_eq!(made, vec![
        PowerCall::GetActiveScheme,
        PowerCall::WriteAcMonitorTimeout(10),
        PowerCall::WriteDcMonitorTimeout(20),
    ]);
    assert!(r.next_call().is_none());
    assert_eq!(r.failed_call(), Some(PowerCall::WriteDcMonitorTimeout(20)));
    let e = r.outcome().unwrap_err();
    assert_eq!(e.code, E_FAIL);
    assert_eq!(e.message, "PowerWriteDCValueIndex failed");
}

#[test]
fn run_stops_when_scheme_is_missing() {
    let (r, made) = run(snapshot_plan(), &[(2, 0)]);
    assert_eq!(made, vec![PowerCall::GetActiveScheme]);
    assert_eq!(r.outcome().unwrap_err().message, "PowerGetActiveScheme failed");
    let e = snapshot_current(&r).err().unwrap();
    assert_eq!(e.code, E_FAIL);
    assert_eq!(e.message, "PowerGetActiveScheme failed");
}

#[test]
fn snapshot_keeps_what_was_read_and_restore_writes_it_back() {
    let (r, made) = run(snapshot_plan(), &[(0, 0), (0, 600), (0, 300)]);
    assert_eq!(made.len(), 3);
    let s = snapshot_current(&r).unwrap();
    assert_eq!(s.ac_monitor_timeout(), 600);
    assert_eq!(s.dc_monitor_timeout(), 300);
    assert_eq!(restore(&s), write_plan(600, 300));
    assert_eq!(s.on_drop(), Some(write_plan(600, 300)));
}

#[test]
fn snapshot_fails_when_dc_read_fails() {
    let (r, made) = run(snapshot_plan(), &[(0, 0), (0, 600), (1, 0)]);
    assert_eq!(made.len(), 3);
    let e = snapshot_current(&r).err().unwrap();
    assert_eq!(e.code, E_FAIL);
    assert_eq!(e.message, "PowerReadDCValueIndex failed");
}

#[test]
fn state_file_contents() {
    assert_eq!(save_state_file(600, 300), b"600|300".to_vec());
    assert_eq!(save_state_file(0, 4294967295), b"0|4294967295".to_vec());
    assert_eq!(save_state_file(30, 7), format!("{}|{}", 30, 7).into_bytes());
}

#[test]
fn state_file_round_trip() {
    for (ac, dc) in [(0u32, 0u32), (30, 60), (600, 1200), (4294967295, 9), (10, 100)] {
        let bytes = save_state_file(ac, dc);
        let text = String::from_utf8(bytes).unwrap();
        assert_eq!(parse_state_file(&text), Some((ac, dc)));
    }
}

#[test]
fn state_file_parsing_follows_u32_from_str() {
    assert_eq!(parse_state_file("30|60"), Some((30, 60)));
    assert_eq!(parse_state_file("+30|+60"), Some((30, 60)));
    assert_eq!(parse_state_file("007|08"), Some((7, 8)));
    assert_eq!(parse_state_file("4294967295|1"), Some((4294967295, 1)));
    assert_eq!(parse_state_file("4294967296|1"), None);
    assert_eq!(parse_state_file("99999999999999999999|1"), None);
    assert_eq!(parse_state_file("30|"), None);
    assert_eq!(parse_state_file("|60"), None);
    assert_eq!(parse_state_file("|"), None);
    assert_eq!(parse_state_file(""), None);
    assert_eq!(parse_state_file("3060"), None);
    assert_eq!(parse_state_file("30|60|90"), None);
    assert_eq!(parse_state_file("30|60\n"), None);
    assert_eq!(parse_state_file(" 30|60"), None);
    assert_eq!(parse_state_file("-1|60"), None);
    assert_eq!(parse_state_file("+|60"), None);
    assert_eq!(parse_state_file("3a|60"), None);
    assert_eq!(parse_state_file("\u{e9}|60"), None);
}

#[test]
fn state_file_parsing_agrees_with_std() {
    let samples = ["30|60", "+30|+60", "+|1", "1|+", "1|2|3", "12345678901|2", "0|0", "|", "a|b", "1 |2", "++1|2"];
    for s in samples {
        let parts: Vec<&str> = s.split('|').collect();
        let expected = if parts.len() == 2 {
            match (parts[0].parse::<u32>(), parts[1].parse::<u32>()) {
                (Ok(a), Ok(b)) => Some((a, b)),
                _ => None,
            }
        } else {
            None
        };
        assert_eq!(parse_state_file(s), expected, "{}", s);
    }
}

#[test]
fn restore_from_file_writes_the_saved_timeouts() {
    assert_eq!(restore_from_state_file(Some((600, 300))), Some(write_plan(600, 300)));
    assert_eq!(restore_from_state_file(None), None);
    assert_eq!(restore_from_state_file(parse_state_file("45|90")), Some(write_plan(45, 90)));
    assert_eq!(restore_from_state_file(parse_state_file("garbage")), None);
}

#[test]
fn state_file_path_parts() {
    assert_eq!(
        state_file_path(Some("C:\\Users\\me\\AppData\\Roaming".to_string())),
        vec!["C:\\Users\\me\\AppData\\Roaming".to_string(), "BrewKeep".to_string(), "state.dat".to_string()]
    );
    assert_eq!(
        state_file_path(None),
        vec![".".to_string(), "BrewKeep".to_string(), "state.dat".to_string()]
    );
}

/// Runs a plan against a scheme that holds the timeouts `scheme`: writes set
/// them, reads return them; the call at `fail_at` (if any) fails.
fn run_on_scheme(plan: Vec<PowerCall>, scheme: &mut (u32, u32), fail_at: Option<usize>) -> PowerRun {
    let mut run = PowerRun::new(plan);
    let mut k = 0;
    while let Some(call) = run.next_call() {
        if fail_at == Some(k) {
            run.record(5, 0);
        } else {
            let value = match call {
                PowerCall::ReadAcMonitorTimeout => scheme.0,
                PowerCall::ReadDcMonitorTimeout => scheme.1,
                PowerCall::WriteAcMonitorTimeout(v) => {
                    scheme.0 = v;
                    0
                }
                PowerCall::WriteDcMonitorTimeout(v) => {
                    scheme.1 = v;
                    0
                }
                _ => 0,
            };
            run.record(0, value);
        }
        k += 1;
    }
    run
}

#[test]
fn written_timeouts_are_read_back() {
    let mut scheme = (600, 300);
    let write = run_on_scheme(set_monitor_timeout_values(45, 90), &mut scheme, None);
    assert!(write.outcome().is_ok());
    let read = run_on_scheme(snapshot_plan(), &mut scheme, None);
    let s = snapshot_current(&read).unwrap();
    assert_eq!((s.ac_monitor_timeout(), s.dc_monitor_timeout()), (45, 90));
}

#[test]
fn failed_dc_write_keeps_the_ac_write() {
    let mut scheme = (600, 300);
    let write = run_on_scheme(set_monitor_timeout_values(45, 90), &mut scheme, Some(2));
    assert_eq!(write.outcome().unwrap_err().message, "PowerWriteDCValueIndex failed");
    assert_eq!(scheme, (45, 300));
}
