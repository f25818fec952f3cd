use vstd::prelude::*;

use crate::decimal::{decimal_text, push_decimal_text};

verus! {

// ---------------------------------------------------------------------------
// The scheduled task that restores the power plan at system start
// ---------------------------------------------------------------------------

/// Where `schtasks.exe` is looked for first.
pub const SCHTASKS_SYSTEM32: &'static str = "C:\\Windows\\System32\\schtasks.exe";

/// Where `schtasks.exe` is looked for next.
pub const SCHTASKS_SYSWOW64: &'static str = "C:\\Windows\\SysWOW64\\schtasks.exe";

/// The name under which the task is registered.
pub const TASK_NAME: &'static str = "BrewKeep";

/// The `schtasks` program to run: the first of the two system paths that
/// exists, otherwise the bare name, left to the search path.
pub fn find_schtasks(system32_exists: bool, syswow64_exists: bool) -> (r: Option<String>)
    ensures
        r matches Some(p) && p@ == (if system32_exists {
            SCHTASKS_SYSTEM32@
        } else if syswow64_exists {
            SCHTASKS_SYSWOW64@
        } else {
            "schtasks.exe"@
        }),
{
    if system32_exists {
        return Some(SCHTASKS_SYSTEM32.to_owned());
    }
    if syswow64_exists {
        return Some(SCHTASKS_SYSWOW64.to_owned());
    }
    Some("schtasks.exe".to_owned())
}

/// The views of a list of strings.
pub open spec fn texts(v: Seq<String>) -> Seq<Seq<char>> {
    v.map_values(|s: String| s@)
}

/// The command that the task runs: the program's path in quotes, then
/// `--restore`.
pub open spec fn restore_command_spec(exe_path: Seq<char>) -> Seq<char> {
    "\""@ + exe_path + "\" --restore"@
}

/// The command that the startup task runs for the program at `exe_path`.
pub fn restore_command(exe_path: &str) -> (r: String)
    ensures
        r@ == restore_command_spec(exe_path@),
{
    let mut cmd = "\"".to_owned();
    cmd.append(exe_path);
    cmd.append("\" --restore");
    cmd
}

/// The arguments of `schtasks` that create (or replace) the task that runs
/// `restore_cmd` at system start, with the highest rights, as SYSTEM.
pub open spec fn create_task_args_spec(restore_cmd: Seq<char>) -> Seq<Seq<char>> {
    seq![
        "/create"@,
        "/tn"@,
        TASK_NAME@,
        "/tr"@,
        restore_cmd,
        "/sc"@,
        "onstart"@,
        "/rl"@,
        "highest"@,
        "/f"@,
        "/ru"@,
        "SYSTEM"@,
    ]
}

/// The arguments of `schtasks` that delete the task.
pub open spec fn delete_task_args_spec() -> Seq<Seq<char>> {
    seq!["/delete"@, "/tn"@, TASK_NAME@, "/f"@]
}

/// The arguments of `schtasks` that ask whether the task exists.
pub open spec fn query_task_args_spec() -> Seq<Seq<char>> {
    seq!["/query"@, "/tn"@, TASK_NAME@, "/fo"@, "list"@]
}

fn push_arg(args: &mut Vec<String>, arg: &str)
    ensures
        final(args)@.len() == old(args)@.len() + 1,
        forall|i: int| 0 <= i < old(args)@.len() ==> #[trigger] final(args)@[i] == old(args)@[i],
        final(args)@[old(args)@.len() as int]@ == arg@,
{
    args.push(arg.to_owned());
}

/// The arguments of `schtasks` that register the task running the program
/// at `exe_path` with `--restore` at every system start.
pub fn startup_task_create_args(exe_path: &str) -> (r: Vec<String>)
    ensures
        texts(r@) == create_task_args_spec(restore_command_spec(exe_path@)),
{
    let cmd = restore_command(exe_path);
    let mut args: Vec<String> = Vec::new();
    push_arg(&mut args, "/create");
    push_arg(&mut args, "/tn");
    push_arg(&mut args, TASK_NAME);
    push_arg(&mut args, "/tr");
    push_arg(&mut args, cmd.as_str());
    push_arg(&mut args, "/sc");
    push_arg(&mut args, "onstart");
    push_arg(&mut args, "/rl");
    push_arg(&mut args, "highest");
    push_arg(&mut args, "/f");
    push_arg(&mut args, "/ru");
    push_arg(&mut args, "SYSTEM");
    assert(texts(args@) =~= create_task_args_spec(restore_command_spec(exe_path@)));
    args
}

/// The arguments of `schtasks` that delete the startup task.
pub fn startup_task_delete_args() -> (r: Vec<String>)
    ensures
        texts(r@) == delete_task_args_spec(),
{
    let mut args: Vec<String> = Vec::new();
    push_arg(&mut args, "/delete");
    push_arg(&mut args, "/tn");
    push_arg(&mut args, TASK_NAME);
    push_arg(&mut args, "/f");
    assert(texts(args@) =~= delete_task_args_spec());
    args
}

/// The arguments of `schtasks` that ask whether the startup task exists.
pub fn startup_task_query_args() -> (r: Vec<String>)
    ensures
        texts(r@) == query_task_args_spec(),
{
    let mut args: Vec<String> = Vec::new();
    push_arg(&mut args, "/query");
    push_arg(&mut args, "/tn");
    push_arg(&mut args, TASK_NAME);
    push_arg(&mut args, "/fo");
    push_arg(&mut args, "list");
    assert(texts(args@) =~= query_task_args_spec());
    args
}

// ---------------------------------------------------------------------------
// The value under the registry key `Run`
// ---------------------------------------------------------------------------

/// The two bytes of a UTF-16 code unit, low byte first.
pub open spec fn unit_le(u: int) -> Seq<u8> {
    seq![(u % 256) as u8, (u / 256) as u8]
}

/// The UTF-16 encoding of one character, low byte first: one code unit
/// below U+10000, a surrogate pair above.
pub open spec fn char_utf16le(c: char) -> Seq<u8> {
    let v = c as int;
    if v < 0x10000 {
        unit_le(v)
    } else {
        unit_le(0xD800 + (v - 0x10000) / 0x400) + unit_le(0xDC00 + (v - 0x10000) % 0x400)
    }
}

/// The UTF-16 encoding of a text, low byte first, without a terminator.
pub open spec fn utf16le(s: Seq<char>) -> Seq<u8>
    decreases s.len(),
{
    if s.len() == 0 {
        seq![]
    } else {
        utf16le(s.drop_last()) + char_utf16le(s.last())
    }
}

/// The data of the value written under `Run`: the program's path in
/// quotes, as UTF-16.
pub open spec fn registry_value_spec(exe_path: Seq<char>) -> Seq<u8> {
    utf16le("\""@ + exe_path + "\""@)
}

/// For a path of ASCII characters, the value holds each character's code
/// followed by a zero byte.
pub proof fn lemma_ascii_utf16le(s: Seq<char>)
    requires
        forall|i: int| 0 <= i < s.len() ==> 0 <= ((#[trigger] s[i]) as int) < 0x80,
    ensures
        utf16le(s).len() == 2 * s.len(),
        forall|i: int|
            0 <= i < s.len() ==> #[trigger] utf16le(s)[2 * i] == s[i] as u8 && utf16le(s)[2 * i + 1]
                == 0,
    decreases s.len(),
{
    if s.len() > 0 {
        let prev = s.drop_last();
        lemma_ascii_utf16le(prev);
        let c = s.last();
        let tail = char_utf16le(c);
        assert(c == s[s.len() - 1]);
        let v = c as int;
        assert(0 <= (s[s.len() - 1] as int) < 0x80);
        assert(0 <= v < 0x80);
        assert(v % 256 == v && v / 256 == 0) by (nonlinear_arith)
            requires
                0 <= v < 0x80,
        ;
        assert(tail =~= seq![(c as int) as u8, 0u8]);
        assert(utf16le(s) == utf16le(prev) + tail);
        assert forall|i: int| 0 <= i < s.len() implies #[trigger] utf16le(s)[2 * i] == s[i] as u8
            && utf16le(s)[2 * i + 1] == 0 by {
            if i < prev.len() {
                assert(s[i] == prev[i]);
                assert(utf16le(s)[2 * i] == utf16le(prev)[2 * i]);
                assert(utf16le(s)[2 * i + 1] == utf16le(prev)[2 * i + 1]);
            } else {
                assert(i == prev.len());
                assert(s[i] == c);
                assert(utf16le(s)[2 * i] == tail[0]);
                assert(utf16le(s)[2 * i + 1] == tail[1]);
            }
        }
    }
}

fn push_unit(out: &mut Vec<u8>, u: u32)
    requires
        u < 0x10000,
    ensures
        final(out)@ == old(out)@ + unit_le(u as int),
{
    out.push((u % 256) as u8);
    out.push((u / 256) as u8);
    assert(final(out)@ =~= old(out)@ + unit_le(u as int));
}

/// The data of the registry value that starts the program at `exe_path`
/// when the user logs in: the path in quotes, in UTF-16, low byte first.
pub fn registry_value_bytes(exe_path: &str) -> (r: Vec<u8>)
    ensures
        r@ == registry_value_spec(exe_path@),
{
    let mut quoted = "\"".to_owned();
    quoted.append(exe_path);
    quoted.append("\"");
    let text = quoted.as_str();
    let n = text.unicode_len();
    let mut out: Vec<u8> = Vec::new();
    let mut i: usize = 0;
    while i < n
        invariant
            n == text@.len(),
            text@ == "\""@ + exe_path@ + "\""@,
            i <= n,
            out@ == utf16le(text@.take(i as int)),
        decreases n - i,
    {
        let c = text.get_char(i);
        let v = c as u32;
        if v < 0x10000 {
            push_unit(&mut out, v);
        } else {
            let w = v - 0x10000;
            push_unit(&mut out, 0xD800 + w / 0x400);
            push_unit(&mut out, 0xDC00 + w % 0x400);
        }
        proof {
            let next = text@.take(i + 1);
            assert(next.drop_last() =~= text@.take(i as int));
            assert(next.last() == c);
        }
        i = i + 1;
    }
    assert(text@.take(n as int) =~= text@);
    out
}

// ---------------------------------------------------------------------------
// Switching auto-start on or off
// ---------------------------------------------------------------------------

/// Why switching auto-start failed.
pub enum AutostartError {
    /// The key `Run` could not be opened; the status of `RegOpenKeyExW`.
    OpenKey(u32),
    /// The program's own path could not be found; the error's text.
    ExePath(String),
    /// The value could not be written; the status of `RegSetValueExW`.
    WriteValue(u32),
    /// The value could not be deleted; the status of `RegDeleteValueW`.
    DeleteValue(u32),
}

/// How a `WIN32_ERROR` status is shown: `WIN32_ERROR(` and the number.
pub open spec fn win32_error_text(status: u32) -> Seq<char> {
    "WIN32_ERROR("@ + decimal_text(status as nat) + ")"@
}

/// The message of an error.
pub open spec fn error_message_spec(e: AutostartError) -> Seq<char> {
    match e {
        AutostartError::OpenKey(s) => "Failed to open registry key: "@ + win32_error_text(s),
        AutostartError::ExePath(t) => t@,
        AutostartError::WriteValue(s) => "Failed to write registry value: "@ + win32_error_text(s),
        AutostartError::DeleteValue(s) => "Failed to delete registry value: "@ + win32_error_text(s),
    }
}

fn status_message(prefix: &str, status: u32) -> (r: String)
    ensures
        r@ == prefix@ + win32_error_text(status),
{
    let mut m = prefix.to_owned();
    m.append("WIN32_ERROR(");
    push_decimal_text(&mut m, status);
    m.append(")");
    assert(m@ =~= prefix@ + win32_error_text(status));
    m
}

impl AutostartError {
    /// The message that reports the error.
    pub fn message(&self) -> (r: String)
        ensures
            r@ == error_message_spec(*self),
    {
        match self {
            AutostartError::OpenKey(s) => status_message("Failed to open registry key: ", *s),
            AutostartError::ExePath(t) => t.clone(),
            AutostartError::WriteValue(s) => status_message("Failed to write registry value: ", *s),
            AutostartError::DeleteValue(s) => status_message("Failed to delete registry value: ", *s),
        }
    }
}

/// What has just happened while switching auto-start.
pub enum AutostartEvent {
    /// Nothing yet.
    Started,
    /// The startup task was created or deleted (its outcome is not looked at).
    TaskUpdated,
    /// `RegOpenKeyExW` on the key `Run` returned this status.
    KeyOpened(u32),
    /// The program's path, as text, or the text of the error that finding it gave.
    ExePath(Result<String, String>),
    /// `RegSetValueExW` returned this status.
    ValueWritten(u32),
    /// `RegDeleteValueW` returned this status.
    ValueDeleted(u32),
}

/// What to do next while switching auto-start.
pub enum AutostartAction {
    /// Create (or replace) the startup task.
    EnsureStartupTask,
    /// Delete the startup task.
    RemoveStartupTask,
    /// Open the key `Run` of the current user for writing.
    OpenRunKey,
    /// Find the program's own path.
    QueryExePath,
    /// Write the program's value under `Run`, as `REG_SZ`, with these bytes.
    WriteRunValue(Vec<u8>),
    /// Delete the program's value under `Run`.
    DeleteRunValue,
    /// Stop: close the key first when `close_key` is set, then report `result`.
    Finish { close_key: bool, result: Result<(), AutostartError> },
}

/// The step that follows `event` when auto-start is being switched on
/// (`enable`) or off. The task is updated first; then the key `Run` is
/// opened, and on success the value is written (with the program's path
/// found first) or deleted. The key is closed after the write or the delete,
/// whatever its outcome; a failure to open the key or to find the path ends
/// the switch at once.
pub fn set_autostart(enable: bool, event: &AutostartEvent) -> (r: AutostartAction)
    ensures
        match *event {
            AutostartEvent::Started => if enable {
                r is EnsureStartupTask
            } else {
                r is RemoveStartupTask
            },
            AutostartEvent::TaskUpdated => r is OpenRunKey,
            AutostartEvent::KeyOpened(s) => if s != 0 {
                match r {
                    AutostartAction::Finish {
                        close_key,
                        result: Err(AutostartError::OpenKey(c)),
                    } => !close_key && c == s,
                    _ => false,
                }
            } else if enable {
                r is QueryExePath
            } else {
                r is DeleteRunValue
            },
            AutostartEvent::ExePath(Ok(p)) => match r {
                AutostartAction::WriteRunValue(b) => b@ == registry_value_spec(p@),
                _ => false,
            },
            AutostartEvent::ExePath(Err(t)) => match r {
                AutostartAction::Finish {
                    close_key,
                    result: Err(AutostartError::ExePath(m)),
                } => !close_key && m@ == t@,
                _ => false,
            },
            AutostartEvent::ValueWritten(s) => match r {
                AutostartAction::Finish { close_key, result: Ok(()) } => close_key && s == 0,
                AutostartAction::Finish {
                    close_key,
                    result: Err(AutostartError::WriteValue(c)),
                } => close_key && s != 0 && c == s,
                _ => false,
            },
            AutostartEvent::ValueDeleted(s) => match r {
                AutostartAction::Finish { close_key, result: Ok(()) } => close_key && s == 0,
                AutostartAction::Finish {
                    close_key,
                    result: Err(AutostartError::DeleteValue(c)),
                } => close_key && s != 0 && c == s,
                _ => false,
            },
        },
{
    match event {
        AutostartEvent::Started => {
            if enable {
                AutostartAction::EnsureStartupTask
            } else {
                AutostartAction::RemoveStartupTask
            }
        },
        AutostartEvent::TaskUpdated => AutostartAction::OpenRunKey,
        AutostartEvent::KeyOpened(s) => {
            if *s != 0 {
                AutostartAction::Finish { close_key: false, result: Err(AutostartError::OpenKey(*s)) }
            } else if enable {
                AutostartAction::QueryExePath
            } else {
                AutostartAction::DeleteRunValue
            }
        },
        AutostartEvent::ExePath(Ok(p)) => AutostartAction::WriteRunValue(
            registry_value_bytes(p.as_str()),
        ),
        AutostartEvent::ExePath(Err(t)) => AutostartAction::Finish {
            close_key: false,
            result: Err(AutostartError::ExePath(t.clone())),
        },
        AutostartEvent::ValueWritten(s) => {
            if *s == 0 {
                AutostartAction::Finish { close_key: true, result: Ok(()) }
            } else {
                AutostartAction::Finish { close_key: true, result: Err(AutostartError::WriteValue(*s)) }
            }
        },
        AutostartEvent::ValueDeleted(s) => {
            if *s == 0 {
                AutostartAction::Finish { close_key: true, result: Ok(()) }
            } else {
                AutostartAction::Finish {
                    close_key: true,
                    result: Err(AutostartError::DeleteValue(*s)),
                }
            }
        },
    }
}

// ---------------------------------------------------------------------------
// Asking whether auto-start is on
// ---------------------------------------------------------------------------

/// What has just happened while asking whether auto-start is on.
#[derive(Debug, Clone, Copy, PartialEq, Eq, Structural)]
pub enum ProbeEvent {
    /// Nothing yet.
    Started,
    /// Whether `schtasks` reports the startup task.
    TaskChecked(bool),
    /// `RegOpenKeyExW` on the key `Run` (for reading) returned this status.
    KeyOpened(u32),
    /// `RegQueryValueExW` on the program's value returned this status.
    ValueQueried(u32),
}

/// What to do next while asking whether auto-start is on.
#[derive(Debug, Clone, Copy, PartialEq, Eq, Structural)]
pub enum ProbeAction {
    /// Ask `schtasks` whether the startup task exists.
    QueryTask,
    /// Open the key `Run` of the current user for reading.
    OpenRunKey,
    /// Ask whether the program's value exists under `Run`.
    QueryRunValue,
    /// Stop: close the key first when `close_key` is set; auto-start is on
    /// exactly when `enabled` is set.
    Finish { close_key: bool, enabled: bool },
}

/// The step that follows `event` when asking whether auto-start is on: it
/// is on when the startup task exists, and otherwise when the program's
/// value exists under `Run`.
pub fn is_autostart_enabled(event: ProbeEvent) -> (r: ProbeAction)
    ensures
        r == match event {
            ProbeEvent::Started => ProbeAction::QueryTask,
            ProbeEvent::TaskChecked(active) => if active {
                ProbeAction::Finish { close_key: false, enabled: true }
            } else {
                ProbeAction::OpenRunKey
            },
            ProbeEvent::KeyOpened(s) => if s != 0 {
                ProbeAction::Finish { close_key: false, enabled: false }
            } else {
                ProbeAction::QueryRunValue
            },
            ProbeEvent::ValueQueried(s) => ProbeAction::Finish { close_key: true, enabled: s == 0 },
        },
{
    match event {
        ProbeEvent::Started => ProbeAction::QueryTask,
        ProbeEvent::TaskChecked(active) => {
            if active {
                ProbeAction::Finish { close_key: false, enabled: true }
            } else {
                ProbeAction::OpenRunKey
            }
        },
        ProbeEvent::KeyOpened(s) => {
            if s != 0 {
                ProbeAction::Finish { close_key: false, enabled: false }
            } else {
                ProbeAction::QueryRunValue
            }
        },
        ProbeEvent::ValueQueried(s) => ProbeAction::Finish { close_key: true, enabled: s == 0 },
    }
}

} // verus!
