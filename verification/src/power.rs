use vstd::prelude::*;

use crate::decimal::{decimal_spec, lemma_decimal_spec, parse_u32, parse_u32_spec, push_decimal};
use vstd::string::StringSliceAdditionalSpecFns;
use windows_core::{Error, HRESULT};

verus! {

// ---------------------------------------------------------------------------
// Errors
// ---------------------------------------------------------------------------

#[verifier::external_type_specification]
#[verifier::external_body]
pub struct ExWindowsError(windows_core::Error);

/// The generic failure code `E_FAIL` (0x80004005) as an `HRESULT` value.
pub const E_FAIL: i32 = -2147467259i32;

/// Calls `windows_core::Error::new` with the `HRESULT` `code` and the text
/// `message`.
///
/// The outside source keeps `code` as the error's code on every platform
/// (the message is kept only on Windows, where it goes to the thread's error
/// information). `Error` is opaque here, so no clause states either: the
/// library claims nothing of the value it gets back.
#[verifier::external_body]
fn new_error(code: i32, message: &str) -> Error {
    Error::new(HRESULT(code), message)
}

/// The error of a failed power call: an `HRESULT` code and a message, the
/// two things that `windows_core::Error` is made of.
#[derive(Debug, PartialEq, Eq)]
pub struct PowerError {
    pub code: i32,
    pub message: String,
}

impl PowerError {
    /// The same error as a `windows_core::Error`, made with
    /// `windows_core::Error::new` from the code and the message.
    pub fn to_windows_error(&self) -> Error {
        new_error(self.code, self.message.as_str())
    }
}

/// The error that every failed power call reports: `E_FAIL` with `msg`.
fn err(msg: &str) -> (e: PowerError)
    ensures
        e.code == E_FAIL,
        e.message@ == msg@,
{
    PowerError { code: E_FAIL, message: msg.to_owned() }
}

/// Maps the status of a power call to a result: `Ok` exactly when the
/// status is zero (`ERROR_SUCCESS`), otherwise an `E_FAIL` error carrying
/// `msg`.
pub fn check_dword(result: u32, msg: &str) -> (r: Result<(), PowerError>)
    ensures
        r is Ok <==> result == 0,
        r matches Err(e) ==> e.code == E_FAIL && e.message@ == msg@,
{
    if result == 0 {
        Ok(())
    } else {
        Err(err(msg))
    }
}

// ---------------------------------------------------------------------------
// Thread execution state
// ---------------------------------------------------------------------------

/// The flags handed to `SetThreadExecutionState`.
#[derive(Clone, Copy, Debug, PartialEq, Eq, Structural)]
pub struct ExecutionState {
    /// `ES_CONTINUOUS`: the request stays in force until the next call.
    pub continuous: bool,
    /// `ES_SYSTEM_REQUIRED`: the system must not sleep.
    pub system_required: bool,
    /// `ES_DISPLAY_REQUIRED`: the display must stay on.
    pub display_required: bool,
}

/// The request that keeps both the system and the display awake.
pub fn hold_awake() -> (r: ExecutionState)
    ensures
        r == (ExecutionState { continuous: true, system_required: true, display_required: true }),
{
    ExecutionState { continuous: true, system_required: true, display_required: true }
}

/// The request that keeps the system awake but lets the display turn off.
pub fn prevent_system_sleep() -> (r: ExecutionState)
    ensures
        r == (ExecutionState { continuous: true, system_required: true, display_required: false }),
{
    ExecutionState { continuous: true, system_required: true, display_required: false }
}

/// The request that withdraws every earlier request.
pub fn release_awake() -> (r: ExecutionState)
    ensures
        r == (ExecutionState { continuous: true, system_required: false, display_required: false }),
{
    ExecutionState { continuous: true, system_required: false, display_required: false }
}

// ---------------------------------------------------------------------------
// Calls on the active power scheme
// ---------------------------------------------------------------------------

/// One call of the power scheme API on the monitor timeout of the active
/// scheme.
#[derive(Clone, Copy, Debug, PartialEq, Eq, Structural)]
pub enum PowerCall {
    /// `PowerGetActiveScheme`.
    GetActiveScheme,
    /// `PowerReadACValueIndex` of the monitor timeout.
    ReadAcMonitorTimeout,
    /// `PowerReadDCValueIndex` of the monitor timeout.
    ReadDcMonitorTimeout,
    /// `PowerWriteACValueIndex` of the monitor timeout, in seconds.
    WriteAcMonitorTimeout(u32),
    /// `PowerWriteDCValueIndex` of the monitor timeout, in seconds.
    WriteDcMonitorTimeout(u32),
    /// `PowerSetActiveScheme`, which makes written values take effect.
    SetActiveScheme,
}

/// The text of the error that a failed call reports.
pub open spec fn failure_message_spec(call: PowerCall) -> Seq<char> {
    match call {
        PowerCall::GetActiveScheme => "PowerGetActiveScheme failed"@,
        PowerCall::ReadAcMonitorTimeout => "PowerReadACValueIndex failed"@,
        PowerCall::ReadDcMonitorTimeout => "PowerReadDCValueIndex failed"@,
        PowerCall::WriteAcMonitorTimeout(_) => "PowerWriteACValueIndex failed"@,
        PowerCall::WriteDcMonitorTimeout(_) => "PowerWriteDCValueIndex failed"@,
        PowerCall::SetActiveScheme => "PowerSetActiveScheme failed"@,
    }
}

impl PowerCall {
    /// The text of the error that this call reports when it fails.
    pub fn failure_message(&self) -> (r: &'static str)
        ensures
            r@ == failure_message_spec(*self),
    {
        match self {
            PowerCall::GetActiveScheme => "PowerGetActiveScheme failed",
            PowerCall::ReadAcMonitorTimeout => "PowerReadACValueIndex failed",
            PowerCall::ReadDcMonitorTimeout => "PowerReadDCValueIndex failed",
            PowerCall::WriteAcMonitorTimeout(_) => "PowerWriteACValueIndex failed",
            PowerCall::WriteDcMonitorTimeout(_) => "PowerWriteDCValueIndex failed",
            PowerCall::SetActiveScheme => "PowerSetActiveScheme failed",
        }
    }
}

/// The calls that read the monitor timeouts of the active scheme.
pub open spec fn snapshot_plan_spec() -> Seq<PowerCall> {
    seq![PowerCall::GetActiveScheme, PowerCall::ReadAcMonitorTimeout, PowerCall::ReadDcMonitorTimeout]
}

/// The calls that write the monitor timeouts `ac` and `dc` (in seconds) to
/// the active scheme and make them take effect.
pub open spec fn timeout_write_plan(ac: u32, dc: u32) -> Seq<PowerCall> {
    seq![
        PowerCall::GetActiveScheme,
        PowerCall::WriteAcMonitorTimeout(ac),
        PowerCall::WriteDcMonitorTimeout(dc),
        PowerCall::SetActiveScheme,
    ]
}

/// The calls that read the monitor timeouts of the active scheme.
pub fn snapshot_plan() -> (r: Vec<PowerCall>)
    ensures
        r@ == snapshot_plan_spec(),
{
    let mut v = Vec::new();
    v.push(PowerCall::GetActiveScheme);
    v.push(PowerCall::ReadAcMonitorTimeout);
    v.push(PowerCall::ReadDcMonitorTimeout);
    assert(v@ =~= snapshot_plan_spec());
    v
}

/// The calls that set the monitor timeouts of the active scheme to
/// `ac_seconds` on mains power and `dc_seconds` on battery.
pub fn set_monitor_timeout_values(ac_seconds: u32, dc_seconds: u32) -> (r: Vec<PowerCall>)
    ensures
        r@ == timeout_write_plan(ac_seconds, dc_seconds),
{
    let mut v = Vec::new();
    v.push(PowerCall::GetActiveScheme);
    v.push(PowerCall::WriteAcMonitorTimeout(ac_seconds));
    v.push(PowerCall::WriteDcMonitorTimeout(dc_seconds));
    v.push(PowerCall::SetActiveScheme);
    assert(v@ =~= timeout_write_plan(ac_seconds, dc_seconds));
    v
}

/// The calls that set both monitor timeouts to `seconds`.
pub fn set_monitor_timeout(seconds: u32) -> (r: Vec<PowerCall>)
    ensures
        r@ == timeout_write_plan(seconds, seconds),
{
    set_monitor_timeout_values(seconds, seconds)
}

// ---------------------------------------------------------------------------
// Running a sequence of calls
// ---------------------------------------------------------------------------

/// A sequence of power calls being carried out: the caller performs the call
/// that `next_call` names and hands its status (and the value it read, if
/// any) to `record`. The run stops at the first call that fails.
pub struct PowerRun {
    plan: Vec<PowerCall>,
    statuses: Vec<u32>,
    values: Vec<u32>,
}

impl PowerRun {
    /// The calls to make, in order.
    pub closed spec fn plan(&self) -> Seq<PowerCall> {
        self.plan@
    }

    /// The statuses of the calls made so far.
    pub closed spec fn statuses(&self) -> Seq<u32> {
        self.statuses@
    }

    /// The values that the calls made so far read (zero for a call that
    /// reads nothing).
    pub closed spec fn values(&self) -> Seq<u32> {
        self.values@
    }

    /// The last call made has failed.
    pub open spec fn failed(&self) -> bool {
        self.statuses().len() > 0 && self.statuses().last() != 0
    }

    /// No call is left to make.
    pub open spec fn finished(&self) -> bool {
        self.failed() || self.statuses().len() >= self.plan().len()
    }

    /// Every call before the last one made has succeeded, and no more calls
    /// were made than the plan holds: a run stops at the first failure.
    pub open spec fn stops_at_first_failure(&self) -> bool {
        &&& self.statuses().len() == self.values().len()
        &&& self.statuses().len() <= self.plan().len()
        &&& forall|i: int| 0 <= i < self.statuses().len() - 1 ==> #[trigger] self.statuses()[i] == 0
    }

    /// A run of `plan` that has made no call yet.
    pub fn new(plan: Vec<PowerCall>) -> (r: PowerRun)
        ensures
            r.plan() == plan@,
            r.statuses() == Seq::<u32>::empty(),
            r.values() == Seq::<u32>::empty(),
            r.stops_at_first_failure(),
    {
        PowerRun { plan, statuses: Vec::new(), values: Vec::new() }
    }

    /// The call to make next, or `None` once the run has finished.
    pub fn next_call(&self) -> (r: Option<PowerCall>)
        requires
            self.stops_at_first_failure(),
        ensures
            r is None <==> self.finished(),
            r matches Some(c) ==> c == self.plan()[self.statuses().len() as int],
    {
        let n = self.statuses.len();
        if n > 0 && self.statuses[n - 1] != 0 {
            None
        } else if n >= self.plan.len() {
            None
        } else {
            Some(self.plan[n])
        }
    }

    /// Records the status of the call that `next_call` named, and the value
    /// it read.
    pub fn record(&mut self, status: u32, value: u32)
        requires
            old(self).stops_at_first_failure(),
            !old(self).finished(),
        ensures
            final(self).plan() == old(self).plan(),
            final(self).statuses() == old(self).statuses().push(status),
            final(self).values() == old(self).values().push(value),
            final(self).stops_at_first_failure(),
    {
        self.statuses.push(status);
        self.values.push(value);
    }

    /// The call that failed, if one did: the last call made.
    pub fn failed_call(&self) -> (r: Option<PowerCall>)
        requires
            self.stops_at_first_failure(),
        ensures
            r is Some <==> self.failed(),
            r matches Some(c) ==> c == self.plan()[self.statuses().len() - 1],
    {
        let n = self.statuses.len();
        if n > 0 && self.statuses[n - 1] != 0 {
            Some(self.plan[n - 1])
        } else {
            None
        }
    }

    /// The outcome of a finished run: `Ok` exactly when no call failed,
    /// otherwise the `E_FAIL` error with the `failure_message` of the call
    /// that failed (the last one made).
    pub fn outcome(&self) -> (r: Result<(), PowerError>)
        requires
            self.stops_at_first_failure(),
            self.finished(),
        ensures
            r is Ok <==> !self.failed(),
            r matches Err(e) ==> e.code == E_FAIL && e.message@ == failure_message_spec(
                self.plan()[self.statuses().len() - 1],
            ),
    {
        match self.failed_call() {
            Some(call) => Err(err(call.failure_message())),
            None => Ok(()),
        }
    }

    /// The value that the call at `index` read.
    pub fn value_at(&self, index: usize) -> (r: u32)
        requires
            index < self.values().len(),
        ensures
            r == self.values()[index as int],
    {
        self.values[index]
    }
}

// ---------------------------------------------------------------------------
// Snapshot of the timeouts found at start
// ---------------------------------------------------------------------------

/// The monitor timeouts of the active scheme, taken when the program starts
/// so that they can be written back when it ends.
pub struct PowerStateSnapshot {
    ac_monitor_timeout: u32,
    dc_monitor_timeout: u32,
    restore_on_drop: bool,
}

impl PowerStateSnapshot {
    /// The monitor timeout on mains power, in seconds.
    pub closed spec fn ac_value(&self) -> u32 {
        self.ac_monitor_timeout
    }

    /// The monitor timeout on battery, in seconds.
    pub closed spec fn dc_value(&self) -> u32 {
        self.dc_monitor_timeout
    }

    /// The monitor timeout on mains power, in seconds.
    pub fn ac_monitor_timeout(&self) -> (r: u32)
        ensures
            r == self.ac_value(),
    {
        self.ac_monitor_timeout
    }

    /// The monitor timeout on battery, in seconds.
    pub fn dc_monitor_timeout(&self) -> (r: u32)
        ensures
            r == self.dc_value(),
    {
        self.dc_monitor_timeout
    }

    /// The snapshot writes its timeouts back when it is dropped.
    pub closed spec fn restores_on_drop(&self) -> bool {
        self.restore_on_drop
    }

    /// Every snapshot is taken to be written back when it is dropped.
    #[verifier::type_invariant]
    closed spec fn always_restores(&self) -> bool {
        self.restore_on_drop
    }

    /// What dropping the snapshot does: the calls that write its timeouts
    /// back, when it is set to restore them, which every snapshot is.
    pub fn on_drop(&self) -> (r: Option<Vec<PowerCall>>)
        ensures
            r is Some <==> self.restores_on_drop(),
            r matches Some(p) && p@ == timeout_write_plan(self.ac_value(), self.dc_value()),
    {
        proof {
            use_type_invariant(self);
        }
        if self.restore_on_drop {
            Some(restore(self))
        } else {
            None
        }
    }
}

/// The snapshot that a finished run of the snapshot calls gives: the
/// timeouts that the two reads returned, or the `E_FAIL` error with the
/// `failure_message` of the call that failed.
pub fn snapshot_current(run: &PowerRun) -> (r: Result<PowerStateSnapshot, PowerError>)
    requires
        run.plan() == snapshot_plan_spec(),
        run.stops_at_first_failure(),
        run.finished(),
    ensures
        r is Ok <==> !run.failed(),
        r matches Err(e) ==> e.code == E_FAIL && e.message@ == failure_message_spec(
            run.plan()[run.statuses().len() - 1],
        ),
        r matches Ok(s) ==> {
            &&& s.ac_value() == run.values()[1]
            &&& s.dc_value() == run.values()[2]
            &&& s.restores_on_drop()
        },
{
    match run.outcome() {
        Ok(()) => {
            let ac = run.value_at(1);
            let dc = run.value_at(2);
            Ok(PowerStateSnapshot { ac_monitor_timeout: ac, dc_monitor_timeout: dc, restore_on_drop: true })
        },
        Err(e) => Err(e),
    }
}

/// The monitor timeouts (AC, DC) of the active scheme after the calls of
/// `plan` with the statuses `statuses`, from `before`: each write that
/// succeeded sets its value; every other call leaves the values as they are.
pub open spec fn scheme_after(before: (u32, u32), plan: Seq<PowerCall>, statuses: Seq<u32>) -> (u32, u32)
    decreases statuses.len(),
{
    if statuses.len() == 0 {
        before
    } else {
        let prev = scheme_after(before, plan, statuses.drop_last());
        let i = statuses.len() - 1;
        if statuses[i] != 0 {
            prev
        } else {
            match plan[i] {
                PowerCall::WriteAcMonitorTimeout(v) => (v, prev.1),
                PowerCall::WriteDcMonitorTimeout(v) => (prev.0, v),
                _ => prev,
            }
        }
    }
}

/// What is written is read back. A run of the calls that set the timeouts
/// to `ac` and `dc` that finished without a failure made all of its calls,
/// each with success, so the scheme then holds `ac` and `dc` whatever it held
/// `before`; and a run of the snapshot calls made next, whose reads return
/// what the scheme holds, finished with `ac` and `dc` read, which are the
/// timeouts of the snapshot that `snapshot_current` makes of it.
pub proof fn lemma_read_after_write(ac: u32, dc: u32, before: (u32, u32), write: PowerRun, read: PowerRun)
    requires
        write.plan() == timeout_write_plan(ac, dc),
        write.stops_at_first_failure(),
        write.finished(),
        !write.failed(),
        read.plan() == snapshot_plan_spec(),
        read.stops_at_first_failure(),
        read.finished(),
        !read.failed(),
        read.values()[1] == scheme_after(before, write.plan(), write.statuses()).0,
        read.values()[2] == scheme_after(before, write.plan(), write.statuses()).1,
    ensures
        write.statuses() == seq![0u32, 0u32, 0u32, 0u32],
        scheme_after(before, write.plan(), write.statuses()) == (ac, dc),
        read.statuses() == seq![0u32, 0u32, 0u32],
        read.values()[1] == ac,
        read.values()[2] == dc,
{
    let st = write.statuses();
    let plan = write.plan();
    assert(st.len() == 4);
    assert(st[0] == 0 && st[1] == 0 && st[2] == 0);
    assert(st =~= seq![0u32, 0u32, 0u32, 0u32]);
    let t1 = seq![0u32];
    let t2 = seq![0u32, 0u32];
    let t3 = seq![0u32, 0u32, 0u32];
    assert(t1.drop_last() =~= Seq::<u32>::empty());
    assert(t2.drop_last() =~= t1);
    assert(t3.drop_last() =~= t2);
    assert(st.drop_last() =~= t3);
    assert(scheme_after(before, plan, Seq::<u32>::empty()) == before);
    assert(plan[0] == PowerCall::GetActiveScheme);
    assert(scheme_after(before, plan, t1) == before);
    assert(scheme_after(before, plan, t2) == (ac, before.1));
    assert(scheme_after(before, plan, t3) == (ac, dc));
    assert(scheme_after(before, plan, st) == (ac, dc));
    let rs = read.statuses();
    assert(rs.len() == 3);
    assert(rs[0] == 0 && rs[1] == 0);
    assert(rs =~= seq![0u32, 0u32, 0u32]);
}

/// The calls that write the snapshot's timeouts back to the active scheme.
pub fn restore(snapshot: &PowerStateSnapshot) -> (r: Vec<PowerCall>)
    ensures
        r@ == timeout_write_plan(snapshot.ac_value(), snapshot.dc_value()),
{
    set_monitor_timeout_values(snapshot.ac_monitor_timeout(), snapshot.dc_monitor_timeout())
}

// ---------------------------------------------------------------------------
// The state file
// ---------------------------------------------------------------------------

/// The contents of the state file for the timeouts `ac` and `dc`: both in
/// decimal, separated by `|`.
pub open spec fn state_file_bytes(ac: u32, dc: u32) -> Seq<u8> {
    decimal_spec(ac as nat) + seq![124u8] + decimal_spec(dc as nat)
}

/// `s` holds a `|` at `p` and nowhere else.
pub open spec fn only_bar_at(s: Seq<u8>, p: int) -> bool {
    &&& 0 <= p < s.len()
    &&& s[p] == 124
    &&& forall|q: int| 0 <= q < s.len() && q != p ==> #[trigger] s[q] != 124
}

/// What the state file `s` holds: split at `|` into exactly two fields, each
/// read as `u32::from_str` reads it.
pub open spec fn parse_state_spec(s: Seq<u8>) -> Option<(u32, u32)> {
    if exists|p: int| only_bar_at(s, p) {
        let p = choose|p: int| only_bar_at(s, p);
        match (parse_u32_spec(s.subrange(0, p)), parse_u32_spec(s.subrange(p + 1, s.len() as int))) {
            (Some(ac), Some(dc)) => Some((ac, dc)),
            _ => None,
        }
    } else {
        None
    }
}

/// Reading back the state file written for `ac` and `dc` gives `ac` and `dc`.
pub proof fn lemma_state_file_round_trip(ac: u32, dc: u32)
    ensures
        parse_state_spec(state_file_bytes(ac, dc)) == Some((ac, dc)),
{
    let a = decimal_spec(ac as nat);
    let d = decimal_spec(dc as nat);
    let s = state_file_bytes(ac, dc);
    lemma_decimal_spec(ac as nat);
    lemma_decimal_spec(dc as nat);
    crate::decimal::lemma_parse_decimal(ac);
    crate::decimal::lemma_parse_decimal(dc);
    let p = a.len() as int;
    assert forall|q: int| 0 <= q < s.len() && q != p implies #[trigger] s[q] != 124 by {
        if q < p {
            assert(s[q] == a[q]);
        } else {
            assert(s[q] == d[q - p - 1]);
        }
    }
    assert(s[p] == 124);
    assert(only_bar_at(s, p));
    let c = choose|c: int| only_bar_at(s, c);
    assert(c == p);
    assert(s.subrange(0, p) =~= a);
    assert(s.subrange(p + 1, s.len() as int) =~= d);
}

/// The contents of the state file that records the timeouts `ac_timeout`
/// and `dc_timeout`.
pub fn save_state_file(ac_timeout: u32, dc_timeout: u32) -> (r: Vec<u8>)
    ensures
        r@ == state_file_bytes(ac_timeout, dc_timeout),
{
    let mut out: Vec<u8> = Vec::new();
    push_decimal(&mut out, ac_timeout);
    out.push(124);
    push_decimal(&mut out, dc_timeout);
    assert(out@ =~= state_file_bytes(ac_timeout, dc_timeout));
    out
}

/// The timeouts that the state file `content` records, or `None` where it
/// does not hold exactly two `|`-separated numbers.
pub fn parse_state_file(content: &str) -> (r: Option<(u32, u32)>)
    ensures
        r == parse_state_spec(content.spec_bytes()),
{
    let bytes = content.as_bytes();
    let ghost s = bytes@;
    let n = bytes.len();
    let mut found: Option<usize> = None;
    let mut i: usize = 0;
    while i < n
        invariant
            n == s.len(),
            s == bytes@,
            s == content.spec_bytes(),
            i <= n,
            found is None ==> forall|q: int| 0 <= q < i ==> #[trigger] s[q] != 124,
            found matches Some(p) ==> {
                &&& p < i
                &&& s[p as int] == 124
                &&& forall|q: int| 0 <= q < i && q != p ==> #[trigger] s[q] != 124
            },
        decreases n - i,
    {
        if bytes[i] == 124 {
            match found {
                Some(p) => {
                    assert forall|c: int| !only_bar_at(s, c) by {
                        if only_bar_at(s, c) {
                            if c != p as int {
                                assert(s[p as int] != 124);
                            } else {
                                assert(s[i as int] != 124);
                            }
                        }
                    }
                    return None;
                },
                None => {
                    found = Some(i);
                },
            }
        }
        i = i + 1;
    }
    match found {
        None => {
            assert forall|c: int| !only_bar_at(s, c) by {
                if only_bar_at(s, c) {
                    assert(s[c] != 124);
                }
            }
            None
        },
        Some(p) => {
            assert(only_bar_at(s, p as int));
            proof {
                let c = choose|c: int| only_bar_at(s, c);
                if c != p as int {
                    assert(s[p as int] != 124);
                }
            }
            let ac = parse_u32(bytes, 0, p);
            let dc = parse_u32(bytes, p + 1, n);
            match (ac, dc) {
                (Some(a), Some(d)) => Some((a, d)),
                _ => None,
            }
        },
    }
}

/// What restoring from the state file does, given the timeouts that it
/// recorded (`None` where it was missing or unreadable): the calls that
/// write them back. The file was found and read exactly when the result is
/// `Some`.
pub fn restore_from_state_file(saved: Option<(u32, u32)>) -> (r: Option<Vec<PowerCall>>)
    ensures
        r is Some <==> saved is Some,
        saved matches Some((ac, dc)) ==> r matches Some(p) && p@ == timeout_write_plan(ac, dc),
{
    match saved {
        Some((ac_timeout, dc_timeout)) => Some(set_monitor_timeout_values(ac_timeout, dc_timeout)),
        None => None,
    }
}

/// The parts of the state file's path: the application data folder
/// (`appdata`, or `.` where it is not set), the program's folder and the
/// file's name.
pub fn state_file_path(appdata: Option<String>) -> (r: Vec<String>)
    ensures
        r.len() == 3,
        r@[0]@ == match appdata {
            Some(a) => a@,
            None => "."@,
        },
        r@[1]@ == "BrewKeep"@,
        r@[2]@ == "state.dat"@,
{
    let base = match appdata {
        Some(a) => a,
        None => ".".to_owned(),
    };
    let mut parts: Vec<String> = Vec::new();
    parts.push(base);
    parts.push("BrewKeep".to_owned());
    parts.push("state.dat".to_owned());
    parts
}

} // verus!
