//! The helper's line protocol, and the lifecycle of a capture session.
use vstd::prelude::*;

use crate::state::{AppState, AppStateView, idle_status};
use crate::text::{
    decimal, decimal_string, has_prefix, is_blank, is_ws, is_blank_str, join_path, joined, parse_u32,
    parsed_u32, strip_prefix, trim, trimmed,
};

verus! {

pub open spec fn listening_status() -> Seq<char> {
    "Listening..."@
}

pub open spec fn error_status_prefix() -> Seq<char> {
    "Native speech error: "@
}

pub open spec fn diagnostic_status_prefix() -> Seq<char> {
    "Native speech bridge: "@
}

/// What follows the prefix `p` in `line`.
pub open spec fn after_prefix(line: Seq<char>, p: Seq<char>) -> Seq<char> {
    line.subrange(p.len() as int, line.len() as int)
}

/// The record after one line of helper output has been applied to `s`.
pub open spec fn speech_line_applied(s: AppStateView, line: Seq<char>) -> AppStateView {
    if has_prefix(line, "STATUS\t"@) {
        AppStateView { speech_status: after_prefix(line, "STATUS\t"@), ..s }
    } else if has_prefix(line, "PARTIAL\t"@) {
        AppStateView {
            transcript: after_prefix(line, "PARTIAL\t"@),
            speech_status: listening_status(),
            ..s
        }
    } else if has_prefix(line, "FINAL\t"@) {
        AppStateView {
            transcript: after_prefix(line, "FINAL\t"@),
            speech_status: listening_status(),
            ..s
        }
    } else if has_prefix(line, "ERROR\t"@) {
        AppStateView {
            speech_status: error_status_prefix() + after_prefix(line, "ERROR\t"@),
            ..s
        }
    } else if !is_blank(line) {
        AppStateView { speech_status: diagnostic_status_prefix() + trimmed(line), ..s }
    } else {
        s
    }
}

/// Applies one line of helper output to the record: a status, a transcript update,
/// an error, or (for any other non-blank line) a diagnostic. Blank lines change nothing.
pub fn parse_speech_line(line: &str, state: &mut AppState)
    ensures
        final(state)@ == speech_line_applied(old(state)@, line@),
{
    if let Some(rest) = strip_prefix(line, "STATUS\t") {
        state.speech_status = String::from_str(rest);
        return;
    }
    if let Some(rest) = strip_prefix(line, "PARTIAL\t") {
        state.transcript = String::from_str(rest);
        state.speech_status = String::from_str("Listening...");
        return;
    }
    if let Some(rest) = strip_prefix(line, "FINAL\t") {
        state.transcript = String::from_str(rest);
        state.speech_status = String::from_str("Listening...");
        return;
    }
    if let Some(rest) = strip_prefix(line, "ERROR\t") {
        let mut status = String::from_str("Native speech error: ");
        status.append(rest);
        state.speech_status = status;
        return;
    }
    if !is_blank_str(line) {
        let mut status = String::from_str("Native speech bridge: ");
        status.append(trim(line));
        state.speech_status = status;
    }
}

/// The record once capture has stopped: only the status changes, to the idle message.
pub open spec fn capture_stopped(s: AppStateView) -> AppStateView {
    AppStateView { speech_status: idle_status(), ..s }
}

/// Last step of stopping capture, after any session was taken and torn down: the
/// status becomes the idle message. It cannot fail and needs no session.
pub fn stop_capture(state: &mut AppState)
    ensures
        final(state)@ == capture_stopped(old(state)@),
{
    state.speech_status = String::from_str("Native speech idle.");
}

/// Reports that a pipe reader could not open its pipe.
pub fn report_reader_open_failure(state: &mut AppState, path: &str, detail: &str)
    ensures
        final(state)@ == (AppStateView {
            speech_status: "Native speech bridge reader failed to open "@ + path@ + ": "@
                + detail@,
            ..old(state)@
        }),
{
    let mut status = String::from_str("Native speech bridge reader failed to open ");
    status.append(path);
    status.append(": ");
    status.append(detail);
    state.speech_status = status;
}

/// One running helper: its process handle, the id it reported, and its workspace.
pub struct CaptureSession<H> {
    pub child: Option<H>,
    pub pid: Option<u32>,
    pub session_dir: Option<String>,
}

/// The single slot that holds the running session, if any.
pub struct SessionSlot<H> {
    pub current: Option<CaptureSession<H>>,
}

impl<H> SessionSlot<H> {
    pub fn new() -> (r: Self)
        ensures
            r.current is None,
    {
        SessionSlot { current: None }
    }
}

/// First step of stopping capture: takes the session out of the slot, leaving it
/// empty. The caller tears the returned session down.
pub fn take_session<H>(slot: &mut SessionSlot<H>) -> (r: Option<CaptureSession<H>>)
    ensures
        final(slot).current is None,
        r == old(slot).current,
{
    let mut taken: Option<CaptureSession<H>> = None;
    std::mem::swap(&mut taken, &mut slot.current);
    taken
}

/// Installs a fully started session.
pub fn install_session<H>(slot: &mut SessionSlot<H>, session: CaptureSession<H>)
    ensures
        final(slot).current == Some(session),
{
    slot.current = Some(session);
}

/// How many times a helper's liveness is polled before it is killed.
pub const TERMINATE_POLLS: u32 = 20;

/// What to do after one liveness poll of a process that was asked to terminate.
#[derive(Clone, Copy, Debug, PartialEq, Eq, Structural)]
pub enum TerminationStep {
    /// It is gone.
    Finished,
    /// Wait a short interval and poll again.
    WaitAndPoll,
    /// Wait a short interval, then kill it forcefully.
    ForceKill,
}

/// Graceful-then-forced termination: after the polls that follow the graceful
/// signal find the process still alive `TERMINATE_POLLS` times, it is killed.
pub open spec fn termination_next(polls_done: u32, alive: bool) -> TerminationStep {
    if !alive {
        TerminationStep::Finished
    } else if polls_done + 1 < TERMINATE_POLLS {
        TerminationStep::WaitAndPoll
    } else {
        TerminationStep::ForceKill
    }
}

/// Decides the next step of terminating a process, given the number of earlier polls
/// and whether this poll found it alive.
pub fn termination_step(polls_done: u32, alive: bool) -> (r: TerminationStep)
    requires
        polls_done < TERMINATE_POLLS,
    ensures
        r == termination_next(polls_done, alive),
{
    if !alive {
        TerminationStep::Finished
    } else if polls_done + 1 < TERMINATE_POLLS {
        TerminationStep::WaitAndPoll
    } else {
        TerminationStep::ForceKill
    }
}

pub open spec fn starting_status() -> Seq<char> {
    "Starting native speech..."@
}

pub open spec fn exited_early_status() -> Seq<char> {
    "Native speech bridge exited early. Check Speech Recognition and Microphone permissions."@
}

/// Where a session's workspace lives: `<temp_dir>/wingman-speech-bridge-<millis>`.
pub open spec fn session_dir_for(temp_dir: Seq<char>, millis: u64) -> Seq<char> {
    joined(temp_dir, "wingman-speech-bridge-"@ + decimal(millis as nat))
}

/// Names a session workspace after the time it was created, in milliseconds.
pub fn session_dir_path(temp_dir: &str, millis: u64) -> (r: String)
    ensures
        r@ == session_dir_for(temp_dir@, millis),
{
    let mut name = String::from_str("wingman-speech-bridge-");
    let digits = decimal_string(millis);
    name.append(digits.as_str());
    join_path(temp_dir, name.as_str())
}

pub open spec fn stdout_pipe_in(dir: Seq<char>) -> Seq<char> {
    joined(dir, "stdout.pipe"@)
}

pub open spec fn stderr_pipe_in(dir: Seq<char>) -> Seq<char> {
    joined(dir, "stderr.pipe"@)
}

pub open spec fn pid_file_in(dir: Seq<char>) -> Seq<char> {
    joined(dir, "pid.txt"@)
}

/// Marks capture as starting. On a platform without a native helper, starting always
/// fails and nothing changes.
pub fn start_capture(native: bool, state: &mut AppState) -> (r: Result<(), String>)
    ensures
        native ==> r is Ok && final(state)@ == (AppStateView {
            speech_status: starting_status(),
            ..old(state)@
        }),
        !native ==> final(state)@ == old(state)@ && r is Err && r->Err_0@
            == "Native speech capture is only implemented for macOS."@,
{
    if !native {
        return Err(String::from_str("Native speech capture is only implemented for macOS."));
    }
    state.speech_status = String::from_str("Starting native speech...");
    Ok(())
}

/// How many times the readiness file is read before start gives up.
pub const PID_POLLS: u32 = 40;

/// Where a start is.
#[derive(Clone, Copy, Debug, PartialEq, Eq, Structural)]
pub enum StartPhase {
    CreatingDir,
    MakingPipes,
    Launching,
    AwaitingPid,
    CheckingAlive,
    Done,
}

/// A start in progress: what it has set up so far.
pub struct StartRun<H> {
    pub phase: StartPhase,
    pub session_dir: Option<String>,
    pub child: Option<H>,
    pub pid: Option<u32>,
    pub pid_polls: u32,
}

/// What the caller observed after carrying out the last action.
pub enum StartEvent<H> {
    /// The workspace was created at this path.
    DirCreated(String),
    /// The clock could not be read to name the workspace.
    ClockFailed(String),
    /// The workspace could not be created.
    DirFailed(String),
    /// Both pipes exist.
    PipesMade,
    /// The pipe tool could not be run.
    PipeToolFailed(String),
    /// The pipe tool ran and reported this failure status.
    PipeFailed(String),
    /// The helper was launched; this is its handle.
    Launched(H),
    /// The helper could not be launched.
    LaunchFailed(String),
    /// The readiness file was read (with these contents) or could not be read.
    PidFileRead(Option<String>),
    /// After the settle delay the reported process was, or was not, alive.
    AliveChecked(bool),
}

/// What the caller does next.
pub enum StartAction<H> {
    /// Create the two named pipes.
    MakePipes { stdout_pipe: String, stderr_pipe: String },
    /// Start one reader on each pipe, then launch the helper with its output on the pipes
    /// and the readiness file's path.
    Launch { out_pipe: String, err_pipe: String, pid_file: String },
    /// Read the readiness file (after a short wait if it was read before).
    PollPidFile { path: String },
    /// Wait the settle delay, then check whether this process is alive.
    CheckAlive { pid: u32 },
    /// Start succeeded: install this session.
    Install { session: CaptureSession<H> },
    /// Start failed: remove this workspace, if any, and report `error`. When
    /// `exited_early` holds, also call `report_exited_early`.
    Fail { remove_dir: Option<String>, error: String, exited_early: bool },
}

impl<H> StartRun<H> {
    pub fn new() -> (r: Self)
        ensures
            r.phase == StartPhase::CreatingDir,
            r.wf(),
            r.session_dir is None,
            r.child is None,
    {
        StartRun {
            phase: StartPhase::CreatingDir,
            session_dir: None,
            child: None,
            pid: None,
            pid_polls: 0,
        }
    }

    /// The run holds a workspace from the moment one was created until it ends.
    pub open spec fn wf(&self) -> bool {
        &&& (self.phase == StartPhase::CreatingDir ==> self.session_dir is None)
        &&& (self.phase != StartPhase::CreatingDir && self.phase != StartPhase::Done
            ==> self.session_dir is Some)
        &&& (self.phase == StartPhase::CheckingAlive ==> self.pid is Some)
        &&& self.pid_polls < PID_POLLS
    }

    /// Whether `event` answers the action that led to `phase`.
    pub open spec fn accepts(&self, event: &StartEvent<H>) -> bool {
        match self.phase {
            StartPhase::CreatingDir => event is DirCreated || event is ClockFailed
                || event is DirFailed,
            StartPhase::MakingPipes => event is PipesMade || event is PipeToolFailed
                || event is PipeFailed,
            StartPhase::Launching => event is Launched || event is LaunchFailed,
            StartPhase::AwaitingPid => event is PidFileRead,
            StartPhase::CheckingAlive => event is AliveChecked,
            StartPhase::Done => false,
        }
    }
}

/// The failure that an event reports, if it reports one directly.
pub open spec fn failure_text<H>(event: StartEvent<H>) -> Option<Seq<char>> {
    match event {
        StartEvent::ClockFailed(d) => Some("failed to read system time: "@ + d@),
        StartEvent::DirFailed(d) => Some("failed to create speech bridge session dir: "@ + d@),
        StartEvent::PipeToolFailed(d) => Some("failed to invoke mkfifo: "@ + d@),
        StartEvent::PipeFailed(d) => Some("mkfifo failed with status "@ + d@),
        StartEvent::LaunchFailed(d) => Some("Failed to launch macOS speech bridge app: "@ + d@),
        _ => None,
    }
}

/// The process id that a read of the readiness file yields, if any.
pub open spec fn pid_read(contents: Option<String>) -> Option<u32> {
    match contents {
        Some(c) => parsed_u32(trimmed(c@)),
        None => None,
    }
}

/// The workspace that a run holds, as text.
pub open spec fn dir_of<H>(run: &StartRun<H>) -> Option<Seq<char>> {
    match run.session_dir {
        Some(d) => Some(d@),
        None => None,
    }
}

pub open spec fn fail_removes<H>(a: &StartAction<H>, dir: Option<Seq<char>>) -> bool {
    match a {
        StartAction::Fail { remove_dir, .. } => match remove_dir {
            Some(d) => dir == Some(d@),
            None => dir is None,
        },
        _ => false,
    }
}

fn fail_with<H>(run: &mut StartRun<H>, error: String, exited_early: bool) -> (r: StartAction<H>)
    ensures
        final(run).phase == StartPhase::Done,
        final(run).session_dir is None,
        final(run).child == old(run).child,
        final(run).pid == old(run).pid,
        final(run).pid_polls == old(run).pid_polls,
        fail_removes(&r, dir_of(old(run))),
        r matches StartAction::Fail { error: e, exited_early: x, .. } && e@ == error@ && x
            == exited_early,
{
    let mut dir: Option<String> = None;
    std::mem::swap(&mut dir, &mut run.session_dir);
    run.phase = StartPhase::Done;
    StartAction::Fail { remove_dir: dir, error, exited_early }
}

fn prefixed(prefix: &str, detail: &String) -> (r: String)
    ensures
        r@ == prefix@ + detail@,
{
    let mut s = String::from_str(prefix);
    s.append(detail.as_str());
    s
}

/// Advances a start by one observed event.
///
/// Every failure ends the run and hands back for removal exactly the workspace that it
/// had created, so that a failed start leaves nothing behind; only the last step hands
/// out a session, and only when the reported process is alive.
pub fn start_step<H>(run: &mut StartRun<H>, event: StartEvent<H>) -> (r: StartAction<H>)
    requires
        old(run).wf(),
        old(run).accepts(&event),
    ensures
        final(run).wf(),
        failure_text(event) is Some ==> final(run).phase == StartPhase::Done && fail_removes(
            &r,
            dir_of(old(run)),
        ) && (r matches StartAction::Fail { error, exited_early, .. } && error@
            == failure_text(event)->Some_0 && !exited_early),
        event matches StartEvent::DirCreated(d) ==> final(run).phase == StartPhase::MakingPipes
            && dir_of(final(run)) == Some(d@) && (r matches StartAction::MakePipes {
            stdout_pipe,
            stderr_pipe,
        } && stdout_pipe@ == stdout_pipe_in(d@) && stderr_pipe@ == stderr_pipe_in(d@)),
        event is PipesMade ==> final(run).phase == StartPhase::Launching && dir_of(final(run))
            == dir_of(old(run)) && (r matches StartAction::Launch {
            out_pipe,
            err_pipe,
            pid_file,
        } && out_pipe@ == stdout_pipe_in(dir_of(old(run))->Some_0) && err_pipe@
            == stderr_pipe_in(dir_of(old(run))->Some_0) && pid_file@ == pid_file_in(
            dir_of(old(run))->Some_0,
        )),
        event matches StartEvent::Launched(h) ==> final(run).phase == StartPhase::AwaitingPid
            && final(run).child == Some(h) && final(run).pid_polls == 0 && dir_of(final(run))
            == dir_of(old(run)) && (r matches StartAction::PollPidFile { path } && path@
            == pid_file_in(dir_of(old(run))->Some_0)),
        event matches StartEvent::PidFileRead(c) ==> {
            let pid = pid_read(c);
            &&& pid is Some ==> final(run).phase == StartPhase::CheckingAlive && final(run).pid
                == pid && dir_of(final(run)) == dir_of(old(run)) && (r matches StartAction::CheckAlive {
                pid: p,
            } && Some(p) == pid)
            &&& pid is None && old(run).pid_polls + 1 < PID_POLLS ==> final(run).phase
                == StartPhase::AwaitingPid && final(run).pid_polls == old(run).pid_polls + 1
                && dir_of(final(run)) == dir_of(old(run)) && (r matches StartAction::PollPidFile {
                path,
            } && path@ == pid_file_in(dir_of(old(run))->Some_0))
            &&& pid is None && old(run).pid_polls + 1 >= PID_POLLS ==> final(run).phase
                == StartPhase::Done && fail_removes(&r, dir_of(old(run))) && (r matches StartAction::Fail {
                error,
                exited_early,
                ..
            } && error@ == "speech bridge did not report a pid file at "@ + pid_file_in(
                dir_of(old(run))->Some_0,
            ) && !exited_early)
        },
        event matches StartEvent::AliveChecked(alive) ==> {
            &&& alive ==> final(run).phase == StartPhase::Done && final(run).session_dir is None
                && final(run).child is None && (r matches StartAction::Install { session }
                && session.child == old(run).child && session.pid == old(run).pid
                && session.session_dir == old(run).session_dir)
            &&& !alive ==> final(run).phase == StartPhase::Done && fail_removes(
                &r,
                dir_of(old(run)),
            ) && (r matches StartAction::Fail { error, exited_early, .. } && error@
                == "speech bridge exited early"@ && exited_early)
        },
{
    match event {
        StartEvent::DirCreated(d) => {
            let stdout_pipe = join_path(d.as_str(), "stdout.pipe");
            let stderr_pipe = join_path(d.as_str(), "stderr.pipe");
            run.session_dir = Some(d);
            run.phase = StartPhase::MakingPipes;
            StartAction::MakePipes { stdout_pipe, stderr_pipe }
        },
        StartEvent::ClockFailed(d) => {
            fail_with(run, prefixed("failed to read system time: ", &d), false)
        },
        StartEvent::DirFailed(d) => {
            fail_with(run, prefixed("failed to create speech bridge session dir: ", &d), false)
        },
        StartEvent::PipeToolFailed(d) => {
            fail_with(run, prefixed("failed to invoke mkfifo: ", &d), false)
        },
        StartEvent::PipeFailed(d) => {
            fail_with(run, prefixed("mkfifo failed with status ", &d), false)
        },
        StartEvent::LaunchFailed(d) => {
            fail_with(run, prefixed("Failed to launch macOS speech bridge app: ", &d), false)
        },
        StartEvent::PipesMade => {
            let dir = run.session_dir.as_ref().unwrap();
            let out_pipe = join_path(dir.as_str(), "stdout.pipe");
            let err_pipe = join_path(dir.as_str(), "stderr.pipe");
            let pid_file = join_path(dir.as_str(), "pid.txt");
            run.phase = StartPhase::Launching;
            StartAction::Launch { out_pipe, err_pipe, pid_file }
        },
        StartEvent::Launched(h) => {
            let path = join_path(run.session_dir.as_ref().unwrap().as_str(), "pid.txt");
            run.child = Some(h);
            run.pid_polls = 0;
            run.phase = StartPhase::AwaitingPid;
            StartAction::PollPidFile { path }
        },
        StartEvent::PidFileRead(contents) => {
            let pid = match &contents {
                Some(c) => parse_u32(trim(c.as_str())),
                None => None,
            };
            match pid {
                Some(p) => {
                    run.pid = Some(p);
                    run.phase = StartPhase::CheckingAlive;
                    StartAction::CheckAlive { pid: p }
                },
                None => {
                    let path = join_path(run.session_dir.as_ref().unwrap().as_str(), "pid.txt");
                    if run.pid_polls + 1 < PID_POLLS {
                        run.pid_polls = run.pid_polls + 1;
                        StartAction::PollPidFile { path }
                    } else {
                        let error = prefixed("speech bridge did not report a pid file at ", &path);
                        fail_with(run, error, false)
                    }
                },
            }
        },
        StartEvent::AliveChecked(alive) => {
            if alive {
                let mut dir: Option<String> = None;
                std::mem::swap(&mut dir, &mut run.session_dir);
                let mut child: Option<H> = None;
                std::mem::swap(&mut child, &mut run.child);
                run.phase = StartPhase::Done;
                StartAction::Install {
                    session: CaptureSession { child, pid: run.pid, session_dir: dir },
                }
            } else {
                fail_with(run, String::from_str("speech bridge exited early"), true)
            }
        },
    }
}

/// Surfaces a helper that exited right after it started, most often for want of a
/// permission.
pub fn report_exited_early(state: &mut AppState)
    ensures
        final(state)@ == (AppStateView { speech_status: exited_early_status(), ..old(state)@ }),
{
    state.speech_status = String::from_str(
        "Native speech bridge exited early. Check Speech Recognition and Microphone permissions.",
    );
}

/// Stopping twice in a row ends in the same record as stopping once.
pub proof fn lemma_stop_idempotent(s: AppStateView)
    ensures
        capture_stopped(capture_stopped(s)) == capture_stopped(s),
        capture_stopped(s).speech_status == idle_status(),
{
}

/// A line that carries none of the protocol's prefixes and is not blank changes only the
/// status, which ends with the line's trimmed content.
pub proof fn lemma_unstructured_line(s: AppStateView, line: Seq<char>)
    requires
        !has_prefix(line, "STATUS\t"@),
        !has_prefix(line, "PARTIAL\t"@),
        !has_prefix(line, "FINAL\t"@),
        !has_prefix(line, "ERROR\t"@),
        !is_blank(line),
    ensures
        speech_line_applied(s, line) == (AppStateView {
            speech_status: speech_line_applied(s, line).speech_status,
            ..s
        }),
        speech_line_applied(s, line).speech_status == diagnostic_status_prefix() + trimmed(line),
        speech_line_applied(s, line).speech_status.subrange(
            diagnostic_status_prefix().len() as int,
            speech_line_applied(s, line).speech_status.len() as int,
        ) == trimmed(line),
{
    let st = speech_line_applied(s, line).speech_status;
    assert(st.subrange(diagnostic_status_prefix().len() as int, st.len() as int) =~= trimmed(
        line,
    ));
}

/// A blank line changes nothing.
pub proof fn lemma_blank_line(s: AppStateView, line: Seq<char>)
    requires
        is_blank(line),
    ensures
        speech_line_applied(s, line) == s,
{
    if line.len() > 0 {
        assert(is_ws(line[0]));
        assert(line.subrange(0, 1)[0] == line[0]);
        reveal_strlit("STATUS\t");
        reveal_strlit("PARTIAL\t");
        reveal_strlit("FINAL\t");
        reveal_strlit("ERROR\t");
        if has_prefix(line, "STATUS\t"@) {
            assert(line.subrange(0, 7)[0] == line[0]);
        }
        if has_prefix(line, "PARTIAL\t"@) {
            assert(line.subrange(0, 8)[0] == line[0]);
        }
        if has_prefix(line, "FINAL\t"@) {
            assert(line.subrange(0, 6)[0] == line[0]);
        }
        if has_prefix(line, "ERROR\t"@) {
            assert(line.subrange(0, 6)[0] == line[0]);
        }
    } else {
        reveal_strlit("STATUS\t");
        reveal_strlit("PARTIAL\t");
        reveal_strlit("FINAL\t");
        reveal_strlit("ERROR\t");
    }
}

} // verus!
