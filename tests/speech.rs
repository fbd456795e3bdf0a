use std::sync::{Arc, Mutex};

use wingman::speech::{
    parse_speech_line, report_exited_early, session_dir_path, start_capture, start_step,
    stop_capture, take_session, termination_step, CaptureSession, SessionSlot, StartAction,
    StartEvent, StartPhase, StartRun, TerminationStep, PID_POLLS,
};
use wingman::state::AppState;

#[test]
fn parser_updates_transcript_on_partial_lines() {
    let shared = Arc::new(Mutex::new(AppState::default()));
    {
        let mut guard = shared.lock().expect("lock should not be poisoned");
        parse_speech_line("PARTIAL\thello world", &mut guard);
    }
    let guard = shared.lock().expect("lock should not be poisoned");
    assert_eq!(guard.transcript, "hello world");
    assert_eq!(guard.speech_status, "Listening...");
}

#[test]
fn parser_surfaces_unstructured_lines() {
    let shared = Arc::new(Mutex::new(AppState::default()));
    {
        let mut guard = shared.lock().expect("lock should not be poisoned");
        parse_speech_line("swift runtime warning", &mut guard);
    }
    let guard = shared.lock().expect("lock should not be poisoned");
    assert_eq!(
        guard.speech_status,
        "Native speech bridge: swift runtime warning"
    );
}

#[test]
fn parser_sets_status_lines() {
    let mut state = AppState::default();
    state.transcript = "kept".to_string();
    parse_speech_line("STATUS\tready to listen", &mut state);
    assert_eq!(state.speech_status, "ready to listen");
    assert_eq!(state.transcript, "kept");
}

#[test]
fn parser_treats_final_like_partial() {
    let mut state = AppState::default();
    parse_speech_line("FINAL\tdone talking", &mut state);
    assert_eq!(state.transcript, "done talking");
    assert_eq!(state.speech_status, "Listening...");
}

#[test]
fn parser_formats_error_lines() {
    let mut state = AppState::default();
    parse_speech_line("ERROR\tmic busy", &mut state);
    assert_eq!(state.speech_status, "Native speech error: mic busy");
    assert_eq!(state.transcript, "");
}

#[test]
fn parser_ignores_blank_lines() {
    let mut state = AppState::default();
    state.speech_status = "before".to_string();
    parse_speech_line("   \t ", &mut state);
    parse_speech_line("", &mut state);
    assert_eq!(state.speech_status, "before");
}

#[test]
fn parser_trims_unstructured_lines() {
    let mut state = AppState::default();
    parse_speech_line("  warning: low level \t", &mut state);
    assert_eq!(state.speech_status, "Native speech bridge: warning: low level");
}

#[test]
fn parser_needs_the_tab_after_a_prefix() {
    let mut state = AppState::default();
    parse_speech_line("PARTIAL hello", &mut state);
    assert_eq!(state.transcript, "");
    assert_eq!(state.speech_status, "Native speech bridge: PARTIAL hello");
}

#[test]
fn stop_without_session_sets_idle_status() {
    let mut slot: SessionSlot<u8> = SessionSlot::new();
    let mut state = AppState::default();
    state.speech_status = "Listening...".to_string();
    assert!(take_session(&mut slot).is_none());
    stop_capture(&mut state);
    assert_eq!(state.speech_status, "Native speech idle.");
    let once = state.clone();
    assert!(take_session(&mut slot).is_none());
    stop_capture(&mut state);
    assert_eq!(state.speech_status, once.speech_status);
    assert_eq!(state.transcript, once.transcript);
}

#[test]
fn take_session_empties_the_slot() {
    let mut slot: SessionSlot<u8> = SessionSlot::new();
    slot.current = Some(CaptureSession {
        child: Some(7),
        pid: Some(42),
        session_dir: Some("/tmp/x".to_string()),
    });
    let taken = take_session(&mut slot).expect("a session");
    assert_eq!(taken.pid, Some(42));
    assert_eq!(taken.child, Some(7));
    assert!(slot.current.is_none());
}

#[test]
fn start_is_refused_without_native_helper() {
    let mut state = AppState::default();
    let r = start_capture(false, &mut state);
    assert_eq!(
        r,
        Err("Native speech capture is only implemented for macOS.".to_string())
    );
    assert_eq!(state.speech_status, "Native speech idle.");
    assert_eq!(start_capture(true, &mut state), Ok(()));
    assert_eq!(state.speech_status, "Starting native speech...");
}

#[test]
fn session_dir_is_named_after_the_time() {
    assert_eq!(
        session_dir_path("/tmp", 1712345678901),
        "/tmp/wingman-speech-bridge-1712345678901"
    );
    assert_eq!(
        session_dir_path("/var/T/", 0),
        "/var/T/wingman-speech-bridge-0"
    );
}

#[test]
fn termination_escalates_after_the_last_poll() {
    assert_eq!(termination_step(0, false), TerminationStep::Finished);
    assert_eq!(termination_step(0, true), TerminationStep::WaitAndPoll);
    assert_eq!(termination_step(18, true), TerminationStep::WaitAndPoll);
    assert_eq!(termination_step(19, true), TerminationStep::ForceKill);
}

#[test]
fn start_runs_to_install() {
    let mut run: StartRun<u8> = StartRun::new();
    match start_step(&mut run, StartEvent::DirCreated("/tmp/s".to_string())) {
        StartAction::MakePipes { stdout_pipe, stderr_pipe } => {
            assert_eq!(stdout_pipe, "/tmp/s/stdout.pipe");
            assert_eq!(stderr_pipe, "/tmp/s/stderr.pipe");
        }
        _ => panic!("expected pipes"),
    }
    match start_step(&mut run, StartEvent::PipesMade) {
        StartAction::Launch { out_pipe, err_pipe, pid_file } => {
            assert_eq!(out_pipe, "/tmp/s/stdout.pipe");
            assert_eq!(err_pipe, "/tmp/s/stderr.pipe");
            assert_eq!(pid_file, "/tmp/s/pid.txt");
        }
        _ => panic!("expected launch"),
    }
    assert!(matches!(
        start_step(&mut run, StartEvent::Launched(9)),
        StartAction::PollPidFile { .. }
    ));
    assert!(matches!(
        start_step(&mut run, StartEvent::PidFileRead(None)),
        StartAction::PollPidFile { .. }
    ));
    assert!(matches!(
        start_step(&mut run, StartEvent::PidFileRead(Some("12x".to_string()))),
        StartAction::PollPidFile { .. }
    ));
    assert!(matches!(
        start_step(&mut run, StartEvent::PidFileRead(Some(" 4321\n".to_string()))),
        StartAction::CheckAlive { pid: 4321 }
    ));
    match start_step(&mut run, StartEvent::AliveChecked(true)) {
        StartAction::Install { session } => {
            assert_eq!(session.pid, Some(4321));
            assert_eq!(session.child, Some(9));
            assert_eq!(session.session_dir, Some("/tmp/s".to_string()));
        }
        _ => panic!("expected install"),
    }
    assert_eq!(run.phase, StartPhase::Done);
}

#[test]
fn start_failure_removes_the_workspace() {
    let mut run: StartRun<u8> = StartRun::new();
    let _ = start_step(&mut run, StartEvent::DirCreated("/tmp/s".to_string()));
    match start_step(&mut run, StartEvent::PipeFailed("exit status: 1".to_string())) {
        StartAction::Fail { remove_dir, error, exited_early } => {
            assert_eq!(remove_dir, Some("/tmp/s".to_string()));
            assert_eq!(error, "mkfifo failed with status exit status: 1");
            assert!(!exited_early);
        }
        _ => panic!("expected failure"),
    }
    assert!(run.session_dir.is_none());
}

#[test]
fn start_failure_before_workspace_removes_nothing() {
    let mut run: StartRun<u8> = StartRun::new();
    match start_step(&mut run, StartEvent::DirFailed("denied".to_string())) {
        StartAction::Fail { remove_dir, error, .. } => {
            assert_eq!(remove_dir, None);
            assert_eq!(error, "failed to create speech bridge session dir: denied");
        }
        _ => panic!("expected failure"),
    }
}

#[test]
fn start_times_out_waiting_for_pid() {
    let mut run: StartRun<u8> = StartRun::new();
    let _ = start_step(&mut run, StartEvent::DirCreated("/tmp/s".to_string()));
    let _ = start_step(&mut run, StartEvent::PipesMade);
    let _ = start_step(&mut run, StartEvent::Launched(1));
    for _ in 0..(PID_POLLS - 1) {
        assert!(matches!(
            start_step(&mut run, StartEvent::PidFileRead(None)),
            StartAction::PollPidFile { .. }
        ));
    }
    match start_step(&mut run, StartEvent::PidFileRead(None)) {
        StartAction::Fail { remove_dir, error, exited_early } => {
            assert_eq!(remove_dir, Some("/tmp/s".to_string()));
            assert_eq!(error, "speech bridge did not report a pid file at /tmp/s/pid.txt");
            assert!(!exited_early);
        }
        _ => panic!("expected timeout"),
    }
}

#[test]
fn start_reports_early_exit() {
    let mut run: StartRun<u8> = StartRun::new();
    let _ = start_step(&mut run, StartEvent::DirCreated("/tmp/s".to_string()));
    let _ = start_step(&mut run, StartEvent::PipesMade);
    let _ = start_step(&mut run, StartEvent::Launched(1));
    let _ = start_step(&mut run, StartEvent::PidFileRead(Some("77".to_string())));
    match start_step(&mut run, StartEvent::AliveChecked(false)) {
        StartAction::Fail { remove_dir, error, exited_early } => {
            assert_eq!(remove_dir, Some("/tmp/s".to_string()));
            assert_eq!(error, "speech bridge exited early");
            assert!(exited_early);
        }
        _ => panic!("expected early exit"),
    }
    let mut state = AppState::default();
    report_exited_early(&mut state);
    assert_eq!(
        state.speech_status,
        "Native speech bridge exited early. Check Speech Recognition and Microphone permissions."
    );
}
