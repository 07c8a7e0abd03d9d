use starknet_prove::stone::{
    error_message, Action, Event, ExitStatus, ProveError, ProveSession, Stage, StoneConfig,
    StoneProver, StreamPolicy, NOT_UTF8_MESSAGE, PARAMETER_FILE, PRIVATE_INPUT_FILE, PROOF_FILE,
    PROVER_CONFIG_FILE, PUBLIC_INPUT_FILE, UNREADABLE_MESSAGE,
};

fn io_error() -> std::io::Error {
    std::io::Error::new(std::io::ErrorKind::Other, "no such program")
}

/// Runs a session up to the process's exit with the given code.
fn run_until_exit(code: Option<i32>) -> (ProveSession, Action) {
    run_until_status(ExitStatus { code, signal: None })
}

/// Runs a session up to the process's end with the given status.
fn run_until_status(status: ExitStatus) -> (ProveSession, Action) {
    let (mut session, first) = ProveSession::begin();
    assert!(matches!(first, Action::WriteInputs));
    assert!(matches!(session.step(Event::InputsWritten), Action::Launch));
    assert!(matches!(session.step(Event::Launched), Action::Wait));
    let action = session.step(Event::Exited(status));
    (session, action)
}

#[test]
fn default_config() {
    let config = StoneConfig::default();
    assert_eq!(config.working_directory, ".");
    assert_eq!(config.command, "cpu_air_prover");
}

#[test]
fn launch_plan_has_fixed_profile() {
    let prover = StoneProver::new(StoneConfig {
        working_directory: "/tmp/run".to_string(),
        command: "/opt/prover/bin/cpu_air_prover".to_string(),
    });
    assert_eq!(prover.working_directory(), "/tmp/run");
    let plan = prover.launch_plan();
    assert_eq!(plan.program, "/opt/prover/bin/cpu_air_prover");
    assert_eq!(plan.current_dir, "/tmp/run");
    assert_eq!(
        plan.args,
        vec![
            "--out_file",
            "proof_file.json",
            "--private_input_file",
            "private_input_file.json",
            "--public_input_file",
            "public_input_file.json",
            "--prover-config-file",
            "prover_config.json",
            "--parameter_file",
            "parameter_file.json",
        ]
    );
    assert!(plan.clear_env);
    assert!(plan.kill_on_drop);
    assert_eq!(plan.stdin, StreamPolicy::Discard);
    assert_eq!(plan.stdout, StreamPolicy::Discard);
    assert_eq!(plan.stderr, StreamPolicy::Capture);
}

#[test]
fn file_names() {
    assert_eq!(PROOF_FILE, "proof_file.json");
    assert_eq!(PRIVATE_INPUT_FILE, "private_input_file.json");
    assert_eq!(PUBLIC_INPUT_FILE, "public_input_file.json");
    assert_eq!(PROVER_CONFIG_FILE, "prover_config.json");
    assert_eq!(PARAMETER_FILE, "parameter_file.json");
    assert_eq!(starknet_prove::stone::MEMORY_FILE, "memory_file.bin");
    assert_eq!(starknet_prove::stone::TRACE_FILE, "trace_file.bin");
}

#[test]
fn exit_status_success() {
    assert!(ExitStatus { code: Some(0), signal: None }.success());
    assert!(!ExitStatus { code: Some(1), signal: None }.success());
    assert!(!ExitStatus { code: None, signal: Some(9) }.success());
}

#[test]
fn error_message_decodes_text() {
    assert_eq!(error_message(Some(b"boom".to_vec())), "boom");
    assert_eq!(error_message(Some("d\u{e9}j\u{e0}".as_bytes().to_vec())), "d\u{e9}j\u{e0}");
    assert_eq!(error_message(Some(Vec::new())), "");
}

#[test]
fn error_message_sentinels() {
    assert_eq!(error_message(Some(vec![0x62, 0xff, 0x6f])), NOT_UTF8_MESSAGE);
    assert_eq!(error_message(Some(vec![0xc3])), "<error message is not valid UTF-8>");
    assert_eq!(error_message(None), UNREADABLE_MESSAGE);
    assert_eq!(error_message(None), "<failed to read error message>");
}

#[test]
fn scenario_exit_zero_succeeds() {
    let (session, action) = run_until_exit(Some(0));
    assert!(matches!(action, Action::Finish(Ok(_))));
    assert_eq!(session.stage(), Stage::Finished);
}

#[test]
fn scenario_exit_one_with_empty_stderr() {
    let (mut session, action) = run_until_exit(Some(1));
    assert!(matches!(action, Action::DrainStderr));
    assert_eq!(session.stage(), Stage::Draining(ExitStatus { code: Some(1), signal: None }));
    match session.step(Event::StderrRead(Vec::new())) {
        Action::Finish(Err(ProveError::UnexpectedErrorCode(status, message))) => {
            assert_eq!(status, ExitStatus { code: Some(1), signal: None });
            assert_eq!(message, "");
        }
        other => panic!("unexpected action {:?}", other),
    }
    assert_eq!(session.stage(), Stage::Finished);
}

#[test]
fn scenario_exit_two_with_boom() {
    let (mut session, _) = run_until_exit(Some(2));
    match session.step(Event::StderrRead(b"boom".to_vec())) {
        Action::Finish(Err(ProveError::UnexpectedErrorCode(status, message))) => {
            assert_eq!(status.code, Some(2));
            assert_eq!(message, "boom");
        }
        other => panic!("unexpected action {:?}", other),
    }
}

#[test]
fn killed_process_is_a_failure() {
    let (mut session, action) = run_until_status(ExitStatus { code: None, signal: Some(9) });
    assert!(matches!(action, Action::DrainStderr));
    match session.step(Event::StderrUnreadable) {
        Action::Finish(Err(ProveError::UnexpectedErrorCode(status, message))) => {
            assert_eq!(status, ExitStatus { code: None, signal: Some(9) });
            assert_eq!(message, UNREADABLE_MESSAGE);
        }
        other => panic!("unexpected action {:?}", other),
    }
}

#[test]
fn invalid_stderr_gives_sentinel() {
    let (mut session, _) = run_until_exit(Some(3));
    match session.step(Event::StderrRead(vec![0xfe, 0xfe])) {
        Action::Finish(Err(ProveError::UnexpectedErrorCode(status, message))) => {
            assert_eq!(status.code, Some(3));
            assert_eq!(message, NOT_UTF8_MESSAGE);
        }
        other => panic!("unexpected action {:?}", other),
    }
}

#[test]
fn write_failures_end_the_call() {
    let (mut session, _) = ProveSession::begin();
    assert!(matches!(
        session.step(Event::InputsIoFailed(io_error())),
        Action::Finish(Err(ProveError::Io(_)))
    ));
    assert_eq!(session.stage(), Stage::Finished);

    let (mut session, _) = ProveSession::begin();
    let json = serde_json::from_str::<serde_json::Value>("{").unwrap_err();
    assert!(matches!(
        session.step(Event::InputsEncodingFailed(json)),
        Action::Finish(Err(ProveError::Serde(_)))
    ));
}

#[test]
fn launch_and_wait_failures_are_io_errors() {
    let (mut session, _) = ProveSession::begin();
    session.step(Event::InputsWritten);
    assert!(matches!(
        session.step(Event::LaunchFailed(io_error())),
        Action::Finish(Err(ProveError::Io(_)))
    ));

    let (mut session, _) = ProveSession::begin();
    session.step(Event::InputsWritten);
    session.step(Event::Launched);
    match session.step(Event::WaitFailed(io_error())) {
        Action::Finish(Err(ProveError::Io(e))) => assert_eq!(e.to_string(), "no such program"),
        other => panic!("unexpected action {:?}", other),
    }
}

#[test]
fn session_accepts_only_outcomes_of_its_action() {
    let (mut session, _) = ProveSession::begin();
    assert!(session.accepts(&Event::InputsWritten));
    assert!(!session.accepts(&Event::Launched));
    assert!(!session.accepts(&Event::StderrUnreadable));
    session.step(Event::InputsWritten);
    assert!(session.accepts(&Event::LaunchFailed(io_error())));
    assert!(!session.accepts(&Event::Exited(ExitStatus { code: Some(0), signal: None })));
    session.step(Event::Launched);
    assert!(session.accepts(&Event::Exited(ExitStatus { code: Some(0), signal: None })));
    session.step(Event::Exited(ExitStatus { code: Some(0), signal: None }));
    assert!(!session.accepts(&Event::StderrRead(Vec::new())));
    assert!(!session.accepts(&Event::InputsWritten));
}
