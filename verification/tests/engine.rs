use terminal_cell::{
    Configuration, ConnectionError, EnvironmentVariable, ErrorKind, TerminalCellDaemonError,
    TerminalCellEngine, TerminalCellError, TerminalCellProcessDaemon, TerminalFailure,
    TerminalSize, TerminalWorkerKind, TerminalWorkerLifecycle,
};

type Engine = TerminalCellEngine<u8>;

fn configuration() -> Configuration {
    Configuration::new(
        "/run/c.sock".to_string(),
        "/run/d.sock".to_string(),
        "bash".to_string(),
        vec!["-lc".to_string(), "true".to_string()],
    )
}

fn io(message: &str) -> ConnectionError {
    ConnectionError::new(ErrorKind::Other, message.to_string())
}

#[test]
fn engine_launches_what_the_configuration_says() {
    let mut configuration = configuration();
    let engine = Engine::from_configuration(&configuration);
    let launch = engine.launch();
    assert_eq!(launch.command.program, "bash");
    assert_eq!(launch.command.arguments, vec!["-lc", "true"]);
    assert_eq!(launch.command.working_directory, None);
    assert_eq!(launch.command.environment, Vec::new());
    assert_eq!(launch.size, TerminalSize::new(24, 80));
    assert_eq!(launch.child_process_identifier_path, None);

    configuration.working_directory = Some("/home".to_string());
    configuration.child_process_identifier_path = Some("/run/child.pid".to_string());
    configuration.environment = vec![
        EnvironmentVariable {
            name: "TERM".to_string(),
            value: "xterm".to_string(),
        },
        EnvironmentVariable {
            name: "EMPTY".to_string(),
            value: String::new(),
        },
    ];
    let engine: Engine =
        TerminalCellProcessDaemon::build_runtime(&configuration).expect("engine is built");
    let launch = engine.launch();
    assert_eq!(launch.command.working_directory, Some("/home".to_string()));
    assert_eq!(
        launch.child_process_identifier_path,
        Some("/run/child.pid".to_string())
    );
    assert_eq!(
        launch.command.environment,
        vec![
            ("TERM".to_string(), "xterm".to_string()),
            ("EMPTY".to_string(), String::new())
        ]
    );
}

#[test]
fn session_is_started_once() {
    let mut engine = Engine::from_configuration(&configuration());
    assert_eq!(
        engine.session(),
        Err(TerminalCellDaemonError::SessionNotStarted)
    );
    assert_eq!(
        engine.start(Err("no pty".to_string())),
        Err(TerminalCellDaemonError::Startup("no pty".to_string()))
    );
    assert_eq!(
        engine.session(),
        Err(TerminalCellDaemonError::SessionNotStarted)
    );
    let ready = engine.start(Ok(1)).expect("session starts");
    assert_eq!(
        ready.lifecycle,
        TerminalWorkerLifecycle::Started(TerminalWorkerKind::SocketAcceptLoop)
    );
    assert_eq!(
        ready.line,
        "terminal-cell-daemon control-socket=/run/c.sock data-socket=/run/d.sock"
    );
    assert_eq!(engine.session(), Ok(&1));
    assert_eq!(
        engine.start(Ok(2)),
        Err(TerminalCellDaemonError::SessionNotStarted)
    );
    assert_eq!(engine.session(), Ok(&1));
    assert_eq!(Engine::announced(Ok(())), Ok(()));
    assert_eq!(
        Engine::announced(Err(io("stdout closed"))),
        Err(TerminalCellDaemonError::Io(io("stdout closed")))
    );
}

#[test]
fn failed_connection_is_logged_and_the_daemon_goes_on() {
    let report = Engine::serve_blocking(Ok(Ok(())));
    assert_eq!(report.log, None);
    assert_eq!(report.result, Ok(()));
    let report = Engine::serve_blocking(Ok(Err(io("reset"))));
    assert_eq!(
        report.log,
        Some("terminal cell connection failed: reset".to_string())
    );
    assert_eq!(report.result, Ok(()));
    let report = Engine::serve_blocking(Err("task panicked".to_string()));
    assert_eq!(report.log, None);
    assert_eq!(
        report.result,
        Err(TerminalCellDaemonError::Join("task panicked".to_string()))
    );
}

#[test]
fn errors_display_what_failed() {
    let refusal = TerminalFailure {
        error: TerminalCellError::Other,
        text: "no pty".to_string(),
    };
    assert_eq!(
        TerminalCellDaemonError::from(io("reset")).text(),
        "terminal-cell daemon IO error: reset"
    );
    assert_eq!(
        TerminalCellDaemonError::Join("panic".to_string()).text(),
        "terminal-cell daemon join error: panic"
    );
    assert_eq!(
        TerminalCellDaemonError::from(refusal).text(),
        "terminal-cell engine error: no pty"
    );
    assert_eq!(
        TerminalCellDaemonError::SessionNotStarted.text(),
        "terminal-cell session not started"
    );
    assert_eq!(
        TerminalCellDaemonError::Startup("no pty".to_string()).text(),
        "terminal-cell session startup failed: no pty"
    );
    assert_eq!(
        TerminalCellProcessDaemon::process_name(),
        "terminal-cell-daemon"
    );
}
