//! The engine of the daemon: what it launches, whether its session has started,
//! and how a connection that ended is reported.
use vstd::prelude::*;
use vstd::std_specs::convert::FromSpecImpl;
use vstd::string::*;
use crate::failure::ConnectionError;
use crate::terminal::{
    TerminalFailure, TerminalSize, TerminalWorkerKind, TerminalWorkerLifecycle,
};
use crate::text::joined;

verus! {

/// The size of a terminal that nobody has resized.
pub const DEFAULT_TERMINAL_ROWS: u16 = 24;

pub const DEFAULT_TERMINAL_COLUMNS: u16 = 80;

/// The views of strings.
pub open spec fn texts(strings: Seq<String>) -> Seq<Seq<char>> {
    strings.map_values(|string: String| string@)
}

/// The view of a string that may be missing.
pub open spec fn text_in(string: Option<String>) -> Option<Seq<char>> {
    match string {
        Some(string) => Some(string@),
        None => None,
    }
}

fn copied_texts(strings: &Vec<String>) -> (copy: Vec<String>)
    ensures
        texts(copy@) == texts(strings@),
{
    let mut copy: Vec<String> = Vec::new();
    let mut at: usize = 0;
    while at < strings.len()
        invariant
            at <= strings@.len(),
            texts(copy@) == texts(strings@.take(at as int)),
        decreases strings@.len() - at,
    {
        let ghost copied = copy@;
        copy.push(strings[at].clone());
        at = at + 1;
        assert(texts(copy@) =~= texts(copied).push(strings@[at - 1]@));
        assert(texts(strings@.take(at as int)) =~= texts(strings@.take(at - 1)).push(
            strings@[at - 1]@,
        ));
    }
    assert(strings@.take(at as int) =~= strings@);
    copy
}

fn copied_text(string: &Option<String>) -> (copy: Option<String>)
    ensures
        text_in(copy) == text_in(*string),
{
    match string {
        Some(string) => Some(string.clone()),
        None => None,
    }
}

/// A variable for the environment of the terminal's process.
#[derive(Debug, Clone, PartialEq, Eq)]
pub struct EnvironmentVariable {
    pub name: String,
    pub value: String,
}

impl View for EnvironmentVariable {
    type V = (Seq<char>, Seq<char>);

    open spec fn view(&self) -> (Seq<char>, Seq<char>) {
        (self.name@, self.value@)
    }
}

/// The names and values of variables.
pub open spec fn variables(environment: Seq<EnvironmentVariable>) -> Seq<(Seq<char>, Seq<char>)> {
    environment.map_values(|variable: EnvironmentVariable| variable@)
}

/// The names and values of pairs.
pub open spec fn pairs(environment: Seq<(String, String)>) -> Seq<(Seq<char>, Seq<char>)> {
    environment.map_values(|pair: (String, String)| (pair.0@, pair.1@))
}

/// What the daemon is configured with.
#[derive(Debug, Clone, PartialEq, Eq)]
pub struct Configuration {
    pub control_socket_path: String,
    pub data_socket_path: String,
    pub program: String,
    pub arguments: Vec<String>,
    pub working_directory: Option<String>,
    pub environment: Vec<EnvironmentVariable>,
    pub child_process_identifier_path: Option<String>,
}

impl Configuration {
    /// A configuration with a program in the daemon's own directory and
    /// environment.
    pub fn new(
        control_socket_path: String,
        data_socket_path: String,
        program: String,
        arguments: Vec<String>,
    ) -> (configuration: Self)
        ensures
            configuration.control_socket_path == control_socket_path,
            configuration.data_socket_path == data_socket_path,
            configuration.program == program,
            configuration.arguments == arguments,
            configuration.working_directory is None,
            configuration.environment@.len() == 0,
            configuration.child_process_identifier_path is None,
    {
        Configuration {
            control_socket_path,
            data_socket_path,
            program,
            arguments,
            working_directory: None,
            environment: Vec::new(),
            child_process_identifier_path: None,
        }
    }
}

/// The process behind a terminal.
#[derive(Debug, Clone, PartialEq, Eq)]
pub struct TerminalCommand {
    pub program: String,
    pub arguments: Vec<String>,
    pub working_directory: Option<String>,
    pub environment: Vec<(String, String)>,
}

/// How a terminal is launched.
#[derive(Debug, Clone, PartialEq, Eq)]
pub struct TerminalLaunch {
    pub command: TerminalCommand,
    pub size: TerminalSize,
    pub child_process_identifier_path: Option<String>,
}

/// Whether a launch is the one that a configuration calls for.
pub open spec fn launches(launch: TerminalLaunch, configuration: Configuration) -> bool {
    &&& launch.command.program@ == configuration.program@
    &&& texts(launch.command.arguments@) == texts(configuration.arguments@)
    &&& text_in(launch.command.working_directory) == text_in(configuration.working_directory)
    &&& pairs(launch.command.environment@) == variables(configuration.environment@)
    &&& launch.size.rows == DEFAULT_TERMINAL_ROWS
    &&& launch.size.columns == DEFAULT_TERMINAL_COLUMNS
    &&& text_in(launch.child_process_identifier_path) == text_in(
        configuration.child_process_identifier_path,
    )
}

/// Why the daemon fails.
#[derive(Debug, PartialEq, Eq)]
pub enum TerminalCellDaemonError {
    Io(ConnectionError),
    Join(String),
    Terminal(TerminalFailure),
    SessionNotStarted,
    Startup(String),
}

impl TerminalCellDaemonError {
    /// What the error displays as.
    pub open spec fn message(self) -> Seq<char> {
        match self {
            TerminalCellDaemonError::Io(error) => "terminal-cell daemon IO error: "@
                + error.message@,
            TerminalCellDaemonError::Join(text) => "terminal-cell daemon join error: "@ + text@,
            TerminalCellDaemonError::Terminal(refusal) => "terminal-cell engine error: "@
                + refusal.text@,
            TerminalCellDaemonError::SessionNotStarted => "terminal-cell session not started"@,
            TerminalCellDaemonError::Startup(text) => "terminal-cell session startup failed: "@
                + text@,
        }
    }

    pub fn text(&self) -> (text: String)
        ensures
            text@ == self.message(),
    {
        match self {
            TerminalCellDaemonError::Io(error) => joined(
                "terminal-cell daemon IO error: ",
                error.message.as_str(),
            ),
            TerminalCellDaemonError::Join(text) => joined(
                "terminal-cell daemon join error: ",
                text.as_str(),
            ),
            TerminalCellDaemonError::Terminal(refusal) => joined(
                "terminal-cell engine error: ",
                refusal.text.as_str(),
            ),
            TerminalCellDaemonError::SessionNotStarted =>
                "terminal-cell session not started".to_owned(),
            TerminalCellDaemonError::Startup(text) => joined(
                "terminal-cell session startup failed: ",
                text.as_str(),
            ),
        }
    }
}

impl From<ConnectionError> for TerminalCellDaemonError {
    fn from(error: ConnectionError) -> (daemon_error: Self) {
        TerminalCellDaemonError::Io(error)
    }
}

impl FromSpecImpl<ConnectionError> for TerminalCellDaemonError {
    open spec fn obeys_from_spec() -> bool {
        true
    }

    open spec fn from_spec(error: ConnectionError) -> Self {
        TerminalCellDaemonError::Io(error)
    }
}

impl From<TerminalFailure> for TerminalCellDaemonError {
    fn from(refusal: TerminalFailure) -> (daemon_error: Self) {
        TerminalCellDaemonError::Terminal(refusal)
    }
}

impl FromSpecImpl<TerminalFailure> for TerminalCellDaemonError {
    open spec fn obeys_from_spec() -> bool {
        true
    }

    open spec fn from_spec(refusal: TerminalFailure) -> Self {
        TerminalCellDaemonError::Terminal(refusal)
    }
}

/// What the daemon announces once its session has started.
#[derive(Debug, PartialEq, Eq)]
pub struct Readiness {
    /// What the terminal is told of the daemon's own worker.
    pub lifecycle: TerminalWorkerLifecycle,
    /// The line that the daemon prints.
    pub line: String,
}

/// How a connection that ended is reported.
#[derive(Debug, PartialEq, Eq)]
pub struct ConnectionReport {
    /// The line for the log, where there is one.
    pub log: Option<String>,
    pub result: Result<(), TerminalCellDaemonError>,
}

/// The engine of the daemon. Its session is missing until it has started, and is
/// started once.
#[derive(Debug)]
pub struct TerminalCellEngine<Session> {
    launch: TerminalLaunch,
    control_socket_path: String,
    data_socket_path: String,
    session: Option<Session>,
}

impl<Session> TerminalCellEngine<Session> {
    /// How the terminal is launched.
    pub closed spec fn launched(&self) -> TerminalLaunch {
        self.launch
    }

    /// The session, where it has started.
    pub closed spec fn started(&self) -> Option<Session> {
        self.session
    }

    /// The line that announces both sockets.
    pub closed spec fn announcement(&self) -> Seq<char> {
        announcement(self.control_socket_path@, self.data_socket_path@)
    }

    pub fn from_configuration(configuration: &Configuration) -> (engine: Self)
        ensures
            launches(engine.launched(), *configuration),
            engine.announcement() == announcement(
                configuration.control_socket_path@,
                configuration.data_socket_path@,
            ),
            engine.started() is None,
    {
        let mut environment: Vec<(String, String)> = Vec::new();
        let mut at: usize = 0;
        while at < configuration.environment.len()
            invariant
                at <= configuration.environment@.len(),
                pairs(environment@) == variables(configuration.environment@.take(at as int)),
            decreases configuration.environment@.len() - at,
        {
            let ghost copied = environment@;
            let variable = &configuration.environment[at];
            environment.push((variable.name.clone(), variable.value.clone()));
            at = at + 1;
            assert(pairs(environment@) =~= pairs(copied).push(variable@));
            assert(variables(configuration.environment@.take(at as int)) =~= variables(
                configuration.environment@.take(at - 1),
            ).push(variable@));
        }
        assert(configuration.environment@.take(at as int) =~= configuration.environment@);
        let command = TerminalCommand {
            program: configuration.program.clone(),
            arguments: copied_texts(&configuration.arguments),
            working_directory: copied_text(&configuration.working_directory),
            environment,
        };
        TerminalCellEngine {
            launch: TerminalLaunch {
                command,
                size: TerminalSize::new(DEFAULT_TERMINAL_ROWS, DEFAULT_TERMINAL_COLUMNS),
                child_process_identifier_path: copied_text(
                    &configuration.child_process_identifier_path,
                ),
            },
            control_socket_path: configuration.control_socket_path.clone(),
            data_socket_path: configuration.data_socket_path.clone(),
            session: None,
        }
    }

    /// How the terminal is to be launched.
    pub fn launch(&self) -> (launch: &TerminalLaunch)
        ensures
            *launch == self.launched(),
    {
        &self.launch
    }

    /// The session, which a connection is served from.
    pub fn session(&self) -> (session: Result<&Session, TerminalCellDaemonError>)
        ensures
            match self.started() {
                Some(started) => session matches Ok(found) && *found == started,
                None => session == Err::<&Session, _>(TerminalCellDaemonError::SessionNotStarted),
            },
    {
        match &self.session {
            Some(session) => Ok(session),
            None => Err(TerminalCellDaemonError::SessionNotStarted),
        }
    }

    /// Takes the session that was spawned, or why it did not come up. A second
    /// session is not taken.
    pub fn start(&mut self, spawned: Result<Session, String>) -> (readiness: Result<
        Readiness,
        TerminalCellDaemonError,
    >)
        ensures
            final(self).launched() == old(self).launched(),
            final(self).announcement() == old(self).announcement(),
            match spawned {
                Err(text) => {
                    &&& readiness == Err::<Readiness, _>(TerminalCellDaemonError::Startup(text))
                    &&& final(self).started() == old(self).started()
                },
                Ok(session) => if old(self).started() is Some {
                    &&& readiness == Err::<Readiness, _>(
                        TerminalCellDaemonError::SessionNotStarted,
                    )
                    &&& final(self).started() == old(self).started()
                } else {
                    &&& readiness matches Ok(ready)
                    &&& ready.lifecycle == TerminalWorkerLifecycle::Started(
                        TerminalWorkerKind::SocketAcceptLoop,
                    )
                    &&& ready.line@ == old(self).announcement()
                    &&& final(self).started() == Some(session)
                },
            },
    {
        let session = match spawned {
            Ok(session) => session,
            Err(text) => return Err(TerminalCellDaemonError::Startup(text)),
        };
        if self.session.is_some() {
            return Err(TerminalCellDaemonError::SessionNotStarted);
        }
        self.session = Some(session);
        Ok(
            Readiness {
                lifecycle: TerminalWorkerLifecycle::Started(TerminalWorkerKind::SocketAcceptLoop),
                line: readiness_line(
                    self.control_socket_path.as_str(),
                    self.data_socket_path.as_str(),
                ),
            },
        )
    }

    /// The end of the start: the line that announces readiness has been flushed,
    /// or could not be.
    pub fn announced(flushed: Result<(), ConnectionError>) -> (result: Result<
        (),
        TerminalCellDaemonError,
    >)
        ensures
            result == match flushed {
                Ok(()) => Ok(()),
                Err(error) => Err(TerminalCellDaemonError::Io(error)),
            },
    {
        match flushed {
            Ok(()) => Ok(()),
            Err(error) => Err(TerminalCellDaemonError::from(error)),
        }
    }

    /// How a connection is reported that was served on a thread of its own. One
    /// that failed is logged, and the daemon goes on; one whose thread did not
    /// come back is an error.
    pub fn serve_blocking(served: Result<Result<(), ConnectionError>, String>) -> (report:
        ConnectionReport)
        ensures
            match served {
                Ok(Ok(())) => report.log is None && report.result == Ok::<
                    (),
                    TerminalCellDaemonError,
                >(()),
                Ok(Err(error)) => report.log matches Some(line) && line@
                    == "terminal cell connection failed: "@ + error.message@ && report.result
                    == Ok::<(), TerminalCellDaemonError>(()),
                Err(text) => report.log is None && report.result == Err::<(), _>(
                    TerminalCellDaemonError::Join(text),
                ),
            },
    {
        match served {
            Ok(Ok(())) => ConnectionReport { log: None, result: Ok(()) },
            Ok(Err(error)) => ConnectionReport {
                log: Some(joined("terminal cell connection failed: ", error.message.as_str())),
                result: Ok(()),
            },
            Err(text) => ConnectionReport {
                log: None,
                result: Err(TerminalCellDaemonError::Join(text)),
            },
        }
    }
}

/// The line that announces two sockets.
pub open spec fn announcement(control_socket: Seq<char>, data_socket: Seq<char>) -> Seq<char> {
    "terminal-cell-daemon control-socket="@ + control_socket + " data-socket="@ + data_socket
}

fn readiness_line(control_socket: &str, data_socket: &str) -> (line: String)
    ensures
        line@ == announcement(control_socket@, data_socket@),
{
    let line = joined("terminal-cell-daemon control-socket=", control_socket);
    let line = line.concat(" data-socket=");
    line.concat(data_socket)
}

/// The daemon of a terminal cell.
#[derive(Debug)]
pub struct TerminalCellProcessDaemon;

impl TerminalCellProcessDaemon {
    pub fn process_name() -> (name: &'static str)
        ensures
            name@ == "terminal-cell-daemon"@,
    {
        "terminal-cell-daemon"
    }

    /// The engine of a configuration, which has no session yet.
    pub fn build_runtime<Session>(configuration: &Configuration) -> (engine: Result<
        TerminalCellEngine<Session>,
        TerminalCellDaemonError,
    >)
        ensures
            engine matches Ok(engine) && launches(engine.launched(), *configuration)
                && engine.announcement() == announcement(
                configuration.control_socket_path@,
                configuration.data_socket_path@,
            ) && engine.started() is None,
    {
        Ok(TerminalCellEngine::from_configuration(configuration))
    }
}

/// A configuration holds what it is made of, and asks for nothing else.
pub proof fn configuration_holds_what_it_is_made_of(
    control: String,
    data: String,
    program: String,
    arguments: Vec<String>,
    configuration: Configuration,
)
    requires
        call_ensures(Configuration::new, (control, data, program, arguments), configuration),
    ensures
        configuration.control_socket_path@ == control@,
        configuration.data_socket_path@ == data@,
        configuration.program@ == program@,
        configuration.arguments@ == arguments@,
        configuration.working_directory is None,
        configuration.environment@.len() == 0,
        configuration.child_process_identifier_path is None,
{
}

/// Whether two strings that may be missing are both missing, or have one text.
pub open spec fn same_text(a: Option<String>, b: Option<String>) -> bool {
    &&& a is Some <==> b is Some
    &&& a matches Some(text) ==> text@ == b->Some_0@
}

/// Whether a launch has, piece by piece, what a configuration asks for, and the size that a
/// terminal starts with.
pub open spec fn has_all_of(launch: TerminalLaunch, configuration: Configuration) -> bool {
    &&& launch.command.program@ == configuration.program@
    &&& launch.command.arguments@.len() == configuration.arguments@.len()
    &&& forall|at: int|
        0 <= at < configuration.arguments@.len() ==> (#[trigger] launch.command.arguments@[at])@
            == configuration.arguments@[at]@
    &&& same_text(launch.command.working_directory, configuration.working_directory)
    &&& launch.command.environment@.len() == configuration.environment@.len()
    &&& forall|at: int|
        0 <= at < configuration.environment@.len() ==> (
        #[trigger] launch.command.environment@[at]).0@ == configuration.environment@[at].name@
            && launch.command.environment@[at].1@ == configuration.environment@[at].value@
    &&& launch.size.rows == 24
    &&& launch.size.columns == 80
    &&& same_text(
        launch.child_process_identifier_path,
        configuration.child_process_identifier_path,
    )
}

proof fn launch_has_all_of_it(launch: TerminalLaunch, configuration: Configuration)
    requires
        launches(launch, configuration),
    ensures
        has_all_of(launch, configuration),
{
    let arguments = launch.command.arguments@;
    let environment = launch.command.environment@;
    assert(texts(arguments).len() == arguments.len());
    assert(texts(configuration.arguments@).len() == configuration.arguments@.len());
    assert(pairs(environment).len() == environment.len());
    assert(variables(configuration.environment@).len() == configuration.environment@.len());
    assert forall|at: int| 0 <= at < configuration.arguments@.len() implies (
    #[trigger] arguments[at])@ == configuration.arguments@[at]@ by {
        assert(texts(arguments)[at] == texts(configuration.arguments@)[at]);
    }
    assert forall|at: int| 0 <= at < configuration.environment@.len() implies (
    #[trigger] environment[at]).0@ == configuration.environment@[at].name@ && environment[at].1@
        == configuration.environment@[at].value@ by {
        assert(pairs(environment)[at] == variables(configuration.environment@)[at]);
    }
}

/// The engine of a configuration launches what the configuration asks for, and has no
/// session: a connection that came now would be turned away.
pub proof fn engine_launches_what_is_configured<Session>(
    configuration: Configuration,
    engine: TerminalCellEngine<Session>,
    launch: &TerminalLaunch,
    session: Result<&Session, TerminalCellDaemonError>,
)
    requires
        ({
            ||| call_ensures(
                TerminalCellEngine::<Session>::from_configuration,
                (&configuration,),
                engine,
            )
            ||| call_ensures(
                TerminalCellProcessDaemon::build_runtime::<Session>,
                (&configuration,),
                Ok(engine),
            )
        }),
        call_ensures(TerminalCellEngine::<Session>::launch, (&engine,), launch),
        call_ensures(TerminalCellEngine::<Session>::session, (&engine,), session),
    ensures
        has_all_of(*launch, configuration),
        session matches Err(TerminalCellDaemonError::SessionNotStarted),
{
    launch_has_all_of_it(*launch, configuration);
}

/// Building an engine does not fail.
pub proof fn engine_is_built<Session>(
    configuration: Configuration,
    engine: Result<TerminalCellEngine<Session>, TerminalCellDaemonError>,
)
    requires
        call_ensures(
            TerminalCellProcessDaemon::build_runtime::<Session>,
            (&configuration,),
            engine,
        ),
    ensures
        engine is Ok,
{
}

/// An engine that gets its session says so with a line that names both sockets of its
/// configuration, and serves connections from that session. The worker that has started is
/// the one that accepts them.
pub proof fn started_engine_announces_its_sockets<Session>(
    configuration: Configuration,
    fresh: TerminalCellEngine<Session>,
    engine: &mut TerminalCellEngine<Session>,
    spawned: Session,
    readiness: Result<Readiness, TerminalCellDaemonError>,
    session: Result<&Session, TerminalCellDaemonError>,
    launch: &TerminalLaunch,
)
    requires
        call_ensures(
            TerminalCellEngine::<Session>::from_configuration,
            (&configuration,),
            fresh,
        ),
        *old(engine) == fresh,
        call_ensures(
            TerminalCellEngine::<Session>::start,
            (engine, Ok::<Session, String>(spawned)),
            readiness,
        ),
        call_ensures(TerminalCellEngine::<Session>::session, (&*final(engine),), session),
        call_ensures(TerminalCellEngine::<Session>::launch, (&*final(engine),), launch),
    ensures
        ({
            &&& readiness matches Ok(ready)
            &&& ready.line@ == "terminal-cell-daemon control-socket="@
                + configuration.control_socket_path@ + " data-socket="@
                + configuration.data_socket_path@
            &&& ready.lifecycle matches TerminalWorkerLifecycle::Started(worker)
            &&& worker is SocketAcceptLoop
        }),
        session matches Ok(found) && *found == spawned,
        has_all_of(*launch, configuration),
{
    launch_has_all_of_it(*launch, configuration);
}

/// A session that did not come up is reported with the reason. A second session is not
/// taken. Either way the engine serves what it served before.
pub proof fn engine_keeps_the_session_it_has<Session>(
    engine: &mut TerminalCellEngine<Session>,
    spawned: Result<Session, String>,
    readiness: Result<Readiness, TerminalCellDaemonError>,
    before: Result<&Session, TerminalCellDaemonError>,
    after: Result<&Session, TerminalCellDaemonError>,
)
    requires
        call_ensures(TerminalCellEngine::<Session>::start, (engine, spawned), readiness),
        call_ensures(TerminalCellEngine::<Session>::session, (&*old(engine),), before),
        call_ensures(TerminalCellEngine::<Session>::session, (&*final(engine),), after),
        spawned is Err || before is Ok,
    ensures
        spawned matches Err(text) ==> {
            &&& readiness matches Err(TerminalCellDaemonError::Startup(told))
            &&& told@ == text@
        },
        spawned is Ok ==> readiness matches Err(TerminalCellDaemonError::SessionNotStarted),
        before is Ok <==> after is Ok,
        before matches Ok(session) ==> after == Ok::<&Session, TerminalCellDaemonError>(session),
        before is Err ==> after matches Err(TerminalCellDaemonError::SessionNotStarted),
{
}

/// A start is over once the line is flushed; where it could not be, the transport's failure
/// is the daemon's.
pub proof fn announcement_fails_with_the_transport(
    flushed: Result<(), ConnectionError>,
    result: Result<(), TerminalCellDaemonError>,
)
    requires
        call_ensures(TerminalCellEngine::<()>::announced, (flushed,), result),
    ensures
        match flushed {
            Ok(()) => result is Ok,
            Err(error) => result matches Err(TerminalCellDaemonError::Io(same)) && same == error,
        },
{
}

/// A connection that failed is logged with its message, one that did not is not, and the
/// daemon goes on behind both. It stops where the thread of a connection did not come back.
pub proof fn failed_connection_does_not_stop_the_daemon(
    served: Result<Result<(), ConnectionError>, String>,
    report: ConnectionReport,
)
    requires
        call_ensures(TerminalCellEngine::<()>::serve_blocking, (served,), report),
    ensures
        report.result is Ok <==> served is Ok,
        report.log is Some <==> served matches Ok(Err(_)),
        served matches Ok(Err(error)) ==> report.log->Some_0@
            == "terminal cell connection failed: "@ + error.message@,
        served matches Err(text) ==> {
            &&& report.result matches Err(TerminalCellDaemonError::Join(told))
            &&& told@ == text@
        },
{
}

/// Each error says where it comes from, and then what was said there.
pub proof fn errors_say_where_they_come_from(error: TerminalCellDaemonError, text: String)
    requires
        call_ensures(TerminalCellDaemonError::text, (&error,), text),
    ensures
        match error {
            TerminalCellDaemonError::Io(cause) => text@ == "terminal-cell daemon IO error: "@
                + cause.message@,
            TerminalCellDaemonError::Join(cause) => text@ == "terminal-cell daemon join error: "@
                + cause@,
            TerminalCellDaemonError::Terminal(cause) => text@ == "terminal-cell engine error: "@
                + cause.text@,
            TerminalCellDaemonError::SessionNotStarted => text@
                == "terminal-cell session not started"@,
            TerminalCellDaemonError::Startup(cause) => text@
                == "terminal-cell session startup failed: "@ + cause@,
        },
{
}

/// Failures of the transport and of the terminal become errors of the daemon that hold them.
pub proof fn failures_are_kept_in_errors(
    failure: ConnectionError,
    from_transport: TerminalCellDaemonError,
    refusal: TerminalFailure,
    from_terminal: TerminalCellDaemonError,
)
    requires
        call_ensures(
            <TerminalCellDaemonError as From<ConnectionError>>::from,
            (failure,),
            from_transport,
        ),
        call_ensures(
            <TerminalCellDaemonError as From<TerminalFailure>>::from,
            (refusal,),
            from_terminal,
        ),
    ensures
        from_transport matches TerminalCellDaemonError::Io(held) && held == failure,
        from_terminal matches TerminalCellDaemonError::Terminal(held) && held == refusal,
{
}

} // verus!
