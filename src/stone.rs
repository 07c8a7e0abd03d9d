//! Driving the Stone prover, an external program that reads its inputs from
//! fixed files in a working directory and writes the proof next to them.
//!
//! The library decides; the caller performs. [`StoneProver`] holds the launch
//! plan of the program, and a [`ProveSession`] says, after each outcome that
//! the caller reports, what to do next and finally what the proving call
//! returns.

use crate::model::Proof;
use vstd::prelude::*;
use vstd::string::StringExecFns;
use vstd::utf8::{decode_utf8, valid_utf8};

verus! {

/// The file the prover writes the proof to.
pub const PROOF_FILE: &'static str = "proof_file.json";

/// The file holding the private input.
pub const PRIVATE_INPUT_FILE: &'static str = "private_input_file.json";

/// The file holding the public input.
pub const PUBLIC_INPUT_FILE: &'static str = "public_input_file.json";

/// The file holding the prover's configuration.
pub const PROVER_CONFIG_FILE: &'static str = "prover_config.json";

/// The file holding the prover's parameters.
pub const PARAMETER_FILE: &'static str = "parameter_file.json";

/// The raw memory buffer, named by the input files rather than by a flag.
pub const MEMORY_FILE: &'static str = "memory_file.bin";

/// The raw trace buffer, named by the input files rather than by a flag.
pub const TRACE_FILE: &'static str = "trace_file.bin";

/// The message reported when the prover's standard error could not be read.
pub const UNREADABLE_MESSAGE: &'static str = "<failed to read error message>";

/// The message reported when the prover's standard error is not UTF-8.
pub const NOT_UTF8_MESSAGE: &'static str = "<error message is not valid UTF-8>";

/// The working directory used when none is configured.
pub const DEFAULT_WORKING_DIRECTORY: &'static str = ".";

/// The prover program run when none is configured.
pub const DEFAULT_COMMAND: &'static str = "cpu_air_prover";

/// How the prover process ended.
#[derive(Debug, Clone, Copy, PartialEq, Eq, Structural)]
pub struct ExitStatus {
    /// The exit code; `None` where the process did not exit by itself.
    pub code: Option<i32>,
    /// The signal that ended the process, where one did.
    pub signal: Option<i32>,
}

impl ExitStatus {
    /// Whether the process exited with code zero.
    pub fn success(&self) -> (r: bool)
        ensures
            r == (self.code == Some(0i32)),
    {
        match self.code {
            Some(c) => c == 0,
            None => false,
        }
    }
}

/// An error of a proving call.
#[derive(Debug)]
pub enum ProveError {
    /// The process could not be spawned, or another system-level error
    /// occurred.
    Io(std::io::Error),
    /// The process ran to completion and reported failure: how it ended,
    /// and what it wrote to its standard error.
    UnexpectedErrorCode(ExitStatus, String),
    /// Structured input or output could not be encoded or decoded.
    Serde(serde_json::Error),
}

/// The message that a failed run reports, from what was captured of its
/// standard error (`None` where it could not be read).
pub open spec fn message_of(captured: Option<Seq<u8>>) -> Seq<char> {
    match captured {
        None => UNREADABLE_MESSAGE@,
        Some(bytes) => if valid_utf8(bytes) {
            decode_utf8(bytes)
        } else {
            NOT_UTF8_MESSAGE@
        },
    }
}

/// Relies on `String::from_utf8`: it succeeds exactly on valid UTF-8, with
/// the characters that the bytes encode.
#[verifier::external_body]
fn utf8_text(bytes: Vec<u8>) -> (r: Option<String>)
    ensures
        r is Some <==> valid_utf8(bytes@),
        r matches Some(s) ==> s@ == decode_utf8(bytes@),
{
    String::from_utf8(bytes).ok()
}

/// The message of a failed run, from what was captured of the process's
/// standard error (`None` where reading it failed). Text that is not UTF-8
/// gives a fixed message instead.
pub fn error_message(captured: Option<Vec<u8>>) -> (r: String)
    ensures
        r@ == message_of(
            match captured {
                Some(b) => Some(b@),
                None => None,
            },
        ),
{
    match captured {
        None => String::from_str(UNREADABLE_MESSAGE),
        Some(bytes) => match utf8_text(bytes) {
            Some(text) => text,
            None => String::from_str(NOT_UTF8_MESSAGE),
        },
    }
}


/// The configuration of a [`StoneProver`].
#[derive(Debug, Clone)]
pub struct StoneConfig {
    /// The directory in which the prover runs and its files are written. It
    /// must already exist: it is never created.
    pub working_directory: String,
    /// The program spawned for every proof: relative to
    /// `working_directory`, unless it is an absolute path or a bare name
    /// looked up on the search path.
    pub command: String,
}

impl Default for StoneConfig {
    /// The current directory and the prover under its usual name.
    fn default() -> (r: StoneConfig)
        ensures
            r.working_directory@ == DEFAULT_WORKING_DIRECTORY@,
            r.command@ == DEFAULT_COMMAND@,
    {
        StoneConfig {
            working_directory: String::from_str(DEFAULT_WORKING_DIRECTORY),
            command: String::from_str(DEFAULT_COMMAND),
        }
    }
}

/// What becomes of one of the process's standard streams.
#[derive(Debug, Clone, Copy, PartialEq, Eq, Structural)]
pub enum StreamPolicy {
    /// Connected to nothing.
    Discard,
    /// Connected to a pipe that the caller reads.
    Capture,
}

/// How to launch the prover process.
#[derive(Debug)]
pub struct LaunchPlan {
    /// The program to run.
    pub program: String,
    /// The directory the process starts in.
    pub current_dir: String,
    /// The arguments, in order.
    pub args: Vec<String>,
    /// Whether the process starts with an empty environment.
    pub clear_env: bool,
    pub stdin: StreamPolicy,
    pub stdout: StreamPolicy,
    pub stderr: StreamPolicy,
    /// Whether dropping the process handle kills the process.
    pub kill_on_drop: bool,
}

/// The arguments that bind the prover's five files to its flags.
pub open spec fn prover_args() -> Seq<Seq<char>> {
    seq![
        "--out_file"@,
        PROOF_FILE@,
        "--private_input_file"@,
        PRIVATE_INPUT_FILE@,
        "--public_input_file"@,
        PUBLIC_INPUT_FILE@,
        "--prover-config-file"@,
        PROVER_CONFIG_FILE@,
        "--parameter_file"@,
        PARAMETER_FILE@,
    ]
}

/// The plan that runs `config.command` in `config.working_directory` on the
/// fixed files: no inherited environment, standard input and output
/// discarded, standard error captured, and the process killed when its
/// handle is dropped.
pub open spec fn plan_for(config: StoneConfig, plan: LaunchPlan) -> bool {
    &&& plan.program@ == config.command@
    &&& plan.current_dir@ == config.working_directory@
    &&& plan.args.deep_view() == prover_args()
    &&& plan.clear_env
    &&& plan.stdin == StreamPolicy::Discard
    &&& plan.stdout == StreamPolicy::Discard
    &&& plan.stderr == StreamPolicy::Capture
    &&& plan.kill_on_drop
}

/// Returns the plan by which [`StoneProver`] launches the process that
/// generates proofs.
fn make_command(config: &StoneConfig) -> (r: LaunchPlan)
    ensures
        plan_for(*config, r),
{
    let mut args: Vec<String> = Vec::new();
    args.push(String::from_str("--out_file"));
    args.push(String::from_str(PROOF_FILE));
    args.push(String::from_str("--private_input_file"));
    args.push(String::from_str(PRIVATE_INPUT_FILE));
    args.push(String::from_str("--public_input_file"));
    args.push(String::from_str(PUBLIC_INPUT_FILE));
    args.push(String::from_str("--prover-config-file"));
    args.push(String::from_str(PROVER_CONFIG_FILE));
    args.push(String::from_str("--parameter_file"));
    args.push(String::from_str(PARAMETER_FILE));
    let r = LaunchPlan {
        program: config.command.clone(),
        current_dir: config.working_directory.clone(),
        args,
        // The prover gets no access to the caller's environment.
        clear_env: true,
        stdin: StreamPolicy::Discard,
        stdout: StreamPolicy::Discard,
        // Captured so that a failure can be explained.
        stderr: StreamPolicy::Capture,
        // A process whose proving call is abandoned does not outlive it.
        kill_on_drop: true,
    };
    assert(r.args.deep_view() =~= prover_args());
    r
}

/// Runs the Stone prover in the background to generate proofs: the state
/// that a proving call needs.
///
/// The process is not sandboxed: it may read and write anything the caller
/// can, so the configured command must be the right one. Its environment is
/// cleared, so it sees none of the caller's variables. The working
/// directory must exist, and nothing else may touch its files while a proof
/// is being generated.
#[derive(Debug)]
pub struct StoneProver {
    working_directory: String,
    command: LaunchPlan,
}

impl StoneProver {
    /// The configuration this prover was made from.
    pub closed spec fn config(&self) -> StoneConfig {
        StoneConfig { working_directory: self.working_directory, command: self.command.program }
    }

    /// The plan by which this prover launches the process.
    pub closed spec fn plan(&self) -> LaunchPlan {
        self.command
    }

    /// Every prover launches its command by the fixed profile.
    #[verifier::type_invariant]
    closed spec fn launches_by_profile(&self) -> bool {
        plan_for(self.config(), self.command)
    }

    /// Creates a prover from its configuration.
    pub fn new(config: StoneConfig) -> (r: StoneProver)
        ensures
            r.config().working_directory@ == config.working_directory@,
            r.config().command@ == config.command@,
            plan_for(r.config(), r.plan()),
    {
        let command = make_command(&config);
        StoneProver { working_directory: config.working_directory, command }
    }

    /// The directory in which the prover runs.
    pub fn working_directory(&self) -> (r: &str)
        ensures
            r@ == self.config().working_directory@,
    {
        self.working_directory.as_str()
    }

    /// The plan by which the process is launched. Whatever the caller's own
    /// environment holds, the process starts with an empty one, and it is
    /// killed if its handle is dropped before it exits.
    pub fn launch_plan(&self) -> (r: &LaunchPlan)
        ensures
            *r == self.plan(),
            plan_for(self.config(), *r),
            r.clear_env,
            r.kill_on_drop,
    {
        proof {
            use_type_invariant(self);
        }
        &self.command
    }
}

/// Where a proving call stands.
#[derive(Debug, Clone, Copy, PartialEq, Eq, Structural)]
pub enum Stage {
    /// The request's input files are being written.
    WritingInputs,
    /// The prover process is being spawned.
    Launching,
    /// The process runs, and is being waited on.
    Running,
    /// The process failed with this status; its standard error is being read.
    Draining(ExitStatus),
    /// The call has its result.
    Finished,
}

/// What the caller is to do next.
#[derive(Debug)]
pub enum Action {
    /// Write the request's input files into the working directory.
    WriteInputs,
    /// Spawn the process by the prover's launch plan.
    Launch,
    /// Wait until the process exits.
    Wait,
    /// Read the process's standard error to its end.
    DrainStderr,
    /// Return this from the proving call.
    Finish(Result<Proof, ProveError>),
}

/// The outcome of an action, as the caller reports it.
#[derive(Debug)]
pub enum Event {
    /// Every input file was written.
    InputsWritten,
    /// Writing the input files failed in the file system.
    InputsIoFailed(std::io::Error),
    /// Encoding the input files failed.
    InputsEncodingFailed(serde_json::Error),
    /// The process was spawned.
    Launched,
    /// The process could not be spawned.
    LaunchFailed(std::io::Error),
    /// The process exited.
    Exited(ExitStatus),
    /// Waiting for the process failed.
    WaitFailed(std::io::Error),
    /// All of the process's standard error was read.
    StderrRead(Vec<u8>),
    /// Reading the process's standard error failed.
    StderrUnreadable,
}

/// Whether `event` is an outcome of the action that `stage` waits on.
pub open spec fn answers(stage: Stage, event: Event) -> bool {
    match stage {
        Stage::WritingInputs => {
            ||| event is InputsWritten
            ||| event is InputsIoFailed
            ||| event is InputsEncodingFailed
        },
        Stage::Launching => event is Launched || event is LaunchFailed,
        Stage::Running => event is Exited || event is WaitFailed,
        Stage::Draining(_) => event is StderrRead || event is StderrUnreadable,
        Stage::Finished => false,
    }
}

/// The call fails with `err`.
pub open spec fn fails_with(next: Stage, action: Action, err: ProveError) -> bool {
    next == Stage::Finished && action == Action::Finish(Err(err))
}

/// The call fails because the process, which ended with `status`, reported
/// failure, and `captured` is what was read of its standard error.
pub open spec fn fails_unexpectedly(
    next: Stage,
    action: Action,
    status: ExitStatus,
    captured: Option<Seq<u8>>,
) -> bool {
    &&& next == Stage::Finished
    &&& action matches Action::Finish(Err(ProveError::UnexpectedErrorCode(s, message)))
    &&& s == status
    &&& message@ == message_of(captured)
}

/// After `event` in `stage`, the call stands at `next` and the caller is to
/// do `action`. Inputs are written before the process is launched; a
/// process that exits with code zero gives a proof without its standard
/// error being read; one that reports failure has its standard error read
/// to the end before the call fails with its status and that message.
pub open spec fn follows(stage: Stage, event: Event, next: Stage, action: Action) -> bool {
    match event {
        Event::InputsWritten => next == Stage::Launching && action == Action::Launch,
        Event::InputsIoFailed(e) => fails_with(next, action, ProveError::Io(e)),
        Event::InputsEncodingFailed(e) => fails_with(next, action, ProveError::Serde(e)),
        Event::Launched => next == Stage::Running && action == Action::Wait,
        Event::LaunchFailed(e) => fails_with(next, action, ProveError::Io(e)),
        Event::Exited(status) => if status.code == Some(0i32) {
            next == Stage::Finished && action == Action::Finish(Ok(Proof {  }))
        } else {
            next == Stage::Draining(status) && action == Action::DrainStderr
        },
        Event::WaitFailed(e) => fails_with(next, action, ProveError::Io(e)),
        Event::StderrRead(bytes) => stage matches Stage::Draining(status) && fails_unexpectedly(
            next,
            action,
            status,
            Some(bytes@),
        ),
        Event::StderrUnreadable => stage matches Stage::Draining(status) && fails_unexpectedly(
            next,
            action,
            status,
            None,
        ),
    }
}

/// One proving call of a [`StoneProver`], from writing its inputs to its
/// result. The caller performs each action it is given and reports the
/// outcome with [`ProveSession::step`]; the process handle, which the caller
/// holds, kills the process when dropped, so abandoning the call leaves no
/// process behind.
#[derive(Debug)]
pub struct ProveSession {
    stage: Stage,
}

impl View for ProveSession {
    type V = Stage;

    closed spec fn view(&self) -> Stage {
        self.stage
    }
}

impl ProveSession {
    /// Starts a proving call: its first action is writing the inputs.
    pub fn begin() -> (r: (ProveSession, Action))
        ensures
            r.0@ == Stage::WritingInputs,
            r.1 == Action::WriteInputs,
    {
        (ProveSession { stage: Stage::WritingInputs }, Action::WriteInputs)
    }

    /// Where the call stands.
    pub fn stage(&self) -> (r: Stage)
        ensures
            r == self@,
    {
        self.stage
    }

    /// Whether `event` is an outcome of the action this call waits on, so
    /// that [`ProveSession::step`] takes it.
    pub fn accepts(&self, event: &Event) -> (r: bool)
        ensures
            r == answers(self@, *event),
    {
        match self.stage {
            Stage::WritingInputs => match event {
                Event::InputsWritten | Event::InputsIoFailed(_) | Event::InputsEncodingFailed(_) => true,
                _ => false,
            },
            Stage::Launching => match event {
                Event::Launched | Event::LaunchFailed(_) => true,
                _ => false,
            },
            Stage::Running => match event {
                Event::Exited(_) | Event::WaitFailed(_) => true,
                _ => false,
            },
            Stage::Draining(_) => match event {
                Event::StderrRead(_) | Event::StderrUnreadable => true,
                _ => false,
            },
            Stage::Finished => false,
        }
    }

    /// Takes the outcome of the last action, and returns the next one.
    pub fn step(&mut self, event: Event) -> (action: Action)
        requires
            answers(old(self)@, event),
        ensures
            follows(old(self)@, event, final(self)@, action),
    {
        match event {
            Event::InputsWritten => {
                self.stage = Stage::Launching;
                Action::Launch
            },
            Event::InputsIoFailed(e) => {
                self.stage = Stage::Finished;
                Action::Finish(Err(ProveError::Io(e)))
            },
            Event::InputsEncodingFailed(e) => {
                self.stage = Stage::Finished;
                Action::Finish(Err(ProveError::Serde(e)))
            },
            Event::Launched => {
                self.stage = Stage::Running;
                Action::Wait
            },
            Event::LaunchFailed(e) => {
                self.stage = Stage::Finished;
                Action::Finish(Err(ProveError::Io(e)))
            },
            Event::Exited(status) => {
                if status.success() {
                    // The output file is not read into the proof yet.
                    self.stage = Stage::Finished;
                    Action::Finish(Ok(Proof {  }))
                } else {
                    self.stage = Stage::Draining(status);
                    Action::DrainStderr
                }
            },
            Event::WaitFailed(e) => {
                self.stage = Stage::Finished;
                Action::Finish(Err(ProveError::Io(e)))
            },
            Event::StderrRead(bytes) => self.fail(Some(bytes)),
            Event::StderrUnreadable => self.fail(None),
        }
    }

    /// Ends a call whose process reported failure.
    fn fail(&mut self, captured: Option<Vec<u8>>) -> (action: Action)
        requires
            old(self)@ is Draining,
        ensures
            old(self)@ matches Stage::Draining(status) && fails_unexpectedly(
                final(self)@,
                action,
                status,
                match captured {
                    Some(b) => Some(b@),
                    None => None,
                },
            ),
    {
        let status = match self.stage {
            Stage::Draining(s) => s,
            _ => ExitStatus { code: None, signal: None },
        };
        self.stage = Stage::Finished;
        Action::Finish(Err(ProveError::UnexpectedErrorCode(status, error_message(captured))))
    }
}

/// A process that exits with code zero makes the call succeed with the
/// (empty) proof, whatever it wrote to its standard error: the call ends
/// there and nothing more is read.
pub proof fn lemma_success_ignores_stderr(status: ExitStatus, next: Stage, action: Action)
    requires
        status.code == Some(0i32),
        follows(Stage::Running, Event::Exited(status), next, action),
    ensures
        action == Action::Finish(Ok(Proof {  })),
        forall|e: Event| !answers(next, e),
{
}

/// A process that exits otherwise than with code zero makes the call read
/// its standard error and then fail with exactly its status and, where the
/// bytes are UTF-8, exactly the text they encode.
pub proof fn lemma_failure_reports_status_and_text(
    status: ExitStatus,
    captured: Vec<u8>,
    mid: Stage,
    drain: Action,
    next: Stage,
    action: Action,
)
    requires
        status.code != Some(0i32),
        follows(Stage::Running, Event::Exited(status), mid, drain),
        follows(mid, Event::StderrRead(captured), next, action),
        valid_utf8(captured@),
    ensures
        drain == Action::DrainStderr,
        answers(mid, Event::StderrRead(captured)),
        action matches Action::Finish(Err(ProveError::UnexpectedErrorCode(s, message))) && s
            == status && message@ == decode_utf8(captured@),
{
}

/// Standard error that is not UTF-8 gives a fixed message, and one that
/// could not be read another: the call still fails with the process's
/// status.
pub proof fn lemma_undecodable_stderr_gives_fixed_message(
    status: ExitStatus,
    event: Event,
    next: Stage,
    action: Action,
)
    requires
        status.code != Some(0i32),
        event matches Event::StderrRead(b) ==> !valid_utf8(b@),
        answers(Stage::Draining(status), event),
        follows(Stage::Draining(status), event, next, action),
    ensures
        action matches Action::Finish(Err(ProveError::UnexpectedErrorCode(s, message))) && s
            == status && message@ == (if event is StderrRead {
            NOT_UTF8_MESSAGE@
        } else {
            UNREADABLE_MESSAGE@
        }),
{
}

} // verus!
