//! An authenticated session and the execution of commands on it.
//!
//! Running a command is a fixed sequence of requests to the transport engine:
//! open a channel, dispatch the command, read the output to its end, wait for
//! the remote side to close the channel and, where the caller wants it, ask
//! for the exit status. This module decides which request comes next and what
//! the run ends in; whoever drives it performs each request on the session and
//! reports back what happened.

use ssh2::Session;
use vstd::prelude::*;

use crate::error::{SSHError, SSHErrorView};

verus! {

/// An authenticated session with a remote host.
///
/// The only way to obtain one is a connection attempt that ran to its last
/// phase and was then told that its session is authenticated: by the session
/// itself, or by a caller who answers for it. Dropping the client releases the
/// connection.
pub struct SSHClient {
    session: Session,
}

impl View for SSHClient {
    type V = Session;

    closed spec fn view(&self) -> Session {
        self.session
    }
}

/// What a command execution is waiting for.
#[derive(Clone, Copy, Debug, PartialEq, Eq, Structural)]
pub enum ExecPhase {
    /// A channel is being opened.
    Opening,
    /// The command is being dispatched on the channel.
    Dispatching,
    /// The output is being read to its end.
    Reading,
    /// The remote side is closing the channel.
    Closing,
    /// The exit status is being asked for.
    QueryingStatus,
}

/// A command execution under way.
pub struct ExecState {
    command: String,
    with_status: bool,
    output: String,
    phase: ExecPhase,
}

/// The mathematical content of an [`ExecState`].
pub struct ExecStateView {
    /// The command to run.
    pub command: Seq<char>,
    /// Whether the exit status is part of the result.
    pub with_status: bool,
    /// The output captured so far: empty until the stream has been read.
    pub output: Seq<char>,
    /// What the execution is waiting for.
    pub phase: ExecPhase,
}

impl ExecStateView {
    /// The exit status is asked for only where it is part of the result.
    pub open spec fn wf(self) -> bool {
        self.phase is QueryingStatus ==> self.with_status
    }
}

impl View for ExecState {
    type V = ExecStateView;

    closed spec fn view(&self) -> ExecStateView {
        ExecStateView {
            command: self.command@,
            with_status: self.with_status,
            output: self.output@,
            phase: self.phase,
        }
    }
}

/// A request to the transport engine on behalf of a command execution.
pub enum ExecAction {
    /// Open a new command channel on the session.
    OpenChannel,
    /// Ask the remote side to run `command` on the channel.
    Dispatch { command: String },
    /// Read the channel's output until the remote side closes the stream.
    ReadOutput,
    /// Wait until the remote side has closed the channel.
    WaitClose,
    /// Ask the closed channel for the exit status of the command.
    QueryExitStatus,
}

/// The mathematical content of an [`ExecAction`].
pub enum ExecActionView {
    OpenChannel,
    Dispatch { command: Seq<char> },
    ReadOutput,
    WaitClose,
    QueryExitStatus,
}

impl View for ExecAction {
    type V = ExecActionView;

    open spec fn view(&self) -> ExecActionView {
        match *self {
            ExecAction::OpenChannel => ExecActionView::OpenChannel,
            ExecAction::Dispatch { command } => ExecActionView::Dispatch { command: command@ },
            ExecAction::ReadOutput => ExecActionView::ReadOutput,
            ExecAction::WaitClose => ExecActionView::WaitClose,
            ExecAction::QueryExitStatus => ExecActionView::QueryExitStatus,
        }
    }
}

/// What came of a request made on behalf of a command execution.
pub enum ExecEvent {
    /// The request succeeded and has nothing to report.
    Completed,
    /// The stream was read to its end and held this text.
    Output(String),
    /// The channel reported this exit status.
    ExitStatus(i32),
    /// The request failed with an error of the operating system.
    IoFailed(std::io::Error),
    /// The request failed with an error of the transport engine.
    TransportFailed(ssh2::Error),
}

/// The mathematical content of an [`ExecEvent`].
pub enum ExecEventView {
    Completed,
    Output(Seq<char>),
    ExitStatus(i32),
    IoFailed(std::io::Error),
    TransportFailed(ssh2::Error),
}

impl View for ExecEvent {
    type V = ExecEventView;

    open spec fn view(&self) -> ExecEventView {
        match *self {
            ExecEvent::Completed => ExecEventView::Completed,
            ExecEvent::Output(text) => ExecEventView::Output(text@),
            ExecEvent::ExitStatus(code) => ExecEventView::ExitStatus(code),
            ExecEvent::IoFailed(e) => ExecEventView::IoFailed(e),
            ExecEvent::TransportFailed(e) => ExecEventView::TransportFailed(e),
        }
    }
}

/// Where a command execution stands after a step.
pub enum ExecStep {
    /// The execution goes on: its new state, and the request to perform next.
    Pending(ExecState, ExecAction),
    /// The command ran: the captured output, and the exit status where it was
    /// asked for.
    Finished { output: String, exit_status: Option<i32> },
    /// The execution failed.
    Failed(SSHError),
}

/// The mathematical content of an [`ExecStep`].
pub enum ExecStepView {
    Pending(ExecStateView, ExecActionView),
    Finished { output: Seq<char>, exit_status: Option<i32> },
    Failed(SSHErrorView),
}

impl ExecStepView {
    /// Where the execution goes on, its state is well formed and the request
    /// is the one that state waits on.
    pub open spec fn wf(self) -> bool {
        self matches ExecStepView::Pending(s, request) ==> s.wf() && request == exec_request_of(s)
    }
}

impl View for ExecStep {
    type V = ExecStepView;

    open spec fn view(&self) -> ExecStepView {
        match *self {
            ExecStep::Pending(state, action) => ExecStepView::Pending(state@, action@),
            ExecStep::Finished { output, exit_status } => ExecStepView::Finished {
                output: output@,
                exit_status,
            },
            ExecStep::Failed(e) => ExecStepView::Failed(e@),
        }
    }
}

/// The request that an execution in state `s` is waiting on.
pub open spec fn exec_request_of(s: ExecStateView) -> ExecActionView {
    match s.phase {
        ExecPhase::Opening => ExecActionView::OpenChannel,
        ExecPhase::Dispatching => ExecActionView::Dispatch { command: s.command },
        ExecPhase::Reading => ExecActionView::ReadOutput,
        ExecPhase::Closing => ExecActionView::WaitClose,
        ExecPhase::QueryingStatus => ExecActionView::QueryExitStatus,
    }
}

/// The execution in state `s`, waiting on its request.
pub open spec fn exec_pending(s: ExecStateView) -> ExecStepView {
    ExecStepView::Pending(s, exec_request_of(s))
}

/// The first step of running `command`: nothing is captured yet and a channel
/// is asked for.
pub open spec fn exec_start(command: Seq<char>, with_status: bool) -> ExecStepView {
    exec_pending(
        ExecStateView { command, with_status, output: Seq::empty(), phase: ExecPhase::Opening },
    )
}

/// The step that `event` makes of an execution in state `s`.
///
/// A failure ends the execution at once, whatever it was waiting for: an
/// error of the operating system as an I/O failure, an error of the transport
/// engine as a transport failure. A success moves it on to the next request,
/// or ends it with its result. An event that does not answer the pending
/// request changes nothing: the request stands.
pub open spec fn exec_next(s: ExecStateView, event: ExecEventView) -> ExecStepView {
    match (s.phase, event) {
        (_, ExecEventView::IoFailed(e)) => ExecStepView::Failed(SSHErrorView::IO(e)),
        (_, ExecEventView::TransportFailed(e)) => ExecStepView::Failed(SSHErrorView::SSH(e)),
        (ExecPhase::Opening, ExecEventView::Completed) => exec_pending(
            ExecStateView { phase: ExecPhase::Dispatching, ..s },
        ),
        (ExecPhase::Dispatching, ExecEventView::Completed) => exec_pending(
            ExecStateView { phase: ExecPhase::Reading, ..s },
        ),
        (ExecPhase::Reading, ExecEventView::Output(text)) => exec_pending(
            ExecStateView { phase: ExecPhase::Closing, output: text, ..s },
        ),
        (ExecPhase::Closing, ExecEventView::Completed) => if s.with_status {
            exec_pending(ExecStateView { phase: ExecPhase::QueryingStatus, ..s })
        } else {
            ExecStepView::Finished { output: s.output, exit_status: None }
        },
        (ExecPhase::QueryingStatus, ExecEventView::ExitStatus(code)) => ExecStepView::Finished {
            output: s.output,
            exit_status: Some(code),
        },
        _ => exec_pending(s),
    }
}

impl SSHClient {
    /// Wraps a session that is taken to be authenticated.
    pub(crate) fn new(session: Session) -> (client: Self)
        ensures
            client@ == session,
    {
        SSHClient { session }
    }

    /// The transport session, on which the requests of an execution are to be
    /// performed.
    pub fn session(&self) -> (session: &Session)
        ensures
            *session == self@,
    {
        &self.session
    }

    /// Starts running `cmd` for its output alone.
    ///
    /// Every call starts an execution of its own, on a channel of its own.
    pub fn exec(&self, cmd: &str) -> (step: ExecStep)
        ensures
            step@ == exec_start(cmd@, false),
            step@.wf(),
    {
        ExecState::start(cmd, false)
    }

    /// Starts running `cmd` for its output and its exit status.
    ///
    /// Every call starts an execution of its own, on a channel of its own.
    pub fn exec_with_status(&self, cmd: &str) -> (step: ExecStep)
        ensures
            step@ == exec_start(cmd@, true),
            step@.wf(),
    {
        ExecState::start(cmd, true)
    }
}

impl ExecState {
    #[verifier::type_invariant]
    spec fn inv(self) -> bool {
        self@.wf()
    }

    /// Starts running `command`, with the exit status as part of the result
    /// where `with_status` is set.
    pub fn start(command: &str, with_status: bool) -> (step: ExecStep)
        ensures
            step@ == exec_start(command@, with_status),
            step@.wf(),
    {
        let state = ExecState {
            command: command.to_owned(),
            with_status,
            output: String::new(),
            phase: ExecPhase::Opening,
        };
        let action = state.request();
        ExecStep::Pending(state, action)
    }

    /// The request this execution is waiting on.
    pub fn request(&self) -> (action: ExecAction)
        ensures
            self@.wf(),
            action@ == exec_request_of(self@),
    {
        proof {
            use_type_invariant(self);
        }
        match self.phase {
            ExecPhase::Opening => ExecAction::OpenChannel,
            ExecPhase::Dispatching => ExecAction::Dispatch { command: self.command.clone() },
            ExecPhase::Reading => ExecAction::ReadOutput,
            ExecPhase::Closing => ExecAction::WaitClose,
            ExecPhase::QueryingStatus => ExecAction::QueryExitStatus,
        }
    }

    /// This execution in another phase, waiting on the request of that phase.
    fn proceed(self, phase: ExecPhase) -> (step: ExecStep)
        requires
            (ExecStateView { phase, ..self@ }).wf(),
        ensures
            step@ == exec_pending(ExecStateView { phase, ..self@ }),
    {
        let state = ExecState { phase, ..self };
        let action = state.request();
        ExecStep::Pending(state, action)
    }

    /// This execution unchanged, waiting on its request as before.
    fn stay(self) -> (step: ExecStep)
        ensures
            step@ == exec_pending(self@),
    {
        let action = self.request();
        ExecStep::Pending(self, action)
    }

    /// Takes what came of the pending request and decides how the execution
    /// goes on.
    pub fn step(self, event: ExecEvent) -> (step: ExecStep)
        ensures
            step@ == exec_next(self@, event@),
            self@.wf(),
            step@.wf(),
    {
        proof {
            use_type_invariant(&self);
        }
        match event {
            ExecEvent::IoFailed(e) => ExecStep::Failed(SSHError::IO(e)),
            ExecEvent::TransportFailed(e) => ExecStep::Failed(SSHError::SSH(e)),
            ExecEvent::Completed => match self.phase {
                ExecPhase::Opening => self.proceed(ExecPhase::Dispatching),
                ExecPhase::Dispatching => self.proceed(ExecPhase::Reading),
                ExecPhase::Closing => if self.with_status {
                    self.proceed(ExecPhase::QueryingStatus)
                } else {
                    ExecStep::Finished { output: self.output, exit_status: None }
                },
                _ => self.stay(),
            },
            ExecEvent::Output(text) => match self.phase {
                ExecPhase::Reading => {
                    let state = ExecState { output: text, phase: ExecPhase::Closing, ..self };
                    state.stay()
                },
                _ => self.stay(),
            },
            ExecEvent::ExitStatus(code) => match self.phase {
                ExecPhase::QueryingStatus => ExecStep::Finished {
                    output: self.output,
                    exit_status: Some(code),
                },
                _ => self.stay(),
            },
        }
    }
}

/// Where an execution that stands at `step` has got to once the events have
/// been fed to it in order. Events that come after its end are not looked at.
pub open spec fn exec_outcome(step: ExecStepView, events: Seq<ExecEventView>) -> ExecStepView
    decreases events.len(),
{
    match step {
        ExecStepView::Pending(s, _) => if events.len() == 0 {
            step
        } else {
            exec_outcome(exec_next(s, events.first()), events.drop_first())
        },
        _ => step,
    }
}

/// A command that was dispatched, whose output was read and whose channel
/// was closed ends with exactly the output that was read and exactly the exit
/// status that the channel reported.
pub proof fn lemma_exit_status_is_reported(command: Seq<char>, output: Seq<char>, code: i32)
    ensures
        exec_outcome(
            exec_start(command, true),
            seq![
                ExecEventView::Completed,
                ExecEventView::Completed,
                ExecEventView::Output(output),
                ExecEventView::Completed,
                ExecEventView::ExitStatus(code),
            ],
        ) == (ExecStepView::Finished { output, exit_status: Some(code) }),
{
    reveal_with_fuel(exec_outcome, 6);
    let events = seq![
        ExecEventView::Completed,
        ExecEventView::Completed,
        ExecEventView::Output(output),
        ExecEventView::Completed,
        ExecEventView::ExitStatus(code),
    ];
    let e1 = events.drop_first();
    let e2 = e1.drop_first();
    let e3 = e2.drop_first();
    let e4 = e3.drop_first();
    let e5 = e4.drop_first();
    assert(e5.len() == 0);
}

/// A command run for its output alone ends, once its channel is closed, with
/// exactly the output that was read and without an exit status; the channel
/// is not asked for one.
pub proof fn lemma_output_is_reported(command: Seq<char>, output: Seq<char>)
    ensures
        exec_outcome(
            exec_start(command, false),
            seq![
                ExecEventView::Completed,
                ExecEventView::Completed,
                ExecEventView::Output(output),
                ExecEventView::Completed,
            ],
        ) == (ExecStepView::Finished { output, exit_status: None }),
{
    reveal_with_fuel(exec_outcome, 5);
    let events = seq![
        ExecEventView::Completed,
        ExecEventView::Completed,
        ExecEventView::Output(output),
        ExecEventView::Completed,
    ];
    let e1 = events.drop_first();
    let e2 = e1.drop_first();
    let e3 = e2.drop_first();
    let e4 = e3.drop_first();
    assert(e4.len() == 0);
}

/// The output has been captured: the stream has been read.
spec fn has_read(phase: ExecPhase) -> bool {
    phase is Closing || phase is QueryingStatus
}

/// Whatever an execution in state `s` is fed: where it finishes, its exit
/// status is there exactly if it was asked for, and its output is what it had
/// captured already or, where it had not yet read the stream, the text of
/// one of the events it was fed.
proof fn lemma_finished_from(
    s: ExecStateView,
    request: ExecActionView,
    events: Seq<ExecEventView>,
)
    requires
        s.wf(),
    ensures
        exec_outcome(ExecStepView::Pending(s, request), events) matches ExecStepView::Finished {
            output,
            exit_status,
        } ==> {
            &&& exit_status is Some <==> s.with_status
            &&& has_read(s.phase) ==> output == s.output
            &&& !has_read(s.phase) ==> exists|i: int|
                0 <= i < events.len() && events[i] == ExecEventView::Output(output)
        },
    decreases events.len(),
{
    if events.len() > 0 {
        let step = exec_next(s, events.first());
        let rest = events.drop_first();
        match step {
            ExecStepView::Pending(t, r) => {
                lemma_finished_from(t, r, rest);
                if let ExecStepView::Finished { output, exit_status } = exec_outcome(step, rest) {
                    if !has_read(s.phase) {
                        if has_read(t.phase) {
                            assert(events[0] == ExecEventView::Output(output));
                        } else {
                            let i = choose|i: int|
                                0 <= i < rest.len() && rest[i] == ExecEventView::Output(output);
                            assert(events[i + 1] == ExecEventView::Output(output));
                        }
                    }
                }
            },
            _ => {},
        }
    }
}

/// Executions do not share anything. Whatever events an execution is fed,
/// where it finishes, the output it returns is the text of one of those
/// events, the one that answered its own request to read the stream, and so
/// never what another execution has read. Its exit status is there exactly
/// if it was asked for.
pub proof fn lemma_execution_is_self_contained(
    command: Seq<char>,
    with_status: bool,
    events: Seq<ExecEventView>,
)
    ensures
        exec_outcome(exec_start(command, with_status), events) matches ExecStepView::Finished {
            output,
            exit_status,
        } ==> {
            &&& exit_status is Some <==> with_status
            &&& exists|i: int| 0 <= i < events.len() && events[i] == ExecEventView::Output(output)
        },
{
    let s = ExecStateView {
        command,
        with_status,
        output: Seq::empty(),
        phase: ExecPhase::Opening,
    };
    lemma_finished_from(s, exec_request_of(s), events);
}

/// A failure that is reported ends the execution with that very error, in
/// whatever phase it comes; nothing is tried again.
pub proof fn lemma_failure_ends_execution(
    s: ExecStateView,
    io: std::io::Error,
    transport: ssh2::Error,
)
    ensures
        exec_next(s, ExecEventView::IoFailed(io)) == ExecStepView::Failed(SSHErrorView::IO(io)),
        exec_next(s, ExecEventView::TransportFailed(transport)) == ExecStepView::Failed(
            SSHErrorView::SSH(transport),
        ),
{
}

} // verus!
