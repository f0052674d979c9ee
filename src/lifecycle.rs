use vstd::prelude::*;

use crate::error::PsqlServerError;

verus! {

/// How long to wait between two readiness probes, in milliseconds.
pub const POLL_INTERVAL_MS: u64 = 500;

/// The command-line tools that a server needs, looked up in this order.
#[derive(Clone, Copy, Debug, PartialEq, Eq, Structural)]
pub enum Tool {
    Postgres,
    InitDb,
    CreateDb,
    PgIsReady,
}

/// A step of tearing down a server, named when it fails.
#[derive(Clone, Copy, Debug, PartialEq, Eq, Structural)]
pub enum TeardownStep {
    Kill,
    Reap,
    RemoveRoot,
}

/// What the machine is waiting to hear about.
#[derive(Clone, Copy, Debug, PartialEq, Eq, Structural)]
pub enum Phase {
    Locating(Tool),
    CreatingRoot,
    CreatingDataDir,
    CreatingTmpDir,
    ReservingPort,
    Initializing,
    Spawning,
    CheckingExit,
    Probing,
    Sleeping,
    CreatingWorkspace,
    Running,
    Killing,
    Reaping,
    RemovingRoot,
    Finished,
    Aborted,
}

/// What the caller is to do next.
#[derive(Debug)]
pub enum Action {
    /// Look up the tool's executable; answer with `Event::Found`.
    Locate(Tool),
    /// Create a uniquely named storage root; answer with `Event::Done`.
    CreateRoot,
    /// Create the `data` directory under the root; answer with `Event::Done`.
    CreateDataDir,
    /// Create the `tmp` directory under the root; answer with `Event::Done`.
    CreateTmpDir,
    /// Reserve an unused loopback port; answer with `Event::PortReserved`.
    ReservePort,
    /// Run the init tool on the data directory; answer with `Event::ToolExited`.
    InitStorage,
    /// Start the server on the port; answer with `Event::Done`.
    SpawnServer(u16),
    /// Ask whether the server process has exited (reaping it if so); answer
    /// with `Event::ExitPolled`.
    CheckExited,
    /// Run the readiness probe against the port; answer with `Event::ToolExited`.
    ProbeReady(u16),
    /// Sleep for the given number of milliseconds; answer with `Event::Done`.
    Sleep(u64),
    /// Run the workspace-creation tool against the port; answer with
    /// `Event::ToolExited`.
    CreateWorkspace(u16),
    /// Kill the server process; answer with `Event::Done`.
    Kill,
    /// Wait for the killed process to exit; answer with `Event::Done`.
    Reap,
    /// Delete the storage root recursively; answer with `Event::Done`.
    RemoveRoot,
    /// The server is up on this port; answer with `Event::Release` when done.
    Ready(u16),
    /// Construction failed and everything it acquired has been released.
    Failed(PsqlServerError),
    /// The server has been torn down.
    Released,
    /// A teardown step failed; the process is to stop.
    Abort(TeardownStep, std::io::Error),
}

/// How the last action went.
#[derive(Debug)]
pub enum Event {
    /// Whether the tool was found.
    Found(bool),
    /// The outcome of an action that returns nothing.
    Done(Result<(), std::io::Error>),
    /// The port that was reserved.
    PortReserved(Result<u16, std::io::Error>),
    /// Whether a tool that was run exited with success.
    ToolExited(Result<bool, std::io::Error>),
    /// Whether the server process has exited.
    ExitPolled(Result<bool, std::io::Error>),
    /// The caller releases a running server.
    Release,
}

/// What the machine knows: the phase, the reserved port, which resources it
/// holds, and the error to report once an aborted construction is unwound.
pub struct State {
    pub phase: Phase,
    pub port: u16,
    pub root_created: bool,
    pub process_live: bool,
    pub failure: Option<PsqlServerError>,
}

pub open spec fn state(
    phase: Phase,
    port: u16,
    root_created: bool,
    process_live: bool,
    failure: Option<PsqlServerError>,
) -> State {
    State { phase, port, root_created, process_live, failure }
}

pub open spec fn in_phase(s: State, phase: Phase) -> State {
    state(phase, s.port, s.root_created, s.process_live, s.failure)
}

/// The error reported when a tool cannot be found.
pub open spec fn missing_tool_error(t: Tool) -> PsqlServerError {
    match t {
        Tool::Postgres => PsqlServerError::CouldNotFindPostgresCommand,
        Tool::InitDb => PsqlServerError::CouldNotFindInitDbCommand,
        Tool::CreateDb => PsqlServerError::CouldNotFindCreateDbCommand,
        Tool::PgIsReady => PsqlServerError::CouldNotFindPgIsReadyCommand,
    }
}

/// The tool looked up after `t`, if any.
pub open spec fn next_tool(t: Tool) -> Option<Tool> {
    match t {
        Tool::Postgres => Some(Tool::InitDb),
        Tool::InitDb => Some(Tool::CreateDb),
        Tool::CreateDb => Some(Tool::PgIsReady),
        Tool::PgIsReady => None,
    }
}

/// The resources held in each phase: a live process only inside a storage
/// root, and nothing once the machine has finished.
pub open spec fn wf(s: State) -> bool {
    &&& s.process_live ==> s.root_created
    &&& match s.phase {
        Phase::Locating(_) | Phase::CreatingRoot | Phase::Finished => !s.root_created
            && s.failure is None,
        Phase::CreatingDataDir | Phase::CreatingTmpDir | Phase::ReservingPort
        | Phase::Initializing | Phase::Spawning => s.root_created && !s.process_live
            && s.failure is None,
        Phase::CheckingExit | Phase::Probing | Phase::Sleeping | Phase::CreatingWorkspace
        | Phase::Running => s.process_live && s.failure is None,
        Phase::Killing | Phase::Reaping => s.process_live,
        Phase::RemovingRoot => s.root_created && !s.process_live,
        Phase::Aborted => s.failure is None,
    }
}

/// Which events answer the action that the machine is waiting on.
pub open spec fn accepts(s: State, e: Event) -> bool {
    match s.phase {
        Phase::Locating(_) => e is Found,
        Phase::CreatingRoot | Phase::CreatingDataDir | Phase::CreatingTmpDir | Phase::Spawning
        | Phase::Sleeping | Phase::Killing | Phase::Reaping | Phase::RemovingRoot => e is Done,
        Phase::ReservingPort => e is PortReserved,
        Phase::Initializing | Phase::Probing | Phase::CreatingWorkspace => e is ToolExited,
        Phase::CheckingExit => e is ExitPolled,
        Phase::Running => e is Release,
        Phase::Finished | Phase::Aborted => false,
    }
}

/// The machine before any step: about to look up the server binary.
pub open spec fn initial() -> (State, Action) {
    (state(Phase::Locating(Tool::Postgres), 0, false, false, None), Action::Locate(Tool::Postgres))
}

/// Report what teardown was for: the pending error, or a release.
pub open spec fn conclude(s: State) -> (State, Action) {
    (
        state(Phase::Finished, s.port, s.root_created, s.process_live, None),
        match s.failure {
            Some(err) => Action::Failed(err),
            None => Action::Released,
        },
    )
}

/// Release what `s` holds, newest first, then report `err`.
pub open spec fn unwind(s: State, err: PsqlServerError) -> (State, Action) {
    if s.process_live {
        (state(Phase::Killing, s.port, s.root_created, true, Some(err)), Action::Kill)
    } else if s.root_created {
        (state(Phase::RemovingRoot, s.port, true, false, Some(err)), Action::RemoveRoot)
    } else {
        (state(Phase::Finished, s.port, false, false, None), Action::Failed(err))
    }
}

/// Go on to `next` where `r` is `Ok`, else unwind with the I/O error.
pub open spec fn proceed(
    s: State,
    r: Result<(), std::io::Error>,
    next: (State, Action),
) -> (State, Action) {
    match r {
        Ok(_) => next,
        Err(x) => unwind(s, PsqlServerError::IoError(x)),
    }
}

/// Go on to `next` where `r` is `Ok`, else stop the process.
pub open spec fn teardown_proceed(
    s: State,
    r: Result<(), std::io::Error>,
    step: TeardownStep,
    next: (State, Action),
) -> (State, Action) {
    match r {
        Ok(_) => next,
        Err(x) => (
            state(Phase::Aborted, s.port, s.root_created, s.process_live, None),
            Action::Abort(step, x),
        ),
    }
}

/// One step of the machine: the state after event `e` in state `s`, and the
/// action to take next. Only events that `accepts` admits are ever taken; the
/// outcome of any other is left open.
pub open spec fn transition(s: State, e: Event) -> (State, Action) {
    match (s.phase, e) {
        (Phase::Locating(t), Event::Found(found)) => if !found {
            unwind(s, missing_tool_error(t))
        } else {
            match next_tool(t) {
                Some(u) => (in_phase(s, Phase::Locating(u)), Action::Locate(u)),
                None => (in_phase(s, Phase::CreatingRoot), Action::CreateRoot),
            }
        },
        (Phase::CreatingRoot, Event::Done(r)) => proceed(
            s,
            r,
            (state(Phase::CreatingDataDir, s.port, true, false, None), Action::CreateDataDir),
        ),
        (Phase::CreatingDataDir, Event::Done(r)) => proceed(
            s,
            r,
            (in_phase(s, Phase::CreatingTmpDir), Action::CreateTmpDir),
        ),
        (Phase::CreatingTmpDir, Event::Done(r)) => proceed(
            s,
            r,
            (in_phase(s, Phase::ReservingPort), Action::ReservePort),
        ),
        (Phase::ReservingPort, Event::PortReserved(r)) => match r {
            Ok(p) => (
                state(Phase::Initializing, p, s.root_created, s.process_live, s.failure),
                Action::InitStorage,
            ),
            Err(x) => unwind(s, PsqlServerError::IoError(x)),
        },
        (Phase::Initializing, Event::ToolExited(r)) => match r {
            Ok(true) => (in_phase(s, Phase::Spawning), Action::SpawnServer(s.port)),
            Ok(false) => unwind(s, PsqlServerError::InitDbFailed),
            Err(x) => unwind(s, PsqlServerError::IoError(x)),
        },
        (Phase::Spawning, Event::Done(r)) => proceed(
            s,
            r,
            (state(Phase::CheckingExit, s.port, s.root_created, true, s.failure), Action::CheckExited),
        ),
        (Phase::CheckingExit, Event::ExitPolled(r)) => match r {
            Ok(true) => unwind(
                state(s.phase, s.port, s.root_created, false, s.failure),
                PsqlServerError::PostgresFailed,
            ),
            Ok(false) => (in_phase(s, Phase::Probing), Action::ProbeReady(s.port)),
            Err(x) => unwind(s, PsqlServerError::IoError(x)),
        },
        (Phase::Probing, Event::ToolExited(r)) => match r {
            Ok(true) => (in_phase(s, Phase::CreatingWorkspace), Action::CreateWorkspace(s.port)),
            Ok(false) => (in_phase(s, Phase::Sleeping), Action::Sleep(POLL_INTERVAL_MS)),
            Err(x) => unwind(s, PsqlServerError::IoError(x)),
        },
        (Phase::Sleeping, Event::Done(r)) => proceed(
            s,
            r,
            (in_phase(s, Phase::CheckingExit), Action::CheckExited),
        ),
        (Phase::CreatingWorkspace, Event::ToolExited(r)) => match r {
            Ok(true) => (in_phase(s, Phase::Running), Action::Ready(s.port)),
            Ok(false) => unwind(s, PsqlServerError::CreateDbFailed),
            Err(x) => unwind(s, PsqlServerError::IoError(x)),
        },
        (Phase::Running, Event::Release) => (in_phase(s, Phase::Killing), Action::Kill),
        (Phase::Killing, Event::Done(r)) => teardown_proceed(
            s,
            r,
            TeardownStep::Kill,
            (in_phase(s, Phase::Reaping), Action::Reap),
        ),
        (Phase::Reaping, Event::Done(r)) => teardown_proceed(
            s,
            r,
            TeardownStep::Reap,
            if s.root_created {
                (state(Phase::RemovingRoot, s.port, true, false, s.failure), Action::RemoveRoot)
            } else {
                conclude(state(s.phase, s.port, false, false, s.failure))
            },
        ),
        (Phase::RemovingRoot, Event::Done(r)) => teardown_proceed(
            s,
            r,
            TeardownStep::RemoveRoot,
            conclude(state(s.phase, s.port, false, s.process_live, s.failure)),
        ),
        _ => arbitrary(),
    }
}

/// A server's lifecycle: construction, readiness polling and teardown.
pub struct Lifecycle {
    state: State,
}

impl View for Lifecycle {
    type V = State;

    closed spec fn view(&self) -> State {
        self.state
    }
}

impl Lifecycle {
    #[verifier::type_invariant]
    closed spec fn inv(&self) -> bool {
        wf(self.state)
    }

    /// A new lifecycle, and its first action: look up the server binary.
    pub fn new() -> (r: (Lifecycle, Action))
        ensures
            (r.0@, r.1) == initial(),
    {
        let lc = Lifecycle {
            state: State {
                phase: Phase::Locating(Tool::Postgres),
                port: 0,
                root_created: false,
                process_live: false,
                failure: None,
            },
        };
        (lc, Action::Locate(Tool::Postgres))
    }

    /// Whether `e` answers the action that the machine waits on.
    pub fn accepts(&self, e: &Event) -> (r: bool)
        ensures
            r == accepts(self@, *e),
    {
        match self.state.phase {
            Phase::Locating(_) => matches!(e, Event::Found(_)),
            Phase::CreatingRoot | Phase::CreatingDataDir | Phase::CreatingTmpDir
            | Phase::Spawning | Phase::Sleeping | Phase::Killing | Phase::Reaping
            | Phase::RemovingRoot => matches!(e, Event::Done(_)),
            Phase::ReservingPort => matches!(e, Event::PortReserved(_)),
            Phase::Initializing | Phase::Probing | Phase::CreatingWorkspace => matches!(
                e,
                Event::ToolExited(_)
            ),
            Phase::CheckingExit => matches!(e, Event::ExitPolled(_)),
            Phase::Running => matches!(e, Event::Release),
            Phase::Finished | Phase::Aborted => false,
        }
    }

    /// The phase the machine is in.
    pub fn phase(&self) -> (r: Phase)
        ensures
            r == self@.phase,
    {
        self.state.phase
    }

    /// Takes in how the last action went and returns the next action.
    pub fn advance(&mut self, e: Event) -> (a: Action)
        requires
            accepts(old(self)@, e),
        ensures
            (final(self)@, a) == transition(old(self)@, e),
    {
        proof {
            use_type_invariant(&*self);
        }
        let mut s = State {
            phase: Phase::Finished,
            port: 0,
            root_created: false,
            process_live: false,
            failure: None,
        };
        std::mem::swap(&mut s, &mut self.state);
        let a = step(&mut s, e);
        proof {
            lemma_step_keeps_wf(old(self)@, e);
        }
        self.state = s;
        a
    }
}

fn unwind_state(s: &mut State, err: PsqlServerError) -> (a: Action)
    requires
        old(s).process_live ==> old(s).root_created,
    ensures
        (*final(s), a) == unwind(*old(s), err),
{
    if s.process_live {
        s.phase = Phase::Killing;
        s.failure = Some(err);
        Action::Kill
    } else if s.root_created {
        s.phase = Phase::RemovingRoot;
        s.failure = Some(err);
        Action::RemoveRoot
    } else {
        s.phase = Phase::Finished;
        s.failure = None;
        Action::Failed(err)
    }
}

fn conclude_state(s: &mut State) -> (a: Action)
    ensures
        (*final(s), a) == conclude(*old(s)),
{
    s.phase = Phase::Finished;
    match s.failure.take() {
        Some(err) => Action::Failed(err),
        None => Action::Released,
    }
}

fn abort_state(s: &mut State, step: TeardownStep, x: std::io::Error) -> (a: Action)
    ensures
        *final(s) == state(Phase::Aborted, old(s).port, old(s).root_created, old(s).process_live, None),
        a == Action::Abort(step, x),
{
    s.phase = Phase::Aborted;
    s.failure = None;
    Action::Abort(step, x)
}

fn step(s: &mut State, e: Event) -> (a: Action)
    requires
        wf(*old(s)),
        accepts(*old(s), e),
    ensures
        (*final(s), a) == transition(*old(s), e),
{
    match e {
        Event::Found(found) => {
            let t = match s.phase {
                Phase::Locating(t) => t,
                _ => {
                    proof {
                        assert(false);
                    }
                    Tool::Postgres
                },
            };
            if !found {
                let err = match t {
                    Tool::Postgres => PsqlServerError::CouldNotFindPostgresCommand,
                    Tool::InitDb => PsqlServerError::CouldNotFindInitDbCommand,
                    Tool::CreateDb => PsqlServerError::CouldNotFindCreateDbCommand,
                    Tool::PgIsReady => PsqlServerError::CouldNotFindPgIsReadyCommand,
                };
                unwind_state(s, err)
            } else {
                match t {
                    Tool::Postgres => {
                        s.phase = Phase::Locating(Tool::InitDb);
                        Action::Locate(Tool::InitDb)
                    },
                    Tool::InitDb => {
                        s.phase = Phase::Locating(Tool::CreateDb);
                        Action::Locate(Tool::CreateDb)
                    },
                    Tool::CreateDb => {
                        s.phase = Phase::Locating(Tool::PgIsReady);
                        Action::Locate(Tool::PgIsReady)
                    },
                    Tool::PgIsReady => {
                        s.phase = Phase::CreatingRoot;
                        Action::CreateRoot
                    },
                }
            }
        },
        Event::Done(r) => match r {
            Err(x) => match s.phase {
                Phase::Killing => abort_state(s, TeardownStep::Kill, x),
                Phase::Reaping => abort_state(s, TeardownStep::Reap, x),
                Phase::RemovingRoot => abort_state(s, TeardownStep::RemoveRoot, x),
                _ => unwind_state(s, PsqlServerError::IoError(x)),
            },
            Ok(()) => match s.phase {
                Phase::CreatingRoot => {
                    s.phase = Phase::CreatingDataDir;
                    s.root_created = true;
                    Action::CreateDataDir
                },
                Phase::CreatingDataDir => {
                    s.phase = Phase::CreatingTmpDir;
                    Action::CreateTmpDir
                },
                Phase::CreatingTmpDir => {
                    s.phase = Phase::ReservingPort;
                    Action::ReservePort
                },
                Phase::Spawning => {
                    s.phase = Phase::CheckingExit;
                    s.process_live = true;
                    Action::CheckExited
                },
                Phase::Sleeping => {
                    s.phase = Phase::CheckingExit;
                    Action::CheckExited
                },
                Phase::Killing => {
                    s.phase = Phase::Reaping;
                    Action::Reap
                },
                Phase::Reaping => {
                    s.process_live = false;
                    if s.root_created {
                        s.phase = Phase::RemovingRoot;
                        Action::RemoveRoot
                    } else {
                        conclude_state(s)
                    }
                },
                _ => {
                    s.root_created = false;
                    conclude_state(s)
                },
            },
        },
        Event::PortReserved(r) => match r {
            Ok(p) => {
                s.phase = Phase::Initializing;
                s.port = p;
                Action::InitStorage
            },
            Err(x) => unwind_state(s, PsqlServerError::IoError(x)),
        },
        Event::ToolExited(r) => match r {
            Err(x) => unwind_state(s, PsqlServerError::IoError(x)),
            Ok(success) => match s.phase {
                Phase::Initializing => if success {
                    s.phase = Phase::Spawning;
                    Action::SpawnServer(s.port)
                } else {
                    unwind_state(s, PsqlServerError::InitDbFailed)
                },
                Phase::Probing => if success {
                    s.phase = Phase::CreatingWorkspace;
                    Action::CreateWorkspace(s.port)
                } else {
                    s.phase = Phase::Sleeping;
                    Action::Sleep(POLL_INTERVAL_MS)
                },
                _ => if success {
                    s.phase = Phase::Running;
                    Action::Ready(s.port)
                } else {
                    unwind_state(s, PsqlServerError::CreateDbFailed)
                },
            },
        },
        Event::ExitPolled(r) => match r {
            Ok(exited) => if exited {
                s.process_live = false;
                unwind_state(s, PsqlServerError::PostgresFailed)
            } else {
                s.phase = Phase::Probing;
                Action::ProbeReady(s.port)
            },
            Err(x) => unwind_state(s, PsqlServerError::IoError(x)),
        },
        Event::Release => {
            s.phase = Phase::Killing;
            Action::Kill
        },
    }
}

/// Every step from a well-formed state that the machine accepts leads to a
/// well-formed state.
pub proof fn lemma_step_keeps_wf(s: State, e: Event)
    requires
        wf(s),
        accepts(s, e),
    ensures
        wf(transition(s, e).0),
{
}

} // verus!
