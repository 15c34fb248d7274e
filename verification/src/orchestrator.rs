//! The node orchestrator: one descriptor's way from configuration entry to
//! collected results, and the guarantee that what was launched on a cloud
//! backend is terminated whatever happens in between.
//!
//! The machine decides; the caller launches, connects, runs, collects and
//! terminates as told, and reports what happened.

use vstd::prelude::*;
use crate::node::{Backend, ConfigError, Node};

verus! {

/// The lifecycle of a node, coarsely.
#[derive(Clone, Copy, Debug, PartialEq, Eq, Structural)]
pub enum Phase {
    Pending,
    Launching,
    Connected,
    Running,
    Collecting,
    Terminating,
    Done,
    Failed,
}

/// The error that a node's run surfaces.
#[derive(Clone, Copy, Debug, PartialEq, Eq, Structural)]
pub enum RunError {
    /// The descriptor cannot be launched.
    Config(ConfigError),
    /// The machine image could not be found.
    ImageLookup,
    /// The provider could not launch the machine in time, or the setup hook
    /// failed on it.
    Launch,
    /// No session to the launched machine.
    Connect,
    /// The experiment driver could not be run, or its output not read.
    Driver,
    /// The driver's output could not be written to the log.
    LogWrite,
    /// A result file opened and could not be copied.
    Collect,
    /// The provider could not terminate what it launched.
    Terminate,
}

/// The lifecycle of a node, step by step. Each stage awaits one report.
#[derive(Clone, Copy, Debug, PartialEq, Eq, Structural)]
pub enum Stage {
    /// The descriptor has yet to be validated.
    Created,
    /// The machine image is being looked up.
    AwaitingImage,
    /// The provider is launching the machine and running the setup hook.
    Spawning,
    /// The machine is set up; the session to it is being opened.
    Connecting,
    /// The experiment driver is running.
    RunningDriver,
    /// The driver has exited, with status zero or not; its output is being
    /// written to the log.
    WritingLog { driver_ok: bool },
    /// The result files are being fetched.
    CollectingFiles,
    /// The operator inspects the machine before it goes away.
    Paused,
    /// The provider is terminating what it launched; the error, if any, is
    /// the one that led here.
    Terminating(Option<RunError>),
    Done,
    Failed(RunError),
}

/// What the caller reports back.
#[derive(Clone, Copy, Debug, PartialEq, Eq, Structural)]
pub enum Event {
    DescriptorAccepted,
    DescriptorRejected(ConfigError),
    ImageResolved,
    ImageLookupFailed,
    Launched,
    LaunchFailed,
    SessionOpened,
    SessionFailed,
    /// The driver ran and exited; `success` tells whether with status zero.
    DriverExited { success: bool },
    DriverUnreachable,
    LogWritten,
    LogWriteFailed,
    /// Every candidate was either fetched or found absent.
    Collected,
    CollectFailed,
    OperatorContinued,
    Terminated,
    TerminateFailed,
}

/// What the caller is to do next.
#[derive(Clone, Copy, Debug, PartialEq, Eq, Structural)]
pub enum Action {
    /// Validate the descriptor.
    Validate,
    /// Look up the machine image.
    ResolveImage,
    /// Launch the machine with the setup hook.
    Launch,
    /// Open the session to the launched machine.
    Connect,
    /// Run the experiment driver and capture its output.
    RunDriver,
    /// Write the captured standard output to the log; show the captured
    /// standard error to the operator if asked to.
    WriteLog { surface_stderr: bool },
    /// Fetch the result files.
    Collect,
    /// Wait for the operator.
    Pause,
    /// Terminate everything the provider launched.
    Terminate,
    /// The run is over and succeeded.
    Finish,
    /// The run is over; this is the error to surface.
    Fail(RunError),
}

/// The orchestrator as a mathematical value.
pub struct NodeState {
    pub backend: Backend,
    pub stage: Stage,
}

impl Stage {
    pub open spec fn phase_spec(self) -> Phase {
        match self {
            Stage::Created => Phase::Pending,
            Stage::AwaitingImage => Phase::Pending,
            Stage::Spawning => Phase::Launching,
            Stage::Connecting => Phase::Connected,
            Stage::RunningDriver => Phase::Running,
            Stage::WritingLog { .. } => Phase::Running,
            Stage::CollectingFiles => Phase::Collecting,
            Stage::Paused => Phase::Collecting,
            Stage::Terminating(_) => Phase::Terminating,
            Stage::Done => Phase::Done,
            Stage::Failed(_) => Phase::Failed,
        }
    }

    /// The phase that a stage belongs to.
    #[verifier::when_used_as_spec(phase_spec)]
    pub fn phase(self) -> (phase: Phase)
        ensures
            phase == self.phase_spec(),
    {
        match self {
            Stage::Created => Phase::Pending,
            Stage::AwaitingImage => Phase::Pending,
            Stage::Spawning => Phase::Launching,
            Stage::Connecting => Phase::Connected,
            Stage::RunningDriver => Phase::Running,
            Stage::WritingLog { .. } => Phase::Running,
            Stage::CollectingFiles => Phase::Collecting,
            Stage::Paused => Phase::Collecting,
            Stage::Terminating(_) => Phase::Terminating,
            Stage::Done => Phase::Done,
            Stage::Failed(_) => Phase::Failed,
        }
    }
}

impl NodeState {
    pub open spec fn initial(backend: Backend) -> NodeState {
        NodeState { backend, stage: Stage::Created }
    }

    pub open spec fn wf(self) -> bool {
        match self.stage {
            Stage::AwaitingImage => self.backend == Backend::Aws,
            Stage::Terminating(_) => self.backend.is_cloud_spec(),
            _ => true,
        }
    }

    pub open spec fn finished(self) -> bool {
        self.stage is Done || self.stage is Failed
    }

    /// Where a failure after the launch was asked for leads: a cloud backend
    /// terminates first and fails afterwards, a static host fails at once.
    pub open spec fn fail(self, error: RunError) -> NodeState {
        if self.backend.is_cloud_spec() {
            NodeState { stage: Stage::Terminating(Some(error)), ..self }
        } else {
            NodeState { stage: Stage::Failed(error), ..self }
        }
    }

    /// The state after `event`. An event that does not answer the outstanding
    /// action changes nothing.
    pub open spec fn next(self, event: Event) -> NodeState {
        match (self.stage, event) {
            (Stage::Created, Event::DescriptorAccepted) => {
                if self.backend == Backend::Aws {
                    NodeState { stage: Stage::AwaitingImage, ..self }
                } else {
                    NodeState { stage: Stage::Spawning, ..self }
                }
            },
            (Stage::Created, Event::DescriptorRejected(e)) => NodeState {
                stage: Stage::Failed(RunError::Config(e)),
                ..self
            },
            (Stage::AwaitingImage, Event::ImageResolved) => NodeState {
                stage: Stage::Spawning,
                ..self
            },
            (Stage::AwaitingImage, Event::ImageLookupFailed) => NodeState {
                stage: Stage::Failed(RunError::ImageLookup),
                ..self
            },
            (Stage::Spawning, Event::Launched) => NodeState { stage: Stage::Connecting, ..self },
            (Stage::Spawning, Event::LaunchFailed) => self.fail(RunError::Launch),
            (Stage::Connecting, Event::SessionOpened) => NodeState {
                stage: Stage::RunningDriver,
                ..self
            },
            (Stage::Connecting, Event::SessionFailed) => self.fail(RunError::Connect),
            (Stage::RunningDriver, Event::DriverExited { success }) => NodeState {
                stage: Stage::WritingLog { driver_ok: success },
                ..self
            },
            (Stage::RunningDriver, Event::DriverUnreachable) => self.fail(RunError::Driver),
            (Stage::WritingLog { .. }, Event::LogWritten) => NodeState {
                stage: Stage::CollectingFiles,
                ..self
            },
            (Stage::WritingLog { .. }, Event::LogWriteFailed) => self.fail(RunError::LogWrite),
            (Stage::CollectingFiles, Event::Collected) => NodeState {
                stage: Stage::Paused,
                ..self
            },
            (Stage::CollectingFiles, Event::CollectFailed) => self.fail(RunError::Collect),
            (Stage::Paused, Event::OperatorContinued) => {
                if self.backend.is_cloud_spec() {
                    NodeState { stage: Stage::Terminating(None), ..self }
                } else {
                    NodeState { stage: Stage::Done, ..self }
                }
            },
            (Stage::Terminating(pending), Event::Terminated) => match pending {
                None => NodeState { stage: Stage::Done, ..self },
                Some(e) => NodeState { stage: Stage::Failed(e), ..self },
            },
            (Stage::Terminating(_), Event::TerminateFailed) => NodeState {
                stage: Stage::Failed(RunError::Terminate),
                ..self
            },
            _ => self,
        }
    }

    /// What the caller is to do in this state.
    pub open spec fn action(self) -> Action {
        match self.stage {
            Stage::Created => Action::Validate,
            Stage::AwaitingImage => Action::ResolveImage,
            Stage::Spawning => Action::Launch,
            Stage::Connecting => Action::Connect,
            Stage::RunningDriver => Action::RunDriver,
            Stage::WritingLog { driver_ok } => Action::WriteLog { surface_stderr: !driver_ok },
            Stage::CollectingFiles => Action::Collect,
            Stage::Paused => Action::Pause,
            Stage::Terminating(_) => Action::Terminate,
            Stage::Done => Action::Finish,
            Stage::Failed(e) => Action::Fail(e),
        }
    }

    /// How the run ended, once it has.
    pub open spec fn outcome(self) -> Option<Result<(), RunError>> {
        match self.stage {
            Stage::Done => Some(Ok(())),
            Stage::Failed(e) => Some(Err(e)),
            _ => None,
        }
    }

    /// The state after a sequence of events, first to last.
    pub open spec fn run(self, events: Seq<Event>) -> NodeState
        decreases events.len(),
    {
        if events.len() == 0 {
            self
        } else {
            self.run(events.drop_last()).next(events.last())
        }
    }

    /// The actions that the caller is asked for along a sequence of events:
    /// the one outstanding at the start, and one more after each event that
    /// changes the state.
    pub open spec fn issued(self, events: Seq<Event>) -> Seq<Action>
        decreases events.len(),
    {
        if events.len() == 0 {
            seq![self.action()]
        } else {
            let before = self.run(events.drop_last());
            let after = before.next(events.last());
            if after == before {
                self.issued(events.drop_last())
            } else {
                self.issued(events.drop_last()).push(after.action())
            }
        }
    }
}

/// The event that reports the verdict on a descriptor.
pub open spec fn descriptor_event(node: &Node) -> Event {
    if node.location_ok() {
        Event::DescriptorAccepted
    } else {
        Event::DescriptorRejected(node.backend_spec().config_error())
    }
}

/// How often `action` occurs in `actions`.
pub open spec fn occurrences(actions: Seq<Action>, action: Action) -> nat
    decreases actions.len(),
{
    if actions.len() == 0 {
        0
    } else {
        occurrences(actions.drop_last(), action) + if actions.last() == action {
            1nat
        } else {
            0nat
        }
    }
}

/// Counts how often `action` was asked for.
pub fn count_actions(actions: &Vec<Action>, action: Action) -> (n: usize)
    ensures
        n == occurrences(actions@, action),
{
    let mut n: usize = 0;
    let mut i: usize = 0;
    assert(actions@.take(0) =~= Seq::empty());
    while i < actions.len()
        invariant
            i <= actions@.len(),
            n <= i,
            n == occurrences(actions@.take(i as int), action),
        decreases actions@.len() - i,
    {
        proof {
            assert(actions@.take(i + 1).drop_last() =~= actions@.take(i as int));
        }
        if actions[i] == action {
            n += 1;
        }
        i += 1;
    }
    assert(actions@.take(i as int) =~= actions@);
    n
}

/// The node orchestrator.
#[derive(Clone, Copy, Debug)]
pub struct Orchestrator {
    backend: Backend,
    stage: Stage,
}

impl View for Orchestrator {
    type V = NodeState;

    closed spec fn view(&self) -> NodeState {
        NodeState { backend: self.backend, stage: self.stage }
    }
}

impl Orchestrator {
    #[verifier::type_invariant]
    spec fn inv(self) -> bool {
        self@.wf()
    }

    /// An orchestrator for a descriptor of `backend` that has yet to be
    /// validated.
    pub fn new(backend: Backend) -> (o: Orchestrator)
        ensures
            o@ == NodeState::initial(backend),
    {
        Orchestrator { backend, stage: Stage::Created }
    }

    /// An orchestrator for `node`, which has yet to be validated.
    pub fn for_node(node: &Node) -> (o: Orchestrator)
        ensures
            o@ == NodeState::initial(node.backend_spec()),
    {
        Orchestrator::new(node.backend())
    }

    pub fn backend(&self) -> (b: Backend)
        ensures
            b == self@.backend,
    {
        self.backend
    }

    pub fn stage(&self) -> (s: Stage)
        ensures
            s == self@.stage,
            self@.wf(),
    {
        proof {
            use_type_invariant(self);
        }
        self.stage
    }

    pub fn phase(&self) -> (p: Phase)
        ensures
            p == self@.stage.phase_spec(),
    {
        self.stage.phase()
    }

    /// What the caller is to do now.
    pub fn action(&self) -> (action: Action)
        ensures
            action == self@.action(),
    {
        match self.stage {
            Stage::Created => Action::Validate,
            Stage::AwaitingImage => Action::ResolveImage,
            Stage::Spawning => Action::Launch,
            Stage::Connecting => Action::Connect,
            Stage::RunningDriver => Action::RunDriver,
            Stage::WritingLog { driver_ok } => Action::WriteLog { surface_stderr: !driver_ok },
            Stage::CollectingFiles => Action::Collect,
            Stage::Paused => Action::Pause,
            Stage::Terminating(_) => Action::Terminate,
            Stage::Done => Action::Finish,
            Stage::Failed(e) => Action::Fail(e),
        }
    }

    fn failed(&self, error: RunError) -> (stage: Stage)
        ensures
            stage == self@.fail(error).stage,
    {
        if self.backend.is_cloud() {
            Stage::Terminating(Some(error))
        } else {
            Stage::Failed(error)
        }
    }

    /// Takes in what happened and says what to do next.
    pub fn handle(&mut self, event: Event) -> (action: Action)
        ensures
            old(self)@.wf(),
            final(self)@ == old(self)@.next(event),
            final(self)@.wf(),
            action == final(self)@.action(),
    {
        proof {
            use_type_invariant(&*self);
        }
        let backend = self.backend;
        let stage = match (self.stage, event) {
            (Stage::Created, Event::DescriptorAccepted) => {
                match backend {
                    Backend::Aws => Stage::AwaitingImage,
                    _ => Stage::Spawning,
                }
            },
            (Stage::Created, Event::DescriptorRejected(e)) => Stage::Failed(RunError::Config(e)),
            (Stage::AwaitingImage, Event::ImageResolved) => Stage::Spawning,
            (Stage::AwaitingImage, Event::ImageLookupFailed) => Stage::Failed(
                RunError::ImageLookup,
            ),
            (Stage::Spawning, Event::Launched) => Stage::Connecting,
            (Stage::Spawning, Event::LaunchFailed) => self.failed(RunError::Launch),
            (Stage::Connecting, Event::SessionOpened) => Stage::RunningDriver,
            (Stage::Connecting, Event::SessionFailed) => self.failed(RunError::Connect),
            (Stage::RunningDriver, Event::DriverExited { success }) => Stage::WritingLog {
                driver_ok: success,
            },
            (Stage::RunningDriver, Event::DriverUnreachable) => self.failed(RunError::Driver),
            (Stage::WritingLog { .. }, Event::LogWritten) => Stage::CollectingFiles,
            (Stage::WritingLog { .. }, Event::LogWriteFailed) => self.failed(RunError::LogWrite),
            (Stage::CollectingFiles, Event::Collected) => Stage::Paused,
            (Stage::CollectingFiles, Event::CollectFailed) => self.failed(RunError::Collect),
            (Stage::Paused, Event::OperatorContinued) => {
                if backend.is_cloud() {
                    Stage::Terminating(None)
                } else {
                    Stage::Done
                }
            },
            (Stage::Terminating(pending), Event::Terminated) => match pending {
                None => Stage::Done,
                Some(e) => Stage::Failed(e),
            },
            (Stage::Terminating(_), Event::TerminateFailed) => Stage::Failed(RunError::Terminate),
            (stage, _) => stage,
        };
        *self = Orchestrator { backend, stage };
        self.action()
    }

    /// Validates `node` and takes in the verdict.
    pub fn begin(&mut self, node: &Node) -> (action: Action)
        ensures
            final(self)@ == old(self)@.next(descriptor_event(node)),
            action == final(self)@.action(),
    {
        let event = match node.validate() {
            Ok(()) => Event::DescriptorAccepted,
            Err(e) => Event::DescriptorRejected(e),
        };
        self.handle(event)
    }

    /// Feeds a whole sequence of events to a fresh orchestrator and keeps
    /// the actions that it asks for on the way.
    pub fn replay(backend: Backend, events: &Vec<Event>) -> (r: (Orchestrator, Vec<Action>))
        ensures
            r.0@ == NodeState::initial(backend).run(events@),
            r.1@ == NodeState::initial(backend).issued(events@),
    {
        let ghost start = NodeState::initial(backend);
        let mut o = Orchestrator::new(backend);
        let mut asked: Vec<Action> = Vec::new();
        asked.push(o.action());
        let mut i: usize = 0;
        assert(events@.take(0) =~= Seq::empty());
        assert(asked@ =~= start.issued(events@.take(0)));
        while i < events.len()
            invariant
                i <= events@.len(),
                start == NodeState::initial(backend),
                o@ == start.run(events@.take(i as int)),
                asked@ == start.issued(events@.take(i as int)),
            decreases events@.len() - i,
        {
            proof {
                assert(events@.take(i + 1).drop_last() =~= events@.take(i as int));
            }
            let before = o.stage();
            let action = o.handle(events[i]);
            if o.stage() != before {
                asked.push(action);
            }
            i += 1;
        }
        assert(events@.take(i as int) =~= events@);
        (o, asked)
    }

    /// How the run ended; `None` while it is under way.
    pub fn outcome(&self) -> (r: Option<Result<(), RunError>>)
        ensures
            r == self@.outcome(),
    {
        match self.stage {
            Stage::Done => Some(Ok(())),
            Stage::Failed(e) => Some(Err(e)),
            _ => None,
        }
    }
}

impl RunError {
    pub open spec fn message_spec(self) -> Seq<char> {
        match self {
            RunError::Config(e) => e.message_spec(),
            RunError::ImageLookup => "machine image lookup failed"@,
            RunError::Launch => "launch failed"@,
            RunError::Connect => "no session to the launched machine"@,
            RunError::Driver => "experiment driver could not be run"@,
            RunError::LogWrite => "log could not be written"@,
            RunError::Collect => "result file could not be copied"@,
            RunError::Terminate => "termination failed"@,
        }
    }

    /// A line for the operator.
    pub fn message(self) -> (s: &'static str)
        ensures
            s@ == self.message_spec(),
    {
        match self {
            RunError::Config(e) => e.message(),
            RunError::ImageLookup => "machine image lookup failed",
            RunError::Launch => "launch failed",
            RunError::Connect => "no session to the launched machine",
            RunError::Driver => "experiment driver could not be run",
            RunError::LogWrite => "log could not be written",
            RunError::Collect => "result file could not be copied",
            RunError::Terminate => "termination failed",
        }
    }
}

/// Well-formedness survives every event.
pub proof fn lemma_node_next_preserves_wf(s: NodeState, event: Event)
    requires
        s.wf(),
    ensures
        s.next(event).wf(),
        s.next(event).backend == s.backend,
{
}

/// A finished run stays as it is whatever is reported to it.
pub proof fn lemma_node_finished_is_final(s: NodeState, events: Seq<Event>)
    requires
        s.finished(),
    ensures
        s.run(events) == s,
        s.issued(events) == seq![s.action()],
    decreases events.len(),
{
    if events.len() > 0 {
        lemma_node_finished_is_final(s, events.drop_last());
    }
}

/// Counting over a list with one more action.
pub proof fn lemma_occurrences_push(actions: Seq<Action>, last: Action, action: Action)
    ensures
        occurrences(actions.push(last), action) == occurrences(actions, action) + if last
            == action {
            1nat
        } else {
            0nat
        },
{
    assert(actions.push(last).drop_last() =~= actions);
}

/// How many launches and terminations can have been asked for by the time a
/// node stands at a stage.
spec fn ledger(s: NodeState, launches: nat, terminations: nat) -> bool {
    match s.stage {
        Stage::Created | Stage::AwaitingImage => launches == 0 && terminations == 0,
        Stage::Terminating(_) => launches == 1 && terminations == 1 && s.backend.is_cloud_spec(),
        Stage::Done => launches == 1 && terminations == if s.backend.is_cloud_spec() {
            1nat
        } else {
            0nat
        },
        Stage::Failed(_) => launches <= 1 && terminations == if s.backend.is_cloud_spec() {
            launches
        } else {
            0nat
        },
        _ => launches == 1 && terminations == 0,
    }
}

proof fn lemma_ledger(backend: Backend, events: Seq<Event>)
    ensures
        ledger(
            NodeState::initial(backend).run(events),
            occurrences(NodeState::initial(backend).issued(events), Action::Launch),
            occurrences(NodeState::initial(backend).issued(events), Action::Terminate),
        ),
        NodeState::initial(backend).run(events).backend == backend,
    decreases events.len(),
{
    let start = NodeState::initial(backend);
    if events.len() == 0 {
        let first = seq![start.action()];
        assert(first.drop_last() =~= Seq::<Action>::empty());
        assert(occurrences(first.drop_last(), Action::Launch) == 0);
        assert(occurrences(first.drop_last(), Action::Terminate) == 0);
    } else {
        lemma_ledger(backend, events.drop_last());
        let before = start.run(events.drop_last());
        let after = before.next(events.last());
        let asked = start.issued(events.drop_last());
        if after != before {
            lemma_occurrences_push(asked, after.action(), Action::Launch);
            lemma_occurrences_push(asked, after.action(), Action::Terminate);
        }
    }
}

/// Whatever is reported, in whatever order: a node is launched at most once;
/// a static host is never terminated; a cloud node is terminated at most as
/// often as it is launched; and when the run of a cloud node is over, it has
/// been terminated exactly as often as it has been launched, whether the run
/// succeeded or failed.
pub proof fn lemma_one_termination_per_launch(backend: Backend, events: Seq<Event>)
    ensures
        occurrences(NodeState::initial(backend).issued(events), Action::Launch) <= 1,
        occurrences(NodeState::initial(backend).issued(events), Action::Terminate) <= occurrences(
            NodeState::initial(backend).issued(events),
            Action::Launch,
        ),
        !backend.is_cloud_spec() ==> occurrences(
            NodeState::initial(backend).issued(events),
            Action::Terminate,
        ) == 0,
        backend.is_cloud_spec() && NodeState::initial(backend).run(events).finished()
            ==> occurrences(NodeState::initial(backend).issued(events), Action::Terminate)
            == occurrences(NodeState::initial(backend).issued(events), Action::Launch),
{
    lemma_ledger(backend, events);
}

/// A failed launch on a cloud backend asks for termination first and
/// surfaces the launch error once that is done; on a static host it
/// surfaces the error at once.
pub proof fn lemma_launch_failure_cleans_up(s: NodeState)
    requires
        s.stage is Spawning,
    ensures
        s.backend.is_cloud_spec() ==> {
            &&& s.next(Event::LaunchFailed).action() == Action::Terminate
            &&& s.next(Event::LaunchFailed).outcome() is None
            &&& s.next(Event::LaunchFailed).next(Event::Terminated).outcome() == Some(
                Err::<(), RunError>(RunError::Launch),
            )
        },
        !s.backend.is_cloud_spec() ==> s.next(Event::LaunchFailed).outcome() == Some(
            Err::<(), RunError>(RunError::Launch),
        ),
{
}

/// A driver that exits with a non-zero status does not end the run: its
/// output is logged, its standard error is shown, and the result files are
/// collected all the same.
pub proof fn lemma_failed_experiment_still_collects(s: NodeState, success: bool)
    requires
        s.stage is RunningDriver,
    ensures
        s.next(Event::DriverExited { success }).action() == (Action::WriteLog {
            surface_stderr: !success,
        }),
        s.next(Event::DriverExited { success }).next(Event::LogWritten).action()
            == Action::Collect,
{
}

/// A failure to terminate is the error that the run surfaces, whatever led
/// to the termination.
pub proof fn lemma_termination_failure_surfaces(s: NodeState)
    requires
        s.stage is Terminating,
    ensures
        s.next(Event::TerminateFailed).outcome() == Some(
            Err::<(), RunError>(RunError::Terminate),
        ),
{
}

} // verus!
