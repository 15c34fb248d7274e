//! The setup hook: what is done once on a machine that has become reachable,
//! before it is handed to the experiment.
//!
//! Dependencies are installed with retries; then the benchmark binary is
//! copied and made executable, and the driver script is copied. The first
//! failure of a copy or of the permission command ends the hook.

use vstd::prelude::*;
use crate::install::{
    errors_in_range, failed_attempt, failed_attempts, lemma_finished_is_final,
    lemma_gives_up_past_bound, InstallAction, InstallError, InstallEvent, InstallPhase,
    InstallState, Installer, StepFailure, INSTALL_STEPS, MAX_RETRIES,
};

verus! {

/// Why the setup hook failed.
#[derive(Clone, Copy, Debug, PartialEq, Eq, Structural)]
pub enum SetupError {
    /// The installer gave up; this is its last failure.
    Install(InstallError),
    CopyBench,
    /// The permission command failed.
    MarkExecutable(StepFailure),
    CopyScript,
}

#[derive(Clone, Copy, Debug, PartialEq, Eq, Structural)]
pub enum SetupPhase {
    Installing,
    CopyingBench,
    MarkingExecutable,
    CopyingScript,
    Ready,
    Failed(SetupError),
}

/// What the caller reports back.
#[derive(Clone, Copy, Debug, PartialEq, Eq, Structural)]
pub enum SetupEvent {
    /// The shell command that was asked for exited with status zero.
    CommandSucceeded,
    CommandFailed(StepFailure),
    DelayElapsed,
    CopySucceeded,
    CopyFailed,
}

/// What the caller is to do next.
#[derive(Clone, Copy, Debug, PartialEq, Eq, Structural)]
pub enum SetupAction {
    /// Run the installer's command with this index.
    RunInstallStep(usize),
    /// Sleep for this many milliseconds.
    Wait(u64),
    /// Copy the benchmark binary to its remote name.
    CopyBench,
    /// Run the command that makes the benchmark binary executable.
    MarkExecutable,
    /// Copy the driver script to its remote name.
    CopyScript,
    Done,
    Fail(SetupError),
}

/// The setup hook as a mathematical value.
pub struct SetupState {
    pub install: InstallState,
    pub phase: SetupPhase,
}

/// The installer's reading of a setup event, if it has one.
pub open spec fn install_event(event: SetupEvent) -> Option<InstallEvent> {
    match event {
        SetupEvent::CommandSucceeded => Some(InstallEvent::StepSucceeded),
        SetupEvent::CommandFailed(f) => Some(InstallEvent::StepFailed(f)),
        SetupEvent::DelayElapsed => Some(InstallEvent::DelayElapsed),
        _ => None,
    }
}

impl SetupState {
    pub open spec fn initial() -> SetupState {
        SetupState { install: InstallState::initial(), phase: SetupPhase::Installing }
    }

    pub open spec fn wf(self) -> bool {
        &&& self.install.wf()
        &&& match self.phase {
            SetupPhase::Installing => !self.install.finished(),
            SetupPhase::Failed(SetupError::Install(e)) => self.install.phase
                == InstallPhase::GaveUp(e),
            _ => self.install.phase is Succeeded,
        }
    }

    pub open spec fn finished(self) -> bool {
        self.phase is Ready || self.phase is Failed
    }

    /// The phase that follows the installer's state.
    pub open spec fn phase_after_install(install: InstallState) -> SetupPhase {
        match install.outcome() {
            None => SetupPhase::Installing,
            Some(Ok(())) => SetupPhase::CopyingBench,
            Some(Err(e)) => SetupPhase::Failed(SetupError::Install(e)),
        }
    }

    /// The state after `event`. An event that does not answer the outstanding
    /// action changes nothing.
    pub open spec fn next(self, event: SetupEvent) -> SetupState {
        match (self.phase, event) {
            (SetupPhase::Installing, _) => match install_event(event) {
                Some(e) => SetupState {
                    install: self.install.next(e),
                    phase: Self::phase_after_install(self.install.next(e)),
                },
                None => self,
            },
            (SetupPhase::CopyingBench, SetupEvent::CopySucceeded) => SetupState {
                phase: SetupPhase::MarkingExecutable,
                ..self
            },
            (SetupPhase::CopyingBench, SetupEvent::CopyFailed) => SetupState {
                phase: SetupPhase::Failed(SetupError::CopyBench),
                ..self
            },
            (SetupPhase::MarkingExecutable, SetupEvent::CommandSucceeded) => SetupState {
                phase: SetupPhase::CopyingScript,
                ..self
            },
            (SetupPhase::MarkingExecutable, SetupEvent::CommandFailed(f)) => SetupState {
                phase: SetupPhase::Failed(SetupError::MarkExecutable(f)),
                ..self
            },
            (SetupPhase::CopyingScript, SetupEvent::CopySucceeded) => SetupState {
                phase: SetupPhase::Ready,
                ..self
            },
            (SetupPhase::CopyingScript, SetupEvent::CopyFailed) => SetupState {
                phase: SetupPhase::Failed(SetupError::CopyScript),
                ..self
            },
            _ => self,
        }
    }

    /// What the caller is to do in this state.
    pub open spec fn action(self) -> SetupAction {
        match self.phase {
            SetupPhase::Installing => match self.install.action() {
                InstallAction::RunStep(k) => SetupAction::RunInstallStep(k),
                InstallAction::Wait(ms) => SetupAction::Wait(ms),
                InstallAction::Done => SetupAction::CopyBench,
                InstallAction::GiveUp(e) => SetupAction::Fail(SetupError::Install(e)),
            },
            SetupPhase::CopyingBench => SetupAction::CopyBench,
            SetupPhase::MarkingExecutable => SetupAction::MarkExecutable,
            SetupPhase::CopyingScript => SetupAction::CopyScript,
            SetupPhase::Ready => SetupAction::Done,
            SetupPhase::Failed(e) => SetupAction::Fail(e),
        }
    }

    /// How the hook ended, once it has.
    pub open spec fn outcome(self) -> Option<Result<(), SetupError>> {
        match self.phase {
            SetupPhase::Ready => Some(Ok(())),
            SetupPhase::Failed(e) => Some(Err(e)),
            _ => None,
        }
    }

    /// The state after a sequence of events, first to last.
    pub open spec fn run(self, events: Seq<SetupEvent>) -> SetupState
        decreases events.len(),
    {
        if events.len() == 0 {
            self
        } else {
            self.run(events.drop_last()).next(events.last())
        }
    }
}

/// The setup hook.
#[derive(Clone, Copy, Debug)]
pub struct SetupHook {
    installer: Installer,
    phase: SetupPhase,
}

impl View for SetupHook {
    type V = SetupState;

    closed spec fn view(&self) -> SetupState {
        SetupState { install: self.installer@, phase: self.phase }
    }
}

impl SetupHook {
    #[verifier::type_invariant]
    spec fn inv(self) -> bool {
        self@.wf()
    }

    /// A hook about to run the installer's first command.
    pub fn new() -> (hook: SetupHook)
        ensures
            hook@ == SetupState::initial(),
    {
        SetupHook { installer: Installer::new(), phase: SetupPhase::Installing }
    }

    /// What the caller is to do now.
    pub fn action(&self) -> (action: SetupAction)
        ensures
            action == self@.action(),
            self@.wf(),
    {
        proof {
            use_type_invariant(self);
        }
        match self.phase {
            SetupPhase::Installing => match self.installer.action() {
                InstallAction::RunStep(k) => SetupAction::RunInstallStep(k),
                InstallAction::Wait(ms) => SetupAction::Wait(ms),
                InstallAction::Done => SetupAction::CopyBench,
                InstallAction::GiveUp(e) => SetupAction::Fail(SetupError::Install(e)),
            },
            SetupPhase::CopyingBench => SetupAction::CopyBench,
            SetupPhase::MarkingExecutable => SetupAction::MarkExecutable,
            SetupPhase::CopyingScript => SetupAction::CopyScript,
            SetupPhase::Ready => SetupAction::Done,
            SetupPhase::Failed(e) => SetupAction::Fail(e),
        }
    }

    /// Takes in what happened and says what to do next.
    pub fn handle(&mut self, event: SetupEvent) -> (action: SetupAction)
        ensures
            old(self)@.wf(),
            final(self)@ == old(self)@.next(event),
            final(self)@.wf(),
            action == final(self)@.action(),
    {
        proof {
            use_type_invariant(&*self);
        }
        let mut installer = self.installer;
        match (self.phase, event) {
            (SetupPhase::Installing, _) => {
                let lifted = match event {
                    SetupEvent::CommandSucceeded => Some(InstallEvent::StepSucceeded),
                    SetupEvent::CommandFailed(f) => Some(InstallEvent::StepFailed(f)),
                    SetupEvent::DelayElapsed => Some(InstallEvent::DelayElapsed),
                    _ => None,
                };
                if let Some(e) = lifted {
                    installer.handle(e);
                    let phase = match installer.outcome() {
                        None => SetupPhase::Installing,
                        Some(Ok(())) => SetupPhase::CopyingBench,
                        Some(Err(err)) => SetupPhase::Failed(SetupError::Install(err)),
                    };
                    *self = SetupHook { installer, phase };
                }
            },
            (SetupPhase::CopyingBench, SetupEvent::CopySucceeded) => {
                *self = SetupHook { installer, phase: SetupPhase::MarkingExecutable };
            },
            (SetupPhase::CopyingBench, SetupEvent::CopyFailed) => {
                *self = SetupHook { installer, phase: SetupPhase::Failed(SetupError::CopyBench) };
            },
            (SetupPhase::MarkingExecutable, SetupEvent::CommandSucceeded) => {
                *self = SetupHook { installer, phase: SetupPhase::CopyingScript };
            },
            (SetupPhase::MarkingExecutable, SetupEvent::CommandFailed(f)) => {
                *self = SetupHook {
                    installer,
                    phase: SetupPhase::Failed(SetupError::MarkExecutable(f)),
                };
            },
            (SetupPhase::CopyingScript, SetupEvent::CopySucceeded) => {
                *self = SetupHook { installer, phase: SetupPhase::Ready };
            },
            (SetupPhase::CopyingScript, SetupEvent::CopyFailed) => {
                *self = SetupHook { installer, phase: SetupPhase::Failed(SetupError::CopyScript) };
            },
            _ => {},
        }
        self.action()
    }

    /// Feeds a whole sequence of events to a fresh hook.
    pub fn replay(events: &Vec<SetupEvent>) -> (hook: SetupHook)
        ensures
            hook@ == SetupState::initial().run(events@),
    {
        let mut hook = SetupHook::new();
        let mut i: usize = 0;
        assert(events@.take(0) =~= Seq::empty());
        while i < events.len()
            invariant
                i <= events@.len(),
                hook@ == SetupState::initial().run(events@.take(i as int)),
            decreases events@.len() - i,
        {
            proof {
                assert(events@.take(i + 1).drop_last() =~= events@.take(i as int));
            }
            hook.handle(events[i]);
            i += 1;
        }
        assert(events@.take(i as int) =~= events@);
        hook
    }

    /// How the hook ended; `None` while it is under way.
    pub fn outcome(&self) -> (r: Option<Result<(), SetupError>>)
        ensures
            r == self@.outcome(),
    {
        match self.phase {
            SetupPhase::Ready => Some(Ok(())),
            SetupPhase::Failed(e) => Some(Err(e)),
            _ => None,
        }
    }
}

/// Well-formedness survives every event.
pub proof fn lemma_setup_next_preserves_wf(s: SetupState, event: SetupEvent)
    requires
        s.wf(),
    ensures
        s.next(event).wf(),
{
}

/// A finished hook stays as it is whatever is reported to it.
pub proof fn lemma_setup_finished_is_final(s: SetupState, events: Seq<SetupEvent>)
    requires
        s.finished(),
    ensures
        s.run(events) == s,
    decreases events.len(),
{
    if events.len() > 0 {
        lemma_setup_finished_is_final(s, events.drop_last());
    }
}

/// The hook is ready only after the installer has succeeded, and it fails
/// with the installer's error exactly when the installer gave up with it.
pub proof fn lemma_setup_follows_installer(events: Seq<SetupEvent>)
    ensures
        SetupState::initial().run(events).wf(),
        SetupState::initial().run(events).phase is Ready ==> SetupState::initial().run(
            events,
        ).install.outcome() == Some(Ok::<(), InstallError>(())),
        forall|e: InstallError|
            SetupState::initial().run(events).phase == SetupPhase::Failed(SetupError::Install(e))
                <==> SetupState::initial().run(events).install.outcome() == Some(
                Err::<(), InstallError>(e),
            ),
    decreases events.len(),
{
    if events.len() > 0 {
        lemma_setup_follows_installer(events.drop_last());
        lemma_setup_next_preserves_wf(
            SetupState::initial().run(events.drop_last()),
            events.last(),
        );
    }
}

/// The setup event that reports an installer event.
pub open spec fn setup_event(event: InstallEvent) -> SetupEvent {
    match event {
        InstallEvent::StepSucceeded => SetupEvent::CommandSucceeded,
        InstallEvent::StepFailed(f) => SetupEvent::CommandFailed(f),
        InstallEvent::DelayElapsed => SetupEvent::DelayElapsed,
    }
}

/// The setup events that report a sequence of installer events.
pub open spec fn setup_events(events: Seq<InstallEvent>) -> Seq<SetupEvent> {
    events.map_values(|e: InstallEvent| setup_event(e))
}

/// The installer inside the hook is where an installer on its own would be
/// after the same reports.
pub proof fn lemma_setup_tracks_installer(events: Seq<InstallEvent>)
    ensures
        SetupState::initial().run(setup_events(events)).install == InstallState::initial().run(
            events,
        ),
    decreases events.len(),
{
    if events.len() > 0 {
        let before = events.drop_last();
        lemma_setup_tracks_installer(before);
        lemma_setup_follows_installer(setup_events(before));
        assert(setup_events(events).drop_last() =~= setup_events(before));
        assert(setup_events(events).last() == setup_event(events.last()));
        let alone = InstallState::initial().run(before);
        if alone.finished() {
            lemma_finished_is_final(alone, seq![events.last()]);
            assert(seq![events.last()].drop_last() =~= Seq::<InstallEvent>::empty());
        }
    }
}

/// When the installer's attempts fail once more than the bound allows, the
/// hook fails, and the error says which command failed last and how.
pub proof fn lemma_setup_fails_when_installer_gives_up(
    errors: Seq<InstallError>,
    last: InstallError,
)
    requires
        errors.len() == MAX_RETRIES,
        errors_in_range(errors),
        last.step < INSTALL_STEPS,
    ensures
        SetupState::initial().run(
            setup_events(failed_attempts(errors) + failed_attempt(last)),
        ).outcome() == Some(Err::<(), SetupError>(SetupError::Install(last))),
{
    let events = failed_attempts(errors) + failed_attempt(last);
    lemma_gives_up_past_bound(errors, last, Seq::empty());
    assert(events + Seq::<InstallEvent>::empty() =~= events);
    lemma_setup_tracks_installer(events);
    lemma_setup_follows_installer(setup_events(events));
}

} // verus!
