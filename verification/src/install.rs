//! The retrying installer: a fixed sequence of idempotent setup commands,
//! retried as a whole, with a fixed delay, a bounded number of times.
//!
//! The machine decides; the caller runs each command on the remote host,
//! sleeps when told to, and reports what happened.

use vstd::prelude::*;

verus! {

/// Number of commands in one installation attempt.
pub const INSTALL_STEPS: usize = 3;

/// Failed attempts after which another attempt is still made. The attempt
/// after these is the last one.
pub const MAX_RETRIES: u64 = 15;

/// Pause between a failed attempt and the next one, in milliseconds.
pub const RETRY_DELAY_MS: u64 = 100;

/// How a setup command failed.
#[derive(Clone, Copy, Debug, PartialEq, Eq, Structural)]
pub enum StepFailure {
    /// The command could not be run or its status could not be read.
    Transport,
    /// The command ran and exited with a non-zero status.
    NonZeroExit,
}

/// The failure that ended an attempt: which command, and how.
#[derive(Clone, Copy, Debug, PartialEq, Eq, Structural)]
pub struct InstallError {
    pub step: usize,
    pub failure: StepFailure,
}

/// What the caller reports back.
#[derive(Clone, Copy, Debug, PartialEq, Eq, Structural)]
pub enum InstallEvent {
    StepSucceeded,
    StepFailed(StepFailure),
    DelayElapsed,
}

/// What the caller is to do next.
#[derive(Clone, Copy, Debug, PartialEq, Eq, Structural)]
pub enum InstallAction {
    /// Run the command with this index and report how it went.
    RunStep(usize),
    /// Sleep for this many milliseconds and report `DelayElapsed`.
    Wait(u64),
    /// All commands of one attempt succeeded.
    Done,
    /// The bound is exceeded; this is the last failure seen.
    GiveUp(InstallError),
}

#[derive(Clone, Copy, Debug, PartialEq, Eq, Structural)]
pub enum InstallPhase {
    /// The command with this index is outstanding.
    Running(usize),
    /// The delay before the next attempt is outstanding.
    Waiting,
    Succeeded,
    GaveUp(InstallError),
}

/// The installer as a mathematical value.
pub struct InstallState {
    /// Attempts that have failed so far.
    pub failures: nat,
    pub phase: InstallPhase,
}

impl InstallState {
    pub open spec fn initial() -> InstallState {
        InstallState { failures: 0, phase: InstallPhase::Running(0) }
    }

    pub open spec fn wf(self) -> bool {
        match self.phase {
            InstallPhase::Running(k) => k < INSTALL_STEPS && self.failures <= MAX_RETRIES,
            InstallPhase::Waiting => 1 <= self.failures <= MAX_RETRIES,
            InstallPhase::Succeeded => self.failures <= MAX_RETRIES,
            InstallPhase::GaveUp(e) => self.failures == MAX_RETRIES + 1 && e.step < INSTALL_STEPS,
        }
    }

    /// Neither an event nor time changes a finished installer.
    pub open spec fn finished(self) -> bool {
        self.phase is Succeeded || self.phase is GaveUp
    }

    /// The state after `event`. An event that does not answer the outstanding
    /// action changes nothing.
    pub open spec fn next(self, event: InstallEvent) -> InstallState {
        match (self.phase, event) {
            (InstallPhase::Running(k), InstallEvent::StepSucceeded) => {
                if k + 1 < INSTALL_STEPS {
                    InstallState { phase: InstallPhase::Running((k + 1) as usize), ..self }
                } else {
                    InstallState { phase: InstallPhase::Succeeded, ..self }
                }
            },
            (InstallPhase::Running(k), InstallEvent::StepFailed(failure)) => {
                if self.failures + 1 > MAX_RETRIES {
                    InstallState {
                        failures: self.failures + 1,
                        phase: InstallPhase::GaveUp(InstallError { step: k, failure }),
                    }
                } else {
                    InstallState { failures: self.failures + 1, phase: InstallPhase::Waiting }
                }
            },
            (InstallPhase::Waiting, InstallEvent::DelayElapsed) => {
                InstallState { phase: InstallPhase::Running(0), ..self }
            },
            _ => self,
        }
    }

    /// What the caller is to do in this state.
    pub open spec fn action(self) -> InstallAction {
        match self.phase {
            InstallPhase::Running(k) => InstallAction::RunStep(k),
            InstallPhase::Waiting => InstallAction::Wait(RETRY_DELAY_MS),
            InstallPhase::Succeeded => InstallAction::Done,
            InstallPhase::GaveUp(e) => InstallAction::GiveUp(e),
        }
    }

    /// How the installation ended, once it has.
    pub open spec fn outcome(self) -> Option<Result<(), InstallError>> {
        match self.phase {
            InstallPhase::Succeeded => Some(Ok(())),
            InstallPhase::GaveUp(e) => Some(Err(e)),
            _ => None,
        }
    }

    /// The state after a whole sequence of events, first to last.
    pub open spec fn run(self, events: Seq<InstallEvent>) -> InstallState
        decreases events.len(),
    {
        if events.len() == 0 {
            self
        } else {
            self.run(events.drop_last()).next(events.last())
        }
    }
}

/// The events of one attempt in which `error.step` commands succeed and the
/// next one fails.
pub open spec fn failed_attempt(error: InstallError) -> Seq<InstallEvent> {
    Seq::new(error.step as nat, |i: int| InstallEvent::StepSucceeded).push(
        InstallEvent::StepFailed(error.failure),
    )
}

/// The events of one attempt in which every command succeeds.
pub open spec fn clean_attempt() -> Seq<InstallEvent> {
    Seq::new(INSTALL_STEPS as nat, |i: int| InstallEvent::StepSucceeded)
}

/// The events of a run of failed attempts, each followed by its delay.
pub open spec fn failed_attempts(errors: Seq<InstallError>) -> Seq<InstallEvent>
    decreases errors.len(),
{
    if errors.len() == 0 {
        Seq::empty()
    } else {
        failed_attempts(errors.drop_last()) + failed_attempt(errors.last()).push(
            InstallEvent::DelayElapsed,
        )
    }
}

/// Every error names a command of the sequence.
pub open spec fn errors_in_range(errors: Seq<InstallError>) -> bool {
    forall|i: int| 0 <= i < errors.len() ==> (#[trigger] errors[i]).step < INSTALL_STEPS
}

/// The command text of each step.
pub open spec fn install_command_spec(step: usize) -> Option<Seq<char>> {
    if step == 0 {
        Some("sudo add-apt-repository -y ppa:redislabs/redis"@)
    } else if step == 1 {
        Some(
            "sudo apt update && sudo DEBIAN_FRONTEND=noninteractive apt install -y python3-pip redis && sudo /etc/init.d/redis-server stop"@,
        )
    } else if step == 2 {
        Some("sudo pip3 install agenda"@)
    } else {
        None
    }
}

/// The shell command of a step: repository registration, package
/// installation with service stop, language-runtime package. `None` past the
/// last step.
pub fn install_command(step: usize) -> (cmd: Option<&'static str>)
    ensures
        cmd is Some <==> step < INSTALL_STEPS,
        match cmd {
            Some(c) => install_command_spec(step) == Some(c@),
            None => install_command_spec(step) is None,
        },
{
    if step == 0 {
        Some("sudo add-apt-repository -y ppa:redislabs/redis")
    } else if step == 1 {
        Some(
            "sudo apt update && sudo DEBIAN_FRONTEND=noninteractive apt install -y python3-pip redis && sudo /etc/init.d/redis-server stop",
        )
    } else if step == 2 {
        Some("sudo pip3 install agenda")
    } else {
        None
    }
}

/// The retrying installer.
#[derive(Clone, Copy, Debug)]
pub struct Installer {
    failures: u64,
    phase: InstallPhase,
}

impl View for Installer {
    type V = InstallState;

    closed spec fn view(&self) -> InstallState {
        InstallState { failures: self.failures as nat, phase: self.phase }
    }
}

impl Installer {
    #[verifier::type_invariant]
    spec fn inv(self) -> bool {
        self@.wf()
    }

    /// An installer about to run the first command of its first attempt.
    pub fn new() -> (installer: Installer)
        ensures
            installer@ == InstallState::initial(),
    {
        Installer { failures: 0, phase: InstallPhase::Running(0) }
    }

    /// What the caller is to do now.
    pub fn action(&self) -> (action: InstallAction)
        ensures
            action == self@.action(),
            self@.wf(),
    {
        proof {
            use_type_invariant(self);
        }
        match self.phase {
            InstallPhase::Running(k) => InstallAction::RunStep(k),
            InstallPhase::Waiting => InstallAction::Wait(RETRY_DELAY_MS),
            InstallPhase::Succeeded => InstallAction::Done,
            InstallPhase::GaveUp(e) => InstallAction::GiveUp(e),
        }
    }

    /// Takes in what happened and says what to do next.
    pub fn handle(&mut self, event: InstallEvent) -> (action: InstallAction)
        ensures
            old(self)@.wf(),
            final(self)@ == old(self)@.next(event),
            final(self)@.wf(),
            action == final(self)@.action(),
    {
        proof {
            use_type_invariant(&*self);
        }
        let failures = self.failures;
        match (self.phase, event) {
            (InstallPhase::Running(k), InstallEvent::StepSucceeded) => {
                if k + 1 < INSTALL_STEPS {
                    *self = Installer { failures, phase: InstallPhase::Running(k + 1) };
                } else {
                    *self = Installer { failures, phase: InstallPhase::Succeeded };
                }
            },
            (InstallPhase::Running(k), InstallEvent::StepFailed(failure)) => {
                if failures + 1 > MAX_RETRIES {
                    *self = Installer {
                        failures: failures + 1,
                        phase: InstallPhase::GaveUp(InstallError { step: k, failure }),
                    };
                } else {
                    *self = Installer { failures: failures + 1, phase: InstallPhase::Waiting };
                }
            },
            (InstallPhase::Waiting, InstallEvent::DelayElapsed) => {
                *self = Installer { failures, phase: InstallPhase::Running(0) };
            },
            _ => {},
        }
        self.action()
    }

    /// How the installation ended; `None` while it is under way.
    pub fn outcome(&self) -> (r: Option<Result<(), InstallError>>)
        ensures
            r == self@.outcome(),
    {
        match self.phase {
            InstallPhase::Succeeded => Some(Ok(())),
            InstallPhase::GaveUp(e) => Some(Err(e)),
            _ => None,
        }
    }

    /// Feeds a whole sequence of events to a fresh installer.
    pub fn replay(events: &Vec<InstallEvent>) -> (installer: Installer)
        ensures
            installer@ == InstallState::initial().run(events@),
    {
        let mut installer = Installer::new();
        let mut i: usize = 0;
        assert(events@.take(0) =~= Seq::empty());
        while i < events.len()
            invariant
                i <= events@.len(),
                installer@ == InstallState::initial().run(events@.take(i as int)),
            decreases events@.len() - i,
        {
            proof {
                assert(events@.take(i + 1).drop_last() =~= events@.take(i as int));
            }
            installer.handle(events[i]);
            i += 1;
        }
        assert(events@.take(i as int) =~= events@);
        installer
    }

    /// Number of attempts that have failed so far.
    pub fn failures(&self) -> (n: u64)
        ensures
            n == self@.failures,
            n <= MAX_RETRIES + 1,
    {
        proof {
            use_type_invariant(self);
        }
        self.failures
    }
}

/// Running a sequence with one more event is one more step.
pub proof fn lemma_run_push(s: InstallState, events: Seq<InstallEvent>, event: InstallEvent)
    ensures
        s.run(events.push(event)) == s.run(events).next(event),
{
    assert(events.push(event).drop_last() =~= events);
}

/// Running two sequences in a row is running their concatenation.
pub proof fn lemma_run_concat(s: InstallState, a: Seq<InstallEvent>, b: Seq<InstallEvent>)
    ensures
        s.run(a + b) == s.run(a).run(b),
    decreases b.len(),
{
    if b.len() == 0 {
        assert(a + b =~= a);
    } else {
        lemma_run_concat(s, a, b.drop_last());
        assert((a + b).drop_last() =~= a + b.drop_last());
    }
}

/// Well-formedness survives every event.
pub proof fn lemma_next_preserves_wf(s: InstallState, event: InstallEvent)
    requires
        s.wf(),
    ensures
        s.next(event).wf(),
{
}

/// Well-formedness survives every sequence of events, so the number of failed
/// attempts never passes the bound by more than one.
pub proof fn lemma_run_preserves_wf(s: InstallState, events: Seq<InstallEvent>)
    requires
        s.wf(),
    ensures
        s.run(events).wf(),
        s.run(events).failures <= MAX_RETRIES + 1,
    decreases events.len(),
{
    if events.len() > 0 {
        lemma_run_preserves_wf(s, events.drop_last());
        lemma_next_preserves_wf(s.run(events.drop_last()), events.last());
    }
}

/// A finished installer stays as it is whatever is reported to it: it asks
/// for no further command and no further delay.
pub proof fn lemma_finished_is_final(s: InstallState, events: Seq<InstallEvent>)
    requires
        s.finished(),
    ensures
        s.run(events) == s,
    decreases events.len(),
{
    if events.len() > 0 {
        lemma_finished_is_final(s, events.drop_last());
    }
}

proof fn lemma_successes(s: InstallState, k: usize, m: nat)
    requires
        s.phase == InstallPhase::Running(k),
        k + m < INSTALL_STEPS,
    ensures
        s.run(Seq::new(m, |i: int| InstallEvent::StepSucceeded)) == (InstallState {
            phase: InstallPhase::Running((k + m) as usize),
            ..s
        }),
    decreases m,
{
    let all = Seq::new(m, |i: int| InstallEvent::StepSucceeded);
    if m > 0 {
        lemma_successes(s, k, (m - 1) as nat);
        assert(all.drop_last() =~= Seq::new((m - 1) as nat, |i: int| InstallEvent::StepSucceeded));
    }
}

/// A failed attempt from the start of the sequence counts one failure: the
/// installer waits if the bound allows another attempt and gives up with this
/// attempt's error if not.
pub proof fn lemma_failed_attempt(s: InstallState, error: InstallError)
    requires
        s.phase == InstallPhase::Running(0),
        error.step < INSTALL_STEPS,
    ensures
        s.run(failed_attempt(error)) == (InstallState {
            failures: s.failures + 1,
            phase: if s.failures + 1 > MAX_RETRIES {
                InstallPhase::GaveUp(error)
            } else {
                InstallPhase::Waiting
            },
        }),
{
    let oks = Seq::new(error.step as nat, |i: int| InstallEvent::StepSucceeded);
    lemma_successes(s, 0, error.step as nat);
    lemma_run_push(s, oks, InstallEvent::StepFailed(error.failure));
}

/// A clean attempt from the start of the sequence succeeds.
pub proof fn lemma_clean_attempt(s: InstallState)
    requires
        s.phase == InstallPhase::Running(0),
    ensures
        s.run(clean_attempt()) == (InstallState { phase: InstallPhase::Succeeded, ..s }),
{
    let two = Seq::new(2, |i: int| InstallEvent::StepSucceeded);
    lemma_successes(s, 0, 2);
    lemma_run_push(s, two, InstallEvent::StepSucceeded);
    assert(two.push(InstallEvent::StepSucceeded) =~= clean_attempt());
}

/// After no more failed attempts than the bound allows, each followed by its
/// delay, the installer stands at the start of a fresh attempt.
pub proof fn lemma_failed_attempts(errors: Seq<InstallError>)
    requires
        errors.len() <= MAX_RETRIES,
        errors_in_range(errors),
    ensures
        InstallState::initial().run(failed_attempts(errors)) == (InstallState {
            failures: errors.len(),
            phase: InstallPhase::Running(0),
        }),
    decreases errors.len(),
{
    if errors.len() > 0 {
        let init = InstallState::initial();
        let before = errors.drop_last();
        assert(errors_in_range(before));
        lemma_failed_attempts(before);
        let mid = init.run(failed_attempts(before));
        lemma_failed_attempt(mid, errors.last());
        lemma_run_push(mid, failed_attempt(errors.last()), InstallEvent::DelayElapsed);
        lemma_run_concat(
            init,
            failed_attempts(before),
            failed_attempt(errors.last()).push(InstallEvent::DelayElapsed),
        );
    }
}

/// Up to `MAX_RETRIES` failed attempts followed by a clean one end in
/// success, whichever commands failed and however they failed.
pub proof fn lemma_succeeds_within_bound(errors: Seq<InstallError>)
    requires
        errors.len() <= MAX_RETRIES,
        errors_in_range(errors),
    ensures
        InstallState::initial().run(failed_attempts(errors) + clean_attempt()).outcome() == Some(
            Ok::<(), InstallError>(()),
        ),
{
    let init = InstallState::initial();
    lemma_failed_attempts(errors);
    lemma_clean_attempt(init.run(failed_attempts(errors)));
    lemma_run_concat(init, failed_attempts(errors), clean_attempt());
}

/// When the attempt after `MAX_RETRIES` failed ones fails too, the installer
/// gives up with that attempt's error, and nothing reported afterwards makes
/// it run a command again.
pub proof fn lemma_gives_up_past_bound(
    errors: Seq<InstallError>,
    last: InstallError,
    later: Seq<InstallEvent>,
)
    requires
        errors.len() == MAX_RETRIES,
        errors_in_range(errors),
        last.step < INSTALL_STEPS,
    ensures
        InstallState::initial().run(failed_attempts(errors) + failed_attempt(last) + later)
            == (InstallState {
            failures: (MAX_RETRIES + 1) as nat,
            phase: InstallPhase::GaveUp(last),
        }),
        InstallState::initial().run(
            failed_attempts(errors) + failed_attempt(last) + later,
        ).outcome() == Some(Err::<(), InstallError>(last)),
{
    let init = InstallState::initial();
    lemma_failed_attempts(errors);
    let fresh = init.run(failed_attempts(errors));
    lemma_failed_attempt(fresh, last);
    lemma_run_concat(init, failed_attempts(errors), failed_attempt(last));
    let end = init.run(failed_attempts(errors) + failed_attempt(last));
    lemma_finished_is_final(end, later);
    lemma_run_concat(init, failed_attempts(errors) + failed_attempt(last), later);
}

} // verus!
