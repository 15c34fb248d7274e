use nodebench::node::{Backend, ConfigError, Node};
use nodebench::orchestrator::{count_actions, Action, Event, Orchestrator, Phase, RunError, Stage};

const HAPPY: [Event; 7] = [
    Event::DescriptorAccepted,
    Event::Launched,
    Event::SessionOpened,
    Event::DriverExited { success: true },
    Event::LogWritten,
    Event::Collected,
    Event::OperatorContinued,
];

fn all_events() -> Vec<Event> {
    vec![
        Event::DescriptorAccepted,
        Event::DescriptorRejected(ConfigError::EmptyAddress),
        Event::ImageResolved,
        Event::ImageLookupFailed,
        Event::Launched,
        Event::LaunchFailed,
        Event::SessionOpened,
        Event::SessionFailed,
        Event::DriverExited { success: true },
        Event::DriverExited { success: false },
        Event::DriverUnreachable,
        Event::LogWritten,
        Event::LogWriteFailed,
        Event::Collected,
        Event::CollectFailed,
        Event::OperatorContinued,
        Event::Terminated,
        Event::TerminateFailed,
    ]
}

#[test]
fn phases_of_the_stages() {
    assert_eq!(Stage::Created.phase(), Phase::Pending);
    assert_eq!(Stage::AwaitingImage.phase(), Phase::Pending);
    assert_eq!(Stage::Spawning.phase(), Phase::Launching);
    assert_eq!(Stage::Connecting.phase(), Phase::Connected);
    assert_eq!(Stage::RunningDriver.phase(), Phase::Running);
    assert_eq!(Stage::WritingLog { driver_ok: false }.phase(), Phase::Running);
    assert_eq!(Stage::CollectingFiles.phase(), Phase::Collecting);
    assert_eq!(Stage::Paused.phase(), Phase::Collecting);
    assert_eq!(Stage::Terminating(None).phase(), Phase::Terminating);
    assert_eq!(Stage::Done.phase(), Phase::Done);
    assert_eq!(Stage::Failed(RunError::Launch).phase(), Phase::Failed);
}

#[test]
fn fresh_orchestrator_is_pending() {
    let o = Orchestrator::new(Backend::Azure);
    assert_eq!(o.backend(), Backend::Azure);
    assert_eq!(o.stage(), Stage::Created);
    assert_eq!(o.phase(), Phase::Pending);
    assert_eq!(o.action(), Action::Validate);
    assert_eq!(o.outcome(), None);
}

#[test]
fn orchestrator_for_a_node_has_its_backend() {
    let node = Node::Baremetal { ip: "10.0.0.9".to_string(), user: "me".to_string() };
    let o = Orchestrator::for_node(&node);
    assert_eq!(o.backend(), Backend::Baremetal);
    assert_eq!(o.stage(), Stage::Created);
}

#[test]
fn azure_node_walks_through_every_phase() {
    let mut o = Orchestrator::new(Backend::Azure);
    assert_eq!(o.handle(Event::DescriptorAccepted), Action::Launch);
    assert_eq!(o.phase(), Phase::Launching);
    assert_eq!(o.handle(Event::Launched), Action::Connect);
    assert_eq!(o.phase(), Phase::Connected);
    assert_eq!(o.handle(Event::SessionOpened), Action::RunDriver);
    assert_eq!(o.phase(), Phase::Running);
    assert_eq!(
        o.handle(Event::DriverExited { success: true }),
        Action::WriteLog { surface_stderr: false }
    );
    assert_eq!(o.phase(), Phase::Running);
    assert_eq!(o.handle(Event::LogWritten), Action::Collect);
    assert_eq!(o.phase(), Phase::Collecting);
    assert_eq!(o.handle(Event::Collected), Action::Pause);
    assert_eq!(o.phase(), Phase::Collecting);
    assert_eq!(o.handle(Event::OperatorContinued), Action::Terminate);
    assert_eq!(o.phase(), Phase::Terminating);
    assert_eq!(o.handle(Event::Terminated), Action::Finish);
    assert_eq!(o.phase(), Phase::Done);
    assert_eq!(o.outcome(), Some(Ok(())));
}

#[test]
fn aws_node_resolves_its_image_first() {
    let mut o = Orchestrator::new(Backend::Aws);
    assert_eq!(o.handle(Event::DescriptorAccepted), Action::ResolveImage);
    assert_eq!(o.phase(), Phase::Pending);
    assert_eq!(o.handle(Event::ImageResolved), Action::Launch);
    assert_eq!(o.phase(), Phase::Launching);
}

#[test]
fn failed_image_lookup_spends_nothing() {
    let events = vec![Event::DescriptorAccepted, Event::ImageLookupFailed];
    let (o, asked) = Orchestrator::replay(Backend::Aws, &events);
    assert_eq!(o.outcome(), Some(Err(RunError::ImageLookup)));
    assert_eq!(count_actions(&asked, Action::Launch), 0);
    assert_eq!(count_actions(&asked, Action::Terminate), 0);
}

#[test]
fn static_host_skips_termination() {
    let mut o = Orchestrator::new(Backend::Baremetal);
    for event in &HAPPY[..6] {
        o.handle(*event);
    }
    assert_eq!(o.handle(Event::OperatorContinued), Action::Finish);
    assert_eq!(o.phase(), Phase::Done);
}

#[test]
fn rejected_descriptor_fails_before_anything_is_launched() {
    let mut o = Orchestrator::new(Backend::Azure);
    let action = o.handle(Event::DescriptorRejected(ConfigError::UnknownAzureRegion));
    let error = RunError::Config(ConfigError::UnknownAzureRegion);
    assert_eq!(action, Action::Fail(error));
    assert_eq!(o.phase(), Phase::Failed);
    assert_eq!(o.outcome(), Some(Err(error)));
}

#[test]
fn begin_validates_the_descriptor() {
    let node = Node::Azure { region: "westus2".to_string() };
    let mut o = Orchestrator::new(node.backend());
    assert_eq!(o.begin(&node), Action::Launch);

    let node = Node::Aws { region: "us-east-1".to_string() };
    let mut o = Orchestrator::new(node.backend());
    assert_eq!(o.begin(&node), Action::ResolveImage);

    let node = Node::Aws { region: "atlantis".to_string() };
    let mut o = Orchestrator::new(node.backend());
    assert_eq!(o.begin(&node), Action::Fail(RunError::Config(ConfigError::UnknownAwsRegion)));

    let node = Node::Baremetal { ip: String::new(), user: "me".to_string() };
    let mut o = Orchestrator::new(node.backend());
    assert_eq!(o.begin(&node), Action::Fail(RunError::Config(ConfigError::EmptyAddress)));
}

#[test]
fn cloud_launch_failure_terminates_before_it_fails() {
    let mut o = Orchestrator::new(Backend::Azure);
    o.handle(Event::DescriptorAccepted);
    assert_eq!(o.handle(Event::LaunchFailed), Action::Terminate);
    assert_eq!(o.stage(), Stage::Terminating(Some(RunError::Launch)));
    assert_eq!(o.outcome(), None);
    assert_eq!(o.handle(Event::Terminated), Action::Fail(RunError::Launch));
}

#[test]
fn static_launch_failure_fails_at_once() {
    let mut o = Orchestrator::new(Backend::Baremetal);
    o.handle(Event::DescriptorAccepted);
    assert_eq!(o.handle(Event::LaunchFailed), Action::Fail(RunError::Launch));
}

#[test]
fn failed_termination_is_the_error_surfaced() {
    let mut o = Orchestrator::new(Backend::Aws);
    o.handle(Event::DescriptorAccepted);
    o.handle(Event::ImageResolved);
    o.handle(Event::LaunchFailed);
    assert_eq!(o.handle(Event::TerminateFailed), Action::Fail(RunError::Terminate));

    let mut events = vec![Event::DescriptorAccepted, Event::ImageResolved];
    events.extend_from_slice(&HAPPY[1..]);
    events.push(Event::TerminateFailed);
    let (o, _) = Orchestrator::replay(Backend::Aws, &events);
    assert_eq!(o.outcome(), Some(Err(RunError::Terminate)));
}

#[test]
fn non_zero_driver_exit_is_not_fatal() {
    let mut o = Orchestrator::new(Backend::Azure);
    o.handle(Event::DescriptorAccepted);
    o.handle(Event::Launched);
    o.handle(Event::SessionOpened);
    assert_eq!(
        o.handle(Event::DriverExited { success: false }),
        Action::WriteLog { surface_stderr: true }
    );
    assert_eq!(o.handle(Event::LogWritten), Action::Collect);
    o.handle(Event::Collected);
    o.handle(Event::OperatorContinued);
    assert_eq!(o.handle(Event::Terminated), Action::Finish);
}

#[test]
fn each_failure_after_launch_has_its_error() {
    let cases = [
        (1, Event::LaunchFailed, RunError::Launch),
        (2, Event::SessionFailed, RunError::Connect),
        (3, Event::DriverUnreachable, RunError::Driver),
        (4, Event::LogWriteFailed, RunError::LogWrite),
        (5, Event::CollectFailed, RunError::Collect),
    ];
    for (done, failure, error) in cases {
        let mut events = HAPPY[..done].to_vec();
        events.push(failure);
        let (o, asked) = Orchestrator::replay(Backend::Baremetal, &events);
        assert_eq!(o.outcome(), Some(Err(error)));
        assert_eq!(count_actions(&asked, Action::Terminate), 0);

        events.push(Event::Terminated);
        let (o, asked) = Orchestrator::replay(Backend::Azure, &events);
        assert_eq!(o.outcome(), Some(Err(error)));
        assert_eq!(count_actions(&asked, Action::Launch), 1);
        assert_eq!(count_actions(&asked, Action::Terminate), 1);
    }
}

#[test]
fn stray_events_are_ignored() {
    let mut o = Orchestrator::new(Backend::Azure);
    assert_eq!(o.handle(Event::Terminated), Action::Validate);
    assert_eq!(o.handle(Event::Launched), Action::Validate);
    o.handle(Event::DescriptorAccepted);
    assert_eq!(o.handle(Event::ImageResolved), Action::Launch);
    assert_eq!(o.handle(Event::Collected), Action::Launch);
    assert_eq!(o.stage(), Stage::Spawning);
}

#[test]
fn finished_run_stays_finished() {
    let mut o = Orchestrator::new(Backend::Baremetal);
    for event in HAPPY {
        o.handle(event);
    }
    for event in all_events() {
        assert_eq!(o.handle(event), Action::Finish);
    }
}

#[test]
fn replay_keeps_the_actions_asked_for() {
    let (o, asked) = Orchestrator::replay(Backend::Baremetal, &HAPPY.to_vec());
    assert_eq!(o.outcome(), Some(Ok(())));
    assert_eq!(
        asked,
        vec![
            Action::Validate,
            Action::Launch,
            Action::Connect,
            Action::RunDriver,
            Action::WriteLog { surface_stderr: false },
            Action::Collect,
            Action::Pause,
            Action::Finish,
        ]
    );
}

#[test]
fn one_termination_per_launch_on_every_short_event_sequence() {
    let events = all_events();
    let n = events.len();
    for backend in [Backend::Aws, Backend::Azure, Backend::Baremetal] {
        let mut index = vec![0usize; 4];
        loop {
            let mut seq = vec![Event::DescriptorAccepted, Event::ImageResolved];
            seq.extend(index.iter().map(|i| events[*i]));
            let (o, asked) = Orchestrator::replay(backend, &seq);
            let launches = count_actions(&asked, Action::Launch);
            let terminations = count_actions(&asked, Action::Terminate);
            assert!(launches <= 1);
            assert!(terminations <= launches);
            if !backend.is_cloud() {
                assert_eq!(terminations, 0);
            } else if o.outcome().is_some() {
                assert_eq!(terminations, launches);
            }
            let mut k = 0;
            while k < index.len() {
                index[k] += 1;
                if index[k] < n {
                    break;
                }
                index[k] = 0;
                k += 1;
            }
            if k == index.len() {
                break;
            }
        }
    }
}

#[test]
fn run_error_messages() {
    assert_eq!(RunError::Config(ConfigError::EmptyAddress).message(), "empty host address");
    assert_eq!(RunError::ImageLookup.message(), "machine image lookup failed");
    assert_eq!(RunError::Launch.message(), "launch failed");
    assert_eq!(RunError::Connect.message(), "no session to the launched machine");
    assert_eq!(RunError::Driver.message(), "experiment driver could not be run");
    assert_eq!(RunError::LogWrite.message(), "log could not be written");
    assert_eq!(RunError::Collect.message(), "result file could not be copied");
    assert_eq!(RunError::Terminate.message(), "termination failed");
}
