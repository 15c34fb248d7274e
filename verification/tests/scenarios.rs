use std::collections::{BTreeMap, BTreeSet};

use nodebench::batch::{exit_code, preflight, Batch, BatchError, PreflightError};
use nodebench::collect::{CollectedSummary, Collector, FetchOutcome};
use nodebench::grid::ExperimentGrid;
use nodebench::install::{install_command, InstallError, StepFailure};
use nodebench::node::Node;
use nodebench::orchestrator::{Action, Event, Orchestrator, RunError};
use nodebench::runner::{chmod_command, driver_args, driver_program, log_file_name, Artifacts};
use nodebench::setup::{SetupAction, SetupError, SetupEvent, SetupHook};

/// What the remote side does for one node.
struct Remote {
    image_found: bool,
    launch_accepted: bool,
    /// Installation attempts that fail at their first command.
    failing_attempts: usize,
    driver_exits_zero: bool,
    result_files: BTreeSet<String>,
    terminate_works: bool,
}

impl Remote {
    fn healthy() -> Remote {
        Remote {
            image_found: true,
            launch_accepted: true,
            failing_attempts: 0,
            driver_exits_zero: true,
            result_files: BTreeSet::new(),
            terminate_works: true,
        }
    }
}

/// What the operator's machine sees.
struct Local {
    launches: usize,
    terminations: usize,
    sleeps: usize,
    commands: Vec<String>,
    uploads: Vec<(String, String)>,
    files: BTreeMap<String, String>,
    summaries: Vec<CollectedSummary>,
    setup_errors: Vec<SetupError>,
}

impl Local {
    fn new() -> Local {
        Local {
            launches: 0,
            terminations: 0,
            sleeps: 0,
            commands: Vec::new(),
            uploads: Vec::new(),
            files: BTreeMap::new(),
            summaries: Vec::new(),
            setup_errors: Vec::new(),
        }
    }
}

fn run_setup(remote: &Remote, artifacts: &Artifacts, local: &mut Local) -> Result<(), SetupError> {
    let mut hook = SetupHook::new();
    let mut failing_left = remote.failing_attempts;
    let mut action = hook.action();
    loop {
        let event = match action {
            SetupAction::RunInstallStep(step) => {
                local.commands.push(install_command(step).unwrap().to_string());
                if step == 0 && failing_left > 0 {
                    failing_left -= 1;
                    SetupEvent::CommandFailed(StepFailure::NonZeroExit)
                } else {
                    SetupEvent::CommandSucceeded
                }
            }
            SetupAction::Wait(ms) => {
                assert_eq!(ms, 100);
                local.sleeps += 1;
                SetupEvent::DelayElapsed
            }
            SetupAction::CopyBench => {
                local.uploads.push((artifacts.bench_local.clone(), artifacts.bench_remote.clone()));
                SetupEvent::CopySucceeded
            }
            SetupAction::MarkExecutable => {
                local.commands.push(chmod_command(&artifacts.bench_remote));
                SetupEvent::CommandSucceeded
            }
            SetupAction::CopyScript => {
                local.uploads.push((artifacts.script_local.clone(), artifacts.script_remote.clone()));
                SetupEvent::CopySucceeded
            }
            SetupAction::Done => return Ok(()),
            SetupAction::Fail(error) => return Err(error),
        };
        action = hook.handle(event);
    }
}

fn run_node(node: &Node, remote: &Remote, artifacts: &Artifacts, local: &mut Local) -> Result<(), RunError> {
    let tag = node.backend().tag();
    let mut o = Orchestrator::for_node(node);
    let mut action = o.action();
    loop {
        let event = match action {
            Action::Validate => {
                action = o.begin(node);
                continue;
            }
            Action::ResolveImage => {
                if remote.image_found { Event::ImageResolved } else { Event::ImageLookupFailed }
            }
            Action::Launch => {
                local.launches += 1;
                if !remote.launch_accepted {
                    Event::LaunchFailed
                } else {
                    match run_setup(remote, artifacts, local) {
                        Ok(()) => Event::Launched,
                        Err(error) => {
                            local.setup_errors.push(error);
                            Event::LaunchFailed
                        }
                    }
                }
            }
            Action::Connect => Event::SessionOpened,
            Action::RunDriver => {
                let args = driver_args(&artifacts.script_remote, &artifacts.bench_remote, tag);
                local.commands.push(format!("{} {}", driver_program(), args.join(" ")));
                Event::DriverExited { success: remote.driver_exits_zero }
            }
            Action::WriteLog { surface_stderr } => {
                assert_eq!(surface_stderr, !remote.driver_exits_zero);
                local.files.insert(log_file_name(tag), String::from("stdout"));
                Event::LogWritten
            }
            Action::Collect => {
                let mut collector = Collector::new(ExperimentGrid::standard().candidate_names(tag));
                loop {
                    let name = match collector.pending() {
                        Some(name) => name.clone(),
                        None => break,
                    };
                    if remote.result_files.contains(&name) {
                        local.files.insert(name, String::from("data"));
                        collector.record(FetchOutcome::Fetched);
                    } else {
                        collector.record(FetchOutcome::Absent);
                    }
                }
                match collector.result() {
                    Some(Ok(summary)) => {
                        local.summaries.push(summary);
                        Event::Collected
                    }
                    _ => Event::CollectFailed,
                }
            }
            Action::Pause => Event::OperatorContinued,
            Action::Terminate => {
                local.terminations += 1;
                if remote.terminate_works { Event::Terminated } else { Event::TerminateFailed }
            }
            Action::Finish => return Ok(()),
            Action::Fail(error) => return Err(error),
        };
        action = o.handle(event);
    }
}

fn run_batch(nodes: &[Node], remotes: &[Remote], local: &mut Local) -> (u8, Option<BatchError>) {
    let artifacts = Artifacts::derive("target/release/bench", "scripts/exp.py").unwrap();
    let mut batch = Batch::new(nodes.len());
    while let Some(index) = batch.pending() {
        let outcome = run_node(&nodes[index], &remotes[index], &artifacts, local);
        batch.record(outcome);
    }
    let result = batch.result().unwrap();
    (exit_code(result), result.err())
}

fn baremetal() -> Node {
    Node::Baremetal { ip: "10.0.0.5".to_string(), user: "bench".to_string() }
}

fn aws() -> Node {
    Node::Aws { region: "us-east-1".to_string() }
}

fn azure() -> Node {
    Node::Azure { region: "eastus".to_string() }
}

#[test]
fn static_host_with_no_result_files_completes() {
    let mut local = Local::new();
    let (code, error) = run_batch(&[baremetal()], &[Remote::healthy()], &mut local);
    assert_eq!(code, 0);
    assert_eq!(error, None);
    assert!(local.files.contains_key("gcp.log"));
    assert_eq!(local.files.len(), 1);
    assert_eq!(local.summaries.len(), 1);
    assert!(local.summaries[0].considered > 0);
    assert_eq!(local.summaries[0], CollectedSummary { considered: 288, fetched: 0 });
    assert_eq!(local.launches, 1);
    assert_eq!(local.terminations, 0);
}

#[test]
fn aws_launch_error_terminates_once_and_writes_nothing() {
    let mut local = Local::new();
    let remote = Remote { launch_accepted: false, ..Remote::healthy() };
    let (code, error) = run_batch(&[aws()], &[remote], &mut local);
    assert_ne!(code, 0);
    assert_eq!(error, Some(BatchError { index: 0, error: RunError::Launch }));
    assert_eq!(local.launches, 1);
    assert_eq!(local.terminations, 1);
    assert!(local.files.is_empty());
    assert!(local.summaries.is_empty());
}

#[test]
fn second_node_install_failure_is_surfaced_after_first_node_succeeded() {
    let mut local = Local::new();
    let mut first = Remote::healthy();
    first.result_files.insert("exp-azure-be-75ms-1rcvrs-1batch-loop-client.data".to_string());
    first.result_files.insert("exp-azure-ord:10g-75ms-10rcvrs-10batch-opt-service.data".to_string());
    let second = Remote { failing_attempts: 16, ..Remote::healthy() };
    let (code, error) = run_batch(&[azure(), aws()], &[first, second], &mut local);
    assert_ne!(code, 0);
    assert_eq!(error, Some(BatchError { index: 1, error: RunError::Launch }));
    assert_eq!(
        local.setup_errors,
        vec![SetupError::Install(InstallError { step: 0, failure: StepFailure::NonZeroExit })]
    );
    assert!(local.files.contains_key("azure.log"));
    assert!(local.files.contains_key("exp-azure-be-75ms-1rcvrs-1batch-loop-client.data"));
    assert!(local.files.contains_key("exp-azure-ord:10g-75ms-10rcvrs-10batch-opt-service.data"));
    assert!(!local.files.contains_key("aws.log"));
    assert_eq!(local.files.len(), 3);
    assert_eq!(local.summaries, vec![CollectedSummary { considered: 288, fetched: 2 }]);
    assert_eq!(local.launches, 2);
    assert_eq!(local.terminations, 2);
    assert_eq!(local.sleeps, 15);
}

#[test]
fn failure_of_the_first_node_keeps_the_second_from_running() {
    let mut local = Local::new();
    let first = Remote { launch_accepted: false, ..Remote::healthy() };
    let (code, error) = run_batch(&[azure(), baremetal()], &[first, Remote::healthy()], &mut local);
    assert_ne!(code, 0);
    assert_eq!(error, Some(BatchError { index: 0, error: RunError::Launch }));
    assert_eq!(local.launches, 1);
    assert_eq!(local.terminations, 1);
    assert!(local.files.is_empty());
}

#[test]
fn fifteen_failing_attempts_are_absorbed() {
    let mut local = Local::new();
    let remote = Remote { failing_attempts: 15, ..Remote::healthy() };
    let (code, error) = run_batch(&[azure()], &[remote], &mut local);
    assert_eq!(code, 0);
    assert_eq!(error, None);
    assert_eq!(local.sleeps, 15);
    assert_eq!(local.terminations, 1);
}

#[test]
fn setup_runs_install_copy_chmod_copy() {
    let mut local = Local::new();
    run_batch(&[baremetal()], &[Remote::healthy()], &mut local);
    assert_eq!(
        local.commands,
        vec![
            install_command(0).unwrap().to_string(),
            install_command(1).unwrap().to_string(),
            install_command(2).unwrap().to_string(),
            "chmod +x bench".to_string(),
            "python3 exp.py ./bench gcp".to_string(),
        ]
    );
    assert_eq!(
        local.uploads,
        vec![
            ("target/release/bench".to_string(), "bench".to_string()),
            ("scripts/exp.py".to_string(), "exp.py".to_string()),
        ]
    );
}

#[test]
fn failed_experiment_keeps_partial_results() {
    let mut local = Local::new();
    let mut remote = Remote { driver_exits_zero: false, ..Remote::healthy() };
    remote.result_files.insert("exp-aws-be-75ms-5rcvrs-5batch-opt-client.data".to_string());
    let (code, error) = run_batch(&[aws()], &[remote], &mut local);
    assert_eq!(code, 0);
    assert_eq!(error, None);
    assert!(local.files.contains_key("aws.log"));
    assert!(local.files.contains_key("exp-aws-be-75ms-5rcvrs-5batch-opt-client.data"));
    assert_eq!(local.summaries, vec![CollectedSummary { considered: 288, fetched: 1 }]);
    assert_eq!(local.terminations, 1);
}

#[test]
fn all_result_files_present_are_all_fetched() {
    let mut local = Local::new();
    let mut remote = Remote::healthy();
    for name in ExperimentGrid::standard().candidate_names("azure") {
        remote.result_files.insert(name);
    }
    let (code, _) = run_batch(&[azure()], &[remote], &mut local);
    assert_eq!(code, 0);
    assert_eq!(local.summaries, vec![CollectedSummary { considered: 288, fetched: 288 }]);
    assert_eq!(local.files.len(), 289);
}

#[test]
fn failed_termination_fails_a_run_that_went_well() {
    let mut local = Local::new();
    let remote = Remote { terminate_works: false, ..Remote::healthy() };
    let (code, error) = run_batch(&[azure()], &[remote], &mut local);
    assert_ne!(code, 0);
    assert_eq!(error, Some(BatchError { index: 0, error: RunError::Terminate }));
    assert!(local.files.contains_key("azure.log"));
}

#[test]
fn missing_image_fails_before_launch() {
    let mut local = Local::new();
    let remote = Remote { image_found: false, ..Remote::healthy() };
    let (code, error) = run_batch(&[aws()], &[remote], &mut local);
    assert_ne!(code, 0);
    assert_eq!(error, Some(BatchError { index: 0, error: RunError::ImageLookup }));
    assert_eq!(local.launches, 0);
    assert_eq!(local.terminations, 0);
}

#[test]
fn every_cloud_node_of_a_batch_is_terminated_once_per_launch() {
    let mut local = Local::new();
    let nodes = [azure(), baremetal(), aws(), azure()];
    let remotes = [
        Remote::healthy(),
        Remote::healthy(),
        Remote { driver_exits_zero: false, ..Remote::healthy() },
        Remote { failing_attempts: 40, ..Remote::healthy() },
    ];
    let (code, error) = run_batch(&nodes, &remotes, &mut local);
    assert_ne!(code, 0);
    assert_eq!(error, Some(BatchError { index: 3, error: RunError::Launch }));
    assert_eq!(local.launches, 4);
    assert_eq!(local.terminations, 3);
}

#[test]
fn missing_local_artifact_stops_before_any_node() {
    assert_eq!(preflight(false, true), Err(PreflightError::MissingBench));
    assert_eq!(preflight(true, false), Err(PreflightError::MissingScript));
    assert_eq!(preflight(true, true), Ok(()));
}
