use nodebench::collect::{CollectError, CollectedSummary, Collector, FetchOutcome};
use nodebench::grid::ExperimentGrid;

fn names(n: usize) -> Vec<String> {
    (0..n).map(|i| format!("file-{}.data", i)).collect()
}

#[test]
fn fresh_collector_asks_for_the_first_candidate() {
    let collector = Collector::new(names(3));
    assert_eq!(collector.pending().map(|s| s.as_str()), Some("file-0.data"));
    assert_eq!(collector.result(), None);
    assert_eq!(collector.summary(), CollectedSummary { considered: 3, fetched: 0 });
}

#[test]
fn no_candidates_is_a_finished_collection() {
    let collector = Collector::new(Vec::new());
    assert_eq!(collector.pending(), None);
    assert_eq!(collector.result(), Some(Ok(CollectedSummary { considered: 0, fetched: 0 })));
}

#[test]
fn absent_files_do_not_end_the_collection() {
    let mut collector = Collector::new(names(3));
    collector.record(FetchOutcome::Absent);
    assert_eq!(collector.pending().map(|s| s.as_str()), Some("file-1.data"));
    collector.record(FetchOutcome::Absent);
    collector.record(FetchOutcome::Absent);
    assert_eq!(collector.pending(), None);
    assert_eq!(collector.result(), Some(Ok(CollectedSummary { considered: 3, fetched: 0 })));
}

#[test]
fn fetched_files_are_counted() {
    let mut collector = Collector::new(names(4));
    collector.record(FetchOutcome::Fetched);
    collector.record(FetchOutcome::Absent);
    collector.record(FetchOutcome::Fetched);
    assert_eq!(collector.result(), None);
    assert_eq!(collector.summary(), CollectedSummary { considered: 4, fetched: 2 });
    collector.record(FetchOutcome::Fetched);
    assert_eq!(collector.result(), Some(Ok(CollectedSummary { considered: 4, fetched: 3 })));
}

#[test]
fn every_subset_of_three_candidates_completes() {
    for mask in 0u32..8 {
        let outcomes: Vec<FetchOutcome> = (0..3)
            .map(|i| if mask & (1 << i) != 0 { FetchOutcome::Fetched } else { FetchOutcome::Absent })
            .collect();
        let collector = Collector::replay(names(3), &outcomes);
        let expected = CollectedSummary { considered: 3, fetched: mask.count_ones() as usize };
        assert_eq!(collector.result(), Some(Ok(expected)));
        assert!(expected.fetched <= expected.considered);
    }
}

#[test]
fn failed_transfer_ends_the_collection_at_its_candidate() {
    let mut collector = Collector::new(names(4));
    collector.record(FetchOutcome::Fetched);
    collector.record(FetchOutcome::TransferFailed);
    assert_eq!(collector.pending(), None);
    assert_eq!(collector.result(), Some(Err(CollectError { index: 1 })));
    collector.record(FetchOutcome::Fetched);
    assert_eq!(collector.result(), Some(Err(CollectError { index: 1 })));
    assert_eq!(collector.summary(), CollectedSummary { considered: 4, fetched: 1 });
}

#[test]
fn outcomes_past_the_end_are_ignored() {
    let mut outcomes = vec![FetchOutcome::Fetched; 5];
    outcomes.push(FetchOutcome::TransferFailed);
    let collector = Collector::replay(names(2), &outcomes);
    assert_eq!(collector.result(), Some(Ok(CollectedSummary { considered: 2, fetched: 2 })));
}

#[test]
fn standard_grid_with_nothing_on_the_remote_host() {
    let candidates = ExperimentGrid::standard().candidate_names("gcp");
    let outcomes = vec![FetchOutcome::Absent; candidates.len()];
    let collector = Collector::replay(candidates, &outcomes);
    assert_eq!(collector.result(), Some(Ok(CollectedSummary { considered: 288, fetched: 0 })));
}

#[test]
fn candidates_are_asked_for_in_grid_order() {
    let candidates = ExperimentGrid::standard().candidate_names("aws");
    let mut collector = Collector::new(candidates.clone());
    let mut asked = Vec::new();
    while let Some(name) = collector.pending() {
        asked.push(name.clone());
        collector.record(FetchOutcome::Absent);
    }
    assert_eq!(asked, candidates);
}
