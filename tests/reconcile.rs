use qdrant_sync::{
    check_without_call, contains_id, orphans, prune_without_call, scan_seed, Action,
    CollectionSync, Event, PublicPageTheme, Reconciliation, RunAction, Stage, SyncError,
    DEFAULT_PAGE_SIZE,
};

/// In-memory stand-ins for the collaborators, and what the driver asked of them.
struct Fakes {
    pages: Vec<(Vec<u128>, Option<String>)>,
    records: Vec<u128>,
    store: Vec<u128>,
    seeds: Vec<String>,
    check_calls: usize,
    prune_calls: Vec<Vec<u128>>,
}

fn fakes(pages: Vec<(Vec<u128>, Option<String>)>, records: Vec<u128>) -> Fakes {
    let store = pages.iter().flat_map(|p| p.0.clone()).collect();
    Fakes { pages, records, store, seeds: Vec::new(), check_calls: 0, prune_calls: Vec::new() }
}

fn run(f: &mut Fakes, page_size: u64) -> CollectionSync {
    let mut d = CollectionSync::new(page_size);
    let mut next_page = 0;
    loop {
        let ev = match d.action() {
            Action::Scan { seed, limit } => {
                assert_eq!(limit, page_size);
                f.seeds.push(seed);
                let (points, next) = f.pages[next_page].clone();
                next_page += 1;
                Event::Scanned { points, next }
            }
            Action::Check { ids } => {
                f.check_calls += 1;
                let known = ids.iter().copied().filter(|x| f.records.contains(x)).collect();
                Event::Known { ids: known }
            }
            Action::Prune { ids } => {
                f.store.retain(|x| !ids.contains(x));
                let count = ids.len() as u64;
                f.prune_calls.push(ids);
                Event::Pruned { count }
            }
            Action::Finish => return d,
        };
        d = d.step(ev).unwrap();
    }
}

const NIL: &str = "00000000-0000-0000-0000-000000000000";
const A: u128 = 0xa;
const B: u128 = 0xb;
const C: u128 = 0xc;
const D: u128 = 0xd;
const E: u128 = 0xe;
const F: u128 = 0xf;

#[test]
fn one_pass_deletes_exactly_the_orphan() {
    let mut f = fakes(vec![(vec![A, B, C], None)], vec![A, C]);
    let d = run(&mut f, DEFAULT_PAGE_SIZE);
    assert!(d.is_done());
    assert_eq!(f.prune_calls, vec![vec![B]]);
    assert_eq!(f.store, vec![A, C]);
    assert_eq!(d.found, 1);
    assert_eq!(d.deleted, 1);
}

#[test]
fn empty_collection_makes_no_check_or_prune() {
    let mut f = fakes(vec![(vec![], None)], vec![A]);
    let d = run(&mut f, DEFAULT_PAGE_SIZE);
    assert!(d.is_done());
    assert_eq!(f.check_calls, 0);
    assert!(f.prune_calls.is_empty());
    assert_eq!((d.scans, d.checks, d.prunes, d.deleted), (1, 0, 0, 0));
}

#[test]
fn two_pages_one_prune() {
    let mut f = fakes(vec![(vec![D, E], Some("cur-1".to_string())), (vec![F], None)], vec![E, F]);
    let d = run(&mut f, DEFAULT_PAGE_SIZE);
    assert!(d.is_done());
    assert_eq!(f.prune_calls, vec![vec![D]]);
    assert_eq!(d.scans, 2);
    assert_eq!(d.checks, 2);
    assert_eq!(d.prunes, 1);
    assert_eq!(f.seeds, vec![NIL.to_string(), "cur-1".to_string()]);
}

#[test]
fn second_run_finds_no_orphans() {
    let mut f = fakes(vec![(vec![A, B], Some("x".to_string())), (vec![C, D], None)], vec![A, C]);
    run(&mut f, 2);
    assert_eq!(f.store, vec![A, C]);
    let mut again = fakes(vec![(f.store.clone(), None)], vec![A, C]);
    let d = run(&mut again, 2);
    assert_eq!(d.found, 0);
    assert!(again.prune_calls.is_empty());
}

#[test]
fn recorded_points_are_never_orphans() {
    let batch = vec![A, B, C, D];
    let known = vec![C, A];
    let o = orphans(&batch, &known);
    assert_eq!(o, vec![B, D]);
    assert!(o.iter().all(|x| !known.contains(x)));
}

#[test]
fn orphans_keep_scan_order_and_duplicates() {
    assert_eq!(orphans(&vec![D, A, B, D], &vec![A]), vec![D, B, D]);
    assert_eq!(orphans(&vec![], &vec![A]), Vec::<u128>::new());
    assert_eq!(orphans(&vec![A, B], &vec![]), vec![A, B]);
}

#[test]
fn contains_id_looks_at_every_entry() {
    assert!(contains_id(&vec![A, B, C], C));
    assert!(!contains_id(&vec![A, B, C], D));
    assert!(!contains_id(&vec![], A));
}

#[test]
fn every_scanned_point_is_checked_once() {
    let mut f = fakes(
        vec![(vec![A, B], Some("p2".to_string())), (vec![], Some("p3".to_string())), (vec![C], None)],
        vec![A, B, C],
    );
    let d = run(&mut f, 2);
    assert_eq!(d.scans, 3);
    assert_eq!(f.check_calls, 2);
    assert_eq!(d.found, 0);
}

#[test]
fn empty_prune_needs_no_call() {
    assert_eq!(prune_without_call(&vec![]), Some(0));
    assert_eq!(prune_without_call(&vec![A]), None);
}

#[test]
fn empty_check_needs_no_call() {
    assert_eq!(check_without_call(&vec![]), Some(vec![]));
    assert_eq!(check_without_call(&vec![A, B]), None);
}

#[test]
fn check_is_one_page_at_most() {
    let d = CollectionSync::new(3);
    let d = d.step(Event::Scanned { points: vec![A, B, C], next: None }).unwrap();
    match d.action() {
        Action::Check { ids } => assert_eq!(ids, vec![A, B, C]),
        _ => panic!("expected a check"),
    }
}

#[test]
fn oversized_page_is_refused() {
    let d = CollectionSync::new(2);
    let r = d.step(Event::Scanned { points: vec![A, B, C], next: None });
    assert_eq!(r.err(), Some(SyncError::OversizedBatch));
}

#[test]
fn empty_cursor_is_malformed() {
    let d = CollectionSync::new(2);
    let r = d.step(Event::Scanned { points: vec![A], next: Some(String::new()) });
    assert_eq!(r.err(), Some(SyncError::MalformedCursor));
}

#[test]
fn event_out_of_turn_is_refused() {
    let d = CollectionSync::new(2);
    let r = d.step(Event::Known { ids: vec![] });
    assert_eq!(r.err(), Some(SyncError::UnexpectedEvent));
    let d = CollectionSync::new(2);
    let r = d.step(Event::Pruned { count: 1 });
    assert_eq!(r.err(), Some(SyncError::UnexpectedEvent));
}

#[test]
fn first_scan_starts_from_nil() {
    assert_eq!(scan_seed(&None), NIL);
    assert_eq!(scan_seed(&Some("abc".to_string())), "abc");
    match CollectionSync::new(DEFAULT_PAGE_SIZE).action() {
        Action::Scan { seed, limit } => {
            assert_eq!(seed, NIL);
            assert_eq!(limit, 1000);
        }
        _ => panic!("expected a scan"),
    }
}

#[test]
fn new_driver_waits_to_scan() {
    let d = CollectionSync::new(5);
    assert!(matches!(d.stage, Stage::Scan { cursor: None }));
    assert!(!d.is_done());
}

#[test]
fn counters_hold_at_the_maximum() {
    let d = CollectionSync::new(1);
    let d = d.step(Event::Scanned { points: vec![A], next: None }).unwrap();
    let d = d.step(Event::Known { ids: vec![] }).unwrap();
    let d = d.step(Event::Pruned { count: u64::MAX }).unwrap();
    assert_eq!(d.deleted, u64::MAX);
    assert!(d.is_done());
}

#[test]
fn theme_defaults_to_light() {
    assert_eq!(PublicPageTheme::default(), PublicPageTheme::Light);
    assert_eq!(PublicPageTheme::Light.name(), "light");
    assert_eq!(PublicPageTheme::Dark.name(), "dark");
}

/// Drives a whole run over named collections, each with its scan pages.
fn run_all(
    collections: Vec<(&str, Vec<(Vec<u128>, Option<String>)>)>,
    records: Vec<u128>,
) -> (Reconciliation, Vec<(String, Vec<u128>)>, usize) {
    let names: Vec<String> = collections.iter().map(|c| c.0.to_string()).collect();
    let mut pages: Vec<Vec<(Vec<u128>, Option<String>)>> =
        collections.into_iter().map(|c| c.1).collect();
    let mut deletions = Vec::new();
    let mut checks = 0;
    let mut run = Reconciliation::new(names.clone(), DEFAULT_PAGE_SIZE);
    loop {
        let (collection, action) = match run.action() {
            RunAction::Sync { collection, action } => (collection, action),
            RunAction::Finish => return (run, deletions, checks),
        };
        let at = names.iter().position(|n| *n == collection).unwrap();
        let ev = match action {
            Action::Scan { .. } => {
                let (points, next) = pages[at].remove(0);
                Event::Scanned { points, next }
            }
            Action::Check { ids } => {
                checks += 1;
                Event::Known { ids: ids.into_iter().filter(|x| records.contains(x)).collect() }
            }
            Action::Prune { ids } => {
                let count = ids.len() as u64;
                deletions.push((collection, ids));
                Event::Pruned { count }
            }
            Action::Finish => panic!("a collection under reconciliation cannot be finished"),
        };
        run = run.step(ev).unwrap();
    }
}

#[test]
fn run_reports_each_collection_in_order() {
    let (run, deletions, checks) = run_all(
        vec![
            ("C1", vec![(vec![A, B, C], None)]),
            ("C2", vec![(vec![D, E], Some("next".to_string())), (vec![F], None)]),
        ],
        vec![A, C, E, F],
    );
    assert!(run.is_done());
    assert_eq!(checks, 3);
    assert_eq!(deletions, vec![("C1".to_string(), vec![B]), ("C2".to_string(), vec![D])]);
    assert_eq!(run.reports.len(), 2);
    assert_eq!(run.reports[0].collection, "C1");
    assert_eq!((run.reports[0].scans, run.reports[0].found, run.reports[0].deleted), (1, 1, 1));
    assert_eq!(run.reports[1].collection, "C2");
    assert_eq!(run.reports[1].scans, 2);
    assert_eq!(run.reports[1].prunes, 1);
}

#[test]
fn run_over_empty_collection() {
    let (run, deletions, checks) = run_all(vec![("C1", vec![(vec![], None)])], vec![]);
    assert!(run.is_done());
    assert_eq!(checks, 0);
    assert!(deletions.is_empty());
    assert_eq!((run.reports[0].scans, run.reports[0].deleted), (1, 0));
}

#[test]
fn run_without_collections_is_done() {
    let run = Reconciliation::new(vec![], DEFAULT_PAGE_SIZE);
    assert!(run.is_done());
    assert!(matches!(run.action(), RunAction::Finish));
    let r = run.step(Event::Scanned { points: vec![], next: None });
    assert_eq!(r.err(), Some(SyncError::UnexpectedEvent));
}

#[test]
fn run_passes_refusals_through() {
    let run = Reconciliation::new(vec!["C1".to_string()], 1);
    let r = run.step(Event::Scanned { points: vec![A, B], next: None });
    assert_eq!(r.err(), Some(SyncError::OversizedBatch));
}
