use tunex::naming::first_free_name;
use tunex::search::{Coalesced, SearchCore, coalesce_queries, superseding_query};

#[test]
fn fresh_core_is_idle() {
    let core: SearchCore<Vec<u32>> = SearchCore::with_db_path("/data/library.db".to_owned());
    assert!(!core.is_searching());
    assert!(core.error_text().is_none());
}

#[test]
fn burst_coalesces_to_latest_query() {
    let settled = coalesce_queries(
        1,
        "n".to_owned(),
        vec![(2, "no".to_owned()), (3, "nov".to_owned())],
        false,
    );
    assert!(matches!(settled, Coalesced::Settled(3, ref q) if q == "nov"));
    let alone = coalesce_queries(4, "x".to_owned(), Vec::new(), true);
    assert!(matches!(alone, Coalesced::Shutdown(4, ref q) if q == "x"));
    assert_eq!(superseding_query(vec![(5, "a".to_owned())]), Some((5, "a".to_owned())));
    assert_eq!(superseding_query(Vec::new()), None);
}

#[test]
fn stale_result_never_surfaces() {
    let mut core: SearchCore<Vec<u32>> = SearchCore::with_db_path(String::new());
    let first = core.submit();
    let second = core.submit();
    assert!(!core.receive(first, Ok(vec![1]), Vec::new()), "older answer dropped");
    assert!(core.is_searching());
    assert!(core.take_results().is_none());
    assert!(core.receive(second, Ok(vec![2]), Vec::new()));
    assert_eq!(core.take_results(), Some(vec![2]));
    assert!(core.take_results().is_none(), "taken once");
}

#[test]
fn corrupt_index_surfaces_error_until_next_success() {
    let mut core: SearchCore<Vec<u32>> = SearchCore::with_db_path(String::new());
    let g = core.submit();
    assert!(core.receive(g, Err("database error: malformed".to_owned()), Vec::new()));
    assert_eq!(core.error_text().as_deref(), Some("database error: malformed"));
    assert_eq!(core.take_results(), Some(Vec::new()), "rows clear on failure");
    let g = core.submit();
    assert!(core.error_text().is_none(), "a new query owns the error line");
    assert!(core.receive(g, Ok(vec![9]), Vec::new()));
    assert!(core.error_text().is_none());
}

#[test]
fn worker_failures_settle_every_query() {
    let mut core: SearchCore<Vec<u32>> = SearchCore::with_db_path(String::new());
    core.submit();
    core.worker_spawn_failed("no threads".to_owned());
    assert!(!core.is_searching());
    assert_eq!(
        core.error_text().as_deref(),
        Some("cannot access `<search thread>`: no threads")
    );
    core.submit();
    core.submit_refused();
    assert_eq!(core.error_text().as_deref(), Some("search worker unavailable"));
}

#[test]
fn first_free_name_counts_from_two() {
    let taken = vec!["mix".to_owned(), "mix-2".to_owned(), "mix-4".to_owned()];
    assert_eq!(first_free_name("mix", '-', &taken), "mix-3");
    assert_eq!(first_free_name("solo", '-', &taken), "solo");
}

#[test]
fn poll_surfaces_only_the_newest_generation() {
    let mut core: SearchCore<Vec<&str>> = SearchCore::with_db_path(String::new());
    let first = core.submit();
    let second = core.submit();
    assert!(!core.poll(vec![(first, Ok(vec!["stale"]))], Vec::new()), "stale answers drop");
    assert!(core.is_searching());
    assert_eq!(core.take_results(), None);
    assert!(core.poll(
        vec![(first, Ok(vec!["stale"])), (second, Err("index locked".to_owned())), (first, Ok(vec!["late"]))],
        Vec::new(),
    ));
    assert!(!core.is_searching());
    assert_eq!(core.error_text(), Some("index locked".to_owned()));
    assert_eq!(core.take_results(), Some(Vec::new()), "a failure delivers the cleared set");
    assert_eq!(core.take_results(), None, "taken once");
    let third = core.submit();
    assert!(core.poll(vec![(third, Ok(vec!["nova"]))], Vec::new()));
    assert_eq!(core.error_text(), None);
    assert_eq!(core.take_results(), Some(vec!["nova"]));
    assert!(!core.poll(Vec::new(), Vec::new()));
    assert_eq!(core.take_results(), None);
}
