use paginator::controller::{desired_state, FetchRequest, PaginationController};

#[test]
fn last_issued_fetch_wins_under_reordering() {
    // Fetches issued for (1, 10) then (2, 10); the first resolves with 30
    // only after the second resolved with 50: the count stays 50.
    let mut c = PaginationController::new(1, 6);
    let f1 = c.on_desired_state(1, 10).expect("first change issues a fetch");
    let f2 = c.on_desired_state(2, 10).expect("second change issues a fetch");
    assert!(f1.seq < f2.seq);
    assert!(c.on_fetch_success(f2.seq, 50));
    assert!(!c.on_fetch_success(f1.seq, 30));
    assert_eq!(c.state().element_count(), 50);
    assert_eq!(c.state().page(), 2);
    assert_eq!(c.state().page_size(), 10);
}

#[test]
fn issued_requests_carry_the_reconciled_pair() {
    let mut c = PaginationController::new(1, 6);
    let r = c.on_desired_state(3, 12).expect("a differing pair issues a fetch");
    assert_eq!(r, FetchRequest { seq: 1, page: 3, page_size: 12 });
    assert_eq!(c.state().page(), 3);
    assert_eq!(c.state().page_size(), 12);
}

#[test]
fn unchanged_desired_state_issues_nothing() {
    let mut c = PaginationController::new(1, 6);
    assert!(c.on_desired_state(2, 6).is_some());
    assert!(c.on_desired_state(2, 6).is_none());
    // Clamping happens before the comparison: (0, 0) means (1, 1).
    let mut d = PaginationController::new(1, 1);
    assert!(d.on_desired_state(0, 0).is_none());
}

#[test]
fn desired_state_change_keeps_last_known_count() {
    let mut c = PaginationController::new(1, 6);
    let f = c.on_desired_state(2, 6).unwrap();
    assert!(c.on_fetch_success(f.seq, 42));
    assert_eq!(c.state().element_count(), 42);
    c.on_desired_state(3, 6).unwrap();
    assert_eq!(c.state().element_count(), 42);
}

#[test]
fn fetch_failure_keeps_state_and_is_surfaced() {
    let mut c = PaginationController::new(1, 6);
    let f = c.on_desired_state(2, 6).unwrap();
    assert!(c.on_fetch_success(f.seq, 42));
    let g = c.on_desired_state(3, 6).unwrap();
    assert!(c.on_fetch_failure(g.seq));
    // Last known good count is kept for the layout.
    assert_eq!(c.state().element_count(), 42);
    assert_eq!(c.state().page(), 3);
}

#[test]
fn stale_failure_is_dropped_silently() {
    let mut c = PaginationController::new(1, 6);
    let f1 = c.on_desired_state(2, 6).unwrap();
    let f2 = c.on_desired_state(3, 6).unwrap();
    assert!(!c.on_fetch_failure(f1.seq));
    // The newer fetch is still the one that counts.
    assert!(c.on_fetch_success(f2.seq, 9));
    assert_eq!(c.state().element_count(), 9);
}

#[test]
fn duplicate_resolution_is_ignored() {
    let mut c = PaginationController::new(1, 6);
    let f = c.on_desired_state(2, 6).unwrap();
    assert!(c.on_fetch_success(f.seq, 5));
    assert!(!c.on_fetch_success(f.seq, 77));
    assert_eq!(c.state().element_count(), 5);
}

#[test]
fn resolution_without_any_issue_is_ignored() {
    let mut c = PaginationController::new(1, 6);
    assert!(!c.on_fetch_success(0, 123));
    assert_eq!(c.state().element_count(), 0);
}

#[test]
fn page_size_change_targets_page_one() {
    let c = PaginationController::new(5, 10);
    assert_eq!(c.page_size_change_target(25), (1, 25));
    assert_eq!(c.page_size_change_target(0), (1, 1));
}

#[test]
fn desired_state_falls_back_to_defaults() {
    assert_eq!(desired_state(None, None), (1, 6));
    assert_eq!(desired_state(Some(4), None), (4, 6));
    assert_eq!(desired_state(None, Some(20)), (1, 20));
    assert_eq!(desired_state(Some(4), Some(20)), (4, 20));
}
