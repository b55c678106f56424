use paginator::pagination_state::PaginationState;

#[test]
fn constructor_clamps_to_one() {
    let s = PaginationState::new(0, 0);
    assert_eq!(s.page(), 1);
    assert_eq!(s.page_size(), 1);
    assert_eq!(s.element_count(), 0);
}

#[test]
fn default_state() {
    let s = PaginationState::default();
    assert_eq!(s.page(), 1);
    assert_eq!(s.page_size(), 6);
    assert_eq!(s.element_count(), 0);
}

#[test]
fn new_with_count_stores_count() {
    let s = PaginationState::new_with_count(2, 5, 17);
    assert_eq!(s.page(), 2);
    assert_eq!(s.page_size(), 5);
    assert_eq!(s.element_count(), 17);
}

#[test]
fn set_page_and_size_clamps() {
    let mut s = PaginationState::new_with_count(3, 10, 42);
    s.set_page_and_size(0, 0);
    assert_eq!(s.page(), 1);
    assert_eq!(s.page_size(), 1);
    // A page or size change must not erase the last known count.
    assert_eq!(s.element_count(), 42);
}

#[test]
fn set_page_size_always_resets_page() {
    for prior in [1, 2, 9, 100] {
        let mut s = PaginationState::new_with_count(prior, 10, 42);
        s.set_page_size(3);
        assert_eq!(s.page(), 1);
        assert_eq!(s.page_size(), 3);
        assert_eq!(s.element_count(), 42);
    }
    let mut z = PaginationState::new_with_count(7, 10, 42);
    z.set_page_size(0);
    assert_eq!(z.page(), 1);
    assert_eq!(z.page_size(), 1);
}

#[test]
fn set_page_clamps_and_keeps_the_rest() {
    let mut s = PaginationState::new_with_count(3, 10, 42);
    s.set_page(5);
    assert_eq!(s.page(), 5);
    s.set_page(0);
    assert_eq!(s.page(), 1);
    assert_eq!(s.page_size(), 10);
    assert_eq!(s.element_count(), 42);
}

#[test]
fn update_replaces_all_three() {
    let mut s = PaginationState::default();
    s.update(4, 20, 99);
    assert_eq!(s.page(), 4);
    assert_eq!(s.page_size(), 20);
    assert_eq!(s.element_count(), 99);
    s.update(0, 0, 0);
    assert_eq!(s.page(), 1);
    assert_eq!(s.page_size(), 1);
    assert_eq!(s.element_count(), 0);
}

#[test]
fn set_element_count_keeps_page_and_size() {
    let mut s = PaginationState::new(3, 10);
    s.set_element_count(42);
    assert_eq!(s.page(), 3);
    assert_eq!(s.page_size(), 10);
    assert_eq!(s.element_count(), 42);
    // The count may legitimately decrease when the data shrank.
    s.set_element_count(7);
    assert_eq!(s.element_count(), 7);
}
