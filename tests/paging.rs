use mc_server_status::pagination::{clamp_page, page_bounds, total_pages};

#[test]
fn page_counts() {
    assert_eq!(total_pages(0, 10), 0);
    assert_eq!(total_pages(1, 10), 1);
    assert_eq!(total_pages(10, 10), 1);
    assert_eq!(total_pages(11, 10), 2);
    assert_eq!(total_pages(25, 5), 5);
    assert_eq!(total_pages(5, 0), 0);
    assert_eq!(total_pages(usize::MAX, 2), usize::MAX / 2 + 1);
}

#[test]
fn page_index_stays_in_range() {
    assert_eq!(clamp_page(3, 0), 0);
    assert_eq!(clamp_page(0, 2), 0);
    assert_eq!(clamp_page(1, 2), 1);
    assert_eq!(clamp_page(5, 2), 1);
}

#[test]
fn page_item_ranges() {
    assert_eq!(page_bounds(0, 10, 25), (0, 10));
    assert_eq!(page_bounds(2, 10, 25), (20, 25));
    assert_eq!(page_bounds(3, 10, 25), (25, 25));
    assert_eq!(page_bounds(0, 10, 0), (0, 0));
    assert_eq!(page_bounds(usize::MAX, 10, 25), (25, 25));
    assert_eq!(page_bounds(1, 0, 25), (0, 0));
}
