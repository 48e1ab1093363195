use blog::domain::pagination::{resolve_page, total_pages, Page};

#[test]
fn total_pages_rounds_up_on_remainder() {
    assert_eq!(total_pages(7, 3), 3);
    assert_eq!(total_pages(6, 3), 2);
    assert_eq!(total_pages(0, 3), 0);
}

#[test]
fn resolve_page_rejects_out_of_range() {
    assert_eq!(resolve_page(0, 7, 3, false), None);
    assert_eq!(resolve_page(4, 7, 3, false), None);
    assert_eq!(
        resolve_page(2, 7, 3, false),
        Some(Page {
            current: 2,
            total: 3
        })
    );
}

#[test]
fn resolve_page_can_clamp_to_one_page_when_empty() {
    assert_eq!(resolve_page(1, 0, 3, false), None);
    assert_eq!(
        resolve_page(1, 0, 3, true),
        Some(Page {
            current: 1,
            total: 1
        })
    );
}
