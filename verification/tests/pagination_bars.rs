use blog::controllers::helpers::pagination_logic::{
    admin_categories, admin_category_posts, general_category, index_pagination,
};

#[test]
fn test_index_pagination_zero_pages() {
    let result = index_pagination(1, 0);
    assert!(result.contains(r#"<a class="active"  href="/posts/page/1">1</a>"#));
}

#[test]
fn test_index_pagination_multiple_pages() {
    let result = index_pagination(2, 3);
    assert!(result.contains(r#"<a style="margin: 0 4px;" href="/posts/page/1">1</a>"#));
    assert!(result.contains(r#"<a class="active"  href="/posts/page/2">2</a>"#));
    assert!(result.contains(r#"<a style="margin: 0 4px;" href="/posts/page/3">3</a>"#));
}

#[test]
fn test_admin_categories_pagination() {
    let result = admin_categories(2, 3);
    assert!(result.contains(r#"<a class="page-link "   href="/admin/categories/page/1">1</a>"#));
    assert!(result.contains(r#"<li class="page-item active">"#));
    assert!(result.contains(r#"<a class="page-link "   href="/admin/categories/page/2">2</a>"#));
}

#[test]
fn test_general_category_links_include_category() {
    let result = general_category(1, 2, "rust");
    assert!(result.contains(r#"href="/posts/category/rust/page/1""#));
    assert!(result.contains(r#"href="/posts/category/rust/page/2""#));
}

#[test]
fn test_admin_category_posts_non_active_links_are_well_formed() {
    // The non-active links must point at "/admin/categories/{category}/page/{n}".
    let result = admin_category_posts(1, 2, "rust-lang".to_string());
    assert!(result.contains(r#"href="/admin/categories/rust-lang/page/2""#));
}
