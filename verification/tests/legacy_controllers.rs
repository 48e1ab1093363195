use blog::controller::General_pagination::{general_pagination, general_pagination_with_category};
use blog::controller::admin::category_controller::{get_all_categories, get_category_posts};
use blog::controller::admin_function::admin_category_display;
use blog::controller::admin_pagination::{admin_pagination_main_page, admin_pagination_with_category};
use blog::controller::authentication::login::login;
use blog::controller::category_controller::{get_all_categories_controller, get_category_with_pagination};
use blog::controller::common_controller::{
    main_page, new_common_page_controller, new_common_page_controller_test, set_posts_per_page,
};
use blog::controller::pagination_controller::{
    admin_index, get_pagination_for_all_categories_list, perfect_pagination_logic, CountError,
};
use blog::controller::pagination_logic::select_specific_pages_post;
use blog::controller::posts_controller::{new_posts, update_post, update_post_helper, PostRevision};
use blog::application::posts_service::PostCreation;
use blog::response::RedirectStatus;

#[test]
fn general_pagination_exact_text() {
    assert_eq!(
        general_pagination(2, 3),
        "\n    <br>\n<div class=\"paginations\">\n <a style=\"margin: 0 4px;\" href=\"/posts/page/1\">1</a><a class=\"active\"  href=\"/posts/page/2\">2</a><a style=\"margin: 0 4px;\" href=\"/posts/page/3\">3</a>"
    );
    assert!(general_pagination(1, 0).ends_with("<a class=\"active\"  href=\"/posts/page/1\">1</a>"));
}

#[test]
fn general_pagination_with_category_branches() {
    let guest = general_pagination_with_category(1, 2, &"qq".to_string(), false);
    assert!(guest.contains("href=\"/posts/category/qq/page/2\">2</a>"));
    let admin = general_pagination_with_category(1, 2, &"qq".to_string(), true);
    assert!(admin.contains("<li class=\"page-item active\">\n              <a class=\"page-link \"   href=\"/admin/categories/page/1\">1</a>"));
    assert!(!admin.contains("qq"));
}

#[test]
fn admin_pagination_bars() {
    let bar = admin_pagination_with_category(2, 2);
    assert!(bar.contains("\n<li class=\"page-item\">\n              <a class=\"page-link \"   href=\"/admin/categories/page/1\">1</a>"));
    assert!(bar.contains("\n<li class=\"page-item active\">\n              <a class=\"page-link \"   href=\"/admin/categories/page/2\">2</a>"));
    assert!(admin_pagination_main_page(1, 1).ends_with("</a></li></ul>\n        </nav>"));
}

#[test]
fn admin_category_display_links_every_page_of_the_category() {
    let display = admin_category_display(&Some(()), "7", 1, 4).unwrap();
    assert_eq!(display.pages_count, vec![1, 2]);
    assert_eq!(display.per_page, 3);
    assert_eq!(display.page_number, 1);
    assert_eq!(
        display.pagination,
        "\n     <div class=\"card mb-4\">\n                                <!-- Basic Pagination -->\n                                   <!-- Basic Pagination -->\n                                                <nav aria-label=\"Page navigation\">\n                                                    <ul class=\"pagination\">\n \n            <li class=\"page-item active\">\n              <a class=\"page-link \"  href=\"/admin/categories/7/page/1\">1</a><li class=\"page-item\">\n              <a class=\"page-link \"   href=\"/admin/categories/7/page/2\">2</a> "
    );
    let display = admin_category_display(&Some(()), "rust-lang", 1, 12).unwrap();
    assert!(display.pagination.contains(r#"href="/admin/categories/rust-lang/page/2""#));
    assert!(!display.pagination.contains(r#"href="/admin/categories/page/""#));
    assert_eq!(display.per_page, 3);
}

#[test]
fn anonymous_visitors_are_sent_home() {
    let anonymous: Option<()> = None;
    for redirect in [
        admin_category_display(&anonymous, "7", 1, 4).unwrap_err(),
        admin_index(&anonymous, 1, 4).unwrap_err(),
        get_all_categories_controller(&anonymous, 1, 4).unwrap_err(),
        get_all_categories(&anonymous, 1, 4).unwrap_err(),
    ] {
        assert_eq!(redirect.status, RedirectStatus::SeeOther);
        assert_eq!(redirect.location, "/");
    }
}

#[test]
fn first_controllers_page_counts() {
    assert_eq!(set_posts_per_page(), 3);
    let bar = new_common_page_controller(2, 7).unwrap();
    assert_eq!(bar.pages_count, vec![1, 2, 3]);
    assert_eq!(bar.pagination, general_pagination(2, 3));
    let redirect = new_common_page_controller(4, 7).unwrap_err();
    assert_eq!(redirect.location, "/posts/page/1");
    assert_eq!(redirect.status, RedirectStatus::SeeOther);
    assert!(new_common_page_controller(-1, 7).is_err());
    assert_eq!(new_common_page_controller_test(0), Vec::<usize>::new());
    assert_eq!(main_page(7), vec![1, 2, 3]);
    assert_eq!(admin_index(&Some(()), 9, 4).unwrap().pages_count, vec![1, 2]);

    let (bar, per_page) = get_all_categories_controller(&Some(()), 1, 4).unwrap();
    assert_eq!(per_page, 3);
    assert_eq!(bar.pages_count, vec![1, 2]);
    let (bar, _) = get_all_categories(&Some(()), 2, 4).unwrap();
    assert_eq!(bar.pagination, admin_pagination_with_category(2, 2));

    let listing = get_category_with_pagination("rust", 1, 0);
    assert_eq!(listing.pages_count, Vec::<i64>::new());
    assert!(!listing.pagination.contains("<a"));
    let listing = get_category_posts(&"rust".to_string(), 1, 0);
    assert!(listing.pagination.contains("<a class=\"active\"  href=\"/posts/page/1\">1</a>"));
}

#[test]
fn count_rows() {
    assert_eq!(perfect_pagination_logic(&vec![Some(5)]), Ok(5));
    assert_eq!(perfect_pagination_logic(&vec![]), Err(CountError::NoRows));
    assert_eq!(CountError::NoRows.message(), "error-1");
    assert_eq!(get_pagination_for_all_categories_list(&vec![None, Some(3)]), Err(CountError::Unreadable));
    assert_eq!(CountError::Unreadable.message(), "error-2");
}

#[test]
fn post_window() {
    assert_eq!(select_specific_pages_post(1), (3, 0));
    assert_eq!(select_specific_pages_post(2), (3, 3));
    assert_eq!(select_specific_pages_post(5), (3, 12));
    assert_eq!(select_specific_pages_post(i32::MIN), (3, (i32::MIN as i64 - 1) * 3));
}

#[test]
fn first_post_and_login_decisions() {
    assert_eq!(new_posts(0).0, PostCreation::WithoutCategory);
    assert_eq!(new_posts(3).1.location, "/admin/posts/page/1");
    assert_eq!(update_post(0).0, PostRevision::WithoutCategory);
    assert_eq!(update_post(8).0, PostRevision::WithCategory(8));
    let id = "12".to_string();
    assert_eq!(update_post_helper(&id), "12");
    assert_eq!(login(1), (true, blog::response::see_other("/admin/posts/page/1")));
    assert_eq!(login(0).1.location, "/login");
}
