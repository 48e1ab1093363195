use blog::adapters::crypto::MagicCryptCipher;
use blog::adapters::http::api::auth as api_auth;
use blog::adapters::http::api::posts::{get, list, PageQuery};
use blog::adapters::http::api::{require_login as api_require_login, ApiError, ApiStatus, PageResponse};
use blog::adapters::http::auth::{check_user, login};
use blog::adapters::http::auth_guard::require_login;
use blog::adapters::http::categories_admin::{get_all_categories, validate_or_redirect};
use blog::adapters::http::flash::render_flash_messages;
use blog::adapters::http::posts_admin::{admin_index, get_categories_posts};
use blog::adapters::http::posts_guest::{get_category_posts, index, index_redirect, redirect_user};
use blog::application::auth_service::{authenticate, register};
use blog::application::categories_service::list_categories;
use blog::application::ports::PasswordCipher;
use blog::application::posts_service::{
    create_post, list_posts, list_posts_for_category, update_post, ListingPlan, PostCreation,
    PostUpdate,
};
use blog::controllers::helpers::pagination_logic::{
    admin_main_page, resolve_current_page, total_pages as helper_total_pages,
};
use blog::adapters::http::api::posts::validate as api_validate;
use blog::adapters::http::posts_admin::validate_or_redirect as post_validate_or_redirect;
use blog::domain::category::NewCategory;
use blog::domain::post::NewPost;
use blog::domain::pagination::{page_numbers, page_numbers_i64, resolve_page, total_pages, Listing, Page};
use blog::parse::{parse_i32, parse_i32_or_default};
use blog::response::RedirectStatus;
use blog::text::decimal;

#[test]
fn total_pages_handles_signs_as_rust_division() {
    assert_eq!(total_pages(1, 3), 1);
    assert_eq!(total_pages(3, 3), 1);
    assert_eq!(total_pages(4, 3), 2);
    assert_eq!(total_pages(-7, 3), -1);
    assert_eq!(total_pages(7, -3), -1);
    assert_eq!(total_pages(-7, -3), 3);
    assert_eq!(total_pages(i64::MAX, 1), i64::MAX);
    assert_eq!(total_pages(i64::MIN, 2), i64::MIN / 2);
    assert_eq!(helper_total_pages(10, 3), 4);
}

#[test]
fn total_pages_agrees_with_ceiling_formula() {
    for t in 0..50i64 {
        for p in 1..7i64 {
            assert_eq!(total_pages(t, p), (t + p - 1) / p);
        }
    }
}

#[test]
fn resolved_pages_are_downward_closed() {
    assert!(resolve_page(3, 7, 3, false).is_some());
    for j in 1..=3 {
        assert_eq!(resolve_page(j, 7, 3, false), Some(Page { current: j as usize, total: 3 }));
    }
    assert_eq!(resolve_page(-1, 7, 3, false), None);
}

#[test]
fn first_page_always_resolves_with_clamp() {
    for t in 0..10i64 {
        assert!(resolve_page(1, t, 3, true).is_some());
    }
    assert_eq!(resolve_page(2, 0, 3, true), None);
}

#[test]
fn resolve_current_page_redirects_out_of_range() {
    assert_eq!(resolve_current_page(2, 7, 3, false, "/x"), Ok((2, 3)));
    let redirect = resolve_current_page(9, 7, 3, false, "/admin/posts/page/1").unwrap_err();
    assert_eq!(redirect.status, RedirectStatus::SeeOther);
    assert_eq!(redirect.location, "/admin/posts/page/1");
}

#[test]
fn page_numbers_count_from_one() {
    assert_eq!(page_numbers(3), vec![1, 2, 3]);
    assert_eq!(page_numbers(0), Vec::<usize>::new());
    assert_eq!(page_numbers_i64(2), vec![1i64, 2]);
    assert_eq!(page_numbers_i64(-4), Vec::<i64>::new());
}

#[test]
fn decimal_renders_numbers() {
    assert_eq!(decimal(0), "0");
    assert_eq!(decimal(9), "9");
    assert_eq!(decimal(10), "10");
    assert_eq!(decimal(1234567890), "1234567890");
}

#[test]
fn parse_i32_matches_std() {
    for s in [
        "0", "7", "+5", "-0", "-12", "007", "2147483647", "-2147483648", "2147483648",
        "-2147483649", "", "-", "+", "12a", " 1", "1 ", "99999999999999", "--1", "+-1", "٣",
    ] {
        assert_eq!(parse_i32(s), s.parse::<i32>().ok(), "{s:?}");
    }
    assert_eq!(parse_i32_or_default("42"), 42);
    assert_eq!(parse_i32_or_default("forty-two"), 0);
}

#[test]
fn listing_plans_fetch_the_resolved_page() {
    assert_eq!(
        list_posts(2, 7),
        Some(ListingPlan { page: Page { current: 2, total: 3 }, page_number: 2, per_page: 3 })
    );
    assert_eq!(list_posts(1, 0), None);
    assert_eq!(
        list_posts_for_category(1, 0),
        Some(ListingPlan { page: Page { current: 1, total: 1 }, page_number: 1, per_page: 3 })
    );
    assert_eq!(list_categories(4, 9), None);
}

#[test]
fn post_decisions() {
    assert_eq!(create_post(0), PostCreation::WithoutCategory);
    assert_eq!(create_post(4), PostCreation::WithCategory(4));
    assert_eq!(update_post(None, 5), PostUpdate::AttachCategory(5));
    assert_eq!(update_post(Some(0), 0), PostUpdate::AttachCategory(0));
    assert_eq!(update_post(Some(2), 0), PostUpdate::WithoutCategory);
    assert_eq!(update_post(Some(2), 3), PostUpdate::Update(3));
}

#[test]
fn category_names_need_two_characters() {
    assert!(NewCategory { name: "ab".to_string() }.validate().is_ok());
    assert!(NewCategory { name: "é€".to_string() }.validate().is_ok());
    let err = NewCategory { name: "a".to_string() }.validate().unwrap_err();
    assert_eq!(err.field, "name");
    assert_eq!(err.code, "length");
    assert_eq!(err.message, "category name cannot be empty and minimum should have 2 characters");
    let rejection = validate_or_redirect(&NewCategory { name: String::new() }, "/admin/categories/page/1")
        .unwrap();
    assert_eq!(rejection.redirect.location, "/admin/categories/page/1");
    assert_eq!(rejection.flash_error, err.message);
    assert!(validate_or_redirect(&NewCategory { name: "rust".to_string() }, "/x").is_none());
}

#[test]
fn magic_crypt_cipher_is_deterministic_and_hides_the_password() {
    let cipher = MagicCryptCipher::new("secret key");
    let a = cipher.encrypt("hunter2");
    assert_ne!(a, "hunter2");
    assert_eq!(a, cipher.encrypt("hunter2"));
    assert_ne!(a, cipher.encrypt("hunter3"));
    assert_ne!(a, MagicCryptCipher::new("other key").encrypt("hunter2"));
}

#[test]
fn registered_credentials_authenticate() {
    let cipher = MagicCryptCipher::new("k");
    let stored = register(&cipher, "ann", "pw");
    let presented = authenticate(&cipher, "ann", "pw");
    assert_eq!(stored, presented);
    assert_eq!(stored.username, "ann");
    assert_eq!(stored.password_hash, cipher.encrypt("pw"));
    assert_ne!(authenticate(&cipher, "ann", "wrong").password_hash, stored.password_hash);
}

#[test]
fn login_guards_and_outcomes() {
    let anonymous: Option<u8> = None;
    let redirect = require_login(&anonymous).unwrap();
    assert_eq!(redirect.status, RedirectStatus::SeeOther);
    assert_eq!(redirect.location, "/");
    assert!(require_login(&Some(1u8)).is_none());

    let reply = api_require_login(&anonymous).unwrap();
    assert_eq!(reply.status, ApiStatus::Unauthorized);
    assert_eq!(reply.body.error, "authentication required");

    let ok = login(true);
    assert!(ok.log_in);
    assert_eq!(ok.flash_error, None);
    assert_eq!(ok.redirect.location, "/admin/posts/page/1");
    let failed = login(false);
    assert!(!failed.log_in);
    assert_eq!(failed.flash_error.as_deref(), Some("Login Fail - Wrong Id or password!"));
    assert_eq!(failed.redirect.location, "/login");

    assert_eq!(check_user(&Some(())).location, "/admin/posts/page/1");
    assert_eq!(check_user(&None::<()>).location, "/");
    assert_eq!(check_user(&None::<()>).status, RedirectStatus::TemporaryRedirect);

    assert!(api_auth::login(true).is_none());
    assert_eq!(api_auth::login(false).unwrap().body.error, "invalid username or password");
}

#[test]
fn api_replies() {
    let reply = ApiError::json("bad title");
    assert_eq!(reply.status, ApiStatus::BadRequest);
    assert_eq!(reply.body.error, "bad title");

    assert_eq!(PageQuery { page: None }.page_number(), 1);
    assert_eq!(PageQuery { page: Some(4) }.page_number(), 4);
    assert_eq!(list(&PageQuery { page: None }, 4).unwrap().page, Page { current: 1, total: 2 });
    let missing = list(&PageQuery { page: Some(3) }, 4).unwrap_err();
    assert_eq!(missing.status, ApiStatus::NotFound);
    assert_eq!(missing.body.error, "page out of range");

    assert_eq!(get(vec!["a", "b"]).unwrap(), "a");
    let none = get(Vec::<&str>::new()).unwrap_err();
    assert_eq!(none.status, ApiStatus::NotFound);
    assert_eq!(none.body.error, "post not found");

    let listing = Listing { items: vec![10, 11], page: Page { current: 2, total: 5 }, total_items: 14 };
    let body = PageResponse::from(listing);
    assert_eq!(body.items, vec![10, 11]);
    assert_eq!(body.page, 2);
    assert_eq!(body.total_pages, 5);
    assert_eq!(body.total_items, 14);
}

#[test]
fn flash_messages_render_one_per_line() {
    assert_eq!(render_flash_messages(&vec![]), "");
    assert_eq!(render_flash_messages(&vec!["a".to_string(), "b c".to_string()]), "a\nb c\n");
}

#[test]
fn test_redirect_user_integration() {
    let redirect = redirect_user();
    assert_eq!(redirect.status, RedirectStatus::TemporaryRedirect);
    assert_eq!(redirect.location, "/posts/page/1");
}

#[test]
fn guest_and_admin_listing_pages() {
    let page = index(2, 7).unwrap();
    assert_eq!(page.pages_count, vec![1, 2, 3]);
    assert!(page.pagination.contains(r#"<a class="active"  href="/posts/page/2">2</a>"#));
    assert_eq!(index(4, 7).unwrap_err().location, "/posts/page/1");
    assert_eq!(index(0, 7).unwrap_err().status, RedirectStatus::SeeOther);

    assert_eq!(index_redirect(5).unwrap().pagination, "");
    assert_eq!(index_redirect(0).unwrap_err().location, "/posts/page/1");

    let empty = get_category_posts("3", 1, 0).unwrap();
    assert_eq!(empty.plan.page, Page { current: 1, total: 1 });
    assert!(empty.pagination.contains(r#"href="/posts/category/3/page/1""#));
    assert_eq!(get_category_posts("3", 2, 0).unwrap_err().location, "/posts/category/3/page/1");

    let admin = admin_index(1, 4).unwrap();
    assert_eq!(admin.pagination, admin_main_page(1, 2));
    assert_eq!(admin_index(3, 4).unwrap_err().location, "/admin/posts/page/1");
    assert_eq!(get_categories_posts("9", 5, 1).unwrap_err().location, "/admin/categories/9/page/1");
    assert_eq!(get_all_categories(0, 1).unwrap_err().location, "/admin/categories/page/1");
    assert_eq!(get_all_categories(1, 1).unwrap().plan.page, Page { current: 1, total: 1 });
}

#[test]
fn admin_main_page_exact_text() {
    assert_eq!(
        admin_main_page(1, 2),
        "<div class=\"card mb-4\">\n                        <!-- Basic Pagination -->\n                        <!-- Basic Pagination -->\n                        <nav aria-label=\"Page navigation\">\n                        <ul class=\"pagination\">\n                        \n             <li class=\"page-item active\">\n              <a class=\"page-link \"   href=\"/admin/posts/page/1\">1</a></li>\n             <li class=\"page-item\">\n              <a class=\"page-link \"   href=\"/admin/posts/page/2\">2</a></li></ul>\n        </nav>"
    );
}

#[test]
fn posts_need_a_title_and_a_description() {
    let post = |t: &str, d: &str| NewPost { title: t.to_string(), description: d.to_string(), category_id: 0 };
    assert!(post("t", "d").validate().is_ok());
    let e = post("", "").validate().unwrap_err();
    assert_eq!((e.field.as_str(), e.message.as_str()), ("title", "title cannot be empty"));
    let e = post("t", "").validate().unwrap_err();
    assert_eq!((e.field.as_str(), e.message.as_str()), ("description", "description cannot be empty"));
    let rejection = post_validate_or_redirect(&post("", "d"), "/admin/posts/page/1").unwrap();
    assert_eq!(rejection.redirect.location, "/admin/posts/page/1");
    assert_eq!(rejection.flash_error, "title cannot be empty");
    assert!(post_validate_or_redirect(&post("t", "d"), "/x").is_none());
    let reply = api_validate(&post("t", "")).unwrap();
    assert_eq!(reply.status, ApiStatus::BadRequest);
    assert_eq!(reply.body.error, "description cannot be empty");
    assert!(api_validate(&post("t", "d")).is_none());
}

#[test]
fn clamping_only_adds_the_first_page_of_an_empty_listing() {
    for p in -1i64..8 {
        for t in [0i64, 1, 3, 7, 9] {
            let plain = resolve_page(p, t, 3, false);
            let clamped = resolve_page(p, t, 3, true);
            if plain.is_some() {
                assert_eq!(clamped, plain);
            }
            if t > 0 {
                assert_eq!(clamped, plain);
            }
            if clamped.is_some() && plain.is_none() {
                assert_eq!((p, t), (1, 0));
            }
        }
    }
    assert_eq!(resolve_page(1, 0, 3, true), Some(Page { current: 1, total: 1 }));
}

