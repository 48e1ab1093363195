use blog::controllers::authentication::register::{register, registered};
use blog::controllers::authentication::session::{login, LoginError};
use blog::controllers::guests::posts::{flash_text, get_category_based_posts, index};

#[test]
fn registered_password_logs_in() {
    let hash = register("correct horse").expect("hashing succeeds");
    assert!(hash.starts_with("$argon2"));
    let outcome = login(Some(hash.clone()), "correct horse").unwrap();
    assert!(outcome.log_in);
    assert_eq!(outcome.redirect.location, "/admin/posts/page/1");
    let outcome = login(Some(hash), "wrong horse").unwrap();
    assert!(!outcome.log_in);
    assert_eq!(outcome.redirect.location, "/login");
    assert_eq!(registered().location, "/login");
}

#[test]
fn registration_hashes_every_password() {
    for pw in ["", "x", "pässwörd", &"long".repeat(1000)] {
        let hash = register(pw).unwrap();
        assert!(login(Some(hash), pw).unwrap().log_in);
    }
}

#[test]
fn salts_differ_between_registrations() {
    assert_ne!(register("pw").unwrap(), register("pw").unwrap());
}

#[test]
fn unknown_user_cannot_be_checked() {
    assert_eq!(login(None, "pw").unwrap_err(), LoginError::InvalidStoredHash);
    assert_eq!(login(Some("plain".to_string()), "pw").unwrap_err(), LoginError::InvalidStoredHash);
}

#[test]
fn guest_listing_ranges() {
    assert!(index(3, 7).unwrap().contains("<a class=\"active\"  href=\"/posts/page/3\">3</a>"));
    let wrong = index(4, 7).unwrap_err();
    assert_eq!(wrong.flash_error, "wrong page number");
    assert_eq!(wrong.redirect.location, "/posts/page/1");
    assert!(index(0, 7).is_err());
    assert!(index(-2, 7).is_ok());
    let (bar, page) = get_category_based_posts("5", 1, 0).unwrap();
    assert_eq!(page, 1);
    assert!(bar.contains(r#"<a class="active"  href="/posts/category/5/page/1">1</a>"#));
    assert_eq!(get_category_based_posts("5", 2, 0).unwrap_err().location, "/posts/category/5/page/1");
    let (bar, page) = get_category_based_posts("5", 2, 4).unwrap();
    assert_eq!(page, 2);
    assert!(bar.contains("href=\"/posts/category/5/page/2\">2</a>"));
    assert_eq!(flash_text(&vec!["a".to_string(), "b".to_string()]), "ab");
}
