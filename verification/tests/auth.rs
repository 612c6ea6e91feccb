use bundler::auth::{authorized_user, user_header, ToadAuthMiddleware};

#[test]
fn request_without_user_header_is_refused() {
    assert_eq!(authorized_user(None), None);
}

#[test]
fn request_with_user_header_goes_on_as_that_user() {
    assert_eq!(authorized_user(Some(b"alice@example.com")), Some("alice@example.com".to_string()));
    assert_eq!(authorized_user(Some(b"a b\tc")), Some("a b\tc".to_string()));
    assert_eq!(authorized_user(Some(b"")), Some(String::new()));
}

#[test]
fn header_name_is_user() {
    assert_eq!(user_header(), "user");
}

#[test]
fn middleware_wraps_the_service() {
    let s = ToadAuthMiddleware.new_transform(42u32);
    assert_eq!(s.service, 42);
}
