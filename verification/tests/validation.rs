use api_server_rust::models::{UrlReqBody, UserReqBody};
use api_server_rust::responses::{ApiResponse, Status};
use api_server_rust::user_routes::check_user_request;

fn body(username: &str, password: &str) -> UserReqBody {
    UserReqBody { username: username.to_string(), password: password.to_string() }
}

#[test]
fn credentials_of_six_to_twenty_characters_pass() {
    assert!(body("alice1", "secret").validate().is_ok());
    assert!(body("abcdefghijklmnopqrst", "abcdefghijklmnopqrst").validate().is_ok());
}

#[test]
fn short_username_is_reported() {
    let e = body("bob", "secret12").validate().unwrap_err();
    assert_eq!(e.errors, vec!["Username should be between 6 and 20 length".to_string()]);
}

#[test]
fn long_password_is_reported() {
    let e = body("robert", "abcdefghijklmnopqrstu").validate().unwrap_err();
    assert_eq!(e.errors, vec!["Password should be between 6 and 20 length".to_string()]);
}

#[test]
fn both_fields_reported_username_first() {
    let e = body("", "x").validate().unwrap_err();
    assert_eq!(
        e.errors,
        vec![
            "Username should be between 6 and 20 length".to_string(),
            "Password should be between 6 and 20 length".to_string(),
        ]
    );
}

#[test]
fn length_counts_characters_not_bytes() {
    // six characters, twelve bytes
    assert!(body("éééééé", "ßßßßßß").validate().is_ok());
    // five characters, ten bytes
    assert!(body("ééééé", "secret").validate().is_err());
}

#[test]
fn invalid_body_is_a_bad_request() {
    match check_user_request(&body("bob", "secret12")) {
        Some(ApiResponse::ValidationFailed(e)) => {
            assert_eq!(e.errors.len(), 1);
        }
        other => panic!("unexpected {:?}", other),
    }
    assert_eq!(check_user_request(&body("bob", "secret12")).unwrap().status(), Status::BadRequest);
    assert_eq!(Status::BadRequest.code(), 400);
}

#[test]
fn valid_body_goes_on() {
    assert!(check_user_request(&body("robert", "secret12")).is_none());
}

#[test]
fn url_validation() {
    let good = UrlReqBody { url: "https://example.com/a?b=c".to_string() };
    assert!(good.validate().is_ok());
    let bad = UrlReqBody { url: "not a url".to_string() };
    let e = bad.validate().unwrap_err();
    assert_eq!(e.errors, vec!["The provided URL is not valid.".to_string()]);
}
