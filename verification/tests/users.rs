use hbp::errors::ApiError;
use hbp::models::DbUser;
use hbp::users::{
    attemp_signin, check_user_match, profile_for_user, signup_user, SignupApiPayload, SignupBody,
};

fn bad_request(msg: &str) -> ApiError {
    ApiError::from_message(msg, 400)
}

#[test]
fn signup_form_validation() {
    let body = |u: &str, p: &str, c: &str| SignupBody {
        username: u.to_owned(),
        password: p.to_owned(),
        password_confirm: c.to_owned(),
    };
    assert_eq!(body("", "", "").validate(), Err(bad_request("username can NOT be empty")));
    assert_eq!(body("u", "", "x").validate(), Err(bad_request("password can NOT be empty")));
    assert_eq!(
        body("u", "p", "q").validate(),
        Err(bad_request("password & password_confirm does NOT mactch"))
    );
    assert_eq!(body("u", "p", "p").validate(), Ok(()));
}

#[test]
fn signup_payload_validation() {
    let payload = |u: &str, p: &str| SignupApiPayload { username: u.to_owned(), password: p.to_owned() };
    assert_eq!(payload("", "p").validate(), Err(bad_request("username can NOT be empty")));
    assert_eq!(payload("u", "").validate(), Err(bad_request("password can NOT be empty")));
    assert_eq!(payload("u", "p").validate(), Ok(()));
    assert_eq!(
        signup_user(payload("", "p")),
        Err(bad_request("username can NOT be empty"))
    );
}

#[test]
fn signed_up_user_signs_in_with_its_password() {
    let payload = SignupApiPayload { username: "hbp".to_owned(), password: "hunter2".to_owned() };
    let user = signup_user(payload).unwrap();
    assert_eq!(user.username, "hbp");
    assert_eq!(user.title, "hbp");
    assert_ne!(user.hashed_password, "hunter2");
    assert_eq!(attemp_signin(Some(user.clone()), "hunter2"), Some(user.clone()));
    assert_eq!(attemp_signin(Some(user), "wrong"), None);
    assert_eq!(attemp_signin(None, "hunter2"), None);
}

#[test]
fn unreadable_hash_refuses_sign_in() {
    let user = DbUser { username: "u".to_owned(), hashed_password: "not a hash".to_owned(), title: "u".to_owned() };
    assert_eq!(attemp_signin(Some(user), "x"), None);
}

#[test]
fn only_the_same_user_may_update() {
    assert_eq!(check_user_match("hbp", "hbp"), Ok(()));
    assert_eq!(check_user_match("hbp", "other"), Err(ApiError::forbidden()));
}

#[test]
fn profile_comes_from_the_user() {
    let user = DbUser { username: "u".to_owned(), hashed_password: "h".to_owned(), title: "T".to_owned() };
    let p = profile_for_user(Some(user)).unwrap();
    assert_eq!(p.username, "u");
    assert_eq!(p.title, "T");
    let e = profile_for_user(None).unwrap_err();
    assert_eq!(e.status_code, 404);
    assert_eq!(e.message, "Not Found");
}
