use hbp::api::{ApiItem, ApiList};
use hbp::errors::{ApiError, DbError};
use hbp::models::{
    ChallengeOrm, DbProfile, DbUser, InsertableNewPost, MarkdownExtraData, NewPost, PostOrm,
    ProfileOrm, TinyUrl, TinyUrlOrm, UserOrm,
};

#[test]
fn reason_phrases_of_httpstatus() {
    let phrase = |code: u16| ApiError::from_status(code).errors[0].clone();
    assert_eq!(phrase(200), "OK");
    assert_eq!(phrase(404), "Not Found");
    assert_eq!(phrase(422), "Unprocessable Entity");
    assert_eq!(phrase(418), "I'm a teapot");
    assert_eq!(phrase(999), "");
}

#[test]
fn api_error_constructors() {
    let e = ApiError::from_status(404);
    assert_eq!(e.status_code, 404);
    assert_eq!(e.errors, vec!["Not Found".to_owned()]);
    assert!(!e.with_ui);
    assert_eq!(ApiError::not_found(), e);
    assert_eq!(ApiError::unauthorized().errors, vec!["Unauthorized".to_owned()]);
    assert_eq!(ApiError::forbidden().status_code, 403);
    assert_eq!(ApiError::not_implemented().status_code, 501);
    assert_eq!(ApiError::internal_server_error().errors, vec!["Internal Server Error".to_owned()]);
    assert_eq!(ApiError::unprocessable_entity().status_code, 422);
    let e = ApiError::from_message("boom", 409);
    assert_eq!(e.status_code, 409);
    assert_eq!(e.errors, vec!["boom".to_owned()]);
    let e = ApiError::bad_request(vec!["a".to_owned(), "b".to_owned()]);
    assert_eq!(e.status_code, 400);
    assert_eq!(e.errors.len(), 2);
    let e = ApiError::new(418, vec![]);
    assert_eq!(e.status_code, 418);
    assert!(e.errors.is_empty());
}

#[test]
fn api_error_builders() {
    let e = ApiError::unprocessable_entity().append_error("extra".to_owned());
    assert_eq!(e.errors, vec!["Unprocessable Entity".to_owned(), "extra".to_owned()]);
    assert_eq!(e.status_code, 422);
    assert!(!e.with_ui);
    let e = e.with_ui();
    assert!(e.with_ui);
    assert_eq!(e.errors.len(), 2);
}

#[test]
fn db_error_becomes_api_error() {
    let e = DbError::internal_server_error("create Challenge failed".to_owned());
    assert_eq!(e.status_code, 500);
    let api = e.into_api_error();
    assert_eq!(api.status_code, 500);
    assert_eq!(api.errors, vec!["create Challenge failed".to_owned()]);
}

#[test]
fn api_item_and_list_are_ok() {
    let item = ApiItem::ok(7u8);
    assert_eq!(item.status_code, 200);
    assert_eq!(item.item, 7);
    let list = ApiList::ok(vec![1, 2, 3]);
    assert_eq!(list.status_code, 200);
    assert_eq!(list.items, vec![1, 2, 3]);
}

#[test]
fn tiny_url_slug_is_upper_hex_sha256() {
    assert_eq!(
        TinyUrl::slug_from("https://example.com"),
        "100680AD546CE6A577F42F52DF33B4CFDCA756859E664B8D7DE329B150D09CE9"
    );
    assert_eq!(
        TinyUrl::slug_from(""),
        "E3B0C44298FC1C149AFBF4C8996FB92427AE41E4649B934CA495991B7852B855"
    );
}

#[test]
fn tiny_url_keeps_its_full_url() {
    let t = TinyUrl::new("https://example.com".to_owned());
    assert_eq!(t.get_full_url(), "https://example.com");
    assert_eq!(t.get_slug(), TinyUrl::slug_from("https://example.com"));
    let stored = TinyUrl::from_stored("S".to_owned(), "u".to_owned());
    assert_eq!(stored.get_slug(), "S");
    assert_eq!(stored.get_full_url(), "u");
}

#[test]
fn profile_from_username_and_user() {
    let p = DbProfile::from_username("hbp".to_owned());
    assert_eq!(p.username, "hbp");
    assert_eq!(p.title, "hbp");
    assert_eq!(p.avatar_url, None);
    assert_eq!(p.description, None);
    let u = DbUser { username: "u".to_owned(), hashed_password: "h".to_owned(), title: "T".to_owned() };
    let p = DbProfile::from(u);
    assert_eq!(p.username, "u");
    assert_eq!(p.title, "T");
    assert_eq!(p.avatar_url, None);
}

#[test]
fn new_post_gets_a_nanoid() {
    let p = InsertableNewPost::from_new_post(NewPost { title: "t".to_owned(), body: "b".to_owned() });
    assert_eq!(p.title, "t");
    assert_eq!(p.body, "b");
    assert_eq!(p.id.chars().count(), 21);
    assert!(p.id.chars().all(|c| c.is_ascii_alphanumeric() || c == '_' || c == '-'));
}

#[test]
fn store_file_names() {
    assert_eq!(ChallengeOrm::default().db_file_name(), "challenges.sled.db");
    assert_eq!(PostOrm::default().db_file_name(), "posts.sled.db");
    assert_eq!(ProfileOrm::default().db_file_name(), "profiles.sled.db");
    assert_eq!(TinyUrlOrm::default().db_file_name(), "tiny_urls.sled.db");
    assert_eq!(UserOrm::default().db_file_name(), "users.sled.db");
}

#[test]
fn markdown_extra_data_defaults_to_empty() {
    let d = MarkdownExtraData::default();
    assert_eq!(d.title, "");
    assert_eq!(d.og_title, "");
    assert_eq!(d.og_image, "");
}

#[test]
fn io_errors_are_reported_plainly() {
    let e = ApiError::from_io_error(std::io::Error::new(std::io::ErrorKind::Other, "disk"), 500);
    assert_eq!(e.status_code, 500);
    assert_eq!(e.errors, vec!["IO Error".to_owned()]);
}

#[test]
fn remote_failures_keep_cause_and_status() {
    let e = ApiError::from_remote_failure(Some("timeout".to_owned()), Some(502));
    assert_eq!(e.status_code, 502);
    assert_eq!(e.errors, vec!["timeout".to_owned()]);
    let e = ApiError::from_remote_failure(None, None);
    assert_eq!(e.status_code, 500);
    assert_eq!(e.errors, vec!["Unknown error".to_owned()]);
}
