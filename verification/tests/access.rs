use hbp::errors::ApiError;
use hbp::files::{
    assert_directory_access, assert_file_access, attempt_access, file_matches_mime,
    match_file_type, pick_random_file, wanted_mime,
};
use hbp::pages::{
    assert_payload_access, index, login_redirect_target, markdown_item, markdown_path_from,
    moveup_url_from, plaintext_html, signed_tiny_url,
};
use hbp::paths::{join, url_encode_path};
use hbp::models::TinyUrl;

#[test]
fn public_files_are_open() {
    assert_eq!(attempt_access("files/public/a.png", "files/public", None), Ok(()));
}

#[test]
fn private_files_need_a_token() {
    assert_eq!(attempt_access("files/private/a.png", "files/public", None), Err(ApiError::forbidden()));
    assert_eq!(attempt_access("files/publicity/a.png", "files/public", None), Err(ApiError::forbidden()));
    assert_eq!(attempt_access("files/private/a.png", "files/public", Some(Ok(()))), Ok(()));
    assert_eq!(
        attempt_access("files/private/a.png", "files/public", Some(Err(ApiError::not_found()))),
        Err(ApiError::not_found())
    );
}

#[test]
fn file_access_checks_kind_then_existence() {
    let e = assert_file_access("a/b", true, true).unwrap_err();
    assert_eq!(e.status_code, 422);
    assert_eq!(
        e.errors,
        vec!["Unprocessable Entity".to_owned(), "requested file at \"a/b\" is NOT a file".to_owned()]
    );
    assert_eq!(assert_file_access("a/b", false, false), Err(ApiError::not_found()));
    assert_eq!(assert_file_access("a/b", false, true), Ok(()));
}

#[test]
fn directory_access_checks_kind_then_existence() {
    let e = assert_directory_access("a/b", true, true).unwrap_err();
    assert_eq!(
        e.errors,
        vec![
            "Unprocessable Entity".to_owned(),
            "requested directory at \"a/b\" is NOT a directory".to_owned()
        ]
    );
    assert_eq!(assert_directory_access("a/b", false, false), Err(ApiError::not_found()));
    assert_eq!(assert_directory_access("a/b", false, true), Ok(()));
}

#[test]
fn mime_filters() {
    let img_any = Some(("image".to_owned(), "*".to_owned()));
    let png = Some(("image".to_owned(), "png".to_owned()));
    let text = Some(("text".to_owned(), "*".to_owned()));
    assert!(file_matches_mime("a.png", &img_any));
    assert!(file_matches_mime("a.png", &png));
    assert!(!file_matches_mime("a.png", &text));
    assert!(file_matches_mime("a.png", &None));
    assert!(!file_matches_mime("a.unknownext", &None));
    let guesses = vec![("text".to_owned(), "plain".to_owned())];
    assert!(match_file_type(&guesses, &Some((String::new(), "plain".to_owned()))));
    assert!(!match_file_type(&guesses, &Some(("text".to_owned(), "html".to_owned()))));
    assert!(!match_file_type(&vec![], &None));
}

#[test]
fn wanted_mime_parses_or_refuses() {
    assert_eq!(wanted_mime(None), Ok(None));
    assert_eq!(wanted_mime(Some("image/*".to_owned())), Ok(Some(("image".to_owned(), "*".to_owned()))));
    let e = wanted_mime(Some("garbage".to_owned())).unwrap_err();
    assert_eq!(e.status_code, 400);
    assert_eq!(e.errors, vec!["file_type is malformed".to_owned()]);
}

#[test]
fn random_file_is_one_of_them() {
    assert_eq!(pick_random_file(vec![]), Err(ApiError::not_found()));
    assert_eq!(pick_random_file(vec!["a".to_owned()]), Ok("a".to_owned()));
    let files = vec!["a".to_owned(), "b".to_owned(), "c".to_owned()];
    let picked = pick_random_file(files.clone()).unwrap();
    assert!(files.contains(&picked));
}

#[test]
fn user_markdown_paths() {
    assert_eq!(markdown_path_from("hbp", "a/b.md"), "markdown/users/hbp/a/b.md");
    assert_eq!(markdown_path_from("hbp", ""), "markdown/users/hbp/");
    assert_eq!(markdown_path_from("hbp", "/etc/passwd"), "/etc/passwd");
    assert_eq!(join("a/", "b"), "a/b");
    assert_eq!(join("", "b"), "b");
}

#[test]
fn users_reach_only_their_own_folder() {
    assert!(assert_payload_access("hbp", "markdown/users/hbp/x.md"));
    assert!(assert_payload_access("hbp", "markdown/users/hbp"));
    assert!(!assert_payload_access("hbp", "markdown/users/other/x.md"));
    assert!(!assert_payload_access("hbp", "markdown/users/hbpx/x.md"));
}

#[test]
fn moveup_urls() {
    assert_eq!(moveup_url_from("markdown/users/hbp"), "");
    assert_eq!(moveup_url_from("markdown/users/hbp/notes/a.md"), "markdown/users/hbp/notes");
    assert_eq!(moveup_url_from("a b/c"), "a%20b");
    assert_eq!(moveup_url_from("/"), "");
}

#[test]
fn url_encoding_of_paths() {
    assert_eq!(url_encode_path("a b/ü"), "a%20b/%C3%BC");
    assert_eq!(url_encode_path("plain/path-1_2.~md"), "plain/path-1_2.~md");
    assert_eq!(url_encode_path("?#"), "%3F%23");
}

#[test]
fn markdown_items() {
    let e = markdown_item("notes", true, 0).unwrap_err();
    assert_eq!(e.status_code, 400);
    assert_eq!(e.errors, vec!["markdown directory requests are NOT yet handled".to_owned()]);
    let item = markdown_item("notes/a.md", false, 42).unwrap();
    assert_eq!(item.filename, "a.md");
    assert_eq!(item.size, 42);
}

#[test]
fn signed_links_point_to_the_markdown() {
    let t = signed_tiny_url("markdown/users/hbp/a.md", "tok");
    assert_eq!(t.get_full_url(), "/markdown/users/hbp/a.md?jwt=tok");
    assert_eq!(t.get_slug(), "9C89EB66572D9894B3494D16BE87038F36EBFE8EC2413BA29C7C35EEB67F5486");
    assert_eq!(t, TinyUrl::new("/markdown/users/hbp/a.md?jwt=tok".to_owned()));
}

#[test]
fn redirect_targets() {
    assert_eq!(login_redirect_target(None), "/users/");
    assert_eq!(login_redirect_target(Some("/x".to_owned())), "/x");
    assert_eq!(index(), "/markdown/AboutMe.md");
}

#[test]
fn plain_text_spaces_become_breaks() {
    assert_eq!(plaintext_html("a b  c"), "a<br />b<br /><br />c");
    assert_eq!(plaintext_html(""), "");
    assert_eq!(plaintext_html("line\nnext"), "line\nnext");
}
