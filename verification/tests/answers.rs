use hbp::errors::{ApiError, DbError};
use hbp::files::{path_below_root, random_file_view, FileView};
use hbp::markdown::{Blog, FsoMarkdown};
use hbp::models::{DbProfile, DbUser, TinyUrl};
use hbp::users::{served_profile, signup_user, SignupApiPayload};
use hbp::pages::{base_index, login_answer, login_redirect_target, tiny_url_answer, LoginAnswer, TinyUrlAnswer};
use hbp::views::{
    markdown_file_action, signed_link, signed_url_action, user_markdown_file_action, MarkdownFileAction,
    SignedUrlAction, UserFileAction,
};

fn user(name: &str) -> DbUser {
    DbUser { username: name.to_owned(), hashed_password: "hash".to_owned(), title: name.to_owned() }
}

#[test]
fn login_never_leaves_the_site() {
    assert_eq!(login_redirect_target(Some("https://evil.example/x".to_owned())), "/users");
    assert_eq!(login_redirect_target(Some("foo bar".to_owned())), "/users");
    assert_eq!(login_redirect_target(Some(String::new())), "/users");
}

#[test]
fn login_goes_to_the_requested_page() {
    assert_eq!(login_redirect_target(Some("/markdown".to_owned())), "/markdown");
    assert_eq!(login_redirect_target(Some("/a/b?x=1".to_owned())), "/a/b?x=1");
    assert_eq!(login_redirect_target(None), "/users/");
}

#[test]
fn login_answer_on_store_error_is_500() {
    let failure = DbError::internal_server_error("store down".to_owned());
    match login_answer(Err(failure), None) {
        LoginAnswer::ServerError(e) => {
            assert_eq!(e.status_code, 500);
            assert_eq!(e.errors, vec!["Internal Server Error".to_owned()]);
        }
        other => panic!("unexpected {other:?}"),
    }
}

#[test]
fn login_answer_without_match_goes_back_to_login() {
    let answer = login_answer(Ok(None), Some("/markdown".to_owned()));
    assert_eq!(answer, LoginAnswer::BackToLogin(Some("/markdown".to_owned())));
}

#[test]
fn login_answer_signs_in_and_redirects() {
    let answer = login_answer(Ok(Some(user("alice"))), Some("/markdown/users/alice/".to_owned()));
    assert_eq!(
        answer,
        LoginAnswer::SignedIn { username: "alice".to_owned(), redirect: "/markdown/users/alice/".to_owned() }
    );
    let answer = login_answer(Ok(Some(user("bob"))), Some("https://evil.example/x".to_owned()));
    assert_eq!(answer, LoginAnswer::SignedIn { username: "bob".to_owned(), redirect: "/users".to_owned() });
}

#[test]
fn tiny_url_answers() {
    assert_eq!(tiny_url_answer(None), TinyUrlAnswer::NotFound);
    let stored = TinyUrl::new("/markdown/users/alice/a.md?jwt=token".to_owned());
    assert_eq!(
        tiny_url_answer(Some(stored)),
        TinyUrlAnswer::Redirect("/markdown/users/alice/a.md?jwt=token".to_owned())
    );
    let stored = TinyUrl::new("https://elsewhere.example/".to_owned());
    assert_eq!(tiny_url_answer(Some(stored)), TinyUrlAnswer::ServerError);
}

#[test]
fn user_file_refused_for_another_user() {
    let (path, action) = user_markdown_file_action("alice", "notes.md", "bob", true, false, false, true);
    assert_eq!(path, "markdown/users/alice/notes.md");
    match action {
        UserFileAction::Refuse(e) => assert_eq!(e.status_code, 403),
        other => panic!("unexpected {other:?}"),
    }
}

#[test]
fn user_file_refused_outside_own_folder() {
    let (path, action) = user_markdown_file_action("alice", "/etc/passwd", "alice", true, false, true, false);
    assert_eq!(path, "/etc/passwd");
    assert!(matches!(action, UserFileAction::Refuse(ApiError { status_code: 403, .. })));
}

#[test]
fn user_file_actions_in_order() {
    let run = |exists, is_dir, is_plaintext, is_markdown| {
        user_markdown_file_action("alice", "docs", "alice", exists, is_dir, is_plaintext, is_markdown).1
    };
    assert_eq!(run(false, true, true, true), UserFileAction::NotFound);
    assert_eq!(
        run(true, true, true, true),
        UserFileAction::Directory { title: "markdown/users/alice/docs".to_owned() }
    );
    assert_eq!(run(true, false, true, true), UserFileAction::Plaintext);
    assert_eq!(run(true, false, false, true), UserFileAction::Markdown);
    assert_eq!(run(true, false, false, false), UserFileAction::File);
}

#[test]
fn markdown_file_actions() {
    let (path, action) = markdown_file_action("AboutMe.md", false, false, true);
    assert_eq!(path, "markdown/AboutMe.md");
    match action {
        MarkdownFileAction::NotFound(e) => {
            assert_eq!(e.status_code, 404);
            assert!(e.with_ui);
        }
        other => panic!("unexpected {other:?}"),
    }
    assert_eq!(markdown_file_action("AboutMe.md", true, false, true).1, MarkdownFileAction::Markdown);
    assert_eq!(markdown_file_action("logo.png", true, false, false).1, MarkdownFileAction::File);
    assert_eq!(
        markdown_file_action("images/icons", true, true, false).1,
        MarkdownFileAction::Directory { title: "icons".to_owned() }
    );
}

#[test]
fn signed_url_actions() {
    assert!(matches!(
        signed_url_action("alice", "a.md", "bob", true).1,
        SignedUrlAction::Refuse(ApiError { status_code: 403, .. })
    ));
    assert_eq!(signed_url_action("alice", "a.md", "alice", false).1, SignedUrlAction::NotFound);
    let (path, action) = signed_url_action("alice", "a.md", "alice", true);
    assert_eq!(path, "markdown/users/alice/a.md");
    assert_eq!(action, SignedUrlAction::Sign);
}

#[test]
fn signed_link_with_and_without_token() {
    let link = signed_link("markdown/users/alice/a.md", Some("tok".to_owned()));
    assert_eq!(link.get_full_url(), "/markdown/users/alice/a.md?jwt=tok");
    let link = signed_link("markdown/users/alice/a.md", None);
    assert_eq!(link.get_full_url(), "/markdown/users/alice/a.md?jwt=");
}

#[test]
fn random_file_view_and_path() {
    assert_eq!(random_file_view(Some(true)), FileView::Preview);
    assert_eq!(random_file_view(Some(false)), FileView::Raw);
    assert_eq!(random_file_view(None), FileView::Raw);
    assert_eq!(path_below_root("/srv/files/public/a.png", "/srv/files"), Some("/public/a.png".to_owned()));
    assert_eq!(path_below_root("/other/a.png", "/srv/files"), None);
    assert_eq!(path_below_root("/srv", "/srv/files"), None);
}

#[test]
fn template_fields_in_order() {
    let content = "<!--\ntitle: Hello\nauthor: Ann\ntags: a, b\n-->\nbody".to_owned();
    let markdown = FsoMarkdown::from_markdown("notes/hello.md", content.clone());
    let fields = markdown.template_fields();
    let keys: Vec<&str> = fields.texts.iter().map(|(k, _)| k.as_str()).collect();
    assert_eq!(keys, vec!["title", "content", "file_name", "author", "cover_image", "dob"]);
    assert_eq!(fields.texts[0].1, "Hello");
    assert_eq!(fields.texts[1].1, content);
    assert_eq!(fields.texts[2].1, "hello.md");
    assert_eq!(fields.texts[3].1, "Ann");
    assert_eq!(fields.tags, Some(vec!["a".to_owned(), "b".to_owned()]));

    let blog = Blog { title: "T".to_owned(), dob: "2020/01/02".to_owned(), ..Blog::default() };
    let fields = blog.template_fields();
    assert_eq!(fields.texts[0], ("title".to_owned(), "T".to_owned()));
    assert_eq!(fields.texts[5], ("dob".to_owned(), "2020/01/02".to_owned()));
    assert_eq!(fields.tags, None);
}

#[test]
fn blog_missing_message_and_base_index() {
    assert_eq!(Blog::missing_message("blogs/a.md"), "blogs/a.md NOT exists");
    assert_eq!(base_index(), "/README.md");
}

#[test]
fn signed_link_is_stored_under_its_slug() {
    let link = signed_link("markdown/users/alice/a.md", Some("tok".to_owned()));
    assert_eq!(link.get_slug(), TinyUrl::slug_from("/markdown/users/alice/a.md?jwt=tok"));
    assert_eq!(link, TinyUrl::new("/markdown/users/alice/a.md?jwt=tok".to_owned()));
}

#[test]
fn stored_tiny_url_redirects_to_itself() {
    let url = "/markdown/users/a/x.md?jwt=t".to_owned();
    let stored = TinyUrl::from_stored(TinyUrl::slug_from(&url), url.clone());
    assert_eq!(tiny_url_answer(Some(stored)), TinyUrlAnswer::Redirect(url));
    let url = "/a?".to_owned();
    assert_eq!(tiny_url_answer(Some(TinyUrl::new(url.clone()))), TinyUrlAnswer::Redirect(url));
}

#[test]
fn served_profile_is_made_once() {
    let alice = user("alice");
    let (made, store) = served_profile(None, Some(alice)).unwrap();
    assert!(store);
    assert_eq!(
        made,
        DbProfile { username: "alice".to_owned(), title: "alice".to_owned(), avatar_url: None, description: None }
    );
    let (again, store) = served_profile(Some(made.clone()), None).unwrap();
    assert!(!store);
    assert_eq!(again, made);
    let missing = served_profile(None, None).unwrap_err();
    assert_eq!(missing.status_code, 404);
    assert_eq!(missing.message, "Not Found");
}

#[test]
fn signup_stores_a_default_cost_hash() {
    let payload = SignupApiPayload { username: "ann".to_owned(), password: "secret".to_owned() };
    let u = signup_user(payload).unwrap();
    assert_eq!(u.hashed_password.len(), 60);
    assert!(u.hashed_password.starts_with("$2b$12$"));
    assert_ne!(u.hashed_password, "secret");
}
