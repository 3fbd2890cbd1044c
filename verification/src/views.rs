use vstd::prelude::*;
use crate::errors::ApiError;
use crate::files::is_forbidden;
use crate::status::NOT_FOUND;
use crate::models::{slug_of, TinyUrl};
use crate::pages::{assert_payload_access, markdown_path, markdown_path_from, signed_tiny_url, signed_url, users_root};
use crate::paths::{file_name_of, join, join_path, path_file_name, path_starts_with_spec};
use crate::users::check_user_match;

verus! {

/// A user's token may reach a user's markdown path: it names that user, and
/// the path lies in the token owner's folder (by whole components).
pub open spec fn user_may_reach(username: Seq<char>, sub_path: Seq<char>, jwt_sub: Seq<char>) -> bool {
    &&& username == jwt_sub
    &&& path_starts_with_spec(markdown_path(username, sub_path), join_path(users_root(), jwt_sub))
}

/// The path of a user's markdown file, and whether the signed-in user
/// (the token's subject) may reach it; a 403 when not.
fn checked_user_path(username: &str, sub_path: &str, jwt_sub: &str) -> (r: (String, Result<(), ApiError>))
    ensures
        r.0@ == markdown_path(username@, sub_path@),
        user_may_reach(username@, sub_path@, jwt_sub@) ==> r.1 is Ok,
        !user_may_reach(username@, sub_path@, jwt_sub@) ==> (r.1 matches Err(e) && is_forbidden(e)),
{
    let file_path = markdown_path_from(username, sub_path);
    match check_user_match(username, jwt_sub) {
        Err(e) => (file_path, Err(e)),
        Ok(()) => {
            if assert_payload_access(jwt_sub, file_path.as_str()) {
                (file_path, Ok(()))
            } else {
                (file_path, Err(ApiError::forbidden()))
            }
        },
    }
}

/// What the server shows for a page under a user's markdown folder.
#[derive(Debug, PartialEq, Eq)]
pub enum UserFileAction {
    /// The token may not reach the path.
    Refuse(ApiError),
    /// Nothing is at the path: 404.
    NotFound,
    /// The folder's listing, titled with its path.
    Directory { title: String },
    /// The text file's content as a page (see `plaintext_html`).
    Plaintext,
    /// The markdown file rendered as a page.
    Markdown,
    /// The file as it is.
    File,
}

/// What the server shows for `/markdown/users/<username>/<sub_path>` asked
/// by the owner of a token for `jwt_sub`. The facts about the file
/// (`exists`, `is_dir`, whether it is plain text or markdown) are those of
/// the path that the result gives; the checks come in this order: the
/// token, existence, folder, plain text, markdown.
pub fn user_markdown_file_action(
    username: &str,
    sub_path: &str,
    jwt_sub: &str,
    exists: bool,
    is_dir: bool,
    is_plaintext: bool,
    is_markdown: bool,
) -> (r: (String, UserFileAction))
    ensures
        r.0@ == markdown_path(username@, sub_path@),
        !user_may_reach(username@, sub_path@, jwt_sub@) ==> (r.1 matches UserFileAction::Refuse(e)
            && is_forbidden(e)),
        user_may_reach(username@, sub_path@, jwt_sub@) ==> (if !exists {
            r.1 == UserFileAction::NotFound
        } else if is_dir {
            r.1 matches UserFileAction::Directory { title } && title@ == markdown_path(
                username@,
                sub_path@,
            )
        } else if is_plaintext {
            r.1 == UserFileAction::Plaintext
        } else if is_markdown {
            r.1 == UserFileAction::Markdown
        } else {
            r.1 == UserFileAction::File
        }),
{
    let (file_path, check) = checked_user_path(username, sub_path, jwt_sub);
    let action = match check {
        Err(e) => UserFileAction::Refuse(e),
        Ok(()) => {
            if !exists {
                UserFileAction::NotFound
            } else if is_dir {
                UserFileAction::Directory { title: file_path.clone() }
            } else if is_plaintext {
                UserFileAction::Plaintext
            } else if is_markdown {
                UserFileAction::Markdown
            } else {
                UserFileAction::File
            }
        },
    };
    (file_path, action)
}

/// What the server shows for a page under the public markdown folder.
#[derive(Debug, PartialEq, Eq)]
pub enum MarkdownFileAction {
    /// Nothing is at the path: 404, as an error page.
    NotFound(ApiError),
    /// The folder's listing, titled with its name.
    Directory { title: String },
    /// The file as it is.
    File,
    /// The markdown or plain text file rendered as a page.
    Markdown,
}

/// The title of a folder's listing: its name, or its whole path without one.
pub open spec fn folder_title(path: Seq<char>) -> Seq<char> {
    match file_name_of(path) {
        Some(n) => n,
        None => path,
    }
}

/// What the server shows for `/markdown/<sub_path>`. The facts about the
/// file are those of the path that the result gives (`markdown` joined with
/// `sub_path`); `is_page` tells that the sub path names a markdown or plain
/// text file.
pub fn markdown_file_action(sub_path: &str, exists: bool, is_dir: bool, is_page: bool) -> (r: (
    String,
    MarkdownFileAction,
))
    ensures
        r.0@ == join_path("markdown"@, sub_path@),
        !exists ==> (r.1 matches MarkdownFileAction::NotFound(e) && e.status_code == NOT_FOUND
            && e.messages() == seq!["Not Found"@] && e.with_ui),
        exists && !is_page && is_dir ==> (r.1 matches MarkdownFileAction::Directory { title }
            && title@ == folder_title(r.0@)),
        exists && !is_page && !is_dir ==> r.1 == MarkdownFileAction::File,
        exists && is_page ==> r.1 == MarkdownFileAction::Markdown,
{
    let file_path = join("markdown", sub_path);
    let action = if !exists {
        MarkdownFileAction::NotFound(ApiError::not_found().with_ui())
    } else if !is_page {
        if is_dir {
            let title = match path_file_name(file_path.as_str()) {
                Some(n) => n,
                None => file_path.clone(),
            };
            MarkdownFileAction::Directory { title }
        } else {
            MarkdownFileAction::File
        }
    } else {
        MarkdownFileAction::Markdown
    };
    (file_path, action)
}

/// What the server does for a request to sign a link to a user's markdown
/// file.
#[derive(Debug, PartialEq, Eq)]
pub enum SignedUrlAction {
    /// The token may not reach the path.
    Refuse(ApiError),
    /// Nothing is at the path: 404.
    NotFound,
    /// Sign a link to the file.
    Sign,
}

/// What the server does for a request to sign a link to
/// `/markdown/users/<username>/<sub_path>` from the owner of a token for
/// `jwt_sub`; `exists` is about the path that the result gives.
pub fn signed_url_action(username: &str, sub_path: &str, jwt_sub: &str, exists: bool) -> (r: (
    String,
    SignedUrlAction,
))
    ensures
        r.0@ == markdown_path(username@, sub_path@),
        !user_may_reach(username@, sub_path@, jwt_sub@) ==> (r.1 matches SignedUrlAction::Refuse(e)
            && is_forbidden(e)),
        user_may_reach(username@, sub_path@, jwt_sub@) && !exists ==> r.1 == SignedUrlAction::NotFound,
        user_may_reach(username@, sub_path@, jwt_sub@) && exists ==> r.1 == SignedUrlAction::Sign,
{
    let (file_path, check) = checked_user_path(username, sub_path, jwt_sub);
    let action = match check {
        Err(e) => SignedUrlAction::Refuse(e),
        Ok(()) => if exists {
            SignedUrlAction::Sign
        } else {
            SignedUrlAction::NotFound
        },
    };
    (file_path, action)
}

/// The tiny URL of a signed link to a markdown file: signed with the token,
/// or with an empty token when signing failed.
pub fn signed_link(markdown_url: &str, token: Option<String>) -> (r: TinyUrl)
    ensures
        r.full_url_view() == signed_url(
            markdown_url@,
            match token {
                Some(t) => t@,
                None => Seq::empty(),
            },
        ),
        r.slug_view() == slug_of(r.full_url_view()),
{
    let token = match token {
        Some(t) => t,
        None => String::new(),
    };
    signed_tiny_url(markdown_url, token.as_str())
}

} // verus!
