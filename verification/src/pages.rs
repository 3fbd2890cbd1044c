use vstd::prelude::*;
use vstd::string::StringExecFns;
use crate::errors::{ApiError, DbError};
use crate::models::{slug_of, DbUser, MarkdownItem, TinyUrl};
use crate::paths::{
    file_name_of, join, join_path, parent_of, path_file_name, path_parent, path_starts_with,
    path_starts_with_spec, url_encode_path, url_encoded,
};
use crate::status::{BAD_REQUEST, INTERNAL_SERVER_ERROR};
use crate::text::chars_of;

verus! {

/// The folder of users' markdown files.
pub open spec fn users_root() -> Seq<char> {
    join_path("markdown"@, "users"@)
}

/// The path of a user's markdown file: `markdown/users/<username>/<sub_path>`
/// joined as `Path::join` does.
pub open spec fn markdown_path(username: Seq<char>, sub_path: Seq<char>) -> Seq<char> {
    join_path(join_path(users_root(), username), sub_path)
}

/// The path of a user's markdown file.
pub fn markdown_path_from(username: &str, sub_path: &str) -> (r: String)
    ensures
        r@ == markdown_path(username@, sub_path@),
{
    let root = join("markdown", "users");
    let user_dir = join(root.as_str(), username);
    join(user_dir.as_str(), sub_path)
}

/// Whether the owner of a token (its subject) may reach `path`: only inside
/// the owner's own folder, by whole components.
pub fn assert_payload_access(sub: &str, path: &str) -> (r: bool)
    ensures
        r == path_starts_with_spec(path@, join_path(users_root(), sub@)),
{
    let root = join("markdown", "users");
    let prefix = join(root.as_str(), sub);
    path_starts_with(path, prefix.as_str())
}

/// The URL of the folder above a file: the parent path, except that the
/// folder of all users (or a path without parent) gives the empty text.
pub open spec fn moveup_url(file_path: Seq<char>) -> Seq<char> {
    let up = match parent_of(file_path) {
        Some(p) => if p == "markdown/users"@ {
            Seq::empty()
        } else {
            p
        },
        None => Seq::empty(),
    };
    url_encoded(vstd::utf8::encode_utf8(up))
}

/// The URL of the folder above a file.
pub fn moveup_url_from(file_path: &str) -> (r: String)
    ensures
        r@ == moveup_url(file_path@),
{
    let moveup_url = match path_parent(file_path) {
        Some(parent_path) => {
            if parent_path == "markdown/users".to_owned() {
                String::new()
            } else {
                parent_path
            }
        },
        None => String::new(),
    };
    url_encode_path(moveup_url.as_str())
}

/// The item that describes a user's markdown file of `size` bytes: named by
/// the file name (or the whole path). Directories are refused with a 400.
pub fn markdown_item(sub_path: &str, is_dir: bool, size: u64) -> (r: Result<MarkdownItem, ApiError>)
    ensures
        is_dir ==> (r matches Err(e) && e.status_code == BAD_REQUEST && e.messages() == seq![
            "markdown directory requests are NOT yet handled"@,
        ] && !e.with_ui),
        !is_dir ==> (r matches Ok(item) && item.size == size && item.filename@ == match file_name_of(
            sub_path@,
        ) {
            Some(n) => n,
            None => sub_path@,
        }),
{
    if is_dir {
        let mut errors: Vec<String> = Vec::new();
        errors.push("markdown directory requests are NOT yet handled".to_owned());
        let e = ApiError::bad_request(errors);
        assert(e.messages() =~= seq!["markdown directory requests are NOT yet handled"@]);
        Err(e)
    } else {
        let filename = match path_file_name(sub_path) {
            Some(n) => n,
            None => sub_path.to_owned(),
        };
        Ok(MarkdownItem { filename, size })
    }
}

/// The full URL that a signed link points to: `/<url>?jwt=<token>`.
pub open spec fn signed_url(markdown_url: Seq<char>, token: Seq<char>) -> Seq<char> {
    "/"@ + markdown_url + "?jwt="@ + token
}

/// The tiny URL of a markdown file signed with a token.
pub fn signed_tiny_url(markdown_url: &str, token: &str) -> (r: TinyUrl)
    ensures
        r.full_url_view() == signed_url(markdown_url@, token@),
        r.slug_view() == slug_of(signed_url(markdown_url@, token@)),
{
    let full_url = "/".to_owned().concat(markdown_url).concat("?jwt=").concat(token);
    TinyUrl::new(full_url)
}

/// What rocket makes of a URL read as an origin-form URI (`/path?query`):
/// the URI printed back, or none when the text is no such URI.
pub uninterp spec fn origin_form(url: Seq<char>) -> Option<Seq<char>>;

/// Calls rocket's `Uri::parse::<Origin>(url)`, then `Uri::origin` and prints
/// the origin with its `Display`.
/// Claimed: the result, named by `origin_form`. As rocket_http shows, the
/// parser needs a `/` first (`peek(b'/')`) and consumes the whole input
/// (`parse!` ends with `eof`), keeping the path and the query as raw slices of
/// it; `Display` writes the raw path, then `?` and the raw query when there
/// is one. So a URL that parses starts with `/` and prints back as itself.
/// Which texts parse (the URI grammar) is left to the name.
#[verifier::external_body]
fn parse_origin(url: &str) -> (r: Option<String>)
    ensures
        match r {
            Some(o) => origin_form(url@) == Some(o@) && o@ == url@ && starts_with_slash(url@),
            None => origin_form(url@) is None,
        },
{
    match rocket::http::uri::Uri::parse::<rocket::http::uri::Origin>(url) {
        Ok(uri) => match uri.origin() {
            Some(origin) => Some(origin.to_string()),
            None => None,
        },
        Err(_) => None,
    }
}

/// The page that a sign-in asks for: the requested one, or `/users/`.
pub open spec fn wanted_after_login(redirect_url: Option<String>) -> Seq<char> {
    match redirect_url {
        Some(u) => u@,
        None => "/users/"@,
    }
}

/// Where a sign-in goes on: the wanted page when it reads as an origin-form
/// URI (printed back by rocket), else the users' index `/users`.
pub open spec fn login_target(redirect_url: Option<String>) -> Seq<char> {
    match origin_form(wanted_after_login(redirect_url)) {
        Some(o) => o,
        None => "/users"@,
    }
}

/// The text starts with `/`, as a path on this site does.
pub open spec fn starts_with_slash(s: Seq<char>) -> bool {
    s.len() > 0 && s[0] == '/'
}

/// Where a sign-in goes on. A URL that is not a path on this site (an
/// absolute URL such as `https://...`, or no URI at all) never leaves it:
/// the sign-in goes to `/users` instead.
pub fn login_redirect_target(redirect_url: Option<String>) -> (r: String)
    ensures
        r@ == login_target(redirect_url),
        origin_form(wanted_after_login(redirect_url)) is Some ==> r@ == wanted_after_login(redirect_url),
        !starts_with_slash(wanted_after_login(redirect_url)) ==> r@ == "/users"@,
{
    let wanted = match redirect_url {
        Some(u) => u,
        None => "/users/".to_owned(),
    };
    match parse_origin(wanted.as_str()) {
        Some(o) => o,
        None => "/users".to_owned(),
    }
}

/// The answer to a sign-in through the login form.
#[derive(Debug, PartialEq, Eq)]
pub enum LoginAnswer {
    /// The user store failed: 500.
    ServerError(ApiError),
    /// No user matched: back to the login page, keeping the requested page.
    BackToLogin(Option<String>),
    /// Signed in as `username`; the browser goes on to `redirect`.
    SignedIn { username: String, redirect: String },
}

/// The answer to a sign-in, given what the sign-in check gave (the store's
/// error, nobody, or the matching user) and the requested page.
pub fn login_answer(signin: Result<Option<DbUser>, DbError>, redirect_url: Option<String>) -> (r:
    LoginAnswer)
    ensures
        match signin {
            Err(_) => r matches LoginAnswer::ServerError(e) && e.status_code == INTERNAL_SERVER_ERROR
                && e.messages() == seq!["Internal Server Error"@] && !e.with_ui,
            Ok(None) => r == LoginAnswer::BackToLogin(redirect_url),
            Ok(Some(u)) => r matches LoginAnswer::SignedIn { username, redirect } && username == u.username
                && redirect@ == login_target(redirect_url) && (origin_form(
                wanted_after_login(redirect_url),
            ) is Some ==> redirect@ == wanted_after_login(redirect_url)) && (!starts_with_slash(
                wanted_after_login(redirect_url),
            ) ==> redirect@ == "/users"@),
        },
{
    match signin {
        Err(_) => LoginAnswer::ServerError(ApiError::internal_server_error()),
        Ok(None) => LoginAnswer::BackToLogin(redirect_url),
        Ok(Some(user)) => {
            let redirect = login_redirect_target(redirect_url);
            LoginAnswer::SignedIn { username: user.username, redirect }
        },
    }
}

/// The answer to a request for a tiny URL.
#[derive(Debug, PartialEq, Eq)]
pub enum TinyUrlAnswer {
    /// No tiny URL has the slug: 404.
    NotFound,
    /// Redirect to the stored URL, as rocket prints it back.
    Redirect(String),
    /// The stored URL is no origin-form URI: 500.
    ServerError,
}

/// The answer to a request for a tiny URL, given the one stored under the
/// slug, if any. A redirect goes to the stored URL itself, which is then a
/// path on this site.
pub fn tiny_url_answer(stored: Option<TinyUrl>) -> (r: TinyUrlAnswer)
    ensures
        match stored {
            None => r == TinyUrlAnswer::NotFound,
            Some(t) => match origin_form(t.full_url_view()) {
                Some(o) => r matches TinyUrlAnswer::Redirect(u) && u@ == o && u@ == t.full_url_view()
                    && starts_with_slash(t.full_url_view()),
                None => r == TinyUrlAnswer::ServerError,
            },
        },
{
    match stored {
        None => TinyUrlAnswer::NotFound,
        Some(t) => {
            let full_url = t.get_full_url();
            match parse_origin(full_url.as_str()) {
                Some(o) => TinyUrlAnswer::Redirect(o),
                None => TinyUrlAnswer::ServerError,
            }
        },
    }
}

/// Where the site's root redirects to (302 Found).
pub fn index() -> (r: String)
    ensures
        r@ == "/markdown/AboutMe.md"@,
{
    "/markdown/AboutMe.md".to_owned()
}

/// Where the base routes' root redirects to (301 Moved Permanently): the
/// project's README page.
pub fn base_index() -> (r: String)
    ensures
        r@ == "/README.md"@,
{
    "/README.md".to_owned()
}

/// A plain text as shown in a page: every space becomes a line break
/// `<br />` (the text split at spaces and joined with breaks).
pub open spec fn space_breaks(s: Seq<char>) -> Seq<char>
    decreases s.len(),
{
    if s.len() == 0 {
        Seq::empty()
    } else {
        space_breaks(s.drop_last()) + if s.last() == ' ' {
            seq!['<', 'b', 'r', ' ', '/', '>']
        } else {
            seq![s.last()]
        }
    }
}

/// A text without spaces is shown as it is: every character other than a
/// space is kept.
pub proof fn text_without_spaces_is_kept(s: Seq<char>)
    requires
        !s.contains(' '),
    ensures
        space_breaks(s) == s,
    decreases s.len(),
{
    if s.len() > 0 {
        assert(s.contains(s.last()));
        assert(!s.drop_last().contains(' ')) by {
            if s.drop_last().contains(' ') {
                let k = choose|k: int| 0 <= k < s.drop_last().len() && s.drop_last()[k] == ' ';
                assert(s[k] == ' ');
            }
        }
        text_without_spaces_is_kept(s.drop_last());
        assert(s.drop_last().push(s.last()) =~= s);
    }
}

/// Showing two texts one after the other is showing each of them: the line
/// breaks of a text depend on its own characters alone.
pub proof fn breaks_of_joined_texts(a: Seq<char>, b: Seq<char>)
    ensures
        space_breaks(a + b) == space_breaks(a) + space_breaks(b),
    decreases b.len(),
{
    if b.len() == 0 {
        assert(a + b =~= a);
        assert(space_breaks(a) + space_breaks(b) =~= space_breaks(a));
    } else {
        breaks_of_joined_texts(a, b.drop_last());
        assert((a + b).drop_last() =~= a + b.drop_last());
        assert((a + b).last() == b.last());
    }
}

/// Each space becomes one line break `<br />`: the text is split at its
/// spaces and the pieces are joined with breaks.
pub proof fn each_space_becomes_a_break(a: Seq<char>, b: Seq<char>)
    ensures
        space_breaks(a + seq![' '] + b) == space_breaks(a) + seq!['<', 'b', 'r', ' ', '/', '>']
            + space_breaks(b),
{
    breaks_of_joined_texts(a + seq![' '], b);
    breaks_of_joined_texts(a, seq![' ']);
    let one = seq![' '];
    assert(one.drop_last() =~= Seq::<char>::empty());
    assert(one.last() == ' ');
    assert(space_breaks(Seq::<char>::empty()) == Seq::<char>::empty());
    assert(space_breaks(one) == space_breaks(one.drop_last()) + seq!['<', 'b', 'r', ' ', '/', '>']);
    assert(Seq::<char>::empty() + seq!['<', 'b', 'r', ' ', '/', '>'] =~= seq!['<', 'b', 'r', ' ', '/', '>']);
}

/// The page text of a plain text file.
pub fn plaintext_html(raw_content: &str) -> (r: String)
    ensures
        r@ == space_breaks(raw_content@),
        !raw_content@.contains(' ') ==> r@ == raw_content@,
{
    proof {
        if !raw_content@.contains(' ') {
            text_without_spaces_is_kept(raw_content@);
        }
    }
    let chars = chars_of(raw_content);
    let mut out: Vec<char> = Vec::new();
    let mut i: usize = 0;
    assert(chars@.take(0) =~= Seq::<char>::empty());
    while i < chars.len()
        invariant
            i <= chars.len(),
            chars@ == raw_content@,
            out@ == space_breaks(chars@.take(i as int)),
        decreases chars.len() - i,
    {
        let c = chars[i];
        let ghost before = out@;
        if c == ' ' {
            out.push('<');
            out.push('b');
            out.push('r');
            out.push(' ');
            out.push('/');
            out.push('>');
        } else {
            out.push(c);
        }
        proof {
            assert(chars@.take(i + 1).drop_last() =~= chars@.take(i as int));
            assert(chars@.take(i + 1).last() == c);
            if c == ' ' {
                assert(out@ =~= before + seq!['<', 'b', 'r', ' ', '/', '>']);
            } else {
                assert(out@ =~= before + seq![c]);
            }
        }
        i = i + 1;
    }
    assert(chars@.take(i as int) =~= chars@);
    crate::text::string_from_chars(out.as_slice())
}

} // verus!
