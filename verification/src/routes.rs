use vstd::prelude::*;
use crate::errors::ApiError;
use crate::status::{reason_phrase, reason_phrase_of, NOT_FOUND, OK, UNAUTHORIZED};
use crate::text::chars_of;
use vstd::string::StringExecFns;

verus! {

/// The HTTP methods that the site's routes answer.
#[derive(Debug, Clone, Copy, PartialEq, Eq)]
pub enum HttpMethod {
    Get,
    Post,
    Put,
    Delete,
}

/// One route of a table: its method, its URI pattern (Rocket's syntax), its
/// rank when one is set, and the name of the handler that answers it.
#[derive(Debug, Clone, PartialEq, Eq)]
pub struct RouteSpec {
    pub method: HttpMethod,
    pub uri: String,
    pub rank: Option<isize>,
    pub handler: String,
}

/// A route as plain values.
pub type RouteView = (HttpMethod, Seq<char>, Option<isize>, Seq<char>);

/// The routes of a table as plain values.
pub open spec fn route_views(v: Seq<RouteSpec>) -> Seq<RouteView> {
    v.map_values(|r: RouteSpec| (r.method, r.uri@, r.rank, r.handler@))
}

/// No two routes of a table share method, URI pattern and rank, so that no
/// pair of them is the same route twice (Rocket refuses to launch with
/// colliding routes).
pub open spec fn no_duplicate_routes(t: Seq<RouteView>) -> bool {
    forall|i: int, j: int|
        0 <= i < j < t.len() ==> !(#[trigger] t[i].0 == #[trigger] t[j].0 && t[i].1 == t[j].1
            && t[i].2 == t[j].2)
}

fn route(method: HttpMethod, uri: &str, rank: Option<isize>, handler: &str) -> (r: RouteSpec)
    ensures
        r.method == method,
        r.uri@ == uri@,
        r.rank == rank,
        r.handler@ == handler@,
{
    RouteSpec { method, uri: uri.to_owned(), rank, handler: handler.to_owned() }
}

pub open spec fn files_api_table() -> Seq<RouteView> {
    seq![
        (HttpMethod::Get, "/raw/<path..>"@, Some(2isize), "api_get_raw_file"@),
        (HttpMethod::Get, "/preview/<path..>"@, None, "api_get_preview_file"@),
        (HttpMethod::Get, "/random/raw?<mime>&<preview>"@, None, "api_get_random_file"@),
        (HttpMethod::Get, "/dir/<path..>"@, None, "api_get_directory"@),
    ]
}

/// The routes of the files API.
pub fn files_api_routes() -> (r: Vec<RouteSpec>)
    ensures
        route_views(r@) == files_api_table(),
{
    let r = vec![
        route(HttpMethod::Get, "/raw/<path..>", Some(2), "api_get_raw_file"),
        route(HttpMethod::Get, "/preview/<path..>", None, "api_get_preview_file"),
        route(HttpMethod::Get, "/random/raw?<mime>&<preview>", None, "api_get_random_file"),
        route(HttpMethod::Get, "/dir/<path..>", None, "api_get_directory"),
    ];
    assert(route_views(r@) =~= files_api_table());
    r
}

pub proof fn files_api_routes_are_distinct()
    ensures
        no_duplicate_routes(files_api_table()),
{
    reveal_strlit("/dir/<path..>");
    reveal_strlit("/preview/<path..>");
    reveal_strlit("/random/raw?<mime>&<preview>");
    reveal_strlit("/raw/<path..>");
    let t = files_api_table();
    assert(t[1].1.len() != t[2].1.len());
    assert(t[1].1.len() != t[3].1.len());
    assert(t[2].1.len() != t[3].1.len());
}

pub open spec fn git_table() -> Seq<RouteView> {
    seq![
        (HttpMethod::Get, "/"@, None, "git_index"@),
        (HttpMethod::Get, "/pull"@, None, "git_pull"@),
    ]
}

/// The routes of the git pages.
pub fn git_routes() -> (r: Vec<RouteSpec>)
    ensures
        route_views(r@) == git_table(),
{
    let r = vec![
        route(HttpMethod::Get, "/", None, "git_index"),
        route(HttpMethod::Get, "/pull", None, "git_pull"),
    ];
    assert(route_views(r@) =~= git_table());
    r
}

pub proof fn git_routes_are_distinct()
    ensures
        no_duplicate_routes(git_table()),
{
    reveal_strlit("/");
    reveal_strlit("/pull");
    let t = git_table();
    assert(t[0].1.len() != t[1].1.len());
}

pub open spec fn dev_null_table() -> Seq<RouteView> {
    seq![
        (HttpMethod::Get, "/"@, None, "get_dev_null"@),
        (HttpMethod::Post, "/"@, None, "post_dev_null"@),
        (HttpMethod::Put, "/"@, None, "put_dev_null"@),
        (HttpMethod::Delete, "/"@, None, "delete_dev_null"@),
    ]
}

/// The routes that answer every request with 200 and do nothing.
pub fn dev_null_routes() -> (r: Vec<RouteSpec>)
    ensures
        route_views(r@) == dev_null_table(),
{
    let r = vec![
        route(HttpMethod::Get, "/", None, "get_dev_null"),
        route(HttpMethod::Post, "/", None, "post_dev_null"),
        route(HttpMethod::Put, "/", None, "put_dev_null"),
        route(HttpMethod::Delete, "/", None, "delete_dev_null"),
    ];
    assert(route_views(r@) =~= dev_null_table());
    r
}

pub proof fn dev_null_routes_are_distinct()
    ensures
        no_duplicate_routes(dev_null_table()),
{
    reveal_strlit("/");
    let t = dev_null_table();
}

pub open spec fn base_table() -> Seq<RouteView> {
    seq![
        (HttpMethod::Get, "/"@, None, "index"@),
        (HttpMethod::Get, "/README.md"@, None, "readme_md"@),
    ]
}

/// The routes of the site's root with the README page, redirecting the root to the README.
pub fn base_routes() -> (r: Vec<RouteSpec>)
    ensures
        route_views(r@) == base_table(),
{
    let r = vec![
        route(HttpMethod::Get, "/", None, "index"),
        route(HttpMethod::Get, "/README.md", None, "readme_md"),
    ];
    assert(route_views(r@) =~= base_table());
    r
}

pub proof fn base_routes_are_distinct()
    ensures
        no_duplicate_routes(base_table()),
{
    reveal_strlit("/");
    reveal_strlit("/README.md");
    let t = base_table();
    assert(t[0].1.len() != t[1].1.len());
}

pub open spec fn index_table() -> Seq<RouteView> {
    seq![
        (HttpMethod::Get, "/"@, None, "index"@),
        (HttpMethod::Get, "/README.md"@, None, "readme_md"@),
    ]
}

/// The routes of the site's root: the root redirects to the about page; the README is rendered.
pub fn index_routes() -> (r: Vec<RouteSpec>)
    ensures
        route_views(r@) == index_table(),
{
    let r = vec![
        route(HttpMethod::Get, "/", None, "index"),
        route(HttpMethod::Get, "/README.md", None, "readme_md"),
    ];
    assert(route_views(r@) =~= index_table());
    r
}

pub proof fn index_routes_are_distinct()
    ensures
        no_duplicate_routes(index_table()),
{
    reveal_strlit("/");
    reveal_strlit("/README.md");
    let t = index_table();
    assert(t[0].1.len() != t[1].1.len());
}

pub open spec fn markdown_table() -> Seq<RouteView> {
    seq![
        (HttpMethod::Get, "/<sub_path..>"@, Some(2isize), "markdown_file"@),
        (HttpMethod::Get, "/users/<username>/<sub_path..>"@, Some(1isize), "user_markdown_file"@),
        (HttpMethod::Get, "/_edit/<sub_path..>"@, None, "user_markdown_editor"@),
        (HttpMethod::Get, "/users"@, Some(1isize), "user_default"@),
    ]
}

/// The routes of markdown pages.
pub fn markdown_routes() -> (r: Vec<RouteSpec>)
    ensures
        route_views(r@) == markdown_table(),
{
    let r = vec![
        route(HttpMethod::Get, "/<sub_path..>", Some(2), "markdown_file"),
        route(HttpMethod::Get, "/users/<username>/<sub_path..>", Some(1), "user_markdown_file"),
        route(HttpMethod::Get, "/_edit/<sub_path..>", None, "user_markdown_editor"),
        route(HttpMethod::Get, "/users", Some(1), "user_default"),
    ];
    assert(route_views(r@) =~= markdown_table());
    r
}

pub proof fn markdown_routes_are_distinct()
    ensures
        no_duplicate_routes(markdown_table()),
{
    reveal_strlit("/<sub_path..>");
    reveal_strlit("/_edit/<sub_path..>");
    reveal_strlit("/users");
    reveal_strlit("/users/<username>/<sub_path..>");
    let t = markdown_table();
    assert(t[1].1.len() != t[3].1.len());
}

pub open spec fn movies_and_tv_api_table() -> Seq<RouteView> {
    seq![
        (HttpMethod::Get, "/<_show_id>"@, None, "api_get_one"@),
        (HttpMethod::Get, "/"@, None, "api_get_shows"@),
    ]
}

/// The routes of the movies and TV API.
pub fn movies_and_tv_api_routes() -> (r: Vec<RouteSpec>)
    ensures
        route_views(r@) == movies_and_tv_api_table(),
{
    let r = vec![
        route(HttpMethod::Get, "/<_show_id>", None, "api_get_one"),
        route(HttpMethod::Get, "/", None, "api_get_shows"),
    ];
    assert(route_views(r@) =~= movies_and_tv_api_table());
    r
}

pub proof fn movies_and_tv_api_routes_are_distinct()
    ensures
        no_duplicate_routes(movies_and_tv_api_table()),
{
    reveal_strlit("/");
    reveal_strlit("/<_show_id>");
    let t = movies_and_tv_api_table();
    assert(t[0].1.len() != t[1].1.len());
}

pub open spec fn nfs_gallery_table() -> Seq<RouteView> {
    seq![
        (HttpMethod::Get, "/"@, None, "all_galleries"@),
    ]
}

/// The routes of the NFT gallery.
pub fn nfs_gallery_routes() -> (r: Vec<RouteSpec>)
    ensures
        route_views(r@) == nfs_gallery_table(),
{
    let r = vec![
        route(HttpMethod::Get, "/", None, "all_galleries"),
    ];
    assert(route_views(r@) =~= nfs_gallery_table());
    r
}

pub proof fn nfs_gallery_routes_are_distinct()
    ensures
        no_duplicate_routes(nfs_gallery_table()),
{
    reveal_strlit("/");
    let t = nfs_gallery_table();
}

pub open spec fn posts_table() -> Seq<RouteView> {
    seq![
        (HttpMethod::Get, "/"@, None, "index"@),
        (HttpMethod::Get, "/<post_id>"@, None, "find_one"@),
        (HttpMethod::Delete, "/<post_id>"@, None, "api_delete_one"@),
        (HttpMethod::Post, "/"@, None, "create"@),
        (HttpMethod::Put, "/"@, None, "update"@),
    ]
}

/// The routes of the posts API.
pub fn posts_routes() -> (r: Vec<RouteSpec>)
    ensures
        route_views(r@) == posts_table(),
{
    let r = vec![
        route(HttpMethod::Get, "/", None, "index"),
        route(HttpMethod::Get, "/<post_id>", None, "find_one"),
        route(HttpMethod::Delete, "/<post_id>", None, "api_delete_one"),
        route(HttpMethod::Post, "/", None, "create"),
        route(HttpMethod::Put, "/", None, "update"),
    ];
    assert(route_views(r@) =~= posts_table());
    r
}

pub proof fn posts_routes_are_distinct()
    ensures
        no_duplicate_routes(posts_table()),
{
    reveal_strlit("/");
    reveal_strlit("/<post_id>");
    let t = posts_table();
    assert(t[0].1.len() != t[1].1.len());
}

pub open spec fn profiles_api_table() -> Seq<RouteView> {
    seq![
        (HttpMethod::Get, "/"@, None, "api_get_profile"@),
    ]
}

/// The routes of the profiles API.
pub fn profiles_api_routes() -> (r: Vec<RouteSpec>)
    ensures
        route_views(r@) == profiles_api_table(),
{
    let r = vec![
        route(HttpMethod::Get, "/", None, "api_get_profile"),
    ];
    assert(route_views(r@) =~= profiles_api_table());
    r
}

pub proof fn profiles_api_routes_are_distinct()
    ensures
        no_duplicate_routes(profiles_api_table()),
{
    reveal_strlit("/");
    let t = profiles_api_table();
}

pub open spec fn tiny_urls_table() -> Seq<RouteView> {
    seq![
        (HttpMethod::Get, "/<id>"@, None, "serve_tiny_url"@),
    ]
}

/// The routes that serve tiny URLs.
pub fn tiny_urls_routes() -> (r: Vec<RouteSpec>)
    ensures
        route_views(r@) == tiny_urls_table(),
{
    let r = vec![
        route(HttpMethod::Get, "/<id>", None, "serve_tiny_url"),
    ];
    assert(route_views(r@) =~= tiny_urls_table());
    r
}

pub proof fn tiny_urls_routes_are_distinct()
    ensures
        no_duplicate_routes(tiny_urls_table()),
{
    reveal_strlit("/<id>");
    let t = tiny_urls_table();
}

pub open spec fn users_table() -> Seq<RouteView> {
    seq![
        (HttpMethod::Get, "/"@, None, "index"@),
        (HttpMethod::Get, "/login?<redirect_url>"@, None, "login"@),
        (HttpMethod::Get, "/signup"@, None, "signup"@),
        (HttpMethod::Post, "/login?<redirect_url>"@, None, "post_login"@),
        (HttpMethod::Post, "/signup"@, None, "post_signup"@),
    ]
}

/// The routes of the users' pages.
pub fn users_routes() -> (r: Vec<RouteSpec>)
    ensures
        route_views(r@) == users_table(),
{
    let r = vec![
        route(HttpMethod::Get, "/", None, "index"),
        route(HttpMethod::Get, "/login?<redirect_url>", None, "login"),
        route(HttpMethod::Get, "/signup", None, "signup"),
        route(HttpMethod::Post, "/login?<redirect_url>", None, "post_login"),
        route(HttpMethod::Post, "/signup", None, "post_signup"),
    ];
    assert(route_views(r@) =~= users_table());
    r
}

pub proof fn users_routes_are_distinct()
    ensures
        no_duplicate_routes(users_table()),
{
    reveal_strlit("/");
    reveal_strlit("/login?<redirect_url>");
    reveal_strlit("/signup");
    let t = users_table();
    assert(t[0].1.len() != t[1].1.len());
    assert(t[0].1.len() != t[2].1.len());
    assert(t[1].1.len() != t[2].1.len());
    assert(t[3].1.len() != t[4].1.len());
}

pub open spec fn users_api_table() -> Seq<RouteView> {
    seq![
        (HttpMethod::Post, "/signup"@, None, "api_post_signup"@),
        (HttpMethod::Post, "/signin"@, None, "api_post_signin"@),
        (HttpMethod::Put, "/<username>"@, None, "api_put_user"@),
    ]
}

/// The routes of the users API.
pub fn users_api_routes() -> (r: Vec<RouteSpec>)
    ensures
        route_views(r@) == users_api_table(),
{
    let r = vec![
        route(HttpMethod::Post, "/signup", None, "api_post_signup"),
        route(HttpMethod::Post, "/signin", None, "api_post_signin"),
        route(HttpMethod::Put, "/<username>", None, "api_put_user"),
    ];
    assert(route_views(r@) =~= users_api_table());
    r
}

pub proof fn users_api_routes_are_distinct()
    ensures
        no_duplicate_routes(users_api_table()),
{
    reveal_strlit("/<username>");
    reveal_strlit("/signin");
    reveal_strlit("/signup");
    let t = users_api_table();
    assert(t[0].1[5] != t[1].1[5]);
}

pub open spec fn markdown_api_table() -> Seq<RouteView> {
    seq![
        (HttpMethod::Get, "/users/<username>/<sub_path..>"@, None, "api_user_markdowns"@),
    ]
}

/// The routes of the markdown API.
pub fn markdown_api_routes() -> (r: Vec<RouteSpec>)
    ensures
        route_views(r@) == markdown_api_table(),
{
    let r = vec![
        route(HttpMethod::Get, "/users/<username>/<sub_path..>", None, "api_user_markdowns"),
    ];
    assert(route_views(r@) =~= markdown_api_table());
    r
}

/// The answer of the `/dev/null` routes to a GET: 200, nothing done.
pub fn get_dev_null() -> (r: u16)
    ensures
        r == OK,
{
    OK
}

/// The answer of the `/dev/null` routes to a POST: 200, nothing done.
pub fn post_dev_null() -> (r: u16)
    ensures
        r == OK,
{
    OK
}

/// The answer of the `/dev/null` routes to a PUT: 200, nothing done.
pub fn put_dev_null() -> (r: u16)
    ensures
        r == OK,
{
    OK
}

/// The answer of the `/dev/null` routes to a DELETE: 200, nothing done.
pub fn delete_dev_null() -> (r: u16)
    ensures
        r == OK,
{
    OK
}

/// How a request that no route answered is answered.
#[derive(Debug, PartialEq, Eq)]
pub enum CatcherResponse {
    /// The sign-in page, to come back to the given path.
    Unauthorized(String),
    /// The error page of the status.
    ErrorPage(u16),
    /// A JSON error.
    Api(ApiError),
}

/// A catcher of a table: the status it catches (all, without one) and the
/// name of its handler.
#[derive(Debug, Clone, PartialEq, Eq)]
pub struct CatcherSpec {
    pub code: Option<u16>,
    pub handler: String,
}

/// The catchers that the site registers: the default one, for every status.
pub fn catchers() -> (r: Vec<CatcherSpec>)
    ensures
        r@.len() == 1,
        r@[0].code is None,
        r@[0].handler@ == "default"@,
{
    vec![CatcherSpec { code: None, handler: "default".to_owned() }]
}

/// The request went to the API: its path begins with `/api/`.
pub open spec fn is_api_path(path: Seq<char>) -> bool {
    path.len() >= 5 && path.take(5) == "/api/"@
}

/// The message of a 404 from the API.
pub open spec fn api_not_found_message() -> Seq<char> {
    reason_phrase_of(NOT_FOUND) + " - Most likely the api endpoint does NOT exist"@
}

fn starts_with_api(path: &str) -> (r: bool)
    ensures
        r == is_api_path(path@),
{
    let p = chars_of(path);
    let prefix = chars_of("/api/");
    proof {
        reveal_strlit("/api/");
    }
    if p.len() < 5 {
        return false;
    }
    let mut i: usize = 0;
    while i < 5
        invariant
            i <= 5 <= p.len(),
            prefix@ == "/api/"@,
            prefix@.len() == 5,
            p@ == path@,
            forall|k: int| 0 <= k < i ==> p@[k] == prefix@[k],
        decreases 5 - i,
    {
        if p[i] != prefix[i] {
            assert(p@.take(5)[i as int] != "/api/"@[i as int]);
            return false;
        }
        i = i + 1;
    }
    assert(p@.take(5) =~= prefix@);
    true
}

/// The default catcher: outside the API an unauthorized request is sent to
/// sign in and any other error gets its error page; in the API a 404 says
/// that the endpoint most likely does not exist, and any other status is
/// answered with its reason phrase.
pub fn default_catcher(status: u16, path: &str) -> (r: CatcherResponse)
    ensures
        !is_api_path(path@) && status == UNAUTHORIZED ==> (r matches CatcherResponse::Unauthorized(
            p,
        ) && p@ == path@),
        !is_api_path(path@) && status != UNAUTHORIZED ==> r == CatcherResponse::ErrorPage(status),
        is_api_path(path@) && status == NOT_FOUND ==> (r matches CatcherResponse::Api(e)
            && e.status_code == NOT_FOUND && e.messages() == seq![api_not_found_message()]
            && !e.with_ui),
        is_api_path(path@) && status != NOT_FOUND ==> (r matches CatcherResponse::Api(e)
            && e.status_code == status && e.messages() == seq![reason_phrase_of(status)]
            && !e.with_ui),
{
    if !starts_with_api(path) {
        if status == UNAUTHORIZED {
            CatcherResponse::Unauthorized(path.to_owned())
        } else {
            CatcherResponse::ErrorPage(status)
        }
    } else if status == NOT_FOUND {
        let msg = reason_phrase(NOT_FOUND).concat(" - Most likely the api endpoint does NOT exist");
        let mut errors: Vec<String> = Vec::new();
        errors.push(msg);
        let e = ApiError { with_ui: false, status_code: NOT_FOUND, errors };
        assert(e.messages() =~= seq![api_not_found_message()]);
        CatcherResponse::Api(e)
    } else {
        CatcherResponse::Api(ApiError::from_status(status))
    }
}

} // verus!
