use hbp::pages::markdown_item;
use hbp::routes::{markdown_api_routes, HttpMethod, RouteSpec};
use hbp::users::check_user_match;
use rocket::http::{Cookie, Method, Status};
use rocket::local::blocking::Client;
use rocket::route::{BoxFuture, Outcome, Route};
use rocket::{Data, Request};
use std::path::PathBuf;

const USERNAME: &str = "username";

/// The user-markdown API handler, answering with the item's file name. The
/// signed-in user's name is taken from the `USER_JWT` cookie as it is (the
/// token format is not part of the library): no cookie gives 401.
fn api_user_markdowns<'r>(req: &'r Request<'_>, _data: Data<'r>) -> BoxFuture<'r> {
    Box::pin(async move {
        let answer: Result<String, Status> = match req.cookies().get("USER_JWT") {
            None => Err(Status::Unauthorized),
            Some(cookie) => {
                let username = req.routed_segment(1).unwrap_or_default();
                match check_user_match(username, cookie.value()) {
                    Err(e) => Err(Status::from_code(e.status_code).unwrap_or(Status::InternalServerError)),
                    Ok(()) => {
                        let sub_path: PathBuf = req.segments(2..).unwrap_or_default();
                        let sub = sub_path.to_string_lossy().to_string();
                        match markdown_item(&sub, sub_path.is_dir(), 0) {
                            Ok(item) => Ok(item.filename),
                            Err(e) => Err(Status::from_code(e.status_code).unwrap_or(Status::InternalServerError)),
                        }
                    }
                }
            }
        };
        Outcome::from(req, answer)
    })
}

fn to_rocket_route(spec: &RouteSpec) -> Route {
    let method = match spec.method {
        HttpMethod::Get => Method::Get,
        HttpMethod::Post => Method::Post,
        HttpMethod::Put => Method::Put,
        HttpMethod::Delete => Method::Delete,
    };
    match spec.rank {
        Some(rank) => Route::ranked(rank, method, &spec.uri, api_user_markdowns),
        None => Route::new(method, &spec.uri, api_user_markdowns),
    }
}

fn get_client() -> Client {
    let routes: Vec<Route> = markdown_api_routes().iter().map(to_rocket_route).collect();
    let rocket = rocket::build().mount("/", routes);
    Client::untracked(rocket).unwrap_or_else(|e| panic!("Client::untracked() failed: {e:?}"))
}

#[test]
fn rocket_startup_normally() {
    let client = get_client();

    let res = client.get("").dispatch();

    assert_eq!(res.status(), Status::BadRequest);
}

#[test]
fn handle_unauthorized() {
    let client = get_client();

    let res = client.get(format!("/users/{USERNAME}")).dispatch();

    assert_eq!(res.status(), Status::Unauthorized);
}

#[test]
fn handle_username_mismatch() {
    let client = get_client();

    let res = client
        .get(format!("/users/{USERNAME}"))
        .cookie(Cookie::new("USER_JWT", ""))
        .dispatch();

    assert_eq!(res.status(), Status::Forbidden);
}

#[test]
fn api_user_markdowns_works() {
    let client = get_client();

    let res = client
        .get(format!("/users/{USERNAME}/README.md"))
        .cookie(Cookie::new("USER_JWT", USERNAME))
        .dispatch();

    assert_eq!(res.status(), Status::Ok);
    assert_eq!(res.into_string().as_deref(), Some("README.md"));
}
