use hbp::routes::{
    base_routes, default_catcher, delete_dev_null, dev_null_routes, files_api_routes,
    get_dev_null, git_routes, index_routes, markdown_api_routes, markdown_routes,
    movies_and_tv_api_routes, nfs_gallery_routes, post_dev_null, posts_routes,
    profiles_api_routes, put_dev_null, tiny_urls_routes, users_api_routes, users_routes,
    CatcherResponse, HttpMethod, RouteSpec,
};

fn no_duplicates(routes: &[RouteSpec]) -> bool {
    for i in 0..routes.len() {
        for j in i + 1..routes.len() {
            if routes[i].method == routes[j].method
                && routes[i].uri == routes[j].uri
                && routes[i].rank == routes[j].rank
            {
                return false;
            }
        }
    }
    true
}

#[test]
fn route_tables_hold_no_route_twice() {
    for table in [
        base_routes(),
        dev_null_routes(),
        files_api_routes(),
        git_routes(),
        index_routes(),
        markdown_api_routes(),
        markdown_routes(),
        movies_and_tv_api_routes(),
        nfs_gallery_routes(),
        posts_routes(),
        profiles_api_routes(),
        tiny_urls_routes(),
        users_api_routes(),
        users_routes(),
    ] {
        assert!(no_duplicates(&table));
    }
}

#[test]
fn route_table_contents() {
    let files = files_api_routes();
    assert_eq!(files.len(), 4);
    assert_eq!(files[0].uri, "/raw/<path..>");
    assert_eq!(files[0].rank, Some(2));
    assert_eq!(files[2].handler, "api_get_random_file");
    let dev_null = dev_null_routes();
    let methods: Vec<HttpMethod> = dev_null.iter().map(|r| r.method).collect();
    assert_eq!(methods, vec![HttpMethod::Get, HttpMethod::Post, HttpMethod::Put, HttpMethod::Delete]);
    assert!(dev_null.iter().all(|r| r.uri == "/"));
    assert_eq!(markdown_routes().len(), 4);
    assert_eq!(users_api_routes()[2].method, HttpMethod::Put);
}

#[test]
fn dev_null_answers_ok() {
    assert_eq!(get_dev_null(), 200);
    assert_eq!(post_dev_null(), 200);
    assert_eq!(put_dev_null(), 200);
    assert_eq!(delete_dev_null(), 200);
}

#[test]
fn catcher_outside_the_api() {
    assert_eq!(default_catcher(401, "/markdown/x"), CatcherResponse::Unauthorized("/markdown/x".to_owned()));
    assert_eq!(default_catcher(500, "/markdown/x"), CatcherResponse::ErrorPage(500));
    assert_eq!(default_catcher(404, "/api"), CatcherResponse::ErrorPage(404));
}

#[test]
fn catcher_inside_the_api() {
    match default_catcher(404, "/api/v1/nothing") {
        CatcherResponse::Api(e) => {
            assert_eq!(e.status_code, 404);
            assert_eq!(e.errors, vec!["Not Found - Most likely the api endpoint does NOT exist".to_owned()]);
            assert!(!e.with_ui);
        }
        other => panic!("unexpected {other:?}"),
    }
    match default_catcher(401, "/api/v1/users") {
        CatcherResponse::Api(e) => assert_eq!(e.errors, vec!["Unauthorized".to_owned()]),
        other => panic!("unexpected {other:?}"),
    }
}

#[test]
fn one_default_catcher() {
    let catchers = hbp::routes::catchers();
    assert_eq!(catchers.len(), 1);
    assert_eq!(catchers[0].code, None);
    assert_eq!(catchers[0].handler, "default");
}
