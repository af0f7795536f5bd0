use modkit::api::path::{
    axum_to_openapi_path, convert_axum_path_to_matchit, normalize_to_axum_path,
};

#[test]
fn test_normalize_to_axum_path() {
    assert_eq!(normalize_to_axum_path("/users/{id}"), "/users/{id}");
    assert_eq!(
        normalize_to_axum_path("/projects/{project_id}/items/{item_id}"),
        "/projects/{project_id}/items/{item_id}"
    );
    assert_eq!(normalize_to_axum_path("/simple"), "/simple");
    assert_eq!(
        normalize_to_axum_path("/users/{id}/edit"),
        "/users/{id}/edit"
    );
}

#[test]
fn test_axum_to_openapi_path() {
    // Regular parameters stay the same
    assert_eq!(axum_to_openapi_path("/users/{id}"), "/users/{id}");
    assert_eq!(
        axum_to_openapi_path("/projects/{project_id}/items/{item_id}"),
        "/projects/{project_id}/items/{item_id}"
    );
    assert_eq!(axum_to_openapi_path("/simple"), "/simple");
    // Wildcards: the router writes {*path}, API documents {path}
    assert_eq!(axum_to_openapi_path("/static/{*path}"), "/static/{path}");
    assert_eq!(
        axum_to_openapi_path("/files/{*filepath}"),
        "/files/{filepath}"
    );
}

#[test]
fn test_convert_axum_path_to_matchit() {
    assert_eq!(convert_axum_path_to_matchit("/users/:id"), "/users/{id}");
    assert_eq!(
        convert_axum_path_to_matchit("/posts/:post_id/comments/:comment_id"),
        "/posts/{post_id}/comments/{comment_id}"
    );
    assert_eq!(convert_axum_path_to_matchit("/health"), "/health"); // No params
    assert_eq!(
        convert_axum_path_to_matchit("/api/v1/:resource/:id/status"),
        "/api/v1/{resource}/{id}/status"
    );
}

#[test]
fn wildcard_stars_are_dropped_once() {
    assert_eq!(axum_to_openapi_path("{**a}"), "{*a}");
    assert_eq!(axum_to_openapi_path("/a/{*b}/{*c}"), "/a/{b}/{c}");
    assert_eq!(axum_to_openapi_path("/a*b/{c*}"), "/a*b/{c*}");
    assert_eq!(axum_to_openapi_path(""), "");
    assert_eq!(axum_to_openapi_path("{"), "{");
}

#[test]
fn parameter_names_end_at_the_first_other_character() {
    assert_eq!(convert_axum_path_to_matchit("/:id.json"), "/{id}.json");
    assert_eq!(convert_axum_path_to_matchit("/:a:b"), "/{a}{b}");
    assert_eq!(convert_axum_path_to_matchit("/:"), "/{}");
    assert_eq!(convert_axum_path_to_matchit("::"), "{}{}");
    assert_eq!(convert_axum_path_to_matchit("/:user_1/x"), "/{user_1}/x");
    assert_eq!(convert_axum_path_to_matchit("/:größe/x"), "/{größe}/x");
    assert_eq!(convert_axum_path_to_matchit("/{id}"), "/{id}");
    assert_eq!(convert_axum_path_to_matchit(""), "");
}

#[test]
fn converted_paths_hold_no_colon() {
    for path in ["/:a/:b", ":", "/a:b:c", "/x"] {
        assert!(!convert_axum_path_to_matchit(path).contains(':'));
    }
}

#[test]
fn wildcard_names_at_the_end_get_a_star() {
    assert_eq!(normalize_to_axum_path("/static/{path}"), "/static/{*path}");
    assert_eq!(normalize_to_axum_path("/files/{filepath}"), "/files/{*filepath}");
    assert_eq!(normalize_to_axum_path("{path}"), "{*path}");
    assert_eq!(
        normalize_to_axum_path("/{id}/files/{path}"),
        "/{id}/files/{*path}"
    );
    for path in [
        "/static/{*path}",
        "/static/{path}/meta",
        "/static/{path}/",
        "/static/path}",
        "/static/{xpath}",
        "/static/{path",
        "path",
        "}",
        "",
        "/größe/{id}",
    ] {
        assert_eq!(normalize_to_axum_path(path), path);
    }
}

#[test]
fn the_two_conversions_fit() {
    for path in ["/static/{path}", "/files/{filepath}", "/users/{id}", "/simple", "{path}"] {
        let normalized = normalize_to_axum_path(path);
        assert_eq!(axum_to_openapi_path(&normalized), path);
        assert_eq!(normalize_to_axum_path(&normalized), normalized);
    }
}
