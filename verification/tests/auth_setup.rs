use modkit::auth::config::{ApiIngressConfig, AuthConfig, PluginConfig};
use modkit::auth::ingress::Requirement;
use modkit::auth::setup::{build_auth_state, count_parameter_signs, AuthBuildError, Validator};
use modkit::auth::types::{AuthRequirement, RoutePolicy, SecRequirement};
use modkit::protocol::Method;

fn config(auth_disabled: bool, jwks_uri: Option<&str>) -> ApiIngressConfig {
    ApiIngressConfig {
        auth_disabled,
        jwks_uri: jwks_uri.map(str::to_owned),
        issuer: None,
        audience: None,
        require_auth_by_default: true,
    }
}

fn requirement(resource: &str, action: &str) -> Requirement {
    Requirement {
        resource: resource.to_owned(),
        actions: vec![action.to_owned()],
    }
}

fn secured(method: Method, path: &str, resource: &str) -> ((Method, String), Requirement) {
    ((method, path.to_owned()), requirement(resource, "read"))
}

fn never_called(_: &AuthConfig) -> Result<(), String> {
    panic!("no dispatcher is built")
}

#[test]
fn routes_of_the_lists_decide() {
    let (state, policy) = build_auth_state(
        &config(true, None),
        vec![
            secured(Method::GET, "/users/:id", "users"),
            secured(Method::GET, "/users/me", "me"),
            secured(Method::POST, "/users", "users"),
        ],
        vec![
            (Method::GET, "/health".to_owned()),
            (Method::GET, "/docs/:page".to_owned()),
        ],
        never_called,
    )
    .unwrap();
    assert!(matches!(state.validator, Validator::Noop));

    let required = |resource: &str| {
        AuthRequirement::Required(Some(SecRequirement::new(
            resource.to_owned(),
            vec!["read".to_owned()],
        )))
    };
    assert_eq!(policy.resolve(&Method::GET, "/users/42"), required("users"));
    assert_eq!(policy.resolve(&Method::GET, "/users/me"), required("me"));
    assert_eq!(policy.resolve(&Method::POST, "/users"), required("users"));
    assert_eq!(
        policy.resolve(&Method::POST, "/users/42"),
        AuthRequirement::Required(None)
    );
    assert_eq!(
        policy.resolve(&Method::GET, "/health"),
        AuthRequirement::NotRequired
    );
    assert_eq!(
        policy.resolve(&Method::GET, "/docs/intro"),
        AuthRequirement::NotRequired
    );
    assert_eq!(
        policy.resolve(&Method::POST, "/health"),
        AuthRequirement::Required(None)
    );
}

#[test]
fn the_dispatcher_is_built_from_the_configuration() {
    let cfg = ApiIngressConfig {
        auth_disabled: false,
        jwks_uri: Some("https://keys.example".to_owned()),
        issuer: Some("https://issuer.example".to_owned()),
        audience: None,
        require_auth_by_default: false,
    };
    let (state, policy) = build_auth_state(&cfg, vec![], vec![], |auth: &AuthConfig| {
        assert_eq!(auth.mode.provider, "default-oidc");
        assert_eq!(auth.leeway_seconds, 60);
        assert_eq!(auth.issuers, vec!["https://issuer.example"]);
        assert!(auth.audiences.is_empty());
        let jwks = auth.jwks.as_ref().unwrap();
        assert_eq!(jwks.uri, "https://keys.example");
        assert_eq!(jwks.refresh_interval_seconds, 300);
        assert_eq!(jwks.max_backoff_seconds, 3600);
        assert_eq!(auth.plugins.len(), 1);
        let (name, plugin) = &auth.plugins[0];
        assert_eq!(name, "default-oidc");
        match plugin {
            PluginConfig::Oidc {
                tenant_claim,
                roles_claim,
            } => {
                assert_eq!(tenant_claim, "tenants");
                assert_eq!(roles_claim, "roles");
            }
        }
        Ok(7u8)
    })
    .unwrap();
    assert!(matches!(state.validator, Validator::Dispatcher(7)));
    assert_eq!(
        policy.resolve(&Method::GET, "/any"),
        AuthRequirement::NotRequired
    );
}

fn error_of(
    cfg: &ApiIngressConfig,
    requirements: Vec<((Method, String), Requirement)>,
    public_routes: Vec<(Method, String)>,
    reply: Result<(), String>,
) -> AuthBuildError {
    match build_auth_state(cfg, requirements, public_routes, |_: &AuthConfig| reply) {
        Ok(_) => panic!("should not be built"),
        Err(error) => error,
    }
}

#[test]
fn keys_are_needed_where_auth_is_enabled() {
    let error = error_of(&config(false, None), vec![], vec![], Ok(()));
    assert!(matches!(error, AuthBuildError::MissingJwksUri));
    assert_eq!(error.message(), "jwks_uri required when auth is enabled");
}

#[test]
fn a_failing_dispatcher_is_reported() {
    let error = error_of(
        &config(false, Some("u")),
        vec![secured(Method::GET, "/{}", "r")],
        vec![],
        Err("no plugin".to_owned()),
    );
    assert!(matches!(error, AuthBuildError::Dispatcher { .. }));
    assert_eq!(
        error.message(),
        "Failed to build auth dispatcher: no plugin"
    );
}

#[test]
fn the_first_refused_route_is_reported() {
    let error = error_of(
        &config(true, None),
        vec![
            secured(Method::GET, "/a", "r"),
            secured(Method::POST, "/a", "r"),
            secured(Method::GET, "/:", "r"),
            secured(Method::GET, "/{x}y", "r"),
        ],
        vec![(Method::GET, "/{}".to_owned())],
        Ok(()),
    );
    assert!(matches!(error, AuthBuildError::RoutePattern { .. }));
    assert_eq!(
        error.message(),
        "Failed to insert route pattern '/:': Parameters must be registered with a valid name"
    );
}

#[test]
fn a_refused_public_route_is_reported() {
    let error = error_of(
        &config(true, None),
        vec![secured(Method::GET, "/a", "r")],
        vec![
            (Method::GET, "/a".to_owned()),
            (Method::GET, "/b".to_owned()),
            (Method::GET, "/a".to_owned()),
        ],
        Ok(()),
    );
    assert!(matches!(error, AuthBuildError::PublicRoutePattern { .. }));
    assert_eq!(
        error.message(),
        "Failed to insert public route pattern '/a': Insertion failed due to conflict with \
         previously registered route: /a"
    );
}

#[test]
fn parameter_signs_are_counted() {
    assert_eq!(count_parameter_signs("/a/:b/{c}/d"), 2);
    assert_eq!(count_parameter_signs(""), 0);
    assert_eq!(count_parameter_signs(&"/:p".repeat(26)), 26);
    assert_eq!(count_parameter_signs("/{{a}}/{b}/{{{c}"), 2);
}

#[test]
fn paths_on_secured_routes_are_never_open() {
    let (_, policy) = build_auth_state(
        &config(true, None),
        vec![
            secured(Method::GET, "/orders/:id", "orders"),
            secured(Method::GET, "/files/{*path}", "files"),
        ],
        vec![
            (Method::GET, "/orders/:id".to_owned()),
            (Method::GET, "/files/:name".to_owned()),
            (Method::GET, "/open/:name".to_owned()),
        ],
        never_called,
    )
    .unwrap();
    for path in ["/orders/1", "/orders/x.y", "/files/a", "/files/a/b"] {
        assert!(matches!(
            policy.resolve(&Method::GET, path),
            AuthRequirement::Required(Some(_))
        ));
    }
    assert_eq!(
        policy.resolve(&Method::GET, "/open/1"),
        AuthRequirement::NotRequired
    );
    assert_eq!(
        policy.resolve(&Method::GET, "/orders"),
        AuthRequirement::Required(None)
    );
}

#[test]
fn missing_keys_are_reported_for_any_routes() {
    let long = "/:p".repeat(26);
    let error = error_of(
        &config(false, None),
        vec![secured(Method::GET, &long, "r")],
        vec![(Method::GET, long.clone())],
        Ok(()),
    );
    assert!(matches!(error, AuthBuildError::MissingJwksUri));
}

#[test]
fn routes_that_differ_in_parameter_names_alone_collide() {
    let error = error_of(
        &config(true, None),
        vec![
            secured(Method::GET, "/users/:id", "r"),
            secured(Method::POST, "/users/:name", "r"),
            secured(Method::GET, "/users/:id/posts", "r"),
            secured(Method::GET, "/users/:name", "r"),
        ],
        vec![],
        Ok(()),
    );
    assert!(matches!(
        error,
        AuthBuildError::RoutePattern { path, .. } if path == "/users/:name"
    ));
}

#[test]
fn doubled_braces_are_no_parameters() {
    let path = "/{{a}}".repeat(30);
    let (_, policy) = build_auth_state(
        &config(true, None),
        vec![secured(Method::GET, &path, "r")],
        vec![],
        never_called,
    )
    .unwrap();
    assert!(matches!(
        policy.resolve(&Method::GET, &"/{a}".repeat(30)),
        AuthRequirement::Required(Some(_))
    ));
}

#[test]
fn the_policy_does_not_depend_on_the_validator() {
    let routes = || vec![secured(Method::GET, "/a/:x", "r"), secured(Method::GET, "/a/b", "s")];
    let (_, disabled) =
        build_auth_state(&config(true, None), routes(), vec![], never_called).unwrap();
    let (_, other_keys) =
        build_auth_state(&config(true, Some("k")), routes(), vec![], never_called).unwrap();
    let (_, enabled) = build_auth_state(
        &config(false, Some("k")),
        routes(),
        vec![],
        |_: &AuthConfig| Ok(()),
    )
    .unwrap();
    for path in ["/a/b", "/a/c", "/a", "/"] {
        let expected = disabled.resolve(&Method::GET, path);
        assert_eq!(other_keys.resolve(&Method::GET, path), expected);
        assert_eq!(enabled.resolve(&Method::GET, path), expected);
    }
}

#[test]
fn colliding_routes_are_refused_in_either_list() {
    let error = error_of(
        &config(true, None),
        vec![],
        vec![
            (Method::GET, "/x/:a/y".to_owned()),
            (Method::GET, "/x/:b/z".to_owned()),
            (Method::GET, "/x/{c}/y".to_owned()),
        ],
        Ok(()),
    );
    assert!(matches!(
        error,
        AuthBuildError::PublicRoutePattern { path, .. } if path == "/x/{c}/y"
    ));
}
