use std::sync::Arc;

use modkit::auth::ingress::{decide, IngressRoutePolicy};
use modkit::auth::method_map::MethodMap;
use modkit::auth::routing::{PublicRouteMatcher, RouteMatcher};
use modkit::auth::types::{AuthRequirement, RoutePolicy, SecRequirement};
use modkit::protocol::Method;

/// Helper to build `IngressRoutePolicy` with given matchers
fn build_test_policy(
    route_matchers: MethodMap<RouteMatcher>,
    public_matchers: MethodMap<PublicRouteMatcher>,
    require_auth_by_default: bool,
) -> IngressRoutePolicy {
    IngressRoutePolicy::new(
        Arc::new(route_matchers),
        Arc::new(public_matchers),
        require_auth_by_default,
    )
}

fn requirement(resource: &str, action: &str) -> SecRequirement {
    SecRequirement::new(resource.to_owned(), vec![action.to_owned()])
}

#[test]
fn test_matchit_router_with_params() {
    // matchit 0.8 uses {param} syntax for path parameters (NOT :param)
    let mut router = matchit::Router::new();
    router.insert("/users/{id}", "user_route").unwrap();

    let result = router.at("/users/42");
    assert!(
        result.is_ok(),
        "matchit should match /users/{{id}} against /users/42"
    );
    assert_eq!(*result.unwrap().value, "user_route");
}

#[test]
fn explicit_public_route_with_path_params_returns_none() {
    let mut public_matchers = MethodMap::new();
    let mut matcher = PublicRouteMatcher::new();
    // matchit 0.8 uses {param} syntax
    matcher.insert("/users/{id}").unwrap();

    public_matchers.insert(Method::GET, matcher);

    let policy = build_test_policy(MethodMap::new(), public_matchers, true);

    // Path parameters should match concrete values
    let result = policy.resolve(&Method::GET, "/users/42");
    assert_eq!(result, AuthRequirement::NotRequired);
}

#[test]
fn explicit_public_route_exact_match_returns_none() {
    let mut public_matchers = MethodMap::new();
    let mut matcher = PublicRouteMatcher::new();
    matcher.insert("/health").unwrap();
    public_matchers.insert(Method::GET, matcher);

    let policy = build_test_policy(MethodMap::new(), public_matchers, true);

    let result = policy.resolve(&Method::GET, "/health");
    assert_eq!(result, AuthRequirement::NotRequired);
}

#[test]
fn explicit_secured_route_with_requirement_returns_required() {
    let mut route_matchers = MethodMap::new();
    let mut matcher = RouteMatcher::new();
    let sec_req = requirement("admin", "access");
    matcher.insert("/admin/metrics", sec_req.clone()).unwrap();
    route_matchers.insert(Method::GET, matcher);

    let policy = build_test_policy(route_matchers, MethodMap::new(), false);

    let result = policy.resolve(&Method::GET, "/admin/metrics");
    match result {
        AuthRequirement::Required(Some(req)) => {
            assert_eq!(req.resource, "admin");
            assert_eq!(req.actions, vec!["access"]);
        }
        _ => panic!("Expected Required with SecRequirement"),
    }
}

#[test]
fn route_without_requirement_with_require_auth_by_default_returns_required_none() {
    let policy = build_test_policy(MethodMap::new(), MethodMap::new(), true);

    let result = policy.resolve(&Method::GET, "/profile");
    assert_eq!(result, AuthRequirement::Required(None));
}

#[test]
fn route_without_requirement_without_require_auth_by_default_returns_none() {
    let policy = build_test_policy(MethodMap::new(), MethodMap::new(), false);

    let result = policy.resolve(&Method::GET, "/profile");
    assert_eq!(result, AuthRequirement::NotRequired);
}

#[test]
fn unknown_route_with_require_auth_by_default_true_returns_required() {
    let policy = build_test_policy(MethodMap::new(), MethodMap::new(), true);

    let result = policy.resolve(&Method::POST, "/unknown");
    assert_eq!(result, AuthRequirement::Required(None));
}

#[test]
fn unknown_route_with_require_auth_by_default_false_returns_none() {
    let policy = build_test_policy(MethodMap::new(), MethodMap::new(), false);

    let result = policy.resolve(&Method::POST, "/unknown");
    assert_eq!(result, AuthRequirement::NotRequired);
}

#[test]
fn public_route_overrides_require_auth_by_default() {
    let mut public_matchers = MethodMap::new();
    let mut matcher = PublicRouteMatcher::new();
    matcher.insert("/public").unwrap();
    public_matchers.insert(Method::GET, matcher);

    let policy = build_test_policy(MethodMap::new(), public_matchers, true);

    let result = policy.resolve(&Method::GET, "/public");
    assert_eq!(result, AuthRequirement::NotRequired);
}

#[test]
fn secured_route_has_priority_over_default() {
    let mut route_matchers = MethodMap::new();
    let mut matcher = RouteMatcher::new();
    let sec_req = requirement("users", "read");
    // matchit 0.8 uses {param} syntax
    matcher.insert("/users/{id}", sec_req).unwrap();
    route_matchers.insert(Method::GET, matcher);

    let policy = build_test_policy(route_matchers, MethodMap::new(), false);

    let result = policy.resolve(&Method::GET, "/users/123");
    match result {
        AuthRequirement::Required(Some(req)) => {
            assert_eq!(req.resource, "users");
            assert_eq!(req.actions, vec!["read"]);
        }
        _ => panic!("Expected Required with SecRequirement"),
    }
}

#[test]
fn different_methods_resolve_independently() {
    let mut route_matchers = MethodMap::new();

    // GET /users is secured
    let mut get_matcher = RouteMatcher::new();
    let sec_req = requirement("users", "read");
    get_matcher.insert("/users", sec_req).unwrap();
    route_matchers.insert(Method::GET, get_matcher);

    // POST /users is not in matchers
    let policy = build_test_policy(route_matchers, MethodMap::new(), false);

    // GET should be secured
    let get_result = policy.resolve(&Method::GET, "/users");
    assert!(matches!(get_result, AuthRequirement::Required(Some(_))));

    // POST should be public (no requirement, require_auth_by_default=false)
    let post_result = policy.resolve(&Method::POST, "/users");
    assert_eq!(post_result, AuthRequirement::NotRequired);
}

#[test]
fn secured_route_wins_over_public_route() {
    let mut route_matchers = MethodMap::new();
    let mut secured = RouteMatcher::new();
    secured.insert("/users/{id}", requirement("users", "read")).unwrap();
    route_matchers.insert(Method::GET, secured);
    let mut public_matchers = MethodMap::new();
    let mut public = PublicRouteMatcher::new();
    public.insert("/users/{id}").unwrap();
    public_matchers.insert(Method::GET, public);

    let policy = build_test_policy(route_matchers, public_matchers, false);
    assert_eq!(
        policy.resolve(&Method::GET, "/users/1"),
        AuthRequirement::Required(Some(requirement("users", "read")))
    );
}

#[test]
fn decisions_follow_what_was_found() {
    let req = requirement("users", "read");
    for is_public in [false, true] {
        for by_default in [false, true] {
            assert_eq!(
                decide(Some(req.clone()), is_public, by_default),
                AuthRequirement::Required(Some(req.clone()))
            );
        }
    }
    assert_eq!(decide(None, true, true), AuthRequirement::NotRequired);
    assert_eq!(decide(None, true, false), AuthRequirement::NotRequired);
    assert_eq!(decide(None, false, true), AuthRequirement::Required(None));
    assert_eq!(decide(None, false, false), AuthRequirement::NotRequired);
}

#[test]
fn a_fixed_requirement_is_a_policy() {
    for fixed in [
        AuthRequirement::NotRequired,
        AuthRequirement::Optional,
        AuthRequirement::Required(None),
        AuthRequirement::Required(Some(requirement("users", "read"))),
    ] {
        assert_eq!(fixed.resolve(&Method::GET, "/any"), fixed);
    }
    assert_ne!(AuthRequirement::Optional, AuthRequirement::NotRequired);
    assert_ne!(
        AuthRequirement::Required(None),
        AuthRequirement::Required(Some(requirement("users", "read")))
    );
    assert_ne!(requirement("users", "read"), requirement("users", "write"));
    assert_ne!(requirement("users", "read"), requirement("posts", "read"));
}

#[test]
fn literal_routes_come_before_parameters() {
    let mut matcher = RouteMatcher::new();
    matcher.insert("/users/{id}", requirement("user", "read")).unwrap();
    matcher.insert("/users/me", requirement("me", "read")).unwrap();
    assert_eq!(matcher.find("/users/me").unwrap().resource, "me");
    assert_eq!(matcher.find("/users/you").unwrap().resource, "user");
    assert!(matcher.find("/users").is_none());
    assert!(matcher.find("/users/").is_none());
    assert!(matcher.find("/users/1/posts").is_none());
}

#[test]
fn parameters_take_a_segment_and_wildcards_the_rest() {
    let mut matcher = PublicRouteMatcher::new();
    matcher.insert("/a/{x}/b").unwrap();
    matcher.insert("/files/{*path}").unwrap();
    assert!(matcher.find("/a/1/b"));
    assert!(matcher.find("/a//b"));
    assert!(!matcher.find("/a/1/2/b"));
    assert!(!matcher.find("/a/1"));
    assert!(matcher.find("/files/x"));
    assert!(matcher.find("/files/x/y/z"));
    assert!(matcher.find("/files//"));
    assert!(!matcher.find("/files/"));
}

#[test]
fn a_search_goes_back_to_a_parameter() {
    let mut matcher = RouteMatcher::new();
    matcher.insert("/foo/y", requirement("static", "read")).unwrap();
    matcher.insert("/{a}/x", requirement("param", "read")).unwrap();
    assert_eq!(matcher.find("/foo/x").unwrap().resource, "param");
    assert_eq!(matcher.find("/foo/y").unwrap().resource, "static");
    assert!(matcher.find("/bar/y").is_none());
}

#[test]
fn a_literal_route_is_refused_only_if_it_is_there() {
    let mut matcher = PublicRouteMatcher::new();
    matcher.insert("/a").unwrap();
    matcher.insert("/a/").unwrap();
    matcher.insert("/{x}").unwrap();
    matcher.insert("/b").unwrap();
    assert_eq!(
        matcher.insert("/a").unwrap_err(),
        "Insertion failed due to conflict with previously registered route: /a"
    );
}

#[test]
fn refused_patterns_say_why() {
    let reason = |pattern: &str| RouteMatcher::new().insert(pattern, requirement("r", "a"));
    assert_eq!(
        reason("/{}").unwrap_err(),
        "Parameters must be registered with a valid name"
    );
    assert_eq!(
        reason("/{a}b").unwrap_err(),
        "Only one parameter is allowed per path segment"
    );
    assert_eq!(
        reason("/{*a}/b").unwrap_err(),
        "Catch-all parameters are only allowed at the end of a route"
    );
    let most = "/{a}".repeat(25);
    assert!(reason(&most).is_ok());
}

#[test]
fn method_map_keeps_one_value_for_a_method() {
    let mut map: MethodMap<u8> = MethodMap::new();
    assert!(map.get(&Method::GET).is_none());
    assert_eq!(map.insert(Method::GET, 1), None);
    assert_eq!(map.insert(Method::POST, 2), None);
    assert_eq!(map.insert(Method::GET, 3), Some(1));
    assert_eq!(map.get(&Method::GET), Some(&3));
    assert_eq!(map.get(&Method::POST), Some(&2));
    assert_eq!(map.remove(&Method::GET), Some(3));
    assert_eq!(map.remove(&Method::GET), None);
    assert_eq!(map.get(&Method::POST), Some(&2));
}

#[test]
fn copies_know_the_same_routes_and_go_their_own_way() {
    let mut secured = RouteMatcher::new();
    secured.insert("/users/{id}", requirement("users", "read")).unwrap();
    let mut copy = secured.clone();
    copy.insert("/posts", requirement("posts", "read")).unwrap();
    assert_eq!(copy.find("/users/1").unwrap().resource, "users");
    assert_eq!(copy.find("/posts").unwrap().resource, "posts");
    assert!(secured.find("/posts").is_none());

    let mut public = PublicRouteMatcher::new();
    public.insert("/health").unwrap();
    let copy = public.clone();
    assert!(copy.find("/health"));
    assert!(!copy.find("/users/1"));

    let mut public_matchers = MethodMap::new();
    public_matchers.insert(Method::GET, copy);
    let policy = build_test_policy(MethodMap::new(), public_matchers, true);
    assert_eq!(
        policy.clone().resolve(&Method::GET, "/health"),
        AuthRequirement::NotRequired
    );
    assert_eq!(
        policy.clone().resolve(&Method::GET, "/other"),
        AuthRequirement::Required(None)
    );
}
