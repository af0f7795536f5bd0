use modkit::auth::authorizer::RoleAuthorizer;
use modkit::auth::types::{AuthError, Claims, SecRequirement};

fn mock_claims(roles: Vec<String>) -> Claims {
    Claims { roles }
}

fn requirement(resource: &str, actions: &[&str]) -> SecRequirement {
    SecRequirement::new(
        resource.to_owned(),
        actions.iter().map(|a| (*a).to_owned()).collect(),
    )
}

#[test]
fn test_exact_role_match() {
    let auth = RoleAuthorizer;
    let claims = mock_claims(vec!["users:read".to_owned()]);
    let req = requirement("users", &["read"]);

    assert!(auth.check(&claims, &req).is_ok());
}

#[test]
fn test_resource_wildcard() {
    let auth = RoleAuthorizer;
    let claims = mock_claims(vec!["users:*".to_owned()]);
    let req = requirement("users", &["write"]);

    assert!(auth.check(&claims, &req).is_ok());
}

#[test]
fn test_action_wildcard() {
    let auth = RoleAuthorizer;
    let claims = mock_claims(vec!["*:read".to_owned()]);
    let req = requirement("posts", &["read"]);

    assert!(auth.check(&claims, &req).is_ok());
}

#[test]
fn test_full_wildcard() {
    let auth = RoleAuthorizer;
    let claims = mock_claims(vec!["*:*".to_owned()]);
    let req = requirement("anything", &["everything"]);

    assert!(auth.check(&claims, &req).is_ok());
}

#[test]
fn test_no_matching_role() {
    let auth = RoleAuthorizer;
    let claims = mock_claims(vec!["posts:read".to_owned()]);
    let req = requirement("users", &["read"]);

    assert!(matches!(
        auth.check(&claims, &req),
        Err(AuthError::Forbidden)
    ));
}

fn granted(roles: &[&str], resource: &str, actions: &[&str]) -> bool {
    let claims = mock_claims(roles.iter().map(|r| (*r).to_owned()).collect());
    RoleAuthorizer::check_role(&claims, &requirement(resource, actions))
}

#[test]
fn one_action_of_several_is_enough() {
    assert!(granted(&["users:write"], "users", &["read", "write"]));
    assert!(!granted(&["users:delete"], "users", &["read", "write"]));
}

#[test]
fn nothing_is_granted_without_roles_or_actions() {
    assert!(!granted(&[], "users", &["read"]));
    assert!(!granted(&["*:*"], "users", &[]));
}

#[test]
fn further_roles_never_revoke() {
    assert!(granted(&["users:read", "posts:read"], "users", &["read"]));
    assert!(granted(&["posts:read", "users:read"], "users", &["read"]));
}

#[test]
fn role_forms_are_tried_in_order() {
    // the suffix form comes before the prefix form
    assert!(!granted(&["*:a:*"], "users", &["a:*"]));
    assert!(granted(&["*:a:*"], "*:a", &["anything"]));
    // an asterisk as the name of a resource or of an action
    assert!(granted(&["*:read"], "*", &["read"]));
    assert!(granted(&["users:*"], "users", &["*"]));
}

#[test]
fn roles_are_compared_as_a_whole() {
    assert!(!granted(&["users"], "users", &["read"]));
    assert!(!granted(&["users:reader"], "users", &["read"]));
    assert!(!granted(&["superusers:read"], "users", &["read"]));
    assert!(!granted(&[""], "", &[""]));
    assert!(granted(&[":"], "", &[""]));
    assert!(granted(&["größe:lesen"], "größe", &["lesen"]));
}
