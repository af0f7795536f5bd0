//! Authorization by role patterns.

use vstd::prelude::*;

use crate::auth::types::{AuthError, Claims, SecRequirement, SecRequirementView};
use crate::text::{chars_of, part_is, texts};

verus! {

/// The role pattern that grants every action on every resource.
pub open spec fn full_wildcard() -> Seq<char> {
    seq!['*', ':', '*']
}

/// Whether a text ends in `:*`.
pub open spec fn ends_in_any(text: Seq<char>) -> bool {
    text.len() >= 2 && text[text.len() - 2] == ':' && text.last() == '*'
}

/// Whether a text starts with `*:`.
pub open spec fn starts_with_any(text: Seq<char>) -> bool {
    text.len() >= 2 && text[0] == '*' && text[1] == ':'
}

/// Whether a role pattern grants an action on a resource: `*:*` grants all, `resource:*` all
/// on a resource, `*:action` an action on all, and `resource:action` that one. The forms are
/// tried in this order.
pub open spec fn role_matches(role: Seq<char>, resource: Seq<char>, action: Seq<char>) -> bool {
    if role == full_wildcard() {
        true
    } else if ends_in_any(role) {
        role.take(role.len() - 2) == resource
    } else if starts_with_any(role) {
        role.skip(2) == action
    } else {
        role == resource + seq![':'] + action
    }
}

/// Whether one of the roles grants one of the actions that a requirement names.
pub open spec fn is_granted(roles: Seq<Seq<char>>, requirement: SecRequirementView) -> bool {
    exists|r: int, a: int|
        0 <= r < roles.len() && 0 <= a < requirement.actions.len() && role_matches(
            #[trigger] roles[r],
            requirement.resource,
            #[trigger] requirement.actions[a],
        )
}

/// Whether a role pattern grants an action on a resource.
fn matches_role(role: &str, resource: &str, action: &str) -> (granted: bool)
    ensures
        granted == role_matches(role@, resource@, action@),
{
    let chars = chars_of(role);
    let n = chars.len();
    if n == 3 && chars[0] == '*' && chars[1] == ':' && chars[2] == '*' {
        assert(role@ =~= full_wildcard());
        return true;
    }
    assert(role@ != full_wildcard());
    if n >= 2 && chars[n - 2] == ':' && chars[n - 1] == '*' {
        assert(role@.take(n - 2) =~= chars@.subrange(0, n - 2));
        return part_is(&chars, 0, n - 2, resource);
    }
    if n >= 2 && chars[0] == '*' && chars[1] == ':' {
        assert(role@.skip(2) =~= chars@.subrange(2, n as int));
        return part_is(&chars, 2, n, action);
    }
    let split = chars_of(resource).len();
    let ghost pair = resource@ + seq![':'] + action@;
    if split >= n || chars[split] != ':' {
        assert(pair[resource@.len() as int] == ':');
        return false;
    }
    let granted = part_is(&chars, 0, split, resource) && part_is(&chars, split + 1, n, action);
    proof {
        let front = role@.subrange(0, split as int);
        let back = role@.subrange(split + 1, n as int);
        assert(role@ =~= front + seq![':'] + back);
        if role@ == pair {
            assert(front =~= resource@);
            assert(back =~= action@);
        }
    }
    granted
}

/// Role-based authorizer that checks resource:action patterns.
#[derive(Debug, Clone, Copy, Default)]
pub struct RoleAuthorizer;

impl RoleAuthorizer {
    /// Check if any role matches the requirement pattern.
    pub fn check_role(claims: &Claims, requirement: &SecRequirement) -> (granted: bool)
        ensures
            granted == is_granted(texts(claims.roles@), requirement@),
    {
        let ghost roles = texts(claims.roles@);
        let ghost actions = requirement@.actions;
        for a in 0..requirement.actions.len()
            invariant
                roles == texts(claims.roles@),
                actions == requirement@.actions,
                forall|r: int, b: int|
                    0 <= r < roles.len() && 0 <= b < a ==> !role_matches(
                        #[trigger] roles[r],
                        requirement@.resource,
                        #[trigger] actions[b],
                    ),
        {
            for r in 0..claims.roles.len()
                invariant
                    a < requirement.actions.len(),
                    roles == texts(claims.roles@),
                    actions == requirement@.actions,
                    forall|s: int|
                        0 <= s < r ==> !role_matches(
                            #[trigger] roles[s],
                            requirement@.resource,
                            actions[a as int],
                        ),
            {
                let role = claims.roles[r].as_str();
                let action = requirement.actions[a].as_str();
                assert(roles[r as int] == role@ && actions[a as int] == action@);
                if matches_role(role, requirement.resource.as_str(), action) {
                    return true;
                }
            }
        }
        false
    }

    /// Let the caller through if one of its roles matches the requirement, and forbid it
    /// otherwise.
    pub fn check(&self, claims: &Claims, requirement: &SecRequirement) -> (outcome: Result<
        (),
        AuthError,
    >)
        ensures
            outcome == (if is_granted(texts(claims.roles@), requirement@) {
                Ok(())
            } else {
                Err(AuthError::Forbidden)
            }),
    {
        if Self::check_role(claims, requirement) {
            Ok(())
        } else {
            Err(AuthError::Forbidden)
        }
    }
}

/// A role that grants an action on a resource is `*:*`, `resource:*`, `*:action` or
/// `resource:action`. The first two forms always grant it. The third does unless the action
/// itself ends in `:*`; the fourth does unless that is so or the resource starts with `*:`.
pub proof fn law_role_forms(role: Seq<char>, resource: Seq<char>, action: Seq<char>)
    ensures
        role_matches(role, resource, action) ==> role == full_wildcard() || role == resource + seq![
            ':',
            '*',
        ] || role == seq!['*', ':'] + action || role == resource + seq![':'] + action,
        role == full_wildcard() ==> role_matches(role, resource, action),
        role == resource + seq![':', '*'] ==> role_matches(role, resource, action),
        role == seq!['*', ':'] + action && !ends_in_any(action) ==> role_matches(
            role,
            resource,
            action,
        ),
        role == resource + seq![':'] + action && !ends_in_any(action) && !starts_with_any(resource)
            ==> role_matches(role, resource, action),
{
    let n = role.len() as int;
    if role_matches(role, resource, action) && role != full_wildcard() {
        if ends_in_any(role) {
            assert(role =~= resource + seq![':', '*']);
        } else if starts_with_any(role) {
            assert(role =~= seq!['*', ':'] + action);
        }
    }
    if role == resource + seq![':', '*'] {
        assert(role.take(n - 2) =~= resource);
    }
    if role == seq!['*', ':'] + action && !ends_in_any(action) {
        assert(role.skip(2) =~= action);
        if ends_in_any(role) {
            assert(action.len() == 1);
            assert(role =~= full_wildcard());
        }
    }
    if role == resource + seq![':'] + action && !ends_in_any(action) && !starts_with_any(resource) {
        if ends_in_any(role) {
            assert(action.len() == 1) by {
                assert(role[n - 1] == '*');
                if action.len() == 0 {
                    assert(role[n - 1] == ':');
                }
                if action.len() >= 2 {
                    assert(action.last() == role[n - 1]);
                    assert(action[action.len() - 2] == role[n - 2]);
                }
            }
            assert(role.take(n - 2) =~= resource);
        } else if starts_with_any(role) {
            assert(resource.len() == 1) by {
                if resource.len() == 0 {
                    assert(role[0] == ':');
                }
                if resource.len() >= 2 {
                    assert(resource[0] == role[0] && resource[1] == role[1]);
                }
            }
            assert(role.skip(2) =~= action);
        }
    }
}

/// A further role takes nothing away from a caller.
pub proof fn law_more_roles_never_revoke(
    roles: Seq<Seq<char>>,
    more: Seq<Seq<char>>,
    requirement: SecRequirementView,
)
    ensures
        is_granted(roles, requirement) ==> is_granted(roles + more, requirement),
{
    if is_granted(roles, requirement) {
        let (r, a) = choose|r: int, a: int|
            0 <= r < roles.len() && 0 <= a < requirement.actions.len() && role_matches(
                #[trigger] roles[r],
                requirement.resource,
                #[trigger] requirement.actions[a],
            );
        assert((roles + more)[r] == roles[r]);
    }
}

/// The actions of a requirement are alternatives: it is met where one of them alone would be.
pub proof fn law_actions_are_any_of(roles: Seq<Seq<char>>, requirement: SecRequirementView)
    ensures
        is_granted(roles, requirement) <==> exists|a: int|
            0 <= a < requirement.actions.len() && is_granted(
                roles,
                SecRequirementView {
                    resource: requirement.resource,
                    actions: seq![#[trigger] requirement.actions[a]],
                },
            ),
{
    if is_granted(roles, requirement) {
        let (r, a) = choose|r: int, a: int|
            0 <= r < roles.len() && 0 <= a < requirement.actions.len() && role_matches(
                #[trigger] roles[r],
                requirement.resource,
                #[trigger] requirement.actions[a],
            );
        let alone = SecRequirementView {
            resource: requirement.resource,
            actions: seq![requirement.actions[a]],
        };
        assert(role_matches(roles[r], alone.resource, alone.actions[0]));
        assert(is_granted(roles, alone));
    }
    assert forall|a: int|
        0 <= a < requirement.actions.len() && is_granted(
            roles,
            SecRequirementView {
                resource: requirement.resource,
                actions: seq![#[trigger] requirement.actions[a]],
            },
        ) implies is_granted(roles, requirement) by {
        let alone = SecRequirementView {
            resource: requirement.resource,
            actions: seq![requirement.actions[a]],
        };
        let (r, b) = choose|r: int, b: int|
            0 <= r < roles.len() && 0 <= b < alone.actions.len() && role_matches(
                #[trigger] roles[r],
                alone.resource,
                #[trigger] alone.actions[b],
            );
        assert(role_matches(roles[r], requirement.resource, requirement.actions[a]));
    }
}

/// Nobody meets a requirement without a role, and nobody meets one that names no action.
pub proof fn law_nothing_is_granted_by_default(
    roles: Seq<Seq<char>>,
    requirement: SecRequirementView,
)
    ensures
        roles.len() == 0 || requirement.actions.len() == 0 ==> !is_granted(roles, requirement),
{
}

/// The role `*:*` meets every requirement that names an action.
pub proof fn law_full_wildcard_grants_all(roles: Seq<Seq<char>>, requirement: SecRequirementView)
    requires
        roles.contains(full_wildcard()),
        requirement.actions.len() > 0,
    ensures
        is_granted(roles, requirement),
{
    let r = choose|r: int| 0 <= r < roles.len() && roles[r] == full_wildcard();
    assert(role_matches(roles[r], requirement.resource, requirement.actions[0]));
}

/// A role of the list that has one of the four forms meets the requirement, wherever it stands
/// in the list and whichever of the actions it is for.
pub proof fn law_any_role_grants_any_action(
    claims: &Claims,
    requirement: &SecRequirement,
    granted: bool,
    r: int,
    a: int,
)
    requires
        call_ensures(RoleAuthorizer::check_role, (claims, requirement), granted),
        0 <= r < claims.roles@.len(),
        0 <= a < requirement.actions@.len(),
        ({
            let role = claims.roles@[r]@;
            let resource = requirement.resource@;
            let action = requirement.actions@[a]@;
            let n = action.len();
            let action_ends_in_any = n >= 2 && action[n - 2] == ':' && action[n - 1] == '*';
            let resource_starts_with_any = resource.len() >= 2 && resource[0] == '*' && resource[1]
                == ':';
            ||| role == seq!['*', ':', '*']
            ||| role == resource + seq![':', '*']
            ||| role == seq!['*', ':'] + action && !action_ends_in_any
            ||| role == resource + seq![':'] + action && !action_ends_in_any
                && !resource_starts_with_any
        }),
    ensures
        granted,
{
    let role = claims.roles@[r]@;
    law_role_forms(role, requirement.resource@, requirement.actions@[a]@);
    assert(texts(claims.roles@)[r] == role);
    assert(requirement@.actions[a] == requirement.actions@[a]@);
    assert(role_matches(texts(claims.roles@)[r], requirement@.resource, requirement@.actions[a]));
}

/// Nothing else meets a requirement: where it is met, some role of the list has one of the four
/// forms for some of the actions.
pub proof fn law_only_a_role_grants(claims: &Claims, requirement: &SecRequirement)
    requires
        call_ensures(RoleAuthorizer::check_role, (claims, requirement), true),
    ensures
        exists|r: int, a: int|
            {
                let role = (#[trigger] claims.roles@[r])@;
                let resource = requirement.resource@;
                let action = (#[trigger] requirement.actions@[a])@;
                let n = action.len();
                let action_ends_in_any = n >= 2 && action[n - 2] == ':' && action[n - 1] == '*';
                let resource_starts_with_any = resource.len() >= 2 && resource[0] == '*'
                    && resource[1] == ':';
                &&& 0 <= r < claims.roles@.len()
                &&& 0 <= a < requirement.actions@.len()
                &&& {
                    ||| role == seq!['*', ':', '*']
                    ||| role == resource + seq![':', '*']
                    ||| role == seq!['*', ':'] + action && !action_ends_in_any
                    ||| role == resource + seq![':'] + action && !action_ends_in_any
                        && !resource_starts_with_any
                }
            },
{
    let roles = texts(claims.roles@);
    let (r, a) = choose|r: int, a: int|
        0 <= r < roles.len() && 0 <= a < requirement@.actions.len() && role_matches(
            #[trigger] roles[r],
            requirement@.resource,
            #[trigger] requirement@.actions[a],
        );
    let role = claims.roles@[r]@;
    let resource = requirement.resource@;
    let action = requirement.actions@[a]@;
    assert(roles[r] == role && requirement@.actions[a] == action);
    assert(role_matches(role, resource, action));
    if role != full_wildcard() && !ends_in_any(role) {
        if starts_with_any(role) {
            assert(role =~= seq!['*', ':'] + action);
            assert(action.len() >= 2 ==> role[role.len() - 2] == action[action.len() - 2]
                && role.last() == action.last());
        } else {
            assert(action.len() >= 2 ==> role[role.len() - 2] == action[action.len() - 2]
                && role.last() == action.last());
            assert(resource.len() >= 2 ==> role[0] == resource[0] && role[1] == resource[1]);
        }
    } else if role != full_wildcard() {
        assert(role =~= resource + seq![':', '*']);
    }
}

/// The order of the roles does not matter, nor how often one is listed, nor the order of the
/// actions: two callers that have the same roles are treated alike.
pub proof fn law_order_of_roles_does_not_matter(
    claims: &Claims,
    requirement: &SecRequirement,
    granted: bool,
    other_claims: &Claims,
    other_requirement: &SecRequirement,
    other_granted: bool,
)
    requires
        call_ensures(RoleAuthorizer::check_role, (claims, requirement), granted),
        call_ensures(RoleAuthorizer::check_role, (other_claims, other_requirement), other_granted),
        requirement.resource@ == other_requirement.resource@,
        forall|r: int|
            0 <= r < claims.roles@.len() ==> exists|s: int|
                0 <= s < other_claims.roles@.len() && (#[trigger] other_claims.roles@[s])@ == (
                #[trigger] claims.roles@[r])@,
        forall|s: int|
            0 <= s < other_claims.roles@.len() ==> exists|r: int|
                0 <= r < claims.roles@.len() && (#[trigger] claims.roles@[r])@ == (
                #[trigger] other_claims.roles@[s])@,
        forall|a: int|
            0 <= a < requirement.actions@.len() ==> exists|b: int|
                0 <= b < other_requirement.actions@.len() && (
                #[trigger] other_requirement.actions@[b])@ == (#[trigger] requirement.actions@[a])@,
        forall|b: int|
            0 <= b < other_requirement.actions@.len() ==> exists|a: int|
                0 <= a < requirement.actions@.len() && (#[trigger] requirement.actions@[a])@ == (
                #[trigger] other_requirement.actions@[b])@,
    ensures
        granted == other_granted,
{
    if granted {
        lemma_granted_to_others(claims, requirement, other_claims, other_requirement);
    }
    if other_granted {
        lemma_granted_to_others(other_claims, other_requirement, claims, requirement);
    }
}

proof fn lemma_granted_to_others(
    claims: &Claims,
    requirement: &SecRequirement,
    other_claims: &Claims,
    other_requirement: &SecRequirement,
)
    requires
        requirement.resource@ == other_requirement.resource@,
        forall|r: int|
            0 <= r < claims.roles@.len() ==> exists|s: int|
                0 <= s < other_claims.roles@.len() && (#[trigger] other_claims.roles@[s])@ == (
                #[trigger] claims.roles@[r])@,
        forall|a: int|
            0 <= a < requirement.actions@.len() ==> exists|b: int|
                0 <= b < other_requirement.actions@.len() && (
                #[trigger] other_requirement.actions@[b])@ == (#[trigger] requirement.actions@[a])@,
        is_granted(texts(claims.roles@), requirement@),
    ensures
        is_granted(texts(other_claims.roles@), other_requirement@),
{
    let roles = texts(claims.roles@);
    let others = texts(other_claims.roles@);
    let (r, a) = choose|r: int, a: int|
        0 <= r < roles.len() && 0 <= a < requirement@.actions.len() && role_matches(
            #[trigger] roles[r],
            requirement@.resource,
            #[trigger] requirement@.actions[a],
        );
    let s = choose|s: int|
        0 <= s < other_claims.roles@.len() && (#[trigger] other_claims.roles@[s])@
            == claims.roles@[r]@;
    let b = choose|b: int|
        0 <= b < other_requirement.actions@.len() && (#[trigger] other_requirement.actions@[b])@
            == requirement.actions@[a]@;
    assert(others[s] == roles[r]);
    assert(other_requirement@.actions[b] == requirement@.actions[a]);
    assert(role_matches(others[s], other_requirement@.resource, other_requirement@.actions[b]));
}

/// A caller is let through if its roles meet the requirement, and forbidden if they do not.
pub proof fn law_check_goes_by_the_roles(
    authorizer: &RoleAuthorizer,
    claims: &Claims,
    requirement: &SecRequirement,
    granted: bool,
    outcome: Result<(), AuthError>,
)
    requires
        call_ensures(RoleAuthorizer::check_role, (claims, requirement), granted),
        call_ensures(RoleAuthorizer::check, (authorizer, claims, requirement), outcome),
    ensures
        granted ==> outcome == Ok::<(), AuthError>(()),
        !granted ==> outcome == Err::<(), AuthError>(AuthError::Forbidden),
{
}

} // verus!
