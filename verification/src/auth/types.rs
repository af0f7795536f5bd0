//! What a route asks of the caller, and what a caller brings.

use vstd::prelude::*;

use crate::protocol::Method;
use crate::text::{same_text, same_texts, texts};

verus! {

/// Security requirement: a resource, and the actions of which one must be granted on it.
#[derive(Debug)]
pub struct SecRequirement {
    pub resource: String,
    pub actions: Vec<String>,
}

/// What a [`SecRequirement`] says.
pub struct SecRequirementView {
    pub resource: Seq<char>,
    pub actions: Seq<Seq<char>>,
}

impl View for SecRequirement {
    type V = SecRequirementView;

    open spec fn view(&self) -> SecRequirementView {
        SecRequirementView { resource: self.resource@, actions: texts(self.actions@) }
    }
}

impl SecRequirement {
    pub fn new(resource: String, actions: Vec<String>) -> (requirement: Self)
        ensures
            requirement.resource == resource,
            requirement.actions == actions,
    {
        SecRequirement { resource, actions }
    }
}

impl Clone for SecRequirement {
    fn clone(&self) -> (copy: Self)
        ensures
            copy@ == self@,
    {
        let copy = SecRequirement {
            resource: self.resource.clone(),
            actions: self.actions.clone(),
        };
        assert(texts(copy.actions@) =~= texts(self.actions@));
        copy
    }
}

impl PartialEq for SecRequirement {
    fn eq(&self, other: &Self) -> (same: bool) {
        same_text(self.resource.as_str(), other.resource.as_str()) && same_texts(
            &self.actions,
            &other.actions,
        )
    }
}

impl vstd::std_specs::cmp::PartialEqSpecImpl for SecRequirement {
    open spec fn obeys_eq_spec() -> bool {
        true
    }

    open spec fn eq_spec(&self, other: &Self) -> bool {
        self@ == other@
    }
}

impl Eq for SecRequirement {

}

/// Route-level authentication requirement.
#[derive(Debug)]
pub enum AuthRequirement {
    /// No authentication required; route is public from auth perspective.
    NotRequired,
    /// Authentication required; `None` means no extra RBAC requirement,
    /// `Some(SecRequirement)` means enforce this resource:action requirement.
    Required(Option<SecRequirement>),
    /// Optional authentication: if a valid token is present, use it;
    /// otherwise proceed anonymously.
    Optional,
}

/// What an [`AuthRequirement`] says.
pub enum AuthRequirementView {
    NotRequired,
    Required(Option<SecRequirementView>),
    Optional,
}

/// What an optional [`SecRequirement`] says.
pub open spec fn opt_requirement(requirement: Option<SecRequirement>) -> Option<
    SecRequirementView,
> {
    match requirement {
        Some(requirement) => Some(requirement@),
        None => None,
    }
}

impl View for AuthRequirement {
    type V = AuthRequirementView;

    open spec fn view(&self) -> AuthRequirementView {
        match self {
            AuthRequirement::NotRequired => AuthRequirementView::NotRequired,
            AuthRequirement::Required(requirement) => AuthRequirementView::Required(
                opt_requirement(*requirement),
            ),
            AuthRequirement::Optional => AuthRequirementView::Optional,
        }
    }
}

impl Clone for AuthRequirement {
    fn clone(&self) -> (copy: Self)
        ensures
            copy@ == self@,
    {
        match self {
            AuthRequirement::NotRequired => AuthRequirement::NotRequired,
            AuthRequirement::Required(None) => AuthRequirement::Required(None),
            AuthRequirement::Required(Some(requirement)) => AuthRequirement::Required(
                Some(requirement.clone()),
            ),
            AuthRequirement::Optional => AuthRequirement::Optional,
        }
    }
}

impl PartialEq for AuthRequirement {
    fn eq(&self, other: &Self) -> (same: bool) {
        match (self, other) {
            (AuthRequirement::NotRequired, AuthRequirement::NotRequired) => true,
            (AuthRequirement::Optional, AuthRequirement::Optional) => true,
            (AuthRequirement::Required(None), AuthRequirement::Required(None)) => true,
            (
                AuthRequirement::Required(Some(a)),
                AuthRequirement::Required(Some(b)),
            ) => a.eq(b),
            _ => false,
        }
    }
}

impl vstd::std_specs::cmp::PartialEqSpecImpl for AuthRequirement {
    open spec fn obeys_eq_spec() -> bool {
        true
    }

    open spec fn eq_spec(&self, other: &Self) -> bool {
        self@ == other@
    }
}

impl Eq for AuthRequirement {

}

/// Route policy that determines authentication requirements for routes.
pub trait RoutePolicy {
    /// Resolve the authentication requirement for a given method and path.
    fn resolve(&self, method: &Method, path: &str) -> AuthRequirement;
}

/// A fixed requirement is the policy that asks the same of every route.
impl RoutePolicy for AuthRequirement {
    fn resolve(&self, _method: &Method, _path: &str) -> (requirement: AuthRequirement)
        ensures
            requirement@ == self@,
    {
        self.clone()
    }
}

/// What is known of an authenticated caller, as far as authorization reads it.
#[derive(Debug)]
pub struct Claims {
    /// Granted role patterns, such as `users:read`, `users:*` or `*:*`.
    pub roles: Vec<String>,
}

/// Why a caller is turned away.
#[derive(Debug, Clone, Copy, PartialEq, Eq, Structural)]
pub enum AuthError {
    Forbidden,
}

/// A requirement is made of what it was given, with all actions in their order, and a copy of
/// it names the same resource and the same actions.
pub proof fn law_requirement_names_what_it_was_given(
    resource: String,
    actions: Vec<String>,
    requirement: SecRequirement,
    copy: SecRequirement,
)
    requires
        call_ensures(SecRequirement::new, (resource, actions), requirement),
        call_ensures(<SecRequirement as Clone>::clone, (&requirement,), copy),
    ensures
        requirement.resource@ == resource@,
        requirement.actions@ == actions@,
        copy.resource@ == resource@,
        copy.actions@.len() == actions@.len(),
        forall|a: int|
            0 <= a < actions@.len() ==> (#[trigger] copy.actions@[a])@ == actions@[a]@,
{
    lemma_same_actions(copy.actions@, actions@);
}

proof fn lemma_same_actions(actions: Seq<String>, other: Seq<String>)
    requires
        texts(actions) == texts(other),
    ensures
        actions.len() == other.len(),
        forall|a: int| 0 <= a < other.len() ==> (#[trigger] actions[a])@ == other[a]@,
{
    assert(texts(actions).len() == actions.len() && texts(other).len() == other.len());
    assert forall|a: int| 0 <= a < other.len() implies (#[trigger] actions[a])@ == other[a]@ by {
        assert(texts(actions)[a] == actions[a]@ && texts(other)[a] == other[a]@);
    }
}

/// Two requirements are the same if and only if they name the same resource and the same actions
/// in the same order.
pub proof fn law_same_requirement(requirement: &SecRequirement, other: &SecRequirement, same: bool)
    requires
        call_ensures(<SecRequirement as PartialEq>::eq, (requirement, other), same),
    ensures
        same <==> {
            &&& requirement.resource@ == other.resource@
            &&& requirement.actions@.len() == other.actions@.len()
            &&& forall|a: int|
                0 <= a < other.actions@.len() ==> (#[trigger] requirement.actions@[a])@
                    == other.actions@[a]@
        },
{
    let left = requirement@.actions;
    let right = other@.actions;
    if same {
        lemma_same_actions(requirement.actions@, other.actions@);
    } else if requirement.resource@ == other.resource@ && left.len() == right.len() && (forall|
        a: int,
    |
        0 <= a < other.actions@.len() ==> (#[trigger] requirement.actions@[a])@
            == other.actions@[a]@) {
        assert forall|a: int| 0 <= a < left.len() implies left[a] == right[a] by {
            assert(left[a] == requirement.actions@[a]@);
        }
        assert(left =~= right);
    }
}

/// A fixed requirement asks for itself on every route: whether authentication is required, and
/// if so on which resource and for which actions.
pub proof fn law_fixed_policy_asks_for_itself(
    policy: &AuthRequirement,
    method: &Method,
    path: &str,
    asked: AuthRequirement,
)
    requires
        call_ensures(<AuthRequirement as RoutePolicy>::resolve, (policy, method, path), asked),
    ensures
        policy is NotRequired <==> asked is NotRequired,
        policy is Optional <==> asked is Optional,
        policy matches AuthRequirement::Required(None) ==> asked == AuthRequirement::Required(None),
        policy matches AuthRequirement::Required(Some(wanted)) ==> {
            &&& asked matches AuthRequirement::Required(Some(requirement))
            &&& requirement.resource@ == wanted.resource@
            &&& requirement.actions@.len() == wanted.actions@.len()
            &&& forall|a: int|
                0 <= a < wanted.actions@.len() ==> (#[trigger] requirement.actions@[a])@
                    == wanted.actions@[a]@
        },
{
    if let AuthRequirement::Required(Some(wanted)) = policy {
        if let AuthRequirement::Required(Some(requirement)) = asked {
            lemma_same_actions(requirement.actions@, wanted.actions@);
        }
    }
}

} // verus!
