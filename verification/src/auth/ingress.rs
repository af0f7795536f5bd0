//! The ingress: which routes need authentication, and how the parts that check it are built.

use std::sync::Arc;

use vstd::prelude::*;

use crate::auth::method_map::MethodMap;
use crate::auth::routing::{
    any_matches, is_choice, is_literal, is_match, is_orderly, is_selected,
    law_literal_route_is_found, law_precedence_is_strict, pattern_matches, patterns_of, precedes,
    selected, PublicRouteMatcher, RouteMatcher,
};
use crate::auth::types::{
    opt_requirement, AuthRequirement, AuthRequirementView, RoutePolicy, SecRequirement,
    SecRequirementView,
};
use crate::protocol::Method;
use crate::text::texts;

verus! {

/// What a secured route asks for: one of the actions on the resource.
#[derive(Debug)]
pub struct Requirement {
    pub resource: String,
    pub actions: Vec<String>,
}

impl View for Requirement {
    type V = SecRequirementView;

    open spec fn view(&self) -> SecRequirementView {
        SecRequirementView { resource: self.resource@, actions: texts(self.actions@) }
    }
}

impl Clone for Requirement {
    fn clone(&self) -> (copy: Self)
        ensures
            copy@ == self@,
    {
        let copy = Requirement { resource: self.resource.clone(), actions: self.actions.clone() };
        assert(texts(copy.actions@) =~= texts(self.actions@));
        copy
    }
}

/// What the ingress policy knows. Methods are given by their names.
pub struct IngressRoutePolicyView {
    /// The secured routes of each method: pattern and requirement, in the order of insertion.
    pub secured: Map<Seq<char>, Seq<(Seq<char>, SecRequirementView)>>,
    /// The patterns of the explicitly public routes of each method.
    pub public: Map<Seq<char>, Seq<Seq<char>>>,
    pub require_auth_by_default: bool,
}

impl IngressRoutePolicyView {
    /// The requirement of the secured route that a path is matched to.
    pub open spec fn requirement_of(self, method: Seq<char>, path: Seq<char>) -> Option<
        SecRequirementView,
    > {
        if self.secured.contains_key(method) {
            selected(self.secured[method], path)
        } else {
            None
        }
    }

    /// Whether a path is matched to an explicitly public route.
    pub open spec fn is_public(self, method: Seq<char>, path: Seq<char>) -> bool {
        self.public.contains_key(method) && is_selected(self.public[method], path)
    }

    /// Whether a path is, letter for letter, an orderly policy's secured route.
    pub open spec fn has_literal_route(self, method: Seq<char>, path: Seq<char>) -> bool {
        &&& self.secured.contains_key(method)
        &&& is_orderly(patterns_of(self.secured[method]))
        &&& is_literal(path)
        &&& patterns_of(self.secured[method]).contains(path)
    }

    /// Whether a path is on an orderly policy's secured route.
    pub open spec fn is_secured(self, method: Seq<char>, path: Seq<char>) -> bool {
        &&& self.secured.contains_key(method)
        &&& is_orderly(patterns_of(self.secured[method]))
        &&& any_matches(patterns_of(self.secured[method]), path)
    }

    /// Whether a path is on an orderly policy's public route and on no secured one.
    pub open spec fn is_only_public(self, method: Seq<char>, path: Seq<char>) -> bool {
        &&& self.public.contains_key(method)
        &&& is_orderly(self.public[method])
        &&& any_matches(self.public[method], path)
        &&& self.secured.contains_key(method) ==> is_orderly(patterns_of(self.secured[method]))
            && !any_matches(patterns_of(self.secured[method]), path)
    }

    /// What a request has to bring.
    pub open spec fn decision(self, method: Seq<char>, path: Seq<char>) -> AuthRequirementView {
        decision(
            self.requirement_of(method, path),
            self.is_public(method, path),
            self.require_auth_by_default,
        )
    }
}

/// A route with a requirement needs authentication. Any other needs it by default, unless it
/// is explicitly public.
pub open spec fn decision(
    requirement: Option<SecRequirementView>,
    is_public: bool,
    require_auth_by_default: bool,
) -> AuthRequirementView {
    if requirement is Some || (require_auth_by_default && !is_public) {
        AuthRequirementView::Required(requirement)
    } else {
        AuthRequirementView::NotRequired
    }
}

/// What a request has to bring, given what was found for its route.
pub fn decide(
    requirement: Option<SecRequirement>,
    is_public: bool,
    require_auth_by_default: bool,
) -> (decided: AuthRequirement)
    ensures
        decided@ == decision(
            opt_requirement(requirement),
            is_public,
            require_auth_by_default,
        ),
{
    // Public routes should not be forced to auth by default
    let needs_authn = requirement.is_some() || (require_auth_by_default && !is_public);
    if needs_authn {
        AuthRequirement::Required(requirement)
    } else {
        AuthRequirement::NotRequired
    }
}

/// Ingress-specific route policy implementation.
pub struct IngressRoutePolicy {
    route_matchers: Arc<MethodMap<RouteMatcher>>,
    public_matchers: Arc<MethodMap<PublicRouteMatcher>>,
    require_auth_by_default: bool,
}

impl View for IngressRoutePolicy {
    type V = IngressRoutePolicyView;

    closed spec fn view(&self) -> IngressRoutePolicyView {
        IngressRoutePolicyView {
            secured: self.route_matchers@.map_values(|matcher: RouteMatcher| matcher@),
            public: self.public_matchers@.map_values(|matcher: PublicRouteMatcher| matcher@),
            require_auth_by_default: self.require_auth_by_default,
        }
    }
}

impl IngressRoutePolicy {
    pub fn new(
        route_matchers: Arc<MethodMap<RouteMatcher>>,
        public_matchers: Arc<MethodMap<PublicRouteMatcher>>,
        require_auth_by_default: bool,
    ) -> (policy: Self)
        ensures
            policy@ == (IngressRoutePolicyView {
                secured: route_matchers@.map_values(|matcher: RouteMatcher| matcher@),
                public: public_matchers@.map_values(|matcher: PublicRouteMatcher| matcher@),
                require_auth_by_default,
            }),
    {
        IngressRoutePolicy { route_matchers, public_matchers, require_auth_by_default }
    }
}

impl Clone for IngressRoutePolicy {
    fn clone(&self) -> (copy: Self)
        ensures
            copy@ == self@,
    {
        IngressRoutePolicy {
            route_matchers: self.route_matchers.clone(),
            public_matchers: self.public_matchers.clone(),
            require_auth_by_default: self.require_auth_by_default,
        }
    }
}

impl RoutePolicy for IngressRoutePolicy {
    fn resolve(&self, method: &Method, path: &str) -> (requirement: AuthRequirement)
        ensures
            requirement@ == self@.decision(method@, path@),
            self@.secured.contains_key(method@) && is_orderly(patterns_of(self@.secured[method@]))
                ==> is_match(
                self@.secured[method@],
                path@,
                self@.requirement_of(method@, path@),
            ),
            self@.public.contains_key(method@) && is_orderly(self@.public[method@])
                ==> self@.is_public(method@, path@) == any_matches(self@.public[method@], path@),
            self@.has_literal_route(method@, path@) ==> exists|i: int|
                0 <= i < self@.secured[method@].len() && (#[trigger] self@.secured[method@][i]).0
                    == path@ && requirement@ == AuthRequirementView::Required(
                    Some(self@.secured[method@][i].1),
                ),
            self@.is_secured(method@, path@) ==> exists|i: int|
                #[trigger] is_choice(self@.secured[method@], path@, i) && requirement@
                    == AuthRequirementView::Required(Some(self@.secured[method@][i].1)),
            self@.is_only_public(method@, path@) ==> requirement@
                == AuthRequirementView::NotRequired,
    {
        // Find requirement using pattern matching
        let requirement = match self.route_matchers.get(method) {
            Some(matcher) => match matcher.find(path) {
                Some(requirement) => Some(requirement.clone()),
                None => None,
            },
            None => None,
        };
        // Check if route is explicitly public using pattern matching
        let is_public = match self.public_matchers.get(method) {
            Some(matcher) => matcher.find(path),
            None => false,
        };
        proof {
            let routes = self@.secured[method@];
            if self@.has_literal_route(method@, path@) {
                let i = choose|i: int| 0 <= i < routes.len() && patterns_of(routes)[i] == path@;
                assert(routes[i].0 == path@);
                law_literal_route_is_found(
                    routes,
                    path@,
                    self@.requirement_of(method@, path@),
                    i,
                );
            }
            if self@.is_secured(method@, path@) {
                let i = choose|i: int|
                    0 <= i < routes.len() && pattern_matches(
                        #[trigger] patterns_of(routes)[i],
                        path@,
                    );
                assert(pattern_matches(routes[i].0, path@));
            }
            if self@.is_only_public(method@, path@) && self@.secured.contains_key(method@) {
                assert forall|i: int| 0 <= i < routes.len() implies !pattern_matches(
                    (#[trigger] routes[i]).0,
                    path@,
                ) by {
                    assert(patterns_of(routes)[i] == routes[i].0);
                }
            }
        }
        decide(requirement, is_public, self.require_auth_by_default)
    }
}

/// A secured route decides, whatever else is known of the path: its requirement is asked for,
/// though the path may be public too and authentication not be the default.
pub proof fn law_secured_route_has_priority(
    policy: IngressRoutePolicyView,
    method: Seq<char>,
    path: Seq<char>,
)
    requires
        policy.requirement_of(method, path) is Some,
    ensures
        policy.decision(method, path) == AuthRequirementView::Required(
            policy.requirement_of(method, path),
        ),
{
}

/// An explicitly public route that is not secured needs no authentication, whatever the
/// default.
pub proof fn law_public_overrides_default(
    policy: IngressRoutePolicyView,
    method: Seq<char>,
    path: Seq<char>,
)
    requires
        policy.requirement_of(method, path) is None,
        policy.is_public(method, path),
    ensures
        policy.decision(method, path) == AuthRequirementView::NotRequired,
{
}

/// What is neither secured nor public is left to the default: authentication without further
/// requirement, or none.
pub proof fn law_unknown_route_goes_by_default(
    policy: IngressRoutePolicyView,
    method: Seq<char>,
    path: Seq<char>,
)
    requires
        policy.requirement_of(method, path) is None,
        !policy.is_public(method, path),
    ensures
        policy.decision(method, path) == (if policy.require_auth_by_default {
            AuthRequirementView::Required(None)
        } else {
            AuthRequirementView::NotRequired
        }),
{
}

/// The routes of a method that a policy has are not those of another: what is asked of a
/// request depends on the routes of its own method and on the default alone.
pub proof fn law_methods_resolve_independently(
    policy: IngressRoutePolicyView,
    other: IngressRoutePolicyView,
    method: Seq<char>,
    path: Seq<char>,
)
    requires
        policy.secured.contains_key(method) == other.secured.contains_key(method),
        policy.secured.contains_key(method) ==> policy.secured[method] == other.secured[method],
        policy.public.contains_key(method) == other.public.contains_key(method),
        policy.public.contains_key(method) ==> policy.public[method] == other.public[method],
        policy.require_auth_by_default == other.require_auth_by_default,
    ensures
        policy.decision(method, path) == other.decision(method, path),
{
}

/// Authentication is asked for or not; it is never left to the caller.
pub proof fn law_never_optional(
    policy: IngressRoutePolicyView,
    method: Seq<char>,
    path: Seq<char>,
)
    ensures
        policy.decision(method, path) !is Optional,
{
}

/// A requirement that was found is asked for as it is, with its resource and all its actions,
/// whatever else is known. Without one, authentication is asked for if it is the default and the
/// route is not public.
pub proof fn law_decided_by_requirement_then_public_then_default(
    requirement: Option<SecRequirement>,
    is_public: bool,
    require_auth_by_default: bool,
    decided: AuthRequirement,
)
    requires
        call_ensures(decide, (requirement, is_public, require_auth_by_default), decided),
    ensures
        requirement matches Some(wanted) ==> {
            &&& decided matches AuthRequirement::Required(Some(asked))
            &&& asked.resource@ == wanted.resource@
            &&& asked.actions@.len() == wanted.actions@.len()
            &&& forall|a: int|
                0 <= a < wanted.actions@.len() ==> (#[trigger] asked.actions@[a])@
                    == wanted.actions@[a]@
        },
        requirement is None && require_auth_by_default && !is_public ==> decided
            == AuthRequirement::Required(None),
        requirement is None && !(require_auth_by_default && !is_public) ==> decided is NotRequired,
{
    if let Some(wanted) = requirement {
        if let AuthRequirement::Required(Some(asked)) = decided {
            lemma_actions(asked.actions@, wanted@.actions);
            lemma_actions(wanted.actions@, wanted@.actions);
        }
    }
}

proof fn lemma_actions(actions: Seq<String>, wanted: Seq<Seq<char>>)
    requires
        texts(actions) == wanted,
    ensures
        actions.len() == wanted.len(),
        forall|a: int| 0 <= a < wanted.len() ==> (#[trigger] actions[a])@ == wanted[a],
{
    assert(texts(actions).len() == actions.len());
    assert forall|a: int| 0 <= a < wanted.len() implies (#[trigger] actions[a])@ == wanted[a] by {
        assert(texts(actions)[a] == actions[a]@);
    }
}

/// A request on a secured route has to meet the requirement of that route, with its resource and
/// all its actions, whatever the public routes and the default are. Of several routes that the
/// path is on it is the one that comes before the others.
pub proof fn law_request_on_secured_route(
    policy: &IngressRoutePolicy,
    method: &Method,
    path: &str,
    asked: AuthRequirement,
    i: int,
)
    requires
        call_ensures(<IngressRoutePolicy as RoutePolicy>::resolve, (policy, method, path), asked),
        policy@.secured.contains_key(method@),
        is_orderly(patterns_of(policy@.secured[method@])),
        0 <= i < policy@.secured[method@].len(),
        pattern_matches(policy@.secured[method@][i].0, path@),
        forall|j: int|
            0 <= j < policy@.secured[method@].len() && j != i && pattern_matches(
                (#[trigger] policy@.secured[method@][j]).0,
                path@,
            ) ==> precedes(policy@.secured[method@][i].0, policy@.secured[method@][j].0),
    ensures
        asked matches AuthRequirement::Required(Some(requirement)) && {
            let wanted = policy@.secured[method@][i].1;
            &&& requirement.resource@ == wanted.resource
            &&& requirement.actions@.len() == wanted.actions.len()
            &&& forall|a: int|
                0 <= a < wanted.actions.len() ==> (#[trigger] requirement.actions@[a])@
                    == wanted.actions[a]
        },
{
    let routes = policy@.secured[method@];
    assert(patterns_of(routes)[i] == routes[i].0);
    let k = choose|k: int|
        #[trigger] is_choice(routes, path@, k) && asked@ == AuthRequirementView::Required(
            Some(routes[k].1),
        );
    if k != i {
        assert(pattern_matches(routes[k].0, path@));
        assert(precedes(routes[k].0, routes[i].0));
        law_precedence_is_strict(routes[i].0, routes[k].0);
    }
    if let AuthRequirement::Required(Some(requirement)) = asked {
        lemma_actions(requirement.actions@, routes[i].1.actions);
    }
}

/// A request on no secured route of its method needs no authentication if it is on a public one,
/// whatever the default is. If it is on neither, the default decides, and asks for nothing but
/// authentication.
pub proof fn law_request_on_other_route(
    policy: &IngressRoutePolicy,
    method: &Method,
    path: &str,
    asked: AuthRequirement,
)
    requires
        call_ensures(<IngressRoutePolicy as RoutePolicy>::resolve, (policy, method, path), asked),
        policy@.secured.contains_key(method@) ==> is_orderly(
            patterns_of(policy@.secured[method@]),
        ) && forall|j: int|
            0 <= j < policy@.secured[method@].len() ==> !pattern_matches(
                (#[trigger] policy@.secured[method@][j]).0,
                path@,
            ),
        policy@.public.contains_key(method@) ==> is_orderly(policy@.public[method@]),
    ensures
        ({
            let is_public = policy@.public.contains_key(method@) && exists|k: int|
                0 <= k < policy@.public[method@].len() && pattern_matches(
                    #[trigger] policy@.public[method@][k],
                    path@,
                );
            if policy@.require_auth_by_default && !is_public {
                asked == AuthRequirement::Required(None)
            } else {
                asked is NotRequired
            }
        }),
{
}

/// A copy of a requirement names the same resource and the same actions in the same order.
pub proof fn law_copied_requirement_asks_the_same(requirement: &Requirement, copy: Requirement)
    requires
        call_ensures(<Requirement as Clone>::clone, (requirement,), copy),
    ensures
        copy.resource@ == requirement.resource@,
        copy.actions@.len() == requirement.actions@.len(),
        forall|a: int|
            0 <= a < requirement.actions@.len() ==> (#[trigger] copy.actions@[a])@
                == requirement.actions@[a]@,
{
    lemma_actions(copy.actions@, requirement@.actions);
    lemma_actions(requirement.actions@, requirement@.actions);
}

} // verus!
