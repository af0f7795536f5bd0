//! Building the parts that check a request from the configuration and the known routes.

use std::sync::Arc;

use vstd::prelude::*;

use crate::api::path::{
    convert_axum_path_to_matchit, is_name_char, law_matchit_path_of_parameter,
    law_matchit_path_without_colon, lemma_name_len, matchit_path, name_len,
};
use crate::auth::authorizer::RoleAuthorizer;
use crate::auth::config::{oidc_config, ApiIngressConfig, AuthConfig};
use crate::auth::ingress::{
    law_request_on_other_route, IngressRoutePolicy, IngressRoutePolicyView, Requirement,
};
use crate::auth::method_map::MethodMap;
use crate::auth::routing::{
    all_accepted, all_regular, any_matches, brace_count, has_shape_of, insert_outcome, is_choice,
    is_literal, is_orderly, is_plain, is_regular, law_literal_is_regular,
    law_literal_matches_itself, law_parameter_is_regular, law_parameter_takes_segment,
    law_precedence_is_strict, law_regular_is_plain, lemma_all_accepted_push,
    lemma_nothing_precedes_literal, lemma_requirement_actions, pattern_matches, patterns_of,
    precedes, shape, PublicRouteMatcher, RouteMatcher,
};
use crate::auth::types::{
    AuthRequirement, AuthRequirementView, RoutePolicy, SecRequirement, SecRequirementView,
};
use crate::protocol::Method;
use crate::text::{append, chars_of, opt_text};

verus! {

/// Why the parts could not be built.
#[derive(Debug)]
pub enum AuthBuildError {
    MissingJwksUri,
    Dispatcher { reason: String },
    RoutePattern { path: String, reason: String },
    PublicRoutePattern { path: String, reason: String },
}

/// What an [`AuthBuildError`] says.
pub enum AuthBuildErrorView {
    MissingJwksUri,
    Dispatcher { reason: Seq<char> },
    RoutePattern { path: Seq<char>, reason: Seq<char> },
    PublicRoutePattern { path: Seq<char>, reason: Seq<char> },
}

impl View for AuthBuildError {
    type V = AuthBuildErrorView;

    open spec fn view(&self) -> AuthBuildErrorView {
        match self {
            AuthBuildError::MissingJwksUri => AuthBuildErrorView::MissingJwksUri,
            AuthBuildError::Dispatcher { reason } => AuthBuildErrorView::Dispatcher {
                reason: reason@,
            },
            AuthBuildError::RoutePattern { path, reason } => AuthBuildErrorView::RoutePattern {
                path: path@,
                reason: reason@,
            },
            AuthBuildError::PublicRoutePattern {
                path,
                reason,
            } => AuthBuildErrorView::PublicRoutePattern { path: path@, reason: reason@ },
        }
    }
}

impl AuthBuildErrorView {
    /// The error as text.
    pub open spec fn message(self) -> Seq<char> {
        match self {
            AuthBuildErrorView::MissingJwksUri => "jwks_uri required when auth is enabled"@,
            AuthBuildErrorView::Dispatcher { reason } => "Failed to build auth dispatcher: "@
                + reason,
            AuthBuildErrorView::RoutePattern { path, reason } => "Failed to insert route pattern '"@
                + path + "': "@ + reason,
            AuthBuildErrorView::PublicRoutePattern {
                path,
                reason,
            } => "Failed to insert public route pattern '"@ + path + "': "@ + reason,
        }
    }
}

impl AuthBuildError {
    /// The error as text.
    pub fn message(&self) -> (text: String)
        ensures
            text@ == self@.message(),
    {
        match self {
            AuthBuildError::MissingJwksUri => "jwks_uri required when auth is enabled".to_owned(),
            AuthBuildError::Dispatcher { reason } => {
                let mut text = "Failed to build auth dispatcher: ".to_owned();
                append(&mut text, reason.as_str());
                text
            },
            AuthBuildError::RoutePattern { path, reason } => {
                let mut text = "Failed to insert route pattern '".to_owned();
                append(&mut text, path.as_str());
                append(&mut text, "': ");
                append(&mut text, reason.as_str());
                text
            },
            AuthBuildError::PublicRoutePattern { path, reason } => {
                let mut text = "Failed to insert public route pattern '".to_owned();
                append(&mut text, path.as_str());
                append(&mut text, "': ");
                append(&mut text, reason.as_str());
                text
            },
        }
    }
}

/// How many signs a path holds that can start a parameter: colons, and opening braces that are
/// not doubled.
pub open spec fn parameter_signs(path: Seq<char>) -> nat
    decreases path.len(),
{
    if path.len() == 0 {
        0
    } else if path[0] == ':' {
        1 + parameter_signs(path.skip(1))
    } else if path[0] != '{' {
        parameter_signs(path.skip(1))
    } else if path.len() > 1 && path[1] == '{' {
        parameter_signs(path.skip(2))
    } else {
        1 + parameter_signs(path.skip(1))
    }
}

/// How many signs a path holds that can start a parameter. A route may hold up to 25.
pub fn count_parameter_signs(path: &str) -> (count: usize)
    ensures
        count == parameter_signs(path@),
{
    let chars = chars_of(path);
    let mut count: usize = 0;
    let mut i: usize = 0;
    assert(path@.skip(0) =~= path@);
    while i < chars.len()
        invariant
            i <= chars.len(),
            chars@ == path@,
            count + parameter_signs(path@.skip(i as int)) == parameter_signs(path@),
            count <= i,
        decreases chars.len() - i,
    {
        assert(path@.skip(i as int).skip(1) =~= path@.skip(i + 1));
        if chars[i] == '{' && i + 1 < chars.len() && chars[i + 1] == '{' {
            assert(path@.skip(i as int).skip(2) =~= path@.skip(i + 2));
            i += 2;
        } else {
            if chars[i] == ':' || chars[i] == '{' {
                count += 1;
            }
            i += 1;
        }
    }
    assert(path@.skip(i as int) =~= Seq::empty());
    count
}

/// The characters that make up a name are name characters.
proof fn lemma_name_chars(text: Seq<char>)
    ensures
        forall|j: int| 0 <= j < name_len(text) ==> is_name_char(#[trigger] text[j]),
    decreases text.len(),
{
    if text.len() > 0 && is_name_char(text[0]) {
        let rest = text.skip(1);
        lemma_name_chars(rest);
        lemma_name_len(rest);
        assert forall|j: int| 0 <= j < name_len(text) implies is_name_char(#[trigger] text[j]) by {
            assert(j > 0 ==> rest[j - 1] == text[j]);
        }
    }
}

/// Text without braces and colons in front adds nothing to what is counted.
proof fn lemma_signless_front(front: Seq<char>, text: Seq<char>)
    requires
        forall|j: int| 0 <= j < front.len() ==> #[trigger] front[j] != '{' && front[j] != ':',
    ensures
        brace_count(front + text) == brace_count(text),
        parameter_signs(front + text) == parameter_signs(text),
    decreases front.len(),
{
    let whole = front + text;
    if front.len() == 0 {
        assert(whole =~= text);
    } else {
        assert(whole[0] == front[0]);
        lemma_signless_front(front.skip(1), text);
        assert(whole.skip(1) =~= front.skip(1) + text);
    }
}

/// A brace in front adds one at most.
proof fn lemma_brace_in_front(text: Seq<char>)
    ensures
        brace_count(seq!['{'] + text) <= 1 + brace_count(text),
    decreases text.len(),
{
    let whole = seq!['{'] + text;
    assert(whole.skip(1) =~= text);
    if text.len() > 0 && text[0] == '{' {
        assert(whole.skip(2) =~= text.skip(1));
        if text.len() > 1 && text[1] == '{' {
            lemma_brace_in_front(text.skip(2));
            assert(text.skip(1) =~= seq!['{'] + text.skip(2));
        }
    }
}

/// A converted path has no more opening braces than the path had parameter signs.
proof fn lemma_converted_braces(path: Seq<char>)
    ensures
        brace_count(matchit_path(path)) <= parameter_signs(path),
    decreases path.len(),
{
    if path.len() == 0 {
    } else if path[0] == ':' {
        let rest = path.skip(1);
        let n = name_len(rest) as int;
        lemma_name_len(rest);
        lemma_name_chars(rest);
        let name = rest.take(n);
        let tail = rest.skip(n);
        lemma_converted_braces(tail);
        assert(rest =~= name + tail);
        lemma_signless_front(name, tail);
        let closed = name + seq!['}'];
        lemma_signless_front(closed, matchit_path(tail));
        let converted = matchit_path(path);
        let inner = closed + matchit_path(tail);
        assert(converted =~= seq!['{'] + inner);
        assert(converted.skip(1) =~= inner);
        assert(converted[1] == closed[0]);
    } else if path[0] != '{' {
        lemma_converted_braces(path.skip(1));
        assert(matchit_path(path).skip(1) =~= matchit_path(path.skip(1)));
    } else if path.len() > 1 && path[1] == '{' {
        lemma_converted_braces(path.skip(2));
        let rest = path.skip(1);
        assert(rest.skip(1) =~= path.skip(2));
        assert(matchit_path(rest) == seq!['{'] + matchit_path(path.skip(2)));
        assert(matchit_path(path).skip(2) =~= matchit_path(path.skip(2)));
    } else {
        lemma_converted_braces(path.skip(1));
        lemma_brace_in_front(matchit_path(path.skip(1)));
    }
}

/// The routes of a method, in order, from a list of routes of all methods.
pub open spec fn routes_for<T>(
    entries: Seq<(Seq<char>, (Seq<char>, T))>,
    method: Seq<char>,
) -> Seq<(Seq<char>, T)>
    decreases entries.len(),
{
    if entries.len() == 0 {
        Seq::empty()
    } else if entries.last().0 == method {
        routes_for(entries.drop_last(), method).push(entries.last().1)
    } else {
        routes_for(entries.drop_last(), method)
    }
}

/// Whether a list of routes has one for a method.
pub open spec fn has_method<T>(
    entries: Seq<(Seq<char>, (Seq<char>, T))>,
    method: Seq<char>,
) -> bool {
    exists|i: int| 0 <= i < entries.len() && (#[trigger] entries[i]).0 == method
}

/// The routes of each method that has one.
pub open spec fn route_tables<T>(entries: Seq<(Seq<char>, (Seq<char>, T))>) -> Map<
    Seq<char>,
    Seq<(Seq<char>, T)>,
> {
    Map::new(
        |method: Seq<char>| has_method(entries, method),
        |method: Seq<char>| routes_for(entries, method),
    )
}

/// What the matcher says to a route of a list, the earlier ones of its method being there.
pub open spec fn entry_outcome<T>(
    entries: Seq<(Seq<char>, (Seq<char>, T))>,
    i: int,
) -> Result<(), Seq<char>> {
    insert_outcome(patterns_of(routes_for(entries.take(i), entries[i].0)), entries[i].1.0)
}

/// Every route of a list is accepted when its turn comes.
pub open spec fn all_entries_accepted<T>(entries: Seq<(Seq<char>, (Seq<char>, T))>) -> bool {
    forall|i: int| 0 <= i < entries.len() ==> #[trigger] entry_outcome(entries, i) is Ok
}

/// The route at a position is the first of a list that is refused.
pub open spec fn is_first_refused<T>(
    entries: Seq<(Seq<char>, (Seq<char>, T))>,
    i: int,
) -> bool {
    &&& 0 <= i < entries.len()
    &&& entry_outcome(entries, i) is Err
    &&& forall|j: int| 0 <= j < i ==> #[trigger] entry_outcome(entries, j) is Ok
}

/// All routes of a list are regular.
pub open spec fn are_regular<T>(entries: Seq<(Seq<char>, (Seq<char>, T))>) -> bool {
    forall|i: int| 0 <= i < entries.len() ==> is_regular((#[trigger] entries[i]).1.0)
}

/// No two routes of a method differ in the names of parameters at most.
pub open spec fn are_distinct<T>(entries: Seq<(Seq<char>, (Seq<char>, T))>) -> bool {
    forall|i: int, j: int|
        0 <= i < j < entries.len() ==> (#[trigger] entries[i]).0 != (#[trigger] entries[j]).0
            || shape(entries[i].1.0) != shape(entries[j].1.0)
}

/// The secured routes of a list: method, pattern and requirement.
pub open spec fn secured_entries(requirements: Seq<((Method, String), Requirement)>) -> Seq<
    (Seq<char>, (Seq<char>, SecRequirementView)),
> {
    requirements.map_values(
        |entry: ((Method, String), Requirement)|
            (entry.0.0@, (matchit_path(entry.0.1@), entry.1@)),
    )
}

/// The public routes of a list: method and pattern.
pub open spec fn public_entries(routes: Seq<(Method, String)>) -> Seq<
    (Seq<char>, (Seq<char>, ())),
> {
    routes.map_values(|entry: (Method, String)| (entry.0@, (matchit_path(entry.1@), ())))
}

proof fn lemma_routes_for_next<T>(
    entries: Seq<(Seq<char>, (Seq<char>, T))>,
    i: int,
    method: Seq<char>,
)
    requires
        0 <= i < entries.len(),
    ensures
        routes_for(entries.take(i + 1), method) == (if entries[i].0 == method {
            routes_for(entries.take(i), method).push(entries[i].1)
        } else {
            routes_for(entries.take(i), method)
        }),
{
    assert(entries.take(i + 1).drop_last() =~= entries.take(i));
}

/// A pattern in a table is that of a route of the list.
proof fn lemma_routes_for_contains<T>(
    entries: Seq<(Seq<char>, (Seq<char>, T))>,
    method: Seq<char>,
    pattern: Seq<char>,
)
    requires
        patterns_of(routes_for(entries, method)).contains(pattern),
    ensures
        exists|i: int|
            0 <= i < entries.len() && (#[trigger] entries[i]).0 == method && entries[i].1.0
                == pattern,
{
    let routes = routes_for(entries, method);
    let k = choose|k: int| 0 <= k < routes.len() && patterns_of(routes)[k] == pattern;
    assert(routes.contains(routes[k]));
    lemma_route_is_listed(entries, method, routes[k]);
    let i = choose|i: int| 0 <= i < entries.len() && entries[i] == (method, routes[k]);
    assert(entries[i].0 == method && entries[i].1.0 == pattern);
}

/// Where every route of a list is accepted, every table has only accepted patterns.
pub proof fn lemma_tables_accepted<T>(
    entries: Seq<(Seq<char>, (Seq<char>, T))>,
    n: int,
    method: Seq<char>,
)
    requires
        0 <= n <= entries.len(),
        forall|j: int| 0 <= j < n ==> #[trigger] entry_outcome(entries, j) is Ok,
    ensures
        all_accepted(patterns_of(routes_for(entries.take(n), method))),
    decreases n,
{
    if n > 0 {
        lemma_tables_accepted(entries, n - 1, method);
        lemma_routes_for_next(entries, n - 1, method);
        if entries[n - 1].0 == method {
            assert(entry_outcome(entries, n - 1) is Ok);
            lemma_all_accepted_push(
                routes_for(entries.take(n - 1), method),
                entries[n - 1].1.0,
                entries[n - 1].1.1,
            );
        }
    }
}

/// Where every route of a list is accepted and plain, every table is orderly.
pub proof fn law_tables_are_orderly<T>(
    entries: Seq<(Seq<char>, (Seq<char>, T))>,
    method: Seq<char>,
)
    requires
        all_entries_accepted(entries),
        forall|i: int| 0 <= i < entries.len() ==> is_plain((#[trigger] entries[i]).1.0),
    ensures
        is_orderly(patterns_of(routes_for(entries, method))),
{
    assert(entries.take(entries.len() as int) =~= entries);
    lemma_tables_accepted(entries, entries.len() as int, method);
    let patterns = patterns_of(routes_for(entries, method));
    assert forall|k: int| 0 <= k < patterns.len() implies is_plain(#[trigger] patterns[k]) by {
        lemma_routes_for_contains(entries, method, patterns[k]);
    }
}

/// Every route of a list is in the table of its method.
pub proof fn law_tables_hold_every_route<T>(
    entries: Seq<(Seq<char>, (Seq<char>, T))>,
    i: int,
)
    requires
        0 <= i < entries.len(),
    ensures
        route_tables(entries).contains_key(entries[i].0),
        route_tables(entries)[entries[i].0].contains(entries[i].1),
    decreases entries.len(),
{
    let method = entries[i].0;
    assert(has_method(entries, method));
    let shorter = entries.drop_last();
    let routes = routes_for(entries, method);
    if i == entries.len() - 1 {
        assert(routes.last() == entries[i].1);
        assert(routes[routes.len() - 1] == entries[i].1);
    } else {
        law_tables_hold_every_route(shorter, i);
        assert(shorter[i] == entries[i]);
        let fewer = routes_for(shorter, method);
        let k = choose|k: int| 0 <= k < fewer.len() && fewer[k] == entries[i].1;
        assert(routes[k] == entries[i].1);
    }
}

/// A table holds no route but those of its method in the list.
pub proof fn law_tables_hold_nothing_else<T>(
    entries: Seq<(Seq<char>, (Seq<char>, T))>,
    method: Seq<char>,
    route: (Seq<char>, T),
)
    requires
        route_tables(entries).contains_key(method),
        route_tables(entries)[method].contains(route),
    ensures
        entries.contains((method, route)),
{
    lemma_route_is_listed(entries, method, route);
}

proof fn lemma_route_is_listed<T>(
    entries: Seq<(Seq<char>, (Seq<char>, T))>,
    method: Seq<char>,
    route: (Seq<char>, T),
)
    requires
        routes_for(entries, method).contains(route),
    ensures
        entries.contains((method, route)),
    decreases entries.len(),
{
    if entries.len() > 0 {
        let routes = routes_for(entries, method);
        let k = choose|k: int| 0 <= k < routes.len() && routes[k] == route;
        if entries.last() == (method, route) {
            assert(entries[entries.len() - 1] == (method, route));
        } else {
            let shorter = entries.drop_last();
            assert(routes_for(shorter, method)[k] == route);
            lemma_route_is_listed(shorter, method, route);
            let i = choose|i: int| 0 <= i < shorter.len() && shorter[i] == (method, route);
            assert(entries[i] == (method, route));
        }
    }
}

/// In a list of regular routes the tables hold regular routes. The next route has the shape of
/// one in its table if and only if it keeps the routes so far from being distinct.
proof fn lemma_regular_next<T>(entries: Seq<(Seq<char>, (Seq<char>, T))>, n: int)
    requires
        0 <= n < entries.len(),
        are_regular(entries),
        are_distinct(entries.take(n)),
    ensures
        all_regular(patterns_of(routes_for(entries.take(n), entries[n].0))),
        has_shape_of(patterns_of(routes_for(entries.take(n), entries[n].0)), entries[n].1.0)
            <==> !are_distinct(entries.take(n + 1)),
        !are_distinct(entries.take(n + 1)) ==> !are_distinct(entries),
{
    let method = entries[n].0;
    let first = entries.take(n);
    let more = entries.take(n + 1);
    let patterns = patterns_of(routes_for(first, method));
    assert forall|k: int| 0 <= k < patterns.len() implies is_regular(#[trigger] patterns[k]) && (
    shape(patterns[k]) == shape(entries[n].1.0) ==> !are_distinct(more)) by {
        assert(patterns.contains(patterns[k]));
        lemma_routes_for_contains(first, method, patterns[k]);
        let i = choose|i: int|
            0 <= i < first.len() && (#[trigger] first[i]).0 == method && first[i].1.0
                == patterns[k];
        assert(first[i] == entries[i] && more[i] == entries[i] && more[n] == entries[n]);
    }
    if !are_distinct(more) {
        let (i, j) = choose|i: int, j: int|
            0 <= i < j < more.len() && (#[trigger] more[i]).0 == (#[trigger] more[j]).0 && shape(
                more[i].1.0,
            ) == shape(more[j].1.0);
        assert(entries[i] == more[i] && entries[j] == more[j]);
        assert(j < n ==> first[i] == more[i] && first[j] == more[j]);
        law_tables_hold_every_route(first, i);
        assert(first[i] == entries[i]);
        let routes = routes_for(first, method);
        let k = choose|k: int| 0 <= k < routes.len() && routes[k] == first[i].1;
        assert(patterns[k] == entries[i].1.0);
    }
}

/// Literal routes that are not empty, and of which none occurs twice for a method, are regular
/// and distinct.
pub proof fn law_literal_routes_are_regular<T>(entries: Seq<(Seq<char>, (Seq<char>, T))>)
    requires
        forall|i: int|
            0 <= i < entries.len() ==> is_literal((#[trigger] entries[i]).1.0)
                && entries[i].1.0.len() > 0,
        forall|i: int, j: int|
            0 <= i < j < entries.len() ==> (#[trigger] entries[i]).0 != (#[trigger] entries[j]).0
                || entries[i].1.0 != entries[j].1.0,
    ensures
        are_regular(entries),
        are_distinct(entries),
{
    assert forall|i: int| 0 <= i < entries.len() implies is_regular((#[trigger] entries[i]).1.0)
        && shape(entries[i].1.0) == entries[i].1.0 by {
        law_literal_is_regular(entries[i].1.0);
    }
}

proof fn lemma_tables_next<T>(entries: Seq<(Seq<char>, (Seq<char>, T))>, n: int)
    requires
        0 <= n < entries.len(),
    ensures
        route_tables(entries.take(n + 1)) == route_tables(entries.take(n)).insert(
            entries[n].0,
            routes_for(entries.take(n), entries[n].0).push(entries[n].1),
        ),
        has_method(entries.take(n), entries[n].0) || routes_for(
            entries.take(n),
            entries[n].0,
        ).len() == 0,
{
    let before = entries.take(n);
    let after = entries.take(n + 1);
    assert forall|method: Seq<char>| has_method(after, method) == (has_method(before, method)
        || method == entries[n].0) by {
        if has_method(before, method) {
            let i = choose|i: int| 0 <= i < before.len() && (#[trigger] before[i]).0 == method;
            assert(after[i].0 == method);
        }
        if has_method(after, method) {
            let i = choose|i: int| 0 <= i < after.len() && (#[trigger] after[i]).0 == method;
            assert(i < n ==> before[i].0 == method);
        }
        assert(after[n].0 == entries[n].0);
        lemma_routes_for_next(entries, n, method);
    }
    assert forall|method: Seq<char>| has_method(after, method) implies routes_for(after, method)
        == #[trigger] route_tables(before).insert(
        entries[n].0,
        routes_for(before, entries[n].0).push(entries[n].1),
    )[method] by {
        lemma_routes_for_next(entries, n, method);
    }
    assert(route_tables(after) =~= route_tables(before).insert(
        entries[n].0,
        routes_for(before, entries[n].0).push(entries[n].1),
    ));
    if routes_for(before, entries[n].0).len() > 0 {
        let routes = routes_for(before, entries[n].0);
        assert(patterns_of(routes).contains(patterns_of(routes)[0]));
        lemma_routes_for_contains(before, entries[n].0, patterns_of(routes)[0]);
    }
}

/// The route of a list that could not be inserted, and why.
pub open spec fn refusal(
    requirements: Seq<((Method, String), Requirement)>,
    i: int,
) -> AuthBuildErrorView {
    AuthBuildErrorView::RoutePattern {
        path: requirements[i].0.1@,
        reason: entry_outcome(secured_entries(requirements), i)->Err_0,
    }
}

/// The public route of a list that could not be inserted, and why.
pub open spec fn public_refusal(routes: Seq<(Method, String)>, i: int) -> AuthBuildErrorView {
    AuthBuildErrorView::PublicRoutePattern {
        path: routes[i].1@,
        reason: entry_outcome(public_entries(routes), i)->Err_0,
    }
}

/// Build route matchers per HTTP method (secured routes with requirements).
///
/// The routes are inserted in the order of the list; the first that is refused ends it.
pub fn build_route_matchers(requirements: Vec<((Method, String), Requirement)>) -> (built: Result<
    MethodMap<RouteMatcher>,
    AuthBuildError,
>)
    requires
        requirements.len() < u32::MAX,
        forall|i: int|
            0 <= i < requirements.len() ==> parameter_signs((#[trigger] requirements@[i]).0.1@)
                <= 25,
    ensures
        match built {
            Ok(matchers) => all_entries_accepted(secured_entries(requirements@))
                && matchers@.map_values(|matcher: RouteMatcher| matcher@) == route_tables(
                secured_entries(requirements@),
            ),
            Err(error) => exists|i: int|
                #[trigger] is_first_refused(secured_entries(requirements@), i) && error@ == refusal(
                    requirements@,
                    i,
                ),
        },
        are_regular(secured_entries(requirements@)) ==> (built is Ok <==> are_distinct(
            secured_entries(requirements@),
        )),
{
    let ghost list = requirements@;
    let ghost entries = secured_entries(list);
    let mut matchers: MethodMap<RouteMatcher> = MethodMap::new();
    assert(matchers@.map_values(|matcher: RouteMatcher| matcher@) =~= route_tables(
        entries.take(0),
    ));
    for entry in it: requirements
        invariant
            it.seq() == list,
            list.len() < u32::MAX,
            forall|i: int|
                0 <= i < list.len() ==> parameter_signs((#[trigger] list[i]).0.1@) <= 25,
            entries == secured_entries(list),
            forall|i: int| 0 <= i < it.index() ==> #[trigger] entry_outcome(entries, i) is Ok,
            are_regular(entries) ==> are_distinct(entries.take(it.index())),
            matchers@.map_values(|matcher: RouteMatcher| matcher@) == route_tables(
                entries.take(it.index()),
            ),
    {
        let ghost n = it.index();
        let ghost tables = matchers@;
        let ((method, path), requirement) = entry;
        assert(entries[n] == (method@, (matchit_path(path@), requirement@)));
        let sec_req = SecRequirement::new(requirement.resource, requirement.actions);
        let mut matcher = match matchers.remove(&method) {
            Some(matcher) => matcher,
            None => RouteMatcher::new(),
        };
        // Convert the path syntax (:param) to the matcher's ({param})
        let matchit_path = convert_axum_path_to_matchit(path.as_str());
        proof {
            lemma_tables_next(entries, n);
            lemma_tables_accepted(entries, n, method@);
            lemma_converted_braces(path@);
            lemma_routes_for_len(entries.take(n), method@);
            let views = tables.map_values(|matcher: RouteMatcher| matcher@);
            assert(views.contains_key(method@) == tables.contains_key(method@));
            assert(tables.contains_key(method@) ==> views[method@] == matcher@);
            assert(matcher@ =~= routes_for(entries.take(n), method@));
            if are_regular(entries) {
                lemma_regular_next(entries, n);
            }
        }
        match matcher.insert(matchit_path.as_str(), sec_req) {
            Ok(()) => {},
            Err(reason) => {
                assert(is_first_refused(entries, n));
                return Err(AuthBuildError::RoutePattern { path, reason });
            },
        }
        assert(entry_outcome(entries, n) is Ok);
        matchers.insert(method, matcher);
        assert(matchers@.map_values(|matcher: RouteMatcher| matcher@) =~= route_tables(
            entries.take(n + 1),
        ));
    }
    assert(entries.take(entries.len() as int) =~= entries);
    Ok(matchers)
}

/// A table has no more routes than the list.
proof fn lemma_routes_for_len<T>(entries: Seq<(Seq<char>, (Seq<char>, T))>, method: Seq<char>)
    ensures
        routes_for(entries, method).len() <= entries.len(),
    decreases entries.len(),
{
    if entries.len() > 0 {
        lemma_routes_for_len(entries.drop_last(), method);
    }
}

/// The patterns of each method that has a public route.
pub open spec fn public_tables(routes: Seq<(Method, String)>) -> Map<Seq<char>, Seq<Seq<char>>> {
    route_tables(public_entries(routes)).map_values(
        |routes: Seq<(Seq<char>, ())>| patterns_of(routes),
    )
}

/// Build public matchers per HTTP method.
///
/// The routes are inserted in the order of the list; the first that is refused ends it.
pub fn build_public_matchers(public_routes: Vec<(Method, String)>) -> (built: Result<
    MethodMap<PublicRouteMatcher>,
    AuthBuildError,
>)
    requires
        public_routes.len() < u32::MAX,
        forall|i: int|
            0 <= i < public_routes.len() ==> parameter_signs((#[trigger] public_routes@[i]).1@)
                <= 25,
    ensures
        match built {
            Ok(matchers) => all_entries_accepted(public_entries(public_routes@))
                && matchers@.map_values(|matcher: PublicRouteMatcher| matcher@) == public_tables(
                public_routes@,
            ),
            Err(error) => exists|i: int|
                #[trigger] is_first_refused(public_entries(public_routes@), i) && error@
                    == public_refusal(public_routes@, i),
        },
        are_regular(public_entries(public_routes@)) ==> (built is Ok <==> are_distinct(
            public_entries(public_routes@),
        )),
{
    let ghost list = public_routes@;
    let ghost entries = public_entries(list);
    let ghost patterns = |routes: Seq<(Seq<char>, ())>| patterns_of(routes);
    let mut matchers: MethodMap<PublicRouteMatcher> = MethodMap::new();
    assert(matchers@.map_values(|matcher: PublicRouteMatcher| matcher@) =~= route_tables(
        entries.take(0),
    ).map_values(patterns));
    for entry in it: public_routes
        invariant
            it.seq() == list,
            list.len() < u32::MAX,
            forall|i: int| 0 <= i < list.len() ==> parameter_signs((#[trigger] list[i]).1@) <= 25,
            entries == public_entries(list),
            patterns == (|routes: Seq<(Seq<char>, ())>| patterns_of(routes)),
            forall|i: int| 0 <= i < it.index() ==> #[trigger] entry_outcome(entries, i) is Ok,
            are_regular(entries) ==> are_distinct(entries.take(it.index())),
            matchers@.map_values(|matcher: PublicRouteMatcher| matcher@) == route_tables(
                entries.take(it.index()),
            ).map_values(patterns),
    {
        let ghost n = it.index();
        let ghost tables = matchers@;
        let (method, path) = entry;
        assert(entries[n] == (method@, (matchit_path(path@), ())));
        let mut matcher = match matchers.remove(&method) {
            Some(matcher) => matcher,
            None => PublicRouteMatcher::new(),
        };
        // Convert the path syntax (:param) to the matcher's ({param})
        let matchit_path = convert_axum_path_to_matchit(path.as_str());
        proof {
            lemma_tables_next(entries, n);
            lemma_tables_accepted(entries, n, method@);
            lemma_converted_braces(path@);
            lemma_routes_for_len(entries.take(n), method@);
            let views = tables.map_values(|matcher: PublicRouteMatcher| matcher@);
            let known = route_tables(entries.take(n));
            assert(views.contains_key(method@) == tables.contains_key(method@));
            assert(tables.contains_key(method@) ==> views[method@] == matcher@);
            assert(known.map_values(patterns).contains_key(method@) == known.contains_key(method@));
            assert(known.contains_key(method@) ==> known.map_values(patterns)[method@]
                == patterns_of(known[method@]));
            assert(matcher@ =~= patterns_of(routes_for(entries.take(n), method@)));
            if are_regular(entries) {
                lemma_regular_next(entries, n);
            }
        }
        match matcher.insert(matchit_path.as_str()) {
            Ok(()) => {},
            Err(reason) => {
                assert(is_first_refused(entries, n));
                return Err(AuthBuildError::PublicRoutePattern { path, reason });
            },
        }
        assert(entry_outcome(entries, n) is Ok);
        let ghost inserted = matcher@;
        assert(patterns_of(routes_for(entries.take(n), method@).push(entries[n].1)) =~= inserted);
        matchers.insert(method, matcher);
        assert(matchers@.map_values(|matcher: PublicRouteMatcher| matcher@) =~= tables.map_values(
            |matcher: PublicRouteMatcher| matcher@,
        ).insert(method@, inserted));
        assert(route_tables(entries.take(n + 1)).map_values(patterns) =~= route_tables(
            entries.take(n),
        ).map_values(patterns).insert(method@, inserted));
        assert(matchers@.map_values(|matcher: PublicRouteMatcher| matcher@) =~= route_tables(
            entries.take(n + 1),
        ).map_values(patterns));
    }
    assert(entries.take(entries.len() as int) =~= entries);
    Ok(matchers)
}

/// What checks the tokens of requests.
#[derive(Debug)]
pub enum Validator<V> {
    /// Nothing: authentication is disabled, and no token is ever to be handed over.
    Noop,
    /// The validator that was built from the configuration.
    Dispatcher(V),
}

/// Turns what is known of a caller into the scope of its requests.
#[derive(Debug, Clone, Copy)]
pub struct SimpleScopeBuilder;

/// Simplified auth state containing only the core auth components.
#[derive(Debug)]
pub struct AuthState<V> {
    pub validator: Validator<V>,
    pub scope_builder: SimpleScopeBuilder,
    pub authorizer: RoleAuthorizer,
}

/// What is built from the routes once there is a validator: the first secured route that is
/// refused ends it, then the first public one; otherwise the policy knows all of them.
pub open spec fn is_built_from_routes<V>(
    requirements: Seq<((Method, String), Requirement)>,
    public_routes: Seq<(Method, String)>,
    require_auth_by_default: bool,
    validator: Validator<V>,
    built: Result<(AuthState<V>, IngressRoutePolicy), AuthBuildError>,
) -> bool {
    match built {
        Ok((state, policy)) => {
            &&& all_entries_accepted(secured_entries(requirements))
            &&& all_entries_accepted(public_entries(public_routes))
            &&& state.validator == validator
            &&& policy@ == IngressRoutePolicyView {
                secured: route_tables(secured_entries(requirements)),
                public: public_tables(public_routes),
                require_auth_by_default,
            }
        },
        Err(error) => {
            ||| exists|i: int|
                #[trigger] is_first_refused(secured_entries(requirements), i) && error@ == refusal(
                    requirements,
                    i,
                )
            ||| all_entries_accepted(secured_entries(requirements)) && exists|i: int|
                #[trigger] is_first_refused(public_entries(public_routes), i) && error@
                    == public_refusal(public_routes, i)
        },
    }
}

/// Build [`AuthState`] and [`IngressRoutePolicy`] from the configuration and the known routes.
///
/// Where authentication is disabled the validator is [`Validator::Noop`], which exists for
/// type consistency and is never to be asked. Otherwise it is what `build_dispatcher` makes of
/// the configuration of token validation.
pub fn build_auth_state<V, F: FnOnce(&AuthConfig) -> Result<V, String>>(
    cfg: &ApiIngressConfig,
    requirements: Vec<((Method, String), Requirement)>,
    public_routes: Vec<(Method, String)>,
    build_dispatcher: F,
) -> (built: Result<(AuthState<V>, IngressRoutePolicy), AuthBuildError>)
    requires
        cfg.auth_disabled || cfg.jwks_uri is Some ==> {
            &&& requirements.len() < u32::MAX
            &&& forall|i: int|
                0 <= i < requirements.len() ==> parameter_signs((#[trigger] requirements@[i]).0.1@)
                    <= 25
            &&& public_routes.len() < u32::MAX
            &&& forall|i: int|
                0 <= i < public_routes.len() ==> parameter_signs((#[trigger] public_routes@[i]).1@)
                    <= 25
        },
        forall|config: &AuthConfig| call_requires(build_dispatcher, (config,)),
    ensures
        cfg.auth_disabled ==> is_built_from_routes(
            requirements@,
            public_routes@,
            cfg.require_auth_by_default,
            Validator::Noop,
            built,
        ),
        !cfg.auth_disabled && cfg.jwks_uri is None ==> (built matches Err(error) && error@
            == AuthBuildErrorView::MissingJwksUri),
        !cfg.auth_disabled && cfg.jwks_uri is Some ==> exists|
            config: &AuthConfig,
            reply: Result<V, String>,
        |
            {
                &&& #[trigger] call_ensures(build_dispatcher, (config,), reply)
                &&& config@ == oidc_config(
                    cfg.jwks_uri->0@,
                    opt_text(cfg.issuer),
                    opt_text(cfg.audience),
                )
                &&& match reply {
                    Err(reason) => built matches Err(error) && error@
                        == (AuthBuildErrorView::Dispatcher { reason: reason@ }),
                    Ok(dispatcher) => is_built_from_routes(
                        requirements@,
                        public_routes@,
                        cfg.require_auth_by_default,
                        Validator::Dispatcher(dispatcher),
                        built,
                    ),
                }
            },
        are_regular(secured_entries(requirements@)) && are_distinct(secured_entries(requirements@))
            && are_regular(public_entries(public_routes@)) && are_distinct(
            public_entries(public_routes@),
        ) ==> (built matches Err(error) ==> error is MissingJwksUri || error is Dispatcher),
        are_regular(secured_entries(requirements@)) && !are_distinct(secured_entries(requirements@))
            ==> built is Err,
        are_regular(public_entries(public_routes@)) && !are_distinct(public_entries(public_routes@))
            ==> built is Err,
{
    // Build validator
    let validator = if cfg.auth_disabled {
        Validator::Noop
    } else {
        let config = match cfg.auth_config() {
            Some(config) => config,
            None => return Err(AuthBuildError::MissingJwksUri),
        };
        match build_dispatcher(&config) {
            Ok(dispatcher) => Validator::Dispatcher(dispatcher),
            Err(reason) => return Err(AuthBuildError::Dispatcher { reason }),
        }
    };
    // Build route matchers per HTTP method (secured routes with requirements)
    let route_matchers = match build_route_matchers(requirements) {
        Ok(matchers) => matchers,
        Err(error) => return Err(error),
    };
    // Build public matchers per HTTP method
    let public_matchers = match build_public_matchers(public_routes) {
        Ok(matchers) => matchers,
        Err(error) => return Err(error),
    };
    let auth_state = AuthState {
        validator,
        scope_builder: SimpleScopeBuilder,
        authorizer: RoleAuthorizer,
    };
    let route_policy = IngressRoutePolicy::new(
        Arc::new(route_matchers),
        Arc::new(public_matchers),
        cfg.require_auth_by_default,
    );
    Ok((auth_state, route_policy))
}

/// A path on a secured route that was built in is never open: the policy has it as secured.
pub proof fn law_built_routes_are_never_open(
    requirements: Seq<((Method, String), Requirement)>,
    policy: IngressRoutePolicyView,
    i: int,
    path: Seq<char>,
)
    requires
        policy.secured == route_tables(secured_entries(requirements)),
        all_entries_accepted(secured_entries(requirements)),
        forall|j: int|
            0 <= j < requirements.len() ==> is_plain(
                matchit_path((#[trigger] requirements[j]).0.1@),
            ),
        0 <= i < requirements.len(),
        pattern_matches(matchit_path(requirements[i].0.1@), path),
    ensures
        policy.is_secured(requirements[i].0.0@, path),
{
    let entries = secured_entries(requirements);
    assert forall|j: int| 0 <= j < entries.len() implies is_plain((#[trigger] entries[j]).1.0) by {
        assert(entries[j].1.0 == matchit_path(requirements[j].0.1@));
    }
    law_tables_are_orderly(entries, entries[i].0);
    law_tables_hold_every_route(entries, i);
    let routes = policy.secured[entries[i].0];
    let k = choose|k: int| 0 <= k < routes.len() && routes[k] == entries[i].1;
    assert(patterns_of(routes)[k] == entries[i].1.0);
}

/// A literal secured route that was built in is enforced: the policy has it for its path.
pub proof fn law_built_route_is_enforced(
    requirements: Seq<((Method, String), Requirement)>,
    policy: IngressRoutePolicyView,
    i: int,
)
    requires
        policy.secured == route_tables(secured_entries(requirements)),
        all_entries_accepted(secured_entries(requirements)),
        forall|j: int|
            0 <= j < requirements.len() ==> is_plain(
                matchit_path((#[trigger] requirements[j]).0.1@),
            ),
        0 <= i < requirements.len(),
        is_literal(matchit_path(requirements[i].0.1@)),
    ensures
        policy.has_literal_route(requirements[i].0.0@, matchit_path(requirements[i].0.1@)),
{
    let entries = secured_entries(requirements);
    assert forall|j: int| 0 <= j < entries.len() implies is_plain((#[trigger] entries[j]).1.0) by {
        assert(entries[j].1.0 == matchit_path(requirements[j].0.1@));
    }
    law_tables_are_orderly(entries, entries[i].0);
    law_tables_hold_every_route(entries, i);
    let routes = policy.secured[entries[i].0];
    let k = choose|k: int| 0 <= k < routes.len() && routes[k] == entries[i].1;
    assert(patterns_of(routes)[k] == entries[i].1.0);
}

/// A path on a public route that was built in, and on no secured route of its method, is
/// open: the policy has it as public alone.
pub proof fn law_built_public_route_is_open(
    requirements: Seq<((Method, String), Requirement)>,
    public_routes: Seq<(Method, String)>,
    policy: IngressRoutePolicyView,
    i: int,
    path: Seq<char>,
)
    requires
        policy.secured == route_tables(secured_entries(requirements)),
        policy.public == public_tables(public_routes),
        all_entries_accepted(secured_entries(requirements)),
        all_entries_accepted(public_entries(public_routes)),
        forall|j: int|
            0 <= j < requirements.len() ==> is_plain(
                matchit_path((#[trigger] requirements[j]).0.1@),
            ),
        forall|j: int|
            0 <= j < public_routes.len() ==> is_plain(
                matchit_path((#[trigger] public_routes[j]).1@),
            ),
        0 <= i < public_routes.len(),
        pattern_matches(matchit_path(public_routes[i].1@), path),
        forall|j: int|
            0 <= j < requirements.len() && (#[trigger] requirements[j]).0.0@ == public_routes[i].0@
                ==> !pattern_matches(matchit_path(requirements[j].0.1@), path),
    ensures
        policy.is_only_public(public_routes[i].0@, path),
{
    let method = public_routes[i].0@;
    let secured = secured_entries(requirements);
    let public = public_entries(public_routes);
    assert forall|j: int| 0 <= j < secured.len() implies is_plain((#[trigger] secured[j]).1.0) by {
        assert(secured[j].1.0 == matchit_path(requirements[j].0.1@));
    }
    assert forall|j: int| 0 <= j < public.len() implies is_plain((#[trigger] public[j]).1.0) by {
        assert(public[j].1.0 == matchit_path(public_routes[j].1@));
    }
    law_tables_are_orderly(secured, method);
    law_tables_are_orderly(public, method);
    law_tables_hold_every_route(public, i);
    let routes = route_tables(public)[method];
    let k = choose|k: int| 0 <= k < routes.len() && routes[k] == public[i].1;
    assert(policy.public[method] == patterns_of(routes));
    assert(policy.public[method][k] == matchit_path(public_routes[i].1@));
    if policy.secured.contains_key(method) {
        let patterns = patterns_of(policy.secured[method]);
        assert forall|k: int| 0 <= k < patterns.len() implies !pattern_matches(
            #[trigger] patterns[k],
            path,
        ) by {
            lemma_routes_for_contains(secured, method, patterns[k]);
            let j = choose|j: int|
                0 <= j < secured.len() && (#[trigger] secured[j]).0 == method && secured[j].1.0
                    == patterns[k];
            assert(requirements[j].0.0@ == method);
        }
    }
}

/// The routes and the default alone decide what is built once there is a validator: the same
/// policy, or the same error, whatever the validator is. So where authentication is disabled
/// the policy is built just as where it is enabled, and the address of the keys, the issuer
/// and the audience have no effect.
pub proof fn law_routes_alone_decide<V>(
    requirements: Seq<((Method, String), Requirement)>,
    public_routes: Seq<(Method, String)>,
    require_auth_by_default: bool,
    validator: Validator<V>,
    built: Result<(AuthState<V>, IngressRoutePolicy), AuthBuildError>,
    other_validator: Validator<V>,
    other: Result<(AuthState<V>, IngressRoutePolicy), AuthBuildError>,
)
    requires
        is_built_from_routes(
            requirements,
            public_routes,
            require_auth_by_default,
            validator,
            built,
        ),
        is_built_from_routes(
            requirements,
            public_routes,
            require_auth_by_default,
            other_validator,
            other,
        ),
    ensures
        built is Ok <==> other is Ok,
        built is Ok ==> built->Ok_0.1@ == other->Ok_0.1@,
        built is Ok ==> built->Ok_0.0.validator == validator,
        built is Err ==> built->Err_0@ == other->Err_0@,
{
    assert forall|i: int, j: int|
        is_first_refused(secured_entries(requirements), i) && is_first_refused(
            secured_entries(requirements),
            j,
        ) implies i == j by {}
    assert forall|i: int, j: int|
        is_first_refused(public_entries(public_routes), i) && is_first_refused(
            public_entries(public_routes),
            j,
        ) implies i == j by {}
}

/// Lists that hold the same routes in another order give tables that hold the same routes.
pub proof fn law_order_of_lists_does_not_matter<T>(
    entries: Seq<(Seq<char>, (Seq<char>, T))>,
    other: Seq<(Seq<char>, (Seq<char>, T))>,
    method: Seq<char>,
    route: (Seq<char>, T),
)
    requires
        forall|entry: (Seq<char>, (Seq<char>, T))| #[trigger]
            entries.contains(entry) <==> other.contains(entry),
    ensures
        route_tables(entries).contains_key(method) <==> route_tables(other).contains_key(method),
        routes_for(entries, method).contains(route) <==> routes_for(other, method).contains(route),
{
    lemma_same_entries(entries, other, method, route);
    lemma_same_entries(other, entries, method, route);
}

proof fn lemma_same_entries<T>(
    entries: Seq<(Seq<char>, (Seq<char>, T))>,
    other: Seq<(Seq<char>, (Seq<char>, T))>,
    method: Seq<char>,
    route: (Seq<char>, T),
)
    requires
        forall|entry: (Seq<char>, (Seq<char>, T))| #[trigger]
            entries.contains(entry) ==> other.contains(entry),
    ensures
        has_method(entries, method) ==> has_method(other, method),
        routes_for(entries, method).contains(route) ==> routes_for(other, method).contains(route),
{
    if has_method(entries, method) {
        let i = choose|i: int| 0 <= i < entries.len() && (#[trigger] entries[i]).0 == method;
        assert(entries.contains(entries[i]));
        let j = choose|j: int| 0 <= j < other.len() && other[j] == entries[i];
        assert(other[j].0 == method);
    }
    if routes_for(entries, method).contains(route) {
        lemma_route_is_listed(entries, method, route);
        let j = choose|j: int| 0 <= j < other.len() && other[j] == (method, route);
        law_tables_hold_every_route(other, j);
    }
}

/// What is counted of a path: nothing where it has neither a colon nor an opening brace, nothing
/// for a doubled brace, and one for any other such sign, besides what is counted of the text
/// that follows.
pub proof fn law_counted_signs(
    before: Seq<char>,
    after: &str,
    path: &str,
    count: usize,
    count_after: usize,
)
    requires
        !before.contains(':'),
        !before.contains('{'),
        call_ensures(count_parameter_signs, (path,), count),
        call_ensures(count_parameter_signs, (after,), count_after),
    ensures
        path@ == before ==> count == 0,
        path@ == before + (seq![':'] + after@) ==> count == 1 + count_after,
        path@ == before + (seq!['{', '{'] + after@) ==> count == count_after,
        path@ == before + (seq!['{'] + after@) && (after@.len() == 0 || after@[0] != '{') ==> count
            == 1 + count_after,
{
    assert forall|j: int| 0 <= j < before.len() implies #[trigger] before[j] != '{' && before[j]
        != ':' by {
        assert(before.contains(before[j]));
    }
    let colon = seq![':'] + after@;
    let doubled = seq!['{', '{'] + after@;
    let single = seq!['{'] + after@;
    lemma_signless_front(before, Seq::empty());
    lemma_signless_front(before, colon);
    lemma_signless_front(before, doubled);
    lemma_signless_front(before, single);
    assert(before + Seq::<char>::empty() =~= before);
    assert(colon.skip(1) =~= after@ && single.skip(1) =~= after@ && doubled.skip(2) =~= after@);
    assert(colon[0] == ':' && single[0] == '{' && doubled[0] == '{' && doubled[1] == '{');
    assert(after@.len() > 0 ==> single[1] == after@[0]);
}

/// What an error says: what failed, for which path, and why.
pub proof fn law_error_says_what_failed(error: &AuthBuildError, text: String)
    requires
        call_ensures(AuthBuildError::message, (error,), text),
    ensures
        error is MissingJwksUri ==> text@ == "jwks_uri required when auth is enabled"@,
        error matches AuthBuildError::Dispatcher { reason } ==> text@
            == "Failed to build auth dispatcher: "@ + reason@,
        error matches AuthBuildError::RoutePattern { path, reason } ==> text@
            == "Failed to insert route pattern '"@ + path@ + "': "@ + reason@,
        error matches AuthBuildError::PublicRoutePattern { path, reason } ==> text@
            == "Failed to insert public route pattern '"@ + path@ + "': "@ + reason@,
{
}

/// What a secured route asks for, letter for letter.
proof fn lemma_secured_entry(requirements: Seq<((Method, String), Requirement)>, i: int)
    requires
        0 <= i < requirements.len(),
    ensures
        ({
            let entry = secured_entries(requirements)[i];
            let wanted = requirements[i].1;
            &&& entry.0 == requirements[i].0.0@
            &&& entry.1.0 == matchit_path(requirements[i].0.1@)
            &&& entry.1.1.resource == wanted.resource@
            &&& entry.1.1.actions.len() == wanted.actions@.len()
            &&& forall|a: int|
                0 <= a < wanted.actions@.len() ==> #[trigger] entry.1.1.actions[a]
                    == wanted.actions@[a]@
        }),
{
    let wanted = requirements[i].1;
    let asked = secured_entries(requirements)[i].1.1;
    assert(asked == wanted@);
    assert forall|a: int| 0 <= a < wanted.actions@.len() implies #[trigger] asked.actions[a]
        == wanted.actions@[a]@ by {}
}

/// Every secured route that was given is in the table of its method: its path, converted, with
/// the resource and all the actions that were given for it, in their order. The result is where
/// it stands in the table.
pub proof fn law_built_matchers_hold_every_requirement(
    requirements: Vec<((Method, String), Requirement)>,
    matchers: MethodMap<RouteMatcher>,
    i: int,
    path: &str,
    converted: String,
) -> (k: int)
    requires
        call_ensures(build_route_matchers, (requirements,), Ok(matchers)),
        0 <= i < requirements@.len(),
        path@ == requirements@[i].0.1@,
        call_ensures(convert_axum_path_to_matchit, (path,), converted),
    ensures
        matchers@.contains_key(requirements@[i].0.0@),
        ({
            let table = matchers@[requirements@[i].0.0@]@;
            let wanted = requirements@[i].1;
            &&& 0 <= k < table.len()
            &&& table[k].0 == converted@
            &&& table[k].1.resource == wanted.resource@
            &&& table[k].1.actions.len() == wanted.actions@.len()
            &&& forall|a: int|
                0 <= a < wanted.actions@.len() ==> #[trigger] table[k].1.actions[a]
                    == wanted.actions@[a]@
        }),
{
    let list = requirements@;
    let entries = secured_entries(list);
    let views = matchers@.map_values(|matcher: RouteMatcher| matcher@);
    let method = list[i].0.0@;
    lemma_secured_entry(list, i);
    law_tables_hold_every_route(entries, i);
    assert(views.contains_key(method));
    assert(views[method] == matchers@[method]@);
    let table = views[method];
    choose|k: int| 0 <= k < table.len() && table[k] == entries[i].1
}

/// No table holds anything else: a route in the table of a method was given for that method,
/// with that requirement. The result is where it stands in the list that was given.
pub proof fn law_built_matchers_hold_nothing_else(
    requirements: Vec<((Method, String), Requirement)>,
    matchers: MethodMap<RouteMatcher>,
    method: Seq<char>,
    k: int,
) -> (i: int)
    requires
        call_ensures(build_route_matchers, (requirements,), Ok(matchers)),
        matchers@.contains_key(method),
        0 <= k < matchers@[method]@.len(),
    ensures
        0 <= i < requirements@.len(),
        requirements@[i].0.0@ == method,
        forall|path: &str, converted: String|
            path@ == requirements@[i].0.1@ && #[trigger] call_ensures(
                convert_axum_path_to_matchit,
                (path,),
                converted,
            ) ==> converted@ == matchers@[method]@[k].0,
        ({
            let route = matchers@[method]@[k];
            let wanted = requirements@[i].1;
            &&& route.1.resource == wanted.resource@
            &&& route.1.actions.len() == wanted.actions@.len()
            &&& forall|a: int|
                0 <= a < wanted.actions@.len() ==> #[trigger] route.1.actions[a]
                    == wanted.actions@[a]@
        }),
{
    let entries = secured_entries(requirements@);
    let views = matchers@.map_values(|matcher: RouteMatcher| matcher@);
    assert(views.contains_key(method) && views[method] == matchers@[method]@);
    let route = views[method][k];
    assert(routes_for(entries, method).contains(route));
    lemma_route_is_listed(entries, method, route);
    let i = choose|i: int| 0 <= i < entries.len() && entries[i] == (method, route);
    lemma_secured_entry(requirements@, i);
    i
}

/// Every public route that was given is in the table of its method, its path converted, and no
/// table holds anything else. The result is where the route stands in the table.
pub proof fn law_built_public_matchers_hold_the_routes(
    public_routes: Vec<(Method, String)>,
    matchers: MethodMap<PublicRouteMatcher>,
    i: int,
    path: &str,
    converted: String,
) -> (k: int)
    requires
        call_ensures(build_public_matchers, (public_routes,), Ok(matchers)),
        0 <= i < public_routes@.len(),
        path@ == public_routes@[i].1@,
        call_ensures(convert_axum_path_to_matchit, (path,), converted),
    ensures
        matchers@.contains_key(public_routes@[i].0@),
        0 <= k < matchers@[public_routes@[i].0@]@.len(),
        matchers@[public_routes@[i].0@]@[k] == converted@,
{
    let entries = public_entries(public_routes@);
    let tables = route_tables(entries);
    let views = matchers@.map_values(|matcher: PublicRouteMatcher| matcher@);
    let method = public_routes@[i].0@;
    assert(entries[i] == (method, (matchit_path(public_routes@[i].1@), ())));
    law_tables_hold_every_route(entries, i);
    assert(public_tables(public_routes@).contains_key(method));
    assert(views.contains_key(method));
    assert(views[method] == matchers@[method]@);
    assert(views[method] == patterns_of(tables[method]));
    let table = tables[method];
    let k = choose|k: int| 0 <= k < table.len() && table[k] == entries[i].1;
    assert(patterns_of(table)[k] == entries[i].1.0);
    k
}

/// A pattern in the table of a method was given as a public route of that method. The result is
/// where it stands in the list that was given.
pub proof fn law_built_public_matchers_hold_nothing_else(
    public_routes: Vec<(Method, String)>,
    matchers: MethodMap<PublicRouteMatcher>,
    method: Seq<char>,
    k: int,
) -> (i: int)
    requires
        call_ensures(build_public_matchers, (public_routes,), Ok(matchers)),
        matchers@.contains_key(method),
        0 <= k < matchers@[method]@.len(),
    ensures
        0 <= i < public_routes@.len(),
        public_routes@[i].0@ == method,
        forall|path: &str, converted: String|
            path@ == public_routes@[i].1@ && #[trigger] call_ensures(
                convert_axum_path_to_matchit,
                (path,),
                converted,
            ) ==> converted@ == matchers@[method]@[k],
{
    let entries = public_entries(public_routes@);
    let tables = route_tables(entries);
    let views = matchers@.map_values(|matcher: PublicRouteMatcher| matcher@);
    assert(views.contains_key(method) && views[method] == matchers@[method]@);
    assert(public_tables(public_routes@).contains_key(method));
    assert(views[method] == patterns_of(tables[method]));
    let patterns = patterns_of(routes_for(entries, method));
    assert(patterns.contains(patterns[k]));
    lemma_routes_for_contains(entries, method, patterns[k]);
    choose|i: int|
        0 <= i < entries.len() && (#[trigger] entries[i]).0 == method && entries[i].1.0
            == patterns[k]
}

/// The patterns that a matcher has seen when the turn of a route comes are those of the earlier
/// routes of its method.
proof fn lemma_earlier_patterns<T>(
    entries: Seq<(Seq<char>, (Seq<char>, T))>,
    i: int,
    pattern: Seq<char>,
)
    requires
        0 <= i < entries.len(),
    ensures
        patterns_of(routes_for(entries.take(i), entries[i].0)).contains(pattern) <==> exists|j: int|
            0 <= j < i && (#[trigger] entries[j]).0 == entries[i].0 && entries[j].1.0 == pattern,
{
    let first = entries.take(i);
    let method = entries[i].0;
    let routes = routes_for(first, method);
    if patterns_of(routes).contains(pattern) {
        lemma_routes_for_contains(first, method, pattern);
        let j = choose|j: int|
            0 <= j < first.len() && (#[trigger] first[j]).0 == method && first[j].1.0 == pattern;
        assert(entries[j] == first[j]);
    }
    if exists|j: int|
        0 <= j < i && (#[trigger] entries[j]).0 == method && entries[j].1.0 == pattern {
        let j = choose|j: int|
            0 <= j < i && (#[trigger] entries[j]).0 == method && entries[j].1.0 == pattern;
        assert(first[j] == entries[j]);
        law_tables_hold_every_route(first, j);
        let k = choose|k: int| 0 <= k < routes.len() && routes[k] == first[j].1;
        assert(patterns_of(routes)[k] == pattern);
    }
}

/// A route that is refused is named by the path that was given for it, and why it was refused
/// is what the matcher says of its pattern once it has seen those of the earlier routes of the
/// method. The results are where the route stands in the list, and the earlier patterns.
pub proof fn law_refused_route_is_named(
    requirements: Vec<((Method, String), Requirement)>,
    error: AuthBuildError,
) -> (refused: (int, Seq<Seq<char>>))
    requires
        call_ensures(build_route_matchers, (requirements,), Err(error)),
    ensures
        0 <= refused.0 < requirements@.len(),
        error matches AuthBuildError::RoutePattern { path, reason } && path@
            == requirements@[refused.0].0.1@ && insert_outcome(refused.1, matchit_path(path@)) == Err::<
            (),
            Seq<char>,
        >(reason@),
        forall|pattern: Seq<char>| #[trigger]
            refused.1.contains(pattern) <==> exists|j: int|
                0 <= j < refused.0 && (#[trigger] requirements@[j]).0.0@
                    == requirements@[refused.0].0.0@ && matchit_path(requirements@[j].0.1@)
                    == pattern,
{
    let list = requirements@;
    let entries = secured_entries(list);
    let i = choose|i: int| #[trigger] is_first_refused(entries, i) && error@ == refusal(list, i);
    let earlier = patterns_of(routes_for(entries.take(i), entries[i].0));
    lemma_secured_entry(list, i);
    assert forall|pattern: Seq<char>| #[trigger] earlier.contains(pattern) <==> exists|j: int|
        0 <= j < i && (#[trigger] list[j]).0.0@ == list[i].0.0@ && matchit_path(list[j].0.1@)
            == pattern by {
        lemma_earlier_patterns(entries, i, pattern);
        if earlier.contains(pattern) {
            let j = choose|j: int|
                0 <= j < i && (#[trigger] entries[j]).0 == entries[i].0 && entries[j].1.0
                    == pattern;
            lemma_secured_entry(list, j);
            assert(list[j].0.0@ == list[i].0.0@);
        }
        if exists|j: int|
            0 <= j < i && (#[trigger] list[j]).0.0@ == list[i].0.0@ && matchit_path(list[j].0.1@)
                == pattern {
            let j = choose|j: int|
                0 <= j < i && (#[trigger] list[j]).0.0@ == list[i].0.0@ && matchit_path(
                    list[j].0.1@,
                ) == pattern;
            lemma_secured_entry(list, j);
            assert(entries[j].0 == entries[i].0);
        }
    }
    (i, earlier)
}

/// The same for a public route.
pub proof fn law_refused_public_route_is_named(
    public_routes: Vec<(Method, String)>,
    error: AuthBuildError,
) -> (refused: (int, Seq<Seq<char>>))
    requires
        call_ensures(build_public_matchers, (public_routes,), Err(error)),
    ensures
        0 <= refused.0 < public_routes@.len(),
        error matches AuthBuildError::PublicRoutePattern { path, reason } && path@
            == public_routes@[refused.0].1@ && insert_outcome(refused.1, matchit_path(path@)) == Err::<
            (),
            Seq<char>,
        >(reason@),
        forall|pattern: Seq<char>| #[trigger]
            refused.1.contains(pattern) <==> exists|j: int|
                0 <= j < refused.0 && (#[trigger] public_routes@[j]).0@
                    == public_routes@[refused.0].0@ && matchit_path(public_routes@[j].1@)
                    == pattern,
{
    let list = public_routes@;
    let entries = public_entries(list);
    let i = choose|i: int|
        #[trigger] is_first_refused(entries, i) && error@ == public_refusal(list, i);
    let earlier = patterns_of(routes_for(entries.take(i), entries[i].0));
    assert forall|pattern: Seq<char>| #[trigger] earlier.contains(pattern) <==> exists|j: int|
        0 <= j < i && (#[trigger] list[j]).0@ == list[i].0@ && matchit_path(list[j].1@)
            == pattern by {
        lemma_earlier_patterns(entries, i, pattern);
        if earlier.contains(pattern) {
            let j = choose|j: int|
                0 <= j < i && (#[trigger] entries[j]).0 == entries[i].0 && entries[j].1.0
                    == pattern;
            assert(list[j].0@ == list[i].0@);
        }
        if exists|j: int|
            0 <= j < i && (#[trigger] list[j]).0@ == list[i].0@ && matchit_path(list[j].1@)
                == pattern {
            let j = choose|j: int|
                0 <= j < i && (#[trigger] list[j]).0@ == list[i].0@ && matchit_path(list[j].1@)
                    == pattern;
            assert(entries[j].0 == entries[i].0);
        }
    }
    (i, earlier)
}

/// Regular routes are built in if and only if no two of a method are the same but for the names
/// of parameters.
pub proof fn law_regular_routes_are_built_unless_they_collide(
    requirements: Vec<((Method, String), Requirement)>,
    built: Result<MethodMap<RouteMatcher>, AuthBuildError>,
)
    requires
        call_ensures(build_route_matchers, (requirements,), built),
        forall|i: int|
            0 <= i < requirements@.len() ==> is_regular(
                matchit_path((#[trigger] requirements@[i]).0.1@),
            ),
    ensures
        built is Ok <==> forall|i: int, j: int|
            0 <= i < j < requirements@.len() && (#[trigger] requirements@[i]).0.0@ == (
            #[trigger] requirements@[j]).0.0@ ==> shape(matchit_path(requirements@[i].0.1@))
                != shape(matchit_path(requirements@[j].0.1@)),
{
    let list = requirements@;
    let entries = secured_entries(list);
    assert forall|i: int| 0 <= i < entries.len() implies is_regular((#[trigger] entries[i]).1.0)
        && entries[i].0 == list[i].0.0@ && entries[i].1.0 == matchit_path(list[i].0.1@) by {
        lemma_secured_entry(list, i);
    }
    assert(are_regular(entries));
    if are_distinct(entries) {
        assert forall|i: int, j: int|
            0 <= i < j < list.len() && (#[trigger] list[i]).0.0@ == (
            #[trigger] list[j]).0.0@ implies shape(matchit_path(list[i].0.1@)) != shape(
            matchit_path(list[j].0.1@),
        ) by {
            assert(entries[i].0 == list[i].0.0@ && entries[j].0 == list[j].0.0@);
        }
    } else {
        let (i, j) = choose|i: int, j: int|
            0 <= i < j < entries.len() && (#[trigger] entries[i]).0 == (#[trigger] entries[j]).0
                && shape(entries[i].1.0) == shape(entries[j].1.0);
        assert(list[i].0.0@ == list[j].0.0@);
    }
}

/// The same for public routes.
pub proof fn law_regular_public_routes_are_built_unless_they_collide(
    public_routes: Vec<(Method, String)>,
    built: Result<MethodMap<PublicRouteMatcher>, AuthBuildError>,
)
    requires
        call_ensures(build_public_matchers, (public_routes,), built),
        forall|i: int|
            0 <= i < public_routes@.len() ==> is_regular(
                matchit_path((#[trigger] public_routes@[i]).1@),
            ),
    ensures
        built is Ok <==> forall|i: int, j: int|
            0 <= i < j < public_routes@.len() && (#[trigger] public_routes@[i]).0@ == (
            #[trigger] public_routes@[j]).0@ ==> shape(matchit_path(public_routes@[i].1@)) != shape(
                matchit_path(public_routes@[j].1@),
            ),
{
    let list = public_routes@;
    let entries = public_entries(list);
    assert forall|i: int| 0 <= i < entries.len() implies is_regular((#[trigger] entries[i]).1.0)
        && entries[i].0 == list[i].0@ && entries[i].1.0 == matchit_path(list[i].1@) by {
        assert(is_regular(matchit_path(list[i].1@)));
    }
    assert(are_regular(entries));
    if are_distinct(entries) {
        assert forall|i: int, j: int|
            0 <= i < j < list.len() && (#[trigger] list[i]).0@ == (
            #[trigger] list[j]).0@ implies shape(matchit_path(list[i].1@)) != shape(
            matchit_path(list[j].1@),
        ) by {
            assert(entries[i].0 == list[i].0@ && entries[j].0 == list[j].0@);
        }
    } else {
        let (i, j) = choose|i: int, j: int|
            0 <= i < j < entries.len() && (#[trigger] entries[i]).0 == (#[trigger] entries[j]).0
                && shape(entries[i].1.0) == shape(entries[j].1.0);
        assert(list[i].0@ == list[j].0@);
    }
}

/// Where authentication is disabled there is no validator, and nothing can fail but a route.
pub proof fn law_disabled_authentication_validates_nothing<
    V,
    F: FnOnce(&AuthConfig) -> Result<V, String>,
>(
    cfg: &ApiIngressConfig,
    requirements: Vec<((Method, String), Requirement)>,
    public_routes: Vec<(Method, String)>,
    build_dispatcher: F,
    built: Result<(AuthState<V>, IngressRoutePolicy), AuthBuildError>,
)
    requires
        call_ensures(
            build_auth_state::<V, F>,
            (cfg, requirements, public_routes, build_dispatcher),
            built,
        ),
        cfg.auth_disabled,
    ensures
        built matches Ok((state, policy)) ==> state.validator is Noop,
        built matches Err(error) ==> error is RoutePattern || error is PublicRoutePattern,
{
}

/// Where authentication is enabled, the address of the keys must be known. Then the validator is
/// what is built for the keys at that address and for the issuer and the audience that the
/// ingress was told, no others; if it cannot be built the reason is passed on.
pub proof fn law_enabled_authentication_validates_as_told<
    V,
    F: FnOnce(&AuthConfig) -> Result<V, String>,
>(
    cfg: &ApiIngressConfig,
    requirements: Vec<((Method, String), Requirement)>,
    public_routes: Vec<(Method, String)>,
    build_dispatcher: F,
    built: Result<(AuthState<V>, IngressRoutePolicy), AuthBuildError>,
) -> (exchange: (&AuthConfig, Result<V, String>))
    requires
        call_ensures(
            build_auth_state::<V, F>,
            (cfg, requirements, public_routes, build_dispatcher),
            built,
        ),
        !cfg.auth_disabled,
    ensures
        cfg.jwks_uri is None ==> (built matches Err(error) && error is MissingJwksUri),
        cfg.jwks_uri matches Some(uri) ==> {
            let config = exchange.0;
            &&& call_ensures(build_dispatcher, (config,), exchange.1)
            &&& config.jwks is Some && config.jwks->0.uri@ == uri@
            &&& cfg.issuer matches Some(issuer) ==> config.issuers@.len() == 1
                && config.issuers@[0]@ == issuer@
            &&& cfg.issuer is None ==> config.issuers@.len() == 0
            &&& cfg.audience matches Some(audience) ==> config.audiences@.len() == 1
                && config.audiences@[0]@ == audience@
            &&& cfg.audience is None ==> config.audiences@.len() == 0
            &&& exchange.1 matches Ok(dispatcher) ==> (built matches Ok((state, policy))
                ==> state.validator == Validator::Dispatcher(dispatcher))
            &&& exchange.1 is Ok ==> (built matches Err(error) ==> error is RoutePattern
                || error is PublicRoutePattern)
            &&& exchange.1 matches Err(failure) ==> (built matches Err(error) && error matches
                AuthBuildError::Dispatcher { reason } && reason@ == failure@)
        },
{
    if cfg.jwks_uri is Some {
        let (config, reply) = choose|config: &AuthConfig, reply: Result<V, String>|
            {
                &&& #[trigger] call_ensures(build_dispatcher, (config,), reply)
                &&& config@ == oidc_config(
                    cfg.jwks_uri->0@,
                    opt_text(cfg.issuer),
                    opt_text(cfg.audience),
                )
                &&& match reply {
                    Err(reason) => built matches Err(error) && error@
                        == (AuthBuildErrorView::Dispatcher { reason: reason@ }),
                    Ok(dispatcher) => is_built_from_routes(
                        requirements@,
                        public_routes@,
                        cfg.require_auth_by_default,
                        Validator::Dispatcher(dispatcher),
                        built,
                    ),
                }
            };
        lemma_told_settings(cfg, config);
        (config, reply)
    } else {
        arbitrary()
    }
}

proof fn lemma_told_settings(cfg: &ApiIngressConfig, config: &AuthConfig)
    requires
        cfg.jwks_uri is Some,
        config@ == oidc_config(cfg.jwks_uri->0@, opt_text(cfg.issuer), opt_text(cfg.audience)),
    ensures
        cfg.issuer matches Some(issuer) ==> config.issuers@.len() == 1 && config.issuers@[0]@
            == issuer@,
        cfg.issuer is None ==> config.issuers@.len() == 0,
        cfg.audience matches Some(audience) ==> config.audiences@.len() == 1
            && config.audiences@[0]@ == audience@,
        cfg.audience is None ==> config.audiences@.len() == 0,
{
    assert(config@.issuers.len() == config.issuers@.len());
    assert(config@.audiences.len() == config.audiences@.len());
    if cfg.issuer is Some {
        assert(config@.issuers[0] == config.issuers@[0]@);
    }
    if cfg.audience is Some {
        assert(config@.audiences[0] == config.audiences@[0]@);
    }
}

/// The policy that a successful build gives.
proof fn lemma_built_policy<V, F: FnOnce(&AuthConfig) -> Result<V, String>>(
    cfg: &ApiIngressConfig,
    requirements: Vec<((Method, String), Requirement)>,
    public_routes: Vec<(Method, String)>,
    build_dispatcher: F,
    state: AuthState<V>,
    policy: IngressRoutePolicy,
)
    requires
        call_ensures(
            build_auth_state::<V, F>,
            (cfg, requirements, public_routes, build_dispatcher),
            Ok((state, policy)),
        ),
    ensures
        policy@.secured == route_tables(secured_entries(requirements@)),
        policy@.public == public_tables(public_routes@),
        policy@.require_auth_by_default == cfg.require_auth_by_default,
        all_entries_accepted(secured_entries(requirements@)),
        all_entries_accepted(public_entries(public_routes@)),
{
}

/// A request on a secured route that was given has to meet the requirement that was given for
/// that route: its resource and all its actions. Of several routes that the path is on it is
/// the one that comes before the others.
pub proof fn law_built_policy_asks_what_was_given<
    V,
    F: FnOnce(&AuthConfig) -> Result<V, String>,
>(
    cfg: &ApiIngressConfig,
    requirements: Vec<((Method, String), Requirement)>,
    public_routes: Vec<(Method, String)>,
    build_dispatcher: F,
    state: AuthState<V>,
    policy: IngressRoutePolicy,
    i: int,
    path: &str,
    asked: AuthRequirement,
)
    requires
        call_ensures(
            build_auth_state::<V, F>,
            (cfg, requirements, public_routes, build_dispatcher),
            Ok((state, policy)),
        ),
        forall|j: int|
            0 <= j < requirements@.len() ==> is_plain(
                matchit_path((#[trigger] requirements@[j]).0.1@),
            ),
        0 <= i < requirements@.len(),
        pattern_matches(matchit_path(requirements@[i].0.1@), path@),
        forall|j: int|
            0 <= j < requirements@.len() && j != i && (#[trigger] requirements@[j]).0.0@
                == requirements@[i].0.0@ && pattern_matches(
                matchit_path(requirements@[j].0.1@),
                path@,
            ) ==> precedes(
                matchit_path(requirements@[i].0.1@),
                matchit_path(requirements@[j].0.1@),
            ),
        call_ensures(
            <IngressRoutePolicy as RoutePolicy>::resolve,
            (&policy, &requirements@[i].0.0, path),
            asked,
        ),
    ensures
        asked matches AuthRequirement::Required(Some(requirement)) && {
            let wanted = requirements@[i].1;
            &&& requirement.resource@ == wanted.resource@
            &&& requirement.actions@.len() == wanted.actions@.len()
            &&& forall|a: int|
                0 <= a < wanted.actions@.len() ==> (#[trigger] requirement.actions@[a])@
                    == wanted.actions@[a]@
        },
{
    lemma_built_policy(cfg, requirements, public_routes, build_dispatcher, state, policy);
    let list = requirements@;
    let entries = secured_entries(list);
    let method = list[i].0.0@;
    assert forall|j: int| 0 <= j < entries.len() implies is_plain((#[trigger] entries[j]).1.0) by {
        lemma_secured_entry(list, j);
        assert(is_plain(matchit_path(list[j].0.1@)));
    }
    lemma_secured_entry(list, i);
    law_tables_are_orderly(entries, method);
    law_tables_hold_every_route(entries, i);
    let routes = policy@.secured[method];
    let k = choose|k: int| 0 <= k < routes.len() && routes[k] == entries[i].1;
    assert(patterns_of(routes)[k] == entries[i].1.0);
    let chosen = choose|c: int|
        #[trigger] is_choice(routes, path@, c) && asked@ == AuthRequirementView::Required(
            Some(routes[c].1),
        );
    if routes[chosen] != entries[i].1 {
        assert(routes.contains(routes[chosen]));
        lemma_route_is_listed(entries, method, routes[chosen]);
        let j = choose|j: int| 0 <= j < entries.len() && entries[j] == (method, routes[chosen]);
        lemma_secured_entry(list, j);
        assert(j != i);
        assert(list[j].0.0@ == method);
        assert(precedes(routes[chosen].0, routes[k].0));
        law_precedence_is_strict(routes[chosen].0, routes[k].0);
    }
    if let AuthRequirement::Required(Some(requirement)) = asked {
        lemma_requirement_actions(&requirement);
    }
}

/// A request on a secured route that was given without parameters has to meet the requirement
/// that was given for that route, whatever other routes the path is on.
pub proof fn law_built_policy_asks_for_literal_route<
    V,
    F: FnOnce(&AuthConfig) -> Result<V, String>,
>(
    cfg: &ApiIngressConfig,
    requirements: Vec<((Method, String), Requirement)>,
    public_routes: Vec<(Method, String)>,
    build_dispatcher: F,
    state: AuthState<V>,
    policy: IngressRoutePolicy,
    i: int,
    path: &str,
    asked: AuthRequirement,
)
    requires
        call_ensures(
            build_auth_state::<V, F>,
            (cfg, requirements, public_routes, build_dispatcher),
            Ok((state, policy)),
        ),
        forall|j: int|
            0 <= j < requirements@.len() ==> is_plain(
                matchit_path((#[trigger] requirements@[j]).0.1@),
            ),
        0 <= i < requirements@.len(),
        path@ == requirements@[i].0.1@,
        !path@.contains(':') && !path@.contains('{') && !path@.contains('}'),
        call_ensures(
            <IngressRoutePolicy as RoutePolicy>::resolve,
            (&policy, &requirements@[i].0.0, path),
            asked,
        ),
    ensures
        asked matches AuthRequirement::Required(Some(requirement)) && {
            let wanted = requirements@[i].1;
            &&& requirement.resource@ == wanted.resource@
            &&& requirement.actions@.len() == wanted.actions@.len()
            &&& forall|a: int|
                0 <= a < wanted.actions@.len() ==> (#[trigger] requirement.actions@[a])@
                    == wanted.actions@[a]@
        },
{
    lemma_built_policy(cfg, requirements, public_routes, build_dispatcher, state, policy);
    let list = requirements@;
    let entries = secured_entries(list);
    let method = list[i].0.0@;
    law_matchit_path_without_colon(path@);
    law_literal_matches_itself(path@, path@);
    law_built_routes_are_never_open(list, policy@, i, path@);
    lemma_secured_entry(list, i);
    law_tables_hold_every_route(entries, i);
    let routes = policy@.secured[method];
    let k = choose|k: int| 0 <= k < routes.len() && routes[k] == entries[i].1;
    let chosen = choose|c: int|
        #[trigger] is_choice(routes, path@, c) && asked@ == AuthRequirementView::Required(
            Some(routes[c].1),
        );
    if chosen != k {
        assert(pattern_matches(routes[k].0, path@));
        lemma_nothing_precedes_literal(routes[chosen].0, path@);
    }
    if let AuthRequirement::Required(Some(requirement)) = asked {
        lemma_requirement_actions(&requirement);
    }
}

/// A request on a secured route that was given with a parameter at its end, as the only one for
/// its method, has to meet the requirement that was given for it, whatever stands in the path
/// where the parameter is.
pub proof fn law_built_policy_asks_for_parameter_route<
    V,
    F: FnOnce(&AuthConfig) -> Result<V, String>,
>(
    cfg: &ApiIngressConfig,
    requirements: Vec<((Method, String), Requirement)>,
    public_routes: Vec<(Method, String)>,
    build_dispatcher: F,
    state: AuthState<V>,
    policy: IngressRoutePolicy,
    before: Seq<char>,
    name: Seq<char>,
    value: Seq<char>,
    path: &str,
    asked: AuthRequirement,
)
    requires
        call_ensures(
            build_auth_state::<V, F>,
            (cfg, requirements, public_routes, build_dispatcher),
            Ok((state, policy)),
        ),
        requirements@.len() == 1,
        requirements@[0].0.1@ == before + (seq![':'] + name),
        !before.contains(':') && !before.contains('{') && !before.contains('}'),
        name.len() > 0,
        forall|i: int|
            0 <= i < name.len() ==> ('a' <= #[trigger] name[i] <= 'z' || 'A' <= name[i] <= 'Z'
                || '0' <= name[i] <= '9' || name[i] == '_'),
        path@ == before + value,
        value.len() > 0 && !value.contains('/'),
        call_ensures(
            <IngressRoutePolicy as RoutePolicy>::resolve,
            (&policy, &requirements@[0].0.0, path),
            asked,
        ),
    ensures
        asked matches AuthRequirement::Required(Some(requirement)) && {
            let wanted = requirements@[0].1;
            &&& requirement.resource@ == wanted.resource@
            &&& requirement.actions@.len() == wanted.actions@.len()
            &&& forall|a: int|
                0 <= a < wanted.actions@.len() ==> (#[trigger] requirement.actions@[a])@
                    == wanted.actions@[a]@
        },
{
    let nothing = Seq::<char>::empty();
    let tail = seq!['{'] + name + seq!['}'] + nothing;
    let pattern = before + tail;
    assert(before + (seq![':'] + name) =~= before + (seq![':'] + name + nothing));
    law_matchit_path_of_parameter(before, name, nothing);
    assert(matchit_path(requirements@[0].0.1@) == pattern);
    assert forall|c: char| c == '*' || c == '/' || c == '{' || c == '}' implies !name.contains(
        c,
    ) by {
        if name.contains(c) {
            let i = choose|i: int| 0 <= i < name.len() && name[i] == c;
            assert(is_name_char(name[i]));
        }
    }
    assert(name.contains(name[0]));
    assert(value + nothing =~= value);
    law_parameter_takes_segment(before, name, nothing, value, nothing);
    law_literal_is_regular(nothing);
    law_parameter_is_regular(before, name, nothing);
    law_regular_is_plain(pattern);
    law_built_policy_asks_what_was_given(
        cfg,
        requirements,
        public_routes,
        build_dispatcher,
        state,
        policy,
        0,
        path,
        asked,
    );
}

/// A request on none of the secured routes that were given for its method needs no
/// authentication if it is on one of the public routes. If it is on neither, the ingress was
/// told what to do.
pub proof fn law_built_policy_leaves_others_alone<
    V,
    F: FnOnce(&AuthConfig) -> Result<V, String>,
>(
    cfg: &ApiIngressConfig,
    requirements: Vec<((Method, String), Requirement)>,
    public_routes: Vec<(Method, String)>,
    build_dispatcher: F,
    state: AuthState<V>,
    policy: IngressRoutePolicy,
    method: &Method,
    path: &str,
    asked: AuthRequirement,
)
    requires
        call_ensures(
            build_auth_state::<V, F>,
            (cfg, requirements, public_routes, build_dispatcher),
            Ok((state, policy)),
        ),
        forall|j: int|
            0 <= j < requirements@.len() ==> is_plain(
                matchit_path((#[trigger] requirements@[j]).0.1@),
            ),
        forall|j: int|
            0 <= j < public_routes@.len() ==> is_plain(
                matchit_path((#[trigger] public_routes@[j]).1@),
            ),
        forall|j: int|
            0 <= j < requirements@.len() && (#[trigger] requirements@[j]).0.0@ == method@
                ==> !pattern_matches(matchit_path(requirements@[j].0.1@), path@),
        call_ensures(
            <IngressRoutePolicy as RoutePolicy>::resolve,
            (&policy, method, path),
            asked,
        ),
    ensures
        ({
            let is_public = exists|j: int|
                0 <= j < public_routes@.len() && (#[trigger] public_routes@[j]).0@ == method@
                    && pattern_matches(matchit_path(public_routes@[j].1@), path@);
            if cfg.require_auth_by_default && !is_public {
                asked == AuthRequirement::Required(None)
            } else {
                asked is NotRequired
            }
        }),
{
    lemma_built_policy(cfg, requirements, public_routes, build_dispatcher, state, policy);
    let secured = secured_entries(requirements@);
    let public = public_entries(public_routes@);
    assert forall|j: int| 0 <= j < secured.len() implies is_plain((#[trigger] secured[j]).1.0) by {
        lemma_secured_entry(requirements@, j);
        assert(is_plain(matchit_path(requirements@[j].0.1@)));
    }
    assert forall|j: int| 0 <= j < public.len() implies is_plain((#[trigger] public[j]).1.0) by {
        assert(is_plain(matchit_path(public_routes@[j].1@)));
    }
    law_tables_are_orderly(secured, method@);
    law_tables_are_orderly(public, method@);
    if policy@.secured.contains_key(method@) {
        let routes = policy@.secured[method@];
        assert forall|k: int| 0 <= k < routes.len() implies !pattern_matches(
            (#[trigger] routes[k]).0,
            path@,
        ) by {
            assert(routes.contains(routes[k]));
            lemma_route_is_listed(secured, method@, routes[k]);
            let j = choose|j: int| 0 <= j < secured.len() && secured[j] == (method@, routes[k]);
            lemma_secured_entry(requirements@, j);
            assert(requirements@[j].0.0@ == method@);
        }
    }
    let tables = route_tables(public);
    if policy@.public.contains_key(method@) {
        let patterns = policy@.public[method@];
        assert(patterns == patterns_of(tables[method@]));
        assert forall|k: int|
            0 <= k < patterns.len() && pattern_matches(#[trigger] patterns[k], path@) implies exists|
            j: int,
        |
            0 <= j < public_routes@.len() && (#[trigger] public_routes@[j]).0@ == method@
                && pattern_matches(matchit_path(public_routes@[j].1@), path@) by {
            assert(patterns.contains(patterns[k]));
            lemma_routes_for_contains(public, method@, patterns[k]);
            let j = choose|j: int|
                0 <= j < public.len() && (#[trigger] public[j]).0 == method@ && public[j].1.0
                    == patterns[k];
            assert(public_routes@[j].0@ == method@);
        }
    }
    assert forall|j: int|
        0 <= j < public_routes@.len() && (#[trigger] public_routes@[j]).0@ == method@
            && pattern_matches(
            matchit_path(public_routes@[j].1@),
            path@,
        ) implies policy@.public.contains_key(method@) && any_matches(
        policy@.public[method@],
        path@,
    ) by {
        assert(public[j].0 == method@ && public[j].1.0 == matchit_path(public_routes@[j].1@));
        law_tables_hold_every_route(public, j);
        let routes = tables[method@];
        let k = choose|k: int| 0 <= k < routes.len() && routes[k] == public[j].1;
        assert(policy@.public[method@] == patterns_of(routes));
        assert(pattern_matches(policy@.public[method@][k], path@));
    }
    law_request_on_other_route(&policy, method, path, asked);
}

/// The routes that stand before a refused one in the list could have been built without it.
pub proof fn law_routes_before_the_refused_one_are_built(
    requirements: Vec<((Method, String), Requirement)>,
    error: AuthBuildError,
    first: Vec<((Method, String), Requirement)>,
    built: Result<MethodMap<RouteMatcher>, AuthBuildError>,
) -> (i: int)
    requires
        call_ensures(build_route_matchers, (requirements,), Err(error)),
        call_ensures(build_route_matchers, (first,), built),
    ensures
        0 <= i < requirements@.len(),
        error matches AuthBuildError::RoutePattern { path, reason } && path@
            == requirements@[i].0.1@,
        first@ == requirements@.take(i) ==> built is Ok,
        first@ == requirements@.take(i + 1) ==> built is Err,
{
    let list = requirements@;
    let entries = secured_entries(list);
    let i = choose|i: int| #[trigger] is_first_refused(entries, i) && error@ == refusal(list, i);
    let others = secured_entries(first@);
    if first@ == list.take(i) {
        assert(others =~= entries.take(i));
        assert forall|j: int| 0 <= j < others.len() implies #[trigger] entry_outcome(
            others,
            j,
        ) is Ok by {
            assert(others.take(j) =~= entries.take(j));
            assert(entry_outcome(entries, j) is Ok);
        }
        if built is Err {
            let j = choose|j: int| #[trigger] is_first_refused(others, j);
            assert(entry_outcome(others, j) is Err);
        }
    }
    if first@ == list.take(i + 1) {
        assert(others =~= entries.take(i + 1));
        assert(others.take(i) =~= entries.take(i));
        assert(entry_outcome(others, i) is Err);
    }
    i
}

/// What is built of the configuration and the routes is built of the secured routes and of the
/// public ones as they would be alone. The first refusal is reported, that of a secured route
/// before that of a public one, and if there is none the build succeeds.
pub proof fn law_build_reports_secured_routes_first<
    V,
    F: FnOnce(&AuthConfig) -> Result<V, String>,
>(
    cfg: &ApiIngressConfig,
    requirements: Vec<((Method, String), Requirement)>,
    public_routes: Vec<(Method, String)>,
    build_dispatcher: F,
    built: Result<(AuthState<V>, IngressRoutePolicy), AuthBuildError>,
    secured: Result<MethodMap<RouteMatcher>, AuthBuildError>,
    public: Result<MethodMap<PublicRouteMatcher>, AuthBuildError>,
)
    requires
        call_ensures(
            build_auth_state::<V, F>,
            (cfg, requirements, public_routes, build_dispatcher),
            built,
        ),
        call_ensures(build_route_matchers, (requirements,), secured),
        call_ensures(build_public_matchers, (public_routes,), public),
        !(built matches Err(error) && (error is MissingJwksUri || error is Dispatcher)),
    ensures
        secured matches Err(refusal) ==> (built matches Err(error) && refusal matches
            AuthBuildError::RoutePattern { path: p, reason: r } && error matches
            AuthBuildError::RoutePattern { path, reason } && path@ == p@ && reason@ == r@),
        secured is Ok ==> (public matches Err(refusal) ==> (built matches Err(error)
            && refusal matches AuthBuildError::PublicRoutePattern { path: p, reason: r }
            && error matches AuthBuildError::PublicRoutePattern { path, reason } && path@ == p@
            && reason@ == r@)),
        secured is Ok && public is Ok ==> built is Ok,
{
    assert forall|i: int, j: int|
        is_first_refused(secured_entries(requirements@), i) && is_first_refused(
            secured_entries(requirements@),
            j,
        ) implies i == j by {}
    assert forall|i: int, j: int|
        is_first_refused(public_entries(public_routes@), i) && is_first_refused(
            public_entries(public_routes@),
            j,
        ) implies i == j by {}
}

/// Any list of routes can be handed over that is shorter than a 32-bit number can count and in
/// which no path holds more than 25 parameter signs.
pub proof fn law_builds_routes_within_the_limits<
    V,
    F: FnOnce(&AuthConfig) -> Result<V, String>,
>(
    cfg: &ApiIngressConfig,
    requirements: Vec<((Method, String), Requirement)>,
    public_routes: Vec<(Method, String)>,
    build_dispatcher: F,
)
    requires
        requirements@.len() < u32::MAX,
        public_routes@.len() < u32::MAX,
        forall|i: int|
            0 <= i < requirements@.len() ==> parameter_signs((#[trigger] requirements@[i]).0.1@)
                <= 25,
        forall|i: int|
            0 <= i < public_routes@.len() ==> parameter_signs((#[trigger] public_routes@[i]).1@)
                <= 25,
        forall|config: &AuthConfig| call_requires(build_dispatcher, (config,)),
    ensures
        call_requires(build_route_matchers, (requirements,)),
        call_requires(build_public_matchers, (public_routes,)),
        call_requires(
            build_auth_state::<V, F>,
            (cfg, requirements, public_routes, build_dispatcher),
        ),
{
}

} // verus!
