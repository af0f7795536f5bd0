//! Route matchers: from a request path to what was registered for the route that it is on.
//!
//! A pattern is text with parameters: `{name}` stands for a path segment, or for the rest of
//! one, and `{*name}` for the rest of the path. The matching is done by the `matchit` crate.

use vstd::prelude::*;

use crate::auth::types::{SecRequirement, SecRequirementView};
use crate::text::lemma_rest_is_contained;

verus! {

/// A `matchit` router. Nothing of its inside is known here but what [`router_attempts`] says.
#[verifier::external_type_specification]
#[verifier::external_body]
#[verifier::reject_recursive_types(T)]
pub struct ExRouter<T>(matchit::Router<T>);

/// The insertions that a router has seen, in order: pattern and value. Those that it
/// refused are among them.
pub uninterp spec fn router_attempts(router: matchit::Router<usize>) -> Seq<(Seq<char>, usize)>;

/// What `matchit::Router::insert` says to a pattern once it has seen earlier ones: nothing, or
/// the text of its error.
pub uninterp spec fn insert_outcome(earlier: Seq<Seq<char>>, pattern: Seq<char>) -> Result<
    (),
    Seq<char>,
>;

/// Which of the insertions that a router has seen `matchit::Router::at` matches a path to,
/// counted from zero.
pub uninterp spec fn matched_route(patterns: Seq<Seq<char>>, path: Seq<char>) -> Option<nat>;

/// The patterns of a list of routes.
pub open spec fn patterns_of<T>(routes: Seq<(Seq<char>, T)>) -> Seq<Seq<char>> {
    routes.map_values(|route: (Seq<char>, T)| route.0)
}

/// A pattern without parameters.
pub open spec fn is_literal(pattern: Seq<char>) -> bool {
    !pattern.contains('{') && !pattern.contains('}')
}

/// A pattern that is not empty and holds no doubled brace. (A doubled brace stands for the
/// brace itself.)
pub open spec fn is_plain(pattern: Seq<char>) -> bool {
    &&& pattern.len() > 0
    &&& forall|i: int|
        0 < i < pattern.len() && (pattern[i] == '{' || pattern[i] == '}') ==> #[trigger] pattern[i]
            != pattern[i - 1]
}

/// Every pattern was accepted when its turn came.
pub open spec fn all_accepted(patterns: Seq<Seq<char>>) -> bool {
    forall|i: int|
        0 <= i < patterns.len() ==> insert_outcome(patterns.take(i), #[trigger] patterns[i]) is Ok
}

/// All patterns are plain, and each was accepted when its turn came.
pub open spec fn is_orderly(patterns: Seq<Seq<char>>) -> bool {
    &&& all_accepted(patterns)
    &&& forall|i: int| 0 <= i < patterns.len() ==> is_plain(#[trigger] patterns[i])
}

/// How many opening braces a text holds, those that are doubled aside: at least as many as a
/// pattern has parameters.
pub open spec fn brace_count(text: Seq<char>) -> nat
    decreases text.len(),
{
    if text.len() == 0 {
        0
    } else if text[0] != '{' {
        brace_count(text.skip(1))
    } else if text.len() > 1 && text[1] == '{' {
        brace_count(text.skip(2))
    } else {
        1 + brace_count(text.skip(1))
    }
}

/// The length of the path segment that a text starts with: up to the first slash, or all.
pub open spec fn segment_len(path: Seq<char>) -> nat
    decreases path.len(),
{
    if path.len() == 0 || path[0] == '/' {
        0
    } else {
        1 + segment_len(path.skip(1))
    }
}

/// The pattern behind its first closing brace.
pub open spec fn after_parameter(pattern: Seq<char>) -> Seq<char>
    decreases pattern.len(),
{
    if pattern.len() == 0 {
        pattern
    } else if pattern[0] == '}' {
        pattern.skip(1)
    } else {
        after_parameter(pattern.skip(1))
    }
}

/// What is behind a closing brace is shorter than the whole.
pub proof fn lemma_after_parameter_len(pattern: Seq<char>)
    requires
        pattern.len() > 0,
    ensures
        after_parameter(pattern).len() < pattern.len(),
    decreases pattern.len(),
{
    reveal_with_fuel(after_parameter, 2);
    if pattern[0] != '}' && pattern.len() > 1 {
        lemma_after_parameter_len(pattern.skip(1));
    }
}

/// Whether a path is on the route of a plain pattern. A parameter takes what is left of the
/// segment, a wildcard what is left of the path; something must be left, though it may be
/// only the slash that ends an empty segment.
pub open spec fn pattern_matches(pattern: Seq<char>, path: Seq<char>) -> bool
    decreases pattern.len(),
{
    if pattern.len() == 0 {
        path.len() == 0
    } else if pattern[0] != '{' {
        path.len() > 0 && path[0] == pattern[0] && pattern_matches(pattern.skip(1), path.skip(1))
    } else if pattern.len() > 1 && pattern[1] == '*' {
        path.len() > 0
    } else {
        proof {
            lemma_after_parameter_len(pattern);
        }
        path.len() > 0 && pattern_matches(
            after_parameter(pattern),
            path.skip(segment_len(path) as int),
        )
    }
}

/// A name that a parameter can have.
pub open spec fn is_parameter_name(name: Seq<char>) -> bool {
    name.len() > 0 && !name.contains('*') && !name.contains('/') && !name.contains('{')
        && !name.contains('}')
}

/// Whether a text is made of characters other than braces and of parameters that have a name
/// and end at a slash or at the end of the text.
pub open spec fn is_well_formed(pattern: Seq<char>) -> bool
    decreases pattern.len(),
{
    if pattern.len() == 0 {
        true
    } else if pattern[0] != '{' {
        pattern[0] != '}' && is_well_formed(pattern.skip(1))
    } else {
        proof {
            lemma_after_parameter_len(pattern);
        }
        let rest = after_parameter(pattern);
        &&& pattern.contains('}')
        &&& is_parameter_name(pattern.subrange(1, pattern.len() - rest.len() - 1))
        &&& rest.len() == 0 || rest[0] == '/'
        &&& is_well_formed(rest)
    }
}

/// A pattern that is not empty, is well-formed and has no wildcard.
pub open spec fn is_regular(pattern: Seq<char>) -> bool {
    pattern.len() > 0 && is_well_formed(pattern)
}

/// A pattern without the names of its parameters.
pub open spec fn shape(pattern: Seq<char>) -> Seq<char>
    decreases pattern.len(),
{
    if pattern.len() == 0 {
        pattern
    } else if pattern[0] != '{' {
        seq![pattern[0]] + shape(pattern.skip(1))
    } else {
        proof {
            lemma_after_parameter_len(pattern);
        }
        seq!['{', '}'] + shape(after_parameter(pattern))
    }
}

/// Whether a pattern has the shape of one of a list.
pub open spec fn has_shape_of(patterns: Seq<Seq<char>>, pattern: Seq<char>) -> bool {
    exists|i: int| 0 <= i < patterns.len() && shape(#[trigger] patterns[i]) == shape(pattern)
}

/// All patterns of a list are regular.
pub open spec fn all_regular(patterns: Seq<Seq<char>>) -> bool {
    forall|i: int| 0 <= i < patterns.len() ==> is_regular(#[trigger] patterns[i])
}

/// The value of the route that a path is matched to.
pub open spec fn selected<T>(routes: Seq<(Seq<char>, T)>, path: Seq<char>) -> Option<T> {
    match matched_route(patterns_of(routes), path) {
        Some(i) => Some(routes[i as int].1),
        None => None,
    }
}

/// Whether a pattern comes before another: where they differ for the first time, names of
/// parameters aside, it has text and the other has a parameter or a wildcard.
pub open spec fn precedes(pattern: Seq<char>, other: Seq<char>) -> bool
    decreases pattern.len(),
{
    if pattern.len() == 0 || other.len() == 0 {
        false
    } else if pattern[0] != '{' {
        other[0] == '{' || (pattern[0] == other[0] && precedes(pattern.skip(1), other.skip(1)))
    } else {
        proof {
            lemma_after_parameter_len(pattern);
        }
        other[0] == '{' && precedes(after_parameter(pattern), after_parameter(other))
    }
}

/// Whether a route is the one for a path: the path is on it, and it comes before every other
/// route that the path is on.
pub open spec fn is_choice<T>(routes: Seq<(Seq<char>, T)>, path: Seq<char>, i: int) -> bool {
    &&& 0 <= i < routes.len()
    &&& pattern_matches(routes[i].0, path)
    &&& forall|j: int|
        0 <= j < routes.len() && j != i && pattern_matches((#[trigger] routes[j]).0, path)
            ==> precedes(routes[i].0, routes[j].0)
}

/// What was found for a path is the value of the route for it, and nothing is found only if
/// the path is on no route.
pub open spec fn is_match<T>(
    routes: Seq<(Seq<char>, T)>,
    path: Seq<char>,
    found: Option<T>,
) -> bool {
    &&& found is Some ==> exists|i: int| #[trigger]
        is_choice(routes, path, i) && found == Some(routes[i].1)
    &&& found is None ==> forall|i: int|
        0 <= i < routes.len() ==> !pattern_matches((#[trigger] routes[i]).0, path)
}

/// `matchit::Router::new`: a router that has seen no insertion.
#[verifier::external_body]
fn router_new() -> (router: matchit::Router<usize>)
    ensures
        router_attempts(router) == Seq::<(Seq<char>, usize)>::empty(),
{
    matchit::Router::new()
}

/// `matchit::Router::insert`, with its error as text. What it says depends on the pattern and
/// on those seen before. Among regular patterns, one is refused only where another that
/// differs in the names of parameters at most is there already. A literal pattern that is not
/// empty is refused only where the same pattern is there already.
///
/// The outside function panics at the twenty-sixth parameter of a pattern. On a router that
/// has refused a pattern it may panic when it puts the text of a conflict together. It counts
/// insertions in a `u32`.
#[verifier::external_body]
fn router_insert(router: &mut matchit::Router<usize>, pattern: &str, value: usize) -> (outcome:
    Result<(), String>)
    requires
        all_accepted(patterns_of(router_attempts(*old(router)))),
        router_attempts(*old(router)).len() < u32::MAX,
        brace_count(pattern@) <= 25,
    ensures
        router_attempts(*final(router)) == router_attempts(*old(router)).push((pattern@, value)),
        (match outcome {
            Ok(()) => Ok(()),
            Err(text) => Err(text@),
        }) == insert_outcome(patterns_of(router_attempts(*old(router))), pattern@),
        is_orderly(patterns_of(router_attempts(*old(router)))) && is_literal(pattern@)
            && pattern@.len() > 0 ==> (outcome is Ok <==> !patterns_of(
            router_attempts(*old(router)),
        ).contains(pattern@)),
        all_regular(patterns_of(router_attempts(*old(router)))) && is_regular(pattern@) ==> (
        outcome is Ok <==> !has_shape_of(patterns_of(router_attempts(*old(router))), pattern@)),
{
    match router.insert(pattern, value) {
        Ok(()) => Ok(()),
        Err(e) => Err(e.to_string()),
    }
}

/// `matchit::Router::at`: the value of the route that a path is matched to. Where all patterns
/// are plain and were accepted, that is a route that the path is on, if there is one. Of
/// several, the search takes text before parameters and wildcards at every step.
#[verifier::external_body]
fn router_find(router: &matchit::Router<usize>, path: &str) -> (found: Option<usize>)
    ensures
        found == selected(router_attempts(*router), path@),
        found is Some ==> matched_route(patterns_of(router_attempts(*router)), path@)->0
            < router_attempts(*router).len(),
        is_orderly(patterns_of(router_attempts(*router))) ==> is_match(
            router_attempts(*router),
            path@,
            found,
        ),
{
    match router.at(path) {
        Ok(found) => Some(*found.value),
        Err(_) => None,
    }
}

/// `matchit::Router::clone`: a router that has seen the same insertions.
#[verifier::external_body]
fn router_clone(router: &matchit::Router<usize>) -> (copy: matchit::Router<usize>)
    ensures
        router_attempts(copy) == router_attempts(*router),
{
    router.clone()
}

/// Route matcher for a specific HTTP method (secured routes with requirements).
///
/// Its view is the list of the routes that were inserted: pattern and requirement.
pub struct RouteMatcher {
    matcher: matchit::Router<usize>,
    /// The requirement of each insertion, by the value that it has in the router.
    requirements: Vec<SecRequirement>,
}

impl RouteMatcher {
    #[verifier::type_invariant]
    spec fn inv(self) -> bool {
        let attempts = router_attempts(self.matcher);
        &&& attempts.len() == self.requirements.len()
        &&& forall|i: int| 0 <= i < attempts.len() ==> (#[trigger] attempts[i]).1 == i
    }
}

impl View for RouteMatcher {
    type V = Seq<(Seq<char>, SecRequirementView)>;

    closed spec fn view(&self) -> Seq<(Seq<char>, SecRequirementView)> {
        Seq::new(
            self.requirements@.len(),
            |i: int| (router_attempts(self.matcher)[i].0, self.requirements@[i]@),
        )
    }
}

impl RouteMatcher {
    /// A matcher without routes.
    pub fn new() -> (matcher: Self)
        ensures
            matcher@ == Seq::<(Seq<char>, SecRequirementView)>::empty(),
    {
        let matcher = RouteMatcher { matcher: router_new(), requirements: Vec::new() };
        assert(matcher@ =~= Seq::empty());
        matcher
    }

    /// Add a route with its requirement. A refused pattern gives the reason as text.
    pub fn insert(&mut self, path: &str, requirement: SecRequirement) -> (outcome: Result<
        (),
        String,
    >)
        requires
            all_accepted(patterns_of(old(self)@)),
            old(self)@.len() < u32::MAX,
            brace_count(path@) <= 25,
        ensures
            final(self)@ == old(self)@.push((path@, requirement@)),
            (match outcome {
                Ok(()) => Ok(()),
                Err(text) => Err(text@),
            }) == insert_outcome(patterns_of(old(self)@), path@),
            is_orderly(patterns_of(old(self)@)) && is_literal(path@) && path@.len() > 0 ==> (
            outcome is Ok <==> !patterns_of(old(self)@).contains(path@)),
            all_regular(patterns_of(old(self)@)) && is_regular(path@) ==> (outcome is Ok
                <==> !has_shape_of(patterns_of(old(self)@), path@)),
            outcome is Ok ==> all_accepted(patterns_of(final(self)@)),
    {
        let mut taken = RouteMatcher::new();
        std::mem::swap(&mut taken, self);
        proof {
            use_type_invariant(&taken);
        }
        let mut matcher = taken.matcher;
        let mut requirements = taken.requirements;
        let ghost before = router_attempts(matcher);
        assert(patterns_of(before) =~= patterns_of(old(self)@));
        let outcome = router_insert(&mut matcher, path, requirements.len());
        requirements.push(requirement);
        *self = RouteMatcher { matcher, requirements };
        proof {
            assert(self@ =~= old(self)@.push((path@, requirement@)));
            lemma_all_accepted_push(old(self)@, path@, requirement@);
        }
        outcome
    }

    /// The requirement of the route that a path is on.
    pub fn find(&self, path: &str) -> (found: Option<&SecRequirement>)
        ensures
            (match found {
                Some(requirement) => Some(requirement@),
                None => None,
            }) == selected(self@, path@),
            is_orderly(patterns_of(self@)) ==> is_match(self@, path@, selected(self@, path@)),
    {
        proof {
            use_type_invariant(self);
        }
        let ghost attempts = router_attempts(self.matcher);
        assert(patterns_of(attempts) =~= patterns_of(self@));
        let found = router_find(&self.matcher, path);
        proof {
            if is_orderly(patterns_of(self@)) {
                lemma_is_match_by_index(attempts, self@, path@, found);
            }
        }
        match found {
            Some(i) => Some(&self.requirements[i]),
            None => None,
        }
    }
}

impl Clone for RouteMatcher {
    fn clone(&self) -> (copy: Self)
        ensures
            copy@ == self@,
    {
        proof {
            use_type_invariant(self);
        }
        let requirements = self.requirements.clone();
        let copy = RouteMatcher { matcher: router_clone(&self.matcher), requirements };
        assert(copy@ =~= self@);
        copy
    }
}

/// Where the values of routes are their positions, what is found of them is found of another
/// list with the same patterns.
proof fn lemma_is_match_by_index<T>(
    attempts: Seq<(Seq<char>, usize)>,
    routes: Seq<(Seq<char>, T)>,
    path: Seq<char>,
    found: Option<usize>,
)
    requires
        attempts.len() == routes.len(),
        forall|i: int| 0 <= i < attempts.len() ==> (#[trigger] attempts[i]).1 == i,
        patterns_of(attempts) == patterns_of(routes),
        found == selected(attempts, path),
        matched_route(patterns_of(attempts), path) matches Some(i) ==> i < attempts.len(),
        is_match(attempts, path, found),
    ensures
        is_match(routes, path, selected(routes, path)),
{
    assert forall|i: int| 0 <= i < routes.len() implies (#[trigger] routes[i]).0
        == attempts[i].0 by {
        assert(patterns_of(attempts)[i] == patterns_of(routes)[i]);
    }
    if found is Some {
        let i = choose|i: int| #[trigger]
            is_choice(attempts, path, i) && found == Some(attempts[i].1);
        assert(routes[i].0 == attempts[i].0);
        assert forall|j: int|
            0 <= j < routes.len() && j != i && pattern_matches(
                (#[trigger] routes[j]).0,
                path,
            ) implies precedes(routes[i].0, routes[j].0) by {
            assert(attempts[j].0 == routes[j].0);
        }
        assert(is_choice(routes, path, i));
        assert(selected(routes, path) == Some(routes[i].1));
    }
}

/// A further pattern that is accepted keeps all patterns accepted.
pub proof fn lemma_all_accepted_push<T>(routes: Seq<(Seq<char>, T)>, pattern: Seq<char>, value: T)
    requires
        all_accepted(patterns_of(routes)),
    ensures
        insert_outcome(patterns_of(routes), pattern) is Ok ==> all_accepted(
            patterns_of(routes.push((pattern, value))),
        ),
{
    let patterns = patterns_of(routes);
    let longer = patterns_of(routes.push((pattern, value)));
    assert(longer =~= patterns.push(pattern));
    if insert_outcome(patterns, pattern) is Ok {
        assert forall|i: int| 0 <= i < longer.len() implies insert_outcome(
            longer.take(i),
            #[trigger] longer[i],
        ) is Ok by {
            if i < patterns.len() {
                assert(longer.take(i) =~= patterns.take(i));
                assert(longer[i] == patterns[i]);
            } else {
                assert(longer.take(i) =~= patterns);
            }
        }
    }
}

/// Public route matcher for explicitly public routes.
///
/// Its view is the list of the patterns that were inserted.
pub struct PublicRouteMatcher {
    matcher: matchit::Router<usize>,
}

impl View for PublicRouteMatcher {
    type V = Seq<Seq<char>>;

    closed spec fn view(&self) -> Seq<Seq<char>> {
        patterns_of(router_attempts(self.matcher))
    }
}

impl Clone for PublicRouteMatcher {
    fn clone(&self) -> (copy: Self)
        ensures
            copy@ == self@,
    {
        PublicRouteMatcher { matcher: router_clone(&self.matcher) }
    }
}

/// Whether a path is matched to one of the patterns.
pub open spec fn is_selected(patterns: Seq<Seq<char>>, path: Seq<char>) -> bool {
    matched_route(patterns, path) is Some
}

/// Whether a path is on the route of one of the patterns.
pub open spec fn any_matches(patterns: Seq<Seq<char>>, path: Seq<char>) -> bool {
    exists|i: int| 0 <= i < patterns.len() && pattern_matches(#[trigger] patterns[i], path)
}

impl PublicRouteMatcher {
    /// A matcher without routes.
    pub fn new() -> (matcher: Self)
        ensures
            matcher@ == Seq::<Seq<char>>::empty(),
    {
        let matcher = PublicRouteMatcher { matcher: router_new() };
        assert(matcher@ =~= Seq::empty());
        matcher
    }

    /// Add a route. A refused pattern gives the reason as text.
    pub fn insert(&mut self, path: &str) -> (outcome: Result<(), String>)
        requires
            all_accepted(old(self)@),
            old(self)@.len() < u32::MAX,
            brace_count(path@) <= 25,
        ensures
            final(self)@ == old(self)@.push(path@),
            (match outcome {
                Ok(()) => Ok(()),
                Err(text) => Err(text@),
            }) == insert_outcome(old(self)@, path@),
            is_orderly(old(self)@) && is_literal(path@) && path@.len() > 0 ==> (outcome is Ok
                <==> !old(self)@.contains(path@)),
            all_regular(old(self)@) && is_regular(path@) ==> (outcome is Ok <==> !has_shape_of(
                old(self)@,
                path@,
            )),
            outcome is Ok ==> all_accepted(final(self)@),
    {
        let ghost before = router_attempts(self.matcher);
        let outcome = router_insert(&mut self.matcher, path, 0);
        proof {
            assert(self@ =~= old(self)@.push(path@));
            lemma_all_accepted_push(before, path@, 0);
        }
        outcome
    }

    /// Whether a path is on one of the routes.
    pub fn find(&self, path: &str) -> (found: bool)
        ensures
            found == is_selected(self@, path@),
            is_orderly(self@) ==> found == any_matches(self@, path@),
    {
        let ghost attempts = router_attempts(self.matcher);
        let found = router_find(&self.matcher, path);
        proof {
            if is_orderly(self@) {
                assert forall|i: int| 0 <= i < attempts.len() implies #[trigger] attempts[i].0
                    == self@[i] by {}
                if found is Some {
                    let i = choose|i: int| #[trigger]
                        is_choice(attempts, path@, i) && found == Some(attempts[i].1);
                    assert(attempts[i].0 == self@[i]);
                    assert(pattern_matches(self@[i], path@));
                } else {
                    assert forall|i: int| 0 <= i < self@.len() implies !pattern_matches(
                        #[trigger] self@[i],
                        path@,
                    ) by {
                        assert(attempts[i].0 == self@[i]);
                    }
                }
            }
        }
        found.is_some()
    }
}

/// A literal pattern matches itself and nothing else.
pub proof fn law_literal_matches_itself(pattern: Seq<char>, path: Seq<char>)
    requires
        is_literal(pattern),
    ensures
        pattern_matches(pattern, path) <==> pattern == path,
    decreases pattern.len(),
{
    if pattern.len() == 0 {
        assert(path.len() == 0 ==> pattern =~= path);
    } else {
        lemma_rest_is_contained(pattern);
        let rest = pattern.skip(1);
        if path.len() > 0 {
            law_literal_matches_itself(rest, path.skip(1));
            assert(pattern =~= seq![pattern[0]] + rest);
            assert(path =~= seq![path[0]] + path.skip(1));
        }
    }
}

proof fn lemma_after_parameter(name: Seq<char>, suffix: Seq<char>)
    requires
        !name.contains('}'),
    ensures
        after_parameter(name + seq!['}'] + suffix) == suffix,
    decreases name.len(),
{
    let pattern = name + seq!['}'] + suffix;
    if name.len() == 0 {
        assert(pattern.skip(1) =~= suffix);
    } else {
        lemma_rest_is_contained(name);
        lemma_after_parameter(name.skip(1), suffix);
        assert(pattern.skip(1) =~= name.skip(1) + seq!['}'] + suffix);
    }
}

proof fn lemma_segment_len(value: Seq<char>, rest: Seq<char>)
    requires
        !value.contains('/'),
        rest.len() == 0 || rest[0] == '/',
    ensures
        segment_len(value + rest) == value.len(),
    decreases value.len(),
{
    let path = value + rest;
    if value.len() > 0 {
        lemma_rest_is_contained(value);
        lemma_segment_len(value.skip(1), rest);
        assert(path.skip(1) =~= value.skip(1) + rest);
    } else {
        assert(path =~= rest);
    }
}

/// Nothing comes before a literal pattern.
pub proof fn lemma_nothing_precedes_literal(pattern: Seq<char>, literal: Seq<char>)
    requires
        is_literal(literal),
    ensures
        !precedes(pattern, literal),
    decreases pattern.len(),
{
    if pattern.len() > 0 && literal.len() > 0 {
        lemma_rest_is_contained(literal);
        lemma_nothing_precedes_literal(pattern.skip(1), literal.skip(1));
    }
}

/// A literal route that is the path itself is the one that is found, whatever other routes the
/// path is on.
pub proof fn law_literal_route_is_found<T>(
    routes: Seq<(Seq<char>, T)>,
    path: Seq<char>,
    found: Option<T>,
    i: int,
)
    requires
        is_match(routes, path, found),
        0 <= i < routes.len(),
        routes[i].0 == path,
        is_literal(path),
    ensures
        found == Some(routes[i].1),
{
    law_literal_matches_itself(path, path);
    assert(pattern_matches(routes[i].0, path));
    let k = choose|k: int| #[trigger] is_choice(routes, path, k) && found == Some(routes[k].1);
    if k != i {
        lemma_nothing_precedes_literal(routes[k].0, routes[i].0);
    }
}

/// Of two patterns, one at most comes before the other.
pub proof fn law_precedence_is_strict(pattern: Seq<char>, other: Seq<char>)
    ensures
        !(precedes(pattern, other) && precedes(other, pattern)),
    decreases pattern.len(),
{
    if pattern.len() > 0 && other.len() > 0 {
        if pattern[0] == '{' && other[0] == '{' {
            lemma_after_parameter_len(pattern);
            law_precedence_is_strict(after_parameter(pattern), after_parameter(other));
        } else {
            law_precedence_is_strict(pattern.skip(1), other.skip(1));
        }
    }
}

/// What is found does not depend on the order in which the routes were inserted.
pub proof fn law_order_of_routes_does_not_matter<T>(
    routes: Seq<(Seq<char>, T)>,
    other: Seq<(Seq<char>, T)>,
    path: Seq<char>,
    found: Option<T>,
    found_in_other: Option<T>,
)
    requires
        forall|route: (Seq<char>, T)| #[trigger] routes.contains(route) <==> other.contains(route),
        is_match(routes, path, found),
        is_match(other, path, found_in_other),
    ensures
        found == found_in_other,
{
    if found is Some {
        let i = choose|i: int| #[trigger] is_choice(routes, path, i) && found == Some(routes[i].1);
        assert(routes.contains(routes[i]));
        assert(other.contains(routes[i]));
        let k = choose|k: int| 0 <= k < other.len() && other[k] == routes[i];
        assert(pattern_matches(other[k].0, path));
        let m = choose|m: int| #[trigger]
            is_choice(other, path, m) && found_in_other == Some(other[m].1);
        assert(other.contains(other[m]));
        assert(routes.contains(other[m]));
        let n = choose|n: int| 0 <= n < routes.len() && routes[n] == other[m];
        assert(pattern_matches(routes[n].0, path));
        if m != k && n != i {
            law_precedence_is_strict(routes[i].0, other[m].0);
        }
    } else if found_in_other is Some {
        let m = choose|m: int| #[trigger]
            is_choice(other, path, m) && found_in_other == Some(other[m].1);
        assert(other.contains(other[m]));
        assert(routes.contains(other[m]));
        let n = choose|n: int| 0 <= n < routes.len() && routes[n] == other[m];
        assert(pattern_matches(routes[n].0, path));
    }
}

/// A parameter takes any text without a slash: with it in place, the path is on the route if
/// and only if what follows is on the rest of the route.
pub proof fn law_parameter_takes_segment(
    prefix: Seq<char>,
    name: Seq<char>,
    suffix: Seq<char>,
    value: Seq<char>,
    rest: Seq<char>,
)
    requires
        is_literal(prefix),
        name.len() > 0 && name[0] != '*' && !name.contains('}'),
        value.len() > 0 && !value.contains('/'),
        rest.len() == 0 || rest[0] == '/',
    ensures
        pattern_matches(prefix + (seq!['{'] + name + seq!['}'] + suffix), prefix + (value + rest))
            <==> pattern_matches(suffix, rest),
    decreases prefix.len(),
{
    let tail = seq!['{'] + name + seq!['}'] + suffix;
    let path = value + rest;
    if prefix.len() == 0 {
        assert(prefix + tail =~= tail);
        assert(prefix + path =~= path);
        assert(tail[1] == name[0]);
        assert(tail.skip(1) =~= name + seq!['}'] + suffix);
        lemma_after_parameter(name, suffix);
        assert(after_parameter(tail) == suffix);
        lemma_segment_len(value, rest);
        assert(path.skip(value.len() as int) =~= rest);
    } else {
        lemma_rest_is_contained(prefix);
        let shorter = prefix.skip(1);
        law_parameter_takes_segment(shorter, name, suffix, value, rest);
        assert((prefix + tail).skip(1) =~= shorter + tail);
        assert((prefix + path).skip(1) =~= shorter + path);
    }
}

/// A wildcard takes what is left of a path, slashes and all, but not nothing.
pub proof fn law_wildcard_takes_rest(prefix: Seq<char>, name: Seq<char>, rest: Seq<char>)
    requires
        is_literal(prefix),
    ensures
        pattern_matches(prefix + (seq!['{', '*'] + name + seq!['}']), prefix + rest)
            <==> rest.len() > 0,
    decreases prefix.len(),
{
    let tail = seq!['{', '*'] + name + seq!['}'];
    if prefix.len() == 0 {
        assert(prefix + tail =~= tail);
        assert(prefix + rest =~= rest);
        assert(tail[0] == '{' && tail[1] == '*');
    } else {
        lemma_rest_is_contained(prefix);
        let shorter = prefix.skip(1);
        law_wildcard_takes_rest(shorter, name, rest);
        assert((prefix + tail).skip(1) =~= shorter + tail);
        assert((prefix + rest).skip(1) =~= shorter + rest);
    }
}

/// A literal pattern is regular, unless it is empty, and its shape is the pattern itself.
pub proof fn law_literal_is_regular(pattern: Seq<char>)
    requires
        is_literal(pattern),
    ensures
        is_well_formed(pattern),
        pattern.len() > 0 ==> is_regular(pattern),
        shape(pattern) == pattern,
    decreases pattern.len(),
{
    if pattern.len() > 0 {
        lemma_rest_is_contained(pattern);
        law_literal_is_regular(pattern.skip(1));
        assert(seq![pattern[0]] + pattern.skip(1) =~= pattern);
    }
}

/// A parameter between literal text and the rest of a regular pattern makes a regular pattern,
/// whatever its name, and one of the same shape.
pub proof fn law_parameter_is_regular(prefix: Seq<char>, name: Seq<char>, suffix: Seq<char>)
    requires
        is_literal(prefix),
        is_parameter_name(name),
        suffix.len() == 0 || suffix[0] == '/',
        is_well_formed(suffix),
    ensures
        is_regular(prefix + (seq!['{'] + name + seq!['}'] + suffix)),
        shape(prefix + (seq!['{'] + name + seq!['}'] + suffix)) == prefix + (seq!['{', '}'] + shape(
            suffix,
        )),
    decreases prefix.len(),
{
    let tail = seq!['{'] + name + seq!['}'] + suffix;
    let pattern = prefix + tail;
    if prefix.len() == 0 {
        assert(pattern =~= tail);
        assert(pattern.skip(1) =~= name + seq!['}'] + suffix);
        lemma_after_parameter(name, suffix);
        assert(after_parameter(pattern) == suffix);
        assert(pattern[name.len() as int + 1] == '}');
        assert(pattern.subrange(1, pattern.len() - suffix.len() - 1) =~= name);
        assert(prefix + (seq!['{', '}'] + shape(suffix)) =~= seq!['{', '}'] + shape(suffix));
    } else {
        lemma_rest_is_contained(prefix);
        law_parameter_is_regular(prefix.skip(1), name, suffix);
        assert(pattern.skip(1) =~= prefix.skip(1) + tail);
        assert(seq![prefix[0]] + (prefix.skip(1) + (seq!['{', '}'] + shape(suffix))) =~= prefix + (
        seq!['{', '}'] + shape(suffix)));
    }
}

/// A regular pattern is plain.
pub proof fn law_regular_is_plain(pattern: Seq<char>)
    requires
        is_regular(pattern),
    ensures
        is_plain(pattern),
{
    lemma_well_formed_braces(pattern);
}

proof fn lemma_after_parameter_is_suffix(pattern: Seq<char>) -> (end: int)
    requires
        pattern.contains('}'),
    ensures
        0 <= end < pattern.len(),
        pattern[end] == '}',
        after_parameter(pattern) == pattern.skip(end + 1),
    decreases pattern.len(),
{
    if pattern[0] == '}' {
        0
    } else {
        let rest = pattern.skip(1);
        let i = choose|i: int| 0 <= i < pattern.len() && pattern[i] == '}';
        assert(rest[i - 1] == '}');
        let end = lemma_after_parameter_is_suffix(rest);
        assert(rest.skip(end + 1) =~= pattern.skip(end + 2));
        end + 1
    }
}

/// No brace of a well-formed text stands beside its like.
proof fn lemma_well_formed_braces(pattern: Seq<char>)
    requires
        is_well_formed(pattern),
    ensures
        forall|i: int|
            0 < i < pattern.len() && (pattern[i] == '{' || pattern[i] == '}')
                ==> #[trigger] pattern[i] != pattern[i - 1],
    decreases pattern.len(),
{
    if pattern.len() > 0 && pattern[0] != '{' {
        let rest = pattern.skip(1);
        lemma_well_formed_braces(rest);
        assert forall|i: int|
            0 < i < pattern.len() && (pattern[i] == '{' || pattern[i] == '}') implies
            #[trigger] pattern[i] != pattern[i - 1] by {
            assert(rest[i - 1] == pattern[i]);
            assert(i > 1 ==> rest[i - 2] == pattern[i - 1]);
        }
    } else if pattern.len() > 0 {
        let end = lemma_after_parameter_is_suffix(pattern);
        let rest = after_parameter(pattern);
        let name = pattern.subrange(1, end);
        lemma_after_parameter_len(pattern);
        lemma_well_formed_braces(rest);
        assert forall|i: int|
            0 < i < pattern.len() && (pattern[i] == '{' || pattern[i] == '}') implies
            #[trigger] pattern[i] != pattern[i - 1] by {
            if i < end {
                assert(name[i - 1] == pattern[i]);
                assert(name.contains(name[i - 1]));
            } else if i == end {
                assert(name[i - 2] == pattern[i - 1]);
                assert(name.contains(name[i - 2]));
            } else if i == end + 1 {
                assert(rest[0] == pattern[i]);
            } else {
                assert(rest[i - end - 1] == pattern[i]);
                assert(rest[i - end - 2] == pattern[i - 1]);
            }
        }
    }
}

/// The text that a pattern starts with must be there, letter for letter; what follows goes on
/// from there.
pub proof fn law_text_must_be_there(prefix: Seq<char>, suffix: Seq<char>, path: Seq<char>)
    requires
        !prefix.contains('{'),
    ensures
        pattern_matches(prefix + suffix, path) <==> path.len() >= prefix.len() && path.take(
            prefix.len() as int,
        ) == prefix && pattern_matches(suffix, path.skip(prefix.len() as int)),
    decreases prefix.len(),
{
    let pattern = prefix + suffix;
    let n = prefix.len() as int;
    if prefix.len() == 0 {
        assert(pattern =~= suffix);
        assert(path.skip(0) =~= path);
        assert(path.take(0) =~= prefix);
    } else {
        lemma_rest_is_contained(prefix);
        assert(pattern[0] == prefix[0]);
        assert(pattern.skip(1) =~= prefix.skip(1) + suffix);
        if path.len() > 0 {
            law_text_must_be_there(prefix.skip(1), suffix, path.skip(1));
            if path.len() >= n {
                assert(path.skip(1).skip(n - 1) =~= path.skip(n));
                assert(path.skip(1).take(n - 1) =~= path.take(n).skip(1));
                if path.take(n) == prefix {
                    assert(path[0] == path.take(n)[0]);
                }
                if path[0] == prefix[0] && path.skip(1).take(n - 1) == prefix.skip(1) {
                    assert(path.take(n) =~= seq![path[0]] + path.take(n).skip(1));
                    assert(prefix =~= seq![prefix[0]] + prefix.skip(1));
                }
            }
        }
    }
}

/// A parameter takes what is left of the segment, whatever its name: some text, or nothing where
/// the segment is empty and the path goes on.
pub proof fn law_parameter_takes_what_is_left_of_the_segment(
    name: Seq<char>,
    suffix: Seq<char>,
    value: Seq<char>,
    rest: Seq<char>,
)
    requires
        name.len() > 0 ==> name[0] != '*',
        !name.contains('}'),
        !value.contains('/'),
        rest.len() == 0 || rest[0] == '/',
    ensures
        pattern_matches(seq!['{'] + name + seq!['}'] + suffix, value + rest) <==> value.len()
            + rest.len() > 0 && pattern_matches(suffix, rest),
{
    let pattern = seq!['{'] + name + seq!['}'] + suffix;
    let path = value + rest;
    assert(pattern[0] == '{');
    assert(pattern[1] == if name.len() > 0 {
        name[0]
    } else {
        '}'
    });
    assert(pattern.skip(1) =~= name + seq!['}'] + suffix);
    lemma_after_parameter(name, suffix);
    assert(after_parameter(pattern) == suffix);
    lemma_segment_len(value, rest);
    assert(path.skip(value.len() as int) =~= rest);
}

/// A wildcard takes all that is left of the path, whatever its name, but not nothing.
pub proof fn law_wildcard_takes_all_that_is_left(name: Seq<char>, path: Seq<char>)
    ensures
        pattern_matches(seq!['{', '*'] + name + seq!['}'], path) <==> path.len() > 0,
{
    let pattern = seq!['{', '*'] + name + seq!['}'];
    assert(pattern[0] == '{' && pattern[1] == '*');
}

/// Which of two patterns comes first is decided where they differ for the first time, names of
/// parameters aside: text comes before a parameter or a wildcard. Where both go on with text, or
/// one ends, neither comes first.
pub proof fn law_text_comes_before_parameters(
    prefix: Seq<char>,
    c: char,
    rest: Seq<char>,
    other: Seq<char>,
    d: char,
)
    requires
        !prefix.contains('{'),
        c != '{',
        d != '{' && d != c,
    ensures
        precedes(prefix + (seq![c] + rest), prefix + (seq!['{'] + other)),
        !precedes(prefix + (seq!['{'] + other), prefix + (seq![c] + rest)),
        !precedes(prefix + (seq![c] + rest), prefix + (seq![d] + other)),
        !precedes(prefix, prefix + other),
        !precedes(prefix + other, prefix),
{
    let text = seq![c] + rest;
    let parameter = seq!['{'] + other;
    let others = seq![d] + other;
    law_common_start_does_not_decide(prefix, text, parameter);
    law_common_start_does_not_decide(prefix, parameter, text);
    law_common_start_does_not_decide(prefix, text, others);
    law_common_start_does_not_decide(prefix, Seq::empty(), other);
    law_common_start_does_not_decide(prefix, other, Seq::empty());
    assert(prefix + Seq::<char>::empty() =~= prefix);
    assert(text[0] == c && parameter[0] == '{' && others[0] == d);
}

/// Text that two patterns both start with does not decide which comes first.
pub proof fn law_common_start_does_not_decide(
    prefix: Seq<char>,
    pattern: Seq<char>,
    other: Seq<char>,
)
    requires
        !prefix.contains('{'),
    ensures
        precedes(prefix + pattern, prefix + other) <==> precedes(pattern, other),
    decreases prefix.len(),
{
    if prefix.len() == 0 {
        assert(prefix + pattern =~= pattern);
        assert(prefix + other =~= other);
    } else {
        lemma_rest_is_contained(prefix);
        law_common_start_does_not_decide(prefix.skip(1), pattern, other);
        assert((prefix + pattern).skip(1) =~= prefix.skip(1) + pattern);
        assert((prefix + other).skip(1) =~= prefix.skip(1) + other);
        assert((prefix + pattern)[0] == prefix[0] && (prefix + other)[0] == prefix[0]);
    }
}

/// Nor do the names of parameters that they both go on with.
pub proof fn law_names_do_not_decide(
    name: Seq<char>,
    pattern: Seq<char>,
    other_name: Seq<char>,
    other: Seq<char>,
)
    requires
        !name.contains('}'),
        !other_name.contains('}'),
    ensures
        precedes(
            seq!['{'] + name + seq!['}'] + pattern,
            seq!['{'] + other_name + seq!['}'] + other,
        ) <==> precedes(pattern, other),
{
    let left = seq!['{'] + name + seq!['}'] + pattern;
    let right = seq!['{'] + other_name + seq!['}'] + other;
    assert(left.skip(1) =~= name + seq!['}'] + pattern);
    assert(right.skip(1) =~= other_name + seq!['}'] + other);
    lemma_after_parameter(name, pattern);
    lemma_after_parameter(other_name, other);
    assert(left[0] == '{' && right[0] == '{');
    assert(after_parameter(left) == pattern && after_parameter(right) == other);
}

/// What keeps a pattern from being plain: that it is empty, or a doubled brace anywhere.
pub proof fn law_plain_patterns(pattern: Seq<char>)
    ensures
        is_plain(pattern) <==> pattern.len() > 0 && forall|before: Seq<char>, after: Seq<char>|
            {
                &&& #[trigger] (before + "{{"@ + after) != pattern
                &&& before + "}}"@ + after != pattern
            },
{
    reveal_strlit("{{");
    reveal_strlit("}}");
    if is_plain(pattern) {
        assert forall|before: Seq<char>, after: Seq<char>| #[trigger]
            (before + "{{"@ + after) != pattern && before + "}}"@ + after != pattern by {
            let n = before.len() as int;
            let opening = before + "{{"@ + after;
            let closing = before + "}}"@ + after;
            assert(opening[n] == '{' && opening[n + 1] == '{');
            assert(closing[n] == '}' && closing[n + 1] == '}');
        }
    } else if pattern.len() > 0 {
        let i = choose|i: int|
            0 < i < pattern.len() && (pattern[i] == '{' || pattern[i] == '}')
                && #[trigger] pattern[i] == pattern[i - 1];
        let before = pattern.take(i - 1);
        let after = pattern.skip(i + 1);
        if pattern[i] == '{' {
            assert(before + "{{"@ + after =~= pattern);
        } else {
            assert(before + "}}"@ + after =~= pattern);
            assert((before + "{{"@ + after).len() == pattern.len());
        }
    }
}

/// What makes a pattern with a parameter well-formed: the parameter has a name, the name holds
/// no brace, slash or star, the parameter ends the segment, and what follows is well-formed. A
/// closing brace that ends no parameter keeps it from being so.
pub proof fn law_well_formed_patterns(prefix: Seq<char>, name: Seq<char>, suffix: Seq<char>)
    requires
        !prefix.contains('{') && !prefix.contains('}'),
        !name.contains('}'),
    ensures
        is_well_formed(prefix + (seq!['{'] + name + seq!['}'] + suffix)) <==> {
            &&& name.len() > 0
            &&& !name.contains('*')
            &&& !name.contains('/')
            &&& !name.contains('{')
            &&& suffix.len() == 0 || suffix[0] == '/'
            &&& is_well_formed(suffix)
        },
        !is_well_formed(prefix + (seq!['}'] + suffix)),
        !is_well_formed(prefix + (seq!['{'] + name)),
    decreases prefix.len(),
{
    let tail = seq!['{'] + name + seq!['}'] + suffix;
    let closed = seq!['}'] + suffix;
    let open = seq!['{'] + name;
    if prefix.len() == 0 {
        assert(prefix + tail =~= tail);
        assert(prefix + closed =~= closed);
        assert(prefix + open =~= open);
        assert(tail.skip(1) =~= name + seq!['}'] + suffix);
        lemma_after_parameter(name, suffix);
        assert(after_parameter(tail) == suffix);
        assert(tail[name.len() as int + 1] == '}');
        assert(tail.subrange(1, tail.len() - suffix.len() - 1) =~= name);
        assert(closed[0] == '}' && open[0] == '{');
        assert(!open.contains('}')) by {
            assert forall|i: int| 0 <= i < open.len() implies open[i] != '}' by {
                assert(i > 0 ==> name.contains(name[i - 1]));
            }
        }
    } else {
        lemma_rest_is_contained(prefix);
        law_well_formed_patterns(prefix.skip(1), name, suffix);
        assert((prefix + tail).skip(1) =~= prefix.skip(1) + tail);
        assert((prefix + closed).skip(1) =~= prefix.skip(1) + closed);
        assert((prefix + open).skip(1) =~= prefix.skip(1) + open);
        assert((prefix + tail)[0] == prefix[0] && (prefix + closed)[0] == prefix[0]);
        assert((prefix + open)[0] == prefix[0]);
    }
}

/// What is counted of a text: nothing where there is no opening brace, nothing for a doubled
/// one, and one for any other, besides what is counted of the text that follows.
pub proof fn law_counted_braces(before: Seq<char>, after: Seq<char>)
    requires
        !before.contains('{'),
    ensures
        brace_count(before) == 0,
        brace_count(before + (seq!['{', '{'] + after)) == brace_count(after),
        after.len() == 0 || after[0] != '{' ==> brace_count(before + (seq!['{'] + after)) == 1
            + brace_count(after),
    decreases before.len(),
{
    let doubled = seq!['{', '{'] + after;
    let single = seq!['{'] + after;
    if before.len() == 0 {
        assert(before + doubled =~= doubled);
        assert(before + single =~= single);
        assert(doubled.skip(2) =~= after);
        assert(single.skip(1) =~= after);
        assert(doubled[0] == '{' && doubled[1] == '{' && single[0] == '{');
        assert(after.len() > 0 ==> single[1] == after[0]);
    } else {
        lemma_rest_is_contained(before);
        law_counted_braces(before.skip(1), after);
        assert((before + doubled).skip(1) =~= before.skip(1) + doubled);
        assert((before + single).skip(1) =~= before.skip(1) + single);
        assert((before + doubled)[0] == before[0] && (before + single)[0] == before[0]);
    }
}

/// What a matcher finds is the requirement that was inserted with the route that the path is
/// matched to, with its resource and all its actions.
pub proof fn law_finds_what_was_inserted_with_the_route(
    matcher: &RouteMatcher,
    path: &str,
    found: Option<&SecRequirement>,
    patterns: Seq<Seq<char>>,
)
    requires
        call_ensures(RouteMatcher::find, (matcher, path), found),
        patterns.len() == matcher@.len(),
        forall|i: int| 0 <= i < patterns.len() ==> #[trigger] patterns[i] == matcher@[i].0,
    ensures
        found is Some <==> matched_route(patterns, path@) is Some,
        found matches Some(requirement) ==> {
            let wanted = matcher@[matched_route(patterns, path@)->0 as int].1;
            &&& requirement.resource@ == wanted.resource
            &&& requirement.actions@.len() == wanted.actions.len()
            &&& forall|a: int|
                0 <= a < wanted.actions.len() ==> (#[trigger] requirement.actions@[a])@
                    == wanted.actions[a]
        },
{
    assert(patterns_of(matcher@) =~= patterns);
    if let Some(requirement) = found {
        lemma_requirement_actions(requirement);
    }
}

/// What a requirement says, letter for letter.
pub proof fn lemma_requirement_actions(requirement: &SecRequirement)
    ensures
        requirement@.resource == requirement.resource@,
        requirement@.actions.len() == requirement.actions@.len(),
        forall|a: int|
            0 <= a < requirement.actions@.len() ==> (#[trigger] requirement.actions@[a])@
                == requirement@.actions[a],
{
    assert forall|a: int| 0 <= a < requirement.actions@.len() implies (
    #[trigger] requirement.actions@[a])@ == requirement@.actions[a] by {}
}

/// A route that is inserted stands behind the others, which stay as they are, with its path as
/// the pattern and the requirement that it was given, all actions in their order.
pub proof fn law_inserted_route_stands_last(
    matcher: &mut RouteMatcher,
    path: &str,
    requirement: SecRequirement,
    outcome: Result<(), String>,
)
    requires
        call_ensures(RouteMatcher::insert, (matcher, path, requirement), outcome),
    ensures
        final(matcher)@.len() == old(matcher)@.len() + 1,
        forall|i: int|
            0 <= i < old(matcher)@.len() ==> #[trigger] final(matcher)@[i] == old(matcher)@[i],
        final(matcher)@.last().0 == path@,
        final(matcher)@.last().1.resource == requirement.resource@,
        final(matcher)@.last().1.actions.len() == requirement.actions@.len(),
        forall|a: int|
            0 <= a < requirement.actions@.len() ==> #[trigger] final(matcher)@.last().1.actions[a]
                == requirement.actions@[a]@,
{
    lemma_requirement_actions(&requirement);
    let inserted = final(matcher)@.last().1;
    assert(inserted == requirement@);
    assert forall|a: int| 0 <= a < requirement.actions@.len() implies #[trigger] inserted.actions[a]
        == requirement.actions@[a]@ by {
        assert(requirement.actions@[a]@ == requirement@.actions[a]);
    }
}

/// A public route that is inserted stands behind the others, which stay as they are.
pub proof fn law_inserted_public_route_stands_last(
    matcher: &mut PublicRouteMatcher,
    path: &str,
    outcome: Result<(), String>,
)
    requires
        call_ensures(PublicRouteMatcher::insert, (matcher, path), outcome),
    ensures
        final(matcher)@.len() == old(matcher)@.len() + 1,
        forall|i: int|
            0 <= i < old(matcher)@.len() ==> #[trigger] final(matcher)@[i] == old(matcher)@[i],
        final(matcher)@.last() == path@,
{
}

/// A regular pattern is accepted beside regular ones if and only if none of them is the same
/// but for the names of parameters, and what is accepted is there to be found.
pub proof fn law_accepted_unless_there_already(
    matcher: &mut RouteMatcher,
    path: &str,
    requirement: SecRequirement,
    outcome: Result<(), String>,
)
    requires
        call_ensures(RouteMatcher::insert, (matcher, path, requirement), outcome),
        is_regular(path@),
        forall|i: int| 0 <= i < old(matcher)@.len() ==> is_regular((#[trigger] old(matcher)@[i]).0),
    ensures
        outcome is Ok <==> forall|i: int|
            0 <= i < old(matcher)@.len() ==> shape((#[trigger] old(matcher)@[i]).0) != shape(path@),
{
    let patterns = patterns_of(old(matcher)@);
    assert forall|i: int| 0 <= i < patterns.len() implies is_regular(#[trigger] patterns[i]) by {
        assert(patterns[i] == old(matcher)@[i].0);
    }
    if outcome is Err {
        let i = choose|i: int|
            0 <= i < patterns.len() && shape(#[trigger] patterns[i]) == shape(path@);
        assert(shape(old(matcher)@[i].0) == shape(path@));
    } else {
        assert forall|i: int| 0 <= i < old(matcher)@.len() implies shape(
            (#[trigger] old(matcher)@[i]).0,
        ) != shape(path@) by {
            assert(patterns[i] == old(matcher)@[i].0);
        }
    }
}

/// A path is found on the public routes if and only if it is matched to one of them.
pub proof fn law_finds_public_routes(matcher: &PublicRouteMatcher, path: &str, found: bool)
    requires
        call_ensures(PublicRouteMatcher::find, (matcher, path), found),
    ensures
        found <==> matched_route(matcher@, path@) is Some,
        is_orderly(matcher@) ==> (found <==> exists|i: int|
            0 <= i < matcher@.len() && pattern_matches(#[trigger] matcher@[i], path@)),
{
}

} // verus!
