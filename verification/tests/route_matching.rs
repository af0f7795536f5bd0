//! The matchers against a plain reading of what a pattern matches, on many small cases.

use modkit::auth::routing::{PublicRouteMatcher, RouteMatcher};
use modkit::auth::types::SecRequirement;

/// Whether a path is on the route of a pattern.
fn matches(pattern: &[char], path: &[char]) -> bool {
    match pattern {
        [] => path.is_empty(),
        ['{', '*', ..] => !path.is_empty(),
        ['{', ..] => {
            let end = pattern.iter().position(|c| *c == '}').unwrap() + 1;
            let segment = path.iter().position(|c| *c == '/').unwrap_or(path.len());
            !path.is_empty() && matches(&pattern[end..], &path[segment..])
        }
        [c, rest @ ..] => path.first() == Some(c) && matches(rest, &path[1..]),
    }
}

fn is_on(pattern: &str, path: &str) -> bool {
    let pattern: Vec<char> = pattern.chars().collect();
    let path: Vec<char> = path.chars().collect();
    matches(&pattern, &path)
}

fn is_literal(pattern: &str) -> bool {
    !pattern.contains(['{', '}'])
}

/// The pattern without the names of its parameters.
fn shape(pattern: &str) -> String {
    let mut shape = String::new();
    let mut in_name = false;
    for c in pattern.chars() {
        if c == '}' {
            in_name = false;
        }
        if !in_name {
            shape.push(c);
        }
        if c == '{' {
            in_name = true;
        }
    }
    shape
}

/// Whether a pattern has text where another has a parameter, at the first difference.
fn precedes(pattern: &str, other: &str) -> bool {
    let (pattern, other) = (shape(pattern), shape(other));
    let first = pattern.chars().zip(other.chars()).find(|(a, b)| a != b);
    matches!(first, Some((a, '{')) if a != '{')
}

/// All paths of up to six signs.
fn paths() -> Vec<String> {
    let mut all = vec![String::new()];
    let mut longest = all.clone();
    for _ in 0..6 {
        let mut longer = Vec::new();
        for path in &longest {
            for c in ['/', 'a', 'b', 'é'] {
                longer.push(format!("{path}{c}"));
            }
        }
        all.extend(longer.iter().cloned());
        longest = longer;
    }
    all
}

const PATTERNS: [&str; 19] = [
    "/", "/a", "/b", "/a/", "/a/b", "/ab", "/{x}", "/{y}", "/{y}/", "/{x}/b", "/a/{x}", "/a{x}",
    "/ab{x}", "/{x}/{y}", "/{y}/{x}/a", "{x}", "/{*x}", "/a/{*x}", "/é{x}/b",
];

fn requirement(resource: &str) -> SecRequirement {
    SecRequirement::new(resource.to_owned(), vec![])
}

fn check_set(patterns: &[&str], paths: &[String]) {
    let mut secured = RouteMatcher::new();
    let mut public = PublicRouteMatcher::new();
    for (i, pattern) in patterns.iter().enumerate() {
        let outcome = public.insert(pattern);
        assert_eq!(
            secured.insert(pattern, requirement(pattern)).is_ok(),
            outcome.is_ok()
        );
        if is_literal(pattern) {
            assert_eq!(outcome.is_ok(), !patterns[..i].contains(pattern));
        }
        if patterns[..=i].iter().all(|pattern| !pattern.contains("{*")) {
            let taken = patterns[..i].iter().any(|other| shape(other) == shape(pattern));
            assert_eq!(outcome.is_ok(), !taken, "{patterns:?}");
        }
        if outcome.is_err() {
            return;
        }
    }
    for path in paths {
        let on_route = patterns.iter().any(|pattern| is_on(pattern, path));
        assert_eq!(public.find(path), on_route, "{patterns:?} {path}");
        match secured.find(path) {
            None => assert!(!on_route, "{patterns:?} {path}"),
            Some(found) => {
                assert!(patterns.contains(&found.resource.as_str()));
                assert!(is_on(&found.resource, path), "{patterns:?} {path}");
                for other in patterns.iter().filter(|other| **other != found.resource) {
                    if is_on(other, path) {
                        assert!(precedes(&found.resource, other), "{patterns:?} {path}");
                    }
                }
                if patterns.contains(&path.as_str()) {
                    assert_eq!(&found.resource, path);
                }
            }
        }
    }
}

#[test]
fn single_routes_match_as_they_read() {
    let paths = paths();
    for a in PATTERNS {
        check_set(&[a], &paths);
    }
}

#[test]
fn pairs_of_routes_match_as_they_read() {
    let paths = paths();
    for a in PATTERNS {
        for b in PATTERNS {
            check_set(&[a, b], &paths);
        }
    }
}

#[test]
fn triples_of_routes_match_as_they_read() {
    let paths: Vec<String> = paths().into_iter().filter(|p| p.len() <= 5).collect();
    for a in PATTERNS {
        for b in PATTERNS {
            for c in PATTERNS {
                check_set(&[a, b, c], &paths);
            }
        }
    }
}

#[test]
fn many_routes_match_as_they_read() {
    let paths = paths();
    check_set(
        &[
            "/a{x}", "/a", "/{x}/b", "/ab{x}", "/a/b", "/{x}", "/a/{x}", "/{x}/{y}", "/b", "/",
            "/ab", "/a/",
        ],
        &paths,
    );
    check_set(&["/b", "/a/{*x}", "/{x}/b", "/a", "/é{x}/b", "/é"], &paths);
}

#[test]
fn the_order_of_insertion_has_no_effect() {
    let routes = ["/a{x}", "/{x}", "/a/{y}", "/{x}/{y}", "/{x}/b", "/ab{x}", "/a/b"];
    let matcher_of = |patterns: &[&str]| {
        let mut matcher = RouteMatcher::new();
        for pattern in patterns {
            matcher.insert(pattern, requirement(pattern)).unwrap();
        }
        matcher
    };
    let forward = matcher_of(&routes);
    let mut reversed = routes;
    reversed.reverse();
    let backward = matcher_of(&reversed);
    for path in paths() {
        assert_eq!(
            forward.find(&path).map(|r| &r.resource),
            backward.find(&path).map(|r| &r.resource),
            "{path}"
        );
    }
    assert_eq!(forward.find("/a/b").unwrap().resource, "/a/b");
    assert_eq!(forward.find("/a/a").unwrap().resource, "/a/{y}");
    assert_eq!(forward.find("/b/b").unwrap().resource, "/{x}/b");
    assert_eq!(forward.find("/abb").unwrap().resource, "/ab{x}");
}
