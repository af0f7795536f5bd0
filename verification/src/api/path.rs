//! Path syntaxes: the router's `{id}` and `{*rest}`, the `{rest}` of API documents, and `:id`.

use vstd::prelude::*;

use crate::text::{append, chars_of, lemma_push_other, lemma_rest_is_contained, part_is};

verus! {

/// A path without the `*` of its wildcards: every `*` that directly follows a `{` is left out.
pub open spec fn without_wildcard_stars(path: Seq<char>) -> Seq<char>
    decreases path.len(),
{
    if path.len() == 0 {
        path
    } else if path.len() >= 2 && path.last() == '*' && path[path.len() - 2] == '{' {
        without_wildcard_stars(path.drop_last())
    } else {
        without_wildcard_stars(path.drop_last()).push(path.last())
    }
}

/// A name that is commonly given to the rest of a path.
pub open spec fn is_wildcard_name(name: Seq<char>) -> bool {
    name == "path"@ || name == "filepath"@
}

/// A parameter of the given name, as API documents write it.
pub open spec fn placeholder(name: Seq<char>) -> Seq<char> {
    seq!['{'] + name + seq!['}']
}

/// A wildcard of the given name, as the router writes it.
pub open spec fn wildcard(name: Seq<char>) -> Seq<char> {
    seq!['{', '*'] + name + seq!['}']
}

/// Whether a path ends in the placeholder of the given name.
pub open spec fn ends_in_placeholder(path: Seq<char>, name: Seq<char>) -> bool {
    path.len() >= placeholder(name).len() && path.skip(path.len() - placeholder(name).len())
        == placeholder(name)
}

/// The path with a wildcard in place of the placeholder that it ends in.
pub open spec fn with_wildcard(path: Seq<char>, name: Seq<char>) -> Seq<char> {
    path.take(path.len() - placeholder(name).len()) + wildcard(name)
}

/// A path in the router's syntax. Where it ends in the placeholder of a wildcard name that is
/// a wildcard, which the router marks by a star; any other path stays as it is. (The router
/// has wildcards at the end of a path only.)
pub open spec fn axum_path(path: Seq<char>) -> Seq<char> {
    if ends_in_placeholder(path, "path"@) {
        with_wildcard(path, "path"@)
    } else if ends_in_placeholder(path, "filepath"@) {
        with_wildcard(path, "filepath"@)
    } else {
        path
    }
}

/// Put a star before the name of a placeholder, where a path ends in it.
fn star_at_end(path: &str, name: &str) -> (starred: Option<String>)
    ensures
        match starred {
            Some(starred) => ends_in_placeholder(path@, name@) && starred@ == with_wildcard(
                path@,
                name@,
            ),
            None => !ends_in_placeholder(path@, name@),
        },
{
    let chars = chars_of(path);
    let n = chars.len();
    let k = chars_of(name).len();
    let ghost tail = placeholder(name@);
    if n < 2 || n - 2 < k {
        return None;
    }
    let start: usize = n - 2 - k;
    let ghost end = path@.skip(start as int);
    if chars[start] != '{' || chars[n - 1] != '}' || !part_is(&chars, start + 1, n - 1, name) {
        proof {
            if end == tail {
                assert(tail[0] == '{' && tail[k + 1] == '}');
                assert(end[0] == chars@[start as int] && end[k + 1] == chars@[n - 1]);
                assert(chars@.subrange(start + 1, n - 1) =~= end.subrange(1, k + 1));
                assert(tail.subrange(1, k + 1) =~= name@);
            }
        }
        return None;
    }
    let mut starred = String::new();
    for i in 0..start
        invariant
            start <= chars.len(),
            chars@ == path@,
            starred@ == path@.take(i as int),
    {
        starred.push(chars[i]);
        assert(starred@ =~= path@.take(i + 1));
    }
    append(&mut starred, "{*");
    append(&mut starred, name);
    starred.push('}');
    proof {
        reveal_strlit("{*");
        assert("{*"@ =~= seq!['{', '*']);
        assert(end =~= tail) by {
            assert forall|j: int| 0 <= j < k implies #[trigger] name@[j] == end[j + 1] by {
                assert(chars@.subrange(start + 1, n - 1)[j] == name@[j]);
            }
        }
        assert(starred@ =~= with_wildcard(path@, name@));
    }
    Some(starred)
}

/// Convert API document placeholders to the router's path syntax.
///
/// The router uses `{id}` for path parameters and `{*path}` for wildcards. API documents write
/// a parameter the same, but a wildcard as just `{path}`, without the asterisk. This function
/// converts such a wildcard, which it detects by its name: a common wildcard name at the end
/// of the path.
#[must_use]
pub fn normalize_to_axum_path(path: &str) -> (normalized: String)
    ensures
        normalized@ == axum_path(path@),
{
    if let Some(starred) = star_at_end(path, "path") {
        return starred;
    }
    if let Some(starred) = star_at_end(path, "filepath") {
        return starred;
    }
    path.to_owned()
}

/// Convert a router path to API document placeholders: the wildcard `{*path}` becomes `{path}`.
#[must_use]
pub fn axum_to_openapi_path(path: &str) -> (converted: String)
    ensures
        converted@ == without_wildcard_stars(path@),
{
    let chars = chars_of(path);
    let mut converted = String::new();
    for i in 0..chars.len()
        invariant
            chars@ == path@,
            converted@ == without_wildcard_stars(path@.take(i as int)),
    {
        assert(path@.take(i + 1).drop_last() =~= path@.take(i as int));
        if !(chars[i] == '*' && i > 0 && chars[i - 1] == '{') {
            converted.push(chars[i]);
        }
    }
    assert(path@.take(path@.len() as int) =~= path@);
    converted
}

/// Whether [`char::is_alphanumeric`] holds of a character.
pub uninterp spec fn char_is_alphanumeric(c: char) -> bool;

/// `char::is_alphanumeric`: whether the character is a letter or a number by its Unicode
/// properties, which are those of the character alone. Among the ASCII characters the
/// letters and the digits are, and no others.
#[verifier::external_body]
fn is_alphanumeric(c: char) -> (yes: bool)
    ensures
        yes == char_is_alphanumeric(c),
        c <= '\x7f' ==> yes == ('a' <= c <= 'z' || 'A' <= c <= 'Z' || '0' <= c <= '9'),
{
    c.is_alphanumeric()
}

/// A character that the name of a `:name` parameter can hold: an underscore, or a letter or a
/// number of any script.
pub open spec fn is_name_char(c: char) -> bool {
    if c <= '\x7f' {
        'a' <= c <= 'z' || 'A' <= c <= 'Z' || '0' <= c <= '9' || c == '_'
    } else {
        char_is_alphanumeric(c)
    }
}

/// How many name characters a text starts with.
pub open spec fn name_len(text: Seq<char>) -> nat
    decreases text.len(),
{
    if text.len() > 0 && is_name_char(text[0]) {
        1 + name_len(text.skip(1))
    } else {
        0
    }
}

/// A path whose `:name` parameters are written `{name}`. A parameter's name is the longest
/// run of name characters behind the colon; it may be empty.
pub open spec fn matchit_path(path: Seq<char>) -> Seq<char>
    decreases path.len(),
{
    if path.len() == 0 {
        path
    } else if path[0] == ':' {
        let rest = path.skip(1);
        proof {
            lemma_name_len(rest);
        }
        let name = rest.take(name_len(rest) as int);
        seq!['{'] + name + seq!['}'] + matchit_path(rest.skip(name_len(rest) as int))
    } else {
        seq![path[0]] + matchit_path(path.skip(1))
    }
}

/// No text starts with more name characters than it holds.
pub proof fn lemma_name_len(text: Seq<char>)
    ensures
        name_len(text) <= text.len(),
    decreases text.len(),
{
    if text.len() > 0 && is_name_char(text[0]) {
        lemma_name_len(text.skip(1));
    }
}

/// Convert the path syntax `:param` to the route matcher's `{param}`.
pub fn convert_axum_path_to_matchit(path: &str) -> (converted: String)
    ensures
        converted@ == matchit_path(path@),
        !converted@.contains(':'),
{
    let chars = chars_of(path);
    let mut converted = String::new();
    let mut i: usize = 0;
    assert(path@.skip(0) =~= path@);
    assert(converted@ + matchit_path(path@) =~= matchit_path(path@));
    while i < chars.len()
        invariant
            i <= chars.len(),
            chars@ == path@,
            matchit_path(path@) == converted@ + matchit_path(path@.skip(i as int)),
            !converted@.contains(':'),
        decreases chars.len() - i,
    {
        let c = chars[i];
        let ghost before = converted@;
        let ghost from = path@.skip(i as int);
        i += 1;
        let ghost rest = path@.skip(i as int);
        assert(from.skip(1) =~= rest);
        if c == ':' {
            converted.push('{');
            proof {
                lemma_push_other(before, '{', ':');
            }
            let ghost start = i;
            while i < chars.len() && (chars[i] == '_' || is_alphanumeric(chars[i]))
                invariant
                    start <= i <= chars.len(),
                    chars@ == path@,
                    rest == path@.skip(start as int),
                    converted@ == before.push('{') + rest.take(i - start),
                    name_len(rest) == (i - start) + name_len(path@.skip(i as int)),
                    !converted@.contains(':'),
                ensures
                    i >= chars.len() || !is_name_char(path@[i as int]),
                decreases chars.len() - i,
            {
                let ghost was = converted@;
                converted.push(chars[i]);
                assert(path@.skip(i as int).skip(1) =~= path@.skip(i + 1));
                assert(converted@ =~= before.push('{') + rest.take(i + 1 - start));
                proof {
                    lemma_push_other(was, chars@[i as int], ':');
                }
                i += 1;
            }
            assert(name_len(path@.skip(i as int)) == 0);
            let ghost inner = converted@;
            converted.push('}');
            proof {
                lemma_push_other(inner, '}', ':');
                lemma_name_len(rest);
                let n = name_len(rest) as int;
                assert(rest.skip(n) =~= path@.skip(i as int));
                assert(before + (seq!['{'] + rest.take(n) + seq!['}'] + matchit_path(rest.skip(n)))
                    =~= converted@ + matchit_path(path@.skip(i as int)));
            }
        } else {
            converted.push(c);
            proof {
                lemma_push_other(before, c, ':');
            }
            assert(before + (seq![c] + matchit_path(rest)) =~= converted@ + matchit_path(rest));
        }
    }
    assert(path@.skip(i as int) =~= Seq::empty());
    assert(converted@ + Seq::<char>::empty() =~= converted@);
    converted
}

/// A path without a wildcard is the same in both syntaxes.
pub proof fn law_openapi_path_without_wildcard(path: Seq<char>)
    requires
        forall|i: int| 0 < i < path.len() && path[i - 1] == '{' ==> #[trigger] path[i] != '*',
    ensures
        without_wildcard_stars(path) == path,
    decreases path.len(),
{
    if path.len() > 0 {
        law_openapi_path_without_wildcard(path.drop_last());
        assert(path.drop_last().push(path.last()) =~= path);
    }
}

/// A wildcard loses its star, wherever it stands, and the text round it is converted on its
/// own.
pub proof fn law_openapi_path_of_wildcard(before: Seq<char>, after: Seq<char>)
    ensures
        without_wildcard_stars(before + seq!['{', '*'] + after) == without_wildcard_stars(before)
            + seq!['{'] + without_wildcard_stars(after),
    decreases after.len(),
{
    let path = before + seq!['{', '*'] + after;
    if after.len() == 0 {
        let open = before.push('{');
        assert(path.drop_last() =~= open);
        assert(open.drop_last() =~= before);
        assert(without_wildcard_stars(open) =~= without_wildcard_stars(before) + seq!['{']
            + without_wildcard_stars(after));
    } else {
        let shorter = after.drop_last();
        law_openapi_path_of_wildcard(before, shorter);
        assert(path.drop_last() =~= before + seq!['{', '*'] + shorter);
        if after.len() == 1 {
            assert(path[path.len() - 2] == '*');
        } else {
            assert(path[path.len() - 2] == after[after.len() - 2]);
        }
        assert(without_wildcard_stars(path) =~= without_wildcard_stars(before) + seq!['{']
            + without_wildcard_stars(after));
    }
}

/// A path without a colon has no parameter to convert.
pub proof fn law_matchit_path_without_colon(path: Seq<char>)
    requires
        !path.contains(':'),
    ensures
        matchit_path(path) == path,
    decreases path.len(),
{
    if path.len() > 0 {
        lemma_rest_is_contained(path);
        law_matchit_path_without_colon(path.skip(1));
        assert(seq![path[0]] + path.skip(1) =~= path);
    }
}

proof fn lemma_name_len_of(name: Seq<char>, after: Seq<char>)
    requires
        forall|i: int| 0 <= i < name.len() ==> is_name_char(#[trigger] name[i]),
        after.len() == 0 || !is_name_char(after[0]),
    ensures
        name_len(name + after) == name.len(),
    decreases name.len(),
{
    let text = name + after;
    if name.len() > 0 {
        assert(text[0] == name[0]);
        lemma_name_len_of(name.skip(1), after);
        assert(text.skip(1) =~= name.skip(1) + after);
    } else {
        assert(text =~= after);
    }
}

/// The first parameter of a path is put between braces, and what follows is converted on its
/// own.
pub proof fn law_matchit_path_of_parameter(before: Seq<char>, name: Seq<char>, after: Seq<char>)
    requires
        !before.contains(':'),
        forall|i: int| 0 <= i < name.len() ==> is_name_char(#[trigger] name[i]),
        after.len() == 0 || !is_name_char(after[0]),
    ensures
        matchit_path(before + (seq![':'] + name + after)) == before + (seq!['{'] + name + seq!['}']
            + matchit_path(after)),
    decreases before.len(),
{
    let parameter = seq![':'] + name + after;
    let converted = seq!['{'] + name + seq!['}'] + matchit_path(after);
    let path = before + parameter;
    if before.len() == 0 {
        assert(path =~= parameter);
        assert(path.skip(1) =~= name + after);
        lemma_name_len_of(name, after);
        assert((name + after).take(name.len() as int) =~= name);
        assert((name + after).skip(name.len() as int) =~= after);
        assert(before + converted =~= converted);
    } else {
        lemma_rest_is_contained(before);
        law_matchit_path_of_parameter(before.skip(1), name, after);
        assert(path.skip(1) =~= before.skip(1) + parameter);
        assert(seq![before[0]] + (before.skip(1) + converted) =~= before + converted);
    }
}

/// A path that ends in the placeholder of a wildcard name gets the wildcard's star there.
pub proof fn law_axum_path_marks_wildcard(before: Seq<char>, name: Seq<char>)
    requires
        is_wildcard_name(name),
    ensures
        axum_path(before + placeholder(name)) == before + wildcard(name),
{
    let path = before + placeholder(name);
    assert(path.skip(path.len() - placeholder(name).len()) =~= placeholder(name));
    assert(path.take(path.len() - placeholder(name).len()) =~= before);
    lemma_wildcard_names();
    if name == "filepath"@ {
        assert(path[path.len() - 6] == 'e');
        lemma_placeholder_start(path, "path"@);
    }
}

/// A path that ends in no such placeholder stays as it is.
pub proof fn law_axum_path_keeps_others(path: Seq<char>)
    requires
        forall|name: Seq<char>| is_wildcard_name(name) ==> !ends_in_placeholder(path, name),
    ensures
        axum_path(path) == path,
{
    assert(is_wildcard_name("path"@) && is_wildcard_name("filepath"@));
}

proof fn lemma_wildcard_names()
    ensures
        "path"@ =~= seq!['p', 'a', 't', 'h'],
        "filepath"@ =~= seq!['f', 'i', 'l', 'e', 'p', 'a', 't', 'h'],
{
    reveal_strlit("path");
    reveal_strlit("filepath");
}

/// Where a placeholder that ends a path starts, there is an opening brace.
proof fn lemma_placeholder_start(path: Seq<char>, name: Seq<char>)
    ensures
        ends_in_placeholder(path, name) ==> path[path.len() - name.len() - 2] == '{',
{
    if ends_in_placeholder(path, name) {
        assert(path.skip(path.len() - placeholder(name).len())[0] == placeholder(name)[0]);
    }
}

/// A path that ends in a wildcard ends in no placeholder of a wildcard name.
proof fn lemma_wildcard_is_no_placeholder(before: Seq<char>, name: Seq<char>)
    requires
        is_wildcard_name(name),
    ensures
        axum_path(before + wildcard(name)) == before + wildcard(name),
{
    let path = before + wildcard(name);
    lemma_wildcard_names();
    lemma_placeholder_start(path, "path"@);
    lemma_placeholder_start(path, "filepath"@);
    let n = path.len();
    if name == "path"@ {
        assert(path[n - 6] == '*');
        if ends_in_placeholder(path, "filepath"@) {
            assert(path.skip(n - 10)[4] == placeholder("filepath"@)[4]);
        }
    } else {
        assert(path[n - 6] == 'e');
        assert(path[n - 10] == '*');
    }
}

/// The two conversions fit: a path of an API document, which has no stars, is got back from
/// the router's.
pub proof fn law_openapi_path_of_axum_path(path: Seq<char>)
    requires
        forall|i: int| 0 < i < path.len() && path[i - 1] == '{' ==> #[trigger] path[i] != '*',
    ensures
        without_wildcard_stars(axum_path(path)) == path,
{
    if ends_in_placeholder(path, "path"@) {
        lemma_star_is_dropped(path, "path"@);
    } else if ends_in_placeholder(path, "filepath"@) {
        lemma_star_is_dropped(path, "filepath"@);
    } else {
        law_openapi_path_without_wildcard(path);
    }
}

proof fn lemma_star_is_dropped(path: Seq<char>, name: Seq<char>)
    requires
        ends_in_placeholder(path, name),
        forall|i: int| 0 < i < path.len() && path[i - 1] == '{' ==> #[trigger] path[i] != '*',
    ensures
        without_wildcard_stars(with_wildcard(path, name)) == path,
{
    let start = path.len() - placeholder(name).len();
    let before = path.take(start);
    let after = name + seq!['}'];
    assert(path =~= before + placeholder(name)) by {
        assert(path.skip(start) == placeholder(name));
    }
    assert(with_wildcard(path, name) =~= before + seq!['{', '*'] + after);
    law_openapi_path_of_wildcard(before, after);
    law_openapi_path_without_wildcard(before);
    assert forall|i: int| 0 < i < after.len() && after[i - 1] == '{' implies #[trigger] after[i]
        != '*' by {
        assert(path[start + 1 + i] == after[i] && path[start + i] == after[i - 1]);
    }
    law_openapi_path_without_wildcard(after);
    assert(before + seq!['{'] + after =~= path);
}

/// A path in the router's syntax is not changed by a further conversion.
pub proof fn law_axum_path_is_stable(path: Seq<char>)
    ensures
        axum_path(axum_path(path)) == axum_path(path),
{
    if ends_in_placeholder(path, "path"@) {
        lemma_wildcard_is_no_placeholder(
            path.take(path.len() - placeholder("path"@).len()),
            "path"@,
        );
    } else if ends_in_placeholder(path, "filepath"@) {
        lemma_wildcard_is_no_placeholder(
            path.take(path.len() - placeholder("filepath"@).len()),
            "filepath"@,
        );
    }
}

/// What [`convert_axum_path_to_matchit`] makes of a path without a colon is the path itself.
pub proof fn law_converting_keeps_paths_without_parameters(path: &str, converted: String)
    requires
        call_ensures(convert_axum_path_to_matchit, (path,), converted),
        !path@.contains(':'),
    ensures
        converted@ == path@,
{
    law_matchit_path_without_colon(path@);
}

/// What [`convert_axum_path_to_matchit`] makes of a path with a parameter: the text before it
/// stays, the name behind the colon is put between braces, whole, and what follows is converted
/// as it would be alone. The name is made of ASCII letters of either case, ASCII digits,
/// underscores, and the letters and numbers of other scripts; it ends before the first other
/// character, such as a slash, or with the path.
pub proof fn law_converting_puts_names_between_braces(
    before: Seq<char>,
    name: Seq<char>,
    after: &str,
    path: &str,
    converted: String,
    converted_after: String,
)
    requires
        path@ == before + (seq![':'] + name + after@),
        !before.contains(':'),
        forall|i: int|
            0 <= i < name.len() ==> {
                let c = #[trigger] name[i];
                ||| 'a' <= c <= 'z'
                ||| 'A' <= c <= 'Z'
                ||| '0' <= c <= '9'
                ||| c == '_'
                ||| c > '\x7f' && char_is_alphanumeric(c)
            },
        after@.len() > 0 ==> {
            let c = after@[0];
            &&& !('a' <= c <= 'z')
            &&& !('A' <= c <= 'Z')
            &&& !('0' <= c <= '9')
            &&& c != '_'
            &&& c > '\x7f' ==> !char_is_alphanumeric(c)
        },
        call_ensures(convert_axum_path_to_matchit, (path,), converted),
        call_ensures(convert_axum_path_to_matchit, (after,), converted_after),
    ensures
        converted@ == before + (seq!['{'] + name + seq!['}'] + converted_after@),
{
    law_matchit_path_of_parameter(before, name, after@);
}

/// What [`normalize_to_axum_path`] makes of a path that ends in `{path}` or `{filepath}`: the
/// name there gets a star, and the text before it stays.
pub proof fn law_normalizing_marks_wildcards(before: Seq<char>, path: &str, normalized: String)
    requires
        call_ensures(normalize_to_axum_path, (path,), normalized),
    ensures
        path@ == before + "{path}"@ ==> normalized@ == before + "{*path}"@,
        path@ == before + "{filepath}"@ ==> normalized@ == before + "{*filepath}"@,
{
    lemma_marks();
    if path@ == before + "{path}"@ {
        law_axum_path_marks_wildcard(before, "path"@);
    }
    if path@ == before + "{filepath}"@ {
        law_axum_path_marks_wildcard(before, "filepath"@);
    }
}

/// What [`normalize_to_axum_path`] makes of a path that ends in neither is the path itself.
pub proof fn law_normalizing_keeps_other_paths(path: &str, normalized: String)
    requires
        call_ensures(normalize_to_axum_path, (path,), normalized),
        forall|before: Seq<char>| #[trigger] (before + "{path}"@) != path@,
        forall|before: Seq<char>| #[trigger] (before + "{filepath}"@) != path@,
    ensures
        normalized@ == path@,
{
    lemma_marks();
    assert forall|name: Seq<char>| is_wildcard_name(name) implies !ends_in_placeholder(
        path@,
        name,
    ) by {
        let before = path@.take(path@.len() - placeholder(name).len());
        if ends_in_placeholder(path@, name) {
            assert(before + placeholder(name) =~= path@);
            assert(before + "{path}"@ != path@);
            assert(before + "{filepath}"@ != path@);
        }
    }
    law_axum_path_keeps_others(path@);
}

proof fn lemma_marks()
    ensures
        "{path}"@ == placeholder("path"@),
        "{*path}"@ == wildcard("path"@),
        "{filepath}"@ == placeholder("filepath"@),
        "{*filepath}"@ == wildcard("filepath"@),
{
    lemma_wildcard_names();
    reveal_strlit("{path}");
    reveal_strlit("{*path}");
    reveal_strlit("{filepath}");
    reveal_strlit("{*filepath}");
    assert("{path}"@ =~= placeholder("path"@));
    assert("{*path}"@ =~= wildcard("path"@));
    assert("{filepath}"@ =~= placeholder("filepath"@));
    assert("{*filepath}"@ =~= wildcard("filepath"@));
}

/// What [`axum_to_openapi_path`] makes of a path with a wildcard: the star behind the brace
/// goes, and what stands on either side is converted as it would be alone.
pub proof fn law_documenting_drops_wildcard_stars(
    before: &str,
    after: &str,
    path: &str,
    converted_before: String,
    converted_after: String,
    converted: String,
)
    requires
        path@ == before@ + seq!['{', '*'] + after@,
        call_ensures(axum_to_openapi_path, (before,), converted_before),
        call_ensures(axum_to_openapi_path, (after,), converted_after),
        call_ensures(axum_to_openapi_path, (path,), converted),
    ensures
        converted@ == converted_before@ + seq!['{'] + converted_after@,
{
    law_openapi_path_of_wildcard(before@, after@);
}

/// What [`axum_to_openapi_path`] makes of a path without a wildcard is the path itself.
pub proof fn law_documenting_keeps_paths_without_wildcards(path: &str, converted: String)
    requires
        call_ensures(axum_to_openapi_path, (path,), converted),
        forall|i: int| 0 < i < path@.len() && path@[i - 1] == '{' ==> #[trigger] path@[i] != '*',
    ensures
        converted@ == path@,
{
    law_openapi_path_without_wildcard(path@);
}

/// A path of an API document, which has no stars, is got back from what
/// [`normalize_to_axum_path`] makes of it by [`axum_to_openapi_path`].
pub proof fn law_documenting_undoes_normalizing(
    path: &str,
    normalized: String,
    router_path: &str,
    converted: String,
)
    requires
        forall|i: int| 0 < i < path@.len() && path@[i - 1] == '{' ==> #[trigger] path@[i] != '*',
        call_ensures(normalize_to_axum_path, (path,), normalized),
        router_path@ == normalized@,
        call_ensures(axum_to_openapi_path, (router_path,), converted),
    ensures
        converted@ == path@,
{
    law_openapi_path_of_axum_path(path@);
}

} // verus!
