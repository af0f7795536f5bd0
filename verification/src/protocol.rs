//! HTTP request methods and status codes as plain values.

use vstd::prelude::*;

use crate::text::{chars_of, same_text};

verus! {

/// A character of an HTTP token (RFC 9110): a letter, a digit or one of some signs.
pub open spec fn is_token_char(c: char) -> bool {
    ||| 'a' <= c <= 'z'
    ||| 'A' <= c <= 'Z'
    ||| '0' <= c <= '9'
    ||| c == '!' || c == '#' || c == '$' || c == '%' || c == '&' || c == '\'' || c == '*'
    ||| c == '+' || c == '-' || c == '.' || c == '^' || c == '_' || c == '`' || c == '|'
    ||| c == '~'
}

/// An HTTP token: at least one character, all of them token characters.
pub open spec fn is_token(name: Seq<char>) -> bool {
    name.len() > 0 && forall|i: int| 0 <= i < name.len() ==> is_token_char(#[trigger] name[i])
}

/// A name that a variant of [`Method`] other than `Other` stands for.
pub open spec fn is_routed_name(name: Seq<char>) -> bool {
    name == "GET"@ || name == "POST"@ || name == "PUT"@ || name == "DELETE"@ || name == "PATCH"@
}

/// The character in lower case, where it is an ASCII letter.
pub open spec fn lower_char(c: char) -> char {
    if 'A' <= c <= 'Z' {
        (c as u8 + 32) as char
    } else {
        c
    }
}

/// A name in lower case. Method names are ASCII, so only ASCII letters have a case.
pub open spec fn lower_name(name: Seq<char>) -> Seq<char> {
    name.map_values(|c: char| lower_char(c))
}

/// The name of a method other than those that an operation can be routed by.
#[derive(Debug)]
pub struct OtherMethod {
    name: String,
}

impl OtherMethod {
    #[verifier::type_invariant]
    spec fn inv(self) -> bool {
        is_token(self.name@) && !is_routed_name(self.name@)
    }

    pub closed spec fn name(&self) -> Seq<char> {
        self.name@
    }
}

/// An HTTP request method. Its view is its name.
#[derive(Debug)]
pub enum Method {
    GET,
    POST,
    PUT,
    DELETE,
    PATCH,
    Other(OtherMethod),
}

impl View for Method {
    type V = Seq<char>;

    open spec fn view(&self) -> Seq<char> {
        match self {
            Method::GET => "GET"@,
            Method::POST => "POST"@,
            Method::PUT => "PUT"@,
            Method::DELETE => "DELETE"@,
            Method::PATCH => "PATCH"@,
            Method::Other(other) => other.name(),
        }
    }
}

/// How requests are routed to a handler: by one method, or, for a method that no handler can
/// be routed by, to the answer that the method is not allowed.
#[derive(Debug, Clone, Copy, PartialEq, Eq, Structural)]
pub enum Routing {
    Get,
    Post,
    Put,
    Delete,
    Patch,
    MethodNotAllowed,
}

/// How the requests of a method are routed. The method is given by its name.
pub open spec fn routing_of(method: Seq<char>) -> Routing {
    if method == "GET"@ {
        Routing::Get
    } else if method == "POST"@ {
        Routing::Post
    } else if method == "PUT"@ {
        Routing::Put
    } else if method == "DELETE"@ {
        Routing::Delete
    } else if method == "PATCH"@ {
        Routing::Patch
    } else {
        Routing::MethodNotAllowed
    }
}

/// The text is not the name of an HTTP method.
#[derive(Debug, Clone, Copy, PartialEq, Eq)]
pub struct InvalidMethod;

fn has_token_char(c: char) -> (yes: bool)
    ensures
        yes == is_token_char(c),
{
    ('a' <= c && c <= 'z') || ('A' <= c && c <= 'Z') || ('0' <= c && c <= '9') || c == '!' || c
        == '#' || c == '$' || c == '%' || c == '&' || c == '\'' || c == '*' || c == '+' || c == '-'
        || c == '.' || c == '^' || c == '_' || c == '`' || c == '|' || c == '~'
}

impl Method {
    /// The method of a given name. Names are case-sensitive.
    pub fn from_name(name: &str) -> (method: Result<Method, InvalidMethod>)
        ensures
            method is Ok <==> is_token(name@),
            method matches Ok(m) ==> m@ == name@,
    {
        let chars = chars_of(name);
        if chars.len() == 0 {
            return Err(InvalidMethod);
        }
        for i in 0..chars.len()
            invariant
                chars@ == name@,
                forall|j: int| 0 <= j < i ==> is_token_char(#[trigger] name@[j]),
        {
            if !has_token_char(chars[i]) {
                return Err(InvalidMethod);
            }
        }
        if same_text(name, "GET") {
            Ok(Method::GET)
        } else if same_text(name, "POST") {
            Ok(Method::POST)
        } else if same_text(name, "PUT") {
            Ok(Method::PUT)
        } else if same_text(name, "DELETE") {
            Ok(Method::DELETE)
        } else if same_text(name, "PATCH") {
            Ok(Method::PATCH)
        } else {
            Ok(Method::Other(OtherMethod { name: name.to_owned() }))
        }
    }

    /// The name of the method.
    pub fn as_str(&self) -> (name: &str)
        ensures
            name@ == self@,
            is_token(name@),
    {
        proof {
            reveal_strlit("GET");
            reveal_strlit("POST");
            reveal_strlit("PUT");
            reveal_strlit("DELETE");
            reveal_strlit("PATCH");
        }
        match self {
            Method::GET => "GET",
            Method::POST => "POST",
            Method::PUT => "PUT",
            Method::DELETE => "DELETE",
            Method::PATCH => "PATCH",
            Method::Other(other) => {
                proof {
                    use_type_invariant(other);
                }
                other.name.as_str()
            },
        }
    }

    /// How requests of the method are routed.
    pub fn routing(&self) -> (routing: Routing)
        ensures
            routing == routing_of(self@),
    {
        proof {
            reveal_strlit("GET");
            reveal_strlit("POST");
            reveal_strlit("PUT");
            reveal_strlit("DELETE");
            reveal_strlit("PATCH");
            assert("GET"@.len() == 3 && "POST"@.len() == 4 && "PUT"@.len() == 3);
            assert("DELETE"@.len() == 6 && "PATCH"@.len() == 5);
            assert("GET"@[0] != "PUT"@[0]);
        }
        match self {
            Method::GET => Routing::Get,
            Method::POST => Routing::Post,
            Method::PUT => Routing::Put,
            Method::DELETE => Routing::Delete,
            Method::PATCH => Routing::Patch,
            Method::Other(other) => {
                proof {
                    use_type_invariant(other);
                }
                Routing::MethodNotAllowed
            },
        }
    }

    /// The name of the method in lower case.
    pub fn lowercase_name(&self) -> (name: String)
        ensures
            name@ == lower_name(self@),
    {
        let chars = chars_of(self.as_str());
        let mut name = String::new();
        for i in 0..chars.len()
            invariant
                chars@ == self@,
                name@ == lower_name(self@.take(i as int)),
        {
            let c = chars[i];
            if 'A' <= c && c <= 'Z' {
                name.push((c as u8 + 32) as char);
            } else {
                name.push(c);
            }
            assert(name@ =~= lower_name(self@.take(i + 1)));
        }
        assert(self@.take(self@.len() as int) =~= self@);
        name
    }
}

impl PartialEq for Method {
    fn eq(&self, other: &Self) -> (same: bool) {
        same_text(self.as_str(), other.as_str())
    }
}

impl vstd::std_specs::cmp::PartialEqSpecImpl for Method {
    open spec fn obeys_eq_spec() -> bool {
        true
    }

    open spec fn eq_spec(&self, other: &Self) -> bool {
        self@ == other@
    }
}

impl Eq for Method {

}

impl Clone for Method {
    fn clone(&self) -> (copy: Self)
        ensures
            copy == *self,
    {
        match self {
            Method::GET => Method::GET,
            Method::POST => Method::POST,
            Method::PUT => Method::PUT,
            Method::DELETE => Method::DELETE,
            Method::PATCH => Method::PATCH,
            Method::Other(other) => {
                proof {
                    use_type_invariant(other);
                }
                Method::Other(OtherMethod { name: other.name.clone() })
            },
        }
    }
}

/// The number of a status code that no variant of [`StatusCode`] names.
#[derive(Debug)]
pub struct OtherStatus {
    code: u16,
}

impl OtherStatus {
    #[verifier::type_invariant]
    spec fn inv(self) -> bool {
        100 <= self.code <= 999
    }

    pub closed spec fn code(&self) -> u16 {
        self.code
    }
}

/// An HTTP status code. Its view is its number.
#[allow(non_camel_case_types)]
#[derive(Debug)]
pub enum StatusCode {
    OK,
    CREATED,
    NO_CONTENT,
    BAD_REQUEST,
    UNAUTHORIZED,
    FORBIDDEN,
    NOT_FOUND,
    CONFLICT,
    UNSUPPORTED_MEDIA_TYPE,
    UNPROCESSABLE_ENTITY,
    TOO_MANY_REQUESTS,
    INTERNAL_SERVER_ERROR,
    Other(OtherStatus),
}

impl View for StatusCode {
    type V = u16;

    open spec fn view(&self) -> u16 {
        match self {
            StatusCode::OK => 200,
            StatusCode::CREATED => 201,
            StatusCode::NO_CONTENT => 204,
            StatusCode::BAD_REQUEST => 400,
            StatusCode::UNAUTHORIZED => 401,
            StatusCode::FORBIDDEN => 403,
            StatusCode::NOT_FOUND => 404,
            StatusCode::CONFLICT => 409,
            StatusCode::UNSUPPORTED_MEDIA_TYPE => 415,
            StatusCode::UNPROCESSABLE_ENTITY => 422,
            StatusCode::TOO_MANY_REQUESTS => 429,
            StatusCode::INTERNAL_SERVER_ERROR => 500,
            StatusCode::Other(other) => other.code(),
        }
    }
}

/// The number is not an HTTP status code.
#[derive(Debug, Clone, Copy, PartialEq, Eq)]
pub struct InvalidStatusCode;

impl StatusCode {
    /// The status code of a given number, which lies between 100 and 999.
    pub fn from_u16(code: u16) -> (status: Result<StatusCode, InvalidStatusCode>)
        ensures
            status is Ok <==> 100 <= code <= 999,
            status matches Ok(s) ==> s@ == code,
    {
        match code {
            200 => Ok(StatusCode::OK),
            201 => Ok(StatusCode::CREATED),
            204 => Ok(StatusCode::NO_CONTENT),
            400 => Ok(StatusCode::BAD_REQUEST),
            401 => Ok(StatusCode::UNAUTHORIZED),
            403 => Ok(StatusCode::FORBIDDEN),
            404 => Ok(StatusCode::NOT_FOUND),
            409 => Ok(StatusCode::CONFLICT),
            415 => Ok(StatusCode::UNSUPPORTED_MEDIA_TYPE),
            422 => Ok(StatusCode::UNPROCESSABLE_ENTITY),
            429 => Ok(StatusCode::TOO_MANY_REQUESTS),
            500 => Ok(StatusCode::INTERNAL_SERVER_ERROR),
            _ => if 100 <= code && code <= 999 {
                Ok(StatusCode::Other(OtherStatus { code }))
            } else {
                Err(InvalidStatusCode)
            },
        }
    }

    /// The number of the status code.
    pub fn as_u16(&self) -> (code: u16)
        ensures
            code == self@,
            100 <= code <= 999,
    {
        match self {
            StatusCode::OK => 200,
            StatusCode::CREATED => 201,
            StatusCode::NO_CONTENT => 204,
            StatusCode::BAD_REQUEST => 400,
            StatusCode::UNAUTHORIZED => 401,
            StatusCode::FORBIDDEN => 403,
            StatusCode::NOT_FOUND => 404,
            StatusCode::CONFLICT => 409,
            StatusCode::UNSUPPORTED_MEDIA_TYPE => 415,
            StatusCode::UNPROCESSABLE_ENTITY => 422,
            StatusCode::TOO_MANY_REQUESTS => 429,
            StatusCode::INTERNAL_SERVER_ERROR => 500,
            StatusCode::Other(other) => {
                proof {
                    use_type_invariant(other);
                }
                other.code
            },
        }
    }
}

/// A method is named as it is written.
pub proof fn law_methods_have_their_names(method: &Method, name: &str)
    requires
        call_ensures(Method::as_str, (method,), name),
    ensures
        method is GET ==> name@ == "GET"@,
        method is POST ==> name@ == "POST"@,
        method is PUT ==> name@ == "PUT"@,
        method is DELETE ==> name@ == "DELETE"@,
        method is PATCH ==> name@ == "PATCH"@,
        name@ == method@,
{
}

/// A text is the name of a method if and only if it is not empty and is made of ASCII letters,
/// ASCII digits and some signs; the method then has that name.
pub proof fn law_method_of_name(
    name: &str,
    outcome: Result<Method, InvalidMethod>,
    given_back: &str,
)
    requires
        call_ensures(Method::from_name, (name,), outcome),
        outcome matches Ok(method) ==> call_ensures(Method::as_str, (&method,), given_back),
    ensures
        outcome is Ok <==> name@.len() > 0 && forall|i: int|
            0 <= i < name@.len() ==> {
                let c = #[trigger] name@[i];
                'a' <= c <= 'z' || 'A' <= c <= 'Z' || '0' <= c <= '9' || "!#$%&'*+-.^_`|~"@.contains(
                    c,
                )
            },
        outcome is Ok ==> given_back@ == name@,
{
    let signs = "!#$%&'*+-.^_`|~"@;
    reveal_strlit("!#$%&'*+-.^_`|~");
    assert(signs.len() == 15);
    assert(signs[0] == '!' && signs[1] == '#' && signs[2] == '$' && signs[3] == '%' && signs[4]
        == '&' && signs[5] == '\'' && signs[6] == '*' && signs[7] == '+');
    assert(signs[8] == '-' && signs[9] == '.' && signs[10] == '^' && signs[11] == '_' && signs[12]
        == '`' && signs[13] == '|' && signs[14] == '~');
    assert forall|c: char| is_token_char(c) == ('a' <= c <= 'z' || 'A' <= c <= 'Z' || '0' <= c
        <= '9' || signs.contains(c)) by {
        if signs.contains(c) {
            let k = choose|k: int| 0 <= k < signs.len() && signs[k] == c;
        }
    }
    if name@.len() > 0 && !is_token(name@) {
        let i = choose|i: int| 0 <= i < name@.len() && !is_token_char(#[trigger] name@[i]);
        assert(!is_token_char(name@[i]));
    }
}

/// The requests of a method are routed by that method, and those of any other method than the
/// five are answered that it is not allowed.
pub proof fn law_methods_are_routed_by_themselves(method: &Method, routing: Routing)
    requires
        call_ensures(Method::routing, (method,), routing),
    ensures
        method is GET ==> routing is Get,
        method is POST ==> routing is Post,
        method is PUT ==> routing is Put,
        method is DELETE ==> routing is Delete,
        method is PATCH ==> routing is Patch,
        routing is MethodNotAllowed <==> method@ != "GET"@ && method@ != "POST"@ && method@
            != "PUT"@ && method@ != "DELETE"@ && method@ != "PATCH"@,
{
    reveal_strlit("GET");
    reveal_strlit("POST");
    reveal_strlit("PUT");
    reveal_strlit("DELETE");
    reveal_strlit("PATCH");
    assert("GET"@.len() == 3 && "POST"@.len() == 4 && "PUT"@.len() == 3);
    assert("DELETE"@.len() == 6 && "PATCH"@.len() == 5);
    assert("GET"@[0] != "PUT"@[0]);
}

/// In lower case a name has the same characters, but for the ASCII capitals: these become the
/// small letters that stand at the same place in the alphabet.
pub proof fn law_lower_case_of_name(method: &Method, name: String)
    requires
        call_ensures(Method::lowercase_name, (method,), name),
    ensures
        name@.len() == method@.len(),
        forall|i: int|
            0 <= i < method@.len() ==> {
                let c = #[trigger] method@[i];
                if 'A' <= c <= 'Z' {
                    name@[i] as int - 'a' as int == c as int - 'A' as int
                } else {
                    name@[i] == c
                }
            },
{
}

/// Two methods are the same if and only if they have the same name.
pub proof fn law_same_method(method: &Method, other: &Method, same: bool)
    requires
        call_ensures(<Method as PartialEq>::eq, (method, other), same),
    ensures
        same <==> method@ == other@,
{
}

/// The names of the five methods are five: none of them is the same as another.
pub proof fn law_methods_are_distinct(method: &Method, other: &Method, same: bool)
    requires
        call_ensures(<Method as PartialEq>::eq, (method, other), same),
        !(method is Other) && !(other is Other),
    ensures
        same <==> method == other,
{
    reveal_strlit("GET");
    reveal_strlit("POST");
    reveal_strlit("PUT");
    reveal_strlit("DELETE");
    reveal_strlit("PATCH");
    assert("GET"@.len() == 3 && "POST"@.len() == 4 && "PUT"@.len() == 3);
    assert("DELETE"@.len() == 6 && "PATCH"@.len() == 5);
    assert("GET"@[0] != "PUT"@[0]);
}

/// A number between 100 and 999 is a status code, no other is, and the status code has that
/// number.
pub proof fn law_status_of_number(
    code: u16,
    outcome: Result<StatusCode, InvalidStatusCode>,
    given_back: u16,
)
    requires
        call_ensures(StatusCode::from_u16, (code,), outcome),
        outcome matches Ok(status) ==> call_ensures(StatusCode::as_u16, (&status,), given_back),
    ensures
        outcome is Ok <==> 100 <= code <= 999,
        outcome is Ok ==> given_back == code,
{
}

/// The status codes that have a name have the numbers that go with it.
pub proof fn law_status_codes_have_their_numbers(status: &StatusCode, code: u16)
    requires
        call_ensures(StatusCode::as_u16, (status,), code),
    ensures
        status is OK ==> code == 200,
        status is CREATED ==> code == 201,
        status is NO_CONTENT ==> code == 204,
        status is BAD_REQUEST ==> code == 400,
        status is UNAUTHORIZED ==> code == 401,
        status is FORBIDDEN ==> code == 403,
        status is NOT_FOUND ==> code == 404,
        status is CONFLICT ==> code == 409,
        status is UNSUPPORTED_MEDIA_TYPE ==> code == 415,
        status is UNPROCESSABLE_ENTITY ==> code == 422,
        status is TOO_MANY_REQUESTS ==> code == 429,
        status is INTERNAL_SERVER_ERROR ==> code == 500,
        code == status@,
{
}

} // verus!
