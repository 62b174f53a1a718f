//! The administrative module-identities endpoint, as rules: which requests
//! the endpoint accepts, which it refuses and with which standard status
//! code, decided from the request line alone. The surrounding HTTP server,
//! body I/O and identity store are collaborators outside the library.

use vstd::prelude::*;

use crate::chars::chars_eq;

verus! {

/// The HTTP method of an administrative request, as the planner sees it.
#[derive(Clone, Copy, Debug, PartialEq, Eq, Structural)]
pub enum AdminMethod {
    Get,
    Post,
    Other,
}

/// What the module-identities endpoint does with a request.
#[derive(Clone, Copy, Debug, PartialEq, Eq, Structural)]
pub enum RoutePlan {
    /// The path belongs to another endpoint: hand the request back.
    Forward,
    /// Refuse with status 405 and the endpoint's allow set.
    MethodNotAllowed,
    /// Refuse with status 415: the body is not declared as JSON.
    UnsupportedMediaType,
    /// Read and deserialize the body, then create the module identity.
    Create,
    /// List the module identities.
    List,
}

/// The path of the module-identities endpoint.
pub open spec fn modules_path() -> Seq<char> {
    "/identities/modules"@
}

/// The characters of `modules_path`, executable form.
pub fn modules_path_vec() -> (v: Vec<char>)
    ensures
        v@ == modules_path(),
{
    let mut v: Vec<char> = Vec::new();
    v.push('/');
    v.push('i');
    v.push('d');
    v.push('e');
    v.push('n');
    v.push('t');
    v.push('i');
    v.push('t');
    v.push('i');
    v.push('e');
    v.push('s');
    v.push('/');
    v.push('m');
    v.push('o');
    v.push('d');
    v.push('u');
    v.push('l');
    v.push('e');
    v.push('s');
    proof {
        reveal_strlit("/identities/modules");
        assert(v@ =~= modules_path());
    }
    v
}

/// The content type the endpoint requires of request bodies.
pub open spec fn json_content_type() -> Seq<char> {
    "application/json"@
}

/// The characters of `json_content_type`, executable form.
pub fn json_content_type_vec() -> (v: Vec<char>)
    ensures
        v@ == json_content_type(),
{
    let mut v: Vec<char> = Vec::new();
    v.push('a');
    v.push('p');
    v.push('p');
    v.push('l');
    v.push('i');
    v.push('c');
    v.push('a');
    v.push('t');
    v.push('i');
    v.push('o');
    v.push('n');
    v.push('/');
    v.push('j');
    v.push('s');
    v.push('o');
    v.push('n');
    proof {
        reveal_strlit("application/json");
        assert(v@ =~= json_content_type());
    }
    v
}

/// What the create-or-list endpoint decides from the request line: GET
/// lists without a content-type check, POST demands a JSON body, any other
/// method is refused.
pub open spec fn plan_create_or_list_spec(
    path: Seq<char>,
    method: AdminMethod,
    ct: Option<Seq<char>>,
) -> RoutePlan {
    if path != modules_path() {
        RoutePlan::Forward
    } else {
        match method {
            AdminMethod::Get => RoutePlan::List,
            AdminMethod::Post => if ct == Some(json_content_type()) {
                RoutePlan::Create
            } else {
                RoutePlan::UnsupportedMediaType
            },
            AdminMethod::Other => RoutePlan::MethodNotAllowed,
        }
    }
}

/// What the list-only endpoint decides: only GET with a JSON body
/// declaration passes.
pub open spec fn plan_get_identities_spec(
    path: Seq<char>,
    method: AdminMethod,
    ct: Option<Seq<char>>,
) -> RoutePlan {
    if path != modules_path() {
        RoutePlan::Forward
    } else if !(method is Get) {
        RoutePlan::MethodNotAllowed
    } else if ct != Some(json_content_type()) {
        RoutePlan::UnsupportedMediaType
    } else {
        RoutePlan::List
    }
}

/// The view of an optional content-type header.
pub open spec fn ct_view(ct: &Option<Vec<char>>) -> Option<Seq<char>> {
    match ct {
        Some(s) => Some(s@),
        None => None,
    }
}

/// Whether the declared content type is exactly the JSON one.
pub fn is_json_content_type(ct: &Option<Vec<char>>) -> (r: bool)
    ensures
        r == (ct_view(ct) == Some(json_content_type())),
{
    match ct {
        Some(s) => {
            let expected = json_content_type_vec();
            chars_eq(s, &expected)
        },
        None => false,
    }
}

/// Whether the request path is the module-identities endpoint.
pub fn is_modules_path(path: &Vec<char>) -> (r: bool)
    ensures
        r == (path@ == modules_path()),
{
    let expected = modules_path_vec();
    chars_eq(path, &expected)
}

/// Decides the create-or-list endpoint's plan from the request line.
pub fn plan_create_or_list(
    path: &Vec<char>,
    method: AdminMethod,
    content_type: &Option<Vec<char>>,
) -> (r: RoutePlan)
    ensures
        r == plan_create_or_list_spec(path@, method, ct_view(content_type)),
{
    if !is_modules_path(path) {
        return RoutePlan::Forward;
    }
    match method {
        AdminMethod::Get => RoutePlan::List,
        AdminMethod::Post => {
            if is_json_content_type(content_type) {
                RoutePlan::Create
            } else {
                RoutePlan::UnsupportedMediaType
            }
        },
        AdminMethod::Other => RoutePlan::MethodNotAllowed,
    }
}

/// Decides the list-only endpoint's plan from the request line.
pub fn plan_get_identities(
    path: &Vec<char>,
    method: AdminMethod,
    content_type: &Option<Vec<char>>,
) -> (r: RoutePlan)
    ensures
        r == plan_get_identities_spec(path@, method, ct_view(content_type)),
{
    if !is_modules_path(path) {
        return RoutePlan::Forward;
    }
    match method {
        AdminMethod::Get => {
            if is_json_content_type(content_type) {
                RoutePlan::List
            } else {
                RoutePlan::UnsupportedMediaType
            }
        },
        _ => RoutePlan::MethodNotAllowed,
    }
}

/// The status of a refusing plan: 405 for a refused method, 415 for a
/// refused content type.
pub fn rejection_status(plan: RoutePlan) -> (s: Option<u16>)
    ensures
        s == match plan {
            RoutePlan::MethodNotAllowed => Some(405u16),
            RoutePlan::UnsupportedMediaType => Some(415u16),
            _ => None::<u16>,
        },
{
    match plan {
        RoutePlan::MethodNotAllowed => Some(405),
        RoutePlan::UnsupportedMediaType => Some(415),
        _ => None,
    }
}

/// The status of handling an accepted body: 400 when it could not be read,
/// 422 when it did not deserialize, 200 otherwise.
pub fn body_status(read_ok: bool, deserializes: bool) -> (s: u16)
    ensures
        s == if !read_ok {
            400u16
        } else if !deserializes {
            422u16
        } else {
            200u16
        },
{
    if !read_ok {
        400
    } else if !deserializes {
        422
    } else {
        200
    }
}

} // verus!
