//! The parts of the REST and socket endpoints that the run computes: paths,
//! schemes, headers and the status codes that count as errors.
use crate::text::text_eq;
use vstd::prelude::*;
use vstd::string::{StrSliceExecFns, StringExecFns};

verus! {

/// A 4xx or 5xx status.
pub open spec fn is_error_status_spec(status: u16) -> bool {
    400 <= status <= 599
}

/// Whether an HTTP status is a client or a server error.
pub fn is_error_status(status: u16) -> (r: bool)
    ensures
        r == is_error_status_spec(status),
{
    400 <= status && status <= 599
}

/// The text without its leading slashes.
pub open spec fn trim_slashes(s: Seq<char>) -> Seq<char>
    decreases s.len(),
{
    if s.len() > 0 && s[0] == '/' {
        trim_slashes(s.drop_first())
    } else {
        s
    }
}

proof fn lemma_trim_from(s: Seq<char>, i: int)
    requires
        0 <= i <= s.len(),
        forall|j: int| 0 <= j < i ==> s[j] == '/',
    ensures
        trim_slashes(s) == trim_slashes(s.subrange(i, s.len() as int)),
    decreases i,
{
    if i > 0 {
        assert(s.drop_first() =~= s.subrange(1, s.len() as int));
        lemma_trim_from(s.drop_first(), i - 1);
        assert(s.drop_first().subrange(i - 1, s.drop_first().len() as int) =~= s.subrange(
            i,
            s.len() as int,
        ));
    } else {
        assert(s.subrange(0, s.len() as int) =~= s);
    }
}

/// Removes the leading slashes of a path.
pub fn trim_leading_slashes(s: &str) -> (r: &str)
    ensures
        r@ == trim_slashes(s@),
{
    let n = s.unicode_len();
    let mut i: usize = 0;
    while i < n && s.get_char(i) == '/'
        invariant
            n == s@.len(),
            i <= n,
            forall|j: int| 0 <= j < i ==> s@[j] == '/',
        decreases n - i,
    {
        i = i + 1;
    }
    let r = s.substring_char(i, n);
    proof {
        lemma_trim_from(s@, i as int);
        let rest = s@.subrange(i as int, n as int);
        if rest.len() > 0 {
            assert(rest[0] == s@[i as int]);
        }
    }
    r
}

/// The path of a device resource: `/appengine/v1/<realm>/devices/<device_id><rest>`.
pub open spec fn device_path_spec(realm: Seq<char>, device_id: Seq<char>, rest: Seq<char>) -> Seq<char> {
    "/appengine/v1/"@ + realm + "/devices/"@ + device_id + rest
}

/// Builds the path of a device resource.
pub fn device_path(realm: &str, device_id: &str, rest: &str) -> (r: String)
    ensures
        r@ == device_path_spec(realm@, device_id@, rest@),
{
    let mut p = String::from_str("/appengine/v1/");
    p.append(realm);
    p.append("/devices/");
    p.append(device_id);
    p.append(rest);
    p
}

/// The path of a value on an interface: `/interfaces/<interface>/<path>`,
/// with the leading slashes of the path dropped.
pub open spec fn interface_path_spec(interface: Seq<char>, path: Seq<char>) -> Seq<char> {
    "/interfaces/"@ + interface + "/"@ + trim_slashes(path)
}

/// Builds the path of a value on an interface.
pub fn interface_path(interface: &str, path: &str) -> (r: String)
    ensures
        r@ == interface_path_spec(interface@, path@),
{
    let mut p = String::from_str("/interfaces/");
    p.append(interface);
    p.append("/");
    p.append(trim_leading_slashes(path));
    p
}

/// The socket scheme for an HTTP scheme: `ws` for `http`, `wss` for `https`.
pub open spec fn websocket_scheme_spec(scheme: Seq<char>) -> Option<Seq<char>> {
    if scheme == "http"@ {
        Some("ws"@)
    } else if scheme == "https"@ {
        Some("wss"@)
    } else {
        None
    }
}

/// The socket scheme for the scheme of the HTTP endpoint, if it has one.
pub fn websocket_scheme(scheme: &str) -> (r: Option<String>)
    ensures
        r is Some <==> websocket_scheme_spec(scheme@) is Some,
        r is Some ==> r->Some_0@ == websocket_scheme_spec(scheme@)->Some_0,
{
    if text_eq(scheme, "http") {
        Some(String::from_str("ws"))
    } else if text_eq(scheme, "https") {
        Some(String::from_str("wss"))
    } else {
        None
    }
}

/// The path of the socket endpoint, relative to the HTTP endpoint.
pub fn websocket_path() -> (r: String)
    ensures
        r@ == "v1/socket/websocket"@,
{
    String::from_str("v1/socket/websocket")
}

/// The authorization header value for a token: `Bearer <jwt>`.
pub fn bearer(jwt: &str) -> (r: String)
    ensures
        r@ == "Bearer "@ + jwt@,
{
    let mut h = String::from_str("Bearer ");
    h.append(jwt);
    h
}

} // verus!
