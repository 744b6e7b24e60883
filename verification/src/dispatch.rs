//! Routing: the health check first, then the configured path prefix, then
//! the fixed table of routes.

use vstd::prelude::*;
use crate::config::ServerConfig;
use crate::text::{chars_of, is_prefix_of, same_chars, starts_with};

verus! {

/// Where a request goes.
#[derive(Clone, Copy, Debug, PartialEq, Eq, Structural)]
pub enum Route {
    /// The health check, which answers under any configuration.
    Health,
    /// The diagnostic page.
    Index,
    /// The WebSocket session.
    WebSocket,
    /// The stream of server-sent events.
    Events,
    /// The responder that tells which node answered.
    NodeIdentity,
    /// The catalogue of firewall payloads.
    Payloads,
    /// The probe that clears a cookie.
    DeleteCookie,
    /// The probes of response headers.
    HeaderProbe,
    /// The echo of the request.
    Echo,
    /// No route.
    NotFound,
}

/// The path with the configured prefix removed. Without a prefix the path
/// stays. A path that is the prefix alone becomes `/`. A path that does not
/// begin with the prefix becomes empty, which is no route.
pub open spec fn strip_prefix(path: Seq<char>, prefix: Option<Seq<char>>) -> Seq<char> {
    match prefix {
        None => path,
        Some(p) => if is_prefix_of(p, path) {
            if path.len() == p.len() {
                "/"@
            } else {
                path.skip(p.len() as int)
            }
        } else {
            Seq::empty()
        },
    }
}

/// The route of a path from which the prefix has been removed.
pub open spec fn table(path: Seq<char>) -> Route {
    if path == "/"@ {
        Route::Index
    } else if path == "/ws"@ {
        Route::WebSocket
    } else if path == "/sse"@ {
        Route::Events
    } else if path == "/lb"@ {
        Route::NodeIdentity
    } else if path == "/waf"@ {
        Route::Payloads
    } else if path == "/delete-cookie"@ {
        Route::DeleteCookie
    } else if path == "/hdr"@ {
        Route::HeaderProbe
    } else if path == "/echo"@ || is_prefix_of("/echo/"@, path) {
        Route::Echo
    } else {
        Route::NotFound
    }
}

/// The route of a request path under an optional prefix.
pub open spec fn resolve(path: Seq<char>, prefix: Option<Seq<char>>) -> Route {
    if path == "/healthz"@ {
        Route::Health
    } else {
        table(strip_prefix(path, prefix))
    }
}

/// Looks a path up in the table of routes.
pub fn lookup(path: &[char]) -> (r: Route)
    ensures
        r == table(path@),
{
    if same_chars(path, chars_of("/").as_slice()) {
        Route::Index
    } else if same_chars(path, chars_of("/ws").as_slice()) {
        Route::WebSocket
    } else if same_chars(path, chars_of("/sse").as_slice()) {
        Route::Events
    } else if same_chars(path, chars_of("/lb").as_slice()) {
        Route::NodeIdentity
    } else if same_chars(path, chars_of("/waf").as_slice()) {
        Route::Payloads
    } else if same_chars(path, chars_of("/delete-cookie").as_slice()) {
        Route::DeleteCookie
    } else if same_chars(path, chars_of("/hdr").as_slice()) {
        Route::HeaderProbe
    } else if same_chars(path, chars_of("/echo").as_slice()) || starts_with(
        path,
        chars_of("/echo/").as_slice(),
    ) {
        Route::Echo
    } else {
        Route::NotFound
    }
}

/// Decides where the request with the given path goes.
pub fn route(path: &str, config: &ServerConfig) -> (r: Route)
    ensures
        r == resolve(path@, config.prefix()),
{
    let p = chars_of(path);
    if same_chars(p.as_slice(), chars_of("/healthz").as_slice()) {
        return Route::Health;
    }
    match &config.url_prefix {
        None => lookup(p.as_slice()),
        Some(prefix) => {
            let pre = chars_of(prefix.as_str());
            if starts_with(p.as_slice(), pre.as_slice()) {
                if p.len() == pre.len() {
                    lookup(chars_of("/").as_slice())
                } else {
                    let rest = vstd::slice::slice_subrange(p.as_slice(), pre.len(), p.len());
                    proof {
                        assert(rest@ == p@.skip(pre@.len() as int));
                    }
                    lookup(rest)
                }
            } else {
                let none: Vec<char> = Vec::new();
                proof {
                    assert(none@ == Seq::<char>::empty());
                }
                lookup(none.as_slice())
            }
        },
    }
}

/// The health check answers at `/healthz` whatever prefix is configured.
pub proof fn law_health_check_ignores_the_prefix(prefix: Option<Seq<char>>)
    ensures
        resolve("/healthz"@, prefix) == Route::Health,
{
}

/// Under a prefix, a path made of the prefix and a non-empty rest goes where
/// the rest alone goes without a prefix. The health check is the exception:
/// it is matched against the whole path and never against the rest.
pub proof fn law_prefix_is_stripped(prefix: Seq<char>, rest: Seq<char>)
    requires
        rest.len() > 0,
        prefix + rest != "/healthz"@,
        rest != "/healthz"@,
    ensures
        resolve(prefix + rest, Some(prefix)) == resolve(rest, None),
{
    let path = prefix + rest;
    assert(path.take(prefix.len() as int) == prefix);
    assert(path.skip(prefix.len() as int) == rest);
}

/// Under a prefix, the prefix alone goes to the diagnostic page.
pub proof fn law_bare_prefix_is_the_index(prefix: Seq<char>)
    requires
        prefix != "/healthz"@,
    ensures
        resolve(prefix, Some(prefix)) == Route::Index,
{
    assert(prefix.take(prefix.len() as int) == prefix);
}

/// Under a prefix, a path that does not begin with it has no route, unless
/// it is the health check.
pub proof fn law_path_outside_the_prefix_is_not_found(path: Seq<char>, prefix: Seq<char>)
    requires
        !is_prefix_of(prefix, path),
        path != "/healthz"@,
    ensures
        resolve(path, Some(prefix)) == Route::NotFound,
{
    reveal_strlit("/");
    reveal_strlit("/ws");
    reveal_strlit("/sse");
    reveal_strlit("/lb");
    reveal_strlit("/waf");
    reveal_strlit("/delete-cookie");
    reveal_strlit("/hdr");
    reveal_strlit("/echo");
    reveal_strlit("/echo/");
    let e = Seq::<char>::empty();
    assert(strip_prefix(path, Some(prefix)) == e);
    assert(e.len() == 0);
}

} // verus!
