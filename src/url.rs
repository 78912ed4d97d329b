//! Relay endpoint addresses built from a server address, an optional token
//! and an endpoint path.
use vstd::prelude::*;
use vstd::string::*;
use crate::text::{contains, has_prefix, join2, join3, occurs_in, opt_str_view, owned, starts_with, trim_end_char, trim_end_matches_char};

verus! {

/// The WebSocket base for a server address whose trailing slashes are gone:
/// `http` becomes `ws`, `https` becomes `wss`, a WebSocket scheme stays, and a
/// bare host gets `wss://`. The flag says whether the address already names a
/// `/ws/` endpoint.
pub open spec fn spec_ws_base(base: Seq<char>) -> (Seq<char>, bool) {
    if has_prefix(base, "http://"@) {
        ("ws://"@ + base.subrange(7, base.len() as int), false)
    } else if has_prefix(base, "https://"@) {
        ("wss://"@ + base.subrange(8, base.len() as int), false)
    } else if has_prefix(base, "ws://"@) || has_prefix(base, "wss://"@) {
        (base, occurs_in(base, "/ws/"@))
    } else {
        ("wss://"@ + base, false)
    }
}

/// The full endpoint address: the base, the path unless the address already
/// names an endpoint, and `?token=` with the token when one is given.
pub open spec fn spec_ws_url(server: Seq<char>, token: Option<Seq<char>>, path: Seq<char>) -> Seq<char> {
    let (ws_base, has_path) = spec_ws_base(trim_end_char(server, '/'));
    let url = if has_path { ws_base } else { ws_base + path };
    match token {
        Some(t) => url + "?token="@ + t,
        None => url,
    }
}

/// Builds the WebSocket address of the relay endpoint `path` on `server`.
pub fn build_ws_url(server: &str, token: Option<&str>, path: &str) -> (r: String)
    ensures
        r@ == spec_ws_url(server@, opt_str_view(token), path@),
{
    proof {
        reveal_strlit("http://");
        reveal_strlit("https://");
        reveal_strlit("ws://");
        reveal_strlit("wss://");
    }
    let base = trim_end_matches_char(server, '/');
    let ghost b = base@;
    let ws_base: String;
    let has_path: bool;
    if starts_with(base, "http://") {
        let rest = base.substring_char(7, base.unicode_len());
        ws_base = join2("ws://", rest);
        has_path = false;
    } else if starts_with(base, "https://") {
        let rest = base.substring_char(8, base.unicode_len());
        ws_base = join2("wss://", rest);
        has_path = false;
    } else if starts_with(base, "ws://") || starts_with(base, "wss://") {
        ws_base = owned(base);
        has_path = contains(base, "/ws/");
    } else {
        ws_base = join2("wss://", base);
        has_path = false;
    }
    assert(spec_ws_base(b) == (ws_base@, has_path));
    let url = if has_path {
        ws_base
    } else {
        join2(ws_base.as_str(), path)
    };
    match token {
        Some(t) => join3(url.as_str(), "?token=", t),
        None => url,
    }
}

} // verus!
