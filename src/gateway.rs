//! Names and arguments of the background gateway: the id derived from a
//! token, where its PID and log files live, and how it is relaunched.
use vstd::prelude::*;
use vstd::string::*;
use crate::text::owned;

verus! {

/// What std's `DefaultHasher` makes of a string.
pub uninterp spec fn default_hash(s: Seq<char>) -> u64;

/// Relies on `BuildHasher::hash_one` with `BuildHasherDefault<DefaultHasher>`,
/// which is `DefaultHasher::new`, `str::hash` and `finish`: the digest depends
/// on the characters alone.
#[verifier::external_body]
fn hash_str(s: &str) -> (r: u64)
    ensures
        r == default_hash(s@),
{
    std::hash::BuildHasher::hash_one(
        &std::hash::BuildHasherDefault::<std::collections::hash_map::DefaultHasher>::default(),
        s,
    )
}

/// The lower-case hexadecimal digit of `d`.
pub open spec fn hex_char(d: int) -> char {
    "0123456789abcdef"@[d]
}

/// The last `n` hexadecimal digits of `v`, most significant first.
pub open spec fn hex_fixed(v: nat, n: nat) -> Seq<char>
    decreases n,
{
    if n == 0 {
        Seq::empty()
    } else {
        hex_fixed(v / 16, (n - 1) as nat).push(hex_char((v % 16) as int))
    }
}

fn push_hex(out: &mut String, v: u64, n: usize)
    ensures
        final(out)@ == old(out)@ + hex_fixed(v as nat, n as nat),
    decreases n,
{
    if n > 0 {
        push_hex(out, v / 16, n - 1);
        let d = (v % 16) as usize;
        let digits = "0123456789abcdef";
        proof {
            reveal_strlit("0123456789abcdef");
        }
        let c = digits.substring_char(d, d + 1);
        assert(c@ =~= seq![hex_char(d as int)]);
        out.append(c);
        assert(final(out)@ =~= old(out)@ + hex_fixed(v as nat, n as nat));
    } else {
        assert(final(out)@ =~= old(out)@ + hex_fixed(v as nat, n as nat));
    }
}

/// The gateway id of a token: 16 hexadecimal digits of its hash; without a
/// token, `default`.
pub open spec fn spec_gateway_id(token: Option<Seq<char>>) -> Seq<char> {
    match token {
        Some(t) => hex_fixed(default_hash(t) as nat, 16),
        None => "default"@,
    }
}

/// The id that keeps the gateways of different tokens apart.
pub fn gateway_id(token: Option<&str>) -> (r: String)
    ensures
        r@ == spec_gateway_id(crate::text::opt_str_view(token)),
{
    match token {
        Some(t) => {
            let mut r = String::new();
            push_hex(&mut r, hash_str(t), 16);
            r
        },
        None => {
            proof {
                reveal_strlit("default");
            }
            owned("default")
        },
    }
}

/// `name` placed in the directory `base`, separated by one slash.
pub open spec fn spec_join_path(base: Seq<char>, name: Seq<char>) -> Seq<char> {
    if base.len() == 0 {
        name
    } else if base.last() == '/' {
        base + name
    } else {
        base + "/"@ + name
    }
}

/// `name` placed in the directory `base`.
pub fn join_path(base: &str, name: &str) -> (r: String)
    ensures
        r@ == spec_join_path(base@, name@),
{
    let n = base.unicode_len();
    if n == 0 {
        owned(name)
    } else if base.get_char(n - 1) == '/' {
        let mut r = owned(base);
        r.append(name);
        r
    } else {
        let mut r = owned(base);
        r.append("/");
        r.append(name);
        r
    }
}

/// The gateway's directory under the home directory, or under `/tmp` when
/// there is none.
pub fn gateway_dir(home: Option<&str>) -> (r: String)
    ensures
        r@ == spec_join_path(
            match home {
                Some(h) => h@,
                None => "/tmp"@,
            },
            ".teeclaude"@,
        ),
{
    match home {
        Some(h) => join_path(h, ".teeclaude"),
        None => join_path("/tmp", ".teeclaude"),
    }
}

/// The file that holds the PID of gateway `id`.
pub fn pid_path(dir: &str, id: &str) -> (r: String)
    ensures
        r@ == spec_join_path(dir@, "gateway-"@ + id@ + ".pid"@),
{
    let mut name = owned("gateway-");
    name.append(id);
    name.append(".pid");
    join_path(dir, name.as_str())
}

/// The file that holds the log of gateway `id`.
pub fn log_path(dir: &str, id: &str) -> (r: String)
    ensures
        r@ == spec_join_path(dir@, "gateway-"@ + id@ + ".log"@),
{
    let mut name = owned("gateway-");
    name.append(id);
    name.append(".log");
    join_path(dir, name.as_str())
}

/// The arguments that relaunch this program as a gateway: the server, the
/// token if any, the `start` command, and the app root if any.
pub open spec fn spec_daemon_args(server: Seq<char>, token: Option<Seq<char>>, root: Option<Seq<char>>) -> Seq<Seq<char>> {
    let head = seq!["--server"@, server];
    let with_token = match token {
        Some(t) => head + seq!["--token"@, t],
        None => head,
    };
    let with_cmd = with_token.push("start"@);
    match root {
        Some(r) => with_cmd + seq!["--root"@, r],
        None => with_cmd,
    }
}

/// The arguments that relaunch this program as a gateway.
pub fn daemon_args(server: &str, token: Option<&str>, root: Option<&str>) -> (r: Vec<String>)
    ensures
        r@.map_values(|s: String| s@) == spec_daemon_args(
            server@,
            crate::text::opt_str_view(token),
            crate::text::opt_str_view(root),
        ),
{
    let mut r: Vec<String> = Vec::new();
    r.push(owned("--server"));
    r.push(owned(server));
    match token {
        Some(t) => {
            r.push(owned("--token"));
            r.push(owned(t));
        },
        None => {},
    }
    r.push(owned("start"));
    match root {
        Some(x) => {
            r.push(owned("--root"));
            r.push(owned(x));
        },
        None => {},
    }
    assert(r@.map_values(|s: String| s@) =~= spec_daemon_args(
        server@,
        crate::text::opt_str_view(token),
        crate::text::opt_str_view(root),
    ));
    r
}

} // verus!
