//! The `cli link` subcommands: which one the arguments name and what each
//! reads from the rest of them.
use vstd::prelude::*;
use crate::commands::chat::arg_at;
use crate::commands::link_cli::{
    parse_link_refresh_args, parse_remote_url_token, parse_remote_url_token_save, refresh_from, remote_spec,
};
use crate::link_access::{parse_link_transport, transport_name, LinkTransportPreference};
use crate::model::opt_view;
use crate::num::{int_error_message, int_error_text, parse_int, parse_u64};
use crate::text::{str_eq, views};

verus! {

/// Usage text of `cli link serve`.
pub open spec fn serve_usage() -> Seq<char> {
    "usage: operit2 cli link serve [--bind <addr:port>] [--token <token>]"@
}

/// The bind address and token of `cli link serve`, read from position `i` on.
pub open spec fn serve_from(a: Seq<Seq<char>>, i: int, bind: Seq<char>, token: Seq<char>) -> Result<(Seq<char>, Seq<char>), Seq<char>>
    decreases a.len() + 2 - i,
{
    if i < 0 || i >= a.len() {
        Ok((bind, token))
    } else if a[i] == "--bind"@ {
        if i + 1 >= a.len() { Err(serve_usage()) } else { serve_from(a, i + 2, a[i + 1], token) }
    } else if a[i] == "--token"@ {
        if i + 1 >= a.len() { Err(serve_usage()) } else { serve_from(a, i + 2, bind, a[i + 1]) }
    } else {
        Err(serve_usage())
    }
}

/// The serve arguments with their defaults.
pub open spec fn serve_spec(a: Seq<Seq<char>>) -> Result<(Seq<char>, Seq<char>), Seq<char>> {
    serve_from(a, 0, "0.0.0.0:37192"@, "operit-link-dev"@)
}

/// Parses `[--bind <addr:port>] [--token <token>]`.
pub fn parse_link_serve_args(args: &[String]) -> (r: Result<(String, String), String>)
    ensures
        match r {
            Ok((b, t)) => serve_spec(views(args@)) == Ok::<_, Seq<char>>((b@, t@)),
            Err(e) => serve_spec(views(args@)) == Err::<(Seq<char>, Seq<char>), _>(e@),
        },
{
    let ghost a = views(args@);
    let mut bind = String::from_str("0.0.0.0:37192");
    let mut token = String::from_str("operit-link-dev");
    let mut index: usize = 0;
    while index < args.len()
        invariant
            a == views(args@),
            index <= args.len(),
            serve_spec(a) == serve_from(a, index as int, bind@, token@),
        decreases args.len() - index,
    {
        let word = args[index].as_str();
        assert(a[index as int] == word@);
        if str_eq(word, "--bind") || str_eq(word, "--token") {
            if index + 1 >= args.len() {
                return Err(String::from_str("usage: operit2 cli link serve [--bind <addr:port>] [--token <token>]"));
            }
            assert(a[index + 1] == args@[index + 1]@);
            if str_eq(word, "--bind") {
                bind = args[index + 1].clone();
            } else {
                proof {
                    reveal_strlit("--bind");
                    reveal_strlit("--token");
                    assert("--bind"@.len() == 6);
                    assert("--token"@.len() == 7);
                }
                token = args[index + 1].clone();
            }
            index = index + 2;
        } else {
            return Err(String::from_str("usage: operit2 cli link serve [--bind <addr:port>] [--token <token>]"));
        }
    }
    Ok((bind, token))
}

/// Usage text of `cli link discover`.
pub open spec fn discover_usage() -> Seq<char> {
    "usage: operit2 cli link discover [--timeout-ms <ms>]"@
}

/// The discovery timeout of `cli link discover`, read from position `i` on.
pub open spec fn discover_from(a: Seq<Seq<char>>, i: int, timeout: int) -> Result<int, Seq<char>>
    decreases a.len() + 2 - i,
{
    if i < 0 || i >= a.len() {
        Ok(timeout)
    } else if a[i] == "--timeout-ms"@ {
        if i + 1 >= a.len() {
            Err(discover_usage())
        } else {
            match parse_int(a[i + 1], 0, u64::MAX as int, false) {
                Ok(t) => discover_from(a, i + 2, t),
                Err(k) => Err(int_error_message(k)),
            }
        }
    } else {
        Err(discover_usage())
    }
}

/// Parses `[--timeout-ms <ms>]` (2000 ms when absent).
pub fn parse_link_discover_args(args: &[String]) -> (r: Result<u64, String>)
    ensures
        match r {
            Ok(t) => discover_from(views(args@), 0, 2000) == Ok::<int, Seq<char>>(t as int),
            Err(e) => discover_from(views(args@), 0, 2000) == Err::<int, _>(e@),
        },
{
    let ghost a = views(args@);
    let mut timeout: u64 = 2000;
    let mut index: usize = 0;
    while index < args.len()
        invariant
            a == views(args@),
            index <= args.len(),
            discover_from(a, 0, 2000) == discover_from(a, index as int, timeout as int),
        decreases args.len() - index,
    {
        let word = args[index].as_str();
        assert(a[index as int] == word@);
        if !str_eq(word, "--timeout-ms") {
            return Err(String::from_str("usage: operit2 cli link discover [--timeout-ms <ms>]"));
        }
        if index + 1 >= args.len() {
            return Err(String::from_str("usage: operit2 cli link discover [--timeout-ms <ms>]"));
        }
        assert(a[index + 1] == args@[index + 1]@);
        match parse_u64(args[index + 1].as_str()) {
            Ok(t) => {
                timeout = t;
            },
            Err(k) => return Err(int_error_text(k)),
        }
        index = index + 2;
    }
    Ok(timeout)
}

/// What `cli link space` does.
#[derive(Clone, Debug)]
pub enum LinkSpaceRequest {
    Show,
    Rename { name: String },
    Join { session: String },
    Leave,
}

/// Usage text of `cli link space`.
pub open spec fn space_usage() -> Seq<char> {
    "usage: operit2 cli link space <show|rename <name>|join <paired-session>|leave>"@
}

/// The space action the arguments name: its kind (show 0, rename 1, join 2,
/// leave 3) and its argument, or why they are refused.
pub open spec fn space_spec(a: Seq<Seq<char>>) -> Result<(int, Seq<char>), Seq<char>> {
    if a.len() == 0 || (a.len() == 1 && a[0] == "show"@) {
        Ok((0, Seq::empty()))
    } else if a.len() == 2 && a[0] == "rename"@ {
        Ok((1, a[1]))
    } else if a.len() == 2 && a[0] == "join"@ {
        Ok((2, a[1]))
    } else if a.len() == 1 && a[0] == "leave"@ {
        Ok((3, Seq::empty()))
    } else {
        Err(space_usage())
    }
}

/// The plain reading of a space request.
pub open spec fn space_view(r: LinkSpaceRequest) -> (int, Seq<char>) {
    match r {
        LinkSpaceRequest::Show => (0, Seq::empty()),
        LinkSpaceRequest::Rename { name } => (1, name@),
        LinkSpaceRequest::Join { session } => (2, session@),
        LinkSpaceRequest::Leave => (3, Seq::empty()),
    }
}

/// Parses `show`, `rename <name>`, `join <paired-session>` or `leave`.
pub fn parse_link_space_args(args: &[String]) -> (r: Result<LinkSpaceRequest, String>)
    ensures
        match r {
            Ok(s) => space_spec(views(args@)) == Ok::<_, Seq<char>>(space_view(s)),
            Err(e) => space_spec(views(args@)) == Err::<(int, Seq<char>), _>(e@),
        },
{
    let ghost a = views(args@);
    if args.len() == 0 {
        return Ok(LinkSpaceRequest::Show);
    }
    let c = args[0].as_str();
    assert(a[0] == c@);
    if args.len() == 1 && str_eq(c, "show") {
        return Ok(LinkSpaceRequest::Show);
    }
    if args.len() == 2 {
        assert(a[1] == args@[1]@);
        if str_eq(c, "rename") {
            return Ok(LinkSpaceRequest::Rename { name: args[1].clone() });
        }
        if str_eq(c, "join") {
            return Ok(LinkSpaceRequest::Join { session: args[1].clone() });
        }
    }
    if args.len() == 1 && str_eq(c, "leave") {
        return Ok(LinkSpaceRequest::Leave);
    }
    Err(String::from_str("usage: operit2 cli link space <show|rename <name>|join <paired-session>|leave>"))
}

/// The session, target path, member name and optional argument JSON of
/// `cli link call|watch`, or the usage when one of the first three is missing.
pub open spec fn remote_member_spec(a: Seq<Seq<char>>, usage: Seq<char>) -> Result<(Seq<char>, Seq<char>, Seq<char>, Option<Seq<char>>), Seq<char>> {
    if a.len() < 3 { Err(usage) } else { Ok((a[0], a[1], a[2], arg_at(a, 3))) }
}

/// Parses `<session> <target-path> <member-name> [args-json]`.
pub fn parse_link_member_args(args: &[String], usage: &str) -> (r: Result<(String, String, String, Option<String>), String>)
    ensures
        match r {
            Ok((s, t, m, j)) => remote_member_spec(views(args@), usage@) == Ok::<_, Seq<char>>((s@, t@, m@, opt_view(j))),
            Err(e) => remote_member_spec(views(args@), usage@) == Err::<(Seq<char>, Seq<char>, Seq<char>, Option<Seq<char>>), _>(e@),
        },
{
    if args.len() < 3 {
        return Err(String::from_str(usage));
    }
    let json = if args.len() > 3 { Some(args[3].clone()) } else { None };
    Ok((args[0].clone(), args[1].clone(), args[2].clone(), json))
}

/// One `cli link` subcommand with its arguments read.
#[derive(Clone, Debug)]
pub enum LinkRequest {
    Usage,
    Serve { bind_address: String, token: String },
    Discover { timeout_ms: u64 },
    Connect { url: String, token: String, name: String, transport: Option<LinkTransportPreference> },
    Space { args: Vec<String> },
    Hello { url: String, token: String },
    Sessions,
    Transport { session: String, transport: LinkTransportPreference },
    SessionDelete { name: String },
    AcceptedSessions,
    AcceptedSessionDelete { session_id: String },
    Ping { name: String },
    Refresh { session: Option<String>, timeout_ms: u64 },
    Call { session: String, target_path: String, method_name: String, args_json: Option<String> },
    Watch { session: String, target_path: String, property_name: String, args_json: Option<String> },
    Tui { args: Vec<String> },
    Run { session: String, args: Vec<String> },
}

/// Usage texts of the subcommands that take fixed arguments.
pub open spec fn connect_usage() -> Seq<char> {
    "usage: operit2 cli link connect <url> --token <token> --save <name> [--transport <http|ws>]"@
}

/// The arguments after the subcommand.
pub open spec fn rest_of(a: Seq<Seq<char>>) -> Seq<Seq<char>> {
    a.subrange(1, a.len() as int)
}

/// The arguments after the subcommand, copied.
fn rest_args(args: &[String]) -> (r: Vec<String>)
    requires
        args@.len() >= 1,
    ensures
        views(r@) == views(args@).subrange(1, args@.len() as int),
{
    let mut r: Vec<String> = Vec::new();
    let mut i: usize = 1;
    while i < args.len()
        invariant
            1 <= i <= args.len(),
            views(r@) =~= views(args@).subrange(1, i as int),
        decreases args.len() - i,
    {
        let ghost before = r@;
        let a = args[i].clone();
        r.push(a);
        proof {
            assert(views(r@) =~= views(before).push(a@));
            assert(views(args@).subrange(1, i + 1) =~= views(args@).subrange(1, i as int).push(args@[i as int]@));
        }
        i = i + 1;
    }
    r
}

/// Reads the arguments of `cli link` into the request they make. A request
/// the arguments do not name prints the usage.
pub fn parse_link_command(args: &[String]) -> (r: Result<LinkRequest, String>)
    ensures
        args@.len() == 0 ==> (r matches Ok(LinkRequest::Usage)),
        args@.len() > 0 ==> {
            let a = views(args@);
            let c = a[0];
            let rest = rest_of(a);
            &&& c == "serve"@ ==> match serve_spec(rest) {
                Ok((b, t)) => r matches Ok(LinkRequest::Serve { bind_address, token }) && bind_address@ == b && token@ == t,
                Err(e) => r matches Err(m) && m@ == e,
            }
            &&& c == "discover"@ ==> match discover_from(rest, 0, 2000) {
                Ok(t) => r matches Ok(LinkRequest::Discover { timeout_ms }) && timeout_ms == t,
                Err(e) => r matches Err(m) && m@ == e,
            }
            &&& c == "connect"@ ==> match remote_spec(rest, connect_usage()) {
                Ok((u, t, Some(n), tr)) => r matches Ok(LinkRequest::Connect { url, token, name, transport })
                    && url@ == u && token@ == t && name@ == n && transport == tr,
                Ok((_, _, None, _)) => r matches Err(m) && m@ == connect_usage(),
                Err(e) => r matches Err(m) && m@ == e,
            }
            &&& c == "space"@ ==> (r matches Ok(LinkRequest::Space { args: sa }) && views(sa@) == rest)
            &&& c == "hello"@ ==> match remote_spec(rest, "usage: operit2 cli link hello <url> --token <token>"@) {
                Ok((u, t, _, _)) => r matches Ok(LinkRequest::Hello { url, token }) && url@ == u && token@ == t,
                Err(e) => r matches Err(m) && m@ == e,
            }
            &&& c == "sessions"@ ==> (r matches Ok(LinkRequest::Sessions))
            &&& c == "transport"@ ==> if rest.len() != 2 {
                r matches Err(m) && m@ == "usage: operit2 cli link transport <session> <http|ws>"@
            } else if rest[1] == "http"@ || rest[1] == "ws"@ {
                r matches Ok(LinkRequest::Transport { session, transport }) && session@ == rest[0] && transport_name(transport) == rest[1]
            } else {
                r matches Err(m) && m@ == "Link transport must be http or ws"@
            }
            &&& c == "session-delete"@ ==> match arg_at(rest, 0) {
                Some(n) => r matches Ok(LinkRequest::SessionDelete { name }) && name@ == n,
                None => r matches Err(m) && m@ == "usage: operit2 cli link session-delete <name>"@,
            }
            &&& c == "accepted-sessions"@ ==> (r matches Ok(LinkRequest::AcceptedSessions))
            &&& c == "accepted-session-delete"@ ==> match arg_at(rest, 0) {
                Some(n) => r matches Ok(LinkRequest::AcceptedSessionDelete { session_id }) && session_id@ == n,
                None => r matches Err(m) && m@ == "usage: operit2 cli link accepted-session-delete <session-id>"@,
            }
            &&& c == "ping"@ ==> match arg_at(rest, 0) {
                Some(n) => r matches Ok(LinkRequest::Ping { name }) && name@ == n,
                None => r matches Err(m) && m@ == "usage: operit2 cli link ping <name>"@,
            }
            &&& c == "refresh"@ ==> match refresh_from(rest, 0, None, 2000) {
                Ok((n, t)) => r matches Ok(LinkRequest::Refresh { session, timeout_ms }) && opt_view(session) == n && timeout_ms == t,
                Err(e) => r matches Err(m) && m@ == e,
            }
            &&& c == "call"@ ==> match remote_member_spec(rest, "usage: operit2 cli link call <session> <target-path> <method-name> [args-json]"@) {
                Ok((s, t, n, j)) => r matches Ok(LinkRequest::Call { session, target_path, method_name, args_json })
                    && session@ == s && target_path@ == t && method_name@ == n && opt_view(args_json) == j,
                Err(e) => r matches Err(m) && m@ == e,
            }
            &&& c == "watch"@ ==> match remote_member_spec(rest, "usage: operit2 cli link watch <session> <target-path> <property-name> [args-json]"@) {
                Ok((s, t, n, j)) => r matches Ok(LinkRequest::Watch { session, target_path, property_name, args_json })
                    && session@ == s && target_path@ == t && property_name@ == n && opt_view(args_json) == j,
                Err(e) => r matches Err(m) && m@ == e,
            }
            &&& c == "tui"@ ==> (r matches Ok(LinkRequest::Tui { args: ta }) && views(ta@) == rest)
            &&& c == "run"@ ==> match arg_at(rest, 0) {
                Some(s) => r matches Ok(LinkRequest::Run { session, args: ra }) && session@ == s && views(ra@) == rest_of(rest),
                None => r matches Err(m) && m@ == "usage: operit2 cli link run <session> <command>"@,
            }
            &&& !known_link_command(c) ==> (r matches Ok(LinkRequest::Usage))
        },
{
    if args.len() == 0 {
        return Ok(LinkRequest::Usage);
    }
    let c = args[0].as_str();
    let rest = rest_args(args);
    proof {
        assert(views(args@)[0] == c@);
        assert(views(rest@) == rest_of(views(args@)));
        reveal_strlit("serve");
        reveal_strlit("discover");
        reveal_strlit("connect");
        reveal_strlit("space");
        reveal_strlit("hello");
        reveal_strlit("sessions");
        reveal_strlit("transport");
        reveal_strlit("session-delete");
        reveal_strlit("accepted-sessions");
        reveal_strlit("accepted-session-delete");
        reveal_strlit("ping");
        reveal_strlit("refresh");
        reveal_strlit("call");
        reveal_strlit("watch");
        reveal_strlit("tui");
        reveal_strlit("run");
        assert("tui"@[0] != "run"@[0]);
        assert("call"@[0] != "ping"@[0]);
        assert("serve"@[1] != "space"@[1]);
        assert("serve"@[0] != "hello"@[0]);
        assert("serve"@[0] != "watch"@[0]);
        assert("space"@[0] != "hello"@[0]);
        assert("space"@[0] != "watch"@[0]);
        assert("hello"@[0] != "watch"@[0]);
        assert("connect"@[0] != "refresh"@[0]);
        assert("discover"@[0] != "sessions"@[0]);
    }
    if str_eq(c, "serve") {
        return match parse_link_serve_args(rest.as_slice()) {
            Ok((bind_address, token)) => Ok(LinkRequest::Serve { bind_address, token }),
            Err(e) => Err(e),
        };
    }
    if str_eq(c, "discover") {
        return match parse_link_discover_args(rest.as_slice()) {
            Ok(timeout_ms) => Ok(LinkRequest::Discover { timeout_ms }),
            Err(e) => Err(e),
        };
    }
    if str_eq(c, "connect") {
        let usage = "usage: operit2 cli link connect <url> --token <token> --save <name> [--transport <http|ws>]";
        return match parse_remote_url_token_save(rest.as_slice(), usage) {
            Ok((url, token, Some(name), transport)) => Ok(LinkRequest::Connect { url, token, name, transport }),
            Ok((_, _, None, _)) => Err(String::from_str(usage)),
            Err(e) => Err(e),
        };
    }
    if str_eq(c, "space") {
        return Ok(LinkRequest::Space { args: rest });
    }
    if str_eq(c, "hello") {
        return match parse_remote_url_token(rest.as_slice(), "usage: operit2 cli link hello <url> --token <token>") {
            Ok((url, token)) => Ok(LinkRequest::Hello { url, token }),
            Err(e) => Err(e),
        };
    }
    if str_eq(c, "sessions") {
        return Ok(LinkRequest::Sessions);
    }
    if str_eq(c, "transport") {
        if rest.len() != 2 {
            return Err(String::from_str("usage: operit2 cli link transport <session> <http|ws>"));
        }
        assert(views(rest@)[0] == rest@[0]@ && views(rest@)[1] == rest@[1]@);
        return match parse_link_transport(rest[1].as_str()) {
            Ok(transport) => Ok(LinkRequest::Transport { session: rest[0].clone(), transport }),
            Err(e) => Err(e),
        };
    }
    if str_eq(c, "session-delete") {
        return if rest.len() > 0 {
            Ok(LinkRequest::SessionDelete { name: rest[0].clone() })
        } else {
            Err(String::from_str("usage: operit2 cli link session-delete <name>"))
        };
    }
    if str_eq(c, "accepted-sessions") {
        return Ok(LinkRequest::AcceptedSessions);
    }
    if str_eq(c, "accepted-session-delete") {
        return if rest.len() > 0 {
            Ok(LinkRequest::AcceptedSessionDelete { session_id: rest[0].clone() })
        } else {
            Err(String::from_str("usage: operit2 cli link accepted-session-delete <session-id>"))
        };
    }
    if str_eq(c, "ping") {
        return if rest.len() > 0 {
            Ok(LinkRequest::Ping { name: rest[0].clone() })
        } else {
            Err(String::from_str("usage: operit2 cli link ping <name>"))
        };
    }
    if str_eq(c, "refresh") {
        return match parse_link_refresh_args(rest.as_slice()) {
            Ok((session, timeout_ms)) => Ok(LinkRequest::Refresh { session, timeout_ms }),
            Err(e) => Err(e),
        };
    }
    if str_eq(c, "call") {
        return match parse_link_member_args(rest.as_slice(), "usage: operit2 cli link call <session> <target-path> <method-name> [args-json]") {
            Ok((session, target_path, method_name, args_json)) => Ok(LinkRequest::Call { session, target_path, method_name, args_json }),
            Err(e) => Err(e),
        };
    }
    if str_eq(c, "watch") {
        return match parse_link_member_args(rest.as_slice(), "usage: operit2 cli link watch <session> <target-path> <property-name> [args-json]") {
            Ok((session, target_path, property_name, args_json)) => Ok(LinkRequest::Watch { session, target_path, property_name, args_json }),
            Err(e) => Err(e),
        };
    }
    if str_eq(c, "tui") {
        return Ok(LinkRequest::Tui { args: rest });
    }
    if str_eq(c, "run") {
        if rest.len() == 0 {
            return Err(String::from_str("usage: operit2 cli link run <session> <command>"));
        }
        let run_args = rest_args(rest.as_slice());
        return Ok(LinkRequest::Run { session: rest[0].clone(), args: run_args });
    }
    Ok(LinkRequest::Usage)
}

/// The subcommands `cli link` knows.
pub open spec fn known_link_command(c: Seq<char>) -> bool {
    c == "serve"@ || c == "discover"@ || c == "connect"@ || c == "space"@ || c == "hello"@ || c == "sessions"@
        || c == "transport"@ || c == "session-delete"@ || c == "accepted-sessions"@ || c == "accepted-session-delete"@
        || c == "ping"@ || c == "refresh"@ || c == "call"@ || c == "watch"@ || c == "tui"@ || c == "run"@
}

} // verus!
