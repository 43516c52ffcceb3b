//! The `cli link` command: connection and refresh argument grammars.
use vstd::prelude::*;
use crate::commands::chat::arg_at;
use crate::link_access::{parse_link_transport, transport_name, LinkTransportPreference, PairedRemoteSessionRecord};
use crate::output::{line, CoreCommandOutput};
use crate::model::opt_view;
use crate::num::{decimal, i64_to_string, int_error_message, int_error_text, parse_int, parse_u64, u64_to_string};
use crate::text::{concat, str_eq, to_owned, views};

verus! {

/// Usage text of `cli link refresh`.
pub open spec fn refresh_usage() -> Seq<char> {
    "usage: operit2 cli link refresh [session] [--timeout-ms <ms>]"@
}

/// The session name and discovery timeout of `cli link refresh`, read from position `i` on.
pub open spec fn refresh_from(a: Seq<Seq<char>>, i: int, name: Option<Seq<char>>, timeout: int) -> Result<(Option<Seq<char>>, int), Seq<char>>
    decreases a.len() + 2 - i,
{
    if i < 0 || i >= a.len() {
        Ok((name, timeout))
    } else if a[i] == "--timeout-ms"@ {
        if i + 1 >= a.len() {
            Err(refresh_usage())
        } else {
            match parse_int(a[i + 1], 0, u64::MAX as int, false) {
                Ok(t) => refresh_from(a, i + 2, name, t),
                Err(k) => Err(int_error_message(k)),
            }
        }
    } else if name is Some {
        Err(refresh_usage())
    } else {
        refresh_from(a, i + 1, Some(a[i]), timeout)
    }
}

/// Parses the optional session name and discovery timeout for link refresh
/// (2000 ms when no timeout is given).
pub fn parse_link_refresh_args(args: &[String]) -> (r: Result<(Option<String>, u64), String>)
    ensures
        match r {
            Ok((n, t)) => refresh_from(views(args@), 0, None, 2000) == Ok::<_, Seq<char>>((opt_view(n), t as int)),
            Err(e) => refresh_from(views(args@), 0, None, 2000) == Err::<(Option<Seq<char>>, int), _>(e@),
        },
{
    let ghost a = views(args@);
    let mut name: Option<String> = None;
    let mut timeout: u64 = 2000;
    let mut index: usize = 0;
    while index < args.len()
        invariant
            a == views(args@),
            index <= args.len(),
            refresh_from(a, 0, None, 2000) == refresh_from(a, index as int, opt_view(name), timeout as int),
        decreases args.len() - index,
    {
        let word = args[index].as_str();
        assert(a[index as int] == word@);
        if str_eq(word, "--timeout-ms") {
            if index + 1 >= args.len() {
                return Err(String::from_str("usage: operit2 cli link refresh [session] [--timeout-ms <ms>]"));
            }
            assert(a[index + 1] == args@[index + 1]@);
            match parse_u64(args[index + 1].as_str()) {
                Ok(t) => {
                    timeout = t;
                },
                Err(k) => return Err(int_error_text(k)),
            }
            index = index + 2;
        } else {
            if name.is_some() {
                return Err(String::from_str("usage: operit2 cli link refresh [session] [--timeout-ms <ms>]"));
            }
            name = Some(args[index].clone());
            index = index + 1;
        }
    }
    Ok((name, timeout))
}

/// URL, token, save name and carrier of `cli link hello|connect`, read from position `i` on.
pub open spec fn remote_from(
    a: Seq<Seq<char>>,
    i: int,
    usage: Seq<char>,
    token: Option<Seq<char>>,
    save: Option<Seq<char>>,
    transport: Option<LinkTransportPreference>,
) -> Result<(Option<Seq<char>>, Option<Seq<char>>, Option<LinkTransportPreference>), Seq<char>>
    decreases a.len() + 2 - i,
{
    if i < 0 || i >= a.len() {
        Ok((token, save, transport))
    } else if a[i] == "--token"@ {
        if i + 1 >= a.len() { Err(usage) } else { remote_from(a, i + 2, usage, Some(a[i + 1]), save, transport) }
    } else if a[i] == "--save"@ {
        if i + 1 >= a.len() { Err(usage) } else { remote_from(a, i + 2, usage, token, Some(a[i + 1]), transport) }
    } else if a[i] == "--transport"@ {
        if i + 1 >= a.len() {
            Err(usage)
        } else if a[i + 1] == "http"@ {
            remote_from(a, i + 2, usage, token, save, Some(LinkTransportPreference::Http))
        } else if a[i + 1] == "ws"@ {
            remote_from(a, i + 2, usage, token, save, Some(LinkTransportPreference::WebSocket))
        } else {
            Err("Link transport must be http or ws"@)
        }
    } else {
        Err(usage)
    }
}

/// The complete reading: a URL first, then options; the token is required.
pub open spec fn remote_spec(a: Seq<Seq<char>>, usage: Seq<char>) -> Result<(Seq<char>, Seq<char>, Option<Seq<char>>, Option<LinkTransportPreference>), Seq<char>> {
    if a.len() == 0 {
        Err(usage)
    } else {
        match remote_from(a, 1, usage, None, None, None) {
            Err(e) => Err(e),
            Ok((t, s, tr)) => match t {
                None => Err(usage),
                Some(tok) => Ok((a[0], tok, s, tr)),
            },
        }
    }
}

/// Parses `<url> --token <token> [--save <name>] [--transport <http|ws>]`.
pub fn parse_remote_url_token_save(args: &[String], usage: &str) -> (r: Result<(String, String, Option<String>, Option<LinkTransportPreference>), String>)
    ensures
        match r {
            Ok((u, t, s, tr)) => remote_spec(views(args@), usage@) == Ok::<_, Seq<char>>((u@, t@, opt_view(s), tr)),
            Err(e) => remote_spec(views(args@), usage@) == Err::<(Seq<char>, Seq<char>, Option<Seq<char>>, Option<LinkTransportPreference>), _>(e@),
        },
{
    if args.len() == 0 {
        return Err(to_owned(usage));
    }
    let ghost a = views(args@);
    let url = args[0].clone();
    let mut token: Option<String> = None;
    let mut save: Option<String> = None;
    let mut transport: Option<LinkTransportPreference> = None;
    let mut index: usize = 1;
    while index < args.len()
        invariant
            a == views(args@),
            1 <= index <= args.len(),
            remote_from(a, 1, usage@, None, None, None) == remote_from(a, index as int, usage@, opt_view(token), opt_view(save), transport),
        decreases args.len() - index,
    {
        let word = args[index].as_str();
        assert(a[index as int] == word@);
        proof {
            reveal_strlit("--token");
            reveal_strlit("--save");
            reveal_strlit("--transport");
            assert("--token"@.len() == 7);
            assert("--save"@.len() == 6);
            assert("--transport"@.len() == 11);
            reveal_strlit("http");
            reveal_strlit("ws");
            assert("http"@.len() == 4);
            assert("ws"@.len() == 2);
        }
        if str_eq(word, "--token") || str_eq(word, "--save") || str_eq(word, "--transport") {
            if index + 1 >= args.len() {
                return Err(to_owned(usage));
            }
            let value = &args[index + 1];
            assert(a[index + 1] == value@);
            if str_eq(word, "--token") {
                token = Some(value.clone());
            } else if str_eq(word, "--save") {
                save = Some(value.clone());
            } else {
                match parse_link_transport(value.as_str()) {
                    Ok(t) => {
                        transport = Some(t);
                    },
                    Err(e) => return Err(e),
                }
            }
            index = index + 2;
        } else {
            return Err(to_owned(usage));
        }
    }
    match token {
        None => Err(to_owned(usage)),
        Some(t) => Ok((url, t, save, transport)),
    }
}

/// Parses `<url> --token <token>`, ignoring a saved name and carrier.
pub fn parse_remote_url_token(args: &[String], usage: &str) -> (r: Result<(String, String), String>)
    ensures
        match r {
            Ok((u, t)) => remote_spec(views(args@), usage@) matches Ok((su, st, _, _)) && su == u@ && st == t@,
            Err(e) => remote_spec(views(args@), usage@) == Err::<(Seq<char>, Seq<char>, Option<Seq<char>>, Option<LinkTransportPreference>), _>(e@),
        },
{
    match parse_remote_url_token_save(args, usage) {
        Ok((u, t, _, _)) => Ok((u, t)),
        Err(e) => Err(e),
    }
}

/// The lines `cli link` prints for its usage.
pub open spec fn link_usage_text() -> Seq<char> {
    line("operit2 cli link serve [--bind <addr:port>] [--token <token>]"@)
        + line("operit2 cli link discover [--timeout-ms <ms>]"@)
        + line("operit2 cli link hello <url> --token <token>"@)
        + line("operit2 cli link connect <url> --token <token> --save <name> [--transport <http|ws>]"@)
        + line("operit2 cli link space <show|rename <name>|join <paired-session>|leave>"@)
        + line("operit2 cli link sessions"@)
        + line("operit2 cli link transport <session> <http|ws>"@)
        + line("operit2 cli link session-delete <name>"@)
        + line("operit2 cli link accepted-sessions"@)
        + line("operit2 cli link accepted-session-delete <session-id>"@)
        + line("operit2 cli link ping <name>"@)
        + line("operit2 cli link refresh [session] [--timeout-ms <ms>]"@)
        + line("operit2 cli link call <session> <target-path> <method-name> [args-json]"@)
        + line("operit2 cli link watch <session> <target-path> <property-name> [args-json]"@)
        + line("operit2 cli link tui <session> [--chat <chat-id>]"@)
        + line("operit2 cli link run <session> <version|chat|local-models|stt>"@)
}

/// Prints `cli link` usage.
pub fn print_link_usage(output: &mut CoreCommandOutput)
    ensures
        final(output).stdout@ == old(output).stdout@ + link_usage_text(),
        final(output).stderr@ == old(output).stderr@,
{
    output.push_stdout_line("operit2 cli link serve [--bind <addr:port>] [--token <token>]");
    output.push_stdout_line("operit2 cli link discover [--timeout-ms <ms>]");
    output.push_stdout_line("operit2 cli link hello <url> --token <token>");
    output.push_stdout_line("operit2 cli link connect <url> --token <token> --save <name> [--transport <http|ws>]");
    output.push_stdout_line("operit2 cli link space <show|rename <name>|join <paired-session>|leave>");
    output.push_stdout_line("operit2 cli link sessions");
    output.push_stdout_line("operit2 cli link transport <session> <http|ws>");
    output.push_stdout_line("operit2 cli link session-delete <name>");
    output.push_stdout_line("operit2 cli link accepted-sessions");
    output.push_stdout_line("operit2 cli link accepted-session-delete <session-id>");
    output.push_stdout_line("operit2 cli link ping <name>");
    output.push_stdout_line("operit2 cli link refresh [session] [--timeout-ms <ms>]");
    output.push_stdout_line("operit2 cli link call <session> <target-path> <method-name> [args-json]");
    output.push_stdout_line("operit2 cli link watch <session> <target-path> <property-name> [args-json]");
    output.push_stdout_line("operit2 cli link tui <session> [--chat <chat-id>]");
    output.push_stdout_line("operit2 cli link run <session> <version|chat|local-models|stt>");
    assert(output.stdout@ =~= old(output).stdout@ + link_usage_text());
}

/// `link session not found: <name>`.
pub open spec fn session_not_found(name: Seq<char>) -> Seq<char> {
    "link session not found: "@ + name
}

/// The position of the first entry named `name` from `i` on, or -1.
pub open spec fn first_entry<T>(entries: Seq<(String, T)>, name: Seq<char>, i: int) -> int
    decreases entries.len() - i,
{
    if i < 0 || i >= entries.len() {
        -1
    } else if entries[i].0@ == name {
        i
    } else {
        first_entry(entries, name, i + 1)
    }
}

/// Finds one saved paired session record by name.
pub fn load_link_session_record<'a>(sessions: &'a [(String, PairedRemoteSessionRecord)], name: &str) -> (r: Result<&'a PairedRemoteSessionRecord, String>)
    ensures
        match r {
            Ok(rec) => first_entry(sessions@, name@, 0) >= 0 && *rec == sessions@[first_entry(sessions@, name@, 0)].1,
            Err(e) => first_entry(sessions@, name@, 0) == -1 && e@ == session_not_found(name@),
        },
{
    let mut i: usize = 0;
    while i < sessions.len()
        invariant
            i <= sessions.len(),
            first_entry(sessions@, name@, 0) == first_entry(sessions@, name@, i as int),
        decreases sessions.len() - i,
    {
        if str_eq(sessions[i].0.as_str(), name) {
            return Ok(&sessions[i].1);
        }
        i = i + 1;
    }
    Err(concat("link session not found: ", name))
}

/// A Link runtime found on the local network: its CoreNode id and address.
#[derive(Clone, Debug)]
pub struct DiscoveredLinkDevice {
    pub device_id: String,
    pub base_url: String,
}

/// The position of the first discovered device with id `id` from `i` on, or -1.
pub open spec fn first_device(devices: Seq<DiscoveredLinkDevice>, id: Seq<char>, i: int) -> int
    decreases devices.len() - i,
{
    if i < 0 || i >= devices.len() {
        -1
    } else if devices[i].device_id@ == id {
        i
    } else {
        first_device(devices, id, i + 1)
    }
}

/// Selects the discovered device whose identity matches a paired session record.
pub fn discovered_device_for_link_record<'a>(record: &PairedRemoteSessionRecord, devices: &'a Vec<DiscoveredLinkDevice>) -> (r: Option<&'a DiscoveredLinkDevice>)
    ensures
        match r {
            Some(d) => first_device(devices@, record.coreDeviceId@, 0) >= 0
                && *d == devices@[first_device(devices@, record.coreDeviceId@, 0)],
            None => first_device(devices@, record.coreDeviceId@, 0) == -1,
        },
{
    let mut i: usize = 0;
    while i < devices.len()
        invariant
            i <= devices.len(),
            first_device(devices@, record.coreDeviceId@, 0) == first_device(devices@, record.coreDeviceId@, i as int),
        decreases devices.len() - i,
    {
        if str_eq(devices[i].device_id.as_str(), record.coreDeviceId.as_str()) {
            return Some(&devices[i]);
        }
        i = i + 1;
    }
    None
}

/// The address a session record should move to after discovery: the address
/// the matching device advertises, when it differs from the stored one.
pub open spec fn refreshed_base_url(record: PairedRemoteSessionRecord, devices: Seq<DiscoveredLinkDevice>) -> Option<Seq<char>> {
    let k = first_device(devices, record.coreDeviceId@, 0);
    if k < 0 || devices[k].base_url@ == record.baseUrl@ { None } else { Some(devices[k].base_url@) }
}

/// Decides whether discovery moved a paired session to a new address, which
/// must then be verified before the record is saved.
pub fn link_session_refresh_target(record: &PairedRemoteSessionRecord, devices: &Vec<DiscoveredLinkDevice>) -> (r: Option<String>)
    ensures
        opt_view(r) == refreshed_base_url(*record, devices@),
{
    match discovered_device_for_link_record(record, devices) {
        None => None,
        Some(d) => if str_eq(d.base_url.as_str(), record.baseUrl.as_str()) { None } else { Some(d.base_url.clone()) },
    }
}

/// The Link protocol version a paired runtime must speak.
pub const LINK_PROTOCOL_VERSION: i64 = 3;

/// Verifies what a paired runtime reports about itself against its record:
/// it must speak protocol version 3 and keep its identity.
pub fn verify_link_session_info(record: &PairedRemoteSessionRecord, protocolVersion: i64, coreDeviceId: &str) -> (r: Result<(), String>)
    ensures
        protocolVersion != 3 ==> (r matches Err(e) && e@ == "remote Link protocol version is "@ + decimal(protocolVersion as int) + ", expected 3"@),
        protocolVersion == 3 && coreDeviceId@ != record.coreDeviceId@ ==> (r matches Err(e) && e@ == "remote runtime identity changed"@),
        protocolVersion == 3 && coreDeviceId@ == record.coreDeviceId@ ==> r is Ok,
{
    if protocolVersion != LINK_PROTOCOL_VERSION {
        let mut e = String::from_str("remote Link protocol version is ");
        let v = i64_to_string(protocolVersion);
        e.append(v.as_str());
        e.append(", expected 3");
        return Err(e);
    }
    if !str_eq(coreDeviceId, record.coreDeviceId.as_str()) {
        return Err(String::from_str("remote runtime identity changed"));
    }
    Ok(())
}

/// The id of a request the CLI sends at a given time: `cli-<millis>`.
pub fn link_request_id(millis: u64) -> (r: String)
    ensures
        r@ == "cli-"@ + decimal(millis as int),
{
    let mut r = String::from_str("cli-");
    let m = u64_to_string(millis);
    r.append(m.as_str());
    r
}

/// `accepted link session not found: <id>`.
pub open spec fn accepted_not_found(id: Seq<char>) -> Seq<char> {
    "accepted link session not found: "@ + id
}

/// Checks that an accepted session exists before it is removed.
pub fn remove_link_server_session(acceptedIds: &Vec<String>, sessionId: &str) -> (r: Result<(), String>)
    ensures
        r is Ok <==> exists|k: int| 0 <= k < acceptedIds@.len() && (#[trigger] acceptedIds@[k])@ == sessionId@,
        r matches Err(e) ==> e@ == accepted_not_found(sessionId@),
{
    let mut i: usize = 0;
    while i < acceptedIds.len()
        invariant
            i <= acceptedIds.len(),
            forall|k: int| 0 <= k < i ==> (#[trigger] acceptedIds@[k])@ != sessionId@,
        decreases acceptedIds.len() - i,
    {
        if str_eq(acceptedIds[i].as_str(), sessionId) {
            return Ok(());
        }
        i = i + 1;
    }
    Err(concat("accepted link session not found: ", sessionId))
}

} // verus!
