//! The `package` command: its requests, usage text and listing lines.
use vstd::prelude::*;
use crate::commands::chat::{arg_at, bool_str, bool_text};
use crate::model::opt_view;
use crate::num::nat_digits;
use crate::output::{line, CoreCommandOutput};
use crate::text::{chars_of, concat, str_eq, string_of_range, views};

verus! {

/// The lines `package` prints for `help` and unknown subcommands.
pub open spec fn package_usage_text() -> Seq<char> {
    line("operit2 package help"@)
        + line("operit2 package dir                                  Show user package directory."@)
        + line("operit2 package list                                 List loaded script packages and ToolPkg subpackages."@)
        + line("operit2 package more                                 List app-bundled official extras not loaded yet; type=script/toolpkg."@)
        + line("operit2 package load <name>                          Load one item from 'package more' into the user package directory."@)
        + line("operit2 package show <name>                          Show a loaded package."@)
        + line("operit2 package import <js-ts-hjson-toolpkg-path>    Import a package file."@)
        + line("operit2 package delete <name>                        Delete an external package."@)
        + line("operit2 package enable <name>                        Enable a loaded package."@)
        + line("operit2 package disable <name>                       Disable a loaded package."@)
        + line("operit2 package use <name>                           Enable a package for execution."@)
        + line("operit2 package exec <package:tool> <params-json>    Execute one package tool."@)
}

/// Prints package command usage.
pub fn print_package_usage(output: &mut CoreCommandOutput)
    ensures
        final(output).stdout@ == old(output).stdout@ + package_usage_text(),
        final(output).stderr@ == old(output).stderr@,
{
    output.push_stdout_line("operit2 package help");
    output.push_stdout_line("operit2 package dir                                  Show user package directory.");
    output.push_stdout_line("operit2 package list                                 List loaded script packages and ToolPkg subpackages.");
    output.push_stdout_line("operit2 package more                                 List app-bundled official extras not loaded yet; type=script/toolpkg.");
    output.push_stdout_line("operit2 package load <name>                          Load one item from 'package more' into the user package directory.");
    output.push_stdout_line("operit2 package show <name>                          Show a loaded package.");
    output.push_stdout_line("operit2 package import <js-ts-hjson-toolpkg-path>    Import a package file.");
    output.push_stdout_line("operit2 package delete <name>                        Delete an external package.");
    output.push_stdout_line("operit2 package enable <name>                        Enable a loaded package.");
    output.push_stdout_line("operit2 package disable <name>                       Disable a loaded package.");
    output.push_stdout_line("operit2 package use <name>                           Enable a package for execution.");
    output.push_stdout_line("operit2 package exec <package:tool> <params-json>    Execute one package tool.");
    assert(output.stdout@ =~= old(output).stdout@ + package_usage_text());
}

/// One `package` subcommand with its arguments read.
#[derive(Clone, Debug)]
pub enum PackageRequest {
    Usage,
    Dir,
    List,
    Menu,
    More,
    Show { name: String },
    Import { path: String },
    Load { name: String },
    Delete { name: String },
    Enable { name: String },
    Disable { name: String },
    Use { name: String },
    Exec { tool_name: String, params_json: String, package_name: String },
}

/// A `package` subcommand as plain values.
pub enum PackageRequestView {
    Usage,
    Dir,
    List,
    Menu,
    More,
    Show { name: Seq<char> },
    Import { path: Seq<char> },
    Load { name: Seq<char> },
    Delete { name: Seq<char> },
    Enable { name: Seq<char> },
    Disable { name: Seq<char> },
    Use { name: Seq<char> },
    Exec { tool_name: Seq<char>, params_json: Seq<char>, package_name: Seq<char> },
}

/// The plain view of a request.
pub open spec fn package_request_view(r: PackageRequest) -> PackageRequestView {
    match r {
        PackageRequest::Usage => PackageRequestView::Usage,
        PackageRequest::Dir => PackageRequestView::Dir,
        PackageRequest::List => PackageRequestView::List,
        PackageRequest::Menu => PackageRequestView::Menu,
        PackageRequest::More => PackageRequestView::More,
        PackageRequest::Show { name } => PackageRequestView::Show { name: name@ },
        PackageRequest::Import { path } => PackageRequestView::Import { path: path@ },
        PackageRequest::Load { name } => PackageRequestView::Load { name: name@ },
        PackageRequest::Delete { name } => PackageRequestView::Delete { name: name@ },
        PackageRequest::Enable { name } => PackageRequestView::Enable { name: name@ },
        PackageRequest::Disable { name } => PackageRequestView::Disable { name: name@ },
        PackageRequest::Use { name } => PackageRequestView::Use { name: name@ },
        PackageRequest::Exec { tool_name, params_json, package_name } =>
            PackageRequestView::Exec { tool_name: tool_name@, params_json: params_json@, package_name: package_name@ },
    }
}

/// The first position of `c` in `s`, if any.
pub open spec fn first_index_of(s: Seq<char>, c: char) -> Option<int>
    decreases s.len(),
{
    if s.len() == 0 {
        None
    } else if s[0] == c {
        Some(0)
    } else {
        match first_index_of(s.drop_first(), c) {
            Some(k) => Some(k + 1),
            None => None,
        }
    }
}

/// The package part of `package:tool`: the text before the first `:`.
pub open spec fn package_of_tool(tool: Seq<char>) -> Option<Seq<char>> {
    match first_index_of(tool, ':') {
        Some(k) => Some(tool.subrange(0, k)),
        None => None,
    }
}

/// The request that `package` arguments make, or why they are refused.
pub open spec fn package_request(a: Seq<Seq<char>>) -> Result<PackageRequestView, Seq<char>> {
    if a.len() == 0 {
        Ok(PackageRequestView::Usage)
    } else {
        let c = a[0];
        if c == "help"@ || c == "-h"@ || c == "--help"@ {
            Ok(PackageRequestView::Usage)
        } else if c == "dir"@ {
            Ok(PackageRequestView::Dir)
        } else if c == "list"@ {
            Ok(PackageRequestView::List)
        } else if c == "menu"@ {
            Ok(PackageRequestView::Menu)
        } else if c == "more"@ {
            Ok(PackageRequestView::More)
        } else if c == "show"@ {
            match arg_at(a, 1) { Some(name) => Ok(PackageRequestView::Show { name }), None => Err("usage: operit2 package show <name>"@) }
        } else if c == "import"@ {
            match arg_at(a, 1) { Some(path) => Ok(PackageRequestView::Import { path }), None => Err("usage: operit2 package import <js-ts-hjson-toolpkg-path>"@) }
        } else if c == "load"@ {
            match arg_at(a, 1) { Some(name) => Ok(PackageRequestView::Load { name }), None => Err("usage: operit2 package load <name>"@) }
        } else if c == "delete"@ || c == "remove"@ {
            match arg_at(a, 1) { Some(name) => Ok(PackageRequestView::Delete { name }), None => Err("usage: operit2 package delete <name>"@) }
        } else if c == "enable"@ {
            match arg_at(a, 1) { Some(name) => Ok(PackageRequestView::Enable { name }), None => Err("usage: operit2 package enable <name>"@) }
        } else if c == "disable"@ {
            match arg_at(a, 1) { Some(name) => Ok(PackageRequestView::Disable { name }), None => Err("usage: operit2 package disable <name>"@) }
        } else if c == "use"@ {
            match arg_at(a, 1) { Some(name) => Ok(PackageRequestView::Use { name }), None => Err("usage: operit2 package use <name>"@) }
        } else if c == "exec"@ {
            match (arg_at(a, 1), arg_at(a, 2)) {
                (Some(tool_name), Some(params_json)) => match package_of_tool(tool_name) {
                    Some(package_name) => Ok(PackageRequestView::Exec { tool_name, params_json, package_name }),
                    None => Err("package exec tool name must use package:tool format"@),
                },
                _ => Err("usage: operit2 package exec <package:tool> <params-json>"@),
            }
        } else {
            Ok(PackageRequestView::Usage)
        }
    }
}

/// `package enable <name>` asks to enable `<name>` and `package disable
/// <name>` to disable it; only `enable` yields an enable request and only
/// `disable` a disable request.
pub proof fn law_enable_and_disable_requests(a: Seq<Seq<char>>)
    ensures
        a.len() >= 2 && a[0] == "enable"@ ==> package_request(a) == Ok::<_, Seq<char>>(PackageRequestView::Enable { name: a[1] }),
        a.len() >= 2 && a[0] == "disable"@ ==> package_request(a) == Ok::<_, Seq<char>>(PackageRequestView::Disable { name: a[1] }),
        package_request(a) matches Ok(PackageRequestView::Enable { .. }) ==> a.len() >= 2 && a[0] == "enable"@,
        package_request(a) matches Ok(PackageRequestView::Disable { .. }) ==> a.len() >= 2 && a[0] == "disable"@,
{
    reveal_strlit("help");
    reveal_strlit("-h");
    reveal_strlit("--help");
    reveal_strlit("dir");
    reveal_strlit("list");
    reveal_strlit("menu");
    reveal_strlit("more");
    reveal_strlit("show");
    reveal_strlit("import");
    reveal_strlit("load");
    reveal_strlit("delete");
    reveal_strlit("remove");
    reveal_strlit("enable");
    reveal_strlit("disable");
    assert("help"@.len() == 4 && "help"@[0] == 'h');
    assert("-h"@.len() == 2 && "-h"@[0] == '-');
    assert("--help"@.len() == 6 && "--help"@[0] == '-');
    assert("dir"@.len() == 3 && "dir"@[0] == 'd');
    assert("list"@.len() == 4 && "list"@[0] == 'l');
    assert("menu"@.len() == 4 && "menu"@[0] == 'm');
    assert("more"@.len() == 4 && "more"@[0] == 'm');
    assert("show"@.len() == 4 && "show"@[0] == 's');
    assert("import"@.len() == 6 && "import"@[0] == 'i');
    assert("load"@.len() == 4 && "load"@[0] == 'l');
    assert("delete"@.len() == 6 && "delete"@[0] == 'd');
    assert("remove"@.len() == 6 && "remove"@[0] == 'r');
    assert("enable"@.len() == 6 && "enable"@[0] == 'e');
    assert("disable"@.len() == 7 && "disable"@[0] == 'd');
}

/// Each package subcommand that names a package (or a path) asks for that
/// action on its first argument, and without that argument is refused with
/// its usage line; no other arguments change the request.
pub proof fn law_named_package_requests(a: Seq<Seq<char>>)
    ensures
        a.len() >= 2 && a[0] == "show"@ ==> package_request(a) == Ok::<_, Seq<char>>(PackageRequestView::Show { name: a[1] }),
        a.len() >= 2 && a[0] == "import"@ ==> package_request(a) == Ok::<_, Seq<char>>(PackageRequestView::Import { path: a[1] }),
        a.len() >= 2 && a[0] == "load"@ ==> package_request(a) == Ok::<_, Seq<char>>(PackageRequestView::Load { name: a[1] }),
        a.len() >= 2 && (a[0] == "delete"@ || a[0] == "remove"@) ==> package_request(a) == Ok::<_, Seq<char>>(PackageRequestView::Delete { name: a[1] }),
        a.len() >= 2 && a[0] == "use"@ ==> package_request(a) == Ok::<_, Seq<char>>(PackageRequestView::Use { name: a[1] }),
        a.len() == 1 && a[0] == "show"@ ==> package_request(a) == Err::<PackageRequestView, _>("usage: operit2 package show <name>"@),
        a.len() == 1 && a[0] == "load"@ ==> package_request(a) == Err::<PackageRequestView, _>("usage: operit2 package load <name>"@),
        a.len() == 1 && a[0] == "enable"@ ==> package_request(a) == Err::<PackageRequestView, _>("usage: operit2 package enable <name>"@),
        a.len() == 1 && a[0] == "disable"@ ==> package_request(a) == Err::<PackageRequestView, _>("usage: operit2 package disable <name>"@),
        a.len() == 1 && a[0] == "use"@ ==> package_request(a) == Err::<PackageRequestView, _>("usage: operit2 package use <name>"@),
        a.len() >= 1 && a[0] == "dir"@ ==> package_request(a) == Ok::<_, Seq<char>>(PackageRequestView::Dir),
        a.len() >= 1 && a[0] == "list"@ ==> package_request(a) == Ok::<_, Seq<char>>(PackageRequestView::List),
        a.len() == 0 ==> package_request(a) == Ok::<_, Seq<char>>(PackageRequestView::Usage),
{
    reveal_strlit("help");
    reveal_strlit("-h");
    reveal_strlit("--help");
    reveal_strlit("dir");
    reveal_strlit("list");
    reveal_strlit("menu");
    reveal_strlit("more");
    reveal_strlit("show");
    reveal_strlit("import");
    reveal_strlit("load");
    reveal_strlit("delete");
    reveal_strlit("remove");
    reveal_strlit("enable");
    reveal_strlit("disable");
    reveal_strlit("use");
    reveal_strlit("exec");
    assert("help"@.len() == 4 && "help"@[0] == 'h' && "help"@[1] == 'e');
    assert("-h"@.len() == 2 && "-h"@[0] == '-' && "-h"@[1] == 'h');
    assert("--help"@.len() == 6 && "--help"@[0] == '-' && "--help"@[1] == '-');
    assert("dir"@.len() == 3 && "dir"@[0] == 'd' && "dir"@[1] == 'i');
    assert("list"@.len() == 4 && "list"@[0] == 'l' && "list"@[1] == 'i');
    assert("menu"@.len() == 4 && "menu"@[0] == 'm' && "menu"@[1] == 'e');
    assert("more"@.len() == 4 && "more"@[0] == 'm' && "more"@[1] == 'o');
    assert("show"@.len() == 4 && "show"@[0] == 's' && "show"@[1] == 'h');
    assert("import"@.len() == 6 && "import"@[0] == 'i' && "import"@[1] == 'm');
    assert("load"@.len() == 4 && "load"@[0] == 'l' && "load"@[1] == 'o');
    assert("delete"@.len() == 6 && "delete"@[0] == 'd' && "delete"@[1] == 'e');
    assert("remove"@.len() == 6 && "remove"@[0] == 'r' && "remove"@[1] == 'e');
    assert("enable"@.len() == 6 && "enable"@[0] == 'e' && "enable"@[1] == 'n');
    assert("disable"@.len() == 7 && "disable"@[0] == 'd' && "disable"@[1] == 'i');
    assert("use"@.len() == 3 && "use"@[0] == 'u' && "use"@[1] == 's');
    assert("exec"@.len() == 4 && "exec"@[0] == 'e' && "exec"@[1] == 'x');
}

/// The package part of `package:tool`, if the name has a `:`.
fn package_name_of(tool: &str) -> (r: Option<String>)
    ensures
        opt_view(r) == package_of_tool(tool@),
{
    let v = chars_of(tool);
    let mut i: usize = 0;
    assert(v@.subrange(0, v@.len() as int) =~= v@);
    while i < v.len()
        invariant
            v@ == tool@,
            i <= v.len(),
            forall|k: int| 0 <= k < i ==> v@[k] != ':',
            first_index_of(v@, ':') == match first_index_of(v@.subrange(i as int, v@.len() as int), ':') {
                Some(k) => Some(k + i),
                None => None::<int>,
            },
        decreases v.len() - i,
    {
        let ghost rest = v@.subrange(i as int, v@.len() as int);
        assert(rest.drop_first() =~= v@.subrange(i + 1, v@.len() as int));
        if v[i] == ':' {
            return Some(string_of_range(&v, 0, i));
        }
        i = i + 1;
    }
    None
}

/// Reads the arguments of `package` into the request they make.
pub fn parse_package_command(args: &[String]) -> (r: Result<PackageRequest, String>)
    ensures
        match r {
            Ok(req) => package_request(views(args@)) == Ok::<_, Seq<char>>(package_request_view(req)),
            Err(e) => package_request(views(args@)) == Err::<PackageRequestView, _>(e@),
        },
{
    let ghost a = views(args@);
    if args.len() == 0 {
        return Ok(PackageRequest::Usage);
    }
    let c = args[0].as_str();
    assert(a[0] == c@);
    let first = if args.len() > 1 { Some(args[1].clone()) } else { None };
    assert(opt_view(first) == arg_at(a, 1));
    if str_eq(c, "help") || str_eq(c, "-h") || str_eq(c, "--help") {
        Ok(PackageRequest::Usage)
    } else if str_eq(c, "dir") {
        Ok(PackageRequest::Dir)
    } else if str_eq(c, "list") {
        Ok(PackageRequest::List)
    } else if str_eq(c, "menu") {
        Ok(PackageRequest::Menu)
    } else if str_eq(c, "more") {
        Ok(PackageRequest::More)
    } else if str_eq(c, "show") {
        match first { Some(name) => Ok(PackageRequest::Show { name }), None => Err(String::from_str("usage: operit2 package show <name>")) }
    } else if str_eq(c, "import") {
        match first { Some(path) => Ok(PackageRequest::Import { path }), None => Err(String::from_str("usage: operit2 package import <js-ts-hjson-toolpkg-path>")) }
    } else if str_eq(c, "load") {
        match first { Some(name) => Ok(PackageRequest::Load { name }), None => Err(String::from_str("usage: operit2 package load <name>")) }
    } else if str_eq(c, "delete") || str_eq(c, "remove") {
        match first { Some(name) => Ok(PackageRequest::Delete { name }), None => Err(String::from_str("usage: operit2 package delete <name>")) }
    } else if str_eq(c, "enable") {
        match first { Some(name) => Ok(PackageRequest::Enable { name }), None => Err(String::from_str("usage: operit2 package enable <name>")) }
    } else if str_eq(c, "disable") {
        match first { Some(name) => Ok(PackageRequest::Disable { name }), None => Err(String::from_str("usage: operit2 package disable <name>")) }
    } else if str_eq(c, "use") {
        match first { Some(name) => Ok(PackageRequest::Use { name }), None => Err(String::from_str("usage: operit2 package use <name>")) }
    } else if str_eq(c, "exec") {
        let second = if args.len() > 2 { Some(args[2].clone()) } else { None };
        assert(opt_view(second) == arg_at(a, 2));
        match (first, second) {
            (Some(tool_name), Some(params_json)) => match package_name_of(tool_name.as_str()) {
                Some(package_name) => Ok(PackageRequest::Exec { tool_name, params_json, package_name }),
                None => Err(String::from_str("package exec tool name must use package:tool format")),
            },
            _ => Err(String::from_str("usage: operit2 package exec <package:tool> <params-json>")),
        }
    } else {
        Ok(PackageRequest::Usage)
    }
}

/// An official extra bundled with the app and not loaded yet.
#[derive(Clone, Debug)]
pub struct BundledExternalPackageCandidate {
    pub packageName: String,
    pub packageKind: String,
    pub description: String,
    pub toolCount: usize,
    pub subpackageCount: usize,
}

/// The listing line of a bundled extra.
pub open spec fn candidate_line(c: BundledExternalPackageCandidate) -> Seq<char> {
    c.packageName@ + "\ttype="@ + c.packageKind@ + "\tloaded=false\t"@ + c.description@
        + "\ttools="@ + nat_digits(c.toolCount as nat) + "\tsubpackages="@ + nat_digits(c.subpackageCount as nat)
}

/// Formats the listing line of a bundled extra (its description already resolved).
pub fn format_bundled_external_candidate(candidate: &BundledExternalPackageCandidate) -> (r: String)
    ensures
        r@ == candidate_line(*candidate),
{
    let mut r = String::from_str(candidate.packageName.as_str());
    r.append("\ttype=");
    r.append(candidate.packageKind.as_str());
    r.append("\tloaded=false\t");
    r.append(candidate.description.as_str());
    r.append("\ttools=");
    let t = crate::num::u64_to_string(candidate.toolCount as u64);
    r.append(t.as_str());
    r.append("\tsubpackages=");
    let s = crate::num::u64_to_string(candidate.subpackageCount as u64);
    r.append(s.as_str());
    r
}

/// The message after a package was deleted, or the refusal when it was not.
pub fn package_deletion_message(name: &str, deleted: bool) -> (r: Result<String, String>)
    ensures
        deleted ==> (r matches Ok(m) && m@ == "deleted="@ + name@),
        !deleted ==> (r matches Err(e) && e@ == "Failed to delete package: "@ + name@),
{
    if deleted {
        Ok(concat("deleted=", name))
    } else {
        Err(concat("Failed to delete package: ", name))
    }
}

/// The listing row of one loaded package.
pub open spec fn package_list_row(name: Seq<char>, enabled: bool, description: Seq<char>, tools: nat) -> Seq<char> {
    name + "\tenabled="@ + bool_text(enabled) + "\t"@ + description + "\ttools="@ + nat_digits(tools)
}

/// Formats the listing row of one loaded package (its description resolved).
pub fn format_package_list_row(name: &str, enabled: bool, description: &str, toolCount: usize) -> (r: String)
    ensures
        r@ == package_list_row(name@, enabled, description@, toolCount as nat),
{
    let mut r = String::from_str(name);
    r.append("\tenabled=");
    r.append(bool_str(enabled));
    r.append("\t");
    r.append(description);
    r.append("\ttools=");
    let t = crate::num::u64_to_string(toolCount as u64);
    r.append(t.as_str());
    r
}

/// What `package show` prints of one tool parameter.
#[derive(Clone, Debug)]
pub struct PackageParameterDetails {
    pub name: String,
    pub parameter_type: String,
    pub required: bool,
    pub description: String,
}

/// What `package show` prints of one tool.
#[derive(Clone, Debug)]
pub struct PackageToolDetails {
    pub name: String,
    pub advice: String,
    pub description: String,
    pub parameters: Vec<PackageParameterDetails>,
}

/// What `package show` prints of one package, its texts already resolved.
#[derive(Clone, Debug)]
pub struct PackageDetails {
    pub name: String,
    pub display_name: String,
    pub description: String,
    pub category: String,
    pub enabled_by_default: bool,
    pub is_built_in: bool,
    pub tools: Vec<PackageToolDetails>,
}

/// The line of one tool parameter.
pub open spec fn parameter_line(p: PackageParameterDetails) -> Seq<char> {
    line("  - "@ + p.name@ + "\t"@ + p.parameter_type@ + "\trequired="@ + bool_text(p.required) + "\t"@ + p.description@)
}

/// The lines of the first `n` parameters.
pub open spec fn parameter_lines(ps: Seq<PackageParameterDetails>, n: int) -> Seq<char>
    decreases n,
{
    if n <= 0 { Seq::empty() } else { parameter_lines(ps, n - 1) + parameter_line(ps[n - 1]) }
}

/// The lines of one tool: its own line, then one per parameter.
pub open spec fn tool_lines(t: PackageToolDetails) -> Seq<char> {
    line("- "@ + t.name@ + "\tadvice="@ + t.advice@ + "\t"@ + t.description@)
        + parameter_lines(t.parameters@, t.parameters@.len() as int)
}

/// The lines of the first `n` tools.
pub open spec fn tools_lines(ts: Seq<PackageToolDetails>, n: int) -> Seq<char>
    decreases n,
{
    if n <= 0 { Seq::empty() } else { tools_lines(ts, n - 1) + tool_lines(ts[n - 1]) }
}

/// Everything `package show` prints of a package.
pub open spec fn package_details_text(p: PackageDetails) -> Seq<char> {
    line("name="@ + p.name@) + line("displayName="@ + p.display_name@) + line("description="@ + p.description@)
        + line("category="@ + p.category@) + line("enabledByDefault="@ + bool_text(p.enabled_by_default))
        + line("isBuiltIn="@ + bool_text(p.is_built_in)) + line("tools="@ + nat_digits(p.tools@.len()))
        + tools_lines(p.tools@, p.tools@.len() as int)
}

/// Prints one tool and its parameters.
fn print_tool_details(tool: &PackageToolDetails, output: &mut CoreCommandOutput)
    ensures
        final(output).stdout@ == old(output).stdout@ + tool_lines(*tool),
        final(output).stderr@ == old(output).stderr@,
{
    let mut head = String::from_str("- ");
    head.append(tool.name.as_str());
    head.append("\tadvice=");
    head.append(tool.advice.as_str());
    head.append("\t");
    head.append(tool.description.as_str());
    output.push_stdout_line(head.as_str());
    let ghost start = output.stdout@;
    let mut i: usize = 0;
    while i < tool.parameters.len()
        invariant
            i <= tool.parameters.len(),
            output.stdout@ == start + parameter_lines(tool.parameters@, i as int),
            output.stderr@ == old(output).stderr@,
        decreases tool.parameters.len() - i,
    {
        let p = &tool.parameters[i];
        let mut l = String::from_str("  - ");
        l.append(p.name.as_str());
        l.append("\t");
        l.append(p.parameter_type.as_str());
        l.append("\trequired=");
        l.append(bool_str(p.required));
        l.append("\t");
        l.append(p.description.as_str());
        output.push_stdout_line(l.as_str());
        proof {
            assert(output.stdout@ =~= start + parameter_lines(tool.parameters@, i + 1));
        }
        i = i + 1;
    }
    assert(output.stdout@ =~= old(output).stdout@ + tool_lines(*tool));
}

/// Prints one package with its tools and their parameters.
pub fn print_package_details(package: &PackageDetails, output: &mut CoreCommandOutput)
    ensures
        final(output).stdout@ == old(output).stdout@ + package_details_text(*package),
        final(output).stderr@ == old(output).stderr@,
{
    let l1 = concat("name=", package.name.as_str());
    output.push_stdout_line(l1.as_str());
    let l2 = concat("displayName=", package.display_name.as_str());
    output.push_stdout_line(l2.as_str());
    let l3 = concat("description=", package.description.as_str());
    output.push_stdout_line(l3.as_str());
    let l4 = concat("category=", package.category.as_str());
    output.push_stdout_line(l4.as_str());
    let l5 = concat("enabledByDefault=", bool_str(package.enabled_by_default));
    output.push_stdout_line(l5.as_str());
    let l6 = concat("isBuiltIn=", bool_str(package.is_built_in));
    output.push_stdout_line(l6.as_str());
    let n = crate::num::u64_to_string(package.tools.len() as u64);
    let l7 = concat("tools=", n.as_str());
    output.push_stdout_line(l7.as_str());
    let ghost start = output.stdout@;
    let mut i: usize = 0;
    while i < package.tools.len()
        invariant
            i <= package.tools.len(),
            output.stdout@ == start + tools_lines(package.tools@, i as int),
            output.stderr@ == old(output).stderr@,
        decreases package.tools.len() - i,
    {
        print_tool_details(&package.tools[i], output);
        proof {
            assert(output.stdout@ =~= start + tools_lines(package.tools@, i + 1));
        }
        i = i + 1;
    }
    assert(output.stdout@ =~= old(output).stdout@ + package_details_text(*package));
}

/// One input-menu toggle produced by the package bridge.
#[derive(Clone, Debug)]
pub struct InputMenuDefinition {
    pub id: String,
    pub title: Option<String>,
    pub is_checked: bool,
    pub is_enabled: bool,
    pub slot: Option<String>,
}

/// The id of the placeholder toggle shown while package hooks still load.
pub open spec fn loading_definition_id() -> Seq<char> {
    "toolpkg_input_menu_loading"@
}

/// Whether the bridge still reports its loading placeholder.
pub open spec fn input_menu_loading(ds: Seq<InputMenuDefinition>) -> bool {
    exists|i: int| 0 <= i < ds.len() && #[trigger] ds[i].id@ == loading_definition_id()
}

/// What the command does after asking the bridge for its toggles.
#[derive(Clone, Copy, Debug, PartialEq, Eq, Structural)]
pub enum InputMenuPoll {
    /// The toggles are final: print them.
    Ready,
    /// Hooks are still loading: wait a moment and ask again.
    Wait,
    /// Hooks are still loading and the deadline has passed.
    TimedOut,
}

/// The decision after one answer of the bridge, at time `now` against the
/// deadline (both in milliseconds).
pub open spec fn input_menu_poll(ds: Seq<InputMenuDefinition>, now: int, deadline: int) -> InputMenuPoll {
    if !input_menu_loading(ds) {
        InputMenuPoll::Ready
    } else if now >= deadline {
        InputMenuPoll::TimedOut
    } else {
        InputMenuPoll::Wait
    }
}

/// Decides what follows one answer of the input-menu bridge.
pub fn poll_input_menu(definitions: &Vec<InputMenuDefinition>, now_ms: u64, deadline_ms: u64) -> (r: InputMenuPoll)
    ensures
        r == input_menu_poll(definitions@, now_ms as int, deadline_ms as int),
{
    let mut i: usize = 0;
    let mut loading = false;
    while i < definitions.len()
        invariant
            i <= definitions.len(),
            loading == exists|k: int| 0 <= k < i && #[trigger] definitions@[k].id@ == loading_definition_id(),
        decreases definitions.len() - i,
    {
        if str_eq(definitions[i].id.as_str(), "toolpkg_input_menu_loading") {
            loading = true;
        }
        i = i + 1;
    }
    if !loading {
        InputMenuPoll::Ready
    } else if now_ms >= deadline_ms {
        InputMenuPoll::TimedOut
    } else {
        InputMenuPoll::Wait
    }
}

/// The error when package hooks never finish loading.
pub fn input_menu_timeout_message() -> (r: String)
    ensures
        r@ == "input-menu ToolPkg hooks did not finish loading within 10 seconds"@,
{
    String::from_str("input-menu ToolPkg hooks did not finish loading within 10 seconds")
}

/// The listing row of one input-menu toggle.
pub open spec fn input_menu_row(d: InputMenuDefinition) -> Seq<char> {
    d.id@ + "\ttitle="@ + (match opt_view(d.title) { Some(t) => t, None => Seq::empty() }) + "\tchecked="@
        + bool_text(d.is_checked) + "\tenabled="@ + bool_text(d.is_enabled) + "\tslot="@
        + (match opt_view(d.slot) { Some(t) => t, None => Seq::empty() })
}

/// Prints the input-menu toggles, one row each.
pub fn print_input_menu_definitions(definitions: &Vec<InputMenuDefinition>, output: &mut CoreCommandOutput)
    ensures
        final(output).stdout@ == old(output).stdout@
            + crate::output::lines_text(definitions@.map_values(|d: InputMenuDefinition| input_menu_row(d))),
        final(output).stderr@ == old(output).stderr@,
{
    let mut rows: Vec<String> = Vec::new();
    let mut i: usize = 0;
    while i < definitions.len()
        invariant
            i <= definitions.len(),
            views(rows@) =~= definitions@.subrange(0, i as int).map_values(|d: InputMenuDefinition| input_menu_row(d)),
        decreases definitions.len() - i,
    {
        let d = &definitions[i];
        let mut r = d.id.clone();
        r.append("\ttitle=");
        match &d.title {
            Some(t) => r.append(t.as_str()),
            None => {},
        }
        r.append("\tchecked=");
        r.append(bool_str(d.is_checked));
        r.append("\tenabled=");
        r.append(bool_str(d.is_enabled));
        r.append("\tslot=");
        match &d.slot {
            Some(t) => r.append(t.as_str()),
            None => {},
        }
        let ghost prev = views(rows@);
        rows.push(r);
        proof {
            assert(views(rows@) =~= prev.push(input_menu_row(definitions@[i as int])));
            assert(definitions@.subrange(0, i + 1).map_values(|d: InputMenuDefinition| input_menu_row(d))
                =~= definitions@.subrange(0, i as int).map_values(|d: InputMenuDefinition| input_menu_row(d)).push(input_menu_row(definitions@[i as int])));
        }
        i = i + 1;
    }
    assert(definitions@.subrange(0, definitions.len() as int) =~= definitions@);
    output.push_stdout_lines(&rows);
}

} // verus!
