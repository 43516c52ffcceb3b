//! The publication requests of `market publish`: what each one sends, read
//! from its arguments once the file-or-text arguments have been read.
use vstd::prelude::*;
use crate::commands::market::{
    market_bool_word, market_parse_bool_arg, optional_value, parse_optional_bool_arg, parse_optional_string,
    parse_optional_string_arg,
};
use crate::model::opt_view;
use crate::text::{is_blank, trim, views};

verus! {

/// What a boolean argument reads as, or the error it gives.
pub open spec fn bool_arg(s: Seq<char>) -> Result<bool, Seq<char>> {
    match market_bool_word(s) {
        Some(b) => Ok(b),
        None => Err("invalid bool: "@ + trim(s)),
    }
}

/// What an optional boolean argument (absent, blank or `-` for none) reads
/// as, or the error it gives.
pub open spec fn optional_bool_arg(v: Option<Seq<char>>) -> Result<Option<bool>, Seq<char>> {
    match v {
        None => Ok(None),
        Some(s) => match optional_value(s) {
            None => Ok(None),
            Some(t) => match market_bool_word(t) {
                Some(b) => Ok(Some(b)),
                None => Err("invalid bool: "@ + trim(t)),
            },
        },
    }
}

/// The optional text argument at a position that may be missing.
pub open spec fn optional_at(a: Seq<String>, j: int) -> Option<Seq<char>> {
    if j < a.len() { optional_value(a[j]@) } else { None }
}

/// A new artifact entry with its first version.
#[derive(Clone, Debug)]
pub struct ArtifactPublication {
    pub entry_type: String,
    pub title: String,
    pub description: String,
    pub detail: String,
    pub category_id: String,
    pub allow_public_updates: bool,
    pub version: String,
    pub format_ver: String,
    pub min_app_ver: String,
    pub max_app_ver: Option<String>,
    pub changelog: Option<String>,
    pub project_id: String,
    pub runtime_package_id: String,
    pub asset_kind: String,
    pub asset_url: String,
    pub gh_owner: String,
    pub gh_repo: String,
    pub gh_release_tag: String,
    pub asset_name: String,
    pub sha256: String,
}

/// An artifact publication carries its arguments in order, the contents read
/// from the file-or-text arguments, and the optional maximum app version.
pub open spec fn artifact_publication_of(p: ArtifactPublication, a: Seq<String>, description: String, detail: String, changelog: Option<String>) -> bool {
    &&& p.entry_type == a[0]
    &&& p.title == a[1]
    &&& p.description == description
    &&& p.detail == detail
    &&& p.category_id == a[4]
    &&& bool_arg(a[5]@) == Ok::<bool, Seq<char>>(p.allow_public_updates)
    &&& p.version == a[6]
    &&& p.format_ver == a[7]
    &&& p.min_app_ver == a[8]
    &&& opt_view(p.max_app_ver) == optional_value(a[9]@)
    &&& p.changelog == changelog
    &&& p.project_id == a[11]
    &&& p.runtime_package_id == a[12]
    &&& p.asset_kind == a[13]
    &&& p.asset_url == a[14]
    &&& p.gh_owner == a[15]
    &&& p.gh_repo == a[16]
    &&& p.gh_release_tag == a[17]
    &&& p.asset_name == a[18]
    &&& p.sha256 == a[19]
}

/// Builds a new artifact entry from the arguments of `market publish
/// artifact`, with the description, detail and (optional) changelog already
/// read; the flag allowing public updates must be a boolean word.
pub fn artifact_publication(args: &Vec<String>, description: String, detail: String, changelog: Option<String>) -> (r: Result<ArtifactPublication, String>)
    requires
        args.len() >= 20,
    ensures
        match r {
            Ok(p) => artifact_publication_of(p, args@, description, detail, changelog),
            Err(e) => bool_arg(args@[5]@) == Err::<bool, Seq<char>>(e@),
        },
{
    let allow = match market_parse_bool_arg(args[5].as_str()) {
        Ok(b) => b,
        Err(e) => return Err(e),
    };
    Ok(ArtifactPublication {
        entry_type: args[0].clone(),
        title: args[1].clone(),
        description,
        detail,
        category_id: args[4].clone(),
        allow_public_updates: allow,
        version: args[6].clone(),
        format_ver: args[7].clone(),
        min_app_ver: args[8].clone(),
        max_app_ver: parse_optional_string(args[9].as_str()),
        changelog,
        project_id: args[11].clone(),
        runtime_package_id: args[12].clone(),
        asset_kind: args[13].clone(),
        asset_url: args[14].clone(),
        gh_owner: args[15].clone(),
        gh_repo: args[16].clone(),
        gh_release_tag: args[17].clone(),
        asset_name: args[18].clone(),
        sha256: args[19].clone(),
    })
}

/// A new repository entry with its first version. Its changelog argument is
/// read after the request is checked, so it is carried as given.
#[derive(Clone, Debug)]
pub struct RepoPublication {
    pub entry_type: String,
    pub title: String,
    pub description: String,
    pub detail: String,
    pub category_id: String,
    pub allow_public_updates: bool,
    pub source_url: String,
    pub ref_type: String,
    pub ref_name: String,
    pub install_config: String,
    pub version: String,
    pub format_ver: String,
    pub min_app_ver: String,
    pub max_app_ver: Option<String>,
    /// The file-or-text argument of the changelog, when one is given.
    pub changelog_arg: Option<String>,
}

/// A repository publication carries its arguments in order and the contents
/// already read.
pub open spec fn repo_publication_of(p: RepoPublication, a: Seq<String>, description: String, detail: String, install_config: String) -> bool {
    &&& p.entry_type == a[0]
    &&& p.title == a[1]
    &&& p.description == description
    &&& p.detail == detail
    &&& p.category_id == a[4]
    &&& bool_arg(a[5]@) == Ok::<bool, Seq<char>>(p.allow_public_updates)
    &&& p.source_url == a[6]
    &&& p.ref_type == a[7]
    &&& p.ref_name == a[8]
    &&& p.install_config == install_config
    &&& p.version == a[10]
    &&& p.format_ver == a[11]
    &&& p.min_app_ver == a[12]
    &&& opt_view(p.max_app_ver) == optional_value(a[13]@)
    &&& opt_view(p.changelog_arg) == optional_at(a, 14)
}

/// Builds a new repository entry from the arguments of `market publish
/// repo`, with the description, detail and install configuration already
/// read; the flag allowing public updates must be a boolean word.
pub fn repo_publication(args: &Vec<String>, description: String, detail: String, install_config: String) -> (r: Result<RepoPublication, String>)
    requires
        args.len() >= 14,
    ensures
        match r {
            Ok(p) => repo_publication_of(p, args@, description, detail, install_config),
            Err(e) => bool_arg(args@[5]@) == Err::<bool, Seq<char>>(e@),
        },
{
    let allow = match market_parse_bool_arg(args[5].as_str()) {
        Ok(b) => b,
        Err(e) => return Err(e),
    };
    let changelog_arg = if args.len() > 14 { parse_optional_string(args[14].as_str()) } else { None };
    Ok(RepoPublication {
        entry_type: args[0].clone(),
        title: args[1].clone(),
        description,
        detail,
        category_id: args[4].clone(),
        allow_public_updates: allow,
        source_url: args[6].clone(),
        ref_type: args[7].clone(),
        ref_name: args[8].clone(),
        install_config,
        version: args[10].clone(),
        format_ver: args[11].clone(),
        min_app_ver: args[12].clone(),
        max_app_ver: parse_optional_string(args[13].as_str()),
        changelog_arg,
    })
}

/// Entry fields that a new version may change as well.
#[derive(Clone, Debug)]
pub struct EntryChanges {
    pub title: Option<String>,
    pub description: Option<String>,
    pub detail: Option<String>,
    pub category_id: Option<String>,
    pub allow_public_updates: Option<bool>,
}

/// A new version of an artifact entry.
#[derive(Clone, Debug)]
pub struct ArtifactVersionPublication {
    pub entry_id: String,
    pub version: String,
    pub format_ver: String,
    pub min_app_ver: String,
    pub max_app_ver: Option<String>,
    pub changelog: Option<String>,
    pub project_id: String,
    pub runtime_package_id: String,
    pub asset_kind: String,
    pub asset_url: String,
    pub gh_owner: String,
    pub gh_repo: String,
    pub gh_release_tag: String,
    pub asset_name: String,
    pub sha256: String,
    pub entry: EntryChanges,
}

/// The entry changes read from the arguments from position `j` on (title,
/// description, detail, category, public-updates flag), with the description
/// and detail already read.
pub open spec fn entry_changes_of(c: EntryChanges, a: Seq<String>, j: int, description: Option<String>, detail: Option<String>) -> bool {
    &&& opt_view(c.title) == optional_at(a, j)
    &&& c.description == description
    &&& c.detail == detail
    &&& opt_view(c.category_id) == optional_at(a, j + 3)
    &&& optional_bool_arg(if j + 4 < a.len() { Some(a[j + 4]@) } else { None }) == Ok::<Option<bool>, Seq<char>>(c.allow_public_updates)
}

/// The optional argument at a position, as `args.get(j)` gives it.
fn arg_get(args: &Vec<String>, j: usize) -> (r: Option<&String>)
    ensures
        match r {
            Some(s) => j < args.len() && *s == args@[j as int],
            None => j >= args.len(),
        },
{
    if j < args.len() { Some(&args[j]) } else { None }
}

/// Reads the entry changes from position `j` on.
fn entry_changes(args: &Vec<String>, j: usize, description: Option<String>, detail: Option<String>) -> (r: Result<EntryChanges, String>)
    requires
        j + 4 < usize::MAX,
    ensures
        match r {
            Ok(c) => entry_changes_of(c, args@, j as int, description, detail),
            Err(e) => optional_bool_arg(if j + 4 < args.len() { Some(args@[j + 4]@) } else { None })
                == Err::<Option<bool>, Seq<char>>(e@),
        },
{
    let allow = match parse_optional_bool_arg(arg_get(args, j + 4)) {
        Ok(b) => b,
        Err(e) => return Err(e),
    };
    Ok(EntryChanges {
        title: parse_optional_string_arg(arg_get(args, j)),
        description,
        detail,
        category_id: parse_optional_string_arg(arg_get(args, j + 3)),
        allow_public_updates: allow,
    })
}

/// An artifact version carries its arguments in order, the contents read
/// and the entry changes.
pub open spec fn artifact_version_of(p: ArtifactVersionPublication, a: Seq<String>, changelog: Option<String>, description: Option<String>, detail: Option<String>) -> bool {
    &&& p.entry_id == a[0]
    &&& p.version == a[1]
    &&& p.format_ver == a[2]
    &&& p.min_app_ver == a[3]
    &&& opt_view(p.max_app_ver) == optional_value(a[4]@)
    &&& p.changelog == changelog
    &&& p.project_id == a[6]
    &&& p.runtime_package_id == a[7]
    &&& p.asset_kind == a[8]
    &&& p.asset_url == a[9]
    &&& p.gh_owner == a[10]
    &&& p.gh_repo == a[11]
    &&& p.gh_release_tag == a[12]
    &&& p.asset_name == a[13]
    &&& p.sha256 == a[14]
    &&& entry_changes_of(p.entry, a, 15, description, detail)
}

/// The error of an optional boolean argument at a position, if it has one.
pub open spec fn flag_error(a: Seq<String>, j: int) -> Option<Seq<char>> {
    match optional_bool_arg(if j < a.len() { Some(a[j]@) } else { None }) {
        Err(e) => Some(e),
        Ok(_) => None,
    }
}

/// Builds a new artifact version from the arguments of `market publish
/// version artifact`, with the optional changelog and entry description and
/// detail already read; the optional public-updates flag must be a boolean
/// word when it is given.
pub fn artifact_version_publication(args: &Vec<String>, changelog: Option<String>, description: Option<String>, detail: Option<String>) -> (r: Result<ArtifactVersionPublication, String>)
    requires
        args.len() >= 15,
    ensures
        match r {
            Ok(p) => artifact_version_of(p, args@, changelog, description, detail),
            Err(e) => flag_error(args@, 19) == Some(e@),
        },
{
    let entry = match entry_changes(args, 15, description, detail) {
        Ok(c) => c,
        Err(e) => return Err(e),
    };
    Ok(ArtifactVersionPublication {
        entry_id: args[0].clone(),
        version: args[1].clone(),
        format_ver: args[2].clone(),
        min_app_ver: args[3].clone(),
        max_app_ver: parse_optional_string(args[4].as_str()),
        changelog,
        project_id: args[6].clone(),
        runtime_package_id: args[7].clone(),
        asset_kind: args[8].clone(),
        asset_url: args[9].clone(),
        gh_owner: args[10].clone(),
        gh_repo: args[11].clone(),
        gh_release_tag: args[12].clone(),
        asset_name: args[13].clone(),
        sha256: args[14].clone(),
        entry,
    })
}

/// A new version of a repository entry.
#[derive(Clone, Debug)]
pub struct RepoVersionPublication {
    pub entry_id: String,
    pub version: String,
    pub format_ver: String,
    pub min_app_ver: String,
    pub max_app_ver: Option<String>,
    pub changelog: Option<String>,
    pub ref_type: String,
    pub ref_name: String,
    pub install_config: String,
    pub entry: EntryChanges,
}

/// A repository version carries its arguments in order, the contents read
/// and the entry changes.
pub open spec fn repo_version_of(p: RepoVersionPublication, a: Seq<String>, install_config: String, changelog: Option<String>, description: Option<String>, detail: Option<String>) -> bool {
    &&& p.entry_id == a[0]
    &&& p.version == a[1]
    &&& p.format_ver == a[2]
    &&& p.min_app_ver == a[3]
    &&& opt_view(p.max_app_ver) == optional_value(a[4]@)
    &&& p.changelog == changelog
    &&& p.ref_type == a[6]
    &&& p.ref_name == a[7]
    &&& p.install_config == install_config
    &&& entry_changes_of(p.entry, a, 9, description, detail)
}

/// Builds a new repository version from the arguments of `market publish
/// version repo`, with the install configuration, the optional changelog and
/// the entry description and detail already read.
pub fn repo_version_publication(args: &Vec<String>, install_config: String, changelog: Option<String>, description: Option<String>, detail: Option<String>) -> (r: Result<RepoVersionPublication, String>)
    requires
        args.len() >= 9,
    ensures
        match r {
            Ok(p) => repo_version_of(p, args@, install_config, changelog, description, detail),
            Err(e) => flag_error(args@, 13) == Some(e@),
        },
{
    let entry = match entry_changes(args, 9, description, detail) {
        Ok(c) => c,
        Err(e) => return Err(e),
    };
    Ok(RepoVersionPublication {
        entry_id: args[0].clone(),
        version: args[1].clone(),
        format_ver: args[2].clone(),
        min_app_ver: args[3].clone(),
        max_app_ver: parse_optional_string(args[4].as_str()),
        changelog,
        ref_type: args[6].clone(),
        ref_name: args[7].clone(),
        install_config,
        entry,
    })
}

/// Changes to an entry's own fields.
#[derive(Clone, Debug)]
pub struct EntryUpdate {
    pub entry_id: String,
    pub changes: EntryChanges,
}

/// Builds an entry update from the arguments of `market publish
/// update-entry`, with the optional description and detail already read.
pub fn entry_update(args: &Vec<String>, description: Option<String>, detail: Option<String>) -> (r: Result<EntryUpdate, String>)
    requires
        args.len() >= 6,
    ensures
        match r {
            Ok(u) => u.entry_id == args@[0] && entry_changes_of(u.changes, args@, 1, description, detail),
            Err(e) => flag_error(args@, 5) == Some(e@),
        },
{
    let changes = match entry_changes(args, 1, description, detail) {
        Ok(c) => c,
        Err(e) => return Err(e),
    };
    Ok(EntryUpdate { entry_id: args[0].clone(), changes })
}

/// The lines reporting a publication: whether it was accepted and the entry,
/// then the new version's id when there is one.
pub open spec fn publish_report(ok: bool, entry_id: Seq<char>, version_id: Seq<char>) -> Seq<Seq<char>> {
    seq!["published ok="@ + crate::commands::chat::bool_text(ok) + " entry="@ + entry_id]
        + if trim(version_id).len() == 0 { Seq::empty() } else { seq!["version_id="@ + version_id] }
}

/// Reports the answer to a publication.
pub fn publish_report_lines(ok: bool, entry_id: &str, version_id: &str) -> (r: Vec<String>)
    ensures
        views(r@) == publish_report(ok, entry_id@, version_id@),
{
    let mut first = String::from_str("published ok=");
    first.append(crate::commands::chat::bool_str(ok));
    first.append(" entry=");
    first.append(entry_id);
    let mut lines: Vec<String> = Vec::new();
    lines.push(first);
    if !is_blank(version_id) {
        let mut v = String::from_str("version_id=");
        v.append(version_id);
        lines.push(v);
    }
    assert(views(lines@) =~= publish_report(ok, entry_id@, version_id@));
    lines
}

/// The lines reporting an entry update: whether it was accepted and the
/// entry, then its state.
pub fn update_report_lines(ok: bool, entry_id: &str, state_code: &str) -> (r: Vec<String>)
    ensures
        views(r@) == seq![
            "updated ok="@ + crate::commands::chat::bool_text(ok) + " entry="@ + entry_id@,
            "state="@ + state_code@,
        ],
{
    let mut first = String::from_str("updated ok=");
    first.append(crate::commands::chat::bool_str(ok));
    first.append(" entry=");
    first.append(entry_id);
    let mut second = String::from_str("state=");
    second.append(state_code);
    let mut lines: Vec<String> = Vec::new();
    lines.push(first);
    lines.push(second);
    assert(views(lines@) =~= seq![
        "updated ok="@ + crate::commands::chat::bool_text(ok) + " entry="@ + entry_id@,
        "state="@ + state_code@,
    ]);
    lines
}

} // verus!
