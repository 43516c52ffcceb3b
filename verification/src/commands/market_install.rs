//! Installing a marketplace entry: which asset an artifact installation
//! downloads, what each entry type installs, and how the importer's answer
//! and the temporary file name are judged.
use vstd::prelude::*;
use crate::commands::market::{app_version_check, ensure_entry_app_version_supported, login_or_empty, login_text,
    sanitize_id, sanitized_id, MarketEntryAsset, MarketEntrySummary,
};
use crate::model::opt_view;
use crate::num::{decimal, i64_to_string};
use crate::text::{ascii_lower_seq, chars_of, concat, has_prefix, is_blank, non_blank, starts_with, str_eq,
    to_ascii_lowercase, trim, trim_string,
};

verus! {

/// The trimmed text of an optional argument, when it is not blank.
pub open spec fn requested(version_id: Option<Seq<char>>) -> Option<Seq<char>> {
    match version_id {
        Some(v) => non_blank(v),
        None => None,
    }
}

/// The version whose asset an artifact installation downloads: the requested
/// one, else the id of the latest version when that id is not blank.
pub open spec fn artifact_version_id(entry: MarketEntrySummary, version_id: Option<Seq<char>>) -> Option<Seq<char>> {
    match requested(version_id) {
        Some(v) => Some(v),
        None => match entry.latest_version {
            Some(l) => if trim(l.id@).len() == 0 { None } else { Some(l.id@) },
            None => None,
        },
    }
}

/// Whether an asset can be downloaded for the given version (any version
/// when none is given): its id is not blank and it belongs to that version.
pub open spec fn asset_fits(a: MarketEntryAsset, version: Option<Seq<char>>) -> bool {
    trim(a.id@).len() > 0 && match version {
        Some(v) => a.version_id@ == v,
        None => true,
    }
}

/// Index of the first asset that fits the version.
pub open spec fn first_fitting_asset(assets: Seq<MarketEntryAsset>, version: Option<Seq<char>>) -> Option<int>
    decreases assets.len(),
{
    if assets.len() == 0 {
        None
    } else if asset_fits(assets[0], version) {
        Some(0)
    } else {
        match first_fitting_asset(assets.drop_first(), version) {
            Some(k) => Some(k + 1),
            None => None,
        }
    }
}

/// The asset that installing an artifact entry downloads, or why there is none.
pub open spec fn artifact_asset(entry: MarketEntrySummary, version_id: Option<Seq<char>>) -> Result<MarketEntryAsset, Seq<char>> {
    match entry.artifact {
        None => Err("entry is not an artifact"@),
        Some(_) => {
            let v = artifact_version_id(entry, version_id);
            match first_fitting_asset(entry.assets@, v) {
                Some(k) => Ok(entry.assets@[k]),
                None => match v {
                    Some(id) => Err("entry has no downloadable asset for version: "@ + id),
                    None => Err("entry has no downloadable asset"@),
                },
            }
        },
    }
}

/// A found index lies inside the sequence and its asset fits.
proof fn lemma_first_fitting_asset(assets: Seq<MarketEntryAsset>, version: Option<Seq<char>>)
    ensures
        first_fitting_asset(assets, version) matches Some(k) ==> 0 <= k < assets.len() && asset_fits(assets[k], version),
    decreases assets.len(),
{
    if assets.len() > 0 && !asset_fits(assets[0], version) {
        lemma_first_fitting_asset(assets.drop_first(), version);
    }
}

/// The asset an artifact installation downloads is one of the entry's
/// assets, has a non-blank id, and belongs to the requested version (or, with
/// no request, to the latest version when that has an id).
pub proof fn law_installed_asset_is_downloadable(entry: MarketEntrySummary, version_id: Option<Seq<char>>)
    ensures
        artifact_asset(entry, version_id) matches Ok(a) ==> {
            &&& entry.assets@.contains(a)
            &&& trim(a.id@).len() > 0
            &&& (artifact_version_id(entry, version_id) matches Some(v) ==> a.version_id@ == v)
        },
{
    lemma_first_fitting_asset(entry.assets@, artifact_version_id(entry, version_id));
    if let Ok(a) = artifact_asset(entry, version_id) {
        let k = first_fitting_asset(entry.assets@, artifact_version_id(entry, version_id)).unwrap();
        assert(entry.assets@[k] == a);
    }
}

/// The view of an optional string argument.
pub open spec fn opt_str(o: Option<&str>) -> Option<Seq<char>> {
    match o {
        Some(s) => Some(s@),
        None => None,
    }
}

/// The version id that an artifact installation asks for.
fn artifact_version_choice(entry: &MarketEntrySummary, version_id: Option<&str>) -> (r: Option<String>)
    ensures
        match r {
            Some(s) => artifact_version_id(*entry, opt_str(version_id)) == Some(s@),
            None => artifact_version_id(*entry, opt_str(version_id)) is None,
        },
{
    let req = match version_id {
        Some(v) => {
            let t = trim_string(v);
            if t.as_str().is_empty() { None } else { Some(t) }
        },
        None => None,
    };
    match req {
        Some(t) => Some(t),
        None => match &entry.latest_version {
            Some(l) => if is_blank(l.id.as_str()) { None } else { Some(l.id.clone()) },
            None => None,
        },
    }
}

/// Picks the asset that installing an artifact entry downloads: the first
/// one with a non-blank id that belongs to the requested version (or, with
/// no request, to the latest version when its id is not blank; with
/// neither, the first one with a non-blank id).
pub fn select_artifact_asset<'a>(entry: &'a MarketEntrySummary, version_id: Option<&str>) -> (r: Result<&'a MarketEntryAsset, String>)
    ensures
        match r {
            Ok(a) => artifact_asset(*entry, opt_str(version_id)) == Ok::<_, Seq<char>>(*a),
            Err(e) => artifact_asset(*entry, opt_str(version_id)) == Err::<MarketEntryAsset, _>(e@),
        },
{
    if entry.artifact.is_none() {
        return Err(String::from_str("entry is not an artifact"));
    }
    let choice = artifact_version_choice(entry, version_id);
    let ghost v = artifact_version_id(*entry, opt_str(version_id));
    let n = entry.assets.len();
    let mut i: usize = 0;
    assert(entry.assets@.subrange(0, n as int) =~= entry.assets@);
    while i < n
        invariant
            n == entry.assets.len(),
            i <= n,
            entry.artifact is Some,
            v == artifact_version_id(*entry, opt_str(version_id)),
            match choice { Some(s) => v == Some(s@), None => v is None },
            first_fitting_asset(entry.assets@, v) == match first_fitting_asset(entry.assets@.subrange(i as int, n as int), v) {
                Some(k) => Some(k + i),
                None => None::<int>,
            },
        decreases n - i,
    {
        let ghost rest = entry.assets@.subrange(i as int, n as int);
        assert(rest[0] == entry.assets@[i as int]);
        assert(rest.drop_first() =~= entry.assets@.subrange(i + 1, n as int));
        let a = &entry.assets[i];
        let fits = !is_blank(a.id.as_str()) && match &choice {
            Some(s) => str_eq(a.version_id.as_str(), s.as_str()),
            None => true,
        };
        if fits {
            assert(asset_fits(rest[0], v));
            assert(first_fitting_asset(rest, v) == Some(0int));
            return Ok(a);
        }
        i = i + 1;
    }
    assert(entry.assets@.subrange(n as int, n as int).len() == 0);
    match choice {
        Some(s) => Err(concat("entry has no downloadable asset for version: ", s.as_str())),
        None => Err(String::from_str("entry has no downloadable asset")),
    }
}

/// The source repository of an entry, when its url is not blank.
pub open spec fn source_url_of(entry: MarketEntrySummary) -> Option<Seq<char>> {
    match entry.source_url {
        Some(u) => if trim(u@).len() == 0 { None } else { Some(u@) },
        None => None,
    }
}

/// Why an installation cannot go ahead, if it cannot: the client version is
/// refused, the entry lacks what its type needs, or its type is unknown.
pub open spec fn install_refusal(entry: MarketEntrySummary, client: Seq<char>, version_id: Option<Seq<char>>) -> Option<Seq<char>> {
    match app_version_check(entry, client, version_id) {
        Err(e) => Some(e),
        Ok(_) => {
            let t = entry.entry_type@;
            if t == "skill"@ {
                if source_url_of(entry) is None { Some("skill entry has no source url"@) } else { None }
            } else if t == "mcp"@ {
                if source_url_of(entry) is None { Some("mcp entry has no source url"@) } else { None }
            } else if t == "package"@ || t == "script"@ {
                match artifact_asset(entry, version_id) {
                    Err(e) => Some(e),
                    Ok(_) => None,
                }
            } else {
                Some("unknown market type: "@ + t)
            }
        },
    }
}

/// What installing a marketplace entry does.
#[derive(Debug)]
pub enum MarketInstallPlan {
    /// Import a skill from its source repository.
    Skill { source_url: String },
    /// Install an MCP server from its source repository under a plugin id
    /// derived from the title, with the entry's metadata.
    Mcp { plugin_id: String, source_url: String, name: String, description: String, author: String, version: String },
    /// Download one asset, check its digest and import it as a package.
    Artifact { asset: MarketEntryAsset },
}

/// Whether a plan is the one the entry's type calls for.
pub open spec fn plan_follows(p: MarketInstallPlan, entry: MarketEntrySummary, version_id: Option<Seq<char>>) -> bool {
    match p {
        MarketInstallPlan::Skill { source_url } =>
            entry.entry_type@ == "skill"@ && source_url_of(entry) == Some(source_url@),
        MarketInstallPlan::Mcp { plugin_id, source_url, name, description, author, version } =>
            entry.entry_type@ == "mcp"@ && source_url_of(entry) == Some(source_url@)
                && sanitized_id(entry.title@, plugin_id@) && name@ == entry.title@
                && description@ == entry.description@ && author@ == login_or_empty(entry.author)
                && version@ == "1.0.0"@,
        MarketInstallPlan::Artifact { asset } =>
            (entry.entry_type@ == "package"@ || entry.entry_type@ == "script"@)
                && artifact_asset(entry, version_id) == Ok::<_, Seq<char>>(asset),
    }
}

/// A copy of an asset.
fn copy_asset(a: &MarketEntryAsset) -> (r: MarketEntryAsset)
    ensures
        r == *a,
{
    MarketEntryAsset {
        id: a.id.clone(),
        version_id: a.version_id.clone(),
        kind: a.kind.clone(),
        url: a.url.clone(),
        sha256: a.sha256.clone(),
        asset_name: match &a.asset_name {
            Some(n) => Some(n.clone()),
            None => None,
        },
    }
}

/// The entry's source url, when it is not blank.
fn entry_source_url(entry: &MarketEntrySummary) -> (r: Option<String>)
    ensures
        match r {
            Some(u) => source_url_of(*entry) == Some(u@),
            None => source_url_of(*entry) is None,
        },
{
    match &entry.source_url {
        Some(u) => if is_blank(u.as_str()) { None } else { Some(u.clone()) },
        None => None,
    }
}

/// Decides how a fetched marketplace entry is installed: the client version
/// must be supported by the selected version, then skills and MCP servers
/// install from their source repository and packages and scripts from one
/// downloaded asset.
pub fn plan_market_install(entry: &MarketEntrySummary, client_app_version: &str, version_id: Option<&str>) -> (r: Result<MarketInstallPlan, String>)
    ensures
        match r {
            Ok(p) => install_refusal(*entry, client_app_version@, opt_str(version_id)) is None
                && plan_follows(p, *entry, opt_str(version_id)),
            Err(e) => install_refusal(*entry, client_app_version@, opt_str(version_id)) == Some(e@),
        },
{
    match ensure_entry_app_version_supported(entry, client_app_version, version_id) {
        Ok(_) => {},
        Err(e) => return Err(e),
    }
    let t = entry.entry_type.as_str();
    if str_eq(t, "skill") {
        match entry_source_url(entry) {
            Some(u) => Ok(MarketInstallPlan::Skill { source_url: u }),
            None => Err(String::from_str("skill entry has no source url")),
        }
    } else if str_eq(t, "mcp") {
        match entry_source_url(entry) {
            Some(u) => Ok(MarketInstallPlan::Mcp {
                plugin_id: sanitize_id(entry.title.as_str()),
                source_url: u,
                name: entry.title.clone(),
                description: entry.description.clone(),
                author: login_text(&entry.author),
                version: String::from_str("1.0.0"),
            }),
            None => Err(String::from_str("mcp entry has no source url")),
        }
    } else if str_eq(t, "package") || str_eq(t, "script") {
        match select_artifact_asset(entry, version_id) {
            Ok(a) => Ok(MarketInstallPlan::Artifact { asset: copy_asset(a) }),
            Err(e) => Err(e),
        }
    } else {
        Err(concat("unknown market type: ", t))
    }
}

/// Whether the package importer reported success: its answer, in ASCII
/// lowercase, starts with "successfully imported".
pub open spec fn import_succeeded(result: Seq<char>) -> bool {
    has_prefix(ascii_lower_seq(result), "successfully imported"@)
}

/// Judges the package importer's answer: a success is handed back to be
/// printed, anything else is the installation's error.
pub fn market_import_outcome(result: String) -> (r: Result<String, String>)
    ensures
        match r {
            Ok(s) => import_succeeded(result@) && s@ == result@,
            Err(e) => !import_succeeded(result@) && e@ == result@,
        },
{
    let lower = to_ascii_lowercase(result.as_str());
    if starts_with(lower.as_str(), "successfully imported") {
        Ok(result)
    } else {
        Err(result)
    }
}

/// Whether `c` occurs in `s`.
fn has_char(s: &str, c: char) -> (r: bool)
    ensures
        r == s@.contains(c),
{
    let v = chars_of(s);
    let mut i: usize = 0;
    while i < v.len()
        invariant
            i <= v.len(),
            v@ == s@,
            forall|k: int| 0 <= k < i ==> v@[k] != c,
        decreases v.len() - i,
    {
        if v[i] == c {
            assert(s@[i as int] == c);
            return true;
        }
        i = i + 1;
    }
    false
}

/// The name of the temporary file a downloaded asset is written to, which
/// keeps the published asset name (and so its extension), or why there is
/// none: the name is missing or blank, or holds a path separator.
pub open spec fn asset_temp_name(asset_name: Option<Seq<char>>, millis: int) -> Result<Seq<char>, Seq<char>> {
    match requested(asset_name) {
        None => Err("market asset name is missing"@),
        Some(n) => if n.contains('/') || n.contains('\\') {
            Err("market asset name must not contain a path"@)
        } else {
            Ok("operit_market_"@ + decimal(millis) + "_"@ + n)
        },
    }
}

/// Names the temporary file for one verified market asset, stamped with the
/// current time in milliseconds.
pub fn market_asset_temp_name(asset: &MarketEntryAsset, millis: i64) -> (r: Result<String, String>)
    ensures
        match r {
            Ok(s) => asset_temp_name(opt_view(asset.asset_name), millis as int) == Ok::<_, Seq<char>>(s@),
            Err(e) => asset_temp_name(opt_view(asset.asset_name), millis as int) == Err::<Seq<char>, _>(e@),
        },
{
    let name = match &asset.asset_name {
        Some(n) => {
            let t = trim_string(n.as_str());
            if t.as_str().is_empty() { None } else { Some(t) }
        },
        None => None,
    };
    match name {
        None => Err(String::from_str("market asset name is missing")),
        Some(n) => {
            if has_char(n.as_str(), '/') || has_char(n.as_str(), '\\') {
                return Err(String::from_str("market asset name must not contain a path"));
            }
            let stamp = i64_to_string(millis);
            let mut r = String::from_str("operit_market_");
            r.append(stamp.as_str());
            r.append("_");
            r.append(n.as_str());
            Ok(r)
        },
    }
}

} // verus!
