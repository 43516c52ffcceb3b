//! The `market` command: argument readers, version compatibility and the
//! digest check of downloaded assets.
use vstd::prelude::*;
use sha2::{Digest, Sha256};
use crate::model::opt_view;
use crate::num::{decimal, i64_to_string, int_error_message, int_error_text, nat_digits, parse_i32, parse_int, parse_u64};
use crate::commands::chat::arg_at;
use crate::output::{line, CoreCommandOutput};
use crate::text::{split_char, split_on, views, 
    ascii_lower_seq, chars_of, concat, is_ascii_alnum, ascii_alnum, push_char, str_eq, string_of_range,
    to_ascii_lowercase, trim, trim_bounds, trim_string,
};

verus! {

/// Integer division rounding toward zero, as Rust's `/` does.
pub open spec fn trunc_div(a: int, b: int) -> int {
    if a >= 0 { a / b } else { -((-a) / b) }
}

/// Number of market pages needed for `total` entries.
pub open spec fn total_pages(total: int, page_size: int) -> int {
    let q = trunc_div(total + page_size - 1, page_size);
    if q < 1 { 1 } else { q }
}

/// Computes how many pages hold `total` entries; a non-positive page size is refused.
pub fn market_total_pages(total: i32, page_size: i32) -> (r: Result<i32, String>)
    requires
        page_size > 0 ==> total + page_size - 1 <= i32::MAX,
    ensures
        match r {
            Ok(n) => page_size > 0 && n == total_pages(total as int, page_size as int),
            Err(e) => page_size <= 0 && e@ == "invalid market page_size: "@ + decimal(page_size as int),
        },
{
    if page_size <= 0 {
        let mut e = String::from_str("invalid market page_size: ");
        e.append(i64_to_string(page_size as i64).as_str());
        return Err(e);
    }
    let q = (total + (page_size - 1)) / page_size;
    if q < 1 { Ok(1) } else { Ok(q) }
}

/// Replaces every character other than an ASCII letter, digit or `_` by `_`.
pub open spec fn sanitize_char(c: char) -> char {
    if is_ascii_alnum(c) || c == '_' { c } else { '_' }
}

/// Whether every character of `s` in `[lo, hi)` is `_`.
pub open spec fn all_underscore(s: Seq<char>, lo: int, hi: int) -> bool {
    forall|k: int| lo <= k < hi ==> s[k] == '_'
}

/// The identifier `sanitize_id` derives from a title: sanitized characters
/// with leading and trailing underscores removed.
pub open spec fn sanitized_id(title: Seq<char>, r: Seq<char>) -> bool {
    let m = title.map_values(|c: char| sanitize_char(c));
    exists|a: int, b: int| 0 <= a <= b <= m.len()
        && all_underscore(m, 0, a) && all_underscore(m, b, m.len() as int)
        && (a < b ==> m[a] != '_' && m[b - 1] != '_')
        && r == m.subrange(a, b)
}

/// Derives a plugin identifier from a market entry title.
pub fn sanitize_id(title: &str) -> (r: String)
    ensures
        sanitized_id(title@, r@),
{
    let v = chars_of(title);
    let ghost m = title@.map_values(|c: char| sanitize_char(c));
    let mut w: Vec<char> = Vec::new();
    let mut i: usize = 0;
    while i < v.len()
        invariant
            i <= v.len(),
            v@ == title@,
            m == title@.map_values(|c: char| sanitize_char(c)),
            w@ =~= m.subrange(0, i as int),
        decreases v.len() - i,
    {
        let c = v[i];
        if ascii_alnum(c) || c == '_' {
            w.push(c);
        } else {
            w.push('_');
        }
        i = i + 1;
    }
    assert(w@ =~= m);
    let mut a: usize = 0;
    while a < w.len() && w[a] == '_'
        invariant
            a <= w.len(),
            all_underscore(w@, 0, a as int),
        decreases w.len() - a,
    {
        a = a + 1;
    }
    let mut b: usize = w.len();
    while b > a && w[b - 1] == '_'
        invariant
            a <= b <= w.len(),
            all_underscore(w@, b as int, w.len() as int),
        decreases b,
    {
        b = b - 1;
    }
    let r = string_of_range(&w, a, b);
    assert(0 <= a <= b <= m.len() && all_underscore(m, 0, a as int) && all_underscore(m, b as int, m.len() as int)
        && (a < b ==> m[a as int] != '_' && m[b - 1] != '_') && r@ == m.subrange(a as int, b as int));
    r
}

/// Reads an optional page or limit argument, defaulting when it is absent.
pub fn parse_i32_opt(raw: Option<&String>, default: i32) -> (r: Result<i32, String>)
    ensures
        match raw {
            None => r == Ok::<i32, String>(default),
            Some(s) => match parse_int(s@, i32::MIN as int, i32::MAX as int, true) {
                Ok(v) => r matches Ok(x) && x == v,
                Err(k) => r matches Err(e) && e@ == int_error_message(k),
            },
        },
{
    match raw {
        Some(s) => match parse_i32(s.as_str()) {
            Ok(v) => Ok(v),
            Err(k) => Err(int_error_text(k)),
        },
        None => Ok(default),
    }
}

/// Whether a sort order is one the market serves.
pub open spec fn known_sort(s: Seq<char>) -> bool {
    s == "updated"@ || s == "likes"@ || s == "downloads"@
}

/// Accepts `updated`, `likes` or `downloads` and refuses any other sort order.
pub fn normalize_sort(sort: &str) -> (r: Result<&str, String>)
    ensures
        match r {
            Ok(s) => known_sort(sort@) && s@ == sort@,
            Err(e) => !known_sort(sort@) && e@ == "invalid market sort: "@ + sort@ + ". expected updated|likes|downloads"@,
        },
{
    if str_eq(sort, "updated") || str_eq(sort, "likes") || str_eq(sort, "downloads") {
        Ok(sort)
    } else {
        let mut e = String::from_str("invalid market sort: ");
        e.append(sort);
        e.append(". expected updated|likes|downloads");
        Err(e)
    }
}

/// A trimmed optional argument, absent when it is blank or `-`.
pub open spec fn optional_value(s: Seq<char>) -> Option<Seq<char>> {
    if trim(s).len() == 0 || trim(s) == "-"@ { None } else { Some(trim(s)) }
}

/// The trimmed sub-slice of a string slice.
fn trim_slice(s: &str) -> (r: &str)
    ensures
        r@ == trim(s@),
{
    let v = chars_of(s);
    let (a, b) = trim_bounds(&v);
    s.substring_char(a, b)
}

/// Drops a blank or `-` optional filter argument, trimming any other.
pub fn clean_optional_arg(value: Option<&str>) -> (r: Option<&str>)
    ensures
        match value {
            None => r is None,
            Some(s) => match r {
                Some(t) => optional_value(s@) == Some(t@),
                None => optional_value(s@) is None,
            },
        },
{
    match value {
        None => None,
        Some(raw) => {
            let t = trim_slice(raw);
            if t.is_empty() || str_eq(t, "-") { None } else { Some(t) }
        },
    }
}

/// Reads an optional text argument: blank and `-` mean absent.
pub fn parse_optional_string(value: &str) -> (r: Option<String>)
    ensures
        opt_view(r) == optional_value(value@),
{
    let t = trim_string(value);
    if t.as_str().is_empty() || str_eq(t.as_str(), "-") { None } else { Some(t) }
}

/// Reads an optional text argument that may be missing altogether.
pub fn parse_optional_string_arg(value: Option<&String>) -> (r: Option<String>)
    ensures
        match value {
            None => r is None,
            Some(s) => opt_view(r) == optional_value(s@),
        },
{
    match value {
        Some(raw) => parse_optional_string(raw.as_str()),
        None => None,
    }
}

/// The boolean words market publishing accepts.
pub open spec fn market_bool_word(s: Seq<char>) -> Option<bool> {
    let t = trim(s);
    if t == "true"@ || t == "1"@ || t == "yes"@ || t == "on"@ {
        Some(true)
    } else if t == "false"@ || t == "0"@ || t == "no"@ || t == "off"@ {
        Some(false)
    } else {
        None
    }
}

/// Reads a boolean publishing flag.
pub fn market_parse_bool_arg(value: &str) -> (r: Result<bool, String>)
    ensures
        match r {
            Ok(b) => market_bool_word(value@) == Some(b),
            Err(e) => market_bool_word(value@) is None && e@ == "invalid bool: "@ + trim(value@),
        },
{
    let t = trim_string(value);
    let w = t.as_str();
    if str_eq(w, "true") || str_eq(w, "1") || str_eq(w, "yes") || str_eq(w, "on") {
        Ok(true)
    } else if str_eq(w, "false") || str_eq(w, "0") || str_eq(w, "no") || str_eq(w, "off") {
        Ok(false)
    } else {
        Err(concat("invalid bool: ", w))
    }
}

/// Reads an optional boolean flag: blank and `-` mean absent.
pub fn parse_optional_bool_str(value: &str) -> (r: Result<Option<bool>, String>)
    ensures
        match optional_value(value@) {
            None => r == Ok::<Option<bool>, String>(None),
            Some(t) => match market_bool_word(t) {
                Some(b) => r == Ok::<Option<bool>, String>(Some(b)),
                None => r matches Err(e) && e@ == "invalid bool: "@ + trim(t),
            },
        },
{
    match parse_optional_string(value) {
        Some(raw) => match market_parse_bool_arg(raw.as_str()) {
            Ok(b) => Ok(Some(b)),
            Err(e) => Err(e),
        },
        None => Ok(None),
    }
}

/// Reads an optional boolean flag that may be missing altogether.
pub fn parse_optional_bool_arg(value: Option<&String>) -> (r: Result<Option<bool>, String>)
    ensures
        match value {
            None => r == Ok::<Option<bool>, String>(None),
            Some(s) => match optional_value(s@) {
                None => r == Ok::<Option<bool>, String>(None),
                Some(t) => match market_bool_word(t) {
                    Some(b) => r == Ok::<Option<bool>, String>(Some(b)),
                    None => r matches Err(e) && e@ == "invalid bool: "@ + trim(t),
                },
            },
        },
{
    match value {
        Some(raw) => parse_optional_bool_str(raw.as_str()),
        None => Ok(None),
    }
}


/// The numeric app version used by marketplace compatibility metadata.
#[derive(Clone, Copy, Debug, PartialEq, Eq, PartialOrd, Ord)]
pub struct MarketAppVersion {
    pub major: u64,
    pub minor: u64,
    pub patch: u64,
    pub build: u64,
}

/// The version as a tuple of its four components.
pub open spec fn version_tuple(v: MarketAppVersion) -> (int, int, int, int) {
    (v.major as int, v.minor as int, v.patch as int, v.build as int)
}

/// Lexicographic order of version tuples.
pub open spec fn tuple_lt(a: (int, int, int, int), b: (int, int, int, int)) -> bool {
    a.0 < b.0 || (a.0 == b.0 && (a.1 < b.1 || (a.1 == b.1 && (a.2 < b.2 || (a.2 == b.2 && a.3 < b.3)))))
}

/// Whether version `a` precedes version `b` (the derived `Ord` order).
pub fn version_lt(a: &MarketAppVersion, b: &MarketAppVersion) -> (r: bool)
    ensures
        r == tuple_lt(version_tuple(*a), version_tuple(*b)),
{
    a.major < b.major || (a.major == b.major && (a.minor < b.minor || (a.minor == b.minor
        && (a.patch < b.patch || (a.patch == b.patch && a.build < b.build)))))
}

/// The message for a version that does not have the x.y.z[+n] shape.
pub open spec fn format_error(label: Seq<char>) -> Seq<char> {
    label + " must use x.y.z or x.y.z+n format"@
}

/// The same message naming the offending value.
pub open spec fn format_error_value(label: Seq<char>, value: Seq<char>) -> Seq<char> {
    label + " must use x.y.z or x.y.z+n format: "@ + value
}

/// Whether every character is an ASCII digit.
pub open spec fn all_digits(s: Seq<char>) -> bool {
    forall|k: int| 0 <= k < s.len() ==> '0' <= #[trigger] s[k] && s[k] <= '9'
}

/// One numeric component of a marketplace version.
pub open spec fn version_component(v: Option<Seq<char>>, label: Seq<char>, component: Seq<char>) -> Result<int, Seq<char>> {
    match v {
        None => Err(format_error(label)),
        Some(s) => if s.len() == 0 || !all_digits(s) {
            Err(label + " "@ + component + " component must be numeric: "@ + s)
        } else {
            match parse_int(s, 0, u64::MAX as int, false) {
                Ok(x) => Ok(x),
                Err(k) => Err(label + " "@ + component + " component is invalid: "@ + int_error_message(k)),
            }
        },
    }
}

/// A marketplace version `x.y.z` or `x.y.z+n` (build defaults to 0); the
/// build suffix is read first, then major, minor and patch.
pub open spec fn market_version(value: Seq<char>, label: Seq<char>) -> Result<(int, int, int, int), Seq<char>> {
    let plus = split_on(trim(value), '+');
    let build = if plus.len() == 1 {
        Ok(0int)
    } else if plus.len() == 2 {
        version_component(Some(plus[1]), label, "build"@)
    } else {
        Err(format_error_value(label, value))
    };
    match build {
        Err(e) => Err(e),
        Ok(b) => {
            let dots = split_on(plus[0], '.');
            match version_component(arg_at(dots, 0), label, "major"@) {
                Err(e) => Err(e),
                Ok(ma) => match version_component(arg_at(dots, 1), label, "minor"@) {
                    Err(e) => Err(e),
                    Ok(mi) => match version_component(arg_at(dots, 2), label, "patch"@) {
                        Err(e) => Err(e),
                        Ok(pa) => if dots.len() > 3 {
                            Err(format_error_value(label, value))
                        } else {
                            Ok((ma, mi, pa, b))
                        },
                    },
                },
            }
        },
    }
}

/// Whether every character of a string is an ASCII digit.
fn digits_only(s: &str) -> (r: bool)
    ensures
        r == all_digits(s@),
{
    let v = chars_of(s);
    let mut i: usize = 0;
    while i < v.len()
        invariant
            i <= v.len(),
            v@ == s@,
            forall|k: int| 0 <= k < i ==> '0' <= #[trigger] v@[k] && v@[k] <= '9',
        decreases v.len() - i,
    {
        if !('0' <= v[i] && v[i] <= '9') {
            return false;
        }
        i = i + 1;
    }
    true
}

/// Parses one numeric component from marketplace compatibility metadata.
pub fn parse_market_app_version_component(value: Option<&str>, label: &str, component: &str) -> (r: Result<u64, String>)
    ensures
        match value {
            None => r matches Err(e) && version_component(None, label@, component@) == Err::<int, Seq<char>>(e@),
            Some(s) => match r {
                Ok(x) => version_component(Some(s@), label@, component@) == Ok::<int, Seq<char>>(x as int),
                Err(e) => version_component(Some(s@), label@, component@) == Err::<int, Seq<char>>(e@),
            },
        },
{
    match value {
        None => Err(concat(label, " must use x.y.z or x.y.z+n format")),
        Some(v) => {
            if v.is_empty() || !digits_only(v) {
                let mut e = String::from_str(label);
                e.append(" ");
                e.append(component);
                e.append(" component must be numeric: ");
                e.append(v);
                return Err(e);
            }
            match parse_u64(v) {
                Ok(x) => Ok(x),
                Err(k) => {
                    let mut e = String::from_str(label);
                    e.append(" ");
                    e.append(component);
                    e.append(" component is invalid: ");
                    e.append(int_error_text(k).as_str());
                    Err(e)
                },
            }
        },
    }
}

/// The piece at position `j` of a split, if present.
fn piece(parts: &Vec<String>, j: usize) -> (r: Option<&str>)
    ensures
        match r {
            Some(s) => arg_at(views(parts@), j as int) == Some(s@),
            None => arg_at(views(parts@), j as int) is None,
        },
{
    if j < parts.len() {
        Some(parts[j].as_str())
    } else {
        None
    }
}

/// Parses one marketplace app-version value using x.y.z or x.y.z+n notation.
pub fn parse_market_app_version(value: &str, label: &str) -> (r: Result<MarketAppVersion, String>)
    ensures
        match r {
            Ok(v) => market_version(value@, label@) == Ok::<_, Seq<char>>(version_tuple(v)),
            Err(e) => market_version(value@, label@) == Err::<(int, int, int, int), _>(e@),
        },
{
    let normalized = trim_string(value);
    let plus = split_char(normalized.as_str(), '+');
    let build: u64 = if plus.len() == 1 {
        0
    } else if plus.len() == 2 {
        match parse_market_app_version_component(piece(&plus, 1), label, "build") {
            Ok(b) => b,
            Err(e) => return Err(e),
        }
    } else {
        let mut e = String::from_str(label);
        e.append(" must use x.y.z or x.y.z+n format: ");
        e.append(value);
        return Err(e);
    };
    let dots = split_char(plus[0].as_str(), '.');
    let major = match parse_market_app_version_component(piece(&dots, 0), label, "major") {
        Ok(x) => x,
        Err(e) => return Err(e),
    };
    let minor = match parse_market_app_version_component(piece(&dots, 1), label, "minor") {
        Ok(x) => x,
        Err(e) => return Err(e),
    };
    let patch = match parse_market_app_version_component(piece(&dots, 2), label, "patch") {
        Ok(x) => x,
        Err(e) => return Err(e),
    };
    if dots.len() > 3 {
        let mut e = String::from_str(label);
        e.append(" must use x.y.z or x.y.z+n format: ");
        e.append(value);
        return Err(e);
    }
    Ok(MarketAppVersion { major, minor, patch, build })
}


/// A marketplace account, as entries name their author and publisher.
#[derive(Clone, Debug)]
pub struct MarketUser {
    pub login: String,
    pub avatar: String,
}

/// One published version of a marketplace entry.
#[derive(Clone, Debug)]
pub struct MarketEntryVersion {
    pub id: String,
    pub version: String,
    pub format_ver: String,
    pub min_app_ver: String,
    pub max_app_ver: Option<String>,
    pub publisher: Option<MarketUser>,
}

/// The runtime package that an artifact entry installs.
#[derive(Clone, Debug)]
pub struct MarketArtifact {
    pub project_id: String,
    pub runtime_package_id: Option<String>,
}

/// A downloadable asset of a marketplace entry.
#[derive(Clone, Debug)]
pub struct MarketEntryAsset {
    pub id: String,
    pub version_id: String,
    pub kind: String,
    pub url: String,
    pub sha256: String,
    pub asset_name: Option<String>,
}

/// How often one reaction was given to an entry.
#[derive(Clone, Debug)]
pub struct MarketReaction {
    pub reaction: String,
    pub total: i64,
}

/// One marketplace entry with its metadata, versions, assets and reactions.
#[derive(Clone, Debug)]
pub struct MarketEntrySummary {
    pub id: String,
    pub entry_type: String,
    pub title: String,
    pub description: String,
    pub detail: String,
    pub author: Option<MarketUser>,
    pub publisher: Option<MarketUser>,
    pub category_id: Option<String>,
    pub state_code: String,
    pub featured: bool,
    pub downloads: i32,
    pub download_count: i32,
    pub allow_public_updates: bool,
    pub source_url: Option<String>,
    pub artifact: Option<MarketArtifact>,
    pub versions: Vec<MarketEntryVersion>,
    pub latest_version: Option<MarketEntryVersion>,
    pub assets: Vec<MarketEntryAsset>,
    pub reactions: Vec<MarketReaction>,
}

/// Index of the first version whose id is `id`.
pub open spec fn first_version_with_id(vs: Seq<MarketEntryVersion>, id: Seq<char>) -> Option<int>
    decreases vs.len(),
{
    if vs.len() == 0 {
        None
    } else if vs[0].id@ == id {
        Some(0)
    } else {
        match first_version_with_id(vs.drop_first(), id) {
            Some(k) => Some(k + 1),
            None => None,
        }
    }
}

/// The version an installation targets: the requested one (by trimmed,
/// non-empty id) or the latest one.
pub open spec fn install_version(entry: MarketEntrySummary, version_id: Option<Seq<char>>) -> Result<MarketEntryVersion, Seq<char>> {
    let requested = match version_id {
        Some(v) => if trim(v).len() == 0 { None } else { Some(trim(v)) },
        None => None,
    };
    match requested {
        Some(id) => match first_version_with_id(entry.versions@, id) {
            Some(k) => Ok(entry.versions@[k]),
            None => Err("market entry has no version metadata for requested version: "@ + id),
        },
        None => match entry.latest_version {
            Some(v) => Ok(v),
            None => Err("market entry has no latest version metadata"@),
        },
    }
}

/// Resolves the precise marketplace version requested for one installation.
#[verifier::loop_isolation(false)]
pub fn resolve_market_install_version<'a>(entry: &'a MarketEntrySummary, version_id: Option<&str>) -> (r: Result<&'a MarketEntryVersion, String>)
    ensures
        match r {
            Ok(v) => install_version(*entry, match version_id { Some(s) => Some(s@), None => None }) == Ok::<_, Seq<char>>(*v),
            Err(e) => install_version(*entry, match version_id { Some(s) => Some(s@), None => None }) == Err::<MarketEntryVersion, _>(e@),
        },
{
    let requested = match version_id {
        Some(v) => {
            let t = trim_string(v);
            if t.as_str().is_empty() { None } else { Some(t) }
        },
        None => None,
    };
    match requested {
        Some(id) => {
            let mut i: usize = 0;
            assert(entry.versions@.subrange(0, entry.versions.len() as int) =~= entry.versions@);
            while i < entry.versions.len()
                invariant
                    i <= entry.versions.len(),
                    first_version_with_id(entry.versions@, id@) == match first_version_with_id(entry.versions@.subrange(i as int, entry.versions.len() as int), id@) {
                        Some(k) => Some(k + i),
                        None => None::<int>,
                    },
                decreases entry.versions.len() - i,
            {
                let ghost rest = entry.versions@.subrange(i as int, entry.versions.len() as int);
                assert(rest[0] == entry.versions@[i as int]);
                assert(rest.drop_first() =~= entry.versions@.subrange(i + 1, entry.versions.len() as int));
                if str_eq(entry.versions[i].id.as_str(), id.as_str()) {
                    return Ok(&entry.versions[i]);
                }
                i = i + 1;
            }
            Err(concat("market entry has no version metadata for requested version: ", id.as_str()))
        },
        None => match &entry.latest_version {
            Some(v) => Ok(v),
            None => Err(String::from_str("market entry has no latest version metadata")),
        },
    }
}

/// The message refusing a client older than the minimum version.
pub open spec fn too_old_message(client: Seq<char>, minimum: Seq<char>) -> Seq<char> {
    "无法下载：客户端版本 "@ + client + " 低于该资源要求的最低版本 "@ + minimum + "。请更新客户端后再下载。"@
}

/// The message refusing a client newer than the maximum version.
pub open spec fn too_new_message(client: Seq<char>, maximum: Seq<char>) -> Seq<char> {
    "无法下载：客户端版本 "@ + client + " 高于该资源最高支持的版本 "@ + maximum + "。请使用受支持的客户端版本。"@
}

/// Whether the client version may install the selected entry version, and
/// the message when it may not.
pub open spec fn app_version_check(entry: MarketEntrySummary, client: Seq<char>, version_id: Option<Seq<char>>) -> Result<(), Seq<char>> {
    match market_version(client, "客户端版本"@) {
        Err(e) => Err(e),
        Ok(c) => match install_version(entry, version_id) {
            Err(e) => Err(e),
            Ok(target) => {
                let min = trim(target.min_app_ver@);
                let min_check = if min.len() == 0 {
                    Ok(())
                } else {
                    match market_version(min, "最低支持版本"@) {
                        Err(e) => Err(e),
                        Ok(m) => if tuple_lt(c, m) { Err(too_old_message(client, min)) } else { Ok(()) },
                    }
                };
                match min_check {
                    Err(e) => Err(e),
                    Ok(_) => match target.max_app_ver {
                        None => Ok(()),
                        Some(maxs) => {
                            let max = trim(maxs@);
                            if max.len() == 0 {
                                Ok(())
                            } else {
                                match market_version(max, "最高支持版本"@) {
                                    Err(e) => Err(e),
                                    Ok(m) => if tuple_lt(m, c) { Err(too_new_message(client, max)) } else { Ok(()) },
                                }
                            }
                        },
                    },
                }
            },
        },
    }
}

/// Rejects an installation when the selected marketplace version excludes the client version.
pub fn ensure_entry_app_version_supported(entry: &MarketEntrySummary, client_app_version: &str, version_id: Option<&str>) -> (r: Result<(), String>)
    ensures
        match r {
            Ok(_) => app_version_check(*entry, client_app_version@, match version_id { Some(s) => Some(s@), None => None }) == Ok::<(), Seq<char>>(()),
            Err(e) => app_version_check(*entry, client_app_version@, match version_id { Some(s) => Some(s@), None => None }) == Err::<(), _>(e@),
        },
{
    let client_version = match parse_market_app_version(client_app_version, "客户端版本") {
        Ok(v) => v,
        Err(e) => return Err(e),
    };
    let target_version = match resolve_market_install_version(entry, version_id) {
        Ok(v) => v,
        Err(e) => return Err(e),
    };
    let minimum_value = trim_string(target_version.min_app_ver.as_str());
    if !minimum_value.as_str().is_empty() {
        let minimum_version = match parse_market_app_version(minimum_value.as_str(), "最低支持版本") {
            Ok(v) => v,
            Err(e) => return Err(e),
        };
        if version_lt(&client_version, &minimum_version) {
            let mut e = String::from_str("无法下载：客户端版本 ");
            e.append(client_app_version);
            e.append(" 低于该资源要求的最低版本 ");
            e.append(minimum_value.as_str());
            e.append("。请更新客户端后再下载。");
            return Err(e);
        }
    }
    match &target_version.max_app_ver {
        None => Ok(()),
        Some(maxs) => {
            let maximum_value = trim_string(maxs.as_str());
            if maximum_value.as_str().is_empty() {
                return Ok(());
            }
            let maximum_version = match parse_market_app_version(maximum_value.as_str(), "最高支持版本") {
                Ok(v) => v,
                Err(e) => return Err(e),
            };
            if version_lt(&maximum_version, &client_version) {
                let mut e = String::from_str("无法下载：客户端版本 ");
                e.append(client_app_version);
                e.append(" 高于该资源最高支持的版本 ");
                e.append(maximum_value.as_str());
                e.append("。请使用受支持的客户端版本。");
                return Err(e);
            }
            Ok(())
        },
    }
}

/// The SHA-256 digest of some bytes.
pub uninterp spec fn sha256_digest(data: Seq<u8>) -> Seq<u8>;

/// `sha2::Sha256::digest`: the contract names the digest and states its
/// 32-byte length; the hash itself is not restated.
#[verifier::external_body]
fn sha256(bytes: &[u8]) -> (r: Vec<u8>)
    ensures
        r@ == sha256_digest(bytes@),
        r@.len() == 32,
{
    Sha256::digest(bytes).to_vec()
}

/// The lower-case hexadecimal digit for `d < 16`.
pub open spec fn hex_char(d: int) -> char {
    if d < 10 { ((d + 48) as u8) as char } else { ((d + 87) as u8) as char }
}

/// Lower-case hexadecimal text of bytes, two digits per byte (`{:x}`).
pub open spec fn lower_hex(b: Seq<u8>) -> Seq<char>
    decreases b.len(),
{
    if b.len() == 0 {
        Seq::empty()
    } else {
        lower_hex(b.drop_last()) + seq![hex_char(b.last() as int / 16), hex_char(b.last() as int % 16)]
    }
}

/// The lower-case hexadecimal digit for `d < 16`.
fn hex_digit(d: u8) -> (c: char)
    requires
        d < 16,
    ensures
        c == hex_char(d as int),
{
    if d < 10 { (d + 48) as char } else { (d + 87) as char }
}

/// Lower-case hexadecimal text of bytes.
pub fn to_lower_hex(b: &[u8]) -> (r: String)
    ensures
        r@ == lower_hex(b@),
{
    let mut r = String::new();
    let mut i: usize = 0;
    while i < b.len()
        invariant
            i <= b.len(),
            r@ == lower_hex(b@.subrange(0, i as int)),
        decreases b.len() - i,
    {
        let x = b[i];
        push_char(&mut r, hex_digit(x / 16));
        push_char(&mut r, hex_digit(x % 16));
        i = i + 1;
        let ghost pre = b@.subrange(0, i as int);
        assert(pre.drop_last() =~= b@.subrange(0, i - 1));
        assert(r@ =~= lower_hex(pre));
    }
    assert(b@.subrange(0, b.len() as int) =~= b@);
    r
}

/// Whether a character is an ASCII hexadecimal digit.
pub open spec fn is_hex(c: char) -> bool {
    ('0' <= c && c <= '9') || ('a' <= c && c <= 'f') || ('A' <= c && c <= 'F')
}

/// The outcome of comparing a digest with the recorded SHA-256 text: the
/// text must be 64 hex digits (after trimming) and equal the digest's
/// lower-case hex, case-insensitively.
pub open spec fn digest_check(digest: Seq<u8>, expected: Seq<char>) -> Result<(), Seq<char>> {
    let n = ascii_lower_seq(trim(expected));
    if n.len() != 64 || !(forall|k: int| 0 <= k < n.len() ==> is_hex(#[trigger] n[k])) {
        Err("market asset SHA-256 is invalid"@)
    } else if lower_hex(digest) != n {
        Err("market asset SHA-256 mismatch"@)
    } else {
        Ok(())
    }
}

/// Compares a computed digest with the SHA-256 recorded in a market entry.
pub fn check_market_asset_digest(digest: &[u8], expected_sha256: &str) -> (r: Result<(), String>)
    ensures
        match r {
            Ok(_) => digest_check(digest@, expected_sha256@) == Ok::<(), Seq<char>>(()),
            Err(e) => digest_check(digest@, expected_sha256@) == Err::<(), _>(e@),
        },
{
    let t = trim_string(expected_sha256);
    let normalized = to_ascii_lowercase(t.as_str());
    let v = chars_of(normalized.as_str());
    if v.len() != 64 {
        return Err(String::from_str("market asset SHA-256 is invalid"));
    }
    let mut i: usize = 0;
    while i < v.len()
        invariant
            i <= v.len(),
            v.len() == 64,
            v@ == ascii_lower_seq(trim(expected_sha256@)),
            forall|k: int| 0 <= k < i ==> is_hex(#[trigger] v@[k]),
        decreases v.len() - i,
    {
        let c = v[i];
        if !(('0' <= c && c <= '9') || ('a' <= c && c <= 'f') || ('A' <= c && c <= 'F')) {
            assert(!is_hex(v@[i as int]));
            return Err(String::from_str("market asset SHA-256 is invalid"));
        }
        i = i + 1;
    }
    let actual = to_lower_hex(digest);
    if !str_eq(actual.as_str(), normalized.as_str()) {
        return Err(String::from_str("market asset SHA-256 mismatch"));
    }
    Ok(())
}

/// Verifies downloaded bytes against the SHA-256 recorded in the market entry.
pub fn verify_market_asset_sha256(bytes: &[u8], expected_sha256: &str) -> (r: Result<(), String>)
    ensures
        match r {
            Ok(_) => digest_check(sha256_digest(bytes@), expected_sha256@) == Ok::<(), Seq<char>>(()),
            Err(e) => digest_check(sha256_digest(bytes@), expected_sha256@) == Err::<(), _>(e@),
        },
{
    let digest = sha256(bytes);
    check_market_asset_digest(digest.as_slice(), expected_sha256)
}

/// The number of downloads shown for an entry: the larger of its two counters.
pub open spec fn downloads_of(e: MarketEntrySummary) -> int {
    if e.download_count >= e.downloads { e.download_count as int } else { e.downloads as int }
}

/// Returns the number of downloads shown for an entry.
pub fn entry_downloads(entry: &MarketEntrySummary) -> (r: i32)
    ensures
        r as int == downloads_of(*entry),
{
    if entry.download_count >= entry.downloads { entry.download_count } else { entry.downloads }
}

/// The login of an optional account, or nothing.
pub open spec fn login_or_empty(u: Option<MarketUser>) -> Seq<char> {
    match u {
        Some(a) => a.login@,
        None => Seq::empty(),
    }
}

/// `true` or `false`.
pub open spec fn bool_word(b: bool) -> Seq<char> {
    if b { "true"@ } else { "false"@ }
}

/// How `{:?}` shows an optional string.
pub open spec fn debug_option(o: Option<Seq<char>>) -> Seq<char> {
    match o {
        Some(s) => "Some("@ + crate::text::debug_text(s) + ")"@,
        None => "None"@,
    }
}

/// The lines that show one version.
pub open spec fn version_line(v: MarketEntryVersion) -> Seq<char> {
    "  version "@ + v.version@ + "  id="@ + v.id@ + "  format="@ + v.format_ver@ + "  publisher="@ + login_or_empty(v.publisher)
}

/// The line that shows one asset.
pub open spec fn asset_line(a: MarketEntryAsset) -> Seq<char> {
    "  "@ + a.id@ + "  kind="@ + a.kind@ + "  url="@ + a.url@
}

/// The line that shows one reaction.
pub open spec fn reaction_line(r: MarketReaction) -> Seq<char> {
    "reaction "@ + r.reaction@ + "  total="@ + decimal(r.total as int)
}

/// The lines that show one marketplace entry: its metadata (the detail cut
/// to its first 500 characters), its artifact, versions, assets and reactions.
pub open spec fn entry_lines(e: MarketEntrySummary) -> Seq<Seq<char>> {
    let avatar = match e.author {
        Some(a) => if a.avatar@.len() == 0 { "-"@ } else { a.avatar@ },
        None => "-"@,
    };
    let detail = if e.detail@.len() <= 500 { e.detail@ } else { e.detail@.subrange(0, 500) };
    seq![
        "id: "@ + e.id@,
        "type: "@ + e.entry_type@,
        "title: "@ + e.title@,
        "description: "@ + e.description@,
        "detail: "@ + detail,
        "author: "@ + login_or_empty(e.author) + " ("@ + avatar + ")"@,
        "publisher: "@ + login_or_empty(e.publisher),
        "category_id: "@ + (match e.category_id { Some(c) => c@, None => "-"@ }),
        "state: "@ + e.state_code@,
        "featured: "@ + bool_word(e.featured),
        "downloads: "@ + decimal(downloads_of(e)),
        "allow_public_updates: "@ + bool_word(e.allow_public_updates),
        "source: "@ + debug_option(opt_view(e.source_url)),
    ]
        + (match e.artifact {
            Some(a) => seq![
                "artifact project_id: "@ + a.project_id@,
                "artifact runtime_package_id: "@ + (match a.runtime_package_id { Some(p) => p@, None => "-"@ }),
            ],
            None => Seq::empty(),
        })
        + seq!["versions: "@ + decimal(e.versions@.len() as int)]
        + e.versions@.map_values(|v: MarketEntryVersion| version_line(v))
        + seq!["assets: "@ + decimal(e.assets@.len() as int)]
        + e.assets@.map_values(|a: MarketEntryAsset| asset_line(a))
        + e.reactions@.map_values(|r: MarketReaction| reaction_line(r))
}

/// The login of an optional account, or nothing.
pub(crate) fn login_text(u: &Option<MarketUser>) -> (r: String)
    ensures
        r@ == login_or_empty(*u),
{
    match u {
        Some(a) => a.login.clone(),
        None => String::new(),
    }
}

/// The first `n` characters of a string, or all of it.
pub(crate) fn take_chars(s: &str, n: usize) -> (r: String)
    ensures
        r@ == if s@.len() <= n { s@ } else { s@.subrange(0, n as int) },
{
    let v = chars_of(s);
    if v.len() <= n {
        string_of_range(&v, 0, v.len())
    } else {
        string_of_range(&v, 0, n)
    }
}

/// `prefix` followed by `text`.
fn labelled(prefix: &str, text: &str) -> (r: String)
    ensures
        r@ == prefix@ + text@,
{
    concat(prefix, text)
}

/// The lines that show one marketplace entry.
pub fn market_entry_lines(entry: &MarketEntrySummary) -> (r: Vec<String>)
    ensures
        views(r@) == entry_lines(*entry),
{
    let mut lines: Vec<String> = Vec::new();
    lines.push(labelled("id: ", entry.id.as_str()));
    lines.push(labelled("type: ", entry.entry_type.as_str()));
    lines.push(labelled("title: ", entry.title.as_str()));
    lines.push(labelled("description: ", entry.description.as_str()));
    let detail = take_chars(entry.detail.as_str(), 500);
    lines.push(labelled("detail: ", detail.as_str()));
    let login = login_text(&entry.author);
    let avatar = match &entry.author {
        Some(a) => if a.avatar.as_str().unicode_len() == 0 { String::from_str("-") } else { a.avatar.clone() },
        None => String::from_str("-"),
    };
    let mut author = labelled("author: ", login.as_str());
    author.append(" (");
    author.append(avatar.as_str());
    author.append(")");
    lines.push(author);
    let publisher = login_text(&entry.publisher);
    lines.push(labelled("publisher: ", publisher.as_str()));
    let category = match &entry.category_id {
        Some(c) => c.clone(),
        None => String::from_str("-"),
    };
    lines.push(labelled("category_id: ", category.as_str()));
    lines.push(labelled("state: ", entry.state_code.as_str()));
    lines.push(labelled("featured: ", if entry.featured { "true" } else { "false" }));
    let downloads = i64_to_string(entry_downloads(entry) as i64);
    lines.push(labelled("downloads: ", downloads.as_str()));
    lines.push(labelled("allow_public_updates: ", if entry.allow_public_updates { "true" } else { "false" }));
    let source = match &entry.source_url {
        Some(u) => {
            let q = crate::text::quoted(u.as_str());
            let mut t = String::from_str("Some(");
            t.append(q.as_str());
            t.append(")");
            t
        },
        None => String::from_str("None"),
    };
    lines.push(labelled("source: ", source.as_str()));
    let ghost head = views(lines@);
    proof {
        let e = *entry;
        let avatar_v = match e.author {
            Some(a) => if a.avatar@.len() == 0 { "-"@ } else { a.avatar@ },
            None => "-"@,
        };
        let detail_v = if e.detail@.len() <= 500 { e.detail@ } else { e.detail@.subrange(0, 500) };
        assert(head =~= seq![
            "id: "@ + e.id@,
            "type: "@ + e.entry_type@,
            "title: "@ + e.title@,
            "description: "@ + e.description@,
            "detail: "@ + detail_v,
            "author: "@ + login_or_empty(e.author) + " ("@ + avatar_v + ")"@,
            "publisher: "@ + login_or_empty(e.publisher),
            "category_id: "@ + (match e.category_id { Some(c) => c@, None => "-"@ }),
            "state: "@ + e.state_code@,
            "featured: "@ + bool_word(e.featured),
            "downloads: "@ + decimal(downloads_of(e)),
            "allow_public_updates: "@ + bool_word(e.allow_public_updates),
            "source: "@ + debug_option(opt_view(e.source_url)),
        ]);
    }
    match &entry.artifact {
        Some(a) => {
            lines.push(labelled("artifact project_id: ", a.project_id.as_str()));
            let rp = match &a.runtime_package_id {
                Some(p) => p.clone(),
                None => String::from_str("-"),
            };
            lines.push(labelled("artifact runtime_package_id: ", rp.as_str()));
        },
        None => {},
    }
    let ghost with_artifact = views(lines@);
    proof {
        assert(with_artifact =~= head + (match entry.artifact {
            Some(a) => seq![
                "artifact project_id: "@ + a.project_id@,
                "artifact runtime_package_id: "@ + (match a.runtime_package_id { Some(p) => p@, None => "-"@ }),
            ],
            None => Seq::empty(),
        }));
    }
    let count = crate::num::u64_to_string(entry.versions.len() as u64);
    lines.push(labelled("versions: ", count.as_str()));
    let ghost before_versions = views(lines@);
    assert(before_versions =~= with_artifact + seq!["versions: "@ + decimal(entry.versions@.len() as int)]);
    let mut i: usize = 0;
    while i < entry.versions.len()
        invariant
            i <= entry.versions.len(),
            views(lines@) =~= before_versions + entry.versions@.subrange(0, i as int).map_values(|v: MarketEntryVersion| version_line(v)),
        decreases entry.versions.len() - i,
    {
        let v = &entry.versions[i];
        let mut t = labelled("  version ", v.version.as_str());
        t.append("  id=");
        t.append(v.id.as_str());
        t.append("  format=");
        t.append(v.format_ver.as_str());
        t.append("  publisher=");
        let p = login_text(&v.publisher);
        t.append(p.as_str());
        let ghost before = views(lines@);
        lines.push(t);
        proof {
            assert(views(lines@) =~= before.push(t@));
            assert(entry.versions@.subrange(0, i + 1) =~= entry.versions@.subrange(0, i as int).push(entry.versions@[i as int]));
        }
        i = i + 1;
    }
    assert(entry.versions@.subrange(0, entry.versions.len() as int) =~= entry.versions@);
    let count = crate::num::u64_to_string(entry.assets.len() as u64);
    lines.push(labelled("assets: ", count.as_str()));
    let ghost before_assets = views(lines@);
    let mut j: usize = 0;
    while j < entry.assets.len()
        invariant
            j <= entry.assets.len(),
            views(lines@) =~= before_assets + entry.assets@.subrange(0, j as int).map_values(|a: MarketEntryAsset| asset_line(a)),
        decreases entry.assets.len() - j,
    {
        let a = &entry.assets[j];
        let mut t = labelled("  ", a.id.as_str());
        t.append("  kind=");
        t.append(a.kind.as_str());
        t.append("  url=");
        t.append(a.url.as_str());
        let ghost before = views(lines@);
        lines.push(t);
        proof {
            assert(views(lines@) =~= before.push(t@));
            assert(entry.assets@.subrange(0, j + 1) =~= entry.assets@.subrange(0, j as int).push(entry.assets@[j as int]));
        }
        j = j + 1;
    }
    assert(entry.assets@.subrange(0, entry.assets.len() as int) =~= entry.assets@);
    let ghost before_reactions = views(lines@);
    let mut k: usize = 0;
    while k < entry.reactions.len()
        invariant
            k <= entry.reactions.len(),
            views(lines@) =~= before_reactions + entry.reactions@.subrange(0, k as int).map_values(|r: MarketReaction| reaction_line(r)),
        decreases entry.reactions.len() - k,
    {
        let r = &entry.reactions[k];
        let mut t = labelled("reaction ", r.reaction.as_str());
        t.append("  total=");
        let n = i64_to_string(r.total);
        t.append(n.as_str());
        let ghost before = views(lines@);
        lines.push(t);
        proof {
            assert(views(lines@) =~= before.push(t@));
            assert(entry.reactions@.subrange(0, k + 1) =~= entry.reactions@.subrange(0, k as int).push(entry.reactions@[k as int]));
        }
        k = k + 1;
    }
    assert(entry.reactions@.subrange(0, entry.reactions.len() as int) =~= entry.reactions@);
    proof {
        reveal_strlit("true");
        reveal_strlit("false");
        assert(views(lines@) =~= entry_lines(*entry));
    }
    lines
}

/// Prints one marketplace entry.
pub fn print_entry(entry: &MarketEntrySummary, output: &mut CoreCommandOutput)
    ensures
        final(output).stdout@ == old(output).stdout@ + crate::output::lines_text(entry_lines(*entry)),
        final(output).stderr@ == old(output).stderr@,
{
    let lines = market_entry_lines(entry);
    output.push_stdout_lines(&lines);
}

/// The lowercase text of an optional account's login.
pub open spec fn lower_login(u: Option<MarketUser>) -> Seq<char> {
    crate::text::unicode_lower(login_or_empty(u))
}

/// Whether an entry matches a search query (already trimmed and lowercased):
/// an empty query matches everything, else any of its texts, lowercased, must
/// hold the query.
pub open spec fn entry_matches(e: MarketEntrySummary, query: Seq<char>) -> bool {
    query.len() == 0
        || crate::text::has_infix(crate::text::unicode_lower(e.title@), query)
        || crate::text::has_infix(crate::text::unicode_lower(e.description@), query)
        || crate::text::has_infix(crate::text::unicode_lower(e.detail@), query)
        || crate::text::has_infix(crate::text::unicode_lower(e.id@), query)
        || crate::text::has_infix(crate::text::unicode_lower(e.entry_type@), query)
        || crate::text::has_infix(crate::text::unicode_lower(match e.category_id { Some(c) => c@, None => Seq::empty() }), query)
        || crate::text::has_infix(lower_login(e.author), query)
        || crate::text::has_infix(lower_login(e.publisher), query)
}

/// A search query matches an entry exactly when it is empty or some text of
/// the entry, lowercased, holds it: its title, description, detail, id,
/// type, category, or the login of its author or publisher.
pub proof fn law_query_matches_any_entry_text(e: MarketEntrySummary, query: Seq<char>)
    ensures
        query.len() == 0 ==> entry_matches(e, query),
        crate::text::has_infix(crate::text::unicode_lower(e.title@), query) ==> entry_matches(e, query),
        crate::text::has_infix(crate::text::unicode_lower(e.description@), query) ==> entry_matches(e, query),
        crate::text::has_infix(crate::text::unicode_lower(e.detail@), query) ==> entry_matches(e, query),
        crate::text::has_infix(crate::text::unicode_lower(e.id@), query) ==> entry_matches(e, query),
        crate::text::has_infix(crate::text::unicode_lower(e.entry_type@), query) ==> entry_matches(e, query),
        (e.category_id matches Some(c) && crate::text::has_infix(crate::text::unicode_lower(c@), query)) ==> entry_matches(e, query),
        (e.author matches Some(u) && crate::text::has_infix(crate::text::unicode_lower(u.login@), query)) ==> entry_matches(e, query),
        (e.publisher matches Some(u) && crate::text::has_infix(crate::text::unicode_lower(u.login@), query)) ==> entry_matches(e, query),
        entry_matches(e, query) && query.len() > 0 ==> {
            ||| crate::text::has_infix(crate::text::unicode_lower(e.title@), query)
            ||| crate::text::has_infix(crate::text::unicode_lower(e.description@), query)
            ||| crate::text::has_infix(crate::text::unicode_lower(e.detail@), query)
            ||| crate::text::has_infix(crate::text::unicode_lower(e.id@), query)
            ||| crate::text::has_infix(crate::text::unicode_lower(e.entry_type@), query)
            ||| crate::text::has_infix(crate::text::unicode_lower(match e.category_id { Some(c) => c@, None => Seq::empty() }), query)
            ||| crate::text::has_infix(crate::text::unicode_lower(match e.author { Some(u) => u.login@, None => Seq::empty() }), query)
            ||| crate::text::has_infix(crate::text::unicode_lower(match e.publisher { Some(u) => u.login@, None => Seq::empty() }), query)
        },
{
}

/// Whether the lowercase form of `s` holds `query`.
fn lower_contains(s: &str, query: &str) -> (r: bool)
    ensures
        r == crate::text::has_infix(crate::text::unicode_lower(s@), query@),
{
    let l = crate::text::to_lowercase(s);
    crate::text::contains_text(l.as_str(), query)
}

/// Returns whether one market entry matches a trimmed, lowercased search query.
pub fn market_entry_matches_query(entry: &MarketEntrySummary, query: &str) -> (r: bool)
    ensures
        r == entry_matches(*entry, query@),
{
    if query.unicode_len() == 0 {
        return true;
    }
    let category = match &entry.category_id {
        Some(c) => c.clone(),
        None => String::new(),
    };
    let author = login_text(&entry.author);
    let publisher = login_text(&entry.publisher);
    lower_contains(entry.title.as_str(), query)
        || lower_contains(entry.description.as_str(), query)
        || lower_contains(entry.detail.as_str(), query)
        || lower_contains(entry.id.as_str(), query)
        || lower_contains(entry.entry_type.as_str(), query)
        || lower_contains(category.as_str(), query)
        || lower_contains(author.as_str(), query)
        || lower_contains(publisher.as_str(), query)
}

/// The lines `market` prints when it is given no subcommand or an unknown one.
pub open spec fn market_usage_text() -> Seq<char> {
    line("usage: operit2 market <rank|list|search|show|comments|comment|like|notifications|my|publish|install|download>"@)
        + line("sort: updated|likes|downloads"@)
        + line("list: operit2 market list [sort] [type|-] [category|-] [page]"@)
        + line("search: operit2 market search <query> [sort] [type|-] [category|-]"@)
        + line("comment: operit2 market comment <entryId> <body-or-@file>"@)
        + line("comment edit: operit2 market comment edit <commentId> <body-or-@file>"@)
        + line("comment delete: operit2 market comment delete <commentId>"@)
        + line("publish artifact: operit2 market publish artifact <type> <title> <description-or-@file> <detail-or-@file> <categoryId> <allowPublicUpdates> <version> <formatVer> <minAppVer> <maxAppVer-or-> <changelog-or-> <projectId> <runtimePackageId> <assetKind> <assetUrl> <ghOwner> <ghRepo> <ghReleaseTag> <assetName> <sha256>"@)
        + line("publish repo: operit2 market publish repo <type> <title> <description-or-@file> <detail-or-@file> <categoryId> <allowPublicUpdates> <sourceUrl> <refType> <refName> <installConfig-or-@file> <version> <formatVer> <minAppVer> <maxAppVer-or-> <changelog-or->"@)
        + line("publish version artifact: operit2 market publish version artifact <entryId> <version> <formatVer> <minAppVer> <maxAppVer-or-> <changelog-or-> <projectId> <runtimePackageId> <assetKind> <assetUrl> <ghOwner> <ghRepo> <ghReleaseTag> <assetName> <sha256> [entryTitle|-] [entryDescription-or-] [entryDetail-or-] [entryCategoryId|-] [entryAllowPublicUpdates|-]"@)
        + line("publish version repo: operit2 market publish version repo <entryId> <version> <formatVer> <minAppVer> <maxAppVer-or-> <changelog-or-> <refType> <refName> <installConfig-or-@file> [entryTitle|-] [entryDescription-or-] [entryDetail-or-] [entryCategoryId|-] [entryAllowPublicUpdates|-]"@)
        + line("publish update-entry: operit2 market publish update-entry <entryId> <title-or-> <description-or-@file-or-> <detail-or-@file-or-> <categoryId-or-> <allowPublicUpdates-or->"@)
        + line("install: operit2 market install <entryId> <clientAppVersion> [versionId]"@)
        + line("download: operit2 market download <assetId>"@)
}

/// Prints market command usage.
pub fn print_market_usage(output: &mut CoreCommandOutput)
    ensures
        final(output).stdout@ == old(output).stdout@ + market_usage_text(),
        final(output).stderr@ == old(output).stderr@,
{
    output.push_stdout_line("usage: operit2 market <rank|list|search|show|comments|comment|like|notifications|my|publish|install|download>");
    output.push_stdout_line("sort: updated|likes|downloads");
    output.push_stdout_line("list: operit2 market list [sort] [type|-] [category|-] [page]");
    output.push_stdout_line("search: operit2 market search <query> [sort] [type|-] [category|-]");
    output.push_stdout_line("comment: operit2 market comment <entryId> <body-or-@file>");
    output.push_stdout_line("comment edit: operit2 market comment edit <commentId> <body-or-@file>");
    output.push_stdout_line("comment delete: operit2 market comment delete <commentId>");
    output.push_stdout_line("publish artifact: operit2 market publish artifact <type> <title> <description-or-@file> <detail-or-@file> <categoryId> <allowPublicUpdates> <version> <formatVer> <minAppVer> <maxAppVer-or-> <changelog-or-> <projectId> <runtimePackageId> <assetKind> <assetUrl> <ghOwner> <ghRepo> <ghReleaseTag> <assetName> <sha256>");
    output.push_stdout_line("publish repo: operit2 market publish repo <type> <title> <description-or-@file> <detail-or-@file> <categoryId> <allowPublicUpdates> <sourceUrl> <refType> <refName> <installConfig-or-@file> <version> <formatVer> <minAppVer> <maxAppVer-or-> <changelog-or->");
    output.push_stdout_line("publish version artifact: operit2 market publish version artifact <entryId> <version> <formatVer> <minAppVer> <maxAppVer-or-> <changelog-or-> <projectId> <runtimePackageId> <assetKind> <assetUrl> <ghOwner> <ghRepo> <ghReleaseTag> <assetName> <sha256> [entryTitle|-] [entryDescription-or-] [entryDetail-or-] [entryCategoryId|-] [entryAllowPublicUpdates|-]");
    output.push_stdout_line("publish version repo: operit2 market publish version repo <entryId> <version> <formatVer> <minAppVer> <maxAppVer-or-> <changelog-or-> <refType> <refName> <installConfig-or-@file> [entryTitle|-] [entryDescription-or-] [entryDetail-or-] [entryCategoryId|-] [entryAllowPublicUpdates|-]");
    output.push_stdout_line("publish update-entry: operit2 market publish update-entry <entryId> <title-or-> <description-or-@file-or-> <detail-or-@file-or-> <categoryId-or-> <allowPublicUpdates-or->");
    output.push_stdout_line("install: operit2 market install <entryId> <clientAppVersion> [versionId]");
    output.push_stdout_line("download: operit2 market download <assetId>");
    assert(output.stdout@ =~= old(output).stdout@ + market_usage_text());
}

/// One `market` subcommand with its arguments read.
#[derive(Clone, Debug)]
pub enum MarketRequest {
    Usage,
    Rank { sort: String, page: i32 },
    List { sort: String, type_filter: Option<String>, category: Option<String>, page: i32 },
    Search { query: String, sort: String, type_filter: Option<String>, category: Option<String> },
    Show { entry_id: String },
    Comments { entry_id: String, page: i32 },
    Comment { args: Vec<String> },
    Like { entry_id: String },
    Notifications { limit: i32, offset: i32 },
    My,
    Publish { args: Vec<String> },
    Install { entry_id: String, client_app_version: String, version_id: Option<String> },
    Download { asset_id: String },
}

/// A `market` subcommand as plain values.
pub enum MarketRequestView {
    Usage,
    Rank { sort: Seq<char>, page: int },
    List { sort: Seq<char>, type_filter: Option<Seq<char>>, category: Option<Seq<char>>, page: int },
    Search { query: Seq<char>, sort: Seq<char>, type_filter: Option<Seq<char>>, category: Option<Seq<char>> },
    Show { entry_id: Seq<char> },
    Comments { entry_id: Seq<char>, page: int },
    Comment { args: Seq<Seq<char>> },
    Like { entry_id: Seq<char> },
    Notifications { limit: int, offset: int },
    My,
    Publish { args: Seq<Seq<char>> },
    Install { entry_id: Seq<char>, client_app_version: Seq<char>, version_id: Option<Seq<char>> },
    Download { asset_id: Seq<char> },
}

/// The plain view of a request.
pub open spec fn market_request_view(r: MarketRequest) -> MarketRequestView {
    match r {
        MarketRequest::Usage => MarketRequestView::Usage,
        MarketRequest::Rank { sort, page } => MarketRequestView::Rank { sort: sort@, page: page as int },
        MarketRequest::List { sort, type_filter, category, page } =>
            MarketRequestView::List { sort: sort@, type_filter: opt_view(type_filter), category: opt_view(category), page: page as int },
        MarketRequest::Search { query, sort, type_filter, category } =>
            MarketRequestView::Search { query: query@, sort: sort@, type_filter: opt_view(type_filter), category: opt_view(category) },
        MarketRequest::Show { entry_id } => MarketRequestView::Show { entry_id: entry_id@ },
        MarketRequest::Comments { entry_id, page } => MarketRequestView::Comments { entry_id: entry_id@, page: page as int },
        MarketRequest::Comment { args } => MarketRequestView::Comment { args: views(args@) },
        MarketRequest::Like { entry_id } => MarketRequestView::Like { entry_id: entry_id@ },
        MarketRequest::Notifications { limit, offset } => MarketRequestView::Notifications { limit: limit as int, offset: offset as int },
        MarketRequest::My => MarketRequestView::My,
        MarketRequest::Publish { args } => MarketRequestView::Publish { args: views(args@) },
        MarketRequest::Install { entry_id, client_app_version, version_id } =>
            MarketRequestView::Install { entry_id: entry_id@, client_app_version: client_app_version@, version_id: opt_view(version_id) },
        MarketRequest::Download { asset_id } => MarketRequestView::Download { asset_id: asset_id@ },
    }
}

/// The sort order at position `j`, `updated` when absent.
pub open spec fn sort_at(a: Seq<Seq<char>>, j: int) -> Result<Seq<char>, Seq<char>> {
    let s = match arg_at(a, j) { Some(s) => s, None => "updated"@ };
    if known_sort(s) { Ok(s) } else { Err("invalid market sort: "@ + s + ". expected updated|likes|downloads"@) }
}

/// The number at position `j`, `default` when absent.
pub open spec fn int_at(a: Seq<Seq<char>>, j: int, default: int) -> Result<int, Seq<char>> {
    match arg_at(a, j) {
        None => Ok(default),
        Some(s) => match parse_int(s, i32::MIN as int, i32::MAX as int, true) {
            Ok(v) => Ok(v),
            Err(k) => Err(int_error_message(k)),
        },
    }
}

/// The request that `market` arguments make, or why they are refused.
pub open spec fn market_request(a: Seq<Seq<char>>) -> Result<MarketRequestView, Seq<char>> {
    if a.len() == 0 {
        Ok(MarketRequestView::Usage)
    } else {
        let c = a[0];
        if c == "rank"@ {
            match sort_at(a, 1) {
                Err(e) => Err(e),
                Ok(sort) => match int_at(a, 2, 1) {
                    Err(e) => Err(e),
                    Ok(page) => Ok(MarketRequestView::Rank { sort, page }),
                },
            }
        } else if c == "list"@ {
            match sort_at(a, 1) {
                Err(e) => Err(e),
                Ok(sort) => match int_at(a, 4, 1) {
                    Err(e) => Err(e),
                    Ok(page) => Ok(MarketRequestView::List { sort, type_filter: arg_at(a, 2), category: arg_at(a, 3), page }),
                },
            }
        } else if c == "search"@ {
            match arg_at(a, 1) {
                None => Err("usage: operit2 market search <query> [sort] [type|-] [category|-]"@),
                Some(query) => match sort_at(a, 2) {
                    Err(e) => Err(e),
                    Ok(sort) => Ok(MarketRequestView::Search { query, sort, type_filter: arg_at(a, 3), category: arg_at(a, 4) }),
                },
            }
        } else if c == "show"@ {
            match arg_at(a, 1) {
                None => Err("usage: operit2 market show <entryId>"@),
                Some(entry_id) => Ok(MarketRequestView::Show { entry_id }),
            }
        } else if c == "comments"@ {
            match arg_at(a, 1) {
                None => Err("usage: operit2 market comments <entryId> [page]"@),
                Some(entry_id) => match int_at(a, 2, 1) {
                    Err(e) => Err(e),
                    Ok(page) => Ok(MarketRequestView::Comments { entry_id, page }),
                },
            }
        } else if c == "comment"@ {
            Ok(MarketRequestView::Comment { args: a.subrange(1, a.len() as int) })
        } else if c == "like"@ {
            match arg_at(a, 1) {
                None => Err("usage: operit2 market like <entryId>"@),
                Some(entry_id) => Ok(MarketRequestView::Like { entry_id }),
            }
        } else if c == "notifications"@ {
            match int_at(a, 1, 50) {
                Err(e) => Err(e),
                Ok(limit) => match int_at(a, 2, 0) {
                    Err(e) => Err(e),
                    Ok(offset) => Ok(MarketRequestView::Notifications { limit, offset }),
                },
            }
        } else if c == "my"@ {
            Ok(MarketRequestView::My)
        } else if c == "publish"@ {
            Ok(MarketRequestView::Publish { args: a.subrange(1, a.len() as int) })
        } else if c == "install"@ {
            match (arg_at(a, 1), arg_at(a, 2)) {
                (Some(entry_id), Some(client_app_version)) =>
                    Ok(MarketRequestView::Install { entry_id, client_app_version, version_id: arg_at(a, 3) }),
                _ => Err("usage: operit2 market install <entryId> <clientAppVersion> [versionId]"@),
            }
        } else if c == "download"@ {
            match arg_at(a, 1) {
                None => Err("usage: operit2 market download <assetId>"@),
                Some(asset_id) => Ok(MarketRequestView::Download { asset_id }),
            }
        } else {
            Ok(MarketRequestView::Usage)
        }
    }
}

/// The argument at position `j`, copied.
fn arg_copy(args: &[String], j: usize) -> (r: Option<String>)
    ensures
        opt_view(r) == arg_at(views(args@), j as int),
{
    if j < args.len() { Some(args[j].clone()) } else { None }
}

/// The sort order at position `j`, `updated` when absent.
fn sort_arg(args: &[String], j: usize) -> (r: Result<String, String>)
    ensures
        match r {
            Ok(s) => sort_at(views(args@), j as int) == Ok::<_, Seq<char>>(s@),
            Err(e) => sort_at(views(args@), j as int) == Err::<Seq<char>, _>(e@),
        },
{
    let raw = if j < args.len() { args[j].as_str() } else { "updated" };
    match normalize_sort(raw) {
        Ok(s) => Ok(String::from_str(s)),
        Err(e) => Err(e),
    }
}

/// The number at position `j`, `default` when absent.
fn int_arg(args: &[String], j: usize, default: i32) -> (r: Result<i32, String>)
    ensures
        match r {
            Ok(n) => int_at(views(args@), j as int, default as int) == Ok::<_, Seq<char>>(n as int),
            Err(e) => int_at(views(args@), j as int, default as int) == Err::<int, _>(e@),
        },
{
    let raw = if j < args.len() { Some(&args[j]) } else { None };
    parse_i32_opt(raw, default)
}

/// The arguments after the first.
fn rest_args(args: &[String]) -> (r: Vec<String>)
    requires
        args@.len() >= 1,
    ensures
        views(r@) == views(args@).subrange(1, args@.len() as int),
{
    let mut r: Vec<String> = Vec::new();
    let mut i: usize = 1;
    while i < args.len()
        invariant
            1 <= i <= args.len(),
            views(r@) =~= views(args@).subrange(1, i as int),
        decreases args.len() - i,
    {
        let ghost before = r@;
        let a = args[i].clone();
        r.push(a);
        proof {
            assert(views(r@) =~= views(before).push(a@));
            assert(views(args@).subrange(1, i + 1) =~= views(args@).subrange(1, i as int).push(args@[i as int]@));
        }
        i = i + 1;
    }
    r
}

/// Reads the arguments of `market` into the request they make.
pub fn parse_market_command(args: &[String]) -> (r: Result<MarketRequest, String>)
    ensures
        match r {
            Ok(req) => market_request(views(args@)) == Ok::<_, Seq<char>>(market_request_view(req)),
            Err(e) => market_request(views(args@)) == Err::<MarketRequestView, _>(e@),
        },
{
    let ghost a = views(args@);
    if args.len() == 0 {
        return Ok(MarketRequest::Usage);
    }
    let c = args[0].as_str();
    assert(a[0] == c@);
    if str_eq(c, "rank") {
        let sort = match sort_arg(args, 1) { Ok(s) => s, Err(e) => return Err(e) };
        let page = match int_arg(args, 2, 1) { Ok(p) => p, Err(e) => return Err(e) };
        Ok(MarketRequest::Rank { sort, page })
    } else if str_eq(c, "list") {
        let sort = match sort_arg(args, 1) { Ok(s) => s, Err(e) => return Err(e) };
        let type_filter = arg_copy(args, 2);
        let category = arg_copy(args, 3);
        let page = match int_arg(args, 4, 1) { Ok(p) => p, Err(e) => return Err(e) };
        Ok(MarketRequest::List { sort, type_filter, category, page })
    } else if str_eq(c, "search") {
        let query = match arg_copy(args, 1) {
            Some(q) => q,
            None => return Err(String::from_str("usage: operit2 market search <query> [sort] [type|-] [category|-]")),
        };
        let sort = match sort_arg(args, 2) { Ok(s) => s, Err(e) => return Err(e) };
        Ok(MarketRequest::Search { query, sort, type_filter: arg_copy(args, 3), category: arg_copy(args, 4) })
    } else if str_eq(c, "show") {
        match arg_copy(args, 1) {
            Some(entry_id) => Ok(MarketRequest::Show { entry_id }),
            None => Err(String::from_str("usage: operit2 market show <entryId>")),
        }
    } else if str_eq(c, "comments") {
        let entry_id = match arg_copy(args, 1) {
            Some(id) => id,
            None => return Err(String::from_str("usage: operit2 market comments <entryId> [page]")),
        };
        let page = match int_arg(args, 2, 1) { Ok(p) => p, Err(e) => return Err(e) };
        Ok(MarketRequest::Comments { entry_id, page })
    } else if str_eq(c, "comment") {
        Ok(MarketRequest::Comment { args: rest_args(args) })
    } else if str_eq(c, "like") {
        match arg_copy(args, 1) {
            Some(entry_id) => Ok(MarketRequest::Like { entry_id }),
            None => Err(String::from_str("usage: operit2 market like <entryId>")),
        }
    } else if str_eq(c, "notifications") {
        let limit = match int_arg(args, 1, 50) { Ok(p) => p, Err(e) => return Err(e) };
        let offset = match int_arg(args, 2, 0) { Ok(p) => p, Err(e) => return Err(e) };
        Ok(MarketRequest::Notifications { limit, offset })
    } else if str_eq(c, "my") {
        Ok(MarketRequest::My)
    } else if str_eq(c, "publish") {
        Ok(MarketRequest::Publish { args: rest_args(args) })
    } else if str_eq(c, "install") {
        match (arg_copy(args, 1), arg_copy(args, 2)) {
            (Some(entry_id), Some(client_app_version)) =>
                Ok(MarketRequest::Install { entry_id, client_app_version, version_id: arg_copy(args, 3) }),
            _ => Err(String::from_str("usage: operit2 market install <entryId> <clientAppVersion> [versionId]")),
        }
    } else if str_eq(c, "download") {
        match arg_copy(args, 1) {
            Some(asset_id) => Ok(MarketRequest::Download { asset_id }),
            None => Err(String::from_str("usage: operit2 market download <assetId>")),
        }
    } else {
        Ok(MarketRequest::Usage)
    }
}

/// What `market comment` asks for.
#[derive(Clone, Debug)]
pub enum MarketCommentRequest {
    Create { entry_id: String, body_arg: String },
    Edit { comment_id: String, body_arg: String },
    Delete { comment_id: String },
}

/// The comment request the arguments make: kind (create 0, edit 1, delete
/// 2), the id and the body argument, or the usage to print.
pub open spec fn comment_spec(a: Seq<Seq<char>>) -> Result<(int, Seq<char>, Seq<char>), Seq<char>> {
    if a.len() == 0 {
        Err("usage: operit2 market comment <entryId> <body-or-@file> | comment edit <commentId> <body-or-@file> | comment delete <commentId>"@)
    } else if a[0] == "edit"@ {
        if a.len() < 3 { Err("usage: operit2 market comment edit <commentId> <body-or-@file>"@) } else { Ok((1, a[1], a[2])) }
    } else if a[0] == "delete"@ {
        if a.len() < 2 { Err("usage: operit2 market comment delete <commentId>"@) } else { Ok((2, a[1], Seq::empty())) }
    } else if a.len() < 2 {
        Err("usage: operit2 market comment <entryId> <body-or-@file>"@)
    } else {
        Ok((0, a[0], a[1]))
    }
}

/// The plain reading of a comment request.
pub open spec fn comment_view(r: MarketCommentRequest) -> (int, Seq<char>, Seq<char>) {
    match r {
        MarketCommentRequest::Create { entry_id, body_arg } => (0, entry_id@, body_arg@),
        MarketCommentRequest::Edit { comment_id, body_arg } => (1, comment_id@, body_arg@),
        MarketCommentRequest::Delete { comment_id } => (2, comment_id@, Seq::empty()),
    }
}

/// Reads the arguments of `market comment`.
pub fn parse_market_comment_args(args: &[String]) -> (r: Result<MarketCommentRequest, String>)
    ensures
        match r {
            Ok(c) => comment_spec(views(args@)) == Ok::<_, Seq<char>>(comment_view(c)),
            Err(e) => comment_spec(views(args@)) == Err::<(int, Seq<char>, Seq<char>), _>(e@),
        },
{
    let ghost a = views(args@);
    if args.len() == 0 {
        return Err(String::from_str("usage: operit2 market comment <entryId> <body-or-@file> | comment edit <commentId> <body-or-@file> | comment delete <commentId>"));
    }
    let c = args[0].as_str();
    assert(a[0] == c@);
    if str_eq(c, "edit") {
        if args.len() < 3 {
            return Err(String::from_str("usage: operit2 market comment edit <commentId> <body-or-@file>"));
        }
        assert(a[1] == args@[1]@ && a[2] == args@[2]@);
        return Ok(MarketCommentRequest::Edit { comment_id: args[1].clone(), body_arg: args[2].clone() });
    }
    if str_eq(c, "delete") {
        if args.len() < 2 {
            return Err(String::from_str("usage: operit2 market comment delete <commentId>"));
        }
        assert(a[1] == args@[1]@);
        return Ok(MarketCommentRequest::Delete { comment_id: args[1].clone() });
    }
    if args.len() < 2 {
        return Err(String::from_str("usage: operit2 market comment <entryId> <body-or-@file>"));
    }
    assert(a[1] == args@[1]@);
    Ok(MarketCommentRequest::Create { entry_id: args[0].clone(), body_arg: args[1].clone() })
}

/// The line confirming a comment request: the edited or deleted comment, or
/// the id the new comment was given.
pub open spec fn comment_done_line(r: MarketCommentRequest, created_id: Seq<char>) -> Seq<char> {
    match r {
        MarketCommentRequest::Create { .. } => "created comment="@ + created_id,
        MarketCommentRequest::Edit { comment_id, .. } => "edited comment="@ + comment_id@,
        MarketCommentRequest::Delete { comment_id } => "deleted comment="@ + comment_id@,
    }
}

/// Confirms a carried-out comment request; `created_id` is the id of a new
/// comment (unused for edits and deletions).
pub fn comment_done_message(request: &MarketCommentRequest, created_id: &str) -> (r: String)
    ensures
        r@ == comment_done_line(*request, created_id@),
{
    match request {
        MarketCommentRequest::Create { .. } => concat("created comment=", created_id),
        MarketCommentRequest::Edit { comment_id, .. } => concat("edited comment=", comment_id.as_str()),
        MarketCommentRequest::Delete { comment_id } => concat("deleted comment=", comment_id.as_str()),
    }
}

/// Which publication `market publish` makes.
#[derive(Clone, Copy, Debug, PartialEq, Eq, Structural)]
pub enum MarketPublishKind {
    Artifact,
    Repo,
    VersionArtifact,
    VersionRepo,
    UpdateEntry,
}

/// The least number of arguments each publication takes.
pub open spec fn publish_minimum(k: MarketPublishKind) -> int {
    match k {
        MarketPublishKind::Artifact => 20,
        MarketPublishKind::Repo => 14,
        MarketPublishKind::VersionArtifact => 15,
        MarketPublishKind::VersionRepo => 9,
        MarketPublishKind::UpdateEntry => 6,
    }
}

/// The usage line of each publication.
pub open spec fn publish_usage(k: MarketPublishKind) -> Seq<char> {
    match k {
        MarketPublishKind::Artifact => "usage: operit2 market publish artifact <type> <title> <description-or-@file> <detail-or-@file> <categoryId> <allowPublicUpdates> <version> <formatVer> <minAppVer> <maxAppVer-or-> <changelog-or-> <projectId> <runtimePackageId> <assetKind> <assetUrl> <ghOwner> <ghRepo> <ghReleaseTag> <assetName> <sha256>"@,
        MarketPublishKind::Repo => "usage: operit2 market publish repo <type> <title> <description-or-@file> <detail-or-@file> <categoryId> <allowPublicUpdates> <sourceUrl> <refType> <refName> <installConfig-or-@file> <version> <formatVer> <minAppVer> <maxAppVer-or-> <changelog-or->"@,
        MarketPublishKind::VersionArtifact => "usage: operit2 market publish version artifact <entryId> <version> <formatVer> <minAppVer> <maxAppVer-or-> <changelog-or-> <projectId> <runtimePackageId> <assetKind> <assetUrl> <ghOwner> <ghRepo> <ghReleaseTag> <assetName> <sha256> [entryTitle|-] [entryDescription-or-] [entryDetail-or-] [entryCategoryId|-] [entryAllowPublicUpdates|-]"@,
        MarketPublishKind::VersionRepo => "usage: operit2 market publish version repo <entryId> <version> <formatVer> <minAppVer> <maxAppVer-or-> <changelog-or-> <refType> <refName> <installConfig-or-@file> [entryTitle|-] [entryDescription-or-] [entryDetail-or-] [entryCategoryId|-] [entryAllowPublicUpdates|-]"@,
        MarketPublishKind::UpdateEntry => "usage: operit2 market publish update-entry <entryId> <title-or-> <description-or-@file-or-> <detail-or-@file-or-> <categoryId-or-> <allowPublicUpdates-or->"@,
    }
}

/// The publication the arguments name and where its own arguments start.
pub open spec fn publish_kind(a: Seq<Seq<char>>) -> Result<(MarketPublishKind, int), Seq<char>> {
    if a.len() >= 1 && a[0] == "artifact"@ {
        Ok((MarketPublishKind::Artifact, 1))
    } else if a.len() >= 1 && a[0] == "repo"@ {
        Ok((MarketPublishKind::Repo, 1))
    } else if a.len() >= 1 && a[0] == "update-entry"@ {
        Ok((MarketPublishKind::UpdateEntry, 1))
    } else if a.len() >= 1 && a[0] == "version"@ {
        if a.len() >= 2 && a[1] == "artifact"@ {
            Ok((MarketPublishKind::VersionArtifact, 2))
        } else if a.len() >= 2 && a[1] == "repo"@ {
            Ok((MarketPublishKind::VersionRepo, 2))
        } else {
            Err("usage: operit2 market publish version <artifact|repo> ..."@)
        }
    } else {
        Err("usage: operit2 market publish <artifact|repo|version|update-entry> ..."@)
    }
}

/// The publication and its arguments, or the usage to print: each
/// publication needs at least its number of arguments.
pub open spec fn publish_spec(a: Seq<Seq<char>>) -> Result<(MarketPublishKind, Seq<Seq<char>>), Seq<char>> {
    match publish_kind(a) {
        Err(e) => Err(e),
        Ok((k, start)) => if a.len() - start < publish_minimum(k) {
            Err(publish_usage(k))
        } else {
            Ok((k, a.subrange(start, a.len() as int)))
        },
    }
}

/// The arguments from position `start` on, copied.
fn args_from(args: &[String], start: usize) -> (r: Vec<String>)
    requires
        start <= args@.len(),
    ensures
        views(r@) == views(args@).subrange(start as int, args@.len() as int),
{
    let mut r: Vec<String> = Vec::new();
    let mut i: usize = start;
    while i < args.len()
        invariant
            start <= i <= args.len(),
            views(r@) =~= views(args@).subrange(start as int, i as int),
        decreases args.len() - i,
    {
        let ghost before = r@;
        let a = args[i].clone();
        r.push(a);
        proof {
            assert(views(r@) =~= views(before).push(a@));
            assert(views(args@).subrange(start as int, i + 1) =~= views(args@).subrange(start as int, i as int).push(args@[i as int]@));
        }
        i = i + 1;
    }
    r
}

/// Reads the arguments of `market publish`: which publication, and its
/// arguments when there are enough of them.
pub fn parse_market_publish_args(args: &[String]) -> (r: Result<(MarketPublishKind, Vec<String>), String>)
    ensures
        match r {
            Ok((k, rest)) => publish_spec(views(args@)) == Ok::<_, Seq<char>>((k, views(rest@))),
            Err(e) => publish_spec(views(args@)) == Err::<(MarketPublishKind, Seq<Seq<char>>), _>(e@),
        },
{
    let ghost a = views(args@);
    let mut kind = MarketPublishKind::Artifact;
    let mut start: usize = 1;
    if args.len() == 0 {
        return Err(String::from_str("usage: operit2 market publish <artifact|repo|version|update-entry> ..."));
    }
    let c = args[0].as_str();
    assert(a[0] == c@);
    if str_eq(c, "artifact") {
        kind = MarketPublishKind::Artifact;
    } else if str_eq(c, "repo") {
        kind = MarketPublishKind::Repo;
    } else if str_eq(c, "update-entry") {
        kind = MarketPublishKind::UpdateEntry;
    } else if str_eq(c, "version") {
        if args.len() >= 2 && str_eq(args[1].as_str(), "artifact") {
            assert(a[1] == args@[1]@);
            kind = MarketPublishKind::VersionArtifact;
        } else if args.len() >= 2 && str_eq(args[1].as_str(), "repo") {
            assert(a[1] == args@[1]@);
            kind = MarketPublishKind::VersionRepo;
        } else {
            proof {
                if a.len() >= 2 {
                    assert(a[1] == args@[1]@);
                }
            }
            return Err(String::from_str("usage: operit2 market publish version <artifact|repo> ..."));
        }
        start = 2;
    } else {
        return Err(String::from_str("usage: operit2 market publish <artifact|repo|version|update-entry> ..."));
    }
    let minimum: usize = match kind {
        MarketPublishKind::Artifact => 20,
        MarketPublishKind::Repo => 14,
        MarketPublishKind::VersionArtifact => 15,
        MarketPublishKind::VersionRepo => 9,
        MarketPublishKind::UpdateEntry => 6,
    };
    if args.len() - start < minimum {
        let usage = match kind {
            MarketPublishKind::Artifact => "usage: operit2 market publish artifact <type> <title> <description-or-@file> <detail-or-@file> <categoryId> <allowPublicUpdates> <version> <formatVer> <minAppVer> <maxAppVer-or-> <changelog-or-> <projectId> <runtimePackageId> <assetKind> <assetUrl> <ghOwner> <ghRepo> <ghReleaseTag> <assetName> <sha256>",
            MarketPublishKind::Repo => "usage: operit2 market publish repo <type> <title> <description-or-@file> <detail-or-@file> <categoryId> <allowPublicUpdates> <sourceUrl> <refType> <refName> <installConfig-or-@file> <version> <formatVer> <minAppVer> <maxAppVer-or-> <changelog-or->",
            MarketPublishKind::VersionArtifact => "usage: operit2 market publish version artifact <entryId> <version> <formatVer> <minAppVer> <maxAppVer-or-> <changelog-or-> <projectId> <runtimePackageId> <assetKind> <assetUrl> <ghOwner> <ghRepo> <ghReleaseTag> <assetName> <sha256> [entryTitle|-] [entryDescription-or-] [entryDetail-or-] [entryCategoryId|-] [entryAllowPublicUpdates|-]",
            MarketPublishKind::VersionRepo => "usage: operit2 market publish version repo <entryId> <version> <formatVer> <minAppVer> <maxAppVer-or-> <changelog-or-> <refType> <refName> <installConfig-or-@file> [entryTitle|-] [entryDescription-or-] [entryDetail-or-] [entryCategoryId|-] [entryAllowPublicUpdates|-]",
            MarketPublishKind::UpdateEntry => "usage: operit2 market publish update-entry <entryId> <title-or-> <description-or-@file-or-> <detail-or-@file-or-> <categoryId-or-> <allowPublicUpdates-or->",
        };
        return Err(String::from_str(usage));
    }
    let rest = args_from(args, start);
    Ok((kind, rest))
}

} // verus!
