//! Where each public Rust SDK item is declared in TypeScript: its namespace
//! path and declaration kind, the catalog of every item by name, and the
//! comparison of generated declarations with the committed ones.
use vstd::prelude::*;
use crate::declarations::{prefixed, prefixed_path, DeclarationFile};
use crate::num::{decimal, u64_to_string};
use crate::text::{has_prefix, join, join_strings, split_char, split_on, str_eq, trim, trim_string, views};

verus! {

/// The kinds of public items the declarations are built from.
#[derive(Clone, Copy, Debug, PartialEq, Eq, Structural)]
pub enum RustItemKind {
    Struct,
    Enum,
    TypeAlias,
    Trait,
}

/// What the declaration builder reads of one public Rust SDK item: its kind
/// and name, whether a struct's fields are unnamed, and each named field's
/// identifier with its attributes (last path segment, argument token text).
#[derive(Clone, Debug)]
pub struct PublicItem {
    pub kind: RustItemKind,
    pub name: String,
    pub unnamed_fields: bool,
    pub fields: Vec<(Option<String>, Vec<(String, Option<String>)>)>,
}

/// The plain values of attributes.
pub open spec fn attr_views(attrs: Seq<(String, Option<String>)>) -> Seq<(Seq<char>, Option<Seq<char>>)> {
    attrs.map_values(|a: (String, Option<String>)| (a.0@, match a.1 { Some(t) => Some(t@), None => None }))
}

/// The plain values of fields.
pub open spec fn field_views(fs: Seq<(Option<String>, Vec<(String, Option<String>)>)>) -> Seq<(Option<Seq<char>>, Seq<(Seq<char>, Option<Seq<char>>)>)> {
    fs.map_values(|f: (Option<String>, Vec<(String, Option<String>)>)| (match f.0 { Some(i) => Some(i@), None => None }, attr_views(f.1@)))
}

/// Whether a `serde(..)` argument list names `flatten` among its
/// comma-separated arguments.
pub open spec fn lists_flatten(tokens: Seq<char>) -> bool {
    exists|i: int| 0 <= i < split_on(tokens, ',').len() && trim(#[trigger] split_on(tokens, ',')[i]) == "flatten"@
}

/// Whether some attribute is `#[serde(.., flatten, ..)]`.
pub open spec fn serde_flatten(attrs: Seq<(Seq<char>, Option<Seq<char>>)>) -> bool {
    exists|i: int| 0 <= i < attrs.len() && (#[trigger] attrs[i]).0 == "serde"@
        && (attrs[i].1 matches Some(t) && lists_flatten(t))
}

/// A named struct whose fields all flatten other structs, or are numbered
/// `member_1`, `member_2`, ...: a TypeScript intersection.
pub open spec fn flattened_intersection(unnamed: bool, fs: Seq<(Option<Seq<char>>, Seq<(Seq<char>, Option<Seq<char>>)>)>) -> bool {
    &&& !unnamed
    &&& fs.len() > 1
    &&& ((forall|k: int| 0 <= k < fs.len() ==> serde_flatten((#[trigger] fs[k]).1))
        || (forall|k: int| 0 <= k < fs.len() ==> (#[trigger] fs[k]).0 == Some("member_"@ + decimal(k + 1))))
}

/// Whether a `serde(..)` argument text names `flatten`.
fn names_flatten(tokens: &str) -> (r: bool)
    ensures
        r == lists_flatten(tokens@),
{
    let pieces = split_char(tokens, ',');
    let mut i: usize = 0;
    while i < pieces.len()
        invariant
            i <= pieces.len(),
            views(pieces@) == split_on(tokens@, ','),
            forall|k: int| 0 <= k < i ==> trim(#[trigger] split_on(tokens@, ',')[k]) != "flatten"@,
        decreases pieces.len() - i,
    {
        let t = trim_string(pieces[i].as_str());
        assert(split_on(tokens@, ',')[i as int] == pieces@[i as int]@);
        if str_eq(t.as_str(), "flatten") {
            return true;
        }
        i = i + 1;
    }
    false
}

/// Reports whether serde flatten metadata exists on a Rust field.
pub fn has_serde_flatten(attrs: &Vec<(String, Option<String>)>) -> (r: bool)
    ensures
        r == serde_flatten(attr_views(attrs@)),
{
    let ghost a = attr_views(attrs@);
    let mut i: usize = 0;
    while i < attrs.len()
        invariant
            i <= attrs.len(),
            a == attr_views(attrs@),
            forall|k: int| 0 <= k < i ==> !((#[trigger] a[k]).0 == "serde"@ && (a[k].1 matches Some(t) && lists_flatten(t))),
        decreases attrs.len() - i,
    {
        assert(a[i as int] == (attrs@[i as int].0@, match attrs@[i as int].1 { Some(t) => Some(t@), None => None::<Seq<char>> }));
        if str_eq(attrs[i].0.as_str(), "serde") {
            match &attrs[i].1 {
                Some(t) => {
                    if names_flatten(t.as_str()) {
                        return true;
                    }
                },
                None => {},
            }
        }
        i = i + 1;
    }
    false
}

/// Reports whether a Rust struct represents a pure TypeScript intersection.
pub fn is_flattened_intersection(item: &PublicItem) -> (r: bool)
    ensures
        r == flattened_intersection(item.unnamed_fields, field_views(item.fields@)),
{
    let ghost fs = field_views(item.fields@);
    if item.unnamed_fields || item.fields.len() <= 1 {
        return false;
    }
    let mut all_flat = true;
    let mut all_numbered = true;
    let mut k: usize = 0;
    while k < item.fields.len()
        invariant
            k <= item.fields.len(),
            fs == field_views(item.fields@),
            all_flat == forall|j: int| 0 <= j < k ==> serde_flatten((#[trigger] fs[j]).1),
            all_numbered == forall|j: int| 0 <= j < k ==> (#[trigger] fs[j]).0 == Some("member_"@ + decimal(j + 1)),
        decreases item.fields.len() - k,
    {
        let f = &item.fields[k];
        assert(fs[k as int] == (match f.0 { Some(i) => Some(i@), None => None::<Seq<char>> }, attr_views(f.1@)));
        if !has_serde_flatten(&f.1) {
            all_flat = false;
        }
        let mut expected = String::from_str("member_");
        expected.append(u64_to_string(k as u64 + 1).as_str());
        let numbered = match &f.0 {
            Some(i) => str_eq(i.as_str(), expected.as_str()),
            None => false,
        };
        if !numbered {
            all_numbered = false;
        }
        k = k + 1;
    }
    all_flat || all_numbered
}

/// The default TypeScript category of an item.
pub open spec fn default_kind(item_kind: RustItemKind, intersection: bool, unnamed: bool) -> Seq<char> {
    match item_kind {
        RustItemKind::Struct => if unnamed || intersection { "type"@ } else { "interface"@ },
        RustItemKind::Trait => "interface"@,
        RustItemKind::Enum => "type"@,
        RustItemKind::TypeAlias => "type"@,
    }
}

/// The namespace a host trait's functions are declared in.
pub open spec fn host_namespace(name: Seq<char>) -> Option<Seq<Seq<char>>> {
    if name == "FilesHost"@ { Some(seq!["Files"@]) }
    else if name == "NetHost"@ { Some(seq!["Net"@]) }
    else if name == "NetFutureHost"@ { Some(seq!["Net"@]) }
    else if name == "SystemHost"@ { Some(seq!["System"@]) }
    else if name == "SystemBluetoothHost"@ { Some(seq!["System"@, "bluetooth"@]) }
    else if name == "SystemBluetoothBleHost"@ { Some(seq!["System"@, "bluetooth"@, "ble"@]) }
    else if name == "SystemTerminalHost"@ { Some(seq!["System"@, "terminal"@]) }
    else if name == "SystemMusicHost"@ { Some(seq!["System"@, "music"@]) }
    else if name == "SoftwareSettingsHost"@ { Some(seq!["SoftwareSettings"@]) }
    else if name == "UIHost"@ { Some(seq!["UI"@]) }
    else if name == "ChatHost"@ { Some(seq!["Chat"@]) }
    else if name == "MemoryHost"@ { Some(seq!["Memory"@]) }
    else if name == "NativeInterfaceHost"@ { Some(seq!["NativeInterface"@]) }
    else if name == "GlobalHost"@ { Some(seq!["global"@]) }
    else { None }
}

/// The global variable an item declares, if it is one.
pub open spec fn variable_path(name: Seq<char>) -> Option<Seq<Seq<char>>> {
    if name == "LodashGlobal"@ { Some(seq!["_"@]) }
    else if name == "DataUtilsGlobal"@ { Some(seq!["dataUtils"@]) }
    else if name == "CommonJsExports"@ { Some(seq!["exports"@]) }
    else if name == "NetCookiesBinding"@ { Some(seq!["Net"@, "cookies"@]) }
    else if name == "ToolPkgGlobalBinding"@ { Some(seq!["global"@, "ToolPkg"@]) }
    else { None }
}

/// `s` ends with `suffix`.
pub open spec fn has_suffix(s: Seq<char>, suffix: Seq<char>) -> bool {
    suffix.len() <= s.len() && s.subrange(s.len() - suffix.len(), s.len() as int) == suffix
}

/// The name an item is declared under: without a `Methods` suffix.
pub open spec fn declaration_name(name: Seq<char>) -> Seq<char> {
    if has_suffix(name, "Methods"@) { name.subrange(0, name.len() - 7) } else { name }
}

/// The declaration path of an item in a module, by the module's namespace.
pub open spec fn namespace_path(d: Seq<char>, ts_file: Seq<char>) -> Seq<Seq<char>> {
    if ts_file == "files.d.ts"@ { prefixed(d, "Files"@) }
    else if ts_file == "network.d.ts"@ { prefixed(d, "Net"@) }
    else if ts_file == "system.d.ts"@ { prefixed(d, "System"@) }
    else if ts_file == "software_settings.d.ts"@ { prefixed(d, "SoftwareSettings"@) }
    else if ts_file == "ui.d.ts"@ { if has_prefix(d, "UINode"@) { seq![d] } else { prefixed(d, "UI"@) } }
    else if ts_file == "chat.d.ts"@ { prefixed(d, "Chat"@) }
    else if ts_file == "memory.d.ts"@ { prefixed(d, "Memory"@) }
    else if ts_file == "toolpkg.d.ts"@ { prefixed(d, "ToolPkg"@) }
    else { seq![d] }
}

/// Where an item is declared in a TypeScript module (its namespace path)
/// and as what, or nothing for an item that is not declared.
pub open spec fn inferred_declaration(kind: RustItemKind, name: Seq<char>, intersection: bool, unnamed: bool, ts_file: Seq<char>) -> Option<(Seq<Seq<char>>, Seq<char>)> {
    if name == "ToolPkgBroadcastTopicKey"@ {
        None
    } else if variable_path(name) is Some {
        Some((variable_path(name)->Some_0, "variable"@))
    } else if kind == RustItemKind::Enum && has_suffix(name, "TypeMap"@) {
        Some((if ts_file == "toolpkg.d.ts"@ { prefixed(name, "ToolPkg"@) } else { seq![name] }, "type_map"@))
    } else if name == "ComposeNumberExtensions"@ {
        Some((seq!["global"@, "Number"@], "interface"@))
    } else if kind == RustItemKind::Trait && host_namespace(name) is Some {
        Some((host_namespace(name)->Some_0, "namespace"@))
    } else {
        Some((namespace_path(declaration_name(name), ts_file),
            if name == "UINode"@ { "class"@ } else { default_kind(kind, intersection, unnamed) }))
    }
}

/// The declaration an item gets.
pub open spec fn item_declaration(item: PublicItem, ts_file: Seq<char>) -> Option<(Seq<Seq<char>>, Seq<char>)> {
    inferred_declaration(item.kind, item.name@, flattened_intersection(item.unnamed_fields, field_views(item.fields@)),
        item.unnamed_fields, ts_file)
}

/// Strings from literals.
fn strings(items: &[&str]) -> (r: Vec<String>)
    ensures
        r@.len() == items@.len(),
        forall|i: int| 0 <= i < items@.len() ==> (#[trigger] r@[i])@ == items@[i]@,
{
    let mut r: Vec<String> = Vec::new();
    let mut i: usize = 0;
    while i < items.len()
        invariant
            i <= items.len(),
            r@.len() == i,
            forall|k: int| 0 <= k < i ==> (#[trigger] r@[k])@ == items@[k]@,
        decreases items.len() - i,
    {
        r.push(String::from_str(items[i]));
        i = i + 1;
    }
    r
}

/// The global variable an item declares, if it is one.
fn variable_of(name: &str) -> (r: Option<Vec<String>>)
    ensures
        match r {
            Some(p) => variable_path(name@) == Some(views(p@)),
            None => variable_path(name@) is None,
        },
{
    let path: Option<Vec<String>> = if str_eq(name, "LodashGlobal") { Some(strings(&["_"])) }
        else if str_eq(name, "DataUtilsGlobal") { Some(strings(&["dataUtils"])) }
        else if str_eq(name, "CommonJsExports") { Some(strings(&["exports"])) }
        else if str_eq(name, "NetCookiesBinding") { Some(strings(&["Net", "cookies"])) }
        else if str_eq(name, "ToolPkgGlobalBinding") { Some(strings(&["global", "ToolPkg"])) }
        else { None };
    match &path {
        Some(p) => { assert(views(p@) =~= variable_path(name@)->Some_0); },
        None => {},
    }
    path
}

/// The namespace a host trait's functions are declared in.
fn host_namespace_of(name: &str) -> (r: Option<Vec<String>>)
    ensures
        match r {
            Some(p) => host_namespace(name@) == Some(views(p@)),
            None => host_namespace(name@) is None,
        },
{
    let path: Option<Vec<String>> = if str_eq(name, "FilesHost") { Some(strings(&["Files"])) }
        else if str_eq(name, "NetHost") { Some(strings(&["Net"])) }
        else if str_eq(name, "NetFutureHost") { Some(strings(&["Net"])) }
        else if str_eq(name, "SystemHost") { Some(strings(&["System"])) }
        else if str_eq(name, "SystemBluetoothHost") { Some(strings(&["System", "bluetooth"])) }
        else if str_eq(name, "SystemBluetoothBleHost") { Some(strings(&["System", "bluetooth", "ble"])) }
        else if str_eq(name, "SystemTerminalHost") { Some(strings(&["System", "terminal"])) }
        else if str_eq(name, "SystemMusicHost") { Some(strings(&["System", "music"])) }
        else if str_eq(name, "SoftwareSettingsHost") { Some(strings(&["SoftwareSettings"])) }
        else if str_eq(name, "UIHost") { Some(strings(&["UI"])) }
        else if str_eq(name, "ChatHost") { Some(strings(&["Chat"])) }
        else if str_eq(name, "MemoryHost") { Some(strings(&["Memory"])) }
        else if str_eq(name, "NativeInterfaceHost") { Some(strings(&["NativeInterface"])) }
        else if str_eq(name, "GlobalHost") { Some(strings(&["global"])) }
        else { None };
    match &path {
        Some(p) => { assert(views(p@) =~= host_namespace(name@)->Some_0); },
        None => {},
    }
    path
}

/// Whether `s` ends with `suffix`.
fn ends_with(s: &str, suffix: &str) -> (r: bool)
    ensures
        r == has_suffix(s@, suffix@),
{
    let v = crate::text::chars_of(s);
    let w = crate::text::chars_of(suffix);
    if w.len() > v.len() {
        return false;
    }
    crate::text::matches_at(&v, &w, v.len() - w.len())
}

/// The name an item is declared under.
fn declared_name(name: &str) -> (r: String)
    ensures
        r@ == declaration_name(name@),
{
    if ends_with(name, "Methods") {
        proof { reveal_strlit("Methods"); }
        let v = crate::text::chars_of(name);
        crate::text::string_of_range(&v, 0, v.len() - 7)
    } else {
        String::from_str(name)
    }
}

/// The declaration path of an item in a module.
fn module_declaration_path(d: &str, ts_file: &str) -> (r: Vec<String>)
    ensures
        views(r@) == namespace_path(d@, ts_file@),
{
    if str_eq(ts_file, "files.d.ts") { prefixed_path(d, "Files") }
    else if str_eq(ts_file, "network.d.ts") { prefixed_path(d, "Net") }
    else if str_eq(ts_file, "system.d.ts") { prefixed_path(d, "System") }
    else if str_eq(ts_file, "software_settings.d.ts") { prefixed_path(d, "SoftwareSettings") }
    else if str_eq(ts_file, "ui.d.ts") {
        if crate::text::starts_with(d, "UINode") {
            let r = strings(&[d]);
            assert(views(r@) =~= seq![d@]);
            r
        } else {
            prefixed_path(d, "UI")
        }
    }
    else if str_eq(ts_file, "chat.d.ts") { prefixed_path(d, "Chat") }
    else if str_eq(ts_file, "memory.d.ts") { prefixed_path(d, "Memory") }
    else if str_eq(ts_file, "toolpkg.d.ts") { prefixed_path(d, "ToolPkg") }
    else {
        let r = strings(&[d]);
        assert(views(r@) =~= seq![d@]);
        r
    }
}

/// Infers where a public item is declared in a TypeScript module, and as
/// what; nothing for an item that is not declared.
pub fn infer_declaration(item: &PublicItem, ts_file: &str) -> (r: Option<(Vec<String>, String)>)
    ensures
        match r {
            Some((path, kind)) => item_declaration(*item, ts_file@) == Some((views(path@), kind@)),
            None => item_declaration(*item, ts_file@) is None,
        },
{
    let name = item.name.as_str();
    if str_eq(name, "ToolPkgBroadcastTopicKey") {
        return None;
    }
    match variable_of(name) {
        Some(p) => return Some((p, String::from_str("variable"))),
        None => {},
    }
    if item.kind == RustItemKind::Enum && ends_with(name, "TypeMap") {
        let path = if str_eq(ts_file, "toolpkg.d.ts") {
            prefixed_path(name, "ToolPkg")
        } else {
            let r = strings(&[name]);
            assert(views(r@) =~= seq![name@]);
            r
        };
        return Some((path, String::from_str("type_map")));
    }
    if str_eq(name, "ComposeNumberExtensions") {
        let r = strings(&["global", "Number"]);
        assert(views(r@) =~= seq!["global"@, "Number"@]);
        return Some((r, String::from_str("interface")));
    }
    if item.kind == RustItemKind::Trait {
        match host_namespace_of(name) {
            Some(p) => return Some((p, String::from_str("namespace"))),
            None => {},
        }
    }
    let d = declared_name(name);
    let path = module_declaration_path(d.as_str(), ts_file);
    let kind = if str_eq(name, "UINode") {
        String::from_str("class")
    } else {
        let intersection = is_flattened_intersection(item);
        match item.kind {
            RustItemKind::Struct => if item.unnamed_fields || intersection {
                String::from_str("type")
            } else {
                String::from_str("interface")
            },
            RustItemKind::Trait => String::from_str("interface"),
            RustItemKind::Enum => String::from_str("type"),
            RustItemKind::TypeAlias => String::from_str("type"),
        }
    };
    Some((path, kind))
}

/// The names of the generated files that differ from their committed text.
pub open spec fn mismatched_files(generated: Seq<DeclarationFile>, committed: Seq<Seq<char>>) -> Seq<Seq<char>>
    decreases generated.len(),
{
    if generated.len() == 0 {
        Seq::empty()
    } else {
        let n = generated.len() - 1;
        let rest = mismatched_files(generated.drop_last(), committed);
        if generated[n].source@ != committed[n] { rest.push(generated[n].file_name@) } else { rest }
    }
}

/// Checks that the committed declarations (`committed[i]` for the `i`-th
/// generated file) exactly match the generated ones; otherwise names every
/// file that differs.
pub fn check_declaration_tree(generated: &Vec<DeclarationFile>, committed: &Vec<String>) -> (r: Result<(), String>)
    requires
        committed.len() == generated.len(),
    ensures
        match r {
            Ok(_) => mismatched_files(generated@, views(committed@)).len() == 0,
            Err(e) => mismatched_files(generated@, views(committed@)).len() > 0
                && e@ == "TypeScript declarations differ from Rust SDK source: "@
                    + join(mismatched_files(generated@, views(committed@)), ", "@),
        },
{
    let ghost c = views(committed@);
    let mut names: Vec<String> = Vec::new();
    let mut i: usize = 0;
    while i < generated.len()
        invariant
            i <= generated.len(),
            committed.len() == generated.len(),
            c == views(committed@),
            views(names@) =~= mismatched_files(generated@.subrange(0, i as int), c),
        decreases generated.len() - i,
    {
        proof {
            assert(generated@.subrange(0, i + 1).drop_last() =~= generated@.subrange(0, i as int));
            assert(c[i as int] == committed@[i as int]@);
        }
        if !str_eq(generated[i].source.as_str(), committed[i].as_str()) {
            let ghost before = views(names@);
            names.push(generated[i].file_name.clone());
            assert(views(names@) =~= before.push(generated@[i as int].file_name@));
        }
        i = i + 1;
    }
    assert(generated@.subrange(0, generated.len() as int) =~= generated@);
    if names.len() == 0 {
        Ok(())
    } else {
        let mut e = String::from_str("TypeScript declarations differ from Rust SDK source: ");
        e.append(join_strings(&names, ", ").as_str());
        Err(e)
    }
}

/// Where one public Rust SDK type is declared: its TypeScript module and
/// namespace path.
#[derive(Clone, Debug)]
pub struct CatalogEntry {
    pub rust_name: String,
    pub ts_file: String,
    pub path: Vec<String>,
}

/// The plain values of a catalog entry.
pub open spec fn entry_view(e: CatalogEntry) -> (Seq<char>, Seq<char>, Seq<Seq<char>>) {
    (e.rust_name@, e.ts_file@, views(e.path@))
}

/// The plain values of a catalog.
pub open spec fn catalog_views(c: Seq<CatalogEntry>) -> Seq<(Seq<char>, Seq<char>, Seq<Seq<char>>)> {
    c.map_values(|e: CatalogEntry| entry_view(e))
}

/// The position of the entry for `name`, or -1.
pub open spec fn find_entry(c: Seq<(Seq<char>, Seq<char>, Seq<Seq<char>>)>, name: Seq<char>) -> int
    decreases c.len(),
{
    if c.len() == 0 {
        -1
    } else if c.last().0 == name {
        c.len() - 1
    } else {
        find_entry(c.drop_last(), name)
    }
}

/// The refusal of a type declared by two modules.
pub open spec fn declared_twice(name: Seq<char>) -> Seq<char> {
    "Rust SDK type `"@ + name + "` is declared by multiple TypeScript modules"@
}

/// The catalog of the first `n` items (each with its module), one entry per
/// type name in first-seen order, a later declaration replacing the path of
/// an earlier one of the same module; a name declared by two modules is
/// refused.
pub open spec fn catalog_upto(items: Seq<(Seq<char>, PublicItem)>, n: int) -> Result<Seq<(Seq<char>, Seq<char>, Seq<Seq<char>>)>, Seq<char>>
    decreases n,
{
    if n <= 0 {
        Ok(Seq::empty())
    } else {
        match catalog_upto(items, n - 1) {
            Err(e) => Err(e),
            Ok(c) => {
                let ts = items[n - 1].0;
                let it = items[n - 1].1;
                match item_declaration(it, ts) {
                    None => Ok(c),
                    Some((path, _)) => {
                        let k = find_entry(c, it.name@);
                        if k < 0 {
                            Ok(c.push((it.name@, ts, path)))
                        } else if c[k].1 != ts {
                            Err(declared_twice(it.name@))
                        } else {
                            Ok(c.update(k, (it.name@, ts, path)))
                        }
                    },
                }
            },
        }
    }
}

pub proof fn lemma_find_entry(c: Seq<(Seq<char>, Seq<char>, Seq<Seq<char>>)>, name: Seq<char>)
    ensures
        -1 <= find_entry(c, name) < c.len(),
        find_entry(c, name) >= 0 ==> c[find_entry(c, name)].0 == name,
    decreases c.len(),
{
    if c.len() > 0 {
        lemma_find_entry(c.drop_last(), name);
    }
}

proof fn lemma_catalog_err_stays(items: Seq<(Seq<char>, PublicItem)>, n: int, m: int)
    requires
        0 <= n <= m,
        catalog_upto(items, n) is Err,
    ensures
        catalog_upto(items, m) == catalog_upto(items, n),
    decreases m - n,
{
    if m > n {
        lemma_catalog_err_stays(items, n, m - 1);
    }
}

/// The position of the entry for `name`, searched from the end.
fn find_catalog_entry(c: &Vec<CatalogEntry>, name: &str) -> (r: Option<usize>)
    ensures
        match r {
            Some(k) => k < c.len() && find_entry(catalog_views(c@), name@) == k,
            None => find_entry(catalog_views(c@), name@) == -1,
        },
{
    let ghost all = catalog_views(c@);
    let mut i: usize = c.len();
    assert(all.subrange(0, i as int) =~= all);
    while i > 0
        invariant
            i <= c.len(),
            all == catalog_views(c@),
            find_entry(all, name@) == find_entry(all.subrange(0, i as int), name@),
        decreases i,
    {
        let ghost pre = all.subrange(0, i as int);
        assert(pre.drop_last() =~= all.subrange(0, i - 1));
        assert(pre.last() == entry_view(c@[i - 1]));
        if str_eq(c[i - 1].rust_name.as_str(), name) {
            return Some(i - 1);
        }
        i = i - 1;
    }
    None
}

/// The plain values of items with their modules.
pub open spec fn item_views(items: Seq<(String, PublicItem)>) -> Seq<(Seq<char>, PublicItem)> {
    items.map_values(|x: (String, PublicItem)| (x.0@, x.1))
}

/// Indexes every public Rust SDK type (given with the TypeScript module it
/// belongs to, module by module) by its TypeScript module and path; a type
/// declared by two modules is refused.
pub fn build_type_catalog(items: &Vec<(String, PublicItem)>) -> (r: Result<Vec<CatalogEntry>, String>)
    ensures
        match r {
            Ok(c) => catalog_upto(item_views(items@), items@.len() as int) == Ok::<_, Seq<char>>(catalog_views(c@)),
            Err(e) => catalog_upto(item_views(items@), items@.len() as int) == Err::<Seq<(Seq<char>, Seq<char>, Seq<Seq<char>>)>, _>(e@),
        },
{
    let ghost iv = item_views(items@);
    let mut c: Vec<CatalogEntry> = Vec::new();
    assert(catalog_views(c@) =~= Seq::<(Seq<char>, Seq<char>, Seq<Seq<char>>)>::empty());
    let mut i: usize = 0;
    while i < items.len()
        invariant
            i <= items.len(),
            iv == item_views(items@),
            catalog_upto(iv, i as int) == Ok::<_, Seq<char>>(catalog_views(c@)),
        decreases items.len() - i,
    {
        let ts = &items[i].0;
        let it = &items[i].1;
        assert(iv[i as int] == (ts@, *it));
        let ghost before = catalog_views(c@);
        match infer_declaration(it, ts.as_str()) {
            None => {},
            Some((path, _)) => {
                proof { lemma_find_entry(before, it.name@); }
                match find_catalog_entry(&c, it.name.as_str()) {
                    None => {
                        let e = CatalogEntry { rust_name: it.name.clone(), ts_file: ts.clone(), path };
                        c.push(e);
                        assert(catalog_views(c@) =~= before.push(entry_view(e)));
                    },
                    Some(k) => {
                        if !str_eq(c[k].ts_file.as_str(), ts.as_str()) {
                            let mut e = String::from_str("Rust SDK type `");
                            e.append(it.name.as_str());
                            e.append("` is declared by multiple TypeScript modules");
                            proof {
                                assert(catalog_upto(iv, i + 1) == Err::<Seq<(Seq<char>, Seq<char>, Seq<Seq<char>>)>, Seq<char>>(e@));
                                lemma_catalog_err_stays(iv, i + 1, iv.len() as int);
                            }
                            return Err(e);
                        }
                        let e = CatalogEntry { rust_name: it.name.clone(), ts_file: ts.clone(), path };
                        c.set(k, e);
                        assert(catalog_views(c@) =~= before.update(k as int, entry_view(e)));
                    },
                }
            },
        }
        i = i + 1;
    }
    Ok(c)
}

} // verus!
