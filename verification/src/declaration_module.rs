//! Assembling a generated TypeScript declaration module: how a named Rust
//! type is referred to from a namespace, the type imports that this records
//! per declaration file (kept as an ordered map of ordered name sets), and
//! the module text with its header and import lines.
use vstd::prelude::*;
use crate::declaration_catalog::{catalog_views, find_entry, infer_declaration, item_declaration, CatalogEntry, PublicItem, RustItemKind};
use crate::declarations::{path_starts_with, relative_path, relative_ts_path, ts_module_path, typescript_module_path};
use crate::order::{compare_text, lemma_text_le_antisymmetric, lemma_text_le_total, lemma_text_le_transitive, text_lt};
use crate::text::{chars_of, is_whitespace, join, join_strings, lemma_trim_end_at, str_eq, string_of_range, trim_end, views, is_ws};

verus! {

/// The plain values of an import table: each declaration file with the
/// names imported from it.
pub open spec fn import_views(t: Seq<(String, Vec<String>)>) -> Seq<(Seq<char>, Seq<Seq<char>>)> {
    t.map_values(|e: (String, Vec<String>)| (e.0@, views(e.1@)))
}

/// `x` added to an ordered set of names kept as an ascending sequence.
pub open spec fn insert_name(s: Seq<Seq<char>>, x: Seq<char>) -> Seq<Seq<char>>
    decreases s.len(),
{
    if s.len() == 0 {
        seq![x]
    } else if s[0] == x {
        s
    } else if text_lt(x, s[0]) {
        seq![x] + s
    } else {
        seq![s[0]] + insert_name(s.drop_first(), x)
    }
}

/// `name` recorded as imported from `file` in an ordered map from files to
/// name sets, kept as a sequence ascending by file.
pub open spec fn insert_import(t: Seq<(Seq<char>, Seq<Seq<char>>)>, file: Seq<char>, name: Seq<char>) -> Seq<(Seq<char>, Seq<Seq<char>>)>
    decreases t.len(),
{
    if t.len() == 0 {
        seq![(file, seq![name])]
    } else if t[0].0 == file {
        seq![(file, insert_name(t[0].1, name))] + t.drop_first()
    } else if text_lt(file, t[0].0) {
        seq![(file, seq![name])] + t
    } else {
        seq![t[0]] + insert_import(t.drop_first(), file, name)
    }
}

/// Where the insertion position `p` of `x` is found by a scan (everything
/// before it is smaller, the element at it is not), the insertion keeps
/// the prefix and puts `x` at `p` unless it is there already.
proof fn lemma_insert_name_at(s: Seq<Seq<char>>, x: Seq<char>, p: int)
    requires
        0 <= p <= s.len(),
        forall|k: int| 0 <= k < p ==> text_lt(#[trigger] s[k], x),
        p < s.len() ==> !text_lt(s[p], x),
    ensures
        insert_name(s, x) == s.subrange(0, p) + (if p < s.len() && s[p] == x { s.subrange(p, s.len() as int) } else { seq![x] + s.subrange(p, s.len() as int) }),
    decreases p,
{
    if p == 0 {
        assert(s.subrange(0, 0) =~= Seq::<Seq<char>>::empty());
        assert(s.subrange(0, s.len() as int) =~= s);
        if s.len() > 0 && s[0] != x {
            lemma_text_le_total(x, s[0]);
        }
    } else {
        let t = s.drop_first();
        assert(text_lt(s[0], x));
        if text_lt(x, s[0]) {
            lemma_text_le_antisymmetric(x, s[0]);
        }
        assert forall|k: int| 0 <= k < p - 1 implies text_lt(#[trigger] t[k], x) by {
            assert(t[k] == s[k + 1]);
        }
        lemma_insert_name_at(t, x, p - 1);
        assert(s.subrange(0, p) =~= seq![s[0]] + t.subrange(0, p - 1));
        assert(t.subrange(p - 1, t.len() as int) =~= s.subrange(p, s.len() as int));
    }
}

/// The file-level counterpart of `lemma_insert_name_at`.
proof fn lemma_insert_import_at(t: Seq<(Seq<char>, Seq<Seq<char>>)>, file: Seq<char>, name: Seq<char>, p: int)
    requires
        0 <= p <= t.len(),
        forall|k: int| 0 <= k < p ==> text_lt((#[trigger] t[k]).0, file),
        p < t.len() ==> !text_lt(t[p].0, file),
    ensures
        insert_import(t, file, name) == t.subrange(0, p) + (if p < t.len() && t[p].0 == file {
            seq![(file, insert_name(t[p].1, name))] + t.subrange(p + 1, t.len() as int)
        } else {
            seq![(file, seq![name])] + t.subrange(p, t.len() as int)
        }),
    decreases p,
{
    if p == 0 {
        assert(t.subrange(0, 0) =~= Seq::<(Seq<char>, Seq<Seq<char>>)>::empty());
        assert(t.subrange(0, t.len() as int) =~= t);
        if t.len() > 0 {
            assert(t.subrange(1, t.len() as int) =~= t.drop_first());
            if t[0].0 != file {
                lemma_text_le_total(file, t[0].0);
            }
        }
    } else {
        let u = t.drop_first();
        assert(text_lt(t[0].0, file));
        if text_lt(file, t[0].0) {
            lemma_text_le_antisymmetric(file, t[0].0);
        }
        assert forall|k: int| 0 <= k < p - 1 implies text_lt((#[trigger] u[k]).0, file) by {
            assert(u[k] == t[k + 1]);
        }
        lemma_insert_import_at(u, file, name, p - 1);
        assert(t.subrange(0, p) =~= seq![t[0]] + u.subrange(0, p - 1));
        assert(u.subrange(p - 1, u.len() as int) =~= t.subrange(p, t.len() as int));
        if p < t.len() {
            assert(u.subrange(p, u.len() as int) =~= t.subrange(p + 1, t.len() as int));
        }
    }
}

/// Adds a name to an ascending name set.
fn insert_sorted_name(names: &mut Vec<String>, name: &str)
    ensures
        views(final(names)@) == insert_name(views(old(names)@), name@),
{
    let ghost s = views(names@);
    let mut p: usize = 0;
    while p < names.len()
        invariant
            p <= names.len(),
            s == views(names@),
            forall|k: int| 0 <= k < p ==> text_lt(#[trigger] s[k], name@),
        ensures
            p <= names.len(),
            s == views(names@),
            forall|k: int| 0 <= k < p ==> text_lt(#[trigger] s[k], name@),
            p < names.len() ==> !text_lt(s[p as int], name@),
        decreases names.len() - p,
    {
        if compare_text(names[p].as_str(), name) != Some(true) {
            break;
        }
        p = p + 1;
    }
    proof { lemma_insert_name_at(s, name@, p as int); }
    if p < names.len() && str_eq(names[p].as_str(), name) {
        assert(s.subrange(0, p as int) + s.subrange(p as int, s.len() as int) =~= s);
        return;
    }
    names.insert(p, String::from_str(name));
    assert(views(names@) =~= s.subrange(0, p as int) + (seq![name@] + s.subrange(p as int, s.len() as int)));
}

/// Records that `name` is imported from the declaration file `file`.
pub fn record_import(imports: &mut Vec<(String, Vec<String>)>, file: &str, name: &str)
    ensures
        import_views(final(imports)@) == insert_import(import_views(old(imports)@), file@, name@),
{
    let ghost t = import_views(imports@);
    let mut p: usize = 0;
    while p < imports.len()
        invariant
            p <= imports.len(),
            t == import_views(imports@),
            forall|k: int| 0 <= k < p ==> text_lt((#[trigger] t[k]).0, file@),
        ensures
            p <= imports.len(),
            t == import_views(imports@),
            forall|k: int| 0 <= k < p ==> text_lt((#[trigger] t[k]).0, file@),
            p < imports.len() ==> !text_lt(t[p as int].0, file@),
        decreases imports.len() - p,
    {
        if compare_text(imports[p].0.as_str(), file) != Some(true) {
            break;
        }
        p = p + 1;
    }
    proof { lemma_insert_import_at(t, file@, name@, p as int); }
    if p < imports.len() && str_eq(imports[p].0.as_str(), file) {
        let ghost before = imports@;
        let (f, mut names) = imports.remove(p);
        assert(views(names@) == t[p as int].1);
        insert_sorted_name(&mut names, name);
        imports.insert(p, (f, names));
        assert(imports@ =~= before.update(p as int, imports@[p as int]));
        assert(import_views(imports@) =~= t.subrange(0, p as int) + (seq![(file@, insert_name(t[p as int].1, name@))] + t.subrange(p + 1, t.len() as int)));
    } else {
        let mut names: Vec<String> = Vec::new();
        names.push(String::from_str(name));
        assert(views(names@) =~= seq![name@]);
        imports.insert(p, (String::from_str(file), names));
        assert(import_views(imports@) =~= t.subrange(0, p as int) + (seq![(file@, seq![name@])] + t.subrange(p as int, t.len() as int)));
    }
}

/// Names in strictly ascending order: an ordered set.
pub open spec fn ascending(s: Seq<Seq<char>>) -> bool {
    forall|i: int, j: int| 0 <= i < j < s.len() ==> text_lt(#[trigger] s[i], #[trigger] s[j])
}

/// An import table ordered as a map from files to ordered name sets: files
/// strictly ascending, each file's names strictly ascending.
pub open spec fn imports_ordered(t: Seq<(Seq<char>, Seq<Seq<char>>)>) -> bool {
    &&& forall|i: int, j: int| 0 <= i < j < t.len() ==> text_lt((#[trigger] t[i]).0, (#[trigger] t[j]).0)
    &&& forall|i: int| 0 <= i < t.len() ==> ascending((#[trigger] t[i]).1)
}

proof fn lemma_text_lt_transitive(a: Seq<char>, b: Seq<char>, c: Seq<char>)
    requires
        text_lt(a, b),
        text_lt(b, c),
    ensures
        text_lt(a, c),
{
    lemma_text_le_transitive(a, b, c);
    if a == c {
        lemma_text_le_antisymmetric(a, b);
    }
}

/// Adding a name to an ordered set keeps it ordered, lists the name, and
/// adds nothing else.
proof fn lemma_insert_name_ordered(s: Seq<Seq<char>>, x: Seq<char>)
    requires
        ascending(s),
    ensures
        ascending(insert_name(s, x)),
        insert_name(s, x).contains(x),
        forall|k: int| 0 <= k < insert_name(s, x).len() ==> #[trigger] insert_name(s, x)[k] == x || s.contains(insert_name(s, x)[k]),
    decreases s.len(),
{
    let r = insert_name(s, x);
    if s.len() == 0 {
        assert(r[0] == x);
    } else if s[0] == x {
        assert(r[0] == x);
    } else if text_lt(x, s[0]) {
        assert(r[0] == x);
        assert forall|i: int, j: int| 0 <= i < j < r.len() implies text_lt(#[trigger] r[i], #[trigger] r[j]) by {
            if i == 0 {
                if j > 1 {
                    lemma_text_lt_transitive(x, s[0], s[j - 1]);
                }
            } else {
                assert(r[i] == s[i - 1] && r[j] == s[j - 1]);
            }
        }
        assert forall|k: int| 0 <= k < r.len() implies #[trigger] r[k] == x || s.contains(r[k]) by {
            if k > 0 {
                assert(r[k] == s[k - 1]);
            }
        }
    } else {
        lemma_text_le_total(x, s[0]);
        let t = s.drop_first();
        assert forall|i: int, j: int| 0 <= i < j < t.len() implies text_lt(#[trigger] t[i], #[trigger] t[j]) by {
            assert(t[i] == s[i + 1] && t[j] == s[j + 1]);
        }
        lemma_insert_name_ordered(t, x);
        let rt = insert_name(t, x);
        assert(r == seq![s[0]] + rt);
        assert(rt.contains(x));
        let w = choose|k: int| 0 <= k < rt.len() && rt[k] == x;
        assert(r[w + 1] == x);
        assert forall|i: int, j: int| 0 <= i < j < r.len() implies text_lt(#[trigger] r[i], #[trigger] r[j]) by {
            if i == 0 {
                assert(r[j] == rt[j - 1]);
                if rt[j - 1] == x {
                } else {
                    let m = choose|m: int| 0 <= m < t.len() && t[m] == rt[j - 1];
                    assert(t[m] == s[m + 1]);
                }
            } else {
                assert(r[i] == rt[i - 1] && r[j] == rt[j - 1]);
            }
        }
        assert forall|k: int| 0 <= k < r.len() implies #[trigger] r[k] == x || s.contains(r[k]) by {
            if k == 0 {
                assert(s[0] == r[0]);
            } else {
                assert(r[k] == rt[k - 1]);
                if rt[k - 1] != x {
                    let m = choose|m: int| 0 <= m < t.len() && t[m] == rt[k - 1];
                    assert(s[m + 1] == r[k]);
                }
            }
        }
    }
}

/// Recording an import in a table ordered as a map from files to ordered
/// name sets keeps it so ordered, and the name is then listed under its
/// file.
pub proof fn law_record_import_keeps_order(t: Seq<(Seq<char>, Seq<Seq<char>>)>, file: Seq<char>, name: Seq<char>)
    requires
        imports_ordered(t),
    ensures
        imports_ordered(insert_import(t, file, name)),
        exists|i: int| 0 <= i < insert_import(t, file, name).len()
            && (#[trigger] insert_import(t, file, name)[i]).0 == file && insert_import(t, file, name)[i].1.contains(name),
        forall|k: int| 0 <= k < insert_import(t, file, name).len() ==>
            (#[trigger] insert_import(t, file, name)[k]).0 == file || exists|m: int| 0 <= m < t.len() && t[m].0 == insert_import(t, file, name)[k].0,
    decreases t.len(),
{
    let r = insert_import(t, file, name);
    if t.len() == 0 {
        assert(r[0].1 == seq![name]);
        assert(r[0].1[0] == name);
    } else if t[0].0 == file {
        lemma_insert_name_ordered(t[0].1, name);
        assert(r[0].0 == file);
        assert forall|i: int, j: int| 0 <= i < j < r.len() implies text_lt((#[trigger] r[i]).0, (#[trigger] r[j]).0) by {
            assert(r[j] == t[j]);
            if i > 0 { assert(r[i] == t[i]); }
        }
        assert forall|i: int| 0 <= i < r.len() implies ascending((#[trigger] r[i]).1) by {
            if i > 0 { assert(r[i] == t[i]); }
        }
        assert forall|k: int| 0 <= k < r.len() implies (#[trigger] r[k]).0 == file || exists|m: int| 0 <= m < t.len() && t[m].0 == r[k].0 by {
            if k > 0 { assert(r[k] == t[k]); }
        }
    } else if text_lt(file, t[0].0) {
        assert(r[0] == (file, seq![name]));
        assert(r[0].1[0] == name);
        assert forall|i: int, j: int| 0 <= i < j < r.len() implies text_lt((#[trigger] r[i]).0, (#[trigger] r[j]).0) by {
            assert(r[j] == t[j - 1]);
            if i == 0 {
                if j > 1 { lemma_text_lt_transitive(file, t[0].0, t[j - 1].0); }
            } else {
                assert(r[i] == t[i - 1]);
            }
        }
        assert forall|i: int| 0 <= i < r.len() implies ascending((#[trigger] r[i]).1) by {
            if i > 0 { assert(r[i] == t[i - 1]); }
        }
        assert forall|k: int| 0 <= k < r.len() implies (#[trigger] r[k]).0 == file || exists|m: int| 0 <= m < t.len() && t[m].0 == r[k].0 by {
            if k > 0 { assert(r[k] == t[k - 1]); }
        }
    } else {
        lemma_text_le_total(file, t[0].0);
        let u = t.drop_first();
        assert forall|i: int, j: int| 0 <= i < j < u.len() implies text_lt((#[trigger] u[i]).0, (#[trigger] u[j]).0) by {
            assert(u[i] == t[i + 1] && u[j] == t[j + 1]);
        }
        assert forall|i: int| 0 <= i < u.len() implies ascending((#[trigger] u[i]).1) by {
            assert(u[i] == t[i + 1]);
        }
        law_record_import_keeps_order(u, file, name);
        let ru = insert_import(u, file, name);
        assert(r == seq![t[0]] + ru);
        let w = choose|i: int| 0 <= i < ru.len() && (#[trigger] ru[i]).0 == file && ru[i].1.contains(name);
        assert(r[w + 1] == ru[w]);
        assert forall|i: int, j: int| 0 <= i < j < r.len() implies text_lt((#[trigger] r[i]).0, (#[trigger] r[j]).0) by {
            if i == 0 {
                assert(r[j] == ru[j - 1]);
                if ru[j - 1].0 != file {
                    let m = choose|m: int| 0 <= m < u.len() && u[m].0 == ru[j - 1].0;
                    assert(u[m] == t[m + 1]);
                }
            } else {
                assert(r[i] == ru[i - 1] && r[j] == ru[j - 1]);
            }
        }
        assert forall|i: int| 0 <= i < r.len() implies ascending((#[trigger] r[i]).1) by {
            if i > 0 { assert(r[i] == ru[i - 1]); }
        }
        assert forall|k: int| 0 <= k < r.len() implies (#[trigger] r[k]).0 == file || exists|m: int| 0 <= m < t.len() && t[m].0 == r[k].0 by {
            if k == 0 {
                assert(t[0].0 == r[0].0);
            } else {
                assert(r[k] == ru[k - 1]);
                if ru[k - 1].0 != file {
                    let m = choose|m: int| 0 <= m < u.len() && u[m].0 == ru[k - 1].0;
                    assert(t[m + 1].0 == r[k].0);
                }
            }
        }
    }
}

/// The plain values of the module's named declaration paths, in the order
/// they were recorded.
pub open spec fn named_path_views(named: Seq<(String, Vec<String>)>) -> Seq<(Seq<char>, Seq<Seq<char>>)> {
    named.map_values(|e: (String, Vec<String>)| (e.0@, views(e.1@)))
}

/// The position of the last recorded path for `name`, or -1: a later
/// declaration of a name replaces an earlier one.
pub open spec fn last_named(named: Seq<(Seq<char>, Seq<Seq<char>>)>, name: Seq<char>) -> int
    decreases named.len(),
{
    if named.len() == 0 {
        -1
    } else if named.last().0 == name {
        named.len() - 1
    } else {
        last_named(named.drop_last(), name)
    }
}

proof fn lemma_last_named(named: Seq<(Seq<char>, Seq<Seq<char>>)>, name: Seq<char>)
    ensures
        -1 <= last_named(named, name) < named.len(),
        last_named(named, name) >= 0 ==> named[last_named(named, name)].0 == name,
    decreases named.len(),
{
    if named.len() > 0 {
        lemma_last_named(named.drop_last(), name);
    }
}

/// How a named Rust type is written from the namespace `scope` of the
/// module `current_file`: by its path in this module relative to the scope;
/// else, for a cataloged type of this module, by its catalog path relative
/// to the scope; for a cataloged type of another module, by its full
/// dotted path; otherwise by its Rust name.
pub open spec fn named_type_text(name: Seq<char>, scope: Seq<Seq<char>>, named: Seq<(Seq<char>, Seq<Seq<char>>)>, catalog: Seq<(Seq<char>, Seq<char>, Seq<Seq<char>>)>, current_file: Seq<char>) -> Seq<char> {
    let k = last_named(named, name);
    let c = find_entry(catalog, name);
    if k >= 0 {
        relative_path(named[k].1, scope)
    } else if c < 0 {
        name
    } else if catalog[c].1 == current_file {
        relative_path(catalog[c].2, scope)
    } else {
        join(catalog[c].2, "."@)
    }
}

/// The import that referring to a named type records: the first segment of
/// the path of a cataloged type of another module, from that module's file.
pub open spec fn named_type_import(name: Seq<char>, named: Seq<(Seq<char>, Seq<Seq<char>>)>, catalog: Seq<(Seq<char>, Seq<char>, Seq<Seq<char>>)>, current_file: Seq<char>) -> Option<(Seq<char>, Seq<char>)> {
    let c = find_entry(catalog, name);
    if last_named(named, name) < 0 && c >= 0 && catalog[c].1 != current_file {
        Some((catalog[c].1, catalog[c].2[0]))
    } else {
        None
    }
}

/// The position of the last recorded path for `name`.
fn find_named(named: &Vec<(String, Vec<String>)>, name: &str) -> (r: Option<usize>)
    ensures
        match r {
            Some(k) => k < named.len() && last_named(named_path_views(named@), name@) == k,
            None => last_named(named_path_views(named@), name@) == -1,
        },
{
    let ghost all = named_path_views(named@);
    let mut i: usize = named.len();
    assert(all.subrange(0, i as int) =~= all);
    while i > 0
        invariant
            i <= named.len(),
            all == named_path_views(named@),
            last_named(all, name@) == last_named(all.subrange(0, i as int), name@),
        decreases i,
    {
        let ghost pre = all.subrange(0, i as int);
        assert(pre.drop_last() =~= all.subrange(0, i - 1));
        if str_eq(named[i - 1].0.as_str(), name) {
            return Some(i - 1);
        }
        i = i - 1;
    }
    None
}

/// The position of the catalog entry for `name`.
fn find_cataloged(catalog: &Vec<CatalogEntry>, name: &str) -> (r: Option<usize>)
    ensures
        match r {
            Some(k) => k < catalog.len() && find_entry(catalog_views(catalog@), name@) == k,
            None => find_entry(catalog_views(catalog@), name@) == -1,
        },
{
    let ghost all = catalog_views(catalog@);
    let mut i: usize = catalog.len();
    assert(all.subrange(0, i as int) =~= all);
    while i > 0
        invariant
            i <= catalog.len(),
            all == catalog_views(catalog@),
            find_entry(all, name@) == find_entry(all.subrange(0, i as int), name@),
        decreases i,
    {
        let ghost pre = all.subrange(0, i as int);
        assert(pre.drop_last() =~= all.subrange(0, i - 1));
        if str_eq(catalog[i - 1].rust_name.as_str(), name) {
            return Some(i - 1);
        }
        i = i - 1;
    }
    None
}

/// Writes a named Rust type as it is referred to from `scope` in the module
/// `current_file`, given the module's own declaration paths (in the order
/// they were recorded) and the catalog of every SDK type; a type of
/// another module is recorded among the module's imports.
pub fn resolve_named_type(rust_name: &str, scope: &Vec<String>, named: &Vec<(String, Vec<String>)>, catalog: &Vec<CatalogEntry>, current_file: &str, imports: &mut Vec<(String, Vec<String>)>) -> (r: String)
    requires
        forall|i: int| 0 <= i < catalog@.len() ==> (#[trigger] catalog@[i]).path@.len() > 0,
    ensures
        r@ == named_type_text(rust_name@, views(scope@), named_path_views(named@), catalog_views(catalog@), current_file@),
        import_views(final(imports)@) == match named_type_import(rust_name@, named_path_views(named@), catalog_views(catalog@), current_file@) {
            Some((file, first)) => insert_import(import_views(old(imports)@), file, first),
            None => import_views(old(imports)@),
        },
{
    proof {
        lemma_last_named(named_path_views(named@), rust_name@);
        crate::declaration_catalog::lemma_find_entry(catalog_views(catalog@), rust_name@);
    }
    match find_named(named, rust_name) {
        Some(k) => {
            assert(named_path_views(named@)[k as int].1 == views(named@[k as int].1@));
            return relative_ts_path(&named[k].1, scope);
        },
        None => {},
    }
    match find_cataloged(catalog, rust_name) {
        None => String::from_str(rust_name),
        Some(c) => {
            let entry = &catalog[c];
            assert(catalog_views(catalog@)[c as int] == (entry.rust_name@, entry.ts_file@, views(entry.path@)));
            if str_eq(entry.ts_file.as_str(), current_file) {
                relative_ts_path(&entry.path, scope)
            } else {
                record_import(imports, entry.ts_file.as_str(), entry.path[0].as_str());
                join_strings(&entry.path, ".")
            }
        },
    }
}

/// The public items of a module declared at one TypeScript path: the
/// path, the declaration kind of the first of them, the declaration order
/// of the first of them, and the positions of all of them among the
/// module's public items, in source order.
#[derive(Clone, Debug)]
pub struct DeclarationGroup {
    pub path: Vec<String>,
    pub kind: String,
    pub order: usize,
    pub members: Vec<usize>,
}

/// The plain values of a declaration group.
pub open spec fn group_view(g: DeclarationGroup) -> (Seq<Seq<char>>, Seq<char>, int, Seq<usize>) {
    (views(g.path@), g.kind@, g.order as int, g.members@)
}

/// The plain values of declaration groups.
pub open spec fn group_views(gs: Seq<DeclarationGroup>) -> Seq<(Seq<Seq<char>>, Seq<char>, int, Seq<usize>)> {
    gs.map_values(|g: DeclarationGroup| group_view(g))
}

/// How a module's declarations are laid out: each declared item's name with
/// its path (in source order; a later one of a name replaces an earlier
/// one), the groups of items that share a path (in the order their paths
/// first occur), and the positions of the `CoreHost` traits, whose
/// functions are declared at the top level.
#[derive(Clone, Debug)]
pub struct DeclarationLayout {
    pub named: Vec<(String, Vec<String>)>,
    pub groups: Vec<DeclarationGroup>,
    pub root_traits: Vec<usize>,
}

/// The position of the group declared at `path`, or -1.
pub open spec fn find_group(groups: Seq<(Seq<Seq<char>>, Seq<char>, int, Seq<usize>)>, path: Seq<Seq<char>>) -> int
    decreases groups.len(),
{
    if groups.len() == 0 {
        -1
    } else if groups.last().0 == path {
        groups.len() - 1
    } else {
        find_group(groups.drop_last(), path)
    }
}

proof fn lemma_find_group(groups: Seq<(Seq<Seq<char>>, Seq<char>, int, Seq<usize>)>, path: Seq<Seq<char>>)
    ensures
        -1 <= find_group(groups, path) < groups.len(),
        find_group(groups, path) >= 0 ==> groups[find_group(groups, path)].0 == path,
    decreases groups.len(),
{
    if groups.len() > 0 {
        lemma_find_group(groups.drop_last(), path);
    }
}

/// The layout of the first `n` public items of a module declared in
/// `ts_file`: named paths, groups, root traits, and how many items were
/// declared so far (the next declaration order).
pub open spec fn layout_upto(items: Seq<PublicItem>, ts_file: Seq<char>, n: int) -> (Seq<(Seq<char>, Seq<Seq<char>>)>, Seq<(Seq<Seq<char>>, Seq<char>, int, Seq<usize>)>, Seq<usize>, int)
    decreases n,
{
    if n <= 0 {
        (Seq::empty(), Seq::empty(), Seq::empty(), 0)
    } else {
        let (named, groups, roots, declared) = layout_upto(items, ts_file, n - 1);
        let it = items[n - 1];
        if it.name@ == "CoreHost"@ {
            (named, groups, if it.kind == RustItemKind::Trait { roots.push((n - 1) as usize) } else { roots }, declared)
        } else {
            match item_declaration(it, ts_file) {
                None => (named, groups, roots, declared),
                Some((path, kind)) => {
                    let g = find_group(groups, path);
                    (named.push((it.name@, path)),
                        if g < 0 {
                            groups.push((path, kind, declared, seq![(n - 1) as usize]))
                        } else {
                            groups.update(g, (groups[g].0, groups[g].1, groups[g].2, groups[g].3.push((n - 1) as usize)))
                        },
                        roots, declared + 1)
                },
            }
        }
    }
}

/// A copy of a list of strings.
fn copy_strings(v: &Vec<String>) -> (r: Vec<String>)
    ensures
        views(r@) == views(v@),
{
    let mut r: Vec<String> = Vec::new();
    let mut i: usize = 0;
    while i < v.len()
        invariant
            i <= v.len(),
            views(r@) =~= views(v@).subrange(0, i as int),
        decreases v.len() - i,
    {
        let ghost before = r@;
        let x = v[i].clone();
        r.push(x);
        proof {
            assert(views(r@) =~= views(before).push(x@));
            assert(views(v@).subrange(0, i + 1) =~= views(v@).subrange(0, i as int).push(v@[i as int]@));
        }
        i = i + 1;
    }
    assert(views(v@).subrange(0, v.len() as int) =~= views(v@));
    r
}

/// The position of the group declared at `path`.
fn group_at(groups: &Vec<DeclarationGroup>, path: &Vec<String>) -> (r: Option<usize>)
    ensures
        match r {
            Some(k) => k < groups.len() && find_group(group_views(groups@), views(path@)) == k,
            None => find_group(group_views(groups@), views(path@)) == -1,
        },
{
    let ghost all = group_views(groups@);
    let mut i: usize = groups.len();
    assert(all.subrange(0, i as int) =~= all);
    while i > 0
        invariant
            i <= groups.len(),
            all == group_views(groups@),
            find_group(all, views(path@)) == find_group(all.subrange(0, i as int), views(path@)),
        decreases i,
    {
        let ghost pre = all.subrange(0, i as int);
        assert(pre.drop_last() =~= all.subrange(0, i - 1));
        let g = &groups[i - 1];
        let same = g.path.len() == path.len() && path_starts_with(&g.path, path);
        proof {
            if same {
                assert(views(g.path@).subrange(0, views(path@).len() as int) =~= views(g.path@));
            }
            if views(g.path@) == views(path@) {
                assert(views(g.path@).subrange(0, views(path@).len() as int) =~= views(g.path@));
            }
        }
        if same {
            return Some(i - 1);
        }
        i = i - 1;
    }
    None
}

/// Lays out the declarations of a module declared in `ts_file` from its
/// public items in source order (those of all its source files): where
/// each item is declared, the items that share a declaration path, and the
/// `CoreHost` traits whose functions are declared at the top level.
pub fn layout_declarations(items: &Vec<PublicItem>, ts_file: &str) -> (r: DeclarationLayout)
    requires
        items.len() < usize::MAX,
    ensures
        (named_path_views(r.named@), group_views(r.groups@), r.root_traits@, r.named@.len() as int)
            == layout_upto(items@, ts_file@, items@.len() as int),
{
    let mut named: Vec<(String, Vec<String>)> = Vec::new();
    let mut groups: Vec<DeclarationGroup> = Vec::new();
    let mut roots: Vec<usize> = Vec::new();
    assert(named_path_views(named@) =~= Seq::<(Seq<char>, Seq<Seq<char>>)>::empty());
    assert(group_views(groups@) =~= Seq::<(Seq<Seq<char>>, Seq<char>, int, Seq<usize>)>::empty());
    let mut i: usize = 0;
    while i < items.len()
        invariant
            i <= items.len() < usize::MAX,
            (named_path_views(named@), group_views(groups@), roots@, named@.len() as int) == layout_upto(items@, ts_file@, i as int),
            named@.len() <= i,
        decreases items.len() - i,
    {
        let it = &items[i];
        let ghost gv = group_views(groups@);
        if str_eq(it.name.as_str(), "CoreHost") {
            if it.kind == RustItemKind::Trait {
                roots.push(i);
            }
        } else {
            match infer_declaration(it, ts_file) {
                None => {},
                Some((path, kind)) => {
                    proof { lemma_find_group(gv, views(path@)); }
                    let order = named.len();
                    let ghost nv = named_path_views(named@);
                    named.push((it.name.clone(), copy_strings(&path)));
                    assert(named_path_views(named@) =~= nv.push((it.name@, views(path@))));
                    match group_at(&groups, &path) {
                        None => {
                            let mut members: Vec<usize> = Vec::new();
                            members.push(i);
                            groups.push(DeclarationGroup { path, kind, order, members });
                            assert(group_views(groups@) =~= gv.push((views(path@), kind@, order as int, seq![i])));
                        },
                        Some(g) => {
                            let ghost before = groups@;
                            let mut group = groups.remove(g);
                            group.members.push(i);
                            groups.insert(g, group);
                            assert(groups@ =~= before.update(g as int, groups@[g as int]));
                            assert(group_views(groups@) =~= gv.update(g as int, (gv[g as int].0, gv[g as int].1, gv[g as int].2, gv[g as int].3.push(i))));
                        },
                    }
                },
            }
        }
        i = i + 1;
    }
    DeclarationLayout { named, groups, root_traits: roots }
}

/// The first line of every generated declaration module.
pub open spec fn module_header() -> Seq<char> {
    "// Generated from operit-plugin-sdk Rust declarations.\n\n"@
}

/// The import line of the names imported from one declaration file.
pub open spec fn import_line(file: Seq<char>, names: Seq<Seq<char>>) -> Seq<char> {
    "import type { "@ + join(names, ", "@) + " } from \""@ + ts_module_path(file) + "\";\n"@
}

/// The import lines of an import table, in its order.
pub open spec fn import_lines(t: Seq<(Seq<char>, Seq<Seq<char>>)>) -> Seq<char>
    decreases t.len(),
{
    if t.len() == 0 {
        Seq::empty()
    } else {
        import_lines(t.drop_last()) + import_line(t.last().0, t.last().1)
    }
}

/// A declaration file's name ends with `.d.ts`.
pub open spec fn declaration_file_name(f: Seq<char>) -> bool {
    f.len() >= 5 && f.subrange(f.len() - 5, f.len() as int) == ".d.ts"@
}

/// The text of a generated declaration module: the header, one import line
/// per file of the import table, a blank line after them when there are
/// any, then the body without its trailing whitespace and a final newline.
pub fn declaration_module_source(imports: &Vec<(String, Vec<String>)>, body: &str) -> (r: String)
    requires
        forall|i: int| 0 <= i < imports@.len() ==> declaration_file_name((#[trigger] imports@[i]).0@),
    ensures
        r@ == module_header() + import_lines(import_views(imports@))
            + (if imports@.len() > 0 { "\n"@ } else { Seq::<char>::empty() }) + trim_end(body@) + "\n"@,
{
    let ghost t = import_views(imports@);
    let mut out = String::from_str("// Generated from operit-plugin-sdk Rust declarations.\n\n");
    let mut i: usize = 0;
    while i < imports.len()
        invariant
            i <= imports.len(),
            t == import_views(imports@),
            forall|k: int| 0 <= k < imports@.len() ==> declaration_file_name((#[trigger] imports@[k]).0@),
            out@ == module_header() + import_lines(t.subrange(0, i as int)),
        decreases imports.len() - i,
    {
        let ghost before = out@;
        out.append("import type { ");
        out.append(join_strings(&imports[i].1, ", ").as_str());
        out.append(" } from \"");
        assert(declaration_file_name(imports@[i as int].0@));
        out.append(typescript_module_path(imports[i].0.as_str()).as_str());
        out.append("\";\n");
        proof {
            reveal_strlit("import type { ");
            reveal_strlit(" } from \"");
            reveal_strlit("\";\n");
            assert(t.subrange(0, i + 1).drop_last() =~= t.subrange(0, i as int));
            assert(t[i as int] == (imports@[i as int].0@, views(imports@[i as int].1@)));
            assert(out@ =~= before + import_line(t[i as int].0, t[i as int].1));
        }
        i = i + 1;
    }
    assert(t.subrange(0, imports.len() as int) =~= t);
    if imports.len() > 0 {
        out.append("\n");
    }
    let v = chars_of(body);
    let mut j: usize = v.len();
    while j > 0 && is_whitespace(v[j - 1])
        invariant
            j <= v.len(),
            v@ == body@,
            forall|k: int| j <= k < v.len() ==> is_ws(#[trigger] v@[k]),
        decreases j,
    {
        j = j - 1;
    }
    proof { lemma_trim_end_at(v@, j as int); }
    out.append(string_of_range(&v, 0, j).as_str());
    out.append("\n");
    proof { reveal_strlit("\n"); }
    out
}

} // verus!
