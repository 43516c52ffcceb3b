//! What a generated declaration module declares directly inside one
//! TypeScript namespace, and in which order: child namespaces, the
//! declaration groups placed there, and the functions of the host traits
//! that the namespace stands for (at the top level, those of `CoreHost`),
//! ordered by declaration order and then by name.
use vstd::prelude::*;
use crate::declaration_module::{group_view, group_views, DeclarationLayout};
use crate::declarations::{declaration_path_starts_with, path_starts_with};
use crate::order::{compare_text, lemma_text_le_antisymmetric, lemma_text_le_reflexive, lemma_text_le_total, lemma_text_le_transitive, text_le};
use crate::text::{str_eq, views};

verus! {

/// What a scope entry declares.
#[derive(Clone, Copy, Debug, PartialEq, Eq, Structural)]
pub enum ScopeEntryKind {
    /// A child namespace; `group` is the namespace group declared at it.
    Namespace,
    /// The declaration group `group`.
    Group,
    /// Function `method` of the trait at item `item`, declared in the namespace.
    Method,
    /// Function `method` of the `CoreHost` trait at item `item`, declared at the top level.
    RootFunction,
}

/// One entry of a scope, with the name and declaration order it is sorted by.
#[derive(Clone, Debug)]
pub struct ScopeEntry {
    pub kind: ScopeEntryKind,
    pub name: String,
    pub order: usize,
    pub group: Option<usize>,
    pub item: usize,
    pub method: usize,
}

/// The plain values of a scope entry.
pub open spec fn scope_entry_view(e: ScopeEntry) -> (ScopeEntryKind, Seq<char>, int, Option<usize>, usize, usize) {
    (e.kind, e.name@, e.order as int, e.group, e.item, e.method)
}

/// The plain values of scope entries.
pub open spec fn scope_entry_views(es: Seq<ScopeEntry>) -> Seq<(ScopeEntryKind, Seq<char>, int, Option<usize>, usize, usize)> {
    es.map_values(|e: ScopeEntry| scope_entry_view(e))
}

/// A path lies strictly below a scope.
pub open spec fn below_scope(path: Seq<Seq<char>>, scope: Seq<Seq<char>>) -> bool {
    declaration_path_starts_with(path, scope) && path.len() > scope.len()
}

/// A group below a scope that makes its next path segment a child
/// namespace: it lies deeper, or is itself a namespace.
pub open spec fn opens_namespace(g: (Seq<Seq<char>>, Seq<char>, int, Seq<usize>), scope: Seq<Seq<char>>) -> bool {
    below_scope(g.0, scope) && (g.0.len() > scope.len() + 1 || g.1 == "namespace"@)
}

/// The position of the child namespace named `name`, or -1.
pub open spec fn find_namespace(t: Seq<(Seq<char>, int, Option<usize>)>, name: Seq<char>) -> int
    decreases t.len(),
{
    if t.len() == 0 {
        -1
    } else if t.last().0 == name {
        t.len() - 1
    } else {
        find_namespace(t.drop_last(), name)
    }
}

proof fn lemma_find_namespace(t: Seq<(Seq<char>, int, Option<usize>)>, name: Seq<char>)
    ensures
        -1 <= find_namespace(t, name) < t.len(),
        find_namespace(t, name) >= 0 ==> t[find_namespace(t, name)].0 == name,
    decreases t.len(),
{
    if t.len() > 0 {
        lemma_find_namespace(t.drop_last(), name);
    }
}

/// The child namespaces the first `n` groups open below `scope`, in the
/// order they first occur: each with the least order of the groups below
/// it and the namespace group declared at it, if any.
pub open spec fn namespaces_upto(groups: Seq<(Seq<Seq<char>>, Seq<char>, int, Seq<usize>)>, scope: Seq<Seq<char>>, n: int) -> Seq<(Seq<char>, int, Option<usize>)>
    decreases n,
{
    if n <= 0 {
        Seq::empty()
    } else {
        let t = namespaces_upto(groups, scope, n - 1);
        let g = groups[n - 1];
        if !opens_namespace(g, scope) {
            t
        } else {
            let child = g.0[scope.len() as int];
            let own = if g.0.len() == scope.len() + 1 && g.1 == "namespace"@ { Some((n - 1) as usize) } else { None };
            let k = find_namespace(t, child);
            if k < 0 {
                t.push((child, g.2, own))
            } else {
                t.update(k, (child, if g.2 < t[k].1 { g.2 } else { t[k].1 }, if own is Some { own } else { t[k].2 }))
            }
        }
    }
}

/// The groups among the first `n` placed directly in `scope`, in order.
pub open spec fn direct_groups_upto(groups: Seq<(Seq<Seq<char>>, Seq<char>, int, Seq<usize>)>, scope: Seq<Seq<char>>, n: int) -> Seq<usize>
    decreases n,
{
    if n <= 0 {
        Seq::empty()
    } else if below_scope(groups[n - 1].0, scope) && !opens_namespace(groups[n - 1], scope) {
        direct_groups_upto(groups, scope, n - 1).push((n - 1) as usize)
    } else {
        direct_groups_upto(groups, scope, n - 1)
    }
}

/// The first of the first `n` groups that is the namespace group declared
/// at `scope`, or -1.
pub open spec fn scope_group_upto(groups: Seq<(Seq<Seq<char>>, Seq<char>, int, Seq<usize>)>, scope: Seq<Seq<char>>, n: int) -> int
    decreases n,
{
    if n <= 0 {
        -1
    } else if scope_group_upto(groups, scope, n - 1) >= 0 {
        scope_group_upto(groups, scope, n - 1)
    } else if groups[n - 1].1 == "namespace"@ && groups[n - 1].0 == scope {
        n - 1
    } else {
        -1
    }
}

/// The function entries of the traits at the first `n` of `items`, each
/// trait's functions in order.
pub open spec fn function_entries(items: Seq<usize>, methods: Seq<Seq<Seq<char>>>, order: int, kind: ScopeEntryKind, n: int) -> Seq<(ScopeEntryKind, Seq<char>, int, Option<usize>, usize, usize)>
    decreases n,
{
    if n <= 0 {
        Seq::empty()
    } else {
        let k = items[n - 1];
        function_entries(items, methods, order, kind, n - 1)
            + Seq::new(methods[k as int].len(), |j: int| (kind, methods[k as int][j], order, None::<usize>, k, j as usize))
    }
}

/// Every entry of `scope`, before ordering: the child namespaces, the
/// groups placed there, the functions of the namespace group declared at
/// it, and at the top level the functions of the `CoreHost` traits (last,
/// with the greatest order).
pub open spec fn scope_entries_unordered(layout_groups: Seq<(Seq<Seq<char>>, Seq<char>, int, Seq<usize>)>, roots: Seq<usize>, methods: Seq<Seq<Seq<char>>>, scope: Seq<Seq<char>>) -> Seq<(ScopeEntryKind, Seq<char>, int, Option<usize>, usize, usize)> {
    let n = layout_groups.len() as int;
    let ns = namespaces_upto(layout_groups, scope, n);
    let direct = direct_groups_upto(layout_groups, scope, n);
    let sg = scope_group_upto(layout_groups, scope, n);
    ns.map_values(|x: (Seq<char>, int, Option<usize>)| (ScopeEntryKind::Namespace, x.0, x.1, x.2, 0usize, 0usize))
        + direct.map_values(|g: usize| (ScopeEntryKind::Group, layout_groups[g as int].0.last(), layout_groups[g as int].2, Some(g), 0usize, 0usize))
        + (if sg >= 0 { function_entries(layout_groups[sg].3, methods, layout_groups[sg].2, ScopeEntryKind::Method, layout_groups[sg].3.len() as int) } else { Seq::empty() })
        + (if scope.len() == 0 { function_entries(roots, methods, usize::MAX as int, ScopeEntryKind::RootFunction, roots.len() as int) } else { Seq::empty() })
}

/// `a` comes no later than `b`: by order, then by name.
pub open spec fn entry_le(a: (ScopeEntryKind, Seq<char>, int, Option<usize>, usize, usize), b: (ScopeEntryKind, Seq<char>, int, Option<usize>, usize, usize)) -> bool {
    a.2 < b.2 || (a.2 == b.2 && text_le(a.1, b.1))
}

/// Entries in order.
pub open spec fn entries_sorted(s: Seq<(ScopeEntryKind, Seq<char>, int, Option<usize>, usize, usize)>) -> bool {
    forall|i: int, j: int| 0 <= i < j < s.len() ==> entry_le(#[trigger] s[i], #[trigger] s[j])
}

/// Every trait position the layout refers to has its function list.
pub open spec fn methods_cover(layout: DeclarationLayout, methods_len: int) -> bool {
    &&& forall|g: int, m: int| 0 <= g < layout.groups@.len() && 0 <= m < layout.groups@[g].members@.len() ==> (#[trigger] layout.groups@[g].members@[m]) < methods_len
    &&& forall|k: int| 0 <= k < layout.root_traits@.len() ==> (#[trigger] layout.root_traits@[k]) < methods_len
}

/// `a` comes no later than `b`.
fn entry_before(a: &ScopeEntry, b: &ScopeEntry) -> (r: bool)
    ensures
        r == entry_le(scope_entry_view(*a), scope_entry_view(*b)),
{
    if a.order < b.order {
        true
    } else if a.order == b.order {
        let c = compare_text(a.name.as_str(), b.name.as_str());
        proof {
            lemma_text_le_total(a.name@, b.name@);
            lemma_text_le_reflexive(a.name@);
            if text_le(a.name@, b.name@) && text_le(b.name@, a.name@) {
                lemma_text_le_antisymmetric(a.name@, b.name@);
            }
        }
        c != Some(false)
    } else {
        false
    }
}

proof fn lemma_entry_le_total(a: (ScopeEntryKind, Seq<char>, int, Option<usize>, usize, usize), b: (ScopeEntryKind, Seq<char>, int, Option<usize>, usize, usize))
    ensures
        entry_le(a, b) || entry_le(b, a),
{
    lemma_text_le_total(a.1, b.1);
}

proof fn lemma_entry_le_transitive(a: (ScopeEntryKind, Seq<char>, int, Option<usize>, usize, usize), b: (ScopeEntryKind, Seq<char>, int, Option<usize>, usize, usize), c: (ScopeEntryKind, Seq<char>, int, Option<usize>, usize, usize))
    requires
        entry_le(a, b),
        entry_le(b, c),
    ensures
        entry_le(a, c),
{
    if a.2 == b.2 && b.2 == c.2 {
        lemma_text_le_transitive(a.1, b.1, c.1);
    }
}

/// Orders scope entries by order and then name, keeping the given order of
/// equal ones.
fn sort_entries(v: Vec<ScopeEntry>) -> (r: Vec<ScopeEntry>)
    ensures
        scope_entry_views(r@).to_multiset() == scope_entry_views(v@).to_multiset(),
        entries_sorted(scope_entry_views(r@)),
{
    broadcast use vstd::seq_lib::group_to_multiset_ensures;
    let ghost all = scope_entry_views(v@);
    let mut out: Vec<ScopeEntry> = Vec::new();
    let mut i: usize = 0;
    assert(all.subrange(0, 0).to_multiset() =~= scope_entry_views(out@).to_multiset());
    while i < v.len()
        invariant
            i <= v.len(),
            all == scope_entry_views(v@),
            scope_entry_views(out@).to_multiset() == all.subrange(0, i as int).to_multiset(),
            entries_sorted(scope_entry_views(out@)),
        decreases v.len() - i,
    {
        let x = copy_entry(&v[i]);
        let ghost xv = scope_entry_view(x);
        assert(xv == all[i as int]);
        let ghost ov = scope_entry_views(out@);
        let mut p: usize = 0;
        while p < out.len()
            invariant
                p <= out.len(),
                ov == scope_entry_views(out@),
                xv == scope_entry_view(x),
                forall|k: int| 0 <= k < p ==> entry_le(#[trigger] ov[k], xv),
            ensures
                p <= out.len(),
                ov == scope_entry_views(out@),
                xv == scope_entry_view(x),
                forall|k: int| 0 <= k < p ==> entry_le(#[trigger] ov[k], xv),
                p < out.len() ==> !entry_le(ov[p as int], xv),
            decreases out.len() - p,
        {
            let before = entry_before(&out[p], &x);
            assert(ov[p as int] == scope_entry_view(out@[p as int]));
            if !before {
                break;
            }
            p = p + 1;
        }
        proof {
            if p < out.len() {
                lemma_entry_le_total(ov[p as int], xv);
            }
            assert forall|j: int| p <= j < ov.len() implies entry_le(xv, #[trigger] ov[j]) by {
                lemma_entry_le_total(ov[p as int], xv);
                if j > p {
                    lemma_entry_le_transitive(xv, ov[p as int], ov[j]);
                }
            }
        }
        out.insert(p, x);
        proof {
            let nv = scope_entry_views(out@);
            assert(nv =~= ov.insert(p as int, xv));
            assert forall|a: int, b: int| 0 <= a < b < nv.len() implies entry_le(#[trigger] nv[a], #[trigger] nv[b]) by {
                if b == p {
                } else if a == p {
                    assert(nv[b] == ov[b - 1]);
                } else {
                    let aa = if a < p { a } else { a - 1 };
                    let bb = if b < p { b } else { b - 1 };
                    assert(nv[a] == ov[aa]);
                    assert(nv[b] == ov[bb]);
                }
            }
            vstd::seq_lib::to_multiset_insert(ov, p as int, xv);
            assert(all.subrange(0, i + 1) =~= all.subrange(0, i as int).push(xv));
            vstd::seq_lib::to_multiset_build(all.subrange(0, i as int), xv);
            assert(nv.to_multiset() == ov.to_multiset().insert(xv));
            assert(all.subrange(0, i + 1).to_multiset() == all.subrange(0, i as int).to_multiset().insert(xv));
        }
        i = i + 1;
    }
    assert(all.subrange(0, v.len() as int) =~= all);
    out
}

/// Once found among the first groups, the namespace group of a scope stays
/// the one found.
proof fn lemma_scope_group_stays(groups: Seq<(Seq<Seq<char>>, Seq<char>, int, Seq<usize>)>, scope: Seq<Seq<char>>, a: int, m: int)
    requires
        0 <= a <= m,
        scope_group_upto(groups, scope, a) >= 0,
    ensures
        scope_group_upto(groups, scope, m) == scope_group_upto(groups, scope, a),
    decreases m - a,
{
    if m > a {
        lemma_scope_group_stays(groups, scope, a, m - 1);
    }
}

/// A copy of a scope entry.
fn copy_entry(e: &ScopeEntry) -> (r: ScopeEntry)
    ensures
        scope_entry_view(r) == scope_entry_view(*e),
{
    ScopeEntry { kind: e.kind, name: e.name.clone(), order: e.order, group: e.group, item: e.item, method: e.method }
}

/// The plain values of the function names of each item.
pub open spec fn methods_views(m: Seq<Vec<String>>) -> Seq<Seq<Seq<char>>> {
    m.map_values(|v: Vec<String>| views(v@))
}

/// The plain values of child namespaces.
pub open spec fn namespace_views(t: Seq<(String, usize, Option<usize>)>) -> Seq<(Seq<char>, int, Option<usize>)> {
    t.map_values(|x: (String, usize, Option<usize>)| (x.0@, x.1 as int, x.2))
}

/// Appends the function entries of the traits at `items`.
fn push_functions(entries: &mut Vec<ScopeEntry>, items: &Vec<usize>, methods: &Vec<Vec<String>>, order: usize, kind: ScopeEntryKind)
    requires
        forall|k: int| 0 <= k < items@.len() ==> (#[trigger] items@[k]) < methods@.len(),
    ensures
        scope_entry_views(final(entries)@) == scope_entry_views(old(entries)@) + function_entries(items@, methods_views(methods@), order as int, kind, items@.len() as int),
{
    let ghost start = scope_entry_views(entries@);
    let ghost mv = methods_views(methods@);
    let mut a: usize = 0;
    while a < items.len()
        invariant
            a <= items.len(),
            mv == methods_views(methods@),
            forall|k: int| 0 <= k < items@.len() ==> (#[trigger] items@[k]) < methods@.len(),
            scope_entry_views(entries@) == start + function_entries(items@, mv, order as int, kind, a as int),
        decreases items.len() - a,
    {
        let k = items[a];
        let names = &methods[k];
        assert(mv[k as int] == views(names@));
        let ghost mid = scope_entry_views(entries@);
        let mut j: usize = 0;
        while j < names.len()
            invariant
                j <= names.len(),
                mv[k as int] == views(names@),
                scope_entry_views(entries@) =~= mid + Seq::new(j as nat, |q: int| (kind, mv[k as int][q], order as int, None::<usize>, k, q as usize)),
            decreases names.len() - j,
        {
            let ghost before = scope_entry_views(entries@);
            entries.push(ScopeEntry { kind, name: names[j].clone(), order, group: None, item: k, method: j });
            assert(scope_entry_views(entries@) =~= before.push((kind, mv[k as int][j as int], order as int, None::<usize>, k, j)));
            j = j + 1;
        }
        assert(function_entries(items@, mv, order as int, kind, a + 1) =~= function_entries(items@, mv, order as int, kind, a as int)
            + Seq::new(mv[k as int].len(), |q: int| (kind, mv[k as int][q], order as int, None::<usize>, k, q as usize)));
        a = a + 1;
    }
}

/// Collects what `scope` declares directly (child namespaces, the groups
/// placed there, the functions of the namespace group declared at it, and
/// at the top level the functions of the `CoreHost` traits), ordered by
/// declaration order and then by name; `methods[k]` names the functions of
/// the trait at item `k` (none for other items).
pub fn scope_entries(layout: &DeclarationLayout, methods: &Vec<Vec<String>>, scope: &Vec<String>) -> (r: Vec<ScopeEntry>)
    requires
        methods_cover(*layout, methods@.len() as int),
    ensures
        scope_entry_views(r@).to_multiset() == scope_entries_unordered(group_views(layout.groups@), layout.root_traits@, methods_views(methods@), views(scope@)).to_multiset(),
        entries_sorted(scope_entry_views(r@)),
{
    let groups = &layout.groups;
    let ghost gv = group_views(groups@);
    let ghost sv = views(scope@);
    let ghost n = gv.len() as int;
    // Child namespaces.
    let mut ns: Vec<(String, usize, Option<usize>)> = Vec::new();
    assert(namespace_views(ns@) =~= namespaces_upto(gv, sv, 0));
    let mut i: usize = 0;
    while i < groups.len()
        invariant
            i <= groups.len(),
            gv == group_views(groups@),
            sv == views(scope@),
            namespace_views(ns@) == namespaces_upto(gv, sv, i as int),
        decreases groups.len() - i,
    {
        let g = &groups[i];
        assert(gv[i as int] == group_view(*g));
        let below = path_starts_with(&g.path, scope) && g.path.len() > scope.len();
        let is_ns = str_eq(g.kind.as_str(), "namespace");
        if below && (g.path.len() > scope.len() + 1 || is_ns) {
            let child = g.path[scope.len()].clone();
            assert(child@ == gv[i as int].0[sv.len() as int]);
            let own = if g.path.len() == scope.len() + 1 && is_ns { Some(i) } else { None };
            let ghost t = namespace_views(ns@);
            let mut k: usize = ns.len();
            let mut found = false;
            assert(t.subrange(0, k as int) =~= t);
            while k > 0
                invariant_except_break
                    !found,
                invariant
                    k <= ns.len(),
                    t == namespace_views(ns@),
                    find_namespace(t, child@) == find_namespace(t.subrange(0, k as int), child@),
                ensures
                    k <= ns.len(),
                    found ==> 1 <= k && find_namespace(t, child@) == k - 1,
                    !found ==> find_namespace(t, child@) == -1,
                decreases k,
            {
                let ghost pre = t.subrange(0, k as int);
                assert(pre.drop_last() =~= t.subrange(0, k - 1));
                assert(pre.last() == t[k - 1]);
                if str_eq(ns[k - 1].0.as_str(), child.as_str()) {
                    found = true;
                    break;
                }
                k = k - 1;
            }
            if found {
                k = k - 1;
            }
            proof { lemma_find_namespace(t, child@); }
            if found {
                let ghost before = ns@;
                let (name, order, group) = ns.remove(k);
                let new_order = if g.order < order { g.order } else { order };
                let new_group = if own.is_some() { own } else { group };
                ns.insert(k, (name, new_order, new_group));
                assert(ns@ =~= before.update(k as int, ns@[k as int]));
                assert(namespace_views(ns@) =~= t.update(k as int, (child@, if gv[i as int].2 < t[k as int].1 { gv[i as int].2 } else { t[k as int].1 }, if own is Some { own } else { t[k as int].2 })));
            } else {
                ns.push((child, g.order, own));
                assert(namespace_views(ns@) =~= t.push((child@, gv[i as int].2, own)));
            }
        }
        i = i + 1;
    }
    // Entries, in the order of `scope_entries_unordered`.
    let mut entries: Vec<ScopeEntry> = Vec::new();
    let ghost nsv = namespace_views(ns@);
    let mut a: usize = 0;
    while a < ns.len()
        invariant
            a <= ns.len(),
            nsv == namespace_views(ns@),
            scope_entry_views(entries@) =~= nsv.subrange(0, a as int).map_values(|x: (Seq<char>, int, Option<usize>)| (ScopeEntryKind::Namespace, x.0, x.1, x.2, 0usize, 0usize)),
        decreases ns.len() - a,
    {
        let ghost before = scope_entry_views(entries@);
        entries.push(ScopeEntry { kind: ScopeEntryKind::Namespace, name: ns[a].0.clone(), order: ns[a].1, group: ns[a].2, item: 0, method: 0 });
        assert(scope_entry_views(entries@) =~= before.push((ScopeEntryKind::Namespace, nsv[a as int].0, nsv[a as int].1, nsv[a as int].2, 0usize, 0usize)));
        a = a + 1;
    }
    assert(nsv.subrange(0, ns.len() as int) =~= nsv);
    let ghost after_ns = scope_entry_views(entries@);
    let mut i: usize = 0;
    while i < groups.len()
        invariant
            i <= groups.len(),
            gv == group_views(groups@),
            sv == views(scope@),
            scope_entry_views(entries@) =~= after_ns + direct_groups_upto(gv, sv, i as int).map_values(|g: usize| (ScopeEntryKind::Group, gv[g as int].0.last(), gv[g as int].2, Some(g), 0usize, 0usize)),
        decreases groups.len() - i,
    {
        let g = &groups[i];
        assert(gv[i as int] == group_view(*g));
        let below = path_starts_with(&g.path, scope) && g.path.len() > scope.len();
        let is_ns = str_eq(g.kind.as_str(), "namespace");
        if below && !(g.path.len() > scope.len() + 1 || is_ns) {
            let ghost before = scope_entry_views(entries@);
            let last = g.path[g.path.len() - 1].clone();
            assert(last@ == gv[i as int].0.last());
            entries.push(ScopeEntry { kind: ScopeEntryKind::Group, name: last, order: g.order, group: Some(i), item: 0, method: 0 });
            assert(scope_entry_views(entries@) =~= before.push((ScopeEntryKind::Group, gv[i as int].0.last(), gv[i as int].2, Some(i), 0usize, 0usize)));
        }
        i = i + 1;
    }
    // The namespace group declared at the scope.
    let mut sg: usize = 0;
    let mut found = false;
    while sg < groups.len()
        invariant_except_break
            !found,
        invariant
            sg <= groups.len(),
            gv == group_views(groups@),
            sv == views(scope@),
            scope_group_upto(gv, sv, sg as int) == -1,
        ensures
            sg <= groups.len(),
            found ==> sg < groups.len() && scope_group_upto(gv, sv, sg + 1) == sg,
            !found ==> scope_group_upto(gv, sv, groups.len() as int) == -1,
        decreases groups.len() - sg,
    {
        let g = &groups[sg];
        assert(gv[sg as int] == group_view(*g));
        let same = g.path.len() == scope.len() && path_starts_with(&g.path, scope);
        proof {
            assert(views(g.path@).subrange(0, sv.len() as int) =~= views(g.path@) <== views(g.path@).len() == sv.len());
        }
        if str_eq(g.kind.as_str(), "namespace") && same {
            found = true;
            break;
        }
        sg = sg + 1;
    }
    proof {
        if found {
            lemma_scope_group_stays(gv, sv, sg + 1, n);
        }
    }
    let ghost before_methods = scope_entry_views(entries@);
    if found {
        let g = &groups[sg];
        assert(gv[sg as int] == group_view(*g));
        proof {
            assert forall|k: int| 0 <= k < g.members@.len() implies (#[trigger] g.members@[k]) < methods@.len() by {
                assert(layout.groups@[sg as int].members@[k] == g.members@[k]);
            }
        }
        push_functions(&mut entries, &g.members, methods, g.order, ScopeEntryKind::Method);
    }
    let ghost before_roots = scope_entry_views(entries@);
    if scope.len() == 0 {
        push_functions(&mut entries, &layout.root_traits, methods, usize::MAX, ScopeEntryKind::RootFunction);
    }
    proof {
        assert(direct_groups_upto(gv, sv, n) == direct_groups_upto(gv, sv, groups.len() as int));
        assert(scope_entry_views(entries@) =~= scope_entries_unordered(gv, layout.root_traits@, methods_views(methods@), sv));
    }
    sort_entries(entries)
}

} // verus!
