//! Pieces of the plugin SDK's TypeScript declarations: JSDoc blocks,
//! declaration paths and module paths, and how struct fields compose.
use vstd::prelude::*;
use crate::text::{chars_of, has_prefix, join, join_strings, str_eq, string_of_range, trim, trim_string, views};

verus! {

/// One generated TypeScript declaration file.
#[derive(Clone, Debug)]
pub struct DeclarationFile {
    /// The output file name.
    pub file_name: String,
    /// The generated TypeScript source.
    pub source: String,
}

/// The first position holding a non-empty line, if any.
pub open spec fn first_content(docs: Seq<Seq<char>>) -> Option<int> {
    if exists|i: int| 0 <= i < docs.len() && docs[i].len() > 0 {
        Some(choose|i: int| 0 <= i < docs.len() && docs[i].len() > 0 && forall|j: int| 0 <= j < i ==> #[trigger] docs[j].len() == 0)
    } else {
        None
    }
}

/// The last position holding a non-empty line, if any.
pub open spec fn last_content(docs: Seq<Seq<char>>) -> Option<int> {
    if exists|i: int| 0 <= i < docs.len() && docs[i].len() > 0 {
        Some(choose|i: int| 0 <= i < docs.len() && docs[i].len() > 0 && forall|j: int| i < j < docs.len() ==> #[trigger] docs[j].len() == 0)
    } else {
        None
    }
}

/// One JSDoc line: ` *`, then a space and the text when there is text.
pub open spec fn jsdoc_line(indent: Seq<char>, doc: Seq<char>) -> Seq<char> {
    indent + " *"@ + (if doc.len() == 0 { Seq::empty() } else { " "@ + doc }) + "\n"@
}

/// The JSDoc lines of `docs`, in order.
pub open spec fn jsdoc_lines(indent: Seq<char>, docs: Seq<Seq<char>>) -> Seq<char>
    decreases docs.len(),
{
    if docs.len() == 0 {
        Seq::empty()
    } else {
        jsdoc_lines(indent, docs.drop_last()) + jsdoc_line(indent, docs.last())
    }
}

/// The JSDoc block of Rust documentation lines (each trimmed): nothing when
/// every line is empty, else the lines from the first to the last non-empty
/// one, between `/**` and ` */`.
pub open spec fn jsdoc(docs: Seq<Seq<char>>, indent: Seq<char>) -> Seq<char> {
    let trimmed = docs.map_values(|d: Seq<char>| trim(d));
    match (first_content(trimmed), last_content(trimmed)) {
        (Some(a), Some(b)) => indent + "/**\n"@ + jsdoc_lines(indent, trimmed.subrange(a, b + 1)) + indent + " */\n"@,
        _ => Seq::empty(),
    }
}

/// Emits Rust documentation lines (the values of `doc` attributes, in order)
/// as a TypeScript JSDoc block.
pub fn emit_jsdoc(output: &mut String, docs: &Vec<String>, indent: &str)
    ensures
        final(output)@ == old(output)@ + jsdoc(views(docs@), indent@),
{
    let ghost trimmed = views(docs@).map_values(|d: Seq<char>| trim(d));
    let mut lines: Vec<String> = Vec::new();
    let mut i: usize = 0;
    while i < docs.len()
        invariant
            i <= docs.len(),
            trimmed == views(docs@).map_values(|d: Seq<char>| trim(d)),
            views(lines@) =~= trimmed.subrange(0, i as int),
        decreases docs.len() - i,
    {
        let t = trim_string(docs[i].as_str());
        let ghost before = lines@;
        lines.push(t);
        proof {
            assert(views(lines@) =~= views(before).push(t@));
            assert(trimmed.subrange(0, i + 1) =~= trimmed.subrange(0, i as int).push(trimmed[i as int]));
        }
        i = i + 1;
    }
    assert(trimmed.subrange(0, docs.len() as int) =~= trimmed);
    let mut first: usize = 0;
    while first < lines.len() && lines[first].as_str().unicode_len() == 0
        invariant
            first <= lines.len(),
            views(lines@) == trimmed,
            forall|j: int| 0 <= j < first ==> #[trigger] trimmed[j].len() == 0,
        decreases lines.len() - first,
    {
        first = first + 1;
    }
    if first == lines.len() {
        assert(!exists|k: int| 0 <= k < trimmed.len() && trimmed[k].len() > 0);
        assert(old(output)@ + jsdoc(views(docs@), indent@) =~= old(output)@);
        return;
    }
    let mut last: usize = lines.len() - 1;
    while lines[last].as_str().unicode_len() == 0
        invariant
            first <= last < lines.len(),
            views(lines@) == trimmed,
            trimmed[first as int].len() > 0,
            forall|j: int| last < j < trimmed.len() ==> #[trigger] trimmed[j].len() == 0,
        decreases last,
    {
        last = last - 1;
    }
    proof {
        let a = choose|i: int| 0 <= i < trimmed.len() && trimmed[i].len() > 0 && forall|j: int| 0 <= j < i ==> #[trigger] trimmed[j].len() == 0;
        if a < first { assert(trimmed[a].len() == 0); }
        if a > first { assert(trimmed[first as int].len() == 0); }
        let b = choose|i: int| 0 <= i < trimmed.len() && trimmed[i].len() > 0 && forall|j: int| i < j < trimmed.len() ==> #[trigger] trimmed[j].len() == 0;
        if b < last { assert(trimmed[last as int].len() == 0); }
        if b > last { assert(trimmed[b].len() == 0); }
    }
    output.append(indent);
    output.append("/**\n");
    let ghost start = output@;
    let mut k: usize = first;
    while k <= last
        invariant
            first <= k <= last + 1,
            last < lines.len(),
            views(lines@) == trimmed,
            output@ =~= start + jsdoc_lines(indent@, trimmed.subrange(first as int, k as int)),
        decreases last + 1 - k,
    {
        output.append(indent);
        output.append(" *");
        if lines[k].as_str().unicode_len() > 0 {
            output.append(" ");
            output.append(lines[k].as_str());
        }
        output.append("\n");
        proof {
            let sub = trimmed.subrange(first as int, k + 1);
            assert(sub.drop_last() =~= trimmed.subrange(first as int, k as int));
            assert(sub.last() == trimmed[k as int]);
        }
        k = k + 1;
    }
    output.append(indent);
    output.append(" */\n");
}

/// A Rust item's declaration path: under the namespace `prefix` when its
/// name starts with it and goes on, else at the top.
pub open spec fn prefixed(rust_name: Seq<char>, prefix: Seq<char>) -> Seq<Seq<char>> {
    if has_prefix(rust_name, prefix) && rust_name.len() > prefix.len() {
        seq![prefix, rust_name.subrange(prefix.len() as int, rust_name.len() as int)]
    } else {
        seq![rust_name]
    }
}

/// Places a Rust item under a namespace when its identifier starts with that namespace prefix.
pub fn prefixed_path(rust_name: &str, prefix: &str) -> (r: Vec<String>)
    ensures
        views(r@) == prefixed(rust_name@, prefix@),
{
    let mut r: Vec<String> = Vec::new();
    let name = chars_of(rust_name);
    let p = chars_of(prefix);
    if crate::text::starts_with(rust_name, prefix) && name.len() > p.len() {
        let local = string_of_range(&name, p.len(), name.len());
        r.push(String::from_str(prefix));
        r.push(local);
    } else {
        r.push(String::from_str(rust_name));
    }
    assert(views(r@) =~= prefixed(rust_name@, prefix@));
    r
}

/// `s` without every leading `r#`.
pub open spec fn without_raw_prefix(s: Seq<char>) -> Seq<char>
    decreases s.len(),
{
    if s.len() >= 2 && s[0] == 'r' && s[1] == '#' {
        without_raw_prefix(s.subrange(2, s.len() as int))
    } else {
        s
    }
}

/// The last position where `pat` starts in `s`, if any.
pub open spec fn last_occurrence(s: Seq<char>, pat: Seq<char>) -> Option<int> {
    if exists|i: int| 0 <= i && i + pat.len() <= s.len() && #[trigger] s.subrange(i, i + pat.len()) == pat {
        Some(choose|i: int| 0 <= i && i + pat.len() <= s.len() && #[trigger] s.subrange(i, i + pat.len()) == pat
            && forall|j: int| i < j && j + pat.len() <= s.len() ==> #[trigger] s.subrange(j, j + pat.len()) != pat)
    } else {
        None
    }
}

/// A JavaScript method name: the Rust name before its last `_overload_`
/// suffix, without leading `r#`.
pub open spec fn js_method_name(rust_name: Seq<char>) -> Seq<char> {
    let base = match last_occurrence(rust_name, "_overload_"@) {
        Some(k) => rust_name.subrange(0, k),
        None => rust_name,
    };
    without_raw_prefix(base)
}

/// Removes the Rust-only overload suffix from a JavaScript method identifier.
pub fn method_name(rust_name: &str) -> (r: String)
    ensures
        r@ == js_method_name(rust_name@),
{
    let v = chars_of(rust_name);
    let pat = chars_of("_overload_");
    let mut i: usize = v.len();
    let mut cut: usize = v.len();
    let mut found = false;
    loop
        invariant_except_break
            !found,
            cut == v.len(),
        invariant
            i <= v.len(),
            v@ == rust_name@,
            pat@ == "_overload_"@,
            forall|j: int| i < j && j + pat@.len() <= v@.len() ==> #[trigger] v@.subrange(j, j + pat@.len()) != pat@,
        ensures
            cut <= v.len(),
            v@ == rust_name@,
            pat@ == "_overload_"@,
            found ==> v@.subrange(cut as int, cut + pat@.len()) == pat@ && cut + pat@.len() <= v@.len()
                && forall|j: int| cut < j && j + pat@.len() <= v@.len() ==> #[trigger] v@.subrange(j, j + pat@.len()) != pat@,
            !found ==> cut == v.len() && forall|j: int| 0 <= j && j + pat@.len() <= v@.len() ==> #[trigger] v@.subrange(j, j + pat@.len()) != pat@,
        decreases i,
    {
        if crate::text::matches_at(&v, &pat, i) {
            cut = i;
            found = true;
            break;
        }
        if i == 0 {
            break;
        }
        i = i - 1;
    }
    proof {
        if found {
            let k = cut as int;
            let c = choose|c: int| 0 <= c && c + pat@.len() <= v@.len() && #[trigger] v@.subrange(c, c + pat@.len()) == pat@
                && forall|j: int| c < j && j + pat@.len() <= v@.len() ==> #[trigger] v@.subrange(j, j + pat@.len()) != pat@;
            if c < k { assert(v@.subrange(k, k + pat@.len()) != pat@); }
            if c > k { assert(v@.subrange(c, c + pat@.len()) != pat@); }
        } else {
            assert(!exists|c: int| 0 <= c && c + pat@.len() <= v@.len() && #[trigger] v@.subrange(c, c + pat@.len()) == pat@);
        }
    }
    let mut start: usize = 0;
    assert(v@.subrange(0, cut as int) == v@.subrange(start as int, cut as int));
    while start < cut && cut - start >= 2 && v[start] == 'r' && v[start + 1] == '#'
        invariant
            start <= cut <= v.len(),
            v@ == rust_name@,
            without_raw_prefix(v@.subrange(0, cut as int)) == without_raw_prefix(v@.subrange(start as int, cut as int)),
        decreases cut - start,
    {
        proof {
            let s = v@.subrange(start as int, cut as int);
            assert(s.subrange(2, s.len() as int) =~= v@.subrange(start + 2, cut as int));
        }
        start = start + 2;
    }
    proof {
        assert(v@.subrange(0, v@.len() as int) =~= v@);
    }
    string_of_range(&v, start, cut)
}

/// Whether a declaration path starts with a namespace path.
pub open spec fn declaration_path_starts_with(path: Seq<Seq<char>>, prefix: Seq<Seq<char>>) -> bool {
    path.len() >= prefix.len() && path.subrange(0, prefix.len() as int) == prefix
}

/// Reports whether a declaration path starts with one namespace path.
pub fn path_starts_with(path: &Vec<String>, prefix: &Vec<String>) -> (r: bool)
    ensures
        r == declaration_path_starts_with(views(path@), views(prefix@)),
{
    if path.len() < prefix.len() {
        return false;
    }
    let mut i: usize = 0;
    while i < prefix.len()
        invariant
            i <= prefix.len() <= path.len(),
            forall|j: int| 0 <= j < i ==> views(path@)[j] == views(prefix@)[j],
        decreases prefix.len() - i,
    {
        if !str_eq(path[i].as_str(), prefix[i].as_str()) {
            assert(views(path@).subrange(0, prefix.len() as int)[i as int] != views(prefix@)[i as int]);
            return false;
        }
        i = i + 1;
    }
    assert(views(path@).subrange(0, prefix.len() as int) =~= views(prefix@));
    true
}

/// A declaration path relative to the current namespace: the part below it
/// when it lies strictly inside, else the whole path, joined by dots.
pub open spec fn relative_path(path: Seq<Seq<char>>, scope: Seq<Seq<char>>) -> Seq<char> {
    if declaration_path_starts_with(path, scope) && path.len() > scope.len() {
        join(path.subrange(scope.len() as int, path.len() as int), "."@)
    } else {
        join(path, "."@)
    }
}

/// Resolves a named declaration path relative to the current namespace.
pub fn relative_ts_path(path: &Vec<String>, scope: &Vec<String>) -> (r: String)
    ensures
        r@ == relative_path(views(path@), views(scope@)),
{
    if path_starts_with(path, scope) && path.len() > scope.len() {
        let mut tail: Vec<String> = Vec::new();
        let mut i: usize = scope.len();
        while i < path.len()
            invariant
                scope.len() <= i <= path.len(),
                views(tail@) =~= views(path@).subrange(scope.len() as int, i as int),
            decreases path.len() - i,
        {
            let ghost before = tail@;
            let part = path[i].clone();
            tail.push(part);
            proof {
                assert(views(tail@) =~= views(before).push(part@));
                assert(views(path@).subrange(scope.len() as int, i + 1) =~= views(path@).subrange(scope.len() as int, i as int).push(path@[i as int]@));
            }
            i = i + 1;
        }
        join_strings(&tail, ".")
    } else {
        join_strings(path, ".")
    }
}

/// The relative module path of a generated declaration file: `./` and its
/// name without `.d.ts`.
pub open spec fn ts_module_path(file_name: Seq<char>) -> Seq<char> {
    "./"@ + file_name.subrange(0, file_name.len() - 5)
}

/// Converts a generated declaration file name into a relative TypeScript module path.
pub fn typescript_module_path(file_name: &str) -> (r: String)
    requires
        file_name@.len() >= 5 && file_name@.subrange(file_name@.len() - 5, file_name@.len() as int) == ".d.ts"@,
    ensures
        r@ == ts_module_path(file_name@),
{
    let v = chars_of(file_name);
    let name = string_of_range(&v, 0, v.len() - 5);
    let mut r = String::from_str("./");
    r.append(name.as_str());
    r
}

/// What the declaration builder reads of one struct field.
#[derive(Clone, Debug)]
pub struct DeclaredField {
    /// The Rust identifier, when the field is named.
    pub ident: Option<String>,
    /// The TypeScript property name (after a serde rename).
    pub property_name: String,
    /// The field carries `#[serde(flatten)]`.
    pub flatten: bool,
    /// The field's type is `Option<_>` or `JsOptional<_>`.
    pub optional: bool,
}

/// The field is a map of extra properties: an open object's index signature.
pub open spec fn additional_properties(f: DeclaredField) -> bool {
    (f.ident matches Some(i) && i@ == "additional_properties"@) || f.property_name@ == "additionalProperties"@
}

/// The field stands for an inherited interface: flattened (other than the
/// extra properties), or a required field whose name starts with `base_`.
pub open spec fn inherited_base(f: DeclaredField) -> bool {
    (f.flatten && !additional_properties(f))
        || ((f.ident matches Some(i) && has_prefix(i@, "base_"@)) && !f.optional)
}

/// Reports whether a Rust map field represents an open TypeScript object index signature.
pub fn is_additional_properties_field(field: &DeclaredField) -> (r: bool)
    ensures
        r == additional_properties(*field),
{
    let by_ident = match &field.ident {
        Some(i) => str_eq(i.as_str(), "additional_properties"),
        None => false,
    };
    by_ident || str_eq(field.property_name.as_str(), "additionalProperties")
}

/// Reports whether a Rust composition field represents an inherited TypeScript interface.
pub fn is_inherited_base_field(field: &DeclaredField) -> (r: bool)
    ensures
        r == inherited_base(*field),
{
    if field.flatten && !is_additional_properties_field(field) {
        return true;
    }
    let base = match &field.ident {
        Some(i) => crate::text::starts_with(i.as_str(), "base_"),
        None => false,
    };
    base && !field.optional
}

} // verus!
