use operit::declaration_catalog::{CatalogEntry, PublicItem, RustItemKind};
use operit::declaration_module::{declaration_module_source, layout_declarations, record_import, resolve_named_type};
use operit::declaration_scope::{scope_entries, ScopeEntryKind};
use operit::rust_source::source_trait_functions;

fn strings(items: &[&str]) -> Vec<String> {
    items.iter().map(|s| s.to_string()).collect()
}

fn entry(name: &str, ts_file: &str, path: &[&str]) -> CatalogEntry {
    CatalogEntry { rust_name: name.to_string(), ts_file: ts_file.to_string(), path: strings(path) }
}

#[test]
fn imports_are_kept_ordered_and_unique() {
    let mut imports: Vec<(String, Vec<String>)> = Vec::new();
    record_import(&mut imports, "results.d.ts", "ToolResult");
    record_import(&mut imports, "core.d.ts", "Value");
    record_import(&mut imports, "results.d.ts", "FileResult");
    record_import(&mut imports, "results.d.ts", "ToolResult");
    record_import(&mut imports, "ui.d.ts", "UI");
    assert_eq!(
        imports,
        vec![
            ("core.d.ts".to_string(), strings(&["Value"])),
            ("results.d.ts".to_string(), strings(&["FileResult", "ToolResult"])),
            ("ui.d.ts".to_string(), strings(&["UI"])),
        ]
    );
}

#[test]
fn named_types_resolve_by_module() {
    let catalog = vec![
        entry("FilesReadResult", "files.d.ts", &["Files", "ReadResult"]),
        entry("ToolResult", "results.d.ts", &["ToolResult"]),
        entry("UIButton", "ui.d.ts", &["UI", "Button"]),
    ];
    let named = vec![("FilesReadResult".to_string(), strings(&["Files", "ReadResult"]))];
    let scope = strings(&["Files"]);
    let mut imports: Vec<(String, Vec<String>)> = Vec::new();

    assert_eq!(resolve_named_type("FilesReadResult", &scope, &named, &catalog, "files.d.ts", &mut imports), "ReadResult");
    assert_eq!(resolve_named_type("FilesReadResult", &Vec::new(), &named, &catalog, "files.d.ts", &mut imports), "Files.ReadResult");
    assert_eq!(resolve_named_type("UIButton", &scope, &named, &catalog, "files.d.ts", &mut imports), "UI.Button");
    assert_eq!(resolve_named_type("ToolResult", &scope, &named, &catalog, "files.d.ts", &mut imports), "ToolResult");
    assert_eq!(resolve_named_type("String", &scope, &named, &catalog, "files.d.ts", &mut imports), "String");
    assert_eq!(
        imports,
        vec![
            ("results.d.ts".to_string(), strings(&["ToolResult"])),
            ("ui.d.ts".to_string(), strings(&["UI"])),
        ]
    );
}

#[test]
fn later_named_paths_replace_earlier_ones() {
    let named = vec![
        ("Item".to_string(), strings(&["First"])),
        ("Item".to_string(), strings(&["Second", "Item"])),
    ];
    let mut imports: Vec<(String, Vec<String>)> = Vec::new();
    assert_eq!(resolve_named_type("Item", &strings(&["Second"]), &named, &Vec::new(), "core.d.ts", &mut imports), "Item");
    assert!(imports.is_empty());
}

#[test]
fn module_source_has_header_imports_and_trimmed_body() {
    let imports = vec![
        ("core.d.ts".to_string(), strings(&["Value"])),
        ("results.d.ts".to_string(), strings(&["FileResult", "ToolResult"])),
    ];
    assert_eq!(
        declaration_module_source(&imports, "export type A = string;\n\n"),
        "// Generated from operit-plugin-sdk Rust declarations.\n\n\
         import type { Value } from \"./core\";\n\
         import type { FileResult, ToolResult } from \"./results\";\n\
         \n\
         export type A = string;\n"
    );
    assert_eq!(
        declaration_module_source(&Vec::new(), "export type B = number;\n  \n"),
        "// Generated from operit-plugin-sdk Rust declarations.\n\nexport type B = number;\n"
    );
}

#[test]
fn declarations_are_grouped_by_path() {
    let item = |kind, name: &str| PublicItem { kind, name: name.to_string(), unnamed_fields: false, fields: Vec::new() };
    let items = vec![
        item(RustItemKind::Trait, "NetHost"),
        item(RustItemKind::Struct, "NetResponse"),
        item(RustItemKind::Trait, "CoreHost"),
        item(RustItemKind::Trait, "NetFutureHost"),
        item(RustItemKind::Struct, "ToolPkgBroadcastTopicKey"),
        item(RustItemKind::Trait, "NetResponseMethods"),
    ];
    let layout = layout_declarations(&items, "network.d.ts");
    assert_eq!(layout.root_traits, vec![2]);
    let named: Vec<(&str, Vec<String>)> = layout.named.iter().map(|(n, p)| (n.as_str(), p.clone())).collect();
    assert_eq!(
        named,
        vec![
            ("NetHost", strings(&["Net"])),
            ("NetResponse", strings(&["Net", "Response"])),
            ("NetFutureHost", strings(&["Net"])),
            ("NetResponseMethods", strings(&["Net", "Response"])),
        ]
    );
    assert_eq!(layout.groups.len(), 2);
    assert_eq!(layout.groups[0].path, strings(&["Net"]));
    assert_eq!(layout.groups[0].kind, "namespace");
    assert_eq!(layout.groups[0].order, 0);
    assert_eq!(layout.groups[0].members, vec![0, 3]);
    assert_eq!(layout.groups[1].path, strings(&["Net", "Response"]));
    assert_eq!(layout.groups[1].kind, "interface");
    assert_eq!(layout.groups[1].order, 1);
    assert_eq!(layout.groups[1].members, vec![1, 5]);
}

#[test]
fn scopes_list_namespaces_groups_and_functions_in_order() {
    let item = |kind, name: &str| PublicItem { kind, name: name.to_string(), unnamed_fields: false, fields: Vec::new() };
    let items = vec![
        item(RustItemKind::Trait, "NetHost"),
        item(RustItemKind::Struct, "NetResponse"),
        item(RustItemKind::Trait, "CoreHost"),
        item(RustItemKind::Trait, "NetFutureHost"),
        item(RustItemKind::Enum, "Color"),
    ];
    let methods = vec![strings(&["request", "fetch"]), Vec::new(), strings(&["log", "alert"]), strings(&["later"]), Vec::new()];
    let layout = layout_declarations(&items, "network.d.ts");

    let top = scope_entries(&layout, &methods, &Vec::new());
    let seen: Vec<(ScopeEntryKind, &str, usize)> = top.iter().map(|e| (e.kind, e.name.as_str(), e.order)).collect();
    assert_eq!(
        seen,
        vec![
            (ScopeEntryKind::Namespace, "Net", 0),
            (ScopeEntryKind::Group, "Color", 3),
            (ScopeEntryKind::RootFunction, "alert", usize::MAX),
            (ScopeEntryKind::RootFunction, "log", usize::MAX),
        ]
    );
    assert_eq!(top[0].group, Some(0));
    assert_eq!(top[1].group, Some(2));
    assert_eq!((top[2].item, top[2].method), (2, 1));

    let net = scope_entries(&layout, &methods, &strings(&["Net"]));
    let seen: Vec<(ScopeEntryKind, &str, usize, usize, usize)> = net.iter().map(|e| (e.kind, e.name.as_str(), e.order, e.item, e.method)).collect();
    assert_eq!(
        seen,
        vec![
            (ScopeEntryKind::Method, "fetch", 0, 0, 1),
            (ScopeEntryKind::Method, "later", 0, 3, 0),
            (ScopeEntryKind::Method, "request", 0, 0, 0),
            (ScopeEntryKind::Group, "Response", 1, 0, 0),
        ]
    );
    assert!(scope_entries(&layout, &methods, &strings(&["Other"])).is_empty());
}

#[test]
fn trait_functions_are_read_from_source() {
    let source = "pub trait FilesHost { fn read(&self) -> String; fn write(&self, text: String); const N: u8; }\npub struct Plain;\ntrait Hidden { fn h(&self); }\npub enum E { A }";
    assert_eq!(
        source_trait_functions(source).unwrap(),
        vec![strings(&["read", "write"]), Vec::new(), Vec::new()]
    );
    assert!(source_trait_functions("pub trait {").is_err());
}
