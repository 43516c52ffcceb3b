use operit::codegen::scanner::scan_source;
use operit::declaration_catalog::{
    build_type_catalog, check_declaration_tree, has_serde_flatten, infer_declaration,
    is_flattened_intersection, PublicItem, RustItemKind,
};
use operit::declarations::DeclarationFile;
use operit::rust_source::{source_methods, source_public_items};

fn item(kind: RustItemKind, name: &str) -> PublicItem {
    PublicItem { kind, name: name.to_string(), unnamed_fields: false, fields: Vec::new() }
}

fn field(name: &str, attrs: &[(&str, Option<&str>)]) -> (Option<String>, Vec<(String, Option<String>)>) {
    (
        Some(name.to_string()),
        attrs.iter().map(|(a, t)| (a.to_string(), t.map(|t| t.to_string()))).collect(),
    )
}

fn declared(path: &[&str], kind: &str) -> Option<(Vec<String>, String)> {
    Some((path.iter().map(|p| p.to_string()).collect(), kind.to_string()))
}

#[test]
fn host_traits_declare_namespaces() {
    assert_eq!(infer_declaration(&item(RustItemKind::Trait, "FilesHost"), "files.d.ts"), declared(&["Files"], "namespace"));
    assert_eq!(
        infer_declaration(&item(RustItemKind::Trait, "SystemBluetoothBleHost"), "system.d.ts"),
        declared(&["System", "bluetooth", "ble"], "namespace")
    );
}

#[test]
fn module_prefixes_become_namespaces() {
    assert_eq!(infer_declaration(&item(RustItemKind::Struct, "FilesReadResult"), "files.d.ts"), declared(&["Files", "ReadResult"], "interface"));
    assert_eq!(infer_declaration(&item(RustItemKind::Struct, "Files"), "files.d.ts"), declared(&["Files"], "interface"));
    assert_eq!(infer_declaration(&item(RustItemKind::Trait, "NetRequestMethods"), "network.d.ts"), declared(&["Net", "Request"], "interface"));
    assert_eq!(infer_declaration(&item(RustItemKind::Struct, "UINodeStyle"), "ui.d.ts"), declared(&["UINodeStyle"], "interface"));
    assert_eq!(infer_declaration(&item(RustItemKind::Struct, "UINode"), "ui.d.ts"), declared(&["UINode"], "class"));
    assert_eq!(infer_declaration(&item(RustItemKind::Struct, "UIButton"), "ui.d.ts"), declared(&["UI", "Button"], "interface"));
}

#[test]
fn special_items_are_declared_by_name() {
    assert_eq!(infer_declaration(&item(RustItemKind::Struct, "ToolPkgBroadcastTopicKey"), "toolpkg.d.ts"), None);
    assert_eq!(infer_declaration(&item(RustItemKind::Struct, "LodashGlobal"), "core.d.ts"), declared(&["_"], "variable"));
    assert_eq!(infer_declaration(&item(RustItemKind::Trait, "ComposeNumberExtensions"), "compose.d.ts"), declared(&["global", "Number"], "interface"));
    assert_eq!(infer_declaration(&item(RustItemKind::Enum, "ToolPkgEventTypeMap"), "toolpkg.d.ts"), declared(&["ToolPkg", "EventTypeMap"], "type_map"));
    assert_eq!(infer_declaration(&item(RustItemKind::Enum, "EventTypeMap"), "core.d.ts"), declared(&["EventTypeMap"], "type_map"));
    assert_eq!(infer_declaration(&item(RustItemKind::Enum, "Color"), "core.d.ts"), declared(&["Color"], "type"));
    assert_eq!(infer_declaration(&item(RustItemKind::TypeAlias, "Callback"), "core.d.ts"), declared(&["Callback"], "type"));
}

#[test]
fn tuple_structs_and_intersections_are_types() {
    let mut tuple = item(RustItemKind::Struct, "Wrapper");
    tuple.unnamed_fields = true;
    assert_eq!(infer_declaration(&tuple, "core.d.ts"), declared(&["Wrapper"], "type"));

    let mut numbered = item(RustItemKind::Struct, "Both");
    numbered.fields = vec![field("member_1", &[]), field("member_2", &[])];
    assert!(is_flattened_intersection(&numbered));
    assert_eq!(infer_declaration(&numbered, "core.d.ts"), declared(&["Both"], "type"));

    let mut flattened = item(RustItemKind::Struct, "Merged");
    flattened.fields = vec![field("base", &[("serde", Some("flatten"))]), field("extra", &[("serde", Some("default , flatten"))])];
    assert!(is_flattened_intersection(&flattened));

    let mut single = item(RustItemKind::Struct, "One");
    single.fields = vec![field("member_1", &[])];
    assert!(!is_flattened_intersection(&single));

    let mut mixed = item(RustItemKind::Struct, "Mixed");
    mixed.fields = vec![field("base", &[("serde", Some("flatten"))]), field("name", &[])];
    assert!(!is_flattened_intersection(&mixed));
    assert_eq!(infer_declaration(&mixed, "core.d.ts"), declared(&["Mixed"], "interface"));
}

#[test]
fn serde_flatten_is_read_from_attribute_arguments() {
    let attrs = |list: &[(&str, Option<&str>)]| -> Vec<(String, Option<String>)> {
        list.iter().map(|(a, t)| (a.to_string(), t.map(|t| t.to_string()))).collect()
    };
    assert!(has_serde_flatten(&attrs(&[("serde", Some("flatten"))])));
    assert!(has_serde_flatten(&attrs(&[("doc", None), ("serde", Some("rename = \"x\" , flatten"))])));
    assert!(!has_serde_flatten(&attrs(&[("serde", Some("rename = \"flatten\""))])));
    assert!(!has_serde_flatten(&attrs(&[("other", Some("flatten"))])));
    assert!(!has_serde_flatten(&attrs(&[])));
}

#[test]
fn matching_declarations_pass_the_check() {
    let generated = vec![
        DeclarationFile { file_name: "core.d.ts".to_string(), source: "a".to_string() },
        DeclarationFile { file_name: "files.d.ts".to_string(), source: "b".to_string() },
    ];
    assert_eq!(check_declaration_tree(&generated, &vec!["a".to_string(), "b".to_string()]), Ok(()));
}

#[test]
fn differing_declarations_are_named() {
    let generated = vec![
        DeclarationFile { file_name: "core.d.ts".to_string(), source: "a".to_string() },
        DeclarationFile { file_name: "files.d.ts".to_string(), source: "b".to_string() },
        DeclarationFile { file_name: "ui.d.ts".to_string(), source: "c".to_string() },
    ];
    let committed = vec!["x".to_string(), "b".to_string(), "y".to_string()];
    assert_eq!(
        check_declaration_tree(&generated, &committed),
        Err("TypeScript declarations differ from Rust SDK source: core.d.ts, ui.d.ts".to_string())
    );
}

#[test]
fn catalog_indexes_types_by_module() {
    let items = vec![
        ("files.d.ts".to_string(), item(RustItemKind::Struct, "FilesReadResult")),
        ("files.d.ts".to_string(), item(RustItemKind::Struct, "ToolPkgBroadcastTopicKey")),
        ("ui.d.ts".to_string(), item(RustItemKind::Struct, "UIButton")),
    ];
    let catalog = build_type_catalog(&items).unwrap();
    assert_eq!(catalog.len(), 2);
    assert_eq!(catalog[0].rust_name, "FilesReadResult");
    assert_eq!(catalog[0].ts_file, "files.d.ts");
    assert_eq!(catalog[0].path, vec!["Files".to_string(), "ReadResult".to_string()]);
    assert_eq!(catalog[1].rust_name, "UIButton");
    assert_eq!(catalog[1].path, vec!["UI".to_string(), "Button".to_string()]);
}

#[test]
fn catalog_refuses_a_type_of_two_modules() {
    let items = vec![
        ("files.d.ts".to_string(), item(RustItemKind::Struct, "Shared")),
        ("files.d.ts".to_string(), item(RustItemKind::Struct, "Shared")),
        ("ui.d.ts".to_string(), item(RustItemKind::Struct, "Shared")),
    ];
    assert_eq!(
        build_type_catalog(&items).map(|c| c.len()),
        Err("Rust SDK type `Shared` is declared by multiple TypeScript modules".to_string())
    );
    assert_eq!(build_type_catalog(&items[..2].to_vec()).map(|c| c.len()), Ok(1));
}

const SOURCE: &str = r#"
pub struct Merged {
    #[serde(flatten)]
    pub base: Base,
    #[serde(flatten)]
    pub extra: Extra,
}
struct Hidden<T>(T);
pub enum Mode { On, Off }
pub trait FilesHost {}
pub type Callback = fn();
impl Merged {
    pub fn get_instance(context: &Context) -> Arc<Mutex<Self>> { todo() }
    #[operit_core_internal]
    pub fn reset(&mut self) {}
    fn named(name: String, other: u8) {}
    fn keyed(key: <K as Keyed>::Key) {}
}
"#;

#[test]
fn public_items_are_read_from_source() {
    let items = source_public_items(SOURCE).unwrap();
    let names: Vec<(RustItemKind, &str)> = items.iter().map(|i| (i.kind, i.name.as_str())).collect();
    assert_eq!(
        names,
        vec![
            (RustItemKind::Struct, "Merged"),
            (RustItemKind::Enum, "Mode"),
            (RustItemKind::Trait, "FilesHost"),
            (RustItemKind::TypeAlias, "Callback"),
        ]
    );
    assert!(is_flattened_intersection(&items[0]));
    assert_eq!(infer_declaration(&items[2], "files.d.ts"), declared(&["Files"], "namespace"));
    assert!(source_public_items("pub struct {").is_err());
}

#[test]
fn methods_are_read_with_their_attributes() {
    let methods = source_methods(SOURCE).unwrap();
    let names: Vec<&str> = methods.iter().map(|m| m.0.as_str()).collect();
    assert_eq!(names, vec!["get_instance", "reset", "named", "keyed"]);
    assert_eq!(methods[1].1, vec![("operit_core_internal".to_string(), None)]);
}

#[test]
fn structs_and_functions_are_scanned() {
    let (structs, fns) = scan_source(SOURCE).unwrap();
    let s: Vec<(&str, bool, bool)> = structs.iter().map(|s| (s.name.as_str(), s.public, s.generic)).collect();
    assert_eq!(s, vec![("Merged", true, false), ("Hidden", false, true)]);
    assert_eq!(fns.len(), 4);
    assert_eq!(fns[0].impl_type.as_deref(), Some("Merged"));
    assert_eq!(fns[0].name, "get_instance");
    assert!(fns[0].public && !fns[0].has_receiver && !fns[0].core_internal);
    assert_eq!(fns[0].inputs, 1);
    assert_eq!(fns[0].first_arg_type.as_deref(), Some("& Context"));
    assert_eq!(fns[0].first_arg_path_ident, None);
    assert_eq!(fns[0].return_type, "Arc < Mutex < Self > >");
    assert!(fns[1].core_internal && fns[1].has_receiver);
    assert_eq!(fns[1].first_arg_type, None);
    assert_eq!(fns[1].return_type, "");
    assert!(!fns[2].public);
    assert_eq!(fns[2].inputs, 2);
    assert_eq!(fns[2].first_arg_path_ident.as_deref(), Some("String"));
    assert_eq!(fns[3].first_arg_path_ident, None);
    assert!(scan_source("impl {").is_err());
}
