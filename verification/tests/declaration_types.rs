use operit::declaration_catalog::CatalogEntry;
use operit::declaration_types::{emit_index_signature, emit_type};
use operit::rust_source::{source_field_types, RustType, RustTypeArgument};

fn strings(items: &[&str]) -> Vec<String> {
    items.iter().map(|s| s.to_string()).collect()
}

const SOURCE: &str = r#"
pub struct Shape {
    pub name: String,
    pub size: Option<u32>,
    pub tags: Vec<String>,
    pub extra: HashMap<String, Value>,
    pub pair: (bool, f64),
    pub result: ToolResult,
    pub list: Box<[UIButton]>,
    pub nothing: (),
    pub reply: JsFuture<Vec<FilesReadResult>>,
    pub page: Page<'static, ToolResult>,
    pub index: JsTypeIndex<EventMap, K>,
    pub borrowed: &'static str,
}
struct Hidden { value: u8 }
pub enum Mode { On }
"#;

#[test]
fn field_types_are_written_in_typescript() {
    let types = source_field_types(SOURCE).unwrap();
    assert_eq!(types.len(), 2);
    assert_eq!(types[0].len(), 12);
    assert!(types[1].is_empty());
    let catalog = vec![
        CatalogEntry { rust_name: "ToolResult".to_string(), ts_file: "results.d.ts".to_string(), path: strings(&["ToolResult"]) },
        CatalogEntry { rust_name: "UIButton".to_string(), ts_file: "ui.d.ts".to_string(), path: strings(&["UI", "Button"]) },
    ];
    let named = vec![("FilesReadResult".to_string(), strings(&["Files", "ReadResult"]))];
    let mut imports: Vec<(String, Vec<String>)> = Vec::new();
    let written: Vec<String> = types[0]
        .iter()
        .map(|t| emit_type(t, &Vec::new(), &named, &catalog, "files.d.ts", &mut imports))
        .collect();
    assert_eq!(
        written,
        strings(&[
            "string",
            "number | undefined",
            "string[]",
            "Record<string, unknown>",
            "[boolean, number]",
            "ToolResult",
            "UI.Button[]",
            "void",
            "Promise<Files.ReadResult[]>",
            "Page<ToolResult>",
            "EventMap[K & keyof EventMap]",
            "string",
        ])
    );
    assert_eq!(
        imports,
        vec![
            ("results.d.ts".to_string(), strings(&["ToolResult"])),
            ("ui.d.ts".to_string(), strings(&["UI"])),
        ]
    );
    assert!(source_field_types("pub struct {").is_err());
}

#[test]
fn types_are_written_relative_to_the_namespace() {
    let named = vec![("FilesReadResult".to_string(), strings(&["Files", "ReadResult"]))];
    let t = RustType::Path("Option".to_string(), vec![RustTypeArgument::Type(RustType::Path("FilesReadResult".to_string(), Vec::new()))]);
    let mut imports: Vec<(String, Vec<String>)> = Vec::new();
    assert_eq!(emit_type(&t, &strings(&["Files"]), &named, &Vec::new(), "files.d.ts", &mut imports), "ReadResult | undefined");
    let never = RustType::Never;
    assert_eq!(emit_type(&never, &Vec::new(), &named, &Vec::new(), "files.d.ts", &mut imports), "never");
    let grouped = RustType::Paren(Box::new(RustType::Slice(Box::new(RustType::Path("JsOptional".to_string(), vec![RustTypeArgument::Type(RustType::Path("i64".to_string(), Vec::new()))])))));
    assert_eq!(emit_type(&grouped, &Vec::new(), &named, &Vec::new(), "files.d.ts", &mut imports), "number | null | undefined[]");
    assert!(imports.is_empty());
}

#[test]
fn flattened_maps_declare_index_signatures() {
    let map = RustType::Path(
        "HashMap".to_string(),
        vec![
            RustTypeArgument::Type(RustType::Path("String".to_string(), Vec::new())),
            RustTypeArgument::Type(RustType::Path("Vec".to_string(), vec![RustTypeArgument::Type(RustType::Path("u8".to_string(), Vec::new()))])),
        ],
    );
    let mut output = "interface A {\n".to_string();
    let mut imports: Vec<(String, Vec<String>)> = Vec::new();
    emit_index_signature(&mut output, &map, &Vec::new(), &Vec::new(), &Vec::new(), "core.d.ts", &mut imports, "  ");
    assert_eq!(output, "interface A {\n  [key: string]: number[];\n");
}
