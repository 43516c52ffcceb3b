use operit::declarations::{
    emit_jsdoc, is_additional_properties_field, is_inherited_base_field, method_name,
    path_starts_with, prefixed_path, relative_ts_path, typescript_module_path, DeclaredField,
};

fn strings(items: &[&str]) -> Vec<String> {
    items.iter().map(|s| s.to_string()).collect()
}

#[test]
fn trims_jsdoc_boundary_lines() {
    let docs = strings(&["", " Summary.", "", " Details.", ""]);
    let mut output = String::new();

    emit_jsdoc(&mut output, &docs, "  ");

    assert_eq!(output, "  /**\n   * Summary.\n   *\n   * Details.\n   */\n");
}

#[test]
fn recognizes_interface_composition_fields() {
    let fields = vec![
        DeclaredField {
            ident: Some("base_json_object".to_string()),
            property_name: "base_json_object".to_string(),
            flatten: false,
            optional: false,
        },
        DeclaredField {
            ident: Some("base_url".to_string()),
            property_name: "base_url".to_string(),
            flatten: false,
            optional: true,
        },
        DeclaredField {
            ident: Some("additional_properties".to_string()),
            property_name: "additional_properties".to_string(),
            flatten: false,
            optional: false,
        },
    ];

    assert!(is_inherited_base_field(&fields[0]));
    assert!(!is_inherited_base_field(&fields[1]));
    assert!(is_additional_properties_field(&fields[2]));
}

#[test]
fn flattened_fields_are_inherited_unless_they_hold_extra_properties() {
    let flattened = DeclaredField {
        ident: Some("inner".to_string()),
        property_name: "inner".to_string(),
        flatten: true,
        optional: true,
    };
    assert!(is_inherited_base_field(&flattened));
    let renamed_extra = DeclaredField {
        ident: Some("extra".to_string()),
        property_name: "additionalProperties".to_string(),
        flatten: true,
        optional: false,
    };
    assert!(is_additional_properties_field(&renamed_extra));
    assert!(!is_inherited_base_field(&renamed_extra));
}

#[test]
fn jsdoc_is_empty_without_content() {
    let mut output = String::from("x");
    emit_jsdoc(&mut output, &strings(&["", "   "]), "  ");
    assert_eq!(output, "x");
}

#[test]
fn method_names_drop_overload_suffix_and_raw_prefix() {
    assert_eq!(method_name("send_overload_2"), "send");
    assert_eq!(method_name("a_overload_b_overload_c"), "a_overload_b");
    assert_eq!(method_name("r#type"), "type");
    assert_eq!(method_name("plain"), "plain");
}

#[test]
fn prefixed_paths_split_off_the_namespace() {
    assert_eq!(prefixed_path("ToolPkgJsonObject", "ToolPkg"), strings(&["ToolPkg", "JsonObject"]));
    assert_eq!(prefixed_path("ToolPkg", "ToolPkg"), strings(&["ToolPkg"]));
    assert_eq!(prefixed_path("Other", "ToolPkg"), strings(&["Other"]));
}

#[test]
fn relative_paths_drop_the_enclosing_scope() {
    let path = strings(&["Operit", "Chat", "Message"]);
    assert!(path_starts_with(&path, &strings(&["Operit"])));
    assert!(!path_starts_with(&path, &strings(&["Chat"])));
    assert_eq!(relative_ts_path(&path, &strings(&["Operit"])), "Chat.Message");
    assert_eq!(relative_ts_path(&path, &strings(&["Other"])), "Operit.Chat.Message");
    assert_eq!(relative_ts_path(&path, &path), "Operit.Chat.Message");
}

#[test]
fn module_paths_drop_the_declaration_suffix() {
    assert_eq!(typescript_module_path("chat.d.ts"), "./chat");
}
