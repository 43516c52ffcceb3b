use operit::commands::local_models::{
    catalog_entry_not_found, install_operation_not_found, installed_model_not_found,
    print_catalog_row, print_deleted_engine, print_deleted_model, print_install_report,
    print_verified_model, CatalogRow, InstallReport,
};
use operit::local_model_provider::LocalModelKind;
use operit::output::CoreCommandOutput;

#[test]
fn catalog_row_names_engine_and_install_state() {
    let mut output = CoreCommandOutput::new();
    let mut row = CatalogRow {
        id: "sherpa-tts".to_string(),
        version: "1.0".to_string(),
        kind: LocalModelKind::TextToSpeech,
        engine: Some(("sherpa-onnx".to_string(), "1.12".to_string())),
        declared_byte_size: 2048,
        license: "Apache-2.0".to_string(),
        platform_compatible: true,
        model_installed: false,
        engine_installed: true,
    };
    print_catalog_row(&row, &mut output);
    row.engine = None;
    print_catalog_row(&row, &mut output);
    assert_eq!(
        output.stdout,
        "sherpa-tts\tversion=1.0\tkind=TextToSpeech\tengine=sherpa-onnx@1.12\tbytes=2048\tlicense=Apache-2.0\tcompatible=true\tmodelInstalled=false\tengineInstalled=true\n\
         sherpa-tts\tversion=1.0\tkind=TextToSpeech\tengine=not-declared\tbytes=2048\tlicense=Apache-2.0\tcompatible=true\tmodelInstalled=false\tengineInstalled=true\n"
    );
}

#[test]
fn install_report_lists_model_then_engine() {
    let mut output = CoreCommandOutput::new();
    print_install_report(
        &InstallReport {
            model_id: "m".to_string(),
            model_version: "1".to_string(),
            model_downloaded_bytes: 10,
            model_storage_path: "models/m".to_string(),
            engine_id: "e".to_string(),
            engine_version: "2".to_string(),
            engine_target_segment: "linux-x86_64".to_string(),
            engine_downloaded_bytes: 20,
            engine_storage_path: "engines/e".to_string(),
        },
        &mut output,
    );
    assert_eq!(
        output.stdout,
        "installedModel=m@1\tmodelBytes=10\tmodelStoragePath=models/m\n\
         installedEngine=e@2\ttarget=linux-x86_64\tengineBytes=20\tengineStoragePath=engines/e\n"
    );
}

#[test]
fn verify_and_delete_lines() {
    let mut output = CoreCommandOutput::new();
    print_verified_model("m", "1", &mut output);
    print_deleted_model("m", "1", &mut output);
    print_deleted_engine("e", "2", &mut output);
    assert_eq!(
        output.stdout,
        "verifiedModel=m@1\tmodel=true\tengine=true\ndeletedModel=m@1\ndeletedEngine=e@2\n"
    );
}

#[test]
fn lookup_errors_name_the_version() {
    assert_eq!(
        install_operation_not_found(" m ", " 1 "),
        "local model install operation not found: m@1"
    );
    assert_eq!(catalog_entry_not_found("m", "1"), "local model catalog entry not found: m@1");
    assert_eq!(installed_model_not_found("m", "1"), "installed local model not found: m@1");
}
