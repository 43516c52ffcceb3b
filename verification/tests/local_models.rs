use operit::sherpa_output::parseSherpaSttOutput;
use operit::local_model_provider::{
    engineExecutableRelative, ensureModelKind, modelKindName, runtimeLayoutRelative,
    sherpaTtsArgumentPlan, sherpaTtsArguments, validateSpeakerId, LocalModelDriver,
    LocalModelKind, LocalModelProviderError, ResolvedPath,
};
use operit::local_model_registry::LocalModelRegistryStoreError;
use operit::local_model_storage::{
    buildLocalEngineStoragePath, buildLocalModelStoragePath, validatedStorageSegment,
    LocalModelStorageError,
};

const MODELS_DIR: &str = "runtime://local-models";
const ENGINES_DIR: &str = "runtime://local-engines";

#[test]
fn buildStoragePathUsesLocalModelLayout() {
    let path = buildLocalModelStoragePath(MODELS_DIR, "stt", "sherpa_ncnn", "model-a", "v1.0").unwrap();
    assert_eq!(path, format!("{MODELS_DIR}/stt/sherpa_ncnn/model-a/v1.0"));
}

#[test]
fn validatedStorageSegmentRejectsTraversalMarkers() {
    assert!(validatedStorageSegment("modelId", ".").is_err());
    assert!(validatedStorageSegment("modelId", "..").is_err());
}

#[test]
fn storage_segment_is_trimmed() {
    assert_eq!(validatedStorageSegment("modelId", "  model_a-1.0 ").unwrap(), "model_a-1.0");
}

#[test]
fn storage_segment_errors_name_the_field() {
    let empty = validatedStorageSegment("version", "   ").unwrap_err();
    assert_eq!(empty, LocalModelStorageError::EmptySegment { field: "version" });
    assert_eq!(empty.message(), "version is empty");
    let invalid = validatedStorageSegment("modelId", " a/b ").unwrap_err();
    assert_eq!(
        invalid,
        LocalModelStorageError::InvalidSegment { field: "modelId", value: "a/b".to_string() }
    );
    assert_eq!(invalid.message(), "modelId has invalid characters: a/b");
}

#[test]
fn storage_segment_validation_is_idempotent() {
    for raw in ["  v1.0 ", "model-a", " x_y "] {
        let once = validatedStorageSegment("modelId", raw).unwrap();
        let twice = validatedStorageSegment("modelId", &once).unwrap();
        assert_eq!(once, twice);
    }
}

#[test]
fn model_path_reports_first_invalid_segment() {
    assert_eq!(
        buildLocalModelStoragePath(MODELS_DIR, "tts", "sherpa_onnx", "..", "").unwrap_err(),
        LocalModelStorageError::InvalidSegment { field: "modelId", value: "..".to_string() }
    );
    assert_eq!(
        buildLocalModelStoragePath(MODELS_DIR, "tts", "sherpa_onnx", "m", " ").unwrap_err(),
        LocalModelStorageError::EmptySegment { field: "version" }
    );
}

#[test]
fn engine_path_uses_target_segment() {
    let path = buildLocalEngineStoragePath(ENGINES_DIR, " sherpa ", "1.2", "linux-x86_64").unwrap();
    assert_eq!(path, format!("{ENGINES_DIR}/sherpa/1.2/linux-x86_64"));
    assert_eq!(
        buildLocalEngineStoragePath(ENGINES_DIR, "", "1.2", "linux-x86_64").unwrap_err(),
        LocalModelStorageError::EmptySegment { field: "engineId" }
    );
}

#[test]
fn model_kind_names() {
    assert_eq!(modelKindName(&LocalModelKind::SpeechToText), "SpeechToText");
    assert_eq!(modelKindName(&LocalModelKind::TextToSpeech), "TextToSpeech");
    assert_eq!(modelKindName(&LocalModelKind::Embedding), "Embedding");
}

#[test]
fn kind_mismatch_names_both_kinds() {
    assert!(ensureModelKind(LocalModelKind::Chat, LocalModelKind::Chat).is_ok());
    let error = ensureModelKind(LocalModelKind::SpeechToText, LocalModelKind::TextToSpeech).unwrap_err();
    assert_eq!(error.message(), "local model kind mismatch: expected SpeechToText, got TextToSpeech");
}

#[test]
fn speaker_id_must_be_in_range() {
    assert!(validateSpeakerId(0, 2, "VITS").is_ok());
    assert!(validateSpeakerId(1, 2, "VITS").is_ok());
    let error = validateSpeakerId(2, 2, "VITS").unwrap_err();
    assert_eq!(
        error,
        LocalModelProviderError::InvalidRequest("local VITS speaker id must be between 0 and 1".to_string())
    );
    assert!(validateSpeakerId(-1, 2, "Matcha").is_err());
}

fn vits_driver() -> LocalModelDriver {
    LocalModelDriver::SherpaOnnxVits {
        model: "model.onnx".to_string(),
        lexicon: "lexicon.txt".to_string(),
        tokens: "tokens.txt".to_string(),
        ruleFsts: vec!["a.fst".to_string(), "b.fst".to_string()],
        ruleFars: vec![],
        speakerCount: 1,
    }
}

#[test]
fn vits_plan_lists_engine_arguments_in_order() {
    let plan = sherpaTtsArgumentPlan(&vits_driver(), 0, "sherpa").unwrap();
    let flags: Vec<&str> = plan.iter().map(|p| p.flag.as_str()).collect();
    assert_eq!(flags, vec!["--vits-model", "--vits-lexicon", "--vits-tokens", "--tts-rule-fsts"]);
    assert_eq!(plan[3].paths, vec!["a.fst".to_string(), "b.fst".to_string()]);
    assert!(plan.iter().all(|p| !p.directory));
    assert!(sherpaTtsArgumentPlan(&vits_driver(), 1, "sherpa").is_err());
}

fn resolved_for(plan_paths: &[Vec<String>], exists: bool) -> Vec<Vec<ResolvedPath>> {
    plan_paths
        .iter()
        .map(|paths| {
            paths
                .iter()
                .map(|p| ResolvedPath { display: format!("/models/m/{p}"), exists })
                .collect()
        })
        .collect()
}

#[test]
fn vits_arguments_join_rule_files() {
    let plan = sherpaTtsArgumentPlan(&vits_driver(), 0, "sherpa").unwrap();
    let declared: Vec<String> = ["model.onnx", "lexicon.txt", "tokens.txt", "a.fst", "b.fst"]
        .iter()
        .map(|s| s.to_string())
        .collect();
    let paths: Vec<Vec<String>> = plan.iter().map(|p| p.paths.clone()).collect();
    let args = sherpaTtsArguments(&plan, &declared, &resolved_for(&paths, true)).unwrap();
    assert_eq!(
        args,
        vec![
            "--vits-model=/models/m/model.onnx".to_string(),
            "--vits-lexicon=/models/m/lexicon.txt".to_string(),
            "--vits-tokens=/models/m/tokens.txt".to_string(),
            "--tts-rule-fsts=/models/m/a.fst,/models/m/b.fst".to_string(),
        ]
    );
}

#[test]
fn undeclared_and_missing_files_are_reported() {
    let plan = sherpaTtsArgumentPlan(&vits_driver(), 0, "sherpa").unwrap();
    let paths: Vec<Vec<String>> = plan.iter().map(|p| p.paths.clone()).collect();
    let declared_without_lexicon: Vec<String> = ["model.onnx", "tokens.txt", "a.fst", "b.fst"]
        .iter()
        .map(|s| s.to_string())
        .collect();
    assert_eq!(
        sherpaTtsArguments(&plan, &declared_without_lexicon, &resolved_for(&paths, true)).unwrap_err(),
        LocalModelProviderError::RuntimeFileMissing("lexicon.txt".to_string())
    );
    let declared: Vec<String> = ["model.onnx", "lexicon.txt", "tokens.txt", "a.fst", "b.fst"]
        .iter()
        .map(|s| s.to_string())
        .collect();
    assert_eq!(
        sherpaTtsArguments(&plan, &declared, &resolved_for(&paths, false)).unwrap_err(),
        LocalModelProviderError::RuntimeFileMissing("/models/m/model.onnx".to_string())
    );
}

#[test]
fn kitten_data_dir_needs_a_declared_child() {
    let driver = LocalModelDriver::SherpaOnnxKitten {
        model: "model.onnx".to_string(),
        voices: "voices.bin".to_string(),
        tokens: "tokens.txt".to_string(),
        dataDir: "espeak-ng-data".to_string(),
        speakerCount: 4,
    };
    let plan = sherpaTtsArgumentPlan(&driver, 3, "sherpa").unwrap();
    assert_eq!(plan.len(), 4);
    assert!(plan[3].directory);
    let paths: Vec<Vec<String>> = plan.iter().map(|p| p.paths.clone()).collect();
    let declared: Vec<String> = ["model.onnx", "voices.bin", "tokens.txt", "espeak-ng-data/phontab"]
        .iter()
        .map(|s| s.to_string())
        .collect();
    let args = sherpaTtsArguments(&plan, &declared, &resolved_for(&paths, true)).unwrap();
    assert_eq!(args[3], "--kitten-data-dir=/models/m/espeak-ng-data");
    let without_data: Vec<String> = ["model.onnx", "voices.bin", "tokens.txt"]
        .iter()
        .map(|s| s.to_string())
        .collect();
    assert_eq!(
        sherpaTtsArguments(&plan, &without_data, &resolved_for(&paths, true)).unwrap_err(),
        LocalModelProviderError::RuntimeFileMissing("espeak-ng-data".to_string())
    );
}

#[test]
fn runtime_layout_strips_root_prefix() {
    assert_eq!(
        runtimeLayoutRelative("  runtime://local-models/stt/m/v1 ", "runtime://").unwrap(),
        "local-models/stt/m/v1"
    );
    assert_eq!(
        runtimeLayoutRelative("/tmp/m", "runtime://").unwrap_err(),
        LocalModelProviderError::Storage("/tmp/m".to_string())
    );
}

#[test]
fn engine_executable_must_be_declared() {
    assert_eq!(engineExecutableRelative(Some("bin/sherpa-onnx"), "stt").unwrap(), "bin/sherpa-onnx");
    let error = engineExecutableRelative(None, "tts").unwrap_err();
    assert_eq!(error.message(), "local engine executable is not declared: tts");
}

#[test]
fn registry_errors_describe_their_cause() {
    assert_eq!(
        LocalModelRegistryStoreError::Storage("disk".to_string()).message(),
        "registry storage error: disk"
    );
    assert_eq!(
        LocalModelRegistryStoreError::Json("bad".to_string()).message(),
        "registry JSON error: bad"
    );
    assert_eq!(
        LocalModelRegistryStoreError::InvalidStoragePath("x".to_string()).message(),
        "invalid registry storage path: x"
    );
}

#[test]
fn stt_output_takes_text_of_last_json_line() {
    let stderr = "loading model\n{\"text\": \"old\"}\n  {\"text\": \" hello world \", \"tokens\": [\"h\"]}  \r\ndone\n";
    assert_eq!(parseSherpaSttOutput(stderr).unwrap(), " hello world ");
    assert_eq!(
        parseSherpaSttOutput("{\"b\": 2, \"a\": 1}\n").unwrap_err(),
        LocalModelProviderError::InvalidOutput("{\"a\":1,\"b\":2}".to_string())
    );
    assert_eq!(
        parseSherpaSttOutput("no json here").unwrap_err(),
        LocalModelProviderError::InvalidOutput("no json here".to_string())
    );
}
