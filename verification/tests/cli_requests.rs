use operit::commands::package::{
    input_menu_timeout_message, poll_input_menu, print_input_menu_definitions, InputMenuDefinition,
    InputMenuPoll,
};
use operit::commands::storage::{
    plan_entry_copy, plan_root_migration, print_storage_migrated, EntryCopy, RootMigration,
    StorageMigrationPlan,
};
use operit::commands::link_cli::{
    discovered_device_for_link_record, link_request_id, link_session_refresh_target, load_link_session_record,
    parse_link_refresh_args, parse_remote_url_token, parse_remote_url_token_save, print_link_usage,
    remove_link_server_session, verify_link_session_info, DiscoveredLinkDevice,
};
use operit::commands::link_request::{parse_link_command, parse_link_space_args, LinkRequest, LinkSpaceRequest};
use operit::commands::local_models::{
    local_model_kind_name, parse_local_models_command, print_installed_engine_row, print_installed_model_row,
    InstalledEngineRow, InstalledModelRow, LocalModelsRequest,
};
use operit::link_access::{PairedRemoteSessionRecord, RemoteDeviceInfo};
use operit::local_model_provider::LocalModelKind;
use operit::commands::model_cmd::{parse_model_command, requiredArg, ModelRequest};
use operit::commands::package::{
    format_bundled_external_candidate, format_package_list_row, print_package_details, PackageDetails,
    PackageParameterDetails, PackageToolDetails, package_deletion_message, parse_package_command,
    BundledExternalPackageCandidate, PackageRequest,
};
use operit::commands::storage::{parse_migrate_args, parse_target_root, print_storage_usage};
use operit::link_access::LinkTransportPreference;
use operit::model::FunctionType;
use operit::output::CoreCommandOutput;

fn args(items: &[&str]) -> Vec<String> {
    items.iter().map(|s| s.to_string()).collect()
}

#[test]
fn package_exec_splits_package_from_tool() {
    match parse_package_command(&args(&["exec", "weather:today", "{}"])) {
        Ok(PackageRequest::Exec { tool_name, params_json, package_name }) => {
            assert_eq!(tool_name, "weather:today");
            assert_eq!(params_json, "{}");
            assert_eq!(package_name, "weather");
        }
        other => panic!("unexpected request: {:?}", other),
    }
    assert_eq!(
        parse_package_command(&args(&["exec", "weather", "{}"])).unwrap_err(),
        "package exec tool name must use package:tool format"
    );
    assert_eq!(
        parse_package_command(&args(&["exec", "weather:today"])).unwrap_err(),
        "usage: operit2 package exec <package:tool> <params-json>"
    );
}

#[test]
fn package_commands_need_their_argument() {
    assert_eq!(
        parse_package_command(&args(&["show"])).unwrap_err(),
        "usage: operit2 package show <name>"
    );
    assert!(matches!(parse_package_command(&args(&[])), Ok(PackageRequest::Usage)));
    assert!(matches!(parse_package_command(&args(&["list"])), Ok(PackageRequest::List)));
}

#[test]
fn package_listing_and_deletion_lines() {
    let candidate = BundledExternalPackageCandidate {
        packageName: "weather".to_string(),
        packageKind: "script".to_string(),
        description: "Forecasts".to_string(),
        toolCount: 3,
        subpackageCount: 0,
    };
    assert_eq!(
        format_bundled_external_candidate(&candidate),
        "weather\ttype=script\tloaded=false\tForecasts\ttools=3\tsubpackages=0"
    );
    assert_eq!(package_deletion_message("weather", true).unwrap(), "deleted=weather");
    assert_eq!(
        package_deletion_message("weather", false).unwrap_err(),
        "Failed to delete package: weather"
    );
}

#[test]
fn model_commands_read_their_arguments() {
    match parse_model_command(&args(&["use", "openai", "gpt"])) {
        Ok(ModelRequest::Use { provider_id, model_id }) => {
            assert_eq!(provider_id, "openai");
            assert_eq!(model_id, "gpt");
        }
        other => panic!("unexpected request: {:?}", other),
    }
    assert_eq!(
        parse_model_command(&args(&["use", "openai"])).unwrap_err(),
        "usage: operit2 model use <provider-id> <model-id>"
    );
    match parse_model_command(&args(&["function-show", "SUMMARY"])) {
        Ok(ModelRequest::FunctionShow { function_type }) => assert_eq!(function_type, FunctionType::SUMMARY),
        other => panic!("unexpected request: {:?}", other),
    }
    assert_eq!(
        parse_model_command(&args(&["function-show", "NOPE"])).unwrap_err(),
        "invalid FunctionType: NOPE"
    );
    assert!(matches!(parse_model_command(&args(&[])), Ok(ModelRequest::Usage)));
}

#[test]
fn required_arguments_report_usage() {
    let a = args(&["x", "y"]);
    assert_eq!(requiredArg(&a, 1, "usage").unwrap(), "y");
    assert_eq!(requiredArg(&a, 2, "usage").unwrap_err(), "usage");
}

#[test]
fn storage_targets_must_be_absolute() {
    let good = " /data/runtime ".to_string();
    assert_eq!(parse_target_root(Some(&good), "--runtime").unwrap(), "/data/runtime");
    let relative = "data".to_string();
    assert_eq!(
        parse_target_root(Some(&relative), "--runtime").unwrap_err(),
        "--runtime path must be absolute: data"
    );
    assert_eq!(parse_target_root(None, "--workspace").unwrap_err(), "missing path after --workspace");
    let plan = parse_migrate_args(&args(&["--workspace", "/w", "--runtime", "/r"])).unwrap();
    assert_eq!(plan.runtime_root, "/r");
    assert_eq!(plan.workspace_root, "/w");
    assert_eq!(
        parse_migrate_args(&args(&["--runtime", "/r"])).unwrap_err(),
        "usage: operit2 storage migrate --runtime <path> --workspace <path>"
    );
    assert_eq!(
        parse_migrate_args(&args(&["--force"])).unwrap_err(),
        "unknown storage migrate argument: --force"
    );
    let mut out = CoreCommandOutput::new();
    print_storage_usage(&mut out);
    assert!(!out.stdout.is_empty());
}

#[test]
fn link_refresh_reads_name_and_timeout() {
    assert_eq!(parse_link_refresh_args(&args(&[])).unwrap(), (None, 2000));
    assert_eq!(
        parse_link_refresh_args(&args(&["home", "--timeout-ms", "500"])).unwrap(),
        (Some("home".to_string()), 500)
    );
    assert_eq!(
        parse_link_refresh_args(&args(&["a", "b"])).unwrap_err(),
        "usage: operit2 cli link refresh [session] [--timeout-ms <ms>]"
    );
}

#[test]
fn link_remote_arguments_need_a_token() {
    let (url, token, save, transport) = parse_remote_url_token_save(
        &args(&["http://x", "--token", "t", "--save", "home", "--transport", "ws"]),
        "usage",
    )
    .unwrap();
    assert_eq!((url.as_str(), token.as_str()), ("http://x", "t"));
    assert_eq!(save.as_deref(), Some("home"));
    assert_eq!(transport, Some(LinkTransportPreference::WebSocket));
    assert_eq!(parse_remote_url_token(&args(&["http://x"]), "usage").unwrap_err(), "usage");
    assert_eq!(
        parse_remote_url_token_save(&args(&["http://x", "--transport", "smtp"]), "usage").unwrap_err(),
        "Link transport must be http or ws"
    );
}

#[test]
fn link_serve_and_discover_take_defaults() {
    match parse_link_command(&args(&["serve"])) {
        Ok(LinkRequest::Serve { bind_address, token }) => {
            assert_eq!(bind_address, "0.0.0.0:37192");
            assert_eq!(token, "operit-link-dev");
        }
        other => panic!("unexpected request: {:?}", other),
    }
    match parse_link_command(&args(&["serve", "--token", "t", "--bind", "127.0.0.1:1"])) {
        Ok(LinkRequest::Serve { bind_address, token }) => {
            assert_eq!(bind_address, "127.0.0.1:1");
            assert_eq!(token, "t");
        }
        other => panic!("unexpected request: {:?}", other),
    }
    assert_eq!(
        parse_link_command(&args(&["serve", "--bind"])).unwrap_err(),
        "usage: operit2 cli link serve [--bind <addr:port>] [--token <token>]"
    );
    assert!(matches!(parse_link_command(&args(&["discover"])), Ok(LinkRequest::Discover { timeout_ms: 2000 })));
    assert!(matches!(
        parse_link_command(&args(&["discover", "--timeout-ms", "50"])),
        Ok(LinkRequest::Discover { timeout_ms: 50 })
    ));
    assert_eq!(
        parse_link_command(&args(&["discover", "--verbose"])).unwrap_err(),
        "usage: operit2 cli link discover [--timeout-ms <ms>]"
    );
}

#[test]
fn link_connect_needs_a_saved_name() {
    assert_eq!(
        parse_link_command(&args(&["connect", "http://x", "--token", "t"])).unwrap_err(),
        "usage: operit2 cli link connect <url> --token <token> --save <name> [--transport <http|ws>]"
    );
    match parse_link_command(&args(&["connect", "http://x", "--token", "t", "--save", "home"])) {
        Ok(LinkRequest::Connect { url, token, name, transport }) => {
            assert_eq!((url.as_str(), token.as_str(), name.as_str()), ("http://x", "t", "home"));
            assert!(transport.is_none());
        }
        other => panic!("unexpected request: {:?}", other),
    }
}

#[test]
fn link_member_requests_read_optional_json() {
    match parse_link_command(&args(&["call", "home", "services.chat", "list", "{\"a\":1}"])) {
        Ok(LinkRequest::Call { session, target_path, method_name, args_json }) => {
            assert_eq!(session, "home");
            assert_eq!(target_path, "services.chat");
            assert_eq!(method_name, "list");
            assert_eq!(args_json.as_deref(), Some("{\"a\":1}"));
        }
        other => panic!("unexpected request: {:?}", other),
    }
    assert_eq!(
        parse_link_command(&args(&["watch", "home"])).unwrap_err(),
        "usage: operit2 cli link watch <session> <target-path> <property-name> [args-json]"
    );
    assert!(matches!(parse_link_command(&args(&["bogus"])), Ok(LinkRequest::Usage)));
    assert!(matches!(parse_link_command(&args(&[])), Ok(LinkRequest::Usage)));
    assert_eq!(
        parse_link_command(&args(&["transport", "home", "smtp"])).unwrap_err(),
        "Link transport must be http or ws"
    );
    match parse_link_command(&args(&["run", "home", "chat", "list"])) {
        Ok(LinkRequest::Run { session, args }) => {
            assert_eq!(session, "home");
            assert_eq!(args, vec!["chat".to_string(), "list".to_string()]);
        }
        other => panic!("unexpected request: {:?}", other),
    }
}

#[test]
fn link_space_actions() {
    assert!(matches!(parse_link_space_args(&args(&[])), Ok(LinkSpaceRequest::Show)));
    assert!(matches!(parse_link_space_args(&args(&["leave"])), Ok(LinkSpaceRequest::Leave)));
    match parse_link_space_args(&args(&["rename", "Home"])) {
        Ok(LinkSpaceRequest::Rename { name }) => assert_eq!(name, "Home"),
        other => panic!("unexpected request: {:?}", other),
    }
    assert_eq!(
        parse_link_space_args(&args(&["rename"])).unwrap_err(),
        "usage: operit2 cli link space <show|rename <name>|join <paired-session>|leave>"
    );
}

fn record(device: &str, url: &str) -> PairedRemoteSessionRecord {
    PairedRemoteSessionRecord {
        baseUrl: url.to_string(),
        sessionId: "s".to_string(),
        deviceId: "local".to_string(),
        coreDeviceId: device.to_string(),
        remoteDeviceInfo: RemoteDeviceInfo { platform: "p".to_string(), model: "m".to_string() },
        pairingServiceVersion: 1,
        sessionSecret: "k".to_string(),
        transport: operit::link_access::LinkTransportPreference::Http,
    }
}

#[test]
fn link_sessions_are_found_refreshed_and_verified() {
    let sessions = vec![("home".to_string(), record("node-b", "http://old"))];
    assert_eq!(load_link_session_record(&sessions, "home").unwrap().coreDeviceId, "node-b");
    assert_eq!(load_link_session_record(&sessions, "work").unwrap_err(), "link session not found: work");
    let devices = vec![
        DiscoveredLinkDevice { device_id: "node-a".to_string(), base_url: "http://a".to_string() },
        DiscoveredLinkDevice { device_id: "node-b".to_string(), base_url: "http://new".to_string() },
    ];
    let rec = &sessions[0].1;
    assert_eq!(discovered_device_for_link_record(rec, &devices).unwrap().base_url, "http://new");
    assert_eq!(link_session_refresh_target(rec, &devices).as_deref(), Some("http://new"));
    assert_eq!(link_session_refresh_target(&record("node-b", "http://new"), &devices), None);
    assert_eq!(link_session_refresh_target(&record("node-z", "http://z"), &devices), None);
    assert!(verify_link_session_info(rec, 3, "node-b").is_ok());
    assert_eq!(
        verify_link_session_info(rec, 2, "node-b").unwrap_err(),
        "remote Link protocol version is 2, expected 3"
    );
    assert_eq!(verify_link_session_info(rec, 3, "node-c").unwrap_err(), "remote runtime identity changed");
    assert_eq!(link_request_id(1700000000123), "cli-1700000000123");
    let accepted = vec!["in-1".to_string()];
    assert!(remove_link_server_session(&accepted, "in-1").is_ok());
    assert_eq!(
        remove_link_server_session(&accepted, "in-2").unwrap_err(),
        "accepted link session not found: in-2"
    );
    let mut out = CoreCommandOutput::new();
    print_link_usage(&mut out);
    assert_eq!(out.stdout.lines().count(), 16);
}

#[test]
fn local_models_requests_need_exact_arity() {
    assert!(matches!(parse_local_models_command(&args(&["paths"])), LocalModelsRequest::Paths));
    assert!(matches!(parse_local_models_command(&args(&["paths", "x"])), LocalModelsRequest::Usage));
    match parse_local_models_command(&args(&["install", "whisper", "1.0"])) {
        LocalModelsRequest::Install { model_id, version } => {
            assert_eq!((model_id.as_str(), version.as_str()), ("whisper", "1.0"));
        }
        other => panic!("unexpected request: {:?}", other),
    }
    assert!(matches!(parse_local_models_command(&args(&["install", "whisper"])), LocalModelsRequest::Usage));
    assert!(matches!(
        parse_local_models_command(&args(&["engine-delete", "sherpa", "1"])),
        LocalModelsRequest::EngineDelete { .. }
    ));
}

#[test]
fn installed_rows_are_tab_separated() {
    assert_eq!(local_model_kind_name(&LocalModelKind::Chat), "Chat");
    let mut out = CoreCommandOutput::new();
    print_installed_model_row(
        &InstalledModelRow {
            id: "whisper".to_string(),
            version: "1.0".to_string(),
            kind: LocalModelKind::SpeechToText,
            declared_byte_size: 42,
            installed_at_ms: 7,
            verified_at_ms: None,
            storage_path: "runtime://m".to_string(),
        },
        &mut out,
    );
    print_installed_engine_row(
        &InstalledEngineRow {
            id: "sherpa".to_string(),
            version: "2".to_string(),
            target_segment: "linux-x86_64".to_string(),
            byte_size: 9,
            installed_at_ms: -1,
            verified_at_ms: Some(5),
            storage_path: "runtime://e".to_string(),
        },
        &mut out,
    );
    assert_eq!(
        out.stdout,
        "model=whisper@1.0\tkind=SpeechToText\tbytes=42\tinstalledAtMs=7\tverifiedAtMs=not-verified\tstoragePath=runtime://m\n\
engine=sherpa@2\ttarget=linux-x86_64\tbytes=9\tinstalledAtMs=-1\tverifiedAtMs=5\tstoragePath=runtime://e\n"
    );
}

#[test]
fn package_details_list_tools_and_parameters() {
    assert_eq!(format_package_list_row("weather", true, "Forecasts", 2), "weather\tenabled=true\tForecasts\ttools=2");
    let details = PackageDetails {
        name: "weather".to_string(),
        display_name: "Weather".to_string(),
        description: "Forecasts".to_string(),
        category: "tools".to_string(),
        enabled_by_default: false,
        is_built_in: true,
        tools: vec![PackageToolDetails {
            name: "today".to_string(),
            advice: "false".to_string(),
            description: "Today".to_string(),
            parameters: vec![PackageParameterDetails {
                name: "city".to_string(),
                parameter_type: "string".to_string(),
                required: true,
                description: "City name".to_string(),
            }],
        }],
    };
    let mut out = CoreCommandOutput::new();
    print_package_details(&details, &mut out);
    assert_eq!(
        out.stdout,
        "name=weather\ndisplayName=Weather\ndescription=Forecasts\ncategory=tools\nenabledByDefault=false\nisBuiltIn=true\ntools=1\n- today\tadvice=false\tToday\n  - city\tstring\trequired=true\tCity name\n"
    );
}

#[test]
fn root_migration_follows_what_is_at_the_source() {
    assert_eq!(
        plan_root_migration("runtime", "/a", "/a", true, true, false).unwrap(),
        (RootMigration::Unchanged, "runtime=unchanged\t/a".to_string())
    );
    assert_eq!(
        plan_root_migration("workspace", "/a", "/b", false, false, false).unwrap(),
        (RootMigration::Create, "workspace=created\t/b".to_string())
    );
    assert_eq!(
        plan_root_migration("workspace", "/a", "/b", false, true, true).unwrap_err(),
        "workspace source root must be a directory: /a"
    );
    assert_eq!(
        plan_root_migration("runtime", "/a", "/b", false, true, false).unwrap(),
        (RootMigration::Migrate, "runtime=migrated\t/a\t/b".to_string())
    );
}

#[test]
fn storage_entries_copy_by_kind() {
    assert_eq!(plan_entry_copy("/a/d", true, false).unwrap(), EntryCopy::Directory);
    assert_eq!(plan_entry_copy("/a/f", false, true).unwrap(), EntryCopy::File);
    assert_eq!(plan_entry_copy("/a/s", false, false).unwrap_err(), "unsupported storage entry type: /a/s");
}

#[test]
fn storage_roots_are_reported_after_migration() {
    let mut output = CoreCommandOutput::new();
    print_storage_migrated(
        &StorageMigrationPlan { runtime_root: "/r".to_string(), workspace_root: "/w".to_string() },
        &mut output,
    );
    assert_eq!(output.stdout, "runtimeRoot=/r\nworkspaceRoot=/w\nstorageConfig=updated\n");
}

fn toggle(id: &str, title: Option<&str>, slot: Option<&str>) -> InputMenuDefinition {
    InputMenuDefinition {
        id: id.to_string(),
        title: title.map(|t| t.to_string()),
        is_checked: true,
        is_enabled: false,
        slot: slot.map(|s| s.to_string()),
    }
}

#[test]
fn input_menu_waits_for_loading_placeholder() {
    let loading = vec![toggle("a", None, None), toggle("toolpkg_input_menu_loading", None, None)];
    assert_eq!(poll_input_menu(&loading, 100, 200), InputMenuPoll::Wait);
    assert_eq!(poll_input_menu(&loading, 200, 200), InputMenuPoll::TimedOut);
    assert_eq!(poll_input_menu(&vec![toggle("a", None, None)], 500, 200), InputMenuPoll::Ready);
    assert_eq!(
        input_menu_timeout_message(),
        "input-menu ToolPkg hooks did not finish loading within 10 seconds"
    );
}

#[test]
fn input_menu_rows_show_title_and_slot() {
    let mut output = CoreCommandOutput::new();
    print_input_menu_definitions(
        &vec![toggle("think", Some("Thinking"), Some("top")), toggle("plain", None, None)],
        &mut output,
    );
    assert_eq!(
        output.stdout,
        "think\ttitle=Thinking\tchecked=true\tenabled=false\tslot=top\nplain\ttitle=\tchecked=true\tenabled=false\tslot=\n"
    );
}
