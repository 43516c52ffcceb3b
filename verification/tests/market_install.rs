use operit::commands::market::{
    MarketArtifact, MarketEntryAsset, MarketEntrySummary, MarketEntryVersion, MarketUser,
};
use operit::commands::market_install::{
    market_asset_temp_name, market_import_outcome, plan_market_install, select_artifact_asset,
    MarketInstallPlan,
};

fn version(id: &str) -> MarketEntryVersion {
    MarketEntryVersion {
        id: id.to_string(),
        version: "1.0.0".to_string(),
        format_ver: "1".to_string(),
        min_app_ver: "1.0.0".to_string(),
        max_app_ver: None,
        publisher: None,
    }
}

fn asset(id: &str, version_id: &str, name: Option<&str>) -> MarketEntryAsset {
    MarketEntryAsset {
        id: id.to_string(),
        version_id: version_id.to_string(),
        kind: "github_release_asset".to_string(),
        url: format!("https://example.com/{id}"),
        sha256: "0".repeat(64),
        asset_name: name.map(|n| n.to_string()),
    }
}

fn entry(entry_type: &str) -> MarketEntrySummary {
    MarketEntrySummary {
        id: "entry-1".to_string(),
        entry_type: entry_type.to_string(),
        title: "Weather Helper!".to_string(),
        description: "Shows the forecast".to_string(),
        detail: String::new(),
        author: Some(MarketUser { login: "alice".to_string(), avatar: String::new() }),
        publisher: None,
        category_id: None,
        state_code: "published".to_string(),
        featured: false,
        downloads: 0,
        download_count: 0,
        allow_public_updates: false,
        source_url: Some("https://github.com/alice/weather".to_string()),
        artifact: Some(MarketArtifact { project_id: "p-1".to_string(), runtime_package_id: None }),
        versions: vec![version("v-1"), version("v-2")],
        latest_version: Some(version("v-2")),
        assets: vec![
            asset(" ", "v-2", Some("blank.toolpkg")),
            asset("a-1", "v-1", Some("old.toolpkg")),
            asset("a-2", "v-2", Some("new.toolpkg")),
        ],
        reactions: vec![],
    }
}

#[test]
fn artifact_asset_follows_requested_version() {
    let e = entry("package");
    assert_eq!(select_artifact_asset(&e, Some(" v-1 ")).unwrap().id, "a-1");
    assert_eq!(select_artifact_asset(&e, None).unwrap().id, "a-2");
    assert_eq!(select_artifact_asset(&e, Some("  ")).unwrap().id, "a-2");
    assert_eq!(
        select_artifact_asset(&e, Some("v-9")).unwrap_err(),
        "entry has no downloadable asset for version: v-9"
    );
}

#[test]
fn artifact_asset_without_latest_version_takes_first_downloadable() {
    let mut e = entry("script");
    e.latest_version = None;
    assert_eq!(select_artifact_asset(&e, None).unwrap().id, "a-1");
    e.assets = vec![asset("", "v-1", None)];
    assert_eq!(select_artifact_asset(&e, None).unwrap_err(), "entry has no downloadable asset");
    e.artifact = None;
    assert_eq!(select_artifact_asset(&e, None).unwrap_err(), "entry is not an artifact");
}

#[test]
fn install_plan_follows_entry_type() {
    match plan_market_install(&entry("skill"), "1.5.0", None) {
        Ok(MarketInstallPlan::Skill { source_url }) => {
            assert_eq!(source_url, "https://github.com/alice/weather")
        }
        other => panic!("unexpected plan: {:?}", other),
    }
    match plan_market_install(&entry("mcp"), "1.5.0", None) {
        Ok(MarketInstallPlan::Mcp { plugin_id, source_url, name, description, author, version }) => {
            assert_eq!(plugin_id, "Weather_Helper");
            assert_eq!(source_url, "https://github.com/alice/weather");
            assert_eq!(name, "Weather Helper!");
            assert_eq!(description, "Shows the forecast");
            assert_eq!(author, "alice");
            assert_eq!(version, "1.0.0");
        }
        other => panic!("unexpected plan: {:?}", other),
    }
    match plan_market_install(&entry("script"), "1.5.0", Some("v-1")) {
        Ok(MarketInstallPlan::Artifact { asset }) => assert_eq!(asset.id, "a-1"),
        other => panic!("unexpected plan: {:?}", other),
    }
}

#[test]
fn install_plan_refusals() {
    assert_eq!(
        plan_market_install(&entry("theme"), "1.5.0", None).unwrap_err(),
        "unknown market type: theme"
    );
    let mut e = entry("skill");
    e.source_url = Some("   ".to_string());
    assert_eq!(plan_market_install(&e, "1.5.0", None).unwrap_err(), "skill entry has no source url");
    let mut e = entry("mcp");
    e.source_url = None;
    assert_eq!(plan_market_install(&e, "1.5.0", None).unwrap_err(), "mcp entry has no source url");
    let mut e = entry("package");
    e.versions[0].min_app_ver = "2.0.0".to_string();
    assert!(plan_market_install(&e, "1.5.0", Some("v-1")).is_err());
    assert!(plan_market_install(&entry("package"), "1.5", None).is_err());
}

#[test]
fn import_outcome_reads_success_prefix() {
    assert_eq!(
        market_import_outcome("Successfully imported weather".to_string()).unwrap(),
        "Successfully imported weather"
    );
    assert_eq!(
        market_import_outcome("import failed: bad manifest".to_string()).unwrap_err(),
        "import failed: bad manifest"
    );
}

/// Preserves the market asset extension for the runtime package importer.
#[test]
fn market_asset_temp_path_preserves_asset_name() {
    let asset = MarketEntryAsset {
        id: "asset-1".to_string(),
        version_id: "version-1".to_string(),
        kind: "github_release_asset".to_string(),
        url: "https://github.com/example/release/download/plugin.toolpkg".to_string(),
        sha256: "0".repeat(64),
        asset_name: Some("plugin.toolpkg".to_string()),
    };
    let name = market_asset_temp_name(&asset, 1700000000123).expect("asset path should be created");
    assert!(name.ends_with("plugin.toolpkg"));
    assert_eq!(name, "operit_market_1700000000123_plugin.toolpkg");
}

#[test]
fn market_asset_temp_name_refuses_paths_and_missing_names() {
    assert_eq!(
        market_asset_temp_name(&asset("a", "v", Some("dir/x.toolpkg")), 1).unwrap_err(),
        "market asset name must not contain a path"
    );
    assert_eq!(
        market_asset_temp_name(&asset("a", "v", Some("dir\\x.toolpkg")), 1).unwrap_err(),
        "market asset name must not contain a path"
    );
    assert_eq!(
        market_asset_temp_name(&asset("a", "v", Some("  ")), 1).unwrap_err(),
        "market asset name is missing"
    );
    assert_eq!(
        market_asset_temp_name(&asset("a", "v", None), 1).unwrap_err(),
        "market asset name is missing"
    );
}
