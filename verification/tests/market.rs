use operit::commands::market::{
    check_market_asset_digest, ensure_entry_app_version_supported, market_entry_matches_query,
    market_total_pages, normalize_sort, parse_market_app_version, parse_market_command,
    print_market_usage, sanitize_id, to_lower_hex, verify_market_asset_sha256, MarketEntrySummary,
    MarketEntryVersion, MarketRequest, MarketUser,
};
use operit::commands::market::{
    parse_market_comment_args, parse_market_publish_args, MarketCommentRequest, MarketPublishKind,
};
use operit::output::CoreCommandOutput;
use sha2::{Digest, Sha256};

fn args(items: &[&str]) -> Vec<String> {
    items.iter().map(|s| s.to_string()).collect()
}

fn run_market_cli(items: &[&str]) -> Result<MarketRequest, String> {
    parse_market_command(&args(items))
}

#[test]
fn verifies_market_asset_sha256() {
    let bytes = b"operit-market-asset";
    let sha256 = format!("{:x}", Sha256::digest(bytes));
    assert!(verify_market_asset_sha256(bytes, &sha256).is_ok());
    assert!(verify_market_asset_sha256(bytes, "0".repeat(64).as_str()).is_err());
}

#[test]
fn empty_prints_usage() {
    assert!(matches!(run_market_cli(&[]), Ok(MarketRequest::Usage)));
}

#[test]
fn show_missing_id_prints_usage() {
    assert_eq!(
        run_market_cli(&["show"]).unwrap_err(),
        "usage: operit2 market show <entryId>"
    );
}

#[test]
fn comments_missing_id_prints_usage() {
    assert_eq!(
        run_market_cli(&["comments"]).unwrap_err(),
        "usage: operit2 market comments <entryId> [page]"
    );
}

#[test]
fn search_missing_query_prints_usage() {
    assert_eq!(
        run_market_cli(&["search"]).unwrap_err(),
        "usage: operit2 market search <query> [sort] [type|-] [category|-]"
    );
}

#[test]
fn comment_missing_body_prints_usage() {
    match run_market_cli(&["comment", "entry_1"]) {
        Ok(MarketRequest::Comment { args }) => assert_eq!(args, vec!["entry_1".to_string()]),
        other => panic!("unexpected request: {:?}", other),
    }
}

#[test]
fn download_missing_id_prints_usage() {
    assert_eq!(
        run_market_cli(&["download"]).unwrap_err(),
        "usage: operit2 market download <assetId>"
    );
}

#[test]
fn install_missing_id_prints_usage() {
    assert_eq!(
        run_market_cli(&["install"]).unwrap_err(),
        "usage: operit2 market install <entryId> <clientAppVersion> [versionId]"
    );
}

#[test]
fn notifications_rejects_bad_limit_without_network() {
    assert_eq!(
        run_market_cli(&["notifications", "bad-limit"]).unwrap_err(),
        "invalid digit found in string"
    );
}

#[test]
fn publish_missing_subcommand_prints_usage() {
    match run_market_cli(&["publish"]) {
        Ok(MarketRequest::Publish { args }) => assert!(args.is_empty()),
        other => panic!("unexpected request: {:?}", other),
    }
}

#[test]
fn publish_artifact_missing_args_prints_usage() {
    match run_market_cli(&["publish", "artifact", "script", "title"]) {
        Ok(MarketRequest::Publish { args }) => {
            assert_eq!(args, vec!["artifact".to_string(), "script".to_string(), "title".to_string()])
        }
        other => panic!("unexpected request: {:?}", other),
    }
}

#[test]
fn publish_repo_missing_args_prints_usage() {
    match run_market_cli(&["publish", "repo", "mcp", "title"]) {
        Ok(MarketRequest::Publish { args }) => assert_eq!(args.len(), 3),
        other => panic!("unexpected request: {:?}", other),
    }
}

#[test]
fn publish_version_missing_args_prints_usage() {
    match run_market_cli(&["publish", "version"]) {
        Ok(MarketRequest::Publish { args }) => assert_eq!(args, vec!["version".to_string()]),
        other => panic!("unexpected request: {:?}", other),
    }
}

#[test]
fn invalid_featured_sort_is_rejected_without_network() {
    assert_eq!(
        run_market_cli(&["rank", "featured"]).unwrap_err(),
        "invalid market sort: featured. expected updated|likes|downloads"
    );
}

#[test]
fn rank_defaults_to_updated_first_page() {
    match run_market_cli(&["rank"]) {
        Ok(MarketRequest::Rank { sort, page }) => {
            assert_eq!(sort, "updated");
            assert_eq!(page, 1);
        }
        other => panic!("unexpected request: {:?}", other),
    }
}

#[test]
fn list_reads_filters_and_page() {
    match run_market_cli(&["list", "likes", "script", "tools", "3"]) {
        Ok(MarketRequest::List { sort, type_filter, category, page }) => {
            assert_eq!(sort, "likes");
            assert_eq!(type_filter.as_deref(), Some("script"));
            assert_eq!(category.as_deref(), Some("tools"));
            assert_eq!(page, 3);
        }
        other => panic!("unexpected request: {:?}", other),
    }
}

#[test]
fn notifications_default_limit_and_offset() {
    match run_market_cli(&["notifications"]) {
        Ok(MarketRequest::Notifications { limit, offset }) => {
            assert_eq!(limit, 50);
            assert_eq!(offset, 0);
        }
        other => panic!("unexpected request: {:?}", other),
    }
}

#[test]
fn unknown_subcommand_prints_usage() {
    assert!(matches!(run_market_cli(&["frobnicate"]), Ok(MarketRequest::Usage)));
}

#[test]
fn usage_lists_every_subcommand() {
    let mut out = CoreCommandOutput::new();
    print_market_usage(&mut out);
    assert!(out.stdout.starts_with(
        "usage: operit2 market <rank|list|search|show|comments|comment|like|notifications|my|publish|install|download>\n"
    ));
    assert!(out.stdout.ends_with("download: operit2 market download <assetId>\n"));
    assert_eq!(out.stdout.lines().count(), 14);
    assert!(out.stderr.is_empty());
}

#[test]
fn normalize_sort_accepts_known_orders() {
    assert_eq!(normalize_sort("likes").unwrap(), "likes");
    assert_eq!(normalize_sort("downloads").unwrap(), "downloads");
    assert!(normalize_sort("Likes").is_err());
}

#[test]
fn lower_hex_pads_each_byte() {
    assert_eq!(to_lower_hex(&[0x00, 0x0f, 0xab, 0xff]), "000fabff");
}

#[test]
fn digest_check_ignores_expected_case_and_whitespace() {
    let digest = [0xABu8; 32];
    let lower = "ab".repeat(32);
    let upper = format!("  {}  ", "AB".repeat(32));
    assert!(check_market_asset_digest(&digest, &lower).is_ok());
    assert!(check_market_asset_digest(&digest, &upper).is_ok());
    assert_eq!(
        check_market_asset_digest(&digest, "ab01").unwrap_err(),
        "market asset SHA-256 is invalid"
    );
    assert_eq!(
        check_market_asset_digest(&digest, &"ac".repeat(32)).unwrap_err(),
        "market asset SHA-256 mismatch"
    );
}

#[test]
fn sha256_digest_differs_from_input_bytes() {
    let bytes = b"abc";
    let own_hex = to_lower_hex(bytes);
    assert!(verify_market_asset_sha256(bytes, &own_hex).is_err());
    assert!(verify_market_asset_sha256(
        bytes,
        "ba7816bf8f01cfea414140de5dae2223b00361a396177a9cb410ff61f20015ad"
    )
    .is_ok());
}

#[test]
fn total_pages_round_up() {
    assert_eq!(market_total_pages(0, 20).unwrap(), 1);
    assert_eq!(market_total_pages(41, 20).unwrap(), 3);
    assert_eq!(market_total_pages(40, 20).unwrap(), 2);
    assert_eq!(
        market_total_pages(10, 0).unwrap_err(),
        "invalid market page_size: 0"
    );
}

#[test]
fn sanitize_id_keeps_ascii_alphanumerics() {
    assert_eq!(sanitize_id("My Cool Tool!"), "My_Cool_Tool");
    assert_eq!(sanitize_id("__a-b__"), "a_b");
}

fn sample_entry() -> MarketEntrySummary {
    MarketEntrySummary {
        id: "entry-1".to_string(),
        entry_type: "script".to_string(),
        title: "Weather Helper".to_string(),
        description: "Shows the forecast".to_string(),
        detail: String::new(),
        author: Some(MarketUser { login: "Alice".to_string(), avatar: String::new() }),
        publisher: None,
        category_id: Some("utilities".to_string()),
        state_code: "published".to_string(),
        featured: false,
        downloads: 3,
        download_count: 7,
        allow_public_updates: false,
        source_url: None,
        artifact: None,
        versions: vec![MarketEntryVersion {
            id: "v-1".to_string(),
            version: "1.0.0".to_string(),
            format_ver: "1".to_string(),
            min_app_ver: "1.2.0".to_string(),
            max_app_ver: Some("2.0.0".to_string()),
            publisher: None,
        }],
        latest_version: None,
        assets: vec![],
        reactions: vec![],
    }
}

#[test]
fn query_matches_title_case_insensitively() {
    let entry = sample_entry();
    assert!(market_entry_matches_query(&entry, "weather"));
    assert!(market_entry_matches_query(&entry, "alice"));
    assert!(market_entry_matches_query(&entry, "utilities"));
    assert!(!market_entry_matches_query(&entry, "Weather"));
    assert!(market_entry_matches_query(&entry, ""));
    assert!(!market_entry_matches_query(&entry, "calendar"));
}

#[test]
fn app_version_range_is_enforced() {
    let entry = sample_entry();
    assert!(ensure_entry_app_version_supported(&entry, "1.5.0", Some("v-1")).is_ok());
    assert!(ensure_entry_app_version_supported(&entry, "1.2.0", Some("v-1")).is_ok());
    assert!(ensure_entry_app_version_supported(&entry, "2.0.0", Some("v-1")).is_ok());
    assert!(ensure_entry_app_version_supported(&entry, "1.1.9", Some("v-1")).is_err());
    assert!(ensure_entry_app_version_supported(&entry, "2.0.0+1", Some("v-1")).is_err());
    assert_eq!(
        ensure_entry_app_version_supported(&entry, "1.5.0", Some("v-2")).unwrap_err(),
        "market entry has no version metadata for requested version: v-2"
    );
    assert_eq!(
        ensure_entry_app_version_supported(&entry, "1.5.0", None).unwrap_err(),
        "market entry has no latest version metadata"
    );
}

#[test]
fn app_version_parses_components() {
    let v = parse_market_app_version(" 1.2.3+4 ", "clientAppVersion").unwrap();
    assert_eq!((v.major, v.minor, v.patch, v.build), (1, 2, 3, 4));
    assert_eq!(
        parse_market_app_version("1.x.0", "clientAppVersion").unwrap_err(),
        "clientAppVersion minor component must be numeric: x"
    );
    assert_eq!(
        parse_market_app_version("1.2", "clientAppVersion").unwrap_err(),
        "clientAppVersion must use x.y.z or x.y.z+n format"
    );
    assert_eq!(
        parse_market_app_version("1.2.3.4", "clientAppVersion").unwrap_err(),
        "clientAppVersion must use x.y.z or x.y.z+n format: 1.2.3.4"
    );
}

#[test]
fn comment_arguments_select_the_action() {
    match parse_market_comment_args(&args(&["entry_1", "@body.md"])) {
        Ok(MarketCommentRequest::Create { entry_id, body_arg }) => {
            assert_eq!((entry_id.as_str(), body_arg.as_str()), ("entry_1", "@body.md"));
        }
        other => panic!("unexpected request: {:?}", other),
    }
    assert_eq!(
        parse_market_comment_args(&args(&["entry_1"])).unwrap_err(),
        "usage: operit2 market comment <entryId> <body-or-@file>"
    );
    assert_eq!(
        parse_market_comment_args(&args(&["edit", "c1"])).unwrap_err(),
        "usage: operit2 market comment edit <commentId> <body-or-@file>"
    );
    assert!(matches!(
        parse_market_comment_args(&args(&["delete", "c1"])),
        Ok(MarketCommentRequest::Delete { .. })
    ));
    assert!(parse_market_comment_args(&args(&[])).unwrap_err().starts_with("usage: operit2 market comment <entryId>"));
}

#[test]
fn publish_arguments_need_their_count() {
    assert_eq!(
        parse_market_publish_args(&args(&[])).unwrap_err(),
        "usage: operit2 market publish <artifact|repo|version|update-entry> ..."
    );
    assert!(parse_market_publish_args(&args(&["artifact", "script", "title"]))
        .unwrap_err()
        .starts_with("usage: operit2 market publish artifact <type>"));
    assert_eq!(
        parse_market_publish_args(&args(&["version"])).unwrap_err(),
        "usage: operit2 market publish version <artifact|repo> ..."
    );
    let six: Vec<&str> = vec!["update-entry", "e1", "-", "-", "-", "-", "-"];
    let (kind, rest) = parse_market_publish_args(&args(&six)).unwrap();
    assert_eq!(kind, MarketPublishKind::UpdateEntry);
    assert_eq!(rest.len(), 6);
    let mut nine = vec!["version", "repo"];
    nine.extend(["a"; 9]);
    let (kind, rest) = parse_market_publish_args(&args(&nine)).unwrap();
    assert_eq!(kind, MarketPublishKind::VersionRepo);
    assert_eq!(rest.len(), 9);
}

#[test]
fn total_pages_reach_the_largest_total() {
    assert_eq!(market_total_pages(i32::MAX - 19, 20).unwrap(), i32::MAX / 20);
    assert_eq!(market_total_pages(-5, 20).unwrap(), 1);
}
