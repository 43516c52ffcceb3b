use operit::commands::market::{comment_done_message, parse_market_comment_args};
use operit::commands::market_publish::{
    artifact_publication, artifact_version_publication, entry_update, publish_report_lines,
    repo_publication, repo_version_publication, update_report_lines,
};

fn args(items: &[&str]) -> Vec<String> {
    items.iter().map(|s| s.to_string()).collect()
}

#[test]
fn artifact_publication_reads_arguments_in_order() {
    let a = args(&[
        "package", "Weather", "@desc.md", "@detail.md", "tools", "yes", "1.0.0", "1", "1.2.0", "-", "-",
        "proj", "pkg", "github_release_asset", "https://x/y.toolpkg", "alice", "weather", "v1", "y.toolpkg",
        "abc",
    ]);
    let p = artifact_publication(&a, "Desc".to_string(), "Detail".to_string(), None).unwrap();
    assert_eq!(p.entry_type, "package");
    assert_eq!(p.title, "Weather");
    assert_eq!(p.description, "Desc");
    assert!(p.allow_public_updates);
    assert_eq!(p.max_app_ver, None);
    assert_eq!(p.project_id, "proj");
    assert_eq!(p.sha256, "abc");
    let mut bad = a.clone();
    bad[5] = " maybe ".to_string();
    assert_eq!(
        artifact_publication(&bad, String::new(), String::new(), None).unwrap_err(),
        "invalid bool: maybe"
    );
}

#[test]
fn repo_publication_keeps_changelog_argument_for_later() {
    let mut a = args(&[
        "skill", "Notes", "d", "t", "notes", "off", "https://github.com/a/b", "branch", "main", "@cfg.json",
        "1.0.0", "1", "1.0.0", " 2.0.0 ",
    ]);
    let p = repo_publication(&a, "D".to_string(), "T".to_string(), "{}".to_string()).unwrap();
    assert!(!p.allow_public_updates);
    assert_eq!(p.max_app_ver.as_deref(), Some("2.0.0"));
    assert_eq!(p.changelog_arg, None);
    a.push("@changes.md".to_string());
    let p = repo_publication(&a, "D".to_string(), "T".to_string(), "{}".to_string()).unwrap();
    assert_eq!(p.changelog_arg.as_deref(), Some("@changes.md"));
}

#[test]
fn version_publications_read_entry_changes() {
    let a = args(&[
        "entry-1", "1.1.0", "1", "1.0.0", "", "-", "proj", "pkg", "kind", "url", "o", "r", "tag", "name", "sha",
        "New title", "-", "-", "cat", "true",
    ]);
    let p = artifact_version_publication(&a, None, None, None).unwrap();
    assert_eq!(p.entry.title.as_deref(), Some("New title"));
    assert_eq!(p.entry.category_id.as_deref(), Some("cat"));
    assert_eq!(p.entry.allow_public_updates, Some(true));
    let short = args(&["entry-1", "1.1.0", "1", "1.0.0", "-", "-", "proj", "pkg", "kind", "url", "o", "r", "tag", "name", "sha"]);
    let p = artifact_version_publication(&short, None, None, None).unwrap();
    assert_eq!(p.entry.title, None);
    assert_eq!(p.entry.allow_public_updates, None);
    let repo = args(&["entry-2", "2.0.0", "1", "1.0.0", "-", "-", "tag", "v2", "@cfg", "-", "-", "-", "-", "nope"]);
    assert_eq!(
        repo_version_publication(&repo, "{}".to_string(), None, None, None).unwrap_err(),
        "invalid bool: nope"
    );
}

#[test]
fn entry_update_reads_optional_fields() {
    let u = entry_update(&args(&["entry-1", "-", "-", "-", "tools", "0"]), None, Some("Detail".to_string())).unwrap();
    assert_eq!(u.entry_id, "entry-1");
    assert_eq!(u.changes.title, None);
    assert_eq!(u.changes.detail.as_deref(), Some("Detail"));
    assert_eq!(u.changes.category_id.as_deref(), Some("tools"));
    assert_eq!(u.changes.allow_public_updates, Some(false));
}

#[test]
fn publication_reports() {
    assert_eq!(publish_report_lines(true, "e1", "  "), vec!["published ok=true entry=e1".to_string()]);
    assert_eq!(
        publish_report_lines(false, "e1", "v9"),
        vec!["published ok=false entry=e1".to_string(), "version_id=v9".to_string()]
    );
    assert_eq!(
        update_report_lines(true, "e1", "pending"),
        vec!["updated ok=true entry=e1".to_string(), "state=pending".to_string()]
    );
}

#[test]
fn comment_requests_are_confirmed() {
    let create = parse_market_comment_args(&args(&["entry-1", "Nice"])).unwrap();
    assert_eq!(comment_done_message(&create, "c-9"), "created comment=c-9");
    let edit = parse_market_comment_args(&args(&["edit", "c-1", "@body.md"])).unwrap();
    assert_eq!(comment_done_message(&edit, ""), "edited comment=c-1");
    let delete = parse_market_comment_args(&args(&["delete", "c-2"])).unwrap();
    assert_eq!(comment_done_message(&delete, ""), "deleted comment=c-2");
}
