use operit::commands::market::{MarketEntrySummary, MarketUser};
use operit::commands::market_pages::{
    market_comment_lines, market_entry_row, market_filtered_list_lines, market_list_lines,
    market_my_entry_lines, market_notification_lines, market_search_lines, MarketComment,
    MarketMyEntry, MarketNotification,
};

fn entry(id: &str, entry_type: &str, title: &str) -> MarketEntrySummary {
    MarketEntrySummary {
        id: id.to_string(),
        entry_type: entry_type.to_string(),
        title: title.to_string(),
        description: String::new(),
        detail: String::new(),
        author: Some(MarketUser { login: "Alice".to_string(), avatar: String::new() }),
        publisher: None,
        category_id: None,
        state_code: "published".to_string(),
        featured: false,
        downloads: 0,
        download_count: 0,
        allow_public_updates: false,
        source_url: None,
        artifact: None,
        versions: vec![],
        latest_version: None,
        assets: vec![],
        reactions: vec![],
    }
}

#[test]
fn entry_row_shows_type_id_state_and_title() {
    assert_eq!(market_entry_row(&entry("e1", "script", "Weather")), "script/e1 [published]  Weather");
}

#[test]
fn list_pages_start_with_their_header() {
    let entries = vec![entry("e1", "script", "Weather"), entry("e2", "skill", "Notes")];
    assert_eq!(
        market_list_lines(Some("2024-01-01"), "updated", 2, 40, &entries),
        vec![
            "generatedAt=2024-01-01  sort=updated  page=2  total=40".to_string(),
            "script/e1 [published]  Weather".to_string(),
            "skill/e2 [published]  Notes".to_string(),
        ]
    );
    assert_eq!(market_list_lines(None, "likes", 1, 0, &vec![]), vec!["generatedAt=  sort=likes  page=1  total=0".to_string()]);
    assert_eq!(
        market_filtered_list_lines("downloads", 1, 1, &vec![entry("e2", "skill", "Notes")]),
        vec!["sort=downloads  page=1  total=1".to_string(), "skill/e2 [published]  Notes".to_string()]
    );
}

#[test]
fn search_lowercases_the_query_and_keeps_matches_in_order() {
    let entries = vec![
        entry("e1", "script", "Weather Now"),
        entry("e2", "skill", "Notes"),
        entry("e3", "mcp", "Rainy weather"),
    ];
    assert_eq!(
        market_search_lines(&entries, "  WEATHER ", "updated"),
        vec![
            "search query=weather  sort=updated  count=2".to_string(),
            "script/e1 [published]  Weather Now".to_string(),
            "mcp/e3 [published]  Rainy weather".to_string(),
        ]
    );
    assert_eq!(market_search_lines(&entries, "", "likes")[0], "search query=  sort=likes  count=3");
    assert_eq!(market_search_lines(&entries, "alice", "likes").len(), 4);
}

#[test]
fn comment_lines_cut_long_bodies() {
    let long = "x".repeat(130);
    let lines = market_comment_lines(
        "e1",
        1,
        2,
        &vec![
            MarketComment { id: "7".to_string(), body: "Nice!".to_string(), author_login: "bob".to_string(), created_at: "t1".to_string() },
            MarketComment { id: "8".to_string(), body: long, author_login: "eve".to_string(), created_at: "t2".to_string() },
        ],
    );
    assert_eq!(lines[0], "comments for e1  page=1  total=2");
    assert_eq!(lines[1], "#7 Nice! by bob  at t1");
    assert_eq!(lines[2], format!("#8 {} by eve  at t2", "x".repeat(120)));
}

#[test]
fn notification_lines_show_the_entry_as_debug() {
    let lines = market_notification_lines(&vec![
        MarketNotification { id: "n1".to_string(), kind: "like".to_string(), entry_id: Some("e1".to_string()), title: "Liked".to_string(), created_at: "t".to_string() },
        MarketNotification { id: "n2".to_string(), kind: "system".to_string(), entry_id: None, title: "Hello".to_string(), created_at: "u".to_string() },
    ]);
    assert_eq!(
        lines,
        vec![
            "notifications: 2".to_string(),
            "n1 [like] entry=Some(\"e1\")  Liked  t".to_string(),
            "n2 [system] entry=None  Hello  u".to_string(),
        ]
    );
}

#[test]
fn my_entries_list_reasons_and_titles() {
    let lines = market_my_entry_lines(&vec![MarketMyEntry {
        id: "e1".to_string(),
        entry_type: "script".to_string(),
        relation: "author".to_string(),
        state_code: "rejected".to_string(),
        reason_codes: vec!["spam".to_string(), "say \"hi\"".to_string()],
        title: "Weather".to_string(),
    }]);
    assert_eq!(
        lines,
        vec![
            "my entries: 1".to_string(),
            "e1  script  author  rejected  [\"spam\", \"say \\\"hi\\\"\"]".to_string(),
            "  title=Weather".to_string(),
        ]
    );
}
