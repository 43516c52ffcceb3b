use operit::commands::model_cmd::{function_list_rows, function_show_lines, provider_list_row, provider_type_rows};
use operit::model::{functionTypes, FunctionType};

#[test]
fn function_rows_are_ordered_by_role_name() {
    let bindings: Vec<(FunctionType, String, String)> = functionTypes()
        .into_iter()
        .map(|f| (f, "openai".to_string(), "gpt".to_string()))
        .collect();
    let rows = function_list_rows(bindings);
    let names: Vec<&str> = rows.iter().map(|r| r.split('\t').next().unwrap()).collect();
    assert_eq!(
        names,
        vec![
            "AUDIO_RECOGNITION", "CHAT", "GREP", "IMAGE_RECOGNITION", "MEMORY", "ROLE_RESPONSE_PLANNER",
            "SUMMARY", "TITLE_GENERATION", "TRANSLATION", "UI_CONTROLLER", "VIDEO_RECOGNITION",
        ]
    );
    assert_eq!(rows[1], "CHAT\topenai\tgpt");
}

#[test]
fn function_rows_keep_each_binding() {
    let rows = function_list_rows(vec![
        (FunctionType::SUMMARY, "p2".to_string(), "m2".to_string()),
        (FunctionType::CHAT, "p1".to_string(), "m1".to_string()),
    ]);
    assert_eq!(rows, vec!["CHAT\tp1\tm1".to_string(), "SUMMARY\tp2\tm2".to_string()]);
    assert!(function_list_rows(Vec::new()).is_empty());
}

#[test]
fn function_show_prints_the_binding() {
    assert_eq!(
        function_show_lines(&FunctionType::TRANSLATION, "deepseek", "chat"),
        vec!["functionType=TRANSLATION".to_string(), "providerId=deepseek".to_string(), "modelId=chat".to_string()]
    );
}

#[test]
fn provider_rows_are_tab_separated() {
    assert_eq!(provider_list_row("p1", "Main", "openai", "https://api", 3), "p1\tMain\topenai\thttps://api\t3");
    assert_eq!(provider_list_row("", "", "", "", 0), "\t\t\t\t0");
}

#[test]
fn provider_type_rows_are_ordered_by_id() {
    let rows = provider_type_rows(vec![
        ("zhipu".to_string(), "Zhipu".to_string(), "https://z".to_string(), 2),
        ("anthropic".to_string(), "Anthropic".to_string(), "https://a".to_string(), 12),
        ("openai".to_string(), "OpenAI".to_string(), "https://o".to_string(), 0),
    ]);
    assert_eq!(
        rows,
        vec![
            "anthropic\tAnthropic\thttps://a\t12".to_string(),
            "openai\tOpenAI\thttps://o\t0".to_string(),
            "zhipu\tZhipu\thttps://z\t2".to_string(),
        ]
    );
}
