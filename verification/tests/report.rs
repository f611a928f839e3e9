use opencli_rs::language::Language;
use opencli_rs::report::{
    print_error, report_no_command, report_saved, report_token_expired, report_token_missing,
    report_unknown_command, report_unsaved, Line,
};

fn notes(texts: Vec<&str>) -> Vec<Line> {
    texts.into_iter().map(|t| Line::Note(t.to_string())).collect()
}

#[test]
fn both_languages_are_spoken() {
    assert_eq!(Language::Chinese.t("好", "good"), "好");
    assert_eq!(Language::English.t("好", "good"), "good");
}

#[test]
fn saved_adapters_can_be_run() {
    assert_eq!(
        report_saved(Language::English, "news", "hot", "/a/hot.yaml"),
        notes(vec![
            "✅ Generated adapter: news hot",
            "   Saved to: /a/hot.yaml",
            "",
            "   Run it now:",
            "   opencli-rs news hot",
        ])
    );
    assert_eq!(
        report_saved(Language::Chinese, "news", "hot", "/a/hot.yaml"),
        notes(vec![
            "✅ 已生成配置: news hot",
            "   保存到: /a/hot.yaml",
            "",
            "   运行命令:",
            "   opencli-rs news hot",
        ])
    );
}

#[test]
fn unsaved_adapters_are_printed() {
    assert_eq!(
        report_unsaved(Language::English, "disk full", "site: a"),
        vec![
            Line::Note("Generated adapter but failed to save: disk full".to_string()),
            Line::Note(String::new()),
            Line::Output("site: a".to_string()),
        ]
    );
}

#[test]
fn token_reports_say_where_to_get_one() {
    assert_eq!(
        report_token_missing(Language::English),
        notes(vec![
            "❌ Not authenticated. Please login to get your token",
            "   https://autocli.ai/get-token",
            "",
            "   After getting your token, run: opencli-rs auth",
        ])
    );
    assert_eq!(
        report_token_expired(Language::Chinese),
        notes(vec![
            "❌ Token 无效或已过期，请重新获取",
            "   https://autocli.ai/get-token",
            "",
            "   获取新 Token 后运行: opencli-rs auth",
        ])
    );
}

#[test]
fn errors_show_their_suggestions() {
    assert_eq!(print_error("✖", "failed", &vec![]), notes(vec!["✖ failed"]));
    assert_eq!(
        print_error("✖", "failed", &vec!["one".to_string(), "two".to_string()]),
        notes(vec!["✖ failed", "", "  -> one", "  -> two"])
    );
}

#[test]
fn missing_commands_are_reported() {
    assert_eq!(report_unknown_command("news", "old"), notes(vec!["Unknown command: news old"]));
    assert_eq!(
        report_no_command("0.1.0"),
        notes(vec!["opencli-rs v0.1.0", "No command specified. Use --help for usage."])
    );
}
