use opencli_rs::adapters::{
    chosen_match, config_content, full_url, option_label, option_labels, read_matches, yaml_field,
    AdapterMatch,
};
use opencli_rs::json::Json;

fn text(s: &str) -> Json {
    Json::String(s.to_string())
}

fn object(entries: Vec<(&str, Json)>) -> Json {
    Json::Object(entries.into_iter().map(|(k, v)| (k.to_string(), v)).collect())
}

fn adapter(match_type: &str, site: &str, command: &str) -> AdapterMatch {
    AdapterMatch {
        match_type: match_type.to_string(),
        site_name: site.to_string(),
        cmd_name: command.to_string(),
        description: String::new(),
        author: String::new(),
        command_uuid: "u".to_string(),
    }
}

#[test]
fn addresses_are_completed() {
    assert_eq!(full_url("example.com"), "https://example.com");
    assert_eq!(full_url("http://example.com"), "http://example.com");
    assert_eq!(full_url("https://example.com"), "https://example.com");
    assert_eq!(full_url("HTTP://example.com"), "https://HTTP://example.com");
    assert_eq!(full_url(""), "https://");
    assert_eq!(full_url(&full_url("x")), full_url("x"));
}

#[test]
fn matches_are_read_from_the_answer() {
    let entry = object(vec![
        ("match_type", text("exact")),
        ("site", object(vec![("name", text("news"))])),
        (
            "command",
            object(vec![
                ("cmd_name", text("hot")),
                ("description", text("Hot stories")),
                ("author", text("ann")),
                ("uuid", text("u1")),
            ]),
        ),
        ("author", text("bob")),
    ]);
    let bare = object(vec![
        ("command", object(vec![("uuid", text("u2"))])),
        ("author", text("bob")),
    ]);
    let without_id = object(vec![("match_type", text("exact"))]);
    let reply = object(vec![("matches", Json::Array(vec![entry, without_id, bare]))]);
    assert_eq!(
        read_matches(&reply),
        vec![
            AdapterMatch {
                match_type: "exact".to_string(),
                site_name: "news".to_string(),
                cmd_name: "hot".to_string(),
                description: "Hot stories".to_string(),
                author: "ann".to_string(),
                command_uuid: "u1".to_string(),
            },
            AdapterMatch {
                match_type: String::new(),
                site_name: String::new(),
                cmd_name: String::new(),
                description: String::new(),
                author: "bob".to_string(),
                command_uuid: "u2".to_string(),
            },
        ]
    );
    assert_eq!(read_matches(&Json::Null), vec![]);
    assert_eq!(read_matches(&object(vec![("matches", text("none"))])), vec![]);
}

#[test]
fn labels_show_what_is_known() {
    let mut m = adapter("exact", "news", "hot");
    assert_eq!(option_label(&m), "[exact]   news hot");
    m.match_type = "partial".to_string();
    m.author = "ann".to_string();
    assert_eq!(option_label(&m), "[partial] news hot (by ann)");
    m.match_type = "domain".to_string();
    m.description = "Hot stories".to_string();
    assert_eq!(option_label(&m), "[domain]  news hot (by ann) - Hot stories");
    m.match_type = "else".to_string();
    m.author = String::new();
    assert_eq!(option_label(&m), "[other]   news hot - Hot stories");
}

#[test]
fn chosen_lines_lead_to_adapters() {
    let list = vec![adapter("exact", "news", "hot"), adapter("domain", "blog", "new")];
    let labels = option_labels(&list);
    assert_eq!(labels, vec!["[exact]   news hot", "[domain]  blog new"]);
    assert_eq!(chosen_match(&list, &labels[0]), Some(0));
    assert_eq!(chosen_match(&list, &labels[1]), Some(1));
    assert_eq!(chosen_match(&list, "neither"), None);
    assert_eq!(chosen_match(&vec![], "x"), None);
}

#[test]
fn the_first_named_adapter_is_taken() {
    let list = vec![adapter("exact", "news", "hot"), adapter("exact", "news", "hottest")];
    assert_eq!(chosen_match(&list, &option_label(&list[1])), Some(0));
}

#[test]
fn fields_are_read_from_the_adapter() {
    let yaml = "# site: no\nsite: \"news\" \r\nname: hot\nsite: other\n";
    assert_eq!(yaml_field(yaml, "site:", "x"), "news");
    assert_eq!(yaml_field(yaml, "name:", "x"), "hot");
    assert_eq!(yaml_field(" site: indented", "site:", "x"), "x");
    assert_eq!(yaml_field("site:", "site:", "x"), "");
    assert_eq!(yaml_field("", "site:", "x"), "x");
}

#[test]
fn configs_are_read_from_the_answer() {
    let reply = object(vec![("config", object(vec![("content", text("site: a"))]))]);
    assert_eq!(config_content(&reply), Some("site: a".to_string()));
    assert_eq!(config_content(&object(vec![("config", text("site: a"))])), None);
    assert_eq!(config_content(&Json::Null), None);
}
