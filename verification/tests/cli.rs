use clap::{Arg, ArgAction, Command};
use opencli_rs::cli::{
    build_cli, write_bare, ArgDef, CliCommand, ExternalCli, Registry, Site,
};

fn def(name: &str) -> ArgDef {
    ArgDef {
        name: name.to_string(),
        description: None,
        positional: false,
        required: false,
        default: None,
    }
}

fn registry() -> Registry {
    let query = ArgDef {
        description: Some("What to look for".to_string()),
        positional: true,
        required: true,
        ..def("query")
    };
    let limit = ArgDef {
        default: Some(serde_json::Value::Number(serde_json::Number::from(20))),
        ..def("limit")
    };
    let sort = ArgDef {
        default: Some(serde_json::Value::String("new".to_string())),
        ..def("sort")
    };
    Registry {
        sites: vec![Site {
            name: "news".to_string(),
            commands: vec![
                CliCommand {
                    name: "search".to_string(),
                    description: "Search stories".to_string(),
                    args: vec![query, limit, sort],
                    columns: vec!["title".to_string()],
                },
                CliCommand {
                    name: "top".to_string(),
                    description: "Top stories".to_string(),
                    args: vec![],
                    columns: vec![],
                },
            ],
        }],
    }
}

fn external() -> Vec<ExternalCli> {
    vec![ExternalCli {
        name: "gh".to_string(),
        binary: "gh".to_string(),
        description: "GitHub".to_string(),
    }]
}

fn sub<'a>(command: &'a Command, name: &str) -> &'a Command {
    match command.get_subcommands().find(|c| c.get_name() == name) {
        Some(c) => c,
        None => panic!("no {name}"),
    }
}

fn arg<'a>(command: &'a Command, id: &str) -> &'a Arg {
    match command.get_arguments().find(|a| a.get_id() == id) {
        Some(a) => a,
        None => panic!("no {id}"),
    }
}

fn help(arg: &Arg) -> Option<String> {
    arg.get_help().map(|h| h.to_string())
}

fn defaults(arg: &Arg) -> Vec<String> {
    arg.get_default_values().iter().map(|v| v.to_string_lossy().to_string()).collect()
}

#[test]
fn program_names_itself() {
    let app = build_cli("1.2.3", &registry(), &external());
    assert_eq!(app.get_name(), "opencli-rs");
    assert_eq!(app.get_version(), Some("1.2.3"));
    assert_eq!(
        app.get_about().map(|a| a.to_string()),
        Some("AI-driven CLI tool — turns websites into command-line interfaces".to_string())
    );
    let format = arg(&app, "format");
    assert_eq!(format.get_long(), Some("format"));
    assert_eq!(format.get_short(), Some('f'));
    assert!(format.is_global_set());
    assert_eq!(defaults(format), vec!["table"]);
    assert_eq!(help(format), Some("Output format: table, json, yaml, csv, md".to_string()));
    let verbose = arg(&app, "verbose");
    assert_eq!(verbose.get_long(), Some("verbose"));
    assert_eq!(verbose.get_short(), Some('v'));
    assert!(verbose.is_global_set());
    assert!(matches!(verbose.get_action(), ArgAction::SetTrue));
    assert_eq!(help(verbose), Some("Enable verbose output".to_string()));
}

#[test]
fn commands_stand_in_order() {
    let app = build_cli("1", &registry(), &external());
    let names: Vec<&str> = app.get_subcommands().map(|c| c.get_name()).collect();
    assert_eq!(
        names,
        vec![
            "news", "gh", "doctor", "completion", "explore", "cascade", "generate", "search", "auth"
        ]
    );
}

#[test]
fn site_commands_have_their_arguments() {
    let app = build_cli("1", &registry(), &external());
    let news = sub(&app, "news");
    assert_eq!(news.get_about().map(|a| a.to_string()), None);
    let search = sub(news, "search");
    assert_eq!(search.get_about().map(|a| a.to_string()), Some("Search stories".to_string()));
    let query = arg(search, "query");
    assert_eq!(query.get_long(), None);
    assert!(query.is_required_set());
    assert_eq!(help(query), Some("What to look for".to_string()));
    assert_eq!(defaults(query), Vec::<String>::new());
    let limit = arg(search, "limit");
    assert_eq!(limit.get_long(), Some("limit"));
    assert!(!limit.is_required_set());
    assert_eq!(help(limit), None);
    assert_eq!(defaults(limit), vec!["20"]);
    assert_eq!(defaults(arg(search, "sort")), vec!["new"]);
    assert_eq!(sub(news, "top").get_arguments().count(), 0);
}

#[test]
fn outside_programs_take_any_subcommand() {
    let app = build_cli("1", &registry(), &external());
    let gh = sub(&app, "gh");
    assert_eq!(gh.get_about().map(|a| a.to_string()), Some("GitHub".to_string()));
    assert!(gh.is_allow_external_subcommands_set());
    assert!(!sub(&app, "news").is_allow_external_subcommands_set());
}

#[test]
fn utilities_have_their_arguments() {
    let app = build_cli("1", &registry(), &external());
    let explore = sub(&app, "explore");
    assert!(arg(explore, "url").is_required_set());
    assert_eq!(arg(explore, "url").get_long(), None);
    assert_eq!(defaults(arg(explore, "wait")), vec!["3"]);
    assert!(matches!(arg(explore, "auto").get_action(), ArgAction::SetTrue));
    assert_eq!(
        help(arg(explore, "click")),
        Some("Comma-separated labels to click before fuzzing (e.g. 'Comments,CC,字幕')".to_string())
    );
    let generate = sub(&app, "generate");
    let ids: Vec<String> = generate.get_arguments().map(|a| a.get_id().to_string()).collect();
    assert_eq!(ids, vec!["url", "goal", "site", "ai"]);
    assert_eq!(
        sub(&app, "auth").get_about().map(|a| a.to_string()),
        Some("Authenticate with AutoCLI".to_string())
    );
}

#[test]
fn command_lines_are_understood() {
    let app = build_cli("1", &registry(), &external());
    let line = vec!["opencli-rs", "news", "search", "rust", "--limit", "5", "-f", "json"];
    let matches = match app.try_get_matches_from(line) {
        Ok(m) => m,
        Err(e) => panic!("{e}"),
    };
    assert_eq!(matches.get_one::<String>("format"), Some(&"json".to_string()));
    let (site, site_matches) = matches.subcommand().unwrap();
    assert_eq!(site, "news");
    let (command, found) = site_matches.subcommand().unwrap();
    assert_eq!(command, "search");
    assert_eq!(found.get_one::<String>("query"), Some(&"rust".to_string()));
    assert_eq!(found.get_one::<String>("limit"), Some(&"5".to_string()));
    assert_eq!(found.get_one::<String>("sort"), Some(&"new".to_string()));
}

#[test]
fn completion_takes_a_shell() {
    let shell = |line: Vec<&str>| {
        let app = build_cli("1", &registry(), &external());
        app.try_get_matches_from(line).map(|m| {
            let (_, found) = m.subcommand().unwrap();
            found.get_one::<clap_complete::Shell>("shell").copied()
        })
    };
    assert_eq!(
        shell(vec!["opencli-rs", "completion", "zsh"]).unwrap(),
        Some(clap_complete::Shell::Zsh)
    );
    assert!(shell(vec!["opencli-rs", "completion", "nonsense"]).is_err());
    assert!(shell(vec!["opencli-rs", "completion"]).is_err());
}

#[test]
fn texts_are_written_without_quotation_marks() {
    assert_eq!(write_bare(Some("new"), "\"new\""), "new");
    assert_eq!(write_bare(None, "[1]"), "[1]");
}
