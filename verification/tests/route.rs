use opencli_rs::cli::{ArgDef, CliCommand, ExternalCli, Registry, Site};
use opencli_rs::route::{
    adapter_file, collect_args, daemon_port, exit_code, explore_options, external_args, log_filter,
    route, shown_columns, wants_daemon, AdapterFile, ExploreOptions, Route,
};

fn def(name: &str) -> ArgDef {
    ArgDef {
        name: name.to_string(),
        description: None,
        positional: false,
        required: false,
        default: None,
    }
}

fn command(name: &str) -> CliCommand {
    CliCommand {
        name: name.to_string(),
        description: String::new(),
        args: vec![],
        columns: vec![],
    }
}

fn registry() -> Registry {
    let site = |name: &str| Site {
        name: name.to_string(),
        commands: vec![command("hot"), command("new")],
    };
    Registry { sites: vec![site("blog"), site("gh"), site("news"), site("search")] }
}

fn external() -> Vec<ExternalCli> {
    let cli = |name: &str| ExternalCli {
        name: name.to_string(),
        binary: name.to_string(),
        description: String::new(),
    };
    vec![cli("docker"), cli("gh"), cli("auth")]
}

fn to(name: &str, command: Option<&str>) -> Route {
    route(&registry(), &external(), Some((name, command)))
}

fn some(s: &str) -> Option<String> {
    Some(s.to_string())
}

#[test]
fn utilities_come_first() {
    assert_eq!(to("doctor", None), Route::Doctor);
    assert_eq!(to("completion", None), Route::Completion);
    assert_eq!(to("search", Some("hot")), Route::Search);
    assert_eq!(to("auth", None), Route::Auth);
    assert_eq!(to("explore", None), Route::Explore);
    assert_eq!(to("cascade", None), Route::Cascade);
    assert_eq!(to("generate", None), Route::Generate);
}

#[test]
fn outside_programs_come_before_sites() {
    assert_eq!(to("docker", None), Route::External(0));
    assert_eq!(to("gh", Some("hot")), Route::External(1));
}

#[test]
fn site_commands_are_found() {
    assert_eq!(to("news", Some("new")), Route::Command { site: 2, command: 1 });
    assert_eq!(to("blog", Some("hot")), Route::Command { site: 0, command: 0 });
    assert_eq!(to("news", Some("old")), Route::UnknownCommand);
    assert_eq!(to("nowhere", Some("hot")), Route::UnknownCommand);
    assert_eq!(to("news", None), Route::SiteHelp);
    assert_eq!(route(&registry(), &external(), None), Route::NoCommand);
    assert_eq!(registry().position("news", "hot"), Some((2, 0)));
    assert_eq!(registry().position("news", "old"), None);
}

#[test]
fn given_arguments_are_collected() {
    let args = vec![def("query"), def("limit"), def("sort")];
    let values = vec![some("rust"), None, some("new")];
    assert_eq!(
        collect_args(&args, &values),
        vec![
            ("query".to_string(), "rust".to_string()),
            ("sort".to_string(), "new".to_string()),
        ]
    );
    assert_eq!(collect_args(&vec![], &vec![]), vec![]);
}

#[test]
fn arguments_are_passed_on_to_outside_programs() {
    assert_eq!(external_args(None), Vec::<String>::new());
    assert_eq!(
        external_args(Some(("pr".to_string(), vec!["list".to_string(), "-L".to_string()]))),
        vec!["pr", "list", "-L"]
    );
    assert_eq!(exit_code(Some(7)), 7);
    assert_eq!(exit_code(None), 1);
}

#[test]
fn columns_are_shown_where_there_are_any() {
    let mut c = command("hot");
    assert_eq!(shown_columns(&c), None);
    c.columns = vec!["title".to_string(), "url".to_string()];
    assert_eq!(shown_columns(&c), Some(vec!["title".to_string(), "url".to_string()]));
}

#[test]
fn daemon_is_asked_for_by_a_flag() {
    let line = |args: Vec<&str>| args.into_iter().map(|a| a.to_string()).collect::<Vec<String>>();
    assert!(wants_daemon(&line(vec!["opencli-rs", "--daemon", "--port", "1"])));
    assert!(!wants_daemon(&line(vec!["opencli-rs", "--daemonize"])));
    assert!(!wants_daemon(&line(vec![])));
}

#[test]
fn ports_are_read_from_settings() {
    assert_eq!(daemon_port(Some("8080")), 8080);
    assert_eq!(daemon_port(Some("65535")), 65535);
    assert_eq!(daemon_port(Some("65536")), 19825);
    assert_eq!(daemon_port(Some("+80")), 80);
    assert_eq!(daemon_port(Some(" 80")), 19825);
    assert_eq!(daemon_port(Some("-1")), 19825);
    assert_eq!(daemon_port(Some("")), 19825);
    assert_eq!(daemon_port(Some("+")), 19825);
    assert_eq!(daemon_port(Some("0080")), 80);
    assert_eq!(daemon_port(Some("８０")), 19825);
    assert_eq!(daemon_port(None), 19825);
}

#[test]
fn log_filters_depend_on_verbosity() {
    assert_eq!(log_filter(true), "debug");
    assert_eq!(log_filter(false), "warn");
}

#[test]
fn explorations_have_defaults() {
    assert_eq!(
        explore_options(None, None, None, false, None),
        ExploreOptions {
            timeout: 120,
            max_scrolls: 3,
            capture_network: true,
            wait_seconds: 3,
            auto_fuzz: false,
            click_labels: vec![],
            goal: None,
            site_name: None,
        }
    );
    assert_eq!(
        explore_options(some("news"), some("hot"), some("12"), true, some("Comments, CC ,字幕,")),
        ExploreOptions {
            timeout: 120,
            max_scrolls: 3,
            capture_network: true,
            wait_seconds: 12,
            auto_fuzz: true,
            click_labels: vec![
                "Comments".to_string(),
                "CC".to_string(),
                "字幕".to_string(),
                String::new(),
            ],
            goal: some("hot"),
            site_name: some("news"),
        }
    );
    assert_eq!(explore_options(None, None, some("1.5"), false, None).wait_seconds, 3);
    assert_eq!(
        explore_options(None, None, some("18446744073709551615"), false, None).wait_seconds,
        u64::MAX
    );
    assert_eq!(
        explore_options(None, None, some("18446744073709551616"), false, None).wait_seconds,
        3
    );
}

#[test]
fn adapters_are_saved_at_home() {
    let file = |home: &str| AdapterFile {
        directories: vec![
            home.to_string(),
            ".opencli-rs".to_string(),
            "adapters".to_string(),
            "news".to_string(),
        ],
        file: "hot.yaml".to_string(),
    };
    assert_eq!(adapter_file(some("/home/a"), some("C:\\a"), "news", "hot"), file("/home/a"));
    assert_eq!(adapter_file(None, some("C:\\a"), "news", "hot"), file("C:\\a"));
    assert_eq!(adapter_file(None, None, "news", "hot"), file("."));
}
