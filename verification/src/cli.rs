//! The command line: what is known about sites and their commands, and the tree of commands that
//! is built from it.

use vstd::prelude::*;
use vstd::string::*;

use crate::clap_layout::{
    arg_default, arg_global, arg_help, arg_layout, arg_long, arg_new, arg_required, arg_shell,
    arg_short, arg_switch, bare_arg, bare_command, command_about, command_arg, command_external,
    command_layout, command_new, command_subcommand, command_version, ArgLayout, CommandLayout,
};
use crate::json::{compact, compact_json, json_text, opt_str, text_of};
use crate::page::opt_text;

verus! {

/// An argument of a command.
#[derive(Debug, PartialEq, Eq)]
pub struct ArgDef {
    pub name: String,
    pub description: Option<String>,
    pub positional: bool,
    pub required: bool,
    /// The value that the argument has where the user gives none.
    pub default: Option<serde_json::Value>,
}

/// A command of a site.
#[derive(Debug, PartialEq, Eq)]
pub struct CliCommand {
    pub name: String,
    pub description: String,
    pub args: Vec<ArgDef>,
    pub columns: Vec<String>,
}

/// A site and its commands.
#[derive(Debug, PartialEq, Eq)]
pub struct Site {
    pub name: String,
    pub commands: Vec<CliCommand>,
}

/// The sites that adapters are known for.
#[derive(Debug, PartialEq, Eq)]
pub struct Registry {
    pub sites: Vec<Site>,
}

/// A program outside that is called through this one.
#[derive(Debug, PartialEq, Eq)]
pub struct ExternalCli {
    pub name: String,
    pub binary: String,
    pub description: String,
}

/// A value as the command line writes it: a text stands for itself, without the quotation marks of
/// JSON; anything else is written as JSON.
pub open spec fn bare_text(text: Option<Seq<char>>, json: Seq<char>) -> Seq<char> {
    match text {
        Some(t) => t,
        None => json,
    }
}

/// A default value as the command line writes it.
pub open spec fn default_text(default: serde_json::Value) -> Seq<char> {
    bare_text(json_text(default), compact_json(default))
}

pub open spec fn def_layout(def: ArgDef) -> ArgLayout {
    ArgLayout {
        long: if def.positional {
            None
        } else {
            Some(def.name@)
        },
        help: opt_text(def.description),
        required: def.required,
        default: match def.default {
            Some(d) => Some(default_text(d)),
            None => None,
        },
        ..bare_arg(def.name@)
    }
}

pub open spec fn def_layouts(defs: Seq<ArgDef>) -> Seq<ArgLayout> {
    defs.map_values(|def: ArgDef| def_layout(def))
}

pub open spec fn cli_command_layout(command: CliCommand) -> CommandLayout {
    CommandLayout {
        about: Some(command.description@),
        args: def_layouts(command.args@),
        ..bare_command(command.name@)
    }
}

pub open spec fn cli_command_layouts(commands: Seq<CliCommand>) -> Seq<CommandLayout> {
    commands.map_values(|command: CliCommand| cli_command_layout(command))
}

pub open spec fn site_layout(site: Site) -> CommandLayout {
    CommandLayout {
        subcommands: cli_command_layouts(site.commands@),
        ..bare_command(site.name@)
    }
}

pub open spec fn site_layouts(sites: Seq<Site>) -> Seq<CommandLayout> {
    sites.map_values(|site: Site| site_layout(site))
}

pub open spec fn external_layout(cli: ExternalCli) -> CommandLayout {
    CommandLayout {
        about: Some(cli.description@),
        external: true,
        ..bare_command(cli.name@)
    }
}

pub open spec fn external_layouts(clis: Seq<ExternalCli>) -> Seq<CommandLayout> {
    clis.map_values(|cli: ExternalCli| external_layout(cli))
}

/// An argument that has to be there, known by its place.
pub open spec fn place(id: Seq<char>, help: Seq<char>) -> ArgLayout {
    ArgLayout { help: Some(help), required: true, ..bare_arg(id) }
}

/// An argument that may be there, known by its name.
pub open spec fn option(id: Seq<char>, help: Seq<char>) -> ArgLayout {
    ArgLayout { help: Some(help), long: Some(id), ..bare_arg(id) }
}

/// The commands that are always there.
pub open spec fn utility_layouts() -> Seq<CommandLayout> {
    seq![
        CommandLayout { about: Some("Run diagnostics checks"@), ..bare_command("doctor"@) },
        CommandLayout {
            about: Some("Generate shell completions"@),
            args: seq![
                ArgLayout {
                    shell: true,
                    ..place("shell"@, "Target shell: bash, zsh, fish, powershell"@)
                },
            ],
            ..bare_command("completion"@)
        },
        CommandLayout {
            about: Some("Explore a website's API surface and discover endpoints"@),
            args: seq![
                place("url"@, "URL to explore"@),
                option("site"@, "Override site name"@),
                option("goal"@, "Hint for capability naming (e.g. search, hot)"@),
                ArgLayout { default: Some("3"@), ..option("wait"@, "Initial wait seconds"@) },
                ArgLayout {
                    switch: true,
                    ..option(
                        "auto"@,
                        "Enable interactive fuzzing (click buttons/tabs to trigger hidden APIs)"@,
                    )
                },
                option(
                    "click"@,
                    "Comma-separated labels to click before fuzzing (e.g. 'Comments,CC,字幕')"@,
                ),
            ],
            ..bare_command("explore"@)
        },
        CommandLayout {
            about: Some("Auto-detect authentication strategy for an API endpoint"@),
            args: seq![place("url"@, "API endpoint URL to probe"@)],
            ..bare_command("cascade"@)
        },
        CommandLayout {
            about: Some("One-shot: explore + synthesize + select best adapter"@),
            args: seq![
                place("url"@, "URL to generate adapter for"@),
                option("goal"@, "What you want (e.g. hot, search, trending)"@),
                option("site"@, "Override site name"@),
                ArgLayout {
                    switch: true,
                    ..option(
                        "ai"@,
                        "Use AI (LLM) to analyze and generate adapter (requires ~/.opencli-rs/config.json)"@,
                    )
                },
            ],
            ..bare_command("generate"@)
        },
        CommandLayout {
            about: Some("Search for existing adapters on autocli.ai"@),
            args: seq![place("url"@, "URL to search adapters for"@)],
            ..bare_command("search"@)
        },
        CommandLayout { about: Some("Authenticate with AutoCLI"@), ..bare_command("auth"@) },
    ]
}

/// The arguments that every command has.
pub open spec fn common_args() -> Seq<ArgLayout> {
    seq![
        ArgLayout {
            long: Some("format"@),
            short: Some('f'),
            global: true,
            default: Some("table"@),
            help: Some("Output format: table, json, yaml, csv, md"@),
            ..bare_arg("format"@)
        },
        ArgLayout {
            long: Some("verbose"@),
            short: Some('v'),
            global: true,
            switch: true,
            help: Some("Enable verbose output"@),
            ..bare_arg("verbose"@)
        },
    ]
}

/// The whole command line: the sites, then the programs outside, then the utilities.
pub open spec fn cli_layout(
    version: Seq<char>,
    sites: Seq<Site>,
    external_clis: Seq<ExternalCli>,
) -> CommandLayout {
    CommandLayout {
        version: Some(version),
        about: Some("AI-driven CLI tool — turns websites into command-line interfaces"@),
        args: common_args(),
        subcommands: site_layouts(sites) + external_layouts(external_clis) + utility_layouts(),
        ..bare_command("opencli-rs"@)
    }
}

/// A value as the command line writes it, of which the text is known, if it is one, and the JSON.
pub fn write_bare(text: Option<&str>, json: &str) -> (r: String)
    ensures
        r@ == bare_text(opt_str(text), json@),
{
    match text {
        Some(t) => t.to_owned(),
        None => json.to_owned(),
    }
}

fn write_default(default: &serde_json::Value) -> (r: String)
    ensures
        r@ == default_text(*default),
{
    write_bare(text_of(default), compact(default).as_str())
}

fn build_arg(def: &ArgDef) -> (r: clap::Arg)
    ensures
        arg_layout(r) == def_layout(*def),
{
    let mut arg = arg_new(def.name.as_str());
    if !def.positional {
        arg = arg_long(arg, def.name.as_str());
    }
    if let Some(description) = &def.description {
        arg = arg_help(arg, description.as_str());
    }
    if def.required {
        arg = arg_required(arg);
    }
    if let Some(default) = &def.default {
        arg = arg_default(arg, write_default(default).as_str());
    }
    arg
}

fn build_command(command: &CliCommand) -> (r: clap::Command)
    ensures
        command_layout(r) == cli_command_layout(*command),
{
    let mut app = command_about(command_new(command.name.as_str()), command.description.as_str());
    let ghost start = command_layout(app);
    let mut i: usize = 0;
    proof {
        assert(def_layouts(command.args@.take(0)) =~= Seq::empty());
    }
    while i < command.args.len()
        invariant
            i <= command.args@.len(),
            start == (CommandLayout {
                about: Some(command.description@),
                ..bare_command(command.name@)
            }),
            command_layout(app) == (CommandLayout {
                args: def_layouts(command.args@.take(i as int)),
                ..start
            }),
        decreases command.args@.len() - i,
    {
        app = command_arg(app, build_arg(&command.args[i]));
        proof {
            assert(def_layouts(command.args@.take(i + 1)) =~= def_layouts(
                command.args@.take(i as int),
            ).push(def_layout(command.args@[i as int])));
        }
        i += 1;
    }
    proof {
        assert(command.args@.take(i as int) =~= command.args@);
    }
    app
}

fn build_site(site: &Site) -> (r: clap::Command)
    ensures
        command_layout(r) == site_layout(*site),
{
    let mut app = command_new(site.name.as_str());
    let mut i: usize = 0;
    proof {
        assert(cli_command_layouts(site.commands@.take(0)) =~= Seq::empty());
    }
    while i < site.commands.len()
        invariant
            i <= site.commands@.len(),
            command_layout(app) == (CommandLayout {
                subcommands: cli_command_layouts(site.commands@.take(i as int)),
                ..bare_command(site.name@)
            }),
        decreases site.commands@.len() - i,
    {
        app = command_subcommand(app, build_command(&site.commands[i]));
        proof {
            assert(cli_command_layouts(site.commands@.take(i + 1)) =~= cli_command_layouts(
                site.commands@.take(i as int),
            ).push(cli_command_layout(site.commands@[i as int])));
        }
        i += 1;
    }
    proof {
        assert(site.commands@.take(i as int) =~= site.commands@);
    }
    app
}

fn build_place(id: &str, help: &str) -> (r: clap::Arg)
    ensures
        arg_layout(r) == place(id@, help@),
{
    arg_help(arg_required(arg_new(id)), help)
}

fn build_option(id: &str, help: &str) -> (r: clap::Arg)
    ensures
        arg_layout(r) == option(id@, help@),
{
    arg_help(arg_long(arg_new(id), id), help)
}

fn build_utility(name: &str, about: &str) -> (r: clap::Command)
    ensures
        command_layout(r) == (CommandLayout { about: Some(about@), ..bare_command(name@) }),
{
    command_about(command_new(name), about)
}

fn add_utilities(app: clap::Command) -> (r: clap::Command)
    ensures
        command_layout(r) == (CommandLayout {
            subcommands: command_layout(app).subcommands + utility_layouts(),
            ..command_layout(app)
        }),
{
    let doctor = build_utility("doctor", "Run diagnostics checks");
    let completion = command_arg(
        build_utility("completion", "Generate shell completions"),
        arg_shell(build_place("shell", "Target shell: bash, zsh, fish, powershell")),
    );
    let explore = build_utility(
        "explore",
        "Explore a website's API surface and discover endpoints",
    );
    let explore = command_arg(explore, build_place("url", "URL to explore"));
    let explore = command_arg(explore, build_option("site", "Override site name"));
    let explore = command_arg(
        explore,
        build_option("goal", "Hint for capability naming (e.g. search, hot)"),
    );
    let explore = command_arg(
        explore,
        arg_default(build_option("wait", "Initial wait seconds"), "3"),
    );
    let explore = command_arg(
        explore,
        arg_switch(
            build_option(
                "auto",
                "Enable interactive fuzzing (click buttons/tabs to trigger hidden APIs)",
            ),
        ),
    );
    let explore = command_arg(
        explore,
        build_option(
            "click",
            "Comma-separated labels to click before fuzzing (e.g. 'Comments,CC,字幕')",
        ),
    );
    let cascade = command_arg(
        build_utility("cascade", "Auto-detect authentication strategy for an API endpoint"),
        build_place("url", "API endpoint URL to probe"),
    );
    let generate = build_utility("generate", "One-shot: explore + synthesize + select best adapter");
    let generate = command_arg(generate, build_place("url", "URL to generate adapter for"));
    let generate = command_arg(
        generate,
        build_option("goal", "What you want (e.g. hot, search, trending)"),
    );
    let generate = command_arg(generate, build_option("site", "Override site name"));
    let generate = command_arg(
        generate,
        arg_switch(
            build_option(
                "ai",
                "Use AI (LLM) to analyze and generate adapter (requires ~/.opencli-rs/config.json)",
            ),
        ),
    );
    let search = command_arg(
        build_utility("search", "Search for existing adapters on autocli.ai"),
        build_place("url", "URL to search adapters for"),
    );
    let auth = build_utility("auth", "Authenticate with AutoCLI");
    proof {
        let all = utility_layouts();
        assert(command_layout(doctor) =~= all[0]);
        assert(command_layout(completion).args =~= all[1].args);
        assert(command_layout(explore).args =~= all[2].args);
        assert(command_layout(cascade).args =~= all[3].args);
        assert(command_layout(generate).args =~= all[4].args);
        assert(command_layout(search).args =~= all[5].args);
        assert(command_layout(auth) =~= all[6]);
    }
    let app2 = command_subcommand(app, doctor);
    let app2 = command_subcommand(app2, completion);
    let app2 = command_subcommand(app2, explore);
    let app2 = command_subcommand(app2, cascade);
    let app2 = command_subcommand(app2, generate);
    let app2 = command_subcommand(app2, search);
    let app2 = command_subcommand(app2, auth);
    proof {
        assert(command_layout(app2).subcommands =~= command_layout(app).subcommands
            + utility_layouts());
    }
    app2
}

/// Builds the command line from the sites and the programs outside that are known.
pub fn build_cli(
    version: &str,
    registry: &Registry,
    external_clis: &Vec<ExternalCli>,
) -> (r: clap::Command)
    ensures
        command_layout(r) == cli_layout(version@, registry.sites@, external_clis@),
{
    let format = arg_default(
        arg_global(arg_short(arg_long(arg_new("format"), "format"), 'f')),
        "table",
    );
    let format = arg_help(format, "Output format: table, json, yaml, csv, md");
    let verbose = arg_switch(
        arg_global(arg_short(arg_long(arg_new("verbose"), "verbose"), 'v')),
    );
    let verbose = arg_help(verbose, "Enable verbose output");
    let mut app = command_about(
        command_version(command_new("opencli-rs"), version),
        "AI-driven CLI tool — turns websites into command-line interfaces",
    );
    app = command_arg(command_arg(app, format), verbose);
    let ghost start = CommandLayout {
        version: Some(version@),
        about: Some("AI-driven CLI tool — turns websites into command-line interfaces"@),
        args: common_args(),
        ..bare_command("opencli-rs"@)
    };
    proof {
        assert(command_layout(app).args =~= common_args());
        assert(site_layouts(registry.sites@.take(0)) =~= Seq::empty());
    }
    let mut i: usize = 0;
    while i < registry.sites.len()
        invariant
            i <= registry.sites@.len(),
            start.subcommands == Seq::<CommandLayout>::empty(),
            command_layout(app) == (CommandLayout {
                subcommands: site_layouts(registry.sites@.take(i as int)),
                ..start
            }),
        decreases registry.sites@.len() - i,
    {
        app = command_subcommand(app, build_site(&registry.sites[i]));
        proof {
            assert(site_layouts(registry.sites@.take(i + 1)) =~= site_layouts(
                registry.sites@.take(i as int),
            ).push(site_layout(registry.sites@[i as int])));
        }
        i += 1;
    }
    let ghost sites = site_layouts(registry.sites@);
    proof {
        assert(registry.sites@.take(i as int) =~= registry.sites@);
        assert(sites + external_layouts(external_clis@.take(0)) =~= sites);
    }
    let mut j: usize = 0;
    while j < external_clis.len()
        invariant
            j <= external_clis@.len(),
            command_layout(app) == (CommandLayout {
                subcommands: sites + external_layouts(external_clis@.take(j as int)),
                ..start
            }),
        decreases external_clis@.len() - j,
    {
        let cli = &external_clis[j];
        let program = command_external(
            command_about(command_new(cli.name.as_str()), cli.description.as_str()),
        );
        app = command_subcommand(app, program);
        proof {
            assert(sites + external_layouts(external_clis@.take(j + 1)) =~= (sites
                + external_layouts(external_clis@.take(j as int))).push(
                external_layout(external_clis@[j as int]),
            ));
        }
        j += 1;
    }
    proof {
        assert(external_clis@.take(j as int) =~= external_clis@);
    }
    add_utilities(app)
}

/// Every site, every command of it, every program outside and every utility can be called.
pub proof fn everything_known_can_be_called(
    version: Seq<char>,
    sites: Seq<Site>,
    external_clis: Seq<ExternalCli>,
    i: int,
    k: int,
)
    ensures
        0 <= i < sites.len() ==> cli_layout(version, sites, external_clis).subcommands[i]
            == site_layout(sites[i]),
        0 <= i < sites.len() && 0 <= k < sites[i].commands@.len() ==> site_layout(
            sites[i],
        ).subcommands[k] == cli_command_layout(sites[i].commands@[k]),
        0 <= i < external_clis.len() ==> cli_layout(
            version,
            sites,
            external_clis,
        ).subcommands[sites.len() + i] == external_layout(external_clis[i]),
        0 <= i < utility_layouts().len() ==> cli_layout(
            version,
            sites,
            external_clis,
        ).subcommands[sites.len() + external_clis.len() + i] == utility_layouts()[i],
        cli_layout(version, sites, external_clis).subcommands.len() == sites.len()
            + external_clis.len() + 7,
{
}

} // verus!
