//! What holds of the command line that is built from the adapters.

use vstd::prelude::*;

use crate::clap_layout::ArgLayout;
use crate::cli::{
    bare_text, cli_layout, default_text, def_layout, utility_layouts, ArgDef, ExternalCli, Site,
};
use crate::json::{compact_json, json_text};

verus! {

/// What a definition says of an argument reaches the argument: each thing by itself, whatever the
/// others are.
pub proof fn definitions_reach_arguments(def: ArgDef)
    ensures
        def_layout(def).id == def.name@,
        def_layout(def).required <==> def.required,
        def_layout(def).long is None <==> def.positional,
        !def.positional ==> def_layout(def).long == Some(def.name@),
        def_layout(def).help is None <==> def.description is None,
        def.description matches Some(help) ==> def_layout(def).help == Some(help@),
        def_layout(def).default is None <==> def.default is None,
        def.default matches Some(value) ==> def_layout(def).default == Some(default_text(value)),
        def_layout(def).short is None,
        !def_layout(def).global,
        !def_layout(def).switch,
        !def_layout(def).shell,
{
}

/// A default that is a text is written as that text, any other as JSON.
pub proof fn defaults_are_written_bare(value: serde_json::Value, text: Seq<char>, json: Seq<char>)
    ensures
        json_text(value) == Some(text) ==> default_text(value) == text,
        json_text(value) is None ==> default_text(value) == compact_json(value),
        bare_text(Some(text), json) == text,
        bare_text(None, json) == json,
{
}

/// Every argument of every command of every site stands in its place with all that its definition
/// says.
pub proof fn site_arguments_are_built(
    version: Seq<char>,
    sites: Seq<Site>,
    clis: Seq<ExternalCli>,
    i: int,
    k: int,
    a: int,
)
    requires
        0 <= i < sites.len(),
        0 <= k < sites[i].commands@.len(),
        0 <= a < sites[i].commands@[k].args@.len(),
    ensures
        ({
            let def = sites[i].commands@[k].args@[a];
            let arg = cli_layout(version, sites, clis).subcommands[i].subcommands[k].args[a];
            &&& arg.id == def.name@
            &&& arg.required == def.required
            &&& arg.long == if def.positional {
                None
            } else {
                Some(def.name@)
            }
            &&& match (arg.help, def.description) {
                (Some(shown), Some(said)) => shown == said@,
                (None, None) => true,
                _ => false,
            }
            &&& match (arg.default, def.default) {
                (Some(written), Some(value)) => written == default_text(value),
                (None, None) => true,
                _ => false,
            }
            &&& arg.short is None && !arg.global && !arg.switch && !arg.shell
        }),
{
    definitions_reach_arguments(sites[i].commands@[k].args@[a]);
}

/// Every site and every command of it stands in its place, with its name and its description, and
/// with as many commands and arguments as were defined.
pub proof fn site_commands_are_built(
    version: Seq<char>,
    sites: Seq<Site>,
    clis: Seq<ExternalCli>,
    i: int,
    k: int,
)
    requires
        0 <= i < sites.len(),
    ensures
        ({
            let site = cli_layout(version, sites, clis).subcommands[i];
            &&& site.name == sites[i].name@
            &&& site.about is None && site.version is None && site.args.len() == 0 && !site.external
            &&& site.subcommands.len() == sites[i].commands@.len()
            &&& 0 <= k < sites[i].commands@.len() ==> {
                let command = sites[i].commands@[k];
                &&& site.subcommands[k].name == command.name@
                &&& site.subcommands[k].about == Some(command.description@)
                &&& site.subcommands[k].version is None
                &&& site.subcommands[k].args.len() == command.args@.len()
                &&& site.subcommands[k].subcommands.len() == 0
                &&& !site.subcommands[k].external
            }
        }),
{
}

/// Every program outside stands behind the sites, and takes whatever it is given.
pub proof fn external_programs_are_built(
    version: Seq<char>,
    sites: Seq<Site>,
    clis: Seq<ExternalCli>,
    i: int,
)
    requires
        0 <= i < clis.len(),
    ensures
        ({
            let program = cli_layout(version, sites, clis).subcommands[sites.len() + i];
            &&& program.name == clis[i].name@
            &&& program.about == Some(clis[i].description@)
            &&& program.external
            &&& program.args.len() == 0 && program.subcommands.len() == 0
            &&& program.version is None
        }),
{
}

/// The program goes by its name and its version, and has two arguments for every command: the
/// format, a table where nothing else is said, and the verbosity, which is switched on.
pub proof fn program_is_built(version: Seq<char>, sites: Seq<Site>, clis: Seq<ExternalCli>)
    ensures
        ({
            let program = cli_layout(version, sites, clis);
            &&& program.name == "opencli-rs"@
            &&& program.version == Some(version)
            &&& program.about == Some(
                "AI-driven CLI tool — turns websites into command-line interfaces"@,
            )
            &&& !program.external
            &&& program.args.len() == 2
            &&& program.args[0].id == "format"@ && program.args[0].long == Some("format"@)
            &&& program.args[0].short == Some('f') && program.args[0].default == Some("table"@)
            &&& program.args[0].global && !program.args[0].required && !program.args[0].switch
            &&& program.args[0].help == Some("Output format: table, json, yaml, csv, md"@)
            &&& program.args[1].id == "verbose"@ && program.args[1].long == Some("verbose"@)
            &&& program.args[1].short == Some('v') && program.args[1].default is None
            &&& program.args[1].global && !program.args[1].required && program.args[1].switch
            &&& program.args[1].help == Some("Enable verbose output"@)
            &&& program.subcommands.len() == sites.len() + clis.len() + 7
        }),
{
}

/// An argument that has to be there and is known by its place.
pub open spec fn has_place(arg: ArgLayout, id: Seq<char>, help: Seq<char>) -> bool {
    &&& arg.id == id && arg.help == Some(help) && arg.required
    &&& arg.long is None && arg.short is None && arg.default is None
    &&& !arg.global && !arg.switch
}

/// An argument that may be there and is known by its name.
pub open spec fn has_name(
    arg: ArgLayout,
    id: Seq<char>,
    help: Seq<char>,
    default: Option<Seq<char>>,
    switch: bool,
) -> bool {
    &&& arg.id == id && arg.help == Some(help) && !arg.required
    &&& arg.long == Some(id) && arg.short is None && arg.default == default
    &&& !arg.global && arg.switch == switch && !arg.shell
}

/// The utilities, and what each of them takes.
pub proof fn utilities_are_built()
    ensures
        ({
            let u = utility_layouts();
            &&& u.len() == 7
            &&& u[0].name == "doctor"@ && u[0].args.len() == 0
            &&& u[1].name == "completion"@ && u[1].args.len() == 1 && u[1].args[0].shell
            &&& has_place(u[1].args[0], "shell"@, "Target shell: bash, zsh, fish, powershell"@)
            &&& u[2].name == "explore"@ && u[2].args.len() == 6
            &&& has_place(u[2].args[0], "url"@, "URL to explore"@) && !u[2].args[0].shell
            &&& has_name(u[2].args[1], "site"@, "Override site name"@, None, false)
            &&& has_name(
                u[2].args[2],
                "goal"@,
                "Hint for capability naming (e.g. search, hot)"@,
                None,
                false,
            )
            &&& has_name(u[2].args[3], "wait"@, "Initial wait seconds"@, Some("3"@), false)
            &&& has_name(
                u[2].args[4],
                "auto"@,
                "Enable interactive fuzzing (click buttons/tabs to trigger hidden APIs)"@,
                None,
                true,
            )
            &&& has_name(
                u[2].args[5],
                "click"@,
                "Comma-separated labels to click before fuzzing (e.g. 'Comments,CC,字幕')"@,
                None,
                false,
            )
            &&& u[3].name == "cascade"@ && u[3].args.len() == 1 && !u[3].args[0].shell
            &&& has_place(u[3].args[0], "url"@, "API endpoint URL to probe"@)
            &&& u[4].name == "generate"@ && u[4].args.len() == 4
            &&& has_place(u[4].args[0], "url"@, "URL to generate adapter for"@)
            &&& !u[4].args[0].shell
            &&& has_name(
                u[4].args[1],
                "goal"@,
                "What you want (e.g. hot, search, trending)"@,
                None,
                false,
            )
            &&& has_name(u[4].args[2], "site"@, "Override site name"@, None, false)
            &&& has_name(
                u[4].args[3],
                "ai"@,
                "Use AI (LLM) to analyze and generate adapter (requires ~/.opencli-rs/config.json)"@,
                None,
                true,
            )
            &&& u[5].name == "search"@ && u[5].args.len() == 1 && !u[5].args[0].shell
            &&& has_place(u[5].args[0], "url"@, "URL to search adapters for"@)
            &&& u[6].name == "auth"@ && u[6].args.len() == 0
        }),
{
}

/// The utilities say what they are for, and take no subcommands.
pub proof fn utilities_say_what_they_are_for(i: int)
    requires
        0 <= i < utility_layouts().len(),
    ensures
        utility_layouts()[i].about == Some(
            seq![
                "Run diagnostics checks"@,
                "Generate shell completions"@,
                "Explore a website's API surface and discover endpoints"@,
                "Auto-detect authentication strategy for an API endpoint"@,
                "One-shot: explore + synthesize + select best adapter"@,
                "Search for existing adapters on autocli.ai"@,
                "Authenticate with AutoCLI"@,
            ][i],
        ),
        utility_layouts()[i].version is None,
        utility_layouts()[i].subcommands.len() == 0,
        !utility_layouts()[i].external,
{
}

} // verus!
