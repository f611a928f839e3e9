//! What the command line asks for: which part of the program it is for, and with which settings.

use vstd::prelude::*;
use vstd::string::*;

use crate::bridge::DEFAULT_PORT;
use crate::cli::{utility_layouts, ArgDef, CliCommand, ExternalCli, Registry, Site};
use crate::page::opt_text;
use crate::text::{
    join2, parse_number, parse_up_to, same_text, split, split_text, trim, trimmed, views,
};

verus! {

/// The part of the program that a command line is for.
#[derive(Debug, Clone, Copy, PartialEq, Eq, Structural)]
pub enum Route {
    Doctor,
    Completion,
    Search,
    Auth,
    Explore,
    Cascade,
    Generate,
    /// A program outside, by its place in the list.
    External(usize),
    /// A command of a site, by their places in the registry.
    Command { site: usize, command: usize },
    /// A command that the site does not have.
    UnknownCommand,
    /// A site without a command.
    SiteHelp,
    /// Nothing.
    NoCommand,
}

/// The utility that goes by a name.
pub open spec fn utility(name: Seq<char>) -> Option<Route> {
    if name == "doctor"@ {
        Some(Route::Doctor)
    } else if name == "completion"@ {
        Some(Route::Completion)
    } else if name == "search"@ {
        Some(Route::Search)
    } else if name == "auth"@ {
        Some(Route::Auth)
    } else if name == "explore"@ {
        Some(Route::Explore)
    } else if name == "cascade"@ {
        Some(Route::Cascade)
    } else if name == "generate"@ {
        Some(Route::Generate)
    } else {
        None
    }
}

/// The place of the first of the names that is `name`.
pub open spec fn first_index(names: Seq<Seq<char>>, name: Seq<char>) -> Option<int>
    decreases names.len(),
{
    if names.len() == 0 {
        None
    } else if names.first() == name {
        Some(0)
    } else {
        match first_index(names.drop_first(), name) {
            Some(i) => Some(i + 1),
            None => None,
        }
    }
}

/// What goes by a name.
pub trait Named {
    spec fn known_as(&self) -> Seq<char>;

    fn name_text(&self) -> (r: &str)
        ensures
            r@ == self.known_as(),
    ;
}

impl Named for ExternalCli {
    open spec fn known_as(&self) -> Seq<char> {
        self.name@
    }

    fn name_text(&self) -> (r: &str) {
        self.name.as_str()
    }
}

impl Named for Site {
    open spec fn known_as(&self) -> Seq<char> {
        self.name@
    }

    fn name_text(&self) -> (r: &str) {
        self.name.as_str()
    }
}

impl Named for CliCommand {
    open spec fn known_as(&self) -> Seq<char> {
        self.name@
    }

    fn name_text(&self) -> (r: &str) {
        self.name.as_str()
    }
}

pub open spec fn names_of<T: Named>(list: Seq<T>) -> Seq<Seq<char>> {
    list.map_values(|item: T| item.known_as())
}

/// The places of a site and a command of it in the registry.
pub open spec fn registered(sites: Seq<Site>, site: Seq<char>, command: Seq<char>) -> Option<
    (int, int),
> {
    match first_index(names_of(sites), site) {
        Some(i) => match first_index(names_of(sites[i].commands@), command) {
            Some(k) => Some((i, k)),
            None => None,
        },
        None => None,
    }
}

/// The part of the program that is meant by a name, and by what follows it. Utilities come before
/// programs outside, and those before sites.
pub open spec fn route_of(
    sites: Seq<Site>,
    clis: Seq<ExternalCli>,
    name: Seq<char>,
    command: Option<Seq<char>>,
) -> Route {
    match utility(name) {
        Some(route) => route,
        None => match first_index(names_of(clis), name) {
            Some(i) => Route::External(i as usize),
            None => match command {
                Some(command) => match registered(sites, name, command) {
                    Some((i, k)) => Route::Command { site: i as usize, command: k as usize },
                    None => Route::UnknownCommand,
                },
                None => Route::SiteHelp,
            },
        },
    }
}

fn find_utility(name: &str) -> (r: Option<Route>)
    ensures
        r == utility(name@),
{
    if same_text(name, "doctor") {
        Some(Route::Doctor)
    } else if same_text(name, "completion") {
        Some(Route::Completion)
    } else if same_text(name, "search") {
        Some(Route::Search)
    } else if same_text(name, "auth") {
        Some(Route::Auth)
    } else if same_text(name, "explore") {
        Some(Route::Explore)
    } else if same_text(name, "cascade") {
        Some(Route::Cascade)
    } else if same_text(name, "generate") {
        Some(Route::Generate)
    } else {
        None
    }
}

/// The place of the first item with that name.
fn find_named<T: Named>(list: &Vec<T>, name: &str) -> (r: Option<usize>)
    ensures
        match r {
            Some(i) => first_index(names_of(list@), name@) == Some(i as int) && i < list@.len(),
            None => first_index(names_of(list@), name@) is None,
        },
{
    let ghost names = names_of(list@);
    let mut i: usize = 0;
    proof {
        assert(names.skip(0) =~= names);
    }
    while i < list.len()
        invariant
            i <= list@.len(),
            names == names_of(list@),
            match first_index(names.skip(i as int), name@) {
                Some(k) => first_index(names, name@) == Some(i + k),
                None => first_index(names, name@) is None,
            },
        decreases list@.len() - i,
    {
        proof {
            assert(names.skip(i as int).drop_first() =~= names.skip(i + 1));
            assert(names.skip(i as int).first() == list@[i as int].known_as());
        }
        if same_text(list[i].name_text(), name) {
            return Some(i);
        }
        i += 1;
    }
    None
}

impl Registry {
    /// The places of a site and a command of it.
    pub fn position(&self, site: &str, command: &str) -> (r: Option<(usize, usize)>)
        ensures
            match r {
                Some((i, k)) => {
                    &&& registered(self.sites@, site@, command@) == Some((i as int, k as int))
                    &&& i < self.sites@.len()
                    &&& k < self.sites@[i as int].commands@.len()
                },
                None => registered(self.sites@, site@, command@) is None,
            },
    {
        match find_named(&self.sites, site) {
            Some(i) => match find_named(&self.sites[i].commands, command) {
                Some(k) => Some((i, k)),
                None => None,
            },
            None => None,
        }
    }
}

/// The part of the program that a command line is for: `subcommand` is the first name in it, with
/// the second where there is one.
pub fn route(
    registry: &Registry,
    external_clis: &Vec<ExternalCli>,
    subcommand: Option<(&str, Option<&str>)>,
) -> (r: Route)
    ensures
        r == (match subcommand {
            None => Route::NoCommand,
            Some((name, command)) => route_of(
                registry.sites@,
                external_clis@,
                name@,
                match command {
                    Some(c) => Some(c@),
                    None => None,
                },
            ),
        }),
{
    let (name, command) = match subcommand {
        None => {
            return Route::NoCommand;
        },
        Some((name, command)) => (name, command),
    };
    match find_utility(name) {
        Some(route) => {
            return route;
        },
        None => {},
    }
    match find_named(external_clis, name) {
        Some(i) => {
            return Route::External(i);
        },
        None => {},
    }
    match command {
        Some(command) => match registry.position(name, command) {
            Some((i, k)) => Route::Command { site: i, command: k },
            None => Route::UnknownCommand,
        },
        None => Route::SiteHelp,
    }
}

/// The arguments of a command that the user has given, each with its name.
pub open spec fn given_args(args: Seq<ArgDef>, values: Seq<Option<String>>) -> Seq<
    (Seq<char>, Seq<char>),
>
    decreases args.len(),
{
    if args.len() == 0 {
        Seq::empty()
    } else {
        let rest = given_args(args.drop_last(), values.drop_last());
        match values.last() {
            Some(value) => rest.push((args.last().name@, value@)),
            None => rest,
        }
    }
}

pub open spec fn pair_views(pairs: Seq<(String, String)>) -> Seq<(Seq<char>, Seq<char>)> {
    pairs.map_values(|pair: (String, String)| (pair.0@, pair.1@))
}

/// The arguments of a command that the user has given: `values` holds what was read for each of
/// them.
pub fn collect_args(args: &Vec<ArgDef>, values: &Vec<Option<String>>) -> (r: Vec<(String, String)>)
    requires
        values@.len() == args@.len(),
    ensures
        pair_views(r@) == given_args(args@, values@),
{
    let mut pairs: Vec<(String, String)> = Vec::new();
    let mut i: usize = 0;
    proof {
        assert(pair_views(pairs@) =~= given_args(args@.take(0), values@.take(0)));
    }
    while i < args.len()
        invariant
            i <= args@.len(),
            values@.len() == args@.len(),
            pair_views(pairs@) == given_args(args@.take(i as int), values@.take(i as int)),
        decreases args@.len() - i,
    {
        let ghost before = pairs@;
        proof {
            assert(args@.take(i + 1).drop_last() =~= args@.take(i as int));
            assert(values@.take(i + 1).drop_last() =~= values@.take(i as int));
        }
        match &values[i] {
            Some(value) => {
                pairs.push((args[i].name.as_str().to_owned(), value.as_str().to_owned()));
                proof {
                    assert(pair_views(pairs@) =~= pair_views(before).push(
                        (args@[i as int].name@, value@),
                    ));
                }
            },
            None => {},
        }
        i += 1;
    }
    proof {
        assert(args@.take(i as int) =~= args@);
        assert(values@.take(i as int) =~= values@);
    }
    pairs
}

/// The arguments for a program outside: the name that follows the program's, and what comes then.
pub open spec fn passed_on(subcommand: Option<(Seq<char>, Seq<Seq<char>>)>) -> Seq<Seq<char>> {
    match subcommand {
        Some((name, rest)) => seq![name] + rest,
        None => Seq::empty(),
    }
}

pub fn external_args(subcommand: Option<(String, Vec<String>)>) -> (r: Vec<String>)
    ensures
        views(r@) == passed_on(
            match subcommand {
                Some((name, rest)) => Some((name@, views(rest@))),
                None => None,
            },
        ),
{
    let mut args: Vec<String> = Vec::new();
    match subcommand {
        Some((name, rest)) => {
            let ghost given = rest@;
            let ghost first = name@;
            args.push(name);
            let mut rest = rest;
            args.append(&mut rest);
            proof {
                assert(views(args@) =~= seq![first] + views(given));
            }
        },
        None => {
            proof {
                assert(views(args@) =~= Seq::empty());
            }
        },
    }
    args
}

/// The code with which the program ends after a program outside: that program's own, or 1 where it
/// has none.
pub fn exit_code(code: Option<i32>) -> (r: i32)
    ensures
        r == (match code {
            Some(c) => c,
            None => 1,
        }),
{
    match code {
        Some(c) => c,
        None => 1,
    }
}

/// The columns that a command shows, where it names any.
pub fn shown_columns(command: &CliCommand) -> (r: Option<Vec<String>>)
    ensures
        match r {
            Some(columns) => command.columns@.len() > 0 && views(columns@) == views(
                command.columns@,
            ),
            None => command.columns@.len() == 0,
        },
{
    if command.columns.len() == 0 {
        return None;
    }
    let mut columns: Vec<String> = Vec::new();
    let ghost all = views(command.columns@);
    let mut i: usize = 0;
    while i < command.columns.len()
        invariant
            i <= command.columns@.len(),
            all == views(command.columns@),
            views(columns@) == all.take(i as int),
        decreases command.columns@.len() - i,
    {
        let ghost before = columns@;
        columns.push(command.columns[i].as_str().to_owned());
        proof {
            assert(views(columns@) =~= views(before).push(all[i as int]));
            assert(all.take(i + 1) =~= all.take(i as int).push(all[i as int]));
        }
        i += 1;
    }
    proof {
        assert(all.take(i as int) =~= all);
    }
    Some(columns)
}

/// Whether the program is to run as the daemon.
pub fn wants_daemon(args: &Vec<String>) -> (r: bool)
    ensures
        r == views(args@).contains("--daemon"@),
{
    let mut i: usize = 0;
    while i < args.len()
        invariant
            i <= args@.len(),
            forall|j: int| 0 <= j < i ==> #[trigger] views(args@)[j] != "--daemon"@,
        decreases args@.len() - i,
    {
        if same_text(args[i].as_str(), "--daemon") {
            proof {
                assert(views(args@)[i as int] == "--daemon"@);
            }
            return true;
        }
        i += 1;
    }
    false
}

/// The port that a setting names, or the default port where it names none.
pub open spec fn port_in(setting: Option<Seq<char>>) -> u16 {
    match setting {
        Some(s) => match parse_up_to(s, u16::MAX as nat) {
            Some(port) => port as u16,
            None => DEFAULT_PORT,
        },
        None => DEFAULT_PORT,
    }
}

pub fn daemon_port(setting: Option<&str>) -> (r: u16)
    ensures
        r == port_in(
            match setting {
                Some(s) => Some(s@),
                None => None,
            },
        ),
{
    match setting {
        Some(s) => match parse_number(s, u16::MAX as u64) {
            Some(port) => port as u16,
            None => DEFAULT_PORT,
        },
        None => DEFAULT_PORT,
    }
}

/// What is logged where no filter is set.
pub fn log_filter(verbose: bool) -> (r: &'static str)
    ensures
        r@ == if verbose {
            "debug"@
        } else {
            "warn"@
        },
{
    if verbose {
        "debug"
    } else {
        "warn"
    }
}

/// How a site is explored.
#[derive(Debug, PartialEq, Eq)]
pub struct ExploreOptions {
    pub timeout: u64,
    pub max_scrolls: u64,
    pub capture_network: bool,
    pub wait_seconds: u64,
    pub auto_fuzz: bool,
    pub click_labels: Vec<String>,
    pub goal: Option<String>,
    pub site_name: Option<String>,
}

/// How long an exploration may take, in seconds.
pub const EXPLORE_TIMEOUT_SECONDS: u64 = 120;

pub const EXPLORE_MAX_SCROLLS: u64 = 3;

/// How long an exploration waits where the user says nothing else, in seconds.
pub const EXPLORE_WAIT_SECONDS: u64 = 3;

/// The waiting time that a setting names.
pub open spec fn wait_in(setting: Option<Seq<char>>) -> u64 {
    match setting {
        Some(s) => match parse_up_to(s, u64::MAX as nat) {
            Some(seconds) => seconds as u64,
            None => EXPLORE_WAIT_SECONDS,
        },
        None => EXPLORE_WAIT_SECONDS,
    }
}

/// The labels in a list that is separated by commas, without white space around them.
pub open spec fn labels_in(setting: Option<Seq<char>>) -> Seq<Seq<char>> {
    match setting {
        Some(s) => split(s, ',').map_values(|label: Seq<char>| trim(label)),
        None => Seq::empty(),
    }
}

fn read_labels(setting: &str) -> (r: Vec<String>)
    ensures
        views(r@) == labels_in(Some(setting@)),
{
    let parts = split_text(setting, ',');
    let ghost all = labels_in(Some(setting@));
    let mut labels: Vec<String> = Vec::new();
    let mut i: usize = 0;
    proof {
        assert(views(labels@) =~= all.take(0));
    }
    while i < parts.len()
        invariant
            i <= parts@.len(),
            views(parts@) == split(setting@, ','),
            all == labels_in(Some(setting@)),
            views(labels@) == all.take(i as int),
        decreases parts@.len() - i,
    {
        let ghost before = labels@;
        labels.push(trimmed(parts[i].as_str()));
        proof {
            assert(all.len() == parts@.len());
            assert(views(parts@)[i as int] == parts@[i as int]@);
            assert(all[i as int] == trim(parts@[i as int]@));
            assert(views(labels@) =~= views(before).push(all[i as int]));
            assert(all.take(i + 1) =~= all.take(i as int).push(all[i as int]));
        }
        i += 1;
    }
    proof {
        assert(all.take(i as int) =~= all);
    }
    labels
}

pub fn explore_options(
    site: Option<String>,
    goal: Option<String>,
    wait: Option<String>,
    auto_fuzz: bool,
    click: Option<String>,
) -> (r: ExploreOptions)
    ensures
        r.timeout == EXPLORE_TIMEOUT_SECONDS == 120,
        r.max_scrolls == EXPLORE_MAX_SCROLLS == 3,
        r.capture_network,
        r.wait_seconds == wait_in(opt_text(wait)),
        r.auto_fuzz == auto_fuzz,
        views(r.click_labels@) == labels_in(opt_text(click)),
        opt_text(r.goal) == opt_text(goal),
        opt_text(r.site_name) == opt_text(site),
{
    let wait_seconds = match &wait {
        Some(s) => match parse_number(s.as_str(), u64::MAX) {
            Some(seconds) => seconds,
            None => EXPLORE_WAIT_SECONDS,
        },
        None => EXPLORE_WAIT_SECONDS,
    };
    let click_labels = match &click {
        Some(s) => read_labels(s.as_str()),
        None => {
            let none: Vec<String> = Vec::new();
            proof {
                assert(views(none@) =~= Seq::empty());
            }
            none
        },
    };
    ExploreOptions {
        timeout: EXPLORE_TIMEOUT_SECONDS,
        max_scrolls: EXPLORE_MAX_SCROLLS,
        capture_network: true,
        wait_seconds,
        auto_fuzz,
        click_labels,
        goal,
        site_name: site,
    }
}

/// The file of an adapter: the directories that lead to it, and its name.
#[derive(Debug, PartialEq, Eq)]
pub struct AdapterFile {
    pub directories: Vec<String>,
    pub file: String,
}

/// The directory of the user: the first that is set, or the current one.
pub open spec fn home_of(home: Option<Seq<char>>, profile: Option<Seq<char>>) -> Seq<char> {
    match (home, profile) {
        (Some(h), _) => h,
        (None, Some(p)) => p,
        (None, None) => "."@,
    }
}

/// Where the adapter for a command of a site is saved.
pub fn adapter_file(
    home: Option<String>,
    profile: Option<String>,
    site: &str,
    name: &str,
) -> (r: AdapterFile)
    ensures
        views(r.directories@) == seq![
            home_of(opt_text(home), opt_text(profile)),
            ".opencli-rs"@,
            "adapters"@,
            site@,
        ],
        r.file@ == name@ + ".yaml"@,
{
    let ghost base = home_of(opt_text(home), opt_text(profile));
    let root = match home {
        Some(h) => h,
        None => match profile {
            Some(p) => p,
            None => ".".to_owned(),
        },
    };
    let mut directories: Vec<String> = Vec::new();
    directories.push(root);
    directories.push(".opencli-rs".to_owned());
    directories.push("adapters".to_owned());
    directories.push(site.to_owned());
    proof {
        assert(views(directories@) =~= seq![base, ".opencli-rs"@, "adapters"@, site@]);
    }
    AdapterFile { directories, file: join2(name, ".yaml") }
}

pub(crate) proof fn lemma_first_index(names: Seq<Seq<char>>, name: Seq<char>)
    ensures
        match first_index(names, name) {
            Some(i) => {
                &&& 0 <= i < names.len()
                &&& names[i] == name
                &&& forall|j: int| 0 <= j < i ==> #[trigger] names[j] != name
            },
            None => forall|j: int| 0 <= j < names.len() ==> #[trigger] names[j] != name,
        },
    decreases names.len(),
{
    if names.len() > 0 && names.first() != name {
        let rest = names.drop_first();
        lemma_first_index(rest, name);
        match first_index(rest, name) {
            Some(i) => {
                assert forall|j: int| 0 <= j < i + 1 implies #[trigger] names[j] != name by {
                    if j > 0 {
                        assert(rest[j - 1] == names[j]);
                    }
                }
            },
            None => {
                assert forall|j: int| 0 <= j < names.len() implies #[trigger] names[j] != name by {
                    if j > 0 {
                        assert(rest[j - 1] == names[j]);
                    }
                }
            },
        }
    }
}

/// Every utility is reached by its name, whatever sites and programs outside are called.
pub proof fn utilities_are_reached(
    sites: Seq<Site>,
    clis: Seq<ExternalCli>,
    command: Option<Seq<char>>,
    i: int,
)
    requires
        0 <= i < utility_layouts().len(),
    ensures
        route_of(sites, clis, utility_layouts()[i].name, command) == seq![
            Route::Doctor,
            Route::Completion,
            Route::Explore,
            Route::Cascade,
            Route::Generate,
            Route::Search,
            Route::Auth,
        ][i],
{
    reveal_strlit("doctor");
    reveal_strlit("completion");
    reveal_strlit("search");
    reveal_strlit("auth");
    reveal_strlit("explore");
    reveal_strlit("cascade");
    reveal_strlit("generate");
    assert("search"@[0] == 's' && "auth"@[0] == 'a' && "explore"@[0] == 'e');
    assert("doctor"@[0] == 'd' && "generate"@[0] == 'g');
    assert("completion"@[1] == 'o' && "cascade"@[1] == 'a' && "cascade"@[0] == 'c');
}

/// Every program outside is reached by its name, or one with the same name that comes before it,
/// unless a utility has the name.
pub proof fn external_programs_are_reached(
    registry: Registry,
    external_clis: Vec<ExternalCli>,
    command: Option<Seq<char>>,
    i: int,
)
    requires
        0 <= i < external_clis@.len(),
        utility(external_clis@[i].name@) is None,
    ensures
        route_of(
            registry.sites@,
            external_clis@,
            external_clis@[i].name@,
            command,
        ) matches Route::External(j) && j <= i && external_clis@[j as int].name@
            == external_clis@[i].name@,
{
    let names = names_of(external_clis@);
    assert(external_clis.len() == external_clis@.len());
    lemma_first_index(names, external_clis@[i].name@);
    assert(names[i] == external_clis@[i].name@);
    let j = first_index(names, external_clis@[i].name@)->0;
    assert(names[j] == external_clis@[j].name@);
}

/// Every command of every site is reached by the two names, or one with the same names, unless a
/// utility or a program outside has the name of the site, or an earlier site has it.
pub proof fn site_commands_are_reached(
    registry: Registry,
    external_clis: Vec<ExternalCli>,
    i: int,
    k: int,
)
    requires
        0 <= i < registry.sites@.len(),
        0 <= k < registry.sites@[i].commands@.len(),
        utility(registry.sites@[i].name@) is None,
        !names_of(external_clis@).contains(registry.sites@[i].name@),
        forall|j: int|
            0 <= j < i ==> (#[trigger] registry.sites@[j]).name@ != registry.sites@[i].name@,
    ensures
        route_of(
            registry.sites@,
            external_clis@,
            registry.sites@[i].name@,
            Some(registry.sites@[i].commands@[k].name@),
        ) matches Route::Command { site, command } && site == i && command <= k
            && registry.sites@[i].commands@[command as int].name@
            == registry.sites@[i].commands@[k].name@,
{
    let site = registry.sites@[i];
    let sites = names_of(registry.sites@);
    let commands = names_of(site.commands@);
    assert(registry.sites.len() == registry.sites@.len());
    assert(site.commands.len() == site.commands@.len());
    lemma_first_index(names_of(external_clis@), site.name@);
    lemma_first_index(sites, site.name@);
    lemma_first_index(commands, site.commands@[k].name@);
    assert(sites[i] == site.name@);
    assert(commands[k] == site.commands@[k].name@);
    let found = first_index(sites, site.name@)->0;
    assert(sites[found] == registry.sites@[found].name@);
    let at = first_index(commands, site.commands@[k].name@)->0;
    assert(commands[at] == site.commands@[at].name@);
}

/// A value that was given is passed on under the name of its argument.
pub proof fn given_values_are_passed_on(args: Seq<ArgDef>, values: Seq<Option<String>>, i: int)
    requires
        values.len() == args.len(),
        0 <= i < args.len(),
    ensures
        values[i] matches Some(value) ==> given_args(args, values).contains(
            (args[i].name@, value@),
        ),
    decreases args.len(),
{
    let rest = given_args(args.drop_last(), values.drop_last());
    if i < args.len() - 1 {
        given_values_are_passed_on(args.drop_last(), values.drop_last(), i);
        if let Some(value) = values[i] {
            let wanted = (args[i].name@, value@);
            let k = choose|k: int| 0 <= k < rest.len() && rest[k] == wanted;
            assert(given_args(args, values)[k] == wanted);
        }
    } else {
        if let Some(value) = values[i] {
            assert(given_args(args, values)[rest.len() as int] == (args[i].name@, value@));
        }
    }
}

/// Nothing is passed on that was not given.
pub proof fn passed_values_were_given(args: Seq<ArgDef>, values: Seq<Option<String>>, k: int)
    requires
        values.len() == args.len(),
        0 <= k < given_args(args, values).len(),
    ensures
        exists|i: int|
            0 <= i < args.len() && (#[trigger] values[i] matches Some(value) && given_args(
                args,
                values,
            )[k] == (args[i].name@, value@)),
    decreases args.len(),
{
    let rest = given_args(args.drop_last(), values.drop_last());
    if k < rest.len() {
        passed_values_were_given(args.drop_last(), values.drop_last(), k);
        let i = choose|i: int|
            0 <= i < args.len() - 1 && (#[trigger] values.drop_last()[i] matches Some(value)
                && rest[k] == (args.drop_last()[i].name@, value@));
        assert(values[i] == values.drop_last()[i]);
    } else {
        assert(values[args.len() - 1] == values.last());
    }
}

/// A port that is written out as the setting is the port that is read from it.
pub proof fn port_setting_is_read_back(port: u16)
    ensures
        port_in(Some(crate::text::decimal(port as nat))) == port,
{
    crate::text::decimal_is_read_back(port as nat);
}

} // verus!
