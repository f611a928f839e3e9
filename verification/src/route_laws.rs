//! What holds of the settings that a command line and its surroundings give.

use vstd::prelude::*;

use crate::cli::{ArgDef, ExternalCli, Site};
use crate::route::{
    first_index, given_args, home_of, labels_in, passed_on, port_in, registered, route_of, utility,
    wait_in, Named, Route,
};
use crate::text::{parse_up_to, split, trim};

verus! {

/// The first of the names that is the name is found, and none where none is.
pub proof fn first_name_is_found(
    before: Seq<Seq<char>>,
    name: Seq<char>,
    after: Seq<Seq<char>>,
    others: Seq<Seq<char>>,
)
    requires
        !before.contains(name),
        !others.contains(name),
    ensures
        first_index(before + seq![name] + after, name) == Some(before.len() as int),
        first_index(others, name) is None,
{
    let all = before + seq![name] + after;
    crate::route::lemma_first_index(all, name);
    crate::route::lemma_first_index(others, name);
    assert(all[before.len() as int] == name);
    if let Some(i) = first_index(all, name) {
        if i < before.len() {
            assert(before[i] == name);
        }
    }
}

/// A name that no utility, no program outside and no site has is no command, whatever follows it.
pub proof fn unknown_names_are_no_commands(
    sites: Seq<Site>,
    clis: Seq<ExternalCli>,
    name: Seq<char>,
    command: Seq<char>,
)
    requires
        utility(name) is None,
        forall|i: int| 0 <= i < clis.len() ==> (#[trigger] clis[i]).name@ != name,
        forall|i: int| 0 <= i < sites.len() ==> (#[trigger] sites[i]).name@ != name,
    ensures
        route_of(sites, clis, name, Some(command)) == Route::UnknownCommand,
        route_of(sites, clis, name, None) == Route::SiteHelp,
        registered(sites, name, command) is None,
{
    let programs = crate::route::names_of(clis);
    let places = crate::route::names_of(sites);
    crate::route::lemma_first_index(programs, name);
    crate::route::lemma_first_index(places, name);
    if let Some(i) = first_index(programs, name) {
        assert(programs[i] == clis[i].name@);
    }
    if let Some(i) = first_index(places, name) {
        assert(places[i] == sites[i].name@);
    }
}

/// The utilities are the seven commands that the program brings along, each reached by its own
/// name.
pub proof fn utilities_are_these(name: Seq<char>)
    ensures
        utility("doctor"@) == Some(Route::Doctor),
        utility("completion"@) == Some(Route::Completion),
        utility("search"@) == Some(Route::Search),
        utility("auth"@) == Some(Route::Auth),
        utility("explore"@) == Some(Route::Explore),
        utility("cascade"@) == Some(Route::Cascade),
        utility("generate"@) == Some(Route::Generate),
        utility(name) is Some ==> name == "doctor"@ || name == "completion"@ || name == "search"@
            || name == "auth"@ || name == "explore"@ || name == "cascade"@ || name == "generate"@,
{
    reveal_strlit("doctor");
    reveal_strlit("completion");
    reveal_strlit("search");
    reveal_strlit("auth");
    reveal_strlit("explore");
    reveal_strlit("cascade");
    reveal_strlit("generate");
    assert("search"@[0] == 's' && "auth"@[0] == 'a' && "explore"@[0] == 'e');
    assert("doctor"@[0] == 'd' && "generate"@[0] == 'g');
    assert("completion"@[1] == 'o' && "cascade"@[1] == 'a' && "cascade"@[0] == 'c');
}

/// The arguments of two lists are those of the one and then those of the other.
pub proof fn arguments_are_collected_in_order(
    args: Seq<ArgDef>,
    values: Seq<Option<String>>,
    arg: ArgDef,
    value: Option<String>,
)
    requires
        args.len() == values.len(),
    ensures
        given_args(Seq::<ArgDef>::empty(), Seq::<Option<String>>::empty()).len() == 0,
        given_args(args.push(arg), values.push(value)) == match value {
            Some(text) => given_args(args, values).push((arg.name@, text@)),
            None => given_args(args, values),
        },
{
    assert(args.push(arg).drop_last() =~= args);
    assert(values.push(value).drop_last() =~= values);
}

/// A program outside gets the name that follows its own, and then the rest, as they are.
pub proof fn arguments_are_passed_on(name: Seq<char>, rest: Seq<Seq<char>>, i: int)
    ensures
        passed_on(None).len() == 0,
        passed_on(Some((name, rest))).len() == rest.len() + 1,
        passed_on(Some((name, rest)))[0] == name,
        0 <= i < rest.len() ==> passed_on(Some((name, rest)))[i + 1] == rest[i],
{
}

/// A setting that is a port is the port; any other, and none, stand for 19825.
pub proof fn ports_are_read(setting: Seq<char>)
    ensures
        match parse_up_to(setting, 65535) {
            Some(port) => port_in(Some(setting)) == port,
            None => port_in(Some(setting)) == 19825,
        },
        port_in(None) == 19825,
{
}

/// A setting that is a number of seconds is the time to wait; any other, and none, stand for three.
pub proof fn waits_are_read(setting: Seq<char>, seconds: u64)
    ensures
        match parse_up_to(setting, 0xffff_ffff_ffff_ffff) {
            Some(n) => wait_in(Some(setting)) == n,
            None => wait_in(Some(setting)) == 3,
        },
        wait_in(None) == 3,
        wait_in(Some(crate::text::decimal(seconds as nat))) == seconds,
{
    crate::text::decimal_is_read_back(seconds as nat);
}

/// The labels are the pieces between the commas, each trimmed; there are none without a setting.
pub proof fn labels_are_pieces(setting: Seq<char>, i: int)
    ensures
        labels_in(None).len() == 0,
        labels_in(Some(setting)).len() == split(setting, ',').len(),
        0 <= i < split(setting, ',').len() ==> labels_in(Some(setting))[i] == trim(
            split(setting, ',')[i],
        ),
{
}

/// The directory of the user is the first of the two that is set, and otherwise the current one.
pub proof fn home_is_the_first_that_is_set(home: Seq<char>, profile: Option<Seq<char>>)
    ensures
        home_of(Some(home), profile) == home,
        home_of(None, Some(home)) == home,
        home_of(None, None) == "."@,
{
}

/// Sites, commands and programs outside go by their own names.
pub proof fn names_are_their_own(site: Site, cli: ExternalCli, command: crate::cli::CliCommand)
    ensures
        site.known_as() == site.name@,
        cli.known_as() == cli.name@,
        command.known_as() == command.name@,
{
}

} // verus!
