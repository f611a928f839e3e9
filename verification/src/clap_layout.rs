//! The command line as `clap` holds it. Verified code cannot look into a `clap` command or
//! argument, so two names say what they were given, and every builder method is stated over them.

use vstd::prelude::*;

verus! {

#[verifier::external_type_specification]
#[verifier::external_body]
pub struct ExCommand(clap::Command);

#[verifier::external_type_specification]
#[verifier::external_body]
pub struct ExArg(clap::Arg);

/// What an argument was given.
pub ghost struct ArgLayout {
    pub id: Seq<char>,
    pub long: Option<Seq<char>>,
    pub short: Option<char>,
    pub help: Option<Seq<char>>,
    pub required: bool,
    pub global: bool,
    pub default: Option<Seq<char>>,
    /// It takes no value: to name it is to set it.
    pub switch: bool,
    /// Its value is the name of a shell.
    pub shell: bool,
}

/// What a command was given. Arguments and subcommands stand in the order in which they were
/// added.
pub ghost struct CommandLayout {
    pub name: Seq<char>,
    pub version: Option<Seq<char>>,
    pub about: Option<Seq<char>>,
    pub args: Seq<ArgLayout>,
    pub subcommands: Seq<CommandLayout>,
    /// Subcommands that it does not know are taken as they come.
    pub external: bool,
}

pub open spec fn bare_arg(id: Seq<char>) -> ArgLayout {
    ArgLayout {
        id,
        long: None,
        short: None,
        help: None,
        required: false,
        global: false,
        default: None,
        switch: false,
        shell: false,
    }
}

pub open spec fn bare_command(name: Seq<char>) -> CommandLayout {
    CommandLayout {
        name,
        version: None,
        about: None,
        args: Seq::empty(),
        subcommands: Seq::empty(),
        external: false,
    }
}

/// What a `clap::Arg` holds.
pub uninterp spec fn arg_layout(arg: clap::Arg) -> ArgLayout;

/// What a `clap::Command` holds.
pub uninterp spec fn command_layout(command: clap::Command) -> CommandLayout;

/// `clap::Arg::new`: an argument with that id and nothing else.
#[verifier::external_body]
pub(crate) fn arg_new(id: &str) -> (r: clap::Arg)
    ensures
        arg_layout(r) == bare_arg(id@),
{
    clap::Arg::new(id.to_string())
}

/// `clap::Arg::long` sets the long flag.
#[verifier::external_body]
pub(crate) fn arg_long(arg: clap::Arg, long: &str) -> (r: clap::Arg)
    ensures
        arg_layout(r) == (ArgLayout { long: Some(long@), ..arg_layout(arg) }),
{
    arg.long(long.to_string())
}

/// `clap::Arg::short` sets the short flag, which may not be a hyphen.
#[verifier::external_body]
pub(crate) fn arg_short(arg: clap::Arg, short: char) -> (r: clap::Arg)
    requires
        short != '-',
    ensures
        arg_layout(r) == (ArgLayout { short: Some(short), ..arg_layout(arg) }),
{
    arg.short(short)
}

/// `clap::Arg::help` sets the description.
#[verifier::external_body]
pub(crate) fn arg_help(arg: clap::Arg, help: &str) -> (r: clap::Arg)
    ensures
        arg_layout(r) == (ArgLayout { help: Some(help@), ..arg_layout(arg) }),
{
    arg.help(help.to_string())
}

/// `clap::Arg::required` with `true`: the argument has to be there.
#[verifier::external_body]
pub(crate) fn arg_required(arg: clap::Arg) -> (r: clap::Arg)
    ensures
        arg_layout(r) == (ArgLayout { required: true, ..arg_layout(arg) }),
{
    arg.required(true)
}

/// `clap::Arg::global` with `true`: the argument is there for every subcommand too.
#[verifier::external_body]
pub(crate) fn arg_global(arg: clap::Arg) -> (r: clap::Arg)
    ensures
        arg_layout(r) == (ArgLayout { global: true, ..arg_layout(arg) }),
{
    arg.global(true)
}

/// `clap::Arg::default_value` sets the value for an argument that is not there.
#[verifier::external_body]
pub(crate) fn arg_default(arg: clap::Arg, default: &str) -> (r: clap::Arg)
    ensures
        arg_layout(r) == (ArgLayout { default: Some(default@), ..arg_layout(arg) }),
{
    arg.default_value(default.to_string())
}

/// `clap::Arg::action` with `SetTrue`: the argument is a switch.
#[verifier::external_body]
pub(crate) fn arg_switch(arg: clap::Arg) -> (r: clap::Arg)
    ensures
        arg_layout(r) == (ArgLayout { switch: true, ..arg_layout(arg) }),
{
    arg.action(clap::ArgAction::SetTrue)
}

/// `clap::Arg::value_parser` with the parser for `clap_complete::Shell`: the value is a shell.
#[verifier::external_body]
pub(crate) fn arg_shell(arg: clap::Arg) -> (r: clap::Arg)
    ensures
        arg_layout(r) == (ArgLayout { shell: true, ..arg_layout(arg) }),
{
    arg.value_parser(clap::builder::EnumValueParser::<clap_complete::Shell>::new())
}

/// `clap::Command::new`: a command with that name and nothing else.
#[verifier::external_body]
pub(crate) fn command_new(name: &str) -> (r: clap::Command)
    ensures
        command_layout(r) == bare_command(name@),
{
    clap::Command::new(name.to_string())
}

/// `clap::Command::version` sets the version.
#[verifier::external_body]
pub(crate) fn command_version(command: clap::Command, version: &str) -> (r: clap::Command)
    ensures
        command_layout(r) == (CommandLayout { version: Some(version@), ..command_layout(command) }),
{
    command.version(version.to_string())
}

/// `clap::Command::about` sets the description.
#[verifier::external_body]
pub(crate) fn command_about(command: clap::Command, about: &str) -> (r: clap::Command)
    ensures
        command_layout(r) == (CommandLayout { about: Some(about@), ..command_layout(command) }),
{
    command.about(about.to_string())
}

/// `clap::Command::arg` adds an argument behind those that are there.
#[verifier::external_body]
pub(crate) fn command_arg(command: clap::Command, arg: clap::Arg) -> (r: clap::Command)
    ensures
        command_layout(r) == (CommandLayout {
            args: command_layout(command).args.push(arg_layout(arg)),
            ..command_layout(command)
        }),
{
    command.arg(arg)
}

/// `clap::Command::subcommand` adds a subcommand behind those that are there.
#[verifier::external_body]
pub(crate) fn command_subcommand(
    command: clap::Command,
    subcommand: clap::Command,
) -> (r: clap::Command)
    ensures
        command_layout(r) == (CommandLayout {
            subcommands: command_layout(command).subcommands.push(command_layout(subcommand)),
            ..command_layout(command)
        }),
{
    command.subcommand(subcommand)
}

/// `clap::Command::allow_external_subcommands` with `true`.
#[verifier::external_body]
pub(crate) fn command_external(command: clap::Command) -> (r: clap::Command)
    ensures
        command_layout(r) == (CommandLayout { external: true, ..command_layout(command) }),
{
    command.allow_external_subcommands(true)
}

} // verus!
