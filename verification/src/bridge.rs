//! The bridge to the browser: it finds or starts the daemon, and waits for the browser's extension
//! to connect to it.

use vstd::prelude::*;
use vstd::string::*;

use crate::error::{plain_error, CliError, ErrorKind, ErrorView};
use crate::text::{
    decimal, decimal_text, join2, join3, lines, lines_of, parse_number, parse_up_to, trim, trimmed,
    views,
};

verus! {

#[verifier::external_type_specification]
#[verifier::external_body]
pub struct ExChild(tokio::process::Child);

/// The port on which the daemon listens where nothing else is said.
pub const DEFAULT_PORT: u16 = 19825;

/// How long the daemon may take to start, in milliseconds.
pub const READY_TIMEOUT_MS: u64 = 10_000;

pub const READY_POLL_INTERVAL_MS: u64 = 200;

/// How long the extension may take to connect, in milliseconds.
pub const EXTENSION_TIMEOUT_MS: u64 = 15_000;

pub const EXTENSION_POLL_INTERVAL_MS: u64 = 500;

/// How long the port is left alone after its occupant was killed, in milliseconds.
pub const RELEASE_MS: u64 = 500;

/// The daemon's port, and the daemon itself where the bridge has started it.
#[derive(Debug)]
pub struct BrowserBridge {
    pub port: u16,
    pub daemon_process: Option<tokio::process::Child>,
}

/// Where a connection stands: what the next event is about.
#[derive(Debug, Clone, Copy, PartialEq, Eq, Structural)]
pub enum ConnectStage {
    /// Whether anything listens on the port.
    Running,
    /// Whether it is our daemon that listens.
    Ours,
    /// The killing of what listens.
    Killed,
    /// The wait for the port to become free.
    Released,
    /// The start of the daemon.
    Spawned,
    /// The start of the wait for the daemon.
    ReadyTimer,
    /// How long the wait for the daemon has taken.
    ReadyClock,
    /// Whether the daemon answers.
    ReadyProbe,
    /// The pause before the daemon is asked again.
    ReadyPause,
    /// The start of the wait for the extension.
    ExtensionTimer,
    /// How long the wait for the extension has taken.
    ExtensionClock,
    /// Whether the extension is connected.
    ExtensionProbe,
    /// The pause before the daemon is asked again.
    ExtensionPause,
}

/// What is to be done for a connection.
#[derive(Debug, Clone, Copy, PartialEq, Eq, Structural)]
pub enum ConnectAction {
    /// Ask whether anything answers on the port.
    IsRunning,
    /// Ask whether it is our daemon.
    IsOurs,
    /// Kill what listens on the port.
    KillOccupant,
    /// Start the daemon.
    Spawn,
    /// Start to measure a time.
    StartTimer,
    /// Tell how many milliseconds have passed since the timer was started.
    ReadTimer,
    /// Let some milliseconds pass.
    Sleep(u64),
    /// Ask whether the extension is connected.
    IsExtensionConnected,
}

/// What comes of it.
#[derive(Debug)]
pub enum ConnectEvent {
    Answer(bool),
    Done,
    Elapsed(u128),
    Spawned(tokio::process::Child),
    /// The program does not know its own file.
    NoExecutable(String),
    /// The daemon could not be started.
    NotSpawned(String),
}

/// How far a connection has come.
#[derive(Debug, PartialEq, Eq)]
pub enum ConnectProgress {
    /// Something is to be done, and the connection goes on from the stage.
    Ask(ConnectStage, ConnectAction),
    /// A page can be opened.
    Open,
    /// There is no connection.
    Failed(CliError),
}

/// The mathematical value of a [`ConnectProgress`].
pub ghost enum ConnectProgressView {
    Ask(ConnectStage, ConnectAction),
    Open,
    Failed(ErrorView),
}

impl View for ConnectProgress {
    type V = ConnectProgressView;

    open spec fn view(&self) -> ConnectProgressView {
        match self {
            ConnectProgress::Ask(stage, action) => ConnectProgressView::Ask(*stage, *action),
            ConnectProgress::Open => ConnectProgressView::Open,
            ConnectProgress::Failed(e) => ConnectProgressView::Failed(e@),
        }
    }
}

/// The events that can come of an action.
pub open spec fn comes_of(action: ConnectAction, event: ConnectEvent) -> bool {
    match event {
        ConnectEvent::Answer(_) => action is IsRunning || action is IsOurs
            || action is IsExtensionConnected,
        ConnectEvent::Done => action is KillOccupant || action is StartTimer || action is Sleep,
        ConnectEvent::Elapsed(_) => action is ReadTimer,
        ConnectEvent::Spawned(_)
        | ConnectEvent::NoExecutable(_)
        | ConnectEvent::NotSpawned(_) => action is Spawn,
    }
}

/// The error for an extension that does not connect.
pub open spec fn extension_error(port: u16) -> ErrorView {
    ErrorView {
        kind: ErrorKind::BrowserConnect,
        message: "Chrome extension not connected"@,
        suggestions: seq![
            "Install the OpenCLI Chrome extension"@,
            "Make sure Chrome is running with the extension enabled"@,
            "The daemon is listening on port "@ + decimal(port as nat),
        ],
    }
}

/// The error for a daemon that does not start in time.
pub open spec fn ready_error() -> ErrorView {
    plain_error(
        ErrorKind::Timeout,
        "Daemon did not become ready within "@ + decimal((READY_TIMEOUT_MS / 1000) as nat) + "s"@,
    )
}

impl ConnectStage {
    /// The events that can come at this stage.
    pub open spec fn accepts(self, event: ConnectEvent) -> bool {
        match event {
            ConnectEvent::Answer(_) => match self {
                ConnectStage::Running
                | ConnectStage::Ours
                | ConnectStage::ReadyProbe
                | ConnectStage::ExtensionProbe => true,
                _ => false,
            },
            ConnectEvent::Done => match self {
                ConnectStage::Killed
                | ConnectStage::Released
                | ConnectStage::ReadyTimer
                | ConnectStage::ReadyPause
                | ConnectStage::ExtensionTimer
                | ConnectStage::ExtensionPause => true,
                _ => false,
            },
            ConnectEvent::Elapsed(_) => self is ReadyClock || self is ExtensionClock,
            ConnectEvent::Spawned(_)
            | ConnectEvent::NoExecutable(_)
            | ConnectEvent::NotSpawned(_) => self is Spawned,
        }
    }

    /// What an event makes of the connection.
    pub open spec fn next(self, port: u16, event: ConnectEvent) -> ConnectProgressView {
        match event {
            ConnectEvent::NoExecutable(e) => ConnectProgressView::Failed(
                plain_error(
                    ErrorKind::BrowserConnect,
                    "Cannot determine current executable: "@ + e@,
                ),
            ),
            ConnectEvent::NotSpawned(e) => ConnectProgressView::Failed(
                plain_error(ErrorKind::BrowserConnect, "Failed to spawn daemon: "@ + e@),
            ),
            ConnectEvent::Spawned(_) => ConnectProgressView::Ask(
                ConnectStage::ReadyTimer,
                ConnectAction::StartTimer,
            ),
            ConnectEvent::Answer(yes) => match (self, yes) {
                (ConnectStage::Running, true) => ConnectProgressView::Ask(
                    ConnectStage::Ours,
                    ConnectAction::IsOurs,
                ),
                (ConnectStage::Running, false) => ConnectProgressView::Ask(
                    ConnectStage::Spawned,
                    ConnectAction::Spawn,
                ),
                (ConnectStage::Ours, true) => ConnectProgressView::Ask(
                    ConnectStage::ExtensionTimer,
                    ConnectAction::StartTimer,
                ),
                (ConnectStage::Ours, false) => ConnectProgressView::Ask(
                    ConnectStage::Killed,
                    ConnectAction::KillOccupant,
                ),
                (ConnectStage::ReadyProbe, true) => ConnectProgressView::Ask(
                    ConnectStage::ExtensionTimer,
                    ConnectAction::StartTimer,
                ),
                (ConnectStage::ReadyProbe, false) => ConnectProgressView::Ask(
                    ConnectStage::ReadyPause,
                    ConnectAction::Sleep(READY_POLL_INTERVAL_MS),
                ),
                (_, true) => ConnectProgressView::Open,
                (_, false) => ConnectProgressView::Ask(
                    ConnectStage::ExtensionPause,
                    ConnectAction::Sleep(EXTENSION_POLL_INTERVAL_MS),
                ),
            },
            ConnectEvent::Elapsed(ms) => match self {
                ConnectStage::ReadyClock => if ms < READY_TIMEOUT_MS {
                    ConnectProgressView::Ask(ConnectStage::ReadyProbe, ConnectAction::IsRunning)
                } else {
                    ConnectProgressView::Failed(ready_error())
                },
                _ => if ms < EXTENSION_TIMEOUT_MS {
                    ConnectProgressView::Ask(
                        ConnectStage::ExtensionProbe,
                        ConnectAction::IsExtensionConnected,
                    )
                } else {
                    ConnectProgressView::Failed(extension_error(port))
                },
            },
            ConnectEvent::Done => match self {
                ConnectStage::Killed => ConnectProgressView::Ask(
                    ConnectStage::Released,
                    ConnectAction::Sleep(RELEASE_MS),
                ),
                ConnectStage::Released => ConnectProgressView::Ask(
                    ConnectStage::Spawned,
                    ConnectAction::Spawn,
                ),
                ConnectStage::ReadyTimer | ConnectStage::ReadyPause => ConnectProgressView::Ask(
                    ConnectStage::ReadyClock,
                    ConnectAction::ReadTimer,
                ),
                _ => ConnectProgressView::Ask(
                    ConnectStage::ExtensionClock,
                    ConnectAction::ReadTimer,
                ),
            },
        }
    }
}

/// The daemon that a bridge has started, once an event has come: the last one.
pub open spec fn daemon_after(
    before: Option<tokio::process::Child>,
    event: ConnectEvent,
) -> Option<tokio::process::Child> {
    match event {
        ConnectEvent::Spawned(child) => Some(child),
        _ => before,
    }
}

/// The daemon that a new bridge has started, once some events have come.
pub open spec fn daemon_after_all(events: Seq<ConnectEvent>) -> Option<tokio::process::Child>
    decreases events.len(),
{
    if events.len() == 0 {
        None
    } else {
        daemon_after(daemon_after_all(events.drop_last()), events.last())
    }
}

fn extension_missing(port: u16) -> (r: CliError)
    ensures
        r@ == extension_error(port),
{
    let mut suggestions: Vec<String> = Vec::new();
    suggestions.push("Install the OpenCLI Chrome extension".to_owned());
    suggestions.push("Make sure Chrome is running with the extension enabled".to_owned());
    suggestions.push(
        join2("The daemon is listening on port ", decimal_text(port as u64).as_str()),
    );
    let r = CliError {
        kind: ErrorKind::BrowserConnect,
        message: "Chrome extension not connected".to_owned(),
        suggestions,
    };
    proof {
        assert(r@.suggestions =~= extension_error(port).suggestions);
    }
    r
}

impl BrowserBridge {
    /// A bridge that has started no daemon.
    pub fn new(port: u16) -> (r: BrowserBridge)
        ensures
            r.port == port,
            r.daemon_process is None,
    {
        BrowserBridge { port, daemon_process: None }
    }

    /// A bridge on the default port.
    pub fn default_port() -> (r: BrowserBridge)
        ensures
            r.port == DEFAULT_PORT == 19825,
            r.daemon_process is None,
    {
        BrowserBridge::new(DEFAULT_PORT)
    }

    /// Starts a connection.
    pub fn connect(&self) -> (r: ConnectProgress)
        ensures
            r@ == ConnectProgressView::Ask(ConnectStage::Running, ConnectAction::IsRunning),
    {
        ConnectProgress::Ask(ConnectStage::Running, ConnectAction::IsRunning)
    }

    /// Takes a connection on by one event. A daemon that was started is kept.
    pub fn resume(&mut self, stage: ConnectStage, event: ConnectEvent) -> (r: ConnectProgress)
        requires
            stage.accepts(event),
        ensures
            r@ == stage.next(old(self).port, event),
            final(self).port == old(self).port,
            final(self).daemon_process == daemon_after(old(self).daemon_process, event),
    {
        match event {
            ConnectEvent::NoExecutable(e) => ConnectProgress::Failed(
                CliError::browser_connect(
                    join2("Cannot determine current executable: ", e.as_str()).as_str(),
                ),
            ),
            ConnectEvent::NotSpawned(e) => ConnectProgress::Failed(
                CliError::browser_connect(join2("Failed to spawn daemon: ", e.as_str()).as_str()),
            ),
            ConnectEvent::Spawned(child) => {
                self.daemon_process = Some(child);
                ConnectProgress::Ask(ConnectStage::ReadyTimer, ConnectAction::StartTimer)
            },
            ConnectEvent::Answer(yes) => match stage {
                ConnectStage::Running => {
                    if yes {
                        ConnectProgress::Ask(ConnectStage::Ours, ConnectAction::IsOurs)
                    } else {
                        ConnectProgress::Ask(ConnectStage::Spawned, ConnectAction::Spawn)
                    }
                },
                ConnectStage::Ours => {
                    if yes {
                        ConnectProgress::Ask(
                            ConnectStage::ExtensionTimer,
                            ConnectAction::StartTimer,
                        )
                    } else {
                        ConnectProgress::Ask(ConnectStage::Killed, ConnectAction::KillOccupant)
                    }
                },
                ConnectStage::ReadyProbe => {
                    if yes {
                        ConnectProgress::Ask(
                            ConnectStage::ExtensionTimer,
                            ConnectAction::StartTimer,
                        )
                    } else {
                        ConnectProgress::Ask(
                            ConnectStage::ReadyPause,
                            ConnectAction::Sleep(READY_POLL_INTERVAL_MS),
                        )
                    }
                },
                _ => {
                    if yes {
                        ConnectProgress::Open
                    } else {
                        ConnectProgress::Ask(
                            ConnectStage::ExtensionPause,
                            ConnectAction::Sleep(EXTENSION_POLL_INTERVAL_MS),
                        )
                    }
                },
            },
            ConnectEvent::Elapsed(ms) => match stage {
                ConnectStage::ReadyClock => {
                    if ms < READY_TIMEOUT_MS as u128 {
                        ConnectProgress::Ask(ConnectStage::ReadyProbe, ConnectAction::IsRunning)
                    } else {
                        let seconds = decimal_text(READY_TIMEOUT_MS / 1000);
                        let message = join3(
                            "Daemon did not become ready within ",
                            seconds.as_str(),
                            "s",
                        );
                        ConnectProgress::Failed(CliError::timeout(message.as_str()))
                    }
                },
                _ => {
                    if ms < EXTENSION_TIMEOUT_MS as u128 {
                        ConnectProgress::Ask(
                            ConnectStage::ExtensionProbe,
                            ConnectAction::IsExtensionConnected,
                        )
                    } else {
                        ConnectProgress::Failed(extension_missing(self.port))
                    }
                },
            },
            ConnectEvent::Done => match stage {
                ConnectStage::Killed => ConnectProgress::Ask(
                    ConnectStage::Released,
                    ConnectAction::Sleep(RELEASE_MS),
                ),
                ConnectStage::Released => ConnectProgress::Ask(
                    ConnectStage::Spawned,
                    ConnectAction::Spawn,
                ),
                ConnectStage::ReadyTimer => ConnectProgress::Ask(
                    ConnectStage::ReadyClock,
                    ConnectAction::ReadTimer,
                ),
                ConnectStage::ReadyPause => ConnectProgress::Ask(
                    ConnectStage::ReadyClock,
                    ConnectAction::ReadTimer,
                ),
                _ => ConnectProgress::Ask(ConnectStage::ExtensionClock, ConnectAction::ReadTimer),
            },
        }
    }

    /// Closes the bridge, and hands over the daemon that is to be killed, if the bridge has
    /// started one.
    pub fn close(&mut self) -> (r: Option<tokio::process::Child>)
        ensures
            r == old(self).daemon_process,
            final(self).daemon_process is None,
            final(self).port == old(self).port,
    {
        self.daemon_process.take()
    }

    /// The arguments with which this program is started as the daemon.
    pub fn daemon_args(&self) -> (r: Vec<String>)
        ensures
            views(r@) == seq!["--daemon"@, "--port"@, decimal(self.port as nat)],
    {
        let mut args: Vec<String> = Vec::new();
        args.push("--daemon".to_owned());
        args.push("--port".to_owned());
        args.push(decimal_text(self.port as u64));
        proof {
            assert(views(args@) =~= seq!["--daemon"@, "--port"@, decimal(self.port as nat)]);
        }
        args
    }

    /// The arguments with which `lsof` lists the processes on the port.
    pub fn occupant_query(&self) -> (r: Vec<String>)
        ensures
            views(r@) == seq!["-ti"@, "tcp:"@ + decimal(self.port as nat)],
    {
        let mut args: Vec<String> = Vec::new();
        args.push("-ti".to_owned());
        args.push(join2("tcp:", decimal_text(self.port as u64).as_str()));
        proof {
            assert(views(args@) =~= seq!["-ti"@, "tcp:"@ + decimal(self.port as nat)]);
        }
        args
    }
}

/// The process ids among some lines: those lines that hold a number of 32 bits and nothing else
/// but white space.
pub open spec fn pids_in(lines: Seq<Seq<char>>) -> Seq<u32>
    decreases lines.len(),
{
    if lines.len() == 0 {
        Seq::empty()
    } else {
        let rest = pids_in(lines.drop_last());
        match parse_up_to(trim(lines.last()), u32::MAX as nat) {
            Some(pid) => rest.push(pid as u32),
            None => rest,
        }
    }
}

/// The processes that a listing of `lsof` names, in its order.
pub fn occupant_pids(listing: &str) -> (r: Vec<u32>)
    ensures
        r@ == pids_in(lines(trim(listing@))),
{
    let all = lines_of(trimmed(listing).as_str());
    let ghost text = lines(trim(listing@));
    let mut pids: Vec<u32> = Vec::new();
    let mut i: usize = 0;
    while i < all.len()
        invariant
            i <= all@.len(),
            views(all@) == text,
            pids@ == pids_in(text.take(i as int)),
        decreases all@.len() - i,
    {
        proof {
            assert(text.take(i + 1).drop_last() =~= text.take(i as int));
            assert(text.take(i + 1).last() == all@[i as int]@);
        }
        match parse_number(trimmed(all[i].as_str()).as_str(), u32::MAX as u64) {
            Some(pid) => {
                pids.push(pid as u32);
            },
            None => {},
        }
        i += 1;
    }
    proof {
        assert(text.take(i as int) =~= text);
    }
    pids
}

/// Whatever comes of what a connection asks for, it can go on with it.
pub proof fn connection_can_go_on(
    before: ConnectStage,
    port: u16,
    event: ConnectEvent,
    stage: ConnectStage,
    action: ConnectAction,
    outcome: ConnectEvent,
)
    requires
        before.accepts(event),
        before.next(port, event) == ConnectProgressView::Ask(stage, action),
        comes_of(action, outcome),
    ensures
        stage.accepts(outcome),
{
}

/// A page is opened when the extension is connected, and never otherwise.
pub proof fn open_means_connected(stage: ConnectStage, port: u16, event: ConnectEvent)
    requires
        stage.accepts(event),
    ensures
        stage.next(port, event) == ConnectProgressView::Open <==> (stage
            == ConnectStage::ExtensionProbe && event == ConnectEvent::Answer(true)),
{
}

/// What listens on the port is killed only if it is not our daemon, and then the port is given
/// time before a daemon is started on it.
pub proof fn only_a_foreign_daemon_is_killed(stage: ConnectStage, port: u16, event: ConnectEvent)
    requires
        stage.accepts(event),
    ensures
        stage.next(port, event) == ConnectProgressView::Ask(
            ConnectStage::Killed,
            ConnectAction::KillOccupant,
        ) <==> (stage == ConnectStage::Ours && event == ConnectEvent::Answer(false)),
        stage.next(port, event) matches ConnectProgressView::Ask(_, action) && action
            == ConnectAction::KillOccupant ==> stage == ConnectStage::Ours,
        ConnectStage::Killed.next(port, ConnectEvent::Done) == ConnectProgressView::Ask(
            ConnectStage::Released,
            ConnectAction::Sleep(RELEASE_MS),
        ),
        ConnectStage::Released.next(port, ConnectEvent::Done) == ConnectProgressView::Ask(
            ConnectStage::Spawned,
            ConnectAction::Spawn,
        ),
{
}

/// A daemon is started where nothing listens, or where what listened was killed, and nowhere
/// else.
pub proof fn daemon_is_started_on_a_free_port(stage: ConnectStage, port: u16, event: ConnectEvent)
    requires
        stage.accepts(event),
    ensures
        stage.next(port, event) == ConnectProgressView::Ask(
            ConnectStage::Spawned,
            ConnectAction::Spawn,
        ) <==> ((stage == ConnectStage::Running && event == ConnectEvent::Answer(false)) || (stage
            == ConnectStage::Released && event == ConnectEvent::Done)),
{
}

/// A wait that has taken as long as it may is over: for the daemon with one error, for the
/// extension with another.
pub proof fn waits_end(port: u16, ms: u128)
    ensures
        ms >= READY_TIMEOUT_MS ==> ConnectStage::ReadyClock.next(port, ConnectEvent::Elapsed(ms))
            == ConnectProgressView::Failed(ready_error()),
        ms >= EXTENSION_TIMEOUT_MS ==> ConnectStage::ExtensionClock.next(
            port,
            ConnectEvent::Elapsed(ms),
        ) == ConnectProgressView::Failed(extension_error(port)),
{
}

/// The daemon that a bridge kills in the end is one that it has started itself, and where it has
/// started one there is one to kill.
pub proof fn only_own_daemons_are_kept(events: Seq<ConnectEvent>)
    ensures
        match daemon_after_all(events) {
            Some(child) => events.contains(ConnectEvent::Spawned(child)),
            None => forall|i: int| 0 <= i < events.len() ==> !(#[trigger] events[i] is Spawned),
        },
    decreases events.len(),
{
    if events.len() > 0 {
        let rest = events.drop_last();
        only_own_daemons_are_kept(rest);
        match events.last() {
            ConnectEvent::Spawned(child) => {
                assert(events[events.len() - 1] == ConnectEvent::Spawned(child));
            },
            _ => match daemon_after_all(rest) {
                Some(child) => {
                    let i = choose|i: int|
                        0 <= i < rest.len() && rest[i] == ConnectEvent::Spawned(child);
                    assert(events[i] == ConnectEvent::Spawned(child));
                },
                None => {
                    assert forall|i: int| 0 <= i < events.len() implies !(
                    #[trigger] events[i] is Spawned) by {
                        if i < rest.len() {
                            assert(rest[i] == events[i]);
                        }
                    }
                },
            },
        }
    }
}

} // verus!
