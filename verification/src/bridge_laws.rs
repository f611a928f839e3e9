//! What holds of a connection as a whole, from the first question to the page.

use vstd::prelude::*;

use crate::bridge::{
    daemon_after, pids_in, ready_error, ConnectAction, ConnectEvent,
    ConnectProgressView, ConnectStage,
};
use crate::error::ErrorKind;
use crate::text::{decimal, parse_up_to, trim};

verus! {

/// How far a connection comes from a stage with these events, one after the other. What is left
/// over when the connection has ended is not looked at.
pub open spec fn connected(
    from: ConnectStage,
    port: u16,
    events: Seq<ConnectEvent>,
) -> ConnectProgressView
    decreases events.len(),
{
    match from.next(port, events[0]) {
        ConnectProgressView::Ask(stage, action) => if events.len() > 1 {
            connected(stage, port, events.drop_first())
        } else {
            ConnectProgressView::Ask(stage, action)
        },
        end => end,
    }
}

/// What a connection asks for on its way with these events.
pub open spec fn asked(
    from: ConnectStage,
    port: u16,
    events: Seq<ConnectEvent>,
) -> Seq<ConnectAction>
    decreases events.len(),
{
    if events.len() == 0 {
        Seq::empty()
    } else {
        match from.next(port, events[0]) {
            ConnectProgressView::Ask(stage, action) => seq![action] + asked(
                stage,
                port,
                events.drop_first(),
            ),
            _ => Seq::empty(),
        }
    }
}

/// A connection fails where the daemon cannot be started, or where a wait has taken its time: ten
/// seconds for the daemon, fifteen for the extension. Nothing else makes it fail.
pub proof fn connections_fail_for_these_reasons_only(
    stage: ConnectStage,
    port: u16,
    event: ConnectEvent,
)
    requires
        stage.accepts(event),
    ensures
        stage.next(port, event) is Failed <==> match event {
            ConnectEvent::NoExecutable(_) | ConnectEvent::NotSpawned(_) => true,
            ConnectEvent::Elapsed(ms) => (stage is ReadyClock && ms >= 10_000) || (
            stage is ExtensionClock && ms >= 15_000),
            _ => false,
        },
{
}

/// The errors say what went wrong.
pub proof fn connection_errors_say_why(
    stage: ConnectStage,
    port: u16,
    event: ConnectEvent,
    error: crate::error::ErrorView,
)
    requires
        stage.accepts(event),
        stage.next(port, event) == ConnectProgressView::Failed(error),
    ensures
        match event {
            ConnectEvent::NoExecutable(e) => {
                &&& error.kind == ErrorKind::BrowserConnect
                &&& error.message == "Cannot determine current executable: "@ + e@
                &&& error.suggestions.len() == 0
            },
            ConnectEvent::NotSpawned(e) => {
                &&& error.kind == ErrorKind::BrowserConnect
                &&& error.message == "Failed to spawn daemon: "@ + e@
                &&& error.suggestions.len() == 0
            },
            _ => if stage is ReadyClock {
                &&& error.kind == ErrorKind::Timeout
                &&& error.message == "Daemon did not become ready within 10s"@
                &&& error.suggestions.len() == 0
            } else {
                &&& error.kind == ErrorKind::BrowserConnect
                &&& error.message == "Chrome extension not connected"@
                &&& error.suggestions.len() == 3
                &&& error.suggestions[0] == "Install the OpenCLI Chrome extension"@
                &&& error.suggestions[1]
                    == "Make sure Chrome is running with the extension enabled"@
                &&& error.suggestions[2] == "The daemon is listening on port "@ + decimal(
                    port as nat,
                )
            },
        },
{
    reveal_strlit("Daemon did not become ready within ");
    reveal_strlit("s");
    reveal_strlit("Daemon did not become ready within 10s");
    reveal_with_fuel(decimal, 3);
    assert(decimal(10) =~= seq!['1', '0']);
    assert(ready_error().message =~= "Daemon did not become ready within 10s"@);
}

/// A daemon that was started is given its time.
pub proof fn started_daemon_is_waited_for(
    stage: ConnectStage,
    port: u16,
    child: tokio::process::Child,
    ms: u128,
)
    requires
        stage.accepts(ConnectEvent::Spawned(child)),
        ms < 10_000,
    ensures
        connected(
            stage,
            port,
            seq![ConnectEvent::Spawned(child), ConnectEvent::Done, ConnectEvent::Elapsed(ms)],
        ) == ConnectProgressView::Ask(ConnectStage::ReadyProbe, ConnectAction::IsRunning),
        asked(
            stage,
            port,
            seq![ConnectEvent::Spawned(child), ConnectEvent::Done, ConnectEvent::Elapsed(ms)],
        ) == seq![ConnectAction::StartTimer, ConnectAction::ReadTimer, ConnectAction::IsRunning],
{
    reveal_with_fuel(connected, 4);
    reveal_with_fuel(asked, 4);
    let events = seq![ConnectEvent::Spawned(child), ConnectEvent::Done, ConnectEvent::Elapsed(ms)];
    assert(events.drop_first() =~= seq![ConnectEvent::Done, ConnectEvent::Elapsed(ms)]);
    assert(events.drop_first().drop_first() =~= seq![ConnectEvent::Elapsed(ms)]);
    assert(events.drop_first().drop_first().drop_first() =~= Seq::<ConnectEvent>::empty());
    assert(asked(stage, port, events) =~= seq![
        ConnectAction::StartTimer,
        ConnectAction::ReadTimer,
        ConnectAction::IsRunning,
    ]);
}

/// While the daemon does not answer, it is asked again every 200 milliseconds.
pub proof fn daemon_is_asked_again(port: u16, ms: u128)
    requires
        ms < 10_000,
    ensures
        ({
            let round = seq![
                ConnectEvent::Elapsed(ms),
                ConnectEvent::Answer(false),
                ConnectEvent::Done,
            ];
            &&& connected(ConnectStage::ReadyClock, port, round) == ConnectProgressView::Ask(
                ConnectStage::ReadyClock,
                ConnectAction::ReadTimer,
            )
            &&& asked(ConnectStage::ReadyClock, port, round) == seq![
                ConnectAction::IsRunning,
                ConnectAction::Sleep(200),
                ConnectAction::ReadTimer,
            ]
        }),
{
    reveal_with_fuel(connected, 4);
    reveal_with_fuel(asked, 4);
    let round = seq![ConnectEvent::Elapsed(ms), ConnectEvent::Answer(false), ConnectEvent::Done];
    assert(round.drop_first() =~= seq![ConnectEvent::Answer(false), ConnectEvent::Done]);
    assert(round.drop_first().drop_first() =~= seq![ConnectEvent::Done]);
    assert(round.drop_first().drop_first().drop_first() =~= Seq::<ConnectEvent>::empty());
    assert(asked(ConnectStage::ReadyClock, port, round) =~= seq![
        ConnectAction::IsRunning,
        ConnectAction::Sleep(200),
        ConnectAction::ReadTimer,
    ]);
}

/// While the extension is not connected, it is asked for again every 500 milliseconds.
pub proof fn extension_is_asked_for_again(port: u16, ms: u128)
    requires
        ms < 15_000,
    ensures
        ({
            let round = seq![
                ConnectEvent::Elapsed(ms),
                ConnectEvent::Answer(false),
                ConnectEvent::Done,
            ];
            &&& connected(ConnectStage::ExtensionClock, port, round) == ConnectProgressView::Ask(
                ConnectStage::ExtensionClock,
                ConnectAction::ReadTimer,
            )
            &&& asked(ConnectStage::ExtensionClock, port, round) == seq![
                ConnectAction::IsExtensionConnected,
                ConnectAction::Sleep(500),
                ConnectAction::ReadTimer,
            ]
        }),
{
    reveal_with_fuel(connected, 4);
    reveal_with_fuel(asked, 4);
    let round = seq![ConnectEvent::Elapsed(ms), ConnectEvent::Answer(false), ConnectEvent::Done];
    assert(round.drop_first() =~= seq![ConnectEvent::Answer(false), ConnectEvent::Done]);
    assert(round.drop_first().drop_first() =~= seq![ConnectEvent::Done]);
    assert(round.drop_first().drop_first().drop_first() =~= Seq::<ConnectEvent>::empty());
    assert(asked(ConnectStage::ExtensionClock, port, round) =~= seq![
        ConnectAction::IsExtensionConnected,
        ConnectAction::Sleep(500),
        ConnectAction::ReadTimer,
    ]);
}

/// A wait that is not over leads to an open page, once the extension is connected.
pub proof fn connected_extension_opens_the_page(port: u16, ms: u128)
    requires
        ms < 15_000,
    ensures
        ({
            let events = seq![
                ConnectEvent::Done,
                ConnectEvent::Elapsed(ms),
                ConnectEvent::Answer(true),
            ];
            &&& connected(ConnectStage::ExtensionTimer, port, events) == ConnectProgressView::Open
            &&& asked(ConnectStage::ExtensionTimer, port, events) == seq![
                ConnectAction::ReadTimer,
                ConnectAction::IsExtensionConnected,
            ]
        }),
{
    reveal_with_fuel(connected, 4);
    reveal_with_fuel(asked, 4);
    let events = seq![ConnectEvent::Done, ConnectEvent::Elapsed(ms), ConnectEvent::Answer(true)];
    assert(events.drop_first() =~= seq![ConnectEvent::Elapsed(ms), ConnectEvent::Answer(true)]);
    assert(events.drop_first().drop_first() =~= seq![ConnectEvent::Answer(true)]);
    assert(asked(ConnectStage::ExtensionTimer, port, events) =~= seq![
        ConnectAction::ReadTimer,
        ConnectAction::IsExtensionConnected,
    ]);
}

/// With our daemon running, nothing is killed and nothing is started: the extension is waited for.
pub proof fn our_daemon_is_used(port: u16)
    ensures
        ({
            let events = seq![ConnectEvent::Answer(true), ConnectEvent::Answer(true)];
            &&& connected(ConnectStage::Running, port, events) == ConnectProgressView::Ask(
                ConnectStage::ExtensionTimer,
                ConnectAction::StartTimer,
            )
            &&& asked(ConnectStage::Running, port, events) == seq![
                ConnectAction::IsOurs,
                ConnectAction::StartTimer,
            ]
        }),
{
    reveal_with_fuel(connected, 3);
    reveal_with_fuel(asked, 3);
    let events = seq![ConnectEvent::Answer(true), ConnectEvent::Answer(true)];
    assert(events.drop_first() =~= seq![ConnectEvent::Answer(true)]);
    assert(events.drop_first().drop_first() =~= Seq::<ConnectEvent>::empty());
    assert(asked(ConnectStage::Running, port, events) =~= seq![
        ConnectAction::IsOurs,
        ConnectAction::StartTimer,
    ]);
}

/// With nothing running, a daemon is started at once; with something foreign, it is killed first
/// and the port is left alone for half a second.
pub proof fn daemon_is_started_where_it_is_missing(port: u16)
    ensures
        connected(ConnectStage::Running, port, seq![ConnectEvent::Answer(false)])
            == ConnectProgressView::Ask(ConnectStage::Spawned, ConnectAction::Spawn),
        ({
            let events = seq![
                ConnectEvent::Answer(true),
                ConnectEvent::Answer(false),
                ConnectEvent::Done,
                ConnectEvent::Done,
            ];
            &&& connected(ConnectStage::Running, port, events) == ConnectProgressView::Ask(
                ConnectStage::Spawned,
                ConnectAction::Spawn,
            )
            &&& asked(ConnectStage::Running, port, events) == seq![
                ConnectAction::IsOurs,
                ConnectAction::KillOccupant,
                ConnectAction::Sleep(500),
                ConnectAction::Spawn,
            ]
        }),
{
    reveal_with_fuel(connected, 5);
    reveal_with_fuel(asked, 5);
    let events = seq![
        ConnectEvent::Answer(true),
        ConnectEvent::Answer(false),
        ConnectEvent::Done,
        ConnectEvent::Done,
    ];
    assert(events.drop_first() =~= seq![
        ConnectEvent::Answer(false),
        ConnectEvent::Done,
        ConnectEvent::Done,
    ]);
    assert(events.drop_first().drop_first() =~= seq![ConnectEvent::Done, ConnectEvent::Done]);
    assert(events.drop_first().drop_first().drop_first() =~= seq![ConnectEvent::Done]);
    assert(events.drop_first().drop_first().drop_first().drop_first()
        =~= Seq::<ConnectEvent>::empty());
    assert(asked(ConnectStage::Running, port, events) =~= seq![
        ConnectAction::IsOurs,
        ConnectAction::KillOccupant,
        ConnectAction::Sleep(500),
        ConnectAction::Spawn,
    ]);
}

/// A daemon that answers in time is followed by the wait for the extension.
pub proof fn ready_daemon_leads_to_the_extension(port: u16, ms: u128)
    requires
        ms < 10_000,
    ensures
        connected(
            ConnectStage::ReadyClock,
            port,
            seq![ConnectEvent::Elapsed(ms), ConnectEvent::Answer(true)],
        ) == ConnectProgressView::Ask(ConnectStage::ExtensionTimer, ConnectAction::StartTimer),
{
    reveal_with_fuel(connected, 3);
    let events = seq![ConnectEvent::Elapsed(ms), ConnectEvent::Answer(true)];
    assert(events.drop_first() =~= seq![ConnectEvent::Answer(true)]);
}

/// With nothing running, a daemon that starts, becomes ready in time and gets its extension in time
/// leads to an open page.
pub proof fn missing_daemon_leads_to_a_page(
    port: u16,
    child: tokio::process::Child,
    ready: u128,
    extended: u128,
)
    requires
        ready < 10_000,
        extended < 15_000,
    ensures
        connected(
            ConnectStage::Running,
            port,
            seq![
                ConnectEvent::Answer(false),
                ConnectEvent::Spawned(child),
                ConnectEvent::Done,
                ConnectEvent::Elapsed(ready),
                ConnectEvent::Answer(true),
                ConnectEvent::Done,
                ConnectEvent::Elapsed(extended),
                ConnectEvent::Answer(true),
            ],
        ) == ConnectProgressView::Open,
{
    reveal_with_fuel(connected, 9);
    let e1 = seq![
        ConnectEvent::Answer(false),
        ConnectEvent::Spawned(child),
        ConnectEvent::Done,
        ConnectEvent::Elapsed(ready),
        ConnectEvent::Answer(true),
        ConnectEvent::Done,
        ConnectEvent::Elapsed(extended),
        ConnectEvent::Answer(true),
    ];
    let e2 = e1.drop_first();
    let e3 = e2.drop_first();
    let e4 = e3.drop_first();
    let e5 = e4.drop_first();
    let e6 = e5.drop_first();
    let e7 = e6.drop_first();
    let e8 = e7.drop_first();
    assert(e2[0] == ConnectEvent::Spawned(child));
    assert(e3[0] == ConnectEvent::Done);
    assert(e4[0] == ConnectEvent::Elapsed(ready));
    assert(e5[0] == ConnectEvent::Answer(true));
    assert(e6[0] == ConnectEvent::Done);
    assert(e7[0] == ConnectEvent::Elapsed(extended));
    assert(e8[0] == ConnectEvent::Answer(true));
}

/// A daemon that was started is the one that the bridge has; nothing else changes which one it has.
pub proof fn started_daemon_is_kept(
    before: Option<tokio::process::Child>,
    child: tokio::process::Child,
    event: ConnectEvent,
)
    ensures
        daemon_after(before, ConnectEvent::Spawned(child)) == Some(child),
        !(event is Spawned) ==> daemon_after(before, event) == before,
{
}

/// The processes of two listings are those of the one and then those of the other.
pub proof fn listings_are_read_one_after_the_other(a: Seq<Seq<char>>, b: Seq<Seq<char>>)
    ensures
        pids_in(a + b) == pids_in(a) + pids_in(b),
    decreases b.len(),
{
    if b.len() == 0 {
        assert(a + b =~= a);
        assert(pids_in(a) + pids_in(b) =~= pids_in(a));
    } else {
        listings_are_read_one_after_the_other(a, b.drop_last());
        assert((a + b).drop_last() =~= a + b.drop_last());
        assert((a + b).last() == b.last());
        assert(pids_in(a + b) =~= pids_in(a) + pids_in(b));
    }
}

/// A line that holds a number of 32 bits, with nothing but white space around it, is a process; any
/// other line is none.
pub proof fn lines_are_processes(line: Seq<char>, pid: u32)
    ensures
        parse_up_to(trim(line), 0xffff_ffff) == Some(pid as nat) ==> pids_in(seq![line])
            == seq![pid],
        parse_up_to(trim(line), 0xffff_ffff) is None ==> pids_in(seq![line]).len() == 0,
{
    assert(seq![line].drop_last() =~= Seq::<Seq<char>>::empty());
    assert(pids_in(Seq::<Seq<char>>::empty()) =~= Seq::<u32>::empty());
    if parse_up_to(trim(line), 0xffff_ffff) == Some(pid as nat) {
        assert(pids_in(seq![line]) =~= seq![pid]);
    }
}

/// A process that is written on a line of its own is read from it.
pub proof fn written_processes_are_read(pid: u32)
    ensures
        pids_in(seq![decimal(pid as nat)]) == seq![pid],
{
    let line = decimal(pid as nat);
    crate::text::decimal_is_read_back(pid as nat);
    crate::text_laws::decimal_writes_the_number(pid as nat);
    assert(crate::text::is_digit(line[0]) && crate::text::is_digit(line[line.len() - 1]));
    let none = Seq::<char>::empty();
    crate::text_laws::surrounding_white_space_is_cut(none, line, none);
    assert(none + line + none =~= line);
    lines_are_processes(line, pid);
}

} // verus!
