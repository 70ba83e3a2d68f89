//! TCP echo server.
//!
//! [`EchoServer`] decides; whoever drives it sleeps, listens, reads and
//! writes, one [`EchoAction`] at a time, and reports back with an
//! [`EchoEvent`].

use vstd::prelude::*;

verus! {

/// Port that the server listens on.
pub const ECHO_PORT: u16 = 1234;

/// When the server begins to listen.
#[derive(Debug, Clone, Copy, PartialEq, Eq, Structural)]
pub enum EchoStart {
    /// After so many milliseconds.
    AfterMillis(u64),
    /// Once there is an IPv4 address. `report`: the heartbeat counters of the
    /// other CPUs are given time to tick, and reported, first.
    WhenConfigured { report: bool },
}

/// What is to be done next.
#[derive(Debug, Clone, Copy, PartialEq, Eq, Structural)]
pub enum EchoAction {
    /// See whether there is an IPv4 address (immediate for static, some
    /// seconds for DHCP).
    CheckConfig,
    /// Sleep until the next such check.
    AwaitConfig { millis: u64 },
    /// Sleep before listening.
    Delay { millis: u64 },
    /// Give the other CPUs time to tick.
    Settle { millis: u64 },
    /// Report their heartbeat counters.
    Report,
    /// Wait for a connection.
    Accept,
    /// Read from the connection.
    Read,
    /// Write back the first `n` bytes that were read.
    WriteBack { n: usize },
}

/// What came of it.
#[derive(Debug, Clone, Copy, PartialEq, Eq, Structural)]
pub enum EchoEvent {
    /// It is done.
    Done,
    /// Whether there is an IPv4 address.
    Configured(bool),
    /// Whether a connection was made.
    Accepted(bool),
    /// So many bytes were read, at least one.
    Got(usize),
    /// The connection was closed, or could not be read.
    Closed,
    /// Whether everything was written.
    Written(bool),
}

/// Whether `event` can come of `action`.
pub open spec fn answers(action: EchoAction, event: EchoEvent) -> bool {
    match action {
        EchoAction::CheckConfig => event is Configured,
        EchoAction::Accept => event is Accepted,
        EchoAction::Read => event is Closed || (event is Got && event->Got_0 > 0),
        EchoAction::WriteBack { .. } => event is Written,
        _ => event is Done,
    }
}

/// What a server does first.
pub open spec fn first_action(start: EchoStart) -> EchoAction {
    match start {
        EchoStart::AfterMillis(millis) => EchoAction::Delay { millis },
        EchoStart::WhenConfigured { .. } => EchoAction::CheckConfig,
    }
}

/// What a server does after `event`. A connection that cannot be read or
/// written is given up, and the next awaited.
pub open spec fn step(start: EchoStart, action: EchoAction, event: EchoEvent) -> EchoAction {
    match (action, event) {
        (EchoAction::CheckConfig, EchoEvent::Configured(true)) => if start
            == (EchoStart::WhenConfigured { report: true }) {
            EchoAction::Settle { millis: 100 }
        } else {
            EchoAction::Accept
        },
        (EchoAction::CheckConfig, _) => EchoAction::AwaitConfig { millis: 100 },
        (EchoAction::AwaitConfig { .. }, _) => EchoAction::CheckConfig,
        (EchoAction::Delay { .. }, _) => EchoAction::Accept,
        (EchoAction::Settle { .. }, _) => EchoAction::Report,
        (EchoAction::Report, _) => EchoAction::Accept,
        (EchoAction::Accept, EchoEvent::Accepted(true)) => EchoAction::Read,
        (EchoAction::Read, EchoEvent::Got(n)) => EchoAction::WriteBack { n },
        (EchoAction::WriteBack { .. }, EchoEvent::Written(true)) => EchoAction::Read,
        _ => EchoAction::Accept,
    }
}

/// The server.
pub struct EchoServer {
    start: EchoStart,
    action: EchoAction,
}

impl View for EchoServer {
    type V = EchoAction;

    closed spec fn view(&self) -> EchoAction {
        self.action
    }
}

impl EchoServer {
    /// When it begins to listen.
    pub closed spec fn start(&self) -> EchoStart {
        self.start
    }

    pub fn new(start: EchoStart) -> (server: Self)
        ensures
            server.start() == start,
            server@ == first_action(start),
    {
        let action = match start {
            EchoStart::AfterMillis(millis) => EchoAction::Delay { millis },
            EchoStart::WhenConfigured { report: _ } => EchoAction::CheckConfig,
        };
        EchoServer { start, action }
    }

    /// What is to be done next.
    pub fn action(&self) -> (action: EchoAction)
        ensures
            action == self@,
    {
        self.action
    }

    /// Whether `event` can come of the action that is to be done.
    pub fn expects(&self, event: &EchoEvent) -> (r: bool)
        ensures
            r == answers(self@, *event),
    {
        match (self.action, event) {
            (EchoAction::CheckConfig, EchoEvent::Configured(_)) => true,
            (EchoAction::CheckConfig, _) => false,
            (EchoAction::Accept, EchoEvent::Accepted(_)) => true,
            (EchoAction::Accept, _) => false,
            (EchoAction::Read, EchoEvent::Closed) => true,
            (EchoAction::Read, EchoEvent::Got(n)) => *n > 0,
            (EchoAction::Read, _) => false,
            (EchoAction::WriteBack { .. }, EchoEvent::Written(_)) => true,
            (EchoAction::WriteBack { .. }, _) => false,
            (_, EchoEvent::Done) => true,
            (_, _) => false,
        }
    }

    /// Take note of what came of the action.
    pub fn resume(&mut self, event: EchoEvent)
        requires
            answers(old(self)@, event),
        ensures
            final(self)@ == step(old(self).start(), old(self)@, event),
            final(self).start() == old(self).start(),
    {
        self.action = match (self.action, event) {
            (EchoAction::CheckConfig, EchoEvent::Configured(true)) => match self.start {
                EchoStart::WhenConfigured { report: true } => EchoAction::Settle { millis: 100 },
                _ => EchoAction::Accept,
            },
            (EchoAction::CheckConfig, _) => EchoAction::AwaitConfig { millis: 100 },
            (EchoAction::AwaitConfig { .. }, _) => EchoAction::CheckConfig,
            (EchoAction::Delay { .. }, _) => EchoAction::Accept,
            (EchoAction::Settle { .. }, _) => EchoAction::Report,
            (EchoAction::Report, _) => EchoAction::Accept,
            (EchoAction::Accept, EchoEvent::Accepted(true)) => EchoAction::Read,
            (EchoAction::Read, EchoEvent::Got(n)) => EchoAction::WriteBack { n },
            (EchoAction::WriteBack { .. }, EchoEvent::Written(true)) => EchoAction::Read,
            _ => EchoAction::Accept,
        };
    }
}

// ── A server over time ──────────────────────────────────────────────────

/// What a server is to do after `events`.
pub open spec fn reached(start: EchoStart, events: Seq<EchoEvent>) -> EchoAction
    decreases events.len(),
{
    if events.len() == 0 {
        first_action(start)
    } else {
        step(start, reached(start, events.drop_last()), events.last())
    }
}

/// Whether each of `events` came of the action that was to be done.
pub open spec fn possible(start: EchoStart, events: Seq<EchoEvent>) -> bool
    decreases events.len(),
{
    events.len() == 0 || (possible(start, events.drop_last()) && answers(
        reached(start, events.drop_last()),
        events.last(),
    ))
}

/// How many bytes were read from the connection that is open.
pub open spec fn bytes_read(start: EchoStart, events: Seq<EchoEvent>) -> nat
    decreases events.len(),
{
    if events.len() == 0 || reached(start, events) == EchoAction::Accept {
        0
    } else {
        let before = bytes_read(start, events.drop_last());
        match events.last() {
            EchoEvent::Got(n) => before + n as nat,
            _ => before,
        }
    }
}

/// How many bytes were written to the connection that is open.
pub open spec fn bytes_written(start: EchoStart, events: Seq<EchoEvent>) -> nat
    decreases events.len(),
{
    if events.len() == 0 || reached(start, events) == EchoAction::Accept {
        0
    } else {
        let before = bytes_written(start, events.drop_last());
        match (reached(start, events.drop_last()), events.last()) {
            (EchoAction::WriteBack { n }, EchoEvent::Written(true)) => before + n as nat,
            _ => before,
        }
    }
}

/// Everything that is read from a connection is written back, and nothing
/// else, before more is read.
pub proof fn every_byte_is_echoed(start: EchoStart, events: Seq<EchoEvent>)
    requires
        possible(start, events),
    ensures
        match reached(start, events) {
            EchoAction::WriteBack { n } => bytes_read(start, events) == bytes_written(
                start,
                events,
            ) + n,
            _ => bytes_read(start, events) == bytes_written(start, events),
        },
    decreases events.len(),
{
    if events.len() > 0 {
        every_byte_is_echoed(start, events.drop_last());
    }
}

/// A server that waits for an address does not listen before it has one.
pub proof fn listens_once_configured(report: bool, events: Seq<EchoEvent>)
    requires
        possible(EchoStart::WhenConfigured { report }, events),
        forall|i: int|
            0 <= i < events.len() ==> #[trigger] events[i] != EchoEvent::Configured(true),
    ensures
        ({
            let action = reached(EchoStart::WhenConfigured { report }, events);
            action == EchoAction::CheckConfig || action is AwaitConfig
        }),
    decreases events.len(),
{
    if events.len() > 0 {
        let prior = events.drop_last();
        assert forall|i: int| 0 <= i < prior.len() implies #[trigger] prior[i]
            != EchoEvent::Configured(true) by {
            assert(events[i] == prior[i]);
        }
        listens_once_configured(report, prior);
        assert(events[events.len() - 1] != EchoEvent::Configured(true));
    }
}

/// Where a server stands goes by the last event: it reads where a connection
/// was made or everything was written back, it writes back as many bytes as
/// were read, and it waits for the next connection where one failed, was
/// closed or could not be written to.
pub proof fn server_does_what_is_due(start: EchoStart, events: Seq<EchoEvent>)
    requires
        possible(start, events),
        events.len() > 0,
    ensures
        ({
            let due = reached(start, events);
            match events.last() {
                EchoEvent::Accepted(made) => due == if made {
                    EchoAction::Read
                } else {
                    EchoAction::Accept
                },
                EchoEvent::Got(n) => due == EchoAction::WriteBack { n },
                EchoEvent::Closed => due == EchoAction::Accept,
                EchoEvent::Written(all) => due == if all {
                    EchoAction::Read
                } else {
                    EchoAction::Accept
                },
                EchoEvent::Configured(there) => if !there {
                    due == EchoAction::AwaitConfig { millis: 100 }
                } else if start == (EchoStart::WhenConfigured { report: true }) {
                    due == EchoAction::Settle { millis: 100 }
                } else {
                    due == EchoAction::Accept
                },
                EchoEvent::Done => match reached(start, events.drop_last()) {
                    EchoAction::AwaitConfig { .. } => due == EchoAction::CheckConfig,
                    EchoAction::Settle { .. } => due == EchoAction::Report,
                    _ => due == EchoAction::Accept,
                },
            }
        }),
{
}

/// What a server does first: it sleeps as long as it was told, or looks for an
/// address. It sleeps so, looks so, settles and reports only where it was told
/// to.
pub proof fn server_begins_as_told(start: EchoStart, events: Seq<EchoEvent>)
    requires
        possible(start, events),
    ensures
        events.len() == 0 ==> match start {
            EchoStart::AfterMillis(ms) => reached(start, events) == EchoAction::Delay {
                millis: ms,
            },
            EchoStart::WhenConfigured { .. } => reached(start, events) == EchoAction::CheckConfig,
        },
        match reached(start, events) {
            EchoAction::Delay { millis } => events.len() == 0 && start == EchoStart::AfterMillis(
                millis,
            ),
            EchoAction::CheckConfig | EchoAction::AwaitConfig { .. } => start is WhenConfigured,
            EchoAction::Settle { .. } | EchoAction::Report => start
                == (EchoStart::WhenConfigured { report: true }),
            _ => events.len() > 0,
        },
    decreases events.len(),
{
    if events.len() > 0 {
        server_begins_as_told(start, events.drop_last());
    }
}

/// A server stands where its events lead: it begins with the first action,
/// goes on by the events it is handed, and says what is next.
pub proof fn server_follows_its_events(
    start: EchoStart,
    events: Seq<EchoEvent>,
    event: EchoEvent,
    begun: EchoServer,
    server: &EchoServer,
    action: EchoAction,
)
    ensures
        call_ensures(EchoServer::new, (start,), begun) ==> begun.start() == start && begun@
            == reached(start, Seq::empty()),
        call_ensures(EchoServer::action, (server,), action) ==> action == server@,
        forall|s: &mut EchoServer| #[trigger]
            call_ensures(EchoServer::resume, (s, event), ()) && (*s).start() == start && (*s)@
                == reached(start, events) && possible(start, events.push(event))
                ==> (*final(s)).start() == start && (*final(s))@ == reached(
                start,
                events.push(event),
            ),
        ECHO_PORT == 1234,
{
    assert(events.push(event).drop_last() =~= events);
}

/// What a server takes for an answer: whether there is an address where it
/// looks for one, whether a connection was made where it waits for one, at
/// least one byte or the end where it reads, whether everything was written
/// where it writes, and otherwise that it is done.
pub proof fn server_takes_answers(server: &EchoServer, event: &EchoEvent, r: bool)
    requires
        call_ensures(EchoServer::expects, (server, event), r),
    ensures
        r == match *event {
            EchoEvent::Configured(_) => server@ == EchoAction::CheckConfig,
            EchoEvent::Accepted(_) => server@ == EchoAction::Accept,
            EchoEvent::Got(n) => server@ == EchoAction::Read && n > 0,
            EchoEvent::Closed => server@ == EchoAction::Read,
            EchoEvent::Written(_) => server@ is WriteBack,
            EchoEvent::Done => server@ is AwaitConfig || server@ is Delay || server@ is Settle
                || server@ == EchoAction::Report,
        },
        r == answers(server@, *event),
{
}

} // verus!
