//! Waiting for a message from the host.
//!
//! [`WaitForMatch`] decides; whoever drives it looks into the message slot,
//! asks the matcher, acknowledges, registers the waker and reads the clock,
//! one [`WaitAction`] at a time, and reports back with a [`WaitEvent`].
//!
//! Every message visible in the slot is passed to the matcher **exactly once**
//! and then **acked unconditionally**. Acking clears the slot and (if
//! `MessagePending` is set) signals `EOM` so the host delivers the next queued
//! message: the in-slot bytes are gone after the matcher returns. A matcher
//! that needs to keep payload bytes must copy them.

use vstd::prelude::*;

verus! {

/// What is to be done next.
#[derive(Debug, Clone, Copy, PartialEq, Eq, Structural)]
pub enum WaitAction {
    /// Look into the message slot.
    Look,
    /// Pass the message to the matcher.
    Offer,
    /// Acknowledge the message.
    Acknowledge,
    /// Register the waker that the message interrupt wakes.
    Register,
    /// Look into the message slot once more.
    ///
    /// The host may have queued a message between the first look and the
    /// registration, and its wake would have been lost.
    LookAgain,
    /// Read the clock.
    ReadClock,
    /// Nothing: a message matched.
    Matched,
    /// Nothing: the deadline has passed.
    TimedOut,
    /// Nothing until the waker is woken.
    Sleep,
}

/// What came of it.
#[derive(Debug, Clone, Copy, PartialEq, Eq, Structural)]
pub enum WaitEvent {
    /// Whether there is a message in the slot.
    Slot(bool),
    /// Whether the matcher took the message for the one awaited.
    Answer(bool),
    /// The action is done.
    Done,
    /// The time.
    Clock(u64),
}

/// Whether `event` can come of `action`.
pub open spec fn answers(action: WaitAction, event: WaitEvent) -> bool {
    match action {
        WaitAction::Look | WaitAction::LookAgain => event is Slot,
        WaitAction::Offer => event is Answer,
        WaitAction::Acknowledge | WaitAction::Register => event is Done,
        WaitAction::ReadClock => event is Clock,
        _ => false,
    }
}

/// Where a wait stands.
pub struct Standing {
    /// What is to be done next.
    pub action: WaitAction,
    /// Whether the message that is in hand, if one is, matched.
    pub matched: bool,
}

/// Where a wait begins, each time it is polled.
pub open spec fn beginning() -> Standing {
    Standing { action: WaitAction::Look, matched: false }
}

/// Where a wait stands after `event`.
pub open spec fn step(at: Standing, event: WaitEvent, deadline: u64) -> Standing {
    match (at.action, event) {
        (WaitAction::Look, WaitEvent::Slot(true)) => Standing {
            action: WaitAction::Offer,
            matched: false,
        },
        (WaitAction::Look, WaitEvent::Slot(false)) => Standing {
            action: WaitAction::Register,
            matched: false,
        },
        (WaitAction::Offer, WaitEvent::Answer(matched)) => Standing {
            action: WaitAction::Acknowledge,
            matched,
        },
        (WaitAction::Acknowledge, WaitEvent::Done) => Standing {
            action: if at.matched {
                WaitAction::Matched
            } else {
                WaitAction::Look
            },
            matched: at.matched,
        },
        (WaitAction::Register, WaitEvent::Done) => Standing {
            action: WaitAction::LookAgain,
            matched: false,
        },
        (WaitAction::LookAgain, WaitEvent::Slot(true)) => beginning(),
        (WaitAction::LookAgain, WaitEvent::Slot(false)) => Standing {
            action: WaitAction::ReadClock,
            matched: false,
        },
        (WaitAction::ReadClock, WaitEvent::Clock(now)) => Standing {
            action: if now >= deadline {
                WaitAction::TimedOut
            } else {
                WaitAction::Sleep
            },
            matched: false,
        },
        _ => at,
    }
}

/// A wait for a message, until `deadline` (in clock ticks).
pub struct WaitForMatch {
    deadline: u64,
    action: WaitAction,
    matched: bool,
}

impl View for WaitForMatch {
    type V = Standing;

    closed spec fn view(&self) -> Standing {
        Standing { action: self.action, matched: self.matched }
    }
}

/// Wait for a message that the matcher takes, until `deadline`.
pub fn wait_for_match(deadline: u64) -> (wait: WaitForMatch)
    ensures
        wait.deadline() == deadline,
        wait@ == beginning(),
{
    WaitForMatch { deadline, action: WaitAction::Look, matched: false }
}

impl WaitForMatch {
    /// When the wait ends.
    pub closed spec fn deadline(&self) -> u64 {
        self.deadline
    }

    /// What is to be done next.
    pub fn action(&self) -> (action: WaitAction)
        ensures
            action == self@.action,
    {
        self.action
    }

    /// Begin a poll: drain whatever messages are visible right now. Each
    /// either matches or is acked and the next one looked for. When the slot
    /// is empty, the deadline decides whether to go on waiting.
    pub fn poll(&mut self)
        ensures
            final(self)@ == beginning(),
            final(self).deadline() == old(self).deadline(),
    {
        self.action = WaitAction::Look;
        self.matched = false;
    }

    /// Whether `event` can come of the action that is to be done.
    pub fn expects(&self, event: &WaitEvent) -> (r: bool)
        ensures
            r == answers(self@.action, *event),
    {
        match (self.action, event) {
            (WaitAction::Look, WaitEvent::Slot(_)) => true,
            (WaitAction::LookAgain, WaitEvent::Slot(_)) => true,
            (WaitAction::Offer, WaitEvent::Answer(_)) => true,
            (WaitAction::Acknowledge, WaitEvent::Done) => true,
            (WaitAction::Register, WaitEvent::Done) => true,
            (WaitAction::ReadClock, WaitEvent::Clock(_)) => true,
            _ => false,
        }
    }

    /// Take note of what came of the action.
    pub fn resume(&mut self, event: WaitEvent)
        requires
            answers(old(self)@.action, event),
        ensures
            final(self)@ == step(old(self)@, event, old(self).deadline()),
            final(self).deadline() == old(self).deadline(),
    {
        match event {
            WaitEvent::Slot(present) => {
                self.action = match (self.action, present) {
                    (WaitAction::Look, true) => WaitAction::Offer,
                    (WaitAction::Look, false) => WaitAction::Register,
                    (_, true) => WaitAction::Look,
                    (_, false) => WaitAction::ReadClock,
                };
                self.matched = false;
            },
            WaitEvent::Answer(matched) => {
                self.action = WaitAction::Acknowledge;
                self.matched = matched;
            },
            WaitEvent::Done => {
                if self.action == WaitAction::Register {
                    self.action = WaitAction::LookAgain;
                    self.matched = false;
                } else if self.matched {
                    self.action = WaitAction::Matched;
                } else {
                    self.action = WaitAction::Look;
                }
            },
            WaitEvent::Clock(now) => {
                self.action = if now >= self.deadline {
                    WaitAction::TimedOut
                } else {
                    WaitAction::Sleep
                };
                self.matched = false;
            },
        }
    }
}

// ── A poll from beginning to end ────────────────────────────────────────

/// Where a poll stands after `events`.
pub open spec fn reached(events: Seq<WaitEvent>, deadline: u64) -> Standing
    decreases events.len(),
{
    if events.len() == 0 {
        beginning()
    } else {
        step(reached(events.drop_last(), deadline), events.last(), deadline)
    }
}

/// Whether each of `events` came of the action that was to be done.
pub open spec fn possible(events: Seq<WaitEvent>, deadline: u64) -> bool
    decreases events.len(),
{
    events.len() == 0 || (possible(events.drop_last(), deadline) && answers(
        reached(events.drop_last(), deadline).action,
        events.last(),
    ))
}

/// How often `action` was done.
pub open spec fn times(action: WaitAction, events: Seq<WaitEvent>, deadline: u64) -> nat
    decreases events.len(),
{
    if events.len() == 0 {
        0
    } else {
        times(action, events.drop_last(), deadline) + if reached(
            events.drop_last(),
            deadline,
        ).action == action {
            1nat
        } else {
            0
        }
    }
}

/// How many messages the first look found.
pub open spec fn messages(events: Seq<WaitEvent>, deadline: u64) -> nat
    decreases events.len(),
{
    if events.len() == 0 {
        0
    } else {
        messages(events.drop_last(), deadline) + if reached(events.drop_last(), deadline).action
            == WaitAction::Look && events.last() == WaitEvent::Slot(true) {
            1nat
        } else {
            0
        }
    }
}

/// Every message found is passed to the matcher once and acknowledged once,
/// and nothing else is: at the end of a poll the three counts are the same.
pub proof fn offered_once_then_acknowledged(events: Seq<WaitEvent>, deadline: u64)
    requires
        possible(events, deadline),
    ensures
        ({
            let at = reached(events, deadline).action;
            let found = messages(events, deadline);
            &&& times(WaitAction::Offer, events, deadline) == found - if at == WaitAction::Offer {
                1int
            } else {
                0
            }
            &&& times(WaitAction::Acknowledge, events, deadline) == found - if at
                == WaitAction::Offer || at == WaitAction::Acknowledge {
                1int
            } else {
                0
            }
        }),
    decreases events.len(),
{
    if events.len() > 0 {
        offered_once_then_acknowledged(events.drop_last(), deadline);
    }
}

/// A poll ends with a match as soon as the matcher takes a message, and only
/// then: no message after it is looked at.
pub proof fn match_ends_the_poll(events: Seq<WaitEvent>, deadline: u64)
    requires
        possible(events, deadline),
    ensures
        reached(events, deadline).action == WaitAction::Matched <==> events.len() >= 2
            && events[events.len() - 2] == WaitEvent::Answer(true),
        forall|i: int|
            0 <= i < events.len() - 2 ==> #[trigger] events[i] != WaitEvent::Answer(true),
    decreases events.len(),
{
    if events.len() > 0 {
        let prior = events.drop_last();
        match_ends_the_poll(prior, deadline);
        assert(events[events.len() - 1] == events.last());
        assert forall|i: int| 0 <= i < events.len() - 2 implies #[trigger] events[i]
            != WaitEvent::Answer(true) by {
            assert(prior[i] == events[i]);
        }
        if events.len() >= 2 {
            let earlier = prior.drop_last();
            assert(prior.last() == events[events.len() - 2]);
            assert(possible(prior, deadline));
            assert(reached(prior, deadline) == step(
                reached(earlier, deadline),
                prior.last(),
                deadline,
            ));
            assert(answers(reached(earlier, deadline).action, prior.last()));
        }
    }
}

/// A poll gives up or goes to sleep only after the waker was registered and
/// the slot was then found empty; it gives up exactly if the deadline has
/// passed by the clock read after that.
pub proof fn sleeps_only_when_registered(events: Seq<WaitEvent>, deadline: u64)
    requires
        possible(events, deadline),
        reached(events, deadline).action == WaitAction::TimedOut || reached(
            events,
            deadline,
        ).action == WaitAction::Sleep,
    ensures
        events.len() >= 4,
        events[events.len() - 4] == WaitEvent::Slot(false),
        events[events.len() - 3] == WaitEvent::Done,
        events[events.len() - 2] == WaitEvent::Slot(false),
        events.last() is Clock,
        reached(events, deadline).action == WaitAction::TimedOut <==> events.last()->Clock_0
            >= deadline,
{
    let e1 = events.drop_last();
    assert(events.len() > 0);
    assert(possible(e1, deadline));
    assert(reached(e1, deadline).action == WaitAction::ReadClock);
    let e2 = e1.drop_last();
    assert(e1.len() > 0);
    assert(possible(e2, deadline));
    assert(reached(e2, deadline).action == WaitAction::LookAgain);
    let e3 = e2.drop_last();
    assert(e2.len() > 0);
    assert(possible(e3, deadline));
    assert(reached(e3, deadline).action == WaitAction::Register);
    assert(e3.len() > 0);
    assert(reached(e3.drop_last(), deadline).action == WaitAction::Look);
    assert(e3.last() == events[events.len() - 4]);
    assert(e2.last() == events[events.len() - 3]);
    assert(e1.last() == events[events.len() - 2]);
}

// ── What a wait comes to ────────────────────────────────────────────────

/// What is due goes by the last event: a message that is found is offered, or,
/// at the second look, looked for again; what was offered is acknowledged,
/// whatever the answer; then the wait is over if it matched, and looks for the
/// next if it did not; an empty slot leads to the waker, and then to the clock;
/// and the clock decides.
pub proof fn wait_does_what_is_due(events: Seq<WaitEvent>, deadline: u64)
    requires
        possible(events, deadline),
        events.len() > 0,
    ensures
        ({
            let n = events.len();
            let before = reached(events.drop_last(), deadline).action;
            let due = reached(events, deadline).action;
            match events.last() {
                WaitEvent::Slot(true) => due == if before == WaitAction::Look {
                    WaitAction::Offer
                } else {
                    WaitAction::Look
                },
                WaitEvent::Slot(false) => due == if before == WaitAction::Look {
                    WaitAction::Register
                } else {
                    WaitAction::ReadClock
                },
                WaitEvent::Answer(_) => due == WaitAction::Acknowledge,
                WaitEvent::Done => if before == WaitAction::Register {
                    due == WaitAction::LookAgain
                } else if n >= 2 && events[n - 2] == WaitEvent::Answer(true) {
                    due == WaitAction::Matched
                } else {
                    due == WaitAction::Look
                },
                WaitEvent::Clock(now) => due == if now >= deadline {
                    WaitAction::TimedOut
                } else {
                    WaitAction::Sleep
                },
            }
        }),
{
    match_ends_the_poll(events, deadline);
}

/// A wait stands where its events lead: it begins with a look, and with another
/// each time it is polled; it goes on by the events it is handed, keeps its
/// deadline, and says what is next.
pub proof fn wait_follows_its_events(
    deadline: u64,
    events: Seq<WaitEvent>,
    event: WaitEvent,
    begun: WaitForMatch,
    wait: &WaitForMatch,
    action: WaitAction,
)
    ensures
        call_ensures(wait_for_match, (deadline,), begun) ==> begun.deadline() == deadline && begun@
            == reached(Seq::empty(), deadline) && begun@.action == WaitAction::Look,
        call_ensures(WaitForMatch::action, (wait,), action) ==> action == wait@.action,
        forall|w: &mut WaitForMatch| #[trigger]
            call_ensures(WaitForMatch::poll, (w,), ()) ==> (*final(w)).deadline() == (*w).deadline()
                && (*final(w))@ == reached(Seq::empty(), deadline),
        forall|w: &mut WaitForMatch| #[trigger]
            call_ensures(WaitForMatch::resume, (w, event), ()) && (*w).deadline() == deadline
                && (*w)@ == reached(events, deadline) && possible(events.push(event), deadline)
                ==> (*final(w)).deadline() == deadline && (*final(w))@ == reached(
                events.push(event),
                deadline,
            ),
{
    assert(events.push(event).drop_last() =~= events);
}

/// What a wait takes for an answer.
pub proof fn wait_takes_answers(wait: &WaitForMatch, event: &WaitEvent, r: bool)
    requires
        call_ensures(WaitForMatch::expects, (wait, event), r),
    ensures
        r == match *event {
            WaitEvent::Slot(_) => wait@.action == WaitAction::Look || wait@.action
                == WaitAction::LookAgain,
            WaitEvent::Answer(_) => wait@.action == WaitAction::Offer,
            WaitEvent::Done => wait@.action == WaitAction::Acknowledge || wait@.action
                == WaitAction::Register,
            WaitEvent::Clock(_) => wait@.action == WaitAction::ReadClock,
        },
        r == answers(wait@.action, *event),
{
}

} // verus!
