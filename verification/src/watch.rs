//! Watching the configuration file: of a burst of changes, one asks for a reload,
//! and what asks for one is passed on.
//!
//! Passing on begins with [`RelayEvent::Made`]. Each action is carried out by the
//! program, which then reports what came of it as the next event, until the action
//! is one that ends the watching.

use vstd::prelude::*;
use crate::text::opt_text;

verus! {

/// What the watcher tells of the configuration file.
#[derive(Debug, Clone, Copy, PartialEq, Eq, Structural)]
pub enum WatchEvent {
    /// It was modified.
    Modified,
    /// Something else was done with it.
    Other,
    /// Watching failed.
    Failed,
}

/// How much later than the last reload that was asked for the next may be asked
/// for, in nanoseconds: half a second.
pub const DEBOUNCE_NANOS: u128 = 500_000_000;

/// A modification asks for a reload when it comes more than the debounce time
/// after `last`.
pub open spec fn asks_for_reload(last: int, event: WatchEvent, now: int) -> bool {
    event is Modified && now - last > DEBOUNCE_NANOS
}

/// Lets the first modification of a burst through. Times are nanoseconds of a
/// clock that starts anywhere.
#[derive(Debug, Clone, Copy)]
pub struct Debouncer {
    /// When a reload was last asked for, or when watching began.
    pub last: u128,
}

impl Debouncer {
    /// Watching begins at `now`.
    pub fn new(now: u128) -> (debouncer: Debouncer)
        ensures
            debouncer.last == now,
    {
        Debouncer { last: now }
    }

    /// Whether an event at `now` asks for a reload. A time before the last reload
    /// counts as that reload's own.
    pub fn on_event(&mut self, event: WatchEvent, now: u128) -> (reload: bool)
        ensures
            reload == asks_for_reload(old(self).last as int, event, now as int),
            final(self).last == (if reload {
                now
            } else {
                old(self).last
            }),
    {
        let modified: bool = match event {
            WatchEvent::Modified => true,
            _ => false,
        };
        if modified && now.saturating_sub(self.last) > DEBOUNCE_NANOS {
            self.last = now;
            true
        } else {
            false
        }
    }
}

/// An event and when it came.
pub struct TimedEvent {
    pub event: WatchEvent,
    pub now: int,
}

/// The last of `times`, or `last` where there are none.
pub open spec fn latest(last: int, times: Seq<int>) -> int {
    if times.len() == 0 {
        last
    } else {
        times.last()
    }
}

/// When the events ask for reloads, after a reload or a beginning at `last`.
pub open spec fn reload_times(last: int, events: Seq<TimedEvent>) -> Seq<int>
    decreases events.len(),
{
    if events.len() == 0 {
        Seq::empty()
    } else {
        let before = reload_times(last, events.drop_last());
        if asks_for_reload(latest(last, before), events.last().event, events.last().now) {
            before.push(events.last().now)
        } else {
            before
        }
    }
}

/// Whatever happens to the file, two reloads are asked for more than half a second
/// apart, and the first more than half a second after watching began.
pub proof fn law_reloads_are_apart(last: int, events: Seq<TimedEvent>)
    ensures
        ({
            let times = reload_times(last, events);
            &&& times.len() > 0 ==> times[0] - last > DEBOUNCE_NANOS
            &&& forall|i: int|
                #![trigger times[i]]
                0 < i < times.len() ==> times[i] - times[i - 1] > DEBOUNCE_NANOS
        }),
    decreases events.len(),
{
    if events.len() > 0 {
        law_reloads_are_apart(last, events.drop_last());
        let before = reload_times(last, events.drop_last());
        let times = reload_times(last, events);
        assert forall|i: int|
            #![trigger times[i]]
            0 < i < times.len() implies times[i] - times[i - 1] > DEBOUNCE_NANOS by {
            if i < before.len() {
                assert(times[i] == before[i]);
                assert(times[i - 1] == before[i - 1]);
            } else {
                assert(times[i - 1] == before.last());
            }
        }
        if before.len() > 0 {
            assert(times[0] == before[0]);
        }
    }
}

/// Every modification asks for a reload, unless one was asked for, or watching
/// began, at most half a second before. Whatever is no modification asks for
/// nothing.
pub proof fn law_modifications_are_noticed(last: int, events: Seq<TimedEvent>)
    requires
        events.len() > 0,
    ensures
        ({
            let before = reload_times(last, events.drop_last());
            let after = reload_times(last, events);
            let event = events.last();
            if event.event is Modified && event.now - latest(last, before) > DEBOUNCE_NANOS {
                after == before.push(event.now)
            } else {
                after == before
            }
        }),
{
}

/// Going through the events one by one is how the reload times come about: after
/// any of them, the time that the debouncer keeps is the latest reload's.
pub proof fn law_the_debouncer_keeps_the_latest_reload(
    last: int,
    events: Seq<TimedEvent>,
    next: TimedEvent,
)
    ensures
        ({
            let kept = latest(last, reload_times(last, events));
            latest(last, reload_times(last, events.push(next))) == (if asks_for_reload(
                kept,
                next.event,
                next.now,
            ) {
                next.now
            } else {
                kept
            })
        }),
{
    assert(events.push(next).drop_last() =~= events);
}

/// What came of the last step of passing requests for reloads on.
#[derive(Debug)]
pub enum RelayEvent {
    /// A watcher was made; with a text, why it could not be.
    Made(Option<String>),
    /// It watches the file; with a text, why it cannot.
    Watching(Option<String>),
    /// A reload was asked for; `false` where none will be any more.
    Asked(bool),
    /// The request was passed on; `false` where nobody takes it any more.
    Sent(bool),
}

/// The contents of a [`RelayEvent`].
pub enum RelayEventView {
    Made(Option<Seq<char>>),
    Watching(Option<Seq<char>>),
    Asked(bool),
    Sent(bool),
}

impl View for RelayEvent {
    type V = RelayEventView;

    open spec fn view(&self) -> RelayEventView {
        match self {
            RelayEvent::Made(failure) => RelayEventView::Made(opt_text(*failure)),
            RelayEvent::Watching(failure) => RelayEventView::Watching(opt_text(*failure)),
            RelayEvent::Asked(more) => RelayEventView::Asked(*more),
            RelayEvent::Sent(taken) => RelayEventView::Sent(*taken),
        }
    }
}

/// The next step of passing requests for reloads on.
#[derive(Debug)]
pub enum RelayAction {
    /// Log this error, and end.
    Fail(String),
    /// Watch the file.
    Watch,
    /// Wait for a reload to be asked for.
    Wait,
    /// Pass the request on.
    Send,
    /// End.
    Stop,
}

/// The contents of a [`RelayAction`].
pub enum RelayActionView {
    Fail(Seq<char>),
    Watch,
    Wait,
    Send,
    Stop,
}

impl View for RelayAction {
    type V = RelayActionView;

    open spec fn view(&self) -> RelayActionView {
        match self {
            RelayAction::Fail(message) => RelayActionView::Fail(message@),
            RelayAction::Watch => RelayActionView::Watch,
            RelayAction::Wait => RelayActionView::Wait,
            RelayAction::Send => RelayActionView::Send,
            RelayAction::Stop => RelayActionView::Stop,
        }
    }
}

/// What to do after `event`; `path` is the file's path as it is shown.
pub open spec fn relay_action(path: Seq<char>, event: RelayEventView) -> RelayActionView {
    match event {
        RelayEventView::Made(None) => RelayActionView::Watch,
        RelayEventView::Made(Some(reason)) => RelayActionView::Fail(
            "Watcher init failed: "@ + reason,
        ),
        RelayEventView::Watching(None) => RelayActionView::Wait,
        RelayEventView::Watching(Some(reason)) => RelayActionView::Fail(
            "Failed to watch "@ + path + ": "@ + reason,
        ),
        RelayEventView::Asked(more) => if more {
            RelayActionView::Send
        } else {
            RelayActionView::Stop
        },
        RelayEventView::Sent(taken) => if taken {
            RelayActionView::Wait
        } else {
            RelayActionView::Stop
        },
    }
}

/// What to do after `event`; `path` is the file's path as it is shown.
pub fn next_relay_action(path: &str, event: &RelayEvent) -> (action: RelayAction)
    ensures
        action@ == relay_action(path@, event@),
{
    match event {
        RelayEvent::Made(None) => RelayAction::Watch,
        RelayEvent::Made(Some(reason)) => {
            let mut message: String = "Watcher init failed: ".to_owned();
            message.append(reason.as_str());
            RelayAction::Fail(message)
        },
        RelayEvent::Watching(None) => RelayAction::Wait,
        RelayEvent::Watching(Some(reason)) => {
            let mut message: String = "Failed to watch ".to_owned();
            message.append(path);
            message.append(": ");
            message.append(reason.as_str());
            RelayAction::Fail(message)
        },
        RelayEvent::Asked(more) => {
            if *more {
                RelayAction::Send
            } else {
                RelayAction::Stop
            }
        },
        RelayEvent::Sent(taken) => {
            if *taken {
                RelayAction::Wait
            } else {
                RelayAction::Stop
            }
        },
    }
}

/// How often a request is passed on from `event` on, where `asked` more reloads are
/// asked for and the first `taken` of what is passed on find a taker.
pub open spec fn relay_sends(path: Seq<char>, event: RelayEventView, asked: nat, taken: nat) -> nat
    decreases
            asked,
            (match relay_action(path, event) {
                RelayActionView::Watch => 3nat,
                RelayActionView::Send => 2nat,
                RelayActionView::Wait => 1nat,
                _ => 0nat,
            }),
{
    match relay_action(path, event) {
        RelayActionView::Watch => relay_sends(path, RelayEventView::Watching(None), asked, taken),
        RelayActionView::Wait => if asked > 0 {
            relay_sends(path, RelayEventView::Asked(true), (asked - 1) as nat, taken)
        } else {
            0
        },
        RelayActionView::Send => 1 + (if taken > 0 {
            relay_sends(path, RelayEventView::Sent(true), asked, (taken - 1) as nat)
        } else {
            0
        }),
        _ => 0,
    }
}

/// Once the file is watched, every request for a reload is passed on, once each, up
/// to and with the first that finds no taker.
pub proof fn law_every_request_is_passed_on(path: Seq<char>, asked: nat, taken: nat)
    ensures
        relay_sends(path, RelayEventView::Made(None), asked, taken) == (if asked <= taken {
            asked
        } else {
            taken + 1
        }),
{
    waiting_passes_on(path, RelayEventView::Watching(None), asked, taken);
}

/// From waiting on, every request is passed on, up to and with the first that finds
/// no taker.
proof fn waiting_passes_on(path: Seq<char>, event: RelayEventView, asked: nat, taken: nat)
    requires
        relay_action(path, event) is Wait,
    ensures
        relay_sends(path, event, asked, taken) == (if asked <= taken {
            asked
        } else {
            taken + 1
        }),
    decreases asked,
{
    if asked > 0 && taken > 0 {
        waiting_passes_on(path, RelayEventView::Sent(true), (asked - 1) as nat, (taken - 1) as nat);
    }
    reveal_with_fuel(relay_sends, 3);
}

/// An event asks for a reload exactly where it is a modification more than half a
/// second after the last one that did, and then its time is kept in place of that
/// one's.
pub proof fn law_a_late_modification_asks_for_a_reload(
    before: Debouncer,
    event: WatchEvent,
    now: u128,
    after: Debouncer,
    reload: bool,
)
    requires
        reload == asks_for_reload(before.last as int, event, now as int),
        after.last == (if reload {
            now
        } else {
            before.last
        }),
    ensures
        reload <==> event == WatchEvent::Modified && now > before.last + 500_000_000,
        event == WatchEvent::Modified && now > before.last + 500_000_000 ==> after.last == now,
        !(event == WatchEvent::Modified && now > before.last + 500_000_000) ==> after.last
            == before.last,
{
}

/// A watcher that cannot be made, or cannot watch, ends the watching with an error that
/// says why. One that watches has each request passed on and the next one waited for,
/// until none comes or nobody takes it.
pub proof fn law_requests_are_passed_on_one_by_one(
    path: &str,
    event: RelayEvent,
    action: RelayAction,
)
    requires
        call_ensures(next_relay_action, (path, &event), action),
    ensures
        match event {
            RelayEvent::Made(Some(reason)) => action matches RelayAction::Fail(message) && message@
                == "Watcher init failed: "@ + reason@,
            RelayEvent::Made(None) => action is Watch,
            RelayEvent::Watching(Some(reason)) => action matches RelayAction::Fail(message)
                && message@ == "Failed to watch "@ + path@ + ": "@ + reason@,
            RelayEvent::Watching(None) => action is Wait,
            RelayEvent::Asked(true) => action is Send,
            RelayEvent::Sent(true) => action is Wait,
            RelayEvent::Asked(false) => action is Stop,
            RelayEvent::Sent(false) => action is Stop,
        },
{
}

} // verus!
