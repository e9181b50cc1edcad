//! The watcher: it listens for the display's advertisements and decides, one
//! event at a time, whether the latest status is to be written to it now.

use crate::calendar::{CalendarInfo, DisplayStatus};
use crate::text::{contains, occurs_in};
use crate::wire::wire_text;
use crate::writer::WriteError;
use vstd::prelude::*;
use vstd::string::StrSliceExecFns;
use vstd::utf8::encode_utf8;

verus! {

/// A peripheral is the display if its advertised name holds this text.
pub const TARGET_DEVICE: &'static str = "DoorSign";

/// The least time between two successful writes.
pub const COOLDOWN_SEC: u64 = 30;

/// [`COOLDOWN_SEC`] in the unit of the watcher's clock.
pub const COOLDOWN_MS: u64 = COOLDOWN_SEC * 1000;

/// What the watcher hands to the writer: the status to put on the display.
#[derive(Debug, PartialEq, Eq)]
pub struct DisplayRequest {
    pub calendar_info: CalendarInfo,
}

impl View for DisplayRequest {
    type V = DisplayStatus;

    open spec fn view(&self) -> DisplayStatus {
        self.calendar_info@
    }
}

impl DisplayRequest {
    pub fn new(calendar_info: CalendarInfo) -> (request: DisplayRequest)
        ensures
            request.calendar_info == calendar_info,
    {
        DisplayRequest { calendar_info }
    }

    /// The bytes to write to the display: the status as JSON text, in UTF-8.
    pub fn payload(&self) -> (bytes: Vec<u8>)
        ensures
            bytes@ == encode_utf8(wire_text(self@)),
    {
        let text = self.calendar_info.to_json();
        text.as_str().as_bytes_vec()
    }
}

/// Where the watcher stands. It starts out scanning and is scanning again
/// after every outcome.
#[derive(Clone, Copy, Debug, PartialEq, Eq, Structural)]
pub enum WatcherState {
    /// Listening for advertisements.
    Scanning,
    /// The display advertised; the time is wanted.
    CandidateSeen,
    /// The cooldown is over; the latest status is wanted.
    CooldownCheck,
    /// Scanning is paused and a write is under way.
    Writing,
}

/// What happened, as the caller reports it.
#[derive(Debug, PartialEq, Eq)]
pub enum WatcherEvent {
    /// The radio discovered or updated a peripheral that advertises this
    /// name, or none.
    Advertisement(Option<String>),
    /// The monotonic clock reads this many milliseconds.
    Clock(u64),
    /// The shared cell held this when it was read.
    Snapshot(Option<CalendarInfo>),
    /// The write ended in this way, at this reading of the clock.
    WriteFinished(Result<(), WriteError>, u64),
}

/// What the caller is to do next.
#[derive(Debug, PartialEq, Eq)]
pub enum WatcherAction {
    /// Go on scanning, or resume it, and report the next advertisement.
    Observe,
    /// Report the time.
    ReadClock,
    /// Report a snapshot of the shared cell.
    ReadStatus,
    /// Pause scanning, have the writer deliver this, and report how it went.
    Write(DisplayRequest),
    /// Report how the write under way went.
    AwaitWrite,
}

/// A [`WatcherAction`] as a plain value.
pub enum WatcherActionView {
    Observe,
    ReadClock,
    ReadStatus,
    Write(DisplayStatus),
    AwaitWrite,
}

impl View for WatcherAction {
    type V = WatcherActionView;

    open spec fn view(&self) -> WatcherActionView {
        match self {
            WatcherAction::Observe => WatcherActionView::Observe,
            WatcherAction::ReadClock => WatcherActionView::ReadClock,
            WatcherAction::ReadStatus => WatcherActionView::ReadStatus,
            WatcherAction::Write(request) => WatcherActionView::Write(request@),
            WatcherAction::AwaitWrite => WatcherActionView::AwaitWrite,
        }
    }
}

/// Whether an advertisement under `local_name` comes from the display.
pub open spec fn names_target(local_name: Option<String>) -> bool {
    match local_name {
        Some(name) => occurs_in(TARGET_DEVICE@, name@),
        None => false,
    }
}

/// Whether, at `now`, less than the cooldown has passed since the last
/// successful write. Before the first successful write there is no cooldown.
pub open spec fn in_cooldown(last_write: Option<u64>, now: u64) -> bool {
    match last_write {
        Some(at) => now - at < COOLDOWN_MS,
        None => false,
    }
}

impl WatcherState {
    /// What a watcher in this state is waiting to be told.
    pub open spec fn pending(self) -> WatcherActionView {
        match self {
            WatcherState::Scanning => WatcherActionView::Observe,
            WatcherState::CandidateSeen => WatcherActionView::ReadClock,
            WatcherState::CooldownCheck => WatcherActionView::ReadStatus,
            WatcherState::Writing => WatcherActionView::AwaitWrite,
        }
    }
}

/// The watcher's memory: its state, and when it last wrote with success.
#[derive(Clone, Copy, Debug, PartialEq, Eq)]
pub struct DeviceWatcher {
    pub state: WatcherState,
    /// The clock's reading at the end of the last successful write.
    pub last_write: Option<u64>,
}

impl DeviceWatcher {
    /// The watcher after `event`. An event that the state does not wait for
    /// changes nothing.
    pub open spec fn after(self, event: WatcherEvent) -> DeviceWatcher {
        match (self.state, event) {
            (WatcherState::Scanning, WatcherEvent::Advertisement(name)) => DeviceWatcher {
                state: if names_target(name) {
                    WatcherState::CandidateSeen
                } else {
                    WatcherState::Scanning
                },
                last_write: self.last_write,
            },
            (WatcherState::CandidateSeen, WatcherEvent::Clock(now)) => DeviceWatcher {
                state: if in_cooldown(self.last_write, now) {
                    WatcherState::Scanning
                } else {
                    WatcherState::CooldownCheck
                },
                last_write: self.last_write,
            },
            (WatcherState::CooldownCheck, WatcherEvent::Snapshot(status)) => DeviceWatcher {
                state: if status is Some {
                    WatcherState::Writing
                } else {
                    WatcherState::Scanning
                },
                last_write: self.last_write,
            },
            (WatcherState::Writing, WatcherEvent::WriteFinished(outcome, now)) => DeviceWatcher {
                state: WatcherState::Scanning,
                last_write: if outcome is Ok {
                    Some(now)
                } else {
                    self.last_write
                },
            },
            _ => self,
        }
    }

    /// What the watcher asks for in answer to `event`: a write when a status
    /// is reported to it while it checks the cooldown, and otherwise what its
    /// new state waits for.
    pub open spec fn reply(self, event: WatcherEvent) -> WatcherActionView {
        match (self.state, event) {
            (WatcherState::CooldownCheck, WatcherEvent::Snapshot(Some(status))) => WatcherActionView::Write(
                status@,
            ),
            _ => self.after(event).state.pending(),
        }
    }

    /// A watcher that scans and has not written yet.
    pub fn new() -> (watcher: DeviceWatcher)
        ensures
            watcher.state == WatcherState::Scanning,
            watcher.last_write is None,
    {
        DeviceWatcher { state: WatcherState::Scanning, last_write: None }
    }

    fn cooling(&self, now: u64) -> (yes: bool)
        ensures
            yes == in_cooldown(self.last_write, now),
    {
        match self.last_write {
            Some(at) => now < at || now - at < COOLDOWN_MS,
            None => false,
        }
    }

    /// Takes in one event and says what to do next.
    pub fn step(&mut self, event: WatcherEvent) -> (action: WatcherAction)
        ensures
            *final(self) == old(self).after(event),
            action@ == old(self).reply(event),
    {
        match (self.state, event) {
            (WatcherState::Scanning, WatcherEvent::Advertisement(name)) => {
                let seen = match &name {
                    Some(name) => contains(name.as_str(), TARGET_DEVICE),
                    None => false,
                };
                if seen {
                    self.state = WatcherState::CandidateSeen;
                    WatcherAction::ReadClock
                } else {
                    WatcherAction::Observe
                }
            },
            (WatcherState::CandidateSeen, WatcherEvent::Clock(now)) => {
                if self.cooling(now) {
                    self.state = WatcherState::Scanning;
                    WatcherAction::Observe
                } else {
                    self.state = WatcherState::CooldownCheck;
                    WatcherAction::ReadStatus
                }
            },
            (WatcherState::CooldownCheck, WatcherEvent::Snapshot(status)) => {
                match status {
                    Some(info) => {
                        self.state = WatcherState::Writing;
                        WatcherAction::Write(DisplayRequest::new(info))
                    },
                    None => {
                        self.state = WatcherState::Scanning;
                        WatcherAction::Observe
                    },
                }
            },
            (WatcherState::Writing, WatcherEvent::WriteFinished(outcome, now)) => {
                self.state = WatcherState::Scanning;
                if outcome.is_ok() {
                    self.last_write = Some(now);
                }
                WatcherAction::Observe
            },
            (WatcherState::Scanning, _) => WatcherAction::Observe,
            (WatcherState::CandidateSeen, _) => WatcherAction::ReadClock,
            (WatcherState::CooldownCheck, _) => WatcherAction::ReadStatus,
            (WatcherState::Writing, _) => WatcherAction::AwaitWrite,
        }
    }
}

impl DeviceWatcher {
    /// The watcher after one advertisement has been followed through: the
    /// advertisement under `name`, then the clock's reading `now`, then the
    /// cell's content `status`, each asked for or not.
    pub open spec fn after_wake(
        self,
        name: Option<String>,
        now: u64,
        status: Option<CalendarInfo>,
    ) -> DeviceWatcher {
        self.after(WatcherEvent::Advertisement(name)).after(WatcherEvent::Clock(now)).after(
            WatcherEvent::Snapshot(status),
        )
    }

    /// The watcher after all of `events`, in order.
    pub open spec fn after_all(self, events: Seq<WatcherEvent>) -> DeviceWatcher
        decreases events.len(),
    {
        if events.len() == 0 {
            self
        } else {
            self.after_all(events.drop_last()).after(events.last())
        }
    }

    /// Whether following that advertisement through ends in a write.
    pub open spec fn wake_writes(
        self,
        name: Option<String>,
        now: u64,
        status: Option<CalendarInfo>,
    ) -> bool {
        self.after(WatcherEvent::Advertisement(name)).after(WatcherEvent::Clock(now)).reply(
            WatcherEvent::Snapshot(status),
        ) is Write
    }
}

/// A scanning watcher writes on an advertisement exactly when the name is the
/// display's, the cooldown is over and there is a status to send; it then
/// sends that status. In every other case it is scanning again, and in no
/// case has its cooldown moved.
pub proof fn lemma_wake(
    watcher: DeviceWatcher,
    name: Option<String>,
    now: u64,
    status: Option<CalendarInfo>,
)
    requires
        watcher.state == WatcherState::Scanning,
    ensures
        watcher.wake_writes(name, now, status) == (names_target(name) && !in_cooldown(
            watcher.last_write,
            now,
        ) && status is Some),
        watcher.wake_writes(name, now, status) ==> watcher.after(
            WatcherEvent::Advertisement(name),
        ).after(WatcherEvent::Clock(now)).reply(WatcherEvent::Snapshot(status))
            == WatcherActionView::Write(status->0@),
        watcher.after_wake(name, now, status).state == if watcher.wake_writes(name, now, status) {
            WatcherState::Writing
        } else {
            WatcherState::Scanning
        },
        watcher.after_wake(name, now, status).last_write == watcher.last_write,
{
}

/// Whatever state the watcher is in, a write is asked for only in answer to
/// a snapshot that holds a status, and only by a watcher that has found the
/// cooldown to be over.
pub proof fn lemma_write_only_after_cooldown(watcher: DeviceWatcher, event: WatcherEvent)
    requires
        watcher.reply(event) is Write,
    ensures
        watcher.state == WatcherState::CooldownCheck,
        event matches WatcherEvent::Snapshot(Some(status)) && watcher.reply(event)
            == WatcherActionView::Write(status@),
        watcher.after(event).state == WatcherState::Writing,
{
}

/// The watcher checks the cooldown only after the clock has shown it to be
/// over.
pub proof fn lemma_cooldown_gate(watcher: DeviceWatcher, event: WatcherEvent)
    requires
        watcher.state != WatcherState::CooldownCheck,
        watcher.after(event).state == WatcherState::CooldownCheck,
    ensures
        watcher.state == WatcherState::CandidateSeen,
        event matches WatcherEvent::Clock(now) && !in_cooldown(watcher.last_write, now),
{
}

/// After a successful write that ended at `done`, advertisements that come
/// less than the cooldown later are dropped: two of them, whatever they
/// carry, cause no write and leave the watcher as the write left it.
pub proof fn lemma_cooldown_after_success(
    watcher: DeviceWatcher,
    done: u64,
    first_name: Option<String>,
    first_now: u64,
    first_status: Option<CalendarInfo>,
    second_name: Option<String>,
    second_now: u64,
    second_status: Option<CalendarInfo>,
)
    requires
        watcher.state == WatcherState::Writing,
        first_now - done < COOLDOWN_MS,
        second_now - done < COOLDOWN_MS,
    ensures
        ({
            let written = watcher.after(WatcherEvent::WriteFinished(Ok(()), done));
            let once = written.after_wake(first_name, first_now, first_status);
            &&& written == DeviceWatcher { state: WatcherState::Scanning, last_write: Some(done) }
            &&& !written.wake_writes(first_name, first_now, first_status)
            &&& once == written
            &&& !once.wake_writes(second_name, second_now, second_status)
            &&& once.after_wake(second_name, second_now, second_status) == written
        }),
{
}

/// Whether every reading of the clock among `events` is earlier than `limit`.
pub open spec fn clock_stays_before(events: Seq<WatcherEvent>, limit: int) -> bool {
    forall|i: int|
        0 <= i < events.len() ==> (#[trigger] events[i] matches WatcherEvent::Clock(now) ==> now
            < limit)
}

/// While the clock reads less than the cooldown after the last successful
/// write, nothing is written: whatever is reported to a watcher that is not
/// about to write, and however often the display advertises, no answer asks
/// for a write, and the watcher's memory of that write stays.
pub proof fn lemma_no_write_during_cooldown(
    watcher: DeviceWatcher,
    done: u64,
    events: Seq<WatcherEvent>,
    k: int,
)
    requires
        watcher.state == WatcherState::Scanning || watcher.state == WatcherState::CandidateSeen,
        watcher.last_write == Some(done),
        clock_stays_before(events, done + COOLDOWN_MS),
        0 <= k < events.len(),
    ensures
        !(watcher.after_all(events.take(k)).reply(events[k]) is Write),
        watcher.after_all(events).last_write == Some(done),
        watcher.after_all(events).state == WatcherState::Scanning || watcher.after_all(
            events,
        ).state == WatcherState::CandidateSeen,
{
    lemma_cooldown_holds(watcher, done, events.take(k));
    lemma_cooldown_holds(watcher, done, events);
}

proof fn lemma_cooldown_holds(watcher: DeviceWatcher, done: u64, events: Seq<WatcherEvent>)
    requires
        watcher.state == WatcherState::Scanning || watcher.state == WatcherState::CandidateSeen,
        watcher.last_write == Some(done),
        clock_stays_before(events, done + COOLDOWN_MS),
    ensures
        watcher.after_all(events).last_write == Some(done),
        watcher.after_all(events).state == WatcherState::Scanning || watcher.after_all(
            events,
        ).state == WatcherState::CandidateSeen,
    decreases events.len(),
{
    if events.len() > 0 {
        let earlier = events.drop_last();
        assert forall|i: int| 0 <= i < earlier.len() implies (#[trigger] earlier[i]
            matches WatcherEvent::Clock(now) ==> now < done + COOLDOWN_MS) by {
            assert(earlier[i] == events[i]);
        }
        lemma_cooldown_holds(watcher, done, earlier);
        assert(events.last() == events[events.len() - 1]);
    }
}

/// A write that fails neither starts the cooldown nor extends it: the
/// watcher scans again and remembers the last successful write as before.
pub proof fn lemma_failure_keeps_cooldown(watcher: DeviceWatcher, error: WriteError, now: u64)
    requires
        watcher.state == WatcherState::Writing,
    ensures
        watcher.after(WatcherEvent::WriteFinished(Err(error), now))
            == (DeviceWatcher { state: WatcherState::Scanning, last_write: watcher.last_write }),
{
}

/// After a failed write the next advertisement of the display is written
/// to again, however soon it comes, as long as there is a status to send.
pub proof fn lemma_failure_is_retried(
    watcher: DeviceWatcher,
    name: Option<String>,
    now: u64,
    status: Option<CalendarInfo>,
    error: WriteError,
    failed_at: u64,
    next_name: Option<String>,
    next_now: u64,
    next_status: Option<CalendarInfo>,
)
    requires
        watcher.state == WatcherState::Scanning,
        watcher.wake_writes(name, now, status),
        now <= next_now,
        names_target(next_name),
        next_status is Some,
    ensures
        ({
            let failed = watcher.after_wake(name, now, status).after(
                WatcherEvent::WriteFinished(Err(error), failed_at),
            );
            &&& failed == watcher
            &&& failed.wake_writes(next_name, next_now, next_status)
            &&& failed.after(WatcherEvent::Advertisement(next_name)).after(
                WatcherEvent::Clock(next_now),
            ).reply(WatcherEvent::Snapshot(next_status)) == WatcherActionView::Write(next_status->0@)
        }),
{
}

} // verus!
