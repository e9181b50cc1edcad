//! Calendar events and the one status that a list of them comes down to.

use crate::moment::{Day, Moment};
use vstd::prelude::*;
use vstd::string::StringExecFns;

verus! {

/// The longest an event may last and still be shown: 2 h 30 min, in
/// nanoseconds. Longer entries are whole-day or multi-day blocks.
pub const REASONABLE_NANOS: i128 = 9_000_000_000_000;

/// The unit in which the display counts a duration: 5 min, in nanoseconds.
pub const SLOT_NANOS: i128 = 300_000_000_000;

/// The most slots that the display's one byte can hold.
pub const MAX_SLOTS: u8 = 255;

/// The slots of the default status: eight hours.
pub const DEFAULT_SLOTS: u8 = 96;

/// The most slots of an event that is shown: [`REASONABLE_NANOS`] in slots.
pub const REASONABLE_SLOTS: u8 = 30;

/// What the owner is doing, in the display's three words.
#[derive(Clone, Copy, Debug, PartialEq, Eq, Structural)]
pub enum Status {
    Busy,
    Free,
    Focus,
}

/// One end of an event: a full timestamp, or only a day for events that last
/// whole days.
#[derive(Clone, Copy, Debug, PartialEq, Eq)]
pub struct CalendarDate {
    pub date: Option<Day>,
    pub date_time: Option<Moment>,
}

/// An event as the calendar lists it.
#[derive(Clone, Debug, PartialEq, Eq)]
pub struct CalendarItem {
    pub start: Option<CalendarDate>,
    pub end: Option<CalendarDate>,
    pub summary: String,
    /// The calendar's category for the event; ordinary meetings carry one,
    /// markers of free time carry none.
    pub event_type: Option<String>,
}

/// The status that the display shows.
#[derive(Debug, PartialEq, Eq)]
pub struct CalendarInfo {
    pub status: Status,
    /// Hour and minute at which the shown event began, on the wall clock.
    pub start_time: [u8; 2],
    /// Length of the shown event in units of five minutes.
    pub duration: u8,
    pub label: String,
}

/// A [`CalendarInfo`] as a plain value.
pub struct DisplayStatus {
    pub status: Status,
    pub start_hour: u8,
    pub start_minute: u8,
    pub duration_slots: u8,
    pub label: Seq<char>,
}

impl View for CalendarInfo {
    type V = DisplayStatus;

    open spec fn view(&self) -> DisplayStatus {
        DisplayStatus {
            status: self.status,
            start_hour: self.start_time[0],
            start_minute: self.start_time[1],
            duration_slots: self.duration,
            label: self.label@,
        }
    }
}

/// Five-minute slots from `start` to `end`: whole slots only, none for an end
/// that is not after its start, and no more than a byte can hold.
pub open spec fn slots_between(start: Moment, end: Moment) -> int {
    let length = end.instant() - start.instant();
    if length <= 0 {
        0
    } else if length / (SLOT_NANOS as int) >= MAX_SLOTS {
        MAX_SLOTS as int
    } else {
        length / (SLOT_NANOS as int)
    }
}

impl DisplayStatus {
    /// What is shown when no event claims the moment: free for a nominal
    /// working day, 09:00 and eight hours on.
    pub open spec fn default_free() -> DisplayStatus {
        DisplayStatus {
            status: Status::Free,
            start_hour: 9,
            start_minute: 0,
            duration_slots: DEFAULT_SLOTS,
            label: "Free"@,
        }
    }
}

impl CalendarDate {
    /// The moment that this end of an event names. A day alone names its
    /// first moment on a clock `local_offset` seconds ahead of UTC.
    pub open spec fn spec_datetime(self, local_offset: i32) -> Option<Moment> {
        match self.date_time {
            Some(at) => Some(at),
            None => match self.date {
                Some(day) => Moment::spec_start_of(day, local_offset),
                None => None,
            },
        }
    }

    /// Whether this end of an event names a day and no time of day.
    pub open spec fn is_whole_day(self) -> bool {
        self.date_time is None && self.date is Some
    }

    /// The moment that this end of an event names. A whole day begins at
    /// midnight on the local clock.
    pub fn datetime(&self, local_offset: i32) -> (at: Option<Moment>)
        ensures
            at == self.spec_datetime(local_offset),
            self.is_whole_day() ==> (at matches Some(midnight) ==> midnight.spec_hour() == 0
                && midnight.spec_minute() == 0 && midnight.offset == local_offset),
    {
        match self.date_time {
            Some(at) => Some(at),
            None => match self.date {
                Some(day) => Moment::start_of(&day, local_offset),
                None => None,
            },
        }
    }
}

/// Whether a status derived from `event` replaces one of kind `current`:
/// anything replaces free time, and a meeting replaces anything.
pub open spec fn supersedes(current: Status, event: Status) -> bool {
    current == Status::Free || event == Status::Busy
}

impl CalendarItem {
    pub open spec fn spec_start(&self, local_offset: i32) -> Option<Moment> {
        match self.start {
            Some(date) => date.spec_datetime(local_offset),
            None => None,
        }
    }

    /// Whether the event's start names a day and no time of day.
    pub open spec fn starts_on_whole_day(&self) -> bool {
        self.start matches Some(date) && date.is_whole_day()
    }

    pub open spec fn spec_end(&self, local_offset: i32) -> Option<Moment> {
        match self.end {
            Some(date) => date.spec_datetime(local_offset),
            None => None,
        }
    }

    /// An event is worth showing at `now` when both its ends are known, it
    /// has begun and not yet ended, and it lasts no more than 2 h 30 min.
    /// Its kind plays no part.
    pub open spec fn reasonable(&self, now: Moment) -> bool {
        &&& self.spec_start(now.offset) matches Some(start)
        &&& self.spec_end(now.offset) matches Some(end)
        &&& start.instant() <= now.instant() <= end.instant()
        &&& end.instant() - start.instant() <= REASONABLE_NANOS
    }

    /// No category marks free time, the category `focusTime` marks focus
    /// time, and any other marks a meeting.
    pub open spec fn spec_status_type(&self) -> Status {
        match self.event_type {
            None => Status::Free,
            Some(kind) => if kind@ == "focusTime"@ {
                Status::Focus
            } else {
                Status::Busy
            },
        }
    }

    /// Hour and minute of the start on its own wall clock; midnight where the
    /// start is unknown.
    pub open spec fn spec_start_time(&self, local_offset: i32) -> (int, int) {
        match self.spec_start(local_offset) {
            Some(start) => (start.spec_hour(), start.spec_minute()),
            None => (0, 0),
        }
    }

    /// The event's length in slots; none where an end is unknown.
    pub open spec fn spec_duration(&self, local_offset: i32) -> int {
        match (self.spec_start(local_offset), self.spec_end(local_offset)) {
            (Some(start), Some(end)) => slots_between(start, end),
            _ => 0,
        }
    }

    /// The status that the display shows while this event claims the moment.
    pub open spec fn shown(&self, local_offset: i32) -> DisplayStatus {
        DisplayStatus {
            status: self.spec_status_type(),
            start_hour: self.spec_start_time(local_offset).0 as u8,
            start_minute: self.spec_start_time(local_offset).1 as u8,
            duration_slots: self.spec_duration(local_offset) as u8,
            label: self.summary@,
        }
    }

    fn start_moment(&self, local_offset: i32) -> (at: Option<Moment>)
        ensures
            at == self.spec_start(local_offset),
            self.starts_on_whole_day() ==> (at matches Some(midnight) ==> midnight.spec_hour()
                == 0 && midnight.spec_minute() == 0),
    {
        match &self.start {
            Some(date) => date.datetime(local_offset),
            None => None,
        }
    }

    fn end_moment(&self, local_offset: i32) -> (at: Option<Moment>)
        ensures
            at == self.spec_end(local_offset),
    {
        match &self.end {
            Some(date) => date.datetime(local_offset),
            None => None,
        }
    }

    /// Whether the event is worth showing at `now`. The offset of `now` is
    /// the local one, on which whole-day events begin.
    pub fn is_reasonable_length(&self, now: &Moment) -> (yes: bool)
        ensures
            yes == self.reasonable(*now),
    {
        let start = match self.start_moment(now.offset) {
            Some(start) => start,
            None => return false,
        };
        let end = match self.end_moment(now.offset) {
            Some(end) => end,
            None => return false,
        };
        if now.is_before(&start) || end.is_before(now) {
            return false;
        }
        end.nanos_since(&start) <= REASONABLE_NANOS
    }

    /// Hour and minute of the start on its own wall clock; midnight where the
    /// start is unknown, and for a start that is a whole day.
    pub fn start_time(&self, local_offset: i32) -> (at: [u8; 2])
        ensures
            (at[0] as int, at[1] as int) == self.spec_start_time(local_offset),
            self.starts_on_whole_day() ==> at[0] == 0 && at[1] == 0,
    {
        match self.start_moment(local_offset) {
            Some(start) => [start.hour(), start.minute()],
            None => [0, 0],
        }
    }

    pub fn duration(&self, local_offset: i32) -> (slots: u8)
        ensures
            slots == self.spec_duration(local_offset),
    {
        let start = match self.start_moment(local_offset) {
            Some(start) => start,
            None => return 0,
        };
        let end = match self.end_moment(local_offset) {
            Some(end) => end,
            None => return 0,
        };
        let length = end.nanos_since(&start);
        if length <= 0 {
            0
        } else if length / SLOT_NANOS >= MAX_SLOTS as i128 {
            MAX_SLOTS
        } else {
            (length / SLOT_NANOS) as u8
        }
    }

    pub fn status_type(&self) -> (kind: Status)
        ensures
            kind == self.spec_status_type(),
    {
        match &self.event_type {
            None => Status::Free,
            Some(kind) => {
                let focus = String::from_str("focusTime");
                if *kind == focus {
                    Status::Focus
                } else {
                    Status::Busy
                }
            },
        }
    }
}

/// The status after the events of `claims`, each of which is worth showing,
/// have been taken in order: the default to begin with, then each event in
/// turn replaces what stands wherever [`supersedes`] lets it.
pub open spec fn settle(claims: Seq<CalendarItem>, local_offset: i32) -> DisplayStatus
    decreases claims.len(),
{
    if claims.len() == 0 {
        DisplayStatus::default_free()
    } else {
        let standing = settle(claims.drop_last(), local_offset);
        let event = claims.last();
        if supersedes(standing.status, event.spec_status_type()) {
            event.shown(local_offset)
        } else {
            standing
        }
    }
}

/// The events of `events` that are worth showing at `now`, in their order.
pub open spec fn claims_at(events: Seq<CalendarItem>, now: Moment) -> Seq<CalendarItem> {
    events.filter(|event: CalendarItem| event.reasonable(now))
}

/// Whether `shown` is what `event` puts on the display at `now`, `event` being
/// worth showing then, with 00:00 for a start that is a whole day.
pub open spec fn shows(shown: DisplayStatus, event: CalendarItem, now: Moment) -> bool {
    &&& event.reasonable(now)
    &&& shown == event.shown(now.offset)
    &&& event.starts_on_whole_day() ==> shown.start_hour == 0 && shown.start_minute == 0
}

/// The one status that `events` come down to at `now`.
pub open spec fn resolved(events: Seq<CalendarItem>, now: Moment) -> DisplayStatus {
    settle(claims_at(events, now), now.offset)
}

proof fn lemma_claims_push(events: Seq<CalendarItem>, event: CalendarItem, now: Moment)
    ensures
        claims_at(events.push(event), now) == if event.reasonable(now) {
            claims_at(events, now).push(event)
        } else {
            claims_at(events, now)
        },
        claims_at(events, now).push(event).drop_last() == claims_at(events, now),
{
    reveal(Seq::filter);
    assert(events.push(event).drop_last() == events);
}

impl Clone for CalendarInfo {
    fn clone(&self) -> (copy: CalendarInfo)
        ensures
            copy == *self,
    {
        CalendarInfo {
            status: self.status,
            start_time: self.start_time,
            duration: self.duration,
            label: self.label.clone(),
        }
    }
}

impl CalendarInfo {
    /// The status shown when no event claims the moment.
    pub fn default_free() -> (info: CalendarInfo)
        ensures
            info@ == DisplayStatus::default_free(),
    {
        CalendarInfo {
            status: Status::Free,
            start_time: [9, 0],
            duration: DEFAULT_SLOTS,
            label: String::from_str("Free"),
        }
    }

    /// The status that `event` puts on the display.
    pub fn of_event(event: &CalendarItem, local_offset: i32) -> (info: CalendarInfo)
        ensures
            info@ == event.shown(local_offset),
            event.starts_on_whole_day() ==> info@.start_hour == 0 && info@.start_minute == 0,
    {
        CalendarInfo {
            status: event.status_type(),
            start_time: event.start_time(local_offset),
            duration: event.duration(local_offset),
            label: event.summary.clone(),
        }
    }
}

/// Reduces a list of calendar events to the status to show at `now`.
///
/// Events that are not in progress at `now`, or that last more than 2 h 30
/// min, are passed over. Of the rest a meeting beats focus time and free
/// time, and focus time beats free time. With nothing left the display shows
/// the default free status. So the duration shown is the default's 96 slots
/// or at most the 30 slots of the longest event that is shown, and what is
/// shown is the default or belongs to one of the events worth showing.
pub fn resolve(events: &Vec<CalendarItem>, now: &Moment) -> (info: CalendarInfo)
    ensures
        info@ == resolved(events@, *now),
        events@.len() == 0 ==> info@ == DisplayStatus::default_free(),
        info@ == DisplayStatus::default_free() || info@.duration_slots <= REASONABLE_SLOTS,
        info@.duration_slots <= DEFAULT_SLOTS,
        info@ == DisplayStatus::default_free() || exists|k: int|
            0 <= k < events@.len() && shows(info@, #[trigger] events@[k], *now),
{
    let mut standing = CalendarInfo::default_free();
    let mut i: usize = 0;
    proof {
        assert(events@.take(0) =~= Seq::empty());
        reveal(Seq::filter);
    }
    while i < events.len()
        invariant
            i <= events.len(),
            standing@ == resolved(events@.take(i as int), *now),
            standing@ == DisplayStatus::default_free() || exists|k: int|
                0 <= k < i && shows(standing@, #[trigger] events@[k], *now),
        decreases events.len() - i,
    {
        let event = &events[i];
        proof {
            assert(events@.take(i + 1) =~= events@.take(i as int).push(*event));
            lemma_claims_push(events@.take(i as int), *event, *now);
        }
        if event.is_reasonable_length(now) {
            let kind = event.status_type();
            if matches!(standing.status, Status::Free) || matches!(kind, Status::Busy) {
                standing = CalendarInfo::of_event(event, now.offset);
                assert(shows(standing@, events@[i as int], *now));
            }
        }
        i = i + 1;
    }
    proof {
        assert(events@.take(events@.len() as int) =~= events@);
        lemma_duration_bounded(events@, *now);
    }
    standing
}

/// Whether `event` is worth showing at `now` and of kind `kind`.
pub open spec fn claims_as(event: CalendarItem, now: Moment, kind: Status) -> bool {
    event.reasonable(now) && event.spec_status_type() == kind
}

/// [`resolved`] told as one pass over all events, those not worth showing
/// left where they stand.
spec fn tally(events: Seq<CalendarItem>, now: Moment) -> DisplayStatus
    decreases events.len(),
{
    if events.len() == 0 {
        DisplayStatus::default_free()
    } else {
        let standing = tally(events.drop_last(), now);
        let event = events.last();
        if event.reasonable(now) && supersedes(standing.status, event.spec_status_type()) {
            event.shown(now.offset)
        } else {
            standing
        }
    }
}

proof fn lemma_resolved_is_tally(events: Seq<CalendarItem>, now: Moment)
    ensures
        resolved(events, now) == tally(events, now),
    decreases events.len(),
{
    if events.len() == 0 {
        reveal(Seq::filter);
    } else {
        let earlier = events.drop_last();
        lemma_resolved_is_tally(earlier, now);
        lemma_claims_push(earlier, events.last(), now);
        assert(earlier.push(events.last()) =~= events);
    }
}

proof fn lemma_tally_free(events: Seq<CalendarItem>, now: Moment)
    requires
        forall|j: int|
            0 <= j < events.len() ==> !claims_as(#[trigger] events[j], now, Status::Busy)
                && !claims_as(events[j], now, Status::Focus),
    ensures
        tally(events, now).status == Status::Free,
    decreases events.len(),
{
    if events.len() > 0 {
        lemma_tally_free(events.drop_last(), now);
    }
}

/// With no event worth showing, and so with no event at all, the display
/// shows the default free status.
pub proof fn lemma_nothing_to_show(events: Seq<CalendarItem>, now: Moment)
    requires
        forall|j: int| 0 <= j < events.len() ==> !(#[trigger] events[j]).reasonable(now),
    ensures
        resolved(events, now) == DisplayStatus::default_free(),
    decreases events.len(),
{
    lemma_resolved_is_tally(events, now);
    if events.len() > 0 {
        lemma_nothing_to_show(events.drop_last(), now);
        lemma_resolved_is_tally(events.drop_last(), now);
    }
}

/// What is shown never lasts longer than the default's eight hours: an event
/// that is shown lasts at most 2 h 30 min, which is 30 slots.
pub proof fn lemma_duration_bounded(events: Seq<CalendarItem>, now: Moment)
    ensures
        resolved(events, now) == DisplayStatus::default_free() || resolved(
            events,
            now,
        ).duration_slots <= REASONABLE_SLOTS,
        resolved(events, now).duration_slots <= DEFAULT_SLOTS,
    decreases events.len(),
{
    lemma_resolved_is_tally(events, now);
    if events.len() > 0 {
        lemma_duration_bounded(events.drop_last(), now);
        lemma_resolved_is_tally(events.drop_last(), now);
    }
}

/// A meeting in progress always wins: whatever else is listed, the display
/// shows the last meeting that is worth showing.
pub proof fn lemma_meeting_wins(events: Seq<CalendarItem>, now: Moment, i: int)
    requires
        0 <= i < events.len(),
        claims_as(events[i], now, Status::Busy),
        forall|j: int| i < j < events.len() ==> !claims_as(#[trigger] events[j], now, Status::Busy),
    ensures
        resolved(events, now) == events[i].shown(now.offset),
        resolved(events, now).status == Status::Busy,
    decreases events.len(),
{
    lemma_resolved_is_tally(events, now);
    if i < events.len() - 1 {
        let earlier = events.drop_last();
        lemma_meeting_wins(earlier, now, i);
        lemma_resolved_is_tally(earlier, now);
        assert(!claims_as(events[events.len() - 1], now, Status::Busy));
    }
}

/// Focus time wins over free time: with no meeting worth showing, the
/// display shows the first focus block that is, and no later focus block or
/// marker of free time replaces it.
pub proof fn lemma_focus_beats_free(events: Seq<CalendarItem>, now: Moment, i: int)
    requires
        0 <= i < events.len(),
        claims_as(events[i], now, Status::Focus),
        forall|j: int| 0 <= j < i ==> !claims_as(#[trigger] events[j], now, Status::Focus),
        forall|j: int| 0 <= j < events.len() ==> !claims_as(#[trigger] events[j], now, Status::Busy),
    ensures
        resolved(events, now) == events[i].shown(now.offset),
        resolved(events, now).status == Status::Focus,
    decreases events.len(),
{
    lemma_resolved_is_tally(events, now);
    let earlier = events.drop_last();
    if i < events.len() - 1 {
        lemma_focus_beats_free(earlier, now, i);
        lemma_resolved_is_tally(earlier, now);
        assert(!claims_as(events[events.len() - 1], now, Status::Busy));
    } else {
        lemma_tally_free(earlier, now);
    }
}

/// Free time never overrides: a marker of free time is shown only where no
/// meeting and no focus block is worth showing, and then the last one is.
pub proof fn lemma_free_time_last(events: Seq<CalendarItem>, now: Moment, i: int)
    requires
        0 <= i < events.len(),
        events[i].reasonable(now),
        forall|j: int| i < j < events.len() ==> !(#[trigger] events[j]).reasonable(now),
        forall|j: int|
            0 <= j < events.len() ==> !claims_as(#[trigger] events[j], now, Status::Busy)
                && !claims_as(events[j], now, Status::Focus),
    ensures
        resolved(events, now) == events[i].shown(now.offset),
        resolved(events, now).status == Status::Free,
    decreases events.len(),
{
    lemma_resolved_is_tally(events, now);
    let earlier = events.drop_last();
    if i < events.len() - 1 {
        lemma_free_time_last(earlier, now, i);
        lemma_resolved_is_tally(earlier, now);
        assert(!events[events.len() - 1].reasonable(now));
    } else {
        lemma_tally_free(earlier, now);
        assert(!claims_as(events[i], now, Status::Busy));
        assert(!claims_as(events[i], now, Status::Focus));
    }
}

/// A marker of free time that comes after something else is shown changes
/// nothing.
pub proof fn lemma_free_never_overrides(
    events: Seq<CalendarItem>,
    event: CalendarItem,
    now: Moment,
)
    requires
        event.spec_status_type() == Status::Free,
        resolved(events, now).status != Status::Free,
    ensures
        resolved(events.push(event), now) == resolved(events, now),
{
    lemma_claims_push(events, event, now);
}

/// An event that is not in progress at `now`, or that lasts more than 2 h 30
/// min, is excluded whatever its kind: the result is the same without it.
pub proof fn lemma_unreasonable_excluded(events: Seq<CalendarItem>, now: Moment, i: int)
    requires
        0 <= i < events.len(),
        !events[i].reasonable(now),
    ensures
        resolved(events.remove(i), now) == resolved(events, now),
{
    let worth = |event: CalendarItem| event.reasonable(now);
    let before = events.take(i);
    let one = seq![events[i]];
    let after = events.skip(i + 1);
    assert(events =~= before + one + after);
    assert(events.remove(i) =~= before + after);
    Seq::filter_distributes_over_add(before + one, after, worth);
    Seq::filter_distributes_over_add(before, one, worth);
    Seq::filter_distributes_over_add(before, after, worth);
    assert(one.filter(worth) =~= Seq::empty()) by {
        reveal_with_fuel(Seq::filter, 2);
        assert(one.drop_last() =~= Seq::empty());
    }
    assert(before.filter(worth) + one.filter(worth) =~= before.filter(worth));
}

} // verus!
