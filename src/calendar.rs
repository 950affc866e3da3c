use vstd::prelude::*;
use vstd::string::StringExecFns;
use crate::record::{TimeData, TimeTrackingEntry};
use crate::text::push_char;
use crate::date_format::DateTimeFields;

verus! {

/// The name that every calendar document built here carries.
pub open spec fn calendar_name() -> Seq<char> {
    "Time Logging"@
}

/// One calendar event: a title, a free-text body, and the UTC instants it spans.
#[derive(Debug)]
pub struct CalendarEvent {
    pub summary: String,
    pub description: String,
    pub start: DateTimeFields,
    pub end: DateTimeFields,
}

/// A named calendar: its events in order.
#[derive(Debug)]
pub struct CalendarDocument {
    pub name: String,
    pub events: Vec<CalendarEvent>,
}

impl CalendarDocument {
    /// Every event spans existing seconds of the calendar.
    pub open spec fn wf(&self) -> bool {
        forall|i: int|
            0 <= i < self.events@.len() ==> (#[trigger] self.events@[i]).start.wf()
                && self.events@[i].end.wf()
    }
}

/// What an event holds: title, body, start, end.
pub type EventModel = (Seq<char>, Seq<char>, DateTimeFields, DateTimeFields);

/// What an entry holds: identifier, start, end, tags.
pub type EntryModel = (i64, DateTimeFields, DateTimeFields, Seq<Seq<char>>);

/// The text of each string.
pub open spec fn texts(v: Seq<String>) -> Seq<Seq<char>> {
    v.map_values(|s: String| s@)
}

/// The parts joined, with a comma between each two; empty where there are none.
pub open spec fn join_with_commas(parts: Seq<Seq<char>>) -> Seq<char>
    decreases parts.len(),
{
    if parts.len() == 0 {
        Seq::empty()
    } else if parts.len() == 1 {
        parts[0]
    } else {
        join_with_commas(parts.drop_last()) + seq![','] + parts.last()
    }
}

/// The model of an entry: identifier, start, end, and the text of each tag.
pub open spec fn entry_view(e: TimeTrackingEntry) -> EntryModel {
    (e.id, e.start, e.end, texts(e.tags@))
}

/// The model of an event: title, body, start, end.
pub open spec fn event_view(ev: CalendarEvent) -> EventModel {
    (ev.summary@, ev.description@, ev.start, ev.end)
}

/// The event for an entry: its first tag is the title, the others joined by commas
/// the body, and it spans the entry's interval.
pub open spec fn event_for(e: EntryModel) -> EventModel {
    (e.3[0], join_with_commas(e.3.subrange(1, e.3.len() as int)), e.1, e.2)
}

/// The events for the data, one per entry, in entry order.
pub open spec fn calendar_for(d: TimeData) -> Seq<EventModel> {
    d.entries@.map_values(|e: TimeTrackingEntry| event_for(entry_view(e)))
}

/// The events of a calendar document, in order.
pub open spec fn events_of(c: CalendarDocument) -> Seq<EventModel> {
    c.events@.map_values(|ev: CalendarEvent| event_view(ev))
}

/// `c` is the calendar document built for `d`.
pub open spec fn built_from(c: CalendarDocument, d: TimeData) -> bool {
    &&& c.name@ == calendar_name()
    &&& events_of(c) == calendar_for(d)
}

/// The tags after the first, joined with commas; empty where there is only one.
pub fn join_remaining_tags(tags: &Vec<String>) -> (r: String)
    requires
        tags@.len() >= 1,
    ensures
        r@ == join_with_commas(texts(tags@).subrange(1, tags@.len() as int)),
{
    let mut s = String::new();
    let mut k: usize = 1;
    while k < tags.len()
        invariant
            1 <= k <= tags@.len(),
            s@ == join_with_commas(texts(tags@).subrange(1, k as int)),
        decreases tags@.len() - k,
    {
        let ghost before = texts(tags@).subrange(1, k as int);
        let ghost after = texts(tags@).subrange(1, k + 1);
        assert(after.drop_last() =~= before);
        if k > 1 {
            push_char(&mut s, ',');
        }
        s.append(tags[k].as_str());
        assert(s@ =~= join_with_commas(after));
        k = k + 1;
    }
    s
}

impl TimeData {
    /// Builds the calendar document named `Time Logging`, with one event per entry, in
    /// entry order: the title is the entry's first tag, the body its other tags joined
    /// by commas, and the event spans the entry's start and end.
    pub fn create_calendar(&self) -> (r: CalendarDocument)
        requires
            self.wf(),
        ensures
            built_from(r, *self),
            r.wf(),
    {
        let mut events: Vec<CalendarEvent> = Vec::new();
        let mut i: usize = 0;
        while i < self.entries.len()
            invariant
                self.wf(),
                0 <= i <= self.entries@.len(),
                events@.len() == i,
                forall|k: int|
                    0 <= k < i ==> (#[trigger] events@[k]).start.wf() && events@[k].end.wf(),
                forall|k: int|
                    0 <= k < i ==> event_view(#[trigger] events@[k]) == event_for(
                        entry_view(self.entries@[k]),
                    ),
            decreases self.entries@.len() - i,
        {
            let entry = &self.entries[i];
            assert(entry.wf());
            let summary = entry.tags[0].clone();
            let description = join_remaining_tags(&entry.tags);
            events.push(CalendarEvent { summary, description, start: entry.start, end: entry.end });
            i = i + 1;
        }
        let r = CalendarDocument { name: String::from_str("Time Logging"), events };
        assert(events_of(r) =~= calendar_for(*self));
        r
    }
}

/// Building a calendar is deterministic: two data sets that hold the same entries,
/// field for field and in the same order, give calendars with the same events (title,
/// body, start and end) in the same order, and the same name.
pub proof fn lemma_calendar_deterministic(
    d1: TimeData,
    d2: TimeData,
    c1: CalendarDocument,
    c2: CalendarDocument,
)
    requires
        d1.entries@.map_values(|e: TimeTrackingEntry| entry_view(e)) == d2.entries@.map_values(
            |e: TimeTrackingEntry| entry_view(e),
        ),
        built_from(c1, d1),
        built_from(c2, d2),
    ensures
        events_of(c1) == events_of(c2),
        c1.name@ == c2.name@,
{
    let v1 = d1.entries@.map_values(|e: TimeTrackingEntry| entry_view(e));
    let v2 = d2.entries@.map_values(|e: TimeTrackingEntry| entry_view(e));
    assert(d1.entries@.len() == v1.len());
    assert forall|i: int| 0 <= i < d1.entries@.len() implies #[trigger] calendar_for(d1)[i]
        == calendar_for(d2)[i] by {
        assert(v1[i] == v2[i]);
    }
    assert(calendar_for(d1) =~= calendar_for(d2));
}

} // verus!
