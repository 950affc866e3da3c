use vstd::prelude::*;
use chrono::TimeZone;
use icalendar::{Component, EventLike};
use crate::calendar::{CalendarDocument, EventModel, event_view, events_of};
use crate::date_format::DateTimeFields;

verus! {

#[verifier::external_type_specification]
#[verifier::external_body]
pub struct ExCalendar(icalendar::Calendar);

/// `Calendar` dereferences to a slice of these; Verus needs the type declared to take
/// `Calendar` at all.
#[verifier::external_type_specification]
#[verifier::external_body]
pub struct ExCalendarComponent(icalendar::CalendarComponent);

#[verifier::external_type_specification]
#[verifier::external_body]
pub struct ExEvent(icalendar::Event);

/// What an iCalendar event records: title, body, start and end.
pub uninterp spec fn ical_event_model(e: icalendar::Event) -> EventModel;

/// The events of an iCalendar calendar, in order.
pub uninterp spec fn ical_calendar_events(c: icalendar::Calendar) -> Seq<EventModel>;

/// The name of an iCalendar calendar.
pub uninterp spec fn ical_calendar_name(c: icalendar::Calendar) -> Seq<char>;

/// Relies on `chrono::Utc::with_ymd_and_hms`, which gives exactly one instant for
/// fields that name an existing second (hence the `requires`), and on icalendar's
/// `Event` builder, whose `summary`, `description`, `starts` and `ends` each set one
/// property to the value given.
#[verifier::external_body]
fn ical_event(summary: &str, description: &str, start: &DateTimeFields, end: &DateTimeFields) -> (r:
    icalendar::Event)
    requires
        start.wf(),
        end.wf(),
    ensures
        ical_event_model(r) == (summary@, description@, *start, *end),
{
    let utc = |t: &DateTimeFields|
        chrono::Utc.with_ymd_and_hms(
            t.year as i32, t.month as u32, t.day as u32, t.hour as u32, t.minute as u32,
            t.second as u32,
        ).unwrap();
    icalendar::Event::new().summary(summary).description(description).starts(
        icalendar::CalendarDateTime::from(utc(start)),
    ).ends(icalendar::CalendarDateTime::from(utc(end))).done()
}

/// Relies on icalendar's `Calendar`: collecting the events keeps them and their order,
/// and `name` sets the calendar's name.
#[verifier::external_body]
fn ical_calendar(events: Vec<icalendar::Event>, name: &str) -> (r: icalendar::Calendar)
    ensures
        ical_calendar_events(r) == events@.map_values(|e: icalendar::Event| ical_event_model(e)),
        ical_calendar_name(r) == name@,
{
    events.into_iter().collect::<icalendar::Calendar>().name(name).done()
}

impl CalendarDocument {
    /// The document as an iCalendar calendar, ready to be written out.
    pub fn to_icalendar(&self) -> (r: icalendar::Calendar)
        requires
            self.wf(),
        ensures
            ical_calendar_events(r) == events_of(*self),
            ical_calendar_name(r) == self.name@,
    {
        let mut events: Vec<icalendar::Event> = Vec::new();
        let mut i: usize = 0;
        while i < self.events.len()
            invariant
                self.wf(),
                0 <= i <= self.events@.len(),
                events@.len() == i,
                forall|k: int|
                    0 <= k < i ==> ical_event_model(#[trigger] events@[k]) == event_view(
                        self.events@[k],
                    ),
            decreases self.events@.len() - i,
        {
            let ev = &self.events[i];
            events.push(
                ical_event(ev.summary.as_str(), ev.description.as_str(), &ev.start, &ev.end),
            );
            i = i + 1;
        }
        let r = ical_calendar(events, self.name.as_str());
        assert(events@.map_values(|e: icalendar::Event| ical_event_model(e)) =~= events_of(
            *self,
        ));
        r
    }
}

} // verus!
