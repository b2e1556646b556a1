//! Calendar events and their rendering as iCalendar text: UTF-8, every line
//! ended by CRLF.

use vstd::prelude::*;
use vstd::string::*;
use crate::text::{escape_newlines, push_escaped};
use crate::time::{LocalDateTime, TimeExt, stamp_text};

verus! {

/// An event bound to a time zone, ready to be written out.
#[derive(Debug)]
pub struct VEvent {
    /// Unique identifier (`UID`).
    pub uid: String,
    /// IANA name of the time zone of the three times below.
    pub time_zone: String,
    /// When the event was generated (`DTSTAMP`).
    pub created: LocalDateTime,
    /// Start (`DTSTART`).
    pub start: LocalDateTime,
    /// End (`DTEND`).
    pub end: LocalDateTime,
    /// Title (`SUMMARY`).
    pub summary: String,
    /// Description (`DESCRIPTION`).
    pub description: String,
    /// Location (`LOCATION`).
    pub location: String,
}

/// The content of a `VEvent`, as plain sequences.
pub struct EventView {
    pub uid: Seq<char>,
    pub time_zone: Seq<char>,
    pub created: LocalDateTime,
    pub start: LocalDateTime,
    pub end: LocalDateTime,
    pub summary: Seq<char>,
    pub description: Seq<char>,
    pub location: Seq<char>,
}

impl View for VEvent {
    type V = EventView;

    open spec fn view(&self) -> EventView {
        EventView {
            uid: self.uid@,
            time_zone: self.time_zone@,
            created: self.created,
            start: self.start,
            end: self.end,
            summary: self.summary@,
            description: self.description@,
            location: self.location@,
        }
    }
}

/// A calendar: product id, format version and events.
#[derive(Debug)]
pub struct VCalendar {
    pub prod_id: String,
    pub version: String,
    pub events: Vec<VEvent>,
}

/// Things that can be written as iCalendar text.
pub trait SerializeToICal {
    /// The iCalendar text of the value.
    spec fn ical_text(&self) -> Seq<char>;

    /// Writes the value as iCalendar text.
    fn serialize_to_ical(&self) -> (r: String)
        ensures
            r@ == self.ical_text(),
    ;
}

/// `;TZID=<zone>:<stamp>`: a time with its zone.
pub open spec fn zoned_text(tz: Seq<char>, dt: LocalDateTime) -> Seq<char> {
    ";TZID="@ + tz + ":"@ + stamp_text(dt)
}

/// The lines of one event.
pub open spec fn event_text(e: EventView) -> Seq<char> {
    "BEGIN:VEVENT\r\n"@ + "UID:"@ + e.uid + "\r\n"@ + "DTSTAMP"@ + zoned_text(e.time_zone, e.created)
        + "\r\n"@ + "DTSTART"@ + zoned_text(e.time_zone, e.start) + "\r\n"@ + "DTEND"@
        + zoned_text(e.time_zone, e.end) + "\r\n"@ + "SUMMARY:"@ + escape_newlines(e.summary)
        + "\r\n"@ + "LOCATION:"@ + escape_newlines(e.location) + "\r\n"@ + "DESCRIPTION:"@
        + escape_newlines(e.description) + "\r\n"@ + "END:VEVENT\r\n"@
}

/// The lines of the events, one after another.
pub open spec fn events_text(events: Seq<EventView>) -> Seq<char>
    decreases events.len(),
{
    if events.len() == 0 {
        Seq::empty()
    } else {
        events_text(events.drop_last()) + event_text(events.last())
    }
}

/// The whole calendar.
pub open spec fn calendar_text(prod_id: Seq<char>, version: Seq<char>, events: Seq<EventView>) -> Seq<
    char,
> {
    "BEGIN:VCALENDAR\r\n"@ + "PRODID:"@ + prod_id + "\r\n"@ + "VERSION:"@ + version + "\r\n"@
        + events_text(events) + "END:VCALENDAR\r\n"@
}

fn push_zoned(out: &mut String, tz: &String, dt: &LocalDateTime)
    ensures
        final(out)@ == old(out)@ + zoned_text(tz@, *dt),
{
    out.append(";TZID=");
    out.append(tz.as_str());
    out.append(":");
    let stamp = dt.to_stamp();
    out.append(stamp.as_str());
}

impl VEvent {
    /// Appends the lines of the event to `out`.
    pub fn write_ical(&self, out: &mut String)
        ensures
            final(out)@ == old(out)@ + event_text(self@),
    {
        out.append("BEGIN:VEVENT\r\n");
        out.append("UID:");
        out.append(self.uid.as_str());
        out.append("\r\n");
        out.append("DTSTAMP");
        push_zoned(out, &self.time_zone, &self.created);
        out.append("\r\n");
        out.append("DTSTART");
        push_zoned(out, &self.time_zone, &self.start);
        out.append("\r\n");
        out.append("DTEND");
        push_zoned(out, &self.time_zone, &self.end);
        out.append("\r\n");
        out.append("SUMMARY:");
        push_escaped(out, self.summary.as_str());
        out.append("\r\n");
        out.append("LOCATION:");
        push_escaped(out, self.location.as_str());
        out.append("\r\n");
        out.append("DESCRIPTION:");
        push_escaped(out, self.description.as_str());
        out.append("\r\n");
        out.append("END:VEVENT\r\n");
        assert(final(out)@ =~= old(out)@ + event_text(self@));
    }
}

impl SerializeToICal for VEvent {
    open spec fn ical_text(&self) -> Seq<char> {
        event_text(self@)
    }

    fn serialize_to_ical(&self) -> (r: String) {
        let mut out = String::new();
        self.write_ical(&mut out);
        assert(out@ =~= event_text(self@));
        out
    }
}

impl VCalendar {
    pub open spec fn event_views(&self) -> Seq<EventView> {
        self.events@.map_values(|e: VEvent| e@)
    }
}

impl SerializeToICal for VCalendar {
    open spec fn ical_text(&self) -> Seq<char> {
        calendar_text(self.prod_id@, self.version@, self.event_views())
    }

    fn serialize_to_ical(&self) -> (r: String) {
        let mut out = String::new();
        out.append("BEGIN:VCALENDAR\r\n");
        out.append("PRODID:");
        out.append(self.prod_id.as_str());
        out.append("\r\n");
        out.append("VERSION:");
        out.append(self.version.as_str());
        out.append("\r\n");
        let ghost head = out@;
        let mut i: usize = 0;
        while i < self.events.len()
            invariant
                0 <= i <= self.events@.len(),
                out@ == head + events_text(self.event_views().subrange(0, i as int)),
            decreases self.events@.len() - i,
        {
            assert(self.event_views().subrange(0, i + 1).drop_last() =~= self.event_views().subrange(
                0,
                i as int,
            ));
            self.events[i].write_ical(&mut out);
            i += 1;
            assert(out@ =~= head + events_text(self.event_views().subrange(0, i as int)));
        }
        assert(self.event_views().subrange(0, i as int) =~= self.event_views());
        out.append("END:VCALENDAR\r\n");
        assert(out@ =~= calendar_text(self.prod_id@, self.version@, self.event_views()));
        out
    }
}

} // verus!
