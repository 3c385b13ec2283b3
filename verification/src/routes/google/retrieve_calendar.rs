use vstd::prelude::*;

use crate::models::gevents::Event;
use crate::routes::typesense::{DocumentView, Product, RowType, TypesenseInsert};
use crate::utilities::text::{concat3, owned};
use crate::utilities::time::{parse_rfc3339_seconds, rfc3339_seconds};
use vstd::string::StringExecFns;

verus! {

/// The text of an optional string, empty when there is none.
pub open spec fn text_or_empty(s: Option<String>) -> Seq<char> {
    match s {
        Some(t) => t@,
        None => Seq::empty(),
    }
}

/// Whether the creation date of every event of `events` is a valid RFC 3339 date-time.
pub open spec fn event_dates_valid(events: Seq<Event>) -> bool {
    forall|i: int| 0 <= i < events.len() ==> (#[trigger] rfc3339_seconds(events[i].created@)) is Some
}

/// The document that indexes the calendar event `event` of the account `email`: its
/// summary as title, its place and description as contents, its creator, its link, and its
/// creation time as both times.
pub open spec fn event_document(event: Event, email: Seq<char>) -> DocumentView {
    let created = rfc3339_seconds(event.created@)->0;
    DocumentView {
        account_email: email,
        id: event.id@,
        title: event.summary@,
        contents: text_or_empty(event.location) + " \n "@ + text_or_empty(event.description),
        url: event.html_link@,
        added_by: Some(event.creator.email@),
        platform: Product::GCalendar,
        type_field: RowType::Event,
        last_edited_time: created,
        created_time: created,
    }
}

/// Law: the document of an event is added by the event's creator, titled by its summary,
/// identified and linked by the event, and dated at both times by the event's creation;
/// who organizes the event changes nothing in it.
pub proof fn lemma_event_document_fields(event: Event, email: Seq<char>, organizer: crate::models::gevents::Organizer)
    ensures
        event_document(event, email).added_by == Some(event.creator.email@),
        event_document(event, email).account_email == email,
        event_document(event, email).id == event.id@,
        event_document(event, email).title == event.summary@,
        event_document(event, email).url == event.html_link@,
        event_document(event, email).created_time == rfc3339_seconds(event.created@)->0,
        event_document(event, email).last_edited_time == rfc3339_seconds(event.created@)->0,
        event_document(Event { organizer, ..event }, email) == event_document(event, email),
{
}

/// The address of the list of a user's calendars.
pub fn calendar_list_url() -> (r: String)
    ensures
        r@ == "https://www.googleapis.com/calendar/v3/users/me/calendarList"@,
{
    owned("https://www.googleapis.com/calendar/v3/users/me/calendarList")
}

/// The address of the events of the calendar `calendar_id`.
pub fn events_url(calendar_id: &str) -> (r: String)
    ensures
        r@ == "https://www.googleapis.com/calendar/v3/calendars/"@ + calendar_id@ + "/events/"@,
{
    concat3("https://www.googleapis.com/calendar/v3/calendars/", calendar_id, "/events/")
}

fn text_or_empty_exec(s: &Option<String>) -> (r: String)
    ensures
        r@ == text_or_empty(*s),
{
    match s {
        Some(t) => t.clone(),
        None => String::new(),
    }
}

fn parse_event(event: &Event, email: &str) -> (d: TypesenseInsert)
    requires
        rfc3339_seconds(event.created@) is Some,
    ensures
        d@ == event_document(*event, email@),
{
    let mut contents = text_or_empty_exec(&event.location);
    contents.append(" \n ");
    let description = text_or_empty_exec(&event.description);
    contents.append(description.as_str());
    let created_time = match parse_rfc3339_seconds(event.created.as_str()) {
        Some(t) => t,
        None => 0,
    };
    TypesenseInsert {
        account_email: owned(email),
        id: event.id.clone(),
        title: event.summary.clone(),
        contents,
        url: event.html_link.clone(),
        added_by: Some(event.creator.email.clone()),
        created_time,
        last_edited_time: created_time,
        platform: Product::GCalendar,
        type_field: RowType::Event,
    }
}

/// The documents that index the calendar events `events` of the account `email`, one per
/// event and in the same order.
pub fn parse_events(events: Vec<Event>, email: &str) -> (r: Vec<TypesenseInsert>)
    requires
        event_dates_valid(events@),
    ensures
        r@.map_values(|d: TypesenseInsert| d@) == events@.map_values(|e: Event| event_document(e, email@)),
{
    let mut all_events: Vec<TypesenseInsert> = Vec::new();
    let n = events.len();
    let mut i: usize = 0;
    while i < n
        invariant
            n == events@.len(),
            i <= n,
            event_dates_valid(events@),
            all_events@.len() == i,
            all_events@.map_values(|d: TypesenseInsert| d@) == events@.take(i as int).map_values(
                |e: Event| event_document(e, email@),
            ),
        decreases n - i,
    {
        assert(rfc3339_seconds(events@[i as int].created@) is Some);
        let ghost before = all_events@;
        all_events.push(parse_event(&events[i], email));
        assert(events@.take(i as int + 1) =~= events@.take(i as int).push(events@[i as int]));
        assert(all_events@ =~= before.push(all_events@[i as int]));
        assert forall|j: int| 0 <= j < i implies all_events@[j]@ == event_document(events@[j], email@) by {
            assert(before.map_values(|d: TypesenseInsert| d@)[j] == events@.take(i as int).map_values(
                |e: Event| event_document(e, email@))[j]);
        }
        assert(all_events@.map_values(|d: TypesenseInsert| d@) =~= events@.take(i as int + 1).map_values(
            |e: Event| event_document(e, email@),
        ));
        i = i + 1;
    }
    assert(events@.take(n as int) == events@);
    all_events
}

/// The documents of the events `events`, or `None` when the creation date of one of them
/// is not a valid RFC 3339 date-time (events that indexing cannot read).
pub fn checked_parse_events(events: Vec<Event>, email: &str) -> (r: Option<Vec<TypesenseInsert>>)
    ensures
        match r {
            Some(docs) => docs@.map_values(|d: TypesenseInsert| d@) == events@.map_values(
                |e: Event| event_document(e, email@),
            ),
            None => !event_dates_valid(events@),
        },
{
    let n = events.len();
    let mut i: usize = 0;
    while i < n
        invariant
            n == events@.len(),
            i <= n,
            forall|j: int| 0 <= j < i ==> (#[trigger] rfc3339_seconds(events@[j].created@)) is Some,
        decreases n - i,
    {
        if parse_rfc3339_seconds(events[i].created.as_str()).is_none() {
            return None;
        }
        i = i + 1;
    }
    Some(parse_events(events, email))
}

} // verus!
