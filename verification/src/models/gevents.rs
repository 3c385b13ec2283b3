use vstd::prelude::*;

verus! {

/// The events of one calendar.
#[derive(Debug, PartialEq)]
pub struct EventsList {
    pub access_role: String,
    pub default_reminders: Vec<DefaultReminder>,
    pub etag: String,
    pub items: Vec<Event>,
    pub kind: String,
    pub next_sync_token: String,
    pub summary: String,
    pub time_zone: String,
    pub updated: String,
}

/// A reminder that a calendar sets by default.
#[derive(Debug, PartialEq)]
pub struct DefaultReminder {
    pub method: String,
    pub minutes: i64,
}

/// A calendar event.
#[derive(Debug, PartialEq)]
pub struct Event {
    pub attendees: Vec<Attendee>,
    pub created: String,
    pub creator: Creator,
    pub description: Option<String>,
    pub end: End,
    pub etag: String,
    pub event_type: String,
    pub guests_can_invite_others: Option<bool>,
    pub html_link: String,
    pub i_cal_uid: String,
    pub id: String,
    pub kind: String,
    pub location: Option<String>,
    pub organizer: Organizer,
    pub private_copy: Option<bool>,
    pub reminders: Reminders,
    pub sequence: i64,
    pub source: Option<Source>,
    pub start: Start,
    pub status: String,
    pub summary: String,
    pub transparency: Option<String>,
    pub updated: String,
    pub visibility: Option<String>,
    pub end_time_unspecified: Option<bool>,
    pub color_id: Option<String>,
    pub recurrence: Vec<String>,
    pub conference_data: Option<ConferenceData>,
    pub hangout_link: Option<String>,
    pub attachments: Vec<Attachment>,
}

/// A guest of an event.
#[derive(Debug, PartialEq)]
pub struct Attendee {
    pub email: String,
    pub response_status: String,
    pub self_field: Option<bool>,
    pub display_name: Option<String>,
    pub optional: Option<bool>,
    pub organizer: Option<bool>,
}

/// Who created an event.
#[derive(Debug, PartialEq)]
pub struct Creator {
    pub email: String,
    pub self_field: Option<bool>,
}

/// When an event ends.
#[derive(Debug, PartialEq)]
pub struct End {
    pub date_time: Option<String>,
    pub time_zone: Option<String>,
    pub date: Option<String>,
}

/// Who organises an event.
#[derive(Debug, PartialEq)]
pub struct Organizer {
    pub display_name: Option<String>,
    pub email: String,
    pub self_field: Option<bool>,
}

/// The reminders of an event.
#[derive(Debug, PartialEq)]
pub struct Reminders {
    pub use_default: bool,
}

/// Where an event was created from.
#[derive(Debug, PartialEq)]
pub struct Source {
    pub title: String,
    pub url: String,
}

/// When an event starts.
#[derive(Debug, PartialEq)]
pub struct Start {
    pub date_time: Option<String>,
    pub time_zone: Option<String>,
    pub date: Option<String>,
}

/// The conference attached to an event.
#[derive(Debug, PartialEq)]
pub struct ConferenceData {
    pub conference_id: String,
    pub conference_solution: ConferenceSolution,
    pub entry_points: Vec<EntryPoint>,
    pub create_request: Option<CreateRequest>,
}

/// The kind of conference of an event.
#[derive(Debug, PartialEq)]
pub struct ConferenceSolution {
    pub icon_uri: String,
    pub key: Key,
    pub name: String,
}

/// The key of a conference kind.
#[derive(Debug, PartialEq)]
pub struct Key {
    pub type_field: String,
}

/// A way to join a conference.
#[derive(Debug, PartialEq)]
pub struct EntryPoint {
    pub entry_point_type: String,
    pub label: Option<String>,
    pub uri: String,
    pub pin: Option<String>,
    pub region_code: Option<String>,
}

/// The request that created a conference.
#[derive(Debug, PartialEq)]
pub struct CreateRequest {
    pub conference_solution_key: ConferenceSolutionKey,
    pub request_id: String,
    pub status: Status,
}

/// The conference kind asked for.
#[derive(Debug, PartialEq)]
pub struct ConferenceSolutionKey {
    pub type_field: String,
}

/// The state of a conference creation.
#[derive(Debug, PartialEq)]
pub struct Status {
    pub status_code: String,
}

/// A file attached to an event.
#[derive(Debug, PartialEq)]
pub struct Attachment {
    pub file_url: String,
    pub icon_link: String,
    pub title: String,
}

} // verus!
