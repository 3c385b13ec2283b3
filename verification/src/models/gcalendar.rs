use vstd::prelude::*;

verus! {

/// The list of a user's calendars.
#[derive(Debug, PartialEq)]
pub struct GCalendarList {
    pub etag: String,
    pub items: Vec<GCalendar>,
    pub kind: String,
    pub next_sync_token: String,
}

/// One calendar of a user.
#[derive(Debug, PartialEq)]
pub struct GCalendar {
    pub access_role: String,
    pub background_color: String,
    pub color_id: String,
    pub conference_properties: ConferenceProperties,
    pub default_reminders: Vec<DefaultReminder>,
    pub description: Option<String>,
    pub etag: String,
    pub foreground_color: String,
    pub id: String,
    pub kind: String,
    pub selected: Option<bool>,
    pub summary: String,
    pub summary_override: Option<String>,
    pub time_zone: String,
    pub notification_settings: Option<NotificationSettings>,
    pub primary: Option<bool>,
}

/// The conference kinds that a calendar allows.
#[derive(Debug, PartialEq)]
pub struct ConferenceProperties {
    pub allowed_conference_solution_types: Vec<String>,
}

/// A reminder that a calendar sets by default.
#[derive(Debug, PartialEq)]
pub struct DefaultReminder {
    pub method: String,
    pub minutes: i64,
}

/// The notifications of a calendar.
#[derive(Debug, PartialEq)]
pub struct NotificationSettings {
    pub notifications: Vec<Notification>,
}

/// One notification of a calendar.
#[derive(Debug, PartialEq)]
pub struct Notification {
    pub method: String,
    pub type_field: String,
}

} // verus!
