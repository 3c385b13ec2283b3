use ndex::models::gdrive::{GDriveResponse, GFile, Owner};
use ndex::models::gevents::{Creator, End, Event, Organizer, Reminders, Start};
use ndex::models::gmail::{headers_map_from_vec, Body, Header, ParsedMail, Payload};
use ndex::routes::google::drive::{checked_parse_file, drive_page_documents, file_list_url, parse_file};
use ndex::routes::google::mail::{
    checked_parse_gmail, get_header_field, message_url, messages_list_url, parse_gmail, MailBatch,
};
use ndex::routes::google::retrieve_calendar::{checked_parse_events, events_url, parse_events};
use ndex::routes::typesense::{Product, RowType, TypesenseInsert};

fn header(name: &str, value: &str) -> Header {
    Header { name: name.to_string(), value: value.to_string() }
}

fn mail(headers: Vec<Header>) -> ParsedMail {
    ParsedMail {
        history_id: "h".to_string(),
        id: "m1".to_string(),
        internal_date: "0".to_string(),
        label_ids: vec![],
        payload: Payload {
            body: Body { size: 0, data: None },
            filename: String::new(),
            headers: headers_map_from_vec(headers),
            mime_type: "text/plain".to_string(),
            part_id: String::new(),
            parts: vec![],
        },
        size_estimate: 10,
        snippet: "Hello there".to_string(),
        thread_id: "t".to_string(),
    }
}

#[test]
fn header_grouping_keeps_order_and_first_value() {
    let idx = headers_map_from_vec(vec![
        header("Received", "one"),
        header("Subject", "Hi"),
        header("Received", "two"),
    ]);
    assert_eq!(idx.entries().len(), 2);
    assert_eq!(idx.values("Received").unwrap(), &vec!["one".to_string(), "two".to_string()]);
    assert_eq!(get_header_field("Received", &idx), Ok("one".to_string()));
    assert_eq!(get_header_field("Subject", &idx), Ok("Hi".to_string()));
    assert_eq!(get_header_field("From", &idx), Err("Field header not found."));
}

#[test]
fn gmail_document_from_headers() {
    let msg = mail(vec![
        header("Subject", "Quarterly report"),
        header("From", "Ann <ann@x.org>"),
        header("Date", "Tue, 1 Jul 2003 10:52:37 +0200"),
    ]);
    let d = parse_gmail(&msg, "me@x.org");
    assert_eq!(d, TypesenseInsert {
        account_email: "me@x.org".to_string(),
        id: "m1".to_string(),
        title: "Quarterly report".to_string(),
        contents: "Hello there".to_string(),
        url: "https://mail.google.com/mail/u/me@x.org/#inbox/m1".to_string(),
        added_by: Some("Ann <ann@x.org>".to_string()),
        platform: Product::GMail,
        type_field: RowType::Email,
        last_edited_time: 1057049557,
        created_time: 1057049557,
    });
}

#[test]
fn gmail_document_without_headers_uses_fallbacks() {
    let d = parse_gmail(&mail(vec![]), "me@x.org");
    assert_eq!(d.title, "Subject not found");
    assert_eq!(d.added_by, Some("Sender not found".to_string()));
    assert_eq!(d.created_time, 0);
    assert_eq!(d.last_edited_time, 0);
}

#[test]
fn gmail_document_with_bad_date_is_refused() {
    assert_eq!(checked_parse_gmail(&mail(vec![header("Date", "yesterday")]), "me@x.org"), None);
}

#[test]
fn gmail_urls() {
    assert_eq!(
        messages_list_url(None),
        "https://gmail.googleapis.com/gmail/v1/users/me/messages?maxResults=500"
    );
    assert_eq!(
        messages_list_url(Some("abc")),
        "https://gmail.googleapis.com/gmail/v1/users/me/messages?maxResults=500&pageToken=abc"
    );
    assert_eq!(message_url("m1"), "https://gmail.googleapis.com/gmail/v1/users/me/messages/m1");
}

#[test]
fn mail_batch_flushes_after_a_hundred() {
    let mut batch = MailBatch::new();
    let m = mail(vec![]);
    for _ in 0..100 {
        assert!(batch.add(parse_gmail(&m, "me@x.org")).is_none());
    }
    assert_eq!(batch.len(), 100);
    let out = batch.add(parse_gmail(&m, "me@x.org")).unwrap();
    assert_eq!(out.len(), 101);
    assert_eq!(batch.len(), 0);
}

fn owner(email: &str) -> Owner {
    Owner {
        display_name: String::new(),
        email_address: email.to_string(),
        kind: "drive#user".to_string(),
        me: false,
        permission_id: String::new(),
        photo_link: String::new(),
    }
}

fn file(modified: &str) -> GFile {
    GFile {
        created_time: "2022-12-31T23:00:00Z".to_string(),
        id: "f1".to_string(),
        mime_type: "application/pdf".to_string(),
        modified_time: modified.to_string(),
        name: "Plan.pdf".to_string(),
        owners: vec![owner("a@x.org"), owner("b@y.org")],
        web_view_link: "https://drive/f1".to_string(),
    }
}

#[test]
fn drive_document_lists_owners() {
    let d = parse_file(file("2023-01-02T03:04:05Z"), "me@x.org");
    assert_eq!(d, TypesenseInsert {
        account_email: "me@x.org".to_string(),
        id: "f1".to_string(),
        title: "Plan.pdf".to_string(),
        contents: "application/pdf".to_string(),
        url: "https://drive/f1".to_string(),
        added_by: Some("a@x.org, b@y.org".to_string()),
        platform: Product::GDrive,
        type_field: RowType::File,
        last_edited_time: 1672628645,
        created_time: 1672527600,
    });
    assert_eq!(checked_parse_file(file("not a date"), "me@x.org"), None);
}

#[test]
fn drive_page_gives_documents_and_next_token() {
    let page = GDriveResponse {
        files: vec![file("2023-01-02T03:04:05Z")],
        incomplete_search: false,
        kind: "drive#fileList".to_string(),
        next_page_token: Some("next".to_string()),
    };
    let (docs, next) = drive_page_documents(page, "me@x.org").unwrap();
    assert_eq!(docs.len(), 1);
    assert_eq!(next, Some("next".to_string()));
}

#[test]
fn drive_url() {
    assert_eq!(
        file_list_url(Some("p2")),
        "https://www.googleapis.com/drive/v3/files?fields=kind,incompleteSearch,nextPageToken,files(id,name,mimeType,createdTime,modifiedTime,webViewLink,owners)&pageToken=p2"
    );
}

fn event(location: Option<&str>, description: Option<&str>, created: &str) -> Event {
    Event {
        attendees: vec![],
        created: created.to_string(),
        creator: Creator { email: "boss@x.org".to_string(), self_field: None },
        description: description.map(|s| s.to_string()),
        end: End { date_time: None, time_zone: None, date: None },
        etag: String::new(),
        event_type: "default".to_string(),
        guests_can_invite_others: None,
        html_link: "https://cal/e1".to_string(),
        i_cal_uid: String::new(),
        id: "e1".to_string(),
        kind: "calendar#event".to_string(),
        location: location.map(|s| s.to_string()),
        organizer: Organizer { display_name: None, email: "boss@x.org".to_string(), self_field: None },
        private_copy: None,
        reminders: Reminders { use_default: true },
        sequence: 0,
        source: None,
        start: Start { date_time: None, time_zone: None, date: None },
        status: "confirmed".to_string(),
        summary: "Standup".to_string(),
        transparency: None,
        updated: String::new(),
        visibility: None,
        end_time_unspecified: None,
        color_id: None,
        recurrence: vec![],
        conference_data: None,
        hangout_link: None,
        attachments: vec![],
    }
}

#[test]
fn calendar_documents_join_place_and_description() {
    let docs = parse_events(
        vec![event(Some("Room 1"), Some("Daily"), "2023-01-02T03:04:05Z"), event(None, None, "2023-01-02T03:04:05Z")],
        "me@x.org",
    );
    assert_eq!(docs.len(), 2);
    assert_eq!(docs[0].contents, "Room 1 \n Daily");
    assert_eq!(docs[1].contents, " \n ");
    assert_eq!(docs[0].created_time, 1672628645);
    assert_eq!(docs[0].last_edited_time, 1672628645);
    assert_eq!(docs[0].added_by, Some("boss@x.org".to_string()));
    assert_eq!(docs[0].platform, Product::GCalendar);
    assert_eq!(docs[0].type_field, RowType::Event);
    assert_eq!(checked_parse_events(vec![event(None, None, "bad")], "me@x.org"), None);
}

#[test]
fn calendar_url() {
    assert_eq!(events_url("primary"), "https://www.googleapis.com/calendar/v3/calendars/primary/events/");
}

#[test]
fn google_sign_in_address() {
    let a = ndex::routes::login::google_auth::google_auth("client-1", "secret");
    assert_eq!(a.csrf_state.len(), 22);
    assert_eq!(a.pkce_verifier.len(), 43);
    let verifier = oauth2::PkceCodeVerifier::new(a.pkce_verifier.clone());
    let challenge = oauth2::PkceCodeChallenge::from_code_verifier_sha256(&verifier);
    let expected = format!(
        "https://accounts.google.com/o/oauth2/v2/auth?response_type=code&client_id=client-1&state={}&code_challenge={}&code_challenge_method=S256&redirect_uri=http%3A%2F%2Flocalhost%3A3001%2Fgoogle%2Fauth%2Fresponse&scope=https%3A%2F%2Fwww.googleapis.com%2Fauth%2Fcalendar+https%3A%2F%2Fwww.googleapis.com%2Fauth%2Fplus.me",
        a.csrf_state,
        challenge.as_str(),
    );
    assert_eq!(a.url, expected);
    let other = ndex::routes::login::google_auth::google_auth("client-1", "secret");
    assert_ne!(a.csrf_state, other.csrf_state);
}

#[test]
fn document_schema_fields_are_sound() {
    let c = ndex::routes::typesense::schema_control::generate_document_schema(7);
    let names: Vec<&str> = c.fields.iter().map(|f| f.name.as_str()).collect();
    let mut sorted = names.clone();
    sorted.sort();
    sorted.dedup();
    assert_eq!(sorted.len(), names.len());
    let sorting: Vec<_> = c.fields.iter().filter(|f| f.name == c.default_sorting_field).collect();
    assert_eq!(sorting.len(), 1);
    assert_eq!(sorting[0].type_field, "int64");
    for f in &c.fields {
        assert_eq!(f.facet, f.name == "platform" || f.name == "type");
    }
}
