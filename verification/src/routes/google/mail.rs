use vstd::prelude::*;

use crate::models::gmail::{grouped_values, values_named, HeaderIndex, ParsedMail};
use crate::routes::typesense::{DocumentView, Product, RowType, TypesenseInsert};
use crate::utilities::text::{concat2, owned};
use crate::utilities::time::{parse_rfc2822_seconds, rfc2822_seconds};
use vstd::string::StringExecFns;

verus! {

/// What looking up a header gives: its first value, or why there is none.
pub open spec fn header_field(values: Option<Seq<Seq<char>>>) -> Result<Seq<char>, Seq<char>> {
    match values {
        None => Err("Field header not found."@),
        Some(vs) => if vs.len() == 0 {
            Err("Field header exists, but its value list is empty."@)
        } else {
            Ok(vs[0])
        },
    }
}

/// The first value of a header, or `fallback` when the header is missing.
pub open spec fn header_or(values: Option<Seq<Seq<char>>>, fallback: Seq<char>) -> Seq<char> {
    match header_field(values) {
        Ok(v) => v,
        Err(_) => fallback,
    }
}

/// The timestamp of a mail from its `Date` header: 0 without the header, the RFC 2822
/// reading of its first value otherwise (`None` when that value is not a valid date).
pub open spec fn mail_date(values: Option<Seq<Seq<char>>>) -> Option<i64> {
    match header_field(values) {
        Ok(d) => rfc2822_seconds(d),
        Err(_) => Some(0),
    }
}

/// The address of a message in the mail web interface of the account `gmail`.
pub open spec fn mail_link(gmail: Seq<char>, id: Seq<char>) -> Seq<char> {
    "https://mail.google.com/mail/u/"@ + gmail + "/#inbox/"@ + id
}

/// The document that indexes the message `msg` of the account `gmail`: its subject as
/// title, its snippet as contents, its sender, a link to it, and its date as both times.
pub open spec fn mail_document(msg: ParsedMail, gmail: Seq<char>) -> DocumentView {
    let headers = msg.payload.headers;
    let date = match mail_date(headers.values_for("Date"@)) {
        Some(t) => t,
        None => 0,
    };
    DocumentView {
        account_email: gmail,
        id: msg.id@,
        title: header_or(headers.values_for("Subject"@), "Subject not found"@),
        contents: msg.snippet@,
        url: mail_link(gmail, msg.id@),
        added_by: Some(header_or(headers.values_for("From"@), "Sender not found"@)),
        platform: Product::GMail,
        type_field: RowType::Email,
        last_edited_time: date,
        created_time: date,
    }
}

/// The first value of the header `field`, or why there is none.
pub fn get_header_field(field: &str, headers: &HeaderIndex) -> (r: Result<String, &'static str>)
    ensures
        match r {
            Ok(v) => header_field(headers.values_for(field@)) == Ok::<Seq<char>, Seq<char>>(v@),
            Err(e) => header_field(headers.values_for(field@)) == Err::<Seq<char>, Seq<char>>(e@),
        },
{
    match headers.values(field) {
        Some(field_values) => {
            if field_values.len() == 0 {
                Err("Field header exists, but its value list is empty.")
            } else {
                Ok(field_values[0].clone())
            }
        },
        None => Err("Field header not found."),
    }
}

/// Law: looking up a header among the grouped header lines of a message gives the value
/// of the first line with that name, or "Field header not found." when no line has it;
/// a name is never held without values.
pub proof fn lemma_header_field_of_grouped(lines: Seq<crate::models::gmail::Header>, name: Seq<char>)
    ensures
        header_field(grouped_values(lines, name)) == if values_named(lines, name).len() > 0 {
            Ok::<Seq<char>, Seq<char>>(values_named(lines, name)[0])
        } else {
            Err::<Seq<char>, Seq<char>>("Field header not found."@)
        },
{
}

/// The address of one page of a mailbox's message list (500 messages per page).
pub fn messages_list_url(cursor: Option<&str>) -> (r: String)
    ensures
        r@ == match cursor {
            Some(c) => "https://gmail.googleapis.com/gmail/v1/users/me/messages?maxResults=500&pageToken="@ + c@,
            None => "https://gmail.googleapis.com/gmail/v1/users/me/messages?maxResults=500"@,
        },
{
    match cursor {
        Some(c) => concat2(
            "https://gmail.googleapis.com/gmail/v1/users/me/messages?maxResults=500&pageToken=",
            c,
        ),
        None => owned("https://gmail.googleapis.com/gmail/v1/users/me/messages?maxResults=500"),
    }
}

/// The address of one message.
pub fn message_url(message_id: &str) -> (r: String)
    ensures
        r@ == "https://gmail.googleapis.com/gmail/v1/users/me/messages/"@ + message_id@,
{
    concat2("https://gmail.googleapis.com/gmail/v1/users/me/messages/", message_id)
}

fn header_or_default(headers: &HeaderIndex, field: &str, fallback: &str) -> (r: String)
    ensures
        r@ == header_or(headers.values_for(field@), fallback@),
{
    match get_header_field(field, headers) {
        Ok(v) => v,
        Err(_) => owned(fallback),
    }
}

/// The document that indexes the message `msg` of the account `gmail`: its subject as
/// title, its snippet as contents, its sender, a link to it, and its date.
pub fn parse_gmail(msg: &ParsedMail, gmail: &str) -> (d: TypesenseInsert)
    requires
        mail_date(msg.payload.headers.values_for("Date"@)) is Some,
    ensures
        d@ == mail_document(*msg, gmail@),
{
    let headers = &msg.payload.headers;
    let id = msg.id.clone();
    let subject = header_or_default(headers, "Subject", "Subject not found");
    let snippet = msg.snippet.clone();
    let mut email_link = concat2("https://mail.google.com/mail/u/", gmail);
    email_link.append("/#inbox/");
    email_link.append(id.as_str());
    let sender = header_or_default(headers, "From", "Sender not found");
    let date: i64 = match get_header_field("Date", headers) {
        Ok(date) => match parse_rfc2822_seconds(date.as_str()) {
            Some(t) => t,
            None => 0,
        },
        Err(_) => 0,
    };
    TypesenseInsert {
        account_email: owned(gmail),
        id,
        title: subject,
        contents: snippet,
        url: email_link,
        added_by: Some(sender),
        platform: Product::GMail,
        type_field: RowType::Email,
        last_edited_time: date,
        created_time: date,
    }
}

/// The document of the message `msg`, or `None` when its `Date` header holds no valid
/// RFC 2822 date (a message that indexing cannot read).
pub fn checked_parse_gmail(msg: &ParsedMail, gmail: &str) -> (r: Option<TypesenseInsert>)
    ensures
        match r {
            Some(d) => d@ == mail_document(*msg, gmail@),
            None => mail_date(msg.payload.headers.values_for("Date"@)) is None,
        },
{
    let valid = match get_header_field("Date", &msg.payload.headers) {
        Ok(date) => parse_rfc2822_seconds(date.as_str()).is_some(),
        Err(_) => true,
    };
    if valid {
        Some(parse_gmail(msg, gmail))
    } else {
        None
    }
}

/// The documents of a mailbox waiting to be written, in order; they are written out in
/// batches once more than a hundred have gathered.
pub struct MailBatch {
    pending: Vec<TypesenseInsert>,
}

impl MailBatch {
    /// At most a hundred documents wait at any time.
    #[verifier::type_invariant]
    spec fn bounded(&self) -> bool {
        self.pending@.len() <= 100
    }

    /// The documents waiting to be written, in order.
    pub closed spec fn pending_view(&self) -> Seq<TypesenseInsert> {
        self.pending@
    }

    /// A batch with nothing waiting.
    pub fn new() -> (r: Self)
        ensures
            r.pending_view().len() == 0,
    {
        MailBatch { pending: Vec::new() }
    }

    /// The number of documents waiting.
    pub fn len(&self) -> (r: usize)
        ensures
            r == self.pending_view().len(),
            r <= 100,
    {
        proof {
            use_type_invariant(self);
        }
        self.pending.len()
    }

    /// Adds a document; once more than a hundred documents are waiting, hands all of them
    /// out to be written and starts over empty.
    pub fn add(&mut self, d: TypesenseInsert) -> (out: Option<Vec<TypesenseInsert>>)
        ensures
            ({
                let all = old(self).pending_view().push(d);
                if all.len() > 100 {
                    &&& out matches Some(batch) && batch@ == all
                    &&& all.len() == 101
                    &&& final(self).pending_view().len() == 0
                } else {
                    &&& out is None
                    &&& final(self).pending_view() == all
                }
            }),
    {
        proof {
            use_type_invariant(&*self);
        }
        let mut pending: Vec<TypesenseInsert> = Vec::new();
        std::mem::swap(&mut pending, &mut self.pending);
        pending.push(d);
        if pending.len() > 100 {
            Some(pending)
        } else {
            self.pending = pending;
            None
        }
    }
}

} // verus!
