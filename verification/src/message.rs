//! One message in full.

use crate::document::{
    integer_field, integer_member, items_field, items_member, text_field, text_member,
};
use crate::error::MailError;
use crate::json::{json_document, parse_value};
use vstd::prelude::*;
use vstd::string::StringExecFns;

verus! {

/// A message as the service stores it. The attachments are kept as the JSON
/// values that describe them and are never looked into. Of the three bodies
/// only the plain text is shown.
#[derive(Clone, Debug, PartialEq, Eq)]
pub struct Message {
    pub id: i64,
    pub from: String,
    pub subject: String,
    pub date: String,
    pub attachments: Vec<serde_json::Value>,
    pub body: String,
    pub text_body: String,
    pub html_body: String,
}

/// What a `Message` stands for.
pub struct MessageView {
    pub id: i64,
    pub from: Seq<char>,
    pub subject: Seq<char>,
    pub date: Seq<char>,
    pub attachments: Seq<serde_json::Value>,
    pub body: Seq<char>,
    pub text_body: Seq<char>,
    pub html_body: Seq<char>,
}

impl View for Message {
    type V = MessageView;

    open spec fn view(&self) -> MessageView {
        MessageView {
            id: self.id,
            from: self.from@,
            subject: self.subject@,
            date: self.date@,
            attachments: self.attachments@,
            body: self.body@,
            text_body: self.text_body@,
            html_body: self.html_body@,
        }
    }
}

/// The message that the document `doc` describes: a JSON object with an
/// integer `id`, the strings `from`, `subject`, `date`, `body`, `textBody` and
/// `htmlBody`, and an array `attachments`. `Shape` where a member is missing
/// or of another type.
pub open spec fn message_of(doc: serde_json::Value) -> Result<MessageView, MailError> {
    match (
        integer_member(doc, "id"@),
        text_member(doc, "from"@),
        text_member(doc, "subject"@),
        text_member(doc, "date"@),
        items_member(doc, "attachments"@),
        text_member(doc, "body"@),
        text_member(doc, "textBody"@),
        text_member(doc, "htmlBody"@),
    ) {
        (
            Some(id),
            Some(from),
            Some(subject),
            Some(date),
            Some(attachments),
            Some(body),
            Some(text_body),
            Some(html_body),
        ) => Ok(
            MessageView { id, from, subject, date, attachments, body, text_body, html_body },
        ),
        _ => Err(MailError::Shape),
    }
}

/// The message that the response body `body` describes.
pub open spec fn message_in(body: Seq<char>) -> Result<MessageView, MailError> {
    match json_document(body) {
        None => Err(MailError::Json),
        Some(doc) => message_of(doc),
    }
}

/// A message as it is shown: sender, subject and date, an empty line, and
/// the plain text.
pub open spec fn message_text(message: MessageView) -> Seq<char> {
    "From:"@ + message.from + "\nSubject:"@ + message.subject + "\nDate"@ + message.date + "\n\n"@
        + message.text_body
}

/// What is shown for the response body `body`.
pub open spec fn shown_message(body: Seq<char>) -> Result<Seq<char>, MailError> {
    match message_in(body) {
        Ok(message) => Ok(message_text(message)),
        Err(e) => Err(e),
    }
}

impl Message {
    /// The message as it is shown.
    pub fn text(&self) -> (text: String)
        ensures
            text@ == message_text(self@),
    {
        let mut text = String::from_str("From:");
        text.append(self.from.as_str());
        text.append("\nSubject:");
        text.append(self.subject.as_str());
        text.append("\nDate");
        text.append(self.date.as_str());
        text.append("\n\n");
        text.append(self.text_body.as_str());
        text
    }
}

/// Reads a message out of a parsed response.
pub fn message_from_value(doc: &serde_json::Value) -> (decoded: Result<Message, MailError>)
    ensures
        match decoded {
            Ok(message) => message_of(*doc) == Ok::<_, MailError>(message@),
            Err(e) => message_of(*doc) == Err::<MessageView, _>(e),
        },
{
    let id = match integer_field(doc, "id") {
        Some(id) => id,
        None => {
            return Err(MailError::Shape);
        },
    };
    let from = match text_field(doc, "from") {
        Some(text) => text,
        None => {
            return Err(MailError::Shape);
        },
    };
    let subject = match text_field(doc, "subject") {
        Some(text) => text,
        None => {
            return Err(MailError::Shape);
        },
    };
    let date = match text_field(doc, "date") {
        Some(text) => text,
        None => {
            return Err(MailError::Shape);
        },
    };
    let attachments = match items_field(doc, "attachments") {
        Some(items) => items,
        None => {
            return Err(MailError::Shape);
        },
    };
    let body = match text_field(doc, "body") {
        Some(text) => text,
        None => {
            return Err(MailError::Shape);
        },
    };
    let text_body = match text_field(doc, "textBody") {
        Some(text) => text,
        None => {
            return Err(MailError::Shape);
        },
    };
    let html_body = match text_field(doc, "htmlBody") {
        Some(text) => text,
        None => {
            return Err(MailError::Shape);
        },
    };
    Ok(Message { id, from, subject, date, attachments, body, text_body, html_body })
}

/// Reads the message out of the body of the service's response and gives
/// it as it is shown.
pub fn check_message(body: &str) -> (shown: Result<String, MailError>)
    ensures
        match shown {
            Ok(text) => shown_message(body@) == Ok::<_, MailError>(text@),
            Err(e) => shown_message(body@) == Err::<Seq<char>, _>(e),
        },
{
    let doc = match parse_value(body) {
        Ok(doc) => doc,
        Err(_) => {
            return Err(MailError::Json);
        },
    };
    match message_from_value(&doc) {
        Ok(message) => Ok(message.text()),
        Err(e) => Err(e),
    }
}

} // verus!
