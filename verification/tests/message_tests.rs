use tempmail::error::MailError;
use tempmail::message::{check_message, message_from_value, Message};

const MESSAGE: &str = "{\"id\": 42, \"from\": \"someone@example.com\", \"subject\": \"Some subject\", \"date\": \"2018-06-08 14:33:55\", \"attachments\": [{\"filename\": \"iometer.pdf\", \"contentType\": \"application/pdf\", \"size\": 47412}], \"body\": \"<p>hello</p>\", \"textBody\": \"hello\", \"htmlBody\": \"<p>hello</p>\"}";

#[test]
fn check_message_shows_the_header_and_the_plain_text() {
    let shown = check_message(MESSAGE).unwrap();
    assert!(shown.contains("hello"));
    assert!(shown.contains("From:someone@example.com\nSubject:Some subject\nDate2018-06-08 14:33:55\n"));
    assert_eq!(
        shown,
        "From:someone@example.com\nSubject:Some subject\nDate2018-06-08 14:33:55\n\nhello"
    );
}

#[test]
fn check_message_shows_only_the_plain_text_body() {
    let body = "{\"id\": 1, \"from\": \"f\", \"subject\": \"s\", \"date\": \"d\", \"attachments\": [], \"body\": \"RAW\", \"textBody\": \"PLAIN\", \"htmlBody\": \"HTML\"}";
    assert_eq!(check_message(body), Ok("From:f\nSubject:s\nDated\n\nPLAIN".to_string()));
}

#[test]
fn message_from_value_reads_every_member() {
    let doc: serde_json::Value = serde_json::from_str(MESSAGE).unwrap();
    let message = message_from_value(&doc).unwrap();
    assert_eq!(message.id, 42);
    assert_eq!(message.from, "someone@example.com");
    assert_eq!(message.subject, "Some subject");
    assert_eq!(message.date, "2018-06-08 14:33:55");
    assert_eq!(message.body, "<p>hello</p>");
    assert_eq!(message.text_body, "hello");
    assert_eq!(message.html_body, "<p>hello</p>");
}

#[test]
fn message_from_value_keeps_the_attachments_as_they_are() {
    let doc: serde_json::Value = serde_json::from_str(MESSAGE).unwrap();
    let message = message_from_value(&doc).unwrap();
    assert_eq!(message.attachments.len(), 1);
    assert_eq!(message.attachments, *doc["attachments"].as_array().unwrap());
    assert_eq!(message.attachments[0]["filename"], serde_json::Value::from("iometer.pdf"));
    assert_eq!(message.attachments[0]["size"], serde_json::Value::from(47412));
}

#[test]
fn message_text_is_built_from_the_fields() {
    let message = Message {
        id: 7,
        from: "a@b".to_string(),
        subject: "Hi".to_string(),
        date: "today".to_string(),
        attachments: vec![],
        body: "ignored".to_string(),
        text_body: "line one\nline two".to_string(),
        html_body: "ignored".to_string(),
    };
    assert_eq!(message.text(), "From:a@b\nSubject:Hi\nDatetoday\n\nline one\nline two");
}

#[test]
fn check_message_rejects_text_that_is_not_json() {
    assert_eq!(check_message("Message not found"), Err(MailError::Json));
    assert_eq!(check_message(""), Err(MailError::Json));
}

#[test]
fn check_message_rejects_what_is_no_object() {
    assert_eq!(check_message("[]"), Err(MailError::Shape));
    assert_eq!(check_message("null"), Err(MailError::Shape));
    assert_eq!(
        check_message("[42, \"f\", \"s\", \"d\", [], \"b\", \"t\", \"h\"]"),
        Err(MailError::Shape)
    );
}

fn without(member: &str) -> String {
    let doc: serde_json::Value = serde_json::from_str(MESSAGE).unwrap();
    let mut object = doc.as_object().unwrap().clone();
    object.remove(member);
    serde_json::Value::Object(object).to_string()
}

fn with(member: &str, value: serde_json::Value) -> String {
    let doc: serde_json::Value = serde_json::from_str(MESSAGE).unwrap();
    let mut object = doc.as_object().unwrap().clone();
    object.insert(member.to_string(), value);
    serde_json::Value::Object(object).to_string()
}

#[test]
fn check_message_wants_every_member() {
    for member in ["id", "from", "subject", "date", "attachments", "body", "textBody", "htmlBody"] {
        assert_eq!(check_message(&without(member)), Err(MailError::Shape), "without {}", member);
    }
    assert!(check_message(&without("other")).is_ok());
}

#[test]
fn check_message_wants_every_member_of_its_type() {
    for member in ["from", "subject", "date", "body", "textBody", "htmlBody"] {
        assert_eq!(
            check_message(&with(member, serde_json::Value::from(1))),
            Err(MailError::Shape),
            "{} as a number",
            member
        );
        assert_eq!(
            check_message(&with(member, serde_json::Value::Null)),
            Err(MailError::Shape),
            "{} as null",
            member
        );
    }
    assert_eq!(check_message(&with("id", serde_json::Value::from("42"))), Err(MailError::Shape));
    assert_eq!(
        check_message(&with("attachments", serde_json::Value::from("none"))),
        Err(MailError::Shape)
    );
    assert!(check_message(&with("id", serde_json::Value::from(-3))).is_ok());
}
