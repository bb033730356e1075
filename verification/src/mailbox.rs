//! The inbox of a mailbox: one summary for each message.

use crate::document::{integer_field, integer_member, text_field, text_member};
use crate::error::MailError;
use crate::json::{json_document, json_items, parse_value};
use crate::text::{decimal, push_decimal, push_signed_decimal, signed_decimal};
use vstd::prelude::*;
use vstd::string::StringExecFns;

verus! {

/// One entry of the inbox: the message's id, its sender, its subject and its
/// date, the date as the service writes it.
#[derive(Clone, Debug, PartialEq, Eq)]
pub struct MailboxItem {
    pub id: i64,
    pub from: String,
    pub subject: String,
    pub date: String,
}

/// What a `MailboxItem` stands for.
pub struct MailboxItemView {
    pub id: i64,
    pub from: Seq<char>,
    pub subject: Seq<char>,
    pub date: Seq<char>,
}

impl View for MailboxItem {
    type V = MailboxItemView;

    open spec fn view(&self) -> MailboxItemView {
        MailboxItemView {
            id: self.id,
            from: self.from@,
            subject: self.subject@,
            date: self.date@,
        }
    }
}

/// The inbox: its entries in the order in which the service gave them.
#[derive(Clone, Debug, PartialEq, Eq)]
pub struct Mailbox {
    pub items: Vec<MailboxItem>,
}

impl View for Mailbox {
    type V = Seq<MailboxItemView>;

    open spec fn view(&self) -> Seq<MailboxItemView> {
        Seq::new(self.items.len() as nat, |i: int| self.items[i]@)
    }
}

/// The entry that the JSON object `item` describes: members `id`, `from`,
/// `subject` and `date`, the first an integer and the others strings. `None`
/// where one of them is missing or of another type.
pub open spec fn summary_of(item: serde_json::Value) -> Option<MailboxItemView> {
    match (
        integer_member(item, "id"@),
        text_member(item, "from"@),
        text_member(item, "subject"@),
        text_member(item, "date"@),
    ) {
        (Some(id), Some(from), Some(subject), Some(date)) => Some(
            MailboxItemView { id, from, subject, date },
        ),
        _ => None,
    }
}

/// The inbox that the document `doc` describes: an array, each element of it
/// an entry. The entries keep the order of the array.
pub open spec fn mailbox_of(doc: serde_json::Value) -> Result<Seq<MailboxItemView>, MailError> {
    match json_items(doc) {
        None => Err(MailError::Shape),
        Some(items) => if forall|i: int| 0 <= i < items.len() ==> summary_of(#[trigger] items[i])
            is Some {
            Ok(Seq::new(items.len(), |i: int| summary_of(items[i])->0))
        } else {
            Err(MailError::Shape)
        },
    }
}

/// The inbox that the response body `body` describes.
pub open spec fn mailbox_in(body: Seq<char>) -> Result<Seq<MailboxItemView>, MailError> {
    match json_document(body) {
        None => Err(MailError::Json),
        Some(doc) => mailbox_of(doc),
    }
}

/// The inbox keeps the order of the response: it has one entry for each
/// element of the array, and entry `i` is what element `i` describes.
pub proof fn lemma_mailbox_keeps_order(doc: serde_json::Value)
    requires
        mailbox_of(doc) is Ok,
    ensures
        json_items(doc) is Some,
        mailbox_of(doc)->Ok_0.len() == json_items(doc)->0.len(),
        forall|i: int|
            0 <= i < json_items(doc)->0.len() ==> summary_of(#[trigger] json_items(doc)->0[i])
                == Some(mailbox_of(doc)->Ok_0[i]),
{
}

/// One entry as it is shown.
pub open spec fn summary_text(item: MailboxItemView) -> Seq<char> {
    "\nMessage id: "@ + signed_decimal(item.id as int) + "\nFrom: "@ + item.from + "\nSubject: "@
        + item.subject + "\nDate: "@ + item.date + "\n\n\n"@
}

/// The entries as they are shown, one after the other.
pub open spec fn summaries_text(items: Seq<MailboxItemView>) -> Seq<char>
    decreases items.len(),
{
    if items.len() == 0 {
        Seq::empty()
    } else {
        summaries_text(items.drop_last()) + summary_text(items.last())
    }
}

/// The inbox as it is shown: the number of messages, then the entries.
pub open spec fn mailbox_text(items: Seq<MailboxItemView>) -> Seq<char> {
    "\nMessage count: "@ + decimal(items.len()) + "\n"@ + summaries_text(items)
}

/// Decoding an entry and showing it alters nothing: the entry holds the id,
/// the sender, the subject and the date as they stand in the JSON object, and
/// what is shown is made of exactly these.
pub proof fn lemma_summary_round_trip(item: serde_json::Value)
    requires
        summary_of(item) is Some,
    ensures
        summary_of(item)->0.id == integer_member(item, "id"@)->0,
        summary_of(item)->0.from == text_member(item, "from"@)->0,
        summary_of(item)->0.subject == text_member(item, "subject"@)->0,
        summary_of(item)->0.date == text_member(item, "date"@)->0,
        summary_text(summary_of(item)->0) == "\nMessage id: "@ + signed_decimal(
            integer_member(item, "id"@)->0 as int,
        ) + "\nFrom: "@ + text_member(item, "from"@)->0 + "\nSubject: "@ + text_member(
            item,
            "subject"@,
        )->0 + "\nDate: "@ + text_member(item, "date"@)->0 + "\n\n\n"@,
{
}

impl MailboxItem {
    /// Appends the entry, as it is shown, to `out`.
    pub fn write(&self, out: &mut String)
        ensures
            final(out)@ == old(out)@ + summary_text(self@),
    {
        out.append("\nMessage id: ");
        push_signed_decimal(out, self.id);
        out.append("\nFrom: ");
        out.append(self.from.as_str());
        out.append("\nSubject: ");
        out.append(self.subject.as_str());
        out.append("\nDate: ");
        out.append(self.date.as_str());
        out.append("\n\n\n");
    }

    /// The entry as it is shown.
    pub fn text(&self) -> (text: String)
        ensures
            text@ == summary_text(self@),
    {
        let mut text = String::new();
        self.write(&mut text);
        text
    }
}

impl Mailbox {
    /// The empty inbox.
    pub fn new() -> (mailbox: Mailbox)
        ensures
            mailbox@ == Seq::<MailboxItemView>::empty(),
    {
        Mailbox { items: Vec::new() }
    }

    /// The inbox as it is shown.
    pub fn text(&self) -> (text: String)
        ensures
            text@ == mailbox_text(self@),
    {
        let mut text = String::from_str("\nMessage count: ");
        push_decimal(&mut text, self.items.len() as u64);
        text.append("\n");
        let ghost head = text@;
        let mut i: usize = 0;
        while i < self.items.len()
            invariant
                i <= self.items.len(),
                text@ == head + summaries_text(self@.take(i as int)),
            decreases self.items.len() - i,
        {
            proof {
                let shown = self@.take(i + 1);
                assert(shown.drop_last() =~= self@.take(i as int));
            }
            self.items[i].write(&mut text);
            i += 1;
        }
        proof {
            assert(self@.take(self.items.len() as int) =~= self@);
        }
        text
    }
}

/// Reads one entry of the inbox out of a JSON object.
pub fn summary_from_value(item: &serde_json::Value) -> (decoded: Option<MailboxItem>)
    ensures
        match decoded {
            Some(entry) => summary_of(*item) == Some(entry@),
            None => summary_of(*item) is None,
        },
{
    let id = match integer_field(item, "id") {
        Some(id) => id,
        None => {
            return None;
        },
    };
    let from = match text_field(item, "from") {
        Some(from) => from,
        None => {
            return None;
        },
    };
    let subject = match text_field(item, "subject") {
        Some(subject) => subject,
        None => {
            return None;
        },
    };
    let date = match text_field(item, "date") {
        Some(date) => date,
        None => {
            return None;
        },
    };
    Some(MailboxItem { id, from, subject, date })
}

/// Reads the inbox out of a parsed response.
pub fn mailbox_from_value(doc: &serde_json::Value) -> (decoded: Result<Mailbox, MailError>)
    ensures
        match decoded {
            Ok(mailbox) => mailbox_of(*doc) == Ok::<_, MailError>(mailbox@),
            Err(e) => mailbox_of(*doc) == Err::<Seq<MailboxItemView>, _>(e),
        },
{
    let items = match doc.as_array() {
        Some(items) => items,
        None => {
            return Err(MailError::Shape);
        },
    };
    let mut entries: Vec<MailboxItem> = Vec::new();
    let mut i: usize = 0;
    while i < items.len()
        invariant
            i <= items.len(),
            json_items(*doc) == Some(items@),
            entries.len() == i,
            forall|j: int| 0 <= j < i ==> summary_of(#[trigger] items@[j]) == Some(entries[j]@),
        decreases items.len() - i,
    {
        match summary_from_value(&items[i]) {
            Some(entry) => {
                entries.push(entry);
            },
            None => {
                return Err(MailError::Shape);
            },
        }
        i += 1;
    }
    let mailbox = Mailbox { items: entries };
    proof {
        assert(mailbox@ =~= Seq::new(items@.len(), |i: int| summary_of(items@[i])->0));
    }
    Ok(mailbox)
}

/// Reads the inbox out of the body of the service's response. One element
/// that is no entry fails the whole inbox.
pub fn check_mailbox(body: &str) -> (decoded: Result<Mailbox, MailError>)
    ensures
        match decoded {
            Ok(mailbox) => mailbox_in(body@) == Ok::<_, MailError>(mailbox@),
            Err(e) => mailbox_in(body@) == Err::<Seq<MailboxItemView>, _>(e),
        },
{
    match parse_value(body) {
        Ok(doc) => mailbox_from_value(&doc),
        Err(_) => Err(MailError::Json),
    }
}

} // verus!
