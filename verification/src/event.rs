//! The unit of relay traffic and its durable form.

use vstd::prelude::*;

verus! {

/// The kind of an event: plain text, or one that carries an attachment.
#[derive(Clone, Copy, Debug, PartialEq, Eq, Structural)]
pub enum EventKind {
    Plain,
    Attachment,
}

impl EventKind {
    /// The name of the kind on the wire and in the message store.
    pub open spec fn spec_wire_name(self) -> Seq<char> {
        match self {
            EventKind::Plain => "text"@,
            EventKind::Attachment => "file"@,
        }
    }

    /// The kind that a wire name stands for, if it stands for one.
    pub open spec fn spec_from_wire_name(name: Seq<char>) -> Option<EventKind> {
        if name == "text"@ {
            Some(EventKind::Plain)
        } else if name == "file"@ {
            Some(EventKind::Attachment)
        } else {
            None
        }
    }

    pub fn wire_name(self) -> (name: &'static str)
        ensures
            name@ == self.spec_wire_name(),
    {
        match self {
            EventKind::Plain => "text",
            EventKind::Attachment => "file",
        }
    }

    pub fn from_wire_name(name: &str) -> (kind: Option<EventKind>)
        ensures
            kind == Self::spec_from_wire_name(name@),
    {
        let owned = String::from_str(name);
        if owned == String::from_str("text") {
            Some(EventKind::Plain)
        } else if owned == String::from_str("file") {
            Some(EventKind::Attachment)
        } else {
            None
        }
    }
}

/// Every kind is found again from its wire name, and the two names differ.
pub proof fn lemma_wire_name_round_trip(kind: EventKind)
    ensures
        EventKind::spec_from_wire_name(kind.spec_wire_name()) == Some(kind),
{
    reveal_strlit("text");
    reveal_strlit("file");
    assert("text"@.len() == 4);
    assert("file"@[0] == 'f');
    assert("text"@[0] == 't');
}

/// One event as a peer sent it.
#[derive(Clone, Debug, PartialEq, Eq)]
pub struct Event {
    pub chat_id: i64,
    pub user_id: i64,
    pub content: String,
    pub kind: EventKind,
    pub file_path: Option<String>,
    pub file_data: Option<String>,
}

/// The mathematical value of an [`Event`].
pub struct EventView {
    pub chat_id: i64,
    pub user_id: i64,
    pub content: Seq<char>,
    pub kind: EventKind,
    pub file_path: Option<Seq<char>>,
    pub file_data: Option<Seq<char>>,
}

/// The view of an optional string.
pub open spec fn text_view(text: Option<String>) -> Option<Seq<char>> {
    match text {
        Some(s) => Some(s@),
        None => None,
    }
}

impl View for Event {
    type V = EventView;

    open spec fn view(&self) -> EventView {
        EventView {
            chat_id: self.chat_id,
            user_id: self.user_id,
            content: self.content@,
            kind: self.kind,
            file_path: text_view(self.file_path),
            file_data: text_view(self.file_data),
        }
    }
}

/// The durable form of an event: what the message store records of it. The
/// embedded payload is not part of it, and the store assigns the time.
#[derive(Clone, Debug, PartialEq, Eq)]
pub struct MessageRecord {
    pub chat_id: i64,
    pub user_id: i64,
    pub content: String,
    pub file_path: Option<String>,
    pub kind: EventKind,
}

/// The mathematical value of a [`MessageRecord`].
pub struct RecordView {
    pub chat_id: i64,
    pub user_id: i64,
    pub content: Seq<char>,
    pub file_path: Option<Seq<char>>,
    pub kind: EventKind,
}

impl View for MessageRecord {
    type V = RecordView;

    open spec fn view(&self) -> RecordView {
        RecordView {
            chat_id: self.chat_id,
            user_id: self.user_id,
            content: self.content@,
            file_path: text_view(self.file_path),
            kind: self.kind,
        }
    }
}

impl EventView {
    /// The record that the store keeps of this event.
    pub open spec fn record(self) -> RecordView {
        RecordView {
            chat_id: self.chat_id,
            user_id: self.user_id,
            content: self.content,
            file_path: self.file_path,
            kind: self.kind,
        }
    }

    /// The payload and the reference of the attachment to store: both are
    /// there only for an attachment event that carries both.
    pub open spec fn attachment(self) -> Option<(Seq<char>, Seq<char>)> {
        if self.kind == EventKind::Attachment && self.file_data is Some && self.file_path is Some {
            Some((self.file_data->0, self.file_path->0))
        } else {
            None
        }
    }
}

/// A copy of an optional string.
pub fn clone_text(text: &Option<String>) -> (copy: Option<String>)
    ensures
        text_view(copy) == text_view(*text),
{
    match text {
        Some(s) => Some(s.clone()),
        None => None,
    }
}

impl Event {
    /// The record that the store keeps of this event.
    pub fn record(&self) -> (record: MessageRecord)
        ensures
            record@ == self@.record(),
    {
        MessageRecord {
            chat_id: self.chat_id,
            user_id: self.user_id,
            content: self.content.clone(),
            file_path: clone_text(&self.file_path),
            kind: self.kind,
        }
    }

    /// The payload and the reference of the attachment to store, if the
    /// event asks for one.
    pub fn attachment(&self) -> (parts: Option<(&str, &str)>)
        ensures
            match parts {
                Some((payload, reference)) => self@.attachment() == Some((payload@, reference@)),
                None => self@.attachment() is None,
            },
    {
        match self.kind {
            EventKind::Plain => None,
            EventKind::Attachment => match (&self.file_data, &self.file_path) {
                (Some(payload), Some(reference)) => Some((payload.as_str(), reference.as_str())),
                _ => None,
            },
        }
    }
}

} // verus!
