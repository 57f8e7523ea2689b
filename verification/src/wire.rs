//! The wire format of an event: a JSON object with the members `chat_id`,
//! `user_id`, `content`, `message_type`, and optionally `file_path` and
//! `file_data`. The JSON library reads and writes the text; which objects are
//! events, and which event each is, is decided here.

use crate::event::{lemma_wire_name_round_trip, text_view, Event, EventKind, EventView};
use crate::json::{
    all_plain, empty_object, json_members, json_object, json_text, member, parse_object,
    put_integer, put_null, put_text, render, JsonObject, Member, MemberView,
};
use vstd::prelude::*;

verus! {

/// The members of the wire format.
#[derive(Clone, Copy, Debug, PartialEq, Eq, Structural)]
pub enum FieldName {
    ChatId,
    UserId,
    Content,
    MessageType,
    FilePath,
    FileData,
}

impl FieldName {
    /// The key of the member in the JSON object.
    pub open spec fn spec_key(self) -> Seq<char> {
        match self {
            FieldName::ChatId => "chat_id"@,
            FieldName::UserId => "user_id"@,
            FieldName::Content => "content"@,
            FieldName::MessageType => "message_type"@,
            FieldName::FilePath => "file_path"@,
            FieldName::FileData => "file_data"@,
        }
    }

    pub fn key(self) -> (key: &'static str)
        ensures
            key@ == self.spec_key(),
    {
        match self {
            FieldName::ChatId => "chat_id",
            FieldName::UserId => "user_id",
            FieldName::Content => "content",
            FieldName::MessageType => "message_type",
            FieldName::FilePath => "file_path",
            FieldName::FileData => "file_data",
        }
    }
}

/// Why a text frame is not an event.
#[derive(Clone, Copy, Debug, PartialEq, Eq, Structural)]
pub enum WireError {
    /// The text is not a JSON object.
    NotAnObject,
    /// A member that every event has is not there.
    Missing(FieldName),
    /// A member holds a value of the wrong type.
    Mistyped(FieldName),
    /// `message_type` is a string, but not the name of a kind.
    UnknownKind,
}

/// What a JSON object holds under the six keys of the wire format: for each
/// key the member, or none where the object has no such key.
#[derive(Clone, Debug, PartialEq, Eq)]
pub struct WireFields {
    pub chat_id: Option<Member>,
    pub user_id: Option<Member>,
    pub content: Option<Member>,
    pub message_type: Option<Member>,
    pub file_path: Option<Member>,
    pub file_data: Option<Member>,
}

/// The mathematical value of [`WireFields`].
pub struct WireFieldsView {
    pub chat_id: Option<MemberView>,
    pub user_id: Option<MemberView>,
    pub content: Option<MemberView>,
    pub message_type: Option<MemberView>,
    pub file_path: Option<MemberView>,
    pub file_data: Option<MemberView>,
}

/// The view of an optional member.
pub open spec fn member_view(found: Option<Member>) -> Option<MemberView> {
    match found {
        Some(m) => Some(m@),
        None => None,
    }
}

impl View for WireFields {
    type V = WireFieldsView;

    open spec fn view(&self) -> WireFieldsView {
        WireFieldsView {
            chat_id: member_view(self.chat_id),
            user_id: member_view(self.user_id),
            content: member_view(self.content),
            message_type: member_view(self.message_type),
            file_path: member_view(self.file_path),
            file_data: member_view(self.file_data),
        }
    }
}

/// The member under a key, or none.
pub open spec fn lookup(members: Map<Seq<char>, MemberView>, key: Seq<char>) -> Option<
    MemberView,
> {
    if members.contains_key(key) {
        Some(members[key])
    } else {
        None
    }
}

/// What an object with the given members holds under the six keys.
pub open spec fn fields_of(members: Map<Seq<char>, MemberView>) -> WireFieldsView {
    WireFieldsView {
        chat_id: lookup(members, FieldName::ChatId.spec_key()),
        user_id: lookup(members, FieldName::UserId.spec_key()),
        content: lookup(members, FieldName::Content.spec_key()),
        message_type: lookup(members, FieldName::MessageType.spec_key()),
        file_path: lookup(members, FieldName::FilePath.spec_key()),
        file_data: lookup(members, FieldName::FileData.spec_key()),
    }
}

/// A member that must be an integer.
pub open spec fn integer_of(found: Option<MemberView>, field: FieldName) -> Result<
    i64,
    WireError,
> {
    match found {
        None => Err(WireError::Missing(field)),
        Some(MemberView::Integer(value)) => Ok(value),
        Some(_) => Err(WireError::Mistyped(field)),
    }
}

/// A member that must be a string.
pub open spec fn text_of(found: Option<MemberView>, field: FieldName) -> Result<
    Seq<char>,
    WireError,
> {
    match found {
        None => Err(WireError::Missing(field)),
        Some(MemberView::Text(value)) => Ok(value),
        Some(_) => Err(WireError::Mistyped(field)),
    }
}

/// A member that may be left out or `null`, and is a string otherwise.
pub open spec fn optional_text_of(found: Option<MemberView>, field: FieldName) -> Result<
    Option<Seq<char>>,
    WireError,
> {
    match found {
        None => Ok(None),
        Some(MemberView::Null) => Ok(None),
        Some(MemberView::Text(value)) => Ok(Some(value)),
        Some(_) => Err(WireError::Mistyped(field)),
    }
}

/// The kind that `message_type` names.
pub open spec fn kind_of(found: Option<MemberView>) -> Result<EventKind, WireError> {
    match text_of(found, FieldName::MessageType) {
        Err(e) => Err(e),
        Ok(name) => match EventKind::spec_from_wire_name(name) {
            Some(kind) => Ok(kind),
            None => Err(WireError::UnknownKind),
        },
    }
}

/// The event that the six members stand for, or the first reason, in the
/// order of the wire format, why they stand for none.
pub open spec fn event_of(fields: WireFieldsView) -> Result<EventView, WireError> {
    match integer_of(fields.chat_id, FieldName::ChatId) {
        Err(e) => Err(e),
        Ok(chat_id) => match integer_of(fields.user_id, FieldName::UserId) {
            Err(e) => Err(e),
            Ok(user_id) => match text_of(fields.content, FieldName::Content) {
                Err(e) => Err(e),
                Ok(content) => match kind_of(fields.message_type) {
                    Err(e) => Err(e),
                    Ok(kind) => match optional_text_of(fields.file_path, FieldName::FilePath) {
                        Err(e) => Err(e),
                        Ok(file_path) => match optional_text_of(
                            fields.file_data,
                            FieldName::FileData,
                        ) {
                            Err(e) => Err(e),
                            Ok(file_data) => Ok(
                                EventView { chat_id, user_id, content, kind, file_path, file_data },
                            ),
                        },
                    },
                },
            },
        },
    }
}

/// The member that an optional string is written as: `null` where it is
/// none.
pub open spec fn optional_member(text: Option<Seq<char>>) -> MemberView {
    match text {
        Some(value) => MemberView::Text(value),
        None => MemberView::Null,
    }
}

/// The six members that an event is written as. All six are there.
pub open spec fn fields_for(event: EventView) -> WireFieldsView {
    WireFieldsView {
        chat_id: Some(MemberView::Integer(event.chat_id)),
        user_id: Some(MemberView::Integer(event.user_id)),
        content: Some(MemberView::Text(event.content)),
        message_type: Some(MemberView::Text(event.kind.spec_wire_name())),
        file_path: Some(optional_member(event.file_path)),
        file_data: Some(optional_member(event.file_data)),
    }
}

/// The members of the JSON object that an event is written as.
pub open spec fn members_for(event: EventView) -> Map<Seq<char>, MemberView> {
    Map::empty().insert(FieldName::ChatId.spec_key(), MemberView::Integer(event.chat_id)).insert(
        FieldName::UserId.spec_key(),
        MemberView::Integer(event.user_id),
    ).insert(FieldName::Content.spec_key(), MemberView::Text(event.content)).insert(
        FieldName::MessageType.spec_key(),
        MemberView::Text(event.kind.spec_wire_name()),
    ).insert(FieldName::FilePath.spec_key(), optional_member(event.file_path)).insert(
        FieldName::FileData.spec_key(),
        optional_member(event.file_data),
    )
}

/// The event that a text frame stands for, given what the JSON library
/// reads the text as.
pub open spec fn decoded(document: Option<Map<Seq<char>, MemberView>>) -> Result<
    EventView,
    WireError,
> {
    match document {
        None => Err(WireError::NotAnObject),
        Some(members) => event_of(fields_of(members)),
    }
}

/// That a decoding came to the given outcome.
pub open spec fn same_outcome(r: Result<Event, WireError>, expected: Result<
    EventView,
    WireError,
>) -> bool {
    match r {
        Ok(event) => expected == Ok::<EventView, WireError>(event@),
        Err(e) => expected == Err::<EventView, WireError>(e),
    }
}

fn read_integer(found: Option<Member>, field: FieldName) -> (r: Result<i64, WireError>)
    ensures
        r == integer_of(member_view(found), field),
{
    match found {
        None => Err(WireError::Missing(field)),
        Some(Member::Integer(value)) => Ok(value),
        Some(_) => Err(WireError::Mistyped(field)),
    }
}

fn read_text(found: Option<Member>, field: FieldName) -> (r: Result<String, WireError>)
    ensures
        match r {
            Ok(text) => text_of(member_view(found), field) == Ok::<Seq<char>, WireError>(text@),
            Err(e) => text_of(member_view(found), field) == Err::<Seq<char>, WireError>(e),
        },
{
    match found {
        None => Err(WireError::Missing(field)),
        Some(Member::Text(value)) => Ok(value),
        Some(_) => Err(WireError::Mistyped(field)),
    }
}

fn read_optional_text(found: Option<Member>, field: FieldName) -> (r: Result<
    Option<String>,
    WireError,
>)
    ensures
        match r {
            Ok(text) => optional_text_of(member_view(found), field) == Ok::<
                Option<Seq<char>>,
                WireError,
            >(text_view(text)),
            Err(e) => optional_text_of(member_view(found), field) == Err::<
                Option<Seq<char>>,
                WireError,
            >(e),
        },
{
    match found {
        None => Ok(None),
        Some(Member::Null) => Ok(None),
        Some(Member::Text(value)) => Ok(Some(value)),
        Some(_) => Err(WireError::Mistyped(field)),
    }
}

fn read_kind(found: Option<Member>) -> (r: Result<EventKind, WireError>)
    ensures
        r == kind_of(member_view(found)),
{
    match read_text(found, FieldName::MessageType) {
        Err(e) => Err(e),
        Ok(name) => match EventKind::from_wire_name(name.as_str()) {
            Some(kind) => Ok(kind),
            None => Err(WireError::UnknownKind),
        },
    }
}

impl Event {
    /// The event that six members stand for. `chat_id` and `user_id` must be
    /// integers, `content` a string and `message_type` the name of a kind;
    /// `file_path` and `file_data` may be left out or `null`. The error names
    /// the first member, in this order, that is not as it must be.
    pub fn from_fields(fields: WireFields) -> (r: Result<Event, WireError>)
        ensures
            same_outcome(r, event_of(fields@)),
    {
        let chat_id = match read_integer(fields.chat_id, FieldName::ChatId) {
            Ok(value) => value,
            Err(e) => { return Err(e); },
        };
        let user_id = match read_integer(fields.user_id, FieldName::UserId) {
            Ok(value) => value,
            Err(e) => { return Err(e); },
        };
        let content = match read_text(fields.content, FieldName::Content) {
            Ok(value) => value,
            Err(e) => { return Err(e); },
        };
        let kind = match read_kind(fields.message_type) {
            Ok(value) => value,
            Err(e) => { return Err(e); },
        };
        let file_path = match read_optional_text(fields.file_path, FieldName::FilePath) {
            Ok(value) => value,
            Err(e) => { return Err(e); },
        };
        let file_data = match read_optional_text(fields.file_data, FieldName::FileData) {
            Ok(value) => value,
            Err(e) => { return Err(e); },
        };
        Ok(Event { chat_id, user_id, content, kind, file_path, file_data })
    }

    /// The six members that this event is written as: every member is
    /// there, and an optional string that is none is written as `null`.
    pub fn to_fields(&self) -> (fields: WireFields)
        ensures
            fields@ == fields_for(self@),
    {
        WireFields {
            chat_id: Some(Member::Integer(self.chat_id)),
            user_id: Some(Member::Integer(self.user_id)),
            content: Some(Member::Text(self.content.clone())),
            message_type: Some(Member::Text(String::from_str(self.kind.wire_name()))),
            file_path: Some(optional_to_member(&self.file_path)),
            file_data: Some(optional_to_member(&self.file_data)),
        }
    }
}

fn optional_to_member(text: &Option<String>) -> (m: Member)
    ensures
        m@ == optional_member(text_view(*text)),
{
    match text {
        Some(value) => Member::Text(value.clone()),
        None => Member::Null,
    }
}

/// What a JSON object holds under the six keys of the wire format.
pub fn read_fields(object: &JsonObject) -> (fields: WireFields)
    ensures
        fields@ == fields_of(json_members(*object)),
{
    WireFields {
        chat_id: member(object, FieldName::ChatId.key()),
        user_id: member(object, FieldName::UserId.key()),
        content: member(object, FieldName::Content.key()),
        message_type: member(object, FieldName::MessageType.key()),
        file_path: member(object, FieldName::FilePath.key()),
        file_data: member(object, FieldName::FileData.key()),
    }
}

/// The event that a JSON object stands for.
pub fn decode_object(object: &JsonObject) -> (r: Result<Event, WireError>)
    ensures
        same_outcome(r, event_of(fields_of(json_members(*object)))),
{
    Event::from_fields(read_fields(object))
}

/// The event that a text frame stands for. A text that the JSON library
/// does not read as an object is refused as [`WireError::NotAnObject`];
/// an object is an event by the rules of [`Event::from_fields`].
pub fn decode_event(text: &str) -> (r: Result<Event, WireError>)
    ensures
        same_outcome(r, decoded(json_object(text@))),
{
    match parse_object(text) {
        Err(_) => Err(WireError::NotAnObject),
        Ok(object) => decode_object(&object),
    }
}

fn put_optional(object: &mut JsonObject, key: &str, text: &Option<String>)
    ensures
        json_members(*final(object)) == json_members(*old(object)).insert(
            key@,
            optional_member(text_view(*text)),
        ),
{
    match text {
        Some(value) => put_text(object, key, value.as_str()),
        None => put_null(object, key),
    }
}

/// The JSON object that an event is written as.
pub fn event_object(event: &Event) -> (object: JsonObject)
    ensures
        json_members(object) == members_for(event@),
{
    let mut object = empty_object();
    put_integer(&mut object, FieldName::ChatId.key(), event.chat_id);
    put_integer(&mut object, FieldName::UserId.key(), event.user_id);
    put_text(&mut object, FieldName::Content.key(), event.content.as_str());
    put_text(&mut object, FieldName::MessageType.key(), event.kind.wire_name());
    put_optional(&mut object, FieldName::FilePath.key(), &event.file_path);
    put_optional(&mut object, FieldName::FileData.key(), &event.file_data);
    object
}

/// Every member that an event is written as is `null`, an integer or a
/// string.
pub proof fn lemma_members_plain(event: EventView)
    ensures
        all_plain(members_for(event)),
{
}

/// The text frame that an event is sent out as: the compact JSON text of
/// the object with the six members of [`fields_for`].
pub fn encode_event(event: &Event) -> (text: String)
    ensures
        text@ == json_text(members_for(event@)),
{
    let object = event_object(event);
    proof {
        lemma_members_plain(event@);
    }
    match render(&object) {
        Ok(text) => text,
        // Not taken: such an object always has a text.
        Err(_) => String::new(),
    }
}

/// The six keys of the wire format differ from one another.
pub proof fn lemma_keys_distinct(a: FieldName, b: FieldName)
    ensures
        a.spec_key() == b.spec_key() <==> a == b,
{
    reveal_strlit("chat_id");
    reveal_strlit("user_id");
    reveal_strlit("content");
    reveal_strlit("message_type");
    reveal_strlit("file_path");
    reveal_strlit("file_data");
    let ka = a.spec_key();
    let kb = b.spec_key();
    if a != b && ka == kb {
        assert(ka.len() == kb.len());
        assert(ka[0] == kb[0]);
        assert(ka[5] == kb[5]);
    }
}

/// The object that an event is written as holds, under the six keys, the
/// six members of the event.
pub proof fn lemma_written_fields(event: EventView)
    ensures
        fields_of(members_for(event)) == fields_for(event),
{
    lemma_keys_distinct(FieldName::ChatId, FieldName::UserId);
    lemma_keys_distinct(FieldName::ChatId, FieldName::Content);
    lemma_keys_distinct(FieldName::ChatId, FieldName::MessageType);
    lemma_keys_distinct(FieldName::ChatId, FieldName::FilePath);
    lemma_keys_distinct(FieldName::ChatId, FieldName::FileData);
    lemma_keys_distinct(FieldName::UserId, FieldName::Content);
    lemma_keys_distinct(FieldName::UserId, FieldName::MessageType);
    lemma_keys_distinct(FieldName::UserId, FieldName::FilePath);
    lemma_keys_distinct(FieldName::UserId, FieldName::FileData);
    lemma_keys_distinct(FieldName::Content, FieldName::MessageType);
    lemma_keys_distinct(FieldName::Content, FieldName::FilePath);
    lemma_keys_distinct(FieldName::Content, FieldName::FileData);
    lemma_keys_distinct(FieldName::MessageType, FieldName::FilePath);
    lemma_keys_distinct(FieldName::MessageType, FieldName::FileData);
    lemma_keys_distinct(FieldName::FilePath, FieldName::FileData);
}

/// Writing an event as its six members and reading them back gives the
/// event again: nothing of an event is lost on the wire.
pub proof fn lemma_fields_round_trip(event: EventView)
    ensures
        event_of(fields_for(event)) == Ok::<EventView, WireError>(event),
        decoded(Some(members_for(event))) == Ok::<EventView, WireError>(event),
{
    lemma_wire_name_round_trip(event.kind);
    lemma_written_fields(event);
    let back = event_of(fields_for(event));
    assert(back is Ok);
    assert(back->Ok_0.file_path == event.file_path);
    assert(back->Ok_0.file_data == event.file_data);
}

} // verus!
