use chat_relay::event::{Event, EventKind};
use chat_relay::json::Member;
use chat_relay::wire::{
    decode_event, decode_object, encode_event, event_object, read_fields, FieldName, WireError,
    WireFields,
};

fn plain_event() -> Event {
    Event {
        chat_id: 1,
        user_id: 2,
        content: String::from("hi"),
        kind: EventKind::Plain,
        file_path: None,
        file_data: None,
    }
}

fn file_event() -> Event {
    Event {
        chat_id: 7,
        user_id: -3,
        content: String::from("see attached"),
        kind: EventKind::Attachment,
        file_path: Some(String::from("a/b.txt")),
        file_data: Some(String::from("data:application/octet-stream;base64,SGVsbG8=")),
    }
}

fn full_fields() -> WireFields {
    WireFields {
        chat_id: Some(Member::Integer(1)),
        user_id: Some(Member::Integer(2)),
        content: Some(Member::Text(String::from("hi"))),
        message_type: Some(Member::Text(String::from("text"))),
        file_path: None,
        file_data: None,
    }
}

#[test]
fn kind_wire_names() {
    assert_eq!(EventKind::Plain.wire_name(), "text");
    assert_eq!(EventKind::Attachment.wire_name(), "file");
    assert_eq!(EventKind::from_wire_name("text"), Some(EventKind::Plain));
    assert_eq!(EventKind::from_wire_name("file"), Some(EventKind::Attachment));
    assert_eq!(EventKind::from_wire_name("image"), None);
    assert_eq!(EventKind::from_wire_name(""), None);
    assert_eq!(EventKind::from_wire_name("Text"), None);
}

#[test]
fn field_keys() {
    assert_eq!(FieldName::ChatId.key(), "chat_id");
    assert_eq!(FieldName::UserId.key(), "user_id");
    assert_eq!(FieldName::Content.key(), "content");
    assert_eq!(FieldName::MessageType.key(), "message_type");
    assert_eq!(FieldName::FilePath.key(), "file_path");
    assert_eq!(FieldName::FileData.key(), "file_data");
}

#[test]
fn decodes_a_plain_event() {
    let text = r#"{"chat_id": 1, "user_id": 2, "content": "hi", "message_type": "text"}"#;
    assert_eq!(decode_event(text), Ok(plain_event()));
}

#[test]
fn decodes_an_attachment_event() {
    let text = r#"{"chat_id":7,"user_id":-3,"content":"see attached","message_type":"file","file_path":"a/b.txt","file_data":"data:application/octet-stream;base64,SGVsbG8="}"#;
    assert_eq!(decode_event(text), Ok(file_event()));
}

#[test]
fn null_optionals_are_none() {
    let text = r#"{"chat_id":1,"user_id":2,"content":"hi","message_type":"text","file_path":null,"file_data":null}"#;
    assert_eq!(decode_event(text), Ok(plain_event()));
}

#[test]
fn unknown_members_are_passed_over() {
    let text = r#"{"chat_id":1,"user_id":2,"content":"hi","message_type":"text","mood":[1,2]}"#;
    assert_eq!(decode_event(text), Ok(plain_event()));
}

#[test]
fn text_that_is_no_object_is_refused() {
    assert_eq!(decode_event("not json"), Err(WireError::NotAnObject));
    assert_eq!(decode_event(""), Err(WireError::NotAnObject));
    assert_eq!(decode_event("[1,2,3]"), Err(WireError::NotAnObject));
    assert_eq!(decode_event("42"), Err(WireError::NotAnObject));
    assert_eq!(decode_event(r#"{"chat_id":1"#), Err(WireError::NotAnObject));
}

#[test]
fn object_without_members_misses_the_first() {
    assert_eq!(decode_event("{}"), Err(WireError::Missing(FieldName::ChatId)));
    assert_eq!(decode_event(" { } "), Err(WireError::Missing(FieldName::ChatId)));
    assert_eq!(decode_event("null"), Err(WireError::NotAnObject));
}

#[test]
fn each_required_member_is_missed() {
    assert_eq!(
        decode_event(r#"{"user_id":2,"content":"hi","message_type":"text"}"#),
        Err(WireError::Missing(FieldName::ChatId))
    );
    assert_eq!(
        decode_event(r#"{"chat_id":1,"content":"hi","message_type":"text"}"#),
        Err(WireError::Missing(FieldName::UserId))
    );
    assert_eq!(
        decode_event(r#"{"chat_id":1,"user_id":2,"message_type":"text"}"#),
        Err(WireError::Missing(FieldName::Content))
    );
    assert_eq!(
        decode_event(r#"{"chat_id":1,"user_id":2,"content":"hi"}"#),
        Err(WireError::Missing(FieldName::MessageType))
    );
}

#[test]
fn members_of_the_wrong_type_are_refused() {
    assert_eq!(
        decode_event(r#"{"chat_id":"1","user_id":2,"content":"hi","message_type":"text"}"#),
        Err(WireError::Mistyped(FieldName::ChatId))
    );
    assert_eq!(
        decode_event(r#"{"chat_id":1,"user_id":2.5,"content":"hi","message_type":"text"}"#),
        Err(WireError::Mistyped(FieldName::UserId))
    );
    assert_eq!(
        decode_event(r#"{"chat_id":1,"user_id":2,"content":null,"message_type":"text"}"#),
        Err(WireError::Mistyped(FieldName::Content))
    );
    assert_eq!(
        decode_event(r#"{"chat_id":1,"user_id":2,"content":"hi","message_type":3}"#),
        Err(WireError::Mistyped(FieldName::MessageType))
    );
    assert_eq!(
        decode_event(
            r#"{"chat_id":1,"user_id":2,"content":"hi","message_type":"text","file_path":5}"#
        ),
        Err(WireError::Mistyped(FieldName::FilePath))
    );
    assert_eq!(
        decode_event(
            r#"{"chat_id":1,"user_id":2,"content":"hi","message_type":"text","file_data":true}"#
        ),
        Err(WireError::Mistyped(FieldName::FileData))
    );
}

#[test]
fn integer_beyond_64_bits_is_mistyped() {
    assert_eq!(
        decode_event(
            r#"{"chat_id":18446744073709551615,"user_id":2,"content":"hi","message_type":"text"}"#
        ),
        Err(WireError::Mistyped(FieldName::ChatId))
    );
    let edge = r#"{"chat_id":9223372036854775807,"user_id":-9223372036854775808,"content":"","message_type":"text"}"#;
    let event = decode_event(edge).unwrap();
    assert_eq!(event.chat_id, i64::MAX);
    assert_eq!(event.user_id, i64::MIN);
    assert_eq!(event.content, "");
}

#[test]
fn unknown_kind_is_refused() {
    assert_eq!(
        decode_event(r#"{"chat_id":1,"user_id":2,"content":"hi","message_type":"image"}"#),
        Err(WireError::UnknownKind)
    );
}

#[test]
fn first_fault_in_wire_order_is_reported() {
    assert_eq!(
        decode_event(r#"{"chat_id":true,"content":7,"message_type":"image"}"#),
        Err(WireError::Mistyped(FieldName::ChatId))
    );
    assert_eq!(
        decode_event(r#"{"chat_id":1,"user_id":2,"content":7,"message_type":"image"}"#),
        Err(WireError::Mistyped(FieldName::Content))
    );
    assert_eq!(
        decode_event(r#"{"chat_id":1,"user_id":2,"content":"x","message_type":"image","file_path":1}"#),
        Err(WireError::UnknownKind)
    );
}

#[test]
fn from_fields_on_plain_values() {
    assert_eq!(Event::from_fields(full_fields()), Ok(plain_event()));

    let mut fields = full_fields();
    fields.chat_id = None;
    assert_eq!(Event::from_fields(fields), Err(WireError::Missing(FieldName::ChatId)));

    let mut fields = full_fields();
    fields.user_id = Some(Member::Other);
    assert_eq!(Event::from_fields(fields), Err(WireError::Mistyped(FieldName::UserId)));

    let mut fields = full_fields();
    fields.content = Some(Member::Integer(3));
    assert_eq!(Event::from_fields(fields), Err(WireError::Mistyped(FieldName::Content)));

    let mut fields = full_fields();
    fields.message_type = Some(Member::Null);
    assert_eq!(Event::from_fields(fields), Err(WireError::Mistyped(FieldName::MessageType)));

    let mut fields = full_fields();
    fields.message_type = Some(Member::Text(String::from("video")));
    assert_eq!(Event::from_fields(fields), Err(WireError::UnknownKind));

    let mut fields = full_fields();
    fields.file_path = Some(Member::Null);
    fields.file_data = Some(Member::Text(String::from("x,eA==")));
    let event = Event::from_fields(fields).unwrap();
    assert_eq!(event.file_path, None);
    assert_eq!(event.file_data, Some(String::from("x,eA==")));

    let mut fields = full_fields();
    fields.file_data = Some(Member::Other);
    assert_eq!(Event::from_fields(fields), Err(WireError::Mistyped(FieldName::FileData)));
}

#[test]
fn to_fields_writes_all_six() {
    let fields = plain_event().to_fields();
    assert_eq!(fields.chat_id, Some(Member::Integer(1)));
    assert_eq!(fields.user_id, Some(Member::Integer(2)));
    assert_eq!(fields.content, Some(Member::Text(String::from("hi"))));
    assert_eq!(fields.message_type, Some(Member::Text(String::from("text"))));
    assert_eq!(fields.file_path, Some(Member::Null));
    assert_eq!(fields.file_data, Some(Member::Null));

    let fields = file_event().to_fields();
    assert_eq!(fields.message_type, Some(Member::Text(String::from("file"))));
    assert_eq!(fields.file_path, Some(Member::Text(String::from("a/b.txt"))));
}

#[test]
fn fields_round_trip() {
    for event in [plain_event(), file_event()] {
        assert_eq!(Event::from_fields(event.to_fields()), Ok(event));
    }
}

#[test]
fn encodes_compact_json_with_all_members() {
    assert_eq!(
        encode_event(&plain_event()),
        r#"{"chat_id":1,"content":"hi","file_data":null,"file_path":null,"message_type":"text","user_id":2}"#
    );
    assert_eq!(
        encode_event(&file_event()),
        r#"{"chat_id":7,"content":"see attached","file_data":"data:application/octet-stream;base64,SGVsbG8=","file_path":"a/b.txt","message_type":"file","user_id":-3}"#
    );
}

#[test]
fn encoding_escapes_what_json_must() {
    let mut event = plain_event();
    event.content = String::from("say \"hi\"\n\\ done");
    let text = encode_event(&event);
    assert!(text.contains(r#""content":"say \"hi\"\n\\ done""#));
    assert_ne!(text, event.content);
    assert_eq!(decode_event(&text), Ok(event));
}

#[test]
fn text_round_trip() {
    let mut odd = file_event();
    odd.content = String::from("naïve ☃ \u{1F600} \t tab");
    odd.chat_id = i64::MIN;
    odd.user_id = i64::MAX;
    for event in [plain_event(), file_event(), odd] {
        assert_eq!(decode_event(&encode_event(&event)), Ok(event));
    }
}

#[test]
fn object_is_read_member_by_member() {
    let object: serde_json::Map<String, serde_json::Value> = serde_json::from_str(
        r#"{"chat_id":5,"user_id":[1],"content":"c","message_type":null,"file_data":1.5}"#,
    )
    .unwrap();
    let fields = read_fields(&object);
    assert_eq!(fields.chat_id, Some(Member::Integer(5)));
    assert_eq!(fields.user_id, Some(Member::Other));
    assert_eq!(fields.content, Some(Member::Text(String::from("c"))));
    assert_eq!(fields.message_type, Some(Member::Null));
    assert_eq!(fields.file_path, None);
    assert_eq!(fields.file_data, Some(Member::Other));
    assert_eq!(decode_object(&object), Err(WireError::Mistyped(FieldName::UserId)));
}

#[test]
fn event_object_holds_the_six_members() {
    let object = event_object(&file_event());
    assert_eq!(object.len(), 6);
    assert_eq!(object.get("chat_id").and_then(|v| v.as_i64()), Some(7));
    assert_eq!(object.get("user_id").and_then(|v| v.as_i64()), Some(-3));
    assert_eq!(object.get("content").and_then(|v| v.as_str()), Some("see attached"));
    assert_eq!(object.get("message_type").and_then(|v| v.as_str()), Some("file"));
    assert_eq!(object.get("file_path").and_then(|v| v.as_str()), Some("a/b.txt"));
    let object = event_object(&plain_event());
    assert_eq!(object.len(), 6);
    assert!(object.get("file_path").unwrap().is_null());
    assert!(object.get("file_data").unwrap().is_null());
    assert_eq!(decode_object(&object), Ok(plain_event()));
}

#[test]
fn record_leaves_the_payload_out() {
    let record = file_event().record();
    assert_eq!(record.chat_id, 7);
    assert_eq!(record.user_id, -3);
    assert_eq!(record.content, "see attached");
    assert_eq!(record.file_path, Some(String::from("a/b.txt")));
    assert_eq!(record.kind, EventKind::Attachment);
    let record = plain_event().record();
    assert_eq!(record.file_path, None);
    assert_eq!(record.kind, EventKind::Plain);
}

#[test]
fn attachment_needs_kind_payload_and_reference() {
    assert_eq!(
        file_event().attachment(),
        Some(("data:application/octet-stream;base64,SGVsbG8=", "a/b.txt"))
    );
    assert_eq!(plain_event().attachment(), None);
    let mut event = file_event();
    event.kind = EventKind::Plain;
    assert_eq!(event.attachment(), None);
    let mut event = file_event();
    event.file_path = None;
    assert_eq!(event.attachment(), None);
    let mut event = file_event();
    event.file_data = None;
    assert_eq!(event.attachment(), None);
}
