use strudel::message::{frame, literal_of, PlaybackState, SocketMessage};

fn member(text: &str) -> (String, serde_json::Value) {
    let value: serde_json::Value = serde_json::from_str(text).unwrap();
    let object = value.as_object().unwrap();
    assert_eq!(object.len(), 1);
    let (name, payload) = object.iter().next().unwrap();
    (name.clone(), payload.clone())
}

#[test]
fn greeting_frame_text() {
    let message = SocketMessage::Message(String::from("hello"));
    assert_eq!(message.encode("failed to serialize"), "{\"Message\":\"hello\"}");
}

#[test]
fn code_frame_escapes_quotes() {
    let message = SocketMessage::Code(String::from("s(\"bd sd\")"));
    assert_eq!(
        message.encode("failed to serialize"),
        "{\"Code\":\"s(\\\"bd sd\\\")\"}"
    );
}

#[test]
fn playback_frames_text() {
    assert_eq!(
        SocketMessage::Playback(PlaybackState::Playing).encode("failed to serialize"),
        "{\"Playback\":\"Playing\"}"
    );
    assert_eq!(
        SocketMessage::Playback(PlaybackState::Paused).encode("failed to serialize"),
        "{\"Playback\":\"Paused\"}"
    );
    assert_eq!(
        SocketMessage::Playback(PlaybackState::Stopped).encode("failed to serialize"),
        "{\"Playback\":\"Stopped\"}"
    );
}

#[test]
fn error_frame_text() {
    let message = SocketMessage::Error(String::from("broadcast lagged by 3 messages"));
    assert_eq!(
        message.encode("failed to serialize"),
        "{\"Error\":\"broadcast lagged by 3 messages\"}"
    );
}

#[test]
fn tags_of_the_four_kinds() {
    assert_eq!(SocketMessage::Message(String::new()).tag(), "Message");
    assert_eq!(SocketMessage::Code(String::new()).tag(), "Code");
    assert_eq!(SocketMessage::Playback(PlaybackState::Paused).tag(), "Playback");
    assert_eq!(SocketMessage::Error(String::new()).tag(), "Error");
}

#[test]
fn playback_names() {
    assert_eq!(PlaybackState::Playing.as_str(), "Playing");
    assert_eq!(PlaybackState::Paused.as_str(), "Paused");
    assert_eq!(PlaybackState::Stopped.as_str(), "Stopped");
}

#[test]
fn literal_is_quoted_and_escaped() {
    assert_eq!(literal_of("hello"), Some(String::from("\"hello\"")));
    assert_eq!(literal_of(""), Some(String::from("\"\"")));
    assert_eq!(literal_of("a\"b"), Some(String::from("\"a\\\"b\"")));
    assert_eq!(literal_of("a\\b"), Some(String::from("\"a\\\\b\"")));
    assert_eq!(literal_of("line\nbreak"), Some(String::from("\"line\\nbreak\"")));
    assert_eq!(literal_of("tab\there"), Some(String::from("\"tab\\there\"")));
    assert_eq!(literal_of("\u{1}"), Some(String::from("\"\\u0001\"")));
}

#[test]
fn literal_keeps_text_beyond_ascii() {
    assert_eq!(literal_of("café ♪"), Some(String::from("\"café ♪\"")));
}

#[test]
fn payload_of_each_kind() {
    assert_eq!(
        SocketMessage::Code(String::from("x")).payload(),
        Some(String::from("\"x\""))
    );
    assert_eq!(
        SocketMessage::Playback(PlaybackState::Stopped).payload(),
        Some(String::from("\"Stopped\""))
    );
}

#[test]
fn frame_wraps_payload_in_object() {
    assert_eq!(
        frame("Code", Some(String::from("\"x\"")), "failed to serialize"),
        "{\"Code\":\"x\"}"
    );
}

#[test]
fn frame_without_payload_is_fallback() {
    assert_eq!(frame("Code", None, "failed to serialize"), "failed to serialize");
    assert_eq!(
        frame("Message", None, "message failed to deserialize"),
        "message failed to deserialize"
    );
}

#[test]
fn frames_parse_back_to_what_was_sent() {
    let code = "note(\"c e g\")\n  .s(\"piano\") // \\ backslash \t tab";
    let text = SocketMessage::Code(String::from(code)).encode("failed to serialize");
    let (name, payload) = member(&text);
    assert_eq!(name, "Code");
    assert_eq!(payload.as_str(), Some(code));

    let text = SocketMessage::Playback(PlaybackState::Paused).encode("failed to serialize");
    let (name, payload) = member(&text);
    assert_eq!(name, "Playback");
    assert_eq!(payload.as_str(), Some("Paused"));

    let text = SocketMessage::Error(String::from("oops")).encode("failed to serialize");
    let (name, payload) = member(&text);
    assert_eq!(name, "Error");
    assert_eq!(payload.as_str(), Some("oops"));
}

#[test]
fn messages_compare_by_kind_and_payload() {
    let code = SocketMessage::Code(String::from("x"));
    assert_eq!(code, SocketMessage::Code(String::from("x")));
    assert_ne!(code, SocketMessage::Code(String::from("y")));
    assert_ne!(code, SocketMessage::Message(String::from("x")));
    assert_ne!(code, SocketMessage::Error(String::from("x")));
    assert_eq!(
        SocketMessage::Playback(PlaybackState::Playing),
        SocketMessage::Playback(PlaybackState::Playing)
    );
    assert_ne!(
        SocketMessage::Playback(PlaybackState::Playing),
        SocketMessage::Playback(PlaybackState::Paused)
    );
}

#[test]
fn clone_keeps_the_message() {
    let code = SocketMessage::Code(String::from("s(\"bd\")"));
    assert_eq!(code.clone(), code);
    let state = SocketMessage::Playback(PlaybackState::Stopped);
    assert_eq!(state.clone(), state);
}
