use strudel::message::{PlaybackState, SocketMessage};
use strudel::session::{greeting, lag_notice, Received, Relay, Session};

fn text_of(action: Relay) -> Option<String> {
    match action {
        Relay::Send(text) => Some(text),
        Relay::Close => None,
    }
}

#[test]
fn greeting_is_hello() {
    assert_eq!(greeting(), SocketMessage::Message(String::from("hello")));
}

#[test]
fn session_opens_with_the_greeting_frame() {
    let (session, first) = Session::open();
    assert_eq!(first, "{\"Message\":\"hello\"}");
    assert!(!session.is_closed());
}

#[test]
fn lag_notice_names_the_count() {
    assert_eq!(
        lag_notice(3),
        SocketMessage::Error(String::from("broadcast lagged by 3 messages"))
    );
    assert_eq!(
        lag_notice(1),
        SocketMessage::Error(String::from("broadcast lagged by 1 messages"))
    );
    assert_eq!(
        lag_notice(u64::MAX),
        SocketMessage::Error(String::from(
            "broadcast lagged by 18446744073709551615 messages"
        ))
    );
}

#[test]
fn event_is_relayed_as_its_frame() {
    let (mut session, _) = Session::open();
    let action = session.relay(Received::Event(SocketMessage::Code(String::from("s(\"bd sd\")"))));
    assert_eq!(
        text_of(action),
        Some(String::from("{\"Code\":\"s(\\\"bd sd\\\")\"}"))
    );
    let action = session.relay(Received::Event(SocketMessage::Playback(PlaybackState::Playing)));
    assert_eq!(text_of(action), Some(String::from("{\"Playback\":\"Playing\"}")));
    assert!(!session.is_closed());
}

#[test]
fn lag_is_relayed_as_one_error_frame() {
    let (mut session, _) = Session::open();
    let action = session.relay(Received::Lagged(4));
    assert_eq!(
        text_of(action),
        Some(String::from("{\"Error\":\"broadcast lagged by 4 messages\"}"))
    );
    assert!(!session.is_closed());
    let action = session.relay(Received::Event(SocketMessage::Playback(PlaybackState::Stopped)));
    assert_eq!(text_of(action), Some(String::from("{\"Playback\":\"Stopped\"}")));
}

#[test]
fn closed_channel_ends_the_session() {
    let (mut session, _) = Session::open();
    assert!(matches!(session.relay(Received::Closed), Relay::Close));
    assert!(session.is_closed());
}

#[test]
fn closed_session_sends_nothing_more() {
    let (mut session, _) = Session::open();
    session.relay(Received::Closed);
    let action = session.relay(Received::Event(SocketMessage::Code(String::from("late"))));
    assert!(matches!(action, Relay::Close));
    assert!(matches!(session.relay(Received::Lagged(2)), Relay::Close));
    assert!(session.is_closed());
}

#[test]
fn frames_keep_the_order_of_delivery() {
    let (mut session, first) = Session::open();
    let mut frames = vec![first];
    let feed = vec![
        Received::Event(SocketMessage::Code(String::from("a"))),
        Received::Event(SocketMessage::Playback(PlaybackState::Playing)),
        Received::Lagged(2),
        Received::Event(SocketMessage::Code(String::from("b"))),
        Received::Closed,
        Received::Event(SocketMessage::Code(String::from("c"))),
    ];
    for received in feed {
        if let Relay::Send(text) = session.relay(received) {
            frames.push(text);
        }
    }
    assert_eq!(
        frames,
        vec![
            String::from("{\"Message\":\"hello\"}"),
            String::from("{\"Code\":\"a\"}"),
            String::from("{\"Playback\":\"Playing\"}"),
            String::from("{\"Error\":\"broadcast lagged by 2 messages\"}"),
            String::from("{\"Code\":\"b\"}"),
        ]
    );
}
