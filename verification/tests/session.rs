use chat_backend::fragment::{render_fragment, APPEND_CLOSE, APPEND_OPEN, COMPOSER, GREETING, LINE_BREAK};
use chat_backend::frame::{CloseReason, InboundFrame, OutboundFrame};
use chat_backend::sanitizer::SANITIZER_LIMIT;
use chat_backend::session::{classify, ChatSocket, Reaction, Request, SessionState};

const EXPECTED_HI: &str = "\n                            <div id=\"chat_room\" hx-swap-oob=\"beforeend\">hi<br></div>\n\n                            <form id=\"form-ws\" ws-send hx-swap-oob=\"morphdom\">\n                                <label>\n                                    <input id=\"typed_message\" name=\"chat_message\" type=\"text\" placeholder=\"Type your message...\" autofocus autocomplete required minlength=\"5\" maxlength=\"20\" />\n                                </label>\n                                <button type=\"submit\">submit</button>\n                            </form>\n\n                            ";

fn active() -> ChatSocket {
    let mut socket = ChatSocket::new();
    assert_eq!(socket.started(), Some(OutboundFrame::Text("Hello world!".to_string())));
    socket
}

fn text(payload: &str) -> InboundFrame {
    InboundFrame::Text(payload.to_string())
}

fn idle() -> Reaction {
    Reaction { frame: None, release: false }
}

fn shown(message: &str) -> Reaction {
    Reaction { frame: Some(OutboundFrame::Text(render_fragment(message))), release: false }
}

#[test]
fn fragment_is_the_exact_markup() {
    assert_eq!(render_fragment("hi"), EXPECTED_HI);
}

#[test]
fn fragment_parts_stand_in_order() {
    let fragment = render_fragment("some text");
    let expected = format!("{}some text{}{}{}", APPEND_OPEN, LINE_BREAK, APPEND_CLOSE, COMPOSER);
    assert_eq!(fragment, expected);
    let log = fragment.find("id=\"chat_room\"").unwrap();
    let message = fragment.find("some text<br>").unwrap();
    let form = fragment.find("<form id=\"form-ws\"").unwrap();
    assert!(log < message && message < form);
    assert!(fragment.contains("hx-swap-oob=\"beforeend\""));
    assert!(fragment.contains("hx-swap-oob=\"morphdom\""));
    assert!(fragment.contains("name=\"chat_message\""));
    assert!(fragment.contains("<button type=\"submit\">submit</button>"));
}

#[test]
fn fragment_of_empty_message() {
    let fragment = render_fragment("");
    assert_eq!(fragment, format!("{}{}{}{}", APPEND_OPEN, LINE_BREAK, APPEND_CLOSE, COMPOSER));
}

#[test]
fn renderer_does_not_truncate() {
    let long = "x".repeat(10_000);
    let fragment = render_fragment(&long);
    assert!(fragment.contains(&long));
    assert_eq!(fragment.len(), EXPECTED_HI.len() - 2 + 10_000);
}

#[test]
fn new_session_is_started() {
    let socket = ChatSocket::new();
    assert_eq!(socket.state(), SessionState::Started);
}

#[test]
fn greeting_is_sent_first_and_once() {
    let mut socket = ChatSocket::new();
    let first = socket.started();
    assert_eq!(first, Some(OutboundFrame::Text(GREETING.to_string())));
    assert_eq!(GREETING, "Hello world!");
    assert_eq!(socket.state(), SessionState::Active);
    assert_eq!(socket.started(), None);
    assert_eq!(socket.state(), SessionState::Active);
}

#[test]
fn no_frame_is_acted_upon_before_the_greeting() {
    let mut socket = ChatSocket::new();
    assert_eq!(socket.handle(text("{\"chat_message\":\"early\"}")), idle());
    assert_eq!(socket.handle(InboundFrame::Binary(vec![1, 2, 3])), idle());
    assert_eq!(socket.handle(InboundFrame::Close(None)), idle());
    assert_eq!(socket.state(), SessionState::Started);
    assert_eq!(socket.started(), Some(OutboundFrame::Text("Hello world!".to_string())));
    assert_eq!(socket.handle(text("{\"chat_message\":\"later\"}")), shown("later"));
}

#[test]
fn text_frame_is_answered_with_the_fragment() {
    let mut socket = active();
    let reaction = socket.handle(text("{\"chat_message\":\"hi\"}"));
    assert_eq!(
        reaction,
        Reaction { frame: Some(OutboundFrame::Text(EXPECTED_HI.to_string())), release: false }
    );
    assert_eq!(socket.state(), SessionState::Active);
}

#[test]
fn other_members_of_the_payload_are_ignored() {
    let mut socket = active();
    let reaction =
        socket.handle(text("{\"HEADERS\":{\"HX-Request\":\"true\"},\"chat_message\":\"hi\",\"n\":1}"));
    assert_eq!(reaction.frame, Some(OutboundFrame::Text(EXPECTED_HI.to_string())));
}

#[test]
fn json_escapes_are_decoded() {
    let mut socket = active();
    let reaction = socket.handle(text("{\"chat_message\":\"a\\u0062\\\"c\"}"));
    assert_eq!(reaction, shown("ab\"c"));
}

#[test]
fn script_does_not_survive() {
    let mut socket = active();
    let reaction = socket.handle(text("{\"chat_message\":\"<script>alert(1)</script>\"}"));
    let sent = match reaction.frame {
        Some(OutboundFrame::Text(sent)) => sent,
        other => panic!("expected a text frame, got {:?}", other),
    };
    assert!(!sent.contains("<script>alert(1)</script>"));
    assert!(!sent.contains("<script"));
    assert!(!sent.contains("alert(1)"));
    assert_eq!(sent, render_fragment(""));
    assert!(!reaction.release);
}

#[test]
fn markup_is_neutralised() {
    let mut socket = active();
    let reaction = socket.handle(text(
        "{\"chat_message\":\"x<img src=a onerror=alert(1)></div><b onclick=\\\"y()\\\">bold</b> 1 < 2\"}",
    ));
    let sent = match reaction.frame {
        Some(OutboundFrame::Text(sent)) => sent,
        other => panic!("expected a text frame, got {:?}", other),
    };
    assert!(!sent.contains("onerror"));
    assert!(!sent.contains("onclick"));
    assert!(sent.contains("<b>bold</b>"));
    assert!(sent.contains("1 &lt; 2"));
    assert_eq!(sent.matches("</div>").count(), 1);
}

#[test]
fn sanitizer_does_not_truncate() {
    let mut socket = active();
    let long = "word ".repeat(2_000);
    let payload = format!("{{\"chat_message\":\"{}\"}}", long);
    assert_eq!(socket.handle(text(&payload)), shown(&long));
}

#[test]
fn undecodable_text_is_dropped() {
    let mut socket = active();
    assert_eq!(socket.handle(text("not json")), idle());
    assert_eq!(socket.handle(text("")), idle());
    assert_eq!(socket.handle(text("{\"chat_message\":\"unterminated")), idle());
    assert_eq!(socket.handle(text("{\"chat_message\":\"a\"} trailing")), idle());
    assert_eq!(socket.state(), SessionState::Active);
    assert_eq!(socket.handle(text("{\"chat_message\":\"still here\"}")), shown("still here"));
}

#[test]
fn text_without_chat_message_is_dropped() {
    let mut socket = active();
    assert_eq!(socket.handle(text("{}")), idle());
    assert_eq!(socket.handle(text("{\"message\":\"hi\"}")), idle());
    assert_eq!(socket.handle(text("{\"chat_message\":5}")), idle());
    assert_eq!(socket.handle(text("{\"chat_message\":null}")), idle());
    assert_eq!(socket.handle(text("{\"chat_message\":[\"hi\"]}")), idle());
    assert_eq!(socket.handle(text("[\"chat_message\"]")), idle());
    assert_eq!(socket.handle(text("\"chat_message\"")), idle());
    assert_eq!(socket.handle(text("{\"nested\":{\"chat_message\":\"hi\"}}")), idle());
    assert_eq!(socket.state(), SessionState::Active);
    assert_eq!(socket.handle(text("{\"chat_message\":\"ok\"}")), shown("ok"));
}

#[test]
fn binary_frame_is_echoed_untouched() {
    let mut socket = active();
    let bytes = b"<script>alert(1)</script>\x00\xff{\"chat_message\":\"x\"}".to_vec();
    let reaction = socket.handle(InboundFrame::Binary(bytes.clone()));
    assert_eq!(reaction, Reaction { frame: Some(OutboundFrame::Binary(bytes)), release: false });
    assert_eq!(socket.handle(InboundFrame::Binary(Vec::new())).frame, Some(OutboundFrame::Binary(Vec::new())));
    assert_eq!(socket.state(), SessionState::Active);
}

#[test]
fn two_messages_are_answered_in_order() {
    let mut socket = active();
    let first = socket.handle(text("{\"chat_message\":\"alpha\"}"));
    let second = socket.handle(text("{\"chat_message\":\"beta\"}"));
    assert_eq!(first, shown("alpha"));
    assert_eq!(second, shown("beta"));
    let second_text = match second.frame {
        Some(OutboundFrame::Text(sent)) => sent,
        other => panic!("expected a text frame, got {:?}", other),
    };
    assert!(!second_text.contains("alpha"));
    assert_eq!(socket.handle(text("{\"chat_message\":\"alpha\"}")), first);
}

#[test]
fn close_is_acknowledged_with_its_reason() {
    let mut socket = active();
    let reason = CloseReason { code: 1000, description: Some("bye".to_string()) };
    let reaction = socket.handle(InboundFrame::Close(Some(reason.clone())));
    assert_eq!(reaction, Reaction { frame: Some(OutboundFrame::Close(Some(reason))), release: true });
    assert_eq!(socket.state(), SessionState::Terminated);
}

#[test]
fn close_without_reason_is_acknowledged_without_one() {
    let mut socket = active();
    let reaction = socket.handle(InboundFrame::Close(None));
    assert_eq!(reaction, Reaction { frame: Some(OutboundFrame::Close(None)), release: true });
    assert_eq!(socket.state(), SessionState::Terminated);
}

#[test]
fn nothing_is_sent_after_termination() {
    let mut socket = active();
    let reason = CloseReason { code: 1001, description: None };
    assert!(socket.handle(InboundFrame::Close(Some(reason))).release);
    assert_eq!(socket.handle(text("{\"chat_message\":\"late\"}")), idle());
    assert_eq!(socket.handle(InboundFrame::Binary(vec![9])), idle());
    assert_eq!(socket.handle(InboundFrame::Close(None)), idle());
    assert_eq!(socket.handle(InboundFrame::Nop), idle());
    assert_eq!(socket.started(), None);
    assert_eq!(socket.state(), SessionState::Terminated);
}

#[test]
fn continuation_and_empty_frames_do_nothing() {
    let mut socket = active();
    assert_eq!(socket.handle(InboundFrame::Continuation(b"{\"chat_message\":\"x\"}".to_vec())), idle());
    assert_eq!(socket.handle(InboundFrame::Continuation(Vec::new())), idle());
    assert_eq!(socket.handle(InboundFrame::Nop), idle());
    assert_eq!(socket.state(), SessionState::Active);
}

#[test]
fn classify_reads_each_kind_of_frame() {
    assert_eq!(classify(text("{\"chat_message\":\"plain\"}")), Request::Post("plain".to_string()));
    assert_eq!(classify(text("{\"chat_message\":\"a<script>b</script>c\"}")), Request::Post("ac".to_string()));
    assert_eq!(classify(text("{\"chat_message\":true}")), Request::Ignore);
    assert_eq!(classify(text("{")), Request::Ignore);
    assert_eq!(classify(InboundFrame::Binary(vec![1, 2])), Request::Echo(vec![1, 2]));
    assert_eq!(classify(InboundFrame::Close(None)), Request::Close(None));
    assert_eq!(classify(InboundFrame::Continuation(vec![1])), Request::Ignore);
    assert_eq!(classify(InboundFrame::Nop), Request::Ignore);
}

#[test]
fn perform_acts_only_while_active() {
    let mut socket = ChatSocket::new();
    assert_eq!(socket.perform(Request::Post("x".to_string())), idle());
    assert_eq!(socket.perform(Request::Close(None)), idle());
    assert_eq!(socket.state(), SessionState::Started);
    socket.started();
    assert_eq!(socket.perform(Request::Post("x".to_string())), shown("x"));
    assert_eq!(socket.perform(Request::Ignore), idle());
    assert_eq!(
        socket.perform(Request::Echo(vec![0, 255])),
        Reaction { frame: Some(OutboundFrame::Binary(vec![0, 255])), release: false }
    );
    assert_eq!(
        socket.perform(Request::Close(None)),
        Reaction { frame: Some(OutboundFrame::Close(None)), release: true }
    );
    assert_eq!(socket.perform(Request::Post("x".to_string())), idle());
    assert_eq!(socket.perform(Request::Close(None)), idle());
}

#[test]
fn only_one_release_over_a_history() {
    let mut socket = active();
    let frames = vec![
        text("{\"chat_message\":\"a\"}"),
        InboundFrame::Close(None),
        InboundFrame::Close(Some(CloseReason { code: 1000, description: None })),
        text("{\"chat_message\":\"b\"}"),
        InboundFrame::Close(None),
    ];
    let mut releases = 0;
    let mut acknowledgments = 0;
    let mut states = vec![socket.state()];
    for frame in frames {
        let reaction = socket.handle(frame);
        if reaction.release {
            releases += 1;
        }
        if matches!(reaction.frame, Some(OutboundFrame::Close(_))) {
            acknowledgments += 1;
        }
        states.push(socket.state());
    }
    assert_eq!(releases, 1);
    assert_eq!(acknowledgments, 1);
    assert_eq!(
        states,
        vec![
            SessionState::Active,
            SessionState::Active,
            SessionState::Terminated,
            SessionState::Terminated,
            SessionState::Terminated,
            SessionState::Terminated,
        ]
    );
}

#[test]
fn a_message_beyond_the_sanitizer_limit_is_dropped() {
    let mut socket = active();
    let mut payload = String::with_capacity(SANITIZER_LIMIT + 32);
    payload.push_str("{\"chat_message\":\"");
    payload.push_str(&"a".repeat(SANITIZER_LIMIT + 1));
    payload.push_str("\"}");
    assert_eq!(socket.handle(InboundFrame::Text(payload)), idle());
    assert_eq!(socket.state(), SessionState::Active);
    assert_eq!(socket.handle(text("{\"chat_message\":\"short\"}")), shown("short"));
}
