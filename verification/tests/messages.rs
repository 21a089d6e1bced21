use tinymist::adapter::{LspMessageAdapter, Poll, TryRecvError, WebsocketAdapter};
use tinymist::message::{
    binary_content, binary_message, fits_base64, PreviewMessageContent,
    PreviewMessageWsMessageTransition, WsMessage,
};

fn text_content(data: &str) -> PreviewMessageContent {
    PreviewMessageContent::Text { data: data.to_owned() }
}

#[test]
fn text_message_keeps_its_text() {
    let msg = WsMessage::Text("current".to_owned());
    let content = PreviewMessageContent::from_ws_message(msg.clone());
    assert_eq!(content, text_content("current"));
    assert_eq!(content.to_ws_message(), msg);
}

#[test]
fn binary_message_round_trip() {
    let cases: [(&[u8], &str); 6] = [
        (b"", ""),
        (b"f", "Zg=="),
        (b"fo", "Zm8="),
        (b"foo", "Zm9v"),
        (b"hello world~", "aGVsbG8gd29ybGR+"),
        (&[0xff, 0xef, 0x00], "/+8A"),
    ];
    for (bytes, encoded) in cases {
        let msg = WsMessage::Binary(bytes.to_vec());
        let content = PreviewMessageContent::from_ws_message(msg.clone());
        assert_eq!(content, binary_content(encoded.to_owned()));
        assert_eq!(content.to_ws_message(), msg);
    }
}

#[test]
fn binary_content_round_trip() {
    for encoded in ["", "Zg==", "Zm8=", "Zm9v", "+/+/"] {
        let content = binary_content(encoded.to_owned());
        let msg = content.clone().to_ws_message();
        assert_eq!(PreviewMessageContent::from_ws_message(msg), content);
    }
}

#[test]
fn broken_encodings_give_no_bytes() {
    for encoded in ["Zg", "Zg=", "Zh==", "Z===", "Zm9v\n", "-_-_", "not base64"] {
        let content = binary_content(encoded.to_owned());
        let msg = content.to_ws_message();
        assert_eq!(msg, WsMessage::Binary(Vec::new()));
        let back = PreviewMessageContent::from_ws_message(msg);
        assert_eq!(back, binary_content(String::new()));
    }
}

#[test]
fn decoded_bytes_become_a_message() {
    assert_eq!(binary_message(Some(vec![1, 2])), WsMessage::Binary(vec![1, 2]));
    assert_eq!(binary_message(None), WsMessage::Binary(Vec::new()));
}

#[test]
fn base64_limit() {
    assert!(fits_base64(0));
    assert!(fits_base64(1 << 20));
    let groups = isize::MAX as usize / 4;
    assert!(fits_base64(groups * 3));
    assert!(!fits_base64(groups * 3 + 1));
    assert!(!fits_base64(usize::MAX));
}

#[test]
fn editor_connection_passes_on() {
    let msg = WsMessage::Text("a".to_owned());
    assert_eq!(LspMessageAdapter::try_recv(Ok(msg.clone())), Ok(Some(msg.clone())));
    assert_eq!(
        LspMessageAdapter::try_recv(Err(TryRecvError::Empty)),
        Err(TryRecvError::Empty)
    );
    assert_eq!(LspMessageAdapter::try_recv(Err(TryRecvError::Disconnected)), Ok(None));

    let next: Poll<Option<Result<WsMessage, ()>>> =
        LspMessageAdapter::poll_next(Poll::Ready(Some(msg.clone())));
    assert_eq!(next, Poll::Ready(Some(Ok(msg))));
    let next: Poll<Option<Result<WsMessage, ()>>> =
        LspMessageAdapter::poll_next(Poll::Ready(None));
    assert_eq!(next, Poll::Ready(None));
    let next: Poll<Option<Result<WsMessage, ()>>> = LspMessageAdapter::poll_next(Poll::Pending);
    assert_eq!(next, Poll::Pending);
}

#[test]
fn editor_connection_sends_notifications() {
    let params = LspMessageAdapter::start_send(WsMessage::Binary(b"svg".to_vec()));
    assert_eq!(params.content, binary_content("c3Zn".to_owned()));
    let params = LspMessageAdapter::start_send(WsMessage::Text("hi".to_owned()));
    assert_eq!(params.content, text_content("hi"));
}

#[test]
fn websocket_connection_passes_on() {
    let msg = WsMessage::Text("a".to_owned());
    let polled: Poll<Option<Result<WsMessage, ()>>> = Poll::Ready(Some(Ok(msg.clone())));
    assert_eq!(WebsocketAdapter::<()>::try_recv(polled), Ok(Some(msg)));
    let polled: Poll<Option<Result<WsMessage, ()>>> = Poll::Ready(Some(Err(())));
    assert_eq!(
        WebsocketAdapter::<()>::try_recv(polled),
        Err(TryRecvError::Disconnected)
    );
    let polled: Poll<Option<Result<WsMessage, ()>>> = Poll::Ready(None);
    assert_eq!(
        WebsocketAdapter::<()>::try_recv(polled),
        Err(TryRecvError::Disconnected)
    );
    let polled: Poll<Option<Result<WsMessage, ()>>> = Poll::Pending;
    assert_eq!(WebsocketAdapter::<()>::try_recv(polled), Err(TryRecvError::Empty));
}
