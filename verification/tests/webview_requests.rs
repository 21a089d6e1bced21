use tinymist::message::WsMessage;
use tinymist::position::{
    element_points, position_req, positions_req, DocumentPosition, ElementPoint,
};
use tinymist::text::split;
use tinymist::webview::{
    command, cursor_paths_frame, is_complete, move_to, resolve_frame_loc, resolve_span,
    DocToSrcJumpResolveRequest, EditorActorRequest, RenderActorRequest, ResolveSpanRequest,
    WebviewActor, WebviewActorRequest, WebviewCommand, WebviewEffect, WebviewReaction,
};

fn position(page_no: usize, x: &str, y: &str) -> DocumentPosition {
    DocumentPosition { page_no, x: x.to_owned(), y: y.to_owned() }
}

fn point(kind: u32, index: u32, fingerprint: &str) -> ElementPoint {
    ElementPoint { kind, index, fingerprint: fingerprint.to_owned() }
}

fn react(text: &str) -> WebviewReaction {
    assert!(is_complete(text));
    let msg: Result<WsMessage, ()> = Ok(WsMessage::Text(text.to_owned()));
    WebviewActor::handle_websocket_message(msg)
}

fn stay(effect: WebviewEffect) -> WebviewReaction {
    WebviewReaction { effect: Some(effect), exit: false }
}

fn sent(request: WebviewActorRequest) -> String {
    match WebviewActor::handle_mailbox_message(request) {
        WsMessage::Binary(bytes) => String::from_utf8(bytes).unwrap(),
        WsMessage::Text(_) => panic!("requests go out as bytes"),
    }
}

#[test]
fn position_frames() {
    assert_eq!(position_req("viewport", &position(12, "0.5", "-3")), "viewport,12 0.5 -3");
    assert_eq!(positions_req("jump", &vec![]), "jump,");
    assert_eq!(
        positions_req("jump", &vec![position(1, "2", "3"), position(4, "5", "6")]),
        "jump,1 2 3,4 5 6"
    );
}

#[test]
fn one_position_in_a_list_goes_out_alone() {
    let place = position(7, "1", "2");
    assert_eq!(
        positions_req("jump", &vec![place.clone()]),
        position_req("jump", &place)
    );
}

#[test]
fn fields_of_a_positions_frame() {
    let frame = positions_req("jump", &vec![position(1, "2", "3"), position(4, "5", "6")]);
    assert_eq!(split(&frame, ','), vec!["jump", "1 2 3", "4 5 6"]);
}

#[test]
fn mailbox_requests_become_frames() {
    assert_eq!(
        sent(WebviewActorRequest::ViewportPosition(position(3, "1.5", "2"))),
        "viewport,3 1.5 2"
    );
    assert_eq!(
        sent(WebviewActorRequest::SrcToDocJump(vec![position(1, "0", "0"), position(2, "7", "8")])),
        "jump,1 0 0,2 7 8"
    );
}

#[test]
fn cursor_paths_go_out_in_json() {
    assert_eq!(sent(WebviewActorRequest::CursorPaths(vec![])), "cursor-paths,[]");
    assert_eq!(
        sent(WebviewActorRequest::CursorPaths(vec![vec![point(1, 2, "a\"ü")], vec![]])),
        "cursor-paths,[[{\"kind\":1,\"index\":2,\"fingerprint\":\"a\\\"ü\"}],[]]"
    );
    assert_eq!(cursor_paths_frame("[]"), "cursor-paths,[]");
}

#[test]
fn documents_go_out_as_they_are() {
    assert_eq!(
        WebviewActor::handle_svg_receiver_message(vec![1, 2, 3]),
        WsMessage::Binary(vec![1, 2, 3])
    );
}

#[test]
fn current_asks_for_the_document() {
    assert_eq!(
        react("current"),
        stay(WebviewEffect::Render(RenderActorRequest::RenderFullLatest))
    );
}

#[test]
fn srclocation_shows_the_source() {
    let jump = |span: &str| {
        stay(WebviewEffect::Edit(EditorActorRequest::DocToSrcJumpResolve(
            DocToSrcJumpResolveRequest { span: span.to_owned() },
        )))
    };
    assert_eq!(react("srclocation 12ab"), jump("12ab"));
    assert_eq!(react("srclocation \t12ab\n rest"), jump("12ab"));
    assert_eq!(react("srclocation "), jump(""));
    assert_eq!(react("srclocations x y"), jump("x"));
}

#[test]
fn outline_sync_moves_every_webview() {
    let moved = |place: DocumentPosition| {
        stay(WebviewEffect::Broadcast(WebviewActorRequest::ViewportPosition(place)))
    };
    assert_eq!(react("outline-sync,3 1.5 2"), moved(position(3, "1.5", "2")));
    assert_eq!(react("outline-sync,3 1.5"), moved(position(3, "1.5", "0")));
    assert_eq!(react("outline-sync,+03"), moved(position(3, "0", "0")));
    assert_eq!(react("outline-sync,3 1 2 4,5"), moved(position(3, "1", "2")));
    assert_eq!(react("outline-sync,3 1e2 0"), moved(position(3, "100", "0")));
    assert_eq!(react("outline-sync,3 +1.50 -.5"), moved(position(3, "1.5", "-0.5")));
    assert_eq!(react("outline-sync,3 NAN -INF"), moved(position(3, "NaN", "-inf")));
}

#[test]
fn outline_sync_comes_back_as_viewport() {
    let place = position(42, "10.25", "-0.5");
    let text = format!("outline-sync,{}", place.text());
    match react(&text).effect {
        Some(WebviewEffect::Broadcast(request)) => {
            assert_eq!(sent(request), format!("viewport,{}", place.text()));
        }
        _ => panic!("nothing was broadcast"),
    }
}

#[test]
fn displayed_positions_come_back_unchanged() {
    for text in ["1.50 -.5", "1e2 0", "NAN -INF", "0.1 1e-7", "16777217 3.4028236e38", "-0 5e-46"] {
        let moved = react(&format!("outline-sync,7 {text}"));
        match &moved.effect {
            Some(WebviewEffect::Broadcast(WebviewActorRequest::ViewportPosition(place))) => {
                assert_eq!(place.page_no, 7);
                assert_eq!(react(&position_req("outline-sync", place)), moved);
            }
            _ => panic!("nothing was broadcast"),
        }
    }
}

#[test]
fn srcpath_asks_for_the_source_of_elements() {
    assert_eq!(
        react("srcpath [[1,2,\"abc\"],[3,4,\"\"]]"),
        stay(WebviewEffect::Render(RenderActorRequest::WebviewResolveSpan(
            ResolveSpanRequest(vec![point(1, 2, "abc"), point(3, 4, "")])
        )))
    );
    for text in ["srcpath nonsense", "srcpath [[1,2]]", "srcpath [[-1,2,\"a\"]]", "srcpath "] {
        assert_eq!(react(text), WebviewReaction { effect: None, exit: false });
    }
}

#[test]
fn src_point_asks_for_the_source_of_a_position() {
    assert_eq!(
        react("src-point {\"page_no\":2,\"x\":1.50,\"y\":3e0}"),
        stay(WebviewEffect::Render(RenderActorRequest::WebviewResolveFrameLoc(position(
            2, "1.5", "3"
        ))))
    );
    for text in ["src-point {}", "src-point {\"page_no\":-1,\"x\":0,\"y\":0}", "src-point x"] {
        assert_eq!(react(text), WebviewReaction { effect: None, exit: false });
    }
}

#[test]
fn what_was_read_goes_to_every_webview() {
    let moved = |place| WebviewEffect::Broadcast(WebviewActorRequest::ViewportPosition(place));
    let text = |text: &str| Some(text.to_owned());
    assert_eq!(move_to(2, text("1"), text("3")), moved(position(2, "1", "3")));
    assert_eq!(move_to(2, text("1"), None), moved(position(2, "1", "0")));
    assert_eq!(move_to(2, None, None), moved(position(2, "0", "0")));
}

#[test]
fn what_was_read_goes_to_the_renderer() {
    let triple = (1, 2, "f".to_owned());
    assert_eq!(element_points(vec![triple.clone()]), vec![point(1, 2, "f")]);
    assert_eq!(
        resolve_span(Some(vec![triple])),
        Some(WebviewEffect::Render(RenderActorRequest::WebviewResolveSpan(
            ResolveSpanRequest(vec![point(1, 2, "f")])
        )))
    );
    assert_eq!(resolve_span(None), None);
    assert_eq!(
        resolve_frame_loc(Some(position(1, "2", "3"))),
        Some(WebviewEffect::Render(RenderActorRequest::WebviewResolveFrameLoc(position(
            1, "2", "3"
        ))))
    );
    assert_eq!(resolve_frame_loc(None), None);
}

#[test]
fn unknown_text_is_answered_and_stops_the_actor() {
    for text in ["", "Current", "current ", "src", "outline", "hello"] {
        assert_eq!(
            react(text),
            WebviewReaction {
                effect: Some(WebviewEffect::Send(WsMessage::Text(format!(
                    "error, received unknown message: {text}"
                )))),
                exit: true,
            }
        );
    }
}

#[test]
fn bytes_are_answered_and_stop_the_actor() {
    for bytes in [vec![], vec![7], vec![0, 10, 255]] {
        let msg = WsMessage::Binary(bytes);
        let shown = format!("Webview Actor: error, received non-text message: {msg:?}");
        let received: Result<WsMessage, ()> = Ok(msg);
        assert_eq!(
            WebviewActor::handle_websocket_message(received),
            WebviewReaction {
                effect: Some(WebviewEffect::Send(WsMessage::Text(shown))),
                exit: true,
            }
        );
    }
}

#[test]
fn a_failed_connection_stops_the_actor() {
    let received: Result<WsMessage, &str> = Err("reset");
    assert_eq!(
        WebviewActor::handle_websocket_message(received),
        WebviewReaction { effect: None, exit: true }
    );
}

#[test]
fn incomplete_requests() {
    for text in [
        "srclocation", "srcpath", "src-point", "outline-sync", "outline-sync 1", "outline-sync,",
        "outline-sync,x 1 2", "outline-sync,-1", "outline-sync,99999999999999999999999",
        "outline-sync,1 ", "outline-sync,1 x", "outline-sync,1 2 ", "outline-sync,1 2 1.5.5",
    ] {
        assert!(!is_complete(text), "{text}");
    }
    for text in [
        "current", "unknown", "srcpath ", "outline-sync,0", "outline-sync,1 .5 -1e3 x",
    ] {
        assert!(is_complete(text), "{text}");
    }
}

#[test]
fn requests_by_what_they_begin_with() {
    assert!(matches!(command("current"), WebviewCommand::Current));
    assert!(matches!(command("srclocation x"), WebviewCommand::SrcLocation));
    assert!(matches!(command("outline-sync,1"), WebviewCommand::OutlineSync));
    assert!(matches!(command("srcpath []"), WebviewCommand::SrcPath));
    assert!(matches!(command("src-point {}"), WebviewCommand::SrcPoint));
    assert!(matches!(command("currently"), WebviewCommand::Unknown));
}
