use tinymist::adapter::TryRecvError;
use tinymist::message::WsMessage;
use tinymist::position::DocumentPosition;
use tinymist::step::{SelectEvent, StepEvent, StepPhase};
use tinymist::webview::{
    RenderActorRequest, WebviewActor, WebviewActorRequest, WebviewEffect, WebviewReaction,
};

fn text(text: &str) -> WsMessage {
    WsMessage::Text(text.to_owned())
}

fn viewport(page_no: usize) -> WebviewActorRequest {
    WebviewActorRequest::ViewportPosition(DocumentPosition {
        page_no,
        x: "0".to_owned(),
        y: "0".to_owned(),
    })
}

fn frame(text: &str) -> WebviewEffect {
    WebviewEffect::Send(WsMessage::Binary(text.as_bytes().to_vec()))
}

fn latest() -> WebviewEffect {
    WebviewEffect::Render(RenderActorRequest::RenderFullLatest)
}

fn run(events: Vec<StepEvent>) -> (StepPhase, Vec<WebviewEffect>) {
    let mut actor = WebviewActor::new();
    let mut effects = vec![];
    for event in events {
        effects.extend(actor.step(event));
    }
    (actor.phase, effects)
}

#[test]
fn a_step_goes_through_its_queues_in_turn() {
    let (phase, effects) = run(vec![
        StepEvent::Mailbox(Some(viewport(1))),
        StepEvent::Mailbox(Some(viewport(2))),
        StepEvent::Mailbox(None),
        StepEvent::Svg(Some(b"svg".to_vec())),
        StepEvent::Svg(None),
        StepEvent::Connection(Ok(Some(text("current")))),
        StepEvent::Connection(Ok(Some(text("srcpath x")))),
        StepEvent::Connection(Err(TryRecvError::Empty)),
        StepEvent::Continue,
        StepEvent::Continue,
        StepEvent::Continue,
    ]);
    assert_eq!(phase, StepPhase::Done(false));
    assert_eq!(
        effects,
        vec![frame("viewport,1 0 0"), frame("viewport,2 0 0"), frame("svg"), latest()]
    );
}

#[test]
fn a_step_stops_at_the_first_message_that_makes_it_stop() {
    let (phase, effects) = run(vec![
        StepEvent::Mailbox(None),
        StepEvent::Svg(None),
        StepEvent::Connection(Ok(Some(text("current")))),
        StepEvent::Connection(Ok(Some(text("bye")))),
        StepEvent::Connection(Ok(Some(text("current")))),
        StepEvent::Connection(Err(TryRecvError::Disconnected)),
        StepEvent::Continue,
        StepEvent::Continue,
    ]);
    assert_eq!(phase, StepPhase::Done(true));
    assert_eq!(
        effects,
        vec![latest(), WebviewEffect::Send(text("error, received unknown message: bye"))]
    );
}

#[test]
fn a_closed_connection_drops_what_came_before() {
    let (phase, effects) = run(vec![
        StepEvent::Mailbox(Some(viewport(1))),
        StepEvent::Mailbox(None),
        StepEvent::Svg(None),
        StepEvent::Connection(Ok(Some(text("current")))),
        StepEvent::Connection(Ok(None)),
    ]);
    assert_eq!(phase, StepPhase::Done(true));
    assert_eq!(effects, vec![frame("viewport,1 0 0")]);
}

#[test]
fn the_actor_waits_for_everything_at_once() {
    let react = |event: SelectEvent<()>| WebviewActor::step_async(event);
    let stay = |effect: WebviewEffect| WebviewReaction { effect: Some(effect), exit: false };
    let leave = WebviewReaction { effect: None, exit: true };
    assert_eq!(react(SelectEvent::Mailbox(viewport(3))), stay(frame("viewport,3 0 0")));
    assert_eq!(react(SelectEvent::Svg(b"x".to_vec())), stay(frame("x")));
    assert_eq!(react(SelectEvent::Websocket(Some(Ok(text("current"))))), stay(latest()));
    assert_eq!(react(SelectEvent::Websocket(Some(Err(())))), leave);
    assert_eq!(react(SelectEvent::Websocket(None)), leave);
    assert_eq!(react(SelectEvent::Exhausted), leave);
}
