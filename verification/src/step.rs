//! The steps of the webview actor: what it asks for in turn, and what it does with the answers.

use vstd::prelude::*;

use crate::adapter::TryRecvError;
use crate::message::{WsMessage, WsMessageView};
use crate::webview::{
    effect_view, leave, received, stay, websocket_reaction, WebviewActor, WebviewActorRequest,
    WebviewActorRequestView, WebviewEffect, WebviewEffectView, WebviewReaction,
    WebviewReactionView,
};

verus! {

/// Where the actor is in a step.
#[derive(Debug, PartialEq, Eq)]
pub enum StepPhase {
    /// It asks the mailbox for the next request.
    Mailbox,
    /// It asks the renderer for the next document.
    Svg,
    /// It asks the connection for the next message; these came so far.
    Receiving(Vec<WsMessage>),
    /// It handles these messages, one at a time.
    Handling(Vec<WsMessage>),
    /// The step is over; the flag tells whether the actor stops.
    Done(bool),
}

/// What a [`StepPhase`] says.
pub enum StepPhaseView {
    Mailbox,
    Svg,
    Receiving(Seq<WsMessageView>),
    Handling(Seq<WsMessageView>),
    Done(bool),
}

/// What the messages of a list say.
pub open spec fn message_views(messages: Seq<WsMessage>) -> Seq<WsMessageView> {
    messages.map_values(|msg: WsMessage| msg@)
}

impl View for StepPhase {
    type V = StepPhaseView;

    open spec fn view(&self) -> StepPhaseView {
        match self {
            StepPhase::Mailbox => StepPhaseView::Mailbox,
            StepPhase::Svg => StepPhaseView::Svg,
            StepPhase::Receiving(messages) => StepPhaseView::Receiving(message_views(messages@)),
            StepPhase::Handling(messages) => StepPhaseView::Handling(message_views(messages@)),
            StepPhase::Done(exit) => StepPhaseView::Done(*exit),
        }
    }
}

/// An answer to what the actor asks for in a step.
#[derive(Debug, PartialEq, Eq)]
pub enum StepEvent {
    /// The next request in the mailbox, if there is one.
    Mailbox(Option<WebviewActorRequest>),
    /// The next document of the renderer, if there is one.
    Svg(Option<Vec<u8>>),
    /// What the connection passed on.
    Connection(Result<Option<WsMessage>, TryRecvError>),
    /// Nothing was asked for: the actor goes on by itself.
    Continue,
}

/// What a [`StepEvent`] says.
pub enum StepEventView {
    Mailbox(Option<WebviewActorRequestView>),
    Svg(Option<Seq<u8>>),
    Connection(Result<Option<WsMessageView>, TryRecvError>),
    Continue,
}

impl View for StepEvent {
    type V = StepEventView;

    open spec fn view(&self) -> StepEventView {
        match self {
            StepEvent::Mailbox(Some(msg)) => StepEventView::Mailbox(Some(msg@)),
            StepEvent::Mailbox(None) => StepEventView::Mailbox(None),
            StepEvent::Svg(Some(svg)) => StepEventView::Svg(Some(svg@)),
            StepEvent::Svg(None) => StepEventView::Svg(None),
            StepEvent::Connection(Ok(Some(msg))) => StepEventView::Connection(Ok(Some(msg@))),
            StepEvent::Connection(Ok(None)) => StepEventView::Connection(Ok(None)),
            StepEvent::Connection(Err(err)) => StepEventView::Connection(Err(*err)),
            StepEvent::Continue => StepEventView::Continue,
        }
    }
}

/// Whether an event answers what the actor asks for, and the message that it is about to handle
/// makes no incomplete request.
pub open spec fn expects(phase: StepPhaseView, event: StepEventView) -> bool {
    match phase {
        StepPhaseView::Mailbox => event is Mailbox,
        StepPhaseView::Svg => event is Svg,
        StepPhaseView::Receiving(_) => event is Connection,
        StepPhaseView::Handling(messages) => {
            event is Continue && (messages.len() > 0 ==> messages[0].is_complete())
        },
        StepPhaseView::Done(_) => false,
    }
}

/// The message that carries a rendered document.
pub open spec fn svg_message(svg: Seq<u8>) -> WsMessageView {
    WsMessageView::Binary(svg)
}

/// Where an event takes the actor, and what it sends.
pub open spec fn step_spec(phase: StepPhaseView, event: StepEventView) -> (
    StepPhaseView,
    Option<WebviewEffectView>,
) {
    match (phase, event) {
        (StepPhaseView::Mailbox, StepEventView::Mailbox(Some(msg))) => {
            (StepPhaseView::Mailbox, Some(WebviewEffectView::Send(msg.message())))
        },
        (StepPhaseView::Mailbox, _) => (StepPhaseView::Svg, None),
        (StepPhaseView::Svg, StepEventView::Svg(Some(svg))) => {
            (StepPhaseView::Svg, Some(WebviewEffectView::Send(svg_message(svg))))
        },
        (StepPhaseView::Svg, _) => (StepPhaseView::Receiving(Seq::empty()), None),
        (StepPhaseView::Receiving(messages), StepEventView::Connection(Ok(Some(msg)))) => {
            (StepPhaseView::Receiving(messages.push(msg)), None)
        },
        (StepPhaseView::Receiving(_), StepEventView::Connection(Ok(None))) => {
            (StepPhaseView::Done(true), None)
        },
        (StepPhaseView::Receiving(messages), _) => (StepPhaseView::Handling(messages), None),
        (StepPhaseView::Handling(messages), _) => {
            if messages.len() == 0 {
                (StepPhaseView::Done(false), None)
            } else {
                let reaction = websocket_reaction(Some(messages[0]));
                if reaction.exit {
                    (StepPhaseView::Done(true), reaction.effect)
                } else {
                    (StepPhaseView::Handling(messages.skip(1)), reaction.effect)
                }
            }
        },
        (StepPhaseView::Done(exit), _) => (StepPhaseView::Done(exit), None),
    }
}

/// Something that the actor waits for when it waits for everything at once.
#[derive(Debug, PartialEq, Eq)]
pub enum SelectEvent<E> {
    /// A request came in the mailbox.
    Mailbox(WebviewActorRequest),
    /// The renderer sent a document.
    Svg(Vec<u8>),
    /// The connection yielded a message or an error, or ended.
    Websocket(Option<Result<WsMessage, E>>),
    /// There is nothing left to wait for.
    Exhausted,
}

/// How the actor reacts to the first thing that happens.
pub open spec fn select_reaction<E>(event: SelectEvent<E>) -> WebviewReactionView {
    match event {
        SelectEvent::Mailbox(msg) => stay(Some(WebviewEffectView::Send(msg@.message()))),
        SelectEvent::Svg(svg) => stay(Some(WebviewEffectView::Send(svg_message(svg@)))),
        SelectEvent::Websocket(Some(msg)) => websocket_reaction(received(msg)),
        SelectEvent::Websocket(None) => leave(None),
        SelectEvent::Exhausted => leave(None),
    }
}

impl WebviewActor {
    /// An actor at the beginning of a step.
    pub fn new() -> (actor: Self)
        ensures
            actor.phase@ == StepPhaseView::Mailbox,
    {
        WebviewActor { phase: StepPhase::Mailbox }
    }

    /// Takes the answer to what the actor asks for, and gives what it sends.
    pub fn step(&mut self, event: StepEvent) -> (effect: Option<WebviewEffect>)
        requires
            expects(old(self).phase@, event@),
        ensures
            (final(self).phase@, effect_view(effect)) == step_spec(old(self).phase@, event@),
    {
        let mut phase = StepPhase::Mailbox;
        std::mem::swap(&mut self.phase, &mut phase);
        match (phase, event) {
            (StepPhase::Mailbox, StepEvent::Mailbox(Some(msg))) => {
                Some(WebviewEffect::Send(WebviewActor::handle_mailbox_message(msg)))
            },
            (StepPhase::Mailbox, _) => {
                self.phase = StepPhase::Svg;
                None
            },
            (StepPhase::Svg, StepEvent::Svg(Some(svg))) => {
                self.phase = StepPhase::Svg;
                Some(WebviewEffect::Send(WebviewActor::handle_svg_receiver_message(svg)))
            },
            (StepPhase::Svg, _) => {
                self.phase = StepPhase::Receiving(Vec::new());
                assert(self.phase@->Receiving_0 =~= Seq::empty());
                None
            },
            (StepPhase::Receiving(messages), StepEvent::Connection(Ok(Some(msg)))) => {
                let ghost before = message_views(messages@);
                let mut messages = messages;
                messages.push(msg);
                assert(message_views(messages@) =~= before.push(msg@));
                self.phase = StepPhase::Receiving(messages);
                None
            },
            (StepPhase::Receiving(_), StepEvent::Connection(Ok(None))) => {
                self.phase = StepPhase::Done(true);
                None
            },
            (StepPhase::Receiving(messages), _) => {
                self.phase = StepPhase::Handling(messages);
                None
            },
            (StepPhase::Handling(messages), _) => {
                let mut messages = messages;
                if messages.len() == 0 {
                    self.phase = StepPhase::Done(false);
                    return None;
                }
                let ghost before = message_views(messages@);
                let msg = messages.remove(0);
                assert(message_views(messages@) =~= before.skip(1));
                let taken: Result<WsMessage, ()> = Ok(msg);
                let reaction = WebviewActor::handle_websocket_message(taken);
                if reaction.exit {
                    self.phase = StepPhase::Done(true);
                } else {
                    self.phase = StepPhase::Handling(messages);
                }
                reaction.effect
            },
            (StepPhase::Done(exit), _) => {
                self.phase = StepPhase::Done(exit);
                None
            },
        }
    }

    /// Reacts to the first thing that happens, when the actor waits for everything at once.
    pub fn step_async<E>(event: SelectEvent<E>) -> (reaction: WebviewReaction)
        requires
            event matches SelectEvent::Websocket(Some(Ok(msg))) ==> msg@.is_complete(),
        ensures
            reaction@ == select_reaction(event),
    {
        match event {
            SelectEvent::Mailbox(msg) => {
                let sent = WebviewActor::handle_mailbox_message(msg);
                WebviewReaction { effect: Some(WebviewEffect::Send(sent)), exit: false }
            },
            SelectEvent::Svg(svg) => {
                let sent = WebviewActor::handle_svg_receiver_message(svg);
                WebviewReaction { effect: Some(WebviewEffect::Send(sent)), exit: false }
            },
            SelectEvent::Websocket(Some(msg)) => WebviewActor::handle_websocket_message(msg),
            SelectEvent::Websocket(None) => WebviewReaction { effect: None, exit: true },
            SelectEvent::Exhausted => WebviewReaction { effect: None, exit: true },
        }
    }
}

/// An effect as a list of what is sent.
pub open spec fn sent(effect: Option<WebviewEffectView>) -> Seq<WebviewEffectView> {
    match effect {
        Some(effect) => seq![effect],
        None => Seq::empty(),
    }
}

/// Where a series of events takes the actor, and all that it sends on the way.
pub open spec fn run_spec(phase: StepPhaseView, events: Seq<StepEventView>) -> (
    StepPhaseView,
    Seq<WebviewEffectView>,
)
    decreases events.len(),
{
    if events.len() == 0 {
        (phase, Seq::empty())
    } else {
        let (next, effect) = step_spec(phase, events[0]);
        let (end, effects) = run_spec(next, events.skip(1));
        (end, sent(effect) + effects)
    }
}

/// Whether each event of a series answers what the actor asks for by then.
pub open spec fn follows(phase: StepPhaseView, events: Seq<StepEventView>) -> bool
    decreases events.len(),
{
    events.len() > 0 ==> {
        &&& expects(phase, events[0])
        &&& follows(step_spec(phase, events[0]).0, events.skip(1))
    }
}

/// The events in which the mailbox yields some requests and then no more.
pub open spec fn mailbox_events(requests: Seq<WebviewActorRequestView>) -> Seq<StepEventView> {
    requests.map_values(
        |request: WebviewActorRequestView| StepEventView::Mailbox(Some(request)),
    ).push(StepEventView::Mailbox(None))
}

/// The events in which the renderer yields some documents and then no more.
pub open spec fn svg_events(svgs: Seq<Seq<u8>>) -> Seq<StepEventView> {
    svgs.map_values(|svg: Seq<u8>| StepEventView::Svg(Some(svg))).push(StepEventView::Svg(None))
}

/// The events in which the connection yields some messages and then something else.
pub open spec fn connection_events(
    messages: Seq<WsMessageView>,
    last: Result<Option<WsMessageView>, TryRecvError>,
) -> Seq<StepEventView> {
    messages.map_values(|msg: WsMessageView| StepEventView::Connection(Ok(Some(msg)))).push(
        StepEventView::Connection(last),
    )
}

/// What the actor sends for the requests in the mailbox.
pub open spec fn mailbox_effects(
    requests: Seq<WebviewActorRequestView>,
) -> Seq<WebviewEffectView> {
    requests.map_values(
        |request: WebviewActorRequestView| WebviewEffectView::Send(request.message()),
    )
}

/// What the actor sends for the documents of the renderer.
pub open spec fn svg_effects(svgs: Seq<Seq<u8>>) -> Seq<WebviewEffectView> {
    svgs.map_values(|svg: Seq<u8>| WebviewEffectView::Send(svg_message(svg)))
}

/// What the actor sends for messages from the webview, up to the first that makes it stop.
pub open spec fn reactions(messages: Seq<WsMessageView>) -> Seq<WebviewEffectView>
    decreases messages.len(),
{
    if messages.len() == 0 {
        Seq::empty()
    } else {
        let reaction = websocket_reaction(Some(messages[0]));
        if reaction.exit {
            sent(reaction.effect)
        } else {
            sent(reaction.effect) + reactions(messages.skip(1))
        }
    }
}

/// Whether one of the messages makes the actor stop.
pub open spec fn stops(messages: Seq<WsMessageView>) -> bool {
    exists|i: int|
        0 <= i < messages.len() && websocket_reaction(Some(#[trigger] messages[i])).exit
}

/// How often the actor goes on by itself until it is through with the messages.
pub open spec fn rounds(messages: Seq<WsMessageView>) -> nat
    decreases messages.len(),
{
    if messages.len() == 0 || websocket_reaction(Some(messages[0])).exit {
        1
    } else {
        1 + rounds(messages.skip(1))
    }
}

/// The events in which the actor goes on by itself.
pub open spec fn continue_events(n: nat) -> Seq<StepEventView> {
    Seq::new(n, |i: int| StepEventView::Continue)
}

/// A series of events after another takes the actor on from where the first took it.
pub proof fn lemma_run_concat(
    phase: StepPhaseView,
    first: Seq<StepEventView>,
    second: Seq<StepEventView>,
)
    ensures
        run_spec(phase, first + second) == (
            run_spec(run_spec(phase, first).0, second).0,
            run_spec(phase, first).1 + run_spec(run_spec(phase, first).0, second).1,
        ),
        follows(phase, first) && follows(run_spec(phase, first).0, second) ==> follows(
            phase,
            first + second,
        ),
    decreases first.len(),
{
    let whole = first + second;
    if first.len() == 0 {
        assert(whole =~= second);
        assert(Seq::<WebviewEffectView>::empty() + run_spec(phase, second).1 =~= run_spec(
            phase,
            second,
        ).1);
    } else {
        let next = step_spec(phase, first[0]).0;
        lemma_run_concat(next, first.skip(1), second);
        assert(whole.skip(1) =~= first.skip(1) + second);
        assert(whole[0] == first[0]);
        let before = sent(step_spec(phase, first[0]).1);
        let middle = run_spec(next, first.skip(1)).1;
        let after = run_spec(run_spec(phase, first).0, second).1;
        assert(before + (middle + after) =~= (before + middle) + after);
    }
}

proof fn lemma_mailbox(requests: Seq<WebviewActorRequestView>)
    ensures
        run_spec(StepPhaseView::Mailbox, mailbox_events(requests)) == (
            StepPhaseView::Svg,
            mailbox_effects(requests),
        ),
        follows(StepPhaseView::Mailbox, mailbox_events(requests)),
    decreases requests.len(),
{
    let events = mailbox_events(requests);
    if requests.len() == 0 {
        reveal_with_fuel(run_spec, 2);
        reveal_with_fuel(follows, 2);
        assert(run_spec(StepPhaseView::Mailbox, events).1 =~= mailbox_effects(requests));
    } else {
        let rest = requests.skip(1);
        lemma_mailbox(rest);
        assert(events.skip(1) =~= mailbox_events(rest));
        assert(mailbox_effects(requests) =~= seq![
            WebviewEffectView::Send(requests[0].message()),
        ] + mailbox_effects(rest));
    }
}

proof fn lemma_svg(svgs: Seq<Seq<u8>>)
    ensures
        run_spec(StepPhaseView::Svg, svg_events(svgs)) == (
            StepPhaseView::Receiving(Seq::empty()),
            svg_effects(svgs),
        ),
        follows(StepPhaseView::Svg, svg_events(svgs)),
    decreases svgs.len(),
{
    let events = svg_events(svgs);
    if svgs.len() == 0 {
        reveal_with_fuel(run_spec, 2);
        reveal_with_fuel(follows, 2);
        assert(run_spec(StepPhaseView::Svg, events).1 =~= svg_effects(svgs));
    } else {
        let rest = svgs.skip(1);
        lemma_svg(rest);
        assert(events.skip(1) =~= svg_events(rest));
        assert(svg_effects(svgs) =~= seq![WebviewEffectView::Send(svg_message(svgs[0]))]
            + svg_effects(rest));
    }
}

proof fn lemma_connection(
    before: Seq<WsMessageView>,
    messages: Seq<WsMessageView>,
    last: Result<Option<WsMessageView>, TryRecvError>,
)
    requires
        !(last matches Ok(Some(_))),
    ensures
        run_spec(StepPhaseView::Receiving(before), connection_events(messages, last)) == (
            if last is Ok {
                StepPhaseView::Done(true)
            } else {
                StepPhaseView::Handling(before + messages)
            },
            Seq::<WebviewEffectView>::empty(),
        ),
        follows(StepPhaseView::Receiving(before), connection_events(messages, last)),
    decreases messages.len(),
{
    let events = connection_events(messages, last);
    if messages.len() == 0 {
        reveal_with_fuel(run_spec, 2);
        reveal_with_fuel(follows, 2);
        assert(before + messages =~= before);
        assert(run_spec(StepPhaseView::Receiving(before), events).1 =~= Seq::empty());
    } else {
        let rest = messages.skip(1);
        lemma_connection(before.push(messages[0]), rest, last);
        assert(events.skip(1) =~= connection_events(rest, last));
        assert(before.push(messages[0]) + rest =~= before + messages);
        assert(run_spec(StepPhaseView::Receiving(before), events).1 =~= Seq::empty());
    }
}

proof fn lemma_handling(messages: Seq<WsMessageView>)
    requires
        forall|i: int| 0 <= i < messages.len() ==> (#[trigger] messages[i]).is_complete(),
    ensures
        run_spec(StepPhaseView::Handling(messages), continue_events(rounds(messages))) == (
            StepPhaseView::Done(stops(messages)),
            reactions(messages),
        ),
        follows(StepPhaseView::Handling(messages), continue_events(rounds(messages))),
    decreases messages.len(),
{
    let events = continue_events(rounds(messages));
    assert(events.len() > 0);
    if messages.len() == 0 || websocket_reaction(Some(messages[0])).exit {
        reveal_with_fuel(run_spec, 2);
        reveal_with_fuel(follows, 2);
        assert(run_spec(StepPhaseView::Handling(messages), events).1 =~= reactions(messages));
    } else {
        let rest = messages.skip(1);
        lemma_handling(rest);
        assert(events.skip(1) =~= continue_events(rounds(rest)));
        if stops(messages) {
            let i = choose|i: int|
                0 <= i < messages.len() && websocket_reaction(Some(#[trigger] messages[i])).exit;
            assert(rest[i - 1] == messages[i]);
        }
        if stops(rest) {
            let i = choose|i: int|
                0 <= i < rest.len() && websocket_reaction(Some(#[trigger] rest[i])).exit;
            assert(messages[i + 1] == rest[i]);
        }
    }
}

/// A step sends the requests of the mailbox, then the documents of the renderer, each in the
/// order in which they came. Then it handles the messages that the connection had ready, in their
/// order, up to the first that makes the actor stop. The actor stops exactly if there is one.
pub proof fn lemma_step(
    requests: Seq<WebviewActorRequestView>,
    svgs: Seq<Seq<u8>>,
    messages: Seq<WsMessageView>,
    err: TryRecvError,
)
    requires
        forall|i: int| 0 <= i < messages.len() ==> (#[trigger] messages[i]).is_complete(),
    ensures
        ({
            let events = mailbox_events(requests) + svg_events(svgs) + connection_events(
                messages,
                Err(err),
            ) + continue_events(rounds(messages));
            &&& follows(StepPhaseView::Mailbox, events)
            &&& run_spec(StepPhaseView::Mailbox, events) == (
                StepPhaseView::Done(stops(messages)),
                mailbox_effects(requests) + svg_effects(svgs) + reactions(messages),
            )
        }),
{
    let none = Seq::<WsMessageView>::empty();
    let first = mailbox_events(requests) + svg_events(svgs);
    let second = first + connection_events(messages, Err(err));
    lemma_mailbox(requests);
    lemma_svg(svgs);
    lemma_connection(none, messages, Err(err));
    lemma_handling(messages);
    assert(none + messages =~= messages);
    lemma_run_concat(StepPhaseView::Mailbox, mailbox_events(requests), svg_events(svgs));
    lemma_run_concat(StepPhaseView::Mailbox, first, connection_events(messages, Err(err)));
    lemma_run_concat(StepPhaseView::Mailbox, second, continue_events(rounds(messages)));
    let effects = mailbox_effects(requests) + svg_effects(svgs);
    assert(effects + Seq::<WebviewEffectView>::empty() =~= effects);
}

/// A step in which the connection turns out to be closed still sends the requests of the mailbox
/// and the documents of the renderer. Messages that came before the end are not handled, and the
/// actor stops.
pub proof fn lemma_step_closed(
    requests: Seq<WebviewActorRequestView>,
    svgs: Seq<Seq<u8>>,
    messages: Seq<WsMessageView>,
)
    ensures
        ({
            let events = mailbox_events(requests) + svg_events(svgs) + connection_events(
                messages,
                Ok(None),
            );
            &&& follows(StepPhaseView::Mailbox, events)
            &&& run_spec(StepPhaseView::Mailbox, events) == (
                StepPhaseView::Done(true),
                mailbox_effects(requests) + svg_effects(svgs),
            )
        }),
{
    let first = mailbox_events(requests) + svg_events(svgs);
    lemma_mailbox(requests);
    lemma_svg(svgs);
    lemma_connection(Seq::empty(), messages, Ok(None));
    lemma_run_concat(StepPhaseView::Mailbox, mailbox_events(requests), svg_events(svgs));
    lemma_run_concat(StepPhaseView::Mailbox, first, connection_events(messages, Ok(None)));
    let effects = mailbox_effects(requests) + svg_effects(svgs);
    assert(effects + Seq::<WebviewEffectView>::empty() =~= effects);
}

/// What every answer does to a step. A request from the mailbox and a document from the renderer
/// are sent at once, and the same is asked again. Where there is none, the next is asked: the
/// renderer after the mailbox, the connection after the renderer. Messages are put aside in order
/// until the connection has none ready, and are then handled from the first on. A closed connection
/// ends the step at once, and the actor stops.
pub proof fn lemma_turns(
    request: WebviewActorRequestView,
    svg: Seq<u8>,
    msg: WsMessageView,
    messages: Seq<WsMessageView>,
    err: TryRecvError,
)
    ensures
        step_spec(StepPhaseView::Mailbox, StepEventView::Mailbox(Some(request))) == (
            StepPhaseView::Mailbox,
            Some(WebviewEffectView::Send(request.message())),
        ),
        step_spec(StepPhaseView::Mailbox, StepEventView::Mailbox(None)) == (
            StepPhaseView::Svg,
            None::<WebviewEffectView>,
        ),
        step_spec(StepPhaseView::Svg, StepEventView::Svg(Some(svg))) == (
            StepPhaseView::Svg,
            Some(WebviewEffectView::Send(WsMessageView::Binary(svg))),
        ),
        step_spec(StepPhaseView::Svg, StepEventView::Svg(None)) == (
            StepPhaseView::Receiving(Seq::empty()),
            None::<WebviewEffectView>,
        ),
        step_spec(
            StepPhaseView::Receiving(messages),
            StepEventView::Connection(Ok(Some(msg))),
        ) == (StepPhaseView::Receiving(messages.push(msg)), None::<WebviewEffectView>),
        step_spec(StepPhaseView::Receiving(messages), StepEventView::Connection(Ok(None))) == (
            StepPhaseView::Done(true),
            None::<WebviewEffectView>,
        ),
        step_spec(StepPhaseView::Receiving(messages), StepEventView::Connection(Err(err))) == (
            StepPhaseView::Handling(messages),
            None::<WebviewEffectView>,
        ),
        step_spec(StepPhaseView::Handling(Seq::empty()), StepEventView::Continue) == (
            StepPhaseView::Done(false),
            None::<WebviewEffectView>,
        ),
        ({
            let reaction = websocket_reaction(Some(msg));
            step_spec(StepPhaseView::Handling(seq![msg] + messages), StepEventView::Continue) == (
                if reaction.exit {
                    StepPhaseView::Done(true)
                } else {
                    StepPhaseView::Handling(messages)
                },
                reaction.effect,
            )
        }),
{
    let waiting = seq![msg] + messages;
    assert(waiting[0] == msg);
    assert(waiting.skip(1) =~= messages);
}

/// When the actor waits for everything at once, it sends requests and documents and goes on. With a
/// message from the connection it does what it always does with one, and it stops when the
/// connection fails or ends, or when there is nothing left to wait for.
pub proof fn lemma_select_reaction<E>(event: SelectEvent<E>)
    ensures
        event matches SelectEvent::Mailbox(request) ==> select_reaction(event)
            == (WebviewReactionView {
            effect: Some(WebviewEffectView::Send(request@.message())),
            exit: false,
        }),
        event matches SelectEvent::Svg(svg) ==> select_reaction(event) == (WebviewReactionView {
            effect: Some(WebviewEffectView::Send(WsMessageView::Binary(svg@))),
            exit: false,
        }),
        event matches SelectEvent::Websocket(Some(Ok(msg))) ==> select_reaction(event)
            == websocket_reaction(Some(msg@)),
        event matches SelectEvent::Websocket(Some(Err(_))) ==> select_reaction(event)
            == (WebviewReactionView { effect: None, exit: true }),
        event matches SelectEvent::Websocket(None) ==> select_reaction(event)
            == (WebviewReactionView { effect: None, exit: true }),
        event is Exhausted ==> select_reaction(event) == (WebviewReactionView {
            effect: None,
            exit: true,
        }),
{
}

/// Phases and events of a step say what they hold, messages in their order.
pub proof fn lemma_step_views(phase: StepPhase, event: StepEvent, messages: Seq<WsMessage>)
    ensures
        message_views(messages) == messages.map_values(|msg: WsMessage| msg@),
        phase@ == match phase {
            StepPhase::Mailbox => StepPhaseView::Mailbox,
            StepPhase::Svg => StepPhaseView::Svg,
            StepPhase::Receiving(came) => StepPhaseView::Receiving(message_views(came@)),
            StepPhase::Handling(came) => StepPhaseView::Handling(message_views(came@)),
            StepPhase::Done(exit) => StepPhaseView::Done(exit),
        },
        event@ == match event {
            StepEvent::Mailbox(Some(request)) => StepEventView::Mailbox(Some(request@)),
            StepEvent::Mailbox(None) => StepEventView::Mailbox(None),
            StepEvent::Svg(Some(svg)) => StepEventView::Svg(Some(svg@)),
            StepEvent::Svg(None) => StepEventView::Svg(None),
            StepEvent::Connection(Ok(Some(msg))) => StepEventView::Connection(Ok(Some(msg@))),
            StepEvent::Connection(Ok(None)) => StepEventView::Connection(Ok(None)),
            StepEvent::Connection(Err(err)) => StepEventView::Connection(Err(err)),
            StepEvent::Continue => StepEventView::Continue,
        },
{
}

/// A step takes any answer to what it asks for, and handles any message that makes no incomplete
/// request.
pub proof fn lemma_expected(
    request: Option<WebviewActorRequestView>,
    svg: Option<Seq<u8>>,
    passed: Result<Option<WsMessageView>, TryRecvError>,
    messages: Seq<WsMessageView>,
)
    ensures
        expects(StepPhaseView::Mailbox, StepEventView::Mailbox(request)),
        expects(StepPhaseView::Svg, StepEventView::Svg(svg)),
        expects(StepPhaseView::Receiving(messages), StepEventView::Connection(passed)),
        messages.len() == 0 || messages[0].is_complete() ==> expects(
            StepPhaseView::Handling(messages),
            StepEventView::Continue,
        ),
{
}

} // verus!
