//! Connections to a webview: how what a transport yields is passed on.

use vstd::prelude::*;

use crate::message::{
    PreviewMessageContent, PreviewMessageWsMessageTransition, PreviewNotificationParams, WsMessage,
};

verus! {

/// Why no message could be received at once.
#[derive(Debug, Clone, Copy, PartialEq, Eq, Structural)]
pub enum TryRecvError {
    /// There is no message yet.
    Empty,
    /// There will be no more messages.
    Disconnected,
}

/// What asking a transport once gave.
#[derive(Debug, PartialEq, Eq)]
pub enum Poll<T> {
    /// The transport had something to say.
    Ready(T),
    /// The transport will say something later.
    Pending,
}

/// The connection to a webview by way of an editor.
pub struct LspMessageAdapter {}

/// What the connection by way of an editor passes on when its queue is asked for a message.
pub open spec fn lsp_try_recv(
    polled: Result<WsMessage, TryRecvError>,
) -> Result<Option<WsMessage>, TryRecvError> {
    match polled {
        Ok(msg) => Ok(Some(msg)),
        Err(TryRecvError::Empty) => Err(TryRecvError::Empty),
        Err(TryRecvError::Disconnected) => Ok(None),
    }
}

/// What the connection by way of an editor yields when its queue is asked for the next message.
pub open spec fn lsp_poll_next<E>(polled: Poll<Option<WsMessage>>) -> Poll<
    Option<Result<WsMessage, E>>,
> {
    match polled {
        Poll::Ready(Some(msg)) => Poll::Ready(Some(Ok(msg))),
        Poll::Ready(None) => Poll::Ready(None),
        Poll::Pending => Poll::Pending,
    }
}

impl LspMessageAdapter {
    /// Passes on a message, or that there is none yet, or that the connection is closed.
    pub fn try_recv(polled: Result<WsMessage, TryRecvError>) -> (passed: Result<
        Option<WsMessage>,
        TryRecvError,
    >)
        ensures
            passed == lsp_try_recv(polled),
    {
        match polled {
            Ok(msg) => Ok(Some(msg)),
            Err(TryRecvError::Empty) => Err(TryRecvError::Empty),
            Err(TryRecvError::Disconnected) => Ok(None),
        }
    }

    /// Makes the notification that carries a message to the editor.
    ///
    /// The editor gets the message back from it.
    pub fn start_send(item: WsMessage) -> (params: PreviewNotificationParams)
        requires
            item@.fits(),
        ensures
            params.content@ == item@.content(),
            params.content@.message() == item@,
    {
        PreviewNotificationParams { content: PreviewMessageContent::from_ws_message(item) }
    }

    /// Passes on the next message; receiving from the queue does not fail.
    pub fn poll_next<E>(polled: Poll<Option<WsMessage>>) -> (passed: Poll<
        Option<Result<WsMessage, E>>,
    >)
        ensures
            passed == lsp_poll_next::<E>(polled),
    {
        match polled {
            Poll::Ready(Some(msg)) => Poll::Ready(Some(Ok(msg))),
            Poll::Ready(None) => Poll::Ready(None),
            Poll::Pending => Poll::Pending,
        }
    }
}

/// What a queue that has yielded some of its messages gives when it is asked for one more. It is
/// closed once no one can put a message into it.
pub open spec fn queue_answer(
    messages: Seq<WsMessage>,
    yielded: nat,
    closed: bool,
) -> Result<WsMessage, TryRecvError> {
    if yielded < messages.len() {
        Ok(messages[yielded as int])
    } else if closed {
        Err(TryRecvError::Disconnected)
    } else {
        Err(TryRecvError::Empty)
    }
}

/// The connection by way of an editor passes on the messages of its queue in their order, also
/// after the queue is closed. Then it tells that there is none yet while the queue is open, and
/// that the connection is closed once it is. It never tells that the connection was lost.
pub proof fn lemma_lsp_queue(messages: Seq<WsMessage>, yielded: nat, closed: bool)
    ensures
        ({
            let passed = lsp_try_recv(queue_answer(messages, yielded, closed));
            &&& yielded < messages.len() ==> passed == Ok::<Option<WsMessage>, TryRecvError>(
                Some(messages[yielded as int]),
            )
            &&& yielded >= messages.len() && closed ==> passed == Ok::<
                Option<WsMessage>,
                TryRecvError,
            >(None)
            &&& yielded >= messages.len() && !closed ==> passed == Err::<
                Option<WsMessage>,
                TryRecvError,
            >(TryRecvError::Empty)
            &&& passed != Err::<Option<WsMessage>, TryRecvError>(TryRecvError::Disconnected)
        }),
{
}

/// The connection to a webview over a websocket.
pub struct WebsocketAdapter<S>(pub S);

/// What the connection over a websocket passes on when its stream is asked once.
pub open spec fn websocket_try_recv<E>(
    polled: Poll<Option<Result<WsMessage, E>>>,
) -> Result<Option<WsMessage>, TryRecvError> {
    match polled {
        Poll::Ready(Some(Ok(msg))) => Ok(Some(msg)),
        Poll::Ready(Some(Err(_))) => Err(TryRecvError::Disconnected),
        Poll::Ready(None) => Err(TryRecvError::Disconnected),
        Poll::Pending => Err(TryRecvError::Empty),
    }
}

impl<S> WebsocketAdapter<S> {
    /// Passes on a message, or that there is none yet, or that there will be no more.
    pub fn try_recv<E>(polled: Poll<Option<Result<WsMessage, E>>>) -> (passed: Result<
        Option<WsMessage>,
        TryRecvError,
    >)
        ensures
            passed == websocket_try_recv(polled),
    {
        match polled {
            Poll::Ready(Some(Ok(msg))) => Ok(Some(msg)),
            Poll::Ready(Some(Err(_))) => Err(TryRecvError::Disconnected),
            Poll::Ready(None) => Err(TryRecvError::Disconnected),
            Poll::Pending => Err(TryRecvError::Empty),
        }
    }
}

/// By way of an editor every message is passed on unchanged, and so is that there is none yet. A
/// queue that no one can write to any more is the end of the connection, not an error.
pub proof fn lemma_lsp_passes_on<E>(msg: WsMessage)
    ensures
        lsp_try_recv(Ok(msg)) == Ok::<Option<WsMessage>, TryRecvError>(Some(msg)),
        lsp_try_recv(Err(TryRecvError::Empty)) == Err::<Option<WsMessage>, TryRecvError>(
            TryRecvError::Empty,
        ),
        lsp_try_recv(Err(TryRecvError::Disconnected)) == Ok::<Option<WsMessage>, TryRecvError>(
            None,
        ),
        lsp_poll_next::<E>(Poll::Ready(Some(msg))) == Poll::Ready(
            Some(Ok::<WsMessage, E>(msg)),
        ),
        lsp_poll_next::<E>(Poll::Ready(None)) == Poll::Ready(None::<Result<WsMessage, E>>),
        lsp_poll_next::<E>(Poll::Pending) == Poll::<Option<Result<WsMessage, E>>>::Pending,
{
}

/// Over a websocket every message is passed on unchanged, and so is that there is none yet. A
/// stream that fails or ends is a lost connection.
pub proof fn lemma_websocket_passes_on<E>(msg: WsMessage, err: E)
    ensures
        websocket_try_recv(Poll::Ready(Some(Ok::<WsMessage, E>(msg)))) == Ok::<
            Option<WsMessage>,
            TryRecvError,
        >(Some(msg)),
        websocket_try_recv(Poll::Ready(Some(Err::<WsMessage, E>(err)))) == Err::<
            Option<WsMessage>,
            TryRecvError,
        >(TryRecvError::Disconnected),
        websocket_try_recv(Poll::Ready(None::<Result<WsMessage, E>>)) == Err::<
            Option<WsMessage>,
            TryRecvError,
        >(TryRecvError::Disconnected),
        websocket_try_recv(Poll::<Option<Result<WsMessage, E>>>::Pending) == Err::<
            Option<WsMessage>,
            TryRecvError,
        >(TryRecvError::Empty),
{
}

} // verus!
