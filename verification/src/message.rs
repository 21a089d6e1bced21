//! Messages of the preview connection and their form inside editor notifications.

use base64::Engine;
use vstd::prelude::*;

verus! {

/// A message on the connection to a webview.
#[derive(Debug, Clone, PartialEq, Eq)]
pub enum WsMessage {
    /// A text message.
    Text(String),
    /// A message of raw bytes.
    Binary(Vec<u8>),
}

/// What a [`WsMessage`] says.
pub enum WsMessageView {
    Text(Seq<char>),
    Binary(Seq<u8>),
}

impl View for WsMessage {
    type V = WsMessageView;

    open spec fn view(&self) -> WsMessageView {
        match self {
            WsMessage::Text(text) => WsMessageView::Text(text@),
            WsMessage::Binary(bytes) => WsMessageView::Binary(bytes@),
        }
    }
}

/// A message in a form that a text protocol can carry: bytes stand there in base64.
#[derive(Debug, Clone, PartialEq, Eq)]
pub enum PreviewMessageContent {
    /// A text message.
    Text { data: String },
    /// A message of raw bytes, encoded in base64.
    Binary { data: String },
}

/// What a [`PreviewMessageContent`] says.
pub enum PreviewMessageContentView {
    Text { data: Seq<char> },
    Binary { data: Seq<char> },
}

impl View for PreviewMessageContent {
    type V = PreviewMessageContentView;

    open spec fn view(&self) -> PreviewMessageContentView {
        match self {
            PreviewMessageContent::Text { data } => PreviewMessageContentView::Text { data: data@ },
            PreviewMessageContent::Binary { data } => PreviewMessageContentView::Binary {
                data: data@,
            },
        }
    }
}

/// The parameters of a notification from the preview to the editor.
#[derive(Debug, Clone, PartialEq, Eq)]
pub struct PreviewNotificationParams {
    /// The message for the webview.
    pub content: PreviewMessageContent,
}

/// The standard base64 encoding of bytes, with padding.
pub uninterp spec fn base64_text(bytes: Seq<u8>) -> Seq<char>;

/// The bytes that a text encodes in standard base64, if it is such an encoding.
pub uninterp spec fn base64_bytes(text: Seq<char>) -> Option<Seq<u8>>;

/// The number of characters in the base64 encoding of so many bytes.
pub open spec fn base64_len(bytes: nat) -> nat {
    4 * ((bytes + 2) / 3)
}

/// Calls `encode` of `base64::engine::general_purpose::STANDARD`.
///
/// The result is the encoding of the bytes: four characters for every three bytes or part of
/// them, and decoding it gives the bytes back. The encoder panics where its output buffer would
/// be longer than a buffer can be.
#[verifier::external_body]
fn encode_base64(bytes: &Vec<u8>) -> (text: String)
    requires
        base64_len(bytes@.len()) <= isize::MAX,
    ensures
        text@ == base64_text(bytes@),
        text@.len() == base64_len(bytes@.len()),
        base64_bytes(text@) == Some(bytes@),
{
    base64::engine::general_purpose::STANDARD.encode(bytes)
}

/// Calls `decode` of `base64::engine::general_purpose::STANDARD`.
///
/// The result is the decoded bytes, or nothing where the text is no encoding. The engine takes
/// only canonical encodings, so encoding the bytes again gives the text.
#[verifier::external_body]
fn decode_base64(text: &str) -> (bytes: Option<Vec<u8>>)
    ensures
        match bytes {
            Some(bytes) => base64_bytes(text@) == Some(bytes@) && base64_text(bytes@) == text@,
            None => base64_bytes(text@) is None,
        },
{
    base64::engine::general_purpose::STANDARD.decode(text).ok()
}

/// Whether so many bytes can be encoded in base64 on this machine.
pub open spec fn fits_base64_spec(bytes: nat) -> bool {
    base64_len(bytes) <= isize::MAX
}

/// Whether so many bytes can be encoded in base64 on this machine.
pub fn fits_base64(bytes: usize) -> (fits: bool)
    ensures
        fits == fits_base64_spec(bytes as nat),
{
    let rest: usize = if bytes % 3 == 0 {
        0
    } else {
        1
    };
    let groups: usize = bytes / 3 + rest;
    groups <= (isize::MAX / 4) as usize
}

/// The binary message with the bytes that were decoded, or with none where decoding failed.
pub fn binary_message(decoded: Option<Vec<u8>>) -> (msg: WsMessage)
    ensures
        msg@ == (WsMessageView::Binary(
            match decoded {
                Some(bytes) => bytes@,
                None => Seq::empty(),
            },
        )),
{
    match decoded {
        Some(bytes) => WsMessage::Binary(bytes),
        None => WsMessage::Binary(Vec::new()),
    }
}

/// The content with bytes that were encoded.
pub fn binary_content(encoded: String) -> (content: PreviewMessageContent)
    ensures
        content@ == (PreviewMessageContentView::Binary { data: encoded@ }),
{
    PreviewMessageContent::Binary { data: encoded }
}

impl PreviewMessageContentView {
    /// The message that content stands for.
    pub open spec fn message(self) -> WsMessageView {
        match self {
            PreviewMessageContentView::Text { data } => WsMessageView::Text(data),
            PreviewMessageContentView::Binary { data } => WsMessageView::Binary(
                match base64_bytes(data) {
                    Some(bytes) => bytes,
                    None => Seq::empty(),
                },
            ),
        }
    }

    /// Whether the bytes of binary content are encoded as they should be.
    pub open spec fn is_encoded(self) -> bool {
        match self {
            PreviewMessageContentView::Text { .. } => true,
            PreviewMessageContentView::Binary { data } => base64_bytes(data) is Some,
        }
    }
}

impl WsMessageView {
    /// The content that stands for a message.
    pub open spec fn content(self) -> PreviewMessageContentView {
        match self {
            WsMessageView::Text(text) => PreviewMessageContentView::Text { data: text },
            WsMessageView::Binary(bytes) => PreviewMessageContentView::Binary {
                data: base64_text(bytes),
            },
        }
    }

    /// Whether the message has an encoded form that fits in memory.
    pub open spec fn fits(self) -> bool {
        match self {
            WsMessageView::Text(_) => true,
            WsMessageView::Binary(bytes) => fits_base64_spec(bytes.len()),
        }
    }
}

/// Whether a message is what content is converted to.
pub open spec fn is_message_of(msg: WsMessageView, content: PreviewMessageContentView) -> bool {
    &&& msg == content.message()
    &&& content.is_encoded() ==> msg.content() == content
}

/// Whether content is what a message is converted to.
pub open spec fn is_content_of(content: PreviewMessageContentView, msg: WsMessageView) -> bool {
    &&& content == msg.content()
    &&& content.is_encoded()
    &&& content.message() == msg
    &&& msg matches WsMessageView::Binary(bytes)
        ==> content->Binary_data.len() == base64_len(bytes.len())
}

/// Content that is converted to a message and back is the same as before. Only where its bytes were
/// not encoded as they should be, it has no bytes any more. In any case text stays text, and bytes
/// stay bytes.
pub proof fn lemma_content_round_trip(
    content: PreviewMessageContentView,
    msg: WsMessageView,
    back: PreviewMessageContentView,
)
    requires
        is_message_of(msg, content),
        is_content_of(back, msg),
    ensures
        content.is_encoded() ==> back == content,
        !content.is_encoded() ==> back == (PreviewMessageContentView::Binary {
            data: Seq::empty(),
        }),
        back is Text <==> content is Text,
{
    if !content.is_encoded() {
        assert(back->Binary_data =~= Seq::empty());
    }
}

/// Conversion between a message and the form in which a protocol carries it.
pub trait PreviewMessageWsMessageTransition: Sized {
    /// Convert to WsMessage
    fn to_ws_message(self) -> (msg: WsMessage);

    /// Create from WsMessage
    fn from_ws_message(msg: WsMessage) -> (content: Self)
        requires
            msg@.fits(),
    ;
}

impl PreviewMessageWsMessageTransition for PreviewMessageContent {
    /// Converts content to the message that it stands for.
    ///
    /// Converting the message back gives the same content, unless its bytes were not encoded as
    /// they should be.
    fn to_ws_message(self) -> (msg: WsMessage)
        ensures
            is_message_of(msg@, self@),
    {
        match self {
            PreviewMessageContent::Text { data } => WsMessage::Text(data),
            PreviewMessageContent::Binary { data } => binary_message(decode_base64(data.as_str())),
        }
    }

    /// Creates the content that stands for a message.
    ///
    /// Converting the content back gives the same message.
    fn from_ws_message(msg: WsMessage) -> (content: Self)
        ensures
            is_content_of(content@, msg@),
    {
        match msg {
            WsMessage::Text(text) => PreviewMessageContent::Text { data: text },
            WsMessage::Binary(bytes) => binary_content(encode_base64(&bytes)),
        }
    }
}

/// Text is carried as it is, and bytes in base64. Content whose bytes cannot be decoded stands for
/// a message of no bytes.
pub proof fn lemma_carried(msg: WsMessageView, content: PreviewMessageContentView)
    ensures
        is_content_of(content, msg) ==> match msg {
            WsMessageView::Text(text) => content == (PreviewMessageContentView::Text {
                data: text,
            }),
            WsMessageView::Binary(bytes) => {
                &&& content == (PreviewMessageContentView::Binary { data: base64_text(bytes) })
                &&& base64_bytes(base64_text(bytes)) == Some(bytes)
            },
        },
        is_message_of(msg, content) ==> match content {
            PreviewMessageContentView::Text { data } => msg == WsMessageView::Text(data),
            PreviewMessageContentView::Binary { data } => match base64_bytes(data) {
                Some(bytes) => msg == WsMessageView::Binary(bytes) && base64_text(bytes) == data,
                None => msg == WsMessageView::Binary(Seq::empty()),
            },
        },
        msg.fits() <==> (msg matches WsMessageView::Binary(bytes) ==> base64_len(bytes.len())
            <= isize::MAX),
        msg.content() == match msg {
            WsMessageView::Text(text) => PreviewMessageContentView::Text { data: text },
            WsMessageView::Binary(bytes) => PreviewMessageContentView::Binary {
                data: base64_text(bytes),
            },
        },
{
}

/// Bytes can be encoded as long as four characters for every three of them, or part of three, can
/// be held.
pub proof fn lemma_fits_base64(groups: nat)
    ensures
        base64_len(3 * groups) == 4 * groups,
        base64_len(3 * groups + 1) == 4 * groups + 4,
        base64_len(3 * groups + 2) == 4 * groups + 4,
        fits_base64_spec(3 * groups) <==> 4 * groups <= isize::MAX,
        fits_base64_spec(3 * groups + 1) <==> 4 * groups + 4 <= isize::MAX,
        fits_base64_spec(3 * groups + 2) <==> 4 * groups + 4 <= isize::MAX,
{
}

/// Messages and their contents say what they hold.
pub proof fn lemma_message_views(msg: WsMessage, content: PreviewMessageContent)
    ensures
        msg@ == match msg {
            WsMessage::Text(text) => WsMessageView::Text(text@),
            WsMessage::Binary(bytes) => WsMessageView::Binary(bytes@),
        },
        content@ == match content {
            PreviewMessageContent::Text { data } => PreviewMessageContentView::Text { data: data@ },
            PreviewMessageContent::Binary { data } => PreviewMessageContentView::Binary {
                data: data@,
            },
        },
{
}

} // verus!
