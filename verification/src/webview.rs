//! The actor between a webview and the rest of the preview: what it sends, and how it reacts.

use vstd::prelude::*;
use vstd::string::*;
use vstd::utf8::encode_utf8;

use crate::message::{WsMessage, WsMessageView};
use crate::number::{
    display_float, displayed_float, is_displayed, is_float, is_float_spec, lemma_float_plain,
};
use crate::position::{
    cursor_paths_json, element_points, frame_loc, frame_loc_position, lemma_position_text_plain,
    lemma_positions_req_fields, path_view, path_views, position_req, position_req_spec,
    position_views, positions_req, positions_req_spec, read_frame_loc, read_source_path,
    source_path, triple_views, write_cursor_paths, DocumentPosition, DocumentPositionView,
    ElementPoint,
};
use crate::step::StepPhase;
use crate::text::{
    decimal, decimal_spec, is_digit_spec, join_spec, lemma_decimal, lemma_parse_decimal,
    lemma_split_last, lemma_split_single, parse_usize, parse_usize_spec, same, split, split_spec,
    starts_with, texts, trim, trim_spec,
};

verus! {

/// Where a jump from the source leads to.
pub type SrcToDocJumpInfo = DocumentPosition;

/// A request to the webview.
#[derive(Debug, Clone, PartialEq, Eq)]
pub enum WebviewActorRequest {
    /// Bring a position into view.
    ViewportPosition(DocumentPosition),
    /// Jump to the places that a source position leads to.
    SrcToDocJump(Vec<SrcToDocJumpInfo>),
    /// Mark the elements under the cursor.
    CursorPaths(Vec<Vec<ElementPoint>>),
}

/// What a [`WebviewActorRequest`] says.
pub enum WebviewActorRequestView {
    ViewportPosition(DocumentPositionView),
    SrcToDocJump(Seq<DocumentPositionView>),
    CursorPaths(Seq<Seq<(u32, u32, Seq<char>)>>),
}

impl View for WebviewActorRequest {
    type V = WebviewActorRequestView;

    open spec fn view(&self) -> WebviewActorRequestView {
        match self {
            WebviewActorRequest::ViewportPosition(position) => {
                WebviewActorRequestView::ViewportPosition(position@)
            },
            WebviewActorRequest::SrcToDocJump(positions) => {
                WebviewActorRequestView::SrcToDocJump(position_views(positions@))
            },
            WebviewActorRequest::CursorPaths(paths) => {
                WebviewActorRequestView::CursorPaths(path_views(paths@))
            },
        }
    }
}

impl WebviewActorRequestView {
    /// The text of the frame that carries the request.
    pub open spec fn frame(self) -> Seq<char> {
        match self {
            WebviewActorRequestView::ViewportPosition(position) => {
                position_req_spec("viewport"@, position)
            },
            WebviewActorRequestView::SrcToDocJump(positions) => {
                positions_req_spec("jump"@, positions)
            },
            WebviewActorRequestView::CursorPaths(paths) => {
                "cursor-paths,"@ + cursor_paths_json(paths)
            },
        }
    }

    /// The message that carries the request: the frame in UTF-8.
    pub open spec fn message(self) -> WsMessageView {
        WsMessageView::Binary(encode_utf8(self.frame()))
    }
}

/// A request to resolve the source of elements.
#[derive(Debug, PartialEq, Eq)]
pub struct ResolveSpanRequest(pub Vec<ElementPoint>);

/// A request to the renderer.
#[derive(Debug, PartialEq, Eq)]
pub enum RenderActorRequest {
    /// Render the latest document as a whole.
    RenderFullLatest,
    /// Find the source of elements.
    WebviewResolveSpan(ResolveSpanRequest),
    /// Find the source of a position.
    WebviewResolveFrameLoc(DocumentPosition),
}

/// What a [`RenderActorRequest`] says.
pub enum RenderActorRequestView {
    RenderFullLatest,
    WebviewResolveSpan(Seq<(u32, u32, Seq<char>)>),
    WebviewResolveFrameLoc(DocumentPositionView),
}

impl View for RenderActorRequest {
    type V = RenderActorRequestView;

    open spec fn view(&self) -> RenderActorRequestView {
        match self {
            RenderActorRequest::RenderFullLatest => RenderActorRequestView::RenderFullLatest,
            RenderActorRequest::WebviewResolveSpan(request) => {
                RenderActorRequestView::WebviewResolveSpan(path_view(request.0@))
            },
            RenderActorRequest::WebviewResolveFrameLoc(position) => {
                RenderActorRequestView::WebviewResolveFrameLoc(position@)
            },
        }
    }
}

/// A request to show the source of an element in the editor.
#[derive(Debug, PartialEq, Eq)]
pub struct DocToSrcJumpResolveRequest {
    /// The span of the element.
    pub span: String,
}

/// A request to the editor.
#[derive(Debug, PartialEq, Eq)]
pub enum EditorActorRequest {
    /// Show the source of an element.
    DocToSrcJumpResolve(DocToSrcJumpResolveRequest),
}

/// What an [`EditorActorRequest`] says.
pub enum EditorActorRequestView {
    DocToSrcJumpResolve(Seq<char>),
}

impl View for EditorActorRequest {
    type V = EditorActorRequestView;

    open spec fn view(&self) -> EditorActorRequestView {
        match self {
            EditorActorRequest::DocToSrcJumpResolve(request) => {
                EditorActorRequestView::DocToSrcJumpResolve(request.span@)
            },
        }
    }
}

/// Something that the actor sends.
#[derive(Debug, PartialEq, Eq)]
pub enum WebviewEffect {
    /// A message to the webview.
    Send(WsMessage),
    /// A request to the renderer.
    Render(RenderActorRequest),
    /// A request to the editor.
    Edit(EditorActorRequest),
    /// A request to every webview.
    Broadcast(WebviewActorRequest),
}

/// What a [`WebviewEffect`] says.
pub enum WebviewEffectView {
    Send(WsMessageView),
    Render(RenderActorRequestView),
    Edit(EditorActorRequestView),
    Broadcast(WebviewActorRequestView),
}

impl View for WebviewEffect {
    type V = WebviewEffectView;

    open spec fn view(&self) -> WebviewEffectView {
        match self {
            WebviewEffect::Send(msg) => WebviewEffectView::Send(msg@),
            WebviewEffect::Render(request) => WebviewEffectView::Render(request@),
            WebviewEffect::Edit(request) => WebviewEffectView::Edit(request@),
            WebviewEffect::Broadcast(request) => WebviewEffectView::Broadcast(request@),
        }
    }
}

/// What an optional effect says.
pub open spec fn effect_view(effect: Option<WebviewEffect>) -> Option<WebviewEffectView> {
    match effect {
        Some(effect) => Some(effect@),
        None => None,
    }
}

/// How the actor reacts to an event.
#[derive(Debug, PartialEq, Eq)]
pub struct WebviewReaction {
    /// What it sends, if anything.
    pub effect: Option<WebviewEffect>,
    /// Whether it stops.
    pub exit: bool,
}

/// What a [`WebviewReaction`] says.
pub struct WebviewReactionView {
    pub effect: Option<WebviewEffectView>,
    pub exit: bool,
}

impl View for WebviewReaction {
    type V = WebviewReactionView;

    open spec fn view(&self) -> WebviewReactionView {
        WebviewReactionView { effect: effect_view(self.effect), exit: self.exit }
    }
}

/// Going on after sending something or nothing.
pub open spec fn stay(effect: Option<WebviewEffectView>) -> WebviewReactionView {
    WebviewReactionView { effect, exit: false }
}

/// Stopping after sending something or nothing.
pub open spec fn leave(effect: Option<WebviewEffectView>) -> WebviewReactionView {
    WebviewReactionView { effect, exit: true }
}

/// The second field of a text.
pub open spec fn argument(text: Seq<char>, separator: char) -> Seq<char> {
    split_spec(text, separator)[1]
}

/// The fields of the position in a request to synchronise the outline.
pub open spec fn outline_fields(text: Seq<char>) -> Seq<Seq<char>> {
    split_spec(argument(text, ','), ' ')
}

/// The position in a request to synchronise the outline. Its coordinates are the numbers in the
/// request as they are displayed; those that are left out are zero.
pub open spec fn outline_position(text: Seq<char>) -> DocumentPositionView {
    let fields = outline_fields(text);
    DocumentPositionView {
        page_no: parse_usize_spec(fields[0]).unwrap(),
        x: if fields.len() > 1 {
            displayed_float(fields[1]).unwrap()
        } else {
            "0"@
        },
        y: if fields.len() > 2 {
            displayed_float(fields[2]).unwrap()
        } else {
            "0"@
        },
    }
}

/// The requests that a webview makes in text messages, by what they begin with.
pub enum WebviewCommand {
    /// The webview wants the current document.
    Current,
    /// The webview wants to see the source of a span.
    SrcLocation,
    /// The webview moved to another place of the outline.
    OutlineSync,
    /// The webview wants to see the source of elements.
    SrcPath,
    /// The webview wants to see the source of a position.
    SrcPoint,
    /// Nothing that is known.
    Unknown,
}

/// The request that a text makes.
pub open spec fn command_spec(text: Seq<char>) -> WebviewCommand {
    if text == "current"@ {
        WebviewCommand::Current
    } else if "srclocation"@.is_prefix_of(text) {
        WebviewCommand::SrcLocation
    } else if "outline-sync"@.is_prefix_of(text) {
        WebviewCommand::OutlineSync
    } else if "srcpath"@.is_prefix_of(text) {
        WebviewCommand::SrcPath
    } else if "src-point"@.is_prefix_of(text) {
        WebviewCommand::SrcPoint
    } else {
        WebviewCommand::Unknown
    }
}

/// Whether the fields of a position are a page number and, as far as they are there, two
/// floating-point numbers.
pub open spec fn are_position_fields(fields: Seq<Seq<char>>) -> bool {
    &&& parse_usize_spec(fields[0]) is Some
    &&& fields.len() > 1 ==> is_float_spec(fields[1])
    &&& fields.len() > 2 ==> is_float_spec(fields[2])
}

/// Whether the request that a text makes has the argument that belongs to it.
pub open spec fn is_complete_spec(text: Seq<char>) -> bool {
    match command_spec(text) {
        WebviewCommand::Current | WebviewCommand::Unknown => true,
        WebviewCommand::SrcLocation | WebviewCommand::SrcPath | WebviewCommand::SrcPoint => {
            split_spec(text, ' ').len() > 1
        },
        WebviewCommand::OutlineSync => {
            split_spec(text, ',').len() > 1 && are_position_fields(outline_fields(text))
        },
    }
}

impl WsMessageView {
    /// Whether the message makes no request, or a request with the argument that belongs to it.
    pub open spec fn is_complete(self) -> bool {
        match self {
            WsMessageView::Text(text) => is_complete_spec(text),
            WsMessageView::Binary(_) => true,
        }
    }
}

/// The renderer is asked for the source of a path, where one could be read.
pub open spec fn resolve_span_spec(
    path: Option<Seq<(u32, u32, Seq<char>)>>,
) -> Option<WebviewEffectView> {
    match path {
        Some(path) => Some(
            WebviewEffectView::Render(RenderActorRequestView::WebviewResolveSpan(path)),
        ),
        None => None,
    }
}

/// The renderer is asked for the source of a position, where one could be read.
pub open spec fn resolve_frame_loc_spec(
    position: Option<DocumentPositionView>,
) -> Option<WebviewEffectView> {
    match position {
        Some(position) => Some(
            WebviewEffectView::Render(RenderActorRequestView::WebviewResolveFrameLoc(position)),
        ),
        None => None,
    }
}

/// The answer to a text that makes no known request.
pub open spec fn unknown_reply(text: Seq<char>) -> Seq<char> {
    "error, received unknown message: "@ + text
}

/// How the actor reacts to a text message.
pub open spec fn text_reaction(text: Seq<char>) -> WebviewReactionView {
    match command_spec(text) {
        WebviewCommand::Current => stay(
            Some(WebviewEffectView::Render(RenderActorRequestView::RenderFullLatest)),
        ),
        WebviewCommand::SrcLocation => stay(
            Some(
                WebviewEffectView::Edit(
                    EditorActorRequestView::DocToSrcJumpResolve(trim_spec(argument(text, ' '))),
                ),
            ),
        ),
        WebviewCommand::OutlineSync => stay(
            Some(
                WebviewEffectView::Broadcast(
                    WebviewActorRequestView::ViewportPosition(outline_position(text)),
                ),
            ),
        ),
        WebviewCommand::SrcPath => stay(resolve_span_spec(source_path(argument(text, ' ')))),
        WebviewCommand::SrcPoint => stay(
            resolve_frame_loc_spec(frame_loc_position(argument(text, ' '))),
        ),
        WebviewCommand::Unknown => leave(
            Some(WebviewEffectView::Send(WsMessageView::Text(unknown_reply(text)))),
        ),
    }
}

/// Bytes as a list of numbers, separated by commas and spaces.
pub open spec fn byte_list(bytes: Seq<u8>) -> Seq<char>
    decreases bytes.len(),
{
    if bytes.len() == 0 {
        Seq::empty()
    } else if bytes.len() == 1 {
        decimal_spec(bytes[0] as nat)
    } else {
        byte_list(bytes.drop_last()) + ", "@ + decimal_spec(bytes.last() as nat)
    }
}

/// The answer to a message of raw bytes.
pub open spec fn non_text_reply(bytes: Seq<u8>) -> Seq<char> {
    "Webview Actor: error, received non-text message: Binary(["@ + byte_list(bytes) + "])"@
}

/// How the actor reacts to what came from the webview: a message, or the end of the connection.
pub open spec fn websocket_reaction(msg: Option<WsMessageView>) -> WebviewReactionView {
    match msg {
        None => leave(None),
        Some(WsMessageView::Binary(bytes)) => leave(
            Some(WebviewEffectView::Send(WsMessageView::Text(non_text_reply(bytes)))),
        ),
        Some(WsMessageView::Text(text)) => text_reaction(text),
    }
}

/// The message that was received, if there was no error.
pub open spec fn received<E>(msg: Result<WsMessage, E>) -> Option<WsMessageView> {
    match msg {
        Ok(msg) => Some(msg@),
        Err(_) => None,
    }
}

/// Finds the request that a text makes.
pub fn command(text: &str) -> (command: WebviewCommand)
    ensures
        command == command_spec(text@),
{
    if same(text, "current") {
        WebviewCommand::Current
    } else if starts_with(text, "srclocation") {
        WebviewCommand::SrcLocation
    } else if starts_with(text, "outline-sync") {
        WebviewCommand::OutlineSync
    } else if starts_with(text, "srcpath") {
        WebviewCommand::SrcPath
    } else if starts_with(text, "src-point") {
        WebviewCommand::SrcPoint
    } else {
        WebviewCommand::Unknown
    }
}

/// Whether the request that a text makes has the argument that belongs to it.
pub fn is_complete(text: &str) -> (complete: bool)
    ensures
        complete == is_complete_spec(text@),
{
    match command(text) {
        WebviewCommand::Current | WebviewCommand::Unknown => true,
        WebviewCommand::SrcLocation | WebviewCommand::SrcPath | WebviewCommand::SrcPoint => {
            split(text, ' ').len() > 1
        },
        WebviewCommand::OutlineSync => {
            let parts = split(text, ',');
            if parts.len() > 1 {
                let fields = split(parts[1].as_str(), ' ');
                assert(texts(parts@)[1] == parts@[1]@);
                let ghost views = texts(fields@);
                assert(forall|i: int| 0 <= i < views.len() ==> views[i] == #[trigger] fields@[i]@);
                parse_usize(fields[0].as_str()).is_some() && (fields.len() <= 1 || is_float(
                    fields[1].as_str(),
                )) && (fields.len() <= 2 || is_float(fields[2].as_str()))
            } else {
                false
            }
        },
    }
}

/// Asks the renderer for the source of a path, where one could be read.
pub fn resolve_span(path: Option<Vec<(u32, u32, String)>>) -> (effect: Option<WebviewEffect>)
    ensures
        effect_view(effect) == resolve_span_spec(
            match path {
                Some(path) => Some(triple_views(path@)),
                None => None,
            },
        ),
{
    match path {
        Some(path) => {
            let request = ResolveSpanRequest(element_points(path));
            Some(WebviewEffect::Render(RenderActorRequest::WebviewResolveSpan(request)))
        },
        None => None,
    }
}

/// Asks the renderer for the source of a position, where one could be read.
pub fn resolve_frame_loc(position: Option<DocumentPosition>) -> (effect: Option<WebviewEffect>)
    ensures
        effect_view(effect) == resolve_frame_loc_spec(
            match position {
                Some(position) => Some(position@),
                None => None,
            },
        ),
{
    match position {
        Some(position) => Some(
            WebviewEffect::Render(RenderActorRequest::WebviewResolveFrameLoc(position)),
        ),
        None => None,
    }
}

/// Takes the second field of a text.
fn second_field(text: &str, separator: char) -> (field: String)
    requires
        split_spec(text@, separator).len() > 1,
    ensures
        field@ == argument(text@, separator),
{
    let fields = split(text, separator);
    assert(texts(fields@)[1] == fields@[1]@);
    fields[1].clone()
}

/// Asks every webview to bring a position into view. Coordinates that are left out are zero.
pub fn move_to(page_no: usize, x: Option<String>, y: Option<String>) -> (effect: WebviewEffect)
    ensures
        effect@ == WebviewEffectView::Broadcast(
            WebviewActorRequestView::ViewportPosition(
                DocumentPositionView {
                    page_no,
                    x: match x {
                        Some(x) => x@,
                        None => "0"@,
                    },
                    y: match y {
                        Some(y) => y@,
                        None => "0"@,
                    },
                },
            ),
        ),
{
    let x = match x {
        Some(x) => x,
        None => "0".to_owned(),
    };
    let y = match y {
        Some(y) => y,
        None => "0".to_owned(),
    };
    let position = DocumentPosition { page_no, x, y };
    WebviewEffect::Broadcast(WebviewActorRequest::ViewportPosition(position))
}

/// Takes a request to synchronise the outline.
fn take_outline_sync(text: &str) -> (effect: WebviewEffect)
    requires
        split_spec(text@, ',').len() > 1,
        are_position_fields(outline_fields(text@)),
    ensures
        effect@ == WebviewEffectView::Broadcast(
            WebviewActorRequestView::ViewportPosition(outline_position(text@)),
        ),
{
    let fields = split(second_field(text, ',').as_str(), ' ');
    let ghost views = texts(fields@);
    assert(forall|i: int| 0 <= i < fields@.len() ==> views[i] == #[trigger] fields@[i]@);
    let page_no: usize = parse_usize(fields[0].as_str()).unwrap();
    let x = if fields.len() > 1 {
        display_float(fields[1].as_str())
    } else {
        None
    };
    let y = if fields.len() > 2 {
        display_float(fields[2].as_str())
    } else {
        None
    };
    move_to(page_no, x, y)
}

/// Writes the answer to a message of raw bytes.
fn write_non_text_reply(bytes: &Vec<u8>) -> (reply: String)
    ensures
        reply@ == non_text_reply(bytes@),
{
    let mut list = String::new();
    let mut i: usize = 0;
    while i < bytes.len()
        invariant
            i <= bytes.len(),
            list@ == byte_list(bytes@.take(i as int)),
        decreases bytes.len() - i,
    {
        assert(bytes@.take(i + 1).drop_last() =~= bytes@.take(i as int));
        if i > 0 {
            list.append(", ");
        }
        list.append(decimal(bytes[i] as usize).as_str());
        assert(list@ =~= byte_list(bytes@.take(i + 1)));
        i += 1;
    }
    assert(bytes@.take(i as int) =~= bytes@);
    let mut reply = "Webview Actor: error, received non-text message: Binary([".to_owned();
    reply.append(list.as_str());
    reply.append("])");
    reply
}

/// The frame of a request whose argument is already written in JSON.
pub fn cursor_paths_frame(json: &str) -> (frame: String)
    ensures
        frame@ == "cursor-paths,"@ + json@,
{
    let mut frame = "cursor-paths,".to_owned();
    frame.append(json);
    frame
}

/// The actor that stands between a webview and the rest of the preview.
#[derive(Debug, PartialEq, Eq)]
pub struct WebviewActor {
    /// Where it is in its current step.
    pub phase: StepPhase,
}

impl WebviewActor {
    /// Makes the message that carries a request to the webview.
    pub fn handle_mailbox_message(msg: WebviewActorRequest) -> (sent: WsMessage)
        ensures
            sent@ == msg@.message(),
    {
        let frame = match msg {
            WebviewActorRequest::SrcToDocJump(jump_info) => positions_req("jump", &jump_info),
            WebviewActorRequest::ViewportPosition(jump_info) => {
                position_req("viewport", &jump_info)
            },
            WebviewActorRequest::CursorPaths(jump_info) => {
                cursor_paths_frame(write_cursor_paths(&jump_info).as_str())
            },
        };
        WsMessage::Binary(frame.as_str().as_bytes_vec())
    }

    /// Makes the message that carries a rendered document to the webview.
    pub fn handle_svg_receiver_message(svg: Vec<u8>) -> (sent: WsMessage)
        ensures
            sent@ == WsMessageView::Binary(svg@),
    {
        WsMessage::Binary(svg)
    }

    /// Reacts to what came from the webview.
    ///
    /// A request must have the argument that belongs to it.
    pub fn handle_websocket_message<E>(msg: Result<WsMessage, E>) -> (reaction: WebviewReaction)
        requires
            msg matches Ok(msg) ==> msg@.is_complete(),
        ensures
            reaction@ == websocket_reaction(received(msg)),
    {
        let msg = match msg {
            Ok(msg) => msg,
            Err(_) => {
                return WebviewReaction { effect: None, exit: true };
            },
        };
        let text = match msg {
            WsMessage::Text(text) => text,
            WsMessage::Binary(bytes) => {
                let reply = WsMessage::Text(write_non_text_reply(&bytes));
                return WebviewReaction { effect: Some(WebviewEffect::Send(reply)), exit: true };
            },
        };
        let text = text.as_str();
        let effect = match command(text) {
            WebviewCommand::Current => Some(
                WebviewEffect::Render(RenderActorRequest::RenderFullLatest),
            ),
            WebviewCommand::SrcLocation => {
                let span = trim(second_field(text, ' ').as_str());
                let request = DocToSrcJumpResolveRequest { span };
                Some(WebviewEffect::Edit(EditorActorRequest::DocToSrcJumpResolve(request)))
            },
            WebviewCommand::OutlineSync => Some(take_outline_sync(text)),
            WebviewCommand::SrcPath => {
                resolve_span(read_source_path(second_field(text, ' ').as_str()))
            },
            WebviewCommand::SrcPoint => {
                resolve_frame_loc(read_frame_loc(second_field(text, ' ').as_str()))
            },
            WebviewCommand::Unknown => {
                let mut reply = "error, received unknown message: ".to_owned();
                reply.append(text);
                let reply = WsMessage::Text(reply);
                return WebviewReaction { effect: Some(WebviewEffect::Send(reply)), exit: true };
            },
        };
        WebviewReaction { effect, exit: false }
    }
}

/// The actor stops exactly when the connection fails, or when a message is no text or makes no
/// known request. Whoever sent such a message is answered with a text, and for nothing else does
/// the actor answer on the connection.
pub proof fn lemma_websocket_exit(msg: Option<WsMessageView>)
    ensures
        websocket_reaction(msg).exit <==> match msg {
            None => true,
            Some(WsMessageView::Binary(_)) => true,
            Some(WsMessageView::Text(text)) => command_spec(text) is Unknown,
        },
        websocket_reaction(msg).effect == match msg {
            Some(WsMessageView::Binary(bytes)) => Some(
                WebviewEffectView::Send(WsMessageView::Text(non_text_reply(bytes))),
            ),
            Some(WsMessageView::Text(text)) if command_spec(text) is Unknown => Some(
                WebviewEffectView::Send(WsMessageView::Text(unknown_reply(text))),
            ),
            _ => websocket_reaction(msg).effect,
        },
        websocket_reaction(msg).effect matches Some(WebviewEffectView::Send(_))
            ==> websocket_reaction(msg).exit,
        websocket_reaction(msg).exit && msg is Some ==> websocket_reaction(
            msg,
        ).effect matches Some(WebviewEffectView::Send(WsMessageView::Text(_))),
{
}

/// The fields of the text of a position are its page and its coordinates.
pub proof fn lemma_position_fields(position: DocumentPositionView)
    requires
        position.is_plain(),
    ensures
        split_spec(position.text(), ' ') == seq![
            decimal_spec(position.page_no as nat),
            position.x,
            position.y,
        ],
{
    let page = decimal_spec(position.page_no as nat);
    lemma_decimal(position.page_no as nat);
    assert(!page.contains(' ')) by {
        if page.contains(' ') {
            let i = choose|i: int| 0 <= i < page.len() && page[i] == ' ';
            assert(is_digit_spec(page[i]));
        }
    }
    lemma_split_single(page, ' ');
    lemma_split_last(page, ' ', position.x);
    let start = page.push(' ') + position.x;
    lemma_split_last(start, ' ', position.y);
    assert(start.push(' ') + position.y =~= position.text());
    assert(split_spec(position.text(), ' ') =~= seq![page, position.x, position.y]);
}

/// When a webview tells where in the outline it moved to, every webview is told to bring that same
/// position into view, with its coordinates as they are displayed.
pub proof fn lemma_outline_sync(position: DocumentPositionView)
    requires
        is_float_spec(position.x),
        is_float_spec(position.y),
    ensures
        ({
            let text = "outline-sync,"@ + position.text();
            let shown = DocumentPositionView {
                page_no: position.page_no,
                x: displayed_float(position.x).unwrap(),
                y: displayed_float(position.y).unwrap(),
            };
            let request = WebviewActorRequestView::ViewportPosition(shown);
            &&& is_complete_spec(text)
            &&& text_reaction(text) == stay(Some(WebviewEffectView::Broadcast(request)))
            &&& request.frame() == "viewport,"@ + shown.text()
        }),
{
    let name = "outline-sync"@;
    let text = "outline-sync,"@ + position.text();
    reveal_strlit("outline-sync");
    reveal_strlit("outline-sync,");
    reveal_strlit("viewport");
    reveal_strlit("viewport,");
    reveal_strlit("current");
    reveal_strlit("srclocation");
    assert("outline-sync,"@ =~= name.push(','));
    assert("viewport,"@ =~= "viewport"@ + seq![',']);
    assert(text =~= name.push(',') + position.text());
    assert(text[0] == 'o');
    assert("current"@[0] == 'c');
    assert("srclocation"@[0] == 's');
    assert(name =~= text.subrange(0, name.len() as int));
    assert(!("srclocation"@.is_prefix_of(text))) by {
        if "srclocation"@.is_prefix_of(text) {
            assert(text.subrange(0, "srclocation"@.len() as int)[0] == 's');
        }
    }
    assert(command_spec(text) is OutlineSync);
    assert(!name.contains(','));
    lemma_split_single(name, ',');
    lemma_float_plain(position.x);
    lemma_float_plain(position.y);
    lemma_position_text_plain(position);
    lemma_split_last(name, ',', position.text());
    assert(argument(text, ',') == position.text());
    lemma_position_fields(position);
    lemma_parse_decimal(position.page_no);
    assert(outline_position(text).page_no == position.page_no);
}

/// A position whose coordinates are displayed numbers comes back unchanged to every webview when
/// one of them tells that it moved there.
pub proof fn lemma_outline_unchanged(position: DocumentPositionView)
    requires
        is_displayed(position.x),
        is_displayed(position.y),
    ensures
        ({
            let text = "outline-sync,"@ + position.text();
            let request = WebviewActorRequestView::ViewportPosition(position);
            &&& is_complete_spec(text)
            &&& position_req_spec("outline-sync"@, position) == text
            &&& websocket_reaction(Some(WsMessageView::Text(text))) == stay(
                Some(WebviewEffectView::Broadcast(request)),
            )
        }),
{
    lemma_outline_sync(position);
    reveal_strlit("outline-sync");
    reveal_strlit("outline-sync,");
    assert("outline-sync,"@ =~= "outline-sync"@ + seq![',']);
}

/// The frame of a jump holds, between its commas, the word `jump` and then the texts of all
/// positions in order, however many there are. That of no positions ends with the comma after the
/// word.
pub proof fn lemma_jump_frame(positions: Seq<DocumentPositionView>)
    requires
        forall|i: int| 0 <= i < positions.len() ==> (#[trigger] positions[i]).is_plain(),
    ensures
        ({
            let fields = split_spec(
                WebviewActorRequestView::SrcToDocJump(positions).frame(),
                ',',
            );
            &&& fields[0] == "jump"@
            &&& positions.len() > 0 ==> fields.len() == 1 + positions.len()
            &&& forall|i: int| #![trigger positions[i]]
                0 <= i < positions.len() ==> {
                    &&& fields[i + 1] == positions[i].text()
                    &&& split_spec(fields[i + 1], ' ') == seq![
                        decimal_spec(positions[i].page_no as nat),
                        positions[i].x,
                        positions[i].y,
                    ]
                }
            &&& positions.len() == 0 ==> fields == seq!["jump"@, Seq::empty()]
        }),
{
    reveal_strlit("jump");
    let frame = WebviewActorRequestView::SrcToDocJump(positions).frame();
    assert(!"jump"@.contains(','));
    if positions.len() > 0 {
        lemma_positions_req_fields("jump"@, positions);
        let fields = split_spec(frame, ',');
        assert forall|i: int| #![trigger positions[i]] 0 <= i < positions.len() implies {
            &&& fields[i + 1] == positions[i].text()
            &&& split_spec(fields[i + 1], ' ') == seq![
                decimal_spec(positions[i].page_no as nat),
                positions[i].x,
                positions[i].y,
            ]
        } by {
            lemma_position_fields(positions[i]);
        }
    } else {
        lemma_split_single("jump"@, ',');
        lemma_split_last("jump"@, ',', Seq::empty());
        assert(frame =~= "jump"@.push(',') + Seq::<char>::empty());
        assert(split_spec(frame, ',') =~= seq!["jump"@, Seq::empty()]);
    }
}

/// The frame of a position to bring into view holds, between its commas, the word `viewport` and
/// the text of the position.
pub proof fn lemma_viewport_frame(position: DocumentPositionView)
    requires
        position.is_plain(),
    ensures
        ({
            let fields = split_spec(
                WebviewActorRequestView::ViewportPosition(position).frame(),
                ',',
            );
            &&& fields == seq!["viewport"@, position.text()]
            &&& split_spec(fields[1], ' ') == seq![
                decimal_spec(position.page_no as nat),
                position.x,
                position.y,
            ]
        }),
{
    reveal_strlit("viewport");
    let frame = WebviewActorRequestView::ViewportPosition(position).frame();
    lemma_split_single("viewport"@, ',');
    lemma_position_text_plain(position);
    lemma_split_last("viewport"@, ',', position.text());
    assert(frame =~= "viewport"@.push(',') + position.text());
    assert(split_spec(frame, ',') =~= seq!["viewport"@, position.text()]);
    lemma_position_fields(position);
}

/// Whatever the coordinates are, the frame of a jump is its word, a comma and the texts of its
/// positions joined by commas, and that of a position to bring into view is its word, a comma and
/// the text of the position.
pub proof fn lemma_frames(positions: Seq<DocumentPositionView>, position: DocumentPositionView)
    ensures
        WebviewActorRequestView::SrcToDocJump(positions).frame() == "jump,"@ + join_spec(
            positions.map_values(|place: DocumentPositionView| place.text()),
            ',',
        ),
        WebviewActorRequestView::ViewportPosition(position).frame() == "viewport,"@
            + position.text(),
{
    reveal_strlit("jump");
    reveal_strlit("jump,");
    reveal_strlit("viewport");
    reveal_strlit("viewport,");
    assert("jump,"@ =~= "jump"@ + seq![',']);
    assert("viewport,"@ =~= "viewport"@ + seq![',']);
}

/// The frame of paths is the word `cursor-paths`, a comma and the paths in JSON. Every frame goes
/// out as its bytes in UTF-8.
pub proof fn lemma_cursor_frame(
    paths: Seq<Seq<(u32, u32, Seq<char>)>>,
    request: WebviewActorRequestView,
)
    ensures
        WebviewActorRequestView::CursorPaths(paths).frame() == "cursor-paths"@ + seq![',']
            + cursor_paths_json(paths),
        request.message() == WsMessageView::Binary(encode_utf8(request.frame())),
{
    reveal_strlit("cursor-paths");
    reveal_strlit("cursor-paths,");
    assert("cursor-paths,"@ =~= "cursor-paths"@ + seq![',']);
}

/// No two of the words with which requests begin are the beginning of one text.
proof fn lemma_words(text: Seq<char>)
    ensures
        text == "current"@ ==> !"srclocation"@.is_prefix_of(text) && !"outline-sync"@.is_prefix_of(
            text,
        ) && !"srcpath"@.is_prefix_of(text) && !"src-point"@.is_prefix_of(text),
        "srclocation"@.is_prefix_of(text) ==> !"outline-sync"@.is_prefix_of(text)
            && !"srcpath"@.is_prefix_of(text) && !"src-point"@.is_prefix_of(text),
        "outline-sync"@.is_prefix_of(text) ==> !"srcpath"@.is_prefix_of(text)
            && !"src-point"@.is_prefix_of(text),
        "srcpath"@.is_prefix_of(text) ==> !"src-point"@.is_prefix_of(text),
{
    reveal_strlit("current");
    reveal_strlit("srclocation");
    reveal_strlit("outline-sync");
    reveal_strlit("srcpath");
    reveal_strlit("src-point");
    if "srclocation"@.is_prefix_of(text) {
        assert(text.subrange(0, 11)[0] == 's' && text.subrange(0, 11)[3] == 'l');
    }
    if "outline-sync"@.is_prefix_of(text) {
        assert(text.subrange(0, 12)[0] == 'o');
    }
    if "srcpath"@.is_prefix_of(text) {
        assert(text.subrange(0, 7)[0] == 's' && text.subrange(0, 7)[3] == 'p');
    }
    if "src-point"@.is_prefix_of(text) {
        assert(text.subrange(0, 9)[0] == 's' && text.subrange(0, 9)[3] == '-');
    }
}

/// What a text asks for is told by the word with which it begins, whatever follows. Only the
/// request for the current document has nothing after its word.
pub proof fn lemma_commands(text: Seq<char>)
    ensures
        command_spec(text) is Current <==> text == "current"@,
        command_spec(text) is SrcLocation <==> "srclocation"@.is_prefix_of(text),
        command_spec(text) is OutlineSync <==> "outline-sync"@.is_prefix_of(text),
        command_spec(text) is SrcPath <==> "srcpath"@.is_prefix_of(text),
        command_spec(text) is SrcPoint <==> "src-point"@.is_prefix_of(text),
{
    lemma_words(text);
}

/// What the actor does with a text: it passes a request on to whom it concerns and goes on. The
/// argument is the field after the first space, or after the first comma for the outline.
/// Coordinates that are left out are zero. Where nothing can be read from the argument, nothing is
/// sent. A text that asks for nothing known is answered, and the actor stops.
pub proof fn lemma_text_reaction(text: Seq<char>)
    ensures
        text == "current"@ ==> text_reaction(text) == (WebviewReactionView {
            effect: Some(WebviewEffectView::Render(RenderActorRequestView::RenderFullLatest)),
            exit: false,
        }),
        "srclocation"@.is_prefix_of(text) ==> text_reaction(text) == (WebviewReactionView {
            effect: Some(
                WebviewEffectView::Edit(
                    EditorActorRequestView::DocToSrcJumpResolve(
                        trim_spec(split_spec(text, ' ')[1]),
                    ),
                ),
            ),
            exit: false,
        }),
        "outline-sync"@.is_prefix_of(text) ==> {
            let fields = split_spec(split_spec(text, ',')[1], ' ');
            text_reaction(text) == (WebviewReactionView {
                effect: Some(
                    WebviewEffectView::Broadcast(
                        WebviewActorRequestView::ViewportPosition(
                            DocumentPositionView {
                                page_no: parse_usize_spec(fields[0]).unwrap(),
                                x: if fields.len() >= 2 {
                                    displayed_float(fields[1]).unwrap()
                                } else {
                                    "0"@
                                },
                                y: if fields.len() >= 3 {
                                    displayed_float(fields[2]).unwrap()
                                } else {
                                    "0"@
                                },
                            },
                        ),
                    ),
                ),
                exit: false,
            })
        },
        "srcpath"@.is_prefix_of(text) ==> text_reaction(text) == (WebviewReactionView {
            effect: match source_path(split_spec(text, ' ')[1]) {
                Some(path) => Some(
                    WebviewEffectView::Render(RenderActorRequestView::WebviewResolveSpan(path)),
                ),
                None => None,
            },
            exit: false,
        }),
        "src-point"@.is_prefix_of(text) ==> text_reaction(text) == (WebviewReactionView {
            effect: match frame_loc(split_spec(text, ' ')[1]) {
                Some((page_no, x, y)) if page_no <= usize::MAX => Some(
                    WebviewEffectView::Render(
                        RenderActorRequestView::WebviewResolveFrameLoc(
                            DocumentPositionView { page_no: page_no as usize, x, y },
                        ),
                    ),
                ),
                _ => None,
            },
            exit: false,
        }),
        text != "current"@ && !"srclocation"@.is_prefix_of(text) && !"outline-sync"@.is_prefix_of(
            text,
        ) && !"srcpath"@.is_prefix_of(text) && !"src-point"@.is_prefix_of(text) ==> text_reaction(
            text,
        ) == (WebviewReactionView {
            effect: Some(
                WebviewEffectView::Send(
                    WsMessageView::Text("error, received unknown message: "@ + text),
                ),
            ),
            exit: true,
        }),
{
    lemma_words(text);
}

/// Requests are complete if they have the fields that their arguments are made of, and numbers
/// where numbers belong. Every other text is.
pub proof fn lemma_complete(text: Seq<char>)
    ensures
        is_complete_spec(text) <==> {
            &&& "srclocation"@.is_prefix_of(text) || "srcpath"@.is_prefix_of(text)
                || "src-point"@.is_prefix_of(text) ==> split_spec(text, ' ').len() >= 2
            &&& "outline-sync"@.is_prefix_of(text) ==> {
                let fields = split_spec(split_spec(text, ',')[1], ' ');
                &&& split_spec(text, ',').len() >= 2
                &&& parse_usize_spec(fields[0]) is Some
                &&& fields.len() >= 2 ==> is_float_spec(fields[1])
                &&& fields.len() >= 3 ==> is_float_spec(fields[2])
            }
        },
{
    lemma_words(text);
}

/// When the connection ends or fails, the actor stops without a word. Bytes are answered with their
/// list, and the actor stops. Texts are taken as requests.
pub proof fn lemma_websocket_reaction(bytes: Seq<u8>, text: Seq<char>)
    ensures
        websocket_reaction(None) == (WebviewReactionView { effect: None, exit: true }),
        websocket_reaction(Some(WsMessageView::Binary(bytes))) == (WebviewReactionView {
            effect: Some(
                WebviewEffectView::Send(
                    WsMessageView::Text(
                        "Webview Actor: error, received non-text message: Binary(["@ + byte_list(
                            bytes,
                        ) + "])"@,
                    ),
                ),
            ),
            exit: true,
        }),
        websocket_reaction(Some(WsMessageView::Text(text))) == text_reaction(text),
{
}

/// Bytes are listed as decimal numbers, with a comma and a space between two of them.
pub proof fn lemma_byte_list(first: u8, rest: Seq<u8>)
    ensures
        byte_list(Seq::empty()) == Seq::<char>::empty(),
        byte_list(seq![first]) == decimal_spec(first as nat),
        rest.len() > 0 ==> byte_list(seq![first] + rest) == decimal_spec(first as nat) + ", "@
            + byte_list(rest),
    decreases rest.len(),
{
    let bytes = seq![first] + rest;
    reveal_with_fuel(byte_list, 2);
    if rest.len() == 1 {
        assert(bytes.drop_last() =~= seq![first]);
    } else if rest.len() > 1 {
        lemma_byte_list(first, rest.drop_last());
        assert(bytes.drop_last() =~= seq![first] + rest.drop_last());
        assert(byte_list(bytes) =~= decimal_spec(first as nat) + ", "@ + byte_list(rest));
    }
}

/// Requests, effects and reactions say what they hold.
pub proof fn lemma_webview_views(
    request: WebviewActorRequest,
    render: RenderActorRequest,
    edit: EditorActorRequest,
    effect: WebviewEffect,
    reaction: WebviewReaction,
)
    ensures
        request@ == match request {
            WebviewActorRequest::ViewportPosition(place) => {
                WebviewActorRequestView::ViewportPosition(place@)
            },
            WebviewActorRequest::SrcToDocJump(places) => WebviewActorRequestView::SrcToDocJump(
                position_views(places@),
            ),
            WebviewActorRequest::CursorPaths(paths) => WebviewActorRequestView::CursorPaths(
                path_views(paths@),
            ),
        },
        render@ == match render {
            RenderActorRequest::RenderFullLatest => RenderActorRequestView::RenderFullLatest,
            RenderActorRequest::WebviewResolveSpan(span) => {
                RenderActorRequestView::WebviewResolveSpan(path_view(span.0@))
            },
            RenderActorRequest::WebviewResolveFrameLoc(place) => {
                RenderActorRequestView::WebviewResolveFrameLoc(place@)
            },
        },
        edit@ == match edit {
            EditorActorRequest::DocToSrcJumpResolve(jump) => {
                EditorActorRequestView::DocToSrcJumpResolve(jump.span@)
            },
        },
        effect@ == match effect {
            WebviewEffect::Send(msg) => WebviewEffectView::Send(msg@),
            WebviewEffect::Render(request) => WebviewEffectView::Render(request@),
            WebviewEffect::Edit(request) => WebviewEffectView::Edit(request@),
            WebviewEffect::Broadcast(request) => WebviewEffectView::Broadcast(request@),
        },
        reaction@.exit == reaction.exit,
        reaction@.effect is Some <==> reaction.effect is Some,
        reaction.effect matches Some(sent) ==> reaction@.effect == Some(sent@),
        effect_view(Some(effect)) == Some(effect@),
        effect_view(None) is None,
{
}

/// What was received is the message itself, and nothing where receiving failed.
pub proof fn lemma_received<E>(msg: WsMessage, err: E)
    ensures
        received(Ok::<WsMessage, E>(msg)) == Some(msg@),
        received(Err::<WsMessage, E>(err)) is None,
        WsMessageView::Binary(Seq::empty()).is_complete(),
        forall|bytes: Seq<u8>| #[trigger] WsMessageView::Binary(bytes).is_complete(),
        forall|text: Seq<char>| #[trigger]
            WsMessageView::Text(text).is_complete() == is_complete_spec(text),
{
}

/// The renderer is asked for the source of exactly the path or the position that could be read.
pub proof fn lemma_resolve(path: Seq<(u32, u32, Seq<char>)>, position: DocumentPositionView)
    ensures
        resolve_span_spec(Some(path)) == Some(
            WebviewEffectView::Render(RenderActorRequestView::WebviewResolveSpan(path)),
        ),
        resolve_span_spec(None) is None,
        resolve_frame_loc_spec(Some(position)) == Some(
            WebviewEffectView::Render(RenderActorRequestView::WebviewResolveFrameLoc(position)),
        ),
        resolve_frame_loc_spec(None) is None,
{
}

} // verus!
