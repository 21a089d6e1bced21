//! Positions in a document and the frames that carry them to a webview.

use vstd::prelude::*;
use vstd::string::*;

use crate::text::{decimal, decimal_spec, join_spec, lemma_decimal, lemma_split_join, split_spec};

verus! {

/// A position on a page of a document.
///
/// The coordinates are the texts in which the floating-point numbers of a position are displayed.
#[derive(Debug, Clone, PartialEq, Eq)]
pub struct DocumentPosition {
    /// The page, starting at 1.
    pub page_no: usize,
    /// The x-coordinate on the page, from the left.
    pub x: String,
    /// The y-coordinate on the page, from the top.
    pub y: String,
}

/// What a [`DocumentPosition`] says.
pub struct DocumentPositionView {
    pub page_no: usize,
    pub x: Seq<char>,
    pub y: Seq<char>,
}

impl View for DocumentPosition {
    type V = DocumentPositionView;

    open spec fn view(&self) -> DocumentPositionView {
        DocumentPositionView { page_no: self.page_no, x: self.x@, y: self.y@ }
    }
}

impl DocumentPositionView {
    /// The page and the coordinates, separated by spaces.
    pub open spec fn text(self) -> Seq<char> {
        decimal_spec(self.page_no as nat) + seq![' '] + self.x + seq![' '] + self.y
    }

    /// Whether the coordinates are free of the characters that separate fields.
    pub open spec fn is_plain(self) -> bool {
        &&& !self.x.contains(' ') && !self.x.contains(',')
        &&& !self.y.contains(' ') && !self.y.contains(',')
    }
}

/// What the positions of a list say.
pub open spec fn position_views(positions: Seq<DocumentPosition>) -> Seq<DocumentPositionView> {
    positions.map_values(|position: DocumentPosition| position@)
}

/// The texts of the positions of a list.
pub open spec fn position_texts(positions: Seq<DocumentPositionView>) -> Seq<Seq<char>> {
    positions.map_values(|position: DocumentPositionView| position.text())
}

/// The frame that carries one position.
pub open spec fn position_req_spec(event: Seq<char>, position: DocumentPositionView) -> Seq<char> {
    event + seq![','] + position.text()
}

/// The frame that carries a list of positions.
pub open spec fn positions_req_spec(
    event: Seq<char>,
    positions: Seq<DocumentPositionView>,
) -> Seq<char> {
    event + seq![','] + join_spec(position_texts(positions), ',')
}

impl DocumentPosition {
    /// Writes the page and the coordinates, separated by spaces.
    pub fn text(&self) -> (text: String)
        ensures
            text@ == self@.text(),
    {
        let mut text = decimal(self.page_no);
        text.push(' ');
        text.append(self.x.as_str());
        text.push(' ');
        text.append(self.y.as_str());
        assert(text@ =~= self@.text());
        text
    }
}

/// Writes the frame that carries one position.
pub fn position_req(event: &str, position: &DocumentPosition) -> (frame: String)
    ensures
        frame@ == position_req_spec(event@, position@),
{
    let mut frame = event.to_owned();
    frame.push(',');
    frame.append(position.text().as_str());
    assert(frame@ =~= position_req_spec(event@, position@));
    frame
}

/// Writes the frame that carries a list of positions.
pub fn positions_req(event: &str, positions: &Vec<DocumentPosition>) -> (frame: String)
    ensures
        frame@ == positions_req_spec(event@, position_views(positions@)),
{
    let ghost parts = position_texts(position_views(positions@));
    let mut list = String::new();
    let mut i: usize = 0;
    while i < positions.len()
        invariant
            i <= positions.len(),
            parts == position_texts(position_views(positions@)),
            list@ == join_spec(parts.take(i as int), ','),
        decreases positions.len() - i,
    {
        assert(parts.take(i + 1).drop_last() =~= parts.take(i as int));
        if i > 0 {
            list.push(',');
        }
        list.append(positions[i].text().as_str());
        assert(list@ =~= join_spec(parts.take(i + 1), ','));
        i += 1;
    }
    assert(parts.take(i as int) =~= parts);
    let mut frame = event.to_owned();
    frame.push(',');
    frame.append(list.as_str());
    assert(frame@ =~= positions_req_spec(event@, position_views(positions@)));
    frame
}

/// A list of one position goes out in the same frame as the position alone.
pub proof fn lemma_positions_req_single(event: Seq<char>, position: DocumentPositionView)
    ensures
        positions_req_spec(event, seq![position]) == position_req_spec(event, position),
{
    assert(position_texts(seq![position]) =~= seq![position.text()]);
}

/// The text of a position holds no comma where its coordinates hold none.
pub proof fn lemma_position_text_plain(position: DocumentPositionView)
    requires
        position.is_plain(),
    ensures
        !position.text().contains(','),
{
    let page = decimal_spec(position.page_no as nat);
    lemma_decimal(position.page_no as nat);
    let text = position.text();
    assert forall|i: int| 0 <= i < text.len() implies text[i] != ',' by {
        let n = page.len() as int;
        let m = n + 1 + position.x.len();
        if i < n {
            assert(text[i] == page[i]);
        } else if n < i < m {
            assert(text[i] == position.x[i - n - 1]);
            assert(position.x.contains(text[i]));
        } else if m < i {
            assert(text[i] == position.y[i - m - 1]);
            assert(position.y.contains(text[i]));
        }
    }
}

/// The receiver of a frame finds the event and every position in it: they are the fields between
/// the commas.
pub proof fn lemma_positions_req_fields(event: Seq<char>, positions: Seq<DocumentPositionView>)
    requires
        !event.contains(','),
        positions.len() > 0,
        forall|i: int| 0 <= i < positions.len() ==> (#[trigger] positions[i]).is_plain(),
    ensures
        split_spec(positions_req_spec(event, positions), ',') == seq![event] + position_texts(
            positions,
        ),
{
    let texts = position_texts(positions);
    let parts = seq![event] + texts;
    assert forall|i: int| 0 <= i < parts.len() implies !(#[trigger] parts[i]).contains(',') by {
        if i > 0 {
            assert(parts[i] == positions[i - 1].text());
            lemma_position_text_plain(positions[i - 1]);
        }
    }
    lemma_split_join(parts, ',');
    lemma_join_first(event, texts);
}

/// Joining a list after a first part puts the part and a separator before the joined list.
proof fn lemma_join_first(first: Seq<char>, rest: Seq<Seq<char>>)
    requires
        rest.len() > 0,
    ensures
        join_spec(seq![first] + rest, ',') == first + seq![','] + join_spec(rest, ','),
    decreases rest.len(),
{
    let parts = seq![first] + rest;
    if rest.len() == 1 {
        assert(parts.drop_last() =~= seq![first]);
        assert(join_spec(seq![first], ',') == first);
        assert(join_spec(parts, ',') =~= first + seq![','] + rest[0]);
    } else {
        lemma_join_first(first, rest.drop_last());
        assert(parts.drop_last() =~= seq![first] + rest.drop_last());
        assert(join_spec(parts, ',') =~= first + seq![','] + join_spec(rest, ','));
    }
}

/// A point on the element tree.
#[derive(Debug, Clone, PartialEq, Eq)]
pub struct ElementPoint {
    /// The element kind.
    pub kind: u32,
    /// The index of the element.
    pub index: u32,
    /// The fingerprint of the element.
    pub fingerprint: String,
}

impl View for ElementPoint {
    type V = (u32, u32, Seq<char>);

    open spec fn view(&self) -> (u32, u32, Seq<char>) {
        (self.kind, self.index, self.fingerprint@)
    }
}

/// What the points of a path say.
pub open spec fn path_view(path: Seq<ElementPoint>) -> Seq<(u32, u32, Seq<char>)> {
    path.map_values(|point: ElementPoint| point@)
}

/// What the paths of a list say.
pub open spec fn path_views(paths: Seq<Vec<ElementPoint>>) -> Seq<Seq<(u32, u32, Seq<char>)>> {
    paths.map_values(|path: Vec<ElementPoint>| path_view(path@))
}

/// What the triples of a path say.
pub open spec fn triple_views(path: Seq<(u32, u32, String)>) -> Seq<(u32, u32, Seq<char>)> {
    path.map_values(|point: (u32, u32, String)| (point.0, point.1, point.2@))
}

/// Makes the points of a path from triples of kind, index and fingerprint.
pub fn element_points(path: Vec<(u32, u32, String)>) -> (points: Vec<ElementPoint>)
    ensures
        path_view(points@) == triple_views(path@),
{
    let mut points: Vec<ElementPoint> = Vec::new();
    let mut i: usize = 0;
    while i < path.len()
        invariant
            i <= path.len(),
            path_view(points@) == triple_views(path@).take(i as int),
        decreases path.len() - i,
    {
        let ghost done = path_view(points@);
        points.push(
            ElementPoint { kind: path[i].0, index: path[i].1, fingerprint: path[i].2.clone() },
        );
        assert(path_view(points@) =~= done.push(triple_views(path@)[i as int]));
        assert(triple_views(path@).take(i + 1) =~= done.push(triple_views(path@)[i as int]));
        i += 1;
    }
    assert(triple_views(path@).take(i as int) =~= triple_views(path@));
    points
}

/// The JSON text of a list of paths.
pub uninterp spec fn cursor_paths_json(paths: Seq<Seq<(u32, u32, Seq<char>)>>) -> Seq<char>;

/// Calls `serde_json::to_string` on the paths, made of `reflexo::debug_loc::ElementPoint`.
///
/// The result is a function of the paths alone. Writing numbers and strings into a string does
/// not fail.
#[verifier::external_body]
pub(crate) fn write_cursor_paths(paths: &Vec<Vec<ElementPoint>>) -> (json: String)
    ensures
        json@ == cursor_paths_json(path_views(paths@)),
{
    let point = |p: &ElementPoint| (p.kind, p.index, p.fingerprint.clone()).into();
    let paths: Vec<Vec<reflexo::debug_loc::ElementPoint>> =
        paths.iter().map(|path| path.iter().map(point).collect()).collect();
    serde_json::to_string(&paths).unwrap()
}

/// The path that a JSON text describes: a list of triples of kind, index and fingerprint.
pub uninterp spec fn source_path(json: Seq<char>) -> Option<Seq<(u32, u32, Seq<char>)>>;

/// Calls `serde_json::from_str` for a list of triples.
///
/// The result is a function of the text alone, nothing where the text is no such list.
#[verifier::external_body]
pub(crate) fn read_source_path(json: &str) -> (path: Option<Vec<(u32, u32, String)>>)
    ensures
        match path {
            Some(path) => source_path(json@) == Some(triple_views(path@)),
            None => source_path(json@) is None,
        },
{
    serde_json::from_str(json).ok()
}

/// The position that a JSON text describes: a page number below 2^64 and the two coordinates, as
/// they are written.
pub uninterp spec fn frame_loc(json: Seq<char>) -> Option<(u64, Seq<char>, Seq<char>)>;

/// The position that a JSON text describes, if the page number fits.
pub open spec fn frame_loc_position(json: Seq<char>) -> Option<DocumentPositionView> {
    match frame_loc(json) {
        Some((page_no, x, y)) => if page_no <= usize::MAX {
            Some(DocumentPositionView { page_no: page_no as usize, x, y })
        } else {
            None
        },
        None => None,
    }
}

/// Calls `serde_json::from_str` for a `reflexo::debug_loc::DocumentPosition`.
///
/// The result is a function of the text and of the size of a `usize`, nothing where the text is
/// no position or the page number does not fit. The coordinates come out as they are displayed.
#[verifier::external_body]
pub(crate) fn read_frame_loc(json: &str) -> (position: Option<DocumentPosition>)
    ensures
        match position {
            Some(position) => frame_loc(json@) == Some(
                (position.page_no as u64, position.x@, position.y@),
            ),
            None => frame_loc(json@) matches Some(loc) ==> loc.0 > usize::MAX,
        },
{
    let position: reflexo::debug_loc::DocumentPosition = serde_json::from_str(json).ok()?;
    Some(
        DocumentPosition {
            page_no: position.page_no,
            x: position.x.to_string(),
            y: position.y.to_string(),
        },
    )
}

/// The text of a position is its page in decimal notation and its coordinates as they are, with one
/// space between two of them.
pub proof fn lemma_position_text(position: DocumentPositionView)
    ensures
        position.text() == decimal_spec(position.page_no as nat) + " "@ + position.x + " "@
            + position.y,
{
    reveal_strlit(" ");
    assert(" "@ =~= seq![' ']);
}

/// The frame of one position is the event, a comma and the text of the position. That of a list is
/// the event, a comma and the texts of all positions in order, joined by commas.
pub proof fn lemma_req(
    event: Seq<char>,
    position: DocumentPositionView,
    positions: Seq<DocumentPositionView>,
)
    ensures
        position_req_spec(event, position) == event + ","@ + position.text(),
        positions_req_spec(event, positions) == event + ","@ + join_spec(
            positions.map_values(|place: DocumentPositionView| place.text()),
            ',',
        ),
{
    reveal_strlit(",");
    assert(","@ =~= seq![',']);
}

/// A position says its page and its coordinates, a point its kind, index and fingerprint, and a
/// list what each of its members says, in order.
pub proof fn lemma_position_views(
    positions: Seq<DocumentPosition>,
    paths: Seq<Vec<ElementPoint>>,
    path: Seq<ElementPoint>,
    triples: Seq<(u32, u32, String)>,
)
    ensures
        position_views(positions) == positions.map_values(
            |place: DocumentPosition|
                DocumentPositionView { page_no: place.page_no, x: place.x@, y: place.y@ },
        ),
        path_view(path) == path.map_values(
            |point: ElementPoint| (point.kind, point.index, point.fingerprint@),
        ),
        path_views(paths) == paths.map_values(
            |path: Vec<ElementPoint>|
                path@.map_values(
                    |point: ElementPoint| (point.kind, point.index, point.fingerprint@),
                ),
        ),
        triple_views(triples) == triples.map_values(
            |point: (u32, u32, String)| (point.0, point.1, point.2@),
        ),
{
    assert(position_views(positions) =~= positions.map_values(
        |place: DocumentPosition|
            DocumentPositionView { page_no: place.page_no, x: place.x@, y: place.y@ },
    ));
    assert(path_view(path) =~= path.map_values(
        |point: ElementPoint| (point.kind, point.index, point.fingerprint@),
    ));
    assert forall|i: int| #![trigger paths[i]] 0 <= i < paths.len() implies path_views(paths)[i]
        == paths[i]@.map_values(
        |point: ElementPoint| (point.kind, point.index, point.fingerprint@),
    ) by {
        assert(path_view(paths[i]@) =~= paths[i]@.map_values(
            |point: ElementPoint| (point.kind, point.index, point.fingerprint@),
        ));
    }
    assert(path_views(paths) =~= paths.map_values(
        |path: Vec<ElementPoint>|
            path@.map_values(|point: ElementPoint| (point.kind, point.index, point.fingerprint@)),
    ));
}

} // verus!
