//! Which pages and web pages can be written as SVG and HTML without fail.
//!
//! The writers panic on some documents: where a gradient or a tiling is laid over a transform that
//! cannot be inverted or has stops that cannot be sampled, where the SVG glyphs of a font are
//! malformed, where pixels cannot be encoded. A plain document has none of what these faults need.

use typst::html::HtmlNode;
use typst::layout::FrameItem;
use typst::visualize::{ImageKind, Paint, RasterFormat};
use vstd::prelude::*;

use crate::message::{fits_base64, fits_base64_spec};

verus! {

/// What is drawn on a page.
#[verifier::external_type_specification]
#[verifier::external_body]
pub struct ExFrame(typst::layout::Frame);

/// A run of shaped text.
#[verifier::external_type_specification]
#[verifier::external_body]
pub struct ExTextItem(typst::text::TextItem);

/// A loaded image.
#[verifier::external_type_specification]
#[verifier::external_body]
pub struct ExImage(typst::visualize::Image);

/// An element of a web page.
#[verifier::external_type_specification]
#[verifier::external_body]
pub struct ExHtmlElement(typst::html::HtmlElement);

/// Something that is drawn.
pub enum Drawing {
    /// Several things in one.
    Group(Vec<Drawing>),
    /// A run of text.
    Text(typst::text::TextItem),
    /// A shape. Whether its fill is a solid color, and whether its stroke is, as far as it has
    /// them.
    Shape { fill: Option<bool>, stroke: Option<bool> },
    /// An image.
    Image(typst::visualize::Image),
    /// A place to click at.
    Link,
    /// A mark that is not seen.
    Tag,
}

/// What is drawn in a frame, in order.
pub uninterp spec fn frame_drawings(frame: typst::layout::Frame) -> Seq<Drawing>;

/// Converts the items of a `typst::layout::Frame`, each to what stands for its variant, and those
/// of the frames inside likewise.
///
/// The result is a function of the frame. It tells `Paint::Solid` from the other paints.
#[verifier::external_body]
fn read_frame(frame: &typst::layout::Frame) -> (drawings: Vec<Drawing>)
    ensures
        drawings@ == frame_drawings(*frame),
{
    let solid = |paint: &Paint| matches!(paint, Paint::Solid(_));
    frame.items().map(|(_, item)| match item {
        FrameItem::Group(group) => Drawing::Group(read_frame(&group.frame)),
        FrameItem::Text(text) => Drawing::Text(text.clone()),
        FrameItem::Shape(shape, _) => Drawing::Shape {
            fill: shape.fill.as_ref().map(solid),
            stroke: shape.stroke.as_ref().map(|stroke| solid(&stroke.paint)),
        },
        FrameItem::Image(image, ..) => Drawing::Image(image.clone()),
        FrameItem::Link(..) => Drawing::Link,
        FrameItem::Tag(_) => Drawing::Tag,
    }).collect()
}

/// The background of a page, whether it is a solid color, and what is drawn on the page.
pub uninterp spec fn page_drawings(page: typst::layout::Page) -> (Option<bool>, Seq<Drawing>);

/// Calls `fill_or_white` of a `typst::layout::Page`, and converts the items of its frame.
///
/// The result is a function of the page. It tells `Paint::Solid` from the other paints.
#[verifier::external_body]
fn read_page(page: &typst::layout::Page) -> (drawn: (Option<bool>, Vec<Drawing>))
    ensures
        (drawn.0, drawn.1@) == page_drawings(*page),
{
    let background = page.fill_or_white();
    (
        background.map(|paint| matches!(paint, Paint::Solid(_))),
        read_frame(&page.frame),
    )
}

/// The paints of a run of text, and what its font holds.
pub struct TextFacts {
    /// Whether the letters are filled with a solid color.
    pub fill: bool,
    /// Whether their outlines are drawn with a solid color, if they are drawn.
    pub stroke: Option<bool>,
    /// Whether the font has each of the tables in which glyphs are images.
    pub images: Vec<bool>,
}

/// What a [`TextFacts`] says.
pub struct TextFactsView {
    pub fill: bool,
    pub stroke: Option<bool>,
    pub images: Seq<bool>,
}

impl View for TextFacts {
    type V = TextFactsView;

    open spec fn view(&self) -> TextFactsView {
        TextFactsView { fill: self.fill, stroke: self.stroke, images: self.images@ }
    }
}

/// The paints of a run of text, and what its font holds.
pub uninterp spec fn text_facts(text: typst::text::TextItem) -> TextFactsView;

/// Takes the paints of a `typst::text::TextItem` and, with `tables` of the face of its font, which
/// image tables there are: `svg`, `sbix`, `bdat`, `ebdt` and `cbdt`, in which the face looks for
/// glyphs.
///
/// The result is a function of the text. It tells `Paint::Solid` from the other paints.
#[verifier::external_body]
fn read_text(text: &typst::text::TextItem) -> (facts: TextFacts)
    ensures
        facts@ == text_facts(*text),
{
    let tables = text.font.ttf().tables();
    let (svg, sbix) = (tables.svg.is_some(), tables.sbix.is_some());
    let (bdat, ebdt, cbdt) = (tables.bdat.is_some(), tables.ebdt.is_some(), tables.cbdt.is_some());
    let solid = |paint: &Paint| matches!(paint, Paint::Solid(_));
    let stroke = text.stroke.as_ref().map(|stroke| solid(&stroke.paint));
    TextFacts { fill: solid(&text.fill), stroke, images: vec![svg, sbix, bdat, ebdt, cbdt] }
}

/// The bounding box of each glyph in a run of text, if it has an outline: left, bottom, right and
/// top.
pub uninterp spec fn glyph_boxes(text: typst::text::TextItem) -> Seq<
    Option<(i16, i16, i16, i16)>,
>;

/// Calls `glyph_bounding_box` of the face of the font of a `typst::text::TextItem`, for each of its
/// glyphs.
///
/// The result is a function of the text.
#[verifier::external_body]
fn read_boxes(text: &typst::text::TextItem) -> (boxes: Vec<Option<(i16, i16, i16, i16)>>)
    ensures
        boxes@ == glyph_boxes(*text),
{
    let face = text.font.ttf();
    let mut id = face.glyph_index(' ').unwrap_or_default();
    text.glyphs.iter().map(|glyph| {
        id.0 = glyph.id;
        face.glyph_bounding_box(id).map(|r| (r.x_min, r.y_min, r.x_max, r.y_max))
    }).collect()
}

/// The number of bytes in the file of an image. There is no file where the image was made of
/// pixels.
pub uninterp spec fn image_bytes(image: typst::visualize::Image) -> Option<usize>;

/// Calls `kind` of a `typst::visualize::Image`, and `data` of what it gives, unless that is a
/// raster image whose `format` is `RasterFormat::Pixel`.
///
/// The result is a function of the image.
#[verifier::external_body]
fn read_image(image: &typst::visualize::Image) -> (bytes: Option<usize>)
    ensures
        bytes == image_bytes(*image),
{
    match image.kind() {
        ImageKind::Raster(raster) => match raster.format() {
            RasterFormat::Exchange(_) => Some(raster.data().len()),
            RasterFormat::Pixel(_) => None,
        },
        ImageKind::Svg(svg) => Some(svg.data().len()),
    }
}

/// Whether a paint, if there is one, is a solid color.
pub open spec fn is_solid(paint: Option<bool>) -> bool {
    paint != Some(false)
}

/// Whether the sides of a box, if there is one, are short enough for their type.
pub open spec fn is_measurable(bounds: Option<(i16, i16, i16, i16)>) -> bool {
    bounds matches Some((left, bottom, right, top)) ==> {
        &&& i16::MIN <= right - left <= i16::MAX
        &&& i16::MIN <= top - bottom <= i16::MAX
    }
}

/// Whether text is plain: in solid colors, and without images as glyphs.
pub open spec fn is_plain_text(facts: TextFactsView) -> bool {
    &&& facts.fill
    &&& is_solid(facts.stroke)
    &&& forall|i: int| 0 <= i < facts.images.len() ==> !#[trigger] facts.images[i]
}

/// Whether the glyphs of a text are measurable.
pub open spec fn are_measurable(boxes: Seq<Option<(i16, i16, i16, i16)>>) -> bool {
    forall|i: int| 0 <= i < boxes.len() ==> is_measurable(#[trigger] boxes[i])
}

/// Whether an image is plain: it has a file, and that is small enough to be encoded.
pub open spec fn is_plain_image(bytes: Option<usize>) -> bool {
    bytes matches Some(bytes) && fits_base64_spec(bytes as nat)
}

/// Whether what is drawn is plain from an index on: only groups of plain things, plain text, plain
/// images, shapes in solid colors, and what is not seen.
pub open spec fn are_plain(drawings: Seq<Drawing>, start: int) -> bool
    decreases drawings, drawings.len() - start,
{
    0 <= start < drawings.len() ==> {
        &&& match drawings[start] {
            Drawing::Group(inner) => are_plain(inner@, 0),
            Drawing::Text(text) => {
                is_plain_text(text_facts(text)) && are_measurable(glyph_boxes(text))
            },
            Drawing::Shape { fill, stroke } => is_solid(fill) && is_solid(stroke),
            Drawing::Image(image) => is_plain_image(image_bytes(image)),
            Drawing::Link | Drawing::Tag => true,
        }
        &&& are_plain(drawings, start + 1)
    }
}

/// Whether a page is plain: what is drawn on it is, and its background is a solid color.
pub open spec fn is_plain_page(page: typst::layout::Page) -> bool {
    is_solid(page_drawings(page).0) && are_plain(page_drawings(page).1, 0)
}

/// Whether the pages of a list are plain.
pub open spec fn are_plain_pages(pages: Seq<typst::layout::Page>) -> bool {
    forall|i: int| 0 <= i < pages.len() ==> is_plain_page(#[trigger] pages[i])
}

/// Finds out whether a paint, if there is one, is a solid color.
fn check_solid(paint: Option<bool>) -> (yes: bool)
    ensures
        yes == is_solid(paint),
{
    match paint {
        Some(solid) => solid,
        None => true,
    }
}

/// Finds out whether text is plain.
fn check_text(facts: &TextFacts) -> (yes: bool)
    ensures
        yes == is_plain_text(facts@),
{
    if !facts.fill || !check_solid(facts.stroke) {
        return false;
    }
    let mut i: usize = 0;
    while i < facts.images.len()
        invariant
            i <= facts.images.len(),
            forall|k: int| 0 <= k < i ==> !#[trigger] facts.images@[k],
        decreases facts.images.len() - i,
    {
        if facts.images[i] {
            assert(facts@.images[i as int]);
            return false;
        }
        i += 1;
    }
    true
}

/// Finds out whether the glyphs of a text are measurable.
fn check_boxes(boxes: &Vec<Option<(i16, i16, i16, i16)>>) -> (yes: bool)
    ensures
        yes == are_measurable(boxes@),
{
    let mut i: usize = 0;
    while i < boxes.len()
        invariant
            i <= boxes.len(),
            forall|k: int| 0 <= k < i ==> is_measurable(#[trigger] boxes@[k]),
        decreases boxes.len() - i,
    {
        if let Some((left, bottom, right, top)) = boxes[i] {
            let width: i32 = right as i32 - left as i32;
            let height: i32 = top as i32 - bottom as i32;
            if width < -0x8000 || width > 0x7fff || height < -0x8000 || height > 0x7fff {
                assert(!is_measurable(boxes@[i as int]));
                return false;
            }
        }
        i += 1;
    }
    true
}

/// Finds out whether an image is plain.
fn check_image(bytes: Option<usize>) -> (yes: bool)
    ensures
        yes == is_plain_image(bytes),
{
    match bytes {
        Some(bytes) => fits_base64(bytes),
        None => false,
    }
}

/// Finds out whether what is drawn is plain from an index on.
fn check_drawings(drawings: &Vec<Drawing>, start: usize) -> (yes: bool)
    requires
        start <= drawings@.len(),
    ensures
        yes == are_plain(drawings@, start as int),
    decreases drawings@, drawings@.len() - start,
{
    if start == drawings.len() {
        return true;
    }
    let plain = match &drawings[start] {
        Drawing::Group(inner) => check_drawings(inner, 0),
        Drawing::Text(text) => check_text(&read_text(text)) && check_boxes(&read_boxes(text)),
        Drawing::Shape { fill, stroke } => check_solid(*fill) && check_solid(*stroke),
        Drawing::Image(image) => check_image(read_image(image)),
        Drawing::Link | Drawing::Tag => true,
    };
    plain && check_drawings(drawings, start + 1)
}

/// Finds out whether a page is plain.
pub fn check_page(page: &typst::layout::Page) -> (yes: bool)
    ensures
        yes == is_plain_page(*page),
{
    let (background, drawings) = read_page(page);
    check_solid(background) && check_drawings(&drawings, 0)
}

/// Finds out whether the pages of a list are plain.
pub fn check_pages(pages: &Vec<typst::layout::Page>) -> (yes: bool)
    ensures
        yes == are_plain_pages(pages@),
{
    let mut i: usize = 0;
    while i < pages.len()
        invariant
            i <= pages.len(),
            forall|k: int| 0 <= k < i ==> is_plain_page(#[trigger] pages@[k]),
        decreases pages.len() - i,
    {
        if !check_page(&pages[i]) {
            return false;
        }
        i += 1;
    }
    true
}

/// Something in a web page.
pub enum HtmlPart {
    /// An element with what is in it.
    Element(Vec<HtmlPart>),
    /// A drawing.
    Frame(typst::layout::Frame),
    /// A text.
    Text,
    /// A mark that is not seen.
    Tag,
}

/// The root element of a web page.
pub uninterp spec fn html_root(document: typst::html::HtmlDocument) -> typst::html::HtmlElement;

/// Gives the field `root` of a `typst::html::HtmlDocument`: its root element.
#[verifier::external_body]
fn read_root(document: &typst::html::HtmlDocument) -> (root: &typst::html::HtmlElement)
    ensures
        *root == html_root(*document),
{
    &document.root
}

/// What is in an element of a web page, in order.
pub uninterp spec fn html_parts(element: typst::html::HtmlElement) -> Seq<HtmlPart>;

/// Converts the children of a `typst::html::HtmlElement`, each to what stands for its variant, and
/// those of the elements inside likewise.
///
/// The result is a function of the element.
#[verifier::external_body]
fn read_element(element: &typst::html::HtmlElement) -> (parts: Vec<HtmlPart>)
    ensures
        parts@ == html_parts(*element),
{
    element.children.iter().map(|node| match node {
        HtmlNode::Element(inner) => HtmlPart::Element(read_element(inner)),
        HtmlNode::Frame(frame) => HtmlPart::Frame(frame.clone()),
        HtmlNode::Text(..) => HtmlPart::Text,
        HtmlNode::Tag(_) => HtmlPart::Tag,
    }).collect()
}

/// Whether the drawings in a part of a web page are plain, from an index on.
pub open spec fn are_plain_parts(parts: Seq<HtmlPart>, start: int) -> bool
    decreases parts, parts.len() - start,
{
    0 <= start < parts.len() ==> {
        &&& match parts[start] {
            HtmlPart::Element(inner) => are_plain_parts(inner@, 0),
            HtmlPart::Frame(frame) => are_plain(frame_drawings(frame), 0),
            HtmlPart::Text | HtmlPart::Tag => true,
        }
        &&& are_plain_parts(parts, start + 1)
    }
}

/// Whether the drawings in a web page are plain.
pub open spec fn is_plain_html(document: typst::html::HtmlDocument) -> bool {
    are_plain_parts(html_parts(html_root(document)), 0)
}

/// Finds out whether the drawings in a part of a web page are plain, from an index on.
fn check_parts(parts: &Vec<HtmlPart>, start: usize) -> (yes: bool)
    requires
        start <= parts@.len(),
    ensures
        yes == are_plain_parts(parts@, start as int),
    decreases parts@, parts@.len() - start,
{
    if start == parts.len() {
        return true;
    }
    let plain = match &parts[start] {
        HtmlPart::Element(inner) => check_parts(inner, 0),
        HtmlPart::Frame(frame) => check_drawings(&read_frame(frame), 0),
        HtmlPart::Text | HtmlPart::Tag => true,
    };
    plain && check_parts(parts, start + 1)
}

/// Finds out whether the drawings in a web page are plain.
pub fn check_html(document: &typst::html::HtmlDocument) -> (yes: bool)
    ensures
        yes == is_plain_html(*document),
{
    check_parts(&read_element(read_root(document)), 0)
}

/// What is drawn is plain from an index on exactly if everything from there on is: a group if all
/// in it is, text if its paints are solid colors, its font has no images for glyphs and its glyphs
/// are small enough, a shape if its paints are solid colors, and an image if it has a file that can
/// be encoded. What is not seen always is.
pub proof fn lemma_plain_drawings(drawings: Seq<Drawing>, start: int)
    requires
        0 <= start <= drawings.len(),
    ensures
        are_plain(drawings, start) <==> forall|i: int| #![trigger drawings[i]]
            start <= i < drawings.len() ==> match drawings[i] {
                Drawing::Group(inner) => are_plain(inner@, 0),
                Drawing::Text(text) => {
                    &&& text_facts(text).fill
                    &&& text_facts(text).stroke != Some(false)
                    &&& forall|k: int|
                        0 <= k < text_facts(text).images.len()
                            ==> !#[trigger] text_facts(text).images[k]
                    &&& forall|k: int| #![trigger glyph_boxes(text)[k]]
                        0 <= k < glyph_boxes(text).len() ==> (
                        glyph_boxes(text)[k] matches Some((left, bottom, right, top)) ==> {
                            &&& i16::MIN <= right - left <= i16::MAX
                            &&& i16::MIN <= top - bottom <= i16::MAX
                        })
                },
                Drawing::Shape { fill, stroke } => fill != Some(false) && stroke != Some(false),
                Drawing::Image(image) => {
                    &&& image_bytes(image) matches Some(bytes)
                    &&& fits_base64_spec(bytes as nat)
                },
                Drawing::Link | Drawing::Tag => true,
            },
    decreases drawings.len() - start,
{
    if start < drawings.len() {
        lemma_plain_drawings(drawings, start + 1);
    }
}

/// The drawings of a web page are plain from an index on exactly if those of every part from there
/// on are. A page is plain if its background is a solid color or none, and all that is drawn on it
/// is.
pub proof fn lemma_plain_parts(parts: Seq<HtmlPart>, start: int, page: typst::layout::Page)
    requires
        0 <= start <= parts.len(),
    ensures
        are_plain_parts(parts, start) <==> forall|i: int| #![trigger parts[i]]
            start <= i < parts.len() ==> match parts[i] {
                HtmlPart::Element(inner) => are_plain_parts(inner@, 0),
                HtmlPart::Frame(frame) => are_plain(frame_drawings(frame), 0),
                HtmlPart::Text | HtmlPart::Tag => true,
            },
        is_plain_page(page) <==> page_drawings(page).0 != Some(false) && are_plain(
            page_drawings(page).1,
            0,
        ),
    decreases parts.len() - start,
{
    if start < parts.len() {
        lemma_plain_parts(parts, start + 1, page);
    }
}

/// A web page is plain if the drawings in its root element are, and pages are if each of them is.
pub proof fn lemma_plain_documents(
    document: typst::html::HtmlDocument,
    pages: Seq<typst::layout::Page>,
)
    ensures
        is_plain_html(document) <==> are_plain_parts(html_parts(html_root(document)), 0),
        are_plain_pages(pages) <==> forall|i: int|
            0 <= i < pages.len() ==> is_plain_page(#[trigger] pages[i]),
{
}

} // verus!
