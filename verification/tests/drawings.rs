use std::sync::Arc;

use tinymist::document::{check_selection, export_html, export_svg, TypstDocument};
use tinymist::drawing::{check_html, check_page, check_pages};
use tinymist::error::ExportError;
use tinymist::produce::{Production, RenderAnswer, RenderRun, RenderState};
use tinymist::task::{ExportHtmlTask, ExportSvgTask, ProjectExportTask, ProjectTask, TaskWhen};
use typst::foundations::{Bytes, Content, Dict, IntoValue, Smart, Str, Value};
use typst::html::{tag, HtmlDocument, HtmlElement, HtmlNode};
use typst::layout::{
    Abs, Angle, Em, Frame, FrameItem, GroupItem, Page, PagedDocument, Point, Ratio, Size,
    Transform,
};
use typst::syntax::Span;
use typst::text::{Font, Glyph, Lang, TextItem};
use typst::visualize::{
    Color, ColorSpace, ExchangeFormat, FixedStroke, Geometry, Gradient, Image, LinearGradient,
    Paint, PixelFormat, RasterImage, SvgImage,
};

/// A font with one glyph, a triangle as wide as asked for, and perhaps a table of SVG images.
fn font(half_width: i16, images: bool) -> Font {
    let mut glyph = vec![];
    for n in [1, -half_width, 0, half_width, 700, 2, 0] {
        glyph.extend(i16::to_be_bytes(n));
    }
    glyph.extend([1, 1, 1]);
    for n in [-half_width, half_width, half_width, 0, 700, -700] {
        glyph.extend(i16::to_be_bytes(n));
    }
    glyph.push(0);

    let mut head = vec![0; 54];
    head[18..20].copy_from_slice(&1000u16.to_be_bytes());
    head[51] = 1;
    let mut loca = vec![0; 8];
    loca.extend((glyph.len() as u32).to_be_bytes());
    let mut name = vec![0, 0, 0, 1, 0, 18, 0, 3, 0, 1, 4, 9, 0, 1, 0, 8, 0, 0];
    name.extend([0, b'T', 0, b'e', 0, b's', 0, b't']);

    let mut tables = vec![];
    if images {
        tables.push((b"SVG ", vec![0, 0, 0, 0, 0, 10, 0, 0, 0, 0, 0, 0]));
    }
    tables.push((b"glyf", glyph));
    tables.push((b"head", head));
    tables.push((b"hhea", vec![0; 36]));
    tables.push((b"loca", loca));
    tables.push((b"maxp", vec![0, 0, 0x50, 0, 0, 2]));
    tables.push((b"name", name));

    let mut data = vec![0, 1, 0, 0, 0, tables.len() as u8, 0, 0, 0, 0, 0, 0];
    let mut offset = 12 + 16 * tables.len();
    for (tag, table) in &tables {
        data.extend(*tag);
        data.extend([0; 4]);
        data.extend((offset as u32).to_be_bytes());
        data.extend((table.len() as u32).to_be_bytes());
        offset += table.len();
    }
    for (_, table) in tables {
        data.extend(table);
    }
    Font::new(Bytes::new(data), 0).unwrap()
}

fn gradient() -> Paint {
    let stops = vec![(Color::RED, Ratio::zero()), (Color::BLUE, Ratio::one())];
    Paint::Gradient(Gradient::Linear(Arc::new(LinearGradient {
        stops,
        angle: Angle::zero(),
        space: ColorSpace::Oklab,
        relative: Smart::Auto,
        anti_alias: true,
    })))
}

fn black() -> Paint {
    Paint::Solid(Color::BLACK)
}

fn text(font: Font, fill: Paint, stroke: Option<Paint>) -> FrameItem {
    FrameItem::Text(TextItem {
        font,
        size: Abs::pt(10.0),
        fill,
        stroke: stroke.map(|paint| FixedStroke::from_pair(paint, Abs::pt(1.0))),
        lang: Lang::ENGLISH,
        region: None,
        text: "x".into(),
        glyphs: vec![Glyph {
            id: 1,
            x_advance: Em::new(1.0),
            x_offset: Em::zero(),
            range: 0..1,
            span: (Span::detached(), 0),
        }],
    })
}

fn shape(fill: Option<Paint>, stroke: Option<Paint>) -> FrameItem {
    let mut shape = Geometry::Rect(Size::splat(Abs::pt(5.0))).filled(black());
    shape.fill = fill;
    shape.stroke = stroke.map(|paint| FixedStroke::from_pair(paint, Abs::pt(1.0)));
    FrameItem::Shape(shape, Span::detached())
}

fn placed(image: Image) -> FrameItem {
    FrameItem::Image(image, Size::splat(Abs::pt(1.0)), Span::detached())
}

fn vector_image() -> FrameItem {
    let data = b"<svg xmlns=\"http://www.w3.org/2000/svg\" width=\"1\" height=\"1\"></svg>";
    placed(Image::plain(SvgImage::new(Bytes::new(data.to_vec())).unwrap()))
}

/// An image of one pixel in a GIF file.
fn raster_image() -> FrameItem {
    let mut data = b"GIF89a\x01\x00\x01\x00\x80\x00\x00".to_vec();
    data.extend([0, 0, 0, 255, 255, 255]);
    data.extend([0x2c, 0, 0, 0, 0, 1, 0, 1, 0, 0, 2, 2, 0x44, 1, 0, 0x3b]);
    placed(Image::plain(RasterImage::plain(Bytes::new(data), ExchangeFormat::Gif).unwrap()))
}

/// An image of one pixel without a file.
fn pixel_image() -> FrameItem {
    let entries: Vec<(Str, Value)> = vec![
        ("encoding".into(), "rgb8".into_value()),
        ("width".into(), 1.into_value()),
        ("height".into(), 1.into_value()),
    ];
    let format: PixelFormat = Value::Dict(Dict::from_iter(entries)).cast().unwrap();
    placed(Image::plain(RasterImage::plain(Bytes::new(vec![1, 2, 3]), format).unwrap()))
}

fn frame(items: Vec<FrameItem>) -> Frame {
    let mut frame = Frame::soft(Size::splat(Abs::pt(20.0)));
    for item in items {
        frame.push(Point::zero(), item);
    }
    frame
}

fn group(items: Vec<FrameItem>, transform: Transform) -> FrameItem {
    let mut group = GroupItem::new(frame(items));
    group.transform = transform;
    FrameItem::Group(group)
}

fn skewed(items: Vec<FrameItem>) -> FrameItem {
    group(items, Transform::skew(Angle::deg(45.0), Angle::deg(45.0)))
}

fn page_with(fill: Smart<Option<Paint>>, items: Vec<FrameItem>) -> Page {
    Page { frame: frame(items), fill, numbering: None, supplement: Content::empty(), number: 1 }
}

fn page(items: Vec<FrameItem>) -> Page {
    page_with(Smart::Auto, items)
}

fn pages(pages: Vec<Page>) -> PagedDocument {
    PagedDocument { pages, ..PagedDocument::default() }
}

fn web_page(items: Vec<FrameItem>) -> HtmlDocument {
    let inner = HtmlElement::new(tag::div).with_children(vec![HtmlNode::Frame(frame(items))]);
    let text = HtmlNode::Text("t".into(), Span::detached());
    HtmlDocument {
        root: HtmlElement::new(tag::html).with_children(vec![text, HtmlNode::Element(inner)]),
        info: Default::default(),
        introspector: Default::default(),
    }
}

fn export() -> ProjectExportTask {
    ProjectExportTask { when: TaskWhen::OnSave, output: None, transform: vec![] }
}

fn plain_items() -> Vec<FrameItem> {
    vec![
        text(font(300, false), black(), Some(black())),
        shape(Some(black()), None),
        shape(None, Some(black())),
        vector_image(),
        raster_image(),
        skewed(vec![shape(None, None), vector_image()]),
    ]
}

fn intricate_items() -> Vec<FrameItem> {
    vec![
        text(font(300, true), black(), None),
        text(font(20000, false), black(), None),
        text(font(300, false), gradient(), None),
        text(font(300, false), black(), Some(gradient())),
        shape(Some(gradient()), None),
        shape(Some(black()), Some(gradient())),
        pixel_image(),
        skewed(vec![text(font(300, false), gradient(), None)]),
        group(vec![group(vec![pixel_image()], Transform::identity())], Transform::identity()),
    ]
}

#[test]
fn plain_pages() {
    assert!(check_page(&page(vec![])));
    assert!(check_page(&page(plain_items())));
    assert!(check_page(&page_with(Smart::Custom(None), vec![])));
    assert!(check_page(&page_with(Smart::Custom(Some(black())), vec![])));
    assert!(!check_page(&page_with(Smart::Custom(Some(gradient())), vec![])));
    for item in intricate_items() {
        assert!(!check_page(&page(vec![shape(None, None), item])));
    }
}

#[test]
fn all_pages_or_the_first_have_to_be_plain() {
    let mixed = vec![page(plain_items()), page(vec![pixel_image()])];
    assert!(!check_pages(&mixed));
    assert!(check_pages(&mixed[..1].to_vec()));
    let document = pages(mixed);
    assert!(check_selection(&document, true));
    assert!(!check_selection(&document, false));
    assert!(check_selection(&pages(vec![]), true));
}

#[test]
fn plain_pages_are_written() {
    let document = pages(vec![page(plain_items())]);
    let data = export_svg(&document, (true, Abs::zero())).unwrap();
    let written = String::from_utf8(data).unwrap();
    assert!(written.contains("class=\"typst-text\""));
    assert!(written.contains("class=\"typst-shape\""));
    assert!(written.contains("id=\"glyph\""));
    assert!(written.contains("data:image/svg+xml;base64,PHN2ZyB4bWxucz0i"));
    assert!(written.contains("data:image/gif;base64,R0lGODlhAQABAI"));
    assert!(export_svg(&document, (false, Abs::zero())).is_ok());
    let web_page = web_page(plain_items());
    assert!(check_html(&web_page));
    let written = String::from_utf8(export_html(&web_page).unwrap()).unwrap();
    assert!(written.contains("class=\"typst-text\""));
}

#[test]
fn what_is_not_plain_is_left_to_the_server() {
    let svg = ProjectTask::ExportSvg(ExportSvgTask { export: export() });
    for item in intricate_items() {
        let document = TypstDocument::Paged(Arc::new(pages(vec![page(vec![item])])));
        let mut run = RenderRun::begin(&svg, document.clone());
        run.advance(RenderAnswer::Selected(Ok((true, Abs::zero()))));
        assert_eq!(run.state, RenderState::Producing(Production::SvgFirst));
        run.advance(RenderAnswer::Produced(Ok(vec![1])));
        assert_eq!(run.state, RenderState::Finished(Ok(vec![1])));

        let mut run = RenderRun::begin(&svg, document);
        run.advance(RenderAnswer::Selected(Ok((false, Abs::pt(3.0)))));
        assert_eq!(run.state, RenderState::Producing(Production::SvgMerged(Abs::pt(3.0))));
    }
}

#[test]
fn web_pages_that_are_not_plain() {
    let html = ProjectTask::ExportHtml(ExportHtmlTask { export: export() });
    for item in intricate_items() {
        let web_page = web_page(vec![item]);
        assert!(!check_html(&web_page));
        let mut run = RenderRun::begin(&html, TypstDocument::Html(Arc::new(web_page)));
        assert_eq!(run.state, RenderState::Producing(Production::Html));
        run.advance(RenderAnswer::Produced(Err("e".to_owned())));
        let err = ExportError::Html("export error: e".to_owned());
        assert_eq!(run.state, RenderState::Finished(Err(err)));
    }
}
