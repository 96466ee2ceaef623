//! The layout of a report: styled text in paragraphs, lists and breaks, in the
//! order in which they are drawn.
use vstd::prelude::*;

verus! {

/// A colour by its red, green and blue parts.
#[derive(Clone, Copy, Debug, PartialEq, Eq, Structural)]
pub struct Rgb {
    pub red: u8,
    pub green: u8,
    pub blue: u8,
}

/// How a piece of text is drawn. A size or colour that is not set is that of
/// the surrounding element.
#[derive(Clone, Copy, Debug, PartialEq, Eq)]
pub struct TextStyle {
    pub font_size: Option<u8>,
    pub color: Option<Rgb>,
    pub bold: bool,
    pub italic: bool,
}

impl TextStyle {
    /// The style that sets nothing.
    pub open spec fn plain() -> TextStyle {
        TextStyle { font_size: None, color: None, bold: false, italic: false }
    }

    /// This style in bold.
    pub open spec fn in_bold(self) -> TextStyle {
        TextStyle { bold: true, ..self }
    }

    /// This style in italics.
    pub open spec fn in_italic(self) -> TextStyle {
        TextStyle { italic: true, ..self }
    }

    /// A style of the given size and colour.
    pub open spec fn sized(size: u8, red: u8, green: u8, blue: u8) -> TextStyle {
        TextStyle {
            font_size: Some(size),
            color: Some(Rgb { red, green, blue }),
            bold: false,
            italic: false,
        }
    }

    /// The style that sets nothing.
    pub fn new() -> (style: TextStyle)
        ensures
            style == TextStyle::plain(),
    {
        TextStyle { font_size: None, color: None, bold: false, italic: false }
    }

    /// This style with the given size.
    pub fn with_font_size(self, size: u8) -> (style: TextStyle)
        ensures
            style == (TextStyle { font_size: Some(size), ..self }),
    {
        TextStyle { font_size: Some(size), ..self }
    }

    /// This style with the given colour.
    pub fn with_color(self, color: Rgb) -> (style: TextStyle)
        ensures
            style == (TextStyle { color: Some(color), ..self }),
    {
        TextStyle { color: Some(color), ..self }
    }

    /// This style in bold.
    pub fn bold(self) -> (style: TextStyle)
        ensures
            style == self.in_bold(),
    {
        TextStyle { bold: true, ..self }
    }

    /// This style in italics.
    pub fn italic(self) -> (style: TextStyle)
        ensures
            style == self.in_italic(),
    {
        TextStyle { italic: true, ..self }
    }
}

/// A piece of text with its style, or without one of its own.
#[derive(Debug, PartialEq, Eq)]
pub struct StyledText {
    pub text: String,
    pub style: Option<TextStyle>,
}

/// The mathematical value of a [`StyledText`].
pub type StyledTextView = (Seq<char>, Option<TextStyle>);

impl View for StyledText {
    type V = StyledTextView;

    open spec fn view(&self) -> StyledTextView {
        (self.text@, self.style)
    }
}

/// A text in a style.
pub open spec fn styled(text: Seq<char>, style: TextStyle) -> StyledTextView {
    (text, Some(style))
}

/// A text without a style of its own.
pub open spec fn unstyled(text: Seq<char>) -> StyledTextView {
    (text, None)
}

/// The values of the pieces of a paragraph, in order.
pub open spec fn paragraph_view(pieces: Seq<StyledText>) -> Seq<StyledTextView> {
    pieces.map_values(|piece: StyledText| piece@)
}

/// The values of the paragraphs of a list, in order.
pub open spec fn paragraphs_view(paragraphs: Seq<Vec<StyledText>>) -> Seq<Seq<StyledTextView>> {
    paragraphs.map_values(|paragraph: Vec<StyledText>| paragraph_view(paragraph@))
}

/// An element of a layout: a paragraph, a break of so many half lines, or a
/// list of paragraphs with bullets.
#[derive(Debug, PartialEq, Eq)]
pub enum LayoutItem {
    Paragraph(Vec<StyledText>),
    Break(u8),
    BulletList(Vec<Vec<StyledText>>),
}

/// The mathematical value of a [`LayoutItem`].
pub enum LayoutItemView {
    Paragraph(Seq<StyledTextView>),
    Break(u8),
    BulletList(Seq<Seq<StyledTextView>>),
}

impl View for LayoutItem {
    type V = LayoutItemView;

    open spec fn view(&self) -> LayoutItemView {
        match self {
            LayoutItem::Paragraph(pieces) => LayoutItemView::Paragraph(paragraph_view(pieces@)),
            LayoutItem::Break(half_lines) => LayoutItemView::Break(*half_lines),
            LayoutItem::BulletList(paragraphs) => LayoutItemView::BulletList(
                paragraphs_view(paragraphs@),
            ),
        }
    }
}

/// The values of the elements of a layout, in order.
pub open spec fn layout_view(items: Seq<LayoutItem>) -> Seq<LayoutItemView> {
    items.map_values(|item: LayoutItem| item@)
}

/// The values of the layouts of a list, in order.
pub open spec fn layouts_view(layouts: Seq<Vec<LayoutItem>>) -> Seq<Seq<LayoutItemView>> {
    layouts.map_values(|layout: Vec<LayoutItem>| layout_view(layout@))
}

/// An element of a report: an element of a layout, a numbered list of layouts,
/// or a notice, which is a line of text in a frame in the middle of the page.
#[derive(Debug, PartialEq, Eq)]
pub enum DocumentItem {
    Plain(LayoutItem),
    NumberedList(Vec<Vec<LayoutItem>>),
    Notice(String, TextStyle),
}

/// The mathematical value of a [`DocumentItem`].
pub enum DocumentItemView {
    Plain(LayoutItemView),
    NumberedList(Seq<Seq<LayoutItemView>>),
    Notice(Seq<char>, TextStyle),
}

impl View for DocumentItem {
    type V = DocumentItemView;

    open spec fn view(&self) -> DocumentItemView {
        match self {
            DocumentItem::Plain(item) => DocumentItemView::Plain(item@),
            DocumentItem::NumberedList(layouts) => DocumentItemView::NumberedList(
                layouts_view(layouts@),
            ),
            DocumentItem::Notice(text, style) => DocumentItemView::Notice(text@, *style),
        }
    }
}

/// The values of the elements of a report, in order.
pub open spec fn document_view(items: Seq<DocumentItem>) -> Seq<DocumentItemView> {
    items.map_values(|item: DocumentItem| item@)
}

/// A paragraph as an element of a report.
pub open spec fn paragraph(pieces: Seq<StyledTextView>) -> DocumentItemView {
    DocumentItemView::Plain(LayoutItemView::Paragraph(pieces))
}

/// A break of so many half lines as an element of a report.
pub open spec fn line_break(half_lines: u8) -> DocumentItemView {
    DocumentItemView::Plain(LayoutItemView::Break(half_lines))
}

/// A report: the title in the PDF's metadata, the heading that is repeated on
/// every page but the first, and the elements in the order in which they are
/// drawn.
#[derive(Debug, PartialEq, Eq)]
pub struct PdfPlan {
    pub meta_title: String,
    pub report_title: String,
    pub items: Vec<DocumentItem>,
}

/// The mathematical value of a [`PdfPlan`].
pub type PdfPlanView = (Seq<char>, Seq<char>, Seq<DocumentItemView>);

impl View for PdfPlan {
    type V = PdfPlanView;

    open spec fn view(&self) -> PdfPlanView {
        (self.meta_title@, self.report_title@, document_view(self.items@))
    }
}

} // verus!
