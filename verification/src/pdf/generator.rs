//! The rules by which a document becomes a report: which sections are shown,
//! what each line says, and in which style.
use crate::lib_utils::config::Config;
use crate::lib_utils::text::{decimal, lines_of, split_lines, trim, trimmed, usize_to_decimal};
use crate::pdf::document::{
    BomInfo, ComponentInfo, MetadataInfo, RatingInfo, ServiceInfo, ToolInfo, ToolsInfo,
    VulnerabilityInfo,
};
use crate::pdf::layout::{
    document_view, layout_view, layouts_view, line_break, paragraph, paragraph_view,
    paragraphs_view, styled, unstyled, DocumentItem, DocumentItemView, LayoutItem, LayoutItemView,
    PdfPlan, Rgb, StyledText, StyledTextView, TextStyle,
};
use std::sync::Arc;
use vstd::prelude::*;

verus! {

/// The styles of a report.
#[derive(Clone, Copy, Debug, PartialEq, Eq)]
pub struct Styles {
    pub title: TextStyle,
    pub header: TextStyle,
    pub normal: TextStyle,
    pub indent: TextStyle,
    pub comp_name: TextStyle,
    pub version: TextStyle,
    pub cve_id: TextStyle,
}

impl Styles {
    /// The styles that every report is drawn in.
    pub open spec fn standard() -> Styles {
        Styles {
            title: TextStyle::sized(18, 0, 0, 80),
            header: TextStyle::sized(14, 0, 0, 80),
            normal: TextStyle { font_size: Some(11u8), ..TextStyle::plain() },
            indent: TextStyle::sized(10, 40, 40, 40),
            comp_name: TextStyle::sized(10, 0, 51, 102).in_italic(),
            version: TextStyle::sized(10, 128, 128, 128),
            cve_id: TextStyle::sized(11, 139, 0, 0).in_bold(),
        }
    }
}

/// The style of the notice that no vulnerabilities were reported.
pub open spec fn notice_style() -> TextStyle {
    TextStyle::sized(16, 0, 100, 0).in_bold()
}

/// The style of the heading that is repeated on every page but the first.
pub open spec fn page_header_style() -> TextStyle {
    TextStyle::sized(10, 0, 0, 80)
}

/// The heading on the first page: the one that the settings give, else the
/// default one for the sort of report.
pub open spec fn report_title(config: Config) -> Seq<char> {
    match config.report_title {
        Some(title) => title@,
        None => if config.pure_bom_novulns {
            "Bill of Materials Document"@
        } else {
            "Vulnerability Report Document"@
        },
    }
}

/// The title in the PDF's metadata: the one that the settings give, else the
/// default one for the sort of report.
pub open spec fn doc_meta_name(config: Config) -> Seq<char> {
    match config.pdf_meta_name {
        Some(name) => name@,
        None => if config.pure_bom_novulns {
            "Bill of Materials"@
        } else {
            "Vulnerability Report"@
        },
    }
}

/// A name, followed by its version in brackets where it has one.
pub open spec fn versioned_name(
    name: Seq<char>,
    version: Option<String>,
    name_style: TextStyle,
    version_style: TextStyle,
) -> Seq<StyledTextView> {
    match version {
        Some(v) => seq![styled(name, name_style), styled(" ("@ + v@ + ")"@, version_style)],
        None => seq![styled(name, name_style)],
    }
}

/// The list entries for a plain list of tools: one for each tool with a name.
pub open spec fn tool_entries(tools: Seq<ToolInfo>, st: Styles) -> Seq<Seq<StyledTextView>>
    decreases tools.len(),
{
    if tools.len() == 0 {
        Seq::empty()
    } else {
        let before = tool_entries(tools.drop_last(), st);
        match tools.last().name {
            Some(name) => before.push(
                versioned_name(name@, tools.last().version, st.indent, st.version),
            ),
            None => before,
        }
    }
}

/// The list entries for components that served as tools: one for each.
pub open spec fn component_tool_entries(components: Seq<ComponentInfo>, st: Styles) -> Seq<
    Seq<StyledTextView>,
> {
    components.map_values(
        |c: ComponentInfo| versioned_name(c.name@, c.version, st.indent, st.version),
    )
}

/// The list entries for services that served as tools: one for each.
pub open spec fn service_tool_entries(services: Seq<ServiceInfo>, st: Styles) -> Seq<
    Seq<StyledTextView>,
> {
    services.map_values(|s: ServiceInfo| versioned_name(s.name@, s.version, st.indent, st.version))
}

/// The entries of the list of tools: the tools of a plain list, or the
/// components and then the services that served as tools.
pub open spec fn tools_entries(tools: ToolsInfo, st: Styles) -> Seq<Seq<StyledTextView>> {
    match tools {
        ToolsInfo::List(list) => tool_entries(list@, st),
        ToolsInfo::Object(services, components) => (match components {
            Some(list) => component_tool_entries(list@, st),
            None => Seq::empty(),
        }) + (match services {
            Some(list) => service_tool_entries(list@, st),
            None => Seq::empty(),
        }),
    }
}

/// The section on the document's metadata.
pub open spec fn metadata_items(meta: MetadataInfo, st: Styles) -> Seq<DocumentItemView> {
    seq![paragraph(seq![styled("Document Information"@, st.header)]), line_break(2)] + (
    match meta.timestamp {
        Some(stamp) => seq![
            paragraph(seq![styled("Date: "@ + stamp@, st.normal.in_italic())]),
        ],
        None => Seq::empty(),
    }) + seq![line_break(2)] + (match meta.tools {
        Some(tools) => seq![
            paragraph(seq![styled("Tools:"@, st.normal.in_bold())]),
            DocumentItemView::Plain(LayoutItemView::BulletList(tools_entries(tools, st))),
            line_break(2),
        ],
        None => Seq::empty(),
    }) + (match meta.component {
        Some(component) => seq![
            paragraph(
                seq![styled("Component name : "@, st.normal.in_bold())] + versioned_name(
                    component.name@,
                    component.version,
                    st.indent,
                    st.version,
                ),
            ),
        ],
        None => Seq::empty(),
    }) + seq![line_break(2)]
}

/// The section on the document itself: its format, the version of the
/// specification, its own version, and its serial number if it has one.
pub open spec fn bom_items(bom: BomInfo, st: Styles) -> Seq<DocumentItemView> {
    seq![
        paragraph(
            seq![styled("BOM Format: "@, st.normal.in_bold()), styled("CycloneDX"@, st.normal)],
        ),
        paragraph(
            seq![
                styled("Specification Version: "@, st.normal.in_bold()),
                styled(bom.spec_version@, st.normal),
            ],
        ),
        paragraph(
            seq![
                styled("Version: "@, st.normal.in_bold()),
                styled(decimal(bom.version as nat), st.normal),
            ],
        ),
    ] + (match bom.serial_number {
        Some(serial) => seq![
            paragraph(
                seq![styled("Serial Number: "@, st.normal.in_bold()), styled(serial@, st.normal)],
            ),
        ],
        None => Seq::empty(),
    }) + seq![line_break(4)]
}

/// The name and version of the component that a reference points to: those of
/// the last component with that reference, with `undefined` for a missing
/// version.
pub open spec fn component_of_ref(components: Seq<ComponentInfo>, reference: Seq<char>) -> Option<
    (Seq<char>, Seq<char>),
>
    decreases components.len(),
{
    if components.len() == 0 {
        None
    } else {
        let c = components.last();
        if c.bom_ref matches Some(r) && r@ == reference {
            Some(
                (
                    c.name@,
                    match c.version {
                        Some(v) => v@,
                        None => "undefined"@,
                    },
                ),
            )
        } else {
            component_of_ref(components.drop_last(), reference)
        }
    }
}

/// Whether any of the components has a reference.
pub open spec fn has_references(components: Seq<ComponentInfo>) -> bool {
    exists|i: int| 0 <= i < components.len() && (#[trigger] components[i]).bom_ref is Some
}

/// The components that the targets of a vulnerability point to, in the order
/// of the targets. A target that points to no component is left out.
pub open spec fn affected_components(targets: Seq<String>, components: Seq<ComponentInfo>) -> Seq<
    (Seq<char>, Seq<char>),
>
    decreases targets.len(),
{
    if targets.len() == 0 {
        Seq::empty()
    } else {
        let before = affected_components(targets.drop_last(), components);
        match component_of_ref(components, targets.last()@) {
            Some(c) => before.push(c),
            None => before,
        }
    }
}

/// The affected components as pieces of a paragraph: name and version of each,
/// with a comma between one and the next.
pub open spec fn affected_pieces(affected: Seq<(Seq<char>, Seq<char>)>, st: Styles) -> Seq<
    StyledTextView,
>
    decreases affected.len(),
{
    if affected.len() == 0 {
        Seq::empty()
    } else {
        affected_pieces(affected.drop_last(), st) + (if affected.len() > 1 {
            seq![unstyled(", "@)]
        } else {
            Seq::empty()
        }) + seq![
            styled(affected.last().0, st.comp_name),
            styled(": "@ + affected.last().1, st.version),
        ]
    }
}

/// The paragraph that lists the affected components.
pub open spec fn affected_paragraph(affected: Seq<(Seq<char>, Seq<char>)>, st: Styles) -> Seq<
    StyledTextView,
> {
    seq![styled("Affected Document Components : [ "@, st.indent.in_bold())] + affected_pieces(
        affected,
        st,
    ) + seq![styled(" ]"@, st.indent.in_bold())]
}

/// The paragraph with the identifier of a vulnerability.
pub open spec fn id_paragraph(id: Option<String>, st: Styles) -> Seq<StyledTextView> {
    match id {
        Some(text) => seq![styled("ID: "@, st.normal), styled(text@, st.cve_id)],
        None => seq![styled("ID: N/A"@, st.normal)],
    }
}

/// The paragraphs for the lines of a description after the first: each line
/// without the white space around it.
pub open spec fn further_lines(lines: Seq<Seq<char>>, st: Styles) -> Seq<LayoutItemView> {
    lines.map_values(
        |line: Seq<char>| LayoutItemView::Paragraph(seq![styled(trimmed(line), st.indent)]),
    )
}

/// The paragraphs with the description of a vulnerability: one for each of its
/// lines, the first behind the label; `N/A` behind the label for a missing or
/// empty description.
pub open spec fn description_paragraphs(description: Option<String>, st: Styles) -> Seq<
    LayoutItemView,
> {
    match description {
        Some(text) => if text@.len() > 0 {
            seq![
                LayoutItemView::Paragraph(
                    seq![
                        styled("Description: "@, st.indent.in_bold()),
                        styled(trimmed(split_lines(text@)[0]), st.indent),
                    ],
                ),
            ] + further_lines(split_lines(text@).skip(1), st)
        } else {
            seq![no_description(st)]
        },
        None => seq![no_description(st)],
    }
}

/// The paragraph that stands for a missing description.
pub open spec fn no_description(st: Styles) -> LayoutItemView {
    LayoutItemView::Paragraph(
        seq![styled("Description: "@, st.indent.in_bold()), styled("N/A"@, st.indent)],
    )
}

/// The name of a rating's source, where the rating has a source with a name.
pub open spec fn source_name(source: Option<Option<String>>) -> Option<Seq<char>> {
    match source {
        Some(Some(name)) => Some(name@),
        _ => None,
    }
}

/// The list entry for a rating with a severity: the severity, the method, `N/A`
/// for a missing one, and the source's name where there is one.
pub open spec fn rating_entry(rating: RatingInfo, severity: Seq<char>, st: Styles) -> Seq<
    StyledTextView,
> {
    seq![
        styled("Severity: "@, st.indent.in_bold()),
        styled(
            severity + " ("@ + (match rating.method {
                Some(method) => method@,
                None => "N/A"@,
            }),
            st.indent,
        ),
    ] + (match source_name(rating.source) {
        Some(name) => seq![styled(" \u{2014} Source: "@, st.indent), styled(name, st.indent)],
        None => Seq::empty(),
    }) + seq![styled(")"@, st.indent)]
}

/// The list entries for the ratings of a vulnerability: one for each rating
/// with a severity.
pub open spec fn rating_entries(ratings: Seq<RatingInfo>, st: Styles) -> Seq<Seq<StyledTextView>>
    decreases ratings.len(),
{
    if ratings.len() == 0 {
        Seq::empty()
    } else {
        let before = rating_entries(ratings.drop_last(), st);
        match ratings.last().severity {
            Some(severity) => before.push(rating_entry(ratings.last(), severity@, st)),
            None => before,
        }
    }
}

/// The components of a document, none where it lists none.
pub open spec fn components_of(components: Option<Vec<ComponentInfo>>) -> Seq<ComponentInfo> {
    match components {
        Some(list) => list@,
        None => Seq::empty(),
    }
}

/// The layout of one vulnerability: identifier, description, ratings and, where
/// the document's components have references and the vulnerability has
/// targets, the affected components.
pub open spec fn vulnerability_layout(
    v: VulnerabilityInfo,
    components: Seq<ComponentInfo>,
    st: Styles,
) -> Seq<LayoutItemView> {
    seq![LayoutItemView::Paragraph(id_paragraph(v.id, st))] + description_paragraphs(
        v.description,
        st,
    ) + seq![
        LayoutItemView::Break(1),
        LayoutItemView::BulletList(
            match v.ratings {
                Some(ratings) => rating_entries(ratings@, st),
                None => Seq::empty(),
            },
        ),
    ] + (if has_references(components) && v.targets is Some {
        seq![
            LayoutItemView::Break(1),
            LayoutItemView::Paragraph(
                affected_paragraph(affected_components(v.targets->0@, components), st),
            ),
        ]
    } else {
        Seq::empty()
    }) + seq![LayoutItemView::Break(2)]
}

/// The layouts of the vulnerabilities, in order.
pub open spec fn vulnerability_layouts(
    vulnerabilities: Seq<VulnerabilityInfo>,
    components: Seq<ComponentInfo>,
    st: Styles,
) -> Seq<Seq<LayoutItemView>> {
    vulnerabilities.map_values(|v: VulnerabilityInfo| vulnerability_layout(v, components, st))
}

/// Whether the document reports any vulnerability.
pub open spec fn has_vulnerabilities(bom: BomInfo) -> bool {
    bom.vulnerabilities matches Some(list) && list@.len() > 0
}

/// The section on the vulnerabilities. Its heading is shown where there are
/// vulnerabilities or where their absence is to be said. The numbered list is
/// shown where the document has a list of vulnerabilities, even an empty one.
/// The notice is shown where there are none and their absence is to be said.
pub open spec fn vulnerabilities_items(bom: BomInfo, config: Config, st: Styles) -> Seq<
    DocumentItemView,
> {
    (if has_vulnerabilities(bom) || config.show_novulns_msg {
        seq![paragraph(seq![styled("Vulnerabilities"@, st.header)]), line_break(2)]
    } else {
        Seq::empty()
    }) + (match bom.vulnerabilities {
        Some(list) => seq![
            DocumentItemView::NumberedList(
                vulnerability_layouts(list@, components_of(bom.components), st),
            ),
            line_break(1),
        ],
        None => Seq::empty(),
    }) + (if !has_vulnerabilities(bom) && config.show_novulns_msg {
        seq![
            DocumentItemView::Notice("No Vulnerabilities reported"@, notice_style()),
            line_break(2),
        ]
    } else {
        Seq::empty()
    })
}

/// The lines for one component in the list of components.
pub open spec fn component_lines(c: ComponentInfo, st: Styles) -> Seq<DocumentItemView> {
    seq![paragraph(seq![styled("Name: "@, st.indent), styled(c.name@, st.comp_name)])] + (
    match c.version {
        Some(v) => seq![paragraph(seq![styled("Version: "@, st.indent), styled(v@, st.version)])],
        None => Seq::empty(),
    }) + seq![line_break(1)]
}

/// The lines for the components, in order.
pub open spec fn components_lines(components: Seq<ComponentInfo>, st: Styles) -> Seq<
    DocumentItemView,
>
    decreases components.len(),
{
    if components.len() == 0 {
        Seq::empty()
    } else {
        components_lines(components.drop_last(), st) + component_lines(components.last(), st)
    }
}

/// The section on the components: shown where the document lists components.
pub open spec fn components_items(bom: BomInfo, st: Styles) -> Seq<DocumentItemView> {
    match bom.components {
        Some(list) => seq![paragraph(seq![styled("Components"@, st.header)]), line_break(1)]
            + components_lines(list@, st),
        None => Seq::empty(),
    }
}

/// The elements of a report, in the order in which they are drawn: the
/// heading, the metadata where the document has any, the document's own data,
/// the vulnerabilities unless only the components are asked for, and the
/// components where only they are asked for or where they are to be shown too.
pub open spec fn report_items(bom: BomInfo, config: Config, st: Styles) -> Seq<DocumentItemView> {
    seq![paragraph(seq![styled(report_title(config), st.title)]), line_break(2)] + (
    match bom.metadata {
        Some(meta) => metadata_items(meta, st),
        None => Seq::empty(),
    }) + bom_items(bom, st) + (if !config.pure_bom_novulns {
        vulnerabilities_items(bom, config, st)
    } else {
        Seq::empty()
    }) + (if config.pure_bom_novulns || config.show_components {
        components_items(bom, st)
    } else {
        Seq::empty()
    })
}

/// What stands at the top of a page after the first: the report's heading at
/// the left, the page's number in the middle, and a break of so many half
/// lines below them.
#[derive(Debug, PartialEq, Eq)]
pub struct PageHeader {
    pub title: String,
    pub page_line: String,
    pub gap: u8,
}

/// The mathematical value of an optional [`PageHeader`].
pub open spec fn page_header_view(header: Option<PageHeader>) -> Option<(Seq<char>, Seq<char>, u8)> {
    match header {
        Some(h) => Some((h.title@, h.page_line@, h.gap)),
        None => None,
    }
}

/// What stands at the top of a page: nothing on the first page; on every later
/// page the report's heading, the page's number, and a break of two lines.
pub open spec fn page_header(title: Seq<char>, page: nat) -> Option<(Seq<char>, Seq<char>, u8)> {
    if page > 1 {
        Some((title, "Page "@ + decimal(page), 4u8))
    } else {
        None
    }
}

/// A text in a style.
fn text_in(text: &str, style: TextStyle) -> (piece: StyledText)
    ensures
        piece@ == styled(text@, style),
{
    StyledText { text: String::from_str(text), style: Some(style) }
}

/// An owned text in a style.
fn string_in(text: String, style: TextStyle) -> (piece: StyledText)
    ensures
        piece@ == styled(text@, style),
{
    StyledText { text, style: Some(style) }
}

/// A paragraph of one piece.
fn one_piece(piece: StyledText) -> (pieces: Vec<StyledText>)
    ensures
        paragraph_view(pieces@) == seq![piece@],
{
    let mut pieces: Vec<StyledText> = Vec::new();
    pieces.push(piece);
    pieces
}

/// A paragraph of two pieces.
fn two_pieces(first: StyledText, second: StyledText) -> (pieces: Vec<StyledText>)
    ensures
        paragraph_view(pieces@) == seq![first@, second@],
{
    let mut pieces: Vec<StyledText> = Vec::new();
    pieces.push(first);
    pieces.push(second);
    pieces
}

/// Adds the pieces of `more` behind those of `pieces`.
fn add_pieces(pieces: &mut Vec<StyledText>, more: Vec<StyledText>)
    ensures
        paragraph_view(final(pieces)@) == paragraph_view(old(pieces)@) + paragraph_view(more@),
{
    let mut more = more;
    pieces.append(&mut more);
}

/// Adds the elements of `more` behind those of `items`.
fn add_items(items: &mut Vec<DocumentItem>, more: Vec<DocumentItem>)
    ensures
        document_view(final(items)@) == document_view(old(items)@) + document_view(more@),
{
    let mut more = more;
    items.append(&mut more);
}

/// Adds the elements of `more` behind those of `items`.
fn add_layout(items: &mut Vec<LayoutItem>, more: Vec<LayoutItem>)
    ensures
        layout_view(final(items)@) == layout_view(old(items)@) + layout_view(more@),
{
    let mut more = more;
    items.append(&mut more);
}

/// Adds a paragraph behind the elements of `items`.
fn add_paragraph(items: &mut Vec<DocumentItem>, pieces: Vec<StyledText>)
    ensures
        document_view(final(items)@) == document_view(old(items)@).push(
            paragraph(paragraph_view(pieces@)),
        ),
{
    items.push(DocumentItem::Plain(LayoutItem::Paragraph(pieces)));
}

/// Adds a break behind the elements of `items`.
fn add_break(items: &mut Vec<DocumentItem>, half_lines: u8)
    ensures
        document_view(final(items)@) == document_view(old(items)@).push(line_break(half_lines)),
{
    items.push(DocumentItem::Plain(LayoutItem::Break(half_lines)));
}

/// A name, followed by its version in brackets where it has one.
fn versioned_name_pieces(
    name: &str,
    version: &Option<String>,
    name_style: TextStyle,
    version_style: TextStyle,
) -> (pieces: Vec<StyledText>)
    ensures
        paragraph_view(pieces@) == versioned_name(name@, *version, name_style, version_style),
{
    let mut pieces: Vec<StyledText> = Vec::new();
    pieces.push(text_in(name, name_style));
    match version {
        Some(v) => {
            let mut bracketed = String::from_str(" (");
            bracketed.append(v.as_str());
            bracketed.append(")");
            pieces.push(string_in(bracketed, version_style));
        },
        None => {},
    }
    pieces
}

/// Makes reports of documents, in the standard styles and by the settings of
/// the run.
#[derive(Debug)]
pub struct PdfGenerator {
    styles: Styles,
    config: Arc<Config>,
}

impl Default for PdfGenerator {
    /// A generator for the default settings.
    fn default() -> (generator: Self)
        ensures
            generator.styles() == Styles::standard(),
    {
        Self::new(Arc::new(Config::default()))
    }
}

impl PdfGenerator {
    /// The styles that the generator draws in.
    pub closed spec fn styles(&self) -> Styles {
        self.styles
    }

    /// The settings that the generator goes by.
    pub closed spec fn config_view(&self) -> Config {
        *self.config
    }

    /// A generator for the given settings, with the standard styles.
    pub fn new(config: Arc<Config>) -> (generator: Self)
        ensures
            generator.styles() == Styles::standard(),
            generator.config_view() == *config,
    {
        let title = TextStyle::new().with_font_size(18).with_color(
            Rgb { red: 0, green: 0, blue: 80 },
        );
        let header = TextStyle::new().with_font_size(14).with_color(
            Rgb { red: 0, green: 0, blue: 80 },
        );
        let normal = TextStyle::new().with_font_size(11);
        let indent = TextStyle::new().with_font_size(10).with_color(
            Rgb { red: 40, green: 40, blue: 40 },
        );
        let comp_name = TextStyle::new().with_font_size(10).with_color(
            Rgb { red: 0, green: 51, blue: 102 },
        ).italic();
        let version = TextStyle::new().with_font_size(10).with_color(
            Rgb { red: 128, green: 128, blue: 128 },
        );
        let cve_id = TextStyle::new().with_font_size(11).with_color(
            Rgb { red: 139, green: 0, blue: 0 },
        ).bold();
        Self {
            styles: Styles { title, header, normal, indent, comp_name, version, cve_id },
            config,
        }
    }

    /// The heading on the first page.
    pub fn get_report_title(&self) -> (title: String)
        ensures
            title@ == report_title(self.config_view()),
    {
        match &self.config.report_title {
            Some(title) => title.clone(),
            None => if self.config.pure_bom_novulns {
                String::from_str("Bill of Materials Document")
            } else {
                String::from_str("Vulnerability Report Document")
            },
        }
    }

    /// The title in the PDF's metadata.
    pub fn get_doc_meta_name(&self) -> (name: String)
        ensures
            name@ == doc_meta_name(self.config_view()),
    {
        match &self.config.pdf_meta_name {
            Some(name) => name.clone(),
            None => if self.config.pure_bom_novulns {
                String::from_str("Bill of Materials")
            } else {
                String::from_str("Vulnerability Report")
            },
        }
    }

    /// The style of the heading that is repeated on every page but the first.
    pub fn page_header_style() -> (style: TextStyle)
        ensures
            style == page_header_style(),
    {
        TextStyle::new().with_font_size(10).with_color(Rgb { red: 0, green: 0, blue: 80 })
    }

    /// What stands at the top of the page with the given number, counted from 1.
    pub fn page_header(title: &str, page: usize) -> (header: Option<PageHeader>)
        ensures
            page_header_view(header) == page_header(title@, page as nat),
    {
        if page > 1 {
            let mut page_line = String::from_str("Page ");
            page_line.append(usize_to_decimal(page).as_str());
            Some(PageHeader { title: String::from_str(title), page_line, gap: 4 })
        } else {
            None
        }
    }

    /// The entries of the list of tools.
    fn tools_list(&self, tools: &ToolsInfo) -> (entries: Vec<Vec<StyledText>>)
        ensures
            paragraphs_view(entries@) == tools_entries(*tools, self.styles()),
    {
        let st = self.styles;
        let mut entries: Vec<Vec<StyledText>> = Vec::new();
        match tools {
            ToolsInfo::List(list) => {
                let mut i: usize = 0;
                while i < list.len()
                    invariant
                        i <= list.len(),
                        paragraphs_view(entries@) == tool_entries(list@.take(i as int), st),
                    decreases list.len() - i,
                {
                    proof {
                        assert(list@.take(i + 1).drop_last() =~= list@.take(i as int));
                    }
                    let ghost before = paragraphs_view(entries@);
                    match &list[i].name {
                        Some(name) => {
                            let entry = versioned_name_pieces(
                                name.as_str(),
                                &list[i].version,
                                st.indent,
                                st.version,
                            );
                            entries.push(entry);
                            assert(paragraphs_view(entries@) =~= before.push(
                                paragraph_view(entry@),
                            ));
                        },
                        None => {},
                    }
                    i += 1;
                }
                assert(list@.take(i as int) =~= list@);
            },
            ToolsInfo::Object(services, components) => {
                match components {
                    Some(list) => {
                        let mut i: usize = 0;
                        while i < list.len()
                            invariant
                                i <= list.len(),
                                paragraphs_view(entries@) == component_tool_entries(
                                    list@.take(i as int),
                                    st,
                                ),
                            decreases list.len() - i,
                        {
                            let ghost before = paragraphs_view(entries@);
                            let entry = versioned_name_pieces(
                                list[i].name.as_str(),
                                &list[i].version,
                                st.indent,
                                st.version,
                            );
                            entries.push(entry);
                            assert(paragraphs_view(entries@) =~= before.push(
                                paragraph_view(entry@),
                            ));
                            i += 1;
                        }
                    },
                    None => {},
                }
                let ghost first = paragraphs_view(entries@);
                match services {
                    Some(list) => {
                        let mut i: usize = 0;
                        while i < list.len()
                            invariant
                                i <= list.len(),
                                paragraphs_view(entries@) == first + service_tool_entries(
                                    list@.take(i as int),
                                    st,
                                ),
                            decreases list.len() - i,
                        {
                            let ghost before = paragraphs_view(entries@);
                            let entry = versioned_name_pieces(
                                list[i].name.as_str(),
                                &list[i].version,
                                st.indent,
                                st.version,
                            );
                            entries.push(entry);
                            assert(paragraphs_view(entries@) =~= before.push(
                                paragraph_view(entry@),
                            ));
                            i += 1;
                        }
                    },
                    None => {},
                }
            },
        }
        entries
    }

    /// The section on the document's metadata.
    fn render_metadata(&self, meta: &MetadataInfo) -> (items: Vec<DocumentItem>)
        ensures
            document_view(items@) == metadata_items(*meta, self.styles()),
    {
        let st = self.styles;
        let mut items: Vec<DocumentItem> = Vec::new();
        add_paragraph(&mut items, one_piece(text_in("Document Information", st.header)));
        add_break(&mut items, 2);
        match &meta.timestamp {
            Some(stamp) => {
                let mut date = String::from_str("Date: ");
                date.append(stamp.as_str());
                add_paragraph(&mut items, one_piece(string_in(date, st.normal.italic())));
            },
            None => {},
        }
        add_break(&mut items, 2);
        match &meta.tools {
            Some(tools) => {
                add_paragraph(&mut items, one_piece(text_in("Tools:", st.normal.bold())));
                let entries = self.tools_list(tools);
                let ghost before = document_view(items@);
                items.push(DocumentItem::Plain(LayoutItem::BulletList(entries)));
                assert(document_view(items@) =~= before.push(
                    DocumentItemView::Plain(
                        LayoutItemView::BulletList(tools_entries(*tools, st)),
                    ),
                ));
                add_break(&mut items, 2);
            },
            None => {},
        }
        match &meta.component {
            Some(component) => {
                let mut pieces = one_piece(text_in("Component name : ", st.normal.bold()));
                add_pieces(
                    &mut pieces,
                    versioned_name_pieces(
                        component.name.as_str(),
                        &component.version,
                        st.indent,
                        st.version,
                    ),
                );
                add_paragraph(&mut items, pieces);
            },
            None => {},
        }
        add_break(&mut items, 2);
        items
    }

    /// The section on the document itself.
    fn render_bom(&self, bom: &BomInfo) -> (items: Vec<DocumentItem>)
        ensures
            document_view(items@) == bom_items(*bom, self.styles()),
    {
        let st = self.styles;
        let mut items: Vec<DocumentItem> = Vec::new();
        add_paragraph(
            &mut items,
            two_pieces(text_in("BOM Format: ", st.normal.bold()), text_in("CycloneDX", st.normal)),
        );
        add_paragraph(
            &mut items,
            two_pieces(
                text_in("Specification Version: ", st.normal.bold()),
                text_in(bom.spec_version.as_str(), st.normal),
            ),
        );
        add_paragraph(
            &mut items,
            two_pieces(
                text_in("Version: ", st.normal.bold()),
                string_in(usize_to_decimal(bom.version as usize), st.normal),
            ),
        );
        match &bom.serial_number {
            Some(serial) => {
                add_paragraph(
                    &mut items,
                    two_pieces(
                        text_in("Serial Number: ", st.normal.bold()),
                        text_in(serial.as_str(), st.normal),
                    ),
                );
            },
            None => {},
        }
        add_break(&mut items, 4);
        items
    }

    /// The name and version of the component that a reference points to.
    fn find_component(components: &Vec<ComponentInfo>, reference: &String) -> (found: Option<
        (String, String),
    >)
        ensures
            pair_option_view(found) == component_of_ref(components@, reference@),
    {
        let mut i: usize = components.len();
        assert(components@.take(i as int) =~= components@);
        while i > 0
            invariant
                i <= components.len(),
                component_of_ref(components@, reference@) == component_of_ref(
                    components@.take(i as int),
                    reference@,
                ),
            decreases i,
        {
            proof {
                assert(components@.take(i as int).drop_last() =~= components@.take(i - 1));
            }
            let c = &components[i - 1];
            match &c.bom_ref {
                Some(r) => {
                    if *r == *reference {
                        let version = match &c.version {
                            Some(v) => v.clone(),
                            None => String::from_str("undefined"),
                        };
                        return Some((c.name.clone(), version));
                    }
                },
                None => {},
            }
            i -= 1;
        }
        None
    }

    /// Whether any of the components has a reference.
    fn any_reference(components: &Vec<ComponentInfo>) -> (found: bool)
        ensures
            found == has_references(components@),
    {
        let mut i: usize = 0;
        while i < components.len()
            invariant
                i <= components.len(),
                forall|j: int| 0 <= j < i ==> (#[trigger] components@[j]).bom_ref is None,
            decreases components.len() - i,
        {
            match &components[i].bom_ref {
                Some(_) => {
                    return true;
                },
                None => {},
            }
            i += 1;
        }
        false
    }

    /// The components that the targets of a vulnerability point to.
    fn affected(targets: &Vec<String>, components: &Vec<ComponentInfo>) -> (found: Vec<
        (String, String),
    >)
        ensures
            pairs_view(found@) == affected_components(targets@, components@),
    {
        let mut found: Vec<(String, String)> = Vec::with_capacity(targets.len());
        let mut i: usize = 0;
        while i < targets.len()
            invariant
                i <= targets.len(),
                pairs_view(found@) == affected_components(targets@.take(i as int), components@),
            decreases targets.len() - i,
        {
            proof {
                assert(targets@.take(i + 1).drop_last() =~= targets@.take(i as int));
            }
            match Self::find_component(components, &targets[i]) {
                Some(pair) => {
                    found.push(pair);
                },
                None => {},
            }
            i += 1;
        }
        assert(targets@.take(i as int) =~= targets@);
        found
    }

    /// The paragraph that lists the affected components.
    fn affected_line(&self, affected: &Vec<(String, String)>) -> (pieces: Vec<StyledText>)
        ensures
            paragraph_view(pieces@) == affected_paragraph(pairs_view(affected@), self.styles()),
    {
        let st = self.styles;
        let ghost pairs = pairs_view(affected@);
        let mut pieces = one_piece(text_in("Affected Document Components : [ ", st.indent.bold()));
        let ghost label = paragraph_view(pieces@);
        let mut i: usize = 0;
        while i < affected.len()
            invariant
                i <= affected.len(),
                pairs == pairs_view(affected@),
                paragraph_view(pieces@) == label + affected_pieces(pairs.take(i as int), st),
            decreases affected.len() - i,
        {
            proof {
                assert(pairs.take(i + 1).drop_last() =~= pairs.take(i as int));
            }
            let mut more: Vec<StyledText> = Vec::new();
            if i > 0 {
                more.push(StyledText { text: String::from_str(", "), style: None });
            }
            more.push(text_in(affected[i].0.as_str(), st.comp_name));
            let mut version = String::from_str(": ");
            version.append(affected[i].1.as_str());
            more.push(string_in(version, st.version));
            add_pieces(&mut pieces, more);
            i += 1;
        }
        assert(pairs.take(i as int) =~= pairs);
        pieces.push(text_in(" ]", st.indent.bold()));
        pieces
    }

    /// The paragraph with the identifier of a vulnerability.
    fn id_line(&self, id: &Option<String>) -> (pieces: Vec<StyledText>)
        ensures
            paragraph_view(pieces@) == id_paragraph(*id, self.styles()),
    {
        let st = self.styles;
        match id {
            Some(text) => two_pieces(text_in("ID: ", st.normal), text_in(text.as_str(), st.cve_id)),
            None => one_piece(text_in("ID: N/A", st.normal)),
        }
    }

    /// The paragraphs with the description of a vulnerability.
    fn description_lines(&self, description: &Option<String>) -> (items: Vec<LayoutItem>)
        ensures
            layout_view(items@) == description_paragraphs(*description, self.styles()),
    {
        let st = self.styles;
        let mut items: Vec<LayoutItem> = Vec::new();
        let shown: Option<&String> = match description {
            Some(text) => if text.as_str().unicode_len() > 0 {
                Some(text)
            } else {
                None
            },
            None => None,
        };
        match shown {
            Some(text) => {
                let lines = lines_of(text.as_str());
                let ghost split = split_lines(text@);
                let first = two_pieces(
                    text_in("Description: ", st.indent.bold()),
                    string_in(trim(lines[0].as_str()), st.indent),
                );
                items.push(LayoutItem::Paragraph(first));
                let ghost head = layout_view(items@);
                let mut i: usize = 1;
                while i < lines.len()
                    invariant
                        1 <= i <= lines.len(),
                        split == lines@.map_values(|line: String| line@),
                        layout_view(items@) == head + further_lines(
                            split.skip(1).take(i - 1),
                            st,
                        ),
                    decreases lines.len() - i,
                {
                    let ghost before = layout_view(items@);
                    let line = one_piece(string_in(trim(lines[i].as_str()), st.indent));
                    items.push(LayoutItem::Paragraph(line));
                    proof {
                        let next = LayoutItemView::Paragraph(
                            seq![styled(trimmed(split[i as int]), st.indent)],
                        );
                        assert(layout_view(items@) =~= before.push(next));
                    }
                    i += 1;
                }
            },
            None => {
                let missing = two_pieces(
                    text_in("Description: ", st.indent.bold()),
                    text_in("N/A", st.indent),
                );
                items.push(LayoutItem::Paragraph(missing));
            },
        }
        items
    }

    /// The list entries for the ratings of a vulnerability.
    fn rating_list(&self, ratings: &Vec<RatingInfo>) -> (entries: Vec<Vec<StyledText>>)
        ensures
            paragraphs_view(entries@) == rating_entries(ratings@, self.styles()),
    {
        let st = self.styles;
        let mut entries: Vec<Vec<StyledText>> = Vec::new();
        let mut i: usize = 0;
        while i < ratings.len()
            invariant
                i <= ratings.len(),
                paragraphs_view(entries@) == rating_entries(ratings@.take(i as int), st),
            decreases ratings.len() - i,
        {
            proof {
                assert(ratings@.take(i + 1).drop_last() =~= ratings@.take(i as int));
            }
            let rating = &ratings[i];
            match &rating.severity {
                Some(severity) => {
                    let mut summary = severity.clone();
                    summary.append(" (");
                    match &rating.method {
                        Some(method) => {
                            summary.append(method.as_str());
                        },
                        None => {
                            summary.append("N/A");
                        },
                    }
                    let mut entry = two_pieces(
                        text_in("Severity: ", st.indent.bold()),
                        string_in(summary, st.indent),
                    );
                    match &rating.source {
                        Some(Some(name)) => {
                            let source = two_pieces(
                                text_in(" \u{2014} Source: ", st.indent),
                                text_in(name.as_str(), st.indent),
                            );
                            add_pieces(&mut entry, source);
                        },
                        _ => {},
                    }
                    let ghost middle = paragraph_view(entry@);
                    entry.push(text_in(")", st.indent));
                    assert(paragraph_view(entry@) =~= middle.push(styled(")"@, st.indent)));
                    assert(paragraph_view(entry@) =~= rating_entry(*rating, severity@, st));
                    entries.push(entry);
                },
                None => {},
            }
            i += 1;
        }
        assert(ratings@.take(i as int) =~= ratings@);
        entries
    }

    /// The layout of one vulnerability.
    fn vulnerability_items(&self, v: &VulnerabilityInfo, components: &Vec<ComponentInfo>) -> (items:
        Vec<LayoutItem>)
        ensures
            layout_view(items@) == vulnerability_layout(*v, components@, self.styles()),
    {
        let st = self.styles;
        let mut items: Vec<LayoutItem> = Vec::new();
        items.push(LayoutItem::Paragraph(self.id_line(&v.id)));
        assert(layout_view(items@) =~= seq![LayoutItemView::Paragraph(id_paragraph(v.id, st))]);
        add_layout(&mut items, self.description_lines(&v.description));
        let ratings = match &v.ratings {
            Some(list) => self.rating_list(list),
            None => {
                let none: Vec<Vec<StyledText>> = Vec::new();
                assert(paragraphs_view(none@) =~= Seq::<Seq<StyledTextView>>::empty());
                none
            },
        };
        items.push(LayoutItem::Break(1));
        items.push(LayoutItem::BulletList(ratings));
        if Self::any_reference(components) {
            match &v.targets {
                Some(targets) => {
                    let found = Self::affected(targets, components);
                    let line = self.affected_line(&found);
                    items.push(LayoutItem::Break(1));
                    items.push(LayoutItem::Paragraph(line));
                },
                None => {},
            }
        }
        items.push(LayoutItem::Break(2));
        items
    }

    /// The section on the vulnerabilities.
    fn render_vulns(&self, vex: &BomInfo) -> (items: Vec<DocumentItem>)
        ensures
            document_view(items@) == vulnerabilities_items(
                *vex,
                self.config_view(),
                self.styles(),
            ),
    {
        let st = self.styles;
        let none: Vec<ComponentInfo> = Vec::new();
        let components: &Vec<ComponentInfo> = match &vex.components {
            Some(list) => list,
            None => &none,
        };
        let vulns_available = match &vex.vulnerabilities {
            Some(list) => list.len() > 0,
            None => false,
        };
        let show_vulns_section = vulns_available || self.config.show_novulns_msg;
        let mut items: Vec<DocumentItem> = Vec::new();
        if show_vulns_section {
            add_paragraph(&mut items, one_piece(text_in("Vulnerabilities", st.header)));
            add_break(&mut items, 2);
        }
        let ghost heading = document_view(items@);
        match &vex.vulnerabilities {
            Some(list) => {
                let mut layouts: Vec<Vec<LayoutItem>> = Vec::with_capacity(list.len());
                let mut i: usize = 0;
                while i < list.len()
                    invariant
                        i <= list.len(),
                        st == self.styles(),
                        layouts_view(layouts@) == vulnerability_layouts(
                            list@.take(i as int),
                            components@,
                            st,
                        ),
                    decreases list.len() - i,
                {
                    let ghost before = layouts_view(layouts@);
                    let layout = self.vulnerability_items(&list[i], components);
                    layouts.push(layout);
                    assert(layouts_view(layouts@) =~= before.push(layout_view(layout@)));
                    i += 1;
                }
                assert(list@.take(i as int) =~= list@);
                items.push(DocumentItem::NumberedList(layouts));
                assert(document_view(items@) =~= heading.push(
                    DocumentItemView::NumberedList(layouts_view(layouts@)),
                ));
                add_break(&mut items, 1);
            },
            None => {},
        }
        if !vulns_available && self.config.show_novulns_msg {
            let ghost before = document_view(items@);
            let vulns_style = TextStyle::new().bold().with_font_size(16).with_color(
                Rgb { red: 0, green: 100, blue: 0 },
            );
            items.push(
                DocumentItem::Notice(String::from_str("No Vulnerabilities reported"), vulns_style),
            );
            assert(document_view(items@) =~= before.push(
                DocumentItemView::Notice("No Vulnerabilities reported"@, notice_style()),
            ));
            add_break(&mut items, 2);
        }
        items
    }

    /// The section on the components.
    fn render_components(&self, vex: &BomInfo) -> (items: Vec<DocumentItem>)
        ensures
            document_view(items@) == components_items(*vex, self.styles()),
    {
        let st = self.styles;
        let mut items: Vec<DocumentItem> = Vec::new();
        match &vex.components {
            Some(components) => {
                add_paragraph(&mut items, one_piece(text_in("Components", st.header)));
                add_break(&mut items, 1);
                let ghost heading = document_view(items@);
                let mut i: usize = 0;
                while i < components.len()
                    invariant
                        i <= components.len(),
                        document_view(items@) == heading + components_lines(
                            components@.take(i as int),
                            st,
                        ),
                    decreases components.len() - i,
                {
                    proof {
                        assert(components@.take(i + 1).drop_last() =~= components@.take(i as int));
                    }
                    let component = &components[i];
                    let mut lines: Vec<DocumentItem> = Vec::new();
                    add_paragraph(
                        &mut lines,
                        two_pieces(
                            text_in("Name: ", st.indent),
                            text_in(component.name.as_str(), st.comp_name),
                        ),
                    );
                    match &component.version {
                        Some(version) => {
                            add_paragraph(
                                &mut lines,
                                two_pieces(
                                    text_in("Version: ", st.indent),
                                    text_in(version.as_str(), st.version),
                                ),
                            );
                        },
                        None => {},
                    }
                    add_break(&mut lines, 1);
                    add_items(&mut items, lines);
                    i += 1;
                }
                assert(components@.take(i as int) =~= components@);
            },
            None => {},
        }
        items
    }

    /// Makes the report of a document: the titles and the elements in the order
    /// in which they are drawn.
    pub fn generate_pdf(&self, vex: &BomInfo) -> (plan: PdfPlan)
        ensures
            plan@ == (
                doc_meta_name(self.config_view()),
                report_title(self.config_view()),
                report_items(*vex, self.config_view(), self.styles()),
            ),
    {
        let st = self.styles;
        let document_title = self.get_report_title();
        let pdf_title = self.get_doc_meta_name();
        let mut items: Vec<DocumentItem> = Vec::new();
        add_paragraph(&mut items, one_piece(text_in(document_title.as_str(), st.title)));
        add_break(&mut items, 2);
        match &vex.metadata {
            Some(metadata) => {
                add_items(&mut items, self.render_metadata(metadata));
            },
            None => {},
        }
        add_items(&mut items, self.render_bom(vex));
        if !self.config.pure_bom_novulns {
            add_items(&mut items, self.render_vulns(vex));
        }
        if self.config.pure_bom_novulns || self.config.show_components {
            add_items(&mut items, self.render_components(vex));
        }
        PdfPlan { meta_title: pdf_title, report_title: document_title, items }
    }
}

/// The texts of a pair of strings.
pub open spec fn pair_view(pair: (String, String)) -> (Seq<char>, Seq<char>) {
    (pair.0@, pair.1@)
}

/// The texts of an optional pair of strings.
pub open spec fn pair_option_view(pair: Option<(String, String)>) -> Option<
    (Seq<char>, Seq<char>),
> {
    match pair {
        Some(p) => Some(pair_view(p)),
        None => None,
    }
}

/// The texts of a sequence of pairs of strings, in order.
pub open spec fn pairs_view(pairs: Seq<(String, String)>) -> Seq<(Seq<char>, Seq<char>)> {
    pairs.map_values(|p: (String, String)| pair_view(p))
}

} // verus!
