use std::sync::Arc;
use vex2pdf::lib_utils::config::Config;
use vex2pdf::pdf::document::{
    BomInfo, ComponentInfo, MetadataInfo, RatingInfo, ServiceInfo, ToolInfo, ToolsInfo,
    VulnerabilityInfo,
};
use vex2pdf::pdf::generator::{PageHeader, PdfGenerator};
use vex2pdf::pdf::layout::{DocumentItem, LayoutItem, Rgb, StyledText, TextStyle};

fn style(size: u8, red: u8, green: u8, blue: u8) -> TextStyle {
    TextStyle {
        font_size: Some(size),
        color: Some(Rgb { red, green, blue }),
        bold: false,
        italic: false,
    }
}

fn title() -> TextStyle {
    style(18, 0, 0, 80)
}

fn header() -> TextStyle {
    style(14, 0, 0, 80)
}

fn normal() -> TextStyle {
    TextStyle {
        font_size: Some(11),
        color: None,
        bold: false,
        italic: false,
    }
}

fn indent() -> TextStyle {
    style(10, 40, 40, 40)
}

fn comp_name() -> TextStyle {
    TextStyle {
        italic: true,
        ..style(10, 0, 51, 102)
    }
}

fn version() -> TextStyle {
    style(10, 128, 128, 128)
}

fn cve_id() -> TextStyle {
    TextStyle {
        bold: true,
        ..style(11, 139, 0, 0)
    }
}

fn bold(style: TextStyle) -> TextStyle {
    TextStyle {
        bold: true,
        ..style
    }
}

fn italic(style: TextStyle) -> TextStyle {
    TextStyle {
        italic: true,
        ..style
    }
}

fn piece(text: &str, style: TextStyle) -> StyledText {
    StyledText {
        text: text.to_string(),
        style: Some(style),
    }
}

fn bare(text: &str) -> StyledText {
    StyledText {
        text: text.to_string(),
        style: None,
    }
}

fn para(pieces: Vec<StyledText>) -> DocumentItem {
    DocumentItem::Plain(LayoutItem::Paragraph(pieces))
}

fn gap(half_lines: u8) -> DocumentItem {
    DocumentItem::Plain(LayoutItem::Break(half_lines))
}

fn component(name: &str, version: Option<&str>, bom_ref: Option<&str>) -> ComponentInfo {
    ComponentInfo {
        name: name.to_string(),
        version: version.map(String::from),
        bom_ref: bom_ref.map(String::from),
    }
}

fn empty_bom() -> BomInfo {
    BomInfo {
        spec_version: String::from("1.5"),
        version: 1,
        serial_number: None,
        metadata: None,
        components: None,
        vulnerabilities: None,
    }
}

fn generator(config: Config) -> PdfGenerator {
    PdfGenerator::new(Arc::new(config))
}

fn bom_lines(spec_version: &str, version: &str, serial: Option<&str>) -> Vec<DocumentItem> {
    let mut items = vec![
        para(vec![
            piece("BOM Format: ", bold(normal())),
            piece("CycloneDX", normal()),
        ]),
        para(vec![
            piece("Specification Version: ", bold(normal())),
            piece(spec_version, normal()),
        ]),
        para(vec![
            piece("Version: ", bold(normal())),
            piece(version, normal()),
        ]),
    ];
    if let Some(serial) = serial {
        items.push(para(vec![
            piece("Serial Number: ", bold(normal())),
            piece(serial, normal()),
        ]));
    }
    items.push(gap(4));
    items
}

fn no_vulnerabilities_section() -> Vec<DocumentItem> {
    vec![
        para(vec![piece("Vulnerabilities", header())]),
        gap(2),
        DocumentItem::Notice(
            String::from("No Vulnerabilities reported"),
            bold(style(16, 0, 100, 0)),
        ),
        gap(2),
    ]
}

#[test]
fn titles_follow_the_settings_and_the_sort_of_report() {
    let defaults = generator(Config::default());
    assert_eq!(defaults.get_report_title(), "Vulnerability Report Document");
    assert_eq!(defaults.get_doc_meta_name(), "VEX Vulnerability Report");

    let mut config = Config::default();
    config.report_title = None;
    config.pdf_meta_name = None;
    let unnamed = generator(config);
    assert_eq!(unnamed.get_report_title(), "Vulnerability Report Document");
    assert_eq!(unnamed.get_doc_meta_name(), "Vulnerability Report");

    let mut config = Config::default().pure_bom_novulns(true);
    config.report_title = None;
    config.pdf_meta_name = None;
    let pure = generator(config);
    assert_eq!(pure.get_report_title(), "Bill of Materials Document");
    assert_eq!(pure.get_doc_meta_name(), "Bill of Materials");

    let custom = generator(
        Config::default()
            .pure_bom_novulns(true)
            .report_title("Q4")
            .pdf_meta_name("Meta"),
    );
    assert_eq!(custom.get_report_title(), "Q4");
    assert_eq!(custom.get_doc_meta_name(), "Meta");
}

#[test]
fn report_of_an_empty_document() {
    let plan = generator(Config::default()).generate_pdf(&empty_bom());

    assert_eq!(plan.meta_title, "VEX Vulnerability Report");
    assert_eq!(plan.report_title, "Vulnerability Report Document");
    let mut expected = vec![
        para(vec![piece("Vulnerability Report Document", title())]),
        gap(2),
    ];
    expected.extend(bom_lines("1.5", "1", None));
    expected.extend(no_vulnerabilities_section());
    assert_eq!(plan.items, expected);
}

#[test]
fn absence_of_vulnerabilities_is_said_only_when_asked() {
    let plan = generator(Config::default().show_novulns_msg(false)).generate_pdf(&empty_bom());
    let mut expected = vec![
        para(vec![piece("Vulnerability Report Document", title())]),
        gap(2),
    ];
    expected.extend(bom_lines("1.5", "1", None));
    assert_eq!(plan.items, expected);

    let mut bom = empty_bom();
    bom.vulnerabilities = Some(Vec::new());
    let plan = generator(Config::default().show_novulns_msg(false)).generate_pdf(&bom);
    let mut expected = vec![
        para(vec![piece("Vulnerability Report Document", title())]),
        gap(2),
    ];
    expected.extend(bom_lines("1.5", "1", None));
    expected.push(DocumentItem::NumberedList(Vec::new()));
    expected.push(gap(1));
    assert_eq!(plan.items, expected);

    let plan = generator(Config::default()).generate_pdf(&bom);
    let mut expected = vec![
        para(vec![piece("Vulnerability Report Document", title())]),
        gap(2),
    ];
    expected.extend(bom_lines("1.5", "1", None));
    expected.push(para(vec![piece("Vulnerabilities", header())]));
    expected.push(gap(2));
    expected.push(DocumentItem::NumberedList(Vec::new()));
    expected.push(gap(1));
    expected.push(DocumentItem::Notice(
        String::from("No Vulnerabilities reported"),
        bold(style(16, 0, 100, 0)),
    ));
    expected.push(gap(2));
    assert_eq!(plan.items, expected);
}

#[test]
fn metadata_section_with_a_list_of_tools() {
    let mut bom = empty_bom();
    bom.version = 42;
    bom.serial_number = Some(String::from("urn:uuid:3e671687-395b-41f5-a30f-a58921a69b79"));
    bom.metadata = Some(MetadataInfo {
        timestamp: Some(String::from("2024-01-02T03:04:05Z")),
        tools: Some(ToolsInfo::List(vec![
            ToolInfo {
                name: Some(String::from("my_tool")),
                version: None,
            },
            ToolInfo {
                name: None,
                version: Some(String::from("9")),
            },
            ToolInfo {
                name: Some(String::from("other")),
                version: Some(String::from("2.1")),
            },
        ])),
        component: Some(component("product", Some("7"), None)),
    });
    let plan = generator(Config::default().show_novulns_msg(false)).generate_pdf(&bom);

    let mut expected = vec![
        para(vec![piece("Vulnerability Report Document", title())]),
        gap(2),
        para(vec![piece("Document Information", header())]),
        gap(2),
        para(vec![piece("Date: 2024-01-02T03:04:05Z", italic(normal()))]),
        gap(2),
        para(vec![piece("Tools:", bold(normal()))]),
        DocumentItem::Plain(LayoutItem::BulletList(vec![
            vec![piece("my_tool", indent())],
            vec![piece("other", indent()), piece(" (2.1)", version())],
        ])),
        gap(2),
        para(vec![
            piece("Component name : ", bold(normal())),
            piece("product", indent()),
            piece(" (7)", version()),
        ]),
        gap(2),
    ];
    expected.extend(bom_lines(
        "1.5",
        "42",
        Some("urn:uuid:3e671687-395b-41f5-a30f-a58921a69b79"),
    ));
    assert_eq!(plan.items, expected);
}

#[test]
fn metadata_section_with_components_and_services_as_tools() {
    let mut bom = empty_bom();
    bom.metadata = Some(MetadataInfo {
        timestamp: None,
        tools: Some(ToolsInfo::Object(
            Some(vec![ServiceInfo {
                name: String::from("scanner service"),
                version: Some(String::from("3")),
            }]),
            Some(vec![
                component("builder", None, None),
                component("packer", Some("1.2"), Some("ref")),
            ]),
        )),
        component: None,
    });
    let plan = generator(Config::default().show_novulns_msg(false)).generate_pdf(&bom);

    let mut expected = vec![
        para(vec![piece("Vulnerability Report Document", title())]),
        gap(2),
        para(vec![piece("Document Information", header())]),
        gap(2),
        gap(2),
        para(vec![piece("Tools:", bold(normal()))]),
        DocumentItem::Plain(LayoutItem::BulletList(vec![
            vec![piece("builder", indent())],
            vec![piece("packer", indent()), piece(" (1.2)", version())],
            vec![piece("scanner service", indent()), piece(" (3)", version())],
        ])),
        gap(2),
        gap(2),
    ];
    expected.extend(bom_lines("1.5", "1", None));
    assert_eq!(plan.items, expected);
}

#[test]
fn vulnerability_with_description_ratings_and_targets() {
    let mut bom = empty_bom();
    bom.components = Some(vec![
        component("libfoo", Some("1.0"), Some("ref-foo")),
        component("libbar", None, Some("ref-bar")),
        component("unreferenced", Some("2"), None),
        component("libfoo-new", Some("1.1"), Some("ref-foo")),
    ]);
    bom.vulnerabilities = Some(vec![
        VulnerabilityInfo {
            id: Some(String::from("CVE-2024-0001")),
            description: Some(String::from("  first line \n\tsecond line\n\nlast ")),
            ratings: Some(vec![
                RatingInfo {
                    method: Some(String::from("CVSSv31")),
                    source: Some(Some(String::from("NVD"))),
                    severity: Some(String::from("high")),
                },
                RatingInfo {
                    method: Some(String::from("other")),
                    source: None,
                    severity: None,
                },
                RatingInfo {
                    method: None,
                    source: Some(None),
                    severity: Some(String::from("low")),
                },
            ]),
            targets: Some(vec![
                String::from("ref-bar"),
                String::from("ref-missing"),
                String::from("ref-foo"),
            ]),
        },
        VulnerabilityInfo {
            id: None,
            description: Some(String::new()),
            ratings: None,
            targets: None,
        },
    ]);
    let plan = generator(Config::default().show_components(false)).generate_pdf(&bom);

    let first = vec![
        LayoutItem::Paragraph(vec![
            piece("ID: ", normal()),
            piece("CVE-2024-0001", cve_id()),
        ]),
        LayoutItem::Paragraph(vec![
            piece("Description: ", bold(indent())),
            piece("first line", indent()),
        ]),
        LayoutItem::Paragraph(vec![piece("second line", indent())]),
        LayoutItem::Paragraph(vec![piece("", indent())]),
        LayoutItem::Paragraph(vec![piece("last", indent())]),
        LayoutItem::Break(1),
        LayoutItem::BulletList(vec![
            vec![
                piece("Severity: ", bold(indent())),
                piece("high (CVSSv31", indent()),
                piece(" \u{2014} Source: ", indent()),
                piece("NVD", indent()),
                piece(")", indent()),
            ],
            vec![
                piece("Severity: ", bold(indent())),
                piece("low (N/A", indent()),
                piece(")", indent()),
            ],
        ]),
        LayoutItem::Break(1),
        LayoutItem::Paragraph(vec![
            piece("Affected Document Components : [ ", bold(indent())),
            piece("libbar", comp_name()),
            piece(": undefined", version()),
            bare(", "),
            piece("libfoo-new", comp_name()),
            piece(": 1.1", version()),
            piece(" ]", bold(indent())),
        ]),
        LayoutItem::Break(2),
    ];
    let second = vec![
        LayoutItem::Paragraph(vec![piece("ID: N/A", normal())]),
        LayoutItem::Paragraph(vec![
            piece("Description: ", bold(indent())),
            piece("N/A", indent()),
        ]),
        LayoutItem::Break(1),
        LayoutItem::BulletList(Vec::new()),
        LayoutItem::Break(2),
    ];
    let mut expected = vec![
        para(vec![piece("Vulnerability Report Document", title())]),
        gap(2),
    ];
    expected.extend(bom_lines("1.5", "1", None));
    expected.push(para(vec![piece("Vulnerabilities", header())]));
    expected.push(gap(2));
    expected.push(DocumentItem::NumberedList(vec![first, second]));
    expected.push(gap(1));
    assert_eq!(plan.items, expected);
}

#[test]
fn affected_components_are_listed_only_where_components_have_references() {
    let mut bom = empty_bom();
    bom.components = Some(vec![component("libfoo", Some("1.0"), None)]);
    bom.vulnerabilities = Some(vec![VulnerabilityInfo {
        id: Some(String::from("X-1")),
        description: None,
        ratings: Some(Vec::new()),
        targets: Some(vec![String::from("ref-foo")]),
    }]);
    let plan = generator(Config::default().show_components(false)).generate_pdf(&bom);
    let layout = vec![
        LayoutItem::Paragraph(vec![piece("ID: ", normal()), piece("X-1", cve_id())]),
        LayoutItem::Paragraph(vec![
            piece("Description: ", bold(indent())),
            piece("N/A", indent()),
        ]),
        LayoutItem::Break(1),
        LayoutItem::BulletList(Vec::new()),
        LayoutItem::Break(2),
    ];
    assert_eq!(plan.items[8], DocumentItem::NumberedList(vec![layout]));

    bom.components = Some(vec![component("libfoo", Some("1.0"), Some("other"))]);
    let plan = generator(Config::default().show_components(false)).generate_pdf(&bom);
    let layout = vec![
        LayoutItem::Paragraph(vec![piece("ID: ", normal()), piece("X-1", cve_id())]),
        LayoutItem::Paragraph(vec![
            piece("Description: ", bold(indent())),
            piece("N/A", indent()),
        ]),
        LayoutItem::Break(1),
        LayoutItem::BulletList(Vec::new()),
        LayoutItem::Break(1),
        LayoutItem::Paragraph(vec![
            piece("Affected Document Components : [ ", bold(indent())),
            piece(" ]", bold(indent())),
        ]),
        LayoutItem::Break(2),
    ];
    assert_eq!(plan.items[8], DocumentItem::NumberedList(vec![layout]));
}

#[test]
fn components_section_follows_the_settings() {
    let mut bom = empty_bom();
    bom.components = Some(vec![
        component("libfoo", Some("1.0"), None),
        component("libbar", None, None),
    ]);
    let components = || {
        vec![
            para(vec![piece("Components", header())]),
            gap(1),
            para(vec![piece("Name: ", indent()), piece("libfoo", comp_name())]),
            para(vec![piece("Version: ", indent()), piece("1.0", version())]),
            gap(1),
            para(vec![piece("Name: ", indent()), piece("libbar", comp_name())]),
            gap(1),
        ]
    };

    let plan = generator(Config::default()).generate_pdf(&bom);
    let mut expected = vec![
        para(vec![piece("Vulnerability Report Document", title())]),
        gap(2),
    ];
    expected.extend(bom_lines("1.5", "1", None));
    expected.extend(no_vulnerabilities_section());
    expected.extend(components());
    assert_eq!(plan.items, expected);

    let plan = generator(Config::default().show_components(false)).generate_pdf(&bom);
    let mut expected = vec![
        para(vec![piece("Vulnerability Report Document", title())]),
        gap(2),
    ];
    expected.extend(bom_lines("1.5", "1", None));
    expected.extend(no_vulnerabilities_section());
    assert_eq!(plan.items, expected);

    let mut config = Config::default()
        .pure_bom_novulns(true)
        .show_components(false);
    config.report_title = None;
    let plan = generator(config).generate_pdf(&bom);
    let mut expected = vec![
        para(vec![piece("Bill of Materials Document", title())]),
        gap(2),
    ];
    expected.extend(bom_lines("1.5", "1", None));
    expected.extend(components());
    assert_eq!(plan.items, expected);
    assert_eq!(plan.report_title, "Bill of Materials Document");
}

#[test]
fn page_header_starts_on_the_second_page() {
    assert_eq!(PdfGenerator::page_header("Report", 0), None);
    assert_eq!(PdfGenerator::page_header("Report", 1), None);
    assert_eq!(
        PdfGenerator::page_header("Report", 2),
        Some(PageHeader {
            title: String::from("Report"),
            page_line: String::from("Page 2"),
            gap: 4,
        })
    );
    assert_eq!(
        PdfGenerator::page_header("Report", 120).unwrap().page_line,
        "Page 120"
    );
    assert_eq!(PdfGenerator::page_header_style(), style(10, 0, 0, 80));
}

#[test]
fn default_generator_goes_by_the_default_settings() {
    let generator = PdfGenerator::default();
    assert_eq!(generator.get_report_title(), "Vulnerability Report Document");
    assert_eq!(generator.get_doc_meta_name(), "VEX Vulnerability Report");
}

#[test]
fn styles_are_built_step_by_step() {
    let plain = TextStyle::new();
    assert_eq!(
        plain,
        TextStyle {
            font_size: None,
            color: None,
            bold: false,
            italic: false
        }
    );
    let built = plain
        .with_font_size(12)
        .with_color(Rgb {
            red: 1,
            green: 2,
            blue: 3,
        })
        .bold()
        .italic();
    assert_eq!(
        built,
        TextStyle {
            font_size: Some(12),
            color: Some(Rgb {
                red: 1,
                green: 2,
                blue: 3
            }),
            bold: true,
            italic: true
        }
    );
}
