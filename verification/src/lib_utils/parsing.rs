//! Parsing of CycloneDX documents, with the fallback for documents of
//! specification version 1.6: such a document is read as one of version 1.5,
//! which works as long as it uses nothing that version 1.6 added.
//!
//! The parsers are those of the crate `cyclonedx_bom`. This module decides when
//! the fallback is tried and what is reported.
use vstd::prelude::*;

verus! {

/// The document of `cyclonedx_bom`, of which nothing is known here: it is
/// handed on to the caller as the parser made it.
#[verifier::external_type_specification]
#[verifier::external_body]
pub struct ExBom(cyclonedx_bom::models::bom::Bom);

/// The JSON value of `serde_json`, of which nothing is known here.
#[verifier::external_type_specification]
#[verifier::external_body]
pub struct ExJsonValue(serde_json::Value);

/// Why a JSON document was not parsed.
#[derive(Debug)]
pub enum JsonFailure {
    /// The document names a specification version that the parser does not
    /// know: the version, and the parser's message.
    UnsupportedSpecVersion(String, String),
    /// Any other failure, with the parser's message.
    Other(String),
}

/// Why an XML document was not parsed.
#[derive(Debug)]
pub enum XmlFailure {
    /// The document stands in another namespace than the parser expects: the
    /// expected namespace, the one found if any, and the parser's message.
    InvalidNamespace(String, Option<String>, String),
    /// Any other failure, with the parser's message.
    Other(String),
}

/// The mathematical value of a [`JsonFailure`].
pub enum JsonFailureView {
    UnsupportedSpecVersion(Seq<char>, Seq<char>),
    Other(Seq<char>),
}

/// The mathematical value of an [`XmlFailure`].
pub enum XmlFailureView {
    InvalidNamespace(Seq<char>, Option<Seq<char>>, Seq<char>),
    Other(Seq<char>),
}

impl View for JsonFailure {
    type V = JsonFailureView;

    open spec fn view(&self) -> JsonFailureView {
        match self {
            JsonFailure::UnsupportedSpecVersion(version, message) => {
                JsonFailureView::UnsupportedSpecVersion(version@, message@)
            },
            JsonFailure::Other(message) => JsonFailureView::Other(message@),
        }
    }
}

impl View for XmlFailure {
    type V = XmlFailureView;

    open spec fn view(&self) -> XmlFailureView {
        match self {
            XmlFailure::InvalidNamespace(expected, Some(actual), message) => {
                XmlFailureView::InvalidNamespace(expected@, Some(actual@), message@)
            },
            XmlFailure::InvalidNamespace(expected, None, message) => {
                XmlFailureView::InvalidNamespace(expected@, None, message@)
            },
            XmlFailure::Other(message) => XmlFailureView::Other(message@),
        }
    }
}

/// The failure with which `cyclonedx_bom` refuses a JSON document, or `None`
/// where it parses the document.
pub uninterp spec fn json_parse_failure(content: Seq<u8>) -> Option<JsonFailureView>;

/// The failure with which `cyclonedx_bom` refuses an XML document as one of
/// specification version 1.5, or `None` where it parses the document.
pub uninterp spec fn xml_parse_failure(content: Seq<u8>) -> Option<XmlFailureView>;

/// The JSON value that `serde_json::from_slice` reads from bytes, or the
/// message of its failure.
pub uninterp spec fn json_value_read(content: Seq<u8>) -> Result<serde_json::Value, Seq<char>>;

/// A JSON value with one of its fields set to a text, as `Map::insert` of
/// `serde_json` sets it on an object; a value that is no object stays as it is.
pub uninterp spec fn json_with_text(value: serde_json::Value, key: Seq<char>, text: Seq<char>)
    -> serde_json::Value;

/// The message with which `cyclonedx_bom` refuses a JSON value, or `None` where
/// it parses the value.
pub uninterp spec fn json_value_parse_failure(value: serde_json::Value) -> Option<Seq<char>>;

/// The text that `String::from_utf8_lossy` makes of bytes.
pub uninterp spec fn utf8_lossy_text(content: Seq<u8>) -> Seq<char>;

/// The text that `str::replace` makes of a text by replacing each match of a
/// pattern.
pub uninterp spec fn replaced_text(text: Seq<char>, from: Seq<char>, to: Seq<char>) -> Seq<char>;

/// Whether `pattern` stands somewhere in `text`.
pub open spec fn is_substring(pattern: Seq<char>, text: Seq<char>) -> bool {
    exists|i: int|
        0 <= i && i + pattern.len() <= text.len() && #[trigger] text.subrange(
            i,
            i + pattern.len(),
        ) == pattern
}

/// The failure of a parse, `None` for a success.
pub open spec fn json_failure_of(
    res: Result<cyclonedx_bom::models::bom::Bom, JsonFailure>,
) -> Option<JsonFailureView> {
    match res {
        Ok(_) => None,
        Err(failure) => Some(failure@),
    }
}

/// The failure of a parse, `None` for a success.
pub open spec fn xml_failure_of(
    res: Result<cyclonedx_bom::models::bom::Bom, XmlFailure>,
) -> Option<XmlFailureView> {
    match res {
        Ok(_) => None,
        Err(failure) => Some(failure@),
    }
}

/// Calls `Bom::parse_from_json` of `cyclonedx_bom` on the bytes of a document.
/// Whether and how the parse fails is claimed to be a function of the bytes,
/// named [`json_parse_failure`]. The error's variants are told apart and its
/// message is kept.
#[verifier::external_body]
fn bom_from_json(content: &[u8]) -> (res: Result<cyclonedx_bom::models::bom::Bom, JsonFailure>)
    ensures
        json_failure_of(res) == json_parse_failure(content@),
{
    match cyclonedx_bom::models::bom::Bom::parse_from_json(content) {
        Ok(bom) => Ok(bom),
        Err(e) => {
            let message = e.to_string();
            match e {
                cyclonedx_bom::errors::JsonReadError::BomError {
                    error: cyclonedx_bom::errors::BomError::UnsupportedSpecVersion(version),
                } => Err(JsonFailure::UnsupportedSpecVersion(version, message)),
                _ => Err(JsonFailure::Other(message)),
            }
        },
    }
}

/// Calls `Bom::parse_from_xml_v1_5` of `cyclonedx_bom` on the bytes of a
/// document. Whether and how the parse fails is claimed to be a function of the
/// bytes, named [`xml_parse_failure`]. The error's variants are told apart and
/// its message is kept.
#[verifier::external_body]
fn bom_from_xml(content: &[u8]) -> (res: Result<cyclonedx_bom::models::bom::Bom, XmlFailure>)
    ensures
        xml_failure_of(res) == xml_parse_failure(content@),
{
    match cyclonedx_bom::models::bom::Bom::parse_from_xml_v1_5(content) {
        Ok(bom) => Ok(bom),
        Err(e) => {
            let message = e.to_string();
            match e {
                cyclonedx_bom::errors::XmlReadError::InvalidNamespaceError {
                    expected_namespace,
                    actual_namespace,
                } => Err(XmlFailure::InvalidNamespace(expected_namespace, actual_namespace, message)),
                _ => Err(XmlFailure::Other(message)),
            }
        },
    }
}

/// What was read from bytes: the value, or the text of the message.
pub open spec fn json_read_view(res: Result<serde_json::Value, String>) -> Result<
    serde_json::Value,
    Seq<char>,
> {
    match res {
        Ok(value) => Ok(value),
        Err(message) => Err(message@),
    }
}

/// The message of a failed parse, `None` for a success.
pub open spec fn parse_message(res: Result<cyclonedx_bom::models::bom::Bom, String>) -> Option<
    Seq<char>,
> {
    match res {
        Ok(_) => None,
        Err(message) => Some(message@),
    }
}

/// Calls `serde_json::from_slice` to read bytes as a JSON value. The error is
/// handed on as its message. The outcome is claimed to be a function of the
/// bytes, named [`json_value_read`].
#[verifier::external_body]
fn json_value_from_slice(content: &[u8]) -> (res: Result<serde_json::Value, String>)
    ensures
        json_read_view(res) == json_value_read(content@),
{
    match serde_json::from_slice::<serde_json::Value>(content) {
        Ok(value) => Ok(value),
        Err(e) => Err(e.to_string()),
    }
}

/// Calls `Map::insert` of `serde_json` on a JSON object, to set one of its
/// fields to a text. A value that is no object is handed back as it is. The
/// result is claimed to be a function of the value and the two texts, named
/// [`json_with_text`].
#[verifier::external_body]
fn json_with_text_field(value: serde_json::Value, key: &str, text: &str) -> (out:
    serde_json::Value)
    ensures
        out == json_with_text(value, key@, text@),
{
    let mut value = value;
    if let Some(fields) = value.as_object_mut() {
        fields.insert(key.to_string(), serde_json::Value::String(text.to_string()));
    }
    value
}

/// Calls `Bom::parse_json_value` of `cyclonedx_bom`. The error is handed on as
/// its message. Whether and with which message the parse fails is claimed to be
/// a function of the value, named [`json_value_parse_failure`].
#[verifier::external_body]
fn bom_from_json_value(value: serde_json::Value) -> (res: Result<
    cyclonedx_bom::models::bom::Bom,
    String,
>)
    ensures
        parse_message(res) == json_value_parse_failure(value),
{
    match cyclonedx_bom::models::bom::Bom::parse_json_value(value) {
        Ok(bom) => Ok(bom),
        Err(e) => Err(e.to_string()),
    }
}

/// Calls `String::from_utf8_lossy`. The result is claimed to be a function of
/// the bytes, named [`utf8_lossy_text`].
#[verifier::external_body]
fn utf8_lossy(content: &[u8]) -> (text: String)
    ensures
        text@ == utf8_lossy_text(content@),
{
    String::from_utf8_lossy(content).into_owned()
}

/// Calls `str::replace`. The result is claimed to be a function of the three
/// texts, named [`replaced_text`].
#[verifier::external_body]
fn replace_all(text: &str, from: &str, to: &str) -> (out: String)
    ensures
        out@ == replaced_text(text@, from@, to@),
{
    text.replace(from, to)
}

/// Calls `str::contains` with a string as pattern: whether the pattern stands
/// somewhere in the text.
#[verifier::external_body]
fn str_contains(text: &str, pattern: &str) -> (found: bool)
    ensures
        found == is_substring(pattern@, text@),
{
    text.contains(pattern)
}

/// The UTF-8 encoding of a text.
fn text_bytes(text: &str) -> (bytes: Vec<u8>)
    ensures
        bytes@ == encode_text(text@),
{
    text.as_bytes_vec()
}

/// What to do after the first attempt to parse a JSON document.
#[derive(Debug)]
pub enum JsonStep {
    /// Nothing more: the parse has ended, with the document or with the
    /// parser's message.
    Done(Result<cyclonedx_bom::models::bom::Bom, String>),
    /// Read the document again as one of version 1.5.
    Downgrade,
}

/// What to do after the first attempt to parse an XML document.
#[derive(Debug)]
pub enum XmlStep {
    /// Nothing more: the parse has ended, with the document or with the
    /// parser's message.
    Done(Result<cyclonedx_bom::models::bom::Bom, String>),
    /// Read the document again with the namespace found, which is the first
    /// text, replaced by the expected one, which is the second.
    Downgrade(String, String),
}

/// How a parse ended, and whether the fallback to version 1.5 was tried.
#[derive(Debug)]
pub struct ParseReport {
    /// The document, or the parser's message.
    pub result: Result<cyclonedx_bom::models::bom::Bom, String>,
    /// Whether the document was read again as one of version 1.5. The operator
    /// is then shown [`downgrade_warning`].
    pub downgraded: bool,
}

/// The step that follows the first attempt on a JSON document: the fallback
/// exactly when the parser refused specification version `1.6`.
pub open spec fn json_step(first: Option<JsonFailureView>) -> Option<Result<(), Seq<char>>> {
    match first {
        None => Some(Ok(())),
        Some(JsonFailureView::UnsupportedSpecVersion(version, message)) => if version == "1.6"@ {
            None
        } else {
            Some(Err(message))
        },
        Some(JsonFailureView::Other(message)) => Some(Err(message)),
    }
}

/// The step that follows the first attempt on an XML document: the fallback
/// exactly when the parser found a namespace that holds `1.6`, given as the
/// namespace found and the expected one.
pub open spec fn xml_step(first: Option<XmlFailureView>) -> Result<
    Result<(), Seq<char>>,
    (Seq<char>, Seq<char>),
> {
    match first {
        None => Ok(Ok(())),
        Some(XmlFailureView::InvalidNamespace(expected, Some(actual), message)) => if is_substring(
            "1.6"@,
            actual,
        ) {
            Err((actual, expected))
        } else {
            Ok(Err(message))
        },
        Some(XmlFailureView::InvalidNamespace(_, None, message)) => Ok(Err(message)),
        Some(XmlFailureView::Other(message)) => Ok(Err(message)),
    }
}

/// Whether a parse ended as `outcome` says: with a document, or with the
/// parser's message.
pub open spec fn ended_as(
    result: Result<cyclonedx_bom::models::bom::Bom, String>,
    outcome: Result<(), Seq<char>>,
) -> bool {
    match outcome {
        Ok(_) => result is Ok,
        Err(message) => result matches Err(text) && text@ == message,
    }
}

/// Decides what follows the first attempt on a JSON document.
pub fn after_json_parse(first: Result<cyclonedx_bom::models::bom::Bom, JsonFailure>) -> (step:
    JsonStep)
    ensures
        match json_step(json_failure_of(first)) {
            Some(outcome) => step matches JsonStep::Done(result) && ended_as(result, outcome),
            None => step is Downgrade,
        },
{
    match first {
        Ok(bom) => JsonStep::Done(Ok(bom)),
        Err(JsonFailure::UnsupportedSpecVersion(version, message)) => {
            if version == String::from_str("1.6") {
                JsonStep::Downgrade
            } else {
                JsonStep::Done(Err(message))
            }
        },
        Err(JsonFailure::Other(message)) => JsonStep::Done(Err(message)),
    }
}

/// Decides what follows the first attempt on an XML document.
pub fn after_xml_parse(first: Result<cyclonedx_bom::models::bom::Bom, XmlFailure>) -> (step:
    XmlStep)
    ensures
        match xml_step(xml_failure_of(first)) {
            Ok(outcome) => step matches XmlStep::Done(result) && ended_as(result, outcome),
            Err((actual, expected)) => step matches XmlStep::Downgrade(from, to) && from@
                == actual && to@ == expected,
        },
{
    match first {
        Ok(bom) => XmlStep::Done(Ok(bom)),
        Err(XmlFailure::InvalidNamespace(expected, Some(actual), message)) => {
            if str_contains(actual.as_str(), "1.6") {
                XmlStep::Downgrade(actual, expected)
            } else {
                XmlStep::Done(Err(message))
            }
        },
        Err(XmlFailure::InvalidNamespace(_, None, message)) => XmlStep::Done(Err(message)),
        Err(XmlFailure::Other(message)) => XmlStep::Done(Err(message)),
    }
}

/// The lines that warn the operator of the fallback to version 1.5.
pub fn downgrade_warning() -> (lines: Vec<String>)
    ensures
        lines@.map_values(|line: String| line@) == seq![
            ""@,
            "NOTE: Downgrading CycloneDX BOM from spec version 1.6 to 1.5"@,
            "Reason: Current implementation does not yet fully support spec version 1.6"@,
            "Warning: This compatibility mode only works for BOMs that don't utilize 1.6-specific fields"@,
            "         Processing will fail if 1.6-specific fields are encountered"@,
            ""@,
        ],
{
    let mut lines: Vec<String> = Vec::new();
    lines.push(String::from_str(""));
    lines.push(String::from_str("NOTE: Downgrading CycloneDX BOM from spec version 1.6 to 1.5"));
    lines.push(
        String::from_str(
            "Reason: Current implementation does not yet fully support spec version 1.6",
        ),
    );
    lines.push(
        String::from_str(
            "Warning: This compatibility mode only works for BOMs that don't utilize 1.6-specific fields",
        ),
    );
    lines.push(
        String::from_str("         Processing will fail if 1.6-specific fields are encountered"),
    );
    lines.push(String::from_str(""));
    lines
}

/// What the second attempt on a JSON document gives: the document is read as
/// a JSON value, its field `specVersion` is set to `1.5`, and the value is
/// parsed. A failure to read or to parse ends the attempt with its message.
pub open spec fn json_second_attempt(content: Seq<u8>) -> Result<(), Seq<char>> {
    match json_value_read(content) {
        Err(message) => Err(message),
        Ok(value) => match json_value_parse_failure(
            json_with_text(value, "specVersion"@, "1.5"@),
        ) {
            Some(message) => Err(message),
            None => Ok(()),
        },
    }
}

/// Parses the bytes of a JSON document. A document that the parser refuses for
/// its specification version `1.6` is read again with the version set to `1.5`;
/// what the second attempt gives is then the result. Every other outcome of the
/// first attempt is the result as it is.
pub fn parse_vex_json(content: &[u8]) -> (report: ParseReport)
    ensures
        report.downgraded == (json_step(json_parse_failure(content@)) is None),
        match json_step(json_parse_failure(content@)) {
            Some(outcome) => ended_as(report.result, outcome),
            None => ended_as(report.result, json_second_attempt(content@)),
        },
{
    match after_json_parse(bom_from_json(content)) {
        JsonStep::Done(result) => ParseReport { result, downgraded: false },
        JsonStep::Downgrade => {
            let result = match json_value_from_slice(content) {
                Ok(value) => bom_from_json_value(
                    json_with_text_field(value, "specVersion", "1.5"),
                ),
                Err(message) => Err(message),
            };
            ParseReport { result, downgraded: true }
        },
    }
}

/// Parses the bytes of an XML document as one of specification version 1.5. A
/// document that the parser refuses for a namespace that holds `1.6` is read
/// again with that namespace replaced by the expected one; what the second
/// attempt gives is then the result, under the first attempt's rules. Every
/// other outcome of the first attempt is the result as it is.
pub fn parse_vex_xml(content: &[u8]) -> (report: ParseReport)
    ensures
        report.downgraded == (xml_step(xml_parse_failure(content@)) is Err),
        match xml_step(xml_parse_failure(content@)) {
            Ok(outcome) => ended_as(report.result, outcome),
            Err((actual, expected)) => match xml_parse_failure(
                encode_text(replaced_text(utf8_lossy_text(content@), actual, expected)),
            ) {
                None => report.result is Ok,
                Some(failure) => report.result matches Err(text) && text@ == xml_message(failure),
            },
        },
{
    match after_xml_parse(bom_from_xml(content)) {
        XmlStep::Done(result) => ParseReport { result, downgraded: false },
        XmlStep::Downgrade(actual, expected) => {
            let text = utf8_lossy(content);
            let modified = replace_all(text.as_str(), actual.as_str(), expected.as_str());
            let bytes = text_bytes(modified.as_str());
            let result = match bom_from_xml(bytes.as_slice()) {
                Ok(bom) => Ok(bom),
                Err(XmlFailure::InvalidNamespace(_, _, message)) => Err(message),
                Err(XmlFailure::Other(message)) => Err(message),
            };
            ParseReport { result, downgraded: true }
        },
    }
}

/// The UTF-8 encoding of a text.
pub open spec fn encode_text(text: Seq<char>) -> Seq<u8> {
    vstd::utf8::encode_utf8(text)
}

/// The parser's message in a failure.
pub open spec fn xml_message(failure: XmlFailureView) -> Seq<char> {
    match failure {
        XmlFailureView::InvalidNamespace(_, _, message) => message,
        XmlFailureView::Other(message) => message,
    }
}

} // verus!
