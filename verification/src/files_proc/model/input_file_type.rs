//! The kinds of input document, told apart by file extension.
use crate::lib_utils::text::{ascii_lowercase, eq_ignore_ascii_case, lowercase_is};
use vstd::prelude::*;

verus! {

/// The format of an input document, or the mark that a file is none of them.
#[derive(Clone, Copy, Debug, PartialEq, Eq, Structural, Hash)]
pub enum InputFileType {
    /// A CycloneDX document written as XML.
    XML,
    /// A CycloneDX document written as JSON.
    JSON,
    /// Anything else.
    UNSUPPORTED,
}

/// The text of an optional string slice.
pub open spec fn opt_str_view(s: Option<&str>) -> Option<Seq<char>> {
    match s {
        Some(text) => Some(text@),
        None => None,
    }
}

/// An extension stands for a recognised kind exactly when it is that kind's name
/// in any ASCII case; every other extension, and a missing one, is unsupported.
pub proof fn lemma_classification_ignores_case(ext: Option<Seq<char>>)
    ensures
        InputFileType::of_extension(ext) == InputFileType::XML <==> (ext matches Some(e)
            && eq_ignore_ascii_case(e, InputFileType::XML.lowercase_name())),
        InputFileType::of_extension(ext) == InputFileType::JSON <==> (ext matches Some(e)
            && eq_ignore_ascii_case(e, InputFileType::JSON.lowercase_name())),
        InputFileType::of_extension(ext) == InputFileType::UNSUPPORTED <==> (ext matches Some(e)
            ==> !eq_ignore_ascii_case(e, InputFileType::XML.lowercase_name())
            && !eq_ignore_ascii_case(e, InputFileType::JSON.lowercase_name())),
{
    let xml = InputFileType::XML.lowercase_name();
    let json = InputFileType::JSON.lowercase_name();
    assert(ascii_lowercase(xml) =~= xml);
    assert(ascii_lowercase(json) =~= json);
}

impl InputFileType {
    /// The lower-case name of a recognised kind, as it appears in file extensions.
    pub open spec fn lowercase_name(self) -> Seq<char> {
        match self {
            InputFileType::XML => seq!['x', 'm', 'l'],
            InputFileType::JSON => seq!['j', 's', 'o', 'n'],
            InputFileType::UNSUPPORTED => Seq::empty(),
        }
    }

    /// The upper-case name of a recognised kind, as it appears in messages.
    pub open spec fn uppercase_name(self) -> Seq<char> {
        match self {
            InputFileType::XML => seq!['X', 'M', 'L'],
            InputFileType::JSON => seq!['J', 'S', 'O', 'N'],
            InputFileType::UNSUPPORTED => Seq::empty(),
        }
    }

    /// The kind that an extension stands for: a recognised kind when the extension,
    /// folded to lower case, is that kind's name, and `UNSUPPORTED` for every other
    /// extension and for a missing one.
    pub open spec fn of_extension(ext: Option<Seq<char>>) -> InputFileType {
        match ext {
            None => InputFileType::UNSUPPORTED,
            Some(e) => if ascii_lowercase(e) == InputFileType::XML.lowercase_name() {
                InputFileType::XML
            } else if ascii_lowercase(e) == InputFileType::JSON.lowercase_name() {
                InputFileType::JSON
            } else {
                InputFileType::UNSUPPORTED
            },
        }
    }

    /// Whether this is one of the recognised kinds.
    pub open spec fn is_recognised(self) -> bool {
        self != InputFileType::UNSUPPORTED
    }

    /// The name of a recognised kind in lower case.
    pub fn as_str_lowercase(&self) -> (name: &'static str)
        requires
            self.is_recognised(),
        ensures
            name@ == self.lowercase_name(),
    {
        proof {
            reveal_strlit("xml");
            reveal_strlit("json");
        }
        match self {
            InputFileType::XML => {
                "xml"
            },
            _ => {
                "json"
            },
        }
    }

    /// The name of a recognised kind in upper case.
    pub fn as_str_uppercase(&self) -> (name: &'static str)
        requires
            self.is_recognised(),
        ensures
            name@ == self.uppercase_name(),
    {
        proof {
            reveal_strlit("XML");
            reveal_strlit("JSON");
        }
        match self {
            InputFileType::XML => {
                "XML"
            },
            _ => {
                "JSON"
            },
        }
    }

    /// Classifies a file by its extension, without regard to ASCII case.
    pub fn with_extension(ext: Option<&str>) -> (kind: Self)
        ensures
            kind == Self::of_extension(opt_str_view(ext)),
    {
        match ext {
            None => InputFileType::UNSUPPORTED,
            Some(text) => {
                let xml = InputFileType::XML;
                let json = InputFileType::JSON;
                if lowercase_is(text, xml.as_str_lowercase()) {
                    InputFileType::XML
                } else if lowercase_is(text, json.as_str_lowercase()) {
                    InputFileType::JSON
                } else {
                    InputFileType::UNSUPPORTED
                }
            },
        }
    }
}

} // verus!
