//! The parts of a CycloneDX document that a report shows, as plain values.
use vstd::prelude::*;

verus! {

/// A component: its name, its version if it has one, and the reference by
/// which vulnerabilities point to it, if it has one.
#[derive(Debug, PartialEq, Eq)]
pub struct ComponentInfo {
    pub name: String,
    pub version: Option<String>,
    pub bom_ref: Option<String>,
}

/// A tool that made the document.
#[derive(Debug, PartialEq, Eq)]
pub struct ToolInfo {
    pub name: Option<String>,
    pub version: Option<String>,
}

/// A service that made the document.
#[derive(Debug, PartialEq, Eq)]
pub struct ServiceInfo {
    pub name: String,
    pub version: Option<String>,
}

/// The tools that made the document, in either of the two forms that the
/// specification knows.
#[derive(Debug, PartialEq, Eq)]
pub enum ToolsInfo {
    /// A plain list of tools.
    List(Vec<ToolInfo>),
    /// Services and components that served as tools, in this order of the
    /// fields.
    Object(Option<Vec<ServiceInfo>>, Option<Vec<ComponentInfo>>),
}

/// The document's metadata.
#[derive(Debug, PartialEq, Eq)]
pub struct MetadataInfo {
    pub timestamp: Option<String>,
    pub tools: Option<ToolsInfo>,
    pub component: Option<ComponentInfo>,
}

/// One rating of a vulnerability. `source` is the rating's source, if it has
/// one, with the source's name, if that has one.
#[derive(Debug, PartialEq, Eq)]
pub struct RatingInfo {
    pub method: Option<String>,
    pub source: Option<Option<String>>,
    pub severity: Option<String>,
}

/// A vulnerability. `targets` holds the references of the components that it
/// affects.
#[derive(Debug, PartialEq, Eq)]
pub struct VulnerabilityInfo {
    pub id: Option<String>,
    pub description: Option<String>,
    pub ratings: Option<Vec<RatingInfo>>,
    pub targets: Option<Vec<String>>,
}

/// The document.
#[derive(Debug, PartialEq, Eq)]
pub struct BomInfo {
    pub spec_version: String,
    pub version: u32,
    pub serial_number: Option<String>,
    pub metadata: Option<MetadataInfo>,
    pub components: Option<Vec<ComponentInfo>>,
    pub vulnerabilities: Option<Vec<VulnerabilityInfo>>,
}

} // verus!
