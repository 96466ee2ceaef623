//! What a report contains: the document's data as plain values, the layout
//! that the report is drawn from, and the rules that make one of the other.
pub mod document;
pub mod generator;
pub mod layout;
