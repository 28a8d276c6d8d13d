//! Renders a static description of a continuous-integration build matrix
//! as tabular markup, delimited records, or a structured document, each
//! row annotated with links to its status badge and to a workflow-run
//! query page. The row model, the URL construction and all three
//! serializers carry full contracts; the laws module states the
//! properties that hold of every report.

pub mod encode;
pub mod json;
pub mod laws;
pub mod matrix;
pub mod render;
pub mod urls;
