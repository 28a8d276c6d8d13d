use vstd::prelude::*;
use vstd::string::StringExecFns;

use crate::encode::percent_encode;
use crate::encode::percent_encoded;
use crate::encode::well_formed_encoding;
use crate::matrix::MatrixRow;
use crate::matrix::RunConfiguration;

verus! {

/// The descriptive label the workflow-query URL filters runs by.
pub open spec fn workflow_label() -> Seq<char> {
    "Matrix Build"@
}

/// The badge URL for one row: the badge-image endpoint of the configured
/// workflow, scoped to the configured branch and labeled with the row's
/// percent-encoded name. Repository, workflow and branch appear verbatim.
pub open spec fn badge_url_spec(row: MatrixRow, cfg: RunConfiguration) -> Seq<char> {
    "https://github.com/"@ + cfg.repository@ + "/actions/workflows/"@ + cfg.workflow@
        + "/badge.svg?branch="@ + cfg.branch@ + "&label="@ + percent_encoded(row.name@)
}

/// The workflow-query URL for one row: the run-listing page filtered by
/// the fixed label, the configured branch, and the row's name, with the
/// label and the name percent-encoded independently.
pub open spec fn workflow_url_spec(row: MatrixRow, cfg: RunConfiguration) -> Seq<char> {
    "https://github.com/"@ + cfg.repository@ + "/actions?query=workflow%3A%22"@ + percent_encoded(
        workflow_label(),
    ) + "%22+branch%3A"@ + cfg.branch@ + "+matrix%3A"@ + percent_encoded(row.name@)
}

impl MatrixRow {
    /// Builds the badge URL. Never fails: any name, the empty one
    /// included, yields the full URL, and the encoded label holds only
    /// ASCII letters, digits and complete %XX escapes.
    pub fn badge_url(&self, cfg: &RunConfiguration) -> (r: String)
        ensures
            r@ == badge_url_spec(*self, *cfg),
            well_formed_encoding(percent_encoded(self.name@)),
    {
        let label = percent_encode(self.name.as_str());
        let mut out = String::from_str("https://github.com/");
        out.append(cfg.repository.as_str());
        out.append("/actions/workflows/");
        out.append(cfg.workflow.as_str());
        out.append("/badge.svg?branch=");
        out.append(cfg.branch.as_str());
        out.append("&label=");
        out.append(label.as_str());
        out
    }

    /// Builds the workflow-query URL. Never fails, and both encoded
    /// fragments — the fixed label and the row's name — hold only ASCII
    /// letters, digits and complete %XX escapes.
    pub fn workflow_url(&self, cfg: &RunConfiguration) -> (r: String)
        ensures
            r@ == workflow_url_spec(*self, *cfg),
            well_formed_encoding(percent_encoded(self.name@)),
            well_formed_encoding(percent_encoded(workflow_label())),
    {
        let label = percent_encode("Matrix Build");
        let matrix = percent_encode(self.name.as_str());
        let mut out = String::from_str("https://github.com/");
        out.append(cfg.repository.as_str());
        out.append("/actions?query=workflow%3A%22");
        out.append(label.as_str());
        out.append("%22+branch%3A");
        out.append(cfg.branch.as_str());
        out.append("+matrix%3A");
        out.append(matrix.as_str());
        out
    }
}

} // verus!
