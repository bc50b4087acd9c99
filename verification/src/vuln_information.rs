//! The vulnerability record that feed plugins produce.

use vstd::prelude::*;

verus! {

/// How severe a vulnerability is.
#[derive(Clone, Copy, Debug, PartialEq, Eq, Structural, Hash)]
pub enum Severity {
    Low,
    Medium,
    High,
    Critical,
}

/// The text under which a severity is stored.
pub open spec fn severity_label(s: Severity) -> Seq<char> {
    match s {
        Severity::Low => "Low"@,
        Severity::Medium => "Medium"@,
        Severity::High => "High"@,
        Severity::Critical => "Critical"@,
    }
}

impl Severity {
    /// The text under which this severity is stored.
    pub fn to_string(&self) -> (r: String)
        ensures
            r@ == severity_label(*self),
    {
        match self {
            Severity::Low => "Low".to_owned(),
            Severity::Medium => "Medium".to_owned(),
            Severity::High => "High".to_owned(),
            Severity::Critical => "Critical".to_owned(),
        }
    }
}

/// A vulnerability record ready to be stored.
#[derive(Clone, Debug, PartialEq, Eq)]
pub struct CreateVulnInformation {
    pub key: String,
    pub title: String,
    pub description: String,
    pub severity: String,
    pub cve: String,
    pub disclosure: String,
    pub reference_links: Vec<String>,
    pub solutions: String,
    pub source: String,
    pub source_name: String,
    pub tags: Vec<String>,
    pub reasons: Vec<String>,
    pub github_search: Vec<String>,
    pub pushed: bool,
    pub detail_link: String,
}

} // verus!
