//! The business rules that can be decided on the model alone, and the
//! findings they produce.

pub mod engine;
pub mod profile;
pub mod rules;

use vstd::prelude::*;

use crate::bt::{BtId, Path};
use crate::edition::Edition;

verus! {

/// How serious a finding is.
#[derive(Debug, Clone, Copy, PartialEq, Eq, Structural, Hash)]
pub enum Severity {
    /// The document is invalid.
    Fatal,
    /// The document is valid, but something is likely wrong.
    Warning,
    /// Informational only.
    Info,
}

/// Where a rule comes from.
#[derive(Debug, Clone, Copy, PartialEq, Eq, Structural, Hash)]
pub enum Source {
    /// In EN 16931-1 and in the CEN artefacts.
    Both,
    /// In the artefacts, or a profile's, and not in the standard's text.
    ArtefactOnly,
    /// In the standard's text and not in the artefacts.
    StandardOnly,
    /// This library's own, under the `EN-` namespace.
    Crate,
}

/// A rule as the registry describes it.
#[derive(Debug, Clone)]
pub struct Rule {
    /// The id, in the artefacts' canonical spelling — `BR-CO-14`.
    pub id: String,
    /// How serious a failure is.
    pub severity: Severity,
    /// The authority's wording.
    pub text: String,
    /// The business terms it reads.
    pub terms: Vec<BtId>,
    /// Where it comes from.
    pub source: Source,
}

/// What a rule's contract fixes: its id, severity, provenance, terms and
/// wording.
pub open spec fn rule_key(r: Rule) -> (Seq<char>, Severity, Source, Seq<BtId>, Seq<char>) {
    (r.id@, r.severity, r.source, r.terms@, r.text@)
}

/// The keys of a list of rules, in order.
pub open spec fn rule_keys(rs: Seq<Rule>) -> Seq<(Seq<char>, Severity, Source, Seq<BtId>, Seq<char>)> {
    rs.map_values(|r: Rule| rule_key(r))
}

/// A rule with the given metadata.
pub fn make_rule(id: &str, severity: Severity, source: Source, terms: Vec<BtId>, text: &str) -> (r: Rule)
    ensures
        rule_key(r) == (id@, severity, source, terms@, text@),
{
    Rule {
        id: crate::identifier::owned(id),
        severity,
        text: crate::identifier::owned(text),
        terms,
        source,
    }
}

/// The two sides of an arithmetic finding.
#[derive(Debug, Clone)]
pub struct Detail {
    /// What the rule computed.
    pub expected: String,
    /// What the document states.
    pub actual: String,
}

/// One rule failing at one place.
#[derive(Debug, Clone)]
pub struct Finding {
    /// The rule id, in the artefacts' canonical spelling — `BR-CO-14`.
    pub rule: String,
    /// How serious it is.
    pub severity: Severity,
    /// Where.
    pub path: Path,
    /// The rule's text, byte for byte the authority's wording.
    pub message: String,
    /// For an arithmetic rule, what was computed and what was stated.
    pub detail: Option<Detail>,
    /// Supplementary advice, kept apart from the authority's wording.
    pub hint: Option<String>,
}

/// A validation run's outcome, as it is rendered.
#[derive(Debug, Clone)]
pub struct ValidationReport {
    /// The profile the run was attributed to, when it was one.
    pub profile: Option<String>,
    /// The edition of EN 16931-1 the rules implement.
    pub edition: Edition,
    /// Rule ids the run withdrew and did not check.
    pub suppressed: Vec<String>,
    /// The findings, in the order the rules produced them.
    pub findings: Vec<Finding>,
}

} // verus!
