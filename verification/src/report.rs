//! Call sites as they arrive from extraction, judged one by one. A site that
//! could not be brought into the form of an invocation is passed on as
//! skipped: it gets no verdict, and is never taken for a safe one.

use vstd::prelude::*;
use crate::catalog::{Catalog, CatalogModel};
use crate::engine::{analyze, verdict_of};
use crate::invocation::{InvocationModel, ProcessInvocation, SiteId};
use crate::verdict::{Severity, Verdict};

verus! {

/// What extraction hands over for one call site.
#[derive(Clone, Debug, PartialEq, Eq)]
pub enum Extraction {
    /// The call site as an invocation.
    Captured(ProcessInvocation),
    /// The call site could not be brought into that form.
    Failed(SiteId),
}

/// The mathematical value of an [`Extraction`].
pub enum ExtractionModel {
    Captured(InvocationModel),
    Failed(SiteId),
}

impl View for Extraction {
    type V = ExtractionModel;

    open spec fn view(&self) -> ExtractionModel {
        match self {
            Extraction::Captured(invocation) => ExtractionModel::Captured(invocation@),
            Extraction::Failed(site) => ExtractionModel::Failed(*site),
        }
    }
}

impl DeepView for Extraction {
    type V = ExtractionModel;

    open spec fn deep_view(&self) -> ExtractionModel {
        self@
    }
}

/// What is reported of one call site.
#[derive(Clone, Copy, Debug, PartialEq, Eq, Structural)]
pub enum Outcome {
    /// The site was analysed.
    Judged { site: SiteId, verdict: Verdict },
    /// The site was not analysed, because extraction failed on it.
    Skipped { site: SiteId },
}

impl Outcome {
    /// The severity of the verdict, where there is one.
    pub open spec fn severity_model(self) -> Option<Severity> {
        match self {
            Outcome::Judged { verdict, .. } => Some(verdict.severity_model()),
            Outcome::Skipped { .. } => None,
        }
    }

    /// The severity of the verdict, or `None` for a skipped site.
    pub fn severity(&self) -> (severity: Option<Severity>)
        ensures
            severity == self.severity_model(),
    {
        match self {
            Outcome::Judged { verdict, .. } => Some(verdict.severity()),
            Outcome::Skipped { .. } => None,
        }
    }

    /// The call site that this outcome is about.
    pub fn site(&self) -> (site: SiteId)
        ensures
            site == match *self {
                Outcome::Judged { site, .. } => site,
                Outcome::Skipped { site } => site,
            },
    {
        match self {
            Outcome::Judged { site, .. } => *site,
            Outcome::Skipped { site } => *site,
        }
    }
}

/// The outcome for one call site.
pub open spec fn outcome_of(catalog: CatalogModel, extraction: ExtractionModel) -> Outcome {
    match extraction {
        ExtractionModel::Captured(invocation) => Outcome::Judged {
            site: invocation.site,
            verdict: verdict_of(catalog, invocation),
        },
        ExtractionModel::Failed(site) => Outcome::Skipped { site },
    }
}

/// Judges one call site.
pub fn judge(catalog: &Catalog, extraction: &Extraction) -> (outcome: Outcome)
    ensures
        outcome == outcome_of(catalog@, extraction@),
{
    match extraction {
        Extraction::Captured(invocation) => Outcome::Judged {
            site: invocation.site(),
            verdict: analyze(catalog, invocation),
        },
        Extraction::Failed(site) => Outcome::Skipped { site: *site },
    }
}

/// Judges every call site, in the order given. No site keeps another from
/// being judged.
pub fn judge_all(catalog: &Catalog, extractions: &Vec<Extraction>) -> (outcomes: Vec<Outcome>)
    ensures
        outcomes.len() == extractions.len(),
        forall|i: int|
            0 <= i < extractions.len() ==> outcomes[i] == outcome_of(
                catalog@,
                #[trigger] extractions[i]@,
            ),
{
    let mut outcomes: Vec<Outcome> = Vec::new();
    let n = extractions.len();
    for i in 0..n
        invariant
            n == extractions.len(),
            outcomes.len() == i,
            forall|j: int|
                0 <= j < i ==> outcomes[j] == outcome_of(catalog@, #[trigger] extractions[j]@),
    {
        let outcome = judge(catalog, &extractions[i]);
        outcomes.push(outcome);
    }
    outcomes
}

/// How many of `outcomes` have the severity `severity`; with `None`, how
/// many are skipped.
pub open spec fn tally(outcomes: Seq<Outcome>, severity: Option<Severity>) -> nat
    decreases outcomes.len(),
{
    if outcomes.len() == 0 {
        0
    } else {
        let before = tally(outcomes.drop_last(), severity);
        if outcomes.last().severity_model() == severity {
            before + 1
        } else {
            before
        }
    }
}

/// The outcomes of a run, counted.
#[derive(Clone, Copy, Debug, PartialEq, Eq, Structural)]
pub struct Summary {
    /// Sites with a vulnerability.
    pub findings: usize,
    /// Sites that a person has to look at.
    pub warnings: usize,
    /// Sites found safe.
    pub clear: usize,
    /// Sites that were not analysed.
    pub skipped: usize,
}

/// Counts `outcomes` by severity. Every outcome is counted once, and a
/// skipped site is counted as skipped only.
pub fn summarize(outcomes: &Vec<Outcome>) -> (summary: Summary)
    ensures
        summary.findings == tally(outcomes@, Some(Severity::Finding)),
        summary.warnings == tally(outcomes@, Some(Severity::NeedsReview)),
        summary.clear == tally(outcomes@, Some(Severity::Clear)),
        summary.skipped == tally(outcomes@, None),
        summary.findings + summary.warnings + summary.clear + summary.skipped == outcomes.len(),
{
    let mut summary = Summary { findings: 0, warnings: 0, clear: 0, skipped: 0 };
    let n = outcomes.len();
    for i in 0..n
        invariant
            n == outcomes.len(),
            summary.findings == tally(outcomes@.take(i as int), Some(Severity::Finding)),
            summary.warnings == tally(outcomes@.take(i as int), Some(Severity::NeedsReview)),
            summary.clear == tally(outcomes@.take(i as int), Some(Severity::Clear)),
            summary.skipped == tally(outcomes@.take(i as int), None),
            summary.findings + summary.warnings + summary.clear + summary.skipped == i,
    {
        assert(outcomes@.take(i + 1).drop_last() == outcomes@.take(i as int));
        match outcomes[i].severity() {
            Some(Severity::Finding) => {
                summary.findings = summary.findings + 1;
            },
            Some(Severity::NeedsReview) => {
                summary.warnings = summary.warnings + 1;
            },
            Some(Severity::Clear) => {
                summary.clear = summary.clear + 1;
            },
            None => {
                summary.skipped = summary.skipped + 1;
            },
        }
    }
    assert(outcomes@.take(n as int) == outcomes@);
    summary
}

} // verus!
