//! Annotated call sites: what an annotation asks of the verdict on the
//! invocation that follows it.

use vstd::prelude::*;
use crate::text::same_text;
use crate::verdict::Verdict;

verus! {

/// The annotation of a call site.
#[derive(Clone, Copy, Debug, PartialEq, Eq, Structural)]
pub enum Expectation {
    /// `<expect-error>`: the call site must be reported as vulnerable.
    ExpectError,
    /// `<no-error>`: the call site must be found safe.
    NoError,
}

impl Expectation {
    /// Whether `verdict` is what this annotation asks for. An unknown verdict
    /// meets neither annotation.
    pub open spec fn met_by(self, verdict: Verdict) -> bool {
        match self {
            Expectation::ExpectError => verdict is Vulnerable,
            Expectation::NoError => verdict is Safe,
        }
    }

    /// The annotation as it is written.
    pub open spec fn marker_model(self) -> Seq<char> {
        match self {
            Expectation::ExpectError => "<expect-error>"@,
            Expectation::NoError => "<no-error>"@,
        }
    }

    /// The annotation that is written as `marker`.
    pub open spec fn of_marker(marker: Seq<char>) -> Option<Expectation> {
        if marker == "<expect-error>"@ {
            Some(Expectation::ExpectError)
        } else if marker == "<no-error>"@ {
            Some(Expectation::NoError)
        } else {
            None
        }
    }

    /// Whether `verdict` is what this annotation asks for.
    pub fn is_met_by(&self, verdict: &Verdict) -> (r: bool)
        ensures
            r == self.met_by(*verdict),
    {
        match self {
            Expectation::ExpectError => verdict.is_vulnerable(),
            Expectation::NoError => verdict.is_safe(),
        }
    }

    /// The annotation as it is written.
    pub fn marker(&self) -> (marker: &'static str)
        ensures
            marker@ == self.marker_model(),
    {
        match self {
            Expectation::ExpectError => "<expect-error>",
            Expectation::NoError => "<no-error>",
        }
    }

    /// Reads an annotation. Only the two markers are annotations, written
    /// exactly.
    pub fn from_marker(marker: &str) -> (expectation: Option<Expectation>)
        ensures
            expectation == Expectation::of_marker(marker@),
    {
        if same_text(marker, "<expect-error>") {
            Some(Expectation::ExpectError)
        } else if same_text(marker, "<no-error>") {
            Some(Expectation::NoError)
        } else {
            None
        }
    }
}

/// Writing an annotation and reading it again gives the annotation.
pub proof fn lemma_marker_round_trip(expectation: Expectation)
    ensures
        Expectation::of_marker(expectation.marker_model()) == Some(expectation),
{
    reveal_strlit("<expect-error>");
    reveal_strlit("<no-error>");
    if expectation == Expectation::NoError {
        assert("<no-error>"@.len() != "<expect-error>"@.len());
    }
}

} // verus!
