//! Process invocations: one call site that builds and runs an external
//! program, captured at the moment it is run.

use vstd::prelude::*;
use crate::argument::{ArgumentExpr, ArgumentModel};

verus! {

/// Names a call site for reporting. The analysis never reads it.
#[derive(Clone, Copy, Debug, PartialEq, Eq, Structural)]
pub struct SiteId(pub u64);

/// The mathematical value of a [`ProcessInvocation`].
pub struct InvocationModel {
    /// The program as the call site names it, path included.
    pub program: Seq<char>,
    /// The arguments in call order.
    pub arguments: Seq<ArgumentModel>,
    pub site: SiteId,
}

/// One call site that builds and runs an external program. A value is made
/// by [`InvocationBuilder::finish`] and never changes afterwards.
#[derive(Clone, Debug, PartialEq, Eq)]
pub struct ProcessInvocation {
    program: String,
    arguments: Vec<ArgumentExpr>,
    site: SiteId,
}

impl View for ProcessInvocation {
    type V = InvocationModel;

    closed spec fn view(&self) -> InvocationModel {
        InvocationModel {
            program: self.program@,
            arguments: self.arguments.deep_view(),
            site: self.site,
        }
    }
}

impl DeepView for ProcessInvocation {
    type V = InvocationModel;

    open spec fn deep_view(&self) -> InvocationModel {
        self@
    }
}

impl ProcessInvocation {
    /// The program as the call site names it.
    pub fn program(&self) -> (program: &str)
        ensures
            program@ == self@.program,
    {
        self.program.as_str()
    }

    /// The arguments in call order.
    pub fn arguments(&self) -> (arguments: &Vec<ArgumentExpr>)
        ensures
            arguments.deep_view() == self@.arguments,
    {
        &self.arguments
    }

    /// The call site, for reporting.
    pub fn site(&self) -> (site: SiteId)
        ensures
            site == self@.site,
    {
        self.site
    }
}

/// The mathematical value of an [`InvocationBuilder`].
pub struct DraftModel {
    pub program: Seq<char>,
    /// The arguments given so far, in the order in which they were given.
    pub arguments: Seq<ArgumentModel>,
}

/// Collects the arguments of a call site one call at a time, as the source
/// builds them, until the process is run.
#[derive(Clone, Debug)]
pub struct InvocationBuilder {
    program: String,
    arguments: Vec<ArgumentExpr>,
}

impl View for InvocationBuilder {
    type V = DraftModel;

    closed spec fn view(&self) -> DraftModel {
        DraftModel { program: self.program@, arguments: self.arguments.deep_view() }
    }
}

impl InvocationBuilder {
    /// Starts the invocation of `program`, with no argument yet.
    pub fn new(program: &str) -> (builder: InvocationBuilder)
        ensures
            builder@.program == program@,
            builder@.arguments == Seq::<ArgumentModel>::empty(),
    {
        InvocationBuilder { program: String::from_str(program), arguments: Vec::new() }
    }

    /// Appends one argument.
    pub fn arg(self, argument: ArgumentExpr) -> (builder: InvocationBuilder)
        ensures
            builder@.program == self@.program,
            builder@.arguments == self@.arguments.push(argument@),
    {
        let mut builder = self;
        builder.arguments.push(argument);
        builder
    }

    /// Appends several arguments at once, in their order.
    pub fn args(self, arguments: Vec<ArgumentExpr>) -> (builder: InvocationBuilder)
        ensures
            builder@.program == self@.program,
            builder@.arguments == self@.arguments + arguments.deep_view(),
    {
        let mut builder = self;
        let mut arguments = arguments;
        let ghost added = arguments.deep_view();
        builder.arguments.append(&mut arguments);
        builder
    }

    /// Captures the invocation at the point where the process is run.
    pub fn finish(self, site: SiteId) -> (invocation: ProcessInvocation)
        ensures
            invocation@ == (InvocationModel {
                program: self@.program,
                arguments: self@.arguments,
                site,
            }),
    {
        ProcessInvocation { program: self.program, arguments: self.arguments, site }
    }
}

} // verus!
