//! What holds of every verdict.

use vstd::prelude::*;
use crate::argument::ArgumentModel;
use crate::catalog::{lemma_lookup_by_name, lemma_shell_index, CatalogModel, ShellModel};
use crate::engine::{
    first_flag, flag_at, has_command_flag, is_first_flag, lemma_first_flag, shell_verdict,
    verdict_of,
};
use crate::invocation::InvocationModel;
use crate::name::lookup_name;
use crate::verdict::{SafeReason, Verdict};

verus! {

/// The shell that the program of `invocation` starts. It means something
/// only where the catalog knows the program.
pub open spec fn shell_of(catalog: CatalogModel, invocation: InvocationModel) -> ShellModel {
    catalog.shells[catalog.shell_index(invocation.program)]
}

/// The argument that the shell runs as a command: the one behind the first
/// command flag. There is none where the program starts no shell, where no
/// argument is a command flag, and where the first command flag is the last
/// argument.
pub open spec fn payload_of(catalog: CatalogModel, invocation: InvocationModel) -> Option<
    ArgumentModel,
> {
    let shell = shell_of(catalog, invocation);
    let behind = first_flag(shell, invocation.arguments) + 1;
    if catalog.knows(invocation.program) && has_command_flag(shell, invocation.arguments) && behind
        < invocation.arguments.len() {
        Some(invocation.arguments[behind])
    } else {
        None
    }
}

/// The verdict depends on the program and the arguments alone. Two
/// invocations of the same program with the same arguments get the same
/// verdict from one catalog, whatever their sites; so does one invocation
/// that is judged twice.
pub proof fn lemma_verdict_is_determined(
    catalog: CatalogModel,
    first: InvocationModel,
    second: InvocationModel,
)
    requires
        first.program == second.program,
        first.arguments == second.arguments,
    ensures
        verdict_of(catalog, first) == verdict_of(catalog, second),
{
}

/// The program counts by the name under which it is looked up: two
/// invocations whose programs have the same such name, with the same
/// arguments, get the same verdict.
pub proof fn lemma_verdict_by_name(
    catalog: CatalogModel,
    first: InvocationModel,
    second: InvocationModel,
)
    requires
        lookup_name(first.program, catalog.platform) == lookup_name(
            second.program,
            catalog.platform,
        ),
        first.arguments == second.arguments,
    ensures
        verdict_of(catalog, first) == verdict_of(catalog, second),
{
    lemma_lookup_by_name(catalog, first.program, second.program);
}

/// A shell that runs a literal is safe: where the argument behind the first
/// command flag is a literal, the verdict is safe, and its reason is the
/// static command.
pub proof fn lemma_literal_payload_is_safe(catalog: CatalogModel, invocation: InvocationModel)
    requires
        payload_of(catalog, invocation) matches Some(payload) && payload is Literal,
    ensures
        verdict_of(catalog, invocation) is Safe,
        verdict_of(catalog, invocation)->Safe_reason is StaticCommand,
{
}

/// A shell that runs a string with a part that is not constant is
/// vulnerable: where the argument behind the first command flag is a
/// well-formed interpolation or a bare reference, the verdict is vulnerable.
pub proof fn lemma_tainted_payload_is_vulnerable(
    catalog: CatalogModel,
    invocation: InvocationModel,
)
    requires
        payload_of(catalog, invocation) matches Some(payload) && payload.well_formed()
            && (payload is Interpolated || payload is Opaque),
    ensures
        verdict_of(catalog, invocation) is Vulnerable,
{
}

/// A program that the catalog does not know is safe, whatever its arguments.
pub proof fn lemma_unknown_program_is_safe(catalog: CatalogModel, invocation: InvocationModel)
    requires
        !catalog.knows(invocation.program),
    ensures
        verdict_of(catalog, invocation) == (Verdict::Safe {
            reason: SafeReason::NotARecognizedShell,
        }),
{
}

/// A shell that is started without a command flag is safe.
pub proof fn lemma_shell_without_flag_is_safe(catalog: CatalogModel, invocation: InvocationModel)
    requires
        catalog.knows(invocation.program),
        !has_command_flag(shell_of(catalog, invocation), invocation.arguments),
    ensures
        verdict_of(catalog, invocation) is Safe,
        verdict_of(catalog, invocation)->Safe_reason is NoCommandFlag,
{
}

/// Each verdict, by the invocations that get it. Vulnerable are those whose
/// payload is classified as an interpolation or a bare reference; unknown
/// are those whose first command flag is the last argument; all others are
/// safe.
pub proof fn lemma_verdict_cases(catalog: CatalogModel, invocation: InvocationModel)
    ensures
        verdict_of(catalog, invocation) is Vulnerable <==> (payload_of(
            catalog,
            invocation,
        ) matches Some(payload) && payload.classification().tainted()),
        verdict_of(catalog, invocation) is Unknown <==> (catalog.knows(invocation.program)
            && has_command_flag(shell_of(catalog, invocation), invocation.arguments)
            && payload_of(catalog, invocation) is None),
        verdict_of(catalog, invocation) is Unknown ==> first_flag(
            shell_of(catalog, invocation),
            invocation.arguments,
        ) == invocation.arguments.len() - 1,
{
    if catalog.knows(invocation.program) && has_command_flag(
        shell_of(catalog, invocation),
        invocation.arguments,
    ) {
        lemma_first_flag(shell_of(catalog, invocation), invocation.arguments);
    }
}

/// The positions that a verdict names are positions of the catalog and of
/// the arguments: the shell is the one that the program starts, and the flag
/// is the first command flag of that shell among the arguments. This holds
/// of every catalog and invocation that fit in memory.
pub proof fn lemma_verdict_trace(catalog: CatalogModel, invocation: InvocationModel)
    requires
        catalog.shells.len() <= usize::MAX,
        invocation.arguments.len() <= usize::MAX,
    ensures
        match verdict_of(catalog, invocation).shell_model() {
            Some(shell) => catalog.is_shell_index(invocation.program, shell as int),
            None => !catalog.knows(invocation.program),
        },
        verdict_of(catalog, invocation).flag_model() matches Some(flag) ==> is_first_flag(
            shell_of(catalog, invocation),
            invocation.arguments,
            flag as int,
        ),
        verdict_of(catalog, invocation).payload_model() matches Some(kind) ==> (payload_of(
            catalog,
            invocation,
        ) matches Some(payload) && payload.classification() == kind),
{
    if catalog.knows(invocation.program) {
        lemma_shell_index(catalog, invocation.program);
        if has_command_flag(shell_of(catalog, invocation), invocation.arguments) {
            lemma_first_flag(shell_of(catalog, invocation), invocation.arguments);
        }
    }
}

/// The arguments of `arguments`, each as classification leaves it.
pub open spec fn classified_arguments(arguments: Seq<ArgumentModel>) -> Seq<ArgumentModel> {
    Seq::new(arguments.len(), |i: int| arguments[i].classified())
}

/// Classifying the arguments beforehand does not change the verdict.
pub proof fn lemma_verdict_after_classification(
    shell: usize,
    model: ShellModel,
    arguments: Seq<ArgumentModel>,
)
    ensures
        shell_verdict(shell, model, classified_arguments(arguments)) == shell_verdict(
            shell,
            model,
            arguments,
        ),
{
    let classified = classified_arguments(arguments);
    assert(forall|i: int| flag_at(model, classified, i) == flag_at(model, arguments, i));
    if has_command_flag(model, arguments) {
        lemma_first_flag(model, arguments);
        assert(is_first_flag(model, classified, first_flag(model, arguments)));
    }
}

/// The first command flag governs. The verdict stays the same whatever
/// follows the argument behind that flag, be it a second command flag or any
/// other argument.
pub proof fn lemma_first_flag_governs(
    shell: usize,
    model: ShellModel,
    arguments: Seq<ArgumentModel>,
    other: Seq<ArgumentModel>,
)
    requires
        has_command_flag(model, arguments),
        first_flag(model, arguments) + 1 < arguments.len(),
    ensures
        shell_verdict(shell, model, arguments.take(first_flag(model, arguments) + 2) + other)
            == shell_verdict(shell, model, arguments),
{
    lemma_first_flag(model, arguments);
    let flag = first_flag(model, arguments);
    let changed = arguments.take(flag + 2) + other;
    assert forall|j: int| 0 <= j < flag implies !flag_at(model, changed, j) by {
        assert(!flag_at(model, arguments, j));
    }
    assert(is_first_flag(model, changed, flag));
}

} // verus!
