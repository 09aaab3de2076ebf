//! The verdict engine: from a catalog and one process invocation to one
//! verdict.

use vstd::prelude::*;
use crate::argument::{any_dynamic, join_constants, ArgumentExpr, ArgumentKind, ArgumentModel};
use crate::catalog::{lemma_shell_index, Catalog, CatalogModel, ShellModel, ShellSpec};
use crate::invocation::{InvocationModel, ProcessInvocation};
use crate::verdict::{SafeReason, UnknownReason, Verdict, VulnerableReason};

verus! {

/// Whether `argument` is a command flag of `shell`: a constant string that
/// is, letter for letter, one of the shell's command flags.
pub open spec fn is_command_flag(shell: ShellModel, argument: ArgumentModel) -> bool {
    argument.classified() matches ArgumentModel::Literal(token) && shell.command_flags.contains(
        token,
    )
}

/// Whether the argument at position `i` is a command flag of `shell`.
pub open spec fn flag_at(shell: ShellModel, arguments: Seq<ArgumentModel>, i: int) -> bool {
    0 <= i < arguments.len() && is_command_flag(shell, arguments[i])
}

/// Whether some argument is a command flag of `shell`.
pub open spec fn has_command_flag(shell: ShellModel, arguments: Seq<ArgumentModel>) -> bool {
    exists|i: int| flag_at(shell, arguments, i)
}

/// Whether `i` is the position of the first command flag.
pub open spec fn is_first_flag(shell: ShellModel, arguments: Seq<ArgumentModel>, i: int) -> bool {
    &&& flag_at(shell, arguments, i)
    &&& forall|j: int| 0 <= j < i ==> !flag_at(shell, arguments, j)
}

/// The position of the first command flag, where there is one.
pub open spec fn first_flag(shell: ShellModel, arguments: Seq<ArgumentModel>) -> int {
    choose|i: int| is_first_flag(shell, arguments, i)
}

/// The verdict on arguments handed to the shell at position `shell` of the
/// catalog. The first command flag decides: the argument behind it is the
/// string that the shell runs.
pub open spec fn shell_verdict(
    shell: usize,
    model: ShellModel,
    arguments: Seq<ArgumentModel>,
) -> Verdict {
    if !has_command_flag(model, arguments) {
        Verdict::Safe { reason: SafeReason::NoCommandFlag { shell } }
    } else {
        let flag = first_flag(model, arguments);
        if flag + 1 >= arguments.len() {
            Verdict::Unknown {
                reason: UnknownReason::MissingPayload { shell, flag: flag as usize },
            }
        } else {
            match arguments[flag + 1].classification() {
                ArgumentKind::Literal => Verdict::Safe {
                    reason: SafeReason::StaticCommand { shell, flag: flag as usize },
                },
                ArgumentKind::Interpolated => Verdict::Vulnerable {
                    reason: VulnerableReason::InterpolatedCommand { shell, flag: flag as usize },
                },
                ArgumentKind::Opaque => Verdict::Vulnerable {
                    reason: VulnerableReason::OpaqueCommand { shell, flag: flag as usize },
                },
            }
        }
    }
}

/// The verdict on an invocation.
pub open spec fn verdict_of(catalog: CatalogModel, invocation: InvocationModel) -> Verdict {
    if !catalog.knows(invocation.program) {
        Verdict::Safe { reason: SafeReason::NotARecognizedShell }
    } else {
        let shell = catalog.shell_index(invocation.program);
        shell_verdict(shell as usize, catalog.shells[shell], invocation.arguments)
    }
}

/// Among the positions up to `bound` that hold a command flag, there is a
/// first one.
proof fn lemma_first_flag_below(shell: ShellModel, arguments: Seq<ArgumentModel>, bound: int)
    requires
        flag_at(shell, arguments, bound),
    ensures
        exists|i: int| 0 <= i <= bound && is_first_flag(shell, arguments, i),
    decreases bound,
{
    if exists|j: int| 0 <= j < bound && flag_at(shell, arguments, j) {
        let j = choose|j: int| 0 <= j < bound && flag_at(shell, arguments, j);
        lemma_first_flag_below(shell, arguments, j);
    } else {
        assert(is_first_flag(shell, arguments, bound));
    }
}

/// Where an argument is a command flag, `first_flag` is the one position
/// that `is_first_flag` describes.
pub proof fn lemma_first_flag(shell: ShellModel, arguments: Seq<ArgumentModel>)
    requires
        has_command_flag(shell, arguments),
    ensures
        is_first_flag(shell, arguments, first_flag(shell, arguments)),
        forall|i: int| is_first_flag(shell, arguments, i) ==> i == first_flag(shell, arguments),
{
    lemma_first_flag_below(shell, arguments, choose|i: int| flag_at(shell, arguments, i));
}

/// Decides `is_command_flag`.
pub fn argument_is_command_flag(shell: &ShellSpec, argument: &ArgumentExpr) -> (r: bool)
    ensures
        r == is_command_flag(shell@, argument@),
{
    match argument {
        ArgumentExpr::Literal(token) => shell.has_command_flag(token.as_str()),
        ArgumentExpr::Interpolated(parts) => {
            if any_dynamic(parts) {
                false
            } else {
                let token = join_constants(parts);
                shell.has_command_flag(token.as_str())
            }
        },
        ArgumentExpr::Opaque(_) => false,
    }
}

/// The position of the first argument that is a command flag of `shell`, or
/// `None` where no argument is one.
pub fn find_command_flag(shell: &ShellSpec, arguments: &Vec<ArgumentExpr>) -> (found: Option<usize>)
    ensures
        match found {
            Some(i) => is_first_flag(shell@, arguments.deep_view(), i as int),
            None => !has_command_flag(shell@, arguments.deep_view()),
        },
{
    let n = arguments.len();
    for i in 0..n
        invariant
            n == arguments.len(),
            forall|j: int| 0 <= j < i ==> !flag_at(shell@, arguments.deep_view(), j),
    {
        if argument_is_command_flag(shell, &arguments[i]) {
            return Some(i);
        }
    }
    None
}

/// The verdict on `arguments` handed to `shell`, the shell at position
/// `position` of its catalog.
pub fn judge_arguments(
    position: usize,
    shell: &ShellSpec,
    arguments: &Vec<ArgumentExpr>,
) -> (verdict: Verdict)
    ensures
        verdict == shell_verdict(position, shell@, arguments.deep_view()),
{
    match find_command_flag(shell, arguments) {
        None => Verdict::Safe { reason: SafeReason::NoCommandFlag { shell: position } },
        Some(flag) => {
            assert(arguments.deep_view().len() == arguments.len());
            if flag + 1 >= arguments.len() {
                Verdict::Unknown { reason: UnknownReason::MissingPayload { shell: position, flag } }
            } else {
                match arguments[flag + 1].classification() {
                    ArgumentKind::Literal => Verdict::Safe {
                        reason: SafeReason::StaticCommand { shell: position, flag },
                    },
                    ArgumentKind::Interpolated => Verdict::Vulnerable {
                        reason: VulnerableReason::InterpolatedCommand { shell: position, flag },
                    },
                    ArgumentKind::Opaque => Verdict::Vulnerable {
                        reason: VulnerableReason::OpaqueCommand { shell: position, flag },
                    },
                }
            }
        },
    }
}

/// The verdict on one invocation.
pub fn analyze(catalog: &Catalog, invocation: &ProcessInvocation) -> (verdict: Verdict)
    ensures
        verdict == verdict_of(catalog@, invocation@),
{
    match catalog.lookup_index(invocation.program()) {
        None => Verdict::Safe { reason: SafeReason::NotARecognizedShell },
        Some(position) => {
            proof {
                lemma_shell_index(catalog@, invocation@.program);
            }
            let shells = catalog.shells();
            judge_arguments(position, &shells[position], invocation.arguments())
        },
    }
}

/// The verdicts on several invocations, each judged by itself and in the
/// order given.
pub fn analyze_all(catalog: &Catalog, invocations: &Vec<ProcessInvocation>) -> (verdicts: Vec<
    Verdict,
>)
    ensures
        verdicts.len() == invocations.len(),
        forall|i: int|
            0 <= i < invocations.len() ==> verdicts[i] == verdict_of(
                catalog@,
                #[trigger] invocations[i]@,
            ),
{
    let mut verdicts: Vec<Verdict> = Vec::new();
    let n = invocations.len();
    for i in 0..n
        invariant
            n == invocations.len(),
            verdicts.len() == i,
            forall|j: int|
                0 <= j < i ==> verdicts[j] == verdict_of(catalog@, #[trigger] invocations[j]@),
    {
        let verdict = analyze(catalog, &invocations[i]);
        verdicts.push(verdict);
    }
    verdicts
}

} // verus!
