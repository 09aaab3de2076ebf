//! Verdicts: what the analysis says of one process invocation, and why.

use vstd::prelude::*;
use crate::argument::ArgumentKind;

verus! {

/// Why an invocation is safe. Positions count from 0: `shell` in the
/// catalog's shells, `flag` in the invocation's arguments.
#[derive(Clone, Copy, Debug, PartialEq, Eq, Structural)]
pub enum SafeReason {
    /// The program is no known shell, so its arguments reach it as they are.
    NotARecognizedShell,
    /// The shell is started without a flag that makes it run an argument.
    NoCommandFlag { shell: usize },
    /// The string that the shell runs is constant.
    StaticCommand { shell: usize, flag: usize },
}

/// Why an invocation is vulnerable: the argument behind the command flag at
/// `flag` is not constant.
#[derive(Clone, Copy, Debug, PartialEq, Eq, Structural)]
pub enum VulnerableReason {
    /// The string that the shell runs is formatted or concatenated from a
    /// part that is not constant.
    InterpolatedCommand { shell: usize, flag: usize },
    /// The string that the shell runs is a bare reference.
    OpaqueCommand { shell: usize, flag: usize },
}

/// Why nothing can be said of an invocation.
#[derive(Clone, Copy, Debug, PartialEq, Eq, Structural)]
pub enum UnknownReason {
    /// The command flag at `flag` is the last argument.
    MissingPayload { shell: usize, flag: usize },
}

/// What the analysis says of one invocation.
#[allow(inconsistent_fields)]
#[derive(Clone, Copy, Debug, PartialEq, Eq, Structural)]
pub enum Verdict {
    Vulnerable { reason: VulnerableReason },
    Safe { reason: SafeReason },
    Unknown { reason: UnknownReason },
}

/// How a verdict is to be reported.
#[derive(Clone, Copy, Debug, PartialEq, Eq, Structural)]
pub enum Severity {
    /// A vulnerability.
    Finding,
    /// A warning: a person has to look at the call site.
    NeedsReview,
    /// Nothing to report.
    Clear,
}

impl Verdict {
    /// The position in the catalog of the shell that the program starts.
    pub open spec fn shell_model(self) -> Option<usize> {
        match self {
            Verdict::Safe { reason: SafeReason::NotARecognizedShell } => None,
            Verdict::Safe { reason: SafeReason::NoCommandFlag { shell } } => Some(shell),
            Verdict::Safe { reason: SafeReason::StaticCommand { shell, .. } } => Some(shell),
            Verdict::Vulnerable {
                reason: VulnerableReason::InterpolatedCommand { shell, .. },
            } => Some(shell),
            Verdict::Vulnerable {
                reason: VulnerableReason::OpaqueCommand { shell, .. },
            } => Some(shell),
            Verdict::Unknown { reason: UnknownReason::MissingPayload { shell, .. } } => Some(shell),
        }
    }

    /// The position among the arguments of the command flag that decided.
    pub open spec fn flag_model(self) -> Option<usize> {
        match self {
            Verdict::Safe { reason: SafeReason::NotARecognizedShell } => None,
            Verdict::Safe { reason: SafeReason::NoCommandFlag { .. } } => None,
            Verdict::Safe { reason: SafeReason::StaticCommand { flag, .. } } => Some(flag),
            Verdict::Vulnerable {
                reason: VulnerableReason::InterpolatedCommand { flag, .. },
            } => Some(flag),
            Verdict::Vulnerable {
                reason: VulnerableReason::OpaqueCommand { flag, .. },
            } => Some(flag),
            Verdict::Unknown { reason: UnknownReason::MissingPayload { flag, .. } } => Some(flag),
        }
    }

    /// The classification of the argument behind the command flag.
    pub open spec fn payload_model(self) -> Option<ArgumentKind> {
        match self {
            Verdict::Safe { reason: SafeReason::StaticCommand { .. } } => {
                Some(ArgumentKind::Literal)
            },
            Verdict::Vulnerable { reason: VulnerableReason::InterpolatedCommand { .. } } => {
                Some(ArgumentKind::Interpolated)
            },
            Verdict::Vulnerable { reason: VulnerableReason::OpaqueCommand { .. } } => {
                Some(ArgumentKind::Opaque)
            },
            _ => None,
        }
    }

    /// The severity of each verdict.
    pub open spec fn severity_model(self) -> Severity {
        match self {
            Verdict::Vulnerable { .. } => Severity::Finding,
            Verdict::Unknown { .. } => Severity::NeedsReview,
            Verdict::Safe { .. } => Severity::Clear,
        }
    }

    /// The sentence that states the reason of each verdict.
    pub open spec fn message_model(self) -> Seq<char> {
        match self {
            Verdict::Safe { reason: SafeReason::NotARecognizedShell } => "not a recognized shell"@,
            Verdict::Safe {
                reason: SafeReason::NoCommandFlag { .. },
            } => "shell invoked without command-string flag"@,
            Verdict::Safe {
                reason: SafeReason::StaticCommand { .. },
            } => "static command string, no runtime-controlled content"@,
            Verdict::Vulnerable {
                ..
            } => "shell command string influenced by non-constant input"@,
            Verdict::Unknown { .. } => "command flag with no payload"@,
        }
    }

    /// Whether the invocation is vulnerable.
    pub fn is_vulnerable(&self) -> (r: bool)
        ensures
            r == (*self is Vulnerable),
    {
        match self {
            Verdict::Vulnerable { .. } => true,
            _ => false,
        }
    }

    /// Whether the invocation is safe.
    pub fn is_safe(&self) -> (r: bool)
        ensures
            r == (*self is Safe),
    {
        match self {
            Verdict::Safe { .. } => true,
            _ => false,
        }
    }

    /// Whether nothing can be said of the invocation.
    pub fn is_unknown(&self) -> (r: bool)
        ensures
            r == (*self is Unknown),
    {
        match self {
            Verdict::Unknown { .. } => true,
            _ => false,
        }
    }

    /// The position in the catalog of the shell that the program starts, or
    /// `None` where it starts none.
    pub fn shell(&self) -> (shell: Option<usize>)
        ensures
            shell == self.shell_model(),
    {
        match self {
            Verdict::Safe { reason: SafeReason::NotARecognizedShell } => None,
            Verdict::Safe { reason: SafeReason::NoCommandFlag { shell } } => Some(*shell),
            Verdict::Safe { reason: SafeReason::StaticCommand { shell, .. } } => Some(*shell),
            Verdict::Vulnerable {
                reason: VulnerableReason::InterpolatedCommand { shell, .. },
            } => Some(*shell),
            Verdict::Vulnerable {
                reason: VulnerableReason::OpaqueCommand { shell, .. },
            } => Some(*shell),
            Verdict::Unknown { reason: UnknownReason::MissingPayload { shell, .. } } => {
                Some(*shell)
            },
        }
    }

    /// The position among the arguments of the command flag that decided, or
    /// `None` where no command flag was found.
    pub fn flag(&self) -> (flag: Option<usize>)
        ensures
            flag == self.flag_model(),
    {
        match self {
            Verdict::Safe { reason: SafeReason::NotARecognizedShell } => None,
            Verdict::Safe { reason: SafeReason::NoCommandFlag { .. } } => None,
            Verdict::Safe { reason: SafeReason::StaticCommand { flag, .. } } => Some(*flag),
            Verdict::Vulnerable {
                reason: VulnerableReason::InterpolatedCommand { flag, .. },
            } => Some(*flag),
            Verdict::Vulnerable {
                reason: VulnerableReason::OpaqueCommand { flag, .. },
            } => Some(*flag),
            Verdict::Unknown { reason: UnknownReason::MissingPayload { flag, .. } } => Some(*flag),
        }
    }

    /// The classification of the argument behind the command flag, or `None`
    /// where there is no such argument.
    pub fn payload(&self) -> (kind: Option<ArgumentKind>)
        ensures
            kind == self.payload_model(),
    {
        match self {
            Verdict::Safe { reason: SafeReason::StaticCommand { .. } } => {
                Some(ArgumentKind::Literal)
            },
            Verdict::Vulnerable { reason: VulnerableReason::InterpolatedCommand { .. } } => {
                Some(ArgumentKind::Interpolated)
            },
            Verdict::Vulnerable { reason: VulnerableReason::OpaqueCommand { .. } } => {
                Some(ArgumentKind::Opaque)
            },
            _ => None,
        }
    }

    /// How this verdict is to be reported.
    pub fn severity(&self) -> (severity: Severity)
        ensures
            severity == self.severity_model(),
    {
        match self {
            Verdict::Vulnerable { .. } => Severity::Finding,
            Verdict::Unknown { .. } => Severity::NeedsReview,
            Verdict::Safe { .. } => Severity::Clear,
        }
    }

    /// The sentence that states the reason of this verdict.
    pub fn message(&self) -> (text: String)
        ensures
            text@ == self.message_model(),
    {
        match self {
            Verdict::Safe { reason: SafeReason::NotARecognizedShell } => String::from_str(
                "not a recognized shell",
            ),
            Verdict::Safe { reason: SafeReason::NoCommandFlag { .. } } => String::from_str(
                "shell invoked without command-string flag",
            ),
            Verdict::Safe { reason: SafeReason::StaticCommand { .. } } => String::from_str(
                "static command string, no runtime-controlled content",
            ),
            Verdict::Vulnerable { .. } => String::from_str(
                "shell command string influenced by non-constant input",
            ),
            Verdict::Unknown { .. } => String::from_str("command flag with no payload"),
        }
    }
}

} // verus!
