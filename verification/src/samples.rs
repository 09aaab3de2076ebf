//! Sample call sites, vulnerable and safe: for each, the command line that
//! it runs. They are the cases against which the analysis is held.

use vstd::prelude::*;

verus! {

/// A program and the arguments it is started with, as plain strings.
#[derive(Clone, Debug, PartialEq, Eq)]
pub struct CommandLine {
    pub program: String,
    pub args: Vec<String>,
}

/// The mathematical value of a [`CommandLine`].
pub struct CommandLineModel {
    pub program: Seq<char>,
    pub args: Seq<Seq<char>>,
}

impl View for CommandLine {
    type V = CommandLineModel;

    open spec fn view(&self) -> CommandLineModel {
        CommandLineModel { program: self.program@, args: self.args.deep_view() }
    }
}

/// A shell that runs a formatted string: `sh -c "ping -c 4 <user_input>"`.
/// Vulnerable.
pub fn vulnerable_shell(user_input: &str) -> (command: CommandLine)
    ensures
        command@ == (CommandLineModel {
            program: "sh"@,
            args: seq!["-c"@, "ping -c 4 "@ + user_input@],
        }),
{
    let mut args: Vec<String> = Vec::new();
    args.push(String::from_str("-c"));
    args.push(String::from_str("ping -c 4 ").concat(user_input));
    assert(args.deep_view() =~= seq!["-c"@, "ping -c 4 "@ + user_input@]);
    CommandLine { program: String::from_str("sh"), args }
}

/// A shell that runs whatever it is given: `bash -c <command>`. Vulnerable.
pub fn vulnerable_bash(command: &str) -> (line: CommandLine)
    ensures
        line@ == (CommandLineModel { program: "bash"@, args: seq!["-c"@, command@] }),
{
    let mut args: Vec<String> = Vec::new();
    args.push(String::from_str("-c"));
    args.push(String::from_str(command));
    assert(args.deep_view() =~= seq!["-c"@, command@]);
    CommandLine { program: String::from_str("bash"), args }
}

/// The Windows command interpreter running a formatted string:
/// `cmd /c "ping <user_input>"`. Vulnerable.
pub fn vulnerable_cmd(user_input: &str) -> (command: CommandLine)
    ensures
        command@ == (CommandLineModel {
            program: "cmd"@,
            args: seq!["/c"@, "ping "@ + user_input@],
        }),
{
    let mut args: Vec<String> = Vec::new();
    args.push(String::from_str("/c"));
    args.push(String::from_str("ping ").concat(user_input));
    assert(args.deep_view() =~= seq!["/c"@, "ping "@ + user_input@]);
    CommandLine { program: String::from_str("cmd"), args }
}

/// PowerShell running whatever it is given: `powershell -Command <script>`.
/// Vulnerable.
pub fn vulnerable_powershell(script: &str) -> (command: CommandLine)
    ensures
        command@ == (CommandLineModel { program: "powershell"@, args: seq!["-Command"@, script@] }),
{
    let mut args: Vec<String> = Vec::new();
    args.push(String::from_str("-Command"));
    args.push(String::from_str(script));
    assert(args.deep_view() =~= seq!["-Command"@, script@]);
    CommandLine { program: String::from_str("powershell"), args }
}

/// A program started directly, each argument by itself:
/// `ping -c 4 <host>`. Safe: no shell reads `host`.
pub fn safe_command(host: &str) -> (command: CommandLine)
    ensures
        command@ == (CommandLineModel { program: "ping"@, args: seq!["-c"@, "4"@, host@] }),
{
    let mut args: Vec<String> = Vec::new();
    args.push(String::from_str("-c"));
    args.push(String::from_str("4"));
    args.push(String::from_str(host));
    assert(args.deep_view() =~= seq!["-c"@, "4"@, host@]);
    CommandLine { program: String::from_str("ping"), args }
}

/// A shell that runs a constant string: `sh -c "echo hello"`. Safe.
pub fn safe_static_shell() -> (command: CommandLine)
    ensures
        command@ == (CommandLineModel { program: "sh"@, args: seq!["-c"@, "echo hello"@] }),
{
    let mut args: Vec<String> = Vec::new();
    args.push(String::from_str("-c"));
    args.push(String::from_str("echo hello"));
    assert(args.deep_view() =~= seq!["-c"@, "echo hello"@]);
    CommandLine { program: String::from_str("sh"), args }
}

/// A program started directly, its arguments given as one list:
/// `curl -s -o /dev/null <validated_host>`. Safe.
pub fn safe_args_array(validated_host: &str) -> (command: CommandLine)
    ensures
        command@ == (CommandLineModel {
            program: "curl"@,
            args: seq!["-s"@, "-o"@, "/dev/null"@, validated_host@],
        }),
{
    let mut args: Vec<String> = Vec::new();
    args.push(String::from_str("-s"));
    args.push(String::from_str("-o"));
    args.push(String::from_str("/dev/null"));
    args.push(String::from_str(validated_host));
    assert(args.deep_view() =~= seq!["-s"@, "-o"@, "/dev/null"@, validated_host@]);
    CommandLine { program: String::from_str("curl"), args }
}

} // verus!
