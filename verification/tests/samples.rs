use shell_taint::samples::{
    safe_args_array, safe_command, safe_static_shell, vulnerable_bash, vulnerable_cmd,
    vulnerable_powershell, vulnerable_shell, CommandLine,
};

fn line(program: &str, args: &[&str]) -> CommandLine {
    CommandLine {
        program: program.to_string(),
        args: args.iter().map(|arg| arg.to_string()).collect(),
    }
}

#[test]
fn vulnerable_shell_formats_the_input_into_the_command() {
    assert_eq!(vulnerable_shell("example.org"), line("sh", &["-c", "ping -c 4 example.org"]));
    assert_eq!(
        vulnerable_shell("example.org; rm -rf /"),
        line("sh", &["-c", "ping -c 4 example.org; rm -rf /"])
    );
    assert_eq!(vulnerable_shell(""), line("sh", &["-c", "ping -c 4 "]));
}

#[test]
fn vulnerable_bash_hands_the_command_over() {
    assert_eq!(vulnerable_bash("ls -l"), line("bash", &["-c", "ls -l"]));
    assert_eq!(vulnerable_bash(""), line("bash", &["-c", ""]));
}

#[test]
fn vulnerable_cmd_formats_the_input_into_the_command() {
    assert_eq!(vulnerable_cmd("example.org"), line("cmd", &["/c", "ping example.org"]));
    assert_eq!(vulnerable_cmd("a & del b"), line("cmd", &["/c", "ping a & del b"]));
}

#[test]
fn vulnerable_powershell_hands_the_script_over() {
    assert_eq!(
        vulnerable_powershell("Get-Process"),
        line("powershell", &["-Command", "Get-Process"])
    );
}

#[test]
fn safe_command_keeps_the_host_in_an_argument_of_its_own() {
    assert_eq!(safe_command("example.org"), line("ping", &["-c", "4", "example.org"]));
    assert_eq!(
        safe_command("example.org; rm -rf /"),
        line("ping", &["-c", "4", "example.org; rm -rf /"])
    );
}

#[test]
fn safe_static_shell_runs_a_constant() {
    assert_eq!(safe_static_shell(), line("sh", &["-c", "echo hello"]));
}

#[test]
fn safe_args_array_lists_its_arguments() {
    assert_eq!(
        safe_args_array("example.org"),
        line("curl", &["-s", "-o", "/dev/null", "example.org"])
    );
}
