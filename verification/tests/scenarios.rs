use shell_taint::argument::{ArgumentExpr, ArgumentKind, Segment};
use shell_taint::catalog::Catalog;
use shell_taint::engine::analyze;
use shell_taint::invocation::{InvocationBuilder, ProcessInvocation, SiteId};
use shell_taint::name::Platform;
use shell_taint::oracle::Expectation;
use shell_taint::verdict::{SafeReason, Severity, UnknownReason, Verdict, VulnerableReason};

fn literal(text: &str) -> ArgumentExpr {
    ArgumentExpr::Literal(text.to_string())
}

fn opaque(source: &str) -> ArgumentExpr {
    ArgumentExpr::Opaque(source.to_string())
}

fn formatted(constant: &str, source: &str) -> ArgumentExpr {
    ArgumentExpr::Interpolated(vec![
        Segment::Constant(constant.to_string()),
        Segment::Dynamic(source.to_string()),
    ])
}

fn sh_ping_formatted() -> ProcessInvocation {
    InvocationBuilder::new("sh")
        .arg(literal("-c"))
        .arg(formatted("ping -c 4 ", "host"))
        .finish(SiteId(1))
}

#[test]
fn sh_running_a_formatted_string_is_vulnerable() {
    let catalog = Catalog::standard(Platform::Posix);
    let verdict = analyze(&catalog, &sh_ping_formatted());
    assert_eq!(
        verdict,
        Verdict::Vulnerable { reason: VulnerableReason::InterpolatedCommand { shell: 0, flag: 0 } }
    );
    assert_eq!(verdict.payload(), Some(ArgumentKind::Interpolated));
    assert_eq!(verdict.message(), "shell command string influenced by non-constant input");
    assert!(Expectation::ExpectError.is_met_by(&verdict));
    assert!(!Expectation::NoError.is_met_by(&verdict));
}

#[test]
fn bash_running_a_parameter_is_vulnerable() {
    let catalog = Catalog::standard(Platform::Posix);
    let invocation =
        InvocationBuilder::new("bash").arg(literal("-c")).arg(opaque("command")).finish(SiteId(2));
    let verdict = analyze(&catalog, &invocation);
    assert_eq!(
        verdict,
        Verdict::Vulnerable { reason: VulnerableReason::OpaqueCommand { shell: 0, flag: 0 } }
    );
    assert_eq!(verdict.payload(), Some(ArgumentKind::Opaque));
    assert!(Expectation::ExpectError.is_met_by(&verdict));
}

#[test]
fn cmd_running_a_formatted_string_is_vulnerable() {
    let catalog = Catalog::standard(Platform::Posix);
    let invocation = InvocationBuilder::new("cmd")
        .arg(literal("/c"))
        .arg(formatted("ping ", "user_input"))
        .finish(SiteId(3));
    let verdict = analyze(&catalog, &invocation);
    assert_eq!(
        verdict,
        Verdict::Vulnerable { reason: VulnerableReason::InterpolatedCommand { shell: 1, flag: 0 } }
    );
    assert!(Expectation::ExpectError.is_met_by(&verdict));
}

#[test]
fn powershell_running_a_parameter_is_vulnerable() {
    let catalog = Catalog::standard(Platform::Posix);
    let invocation = InvocationBuilder::new("powershell")
        .arg(literal("-Command"))
        .arg(opaque("script"))
        .finish(SiteId(4));
    let verdict = analyze(&catalog, &invocation);
    assert_eq!(
        verdict,
        Verdict::Vulnerable { reason: VulnerableReason::OpaqueCommand { shell: 2, flag: 0 } }
    );
    assert!(Expectation::ExpectError.is_met_by(&verdict));
}

#[test]
fn ping_with_separate_arguments_is_safe() {
    let catalog = Catalog::standard(Platform::Posix);
    let invocation = InvocationBuilder::new("ping")
        .arg(literal("-c"))
        .arg(literal("4"))
        .arg(opaque("host"))
        .finish(SiteId(5));
    let verdict = analyze(&catalog, &invocation);
    assert_eq!(verdict, Verdict::Safe { reason: SafeReason::NotARecognizedShell });
    assert_eq!(verdict.message(), "not a recognized shell");
    assert_eq!(verdict.shell(), None);
    assert!(Expectation::NoError.is_met_by(&verdict));
}

#[test]
fn sh_running_a_literal_is_safe() {
    let catalog = Catalog::standard(Platform::Posix);
    let invocation = InvocationBuilder::new("sh")
        .arg(literal("-c"))
        .arg(literal("echo hello"))
        .finish(SiteId(6));
    let verdict = analyze(&catalog, &invocation);
    assert_eq!(verdict, Verdict::Safe { reason: SafeReason::StaticCommand { shell: 0, flag: 0 } });
    assert_eq!(verdict.message(), "static command string, no runtime-controlled content");
    assert_eq!(verdict.payload(), Some(ArgumentKind::Literal));
    assert!(Expectation::NoError.is_met_by(&verdict));
    assert!(!Expectation::ExpectError.is_met_by(&verdict));
}

#[test]
fn curl_with_an_argument_list_is_safe() {
    let catalog = Catalog::standard(Platform::Posix);
    let invocation = InvocationBuilder::new("curl")
        .args(vec![literal("-s"), literal("-o"), literal("/dev/null"), opaque("validated_host")])
        .finish(SiteId(7));
    let verdict = analyze(&catalog, &invocation);
    assert_eq!(verdict, Verdict::Safe { reason: SafeReason::NotARecognizedShell });
    assert!(Expectation::NoError.is_met_by(&verdict));
}

#[test]
fn the_same_invocation_gets_the_same_verdict_again() {
    let catalog = Catalog::standard(Platform::Posix);
    let invocation = sh_ping_formatted();
    let first = analyze(&catalog, &invocation);
    let second = analyze(&catalog, &invocation);
    assert_eq!(first, second);
    let elsewhere = InvocationBuilder::new("sh")
        .arg(literal("-c"))
        .arg(formatted("ping -c 4 ", "host"))
        .finish(SiteId(900));
    assert_eq!(analyze(&catalog, &elsewhere), first);
}

#[test]
fn a_literal_payload_is_safe_for_every_standard_shell() {
    let catalog = Catalog::standard(Platform::Posix);
    let cases = [("sh", "-c", 0), ("bash", "-c", 0), ("dash", "-c", 0), ("zsh", "-c", 0),
        ("cmd", "/c", 1), ("powershell", "-Command", 2)];
    for (program, flag, shell) in cases {
        let invocation = InvocationBuilder::new(program)
            .arg(literal(flag))
            .arg(literal("echo hello"))
            .finish(SiteId(10));
        assert_eq!(
            analyze(&catalog, &invocation),
            Verdict::Safe { reason: SafeReason::StaticCommand { shell, flag: 0 } }
        );
    }
}

#[test]
fn a_tainted_payload_is_vulnerable_for_every_standard_shell() {
    let catalog = Catalog::standard(Platform::Posix);
    let cases = [("sh", "-c", 0), ("bash", "-c", 0), ("dash", "-c", 0), ("zsh", "-c", 0),
        ("cmd", "/c", 1), ("powershell", "-Command", 2)];
    for (program, flag, shell) in cases {
        let with_reference =
            InvocationBuilder::new(program).arg(literal(flag)).arg(opaque("x")).finish(SiteId(11));
        assert_eq!(
            analyze(&catalog, &with_reference),
            Verdict::Vulnerable { reason: VulnerableReason::OpaqueCommand { shell, flag: 0 } }
        );
        let with_format = InvocationBuilder::new(program)
            .arg(literal(flag))
            .arg(formatted("run ", "x"))
            .finish(SiteId(12));
        assert_eq!(
            analyze(&catalog, &with_format),
            Verdict::Vulnerable { reason: VulnerableReason::InterpolatedCommand { shell, flag: 0 } }
        );
    }
}

#[test]
fn a_program_outside_the_catalog_is_safe_whatever_its_arguments() {
    let catalog = Catalog::standard(Platform::Posix);
    let invocation = InvocationBuilder::new("rsync")
        .arg(literal("-c"))
        .arg(opaque("anything"))
        .arg(formatted("a", "b"))
        .finish(SiteId(13));
    assert_eq!(
        analyze(&catalog, &invocation),
        Verdict::Safe { reason: SafeReason::NotARecognizedShell }
    );
    let bare = InvocationBuilder::new("rsync").finish(SiteId(14));
    assert_eq!(analyze(&catalog, &bare), Verdict::Safe { reason: SafeReason::NotARecognizedShell });
}

#[test]
fn a_shell_without_command_flag_is_safe() {
    let catalog = Catalog::standard(Platform::Posix);
    let invocation = InvocationBuilder::new("bash")
        .arg(literal("--login"))
        .arg(opaque("script_path"))
        .finish(SiteId(15));
    let verdict = analyze(&catalog, &invocation);
    assert_eq!(verdict, Verdict::Safe { reason: SafeReason::NoCommandFlag { shell: 0 } });
    assert_eq!(verdict.message(), "shell invoked without command-string flag");
    assert_eq!(verdict.flag(), None);
    assert_eq!(verdict.shell(), Some(0));
    let no_arguments = InvocationBuilder::new("sh").finish(SiteId(16));
    assert_eq!(
        analyze(&catalog, &no_arguments),
        Verdict::Safe { reason: SafeReason::NoCommandFlag { shell: 0 } }
    );
}

#[test]
fn a_flag_of_another_shell_is_no_command_flag() {
    let catalog = Catalog::standard(Platform::Posix);
    let invocation =
        InvocationBuilder::new("sh").arg(literal("/c")).arg(opaque("x")).finish(SiteId(17));
    assert_eq!(
        analyze(&catalog, &invocation),
        Verdict::Safe { reason: SafeReason::NoCommandFlag { shell: 0 } }
    );
    let capital =
        InvocationBuilder::new("sh").arg(literal("-C")).arg(opaque("x")).finish(SiteId(18));
    assert_eq!(
        analyze(&catalog, &capital),
        Verdict::Safe { reason: SafeReason::NoCommandFlag { shell: 0 } }
    );
}

#[test]
fn a_command_flag_without_payload_is_unknown() {
    let catalog = Catalog::standard(Platform::Posix);
    let invocation = InvocationBuilder::new("sh").arg(literal("-c")).finish(SiteId(19));
    let verdict = analyze(&catalog, &invocation);
    assert_eq!(
        verdict,
        Verdict::Unknown { reason: UnknownReason::MissingPayload { shell: 0, flag: 0 } }
    );
    assert_eq!(verdict.message(), "command flag with no payload");
    assert_eq!(verdict.severity(), Severity::NeedsReview);
    assert!(verdict.is_unknown());
    assert!(!verdict.is_vulnerable());
    assert!(!verdict.is_safe());
    assert!(!Expectation::NoError.is_met_by(&verdict));
    assert!(!Expectation::ExpectError.is_met_by(&verdict));

    let later = InvocationBuilder::new("sh")
        .arg(literal("-e"))
        .arg(literal("-c"))
        .finish(SiteId(20));
    assert_eq!(
        analyze(&catalog, &later),
        Verdict::Unknown { reason: UnknownReason::MissingPayload { shell: 0, flag: 1 } }
    );
}

#[test]
fn the_first_command_flag_governs() {
    let catalog = Catalog::standard(Platform::Posix);
    let literal_first = InvocationBuilder::new("sh")
        .arg(literal("-c"))
        .arg(literal("echo hello"))
        .arg(literal("-c"))
        .arg(opaque("x"))
        .finish(SiteId(21));
    assert_eq!(
        analyze(&catalog, &literal_first),
        Verdict::Safe { reason: SafeReason::StaticCommand { shell: 0, flag: 0 } }
    );
    let tainted_first = InvocationBuilder::new("sh")
        .arg(literal("-x"))
        .arg(literal("-c"))
        .arg(opaque("x"))
        .arg(literal("-c"))
        .arg(literal("echo hello"))
        .finish(SiteId(22));
    assert_eq!(
        analyze(&catalog, &tainted_first),
        Verdict::Vulnerable { reason: VulnerableReason::OpaqueCommand { shell: 0, flag: 1 } }
    );
    let flag_as_payload = InvocationBuilder::new("sh")
        .arg(literal("-c"))
        .arg(literal("-c"))
        .arg(opaque("x"))
        .finish(SiteId(23));
    assert_eq!(
        analyze(&catalog, &flag_as_payload),
        Verdict::Safe { reason: SafeReason::StaticCommand { shell: 0, flag: 0 } }
    );
}

#[test]
fn a_flag_that_is_not_constant_is_no_command_flag() {
    let catalog = Catalog::standard(Platform::Posix);
    let invocation =
        InvocationBuilder::new("sh").arg(opaque("flag")).arg(opaque("x")).finish(SiteId(24));
    assert_eq!(
        analyze(&catalog, &invocation),
        Verdict::Safe { reason: SafeReason::NoCommandFlag { shell: 0 } }
    );
    let formatted_flag = InvocationBuilder::new("sh")
        .arg(formatted("-", "letter"))
        .arg(opaque("x"))
        .finish(SiteId(25));
    assert_eq!(
        analyze(&catalog, &formatted_flag),
        Verdict::Safe { reason: SafeReason::NoCommandFlag { shell: 0 } }
    );
}

#[test]
fn a_concatenation_of_constants_counts_as_a_literal() {
    let catalog = Catalog::standard(Platform::Posix);
    let joined_flag = ArgumentExpr::Interpolated(vec![
        Segment::Constant("-".to_string()),
        Segment::Constant("c".to_string()),
    ]);
    let joined_payload = ArgumentExpr::Interpolated(vec![
        Segment::Constant("echo ".to_string()),
        Segment::Constant("hello".to_string()),
    ]);
    let invocation =
        InvocationBuilder::new("sh").arg(joined_flag).arg(joined_payload).finish(SiteId(26));
    assert_eq!(
        analyze(&catalog, &invocation),
        Verdict::Safe { reason: SafeReason::StaticCommand { shell: 0, flag: 0 } }
    );
}

#[test]
fn a_single_dynamic_segment_counts_as_a_bare_reference() {
    let catalog = Catalog::standard(Platform::Posix);
    let payload = ArgumentExpr::Interpolated(vec![Segment::Dynamic("command".to_string())]);
    let invocation =
        InvocationBuilder::new("sh").arg(literal("-c")).arg(payload).finish(SiteId(27));
    assert_eq!(
        analyze(&catalog, &invocation),
        Verdict::Vulnerable { reason: VulnerableReason::OpaqueCommand { shell: 0, flag: 0 } }
    );
}

#[test]
fn severities_tell_findings_from_warnings() {
    let vulnerable =
        Verdict::Vulnerable { reason: VulnerableReason::OpaqueCommand { shell: 0, flag: 0 } };
    let unknown = Verdict::Unknown { reason: UnknownReason::MissingPayload { shell: 0, flag: 0 } };
    let safe = Verdict::Safe { reason: SafeReason::NotARecognizedShell };
    assert_eq!(vulnerable.severity(), Severity::Finding);
    assert_eq!(unknown.severity(), Severity::NeedsReview);
    assert_eq!(safe.severity(), Severity::Clear);
    assert!(vulnerable.is_vulnerable() && !vulnerable.is_safe() && !vulnerable.is_unknown());
    assert!(safe.is_safe() && !safe.is_vulnerable() && !safe.is_unknown());
    assert_eq!(vulnerable.flag(), Some(0));
    assert_eq!(unknown.shell(), Some(0));
    assert_eq!(unknown.payload(), None);
    assert_eq!(safe.payload(), None);
}

#[test]
fn markers_are_read_exactly() {
    assert_eq!(Expectation::from_marker("<expect-error>"), Some(Expectation::ExpectError));
    assert_eq!(Expectation::from_marker("<no-error>"), Some(Expectation::NoError));
    assert_eq!(Expectation::from_marker("<no-error> "), None);
    assert_eq!(Expectation::from_marker("expect-error"), None);
    assert_eq!(Expectation::from_marker(""), None);
    assert_eq!(Expectation::ExpectError.marker(), "<expect-error>");
    assert_eq!(Expectation::NoError.marker(), "<no-error>");
    assert_eq!(
        Expectation::from_marker(Expectation::NoError.marker()),
        Some(Expectation::NoError)
    );
}

#[test]
fn a_shell_given_by_its_path_is_judged_like_its_name() {
    let catalog = Catalog::standard(Platform::Posix);
    let by_name = analyze(&catalog, &sh_ping_formatted());
    for program in ["/bin/sh", "./sh", "/usr/local/bin/sh", "//sh"] {
        let by_path = InvocationBuilder::new(program)
            .arg(literal("-c"))
            .arg(formatted("ping -c 4 ", "host"))
            .finish(SiteId(30));
        assert_eq!(analyze(&catalog, &by_path), by_name);
    }
    let directory = InvocationBuilder::new("/bin/sh/")
        .arg(literal("-c"))
        .arg(opaque("x"))
        .finish(SiteId(31));
    assert_eq!(
        analyze(&catalog, &directory),
        Verdict::Safe { reason: SafeReason::NotARecognizedShell }
    );
}

#[test]
fn windows_names_are_judged_without_regard_to_case() {
    let invocation = InvocationBuilder::new("C:\\Windows\\System32\\CMD")
        .arg(literal("/c"))
        .arg(formatted("ping ", "user_input"))
        .finish(SiteId(32));
    assert_eq!(
        analyze(&Catalog::standard(Platform::Windows), &invocation),
        Verdict::Vulnerable { reason: VulnerableReason::InterpolatedCommand { shell: 1, flag: 0 } }
    );
    assert_eq!(
        analyze(&Catalog::standard(Platform::Posix), &invocation),
        Verdict::Safe { reason: SafeReason::NotARecognizedShell }
    );
    let capital_flag = InvocationBuilder::new("cmd")
        .arg(literal("/C"))
        .arg(opaque("x"))
        .finish(SiteId(33));
    assert_eq!(
        analyze(&Catalog::standard(Platform::Windows), &capital_flag),
        Verdict::Safe { reason: SafeReason::NoCommandFlag { shell: 1 } }
    );
}
