use jarvis::sandbox::{SandboxDenial, SandboxSpec};

#[test]
fn sandbox_default_denies_everything() {
    let s = SandboxSpec::deny_all();
    let err = s.validate("ls", &[], None).unwrap_err();
    assert_eq!(err, SandboxDenial::ProgramNotAllowed("ls".into()));
}

#[test]
fn sandbox_allow_program_lets_it_through() {
    let s = SandboxSpec::deny_all().allow_program("ls");
    s.validate("ls", &["-la".into()], None).unwrap();
}

#[test]
fn sandbox_rejects_forbidden_pattern_in_args() {
    let s = SandboxSpec::deny_all().allow_program("sh");
    let err = s
        .validate("sh", &["-c".into(), "rm -rf / yolo".into()], None)
        .unwrap_err();
    assert!(
        matches!(err, SandboxDenial::ForbiddenPattern(_)),
        "expected ForbiddenPattern"
    );
}

#[test]
fn sandbox_args_too_long_denied() {
    let s = SandboxSpec {
        allowed_programs: vec!["sh".into()],
        forbidden_patterns: vec![],
        max_args_length: Some(8),
        allowed_cwds: vec![],
    };
    let err = s
        .validate("sh", &["-c".into(), "echo hellooooo world".into()], None)
        .unwrap_err();
    assert!(matches!(err, SandboxDenial::ArgsTooLong(_, _)), "expected ArgsTooLong");
}

#[test]
fn sandbox_cwd_must_be_allowed_when_restricted() {
    let s = SandboxSpec::deny_all()
        .allow_program("ls")
        .allow_cwd("/tmp/jarvis");
    let err = s.validate("ls", &[], Some("/etc")).unwrap_err();
    assert!(matches!(err, SandboxDenial::CwdNotAllowed(_)), "expected CwdNotAllowed");
    s.validate("ls", &[], Some("/tmp/jarvis/sub")).unwrap();
}

#[test]
fn sandbox_args_too_long_reports_utf8_byte_length() {
    let s = SandboxSpec {
        allowed_programs: vec!["sh".into()],
        forbidden_patterns: vec![],
        max_args_length: Some(5),
        allowed_cwds: vec![],
    };
    // "a" + " " + "重构" = 1 + 1 + 6 bytes
    let err = s.validate("sh", &["a".into(), "重构".into()], None).unwrap_err();
    assert_eq!(err, SandboxDenial::ArgsTooLong(8, 5));
}

#[test]
fn sandbox_forbidden_pattern_in_program_name() {
    let s = SandboxSpec::deny_all().allow_program("/sbin/reboot");
    let err = s.validate("/sbin/reboot", &[], None).unwrap_err();
    assert_eq!(err, SandboxDenial::ForbiddenPattern("reboot".into()));
}

#[test]
fn sandbox_first_forbidden_pattern_reported() {
    let s = SandboxSpec::deny_all().allow_program("sh").forbid("yolo");
    let err = s.validate("sh", &["yolo shutdown".into()], None).unwrap_err();
    assert_eq!(err, SandboxDenial::ForbiddenPattern("shutdown".into()));
}

#[test]
fn sandbox_program_check_precedes_length_check() {
    let s = SandboxSpec {
        allowed_programs: vec![],
        forbidden_patterns: vec![],
        max_args_length: Some(0),
        allowed_cwds: vec![],
    };
    let err = s.validate("sh", &["long".into()], None).unwrap_err();
    assert_eq!(err, SandboxDenial::ProgramNotAllowed("sh".into()));
}

#[test]
fn sandbox_default_has_no_limits() {
    let s = SandboxSpec::default();
    assert!(s.allowed_programs.is_empty());
    assert!(s.forbidden_patterns.is_empty());
    assert_eq!(s.max_args_length, None);
}
