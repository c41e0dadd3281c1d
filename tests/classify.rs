use cargo_testify::{classify, Outcome, Report, ReportBuilder};

const SUMMARY: &str = "3 passed; 0 failed; 0 ignored; 0 measured; 0 filtered out";

fn builder() -> ReportBuilder {
    ReportBuilder::new().expect("the built-in patterns compile")
}

#[test]
fn test_fail() {
    assert_eq!(1, 1);
}

#[test]
fn passed_run_reports_the_summary_line() {
    let stdout = format!("running 3 tests\ntest a ... ok\n\ntest result: ok. {}\n\n", SUMMARY);
    let report = builder().identify(true, &stdout, "   Compiling x v0.1.0\n");
    assert_eq!(report.outcome, Outcome::TestsPassed);
    assert_eq!(report.detail.as_deref(), Some(SUMMARY));
}

#[test]
fn failed_run_with_summary_is_tests_failed() {
    let stdout = format!("test a ... FAILED\n\ntest result: FAILED. {}\n", SUMMARY);
    let stderr = "error: test failed, to rerun pass `--lib`\n";
    let report = builder().identify(false, &stdout, stderr);
    assert_eq!(report.outcome, Outcome::TestsFailed);
    assert_eq!(report.detail.as_deref(), Some(SUMMARY));
}

#[test]
fn failed_run_without_summary_is_compile_error() {
    let stderr = "   Compiling x v0.1.0\nerror[E0425]: cannot find value `x` in this scope\n --> src/lib.rs:1:1\n";
    let report = builder().identify(false, "", stderr);
    assert_eq!(report.outcome, Outcome::CompileError);
    let detail = report.detail.expect("an error line");
    assert!(detail.starts_with("error[E0425]"));
    assert_eq!(detail, "error[E0425]: cannot find value `x` in this scope");
}

#[test]
fn error_line_with_colon_is_compile_error() {
    let stderr = "error: could not compile `x` due to previous error\nmore\n";
    let report = builder().identify(false, "nothing here\n", stderr);
    assert_eq!(report.outcome, Outcome::CompileError);
    assert_eq!(report.detail.as_deref(), Some("error: could not compile `x` due to previous error"));
}

#[test]
fn failed_run_without_any_known_line_is_indeterminate() {
    let stderr = "Segmentation fault\n";
    let report = builder().identify(false, "running 2 tests\n", stderr);
    assert_eq!(report.outcome, Outcome::Indeterminate);
    assert_eq!(report.detail.as_deref(), Some("running 2 tests\nSegmentation fault\n"));
}

#[test]
fn passed_run_without_summary_is_indeterminate() {
    let report = builder().identify(true, "no summary\n", "warning: x\n");
    assert_eq!(report.outcome, Outcome::Indeterminate);
    assert_eq!(report.detail.as_deref(), Some("no summary\nwarning: x\n"));
}

#[test]
fn passed_run_ignores_error_lines_without_summary() {
    let report = builder().identify(true, "", "error: odd\n");
    assert_eq!(report.outcome, Outcome::Indeterminate);
    assert_eq!(report.detail.as_deref(), Some("error: odd\n"));
}

#[test]
fn summary_decides_even_when_stderr_has_errors() {
    let stdout = format!("test result: FAILED. {}\n", SUMMARY);
    let report = builder().identify(false, &stdout, "error[E0308]: mismatched types\n");
    assert_eq!(report.outcome, Outcome::TestsFailed);
}

#[test]
fn classify_takes_found_lines() {
    let r = classify(true, Some("1 passed; 0 filtered out".to_string()), None, "", "");
    assert_eq!(r, Report { outcome: Outcome::TestsPassed, detail: Some("1 passed; 0 filtered out".to_string()) });
    let r = classify(false, Some("1 passed; 1 failed; 0 filtered out".to_string()), Some("error: x".to_string()), "o", "e");
    assert_eq!(r.outcome, Outcome::TestsFailed);
    assert_eq!(r.detail.as_deref(), Some("1 passed; 1 failed; 0 filtered out"));
    let r = classify(false, None, Some("error: x".to_string()), "", "error: x\n");
    assert_eq!(r, Report { outcome: Outcome::CompileError, detail: Some("error: x".to_string()) });
    let r = classify(false, None, None, "out\n", "boom");
    assert_eq!(r, Report { outcome: Outcome::Indeterminate, detail: Some("out\nboom".to_string()) });
    let r = classify(true, None, Some("error: x".to_string()), "", "error: x");
    assert_eq!(r, Report { outcome: Outcome::Indeterminate, detail: Some("error: x".to_string()) });
}

#[test]
fn titles_and_icons() {
    let r = |outcome| Report { outcome, detail: None };
    assert_eq!(r(Outcome::TestsPassed).title(), "Tests passed");
    assert_eq!(r(Outcome::TestsFailed).title(), "Tests failed");
    assert_eq!(r(Outcome::CompileError).title(), "Error");
    assert_eq!(r(Outcome::Indeterminate).title(), "Unknown outcome");
    assert_eq!(r(Outcome::TestsPassed).icon(), "face-angel");
    assert_eq!(r(Outcome::TestsFailed).icon(), "face-angry");
    assert_eq!(r(Outcome::CompileError).icon(), "face-angry");
}
