use vstd::prelude::*;

use crate::errors;
use crate::report::{Outcome, Report};
use crate::views::opt_view;

verus! {

#[verifier::external_type_specification]
#[verifier::external_body]
pub struct ExRegex(regex::Regex);

#[verifier::external_type_specification]
#[verifier::external_body]
pub struct ExRegexError(regex::Error);

/// Whether `regex::Regex::new` accepts a pattern.
pub uninterp spec fn regex_compiles(pattern: Seq<char>) -> bool;

/// The text of the leftmost-first match of a pattern in a haystack, as
/// `regex::Regex::find` reports it.
pub uninterp spec fn regex_find(pattern: Seq<char>, haystack: Seq<char>) -> Option<Seq<char>>;

/// Relies on `regex::Regex::new`: it compiles a pattern or reports why it cannot,
/// depending on the pattern alone.
#[verifier::external_body]
fn compile_regex(pattern: &str) -> (r: Result<regex::Regex, regex::Error>)
    ensures
        r is Ok <==> regex_compiles(pattern@),
{
    regex::Regex::new(pattern)
}

/// A regular expression compiled once, kept together with its source text.
///
/// `compiled` is only ever built from `source` by `TextPattern::new`.
pub struct TextPattern {
    source: String,
    compiled: regex::Regex,
}

/// Relies on `regex::Regex::find` and `regex::Match::as_str`: the text of the
/// leftmost-first match of `p`'s compiled pattern in `haystack`.
#[verifier::external_body]
fn find_first(p: &TextPattern, haystack: &str) -> (r: Option<String>)
    ensures
        opt_view(r) == regex_find(p.source(), haystack@),
{
    p.compiled.find(haystack).map(|m| m.as_str().to_string())
}

impl TextPattern {
    /// The regular expression this pattern was compiled from.
    pub closed spec fn source(&self) -> Seq<char> {
        self.source@
    }

    /// Compiles `source`.
    pub fn new(source: &str) -> (r: Result<TextPattern, regex::Error>)
        ensures
            r is Ok <==> regex_compiles(source@),
            r matches Ok(p) ==> p.source() == source@,
    {
        match compile_regex(source) {
            Ok(compiled) => Ok(TextPattern { source: String::from_str(source), compiled }),
            Err(e) => Err(e),
        }
    }

    /// The text of the leftmost-first match of this pattern in `haystack`.
    pub fn find(&self, haystack: &str) -> (r: Option<String>)
        ensures
            opt_view(r) == regex_find(self.source(), haystack@),
    {
        find_first(self, haystack)
    }
}

/// The test runner's summary line: a count of passed tests through to the
/// count of filtered ones.
pub const SUMMARY_PATTERN: &'static str = r"\d{1,} passed.*filtered out";

/// A compiler diagnostic: `error` followed by `:` or `[`, to the end of its line.
pub const ERROR_PATTERN: &'static str = r"error(:|\[).*";

/// The raw output of a run: its standard output, then its standard error.
pub open spec fn raw_output(stdout: Seq<char>, stderr: Seq<char>) -> Seq<char> {
    stdout + stderr
}

/// What a run is reported as, given whether the process succeeded, the summary
/// line found in its standard output, the error line found in its standard
/// error, and the two texts themselves.
///
/// A run with a summary line passed or failed as its process did; a failed run
/// without one is a compile error when an error line was found. Any other run
/// has an unexpected output: it is indeterminate, with the raw output as its
/// detail.
pub open spec fn classification(
    process_success: bool,
    summary: Option<Seq<char>>,
    error_line: Option<Seq<char>>,
    stdout: Seq<char>,
    stderr: Seq<char>,
) -> (Outcome, Option<Seq<char>>) {
    if summary is Some {
        if process_success {
            (Outcome::TestsPassed, summary)
        } else {
            (Outcome::TestsFailed, summary)
        }
    } else if !process_success && error_line is Some {
        (Outcome::CompileError, error_line)
    } else {
        (Outcome::Indeterminate, Some(raw_output(stdout, stderr)))
    }
}

/// The report for a run whose output has already been searched: `summary` is
/// the summary line of `stdout`, `error_line` the first error line of
/// `stderr`.
pub fn classify(
    process_success: bool,
    summary: Option<String>,
    error_line: Option<String>,
    stdout: &str,
    stderr: &str,
) -> (r: Report)
    ensures
        r@ == classification(
            process_success,
            opt_view(summary),
            opt_view(error_line),
            stdout@,
            stderr@,
        ),
{
    if summary.is_some() {
        if process_success {
            Report { outcome: Outcome::TestsPassed, detail: summary }
        } else {
            Report { outcome: Outcome::TestsFailed, detail: summary }
        }
    } else if !process_success && error_line.is_some() {
        Report { outcome: Outcome::CompileError, detail: error_line }
    } else {
        let mut raw = String::from_str(stdout);
        raw.append(stderr);
        Report { outcome: Outcome::Indeterminate, detail: Some(raw) }
    }
}

/// Determines the result of a test run from whether its process succeeded and
/// from what it wrote to its standard output and standard error.
///
/// Holds its regular expressions compiled, so that each classification only
/// searches.
pub struct ReportBuilder {
    result_re: TextPattern,
    error_re: TextPattern,
}

impl ReportBuilder {
    /// Both patterns are the fixed ones.
    #[verifier::type_invariant]
    spec fn holds_fixed_patterns(self) -> bool {
        &&& self.result_re.source() == SUMMARY_PATTERN@
        &&& self.error_re.source() == ERROR_PATTERN@
    }

    /// Compiles the summary and error patterns.
    pub fn new() -> (r: Result<ReportBuilder, errors::SetupError>)
        ensures
            r is Ok <==> regex_compiles(SUMMARY_PATTERN@) && regex_compiles(ERROR_PATTERN@),
            r matches Err(e) ==> e is Regex,
    {
        let result_re = match TextPattern::new(SUMMARY_PATTERN) {
            Ok(p) => p,
            Err(e) => {
                return Err(errors::SetupError::Regex(e));
            },
        };
        let error_re = match TextPattern::new(ERROR_PATTERN) {
            Ok(p) => p,
            Err(e) => {
                return Err(errors::SetupError::Regex(e));
            },
        };
        Ok(ReportBuilder { result_re, error_re })
    }

    /// Classifies a run. With a summary line in `stdout` the run passed or
    /// failed as its process did; a failed run without one is a compile error
    /// when `stderr` holds an error line. Any other run is indeterminate, with
    /// its raw output as the detail.
    pub fn identify(&self, process_success: bool, stdout: &str, stderr: &str) -> (r: Report)
        ensures
            r@ == classification(
                process_success,
                regex_find(SUMMARY_PATTERN@, stdout@),
                regex_find(ERROR_PATTERN@, stderr@),
                stdout@,
                stderr@,
            ),
    {
        proof {
            use_type_invariant(self);
        }
        let summary = self.result_re.find(stdout);
        let error_line = if process_success || summary.is_some() {
            None
        } else {
            self.error_re.find(stderr)
        };
        classify(process_success, summary, error_line, stdout, stderr)
    }
}

} // verus!
