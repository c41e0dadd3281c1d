use vstd::prelude::*;

use crate::config::Config;
use crate::errors::SetupError;
use crate::filter::{allows, filter_allows, pattern_sources};
use crate::report::{Outcome, Report};
use crate::report_builder::{
    classification,
    regex_compiles,
    regex_find,
    ReportBuilder,
    ERROR_PATTERN,
    SUMMARY_PATTERN,
};
use crate::views::{opt_view, strings_view};

verus! {

/// The program that runs the test suite.
pub const TEST_PROGRAM: &'static str = "cargo";

/// The arguments of a test run: the `test` subcommand, then the configured ones.
pub open spec fn test_command_args(config: Config) -> Seq<Seq<char>> {
    seq!["test"@] + strings_view(config.cargo_test_args@)
}

/// Whether a change event handled at `now` starts a run, when the last run
/// completed at `last_run_at`: the ignore duration has passed since then, and
/// the event names a path that the filter allows.
pub open spec fn reacts(config: Config, last_run_at: int, now: int, path: Option<Seq<char>>) -> bool {
    &&& now - last_run_at >= config.ignore_duration_ms
    &&& match path {
        Some(p) => allows(config.project_dir@, pattern_sources(config.patterns@), p),
        None => false,
    }
}

/// Decides when the test suite runs and what each run is reported as.
///
/// The caller owns the clock, the watch subscription and the processes: it
/// hands in the time, in milliseconds on one monotonic clock, each change
/// event, and the output of each run.
pub struct Reactor {
    config: Config,
    last_run_at_ms: u64,
    report_builder: ReportBuilder,
}

impl Reactor {
    /// The settings the reactor runs under.
    pub closed spec fn config(&self) -> Config {
        self.config
    }

    /// When the last run completed, or when watching started.
    pub closed spec fn last_run_at(&self) -> u64 {
        self.last_run_at_ms
    }

    /// A reactor for `config`, with its classifier compiled.
    pub fn new(config: Config) -> (r: Result<Reactor, SetupError>)
        ensures
            r is Ok <==> regex_compiles(SUMMARY_PATTERN@) && regex_compiles(ERROR_PATTERN@),
            r matches Ok(re) ==> re.config() == config && re.last_run_at() == 0,
            r matches Err(e) ==> e is Regex,
    {
        match ReportBuilder::new() {
            Ok(report_builder) => Ok(Reactor { config, last_run_at_ms: 0, report_builder }),
            Err(e) => Err(e),
        }
    }

    /// Starts watching at `now`: the first run happens at once, and its
    /// arguments are returned.
    pub fn start(&mut self, now_ms: u64) -> (r: Vec<String>)
        ensures
            final(self).config() == old(self).config(),
            final(self).last_run_at() == now_ms,
            strings_view(r@) == test_command_args(old(self).config()),
    {
        self.last_run_at_ms = now_ms;
        self.test_args()
    }

    /// The root of the watched project.
    pub fn project_dir(&self) -> (r: &str)
        ensures
            r@ == self.config().project_dir@,
    {
        self.config.project_dir.as_str()
    }

    /// The arguments passed to `TEST_PROGRAM` for a run.
    pub fn test_args(&self) -> (r: Vec<String>)
        ensures
            strings_view(r@) == test_command_args(self.config()),
    {
        let mut args: Vec<String> = vec![String::from_str("test")];
        let n = self.config.cargo_test_args.len();
        let mut i: usize = 0;
        while i < n
            invariant
                0 <= i <= n,
                n == self.config.cargo_test_args@.len(),
                strings_view(args@) == seq!["test"@] + strings_view(
                    self.config.cargo_test_args@.subrange(0, i as int),
                ),
            decreases n - i,
        {
            let ghost before = args@;
            args.push(self.config.cargo_test_args[i].clone());
            assert(strings_view(args@) =~= strings_view(before) + seq![
                self.config.cargo_test_args@[i as int]@,
            ]);
            assert(strings_view(self.config.cargo_test_args@.subrange(0, i + 1)) =~= strings_view(
                self.config.cargo_test_args@.subrange(0, i as int),
            ) + seq![self.config.cargo_test_args@[i as int]@]);
            i = i + 1;
        }
        assert(self.config.cargo_test_args@.subrange(0, n as int)
            =~= self.config.cargo_test_args@);
        args
    }

    /// Whether a change event handled at `now` starts a run.
    pub fn should_react(&self, now_ms: u64, path: &Option<String>) -> (r: bool)
        ensures
            r == reacts(self.config(), self.last_run_at() as int, now_ms as int, opt_view(*path)),
    {
        // ignore the event if tests finished very recently
        if now_ms < self.last_run_at_ms || now_ms - self.last_run_at_ms
            < self.config.ignore_duration_ms {
            return false;
        }
        match path {
            Some(p) => filter_allows(
                self.config.project_dir.as_str(),
                self.config.patterns.as_slice(),
                p.as_str(),
            ),
            None => false,
        }
    }

    /// Records that a run completed at `now` and classifies it from whether
    /// its process succeeded and what it wrote to each stream.
    pub fn finish_run(&mut self, now_ms: u64, process_success: bool, stdout: &str, stderr: &str) -> (r:
        Report)
        ensures
            final(self).config() == old(self).config(),
            final(self).last_run_at() == now_ms,
            r@ == classification(
                process_success,
                regex_find(SUMMARY_PATTERN@, stdout@),
                regex_find(ERROR_PATTERN@, stderr@),
                stdout@,
                stderr@,
            ),
    {
        let report = self.report_builder.identify(process_success, stdout, stderr);
        self.last_run_at_ms = now_ms;
        report
    }

    /// Records that a run ended at `now` without its output being read in
    /// full, and reports it as indeterminate, with `reason` as the detail.
    pub fn fail_run(&mut self, now_ms: u64, reason: &str) -> (r: Report)
        ensures
            final(self).config() == old(self).config(),
            final(self).last_run_at() == now_ms,
            r@ == (Outcome::Indeterminate, Some(reason@)),
    {
        self.last_run_at_ms = now_ms;
        Report { outcome: Outcome::Indeterminate, detail: Some(String::from_str(reason)) }
    }
}

/// A burst of changes gives one run: once a change has started a run, a
/// second change handled after that run completed, but less than the ignore
/// duration after the first change, starts none, whatever its path.
pub proof fn lemma_burst_runs_once(
    config: Config,
    last_run_at: int,
    first: int,
    first_path: Option<Seq<char>>,
    finished: int,
    second: int,
    second_path: Option<Seq<char>>,
)
    requires
        reacts(config, last_run_at, first, first_path),
        first <= finished <= second,
        second - first < config.ignore_duration_ms,
    ensures
        !reacts(config, finished, second, second_path),
{
}

} // verus!
