use vstd::prelude::*;

use crate::errors::SetupError;
use crate::filter::{glob_pattern_valid, pattern_sources, GlobPattern};
use crate::views::strings_view;

verus! {

/// The default minimum time between two runs, in milliseconds.
pub const DEFAULT_IGNORE_DURATION_MS: u64 = 300;

/// The patterns that are watched by default: sources, tests, the manifest, the
/// lock file and the build script.
pub open spec fn default_patterns() -> Seq<Seq<char>> {
    seq!["src/**/*.rs"@, "tests/**/*.rs"@, "Cargo.toml"@, "Cargo.lock"@, "build.rs"@]
}

/// The settings of a watch session, fixed before it starts.
#[derive(Debug)]
pub struct Config {
    /// Minimum time between two runs, in milliseconds.
    pub ignore_duration_ms: u64,
    /// The root of the watched project; not empty.
    pub project_dir: String,
    /// Arguments passed to the test command after `test`.
    pub cargo_test_args: Vec<String>,
    /// Globs, relative to `project_dir`, of the files whose change counts.
    pub patterns: Vec<GlobPattern>,
}

/// Collects the settings of a `Config` before its patterns are compiled.
pub struct ConfigBuilder {
    ignore_duration_ms: u64,
    project_dir: Option<String>,
    cargo_test_args: Vec<String>,
    patterns: Vec<String>,
}

/// The settings a builder holds.
pub ghost struct ConfigBuilderView {
    pub ignore_duration_ms: u64,
    pub project_dir: Option<Seq<char>>,
    pub cargo_test_args: Seq<Seq<char>>,
    pub patterns: Seq<Seq<char>>,
}

impl View for ConfigBuilder {
    type V = ConfigBuilderView;

    closed spec fn view(&self) -> ConfigBuilderView {
        ConfigBuilderView {
            ignore_duration_ms: self.ignore_duration_ms,
            project_dir: match self.project_dir {
                Some(d) => Some(d@),
                None => None,
            },
            cargo_test_args: strings_view(self.cargo_test_args@),
            patterns: strings_view(self.patterns@),
        }
    }
}

/// Compiles each of `sources`, in order; fails on the first that is not a
/// valid glob.
pub fn compile_patterns(sources: &[String]) -> (r: Result<Vec<GlobPattern>, glob::PatternError>)
    ensures
        r is Ok <==> forall|i: int|
            0 <= i < sources@.len() ==> #[trigger] glob_pattern_valid(sources@[i]@),
        r matches Ok(ps) ==> pattern_sources(ps@) == strings_view(sources@),
{
    let mut compiled: Vec<GlobPattern> = Vec::new();
    let mut i: usize = 0;
    while i < sources.len()
        invariant
            0 <= i <= sources@.len(),
            compiled@.len() == i,
            forall|j: int| 0 <= j < i ==> #[trigger] glob_pattern_valid(sources@[j]@),
            forall|j: int| 0 <= j < i ==> (#[trigger] compiled@[j]).source() == sources@[j]@,
        decreases sources@.len() - i,
    {
        match GlobPattern::new(sources[i].as_str()) {
            Ok(p) => compiled.push(p),
            Err(e) => {
                return Err(e);
            },
        }
        i = i + 1;
    }
    assert(pattern_sources(compiled@) =~= strings_view(sources@));
    Ok(compiled)
}

impl ConfigBuilder {
    /// A builder with the default delay and patterns, no test arguments and
    /// no project directory yet.
    pub fn new() -> (r: ConfigBuilder)
        ensures
            r@.ignore_duration_ms == DEFAULT_IGNORE_DURATION_MS,
            r@.project_dir is None,
            r@.cargo_test_args == Seq::<Seq<char>>::empty(),
            r@.patterns == default_patterns(),
    {
        let patterns = vec![
            String::from_str("src/**/*.rs"),
            String::from_str("tests/**/*.rs"),
            String::from_str("Cargo.toml"),
            String::from_str("Cargo.lock"),
            String::from_str("build.rs"),
        ];
        let r = ConfigBuilder {
            ignore_duration_ms: DEFAULT_IGNORE_DURATION_MS,
            project_dir: None,
            cargo_test_args: Vec::new(),
            patterns,
        };
        assert(r@.cargo_test_args =~= Seq::<Seq<char>>::empty());
        assert(r@.patterns =~= default_patterns());
        r
    }

    /// Sets the project directory.
    pub fn project_dir(self, dir: String) -> (r: ConfigBuilder)
        ensures
            r@ == (ConfigBuilderView { project_dir: Some(dir@), ..self@ }),
    {
        let mut b = self;
        b.project_dir = Some(dir);
        b
    }

    /// Sets the minimum time between two runs, in milliseconds.
    pub fn ignore_duration(self, millis: u64) -> (r: ConfigBuilder)
        ensures
            r@ == (ConfigBuilderView { ignore_duration_ms: millis, ..self@ }),
    {
        let mut b = self;
        b.ignore_duration_ms = millis;
        b
    }

    /// Adds `patterns` after those already held.
    pub fn include_patterns(self, patterns: &[&str]) -> (r: ConfigBuilder)
        ensures
            r@ == (ConfigBuilderView {
                patterns: self@.patterns + patterns@.map_values(|p: &str| p@),
                ..self@
            }),
    {
        let mut b = self;
        let ghost start = b.patterns@;
        let mut i: usize = 0;
        while i < patterns.len()
            invariant
                0 <= i <= patterns@.len(),
                b.ignore_duration_ms == self.ignore_duration_ms,
                b.project_dir == self.project_dir,
                b.cargo_test_args == self.cargo_test_args,
                start == self.patterns@,
                strings_view(b.patterns@) == strings_view(start) + patterns@.subrange(
                    0,
                    i as int,
                ).map_values(|p: &str| p@),
            decreases patterns@.len() - i,
        {
            let ghost before = b.patterns@;
            b.patterns.push(String::from_str(patterns[i]));
            assert(strings_view(b.patterns@) =~= strings_view(before) + seq![patterns@[i as int]@]);
            assert(patterns@.subrange(0, i + 1).map_values(|p: &str| p@) =~= patterns@.subrange(
                0,
                i as int,
            ).map_values(|p: &str| p@) + seq![patterns@[i as int]@]);
            i = i + 1;
        }
        assert(patterns@.subrange(0, patterns@.len() as int) =~= patterns@);
        b
    }

    /// Sets the arguments passed to the test command after `test`.
    pub fn cargo_test_args(self, args: Vec<String>) -> (r: ConfigBuilder)
        ensures
            r@ == (ConfigBuilderView { cargo_test_args: strings_view(args@), ..self@ }),
    {
        let mut b = self;
        b.cargo_test_args = args;
        b
    }

    /// Compiles the patterns into a `Config`. Fails when no project directory
    /// was given or it is empty, and otherwise on the first pattern that is
    /// not a valid glob.
    pub fn build(self) -> (r: Result<Config, SetupError>)
        ensures
            self@.project_dir is None ==> r is Err && r->Err_0 is ProjectDirMissing,
            self@.project_dir == Some(Seq::<char>::empty()) ==> r is Err && r->Err_0 is ProjectDirEmpty,
            self@.project_dir matches Some(d) && d.len() > 0 ==> (r is Ok <==> forall|i: int|
                0 <= i < self@.patterns.len() ==> #[trigger] glob_pattern_valid(
                    self@.patterns[i],
                )),
            self@.project_dir matches Some(d) && d.len() > 0 && r is Err ==> r->Err_0 is Pattern,
            r matches Ok(c) ==> {
                &&& Some(c.project_dir@) == self@.project_dir
                &&& c.project_dir@.len() > 0
                &&& c.ignore_duration_ms == self@.ignore_duration_ms
                &&& strings_view(c.cargo_test_args@) == self@.cargo_test_args
                &&& pattern_sources(c.patterns@) == self@.patterns
            },
    {
        let ghost view = self@;
        let project_dir = match self.project_dir {
            Some(d) => d,
            None => {
                return Err(SetupError::ProjectDirMissing);
            },
        };
        if project_dir.as_str().is_empty() {
            assert(view.project_dir == Some(Seq::<char>::empty())) by {
                assert(project_dir@ =~= Seq::<char>::empty());
            }
            return Err(SetupError::ProjectDirEmpty);
        }
        let patterns = match compile_patterns(self.patterns.as_slice()) {
            Ok(ps) => ps,
            Err(e) => {
                proof {
                    let i = choose|i: int|
                        0 <= i < self.patterns@.len() && !#[trigger] glob_pattern_valid(
                            self.patterns@[i]@,
                        );
                    assert(view.patterns[i] == self.patterns@[i]@);
                }
                return Err(SetupError::Pattern(e));
            },
        };
        proof {
            assert forall|i: int| 0 <= i < view.patterns.len() implies #[trigger] glob_pattern_valid(
                view.patterns[i],
            ) by {
                assert(view.patterns[i] == self.patterns@[i]@);
            }
        }
        Ok(
            Config {
                ignore_duration_ms: self.ignore_duration_ms,
                project_dir,
                cargo_test_args: self.cargo_test_args,
                patterns,
            },
        )
    }
}

} // verus!
