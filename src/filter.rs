use vstd::prelude::*;

use crate::views::opt_view;

verus! {

#[verifier::external_type_specification]
#[verifier::external_body]
pub struct ExPattern(glob::Pattern);

#[verifier::external_type_specification]
#[verifier::external_body]
pub struct ExPatternError(glob::PatternError);

/// Whether `glob::Pattern::new` accepts a pattern.
pub uninterp spec fn glob_pattern_valid(pattern: Seq<char>) -> bool;

/// Whether a compiled glob pattern matches a path under the three match
/// options, as `glob::Pattern::matches_with` decides it.
pub uninterp spec fn glob_matches(
    pattern: Seq<char>,
    path: Seq<char>,
    case_sensitive: bool,
    require_literal_separator: bool,
    require_literal_leading_dot: bool,
) -> bool;

/// What is left of `path` once the leading components that make up `base` are
/// taken off, or nothing when `base` is not a prefix of `path`, as
/// `std::path::Path::strip_prefix` computes it.
pub uninterp spec fn path_strip_prefix(path: Seq<char>, base: Seq<char>) -> Option<Seq<char>>;

/// Relies on `glob::Pattern::new`: it compiles a pattern or reports where it
/// is malformed, depending on the pattern alone.
#[verifier::external_body]
fn compile_glob(pattern: &str) -> (r: Result<glob::Pattern, glob::PatternError>)
    ensures
        r is Ok <==> glob_pattern_valid(pattern@),
{
    glob::Pattern::new(pattern)
}

/// Relies on `glob::Pattern::matches_with`, given the options as its
/// `glob::MatchOptions` fields.
#[verifier::external_body]
fn glob_matches_with(
    p: &GlobPattern,
    path: &str,
    case_sensitive: bool,
    require_literal_separator: bool,
    require_literal_leading_dot: bool,
) -> (r: bool)
    ensures
        r == glob_matches(
            p.source(),
            path@,
            case_sensitive,
            require_literal_separator,
            require_literal_leading_dot,
        ),
{
    let options = glob::MatchOptions {
        case_sensitive,
        require_literal_separator,
        require_literal_leading_dot,
    };
    p.compiled.matches_with(path, options)
}

/// Relies on `std::path::Path::strip_prefix`, which compares whole path
/// components; the remainder of a path given as UTF-8 is UTF-8 again.
#[verifier::external_body]
fn strip_path_prefix(path: &str, base: &str) -> (r: Option<String>)
    ensures
        opt_view(r) == path_strip_prefix(path@, base@),
{
    std::path::Path::new(path).strip_prefix(base).ok().map(|rest| rest.to_string_lossy().into_owned())
}

/// A glob pattern compiled once, kept together with its source text.
///
/// `compiled` is only ever built from `source` by `GlobPattern::new`.
#[derive(Debug)]
pub struct GlobPattern {
    source: String,
    compiled: glob::Pattern,
}

impl GlobPattern {
    /// The glob this pattern was compiled from.
    pub closed spec fn source(&self) -> Seq<char> {
        self.source@
    }

    /// Compiles `source`.
    pub fn new(source: &str) -> (r: Result<GlobPattern, glob::PatternError>)
        ensures
            r is Ok <==> glob_pattern_valid(source@),
            r matches Ok(p) ==> p.source() == source@,
    {
        match compile_glob(source) {
            Ok(compiled) => Ok(GlobPattern { source: String::from_str(source), compiled }),
            Err(e) => Err(e),
        }
    }

    /// The glob this pattern was compiled from.
    pub fn as_str(&self) -> (r: &str)
        ensures
            r@ == self.source(),
    {
        self.source.as_str()
    }
}

/// The sources of a sequence of patterns.
pub open spec fn pattern_sources(patterns: Seq<GlobPattern>) -> Seq<Seq<char>> {
    patterns.map_values(|p: GlobPattern| p.source())
}

/// `path` relative to `project_dir` when it lies inside it, else `path` itself.
pub open spec fn relative_path(project_dir: Seq<char>, path: Seq<char>) -> Seq<char> {
    match path_strip_prefix(path, project_dir) {
        Some(rest) => rest,
        None => path,
    }
}

/// A pattern accepts a path when it matches it case-sensitively, a separator
/// is only matched by a literal `/` or by `**`, and a leading dot only by a
/// literal dot.
pub open spec fn glob_accepts(pattern: Seq<char>, path: Seq<char>) -> bool {
    glob_matches(pattern, path, true, true, true)
}

/// Whether a change of `path` is relevant: some pattern accepts the path
/// relative to the project directory.
pub open spec fn allows(project_dir: Seq<char>, patterns: Seq<Seq<char>>, path: Seq<char>) -> bool {
    exists|i: int|
        0 <= i < patterns.len() && #[trigger] glob_accepts(
            patterns[i],
            relative_path(project_dir, path),
        )
}

/// Should a change of `path` trigger a run of the test suite?
///
/// The answer depends on the three arguments alone.
pub fn filter_allows(project_dir: &str, patterns: &[GlobPattern], path: &str) -> (r: bool)
    ensures
        r == allows(project_dir@, pattern_sources(patterns@), path@),
{
    let stripped = strip_path_prefix(path, project_dir);
    let relative: &str = match &stripped {
        Some(rest) => rest.as_str(),
        None => path,
    };
    let ghost sources = pattern_sources(patterns@);
    let mut i: usize = 0;
    while i < patterns.len()
        invariant
            0 <= i <= patterns@.len(),
            sources == pattern_sources(patterns@),
            relative@ == relative_path(project_dir@, path@),
            forall|j: int| 0 <= j < i ==> !#[trigger] glob_accepts(sources[j], relative@),
        decreases patterns@.len() - i,
    {
        if glob_matches_with(&patterns[i], relative, true, true, true) {
            assert(glob_accepts(sources[i as int], relative@));
            return true;
        }
        i = i + 1;
    }
    false
}

} // verus!
