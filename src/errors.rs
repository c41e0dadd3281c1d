use vstd::prelude::*;

verus! {

/// Why the library could not be set up.
#[derive(Debug)]
pub enum SetupError {
    /// The builder was given no project directory.
    ProjectDirMissing,
    /// The project directory given to the builder is empty.
    ProjectDirEmpty,
    /// An include pattern is not a valid glob.
    Pattern(glob::PatternError),
    /// A built-in regular expression did not compile.
    Regex(regex::Error),
}

} // verus!
