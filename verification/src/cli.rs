//! The command line's arguments, and what they mean.

use vstd::prelude::*;
use vstd::string::StringExecFns;

verus! {

/// The arguments of one invocation, as they were given.
#[derive(Clone, Debug)]
pub struct Args {
    /// Read the pattern as a regular expression, not as a glob.
    pub regex: bool,
    /// Hold the pattern against the whole path, not the name alone.
    pub full_path: bool,
    /// Show files only.
    pub files_only: bool,
    /// Show directories only.
    pub dirs_only: bool,
    /// How deep to search, if bounded.
    pub max_depth: Option<usize>,
    /// Name what could not be read.
    pub show_permission_errors: bool,
    /// The most entries to scan; 0 for no cap.
    pub max_files: usize,
    /// The timeout in seconds; 0 for none.
    pub timeout_seconds: u64,
    /// The first positional argument: the path, or the pattern if it stands
    /// alone and names no directory.
    pub path_or_pattern: String,
    /// The second positional argument: the pattern.
    pub maybe_pattern: Option<String>,
}

/// The most entries to scan where the command line names no cap.
pub const DEFAULT_MAX_FILES: usize = 500000;

/// The timeout in seconds where the command line names none.
pub const DEFAULT_TIMEOUT_SECONDS: u64 = 600;

/// Where to search, given the positional arguments.
///
/// With two, the first. With one that names a directory, that one. With one
/// that names none, the current directory.
pub open spec fn resolved_path(first: Seq<char>, second: Option<Seq<char>>, names_dir: bool) -> Seq<
    char,
> {
    match second {
        Some(_) => first,
        None => if names_dir {
            first
        } else {
            "."@
        },
    }
}

/// What to search for, given the positional arguments.
///
/// With two, the second. With one that names a directory, everything. With
/// one that names none, that one.
pub open spec fn resolved_pattern(
    first: Seq<char>,
    second: Option<Seq<char>>,
    names_dir: bool,
) -> Seq<char> {
    match second {
        Some(pattern) => pattern,
        None => if names_dir {
            "*"@
        } else {
            first
        },
    }
}

impl Args {
    /// The second positional argument, as contracts see it.
    pub open spec fn second(&self) -> Option<Seq<char>> {
        match self.maybe_pattern {
            Some(pattern) => Some(pattern@),
            None => None,
        }
    }

    /// Settles what the positional arguments mean, and hands back the
    /// arguments with the path and the pattern. `names_dir` says whether the
    /// first positional argument names an existing directory.
    pub fn parse_args(self, names_dir: bool) -> (parsed: (Args, String, String))
        ensures
            parsed.0 == self,
            parsed.1@ == resolved_path(self.path_or_pattern@, self.second(), names_dir),
            parsed.2@ == resolved_pattern(self.path_or_pattern@, self.second(), names_dir),
    {
        let (path, pattern) = match &self.maybe_pattern {
            Some(pattern) => (self.path_or_pattern.clone(), pattern.clone()),
            None => {
                if names_dir {
                    (self.path_or_pattern.clone(), String::from_str("*"))
                } else {
                    (String::from_str("."), self.path_or_pattern.clone())
                }
            },
        };
        (self, path, pattern)
    }
}

} // verus!
