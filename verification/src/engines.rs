//! The two pattern engines this library matches with, `globset` and `regex`.
//!
//! Nothing in this file is proved. Each declaration below states what the
//! rest of the library takes on trust about one function of an engine: that
//! its result is determined by its arguments, for the engine as it is built
//! into the program. What a glob or a regular expression means is the
//! engines' business and is given a name here, not a definition.

use vstd::prelude::*;
use crate::limits::glob_bytes;
use crate::limits::glob_depth;
use crate::limits::MAX_GLOB_BYTES;
use crate::limits::MAX_GLOB_DEPTH;

verus! {

/// `globset::Glob`: a glob pattern that has been parsed. Opaque.
#[verifier::external_type_specification]
#[verifier::external_body]
pub struct ExGlob(globset::Glob);

/// `globset::GlobSet`: globs that have been compiled for matching. Opaque.
#[verifier::external_type_specification]
#[verifier::external_body]
pub struct ExGlobSet(globset::GlobSet);

/// `globset::Error`: why a glob was refused. Opaque.
#[verifier::external_type_specification]
#[verifier::external_body]
pub struct ExGlobError(globset::Error);

/// `regex::Regex`: a regular expression that has been compiled. Opaque.
#[verifier::external_type_specification]
#[verifier::external_body]
pub struct ExRegex(regex::Regex);

/// `regex::Error`: why a regular expression was refused. Opaque.
#[verifier::external_type_specification]
#[verifier::external_body]
pub struct ExRegexError(regex::Error);

/// What `globset::Glob::new` returns for a pattern.
pub uninterp spec fn parsed_glob(pattern: Seq<char>) -> Result<globset::Glob, globset::Error>;

/// What `globset::GlobSet::new` returns for a single parsed glob.
pub uninterp spec fn glob_set_of(glob: globset::Glob) -> Result<globset::GlobSet, globset::Error>;

/// What `globset::GlobSet::is_match` returns for a set and a path.
pub uninterp spec fn glob_accepts(set: globset::GlobSet, path: Seq<char>) -> bool;

/// What displaying a `globset::Error` writes.
pub uninterp spec fn glob_error_text(error: globset::Error) -> Seq<char>;

/// What `regex::Regex::new` returns for a pattern.
pub uninterp spec fn parsed_regex(pattern: Seq<char>) -> Result<regex::Regex, regex::Error>;

/// What `regex::Regex::is_match` returns for a regular expression and a haystack.
pub uninterp spec fn regex_accepts(regex: regex::Regex, haystack: Seq<char>) -> bool;

/// What displaying a `regex::Error` writes.
pub uninterp spec fn regex_error_text(error: regex::Error) -> Seq<char>;

/// Whether `glob` is what parsing some pattern of at most `MAX_GLOB_BYTES`
/// bytes gives.
pub open spec fn glob_of_bounded_pattern(glob: globset::Glob) -> bool {
    exists|pattern: Seq<char>|
        glob_bytes(pattern) <= MAX_GLOB_BYTES && #[trigger] parsed_glob(pattern) == Ok::<
            globset::Glob,
            globset::Error,
        >(glob)
}

/// `globset::Glob::new`: parses a glob pattern with the default options, or
/// says why it is no glob. The result depends on the pattern alone. The
/// parser works in a loop, but the regular expression of a parsed glob is
/// written out by recursion on its nested alternates: the bound keeps that
/// recursion shallow.
#[verifier::external_body]
pub(crate) fn glob_new(pattern: &str) -> (parsed: Result<globset::Glob, globset::Error>)
    requires
        glob_depth(pattern@) <= MAX_GLOB_DEPTH,
    ensures
        parsed == parsed_glob(pattern@),
{
    globset::Glob::new(pattern)
}

/// `globset::GlobSet::new`, for one glob: builds the matcher of a parsed
/// glob, or says why the glob's automaton cannot be built (it nests too
/// deep, or grows too large). The result depends on the glob alone. For a
/// glob with a literal prefix or suffix `globset` builds an Aho-Corasick
/// automaton and takes its construction for granted; that construction
/// fails only where the automaton outgrows its identifiers of 31 bits, and
/// a literal has one state for each of its bytes. The bound keeps the
/// literal within that.
#[verifier::external_body]
pub(crate) fn glob_set_new(glob: &globset::Glob) -> (built: Result<
    globset::GlobSet,
    globset::Error,
>)
    requires
        glob_of_bounded_pattern(*glob),
    ensures
        built == glob_set_of(*glob),
{
    globset::GlobSet::new([glob])
}

/// `globset::GlobSet::is_match`: whether a glob of the set matches the whole
/// path. The answer depends on the set and the path alone.
#[verifier::external_body]
pub(crate) fn glob_is_match(set: &globset::GlobSet, path: &str) -> (hit: bool)
    ensures
        hit == glob_accepts(*set, path@),
{
    set.is_match(path)
}

/// The `Display` of `globset::Error`: the message of a glob that was
/// refused. It depends on the error alone.
#[verifier::external_body]
pub(crate) fn glob_error_string(error: &globset::Error) -> (message: String)
    ensures
        message@ == glob_error_text(*error),
{
    error.to_string()
}

/// `regex::Regex::new`: compiles a regular expression with the default
/// options, or says why it is not one. The result depends on the pattern
/// alone.
#[verifier::external_body]
pub(crate) fn regex_new(pattern: &str) -> (parsed: Result<regex::Regex, regex::Error>)
    ensures
        parsed == parsed_regex(pattern@),
{
    regex::Regex::new(pattern)
}

/// `regex::Regex::is_match`: whether the expression matches anywhere in the
/// haystack. The answer depends on the expression and the haystack alone.
#[verifier::external_body]
pub(crate) fn regex_is_match(regex: &regex::Regex, haystack: &str) -> (hit: bool)
    ensures
        hit == regex_accepts(*regex, haystack@),
{
    regex.is_match(haystack)
}

/// The `Display` of `regex::Error`: the message of an expression that did not
/// compile. It depends on the error alone.
#[verifier::external_body]
pub(crate) fn regex_error_string(error: &regex::Error) -> (message: String)
    ensures
        message@ == regex_error_text(*error),
{
    error.to_string()
}

} // verus!
