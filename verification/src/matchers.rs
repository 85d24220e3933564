//! Entries of a directory tree and the predicates that select them.

use vstd::prelude::*;
use crate::engines::glob_accepts;
use crate::engines::glob_set_new;
use crate::engines::glob_set_of;
use crate::engines::glob_error_string;
use crate::engines::glob_error_text;
use crate::engines::glob_is_match;
use crate::engines::glob_new;
use crate::engines::parsed_glob;
use crate::engines::parsed_regex;
use crate::engines::regex_accepts;
use crate::engines::regex_error_string;
use crate::engines::regex_error_text;
use crate::engines::regex_is_match;
use crate::engines::regex_new;
use crate::limits::fits;
use crate::limits::glob_bytes;
use crate::limits::glob_fits;
use crate::limits::MAX_GLOB_BYTES;
use crate::limits::MAX_GLOB_DEPTH;
use crate::text::decimal;
use crate::text::joined;
use crate::text::with_count;

verus! {

/// What kind of filesystem node an entry is.
#[derive(Clone, Copy, Debug, PartialEq, Eq, Structural)]
pub enum EntryKind {
    File,
    Dir,
    Other,
}

/// One node that a directory walk yielded.
#[derive(Clone, Debug)]
pub struct Entry {
    /// The path as the walk reports it, the search root included.
    pub path: String,
    /// The final component of `path`.
    pub file_name: String,
    /// `path` without the search root; empty for the root itself.
    pub relative_path: String,
    pub kind: EntryKind,
}

/// An `Entry` as contracts see it.
pub struct EntryView {
    pub path: Seq<char>,
    pub file_name: Seq<char>,
    pub relative_path: Seq<char>,
    pub kind: EntryKind,
}

impl View for Entry {
    type V = EntryView;

    open spec fn view(&self) -> EntryView {
        EntryView {
            path: self.path@,
            file_name: self.file_name@,
            relative_path: self.relative_path@,
            kind: self.kind,
        }
    }
}

impl EntryView {
    /// The text a pattern is held against: the whole path or the name alone.
    pub open spec fn match_text(self, full_path: bool) -> Seq<char> {
        if full_path {
            self.path
        } else {
            self.file_name
        }
    }

    /// Whether the entry passes the type filter. With both flags set nothing
    /// passes: no entry is a file and a directory.
    pub open spec fn passes(self, files_only: bool, dirs_only: bool) -> bool {
        &&& files_only ==> self.kind == EntryKind::File
        &&& dirs_only ==> self.kind == EntryKind::Dir
    }
}

impl Entry {
    /// The text a pattern is held against: the whole path if `full_path`,
    /// else the name alone.
    pub fn match_text(&self, full_path: bool) -> (text: &str)
        ensures
            text@ == self@.match_text(full_path),
    {
        if full_path {
            self.path.as_str()
        } else {
            self.file_name.as_str()
        }
    }
}

/// A predicate on entries, fixed when it is built.
pub trait EntryMatcher {
    /// Whether the matcher's pattern accepts `text`.
    spec fn accepts(&self, text: Seq<char>) -> bool;

    /// Whether the entry matches: by its whole path if `full_path`, else by
    /// its name.
    fn is_match(&self, entry: &Entry, full_path: bool) -> (hit: bool)
        ensures
            hit == self.accepts(entry@.match_text(full_path)),
    ;
}

/// What compiling the glob `pattern` gives: its matcher, or the reason why
/// it has none.
pub open spec fn compiled_glob(pattern: Seq<char>) -> Result<globset::GlobSet, globset::Error> {
    match parsed_glob(pattern) {
        Ok(glob) => glob_set_of(glob),
        Err(e) => Err(e),
    }
}

/// Whether `pattern` is a valid glob: the engine compiles it. A pattern
/// beyond what the engine can take, by its length or by the depth of its
/// alternates, is not handed to the engine, and counts as none.
pub open spec fn glob_valid(pattern: Seq<char>) -> bool {
    glob_fits(pattern) && compiled_glob(pattern) is Ok
}

/// Whether the glob `pattern` matches `text`.
pub open spec fn glob_matches(pattern: Seq<char>, text: Seq<char>) -> bool {
    compiled_glob(pattern) matches Ok(set) && glob_accepts(set, text)
}

/// Whether `pattern` is a regular expression that compiles.
pub open spec fn regex_valid(pattern: Seq<char>) -> bool {
    parsed_regex(pattern) is Ok
}

/// Whether the regular expression `pattern` matches somewhere in `text`.
pub open spec fn regex_matches(pattern: Seq<char>, text: Seq<char>) -> bool {
    parsed_regex(pattern) matches Ok(regex) && regex_accepts(regex, text)
}

/// Matches entries against a shell glob, as the engine's set of that one
/// glob does. Where a glob is a base name or an extension alone, the set
/// asks the text for its final component, and a text that ends in `..` has
/// none: such a glob does not match it.
pub struct GlobEntryMatcher {
    matcher: globset::GlobSet,
}

impl GlobEntryMatcher {
    /// The compiled glob.
    pub closed spec fn compiled(&self) -> globset::GlobSet {
        self.matcher
    }

    /// Whether this is the matcher of the glob `pattern`.
    pub open spec fn is_for(&self, pattern: Seq<char>) -> bool {
        compiled_glob(pattern) == Ok::<globset::GlobSet, globset::Error>(self.compiled())
    }

    /// Compiles `pattern`. Fails exactly when the pattern is no valid glob,
    /// with the message for the user.
    pub fn new(pattern: &str) -> (made: Result<GlobEntryMatcher, InvalidPattern>)
        ensures
            made is Ok <==> glob_valid(pattern@),
            made matches Ok(m) ==> m.is_for(pattern@),
            made matches Err(refusal) ==> refusal@ == pattern_error_text(pattern@, false),
    {
        if pattern.as_bytes().len() > MAX_GLOB_BYTES {
            return Err(
                InvalidPattern::glob(
                    with_count("pattern is longer than ", MAX_GLOB_BYTES, " bytes").as_str(),
                ),
            );
        }
        if !fits(pattern) {
            return Err(
                InvalidPattern::glob(
                    with_count("alternates nest deeper than ", MAX_GLOB_DEPTH, " levels").as_str(),
                ),
            );
        }
        match glob_new(pattern) {
            Ok(glob) => {
                assert(parsed_glob(pattern@) == Ok::<globset::Glob, globset::Error>(glob));
                match glob_set_new(&glob) {
                    Ok(set) => Ok(GlobEntryMatcher { matcher: set }),
                    Err(e) => Err(InvalidPattern::glob_refused(&e)),
                }
            },
            Err(e) => Err(InvalidPattern::glob_refused(&e)),
        }
    }
}

impl EntryMatcher for GlobEntryMatcher {
    open spec fn accepts(&self, text: Seq<char>) -> bool {
        glob_accepts(self.compiled(), text)
    }

    fn is_match(&self, entry: &Entry, full_path: bool) -> (hit: bool) {
        glob_is_match(&self.matcher, entry.match_text(full_path))
    }
}

/// Matches entries against a regular expression, anywhere in the text.
pub struct RegexEntryMatcher {
    regex: regex::Regex,
}

impl RegexEntryMatcher {
    /// The compiled expression.
    pub closed spec fn compiled(&self) -> regex::Regex {
        self.regex
    }

    /// Whether this is the matcher of the regular expression `pattern`.
    pub open spec fn is_for(&self, pattern: Seq<char>) -> bool {
        parsed_regex(pattern) == Ok::<regex::Regex, regex::Error>(self.compiled())
    }

    /// Compiles `pattern`. Fails exactly when the engine rejects the
    /// pattern, with the engine's error.
    pub fn new(pattern: &str) -> (made: Result<RegexEntryMatcher, regex::Error>)
        ensures
            made is Ok <==> regex_valid(pattern@),
            made matches Ok(m) ==> m.is_for(pattern@),
            made matches Err(e) ==> parsed_regex(pattern@) == Err::<regex::Regex, regex::Error>(
                e,
            ),
    {
        match regex_new(pattern) {
            Ok(regex) => Ok(RegexEntryMatcher { regex }),
            Err(e) => Err(e),
        }
    }
}

impl EntryMatcher for RegexEntryMatcher {
    open spec fn accepts(&self, text: Seq<char>) -> bool {
        regex_accepts(self.compiled(), text)
    }

    fn is_match(&self, entry: &Entry, full_path: bool) -> (hit: bool) {
        regex_is_match(&self.regex, entry.match_text(full_path))
    }
}

/// Either kind of matcher; which one is fixed for the lifetime of a search.
pub enum Matcher {
    Glob(GlobEntryMatcher),
    Regex(RegexEntryMatcher),
}

impl Matcher {
    /// Whether this is the matcher of `pattern`, read as a regular expression
    /// if `use_regex` and as a glob otherwise.
    pub open spec fn is_for(&self, pattern: Seq<char>, use_regex: bool) -> bool {
        match self {
            Matcher::Glob(m) => !use_regex && m.is_for(pattern),
            Matcher::Regex(m) => use_regex && m.is_for(pattern),
        }
    }
}

impl EntryMatcher for Matcher {
    open spec fn accepts(&self, text: Seq<char>) -> bool {
        match self {
            Matcher::Glob(m) => m.accepts(text),
            Matcher::Regex(m) => m.accepts(text),
        }
    }

    fn is_match(&self, entry: &Entry, full_path: bool) -> (hit: bool) {
        match self {
            Matcher::Glob(m) => m.is_match(entry, full_path),
            Matcher::Regex(m) => m.is_match(entry, full_path),
        }
    }
}

/// A pattern that no matcher could be built from, with the message for the
/// user.
#[derive(Debug)]
pub struct InvalidPattern {
    pub message: String,
}

impl View for InvalidPattern {
    type V = Seq<char>;

    open spec fn view(&self) -> Seq<char> {
        self.message@
    }
}

/// The message for a glob that was refused, given the reason.
pub open spec fn invalid_glob_text(reason: Seq<char>) -> Seq<char> {
    "Invalid glob pattern: "@ + reason
}

/// The message for a regular expression that was refused, given the reason.
pub open spec fn invalid_regex_text(reason: Seq<char>) -> Seq<char> {
    "Invalid regex pattern: "@ + reason
}

/// The reason given for a glob of more than `MAX_GLOB_BYTES` bytes.
pub open spec fn glob_too_long_text() -> Seq<char> {
    "pattern is longer than "@ + decimal(MAX_GLOB_BYTES as nat) + " bytes"@
}

/// The reason given for a glob whose alternates nest deeper than
/// `MAX_GLOB_DEPTH`.
pub open spec fn glob_too_deep_text() -> Seq<char> {
    "alternates nest deeper than "@ + decimal(MAX_GLOB_DEPTH as nat) + " levels"@
}

/// Whether a matcher can be built from `pattern`, read as a regular
/// expression if `use_regex` and as a glob otherwise.
pub open spec fn pattern_valid(pattern: Seq<char>, use_regex: bool) -> bool {
    if use_regex {
        regex_valid(pattern)
    } else {
        glob_valid(pattern)
    }
}

/// Whether `pattern`, read as a regular expression if `use_regex` and as a
/// glob otherwise, matches `text`.
pub open spec fn pattern_matches(pattern: Seq<char>, use_regex: bool, text: Seq<char>) -> bool {
    if use_regex {
        regex_matches(pattern, text)
    } else {
        glob_matches(pattern, text)
    }
}

/// The message with which an invalid `pattern` is refused.
pub open spec fn pattern_error_text(pattern: Seq<char>, use_regex: bool) -> Seq<char> {
    if use_regex {
        invalid_regex_text(regex_error_text(parsed_regex(pattern)->Err_0))
    } else if glob_bytes(pattern) > MAX_GLOB_BYTES {
        invalid_glob_text(glob_too_long_text())
    } else if !glob_fits(pattern) {
        invalid_glob_text(glob_too_deep_text())
    } else {
        invalid_glob_text(glob_error_text(compiled_glob(pattern)->Err_0))
    }
}

impl InvalidPattern {
    /// The refusal of a glob, for the reason given.
    pub fn glob(reason: &str) -> (refusal: InvalidPattern)
        ensures
            refusal@ == invalid_glob_text(reason@),
    {
        InvalidPattern { message: joined("Invalid glob pattern: ", reason) }
    }

    /// The refusal of a regular expression, for the reason given.
    pub fn regex(reason: &str) -> (refusal: InvalidPattern)
        ensures
            refusal@ == invalid_regex_text(reason@),
    {
        InvalidPattern { message: joined("Invalid regex pattern: ", reason) }
    }

    /// The refusal of a glob that the engine refused: the engine's reason
    /// becomes the message for the user.
    pub fn glob_refused(error: &globset::Error) -> (refusal: InvalidPattern)
        ensures
            refusal@ == invalid_glob_text(glob_error_text(*error)),
    {
        let reason = glob_error_string(error);
        InvalidPattern::glob(reason.as_str())
    }

    /// The refusal of a regular expression that the engine refused: the
    /// engine's reason becomes the message for the user.
    pub fn regex_refused(error: &regex::Error) -> (refusal: InvalidPattern)
        ensures
            refusal@ == invalid_regex_text(regex_error_text(*error)),
    {
        let reason = regex_error_string(error);
        InvalidPattern::regex(reason.as_str())
    }
}

impl Matcher {
    /// Wraps the outcome of compiling a glob: the matcher as a `Matcher`,
    /// a refusal as it is.
    pub fn from_glob(made: Result<GlobEntryMatcher, InvalidPattern>) -> (wrapped: Result<
        Matcher,
        InvalidPattern,
    >)
        ensures
            match made {
                Ok(m) => wrapped == Ok::<Matcher, InvalidPattern>(Matcher::Glob(m)),
                Err(refusal) => wrapped == Err::<Matcher, InvalidPattern>(refusal),
            },
    {
        match made {
            Ok(m) => Ok(Matcher::Glob(m)),
            Err(refusal) => Err(refusal),
        }
    }

    /// Wraps the outcome of compiling a regular expression: the matcher as
    /// a `Matcher`, an error as the message for the user.
    pub fn from_regex(made: Result<RegexEntryMatcher, regex::Error>) -> (wrapped: Result<
        Matcher,
        InvalidPattern,
    >)
        ensures
            match made {
                Ok(m) => wrapped == Ok::<Matcher, InvalidPattern>(Matcher::Regex(m)),
                Err(e) => wrapped matches Err(refusal) && refusal@ == invalid_regex_text(
                    regex_error_text(e),
                ),
            },
    {
        match made {
            Ok(m) => Ok(Matcher::Regex(m)),
            Err(e) => Err(InvalidPattern::regex_refused(&e)),
        }
    }
}

/// Builds the matcher for `pattern`: a regular expression if `use_regex`, a
/// glob otherwise. Succeeds exactly on the valid patterns; an invalid one is
/// refused with its message.
pub fn create_matcher(pattern: &str, use_regex: bool) -> (made: Result<Matcher, InvalidPattern>)
    ensures
        made is Ok <==> pattern_valid(pattern@, use_regex),
        made matches Ok(m) ==> m.is_for(pattern@, use_regex),
        made matches Err(refusal) ==> refusal@ == pattern_error_text(pattern@, use_regex),
{
    if use_regex {
        Matcher::from_regex(RegexEntryMatcher::new(pattern))
    } else {
        Matcher::from_glob(GlobEntryMatcher::new(pattern))
    }
}

/// A matcher built for a valid pattern reports a hit on exactly the entries
/// that the pattern matches: by their name, or by their whole path in
/// full-path mode.
pub proof fn matcher_reports_pattern_matches(
    m: Matcher,
    pattern: Seq<char>,
    use_regex: bool,
    entry: EntryView,
    full_path: bool,
)
    requires
        pattern_valid(pattern, use_regex),
        m.is_for(pattern, use_regex),
    ensures
        m.accepts(entry.match_text(full_path)) == pattern_matches(
            pattern,
            use_regex,
            entry.match_text(full_path),
        ),
        full_path ==> m.accepts(entry.match_text(full_path)) == pattern_matches(
            pattern,
            use_regex,
            entry.path,
        ),
        !full_path ==> m.accepts(entry.match_text(full_path)) == pattern_matches(
            pattern,
            use_regex,
            entry.file_name,
        ),
{
}

/// Whether the entry passes the type filter: a file if `files_only`, a
/// directory if `dirs_only`.
pub fn should_process_entry(entry: &Entry, files_only: bool, dirs_only: bool) -> (keep: bool)
    ensures
        keep == entry@.passes(files_only, dirs_only),
{
    if files_only && !matches!(entry.kind, EntryKind::File) {
        return false;
    }
    if dirs_only && !matches!(entry.kind, EntryKind::Dir) {
        return false;
    }
    true
}

} // verus!
