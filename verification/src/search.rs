//! The traversal worker: what a search is configured with, and the steps
//! that its caller drives it through.
//!
//! The caller walks the directory tree and reads the clock; the worker
//! decides. Each step takes what the caller saw and hands back what to emit,
//! in order: status reports for the status stream, matched paths for the
//! result stream.

use vstd::prelude::*;
use vstd::string::StringExecFns;
use crate::events::log_view;
use crate::events::log_view_of_joined;
use crate::events::Elapsed;
use crate::events::EventView;
use crate::events::SearchEvent;
use crate::events::SearchResult;
use crate::events::StatusMessage;
use crate::events::StatusView;
use crate::events::WalkItem;
use crate::matchers::should_process_entry;
use crate::matchers::Entry;
use crate::matchers::EntryKind;
use crate::matchers::EntryMatcher;
use crate::matchers::Matcher;
use crate::model::starting_text;
use crate::model::InputView;
use crate::model::Next;
use crate::model::Phase;
use crate::model::Policy;
use crate::model::RunView;
use crate::text::joined;
use crate::text::lines_view;
use crate::text::push_line;
use crate::text::with_count;

verus! {

/// A search that has been configured and not yet begun.
pub struct Searcher {
    matcher: Matcher,
    base_path: String,
    max_depth: Option<usize>,
    max_files: usize,
    timeout: Option<u64>,
    files_only: bool,
    dirs_only: bool,
    show_permission_errors: bool,
}

/// A `Searcher` as contracts see it.
pub struct SearcherView {
    pub matcher: Matcher,
    pub base_path: Seq<char>,
    pub max_depth: Option<usize>,
    pub max_files: nat,
    pub timeout: Option<u64>,
    pub files_only: bool,
    pub dirs_only: bool,
    pub show_permission_errors: bool,
}

impl SearcherView {
    /// The bounds and filters of a search with this configuration.
    pub open spec fn policy(self, full_path: bool) -> Policy {
        Policy {
            max_files: self.max_files,
            timeout: self.timeout,
            files_only: self.files_only,
            dirs_only: self.dirs_only,
            show_permission_errors: self.show_permission_errors,
            full_path,
        }
    }
}

impl View for Searcher {
    type V = SearcherView;

    closed spec fn view(&self) -> SearcherView {
        SearcherView {
            matcher: self.matcher,
            base_path: self.base_path@,
            max_depth: self.max_depth,
            max_files: self.max_files as nat,
            timeout: self.timeout,
            files_only: self.files_only,
            dirs_only: self.dirs_only,
            show_permission_errors: self.show_permission_errors,
        }
    }
}

/// The most permission errors for which no hint is given.
pub const HINT_THRESHOLD: usize = 5;

/// The first line of the hint.
pub open spec fn hint_heading() -> Seq<char> {
    "Hint: Many permission errors encountered. Try running with sudo:"@
}

/// The command that the hint proposes.
pub open spec fn hint_command(path: Seq<char>, pattern: Seq<char>) -> Seq<char> {
    "sudo seek \""@ + path + "\" \""@ + pattern + "\""@
}

/// What the hint adds on a platform that restricts directories even for the
/// superuser.
pub open spec fn hint_restricted_note() -> Seq<Seq<char>> {
    seq![
        "On macOS, some directories may still be restricted due to System Integrity Protection."@,
        "For searching user data directories, you may need to grant Terminal 'Full Disk Access'"@,
        "in System Preferences \u{2192} Privacy & Security \u{2192} Full Disk Access."@,
    ]
}

/// The lines of the hint to search again with more rights: none up to
/// `HINT_THRESHOLD` permission errors; beyond it the heading, the command,
/// and on a restricted platform the note.
pub open spec fn hint_lines(
    permission_errors: nat,
    path: Seq<char>,
    pattern: Seq<char>,
    restricted_platform: bool,
) -> Seq<Seq<char>> {
    if permission_errors <= HINT_THRESHOLD {
        Seq::empty()
    } else if restricted_platform {
        seq![hint_heading(), hint_command(path, pattern)] + hint_restricted_note()
    } else {
        seq![hint_heading(), hint_command(path, pattern)]
    }
}

impl Searcher {
    /// Configures a search. A timeout of zero seconds means none; a cap of
    /// zero entries means none.
    pub fn new(
        matcher: Matcher,
        base_path: String,
        max_depth: Option<usize>,
        max_files: usize,
        timeout_seconds: u64,
        files_only: bool,
        dirs_only: bool,
        show_permission_errors: bool,
    ) -> (searcher: Searcher)
        ensures
            searcher@ == (SearcherView {
                matcher,
                base_path: base_path@,
                max_depth,
                max_files: max_files as nat,
                timeout: if timeout_seconds > 0 {
                    Some(timeout_seconds)
                } else {
                    None
                },
                files_only,
                dirs_only,
                show_permission_errors,
            }),
    {
        let timeout = if timeout_seconds > 0 {
            Some(timeout_seconds)
        } else {
            None
        };
        Searcher {
            matcher,
            base_path,
            max_depth,
            max_files,
            timeout,
            files_only,
            dirs_only,
            show_permission_errors,
        }
    }

    /// Where the walk starts.
    pub fn base_path(&self) -> (path: &str)
        ensures
            path@ == self@.base_path,
    {
        self.base_path.as_str()
    }

    /// How deep the walk may go, if bounded.
    pub fn max_depth(&self) -> (depth: Option<usize>)
        ensures
            depth == self@.max_depth,
    {
        self.max_depth
    }

    /// Begins the search at `elapsed`: hands out the worker in its first
    /// state, the note that opens the status stream, and a tally that holds
    /// nothing but the time.
    pub fn search(self, full_path: bool, elapsed: Elapsed) -> (begun: (
        SearchRun,
        Vec<SearchEvent>,
        SearchResult,
    ))
        ensures
            begun.0@ == RunView::fresh(self@.policy(full_path), self@.matcher),
            begun.0@.wf(),
            log_view(begun.1@) == seq![
                EventView::Status(StatusView::CurrentPath(starting_text())),
            ],
            begun.2 == (SearchResult {
                matches: 0,
                files_scanned: 0,
                permission_errors: 0,
                elapsed,
                limit_reached: false,
                timed_out: false,
            }),
    {
        let mut events: Vec<SearchEvent> = Vec::new();
        events.push(
            SearchEvent::Status(StatusMessage::CurrentPath(String::from_str("Starting search..."))),
        );
        assert(log_view(events@) =~= seq![
            EventView::Status(StatusView::CurrentPath(starting_text())),
        ]);
        let run = SearchRun {
            searcher: self,
            full_path,
            phase: Phase::Collecting,
            files_scanned: 0,
            permission_errors: 0,
            limit_reached: false,
            timed_out: false,
            matches: 0,
            retained: Vec::new(),
            cursor: 0,
        };
        assert(run@.retained =~= Seq::empty());
        let placeholder = SearchResult {
            matches: 0,
            files_scanned: 0,
            permission_errors: 0,
            elapsed,
            limit_reached: false,
            timed_out: false,
        };
        (run, events, placeholder)
    }

    /// The hint to search again with more rights, line by line: empty unless
    /// more than `HINT_THRESHOLD` permission errors were met.
    pub fn print_permission_hint(
        permission_errors: usize,
        path: &str,
        pattern: &str,
        restricted_platform: bool,
    ) -> (lines: Vec<String>)
        ensures
            lines_view(lines@) == hint_lines(
                permission_errors as nat,
                path@,
                pattern@,
                restricted_platform,
            ),
    {
        let mut lines: Vec<String> = Vec::new();
        assert(lines_view(lines@) =~= Seq::empty());
        if permission_errors > HINT_THRESHOLD {
            push_line(
                &mut lines,
                String::from_str(
                    "Hint: Many permission errors encountered. Try running with sudo:",
                ),
            );
            let mut command = joined("sudo seek \"", path);
            command.append("\" \"");
            command.append(pattern);
            command.append("\"");
            push_line(&mut lines, command);
            if restricted_platform {
                push_line(
                    &mut lines,
                    String::from_str(
                        "On macOS, some directories may still be restricted due to System Integrity Protection.",
                    ),
                );
                push_line(
                    &mut lines,
                    String::from_str(
                        "For searching user data directories, you may need to grant Terminal 'Full Disk Access'",
                    ),
                );
                push_line(
                    &mut lines,
                    String::from_str(
                        "in System Preferences \u{2192} Privacy & Security \u{2192} Full Disk Access.",
                    ),
                );
            }
        }
        lines
    }
}

/// A search under way: the traversal worker's state. Only the worker's own
/// steps change it.
pub struct SearchRun {
    searcher: Searcher,
    full_path: bool,
    phase: Phase,
    files_scanned: usize,
    permission_errors: usize,
    limit_reached: bool,
    timed_out: bool,
    matches: usize,
    retained: Vec<Entry>,
    cursor: usize,
}

impl View for SearchRun {
    type V = RunView;

    closed spec fn view(&self) -> RunView {
        RunView {
            policy: self.searcher@.policy(self.full_path),
            matcher: self.searcher@.matcher,
            phase: self.phase,
            files_scanned: self.files_scanned as nat,
            permission_errors: self.permission_errors as nat,
            limit_reached: self.limit_reached,
            timed_out: self.timed_out,
            matches: self.matches as nat,
            retained: self.retained@.map_values(|entry: Entry| entry@),
            cursor: self.cursor as nat,
        }
    }
}

/// What the caller hands the worker as it drives it.
#[derive(Debug)]
pub enum Input {
    /// The next item of the walk.
    Item(WalkItem),
    /// The walk has nothing more to yield.
    WalkEnded,
    /// Nothing but the time.
    Tick,
}

impl View for Input {
    type V = InputView;

    open spec fn view(&self) -> InputView {
        match self {
            Input::Item(item) => InputView::Item(item@),
            Input::WalkEnded => InputView::WalkEnded,
            Input::Tick => InputView::Tick,
        }
    }
}

impl SearchRun {
    /// Whether the worker still takes in what the walk yields: it is
    /// collecting and no bound has tripped.
    pub fn is_collecting(&self) -> (collecting: bool)
        ensures
            collecting == self@.collecting(),
    {
        matches!(self.phase, Phase::Collecting) && !self.limit_reached && !self.timed_out
    }

    /// Whether a retained entry is still to be held against the pattern.
    pub fn is_filtering(&self) -> (filtering: bool)
        ensures
            filtering == self@.filtering(),
    {
        matches!(self.phase, Phase::Filtering) && !self.limit_reached && !self.timed_out
            && self.cursor < self.retained.len()
    }

    /// Whether the worker has finished.
    pub fn is_done(&self) -> (done: bool)
        ensures
            done == (self@.phase == Phase::Done),
    {
        matches!(self.phase, Phase::Done)
    }

    /// How many entries have been scanned.
    pub fn files_scanned(&self) -> (scanned: usize)
        ensures
            scanned == self@.files_scanned,
    {
        self.files_scanned
    }

    /// Takes in one item of the walk, seen at `elapsed`, and hands back what
    /// to emit. A search without a cap cannot count beyond `usize::MAX`
    /// entries.
    pub fn collect(&mut self, elapsed: Elapsed, item: WalkItem) -> (events: Vec<SearchEvent>)
        requires
            old(self)@.wf(),
            old(self)@.collecting() && old(self)@.policy.max_files == 0 ==> old(
                self,
            )@.files_scanned < usize::MAX,
        ensures
            final(self)@ == old(self)@.collect(elapsed, item@).next,
            log_view(events@) == old(self)@.collect(elapsed, item@).events,
            final(self)@.wf(),
    {
        let mut events = empty_log();
        if !self.is_collecting() {
            return events;
        }
        match self.searcher.timeout {
            Some(secs) => {
                if elapsed.is_beyond(secs) {
                    self.timed_out = true;
                    emit(&mut events, SearchEvent::Status(StatusMessage::Timeout(secs)));
                    return events;
                }
            },
            None => {},
        }
        let scanned = self.files_scanned + 1;
        let cap = self.searcher.max_files;
        self.files_scanned = scanned;
        if cap > 0 && scanned >= cap {
            self.limit_reached = true;
            emit(&mut events, SearchEvent::Status(StatusMessage::LimitReached(cap)));
            return events;
        }
        if scanned % 1000 == 0 || (cap > 0 && cap - scanned < 1000) {
            emit(&mut events, SearchEvent::Status(StatusMessage::FileCount(scanned, cap)));
        }
        match item {
            WalkItem::Entry(entry) => {
                if matches!(entry.kind, EntryKind::Dir) && !entry.relative_path.as_str().is_empty()
                    && scanned % 100 == 0 {
                    emit(
                        &mut events,
                        SearchEvent::Status(
                            StatusMessage::CurrentPath(entry.relative_path.clone()),
                        ),
                    );
                }
                if should_process_entry(
                    &entry,
                    self.searcher.files_only,
                    self.searcher.dirs_only,
                ) {
                    let ghost before = self.retained@;
                    self.retained.push(entry);
                    assert(self.retained@.map_values(|e: Entry| e@) =~= before.map_values(
                        |e: Entry| e@,
                    ).push(entry@));
                }
            },
            WalkItem::Error(error) => {
                match error.path {
                    Some(path) => {
                        if error.permission_denied {
                            let errors = self.permission_errors + 1;
                            self.permission_errors = errors;
                            if self.searcher.show_permission_errors {
                                emit(
                                    &mut events,
                                    SearchEvent::Status(
                                        StatusMessage::CurrentPath(
                                            joined("Permission denied: ", path.as_str()),
                                        ),
                                    ),
                                );
                            }
                            if errors % 10 == 0 {
                                emit(
                                    &mut events,
                                    SearchEvent::Status(StatusMessage::PermissionErrors(errors)),
                                );
                            }
                        }
                    },
                    None => {},
                }
            },
        }
        events
    }

    /// Ends the collecting phase, whether the walk was exhausted or cut
    /// short: hands back the closing counts and the note on how many entries
    /// were retained.
    pub fn end_collecting(&mut self) -> (events: Vec<SearchEvent>)
        requires
            old(self)@.wf(),
        ensures
            final(self)@ == old(self)@.end_collecting().next,
            log_view(events@) == old(self)@.end_collecting().events,
            final(self)@.wf(),
    {
        let mut events = empty_log();
        if !matches!(self.phase, Phase::Collecting) {
            return events;
        }
        self.phase = Phase::Filtering;
        emit(
            &mut events,
            SearchEvent::Status(
                StatusMessage::FileCount(self.files_scanned, self.searcher.max_files),
            ),
        );
        emit(
            &mut events,
            SearchEvent::Status(StatusMessage::PermissionErrors(self.permission_errors)),
        );
        emit(
            &mut events,
            SearchEvent::Status(
                StatusMessage::CurrentPath(
                    with_count("Searching ", self.retained.len(), " files..."),
                ),
            ),
        );
        events
    }

    /// Holds the next retained entry against the pattern, at `elapsed`, and
    /// hands back what to emit: the match, if it is one, before anything
    /// else.
    pub fn filter(&mut self, elapsed: Elapsed) -> (events: Vec<SearchEvent>)
        requires
            old(self)@.wf(),
        ensures
            final(self)@ == old(self)@.filter(elapsed).next,
            log_view(events@) == old(self)@.filter(elapsed).events,
            final(self)@.wf(),
    {
        let mut events = empty_log();
        if !self.is_filtering() {
            return events;
        }
        match self.searcher.timeout {
            Some(secs) => {
                if elapsed.is_beyond(secs) {
                    self.timed_out = true;
                    emit(&mut events, SearchEvent::Status(StatusMessage::Timeout(secs)));
                    return events;
                }
            },
            None => {},
        }
        let entry = &self.retained[self.cursor];
        let hit = self.searcher.matcher.is_match(entry, self.full_path);
        let path = entry.path.clone();
        self.cursor = self.cursor + 1;
        if hit {
            let matches = self.matches + 1;
            self.matches = matches;
            emit(&mut events, SearchEvent::Match(path));
            if matches % 10 == 0 {
                emit(
                    &mut events,
                    SearchEvent::Status(
                        StatusMessage::CurrentPath(
                            with_count("Found ", matches, " matches so far..."),
                        ),
                    ),
                );
            }
        }
        events
    }

    /// Drives the worker one turn further, at `elapsed`: hands back what to
    /// emit, and what the worker needs next. A caller that begins with the
    /// first item of the walk and always hands over what is asked for has
    /// run the whole search when `Next::Done` comes back.
    pub fn advance(&mut self, elapsed: Elapsed, input: Input) -> (turn: (Vec<SearchEvent>, Next))
        requires
            old(self)@.wf(),
            old(self)@.collecting() && old(self)@.policy.max_files == 0 ==> old(
                self,
            )@.files_scanned < usize::MAX,
        ensures
            final(self)@ == old(self)@.advance(elapsed, input@).next,
            log_view(turn.0@) == old(self)@.advance(elapsed, input@).events,
            turn.1 == old(self)@.advance(elapsed, input@).wants,
            final(self)@.wf(),
    {
        match self.phase {
            Phase::Collecting => {
                if self.limit_reached || self.timed_out {
                    (self.end_collecting(), Next::Tick)
                } else {
                    match input {
                        Input::Item(item) => {
                            let mut events = self.collect(elapsed, item);
                            if self.limit_reached || self.timed_out {
                                let mut closing = self.end_collecting();
                                proof {
                                    log_view_of_joined(events@, closing@);
                                }
                                events.append(&mut closing);
                                (events, Next::Tick)
                            } else {
                                (events, Next::Walk)
                            }
                        },
                        Input::WalkEnded => (self.end_collecting(), Next::Tick),
                        Input::Tick => (empty_log(), Next::Walk),
                    }
                }
            },
            Phase::Filtering => {
                if self.is_filtering() {
                    (self.filter(elapsed), Next::Tick)
                } else {
                    let (events, _) = self.finish(elapsed);
                    (events, Next::Done)
                }
            },
            Phase::Done => (empty_log(), Next::Done),
        }
    }

    /// Finishes the search at `elapsed`: hands back `Done`, unless it went
    /// out before, and the final tally.
    pub fn finish(&mut self, elapsed: Elapsed) -> (ended: (Vec<SearchEvent>, SearchResult))
        requires
            old(self)@.wf(),
        ensures
            final(self)@ == old(self)@.finish().next,
            log_view(ended.0@) == old(self)@.finish().events,
            final(self)@.wf(),
            ended.1.matches == old(self)@.matches,
            ended.1.files_scanned == old(self)@.files_scanned,
            ended.1.permission_errors == old(self)@.permission_errors,
            ended.1.elapsed == elapsed,
            ended.1.limit_reached == old(self)@.limit_reached,
            ended.1.timed_out == old(self)@.timed_out,
            !(ended.1.limit_reached && ended.1.timed_out),
    {
        let mut events = empty_log();
        if !matches!(self.phase, Phase::Done) {
            self.phase = Phase::Done;
            emit(&mut events, SearchEvent::Status(StatusMessage::Done));
        }
        let result = SearchResult {
            matches: self.matches,
            files_scanned: self.files_scanned,
            permission_errors: self.permission_errors,
            elapsed,
            limit_reached: self.limit_reached,
            timed_out: self.timed_out,
        };
        (events, result)
    }
}

/// Appends an event to a log.
fn emit(log: &mut Vec<SearchEvent>, event: SearchEvent)
    ensures
        log_view(final(log)@) == log_view(old(log)@).push(event@),
{
    log.push(event);
    assert(log_view(log@) =~= log_view(old(log)@).push(event@));
}

/// A log with nothing in it.
fn empty_log() -> (log: Vec<SearchEvent>)
    ensures
        log_view(log@) == Seq::<EventView>::empty(),
{
    let log: Vec<SearchEvent> = Vec::new();
    assert(log_view(log@) =~= Seq::empty());
    log
}

} // verus!
