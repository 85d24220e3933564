//! What flows between the walk, the traversal worker and its consumer.

use vstd::prelude::*;
use crate::matchers::Entry;
use crate::matchers::EntryView;

verus! {

/// A span of wall time in nanoseconds: most often the time since the search
/// began.
#[derive(Clone, Copy, Debug, PartialEq, Eq, Structural)]
pub struct Elapsed {
    pub nanos: u128,
}

/// The shortest elapsed time that a summary shows: a tenth of a second.
pub const MIN_SHOWN_NANOS: u128 = 100_000_000;

impl Elapsed {
    /// Whether more than `secs` whole seconds have passed.
    pub open spec fn exceeds(self, secs: u64) -> bool {
        self.nanos > secs * 1_000_000_000
    }

    /// Whether more than `secs` whole seconds have passed.
    pub fn is_beyond(self, secs: u64) -> (beyond: bool)
        ensures
            beyond == self.exceeds(secs),
    {
        self.nanos > (secs as u128) * 1_000_000_000
    }

    /// The time to show in a summary: this one, but no less than a tenth of
    /// a second.
    pub open spec fn shown(self) -> Elapsed {
        if self.nanos < MIN_SHOWN_NANOS {
            Elapsed { nanos: MIN_SHOWN_NANOS }
        } else {
            self
        }
    }

    /// The time to show in a summary, so that a search that took no time does
    /// not read as zero.
    pub fn for_display(self) -> (shown: Elapsed)
        ensures
            shown == self.shown(),
            shown.nanos >= MIN_SHOWN_NANOS,
            shown.nanos >= self.nanos,
    {
        if self.nanos < MIN_SHOWN_NANOS {
            Elapsed { nanos: MIN_SHOWN_NANOS }
        } else {
            self
        }
    }
}

/// A progress report from the traversal worker.
#[derive(Debug)]
pub enum StatusMessage {
    /// What to show as the place being scanned, or a note in its stead.
    CurrentPath(String),
    /// Entries scanned so far, and the cap (0 for none).
    FileCount(usize, usize),
    /// Permission errors met so far.
    PermissionErrors(usize),
    /// The timeout, in seconds, ran out while collecting.
    Timeout(u64),
    /// The cap on scanned entries was reached.
    LimitReached(usize),
    /// The worker has finished; nothing follows.
    Done,
}

/// A `StatusMessage` as contracts see it.
pub enum StatusView {
    CurrentPath(Seq<char>),
    FileCount(nat, nat),
    PermissionErrors(nat),
    Timeout(u64),
    LimitReached(nat),
    Done,
}

impl View for StatusMessage {
    type V = StatusView;

    open spec fn view(&self) -> StatusView {
        match self {
            StatusMessage::CurrentPath(text) => StatusView::CurrentPath(text@),
            StatusMessage::FileCount(scanned, cap) => StatusView::FileCount(
                *scanned as nat,
                *cap as nat,
            ),
            StatusMessage::PermissionErrors(count) => StatusView::PermissionErrors(*count as nat),
            StatusMessage::Timeout(secs) => StatusView::Timeout(*secs),
            StatusMessage::LimitReached(cap) => StatusView::LimitReached(*cap as nat),
            StatusMessage::Done => StatusView::Done,
        }
    }
}

/// One thing the worker emits: a report for the status stream or a matched
/// path for the result stream.
#[derive(Debug)]
pub enum SearchEvent {
    Status(StatusMessage),
    Match(String),
}

/// A `SearchEvent` as contracts see it.
pub enum EventView {
    Status(StatusView),
    Match(Seq<char>),
}

impl View for SearchEvent {
    type V = EventView;

    open spec fn view(&self) -> EventView {
        match self {
            SearchEvent::Status(message) => EventView::Status(message@),
            SearchEvent::Match(path) => EventView::Match(path@),
        }
    }
}

/// The events of a log, in order, as contracts see them.
pub open spec fn log_view(log: Seq<SearchEvent>) -> Seq<EventView> {
    log.map_values(|event: SearchEvent| event@)
}

/// A failure that the walk reported in place of an entry.
#[derive(Clone, Debug)]
pub struct WalkError {
    /// The path the failure is about, where the walk knows it.
    pub path: Option<String>,
    /// Whether the failure is a refusal of access.
    pub permission_denied: bool,
}

/// A `WalkError` as contracts see it.
pub struct WalkErrorView {
    pub path: Option<Seq<char>>,
    pub permission_denied: bool,
}

impl View for WalkError {
    type V = WalkErrorView;

    open spec fn view(&self) -> WalkErrorView {
        WalkErrorView {
            path: match self.path {
                Some(path) => Some(path@),
                None => None,
            },
            permission_denied: self.permission_denied,
        }
    }
}

/// What the walk yields at each step.
#[derive(Clone, Debug)]
pub enum WalkItem {
    Entry(Entry),
    Error(WalkError),
}

/// A `WalkItem` as contracts see it.
pub enum WalkItemView {
    Entry(EntryView),
    Error(WalkErrorView),
}

impl View for WalkItem {
    type V = WalkItemView;

    open spec fn view(&self) -> WalkItemView {
        match self {
            WalkItem::Entry(entry) => WalkItemView::Entry(entry@),
            WalkItem::Error(error) => WalkItemView::Error(error@),
        }
    }
}

/// Appending to a log appends to what contracts see of it.
pub proof fn log_view_of_joined(head: Seq<SearchEvent>, tail: Seq<SearchEvent>)
    ensures
        log_view(head + tail) == log_view(head) + log_view(tail),
{
    assert(log_view(head + tail) =~= log_view(head) + log_view(tail));
}

/// The final tally of a search.
#[derive(Clone, Copy, Debug, PartialEq, Eq, Structural)]
pub struct SearchResult {
    pub matches: usize,
    pub files_scanned: usize,
    pub permission_errors: usize,
    pub elapsed: Elapsed,
    pub limit_reached: bool,
    pub timed_out: bool,
}

} // verus!
