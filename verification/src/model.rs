//! The traversal worker as a state machine over plain values: what each step
//! does to the worker's state and what it emits.

use vstd::prelude::*;
use crate::events::Elapsed;
use crate::events::EventView;
use crate::events::StatusView;
use crate::events::WalkItemView;
use crate::matchers::EntryKind;
use crate::matchers::EntryMatcher;
use crate::matchers::EntryView;
use crate::matchers::Matcher;
use crate::text::decimal;

verus! {

/// Where the worker stands.
#[derive(Clone, Copy, Debug, PartialEq, Eq, Structural)]
pub enum Phase {
    /// Taking in what the walk yields.
    Collecting,
    /// Holding the retained entries against the pattern.
    Filtering,
    /// Finished; `Done` has been emitted.
    Done,
}

/// The bounds and filters of one search.
pub struct Policy {
    /// The most entries to scan; 0 for no cap.
    pub max_files: nat,
    /// The timeout in whole seconds, if any.
    pub timeout: Option<u64>,
    pub files_only: bool,
    pub dirs_only: bool,
    pub show_permission_errors: bool,
    pub full_path: bool,
}

impl Policy {
    /// Whether the timeout has run out at `elapsed`.
    pub open spec fn expired(self, elapsed: Elapsed) -> bool {
        self.timeout matches Some(secs) && elapsed.exceeds(secs)
    }

    /// Whether the `scanned`-th entry calls for a count report: every
    /// thousandth does, and each of the last thousand before the cap.
    pub open spec fn reports_count(self, scanned: nat) -> bool {
        scanned % 1000 == 0 || (self.max_files > 0 && self.max_files - scanned < 1000)
    }
}

/// The note sent as the search begins.
pub open spec fn starting_text() -> Seq<char> {
    "Starting search..."@
}

/// The note for an entry that could not be read.
pub open spec fn permission_denied_text(path: Seq<char>) -> Seq<char> {
    "Permission denied: "@ + path
}

/// The note that announces how many entries were retained.
pub open spec fn searching_text(retained: nat) -> Seq<char> {
    "Searching "@ + decimal(retained) + " files..."@
}

/// The note sent at every tenth match.
pub open spec fn found_so_far_text(matches: nat) -> Seq<char> {
    "Found "@ + decimal(matches) + " matches so far..."@
}

/// The worker's state.
#[verifier::ext_equal]
pub struct RunView {
    pub policy: Policy,
    pub matcher: Matcher,
    pub phase: Phase,
    pub files_scanned: nat,
    pub permission_errors: nat,
    pub limit_reached: bool,
    pub timed_out: bool,
    pub matches: nat,
    /// The entries that passed the type filter, in the order they came.
    pub retained: Seq<EntryView>,
    /// How many retained entries have been held against the pattern.
    pub cursor: nat,
}

/// A state and what was emitted on the way to it.
#[verifier::ext_equal]
pub struct Step {
    pub next: RunView,
    pub events: Seq<EventView>,
}

/// What the caller hands the worker as it drives it.
pub enum InputView {
    /// The next item of the walk.
    Item(WalkItemView),
    /// The walk has nothing more to yield.
    WalkEnded,
    /// Nothing but the time.
    Tick,
}

/// What the worker needs next from its caller.
#[derive(Clone, Copy, Debug, PartialEq, Eq, Structural)]
pub enum Next {
    /// The next item of the walk, or word that the walk has ended.
    Walk,
    /// Nothing but the time.
    Tick,
    /// Nothing: the worker has finished.
    Done,
}

/// A state, what was emitted on the way to it, and what the worker needs
/// next.
#[verifier::ext_equal]
pub struct Advanced {
    pub next: RunView,
    pub events: Seq<EventView>,
    pub wants: Next,
}

impl RunView {
    /// The state a search begins in.
    pub open spec fn fresh(policy: Policy, matcher: Matcher) -> RunView {
        RunView {
            policy,
            matcher,
            phase: Phase::Collecting,
            files_scanned: 0,
            permission_errors: 0,
            limit_reached: false,
            timed_out: false,
            matches: 0,
            retained: Seq::empty(),
            cursor: 0,
        }
    }

    /// What holds of every state that a search reaches.
    pub open spec fn wf(self) -> bool {
        &&& !(self.limit_reached && self.timed_out)
        &&& self.policy.max_files > 0 ==> self.files_scanned <= self.policy.max_files
        &&& self.limit_reached <==> self.policy.max_files > 0 && self.files_scanned
            == self.policy.max_files
        &&& self.timed_out ==> self.policy.timeout is Some
        &&& self.retained.len() + self.permission_errors <= self.files_scanned
        &&& self.cursor <= self.retained.len()
        &&& self.matches <= self.cursor
        &&& self.phase == Phase::Collecting ==> self.cursor == 0
    }

    /// Whether a bound has tripped.
    pub open spec fn stopped(self) -> bool {
        self.limit_reached || self.timed_out
    }

    /// Whether the worker still takes in what the walk yields.
    pub open spec fn collecting(self) -> bool {
        self.phase == Phase::Collecting && !self.stopped()
    }

    /// Whether a retained entry is still to be held against the pattern.
    pub open spec fn filtering(self) -> bool {
        self.phase == Phase::Filtering && !self.stopped() && self.cursor < self.retained.len()
    }

    /// What a permission error adds to the status stream.
    pub open spec fn denial_events(self, path: Seq<char>, errors: nat) -> Seq<EventView> {
        let note = if self.policy.show_permission_errors {
            seq![EventView::Status(StatusView::CurrentPath(permission_denied_text(path)))]
        } else {
            Seq::empty()
        };
        let tally = if errors % 10 == 0 {
            seq![EventView::Status(StatusView::PermissionErrors(errors))]
        } else {
            Seq::empty()
        };
        note + tally
    }

    /// The worker takes in one item of the walk, seen at `elapsed`.
    ///
    /// The timeout comes first, before the item is counted. Then the item
    /// is counted, and the cap comes next: the item that reaches the cap is
    /// counted and looked at no further. Otherwise a count report goes out
    /// where one is due, and the item is handled: an entry is retained if it
    /// passes the type filter, a permission error is tallied, any other
    /// failure is dropped. Once a bound has tripped, items are ignored.
    pub open spec fn collect(self, elapsed: Elapsed, item: WalkItemView) -> Step {
        if !self.collecting() {
            Step { next: self, events: Seq::empty() }
        } else if self.policy.expired(elapsed) {
            Step {
                next: RunView { timed_out: true, ..self },
                events: seq![EventView::Status(StatusView::Timeout(self.policy.timeout->Some_0))],
            }
        } else {
            let scanned = self.files_scanned + 1;
            if self.policy.max_files > 0 && scanned >= self.policy.max_files {
                Step {
                    next: RunView { files_scanned: scanned, limit_reached: true, ..self },
                    events: seq![
                        EventView::Status(StatusView::LimitReached(self.policy.max_files)),
                    ],
                }
            } else {
                let count = if self.policy.reports_count(scanned) {
                    seq![
                        EventView::Status(StatusView::FileCount(scanned, self.policy.max_files)),
                    ]
                } else {
                    Seq::empty()
                };
                match item {
                    WalkItemView::Entry(entry) => {
                        let place = if entry.kind == EntryKind::Dir && entry.relative_path.len() > 0
                            && scanned % 100 == 0 {
                            seq![EventView::Status(StatusView::CurrentPath(entry.relative_path))]
                        } else {
                            Seq::empty()
                        };
                        let retained = if entry.passes(
                            self.policy.files_only,
                            self.policy.dirs_only,
                        ) {
                            self.retained.push(entry)
                        } else {
                            self.retained
                        };
                        Step {
                            next: RunView { files_scanned: scanned, retained, ..self },
                            events: count + place,
                        }
                    },
                    WalkItemView::Error(error) => {
                        if error.path is Some && error.permission_denied {
                            let errors = self.permission_errors + 1;
                            Step {
                                next: RunView {
                                    files_scanned: scanned,
                                    permission_errors: errors,
                                    ..self
                                },
                                events: count + self.denial_events(error.path->Some_0, errors),
                            }
                        } else {
                            Step {
                                next: RunView { files_scanned: scanned, ..self },
                                events: count,
                            }
                        }
                    },
                }
            }
        }
    }

    /// The walk is over, whether exhausted or cut short: the worker reports
    /// the counts and the number of retained entries, and turns to filtering.
    pub open spec fn end_collecting(self) -> Step {
        if self.phase != Phase::Collecting {
            Step { next: self, events: Seq::empty() }
        } else {
            Step {
                next: RunView { phase: Phase::Filtering, ..self },
                events: seq![
                    EventView::Status(
                        StatusView::FileCount(self.files_scanned, self.policy.max_files),
                    ),
                    EventView::Status(StatusView::PermissionErrors(self.permission_errors)),
                    EventView::Status(
                        StatusView::CurrentPath(searching_text(self.retained.len())),
                    ),
                ],
            }
        }
    }

    /// The worker holds the next retained entry against the pattern, at
    /// `elapsed`.
    ///
    /// The timeout comes first; when it has run out the run is marked, the
    /// timeout is reported, and nothing more is matched. A match goes out at
    /// once, followed at every tenth by a note. With a bound tripped, or no
    /// entry left, nothing happens.
    pub open spec fn filter(self, elapsed: Elapsed) -> Step {
        if !self.filtering() {
            Step { next: self, events: Seq::empty() }
        } else if self.policy.expired(elapsed) {
            Step {
                next: RunView { timed_out: true, ..self },
                events: seq![EventView::Status(StatusView::Timeout(self.policy.timeout->Some_0))],
            }
        } else {
            let entry = self.retained[self.cursor as int];
            let cursor = self.cursor + 1;
            if self.matcher.accepts(entry.match_text(self.policy.full_path)) {
                let matches = self.matches + 1;
                let note = if matches % 10 == 0 {
                    seq![EventView::Status(StatusView::CurrentPath(found_so_far_text(matches)))]
                } else {
                    Seq::empty()
                };
                Step {
                    next: RunView { cursor, matches, ..self },
                    events: seq![EventView::Match(entry.path)] + note,
                }
            } else {
                Step { next: RunView { cursor, ..self }, events: Seq::empty() }
            }
        }
    }

    /// The worker is driven one turn further, at `elapsed`.
    ///
    /// While it collects it takes the item it is handed and asks for the
    /// next; when a bound trips, or the walk has ended, it closes the
    /// collecting and asks for the time. While it filters it holds one
    /// retained entry against the pattern in each turn; when none is left to
    /// hold, it finishes. What it is handed out of turn it leaves aside.
    pub open spec fn advance(self, elapsed: Elapsed, input: InputView) -> Advanced {
        match self.phase {
            Phase::Collecting => {
                if self.stopped() {
                    let closed = self.end_collecting();
                    Advanced { next: closed.next, events: closed.events, wants: Next::Tick }
                } else {
                    match input {
                        InputView::Item(item) => {
                            let taken = self.collect(elapsed, item);
                            if taken.next.stopped() {
                                let closed = taken.next.end_collecting();
                                Advanced {
                                    next: closed.next,
                                    events: taken.events + closed.events,
                                    wants: Next::Tick,
                                }
                            } else {
                                Advanced {
                                    next: taken.next,
                                    events: taken.events,
                                    wants: Next::Walk,
                                }
                            }
                        },
                        InputView::WalkEnded => {
                            let closed = self.end_collecting();
                            Advanced {
                                next: closed.next,
                                events: closed.events,
                                wants: Next::Tick,
                            }
                        },
                        InputView::Tick => Advanced {
                            next: self,
                            events: Seq::empty(),
                            wants: Next::Walk,
                        },
                    }
                }
            },
            Phase::Filtering => {
                if self.filtering() {
                    let held = self.filter(elapsed);
                    Advanced { next: held.next, events: held.events, wants: Next::Tick }
                } else {
                    let ended = self.finish();
                    Advanced { next: ended.next, events: ended.events, wants: Next::Done }
                }
            },
            Phase::Done => Advanced { next: self, events: Seq::empty(), wants: Next::Done },
        }
    }

    /// The worker finishes: `Done` goes out, once. A finished worker emits
    /// nothing.
    pub open spec fn finish(self) -> Step {
        if self.phase == Phase::Done {
            Step { next: self, events: Seq::empty() }
        } else {
            Step {
                next: RunView { phase: Phase::Done, ..self },
                events: seq![EventView::Status(StatusView::Done)],
            }
        }
    }
}

} // verus!
