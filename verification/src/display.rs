//! The consumer's display as plain values: what it has heard of a search,
//! what it shows for it, and what it asks of the caller that polls for it.

use vstd::prelude::*;
use crate::events::Elapsed;
use crate::events::SearchResult;
use crate::events::StatusView;
use crate::text::decimal;

verus! {

/// The most matches that one polling pass takes off the result stream.
pub const MATCH_BATCH: usize = 10;

/// How long the display stays as it is, with nothing heard, before it is
/// refreshed: a tenth of a second.
pub const REFRESH_NANOS: u128 = 100_000_000;

/// How long the caller sleeps between two polling passes, in milliseconds.
pub const PAUSE_MILLIS: u64 = 10;

/// What the display has heard and shown.
pub struct DisplayView {
    pub current_path: Seq<char>,
    pub file_count: nat,
    pub found_count: nat,
    pub permission_errors: nat,
    pub max_files: nat,
    pub limit_reached: bool,
    pub timed_out: bool,
    /// Whether any status report has arrived.
    pub heard: bool,
    /// Whether either stream yielded anything in the pass under way.
    pub updated: bool,
    /// How many matches the pass under way has taken, up to `MATCH_BATCH`.
    pub taken: nat,
    /// When the pass under way began.
    pub pass_began: Elapsed,
    /// When the quiet time was last counted from.
    pub last_refresh: Elapsed,
    /// Whether the status stream has ended, by `Done` or by being closed:
    /// the display takes what is left on the result stream, and leaves.
    pub leaving: bool,
}

/// What the caller found as it polled for the display.
pub enum PolledView {
    /// A status report.
    Status(StatusView),
    /// No status report is waiting.
    NoStatus,
    /// The status stream is closed and empty.
    Closed,
    /// A matched path.
    Match(Seq<char>),
    /// No match is to be had now.
    NoMatch,
    /// The pause between two passes is over.
    Rested,
}

/// What the caller does for the display.
pub enum ShownView {
    /// Show the line as the status line.
    Line(Seq<char>),
    /// Print the matched path, above the status line.
    Path(Seq<char>),
}

/// What the display needs next from its caller.
#[derive(Clone, Copy, Debug, PartialEq, Eq, Structural)]
pub enum Want {
    /// A poll of the status stream.
    Status,
    /// A poll of the result stream.
    Match,
    /// A pause of `PAUSE_MILLIS`.
    Rest,
    /// Nothing: the status stream has ended and the result stream is empty.
    Leave,
}

/// A display, what to show on the way to it, and what it needs next.
#[verifier::ext_equal]
pub struct Polling {
    pub next: DisplayView,
    pub shown: Seq<ShownView>,
    pub want: Want,
}

/// What the caller does for a status report.
pub enum ReactionView {
    /// Show the line.
    Show(Seq<char>),
    /// The status stream has ended: take what is left on the result stream,
    /// then end the polling.
    Exit,
}

/// What the caller does at the end of a pass in which nothing arrived.
pub enum IdleView {
    /// Nothing.
    Wait,
    /// Count the quiet time anew.
    Restart,
    /// Show the line, and count the quiet time anew.
    Show(Seq<char>),
}

/// The line shown for a search that is cut short by its timeout.
pub open spec fn timeout_line(secs: u64, scanned: nat, found: nat) -> Seq<char> {
    "Search timed out after "@ + decimal(secs as nat) + " seconds! ("@ + decimal(scanned)
        + " scanned, "@ + decimal(found) + " found)"@
}

/// The line shown for a search that is cut short by its cap.
pub open spec fn limit_line(cap: nat) -> Seq<char> {
    "File limit reached ("@ + decimal(cap) + ")! Finishing search..."@
}

/// The line shown before the worker is heard from.
pub open spec fn preparing_line() -> Seq<char> {
    "Preparing search..."@
}

/// How a summary names the number of matches.
pub open spec fn match_text(matches: nat) -> Seq<char> {
    if matches == 0 {
        "No matches found"@
    } else if matches == 1 {
        "Found 1 match"@
    } else {
        "Found "@ + decimal(matches) + " matches"@
    }
}

/// How a summary names the permission errors: not at all if there were none.
pub open spec fn permission_text(errors: nat) -> Seq<char> {
    if errors > 0 {
        ", "@ + decimal(errors) + " permission errors"@
    } else {
        Seq::empty()
    }
}

/// Tenths of a second in `elapsed`, to the nearest, a half counting up.
pub open spec fn tenths(elapsed: Elapsed) -> nat {
    ((elapsed.nanos + 50_000_000) / 100_000_000) as nat
}

/// Seconds with one decimal, as a summary shows them: the time is taken to
/// be a tenth of a second at least.
pub open spec fn seconds_text(elapsed: Elapsed) -> Seq<char> {
    decimal(tenths(elapsed.shown()) / 10) + "."@ + decimal(tenths(elapsed.shown()) % 10)
}

/// The summary that closes the display: one of three, for a search that
/// timed out, one that reached its cap, and one that ran to its end. Each
/// names the matches, the time, the entries scanned, and the permission
/// errors if there were any.
pub open spec fn summary_text(result: SearchResult, base_path: Seq<char>) -> Seq<char> {
    let found = match_text(result.matches as nat);
    let errors = permission_text(result.permission_errors as nat);
    let seconds = seconds_text(result.elapsed);
    if result.timed_out {
        "Search timed out after "@ + seconds + "s! "@ + found + " in "@ + base_path
            + " (scanned "@ + decimal(result.files_scanned as nat) + " files"@ + errors + ")"@
    } else if result.limit_reached {
        "Search stopped at file limit! "@ + found + " in "@ + base_path + " ("@ + seconds + "s, "@
            + decimal(result.files_scanned as nat) + " files"@ + errors + ")"@
    } else {
        "Search complete! "@ + found + " in "@ + base_path + " ("@ + seconds + "s, "@ + decimal(
            result.files_scanned as nat,
        ) + " files"@ + errors + ")"@
    }
}

impl DisplayView {
    /// The display before anything is heard.
    pub open spec fn initial() -> DisplayView {
        DisplayView {
            current_path: "..."@,
            file_count: 0,
            found_count: 0,
            permission_errors: 0,
            max_files: 0,
            limit_reached: false,
            timed_out: false,
            heard: false,
            updated: false,
            taken: 0,
            pass_began: Elapsed { nanos: 0 },
            last_refresh: Elapsed { nanos: 0 },
            leaving: false,
        }
    }

    /// The line for the first few matches, so that a first hit is seen at
    /// once.
    pub open spec fn early_line(self) -> Seq<char> {
        "Found "@ + decimal(self.found_count) + " match"@ + (if self.found_count == 1 {
            Seq::empty()
        } else {
            "es"@
        }) + "! Continuing search..."@
    }

    /// What the status line says of the entries scanned.
    pub open spec fn scanned_part(self) -> Seq<char> {
        if self.file_count > 0 {
            decimal(self.file_count) + " scanned"@
        } else {
            "searching"@
        }
    }

    /// What the status line says of the matches.
    pub open spec fn found_part(self) -> Seq<char> {
        if self.found_count > 0 {
            ", "@ + decimal(self.found_count) + " found"@
        } else {
            Seq::empty()
        }
    }

    /// What the status line says of the entries left under the cap.
    pub open spec fn remaining_part(self) -> Seq<char> {
        if self.max_files > 0 && self.max_files > self.file_count {
            ", "@ + decimal((self.max_files - self.file_count) as nat) + " remaining"@
        } else {
            Seq::empty()
        }
    }

    /// The status line: for one to four matches the early line, else where
    /// the search is and what it has counted.
    pub open spec fn status_line(self) -> Seq<char> {
        if 0 < self.found_count < 5 {
            self.early_line()
        } else {
            "Searching in: "@ + self.current_path + " ("@ + self.scanned_part()
                + self.found_part() + permission_text(self.permission_errors)
                + self.remaining_part() + ")"@
        }
    }

    /// The display after a status report.
    pub open spec fn heard_status(self, message: StatusView) -> DisplayView {
        let heard = DisplayView { heard: true, updated: true, ..self };
        match message {
            StatusView::CurrentPath(path) => DisplayView { current_path: path, ..heard },
            StatusView::FileCount(scanned, cap) => DisplayView {
                file_count: scanned,
                max_files: cap,
                ..heard
            },
            StatusView::PermissionErrors(errors) => DisplayView {
                permission_errors: errors,
                ..heard
            },
            StatusView::Timeout(_) => DisplayView { timed_out: true, ..heard },
            StatusView::LimitReached(_) => DisplayView { limit_reached: true, ..heard },
            StatusView::Done => heard,
        }
    }

    /// What a status report calls for: on `Done` the end of the status
    /// stream; on a tripped bound its own line, while the polling goes on;
    /// else the status line, brought up to date.
    pub open spec fn reaction(self, message: StatusView) -> ReactionView {
        match message {
            StatusView::Timeout(secs) => ReactionView::Show(
                timeout_line(secs, self.file_count, self.found_count),
            ),
            StatusView::LimitReached(cap) => ReactionView::Show(limit_line(cap)),
            StatusView::Done => ReactionView::Exit,
            _ => ReactionView::Show(self.heard_status(message).status_line()),
        }
    }

    /// Whether the pass under way may take another match.
    pub open spec fn wants_match(self) -> bool {
        self.taken < MATCH_BATCH
    }

    /// The display after a match.
    pub open spec fn heard_match(self) -> DisplayView {
        DisplayView {
            found_count: self.found_count + 1,
            taken: if self.taken < MATCH_BATCH {
                self.taken + 1
            } else {
                self.taken
            },
            updated: true,
            ..self
        }
    }

    /// The line to show after a match, if one is due: after the first match
    /// and after every fifth.
    pub open spec fn match_refresh(self) -> Option<Seq<char>> {
        let after = self.heard_match();
        if after.found_count == 1 || after.found_count % 5 == 0 {
            Some(after.status_line())
        } else {
            None
        }
    }

    /// The display as the next pass begins.
    pub open spec fn next_pass(self) -> DisplayView {
        DisplayView { updated: false, taken: 0, ..self }
    }

    /// What the end of a pass calls for, `quiet` after the display was last
    /// counted from: nothing if something arrived in the pass or the quiet
    /// time is within `REFRESH_NANOS`; else the quiet time is counted anew,
    /// and unless a bound has tripped a line is shown, the status line once
    /// the worker was heard from and the preparing line before.
    pub open spec fn idle(self, quiet: Elapsed) -> IdleView {
        if self.updated || quiet.nanos <= REFRESH_NANOS {
            IdleView::Wait
        } else if self.limit_reached || self.timed_out {
            IdleView::Restart
        } else if self.heard {
            IdleView::Show(self.status_line())
        } else {
            IdleView::Show(preparing_line())
        }
    }

    /// How long the display has been quiet as the pass under way began.
    pub open spec fn quiet(self) -> Elapsed {
        if self.pass_began.nanos >= self.last_refresh.nanos {
            Elapsed { nanos: (self.pass_began.nanos - self.last_refresh.nanos) as u128 }
        } else {
            Elapsed { nanos: 0 }
        }
    }

    /// The pass under way ends: a line is shown if the display was quiet for
    /// long enough, and the quiet time is counted anew where `idle` says so.
    pub open spec fn close_pass(self) -> Polling {
        let idle = self.idle(self.quiet());
        Polling {
            next: DisplayView {
                last_refresh: if idle is Wait {
                    self.last_refresh
                } else {
                    self.pass_began
                },
                ..self.next_pass()
            },
            shown: match idle {
                IdleView::Show(line) => seq![ShownView::Line(line)],
                _ => Seq::empty(),
            },
            want: Want::Rest,
        }
    }

    /// The pass goes on to the result stream if it may take a match, and
    /// ends if it may not. Once the status stream has ended, every match
    /// that is left is taken.
    pub open spec fn turn_to_matches(self, shown: Seq<ShownView>) -> Polling {
        if self.leaving || self.wants_match() {
            Polling { next: self, shown, want: Want::Match }
        } else {
            let closed = self.close_pass();
            Polling { next: closed.next, shown: shown + closed.shown, want: closed.want }
        }
    }

    /// The display is driven one turn further, at `elapsed`, with what its
    /// caller found.
    ///
    /// A pass begins with a poll of the status stream: a report is taken in
    /// and its line shown. Then the result stream is polled, until no match
    /// is to be had or the pass has taken `MATCH_BATCH`: a match is printed
    /// at once, and the status line shown after it where one is due. Then
    /// the pass ends, and the caller pauses before the next.
    ///
    /// `Done`, or a status stream that is closed, ends the passes: the
    /// worker emits every match before it, so the display takes the result
    /// stream until no match is left, and only then ends the polling.
    pub open spec fn advance(self, elapsed: Elapsed, polled: PolledView) -> Polling {
        match polled {
            PolledView::Status(message) => {
                let began = DisplayView { pass_began: elapsed, ..self };
                match began.reaction(message) {
                    ReactionView::Show(line) => began.heard_status(message).turn_to_matches(
                        seq![ShownView::Line(line)],
                    ),
                    ReactionView::Exit => Polling {
                        next: DisplayView { leaving: true, ..began.heard_status(message) },
                        shown: Seq::empty(),
                        want: Want::Match,
                    },
                }
            },
            PolledView::NoStatus => (DisplayView { pass_began: elapsed, ..self }).turn_to_matches(
                Seq::empty(),
            ),
            PolledView::Closed => Polling {
                next: DisplayView { leaving: true, ..self },
                shown: Seq::empty(),
                want: Want::Match,
            },
            PolledView::Match(path) => {
                let refresh = match self.match_refresh() {
                    Some(line) => seq![ShownView::Line(line)],
                    None => Seq::empty(),
                };
                self.heard_match().turn_to_matches(seq![ShownView::Path(path)] + refresh)
            },
            PolledView::NoMatch => if self.leaving {
                Polling { next: self, shown: Seq::empty(), want: Want::Leave }
            } else {
                self.close_pass()
            },
            PolledView::Rested => Polling {
                next: self,
                shown: Seq::empty(),
                want: if self.leaving {
                    Want::Match
                } else {
                    Want::Status
                },
            },
        }
    }

    /// The display after the status reports `heard`, one after the other.
    pub open spec fn hear(self, heard: Seq<StatusView>) -> DisplayView
        decreases heard.len(),
    {
        if heard.len() == 0 {
            self
        } else {
            self.hear(heard.drop_last()).heard_status(heard.last())
        }
    }
}

/// Whether a report that the timeout ran out is among `heard`.
pub open spec fn heard_timeout(heard: Seq<StatusView>) -> bool {
    exists|i: int| 0 <= i < heard.len() && (#[trigger] heard[i]) is Timeout
}

/// Whether a report that the cap was reached is among `heard`.
pub open spec fn heard_limit(heard: Seq<StatusView>) -> bool {
    exists|i: int| 0 <= i < heard.len() && (#[trigger] heard[i]) is LimitReached
}

/// Whether every count report among `heard` names a count of at most `most`.
pub open spec fn heard_counts_within(heard: Seq<StatusView>, most: nat) -> bool {
    forall|i: int|
        0 <= i < heard.len() ==> ((#[trigger] heard[i]) matches StatusView::FileCount(scanned, _)
            ==> scanned <= most)
}

/// The display marks a bound as tripped exactly if it was told so, and the
/// count it shows is one it was told.
pub proof fn display_tells_what_it_heard(display: DisplayView, heard: Seq<StatusView>)
    ensures
        display.hear(heard).timed_out <==> display.timed_out || heard_timeout(heard),
        display.hear(heard).limit_reached <==> display.limit_reached || heard_limit(heard),
        forall|most: nat|
            display.file_count <= most && heard_counts_within(heard, most) ==> display.hear(
                heard,
            ).file_count <= most,
        display.hear(heard).found_count == display.found_count,
    decreases heard.len(),
{
    if heard.len() > 0 {
        let before = heard.drop_last();
        display_tells_what_it_heard(display, before);
        let last = heard.last();
        assert(last == heard[heard.len() - 1]);
        if heard_timeout(before) {
            let i = choose|i: int| 0 <= i < before.len() && (#[trigger] before[i]) is Timeout;
            assert(heard[i] is Timeout);
        }
        if heard_limit(before) {
            let i = choose|i: int| 0 <= i < before.len() && (#[trigger] before[i]) is LimitReached;
            assert(heard[i] is LimitReached);
        }
        if heard_timeout(heard) {
            let i = choose|i: int| 0 <= i < heard.len() && (#[trigger] heard[i]) is Timeout;
            if i < before.len() {
                assert(before[i] is Timeout);
            }
        }
        if heard_limit(heard) {
            let i = choose|i: int| 0 <= i < heard.len() && (#[trigger] heard[i]) is LimitReached;
            if i < before.len() {
                assert(before[i] is LimitReached);
            }
        }
        assert forall|most: nat|
            display.file_count <= most && heard_counts_within(heard, most) implies display.hear(
            heard,
        ).file_count <= most by {
            assert(heard_counts_within(before, most)) by {
                assert forall|i: int| 0 <= i < before.len() implies ((
                #[trigger] before[i]) matches StatusView::FileCount(scanned, _) ==> scanned
                    <= most) by {
                    assert(before[i] == heard[i]);
                }
            }
        }
    }
}

/// What the caller found in one turn of polling, and when.
pub struct Poll {
    pub elapsed: Elapsed,
    pub polled: PolledView,
}

/// The display after it was driven through `polls`, all that it showed on
/// the way, in order, and what it needs next.
pub open spec fn polling(start: DisplayView, polls: Seq<Poll>) -> Polling
    decreases polls.len(),
{
    if polls.len() == 0 {
        Polling { next: start, shown: Seq::empty(), want: Want::Status }
    } else {
        let before = polling(start, polls.drop_last());
        let last = before.next.advance(polls.last().elapsed, polls.last().polled);
        Polling { next: last.next, shown: before.shown + last.shown, want: last.want }
    }
}

/// The matched paths among what was shown, in order.
pub open spec fn paths_shown(shown: Seq<ShownView>) -> Seq<Seq<char>>
    decreases shown.len(),
{
    if shown.len() == 0 {
        Seq::empty()
    } else {
        match shown.last() {
            ShownView::Path(path) => paths_shown(shown.drop_last()).push(path),
            _ => paths_shown(shown.drop_last()),
        }
    }
}

/// The matched paths that the caller took off the result stream, in order.
pub open spec fn paths_polled(polls: Seq<Poll>) -> Seq<Seq<char>>
    decreases polls.len(),
{
    if polls.len() == 0 {
        Seq::empty()
    } else {
        match polls.last().polled {
            PolledView::Match(path) => paths_polled(polls.drop_last()).push(path),
            _ => paths_polled(polls.drop_last()),
        }
    }
}

/// The status reports that the caller took off the status stream, in order.
pub open spec fn statuses_polled(polls: Seq<Poll>) -> Seq<StatusView>
    decreases polls.len(),
{
    if polls.len() == 0 {
        Seq::empty()
    } else {
        match polls.last().polled {
            PolledView::Status(message) => statuses_polled(polls.drop_last()).push(message),
            _ => statuses_polled(polls.drop_last()),
        }
    }
}

impl DisplayView {
    /// Whether two displays have heard the same of the search: the same
    /// place, counts and bounds.
    pub open spec fn heard_the_same(self, other: DisplayView) -> bool {
        &&& self.current_path == other.current_path
        &&& self.file_count == other.file_count
        &&& self.permission_errors == other.permission_errors
        &&& self.max_files == other.max_files
        &&& self.limit_reached == other.limit_reached
        &&& self.timed_out == other.timed_out
    }
}

/// However the display is driven, what it has heard of the search is what
/// the status reports that it was handed say, one after the other: matches,
/// empty polls and pauses change none of it.
pub proof fn driven_display_hears_its_reports(start: DisplayView, polls: Seq<Poll>)
    ensures
        polling(start, polls).next.heard_the_same(start.hear(statuses_polled(polls))),
    decreases polls.len(),
{
    if polls.len() > 0 {
        driven_display_hears_its_reports(start, polls.drop_last());
        match polls.last().polled {
            PolledView::Status(message) => {
                let reports = statuses_polled(polls.drop_last()).push(message);
                assert(reports.drop_last() =~= statuses_polled(polls.drop_last()));
                assert(reports.last() == message);
            },
            _ => {},
        }
    }
}

/// The paths shown in two runs of showing on end are their paths on end.
pub proof fn paths_shown_joined(head: Seq<ShownView>, tail: Seq<ShownView>)
    ensures
        paths_shown(head + tail) == paths_shown(head) + paths_shown(tail),
    decreases tail.len(),
{
    if tail.len() == 0 {
        assert(head + tail =~= head);
        assert(paths_shown(head) + paths_shown(tail) =~= paths_shown(head));
    } else {
        assert((head + tail).drop_last() =~= head + tail.drop_last());
        assert((head + tail).last() == tail.last());
        paths_shown_joined(head, tail.drop_last());
        match tail.last() {
            ShownView::Path(path) => {
                assert((paths_shown(head) + paths_shown(tail.drop_last())).push(path)
                    =~= paths_shown(head) + paths_shown(tail.drop_last()).push(path));
            },
            _ => {},
        }
    }
}

/// A turn shows a matched path exactly when the caller hands one over, and
/// shows it before anything else; whatever else is polled, no path is shown.
pub proof fn turn_shows_its_match(display: DisplayView, elapsed: Elapsed, polled: PolledView)
    ensures
        paths_shown(display.advance(elapsed, polled).shown) == match polled {
            PolledView::Match(path) => seq![path],
            _ => Seq::<Seq<char>>::empty(),
        },
        polled matches PolledView::Match(path) ==> display.advance(elapsed, polled).shown.len() > 0
            && display.advance(elapsed, polled).shown[0] == ShownView::Path(path),
        display.advance(elapsed, polled).next.found_count == display.found_count + (if polled
            is Match {
            1nat
        } else {
            0nat
        }),
{
    let shown = display.advance(elapsed, polled).shown;
    reveal_with_fuel(paths_shown, 4);
    if shown.len() == 1 {
        assert(shown.drop_last() =~= Seq::<ShownView>::empty());
    } else if shown.len() == 2 {
        assert(shown.drop_last().drop_last() =~= Seq::<ShownView>::empty());
    } else if shown.len() == 3 {
        assert(shown.drop_last().drop_last().drop_last() =~= Seq::<ShownView>::empty());
    }
}

/// The display ends the polling only once the status stream has ended and
/// the caller has found the result stream empty after that. Until then,
/// once the status stream has ended, it asks for the result stream alone.
pub proof fn display_leaves_only_when_drained(
    display: DisplayView,
    elapsed: Elapsed,
    polled: PolledView,
)
    ensures
        display.advance(elapsed, polled).want == Want::Leave <==> display.leaving
            && polled is NoMatch,
        display.leaving ==> display.advance(elapsed, polled).next.leaving,
        display.advance(elapsed, polled).next.leaving && display.advance(elapsed, polled).want
            != Want::Leave ==> display.advance(elapsed, polled).want == Want::Match,
        display.advance(elapsed, polled).next.leaving <==> display.leaving || polled
            == PolledView::Status(StatusView::Done) || polled is Closed,
{
}

/// Whether the caller polled a result stream that holds `results`
/// truthfully once the status stream had ended: it said that no match was
/// to be had only when it had handed over every one of them.
pub open spec fn drained_truthfully(
    start: DisplayView,
    polls: Seq<Poll>,
    results: Seq<Seq<char>>,
) -> bool {
    forall|k: int|
        0 <= k < polls.len() && (#[trigger] polls[k]).polled is NoMatch && polling(
            start,
            polls.take(k),
        ).next.leaving ==> paths_polled(polls.take(k)) == results
}

/// A display that has ended the polling has shown the whole result stream:
/// every match that the worker emitted before the status stream ended, once
/// and in order, whichever of the two streams the caller saw first.
pub proof fn display_that_leaves_has_shown_every_match(
    start: DisplayView,
    polls: Seq<Poll>,
    results: Seq<Seq<char>>,
)
    requires
        drained_truthfully(start, polls, results),
        polling(start, polls).want == Want::Leave,
    ensures
        paths_shown(polling(start, polls).shown) == results,
        polling(start, polls).next.found_count == start.found_count + results.len(),
{
    assert(polls.len() > 0);
    let before = polling(start, polls.drop_last());
    display_leaves_only_when_drained(before.next, polls.last().elapsed, polls.last().polled);
    assert(polls.take(polls.len() - 1) =~= polls.drop_last());
    assert(polls[polls.len() - 1] == polls.last());
    every_match_is_shown_once(start, polls);
}

/// However the display is driven, every matched path that the caller takes
/// off the result stream is shown, once, in the order in which it came, and
/// is counted.
pub proof fn every_match_is_shown_once(start: DisplayView, polls: Seq<Poll>)
    ensures
        paths_shown(polling(start, polls).shown) == paths_polled(polls),
        polling(start, polls).next.found_count == start.found_count + paths_polled(polls).len(),
    decreases polls.len(),
{
    if polls.len() > 0 {
        every_match_is_shown_once(start, polls.drop_last());
        let before = polling(start, polls.drop_last());
        let last = before.next.advance(polls.last().elapsed, polls.last().polled);
        turn_shows_its_match(before.next, polls.last().elapsed, polls.last().polled);
        paths_shown_joined(before.shown, last.shown);
        match polls.last().polled {
            PolledView::Match(path) => {
                assert(paths_polled(polls.drop_last()) + seq![path] =~= paths_polled(
                    polls.drop_last(),
                ).push(path));
            },
            _ => {
                assert(paths_polled(polls.drop_last()) + Seq::<Seq<char>>::empty()
                    =~= paths_polled(polls.drop_last()));
            },
        }
    }
}

} // verus!
