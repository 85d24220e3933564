//! The consumer of the worker's two streams: what it has heard so far, and
//! what it shows for it.
//!
//! The caller polls the streams, prints, and sleeps; the display decides what
//! is shown, what is polled next, and when the polling ends.

use vstd::prelude::*;
use vstd::string::StringExecFns;
use crate::display::seconds_text;
use crate::display::summary_text;
use crate::display::tenths;
use crate::display::timeout_line;
use crate::display::DisplayView;
use crate::display::IdleView;
use crate::display::PolledView;
use crate::display::ReactionView;
use crate::display::ShownView;
use crate::display::Want;
use crate::display::MATCH_BATCH;
use crate::display::REFRESH_NANOS;
use crate::events::Elapsed;
use crate::events::SearchResult;
use crate::events::StatusMessage;
use crate::text::append_count;
use crate::text::decimal;
use crate::text::decimal_string;
use crate::text::joined;
use crate::text::with_count;

verus! {

/// What the caller found as it polled for the display.
#[derive(Debug)]
pub enum Polled {
    /// A status report.
    Status(StatusMessage),
    /// No status report is waiting.
    NoStatus,
    /// The status stream is closed and empty.
    Closed,
    /// A matched path.
    Match(String),
    /// No match is to be had now.
    NoMatch,
    /// The pause between two passes is over.
    Rested,
}

impl View for Polled {
    type V = PolledView;

    open spec fn view(&self) -> PolledView {
        match self {
            Polled::Status(message) => PolledView::Status(message@),
            Polled::NoStatus => PolledView::NoStatus,
            Polled::Closed => PolledView::Closed,
            Polled::Match(path) => PolledView::Match(path@),
            Polled::NoMatch => PolledView::NoMatch,
            Polled::Rested => PolledView::Rested,
        }
    }
}

/// What the caller does for the display.
#[derive(Debug)]
pub enum Shown {
    /// Show the line as the status line.
    Line(String),
    /// Print the matched path, above the status line.
    Path(String),
}

impl View for Shown {
    type V = ShownView;

    open spec fn view(&self) -> ShownView {
        match self {
            Shown::Line(line) => ShownView::Line(line@),
            Shown::Path(path) => ShownView::Path(path@),
        }
    }
}

/// What is to be shown, in order, as contracts see it.
pub open spec fn shown_view(shown: Seq<Shown>) -> Seq<ShownView> {
    shown.map_values(|one: Shown| one@)
}

/// What the caller does for a status report.
#[derive(Debug)]
pub enum Reaction {
    /// Show the line.
    Show(String),
    /// The status stream has ended: take what is left on the result stream,
    /// then end the polling.
    Exit,
}

impl View for Reaction {
    type V = ReactionView;

    open spec fn view(&self) -> ReactionView {
        match self {
            Reaction::Show(line) => ReactionView::Show(line@),
            Reaction::Exit => ReactionView::Exit,
        }
    }
}

/// What the caller does at the end of a pass.
#[derive(Debug)]
pub enum IdleReaction {
    /// Nothing.
    Wait,
    /// Count the quiet time anew.
    Restart,
    /// Show the line, and count the quiet time anew.
    Show(String),
}

impl View for IdleReaction {
    type V = IdleView;

    open spec fn view(&self) -> IdleView {
        match self {
            IdleReaction::Wait => IdleView::Wait,
            IdleReaction::Restart => IdleView::Restart,
            IdleReaction::Show(line) => IdleView::Show(line@),
        }
    }
}

/// The consumer's running tally of a search, and what it shows for it.
pub struct DisplayManager {
    current_path: String,
    file_count: usize,
    found_count: usize,
    permission_errors: usize,
    max_files: usize,
    limit_reached: bool,
    timed_out: bool,
    heard: bool,
    updated: bool,
    taken: usize,
    pass_began: Elapsed,
    last_refresh: Elapsed,
    leaving: bool,
}

impl View for DisplayManager {
    type V = DisplayView;

    closed spec fn view(&self) -> DisplayView {
        DisplayView {
            current_path: self.current_path@,
            file_count: self.file_count as nat,
            found_count: self.found_count as nat,
            permission_errors: self.permission_errors as nat,
            max_files: self.max_files as nat,
            limit_reached: self.limit_reached,
            timed_out: self.timed_out,
            heard: self.heard,
            updated: self.updated,
            taken: self.taken as nat,
            pass_began: self.pass_began,
            last_refresh: self.last_refresh,
            leaving: self.leaving,
        }
    }
}

/// Adds to what is to be shown.
fn show(shown: &mut Vec<Shown>, one: Shown)
    ensures
        shown_view(final(shown)@) == shown_view(old(shown)@).push(one@),
{
    shown.push(one);
    assert(shown_view(shown@) =~= shown_view(old(shown)@).push(one@));
}

/// Nothing to be shown.
fn nothing_shown() -> (shown: Vec<Shown>)
    ensures
        shown_view(shown@) == Seq::<ShownView>::empty(),
{
    let shown: Vec<Shown> = Vec::new();
    assert(shown_view(shown@) =~= Seq::empty());
    shown
}

/// Writes seconds with one decimal, a tenth of a second at least.
pub fn seconds_string(elapsed: Elapsed) -> (text: String)
    ensures
        text@ == seconds_text(elapsed),
{
    let shown = elapsed.for_display();
    let whole: u128 = shown.nanos / 1_000_000_000;
    let part: u128 = shown.nanos % 1_000_000_000;
    let rounded: u128 = (part + 50_000_000) / 100_000_000;
    let (units, tenth): (u128, u128) = if rounded == 10 {
        (whole + 1, 0)
    } else {
        (whole, rounded)
    };
    assert(tenths(shown) == units * 10 + tenth);
    let mut text = decimal_string(units);
    text.append(".");
    let digit = decimal_string(tenth);
    text.append(digit.as_str());
    text
}

impl DisplayManager {
    /// The display before anything is heard.
    pub fn new() -> (display: DisplayManager)
        ensures
            display@ == DisplayView::initial(),
    {
        DisplayManager {
            current_path: String::from_str("..."),
            file_count: 0,
            found_count: 0,
            permission_errors: 0,
            max_files: 0,
            limit_reached: false,
            timed_out: false,
            heard: false,
            updated: false,
            taken: 0,
            pass_began: Elapsed { nanos: 0 },
            last_refresh: Elapsed { nanos: 0 },
            leaving: false,
        }
    }

    /// The status line for what has been heard so far.
    pub fn status_line(&self) -> (line: String)
        ensures
            line@ == self@.status_line(),
    {
        if self.found_count > 0 && self.found_count < 5 {
            let mut line = with_count("Found ", self.found_count, " match");
            if self.found_count != 1 {
                line.append("es");
            }
            line.append("! Continuing search...");
            assert(line@ =~= self@.early_line());
            return line;
        }
        let mut line = joined("Searching in: ", self.current_path.as_str());
        line.append(" (");
        if self.file_count > 0 {
            append_count(&mut line, "", self.file_count, " scanned");
            assert("".view() =~= Seq::<char>::empty()) by {
                reveal_strlit("");
            }
            assert("".view() + decimal(self.file_count as nat) + " scanned"@
                =~= self@.scanned_part());
        } else {
            line.append("searching");
        }
        if self.found_count > 0 {
            append_count(&mut line, ", ", self.found_count, " found");
        }
        if self.permission_errors > 0 {
            append_count(&mut line, ", ", self.permission_errors, " permission errors");
        }
        if self.max_files > 0 && self.max_files > self.file_count {
            append_count(&mut line, ", ", self.max_files - self.file_count, " remaining");
        }
        line.append(")");
        assert(line@ =~= self@.status_line());
        line
    }

    /// Takes in a status report and says what to do for it.
    pub fn on_status(&mut self, message: StatusMessage) -> (reaction: Reaction)
        ensures
            final(self)@ == old(self)@.heard_status(message@),
            reaction@ == old(self)@.reaction(message@),
    {
        self.heard = true;
        self.updated = true;
        match message {
            StatusMessage::CurrentPath(path) => {
                self.current_path = path;
                Reaction::Show(self.status_line())
            },
            StatusMessage::FileCount(scanned, cap) => {
                self.file_count = scanned;
                self.max_files = cap;
                Reaction::Show(self.status_line())
            },
            StatusMessage::PermissionErrors(errors) => {
                self.permission_errors = errors;
                Reaction::Show(self.status_line())
            },
            StatusMessage::Timeout(secs) => {
                self.timed_out = true;
                let mut line = String::from_str("Search timed out after ");
                let seconds = decimal_string(secs as u128);
                line.append(seconds.as_str());
                append_count(&mut line, " seconds! (", self.file_count, " scanned, ");
                append_count(&mut line, "", self.found_count, " found)");
                assert("".view() =~= Seq::<char>::empty()) by {
                    reveal_strlit("");
                }
                assert(line@ =~= timeout_line(
                    secs,
                    self.file_count as nat,
                    self.found_count as nat,
                ));
                Reaction::Show(line)
            },
            StatusMessage::LimitReached(cap) => {
                self.limit_reached = true;
                Reaction::Show(with_count("File limit reached (", cap, ")! Finishing search..."))
            },
            StatusMessage::Done => Reaction::Exit,
        }
    }

    /// Whether the pass under way may take another match off the result
    /// stream: it may until it has taken `MATCH_BATCH`.
    pub fn wants_match(&self) -> (wanted: bool)
        ensures
            wanted == self@.wants_match(),
    {
        self.taken < MATCH_BATCH
    }

    /// Counts a match that was taken off the result stream, and hands back
    /// the line to show after it is printed, if one is due.
    pub fn on_match(&mut self) -> (refresh: Option<String>)
        requires
            old(self)@.found_count < usize::MAX,
        ensures
            final(self)@ == old(self)@.heard_match(),
            match refresh {
                Some(line) => old(self)@.match_refresh() == Some(line@),
                None => old(self)@.match_refresh() is None,
            },
    {
        self.found_count = self.found_count + 1;
        if self.taken < MATCH_BATCH {
            self.taken = self.taken + 1;
        }
        self.updated = true;
        if self.found_count == 1 || self.found_count % 5 == 0 {
            Some(self.status_line())
        } else {
            None
        }
    }

    /// Ends a polling pass, `quiet` after the display was last counted from,
    /// and says what to do if nothing arrived in it. The next pass begins.
    pub fn end_pass(&mut self, quiet: Elapsed) -> (reaction: IdleReaction)
        ensures
            final(self)@ == old(self)@.next_pass(),
            reaction@ == old(self)@.idle(quiet),
    {
        let reaction = if self.updated || quiet.nanos <= REFRESH_NANOS {
            IdleReaction::Wait
        } else if self.limit_reached || self.timed_out {
            IdleReaction::Restart
        } else if self.heard {
            IdleReaction::Show(self.status_line())
        } else {
            IdleReaction::Show(String::from_str("Preparing search..."))
        };
        self.updated = false;
        self.taken = 0;
        reaction
    }

    /// Ends the pass under way and adds to `shown` what a quiet pass calls
    /// for.
    fn close_pass(&mut self, shown: &mut Vec<Shown>)
        ensures
            final(self)@ == old(self)@.close_pass().next,
            shown_view(final(shown)@) == shown_view(old(shown)@) + old(self)@.close_pass().shown,
    {
        let quiet = if self.pass_began.nanos >= self.last_refresh.nanos {
            Elapsed { nanos: self.pass_began.nanos - self.last_refresh.nanos }
        } else {
            Elapsed { nanos: 0 }
        };
        match self.end_pass(quiet) {
            IdleReaction::Wait => {
                assert(shown_view(shown@) + Seq::<ShownView>::empty() =~= shown_view(shown@));
            },
            IdleReaction::Restart => {
                self.last_refresh = self.pass_began;
                assert(shown_view(shown@) + Seq::<ShownView>::empty() =~= shown_view(shown@));
            },
            IdleReaction::Show(line) => {
                self.last_refresh = self.pass_began;
                show(shown, Shown::Line(line));
                assert(shown_view(old(shown)@).push(ShownView::Line(line@)) =~= shown_view(
                    old(shown)@,
                ) + seq![ShownView::Line(line@)]);
            },
        }
    }

    /// Goes on to the result stream if the pass may take a match, and ends
    /// the pass if it may not.
    fn turn_to_matches(&mut self, shown: &mut Vec<Shown>) -> (want: Want)
        ensures
            final(self)@ == old(self)@.turn_to_matches(shown_view(old(shown)@)).next,
            shown_view(final(shown)@) == old(self)@.turn_to_matches(shown_view(old(shown)@)).shown,
            want == old(self)@.turn_to_matches(shown_view(old(shown)@)).want,
    {
        if self.leaving || self.wants_match() {
            Want::Match
        } else {
            self.close_pass(shown);
            Want::Rest
        }
    }

    /// Drives the display one turn further, at `elapsed`, with what the
    /// caller found: hands back what to show, in order, and what the display
    /// needs next. A caller that begins with a poll of the status stream and
    /// always does what is asked for has shown the whole search when
    /// `Want::Leave` comes back: it comes back only after the status stream
    /// has ended and the result stream was found empty.
    pub fn advance(&mut self, elapsed: Elapsed, polled: Polled) -> (turn: (Vec<Shown>, Want))
        requires
            polled is Match ==> old(self)@.found_count < usize::MAX,
        ensures
            final(self)@ == old(self)@.advance(elapsed, polled@).next,
            shown_view(turn.0@) == old(self)@.advance(elapsed, polled@).shown,
            turn.1 == old(self)@.advance(elapsed, polled@).want,
    {
        let mut shown = nothing_shown();
        match polled {
            Polled::Status(message) => {
                self.pass_began = elapsed;
                match self.on_status(message) {
                    Reaction::Show(line) => {
                        show(&mut shown, Shown::Line(line));
                        assert(shown_view(shown@) =~= seq![ShownView::Line(line@)]);
                        let want = self.turn_to_matches(&mut shown);
                        (shown, want)
                    },
                    Reaction::Exit => {
                        self.leaving = true;
                        (shown, Want::Match)
                    },
                }
            },
            Polled::NoStatus => {
                self.pass_began = elapsed;
                let want = self.turn_to_matches(&mut shown);
                (shown, want)
            },
            Polled::Closed => {
                self.leaving = true;
                (shown, Want::Match)
            },
            Polled::Match(path) => {
                let refresh = self.on_match();
                show(&mut shown, Shown::Path(path));
                match refresh {
                    Some(line) => {
                        show(&mut shown, Shown::Line(line));
                        assert(shown_view(shown@) =~= seq![ShownView::Path(path@)] + seq![
                            ShownView::Line(line@),
                        ]);
                    },
                    None => {
                        assert(shown_view(shown@) =~= seq![ShownView::Path(path@)] + Seq::<
                            ShownView,
                        >::empty());
                    },
                }
                let want = self.turn_to_matches(&mut shown);
                (shown, want)
            },
            Polled::NoMatch => {
                if self.leaving {
                    return (shown, Want::Leave);
                }
                self.close_pass(&mut shown);
                assert(Seq::<ShownView>::empty() + old(self)@.close_pass().shown =~= old(
                    self,
                )@.close_pass().shown);
                (shown, Want::Rest)
            },
            Polled::Rested => {
                if self.leaving {
                    (shown, Want::Match)
                } else {
                    (shown, Want::Status)
                }
            },
        }
    }

    /// The tallies as heard: matches found, entries scanned, permission
    /// errors, and whether the cap and the timeout were reported.
    pub fn tallies(&self) -> (tallies: (usize, usize, usize, bool, bool))
        ensures
            tallies.0 == self@.found_count,
            tallies.1 == self@.file_count,
            tallies.2 == self@.permission_errors,
            tallies.3 == self@.limit_reached,
            tallies.4 == self@.timed_out,
    {
        (
            self.found_count,
            self.file_count,
            self.permission_errors,
            self.limit_reached,
            self.timed_out,
        )
    }

    /// The summary that closes the display.
    pub fn finish(&self, result: &SearchResult, base_path: &str) -> (summary: String)
        ensures
            summary@ == summary_text(*result, base_path@),
    {
        let found = if result.matches == 0 {
            String::from_str("No matches found")
        } else if result.matches == 1 {
            String::from_str("Found 1 match")
        } else {
            with_count("Found ", result.matches, " matches")
        };
        let seconds = seconds_string(result.elapsed);
        if result.timed_out {
            let mut line = joined("Search timed out after ", seconds.as_str());
            line.append("s! ");
            line.append(found.as_str());
            line.append(" in ");
            line.append(base_path);
            append_count(&mut line, " (scanned ", result.files_scanned, " files");
            if result.permission_errors > 0 {
                append_count(&mut line, ", ", result.permission_errors, " permission errors");
            }
            line.append(")");
            assert(line@ =~= summary_text(*result, base_path@));
            line
        } else if result.limit_reached {
            let mut line = joined("Search stopped at file limit! ", found.as_str());
            line.append(" in ");
            line.append(base_path);
            line.append(" (");
            line.append(seconds.as_str());
            append_count(&mut line, "s, ", result.files_scanned, " files");
            if result.permission_errors > 0 {
                append_count(&mut line, ", ", result.permission_errors, " permission errors");
            }
            line.append(")");
            assert(line@ =~= summary_text(*result, base_path@));
            line
        } else {
            let mut line = joined("Search complete! ", found.as_str());
            line.append(" in ");
            line.append(base_path);
            line.append(" (");
            line.append(seconds.as_str());
            append_count(&mut line, "s, ", result.files_scanned, " files");
            if result.permission_errors > 0 {
                append_count(&mut line, ", ", result.permission_errors, " permission errors");
            }
            line.append(")");
            assert(line@ =~= summary_text(*result, base_path@));
            line
        }
    }
}

} // verus!
