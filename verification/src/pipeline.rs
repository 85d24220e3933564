//! The worker and its consumer together: what the display can come to show
//! of a search, given that it hears nothing but what the worker reported.

use vstd::prelude::*;
use crate::events::EventView;
use crate::events::StatusView;
use crate::model::RunView;
use crate::runs::is_limit;
use crate::runs::is_timeout;
use crate::runs::log_tells_of_bounds;
use crate::runs::play;
use crate::runs::run_keeps_wf;
use crate::runs::Call;
use crate::display::display_tells_what_it_heard;
use crate::display::display_that_leaves_has_shown_every_match;
use crate::display::drained_truthfully;
use crate::display::paths_shown;
use crate::display::Want;
use crate::finds::match_stream_is_the_hits;
use crate::finds::matches_in;
use crate::display::driven_display_hears_its_reports;
use crate::display::polling;
use crate::display::statuses_polled;
use crate::display::Poll;
use crate::display::heard_counts_within;
use crate::display::heard_limit;
use crate::display::heard_timeout;
use crate::display::DisplayView;

verus! {

/// Whether every report among `heard` stands in `log`.
pub open spec fn heard_from(heard: Seq<StatusView>, log: Seq<EventView>) -> bool {
    forall|i: int|
        0 <= i < heard.len() ==> exists|j: int|
            0 <= j < log.len() && #[trigger] log[j] == EventView::Status(#[trigger] heard[i])
}

/// A display that hears only what the worker reported, however much of it
/// and in whatever order, never marks both bounds as tripped, marks the cap
/// only if the worker reached it and the timeout only if the worker ran into
/// it, and under a cap shows no count beyond the cap.
pub proof fn display_shows_one_bound_at_most(
    start: RunView,
    calls: Seq<Call>,
    heard: Seq<StatusView>,
)
    requires
        start.wf(),
        !start.stopped(),
        heard_from(heard, play(start, calls).events),
    ensures
        !(DisplayView::initial().hear(heard).limit_reached && DisplayView::initial().hear(
            heard,
        ).timed_out),
        DisplayView::initial().hear(heard).limit_reached ==> play(start, calls).next.limit_reached,
        DisplayView::initial().hear(heard).timed_out ==> play(start, calls).next.timed_out,
        DisplayView::initial().hear(heard).file_count <= play(start, calls).next.files_scanned,
        start.policy.max_files > 0 ==> DisplayView::initial().hear(heard).file_count
            <= start.policy.max_files,
{
    let log = play(start, calls).events;
    let end = play(start, calls).next;
    log_tells_of_bounds(start, calls);
    run_keeps_wf(start, calls);
    display_tells_what_it_heard(DisplayView::initial(), heard);
    if heard_timeout(heard) {
        let i = choose|i: int| 0 <= i < heard.len() && (#[trigger] heard[i]) is Timeout;
        let j = choose|j: int| 0 <= j < log.len() && #[trigger] log[j] == EventView::Status(heard[i]);
        assert(is_timeout(log[j]));
    }
    if heard_limit(heard) {
        let i = choose|i: int| 0 <= i < heard.len() && (#[trigger] heard[i]) is LimitReached;
        let j = choose|j: int| 0 <= j < log.len() && #[trigger] log[j] == EventView::Status(heard[i]);
        assert(is_limit(log[j]));
    }
    assert(heard_counts_within(heard, end.files_scanned)) by {
        assert forall|i: int| 0 <= i < heard.len() implies ((
        #[trigger] heard[i]) matches StatusView::FileCount(scanned, _) ==> scanned
            <= end.files_scanned) by {
            let j = choose|j: int|
                0 <= j < log.len() && #[trigger] log[j] == EventView::Status(heard[i]);
            assert(log[j] == EventView::Status(heard[i]));
        }
    }
}

/// A display that is driven by a caller who hands it only status reports of
/// one search never comes to mark both bounds as tripped, and under a cap
/// never shows a count beyond the cap.
pub proof fn driven_display_shows_one_bound_at_most(
    start: RunView,
    calls: Seq<Call>,
    polls: Seq<Poll>,
)
    requires
        start.wf(),
        !start.stopped(),
        heard_from(statuses_polled(polls), play(start, calls).events),
    ensures
        !(polling(DisplayView::initial(), polls).next.limit_reached && polling(
            DisplayView::initial(),
            polls,
        ).next.timed_out),
        polling(DisplayView::initial(), polls).next.file_count <= play(
            start,
            calls,
        ).next.files_scanned,
        start.policy.max_files > 0 ==> polling(DisplayView::initial(), polls).next.file_count
            <= start.policy.max_files,
{
    display_shows_one_bound_at_most(start, calls, statuses_polled(polls));
    driven_display_hears_its_reports(DisplayView::initial(), polls);
}

/// A display that has ended the polling, after it drained the result stream
/// of a search truthfully, has shown exactly what the search found, in the
/// order in which it was found, and has counted as many matches as the
/// worker's tally holds.
pub proof fn display_shows_what_the_search_found(
    start: RunView,
    calls: Seq<Call>,
    polls: Seq<Poll>,
)
    requires
        start.wf(),
        start.cursor == 0,
        start.matches == 0,
        drained_truthfully(
            DisplayView::initial(),
            polls,
            matches_in(play(start, calls).events),
        ),
        polling(DisplayView::initial(), polls).want == Want::Leave,
    ensures
        paths_shown(polling(DisplayView::initial(), polls).shown) == matches_in(
            play(start, calls).events,
        ),
        polling(DisplayView::initial(), polls).next.found_count == play(
            start,
            calls,
        ).next.matches,
{
    display_that_leaves_has_shown_every_match(
        DisplayView::initial(),
        polls,
        matches_in(play(start, calls).events),
    );
    match_stream_is_the_hits(start, calls);
}

} // verus!
