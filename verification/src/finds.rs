//! What a search finds: the match stream of a run, entry by entry.

use vstd::prelude::*;
use crate::events::EventView;
use crate::events::WalkItemView;
use crate::matchers::EntryMatcher;
use crate::matchers::EntryView;
use crate::matchers::Matcher;
use crate::model::Phase;
use crate::model::Policy;
use crate::model::RunView;
use crate::runs::play;
use crate::runs::play_of_one;
use crate::runs::play_on_end;
use crate::runs::run_keeps_wf;
use crate::runs::walk_counts_up_to_cap;
use crate::runs::walk_in_time;
use crate::runs::walk_in_time_holds_of_front;
use crate::runs::Call;

verus! {

/// The entries that a walk hands over and the type filter lets pass, in the
/// order of the walk.
pub open spec fn kept_of_walk(walk: Seq<Call>, policy: Policy) -> Seq<EntryView>
    decreases walk.len(),
{
    if walk.len() == 0 {
        Seq::empty()
    } else {
        let before = kept_of_walk(walk.drop_last(), policy);
        match walk.last() {
            Call::Collect(_, WalkItemView::Entry(entry)) => if entry.passes(
                policy.files_only,
                policy.dirs_only,
            ) {
                before.push(entry)
            } else {
                before
            },
            _ => before,
        }
    }
}

/// The paths of those of `entries` that the matcher accepts, in their order.
pub open spec fn hits(entries: Seq<EntryView>, matcher: Matcher, full_path: bool) -> Seq<Seq<char>>
    decreases entries.len(),
{
    if entries.len() == 0 {
        Seq::empty()
    } else {
        let before = hits(entries.drop_last(), matcher, full_path);
        if matcher.accepts(entries.last().match_text(full_path)) {
            before.push(entries.last().path)
        } else {
            before
        }
    }
}

/// The match stream of a log: its matched paths, in order.
pub open spec fn matches_in(log: Seq<EventView>) -> Seq<Seq<char>>
    decreases log.len(),
{
    if log.len() == 0 {
        Seq::empty()
    } else {
        let before = matches_in(log.drop_last());
        match log.last() {
            EventView::Match(path) => before.push(path),
            _ => before,
        }
    }
}

/// Whether every call of `calls` asks for one retained entry to be held
/// against the pattern, before the timeout of `run` ran out.
pub open spec fn filters_in_time(run: RunView, calls: Seq<Call>) -> bool {
    forall|i: int|
        0 <= i < calls.len() ==> (#[trigger] calls[i]) is Filter && !run.policy.expired(
            calls[i]->Filter_0,
        )
}

/// The match stream of two logs on end is their match streams on end.
pub proof fn matches_in_joined(head: Seq<EventView>, tail: Seq<EventView>)
    ensures
        matches_in(head + tail) == matches_in(head) + matches_in(tail),
    decreases tail.len(),
{
    if tail.len() == 0 {
        assert(head + tail =~= head);
        assert(matches_in(head) + matches_in(tail) =~= matches_in(head));
    } else {
        assert((head + tail).drop_last() =~= head + tail.drop_last());
        assert((head + tail).last() == tail.last());
        matches_in_joined(head, tail.drop_last());
        match tail.last() {
            EventView::Match(path) => {
                assert((matches_in(head) + matches_in(tail.drop_last())).push(path)
                    =~= matches_in(head) + matches_in(tail.drop_last()).push(path));
            },
            _ => {},
        }
    }
}

/// A step emits a match exactly when it holds an entry against the pattern
/// and the matcher accepts it: the match stream of a step is the hit, if
/// any, on the entry that the step moved past.
pub proof fn step_matches_are_its_hit(run: RunView, call: Call)
    requires
        run.wf(),
    ensures
        matches_in(run.apply(call).events) == hits(
            run.apply(call).next.retained.subrange(
                run.cursor as int,
                run.apply(call).next.cursor as int,
            ),
            run.matcher,
            run.policy.full_path,
        ),
        run.apply(call).next.matches == run.matches + matches_in(run.apply(call).events).len(),
        run.cursor <= run.apply(call).next.cursor <= run.apply(call).next.retained.len(),
        run.apply(call).next.retained.take(run.cursor as int) == run.retained.take(
            run.cursor as int,
        ),
{
    let step = run.apply(call);
    let log = step.events;
    let moved = step.next.retained.subrange(run.cursor as int, step.next.cursor as int);
    assert(step.next.retained.take(run.cursor as int) =~= run.retained.take(run.cursor as int));
    if step.next.cursor == run.cursor {
        assert(moved =~= Seq::<EntryView>::empty());
        if log.len() > 0 {
            reveal_with_fuel(matches_in, 4);
            assert(!(log.last() is Match));
            if log.len() == 1 {
                assert(log.drop_last() =~= Seq::<EventView>::empty());
            } else if log.len() == 2 {
                assert(log.drop_last().drop_last() =~= Seq::<EventView>::empty());
            } else {
                assert(log.len() == 3);
                assert(log.drop_last().drop_last().drop_last() =~= Seq::<EventView>::empty());
            }
        }
    } else {
        let entry = run.retained[run.cursor as int];
        assert(moved =~= seq![entry]);
        assert(moved.drop_last() =~= Seq::<EntryView>::empty());
        assert(moved.last() == entry);
        reveal_with_fuel(hits, 2);
        reveal_with_fuel(matches_in, 3);
        if log.len() == 1 {
            assert(log.drop_last() =~= Seq::<EventView>::empty());
        } else if log.len() == 2 {
            assert(log.drop_last() =~= seq![log[0]]);
            assert(log.drop_last().drop_last() =~= Seq::<EventView>::empty());
        }
    }
}

/// The hits on two runs of entries on end are their hits on end.
pub proof fn hits_joined(
    head: Seq<EntryView>,
    tail: Seq<EntryView>,
    matcher: Matcher,
    full_path: bool,
)
    ensures
        hits(head + tail, matcher, full_path) == hits(head, matcher, full_path) + hits(
            tail,
            matcher,
            full_path,
        ),
    decreases tail.len(),
{
    if tail.len() == 0 {
        assert(head + tail =~= head);
        assert(hits(head, matcher, full_path) + hits(tail, matcher, full_path) =~= hits(
            head,
            matcher,
            full_path,
        ));
    } else {
        assert((head + tail).drop_last() =~= head + tail.drop_last());
        assert((head + tail).last() == tail.last());
        hits_joined(head, tail.drop_last(), matcher, full_path);
        if matcher.accepts(tail.last().match_text(full_path)) {
            assert((hits(head, matcher, full_path) + hits(
                tail.drop_last(),
                matcher,
                full_path,
            )).push(tail.last().path) =~= hits(head, matcher, full_path) + hits(
                tail.drop_last(),
                matcher,
                full_path,
            ).push(tail.last().path));
        }
    }
}

/// In every run, the match stream is the hits on the retained entries that
/// the run has held against the pattern so far, in the order in which the
/// walk yielded them, and the tally of matches counts them.
pub proof fn match_stream_is_the_hits(start: RunView, calls: Seq<Call>)
    requires
        start.wf(),
        start.cursor == 0,
        start.matches == 0,
    ensures
        matches_in(play(start, calls).events) == hits(
            play(start, calls).next.retained.take(play(start, calls).next.cursor as int),
            start.matcher,
            start.policy.full_path,
        ),
        play(start, calls).next.matches == matches_in(play(start, calls).events).len(),
    decreases calls.len(),
{
    if calls.len() == 0 {
        assert(start.retained.take(0) =~= Seq::<EntryView>::empty());
    } else {
        match_stream_is_the_hits(start, calls.drop_last());
        run_keeps_wf(start, calls.drop_last());
        let before = play(start, calls.drop_last());
        let last = before.next.apply(calls.last());
        step_matches_are_its_hit(before.next, calls.last());
        matches_in_joined(before.events, last.events);
        let held = last.next.retained.take(before.next.cursor as int);
        let moved = last.next.retained.subrange(
            before.next.cursor as int,
            last.next.cursor as int,
        );
        assert(last.next.retained.take(last.next.cursor as int) =~= held + moved);
        hits_joined(held, moved, start.matcher, start.policy.full_path);
    }
}

/// A walk that neither the timeout nor the cap cuts short retains exactly
/// the entries that pass the type filter, in the order of the walk.
pub proof fn walk_retains_what_passes(start: RunView, walk: Seq<Call>)
    requires
        start.wf(),
        start.collecting(),
        start.files_scanned == 0,
        start.retained == Seq::<EntryView>::empty(),
        walk_in_time(start, walk),
        start.policy.max_files == 0 || walk.len() < start.policy.max_files,
    ensures
        play(start, walk).next.retained == kept_of_walk(walk, start.policy),
        play(start, walk).next.collecting(),
        play(start, walk).next.files_scanned == walk.len(),
    decreases walk.len(),
{
    if walk.len() > 0 {
        walk_in_time_holds_of_front(start, walk);
        walk_retains_what_passes(start, walk.drop_last());
        run_keeps_wf(start, walk.drop_last());
        assert(walk.last() == walk[walk.len() - 1]);
    }
}

/// While neither bound has tripped, holding retained entries against the
/// pattern moves through them one by one, and stops at the last.
pub proof fn filtering_moves_through_retained(run: RunView, filters: Seq<Call>)
    requires
        run.wf(),
        run.phase == Phase::Filtering,
        !run.stopped(),
        filters_in_time(run, filters),
    ensures
        play(run, filters).next.phase == Phase::Filtering,
        !play(run, filters).next.stopped(),
        play(run, filters).next.retained == run.retained,
        play(run, filters).next.files_scanned == run.files_scanned,
        play(run, filters).next.cursor == if run.cursor + filters.len() <= run.retained.len() {
            run.cursor + filters.len()
        } else {
            run.retained.len()
        },
    decreases filters.len(),
{
    if filters.len() > 0 {
        assert(filters_in_time(run, filters.drop_last())) by {
            assert forall|i: int| 0 <= i < filters.drop_last().len() implies (
            #[trigger] filters.drop_last()[i]) is Filter && !run.policy.expired(
                filters.drop_last()[i]->Filter_0,
            ) by {
                assert(filters.drop_last()[i] == filters[i]);
            }
        }
        filtering_moves_through_retained(run, filters.drop_last());
        run_keeps_wf(run, filters.drop_last());
        assert(filters.last() == filters[filters.len() - 1]);
    }
}

/// A search that runs to its end within its bounds finds exactly the entries
/// of the walk that pass the type filter and that the pattern matches, and
/// emits their paths in the order of the walk.
///
/// The walk hands over fewer items than the cap, no clock reading is beyond
/// the timeout, and after the walk each retained entry is held against the
/// pattern.
pub proof fn search_finds_what_matches(start: RunView, walk: Seq<Call>, filters: Seq<Call>)
    requires
        start == RunView::fresh(start.policy, start.matcher),
        walk_in_time(start, walk),
        start.policy.max_files == 0 || walk.len() < start.policy.max_files,
        filters_in_time(start, filters),
        filters.len() >= kept_of_walk(walk, start.policy).len(),
    ensures
        matches_in(play(start, walk + seq![Call::EndCollecting] + filters + seq![Call::Finish]).events)
            == hits(kept_of_walk(walk, start.policy), start.matcher, start.policy.full_path),
        play(start, walk + seq![Call::EndCollecting] + filters + seq![Call::Finish]).next.matches
            == hits(kept_of_walk(walk, start.policy), start.matcher, start.policy.full_path).len(),
        play(
            start,
            walk + seq![Call::EndCollecting] + filters + seq![Call::Finish],
        ).next.files_scanned == walk.len(),
        !play(start, walk + seq![Call::EndCollecting] + filters + seq![Call::Finish]).next.stopped(),
        play(start, walk + seq![Call::EndCollecting] + filters + seq![Call::Finish]).next.phase
            == Phase::Done,
{
    let kept = kept_of_walk(walk, start.policy);
    let closing = seq![Call::EndCollecting];
    let ending = seq![Call::Finish];
    walk_counts_up_to_cap(start, walk);
    walk_retains_what_passes(start, walk);
    run_keeps_wf(start, walk);
    let walked = play(start, walk).next;
    play_of_one(walked, Call::EndCollecting);
    let closed = play(walked, closing).next;
    run_keeps_wf(walked, closing);
    filtering_moves_through_retained(closed, filters);
    run_keeps_wf(closed, filters);
    let filtered = play(closed, filters).next;
    play_of_one(filtered, Call::Finish);
    let ended = play(filtered, ending).next;
    play_on_end(start, walk, closing);
    play_on_end(start, walk + closing, filters);
    play_on_end(start, walk + closing + filters, ending);
    match_stream_is_the_hits(start, walk + closing + filters + ending);
    assert(ended.retained.take(ended.cursor as int) =~= kept);
}

} // verus!
