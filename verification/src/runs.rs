//! Whole runs of the traversal worker: any sequence of steps from the state a
//! search begins in, and what holds of all of them.

use vstd::prelude::*;
use crate::events::Elapsed;
use crate::events::EventView;
use crate::events::StatusView;
use crate::events::WalkItemView;
use crate::model::InputView;
use crate::model::Phase;
use crate::model::RunView;
use crate::model::Step;

verus! {

/// One step that a caller asks of the worker.
pub enum Call {
    /// An item of the walk, seen at the given time.
    Collect(Elapsed, WalkItemView),
    /// The walk is over.
    EndCollecting,
    /// Hold the next retained entry against the pattern, at the given time.
    Filter(Elapsed),
    /// Finish.
    Finish,
}

impl Call {
    /// Whether the call hands the worker an item of the walk.
    pub open spec fn is_collect(self) -> bool {
        self is Collect
    }

    /// The clock reading that the call carries, if it carries one.
    pub open spec fn reading(self) -> Option<Elapsed> {
        match self {
            Call::Collect(elapsed, _) => Some(elapsed),
            Call::Filter(elapsed) => Some(elapsed),
            _ => None,
        }
    }

    /// Whether two calls ask the same of the worker, their clock readings
    /// aside.
    pub open spec fn same_but_clock(self, other: Call) -> bool {
        match (self, other) {
            (Call::Collect(_, a), Call::Collect(_, b)) => a == b,
            (Call::EndCollecting, Call::EndCollecting) => true,
            (Call::Filter(_), Call::Filter(_)) => true,
            (Call::Finish, Call::Finish) => true,
            _ => false,
        }
    }
}

impl RunView {
    /// The step that `call` asks for.
    pub open spec fn apply(self, call: Call) -> Step {
        match call {
            Call::Collect(elapsed, item) => self.collect(elapsed, item),
            Call::EndCollecting => self.end_collecting(),
            Call::Filter(elapsed) => self.filter(elapsed),
            Call::Finish => self.finish(),
        }
    }
}

/// The state after `calls`, one after the other, and all that they emitted,
/// in order.
pub open spec fn play(start: RunView, calls: Seq<Call>) -> Step
    decreases calls.len(),
{
    if calls.len() == 0 {
        Step { next: start, events: Seq::empty() }
    } else {
        let before = play(start, calls.drop_last());
        let last = before.next.apply(calls.last());
        Step { next: last.next, events: before.events + last.events }
    }
}

/// What the caller hands the worker in one turn, and when.
pub struct Turn {
    pub elapsed: Elapsed,
    pub input: InputView,
}

/// The steps that one turn of driving asks of the worker.
pub open spec fn turn_calls(run: RunView, turn: Turn) -> Seq<Call> {
    match run.phase {
        Phase::Collecting => {
            if run.stopped() {
                seq![Call::EndCollecting]
            } else {
                match turn.input {
                    InputView::Item(item) => {
                        if run.collect(turn.elapsed, item).next.stopped() {
                            seq![Call::Collect(turn.elapsed, item), Call::EndCollecting]
                        } else {
                            seq![Call::Collect(turn.elapsed, item)]
                        }
                    },
                    InputView::WalkEnded => seq![Call::EndCollecting],
                    InputView::Tick => Seq::empty(),
                }
            }
        },
        Phase::Filtering => {
            if run.filtering() {
                seq![Call::Filter(turn.elapsed)]
            } else {
                seq![Call::Finish]
            }
        },
        Phase::Done => Seq::empty(),
    }
}

/// The state after the worker was driven through `turns`, and all that it
/// emitted, in order.
pub open spec fn drive(start: RunView, turns: Seq<Turn>) -> Step
    decreases turns.len(),
{
    if turns.len() == 0 {
        Step { next: start, events: Seq::empty() }
    } else {
        let before = drive(start, turns.drop_last());
        let last = before.next.advance(turns.last().elapsed, turns.last().input);
        Step { next: last.next, events: before.events + last.events }
    }
}

/// The steps that driving the worker through `turns` asks of it.
pub open spec fn driven_calls(start: RunView, turns: Seq<Turn>) -> Seq<Call>
    decreases turns.len(),
{
    if turns.len() == 0 {
        Seq::empty()
    } else {
        driven_calls(start, turns.drop_last()) + turn_calls(
            drive(start, turns.drop_last()).next,
            turns.last(),
        )
    }
}

/// Whether the event is the one that ends the status stream.
pub open spec fn is_done(event: EventView) -> bool {
    event == EventView::Status(StatusView::Done)
}

/// Whether `Done` is nowhere in the log.
pub open spec fn unended(log: Seq<EventView>) -> bool {
    forall|i: int| 0 <= i < log.len() ==> !is_done(#[trigger] log[i])
}

/// Whether `Done` is in the log once, as its last event.
pub open spec fn ended(log: Seq<EventView>) -> bool {
    &&& log.len() > 0
    &&& is_done(log.last())
    &&& unended(log.drop_last())
}

/// Whether the event reports that the timeout ran out.
pub open spec fn is_timeout(event: EventView) -> bool {
    event matches EventView::Status(StatusView::Timeout(_))
}

/// Whether the event reports that the cap was reached.
pub open spec fn is_limit(event: EventView) -> bool {
    event matches EventView::Status(StatusView::LimitReached(_))
}

/// Whether the log reports that the timeout ran out.
pub open spec fn tells_timeout(log: Seq<EventView>) -> bool {
    exists|i: int| 0 <= i < log.len() && is_timeout(#[trigger] log[i])
}

/// Whether the log reports that the cap was reached.
pub open spec fn tells_limit(log: Seq<EventView>) -> bool {
    exists|i: int| 0 <= i < log.len() && is_limit(#[trigger] log[i])
}

/// Whether every count report in the log names a count of at most `most`
/// and the cap `cap`.
pub open spec fn counts_within(log: Seq<EventView>, most: nat, cap: nat) -> bool {
    forall|i: int|
        0 <= i < log.len() ==> ((#[trigger] log[i]) matches EventView::Status(
            StatusView::FileCount(scanned, named),
        ) ==> scanned <= most && named == cap)
}

/// Whether every call of `calls` hands over an item of the walk, seen before
/// the timeout of `run` ran out.
pub open spec fn walk_in_time(run: RunView, calls: Seq<Call>) -> bool {
    forall|i: int|
        0 <= i < calls.len() ==> (#[trigger] calls[i]).is_collect() && !run.policy.expired(
            calls[i]->Collect_0,
        )
}

/// Whether no call of `calls` hands over an item of the walk.
pub open spec fn no_collect(calls: Seq<Call>) -> bool {
    forall|i: int| 0 <= i < calls.len() ==> !(#[trigger] calls[i]).is_collect()
}

/// Whether no clock reading in `calls` is later than `finished`.
pub open spec fn readings_up_to(calls: Seq<Call>, finished: Elapsed) -> bool {
    forall|i: int|
        0 <= i < calls.len() ==> ((#[trigger] calls[i]).reading() matches Some(elapsed)
            ==> elapsed.nanos <= finished.nanos)
}

/// Whether no clock reading in `calls` is beyond the timeout of `run`.
pub open spec fn readings_in_time(run: RunView, calls: Seq<Call>) -> bool {
    forall|i: int|
        0 <= i < calls.len() ==> ((#[trigger] calls[i]).reading() matches Some(elapsed)
            ==> !run.policy.expired(elapsed))
}

/// Whether two sequences of calls ask the same of the worker, their clock
/// readings aside.
pub open spec fn same_calls_but_clock(a: Seq<Call>, b: Seq<Call>) -> bool {
    &&& a.len() == b.len()
    &&& forall|i: int| 0 <= i < a.len() ==> (#[trigger] a[i]).same_but_clock(b[i])
}

/// What holds of every call of a walk holds of the walk without its last
/// call.
pub proof fn walk_in_time_holds_of_front(run: RunView, walk: Seq<Call>)
    requires
        walk_in_time(run, walk),
        walk.len() > 0,
    ensures
        walk_in_time(run, walk.drop_last()),
{
    let front = walk.drop_last();
    assert forall|i: int| 0 <= i < front.len() implies (#[trigger] front[i]).is_collect()
        && !run.policy.expired(front[i]->Collect_0) by {
        assert(front[i] == walk[i]);
    }
}

/// Calls of which none hands over an item stay so without the last.
pub proof fn no_collect_holds_of_front(calls: Seq<Call>)
    requires
        no_collect(calls),
        calls.len() > 0,
    ensures
        no_collect(calls.drop_last()),
{
    let front = calls.drop_last();
    assert forall|i: int| 0 <= i < front.len() implies !(#[trigger] front[i]).is_collect() by {
        assert(front[i] == calls[i]);
    }
}

/// Readings of which none is later than `finished` stay so without the last.
pub proof fn readings_up_to_holds_of_front(calls: Seq<Call>, finished: Elapsed)
    requires
        readings_up_to(calls, finished),
        calls.len() > 0,
    ensures
        readings_up_to(calls.drop_last(), finished),
{
    let front = calls.drop_last();
    assert forall|i: int| 0 <= i < front.len() implies ((
    #[trigger] front[i]).reading() matches Some(elapsed) ==> elapsed.nanos <= finished.nanos) by {
        assert(front[i] == calls[i]);
    }
}

/// Readings of which none is beyond the timeout stay so without the last.
pub proof fn readings_in_time_hold_of_front(run: RunView, calls: Seq<Call>)
    requires
        readings_in_time(run, calls),
        calls.len() > 0,
    ensures
        readings_in_time(run, calls.drop_last()),
{
    let front = calls.drop_last();
    assert forall|i: int| 0 <= i < front.len() implies ((
    #[trigger] front[i]).reading() matches Some(elapsed) ==> !run.policy.expired(elapsed)) by {
        assert(front[i] == calls[i]);
    }
}

/// Two sequences of calls that ask the same, their clocks aside, still do
/// without their last calls.
pub proof fn same_calls_hold_of_front(a: Seq<Call>, b: Seq<Call>)
    requires
        same_calls_but_clock(a, b),
        a.len() > 0,
    ensures
        same_calls_but_clock(a.drop_last(), b.drop_last()),
{
    let a0 = a.drop_last();
    let b0 = b.drop_last();
    assert forall|i: int| 0 <= i < a0.len() implies (#[trigger] a0[i]).same_but_clock(b0[i]) by {
        assert(a0[i] == a[i]);
        assert(b0[i] == b[i]);
    }
}

/// How far a phase is on the way from collecting to done.
pub open spec fn progress(phase: Phase) -> nat {
    match phase {
        Phase::Collecting => 0,
        Phase::Filtering => 1,
        Phase::Done => 2,
    }
}

/// No step takes the worker back to an earlier phase, and no step undoes a
/// bound that has tripped or a count that was reached.
pub proof fn steps_only_go_forward(run: RunView, call: Call)
    ensures
        progress(run.phase) <= progress(run.apply(call).next.phase),
        run.limit_reached ==> run.apply(call).next.limit_reached,
        run.timed_out ==> run.apply(call).next.timed_out,
        run.files_scanned <= run.apply(call).next.files_scanned,
        run.permission_errors <= run.apply(call).next.permission_errors,
        run.matches <= run.apply(call).next.matches,
        run.cursor <= run.apply(call).next.cursor,
        run.retained.len() <= run.apply(call).next.retained.len(),
{
}

/// Every step keeps what holds of every state, and leaves the policy and the
/// matcher as they are.
pub proof fn step_keeps_wf(run: RunView, call: Call)
    requires
        run.wf(),
    ensures
        run.apply(call).next.wf(),
        run.apply(call).next.policy == run.policy,
        run.apply(call).next.matcher == run.matcher,
{
}

/// Whatever the caller asks, in whatever order: the state stays well formed.
/// So the two bounds never both trip in one run, and under a cap no more
/// entries are scanned than the cap allows.
pub proof fn run_keeps_wf(start: RunView, calls: Seq<Call>)
    requires
        start.wf(),
    ensures
        play(start, calls).next.wf(),
        play(start, calls).next.policy == start.policy,
        play(start, calls).next.matcher == start.matcher,
        !(play(start, calls).next.limit_reached && play(start, calls).next.timed_out),
        start.policy.max_files > 0 ==> play(start, calls).next.files_scanned
            <= start.policy.max_files,
    decreases calls.len(),
{
    if calls.len() > 0 {
        run_keeps_wf(start, calls.drop_last());
        step_keeps_wf(play(start, calls.drop_last()).next, calls.last());
    }
}

/// Playing a single call is taking its step.
pub proof fn play_of_one(run: RunView, call: Call)
    ensures
        play(run, seq![call]).next == run.apply(call).next,
        play(run, seq![call]).events == run.apply(call).events,
{
    let calls = seq![call];
    assert(calls.drop_last() =~= Seq::<Call>::empty());
    assert(calls.last() == call);
    assert(play(run, calls.drop_last()).events + run.apply(call).events =~= run.apply(
        call,
    ).events);
}

/// Playing one sequence of calls and then another is playing the two on end.
pub proof fn play_on_end(start: RunView, first: Seq<Call>, second: Seq<Call>)
    ensures
        play(start, first + second).next == play(play(start, first).next, second).next,
        play(start, first + second).events == play(start, first).events + play(
            play(start, first).next,
            second,
        ).events,
    decreases second.len(),
{
    if second.len() == 0 {
        assert(first + second =~= first);
        assert(play(start, first).events + Seq::<EventView>::empty() =~= play(
            start,
            first,
        ).events);
    } else {
        assert((first + second).drop_last() =~= first + second.drop_last());
        assert((first + second).last() == second.last());
        play_on_end(start, first, second.drop_last());
        let mid = play(start, first);
        let head = play(mid.next, second.drop_last());
        let last = head.next.apply(second.last());
        assert(mid.events + (head.events + last.events) =~= (mid.events + head.events)
            + last.events);
    }
}

/// One turn of driving is a run of one or two steps, or of none.
pub proof fn turn_is_a_run(run: RunView, turn: Turn)
    ensures
        play(run, turn_calls(run, turn)).next == run.advance(turn.elapsed, turn.input).next,
        play(run, turn_calls(run, turn)).events == run.advance(turn.elapsed, turn.input).events,
{
    let calls = turn_calls(run, turn);
    if calls.len() == 1 {
        assert(calls.drop_last() =~= Seq::<Call>::empty());
        assert(play(run, calls.drop_last()).events + run.apply(calls[0]).events
            =~= run.apply(calls[0]).events);
    } else if calls.len() == 2 {
        let first = seq![calls[0]];
        assert(calls.drop_last() =~= first);
        assert(first.drop_last() =~= Seq::<Call>::empty());
        assert(play(run, first.drop_last()).events + run.apply(calls[0]).events
            =~= run.apply(calls[0]).events);
    }
}

/// A search that is driven turn by turn is a run: the steps it takes are
/// `driven_calls`, and what holds of every run holds of it.
pub proof fn driving_is_a_run(start: RunView, turns: Seq<Turn>)
    ensures
        drive(start, turns) == play(start, driven_calls(start, turns)),
    decreases turns.len(),
{
    if turns.len() > 0 {
        driving_is_a_run(start, turns.drop_last());
        let before = drive(start, turns.drop_last());
        turn_is_a_run(before.next, turns.last());
        play_on_end(
            start,
            driven_calls(start, turns.drop_last()),
            turn_calls(before.next, turns.last()),
        );
    }
}

/// In every run, `Done` goes out at most once and nothing follows it: the
/// worker's log ends in `Done` if the worker has finished, and holds no
/// `Done` if it has not.
pub proof fn done_ends_the_log(start: RunView, calls: Seq<Call>)
    requires
        start.phase != Phase::Done,
    ensures
        play(start, calls).next.phase == Phase::Done ==> ended(play(start, calls).events),
        play(start, calls).next.phase != Phase::Done ==> unended(play(start, calls).events),
    decreases calls.len(),
{
    if calls.len() > 0 {
        done_ends_the_log(start, calls.drop_last());
        let before = play(start, calls.drop_last());
        let last = before.next.apply(calls.last());
        let log = before.events + last.events;
        if before.next.phase == Phase::Done {
            assert(last.events =~= Seq::empty());
            assert(log =~= before.events);
        } else if last.next.phase == Phase::Done {
            assert(calls.last() is Finish);
            assert(last.events =~= seq![EventView::Status(StatusView::Done)]);
            assert(log.drop_last() =~= before.events);
        } else {
            assert(unended(last.events));
            assert(unended(log));
        }
    }
}

/// Every match in the log of a finished run stands before the `Done` that
/// ends it.
pub proof fn matches_precede_done(start: RunView, calls: Seq<Call>, i: int)
    requires
        start.phase != Phase::Done,
        play(start, calls).next.phase == Phase::Done,
        0 <= i < play(start, calls).events.len(),
        play(start, calls).events[i] is Match,
    ensures
        i < play(start, calls).events.len() - 1,
        is_done(play(start, calls).events.last()),
{
    done_ends_the_log(start, calls);
}

/// A walk that is not cut short by the timeout: after `k` items the worker
/// has scanned `k` entries, or as many as the cap allows if that is fewer,
/// and the cap has tripped exactly if the walk yielded that many.
pub proof fn walk_counts_up_to_cap(start: RunView, walk: Seq<Call>)
    requires
        start.wf(),
        start.collecting(),
        start.files_scanned == 0,
        walk_in_time(start, walk),
    ensures
        play(start, walk).next.phase == Phase::Collecting,
        !play(start, walk).next.timed_out,
        play(start, walk).next.limit_reached <==> start.policy.max_files > 0 && walk.len()
            >= start.policy.max_files,
        play(start, walk).next.files_scanned == if start.policy.max_files > 0 && walk.len()
            >= start.policy.max_files {
            start.policy.max_files
        } else {
            walk.len()
        },
    decreases walk.len(),
{
    if walk.len() > 0 {
        walk_in_time_holds_of_front(start, walk);
        walk_counts_up_to_cap(start, walk.drop_last());
        run_keeps_wf(start, walk.drop_last());
        assert(walk.last() == walk[walk.len() - 1]);
    }
}

/// What follows the walk leaves the counts of the walk alone.
pub proof fn later_steps_keep_counts(run: RunView, rest: Seq<Call>)
    requires
        no_collect(rest),
    ensures
        play(run, rest).next.files_scanned == run.files_scanned,
        play(run, rest).next.permission_errors == run.permission_errors,
        play(run, rest).next.limit_reached == run.limit_reached,
        play(run, rest).next.retained == run.retained,
    decreases rest.len(),
{
    if rest.len() > 0 {
        no_collect_holds_of_front(rest);
        later_steps_keep_counts(run, rest.drop_last());
        assert(rest.last() == rest[rest.len() - 1]);
    }
}

/// A search with a cap of `n` entries, whose walk is not cut short by the
/// timeout: whatever follows the walk, the final count is at most `n`, and
/// the cap has tripped exactly if the walk yielded at least `n` items.
pub proof fn cap_trips_iff_walk_reaches_it(start: RunView, walk: Seq<Call>, rest: Seq<Call>)
    requires
        start.wf(),
        start.collecting(),
        start.files_scanned == 0,
        start.policy.max_files > 0,
        walk_in_time(start, walk),
        no_collect(rest),
    ensures
        play(start, walk + rest).next.files_scanned <= start.policy.max_files,
        play(start, walk + rest).next.limit_reached <==> walk.len() >= start.policy.max_files,
{
    walk_counts_up_to_cap(start, walk);
    play_on_end(start, walk, rest);
    later_steps_keep_counts(play(start, walk).next, rest);
}

/// A run is marked as timed out only when a clock reading was beyond the
/// timeout. So where no reading is later than the time at which the run is
/// finished, a run that timed out finished beyond its timeout.
pub proof fn timed_out_run_finished_late(start: RunView, calls: Seq<Call>, finished: Elapsed)
    requires
        start.wf(),
        !start.timed_out,
        readings_up_to(calls, finished),
    ensures
        play(start, calls).next.timed_out ==> start.policy.expired(finished),
    decreases calls.len(),
{
    if calls.len() > 0 {
        readings_up_to_holds_of_front(calls, finished);
        timed_out_run_finished_late(start, calls.drop_last(), finished);
        run_keeps_wf(start, calls.drop_last());
        assert(calls.last() == calls[calls.len() - 1]);
    }
}

/// Once the timeout has run out, the next item of the walk stops the
/// collecting, and the next retained entry is not held against the pattern:
/// the run is marked as timed out.
pub proof fn expired_clock_stops_the_run(run: RunView, elapsed: Elapsed, item: WalkItemView)
    requires
        run.policy.expired(elapsed),
    ensures
        run.collecting() ==> run.collect(elapsed, item).next.timed_out && run.collect(
            elapsed,
            item,
        ).next.files_scanned == run.files_scanned,
        run.filtering() ==> run.filter(elapsed).next.timed_out && run.filter(elapsed).next.matches
            == run.matches,
{
}

/// Once a bound has tripped, nothing more is scanned, retained or matched:
/// what follows moves the worker on to its end and changes nothing else.
pub proof fn tripped_bound_ends_the_work(run: RunView, calls: Seq<Call>)
    requires
        run.stopped(),
    ensures
        play(run, calls).next.files_scanned == run.files_scanned,
        play(run, calls).next.permission_errors == run.permission_errors,
        play(run, calls).next.retained == run.retained,
        play(run, calls).next.cursor == run.cursor,
        play(run, calls).next.matches == run.matches,
        play(run, calls).next.limit_reached == run.limit_reached,
        play(run, calls).next.timed_out == run.timed_out,
        forall|i: int|
            0 <= i < play(run, calls).events.len() ==> !(#[trigger] play(run, calls).events[i]
                is Match),
    decreases calls.len(),
{
    if calls.len() > 0 {
        tripped_bound_ends_the_work(run, calls.drop_last());
        let before = play(run, calls.drop_last());
        let last = before.next.apply(calls.last());
        let log = before.events + last.events;
        assert forall|i: int| 0 <= i < log.len() implies !(#[trigger] log[i] is Match) by {
            if i < before.events.len() {
                assert(log[i] == before.events[i]);
            } else {
                assert(log[i] == last.events[i - before.events.len()]);
            }
        }
    }
}

/// A walk that is too slow for the timeout: if the clock reads beyond the
/// timeout at an item that the walk hands over before the cap is reached,
/// the run is timed out, whatever follows, and has scanned only what came
/// before that item.
pub proof fn slow_walk_times_out(
    start: RunView,
    early: Seq<Call>,
    late: Elapsed,
    item: WalkItemView,
    rest: Seq<Call>,
)
    requires
        start.wf(),
        start.collecting(),
        start.files_scanned == 0,
        walk_in_time(start, early),
        start.policy.max_files == 0 || early.len() < start.policy.max_files,
        start.policy.expired(late),
    ensures
        play(start, early + seq![Call::Collect(late, item)] + rest).next.timed_out,
        !play(start, early + seq![Call::Collect(late, item)] + rest).next.limit_reached,
        play(start, early + seq![Call::Collect(late, item)] + rest).next.files_scanned
            == early.len(),
{
    walk_counts_up_to_cap(start, early);
    run_keeps_wf(start, early);
    let walked = play(start, early).next;
    play_of_one(walked, Call::Collect(late, item));
    let tripped = play(walked, seq![Call::Collect(late, item)]).next;
    tripped_bound_ends_the_work(tripped, rest);
    play_on_end(start, early, seq![Call::Collect(late, item)]);
    play_on_end(start, early + seq![Call::Collect(late, item)], rest);
}

/// Two runs of one search over the same walk emit the same, event for event,
/// and end in the same state, whatever their clocks read, as long as neither
/// runs into the timeout.
pub proof fn runs_agree_whatever_the_clock(start: RunView, a: Seq<Call>, b: Seq<Call>)
    requires
        same_calls_but_clock(a, b),
        readings_in_time(start, a),
        readings_in_time(start, b),
    ensures
        play(start, a) == play(start, b),
    decreases a.len(),
{
    if a.len() > 0 {
        let a0 = a.drop_last();
        let b0 = b.drop_last();
        same_calls_hold_of_front(a, b);
        readings_in_time_hold_of_front(start, a);
        readings_in_time_hold_of_front(start, b);
        runs_agree_whatever_the_clock(start, a0, b0);
        run_keeps_policy(start, a0);
        assert(a.last() == a[a.len() - 1]);
        assert(b.last() == b[b.len() - 1]);
        assert(a.last().same_but_clock(b.last()));
    }
}

/// No step changes the policy of a run.
pub proof fn run_keeps_policy(start: RunView, calls: Seq<Call>)
    ensures
        play(start, calls).next.policy == start.policy,
        play(start, calls).next.matcher == start.matcher,
    decreases calls.len(),
{
    if calls.len() > 0 {
        run_keeps_policy(start, calls.drop_last());
    }
}

/// What one step emits tells of the bounds as the step trips them: the cap
/// is reported exactly by the step that reaches it, the timeout exactly by
/// the step that runs into it, and counts are reported as they stand.
pub proof fn step_tells_of_bounds(run: RunView, call: Call)
    requires
        run.wf(),
    ensures
        tells_limit(run.apply(call).events) <==> !run.limit_reached && run.apply(
            call,
        ).next.limit_reached,
        tells_timeout(run.apply(call).events) <==> !run.timed_out && run.apply(
            call,
        ).next.timed_out,
        run.limit_reached ==> run.apply(call).next.limit_reached,
        run.timed_out ==> run.apply(call).next.timed_out,
        run.files_scanned <= run.apply(call).next.files_scanned,
        counts_within(
            run.apply(call).events,
            run.apply(call).next.files_scanned,
            run.policy.max_files,
        ),
{
    let step = run.apply(call);
    let log = step.events;
    if !run.limit_reached && step.next.limit_reached {
        assert(is_limit(log[0]));
    }
    if !run.timed_out && step.next.timed_out {
        assert(is_timeout(log[0]));
    }
}

/// The log of a run tells of the bounds that tripped in it: of the cap
/// exactly if it was reached, of the timeout exactly if it ran out, in
/// either phase, and so never of both. The counts that it reports are counts that the run has
/// reached, under the cap that the search was given.
pub proof fn log_tells_of_bounds(start: RunView, calls: Seq<Call>)
    requires
        start.wf(),
        !start.stopped(),
    ensures
        tells_limit(play(start, calls).events) <==> play(start, calls).next.limit_reached,
        tells_timeout(play(start, calls).events) <==> play(start, calls).next.timed_out,
        !(tells_limit(play(start, calls).events) && tells_timeout(play(start, calls).events)),
        start.files_scanned <= play(start, calls).next.files_scanned,
        counts_within(
            play(start, calls).events,
            play(start, calls).next.files_scanned,
            start.policy.max_files,
        ),
    decreases calls.len(),
{
    if calls.len() > 0 {
        log_tells_of_bounds(start, calls.drop_last());
        run_keeps_wf(start, calls.drop_last());
        run_keeps_wf(start, calls);
        let before = play(start, calls.drop_last());
        let last = before.next.apply(calls.last());
        let log = before.events + last.events;
        step_tells_of_bounds(before.next, calls.last());
        if tells_limit(before.events) {
            let i = choose|i: int| 0 <= i < before.events.len() && is_limit(before.events[i]);
            assert(is_limit(log[i]));
        }
        if tells_limit(last.events) {
            let i = choose|i: int| 0 <= i < last.events.len() && is_limit(last.events[i]);
            assert(is_limit(log[before.events.len() + i]));
        }
        if tells_timeout(before.events) {
            let i = choose|i: int| 0 <= i < before.events.len() && is_timeout(before.events[i]);
            assert(is_timeout(log[i]));
        }
        if tells_timeout(last.events) {
            let i = choose|i: int| 0 <= i < last.events.len() && is_timeout(last.events[i]);
            assert(is_timeout(log[before.events.len() + i]));
        }
        if tells_limit(log) {
            let i = choose|i: int| 0 <= i < log.len() && is_limit(log[i]);
            if i < before.events.len() {
                assert(is_limit(before.events[i]));
            } else {
                assert(is_limit(last.events[i - before.events.len()]));
            }
        }
        if tells_timeout(log) {
            let i = choose|i: int| 0 <= i < log.len() && is_timeout(log[i]);
            if i < before.events.len() {
                assert(is_timeout(before.events[i]));
            } else {
                assert(is_timeout(last.events[i - before.events.len()]));
            }
        }
        assert forall|i: int| 0 <= i < log.len() implies ((#[trigger] log[i]) matches EventView::Status(
            StatusView::FileCount(scanned, named),
        ) ==> scanned <= last.next.files_scanned && named == start.policy.max_files) by {
            if i < before.events.len() {
                assert(log[i] == before.events[i]);
            } else {
                assert(log[i] == last.events[i - before.events.len()]);
            }
        }
    }
}

} // verus!
