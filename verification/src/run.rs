//! Whole runs of the tail loop, and what holds of every one of them.
//!
//! A run is a start state and the events that the loop is handed, in
//! order. Nothing is asked of the events: what is stated here holds however
//! the loop is driven, also where an event answers nothing that the loop
//! had asked for.

use crate::error::TransportError;
use crate::options::{initial_offset_of, TailOptions};
use crate::tail::{Action, Event, Outcome, Phase, TailLoop};
use vstd::prelude::*;

verus! {

/// The loop after the first `k` of `events`.
pub open spec fn state_after(start: TailLoop, events: Seq<Event>, k: nat) -> TailLoop
    decreases k,
{
    if k == 0 {
        start
    } else {
        state_after(start, events, (k - 1) as nat).next(events[k - 1]).0
    }
}

/// What the loop asks for in answer to `events[k]`.
pub open spec fn action_at(start: TailLoop, events: Seq<Event>, k: int) -> Action {
    state_after(start, events, k as nat).next(events[k]).1
}

/// Whether the loop asks for a fetch in answer to `events[k]`.
pub open spec fn fetches_at(start: TailLoop, events: Seq<Event>, k: int) -> bool {
    action_at(start, events, k) is Fetch
}

/// Whether `later` may be asked for straight after `earlier`.
pub open spec fn may_follow(earlier: Action, later: Action) -> bool {
    later is Finish || match earlier {
        Action::ProbeRangeSupport => later is ProbeLength,
        Action::ProbeLength => later is Fetch || later is Sleep,
        Action::Fetch { .. } => later is Deliver,
        Action::Deliver(_) => later is Sleep,
        Action::Sleep(_) => later is ProbeLength,
        Action::Finish(_) => false,
    }
}

/// Whether no length probe among the first `n` of `events` reports less
/// than the loop knew before.
pub open spec fn never_shrinks(start: TailLoop, events: Seq<Event>, n: int) -> bool {
    forall|k: int|
        0 <= k < n ==> (#[trigger] events[k] matches Event::Length(Ok(length)) ==> length
            >= state_after(start, events, k as nat).resource.length)
}

/// What the loop knows and waits for when the last fetch it asked for was
/// that of `offset` up to `length`.
spec fn follows_fetch(state: TailLoop, offset: u64, length: u64) -> bool {
    match state.pending.phase_of() {
        Phase::Fetching => state.resource.offset == offset && state.resource.length == length,
        Phase::Polling => state.resource.offset == length,
        Phase::Terminated => true,
        _ => false,
    }
}

/// What the loop knows and waits for when it has asked for a fetch up to
/// `length` at some time.
spec fn is_past(state: TailLoop, length: u64) -> bool {
    match state.pending.phase_of() {
        Phase::Fetching => state.resource.length >= length,
        Phase::Polling => state.resource.offset >= length,
        Phase::Terminated => true,
        _ => false,
    }
}

/// What holds of a loop that began with `options`, has been handed the first
/// `k` of `events`, has asked for no fetch yet and has not ended.
spec fn before_first_fetch(
    state: TailLoop,
    options: TailOptions,
    events: Seq<Event>,
    k: int,
) -> bool {
    &&& state.options == options
    &&& k == 0 ==> state.pending is Start
    &&& k >= 1 ==> events[0] == Event::Started
    &&& k == 1 ==> state.pending is RangeSupport
    &&& k >= 2 ==> events[1] == Event::RangeSupport(Ok::<bool, TransportError>(true))
    &&& k == 2 ==> state.pending is InitialLength
    &&& k >= 3 ==> {
        &&& state.pending.phase_of() is Polling
        &&& events[2] matches Event::Length(Ok(length))
        &&& state.resource.offset == initial_offset_of(options, length)
    }
}

/// A loop that is well formed stays so, whatever it is handed.
pub proof fn lemma_run_keeps_wf(start: TailLoop, events: Seq<Event>, k: nat)
    requires
        start.wf(),
        k <= events.len(),
    ensures
        state_after(start, events, k).wf(),
    decreases k,
{
    if k > 0 {
        lemma_run_keeps_wf(start, events, (k - 1) as nat);
    }
}

/// The options and the pause between polls are the same all along a run.
pub proof fn lemma_settings_are_kept(start: TailLoop, events: Seq<Event>, k: nat)
    requires
        k <= events.len(),
    ensures
        state_after(start, events, k).options == start.options,
        state_after(start, events, k).poll_interval_ms == start.poll_interval_ms,
    decreases k,
{
    if k > 0 {
        lemma_settings_are_kept(start, events, (k - 1) as nat);
    }
}

/// Along a run of a well-formed loop the offset never goes back.
pub proof fn lemma_offset_never_goes_back(start: TailLoop, events: Seq<Event>, i: nat, j: nat)
    requires
        start.wf(),
        i <= j <= events.len(),
    ensures
        state_after(start, events, i).resource.offset <= state_after(
            start,
            events,
            j,
        ).resource.offset,
    decreases j,
{
    if i < j {
        lemma_offset_never_goes_back(start, events, i, (j - 1) as nat);
        lemma_run_keeps_wf(start, events, (j - 1) as nat);
    }
}

/// As long as no length probe reports less than the one before it, the
/// offset of a well-formed loop does not lie past the length.
pub proof fn lemma_offset_within_length_unless_resource_shrinks(
    start: TailLoop,
    events: Seq<Event>,
    k: nat,
)
    requires
        start.wf(),
        start.resource.offset <= start.resource.length,
        k <= events.len(),
        never_shrinks(start, events, k as int),
    ensures
        state_after(start, events, k).resource.offset <= state_after(
            start,
            events,
            k,
        ).resource.length,
    decreases k,
{
    if k > 0 {
        lemma_offset_within_length_unless_resource_shrinks(start, events, (k - 1) as nat);
        lemma_run_keeps_wf(start, events, (k - 1) as nat);
    }
}

/// A poll fetches what is new and nothing else: told the length after a
/// pause, the loop asks for all that lies past its offset, and where
/// nothing does, as when the resource has not changed since the last
/// delivery, it asks for a pause and keeps its offset.
pub proof fn lemma_poll_fetches_what_is_new(state: TailLoop, length: u64)
    requires
        state.pending is Length,
    ensures
        state.resource.offset < length ==> state.next(Event::Length(Ok(length))).1
            == (Action::Fetch { offset: state.resource.offset, length }),
        state.resource.offset >= length ==> state.next(Event::Length(Ok(length))).1
            == Action::Sleep(state.poll_interval_ms),
        state.next(Event::Length(Ok(length))).0.resource.offset == state.resource.offset,
        state.next(Event::Length(Ok(length))).0.resource.length == length,
{
}

/// One request at a time, each in its turn: after the range-support probe
/// comes the first length probe, after a length probe a fetch or a pause,
/// after a fetch its delivery, after a delivery a pause, after a pause a
/// length probe. The end of the run may come after any of them, and
/// nothing but its repetition comes after it.
pub proof fn lemma_actions_follow_in_turn(start: TailLoop, events: Seq<Event>, k: int)
    requires
        0 < k < events.len(),
    ensures
        may_follow(action_at(start, events, k - 1), action_at(start, events, k)),
{
}

/// The loop ends the run exactly when it names the end, and a run that is
/// over stays over: whatever it is handed then, it answers that the event
/// is out of turn.
pub proof fn lemma_finish_ends_the_run(start: TailLoop, events: Seq<Event>, i: int, k: int)
    requires
        0 <= i < k < events.len(),
    ensures
        action_at(start, events, i) is Finish <==> state_after(
            start,
            events,
            (i + 1) as nat,
        ).pending.phase_of() is Terminated,
        action_at(start, events, i) is Finish ==> state_after(start, events, k as nat)
            == state_after(start, events, (i + 1) as nat),
        action_at(start, events, i) is Finish ==> action_at(start, events, k) == Action::Finish(
            Outcome::OutOfTurn,
        ),
    decreases k,
{
    if k > i + 1 {
        lemma_finish_ends_the_run(start, events, i, k - 1);
    }
}

/// No fetch is asked for but of a range that holds at least one byte, and
/// the loop then waits for its text and knows the resource by that range.
pub proof fn lemma_fetch_is_not_empty(start: TailLoop, events: Seq<Event>, k: int)
    requires
        0 <= k < events.len(),
        fetches_at(start, events, k),
    ensures
        action_at(start, events, k)->offset < action_at(start, events, k)->length,
        state_after(start, events, (k + 1) as nat).pending is Body,
        state_after(start, events, (k + 1) as nat).resource.offset == action_at(
            start,
            events,
            k,
        )->offset,
        state_after(start, events, (k + 1) as nat).resource.length == action_at(
            start,
            events,
            k,
        )->length,
{
}

/// From a fetch on, until the loop asks for the next one, it stays as
/// `follows_fetch` says.
proof fn lemma_since_last_fetch(start: TailLoop, events: Seq<Event>, i: int, k: int)
    requires
        0 <= i < k <= events.len(),
        fetches_at(start, events, i),
        forall|m: int| i < m < k ==> !fetches_at(start, events, m),
    ensures
        follows_fetch(
            state_after(start, events, k as nat),
            action_at(start, events, i)->offset,
            action_at(start, events, i)->length,
        ),
    decreases k,
{
    if k == i + 1 {
        lemma_fetch_is_not_empty(start, events, i);
    } else {
        lemma_since_last_fetch(start, events, i, k - 1);
        assert(!fetches_at(start, events, k - 1));
    }
}

/// From a fetch on, the loop stays as `is_past` says.
proof fn lemma_since_any_fetch(start: TailLoop, events: Seq<Event>, i: int, k: int)
    requires
        0 <= i < k <= events.len(),
        fetches_at(start, events, i),
    ensures
        is_past(state_after(start, events, k as nat), action_at(start, events, i)->length),
    decreases k,
{
    if k == i + 1 {
        lemma_fetch_is_not_empty(start, events, i);
    } else {
        lemma_since_any_fetch(start, events, i, k - 1);
    }
}

/// No range is skipped: of two fetches with none between them, the second
/// begins where the first ended.
pub proof fn lemma_next_fetch_begins_where_last_ended(
    start: TailLoop,
    events: Seq<Event>,
    i: int,
    j: int,
)
    requires
        0 <= i < j < events.len(),
        fetches_at(start, events, i),
        fetches_at(start, events, j),
        forall|m: int| i < m < j ==> !fetches_at(start, events, m),
    ensures
        action_at(start, events, j)->offset == action_at(start, events, i)->length,
{
    lemma_since_last_fetch(start, events, i, j);
}

/// No byte is fetched twice: a later fetch begins at or after the end of
/// every earlier one.
pub proof fn lemma_fetches_do_not_overlap(start: TailLoop, events: Seq<Event>, i: int, j: int)
    requires
        0 <= i < j < events.len(),
        fetches_at(start, events, i),
        fetches_at(start, events, j),
    ensures
        action_at(start, events, j)->offset >= action_at(start, events, i)->length,
{
    lemma_since_any_fetch(start, events, i, j);
}

/// A text goes to the sink only as the answer to a fetch, and it is then
/// the text that the fetch brought, whole: the loop hands over `text` in
/// answer to `events[k]` exactly when it waits for the text of a fetch and
/// `events[k]` brings `text`.
pub proof fn lemma_delivers_what_was_fetched(
    start: TailLoop,
    events: Seq<Event>,
    k: int,
    text: String,
)
    requires
        0 <= k < events.len(),
    ensures
        action_at(start, events, k) == Action::Deliver(text) <==> state_after(
            start,
            events,
            k as nat,
        ).pending is Body && events[k] == Event::Body(Ok::<String, TransportError>(text)),
{
}

/// The loop waits for the text of a fetch only straight after it has asked
/// for that fetch. So each fetch is delivered once at most, before the next
/// fetch is asked for, and the texts reach the sink in the order in which
/// they were fetched.
pub proof fn lemma_waits_for_text_after_fetch_only(start: TailLoop, events: Seq<Event>, k: int)
    requires
        0 < k <= events.len(),
    ensures
        state_after(start, events, k as nat).pending is Body <==> fetches_at(
            start,
            events,
            k - 1,
        ),
{
}

/// Every delivery is that of the fetch that was asked for one step before
/// it, and of the text that came back for that fetch.
pub proof fn lemma_delivery_is_of_the_fetch_before(start: TailLoop, events: Seq<Event>, k: int)
    requires
        0 < k < events.len(),
        action_at(start, events, k) is Deliver,
    ensures
        fetches_at(start, events, k - 1),
        events[k] == Event::Body(
            Ok::<String, TransportError>(action_at(start, events, k)->Deliver_0),
        ),
{
}

/// Once the sink has taken the text of a fetch and asks for more, the
/// loop pauses, and the offset is the end of the range that was fetched.
pub proof fn lemma_delivery_moves_offset(start: TailLoop, events: Seq<Event>, k: int)
    requires
        0 <= k,
        k + 2 < events.len(),
        fetches_at(start, events, k),
        events[k + 1] is Body,
        events[k + 1]->Body_0 is Ok,
        events[k + 2] == Event::Delivered(true),
    ensures
        action_at(start, events, k + 1) == Action::Deliver(events[k + 1]->Body_0->Ok_0),
        action_at(start, events, k + 2) == Action::Sleep(start.poll_interval_ms),
        state_after(start, events, (k + 3) as nat).resource.offset == action_at(
            start,
            events,
            k,
        )->length,
{
    lemma_fetch_is_not_empty(start, events, k);
    lemma_settings_are_kept(start, events, (k + 2) as nat);
}

/// Until its first fetch a loop that began afresh has ended or is as
/// `before_first_fetch` says.
proof fn lemma_until_first_fetch(
    options: TailOptions,
    poll_interval_ms: u64,
    events: Seq<Event>,
    k: int,
)
    requires
        0 <= k <= events.len(),
        forall|m: int|
            0 <= m < k ==> !fetches_at(TailLoop::initial(options, poll_interval_ms), events, m),
    ensures
        state_after(TailLoop::initial(options, poll_interval_ms), events, k as nat).pending
            is Nothing || before_first_fetch(
            state_after(TailLoop::initial(options, poll_interval_ms), events, k as nat),
            options,
            events,
            k,
        ),
    decreases k,
{
    if k > 0 {
        lemma_until_first_fetch(options, poll_interval_ms, events, k - 1);
        assert(!fetches_at(TailLoop::initial(options, poll_interval_ms), events, k - 1));
    }
}

/// The first fetch of a run begins at the initial offset: a loop that began
/// afresh asks for no fetch before it has been told that ranges are served
/// and, as its third event, how long the resource is, and its first fetch
/// begins at the offset that the options give for that length. With no tail
/// offset that is the length itself, so nothing that was there before is
/// ever fetched.
pub proof fn lemma_first_fetch_begins_at_initial_offset(
    options: TailOptions,
    poll_interval_ms: u64,
    events: Seq<Event>,
    j: int,
)
    requires
        0 <= j < events.len(),
        fetches_at(TailLoop::initial(options, poll_interval_ms), events, j),
        forall|m: int|
            0 <= m < j ==> !fetches_at(TailLoop::initial(options, poll_interval_ms), events, m),
    ensures
        j >= 2,
        events[0] == Event::Started,
        events[1] == Event::RangeSupport(Ok::<bool, TransportError>(true)),
        events[2] is Length,
        events[2]->Length_0 is Ok,
        action_at(TailLoop::initial(options, poll_interval_ms), events, j)->offset
            == initial_offset_of(options, events[2]->Length_0->Ok_0),
        options.initial_tail_offset is None ==> action_at(
            TailLoop::initial(options, poll_interval_ms),
            events,
            j,
        )->offset == events[2]->Length_0->Ok_0,
{
    lemma_until_first_fetch(options, poll_interval_ms, events, j);
}

} // verus!
