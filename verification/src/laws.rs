//! What holds of every run of the tee, proved from the step function.

use crate::compressor::{zstd_emitted_len, zstd_frame};
use crate::policy::over_budget;
use crate::tee::{
    lemma_total_len_push, total_len, ActionView, ChunkView, EventView, Phase, TeeView,
};
use vstd::prelude::*;

verus! {

/// One step as seen from outside: the event, and the error of the compressor
/// in case the step turns to the compressor and it fails.
pub struct Observed {
    pub event: EventView,
    pub failure: Option<std::io::Error>,
}

/// The state after the tee has gone through `steps` from `start`.
pub open spec fn run(start: TeeView, steps: Seq<Observed>) -> TeeView
    decreases steps.len(),
{
    if steps.len() == 0 {
        start
    } else {
        run(start, steps.drop_last()).step(steps.last().event, steps.last().failure).0
    }
}

/// The state in which step `i` of a run begins.
pub open spec fn state_at(start: TeeView, steps: Seq<Observed>, i: int) -> TeeView {
    run(start, steps.take(i))
}

/// The action that step `i` of a run answers with.
pub open spec fn action_at(start: TeeView, steps: Seq<Observed>, i: int) -> ActionView {
    state_at(start, steps, i).step(steps[i].event, steps[i].failure).1
}

/// Whether the compressor fails in step `i` of a run.
pub open spec fn compressor_fails_at(start: TeeView, steps: Seq<Observed>, i: int) -> bool {
    let state = state_at(start, steps, i);
    (state.writes(steps[i].event) || state.flushes(steps[i].event)) && steps[i].failure is Some
}

/// Whether the compressor fails nowhere in a run.
pub open spec fn compressor_holds(start: TeeView, steps: Seq<Observed>) -> bool {
    forall|i: int| 0 <= i < steps.len() ==> !#[trigger] compressor_fails_at(start, steps, i)
}

/// Whether every event of a run is an item of the source.
pub open spec fn only_items(steps: Seq<Observed>) -> bool {
    forall|i: int| 0 <= i < steps.len() ==> (#[trigger] steps[i]).event is Item
}

/// The bytes of an item, none for a failure.
pub open spec fn bytes_of(item: ChunkView) -> Seq<u8> {
    match item {
        Ok(chunk) => chunk,
        Err(_) => Seq::empty(),
    }
}

/// The bytes that an event brings from the source.
pub open spec fn bytes_in(event: EventView) -> Seq<u8> {
    match event {
        EventView::Item(item) => bytes_of(item),
        _ => Seq::empty(),
    }
}

/// The bytes that an action sends on to the consumer.
pub open spec fn bytes_out(action: ActionView) -> Seq<u8> {
    match action {
        ActionView::Forward(item) => bytes_of(item),
        _ => Seq::empty(),
    }
}

/// All bytes that the source produced during a run, in order.
pub open spec fn source_bytes(steps: Seq<Observed>) -> Seq<u8>
    decreases steps.len(),
{
    if steps.len() == 0 {
        Seq::empty()
    } else {
        source_bytes(steps.drop_last()) + bytes_in(steps.last().event)
    }
}

/// All bytes that a run forwarded, in order.
pub open spec fn forwarded_bytes(start: TeeView, steps: Seq<Observed>) -> Seq<u8>
    decreases steps.len(),
{
    if steps.len() == 0 {
        Seq::empty()
    } else {
        forwarded_bytes(start, steps.drop_last()) + bytes_out(
            action_at(start, steps, steps.len() - 1),
        )
    }
}

/// The chunks that the source produced during a run, in order.
pub open spec fn source_chunks(steps: Seq<Observed>) -> Seq<Seq<u8>>
    decreases steps.len(),
{
    if steps.len() == 0 {
        Seq::empty()
    } else {
        match steps.last().event {
            EventView::Item(Ok(chunk)) => source_chunks(steps.drop_last()).push(chunk),
            _ => source_chunks(steps.drop_last()),
        }
    }
}

/// Whether an event is a chunk of the source.
pub open spec fn is_chunk(event: EventView) -> bool {
    event matches EventView::Item(Ok(_))
}

/// Whether the compressed size after every chunk of a run, measured when the
/// chunk has been written, is within the budget.
pub open spec fn stays_within_budget(max_cache_size: nat, level: i32, steps: Seq<Observed>)
    -> bool {
    forall|i: int|
        0 <= i < steps.len() && is_chunk((#[trigger] steps[i]).event) ==> !over_budget(
            zstd_emitted_len(level, source_chunks(steps.take(i + 1))),
            max_cache_size,
        )
}

/// How far a phase is from the start.
pub open spec fn phase_rank(phase: Phase) -> nat {
    match phase {
        Phase::NotStarted => 0,
        Phase::Relaying => 1,
        Phase::Finalizing => 2,
        Phase::Done => 3,
    }
}

/// Step `i` of a run leads from the state at `i` to the state at `i + 1`.
pub proof fn lemma_state_after(start: TeeView, steps: Seq<Observed>, i: int)
    requires
        0 <= i < steps.len(),
    ensures
        state_at(start, steps, i + 1) == state_at(start, steps, i).step(
            steps[i].event,
            steps[i].failure,
        ).0,
        state_at(start, steps, 0) == start,
        state_at(start, steps, steps.len() as int) == run(start, steps),
{
    assert(steps.take(i + 1).drop_last() =~= steps.take(i));
    assert(steps.take(steps.len() as int) =~= steps);
}

/// A prefix of a run is a run with the same states and actions.
pub proof fn lemma_prefix(start: TeeView, steps: Seq<Observed>, n: int, i: int)
    requires
        0 <= i <= n <= steps.len(),
    ensures
        state_at(start, steps.take(n), i) == state_at(start, steps, i),
        i < n ==> action_at(start, steps.take(n), i) == action_at(start, steps, i),
        i < n ==> compressor_fails_at(start, steps.take(n), i) == compressor_fails_at(
            start,
            steps,
            i,
        ),
{
    assert(steps.take(n).take(i) =~= steps.take(i));
}

/// A run of items in which the compressor holds is still one without its
/// last step.
proof fn lemma_shorter_run(start: TeeView, steps: Seq<Observed>)
    requires
        steps.len() > 0,
    ensures
        only_items(steps) ==> only_items(steps.drop_last()),
        compressor_holds(start, steps) ==> compressor_holds(start, steps.drop_last()),
{
    let init = steps.drop_last();
    if only_items(steps) {
        assert forall|i: int| 0 <= i < init.len() implies (#[trigger] init[i]).event is Item by {
            assert(steps[i].event is Item);
        }
    }
    if compressor_holds(start, steps) {
        assert forall|i: int| 0 <= i < init.len() implies !#[trigger] compressor_fails_at(
            start,
            init,
            i,
        ) by {
            lemma_prefix(start, steps, steps.len() - 1, i);
            assert(!compressor_fails_at(start, steps, i));
        }
    }
}

/// Every state of a run that starts well-formed is well-formed. So the count
/// of bytes written is always the length of the chunks that the compressor
/// has taken, and an active cache is never left over budget by a step.
pub proof fn run_is_well_formed(start: TeeView, steps: Seq<Observed>)
    requires
        start.wf(),
    ensures
        run(start, steps).wf(),
    decreases steps.len(),
{
    if steps.len() > 0 {
        run_is_well_formed(start, steps.drop_last());
        let before = run(start, steps.drop_last());
        if before.writes(steps.last().event) {
            lemma_total_len_push(before.written, steps.last().event->Item_0->Ok_0);
        }
    }
}

/// The phase of a tee never goes back.
pub proof fn lemma_phase_order(start: TeeView, steps: Seq<Observed>, i: int, j: int)
    requires
        0 <= i <= j <= steps.len(),
    ensures
        phase_rank(state_at(start, steps, i).phase) <= phase_rank(state_at(start, steps, j).phase),
    decreases j - i,
{
    if i < j {
        lemma_phase_order(start, steps, i, j - 1);
        lemma_state_after(start, steps, j - 1);
    }
}

/// The callback is called at most once, and only at the end of the input: in
/// any run, from any state, two steps that answer `Finish` are the same step,
/// and the event of such a step is `EndOfInput`. A run without that event,
/// such as one that the consumer breaks off, has no such step.
pub proof fn single_finalization(start: TeeView, steps: Seq<Observed>, i: int, j: int)
    requires
        0 <= i < steps.len(),
        0 <= j < steps.len(),
        action_at(start, steps, i) is Finish,
        action_at(start, steps, j) is Finish,
    ensures
        i == j,
        steps[i].event is EndOfInput,
        state_at(start, steps, i).relaying(),
{
    if i < j {
        lemma_state_after(start, steps, i);
        lemma_phase_order(start, steps, i + 1, j);
    } else if j < i {
        lemma_state_after(start, steps, j);
        lemma_phase_order(start, steps, j + 1, i);
    }
}

/// A failure ends the stream: after a step that answers `Fail`, and after
/// one that answers `End`, every step answers `End`. So after a failure of
/// the compressor nothing is forwarded and the callback is not called, and
/// after a failure of the final flush the callback is not called.
pub proof fn failure_ends_the_stream(start: TeeView, steps: Seq<Observed>, i: int, j: int)
    requires
        0 <= i < j < steps.len(),
        action_at(start, steps, i) is Fail || action_at(start, steps, i) is End,
    ensures
        action_at(start, steps, j) is End,
        state_at(start, steps, j).phase is Done,
{
    lemma_state_after(start, steps, i);
    lemma_phase_order(start, steps, i + 1, j);
}

/// Once the cache is abandoned it stays so: whatever comes after, the count
/// of bytes written stays what it was, no step writes to a compressor, and
/// what is handed over at the end holds no artifact.
pub proof fn abandonment_is_final(start: TeeView, steps: Seq<Observed>)
    requires
        !start.active,
    ensures
        !run(start, steps).active,
        run(start, steps).bytes_written == start.bytes_written,
        run(start, steps).written == start.written,
        forall|i: int|
            0 <= i < steps.len() ==> !(#[trigger] state_at(start, steps, i)).writes(
                steps[i].event,
            ),
        forall|i: int|
            0 <= i < steps.len() ==> (#[trigger] action_at(start, steps, i) matches ActionView::Finish(
                result,
            ) ==> result.artifact is None && result.bytes_written == start.bytes_written),
    decreases steps.len(),
{
    if steps.len() > 0 {
        let init = steps.drop_last();
        abandonment_is_final(start, init);
        assert forall|i: int| 0 <= i < steps.len() implies !(#[trigger] state_at(
            start,
            steps,
            i,
        )).writes(steps[i].event) && (action_at(start, steps, i) matches ActionView::Finish(
            result,
        ) ==> result.artifact is None && result.bytes_written == start.bytes_written) by {
            if i < steps.len() - 1 {
                lemma_prefix(start, steps, steps.len() - 1, i);
                assert(action_at(start, init, i) matches ActionView::Finish(result)
                    ==> result.artifact is None && result.bytes_written == start.bytes_written);
            }
        }
    }
}

/// Nothing is suppressed or reordered: in a run of items, a step that
/// forwards sends on the very item that arrived, and so did every step before
/// it. What the consumer gets is a prefix of what the source produced, cut
/// short only where the compressor fails.
pub proof fn forwarding_keeps_order(start: TeeView, steps: Seq<Observed>, i: int, j: int)
    requires
        only_items(steps),
        0 <= j <= i < steps.len(),
        action_at(start, steps, i) is Forward,
    ensures
        action_at(start, steps, j) == ActionView::Forward(steps[j].event->Item_0),
{
    lemma_phase_order(start, steps, j, i);
    if j < i {
        lemma_state_after(start, steps, j);
        lemma_phase_order(start, steps, j + 1, i);
    }
}

/// Passthrough: while only items arrive and the compressor does not fail,
/// every step forwards the very item that arrived, whatever the state of the
/// cache and whatever the budget. So the bytes that were forwarded are the
/// bytes that the source produced.
pub proof fn passthrough_fidelity(start: TeeView, steps: Seq<Observed>)
    requires
        start.relaying(),
        only_items(steps),
        compressor_holds(start, steps),
    ensures
        run(start, steps).relaying(),
        forall|i: int|
            0 <= i < steps.len() ==> #[trigger] action_at(start, steps, i) == ActionView::Forward(
                steps[i].event->Item_0,
            ),
        forwarded_bytes(start, steps) == source_bytes(steps),
    decreases steps.len(),
{
    if steps.len() > 0 {
        let n = steps.len() - 1;
        let init = steps.drop_last();
        lemma_shorter_run(start, steps);
        passthrough_fidelity(start, init);
        assert(!compressor_fails_at(start, steps, n));
        assert forall|i: int| 0 <= i < steps.len() implies #[trigger] action_at(start, steps, i)
            == ActionView::Forward(steps[i].event->Item_0) by {
            if i < n {
                lemma_prefix(start, steps, n, i);
            }
        }
    }
}

/// The chunks of a run hold the bytes of its source.
pub proof fn lemma_source_chunks_len(steps: Seq<Observed>)
    ensures
        total_len(source_chunks(steps)) == source_bytes(steps).len(),
    decreases steps.len(),
{
    if steps.len() > 0 {
        lemma_source_chunks_len(steps.drop_last());
        if is_chunk(steps.last().event) {
            lemma_total_len_push(
                source_chunks(steps.drop_last()),
                steps.last().event->Item_0->Ok_0,
            );
        }
    }
}

/// A run within budget is within budget up to its last step, and at it.
proof fn lemma_within_budget_unfold(max_cache_size: nat, level: i32, steps: Seq<Observed>)
    requires
        steps.len() > 0,
    ensures
        stays_within_budget(max_cache_size, level, steps) == (stays_within_budget(
            max_cache_size,
            level,
            steps.drop_last(),
        ) && (is_chunk(steps.last().event) ==> !over_budget(
            zstd_emitted_len(level, source_chunks(steps)),
            max_cache_size,
        ))),
{
    let init = steps.drop_last();
    let n = steps.len() - 1;
    assert(steps.take(n + 1) =~= steps);
    assert forall|i: int| 0 <= i < n implies init[i] == steps[i] && init.take(i + 1)
        == steps.take(i + 1) by {}
    if stays_within_budget(max_cache_size, level, steps) {
        assert forall|i: int| 0 <= i < init.len() && is_chunk((#[trigger] init[i]).event)
            implies !over_budget(
            zstd_emitted_len(level, source_chunks(init.take(i + 1))),
            max_cache_size,
        ) by {}
    }
    if stays_within_budget(max_cache_size, level, init) && (is_chunk(steps.last().event)
        ==> !over_budget(zstd_emitted_len(level, source_chunks(steps)), max_cache_size)) {
        assert forall|i: int| 0 <= i < steps.len() && is_chunk((#[trigger] steps[i]).event)
            implies !over_budget(
            zstd_emitted_len(level, source_chunks(steps.take(i + 1))),
            max_cache_size,
        ) by {}
    }
}

/// The fate of the cache: over a run of items from a fresh tee in which the
/// compressor does not fail, the cache is still active at the end exactly if
/// the compressed size was within budget after every chunk. Then the
/// compressor has taken every chunk of the source, and the count of bytes
/// written is the number of bytes that the source produced.
pub proof fn cache_outcome(max_cache_size: nat, level: i32, steps: Seq<Observed>)
    requires
        only_items(steps),
        compressor_holds(TeeView::fresh(max_cache_size, level), steps),
    ensures
        ({
            let end = run(TeeView::fresh(max_cache_size, level), steps);
            &&& end.relaying()
            &&& end.level == level
            &&& end.budget == max_cache_size
            &&& end.active == stays_within_budget(max_cache_size, level, steps)
            &&& end.active ==> end.written == source_chunks(steps)
            &&& end.active ==> end.bytes_written == source_bytes(steps).len()
        }),
    decreases steps.len(),
{
    let start = TeeView::fresh(max_cache_size, level);
    if steps.len() > 0 {
        let n = steps.len() - 1;
        let init = steps.drop_last();
        lemma_shorter_run(start, steps);
        cache_outcome(max_cache_size, level, init);
        lemma_within_budget_unfold(max_cache_size, level, steps);
        lemma_source_chunks_len(steps);
        lemma_source_chunks_len(init);
        assert(!compressor_fails_at(start, steps, n));
        let before = run(start, init);
        if before.active && is_chunk(steps.last().event) {
            lemma_total_len_push(before.written, steps.last().event->Item_0->Ok_0);
        }
    }
}

/// The budget is respected: when the source ends after a run of items from a
/// fresh tee in which the compressor does not fail, the finish callback gets
/// the complete compressed stream of all chunks if the compressed size was
/// within budget after every chunk and the flushed stream is within budget
/// too. In every other case it gets no artifact.
pub proof fn budget_respected(max_cache_size: nat, level: i32, steps: Seq<Observed>)
    requires
        only_items(steps),
        compressor_holds(TeeView::fresh(max_cache_size, level), steps),
    ensures
        ({
            let end = run(TeeView::fresh(max_cache_size, level), steps);
            let frame = zstd_frame(level, source_chunks(steps));
            let kept = stays_within_budget(max_cache_size, level, steps) && !over_budget(
                frame.len(),
                max_cache_size,
            );
            &&& end.step(EventView::EndOfInput, None).1 == ActionView::Finish(end.finish())
            &&& end.finish().artifact == if kept {
                Some(frame)
            } else {
                None
            }
            &&& kept ==> end.finish().bytes_written == source_bytes(steps).len()
        }),
{
    cache_outcome(max_cache_size, level, steps);
}

/// The artifact is determined by the input: two runs of items that bring the
/// same chunks at the same quality, and in which the compressor does not
/// fail, hand over the same artifact if both hand one over, whatever their
/// budgets. It is the stream that a fresh compressor of that quality makes
/// of those chunks.
pub proof fn artifact_is_determined(
    level: i32,
    max_cache_size: nat,
    steps: Seq<Observed>,
    other_max_cache_size: nat,
    other_steps: Seq<Observed>,
)
    requires
        only_items(steps),
        only_items(other_steps),
        compressor_holds(TeeView::fresh(max_cache_size, level), steps),
        compressor_holds(TeeView::fresh(other_max_cache_size, level), other_steps),
        source_chunks(steps) == source_chunks(other_steps),
    ensures
        ({
            let one = run(TeeView::fresh(max_cache_size, level), steps).finish().artifact;
            let other = run(
                TeeView::fresh(other_max_cache_size, level),
                other_steps,
            ).finish().artifact;
            &&& one is Some ==> one == Some(zstd_frame(level, source_chunks(steps)))
            &&& one is Some && other is Some ==> one == other
        }),
{
    budget_respected(max_cache_size, level, steps);
    budget_respected(other_max_cache_size, level, other_steps);
}

} // verus!
