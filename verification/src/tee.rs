//! The caching tee as a state machine: it is told what the source produced
//! and answers with what the stream does next.

use crate::compressor::{zstd_emitted_len, zstd_frame};
use crate::policy::{finish_view, over_budget, CacheState, FinishResult, FinishView};
use vstd::prelude::*;

verus! {

/// Where a stream is in its life.
#[derive(Clone, Copy, Debug, PartialEq, Eq, Structural)]
pub enum Phase {
    /// Nothing has been asked of the source yet.
    NotStarted,
    /// Items of the source are passed on.
    Relaying,
    /// The source is exhausted and the finish callback is running.
    Finalizing,
    /// The stream has ended.
    Done,
}

/// An item of the source: a chunk of bytes, or a failure of the source.
pub type ChunkResult = Result<Vec<u8>, std::io::Error>;

/// A [`ChunkResult`] with its bytes as a sequence.
pub type ChunkView = Result<Seq<u8>, std::io::Error>;

/// What happened outside the tee.
#[derive(Debug)]
pub enum Event {
    /// The source produced a chunk or a failure.
    Item(ChunkResult),
    /// The source is exhausted.
    EndOfInput,
    /// The finish callback has returned.
    Finished(Result<(), std::io::Error>),
}

/// What the stream does next.
#[derive(Debug)]
pub enum Action {
    /// Yield the item, then ask the source for the next one.
    Forward(ChunkResult),
    /// Yield the failure as the last item; the stream has ended.
    Fail(std::io::Error),
    /// Call the finish callback with the result and report how it went.
    Finish(FinishResult),
    /// The stream has ended with nothing more to yield.
    End,
}

/// An [`Event`] as plain values.
pub enum EventView {
    Item(ChunkView),
    EndOfInput,
    Finished(Result<(), std::io::Error>),
}

/// An [`Action`] as plain values.
pub enum ActionView {
    Forward(ChunkView),
    Fail(std::io::Error),
    Finish(FinishView),
    End,
}

/// An item of the source with its bytes as a sequence.
pub open spec fn item_view(item: ChunkResult) -> ChunkView {
    match item {
        Ok(chunk) => Ok(chunk@),
        Err(e) => Err(e),
    }
}

impl View for Event {
    type V = EventView;

    open spec fn view(&self) -> EventView {
        match *self {
            Event::Item(item) => EventView::Item(item_view(item)),
            Event::EndOfInput => EventView::EndOfInput,
            Event::Finished(outcome) => EventView::Finished(outcome),
        }
    }
}

impl View for Action {
    type V = ActionView;

    open spec fn view(&self) -> ActionView {
        match *self {
            Action::Forward(item) => ActionView::Forward(item_view(item)),
            Action::Fail(e) => ActionView::Fail(e),
            Action::Finish(result) => ActionView::Finish(result@),
            Action::End => ActionView::End,
        }
    }
}

/// The number of bytes in a sequence of chunks.
pub open spec fn total_len(chunks: Seq<Seq<u8>>) -> nat
    decreases chunks.len(),
{
    if chunks.len() == 0 {
        0
    } else {
        total_len(chunks.drop_last()) + chunks.last().len()
    }
}

/// Appending a chunk adds its length.
pub proof fn lemma_total_len_push(chunks: Seq<Seq<u8>>, chunk: Seq<u8>)
    ensures
        total_len(chunks.push(chunk)) == total_len(chunks) + chunk.len(),
{
    assert(chunks.push(chunk).drop_last() =~= chunks);
}

/// The state of a tee as plain values.
pub struct TeeView {
    pub phase: Phase,
    /// Whether the compressed copy is still being built.
    pub active: bool,
    /// Input bytes that the compressor has taken.
    pub bytes_written: nat,
    /// The chunks that the compressor has taken, oldest first.
    pub written: Seq<Seq<u8>>,
    /// The compression quality.
    pub level: i32,
    /// The largest compressed size that is kept.
    pub budget: nat,
}

impl TeeView {
    /// The state of a tee that has seen nothing.
    pub open spec fn fresh(max_cache_size: nat, level: i32) -> TeeView {
        TeeView {
            phase: Phase::NotStarted,
            active: true,
            bytes_written: 0,
            written: Seq::empty(),
            level,
            budget: max_cache_size,
        }
    }

    /// What holds of every state that a tee can be in: the count of bytes
    /// written is the length of the chunks written, a cache is active only
    /// while relaying, and the compressed size of an active cache, measured
    /// after its last chunk, is within budget.
    pub open spec fn wf(self) -> bool {
        &&& self.bytes_written == total_len(self.written)
        &&& self.active ==> self.relaying()
        &&& self.active && self.written.len() > 0 ==> !over_budget(
            zstd_emitted_len(self.level, self.written),
            self.budget,
        )
    }

    /// Whether items of the source are still expected.
    pub open spec fn relaying(self) -> bool {
        self.phase is NotStarted || self.phase is Relaying
    }

    /// Whether the step for `event` writes a chunk to the compressor.
    pub open spec fn writes(self, event: EventView) -> bool {
        self.relaying() && self.active && event matches EventView::Item(Ok(_))
    }

    /// Whether the step for `event` flushes the compressor.
    pub open spec fn flushes(self, event: EventView) -> bool {
        self.relaying() && self.active && event is EndOfInput
    }

    /// The state after the stream has ended.
    pub open spec fn ended(self) -> TeeView {
        TeeView {
            phase: Phase::Done,
            active: false,
            bytes_written: self.bytes_written,
            written: self.written,
            level: self.level,
            budget: self.budget,
        }
    }

    /// The state after an item has passed without touching the cache.
    pub open spec fn passed(self) -> TeeView {
        TeeView {
            phase: Phase::Relaying,
            active: self.active,
            bytes_written: self.bytes_written,
            written: self.written,
            level: self.level,
            budget: self.budget,
        }
    }

    /// The state after the compressor has taken `chunk`: the chunk is counted,
    /// and the cache is abandoned if the compressed size is now over budget.
    pub open spec fn taken(self, chunk: Seq<u8>) -> TeeView {
        TeeView {
            phase: Phase::Relaying,
            active: !over_budget(
                zstd_emitted_len(self.level, self.written.push(chunk)),
                self.budget,
            ),
            bytes_written: self.bytes_written + chunk.len(),
            written: self.written.push(chunk),
            level: self.level,
            budget: self.budget,
        }
    }

    /// The state while the finish callback runs.
    pub open spec fn finalizing(self) -> TeeView {
        TeeView {
            phase: Phase::Finalizing,
            active: false,
            bytes_written: self.bytes_written,
            written: self.written,
            level: self.level,
            budget: self.budget,
        }
    }

    /// What is handed to the finish callback when the source ends in this
    /// state and the final flush, if there is one, succeeds.
    pub open spec fn finish(self) -> FinishView {
        finish_view(
            self.bytes_written,
            if self.active {
                Some(zstd_frame(self.level, self.written))
            } else {
                None
            },
            self.budget,
        )
    }

    /// One step of the machine: the next state and the action for `event`.
    /// `failure` is the error of the compressor where the step writes to it
    /// or flushes it and that fails; it is not looked at otherwise.
    pub open spec fn step(self, event: EventView, failure: Option<std::io::Error>) -> (
        TeeView,
        ActionView,
    ) {
        if self.relaying() {
            match event {
                EventView::Item(item) => {
                    if self.writes(event) {
                        match failure {
                            Some(e) => (self.ended(), ActionView::Fail(e)),
                            None => (self.taken(item->Ok_0), ActionView::Forward(item)),
                        }
                    } else {
                        (self.passed(), ActionView::Forward(item))
                    }
                },
                EventView::EndOfInput => {
                    if self.flushes(event) && failure is Some {
                        (self.ended(), ActionView::Fail(failure->Some_0))
                    } else {
                        (self.finalizing(), ActionView::Finish(self.finish()))
                    }
                },
                EventView::Finished(_) => (self.ended(), ActionView::End),
            }
        } else if self.phase is Finalizing {
            match event {
                EventView::Finished(Err(e)) => (self.ended(), ActionView::Fail(e)),
                _ => (self.ended(), ActionView::End),
            }
        } else {
            (self.ended(), ActionView::End)
        }
    }

    /// The compressor's error that `action` shows, if the step for `event`
    /// turned to the compressor.
    pub open spec fn failure_shown(self, event: EventView, action: ActionView) -> Option<
        std::io::Error,
    > {
        if (self.writes(event) || self.flushes(event)) && action is Fail {
            Some(action->Fail_0)
        } else {
            None
        }
    }
}

/// The length of the chunk that an event carries, 0 if it carries none.
pub open spec fn chunk_len(event: EventView) -> nat {
    match event {
        EventView::Item(Ok(chunk)) => chunk.len(),
        _ => 0,
    }
}

/// A caching tee for one stream.
pub struct CachingTee {
    phase: Phase,
    cache: CacheState,
    max_cache_size: usize,
    compression_level: i32,
    written: Ghost<Seq<Seq<u8>>>,
}

impl View for CachingTee {
    type V = TeeView;

    closed spec fn view(&self) -> TeeView {
        TeeView {
            phase: self.phase,
            active: self.cache.active(),
            bytes_written: self.cache.counted() as nat,
            written: self.written@,
            level: self.compression_level,
            budget: self.max_cache_size as nat,
        }
    }
}

impl CachingTee {
    #[verifier::type_invariant]
    closed spec fn inv(self) -> bool {
        &&& self.cache.counted() == total_len(self.written@)
        &&& self.cache matches CacheState::Active { compressor, .. } ==> {
            &&& compressor.level() == self.compression_level
            &&& compressor.written() == self.written@
            &&& (self.phase is NotStarted || self.phase is Relaying)
            &&& self.written@.len() > 0 ==> !over_budget(
                zstd_emitted_len(self.compression_level, self.written@),
                self.max_cache_size as nat,
            )
        }
    }

    /// A tee that keeps a compressed copy of at most `max_cache_size` bytes,
    /// made at the given quality.
    pub fn new(max_cache_size: usize, compression_level: i32) -> (tee: CachingTee)
        ensures
            tee@ == TeeView::fresh(max_cache_size as nat, compression_level),
    {
        CachingTee {
            phase: Phase::NotStarted,
            cache: CacheState::new(compression_level),
            max_cache_size,
            compression_level,
            written: Ghost(Seq::empty()),
        }
    }

    /// Where the stream is in its life.
    pub fn phase(&self) -> (phase: Phase)
        ensures
            phase == self@.phase,
    {
        self.phase
    }

    /// Whether the compressed copy is still being built.
    pub fn is_active(&self) -> (active: bool)
        ensures
            active == self@.active,
    {
        self.cache.is_active()
    }

    /// Input bytes that the compressor has taken. The count stops when the
    /// cache is abandoned, so it is not the size of the whole stream then.
    pub fn bytes_written(&self) -> (n: u64)
        ensures
            n == self@.bytes_written,
    {
        self.cache.bytes_written()
    }

    /// The largest compressed size that is kept.
    pub fn max_cache_size(&self) -> (n: usize)
        ensures
            n == self@.budget,
    {
        self.max_cache_size
    }

    /// The compression quality.
    pub fn compression_level(&self) -> (level: i32)
        ensures
            level == self@.level,
    {
        self.compression_level
    }

    /// Whether [`CachingTee::step`] can take `event`: it cannot where the
    /// event is a chunk for the compressor whose length would carry the
    /// count of bytes written past `u64::MAX`.
    pub fn can_take(&self, event: &Event) -> (ok: bool)
        ensures
            ok == (self@.writes(event@) ==> self@.bytes_written + chunk_len(event@) <= u64::MAX),
    {
        match (self.phase, event) {
            (Phase::NotStarted, Event::Item(Ok(chunk))) | (Phase::Relaying, Event::Item(Ok(chunk))) => {
                !self.cache.is_active() || chunk.len() as u64 <= u64::MAX
                    - self.cache.bytes_written()
            },
            _ => true,
        }
    }

    /// Takes one event and says what the stream does next.
    ///
    /// While relaying, an item is forwarded as it came; a chunk is first
    /// offered to the cache, and if the compressor fails there the failure is
    /// the last item of the stream. At the end of the input the cache is
    /// finalized and its result goes to the finish callback, unless the final
    /// flush fails, which ends the stream with that failure. When the callback
    /// has returned, its failure, if any, is the last item. An event that the
    /// phase does not expect ends the stream.
    pub fn step(self, event: Event) -> (r: (CachingTee, Action))
        requires
            self@.writes(event@) ==> self@.bytes_written + chunk_len(event@) <= u64::MAX,
        ensures
            (r.0@, r.1@) == self@.step(event@, self@.failure_shown(event@, r.1@)),
            r.0@.wf(),
    {
        proof {
            use_type_invariant(&self);
        }
        let CachingTee { phase, cache, max_cache_size, compression_level, written } = self;
        let count: u64 = cache.bytes_written();
        let stopped = CacheState::Abandoned { bytes_written: count };
        match phase {
            Phase::NotStarted | Phase::Relaying => match event {
                Event::Item(Ok(chunk)) => {
                    let was_active: bool = cache.is_active();
                    match cache.offer(chunk.as_slice(), max_cache_size) {
                        Err(e) => (
                            CachingTee {
                                phase: Phase::Done,
                                cache: stopped,
                                max_cache_size,
                                compression_level,
                                written,
                            },
                            Action::Fail(e),
                        ),
                        Ok(next) => {
                            let ghost taken = if was_active {
                                written@.push(chunk@)
                            } else {
                                written@
                            };
                            proof {
                                lemma_total_len_push(written@, chunk@);
                            }
                            (
                                CachingTee {
                                    phase: Phase::Relaying,
                                    cache: next,
                                    max_cache_size,
                                    compression_level,
                                    written: Ghost(taken),
                                },
                                Action::Forward(Ok(chunk)),
                            )
                        },
                    }
                },
                Event::Item(Err(e)) => (
                    CachingTee {
                        phase: Phase::Relaying,
                        cache,
                        max_cache_size,
                        compression_level,
                        written,
                    },
                    Action::Forward(Err(e)),
                ),
                Event::EndOfInput => match cache.finalize(max_cache_size) {
                    Err(e) => (
                        CachingTee {
                            phase: Phase::Done,
                            cache: stopped,
                            max_cache_size,
                            compression_level,
                            written,
                        },
                        Action::Fail(e),
                    ),
                    Ok(result) => (
                        CachingTee {
                            phase: Phase::Finalizing,
                            cache: stopped,
                            max_cache_size,
                            compression_level,
                            written,
                        },
                        Action::Finish(result),
                    ),
                },
                Event::Finished(_) => (
                    CachingTee {
                        phase: Phase::Done,
                        cache: stopped,
                        max_cache_size,
                        compression_level,
                        written,
                    },
                    Action::End,
                ),
            },
            Phase::Finalizing => {
                let ended = CachingTee {
                    phase: Phase::Done,
                    cache: stopped,
                    max_cache_size,
                    compression_level,
                    written,
                };
                match event {
                    Event::Finished(Err(e)) => (ended, Action::Fail(e)),
                    _ => (ended, Action::End),
                }
            },
            Phase::Done => (
                CachingTee {
                    phase: Phase::Done,
                    cache: stopped,
                    max_cache_size,
                    compression_level,
                    written,
                },
                Action::End,
            ),
        }
    }
}

} // verus!
