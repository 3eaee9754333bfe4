//! The cache policy: whether the compressed copy is still being built, and
//! what is handed over when the source ends.

use crate::compressor::{zstd_emitted_len, zstd_frame, Compressor};
use vstd::prelude::*;

verus! {

/// What the finish callback receives.
#[derive(Debug)]
pub struct FinishResult {
    /// Input bytes that went into the cache attempt.
    pub bytes_written: u64,
    /// The complete compressed copy, if one was kept.
    pub artifact: Option<Vec<u8>>,
}

/// A [`FinishResult`] as plain values.
pub struct FinishView {
    pub bytes_written: nat,
    pub artifact: Option<Seq<u8>>,
}

impl View for FinishResult {
    type V = FinishView;

    open spec fn view(&self) -> FinishView {
        FinishView {
            bytes_written: self.bytes_written as nat,
            artifact: match self.artifact {
                Some(buffer) => Some(buffer@),
                None => None,
            },
        }
    }
}

/// The state of the cache attempt of one stream.
pub enum CacheState {
    /// The copy is being built; `bytes_written` counts the input bytes that
    /// the compressor has taken.
    Active { compressor: Compressor, bytes_written: u64 },
    /// The copy was given up; `bytes_written` stays what it was then.
    Abandoned { bytes_written: u64 },
}

/// A compressed size is over budget when it is strictly larger.
pub open spec fn over_budget(compressed_len: nat, max_cache_size: nat) -> bool {
    compressed_len > max_cache_size
}

/// The result for a stream that ended with `flushed` as the outcome of the
/// final flush, `None` standing for a cache given up earlier.
pub open spec fn finish_view(bytes_written: nat, flushed: Option<Seq<u8>>, max_cache_size: nat)
    -> FinishView {
    FinishView {
        bytes_written,
        artifact: match flushed {
            Some(buffer) => if over_budget(buffer.len(), max_cache_size) {
                None
            } else {
                Some(buffer)
            },
            None => None,
        },
    }
}

/// Whether a compressed size exceeds the budget.
pub fn exceeds_budget(compressed_len: usize, max_cache_size: usize) -> (over: bool)
    ensures
        over == over_budget(compressed_len as nat, max_cache_size as nat),
{
    compressed_len > max_cache_size
}

/// The state after the compressor has taken a chunk: `bytes_written` counts
/// the chunk already and `compressed_len` is the compressor's output so far.
/// Over budget the compressor is dropped without a flush.
pub fn keep_or_abandon(
    compressor: Compressor,
    bytes_written: u64,
    compressed_len: usize,
    max_cache_size: usize,
) -> (state: CacheState)
    ensures
        state == if over_budget(compressed_len as nat, max_cache_size as nat) {
            CacheState::Abandoned { bytes_written }
        } else {
            CacheState::Active { compressor, bytes_written }
        },
{
    if exceeds_budget(compressed_len, max_cache_size) {
        compressor.discard();
        CacheState::Abandoned { bytes_written }
    } else {
        CacheState::Active { compressor, bytes_written }
    }
}

/// The result for a cache that stayed active to the end and whose final flush
/// gave `flushed`: the buffer is kept unless it alone is over budget.
pub fn finish_result(bytes_written: u64, flushed: Vec<u8>, max_cache_size: usize) -> (result:
    FinishResult)
    ensures
        result@ == finish_view(bytes_written as nat, Some(flushed@), max_cache_size as nat),
        result.bytes_written == bytes_written,
        result.artifact matches Some(buffer) ==> buffer == flushed,
{
    if exceeds_budget(flushed.len(), max_cache_size) {
        FinishResult { bytes_written, artifact: None }
    } else {
        FinishResult { bytes_written, artifact: Some(flushed) }
    }
}

impl CacheState {
    /// Whether the copy is still being built.
    pub open spec fn active(&self) -> bool {
        self is Active
    }

    /// Input bytes that went into the cache attempt.
    pub open spec fn counted(&self) -> u64 {
        match self {
            CacheState::Active { bytes_written, .. } => *bytes_written,
            CacheState::Abandoned { bytes_written } => *bytes_written,
        }
    }

    /// Whether the copy is still being built.
    #[verifier::when_used_as_spec(active)]
    pub fn is_active(&self) -> (active: bool)
        ensures
            active == self.active(),
    {
        match self {
            CacheState::Active { .. } => true,
            CacheState::Abandoned { .. } => false,
        }
    }

    /// Input bytes that went into the cache attempt.
    #[verifier::when_used_as_spec(counted)]
    pub fn bytes_written(&self) -> (n: u64)
        ensures
            n == self.counted(),
    {
        match self {
            CacheState::Active { bytes_written, .. } => *bytes_written,
            CacheState::Abandoned { bytes_written } => *bytes_written,
        }
    }

    /// The state that [`CacheState::offer`] leaves when the compressor takes
    /// `chunk`.
    pub open spec fn taking(self, chunk: Seq<u8>, max_cache_size: usize, next: CacheState) -> bool {
        match self {
            CacheState::Abandoned { .. } => next == self,
            CacheState::Active { compressor, bytes_written } => {
                let written = compressor.written().push(chunk);
                let counted = bytes_written + chunk.len();
                if over_budget(
                    zstd_emitted_len(compressor.level(), written),
                    max_cache_size as nat,
                ) {
                    next == (CacheState::Abandoned { bytes_written: counted as u64 })
                } else {
                    &&& next matches CacheState::Active { compressor: kept, bytes_written: count }
                    &&& kept.level() == compressor.level()
                    &&& kept.written() == written
                    &&& count == counted
                }
            },
        }
    }

    /// A fresh attempt with a compressor of the given quality.
    pub fn new(compression_level: i32) -> (state: CacheState)
        ensures
            state matches CacheState::Active { compressor, bytes_written },
            state->Active_compressor.level() == compression_level,
            state->Active_compressor.written() == Seq::<Seq<u8>>::empty(),
            state.bytes_written() == 0,
    {
        CacheState::Active { compressor: Compressor::new(compression_level), bytes_written: 0 }
    }

    /// Offers one chunk of the source to the cache. An abandoned cache lets
    /// it pass. An active one writes it to the compressor, counts its bytes
    /// and holds the compressed size against the budget. The error is that
    /// of the compressor, which is then gone.
    pub fn offer(self, chunk: &[u8], max_cache_size: usize) -> (r: Result<
        CacheState,
        std::io::Error,
    >)
        requires
            self.active() ==> self.bytes_written() + chunk@.len() <= u64::MAX,
        ensures
            r matches Ok(next) ==> self.taking(chunk@, max_cache_size, next),
            !self.active() ==> r is Ok,
    {
        match self {
            CacheState::Abandoned { bytes_written } => Ok(CacheState::Abandoned { bytes_written }),
            CacheState::Active { compressor, bytes_written } => {
                match compressor.write(chunk) {
                    Err(e) => Err(e),
                    Ok(compressor) => {
                        let counted: u64 = bytes_written + chunk.len() as u64;
                        let compressed_len: usize = compressor.compressed_len();
                        Ok(keep_or_abandon(compressor, counted, compressed_len, max_cache_size))
                    },
                }
            },
        }
    }

    /// Ends the attempt when the source is exhausted. An active cache is
    /// flushed and its buffer kept if it is within budget; an abandoned one
    /// has nothing to flush. The error is that of the final flush.
    pub fn finalize(self, max_cache_size: usize) -> (r: Result<FinishResult, std::io::Error>)
        ensures
            r matches Ok(result) ==> result@ == finish_view(
                self.bytes_written() as nat,
                match self {
                    CacheState::Active { compressor, .. } => Some(
                        zstd_frame(compressor.level(), compressor.written()),
                    ),
                    CacheState::Abandoned { .. } => None,
                },
                max_cache_size as nat,
            ),
            !self.active() ==> r is Ok,
    {
        match self {
            CacheState::Abandoned { bytes_written } => Ok(
                FinishResult { bytes_written, artifact: None },
            ),
            CacheState::Active { compressor, bytes_written } => {
                match compressor.finish() {
                    Err(e) => Err(e),
                    Ok(flushed) => Ok(finish_result(bytes_written, flushed, max_cache_size)),
                }
            },
        }
    }
}

} // verus!
