//! The incremental compressor: a zstd encoder that writes into a buffer in
//! memory.

use vstd::prelude::*;

verus! {

#[verifier::external_type_specification]
#[verifier::external_body]
#[verifier::reject_recursive_types(W)]
pub struct ExZstdEncoder<W>(async_compression::tokio::write::ZstdEncoder<W>);

#[verifier::external_type_specification]
#[verifier::external_body]
pub struct ExIoError(std::io::Error);

/// The chunks that an encoder has taken so far, oldest first.
pub uninterp spec fn encoder_written(
    encoder: async_compression::tokio::write::ZstdEncoder<Vec<u8>>,
) -> Seq<Seq<u8>>;

/// The quality level that an encoder was made with.
pub uninterp spec fn encoder_level(
    encoder: async_compression::tokio::write::ZstdEncoder<Vec<u8>>,
) -> i32;

/// How many compressed bytes have reached the buffer of an encoder of quality
/// `level` once it has taken the chunks `written`, one write per chunk. What
/// the encoder still holds back is not counted.
pub uninterp spec fn zstd_emitted_len(level: i32, written: Seq<Seq<u8>>) -> nat;

/// The complete compressed stream that an encoder of quality `level` leaves in
/// its buffer when it is shut down after taking the chunks `written`, one
/// write per chunk.
pub uninterp spec fn zstd_frame(level: i32, written: Seq<Seq<u8>>) -> Seq<u8>;

/// `ZstdEncoder::with_quality` over an empty `Vec` with `Level::Precise(level)`.
/// Trusted: the encoder keeps the level it was given (the crate clamps it to
/// the range zstd knows) and has taken nothing yet.
#[verifier::external_body]
fn encoder_with_quality(level: i32) -> (encoder: async_compression::tokio::write::ZstdEncoder<
    Vec<u8>,
>)
    ensures
        encoder_level(encoder) == level,
        encoder_written(encoder) == Seq::<Seq<u8>>::empty(),
{
    async_compression::tokio::write::ZstdEncoder::with_quality(
        Vec::new(),
        async_compression::Level::Precise(level),
    )
}

/// `AsyncWriteExt::write_all` on the encoder, polled once: a `Vec` takes every
/// write at once, so the future is ready at the first poll; if it ever were
/// not, that is reported as an error. Trusted: when the write succeeds the
/// encoder has taken `bytes` as its next chunk and keeps its level; and a
/// write of no bytes succeeds, since `write_all` returns at once when nothing
/// is left to write and never turns to the encoder. An encoder whose write
/// failed is not handed back.
#[verifier::external_body]
fn encoder_write_all(
    encoder: async_compression::tokio::write::ZstdEncoder<Vec<u8>>,
    bytes: &[u8],
) -> (r: Result<async_compression::tokio::write::ZstdEncoder<Vec<u8>>, std::io::Error>)
    ensures
        r matches Ok(next) ==> encoder_written(next) == encoder_written(encoder).push(bytes@)
            && encoder_level(next) == encoder_level(encoder),
        bytes@.len() == 0 ==> r is Ok,
{
    let mut encoder = encoder;
    let mut cx = std::task::Context::from_waker(std::task::Waker::noop());
    let polled = std::future::Future::poll(
        Box::pin(tokio::io::AsyncWriteExt::write_all(&mut encoder, bytes)).as_mut(),
        &mut cx,
    );
    match polled {
        std::task::Poll::Ready(Ok(())) => Ok(encoder),
        std::task::Poll::Ready(Err(e)) => Err(e),
        std::task::Poll::Pending => Err(std::io::Error::from(std::io::ErrorKind::WouldBlock)),
    }
}

/// `ZstdEncoder::get_ref`, then the length of the `Vec` it gives. Trusted: the
/// length is the one named by `zstd_emitted_len` for the encoder's level and
/// the chunks it has taken.
#[verifier::external_body]
fn encoder_emitted_len(encoder: &async_compression::tokio::write::ZstdEncoder<Vec<u8>>) -> (n:
    usize)
    ensures
        n == zstd_emitted_len(encoder_level(*encoder), encoder_written(*encoder)),
{
    encoder.get_ref().len()
}

/// `AsyncWriteExt::shutdown` on the encoder, polled once as for a write, then
/// `ZstdEncoder::into_inner`. Trusted: when the shutdown succeeds the buffer
/// that comes out is the stream named by `zstd_frame` for the encoder's level
/// and the chunks it has taken.
#[verifier::external_body]
fn encoder_shutdown(encoder: async_compression::tokio::write::ZstdEncoder<Vec<u8>>) -> (r: Result<
    Vec<u8>,
    std::io::Error,
>)
    ensures
        r matches Ok(buffer) ==> buffer@ == zstd_frame(
            encoder_level(encoder),
            encoder_written(encoder),
        ),
{
    let mut encoder = encoder;
    let mut cx = std::task::Context::from_waker(std::task::Waker::noop());
    let polled = std::future::Future::poll(
        Box::pin(tokio::io::AsyncWriteExt::shutdown(&mut encoder)).as_mut(),
        &mut cx,
    );
    match polled {
        std::task::Poll::Ready(Ok(())) => Ok(encoder.into_inner()),
        std::task::Poll::Ready(Err(e)) => Err(e),
        std::task::Poll::Pending => Err(std::io::Error::from(std::io::ErrorKind::WouldBlock)),
    }
}

/// An incremental zstd compressor over a growing buffer in memory.
pub struct Compressor {
    encoder: async_compression::tokio::write::ZstdEncoder<Vec<u8>>,
}

impl Compressor {
    /// The quality level the compressor was made with.
    pub closed spec fn level(&self) -> i32 {
        encoder_level(self.encoder)
    }

    /// The chunks written so far, oldest first.
    pub closed spec fn written(&self) -> Seq<Seq<u8>> {
        encoder_written(self.encoder)
    }

    /// A compressor of the given quality that has taken no input.
    pub fn new(level: i32) -> (c: Compressor)
        ensures
            c.level() == level,
            c.written() == Seq::<Seq<u8>>::empty(),
    {
        Compressor { encoder: encoder_with_quality(level) }
    }

    /// Feeds one chunk. On success the compressor has taken it as its next
    /// chunk. A chunk of no bytes is always taken; for any other the encoder
    /// decides. A compressor that fails is used up.
    pub fn write(self, bytes: &[u8]) -> (r: Result<Compressor, std::io::Error>)
        ensures
            r matches Ok(next) ==> next.level() == self.level() && next.written()
                == self.written().push(bytes@),
            bytes@.len() == 0 ==> r is Ok,
    {
        match encoder_write_all(self.encoder, bytes) {
            Ok(encoder) => Ok(Compressor { encoder }),
            Err(e) => Err(e),
        }
    }

    /// The size of the compressed output so far.
    pub fn compressed_len(&self) -> (n: usize)
        ensures
            n == zstd_emitted_len(self.level(), self.written()),
    {
        encoder_emitted_len(&self.encoder)
    }

    /// Flushes what is held back, closes the stream and yields all of it.
    pub fn finish(self) -> (r: Result<Vec<u8>, std::io::Error>)
        ensures
            r matches Ok(buffer) ==> buffer@ == zstd_frame(self.level(), self.written()),
    {
        encoder_shutdown(self.encoder)
    }

    /// Drops the compressor and its output without flushing.
    pub fn discard(self) {
    }
}

} // verus!
