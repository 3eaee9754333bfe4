use caching_tee::compressor::Compressor;
use caching_tee::policy::FinishResult;
use caching_tee::tee::{Action, CachingTee, Event, Phase};
use std::io::{Error, ErrorKind};

const MIB: usize = 1024 * 1024;

/// What a consumer and a finish callback saw of one stream.
struct Seen {
    items: Vec<Result<Vec<u8>, String>>,
    finished: Vec<(u64, Option<Vec<u8>>)>,
    end: CachingTee,
}

fn text(e: &Error) -> String {
    format!("{:?}: {}", e.kind(), e)
}

fn other(message: &str) -> Error {
    Error::new(ErrorKind::Other, message.to_string())
}

/// Drives a tee over `items` to the end of the input, with a callback that
/// answers `callback`.
fn drive(
    max_cache_size: usize,
    level: i32,
    items: Vec<Result<Vec<u8>, Error>>,
    callback: Result<(), Error>,
) -> Seen {
    let mut tee = CachingTee::new(max_cache_size, level);
    let mut seen_items = Vec::new();
    let mut finished = Vec::new();
    let mut events: Vec<Event> = items.into_iter().map(Event::Item).collect();
    events.push(Event::EndOfInput);
    let mut callback = Some(callback);
    let mut queue = events.into_iter();
    let mut next = queue.next();
    while let Some(event) = next.take() {
        assert!(tee.can_take(&event));
        let (after, action) = tee.step(event);
        tee = after;
        match action {
            Action::Forward(Ok(chunk)) => {
                seen_items.push(Ok(chunk));
                next = queue.next();
            }
            Action::Forward(Err(e)) => {
                seen_items.push(Err(text(&e)));
                next = queue.next();
            }
            Action::Fail(e) => {
                seen_items.push(Err(text(&e)));
            }
            Action::Finish(FinishResult { bytes_written, artifact }) => {
                finished.push((bytes_written, artifact));
                next = Some(Event::Finished(callback.take().unwrap()));
            }
            Action::End => {}
        }
    }
    Seen { items: seen_items, finished, end: tee }
}

fn decompress(frame: &[u8]) -> Vec<u8> {
    let runtime = tokio::runtime::Builder::new_current_thread().build().unwrap();
    runtime.block_on(async {
        let mut decoder = async_compression::tokio::bufread::ZstdDecoder::new(frame);
        let mut out = Vec::new();
        tokio::io::AsyncReadExt::read_to_end(&mut decoder, &mut out).await.unwrap();
        out
    })
}

fn noise(len: usize, seed: u64) -> Vec<u8> {
    let mut state = seed | 1;
    let mut out = Vec::with_capacity(len);
    while out.len() < len {
        state ^= state << 13;
        state ^= state >> 7;
        state ^= state << 17;
        out.extend_from_slice(&state.to_le_bytes());
    }
    out.truncate(len);
    out
}

fn chunks_of(data: &[u8], size: usize) -> Vec<Result<Vec<u8>, Error>> {
    data.chunks(size).map(|c| Ok(c.to_vec())).collect()
}

fn bytes_seen(seen: &Seen) -> Vec<u8> {
    let mut out = Vec::new();
    for item in &seen.items {
        if let Ok(chunk) = item {
            out.extend_from_slice(chunk);
        }
    }
    out
}

#[test]
fn new_tee_has_seen_nothing() {
    let tee = CachingTee::new(4096, 7);
    assert_eq!(tee.phase(), Phase::NotStarted);
    assert!(tee.is_active());
    assert_eq!(tee.bytes_written(), 0);
    assert_eq!(tee.max_cache_size(), 4096);
    assert_eq!(tee.compression_level(), 7);
}

#[test]
fn small_input_is_cached() {
    let input = b"0123456789".to_vec();
    let seen = drive(MIB, 3, vec![Ok(input.clone())], Ok(()));
    assert_eq!(seen.items, vec![Ok(input.clone())]);
    assert_eq!(seen.finished.len(), 1);
    let (bytes_written, artifact) = &seen.finished[0];
    assert_eq!(*bytes_written, 10);
    let artifact = artifact.as_ref().expect("the copy is within budget");
    assert_ne!(artifact, &input);
    assert!(artifact.len() <= MIB);
    assert_eq!(decompress(artifact), input);
    assert_eq!(seen.end.phase(), Phase::Done);
}

#[test]
fn incompressible_input_is_abandoned() {
    let input = noise(10 * MIB, 0x9e3779b97f4a7c15);
    let seen = drive(1024, 3, chunks_of(&input, 4096), Ok(()));
    assert_eq!(seen.items.len(), 2560);
    assert_eq!(bytes_seen(&seen), input);
    assert_eq!(seen.finished.len(), 1);
    let (bytes_written, artifact) = &seen.finished[0];
    assert!(artifact.is_none());
    assert!(*bytes_written > 1024);
    assert!(*bytes_written < (10 * MIB) as u64);
    assert_eq!(*bytes_written % 4096, 0);
}

#[test]
fn abandonment_comes_with_the_first_chunk_over_budget() {
    let input = noise(MIB, 42);
    let mut tee = CachingTee::new(1024, 3);
    let mut abandoned_at = None;
    let mut compressor = Compressor::new(3);
    for (i, chunk) in input.chunks(4096).enumerate() {
        let was_active = tee.is_active();
        let before = tee.bytes_written();
        let (after, action) = tee.step(Event::Item(Ok(chunk.to_vec())));
        tee = after;
        assert!(matches!(action, Action::Forward(Ok(ref c)) if c.as_slice() == chunk));
        if was_active {
            compressor = compressor.write(chunk).unwrap();
            let over = compressor.compressed_len() > 1024;
            assert_eq!(tee.is_active(), !over);
            assert_eq!(tee.bytes_written(), before + 4096);
            if over {
                abandoned_at = Some(i);
            }
        } else {
            assert!(!tee.is_active());
            assert_eq!(tee.bytes_written(), before);
        }
    }
    let at = abandoned_at.expect("a mebibyte of noise does not fit in a kibibyte");
    assert_eq!(tee.bytes_written(), (at as u64 + 1) * 4096);
}

#[test]
fn failure_item_then_end_with_a_budget_below_the_empty_stream() {
    let seen = drive(1, 3, vec![Err(other("broken pipe"))], Ok(()));
    assert_eq!(seen.items, vec![Err(text(&other("broken pipe")))]);
    assert_eq!(seen.finished, vec![(0, None)]);
    assert_eq!(seen.end.phase(), Phase::Done);
}

#[test]
fn failure_item_then_end_with_room_keeps_the_empty_stream() {
    let seen = drive(MIB, 3, vec![Err(other("broken pipe"))], Ok(()));
    assert_eq!(seen.items, vec![Err(text(&other("broken pipe")))]);
    assert_eq!(seen.finished.len(), 1);
    assert_eq!(seen.finished[0].0, 0);
    let artifact = seen.finished[0].1.as_ref().unwrap();
    assert!(!artifact.is_empty());
    assert_eq!(decompress(artifact), Vec::<u8>::new());
}

#[test]
fn failure_items_do_not_stop_the_relay() {
    let items = vec![
        Ok(b"first".to_vec()),
        Err(other("one")),
        Ok(b"second".to_vec()),
        Err(Error::new(ErrorKind::UnexpectedEof, "two")),
        Ok(b"third".to_vec()),
    ];
    let seen = drive(MIB, 3, items, Ok(()));
    assert_eq!(
        seen.items,
        vec![
            Ok(b"first".to_vec()),
            Err(text(&other("one"))),
            Ok(b"second".to_vec()),
            Err(text(&Error::new(ErrorKind::UnexpectedEof, "two"))),
            Ok(b"third".to_vec()),
        ]
    );
    assert_eq!(seen.finished.len(), 1);
    assert_eq!(seen.finished[0].0, 16);
    assert_eq!(decompress(seen.finished[0].1.as_ref().unwrap()), b"firstsecondthird".to_vec());
}

#[test]
fn consumer_that_stops_early_sees_no_finish() {
    let input = noise(100 * 64, 7);
    let mut tee = CachingTee::new(MIB, 3);
    for chunk in input.chunks(64).take(2) {
        let (after, action) = tee.step(Event::Item(Ok(chunk.to_vec())));
        tee = after;
        assert!(matches!(action, Action::Forward(Ok(ref c)) if c.as_slice() == chunk));
    }
    assert_eq!(tee.phase(), Phase::Relaying);
    assert!(tee.is_active());
    assert_eq!(tee.bytes_written(), 128);
}

#[test]
fn callback_failure_is_the_last_item() {
    let seen = drive(MIB, 3, vec![Ok(b"abc".to_vec())], Err(other("disk full")));
    assert_eq!(seen.items, vec![Ok(b"abc".to_vec()), Err(text(&other("disk full")))]);
    assert_eq!(seen.finished.len(), 1);
    assert_eq!(seen.end.phase(), Phase::Done);
}

#[test]
fn callback_success_ends_without_an_item() {
    let tee = CachingTee::new(MIB, 3);
    let (tee, action) = tee.step(Event::EndOfInput);
    assert!(matches!(action, Action::Finish(_)));
    assert_eq!(tee.phase(), Phase::Finalizing);
    assert!(!tee.is_active());
    let (tee, action) = tee.step(Event::Finished(Ok(())));
    assert!(matches!(action, Action::End));
    assert_eq!(tee.phase(), Phase::Done);
}

#[test]
fn finish_is_answered_once() {
    let mut tee = CachingTee::new(MIB, 3);
    let mut finishes = 0;
    let events = vec![
        Event::Item(Ok(b"abc".to_vec())),
        Event::EndOfInput,
        Event::EndOfInput,
        Event::Item(Ok(b"def".to_vec())),
        Event::Finished(Ok(())),
        Event::EndOfInput,
        Event::Finished(Err(other("late"))),
    ];
    for event in events {
        let (after, action) = tee.step(event);
        tee = after;
        if let Action::Finish(_) = action {
            finishes += 1;
        }
    }
    assert_eq!(finishes, 1);
    assert_eq!(tee.phase(), Phase::Done);
    assert_eq!(tee.bytes_written(), 3);
}

#[test]
fn an_event_out_of_turn_ends_the_stream() {
    let tee = CachingTee::new(MIB, 3);
    let (tee, action) = tee.step(Event::Finished(Ok(())));
    assert!(matches!(action, Action::End));
    assert_eq!(tee.phase(), Phase::Done);
    assert!(!tee.is_active());
    let (tee, action) = tee.step(Event::Item(Ok(b"late".to_vec())));
    assert!(matches!(action, Action::End));
    assert_eq!(tee.phase(), Phase::Done);
    assert_eq!(tee.bytes_written(), 0);

    let tee = CachingTee::new(MIB, 3);
    let (tee, _) = tee.step(Event::EndOfInput);
    let (tee, action) = tee.step(Event::Item(Err(other("late"))));
    assert!(matches!(action, Action::End));
    assert_eq!(tee.phase(), Phase::Done);
}

#[test]
fn artifact_is_kept_at_the_exact_budget_and_dropped_below() {
    let input = noise(1000, 3);
    let roomy = drive(MIB, 3, chunks_of(&input, 100), Ok(()));
    let frame = roomy.finished[0].1.clone().unwrap();
    assert_eq!(decompress(&frame), input);

    let exact = drive(frame.len(), 3, chunks_of(&input, 100), Ok(()));
    assert_eq!(exact.finished, vec![(1000, Some(frame.clone()))]);
    assert_eq!(bytes_seen(&exact), input);

    let tight = drive(frame.len() - 1, 3, chunks_of(&input, 100), Ok(()));
    assert_eq!(tight.finished, vec![(1000, None)]);
    assert_eq!(bytes_seen(&tight), input);
}

#[test]
fn abandoned_cache_counts_no_later_chunk() {
    let input = noise(2 * MIB, 11);
    let mut tee = CachingTee::new(16, 1);
    let mut frozen = None;
    for chunk in input.chunks(65536) {
        let (after, _) = tee.step(Event::Item(Ok(chunk.to_vec())));
        tee = after;
        match frozen {
            None => {
                if !tee.is_active() {
                    frozen = Some(tee.bytes_written());
                }
            }
            Some(count) => {
                assert!(!tee.is_active());
                assert_eq!(tee.bytes_written(), count);
            }
        }
    }
    let count = frozen.expect("two mebibytes of noise do not fit in 16 bytes");
    let (tee, _) = tee.step(Event::Item(Ok(vec![0])));
    assert_eq!(tee.bytes_written(), count);
    let (tee, action) = tee.step(Event::EndOfInput);
    match action {
        Action::Finish(result) => {
            assert_eq!(result.bytes_written, count);
            assert!(result.artifact.is_none());
        }
        _ => panic!("the end of the input is answered with the result"),
    }
    assert_eq!(tee.bytes_written(), count);
}

#[test]
fn empty_chunk_passes_and_counts_nothing() {
    let seen = drive(MIB, 3, vec![Ok(Vec::new()), Ok(b"x".to_vec()), Ok(Vec::new())], Ok(()));
    assert_eq!(seen.items, vec![Ok(Vec::new()), Ok(b"x".to_vec()), Ok(Vec::new())]);
    assert_eq!(seen.finished[0].0, 1);
    assert_eq!(decompress(seen.finished[0].1.as_ref().unwrap()), b"x".to_vec());
}

#[test]
fn artifact_is_what_a_fresh_compressor_makes_of_the_chunks() {
    let input = noise(300_000, 5);
    let seen = drive(MIB, 5, chunks_of(&input, 4096), Ok(()));
    let artifact = seen.finished[0].1.clone().unwrap();

    let mut compressor = Compressor::new(5);
    for chunk in input.chunks(4096) {
        compressor = compressor.write(chunk).unwrap();
    }
    assert_eq!(compressor.finish().unwrap(), artifact);

    let again = drive(2 * MIB, 5, chunks_of(&input, 4096), Ok(()));
    assert_eq!(again.finished[0].1.as_ref(), Some(&artifact));
    assert_eq!(decompress(&artifact), input);
}

#[test]
fn every_level_gives_a_stream_that_decompresses() {
    let input = b"the quick brown fox jumps over the lazy dog, again and again and again".to_vec();
    for level in [i32::MIN, -5, 0, 1, 3, 19, 22, 1000, i32::MAX] {
        let seen = drive(MIB, level, vec![Ok(input.clone())], Ok(()));
        assert_eq!(seen.end.compression_level(), level);
        assert_eq!(seen.finished[0].0, input.len() as u64);
        assert_eq!(decompress(seen.finished[0].1.as_ref().unwrap()), input);
    }
}
