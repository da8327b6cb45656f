use egui_serial_term::{ReadCycle, ReadOutcome, ReadStep, MAX_LOCKED_READ, READ_BUFFER_SIZE};

/// Runs one reader-path invocation over `reads`, with a lock that is free
/// from the `free_after`-th try on. Returns the batches fed and the end step.
fn invoke(
    cycle: &mut ReadCycle,
    reads: &mut Vec<ReadOutcome>,
    free_after: usize,
) -> (Vec<Vec<u8>>, ReadStep) {
    cycle.begin();
    let mut tries = 0;
    let mut fed = Vec::new();
    let mut step = ReadStep::ReadMore;
    loop {
        step = match step {
            ReadStep::ReadMore => {
                let outcome = if reads.is_empty() { ReadOutcome::WouldBlock } else { reads.remove(0) };
                cycle.on_read(outcome)
            }
            ReadStep::TryLock => {
                tries += 1;
                cycle.on_try_lock(tries > free_after)
            }
            ReadStep::ForceLock => cycle.on_forced_lock(),
            ReadStep::Feed => {
                let (batch, next) = cycle.take_batch();
                assert!(cycle.processed() <= MAX_LOCKED_READ);
                fed.push(batch);
                next
            }
            done => return (fed, done),
        };
    }
}

#[test]
fn empty_first_read_exits_without_lock() {
    let mut cycle = ReadCycle::new();
    cycle.begin();
    assert_eq!(cycle.on_read(ReadOutcome::Data(Vec::new())), ReadStep::Finish);
    assert!(!cycle.holds_lock());
    assert!(!cycle.needs_wakeup(0));
}

#[test]
fn would_block_with_nothing_waiting_finishes() {
    let mut cycle = ReadCycle::new();
    cycle.begin();
    assert_eq!(cycle.on_read(ReadOutcome::WouldBlock), ReadStep::Finish);
    assert_eq!(cycle.on_read(ReadOutcome::Interrupted), ReadStep::Finish);
    assert!(!cycle.holds_lock());
}

#[test]
fn read_error_fails() {
    let mut cycle = ReadCycle::new();
    cycle.begin();
    assert_eq!(cycle.on_read(ReadOutcome::Failed), ReadStep::Fail);
}

#[test]
fn busy_lock_batches_more_reads() {
    let mut cycle = ReadCycle::new();
    let mut reads = vec![ReadOutcome::Data(b"ab".to_vec()), ReadOutcome::Data(b"cd".to_vec())];
    let (fed, end) = invoke(&mut cycle, &mut reads, 2);
    assert_eq!(fed, vec![b"abcd".to_vec()]);
    assert_eq!(end, ReadStep::Finish);
    assert!(cycle.holds_lock());
    assert!(cycle.needs_wakeup(0));
    assert!(!cycle.needs_wakeup(4));
}

#[test]
fn full_buffer_forces_lock() {
    let mut cycle = ReadCycle::new();
    cycle.begin();
    assert_eq!(cycle.read_capacity(), READ_BUFFER_SIZE);
    assert_eq!(cycle.on_read(ReadOutcome::Data(vec![7u8; READ_BUFFER_SIZE])), ReadStep::TryLock);
    assert_eq!(cycle.read_capacity(), 0);
    assert_eq!(cycle.on_try_lock(false), ReadStep::ForceLock);
    assert_eq!(cycle.on_forced_lock(), ReadStep::Feed);
    let (batch, next) = cycle.take_batch();
    assert_eq!(batch.len(), MAX_LOCKED_READ);
    assert_eq!(next, ReadStep::Finish);
    assert_eq!(cycle.read_capacity(), MAX_LOCKED_READ);
}

#[test]
fn lock_hold_stays_within_cap_and_leftover_is_fed_later() {
    let mut cycle = ReadCycle::new();
    let stream: Vec<u8> = (0..(MAX_LOCKED_READ + 1000)).map(|i| (i % 251) as u8).collect();
    let mut reads = vec![ReadOutcome::Data(stream.clone())];
    let (first, end) = invoke(&mut cycle, &mut reads, 0);
    assert_eq!(end, ReadStep::Finish);
    assert_eq!(cycle.processed(), MAX_LOCKED_READ);
    let (second, _) = invoke(&mut cycle, &mut Vec::new(), 0);
    assert_eq!(cycle.processed(), 1000);
    let all: Vec<u8> = first.into_iter().chain(second).flatten().collect();
    assert_eq!(all, stream);
}

#[test]
fn chunking_gives_the_same_stream() {
    let stream: Vec<u8> = b"\x1b[?2026hhello\x1b[?2026l world".to_vec();
    let mut one = ReadCycle::new();
    let (whole, _) = invoke(&mut one, &mut vec![ReadOutcome::Data(stream.clone())], 0);
    let mut split = ReadCycle::new();
    let mut fed = Vec::new();
    for chunk in stream.chunks(3) {
        let (batches, _) = invoke(&mut split, &mut vec![ReadOutcome::Data(chunk.to_vec())], 1);
        fed.extend(batches.into_iter().flatten());
    }
    assert_eq!(whole.concat(), stream);
    assert_eq!(fed, stream);
}
