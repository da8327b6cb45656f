//! The reader path: bytes read from the device wait here until the terminal
//! lock is held, then go to the parser one at a time, under two caps.
use vstd::prelude::*;

verus! {

/// Most bytes that may wait unprocessed before the lock is forced.
pub const READ_BUFFER_SIZE: usize = 0x10_0000;

/// Most bytes fed to the parser in one invocation, that is while the
/// terminal lock is held once.
pub const MAX_LOCKED_READ: usize = 0xffff;

/// What a device read reported.
#[derive(Debug)]
pub enum ReadOutcome {
    /// The bytes read; none means that nothing more is readable now.
    Data(Vec<u8>),
    WouldBlock,
    Interrupted,
    /// Any other error: fatal to the invocation.
    Failed,
}

/// What the reader path does next.
#[derive(Clone, Copy, Debug, PartialEq, Eq, Structural)]
pub enum ReadStep {
    /// Read from the device again, at most `read_capacity()` bytes.
    ReadMore,
    /// Try the terminal lock without blocking, then report with `on_try_lock`.
    TryLock,
    /// Block on the terminal lock, then report with `on_forced_lock`.
    ForceLock,
    /// The lock is held: feed the bytes that `take_batch` gives.
    Feed,
    /// The invocation is over; ask `needs_wakeup` whether to notify.
    Finish,
    /// The invocation ends with the device's error.
    Fail,
}

/// The reader path as a value: bytes waiting for the parser, bytes fed in
/// this invocation, whether the lock is held, and the whole streams of bytes
/// read from the device and fed to the parser.
pub struct ReaderView {
    pub unprocessed: Seq<u8>,
    pub processed: nat,
    pub locked: bool,
    pub received: Seq<u8>,
    pub fed: Seq<u8>,
}

/// State of the reader path. It lives as long as the loop: bytes left over
/// when the cap is reached are fed in a later invocation.
pub struct ReadCycle {
    unprocessed: Vec<u8>,
    processed: usize,
    locked: bool,
    received: Ghost<Seq<u8>>,
    fed: Ghost<Seq<u8>>,
}

impl View for ReadCycle {
    type V = ReaderView;

    closed spec fn view(&self) -> ReaderView {
        ReaderView {
            unprocessed: self.unprocessed@,
            processed: self.processed as nat,
            locked: self.locked,
            received: self.received@,
            fed: self.fed@,
        }
    }
}

/// Whether a notification is owed at the end of an invocation: something
/// was fed and not all of it went into a synchronized update.
pub open spec fn spec_needs_wakeup(processed: nat, sync_bytes: nat) -> bool {
    processed > 0 && sync_bytes < processed
}

impl ReadCycle {
    /// Both caps hold, and the bytes fed are the bytes received, minus those
    /// still waiting at the end.
    pub open spec fn wf(&self) -> bool {
        &&& self@.unprocessed.len() <= READ_BUFFER_SIZE
        &&& self@.processed <= MAX_LOCKED_READ
        &&& self@.received == self@.fed + self@.unprocessed
    }

    pub fn new() -> (r: ReadCycle)
        ensures
            r.wf(),
            r@.unprocessed.len() == 0,
            r@.processed == 0,
            !r@.locked,
            r@.received.len() == 0,
            r@.fed.len() == 0,
    {
        let r = ReadCycle {
            unprocessed: Vec::new(),
            processed: 0,
            locked: false,
            received: Ghost(Seq::empty()),
            fed: Ghost(Seq::empty()),
        };
        assert(r@.fed + r@.unprocessed =~= r@.received);
        r
    }

    /// Starts an invocation: nothing fed yet, lock not held. Bytes left
    /// over from an earlier invocation still wait.
    pub fn begin(&mut self)
        requires
            old(self).wf(),
        ensures
            final(self).wf(),
            final(self)@ == (ReaderView { processed: 0, locked: false, ..old(self)@ }),
    {
        self.processed = 0;
        self.locked = false;
    }

    /// How many bytes the next device read may bring.
    pub fn read_capacity(&self) -> (r: usize)
        requires
            self.wf(),
        ensures
            r == READ_BUFFER_SIZE - self@.unprocessed.len(),
    {
        READ_BUFFER_SIZE - self.unprocessed.len()
    }

    /// Whether the terminal lock is held in this invocation.
    pub fn holds_lock(&self) -> (r: bool)
        ensures
            r == self@.locked,
    {
        self.locked
    }

    /// The number of bytes fed in this invocation.
    pub fn processed(&self) -> (r: usize)
        ensures
            r == self@.processed,
    {
        self.processed
    }

    /// The next step once the bytes are there: feed them if the lock is
    /// held, else try it.
    fn lock_step(&self) -> (r: ReadStep)
        ensures
            r == (if self@.locked {
                ReadStep::Feed
            } else {
                ReadStep::TryLock
            }),
    {
        if self.locked {
            ReadStep::Feed
        } else {
            ReadStep::TryLock
        }
    }

    /// The decision after a device read. Data joins the bytes waiting. With
    /// nothing waiting, an empty read, `WouldBlock` or `Interrupted` ends the
    /// invocation without touching the lock; with bytes waiting they lead to
    /// the lock.
    pub fn on_read(&mut self, outcome: ReadOutcome) -> (r: ReadStep)
        requires
            old(self).wf(),
            outcome matches ReadOutcome::Data(b) ==> b@.len() <= READ_BUFFER_SIZE - old(
                self,
            )@.unprocessed.len(),
        ensures
            final(self).wf(),
            final(self)@.processed == old(self)@.processed,
            final(self)@.locked == old(self)@.locked,
            final(self)@.fed == old(self)@.fed,
            match outcome {
                ReadOutcome::Data(b) => {
                    &&& final(self)@.unprocessed == old(self)@.unprocessed + b@
                    &&& final(self)@.received == old(self)@.received + b@
                    &&& r == (if final(self)@.unprocessed.len() == 0 {
                        ReadStep::Finish
                    } else if old(self)@.locked {
                        ReadStep::Feed
                    } else {
                        ReadStep::TryLock
                    })
                },
                ReadOutcome::Failed => final(self)@ == old(self)@ && r == ReadStep::Fail,
                _ => {
                    &&& final(self)@ == old(self)@
                    &&& r == (if old(self)@.unprocessed.len() == 0 {
                        ReadStep::Finish
                    } else if old(self)@.locked {
                        ReadStep::Feed
                    } else {
                        ReadStep::TryLock
                    })
                },
            },
    {
        match outcome {
            ReadOutcome::Data(b) => {
                let mut b = b;
                if b.len() == 0 && self.unprocessed.len() == 0 {
                    assert(self@.unprocessed + b@ =~= self@.unprocessed);
                    assert(self@.received + b@ =~= self@.received);
                    return ReadStep::Finish;
                }
                let ghost bytes = b@;
                self.unprocessed.append(&mut b);
                self.received = Ghost(self.received@ + bytes);
                assert(self@.fed + self@.unprocessed =~= self@.received);
                self.lock_step()
            },
            ReadOutcome::WouldBlock | ReadOutcome::Interrupted => {
                if self.unprocessed.len() == 0 {
                    ReadStep::Finish
                } else {
                    self.lock_step()
                }
            },
            ReadOutcome::Failed => ReadStep::Fail,
        }
    }

    /// The decision after a try of the lock. Taken: feed. Not taken: read on
    /// and batch more, unless the waiting bytes fill the buffer, in which case
    /// block on the lock.
    pub fn on_try_lock(&mut self, acquired: bool) -> (r: ReadStep)
        requires
            old(self).wf(),
            !old(self)@.locked,
        ensures
            final(self).wf(),
            final(self)@ == (ReaderView { locked: acquired, ..old(self)@ }),
            r == (if acquired {
                ReadStep::Feed
            } else if old(self)@.unprocessed.len() >= READ_BUFFER_SIZE {
                ReadStep::ForceLock
            } else {
                ReadStep::ReadMore
            }),
    {
        if acquired {
            self.locked = true;
            ReadStep::Feed
        } else if self.unprocessed.len() >= READ_BUFFER_SIZE {
            ReadStep::ForceLock
        } else {
            ReadStep::ReadMore
        }
    }

    /// The lock was taken by blocking on it: feed.
    pub fn on_forced_lock(&mut self) -> (r: ReadStep)
        requires
            old(self).wf(),
        ensures
            final(self).wf(),
            final(self)@ == (ReaderView { locked: true, ..old(self)@ }),
            r == ReadStep::Feed,
    {
        self.locked = true;
        ReadStep::Feed
    }

    /// Hands out the next bytes for the parser, oldest first: all that wait,
    /// but no more than keeps this invocation within `MAX_LOCKED_READ`. Once
    /// the cap is reached the invocation ends, and what still waits is fed
    /// in a later one.
    pub fn take_batch(&mut self) -> (r: (Vec<u8>, ReadStep))
        requires
            old(self).wf(),
            old(self)@.locked,
        ensures
            final(self).wf(),
            final(self)@.locked,
            final(self)@.received == old(self)@.received,
            ({
                let k = if old(self)@.unprocessed.len() + old(self)@.processed <= MAX_LOCKED_READ {
                    old(self)@.unprocessed.len()
                } else {
                    (MAX_LOCKED_READ - old(self)@.processed) as nat
                };
                &&& r.0@ == old(self)@.unprocessed.take(k as int)
                &&& final(self)@.unprocessed == old(self)@.unprocessed.skip(k as int)
                &&& final(self)@.fed == old(self)@.fed + r.0@
                &&& final(self)@.processed == old(self)@.processed + k
            }),
            r.1 == (if final(self)@.processed >= MAX_LOCKED_READ {
                ReadStep::Finish
            } else {
                ReadStep::ReadMore
            }),
    {
        let room = MAX_LOCKED_READ - self.processed;
        let k: usize = if self.unprocessed.len() <= room {
            self.unprocessed.len()
        } else {
            room
        };
        let ghost old_unprocessed = self.unprocessed@;
        let mut batch = self.unprocessed.split_off(k);
        std::mem::swap(&mut batch, &mut self.unprocessed);
        assert(batch@ =~= old_unprocessed.take(k as int));
        self.fed = Ghost(self.fed@ + batch@);
        self.processed = self.processed + k;
        assert(self@.fed + self@.unprocessed =~= self@.received) by {
            assert(old_unprocessed =~= old_unprocessed.take(k as int) + old_unprocessed.skip(
                k as int,
            ));
        }
        let step = if self.processed >= MAX_LOCKED_READ {
            ReadStep::Finish
        } else {
            ReadStep::ReadMore
        };
        (batch, step)
    }

    /// Whether the consumer must be woken at the end of the invocation,
    /// given how many of the bytes fed the parser holds back in a
    /// synchronized update.
    pub fn needs_wakeup(&self, sync_bytes: usize) -> (r: bool)
        ensures
            r == spec_needs_wakeup(self@.processed, sync_bytes as nat),
    {
        self.processed > 0 && sync_bytes < self.processed
    }
}

/// Bounded lock hold: in one invocation the parser is fed at most
/// `MAX_LOCKED_READ` bytes, and it is fed only while the lock is held.
pub proof fn law_lock_hold_is_bounded(c: &ReadCycle)
    requires
        c.wf(),
    ensures
        c@.processed <= MAX_LOCKED_READ,
        c@.unprocessed.len() <= READ_BUFFER_SIZE,
{
}

/// Parser input, byte by byte: the state reached from `s` by feeding
/// `bytes` in order to a parser whose one-byte step is `step`.
pub open spec fn feed_bytes<S>(step: spec_fn(S, u8) -> S, s: S, bytes: Seq<u8>) -> S
    decreases bytes.len(),
{
    if bytes.len() == 0 {
        s
    } else {
        feed_bytes(step, step(s, bytes[0]), bytes.drop_first())
    }
}

/// The state reached by feeding the chunks one after the other.
pub open spec fn feed_chunks<S>(step: spec_fn(S, u8) -> S, s: S, chunks: Seq<Seq<u8>>) -> S
    decreases chunks.len(),
{
    if chunks.len() == 0 {
        s
    } else {
        feed_chunks(step, feed_bytes(step, s, chunks[0]), chunks.drop_first())
    }
}

/// Feeding two pieces one after the other is feeding their concatenation.
pub proof fn lemma_feed_concat<S>(step: spec_fn(S, u8) -> S, s: S, a: Seq<u8>, b: Seq<u8>)
    ensures
        feed_bytes(step, s, a + b) == feed_bytes(step, feed_bytes(step, s, a), b),
    decreases a.len(),
{
    if a.len() == 0 {
        assert(a + b =~= b);
    } else {
        assert((a + b).drop_first() =~= a.drop_first() + b);
        lemma_feed_concat(step, step(s, a[0]), a.drop_first(), b);
    }
}

/// Byte-stream equivalence: however the stream is split into the chunks of
/// successive invocations, the parser ends in the state it reaches on the
/// whole stream in one pass.
pub proof fn law_chunking_does_not_matter<S>(
    step: spec_fn(S, u8) -> S,
    s: S,
    chunks: Seq<Seq<u8>>,
)
    ensures
        feed_chunks(step, s, chunks) == feed_bytes(step, s, chunks.flatten()),
    decreases chunks.len(),
{
    if chunks.len() > 0 {
        law_chunking_does_not_matter(step, feed_bytes(step, s, chunks[0]), chunks.drop_first());
        lemma_feed_concat(step, s, chunks[0], chunks.drop_first().flatten());
    }
}

/// What the reader hands to the parser is the stream read from the device,
/// in order: the bytes fed so far are a prefix of the bytes received, and
/// the rest is what waits.
pub proof fn law_fed_bytes_are_the_received_stream(c: &ReadCycle)
    requires
        c.wf(),
    ensures
        c@.fed.len() <= c@.received.len(),
        c@.fed == c@.received.take(c@.fed.len() as int),
        c@.unprocessed == c@.received.skip(c@.fed.len() as int),
{
    assert(c@.fed =~= c@.received.take(c@.fed.len() as int));
    assert(c@.unprocessed =~= c@.received.skip(c@.fed.len() as int));
}

/// Whatever batches the reader handed out, feeding them one after the
/// other leaves the parser where feeding the stream received so far, up to
/// the bytes still waiting, leaves it in one pass.
pub proof fn law_parser_sees_the_device_stream<S>(
    c: &ReadCycle,
    step: spec_fn(S, u8) -> S,
    s: S,
    batches: Seq<Seq<u8>>,
)
    requires
        c.wf(),
        batches.flatten() == c@.fed,
    ensures
        feed_chunks(step, s, batches) == feed_bytes(
            step,
            s,
            c@.received.take(c@.received.len() - c@.unprocessed.len()),
        ),
{
    law_chunking_does_not_matter(step, s, batches);
    law_fed_bytes_are_the_received_stream(c);
}

} // verus!
