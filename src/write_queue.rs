//! The write queue: buffers waiting for the device, and the one in flight.
use vstd::prelude::*;
use vstd::slice::slice_subrange;

verus! {

/// What is known of a buffer being written: its bytes, and how many of
/// them the device has taken so far.
pub struct WritingView {
    pub source: Seq<u8>,
    pub written: nat,
}

/// A buffer that is being written to the device, with a cursor over the
/// bytes already taken.
pub struct Writing {
    source: Vec<u8>,
    written: usize,
}

impl View for Writing {
    type V = WritingView;

    closed spec fn view(&self) -> WritingView {
        WritingView { source: self.source@, written: self.written as nat }
    }
}

impl Writing {
    /// The cursor stands inside the buffer.
    pub open spec fn wf(&self) -> bool {
        self@.written <= self@.source.len()
    }

    /// The bytes the device has not taken yet.
    pub open spec fn remaining(&self) -> Seq<u8> {
        self@.source.subrange(self@.written as int, self@.source.len() as int)
    }

    pub fn new(c: Vec<u8>) -> (r: Writing)
        ensures
            r.wf(),
            r@.source == c@,
            r@.written == 0,
    {
        Writing { source: c, written: 0 }
    }

    /// Records that the device took `n` more bytes.
    pub fn advance(&mut self, n: usize)
        requires
            old(self).wf(),
            old(self)@.written + n <= old(self)@.source.len(),
        ensures
            final(self).wf(),
            final(self)@.source == old(self)@.source,
            final(self)@.written == old(self)@.written + n,
    {
        let len = self.source.len();
        assert(self.written + n <= len);
        self.written = self.written + n;
    }

    pub fn remaining_bytes(&self) -> (r: &[u8])
        requires
            self.wf(),
        ensures
            r@ == self.remaining(),
    {
        slice_subrange(self.source.as_slice(), self.written, self.source.len())
    }

    pub fn finished(&self) -> (r: bool)
        ensures
            r == (self@.written >= self@.source.len()),
    {
        self.written >= self.source.len()
    }
}

/// What a device write reported.
#[derive(Clone, Copy, Debug, PartialEq, Eq, Structural)]
pub enum WriteOutcome {
    /// The device took this many bytes (zero: it takes none right now).
    Wrote(usize),
    WouldBlock,
    Interrupted,
    /// Any other error: fatal to the loop.
    Failed,
}

/// What the writer path does next.
#[derive(Clone, Copy, Debug, PartialEq, Eq, Structural)]
pub enum WriteStep {
    /// Write the bytes that `State::current_bytes` now gives.
    Continue,
    /// Stop for this writable event; nothing is lost.
    Yield,
    /// Stop the loop with the error.
    Fail,
}

/// The write queue as a value: the remaining bytes of the entry in flight,
/// the entries behind it, every byte ever queued and every byte the device
/// has taken.
pub struct StateView {
    pub current: Option<Seq<u8>>,
    pub queued: Seq<Seq<u8>>,
    pub submitted: Seq<u8>,
    pub delivered: Seq<u8>,
}

impl StateView {
    /// Bytes still owed to the device, in the order they must go out.
    pub open spec fn pending(self) -> Seq<u8> {
        match self.current {
            Some(c) => c + self.queued.flatten(),
            None => self.queued.flatten(),
        }
    }
}

/// The writer side of the loop's state: queued input and the buffer in
/// flight.
pub struct State {
    write_list: std::collections::VecDeque<Vec<u8>>,
    writing: Option<Writing>,
    submitted: Ghost<Seq<u8>>,
    delivered: Ghost<Seq<u8>>,
}

impl View for State {
    type V = StateView;

    closed spec fn view(&self) -> StateView {
        StateView {
            current: match self.writing {
                Some(w) => Some(w.remaining()),
                None => None,
            },
            queued: self.write_list@.map_values(|v: Vec<u8>| v@),
            submitted: self.submitted@,
            delivered: self.delivered@,
        }
    }
}

impl State {
    /// The entry in flight has bytes left, every queued entry is non-empty,
    /// and what was queued is what was delivered followed by what is
    /// pending.
    pub closed spec fn wf(&self) -> bool {
        &&& match self.writing {
            Some(w) => w.wf() && w.remaining().len() > 0,
            None => true,
        }
        &&& forall|i: int| 0 <= i < self.write_list@.len() ==> #[trigger] self.write_list@[i]@.len() > 0
        &&& self.submitted@ == self.delivered@ + self@.pending()
    }

    /// Facts of a well-formed queue that callers need.
    pub proof fn lemma_wf(&self)
        requires
            self.wf(),
        ensures
            self@.submitted == self@.delivered + self@.pending(),
            self@.current matches Some(c) ==> c.len() > 0,
            forall|i: int| 0 <= i < self@.queued.len() ==> #[trigger] self@.queued[i].len() > 0,
    {
    }

    pub fn new() -> (r: State)
        ensures
            r.wf(),
            r@.current.is_none(),
            r@.queued.len() == 0,
            r@.submitted.len() == 0,
            r@.delivered.len() == 0,
    {
        let r = State {
            write_list: std::collections::VecDeque::new(),
            writing: None,
            submitted: Ghost(Seq::empty()),
            delivered: Ghost(Seq::empty()),
        };
        assert(r@.queued =~= Seq::<Seq<u8>>::empty());
        assert(r.delivered@ + r@.pending() =~= r.submitted@);
        r
    }

    /// Queues a buffer behind everything already queued. An empty buffer
    /// holds nothing to send and is not queued.
    pub fn push_input(&mut self, input: Vec<u8>)
        requires
            old(self).wf(),
        ensures
            final(self).wf(),
            final(self)@.current == old(self)@.current,
            final(self)@.queued == (if input@.len() == 0 {
                old(self)@.queued
            } else {
                old(self)@.queued.push(input@)
            }),
            final(self)@.pending() == old(self)@.pending() + input@,
            final(self)@.submitted == old(self)@.submitted + input@,
            final(self)@.delivered == old(self)@.delivered,
    {
        let ghost old_pending = self@.pending();
        let ghost bytes = input@;
        if input.len() == 0 {
            assert(old_pending + bytes =~= old_pending);
            assert(self.submitted@ + bytes =~= self.submitted@);
            return;
        }
        let ghost old_queued = self@.queued;
        self.write_list.push_back(input);
        assert(self@.queued =~= old_queued.push(bytes));
        proof {
            old_queued.lemma_flatten_push(bytes);
        }
        self.submitted = Ghost(self.submitted@ + bytes);
        assert(self@.pending() =~= old_pending + bytes);
        assert(self.delivered@ + self@.pending() =~= self.submitted@);
    }

    /// Whether any byte is still owed to the device.
    pub fn needs_write(&self) -> (r: bool)
        requires
            self.wf(),
        ensures
            r == (self@.current.is_some() || self@.queued.len() > 0),
            r == (self@.pending().len() > 0),
    {
        proof {
            self.lemma_pending_empty();
        }
        self.writing.is_some() || self.write_list.len() > 0
    }

    proof fn lemma_pending_empty(&self)
        requires
            self.wf(),
        ensures
            (self@.pending().len() > 0) == (self@.current.is_some() || self@.queued.len() > 0),
    {
        let q = self@.queued;
        if q.len() > 0 {
            assert(q[0].len() > 0);
            assert(q.flatten() == q.first() + q.drop_first().flatten());
        } else {
            assert(q.flatten() == Seq::<u8>::empty());
        }
    }

    /// Makes the head of the queue the entry in flight, unless one is
    /// already in flight.
    pub fn ensure_next(&mut self)
        requires
            old(self).wf(),
        ensures
            final(self).wf(),
            final(self)@.pending() == old(self)@.pending(),
            final(self)@.submitted == old(self)@.submitted,
            final(self)@.delivered == old(self)@.delivered,
            old(self)@.current.is_some() ==> final(self)@ == old(self)@,
            old(self)@.current.is_none() && old(self)@.queued.len() > 0 ==> {
                &&& final(self)@.current == Some(old(self)@.queued[0])
                &&& final(self)@.queued == old(self)@.queued.drop_first()
            },
            old(self)@.current.is_none() && old(self)@.queued.len() == 0 ==> final(self)@
                == old(self)@,
    {
        if self.writing.is_none() {
            self.goto_next();
        }
    }

    /// Replaces the entry in flight by the head of the queue.
    fn goto_next(&mut self)
        requires
            old(self).wf(),
            old(self).writing.is_none(),
        ensures
            final(self).wf(),
            final(self)@.submitted == old(self)@.submitted,
            final(self)@.delivered == old(self)@.delivered,
            final(self)@.pending() == old(self)@.queued.flatten(),
            old(self)@.queued.len() > 0 ==> {
                &&& final(self)@.current == Some(old(self)@.queued[0])
                &&& final(self)@.queued == old(self)@.queued.drop_first()
            },
            old(self)@.queued.len() == 0 ==> final(self)@.current.is_none() && final(self)@.queued
                == old(self)@.queued,
    {
        let ghost q = self@.queued;
        let ghost list = self.write_list@;
        match self.write_list.pop_front() {
            Some(v) => {
                let w = Writing::new(v);
                assert(w.remaining() =~= list[0]@);
                assert(list[0]@.len() > 0);
                self.writing = Some(w);
                assert(self@.queued =~= q.drop_first());
                assert(q.flatten() == q.first() + q.drop_first().flatten());
            },
            None => {
                self.writing = None;
            },
        }
    }

    /// The bytes of the entry in flight that the device has not taken.
    pub fn current_bytes(&self) -> (r: Option<&[u8]>)
        requires
            self.wf(),
        ensures
            match r {
                Some(b) => self@.current == Some(b@),
                None => self@.current.is_none(),
            },
    {
        match &self.writing {
            Some(w) => Some(w.remaining_bytes()),
            None => None,
        }
    }

    /// The writer path's decision after one device write of
    /// `current_bytes()`: bytes the device took leave the queue, in order,
    /// and the next entry follows within the same event; a write of zero
    /// bytes, `WouldBlock` or `Interrupted` ends the event with the entry
    /// kept in flight; any other error ends the loop.
    pub fn on_write(&mut self, outcome: WriteOutcome) -> (r: WriteStep)
        requires
            old(self).wf(),
            old(self)@.current.is_some(),
            outcome matches WriteOutcome::Wrote(n) ==> n <= old(self)@.current.unwrap().len(),
        ensures
            final(self).wf(),
            final(self)@.submitted == old(self)@.submitted,
            match outcome {
                WriteOutcome::Wrote(n) if n > 0 => {
                    let cur = old(self)@.current.unwrap();
                    &&& final(self)@.delivered == old(self)@.delivered + cur.take(n as int)
                    &&& final(self)@.pending() == old(self)@.pending().skip(n as int)
                    &&& if n < cur.len() {
                        &&& final(self)@.current == Some(cur.skip(n as int))
                        &&& final(self)@.queued == old(self)@.queued
                    } else if old(self)@.queued.len() > 0 {
                        &&& final(self)@.current == Some(old(self)@.queued[0])
                        &&& final(self)@.queued == old(self)@.queued.drop_first()
                    } else {
                        &&& final(self)@.current.is_none()
                        &&& final(self)@.queued == old(self)@.queued
                    }
                    &&& r == (if final(self)@.pending().len() > 0 {
                        WriteStep::Continue
                    } else {
                        WriteStep::Yield
                    })
                },
                WriteOutcome::Failed => final(self)@ == old(self)@ && r == WriteStep::Fail,
                _ => final(self)@ == old(self)@ && r == WriteStep::Yield,
            },
    {
        match outcome {
            WriteOutcome::Wrote(n) => {
                if n == 0 {
                    return WriteStep::Yield;
                }
                let ghost old_view = self@;
                let ghost cur = old_view.current.unwrap();
                let ghost tail = old_view.queued.flatten();
                let mut current = self.take_current();
                self.delivered = Ghost(self.delivered@ + cur.take(n as int));
                current.advance(n);
                assert(current.remaining() =~= cur.skip(n as int));
                assert(old_view.pending() == cur + tail);
                assert((cur + tail).skip(n as int) =~= cur.skip(n as int) + tail);
                assert(cur + tail =~= cur.take(n as int) + (cur.skip(n as int) + tail));
                if current.finished() {
                    assert(cur.skip(n as int) =~= Seq::<u8>::empty());
                    assert(cur.skip(n as int) + tail =~= tail);
                    assert(cur.take(n as int) =~= cur);
                    assert(self.submitted@ =~= self.delivered@ + self@.pending());
                    self.goto_next();
                    proof {
                        self.lemma_pending_empty();
                    }
                    if self.writing.is_some() {
                        WriteStep::Continue
                    } else {
                        WriteStep::Yield
                    }
                } else {
                    self.writing = Some(current);
                    assert(self.delivered@ + self@.pending() =~= self.submitted@);
                    WriteStep::Continue
                }
            },
            WriteOutcome::WouldBlock | WriteOutcome::Interrupted => WriteStep::Yield,
            WriteOutcome::Failed => WriteStep::Fail,
        }
    }

    /// Takes the entry in flight out of the state.
    fn take_current(&mut self) -> (r: Writing)
        requires
            old(self).wf(),
            old(self).writing.is_some(),
        ensures
            Some(r) == old(self).writing,
            final(self).writing.is_none(),
            final(self).write_list == old(self).write_list,
            final(self).submitted == old(self).submitted,
            final(self).delivered == old(self).delivered,
    {
        self.writing.take().unwrap()
    }
}

/// Order preservation: every byte the device took is the next byte of the
/// queued input, in the order it was queued; once nothing is pending, the
/// bytes handed to the device are exactly the bytes queued.
pub proof fn law_writes_follow_input_order(s: &State)
    requires
        s.wf(),
    ensures
        s@.delivered + s@.pending() == s@.submitted,
        s@.delivered.len() <= s@.submitted.len(),
        s@.delivered == s@.submitted.take(s@.delivered.len() as int),
        s@.pending().len() == 0 ==> s@.delivered == s@.submitted,
{
    s.lemma_wf();
    assert(s@.submitted.take(s@.delivered.len() as int) =~= s@.delivered);
    if s@.pending().len() == 0 {
        assert(s@.delivered + s@.pending() =~= s@.delivered);
    }
}

} // verus!
