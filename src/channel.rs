//! The control channel: messages from any thread to the loop, with a
//! lookahead of one message on the loop's side.
use crate::write_queue::State;
use vstd::prelude::*;

verus! {

#[verifier::external_type_specification]
#[verifier::external_body]
#[verifier::reject_recursive_types(T)]
pub struct ExReceiver<T>(std::sync::mpsc::Receiver<T>);

#[verifier::external_type_specification]
#[verifier::external_body]
#[verifier::reject_recursive_types(T)]
pub struct ExSender<T>(std::sync::mpsc::Sender<T>);

/// Relies on `Clone` of `std::sync::mpsc::Sender`: another sender on the
/// same channel, so that producers can be handed out.
pub assume_specification<T>[ <std::sync::mpsc::Sender<T> as Clone>::clone ](
    s: &std::sync::mpsc::Sender<T>,
) -> std::sync::mpsc::Sender<T>;

/// Size of the terminal window, in cells and in pixels per cell.
#[derive(Clone, Copy, Debug, PartialEq, Eq, Structural)]
pub struct WindowSize {
    pub num_lines: u16,
    pub num_cols: u16,
    pub cell_width: u16,
    pub cell_height: u16,
}

/// Messages that may be sent to the loop.
#[derive(Debug)]
pub enum SerialMsg {
    /// Bytes to write to the device.
    Input(Vec<u8>),
    /// The loop must stop.
    Shutdown,
    /// The window was resized.
    Resize(WindowSize),
}

/// The payload bytes of the `Input` messages among `msgs`, in order.
pub open spec fn input_bytes(msgs: Seq<SerialMsg>) -> Seq<u8>
    decreases msgs.len(),
{
    if msgs.len() == 0 {
        Seq::empty()
    } else {
        let rest = input_bytes(msgs.drop_last());
        match msgs.last() {
            SerialMsg::Input(b) => rest + b@,
            _ => rest,
        }
    }
}

/// What a non-blocking receive found.
enum TryRecv<T> {
    Item(T),
    Empty,
    Disconnected,
}

/// Relies on `std::sync::mpsc::Receiver::try_recv`: a message, or that none
/// is waiting, or that every sender is gone. Which one depends on other
/// threads, so nothing more is stated.
#[verifier::external_body]
fn try_recv_from<T>(rx: &std::sync::mpsc::Receiver<T>) -> (r: TryRecv<T>) {
    match rx.try_recv() {
        Ok(m) => TryRecv::Item(m),
        Err(std::sync::mpsc::TryRecvError::Empty) => TryRecv::Empty,
        Err(std::sync::mpsc::TryRecvError::Disconnected) => TryRecv::Disconnected,
    }
}

/// Relies on `std::sync::mpsc::Sender::send`: when the receiver is gone the
/// value comes back in the error.
#[verifier::external_body]
fn send_to<T>(tx: &std::sync::mpsc::Sender<T>, value: T) -> (r: Result<(), T>)
    ensures
        r matches Err(v) ==> v == value,
{
    match tx.send(value) {
        Ok(()) => Ok(()),
        Err(e) => Err(e.0),
    }
}

/// Every sender of the channel is gone while the loop still receives.
#[derive(Clone, Copy, Debug, PartialEq, Eq, Structural)]
pub struct ChannelClosed;

/// The loop's end of the channel, able to look one message ahead.
#[verifier::reject_recursive_types(T)]
pub struct PeekableReceiver<T> {
    rx: std::sync::mpsc::Receiver<T>,
    peeked: Option<T>,
    taken: Ghost<Seq<T>>,
}

/// The receiving end as a value: the message looked at and not yet taken,
/// and every message taken so far.
pub struct ReceiverView<T> {
    pub peeked: Option<T>,
    pub taken: Seq<T>,
}

impl<T> View for PeekableReceiver<T> {
    type V = ReceiverView<T>;

    closed spec fn view(&self) -> ReceiverView<T> {
        ReceiverView { peeked: self.peeked, taken: self.taken@ }
    }
}

impl<T> PeekableReceiver<T> {
    pub fn new(rx: std::sync::mpsc::Receiver<T>) -> (r: Self)
        ensures
            r@.peeked.is_none(),
            r@.taken.len() == 0,
    {
        PeekableReceiver { rx, peeked: None, taken: Ghost(Seq::empty()) }
    }

    /// The next message, without taking it. A message already looked at is
    /// given again, so that repeated calls agree.
    pub fn peek(&mut self) -> (r: Option<&T>)
        ensures
            final(self)@.taken == old(self)@.taken,
            old(self)@.peeked.is_some() ==> final(self)@ == old(self)@,
            match r {
                Some(m) => final(self)@.peeked == Some(*m),
                None => final(self)@.peeked.is_none(),
            },
    {
        if self.peeked.is_none() {
            self.peeked = match try_recv_from(&self.rx) {
                TryRecv::Item(m) => Some(m),
                _ => None,
            };
        }
        self.peeked.as_ref()
    }

    /// Takes the next message: the one looked at, if any, else one that is
    /// waiting. `Ok(None)` when none is waiting; an error when no message
    /// can ever come again.
    pub fn recv(&mut self) -> (r: Result<Option<T>, ChannelClosed>)
        ensures
            final(self)@.peeked.is_none(),
            old(self)@.peeked matches Some(m) ==> r == Ok::<Option<T>, ChannelClosed>(Some(m)),
            match r {
                Ok(Some(m)) => final(self)@.taken == old(self)@.taken.push(m),
                _ => final(self)@.taken == old(self)@.taken,
            },
    {
        match self.peeked.take() {
            Some(m) => {
                self.taken = Ghost(self.taken@.push(m));
                Ok(Some(m))
            },
            None => match try_recv_from(&self.rx) {
                TryRecv::Item(m) => {
                    self.taken = Ghost(self.taken@.push(m));
                    Ok(Some(m))
                },
                TryRecv::Empty => Ok(None),
                TryRecv::Disconnected => Err(ChannelClosed),
            },
        }
    }
}

/// Applies one message taken from the channel: input joins the write queue
/// in order, a resize needs nothing of a serial line, and a shutdown ends
/// the drain. Returns false on shutdown.
pub fn handle_message(state: &mut State, msg: SerialMsg) -> (r: bool)
    requires
        old(state).wf(),
    ensures
        final(state).wf(),
        r == !(msg is Shutdown),
        final(state)@.current == old(state)@.current,
        final(state)@.delivered == old(state)@.delivered,
        final(state)@.pending() == old(state)@.pending() + input_bytes(seq![msg]),
        final(state)@.submitted == old(state)@.submitted + input_bytes(seq![msg]),
{
    let ghost m = msg;
    assert(seq![m].drop_last() =~= Seq::<SerialMsg>::empty());
    assert(input_bytes(seq![m].drop_last()) == Seq::<u8>::empty());
    match msg {
        SerialMsg::Input(bytes) => {
            assert(input_bytes(seq![m]) =~= bytes@);
            state.push_input(bytes);
            true
        },
        SerialMsg::Resize(_) => {
            assert(old(state)@.pending() + input_bytes(seq![m]) =~= old(state)@.pending());
            assert(old(state)@.submitted + input_bytes(seq![m]) =~= old(state)@.submitted);
            true
        },
        SerialMsg::Shutdown => {
            assert(old(state)@.pending() + input_bytes(seq![m]) =~= old(state)@.pending());
            assert(old(state)@.submitted + input_bytes(seq![m]) =~= old(state)@.submitted);
            false
        },
    }
}

/// A message could not be sent: the loop is gone. The message comes back.
#[derive(Debug)]
pub enum SerialEventLoopSendError {
    Send(SerialMsg),
}

/// A producer's end of the channel.
#[derive(Clone)]
pub struct SerialEventLoopSender {
    sender: std::sync::mpsc::Sender<SerialMsg>,
}

impl SerialEventLoopSender {
    pub fn new(sender: std::sync::mpsc::Sender<SerialMsg>) -> SerialEventLoopSender {
        SerialEventLoopSender { sender }
    }

    /// Hands a message to the loop without blocking.
    pub fn send(&self, msg: SerialMsg) -> (r: Result<(), SerialEventLoopSendError>)
        ensures
            r matches Err(SerialEventLoopSendError::Send(m)) ==> m == msg,
    {
        match send_to(&self.sender, msg) {
            Ok(()) => Ok(()),
            Err(m) => Err(SerialEventLoopSendError::Send(m)),
        }
    }
}

/// What the terminal hands to the loop: its output and its resizes.
pub struct SerialNotifier(pub SerialEventLoopSender);

impl SerialNotifier {
    /// Queues bytes for the device. Nothing is sent for no bytes: an empty
    /// write would hang the terminal. A loop that is gone is ignored.
    pub fn notify(&self, bytes: Vec<u8>) -> (r: bool)
        ensures
            bytes@.len() == 0 ==> !r,
    {
        if bytes.len() == 0 {
            return false;
        }
        self.0.send(SerialMsg::Input(bytes)).is_ok()
    }

    /// Forwards a resize to the loop. A loop that is gone is ignored.
    pub fn on_resize(&mut self, window_size: WindowSize) -> (r: bool) {
        self.0.send(SerialMsg::Resize(window_size)).is_ok()
    }
}

} // verus!
