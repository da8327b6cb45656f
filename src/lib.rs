//! Transport between a serial line and a terminal state machine: the line
//! settings, the write queue, the control channel, the reader path and the
//! decisions of the polling loop, each with its contract.
pub mod channel;
pub mod line_config;
pub mod options;
pub mod poll_loop;
pub mod reader;
pub mod write_queue;

pub use channel::{
    handle_message, ChannelClosed, PeekableReceiver, SerialEventLoopSendError,
    SerialEventLoopSender, SerialMsg, SerialNotifier, WindowSize,
};
pub use options::{
    BackendSettings, DataBits, FlowControl, Parity, Platform, SerialTtyOptions, StopBits,
};
pub use poll_loop::{sync_due, wait_timeout, EventAction, LoopControl, WakeStep};
pub use reader::{ReadCycle, ReadOutcome, ReadStep, MAX_LOCKED_READ, READ_BUFFER_SIZE};
pub use write_queue::{State, WriteOutcome, WriteStep, Writing};
