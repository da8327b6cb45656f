//! Line settings of a serial device, and the settings of the backend.
use vstd::prelude::*;

verus! {

/// Number of data bits in one character on the line.
#[derive(Clone, Copy, Debug, PartialEq, Eq, Structural)]
pub enum DataBits {
    Five,
    Six,
    Seven,
    Eight,
}

/// Parity checking on the line.
#[derive(Clone, Copy, Debug, PartialEq, Eq, Structural)]
pub enum Parity {
    NoParity,
    Odd,
    Even,
}

/// Number of stop bits after each character.
#[derive(Clone, Copy, Debug, PartialEq, Eq, Structural)]
pub enum StopBits {
    One,
    Two,
}

/// Flow control on the line.
#[derive(Clone, Copy, Debug, PartialEq, Eq, Structural)]
pub enum FlowControl {
    NoFlowControl,
    Software,
    Hardware,
}

impl DataBits {
    /// The number of bits this setting stands for.
    pub open spec fn spec_count(self) -> u8 {
        match self {
            DataBits::Five => 5,
            DataBits::Six => 6,
            DataBits::Seven => 7,
            DataBits::Eight => 8,
        }
    }

    pub fn count(self) -> (r: u8)
        ensures
            r == self.spec_count(),
            5 <= r <= 8,
    {
        match self {
            DataBits::Five => 5,
            DataBits::Six => 6,
            DataBits::Seven => 7,
            DataBits::Eight => 8,
        }
    }
}


/// The operating system the library runs on, which decides the default
/// device path.
#[derive(Clone, Copy, Debug, PartialEq, Eq, Structural)]
pub enum Platform {
    MacOs,
    Linux,
    FreeBsd,
    OpenBsd,
    Windows,
    Other,
}

pub open spec fn spec_default_tty_path(p: Platform) -> Seq<char> {
    match p {
        Platform::MacOs => "/dev/cu.usbserial-2110"@,
        Platform::Linux => "/dev/ttyUSB0"@,
        Platform::FreeBsd => "/dev/cuaU0"@,
        Platform::OpenBsd => "/dev/ttyU0"@,
        Platform::Windows => "COM3"@,
        Platform::Other => "/dev/ttyS0"@,
    }
}

/// The device opened when the caller names none.
pub fn default_tty_path(p: Platform) -> (r: &'static str)
    ensures
        r@ == spec_default_tty_path(p),
{
    match p {
        Platform::MacOs => "/dev/cu.usbserial-2110",
        Platform::Linux => "/dev/ttyUSB0",
        Platform::FreeBsd => "/dev/cuaU0",
        Platform::OpenBsd => "/dev/ttyU0",
        Platform::Windows => "COM3",
        Platform::Other => "/dev/ttyS0",
    }
}

/// Whether `name` is among the names of the serial devices found on the
/// system. A name that is not found is still tried: the device may be
/// missing from the enumeration only.
pub fn port_listed(ports: &Vec<String>, name: &String) -> (r: bool)
    ensures
        r == exists|i: int| 0 <= i < ports@.len() && #[trigger] ports@[i]@ == name@,
{
    let mut i: usize = 0;
    while i < ports.len()
        invariant
            i <= ports@.len(),
            forall|j: int| 0 <= j < i ==> #[trigger] ports@[j]@ != name@,
        decreases ports@.len() - i,
    {
        if ports[i] == *name {
            return true;
        }
        i = i + 1;
    }
    false
}

pub const DEFAULT_BAUDRATE: u32 = 115200;

pub const DEFAULT_TIMEOUT_MS: u64 = 100;

/// Everything needed to open a serial line. A value type: each setter
/// gives a new value that differs in one field.
#[derive(Clone, Debug, PartialEq, Eq)]
pub struct SerialTtyOptions {
    /// Path or name of the device.
    pub name: String,
    /// Line speed; zero leaves the speed as the device has it.
    pub baud_rate: u32,
    pub data_bits: DataBits,
    pub flow_control: FlowControl,
    pub parity: Parity,
    pub stop_bits: StopBits,
    /// Read timeout, in milliseconds.
    pub timeout_ms: u64,
}

impl SerialTtyOptions {
    /// The platform's default device at 115200 baud, 8 data bits, no
    /// parity, one stop bit, no flow control and a 100 ms timeout.
    pub fn default_for(p: Platform) -> (r: SerialTtyOptions)
        ensures
            r.name@ == spec_default_tty_path(p),
            r.baud_rate == DEFAULT_BAUDRATE,
            r.data_bits == DataBits::Eight,
            r.flow_control == FlowControl::NoFlowControl,
            r.parity == Parity::NoParity,
            r.stop_bits == StopBits::One,
            r.timeout_ms == DEFAULT_TIMEOUT_MS,
    {
        SerialTtyOptions {
            name: default_tty_path(p).to_owned(),
            baud_rate: DEFAULT_BAUDRATE,
            data_bits: DataBits::Eight,
            flow_control: FlowControl::NoFlowControl,
            parity: Parity::NoParity,
            stop_bits: StopBits::One,
            timeout_ms: DEFAULT_TIMEOUT_MS,
        }
    }

    pub fn set_name(self, path: &str) -> (r: Self)
        ensures
            r == (SerialTtyOptions { name: r.name, ..self }),
            r.name@ == path@,
    {
        SerialTtyOptions { name: path.to_owned(), ..self }
    }

    pub fn set_baud_rate(self, baud_rate: u32) -> (r: Self)
        ensures
            r == (SerialTtyOptions { baud_rate, ..self }),
    {
        SerialTtyOptions { baud_rate, ..self }
    }

    pub fn set_data_bits(self, data_bits: DataBits) -> (r: Self)
        ensures
            r == (SerialTtyOptions { data_bits, ..self }),
    {
        SerialTtyOptions { data_bits, ..self }
    }

    pub fn set_flow_control(self, flow_control: FlowControl) -> (r: Self)
        ensures
            r == (SerialTtyOptions { flow_control, ..self }),
    {
        SerialTtyOptions { flow_control, ..self }
    }

    pub fn set_parity(self, parity: Parity) -> (r: Self)
        ensures
            r == (SerialTtyOptions { parity, ..self }),
    {
        SerialTtyOptions { parity, ..self }
    }

    pub fn set_stop_bits(self, stop_bits: StopBits) -> (r: Self)
        ensures
            r == (SerialTtyOptions { stop_bits, ..self }),
    {
        SerialTtyOptions { stop_bits, ..self }
    }

    pub fn set_timeout(self, timeout_ms: u64) -> (r: Self)
        ensures
            r == (SerialTtyOptions { timeout_ms, ..self }),
    {
        SerialTtyOptions { timeout_ms, ..self }
    }
}

/// Settings of the backend process: a program and its arguments.
#[derive(Debug, Clone)]
pub struct BackendSettings {
    pub shell: String,
    pub args: Vec<String>,
}

impl Default for BackendSettings {
    fn default() -> (r: Self)
        ensures
            r.shell@ == "/bin/bash"@,
            r.args@.len() == 0,
    {
        BackendSettings { shell: "/bin/bash".to_owned(), args: Vec::new() }
    }
}

} // verus!
