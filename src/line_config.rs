//! How line settings become the native serial-control structures: the flag
//! words of a POSIX termios and the fields of a Windows DCB. The platform's
//! own bit values come in as arguments, so that the same rules serve every
//! target.
use crate::options::{DataBits, FlowControl, Parity, SerialTtyOptions, StopBits};
use vstd::prelude::*;

verus! {

/// The four flag words of a termios structure.
#[derive(Clone, Copy, Debug, PartialEq, Eq, Structural)]
pub struct TermiosFlags {
    pub c_iflag: u64,
    pub c_oflag: u64,
    pub c_cflag: u64,
    pub c_lflag: u64,
}

/// The platform's values of the termios bits that the line settings touch.
#[derive(Clone, Copy, Debug, PartialEq, Eq, Structural)]
pub struct TermiosBits {
    pub parenb: u64,
    pub parodd: u64,
    pub inpck: u64,
    pub ignpar: u64,
    pub ixon: u64,
    pub ixoff: u64,
    pub crtscts: u64,
    pub csize: u64,
    pub cs5: u64,
    pub cs6: u64,
    pub cs7: u64,
    pub cs8: u64,
    pub cstopb: u64,
    pub cread: u64,
    pub clocal: u64,
}

pub open spec fn spec_set_parity(t: TermiosFlags, b: TermiosBits, parity: Parity) -> TermiosFlags {
    match parity {
        Parity::NoParity => TermiosFlags {
            c_cflag: t.c_cflag & !(b.parenb | b.parodd),
            c_iflag: (t.c_iflag & !b.inpck) | b.ignpar,
            ..t
        },
        Parity::Odd => TermiosFlags {
            c_cflag: t.c_cflag | (b.parenb | b.parodd),
            c_iflag: (t.c_iflag | b.inpck) & !b.ignpar,
            ..t
        },
        Parity::Even => TermiosFlags {
            c_cflag: (t.c_cflag & !b.parodd) | b.parenb,
            c_iflag: (t.c_iflag | b.inpck) & !b.ignpar,
            ..t
        },
    }
}

pub open spec fn spec_set_flow_control(t: TermiosFlags, b: TermiosBits, flow: FlowControl) -> TermiosFlags {
    match flow {
        FlowControl::NoFlowControl => TermiosFlags {
            c_iflag: t.c_iflag & !(b.ixon | b.ixoff),
            c_cflag: t.c_cflag & !b.crtscts,
            ..t
        },
        FlowControl::Software => TermiosFlags {
            c_iflag: t.c_iflag | (b.ixon | b.ixoff),
            c_cflag: t.c_cflag & !b.crtscts,
            ..t
        },
        FlowControl::Hardware => TermiosFlags {
            c_iflag: t.c_iflag & !(b.ixon | b.ixoff),
            c_cflag: t.c_cflag | b.crtscts,
            ..t
        },
    }
}

/// The character-size bits for a number of data bits.
pub open spec fn spec_size_bits(b: TermiosBits, data_bits: DataBits) -> u64 {
    match data_bits {
        DataBits::Five => b.cs5,
        DataBits::Six => b.cs6,
        DataBits::Seven => b.cs7,
        DataBits::Eight => b.cs8,
    }
}

pub open spec fn spec_set_data_bits(t: TermiosFlags, b: TermiosBits, data_bits: DataBits) -> TermiosFlags {
    TermiosFlags { c_cflag: (t.c_cflag & !b.csize) | spec_size_bits(b, data_bits), ..t }
}

pub open spec fn spec_set_stop_bits(t: TermiosFlags, b: TermiosBits, stop_bits: StopBits) -> TermiosFlags {
    match stop_bits {
        StopBits::One => TermiosFlags { c_cflag: t.c_cflag & !b.cstopb, ..t },
        StopBits::Two => TermiosFlags { c_cflag: t.c_cflag | b.cstopb, ..t },
    }
}

/// Parity, flow control, character size and stop bits, in that order.
pub open spec fn spec_configure(t: TermiosFlags, b: TermiosBits, o: SerialTtyOptions) -> TermiosFlags {
    spec_set_stop_bits(
        spec_set_data_bits(
            spec_set_flow_control(spec_set_parity(t, b, o.parity), b, o.flow_control),
            b,
            o.data_bits,
        ),
        b,
        o.stop_bits,
    )
}

pub fn set_parity(t: &mut TermiosFlags, b: &TermiosBits, parity: Parity)
    ensures
        *final(t) == spec_set_parity(*old(t), *b, parity),
{
    match parity {
        Parity::NoParity => {
            t.c_cflag = t.c_cflag & !(b.parenb | b.parodd);
            t.c_iflag = (t.c_iflag & !b.inpck) | b.ignpar;
        },
        Parity::Odd => {
            t.c_cflag = t.c_cflag | (b.parenb | b.parodd);
            t.c_iflag = (t.c_iflag | b.inpck) & !b.ignpar;
        },
        Parity::Even => {
            t.c_cflag = (t.c_cflag & !b.parodd) | b.parenb;
            t.c_iflag = (t.c_iflag | b.inpck) & !b.ignpar;
        },
    }
}

pub fn set_flow_control(t: &mut TermiosFlags, b: &TermiosBits, flow_control: FlowControl)
    ensures
        *final(t) == spec_set_flow_control(*old(t), *b, flow_control),
{
    match flow_control {
        FlowControl::NoFlowControl => {
            t.c_iflag = t.c_iflag & !(b.ixon | b.ixoff);
            t.c_cflag = t.c_cflag & !b.crtscts;
        },
        FlowControl::Software => {
            t.c_iflag = t.c_iflag | (b.ixon | b.ixoff);
            t.c_cflag = t.c_cflag & !b.crtscts;
        },
        FlowControl::Hardware => {
            t.c_iflag = t.c_iflag & !(b.ixon | b.ixoff);
            t.c_cflag = t.c_cflag | b.crtscts;
        },
    }
}

pub fn set_data_bits(t: &mut TermiosFlags, b: &TermiosBits, data_bits: DataBits)
    ensures
        *final(t) == spec_set_data_bits(*old(t), *b, data_bits),
{
    let size = match data_bits {
        DataBits::Five => b.cs5,
        DataBits::Six => b.cs6,
        DataBits::Seven => b.cs7,
        DataBits::Eight => b.cs8,
    };
    t.c_cflag = t.c_cflag & !b.csize;
    t.c_cflag = t.c_cflag | size;
}

pub fn set_stop_bits(t: &mut TermiosFlags, b: &TermiosBits, stop_bits: StopBits)
    ensures
        *final(t) == spec_set_stop_bits(*old(t), *b, stop_bits),
{
    match stop_bits {
        StopBits::One => t.c_cflag = t.c_cflag & !b.cstopb,
        StopBits::Two => t.c_cflag = t.c_cflag | b.cstopb,
    }
}

/// Enables the receiver and ignores the modem control lines: the first step
/// of preparing a line for raw binary access.
pub fn enable_receiver(t: &mut TermiosFlags, b: &TermiosBits)
    ensures
        *final(t) == (TermiosFlags { c_cflag: old(t).c_cflag | (b.cread | b.clocal), ..*old(t) }),
{
    t.c_cflag = t.c_cflag | (b.cread | b.clocal);
}

/// Applies the framing and flow control of `options` to the flag words.
pub fn configure(t: &mut TermiosFlags, b: &TermiosBits, options: &SerialTtyOptions)
    ensures
        *final(t) == spec_configure(*old(t), *b, *options),
{
    set_parity(t, b, options.parity);
    set_flow_control(t, b, options.flow_control);
    set_data_bits(t, b, options.data_bits);
    set_stop_bits(t, b, options.stop_bits);
}

/// The settings read back from the device are those written: anything else
/// is a configuration error.
pub fn settings_applied(expected: &TermiosFlags, actual: &TermiosFlags) -> (r: bool)
    ensures
        r == (*expected == *actual),
{
    expected.c_iflag == actual.c_iflag && expected.c_oflag == actual.c_oflag
        && expected.c_lflag == actual.c_lflag && expected.c_cflag == actual.c_cflag
}

/// Whether the line speed is set at all: a rate of zero leaves it as it is.
pub fn sets_line_speed(baud_rate: u32) -> (r: bool)
    ensures
        r == (baud_rate > 0),
{
    baud_rate > 0
}

/// The Windows codes that a DCB uses for parity and stop bits.
#[derive(Clone, Copy, Debug, PartialEq, Eq, Structural)]
pub struct DcbCodes {
    pub no_parity: u8,
    pub odd_parity: u8,
    pub even_parity: u8,
    pub one_stop_bit: u8,
    pub two_stop_bits: u8,
}

/// The DCB fields that the line settings decide.
#[derive(Clone, Copy, Debug, PartialEq, Eq, Structural)]
pub struct DcbLine {
    pub baud_rate: u32,
    pub byte_size: u8,
    pub parity: u8,
    pub f_parity: bool,
    pub stop_bits: u8,
    pub f_outx_cts_flow: bool,
    pub f_rts_control: bool,
    pub f_outx: bool,
    pub f_inx: bool,
}

pub open spec fn spec_dcb_line(o: SerialTtyOptions, c: DcbCodes) -> DcbLine {
    DcbLine {
        baud_rate: o.baud_rate,
        byte_size: o.data_bits.spec_count(),
        parity: match o.parity {
            Parity::NoParity => c.no_parity,
            Parity::Odd => c.odd_parity,
            Parity::Even => c.even_parity,
        },
        f_parity: o.parity != Parity::NoParity,
        stop_bits: match o.stop_bits {
            StopBits::One => c.one_stop_bit,
            StopBits::Two => c.two_stop_bits,
        },
        f_outx_cts_flow: o.flow_control == FlowControl::Hardware,
        f_rts_control: o.flow_control == FlowControl::Hardware,
        f_outx: o.flow_control == FlowControl::Software,
        f_inx: o.flow_control == FlowControl::Software,
    }
}

/// The DCB fields for `options`: speed, framing, and flow control by
/// CTS/RTS (hardware) or XON/XOFF (software).
pub fn dcb_line(options: &SerialTtyOptions, codes: &DcbCodes) -> (r: DcbLine)
    ensures
        r == spec_dcb_line(*options, *codes),
{
    let parity = match options.parity {
        Parity::NoParity => codes.no_parity,
        Parity::Odd => codes.odd_parity,
        Parity::Even => codes.even_parity,
    };
    let stop_bits = match options.stop_bits {
        StopBits::One => codes.one_stop_bit,
        StopBits::Two => codes.two_stop_bits,
    };
    let (cts_rts, xon_xoff) = match options.flow_control {
        FlowControl::NoFlowControl => (false, false),
        FlowControl::Software => (false, true),
        FlowControl::Hardware => (true, false),
    };
    DcbLine {
        baud_rate: options.baud_rate,
        byte_size: options.data_bits.count(),
        parity,
        f_parity: match options.parity {
            Parity::NoParity => false,
            _ => true,
        },
        stop_bits,
        f_outx_cts_flow: cts_rts,
        f_rts_control: cts_rts,
        f_outx: xon_xoff,
        f_inx: xon_xoff,
    }
}

/// The largest read and write timeout constant that Windows accepts in the
/// way the timeouts are set up: one below `MAXDWORD`.
pub const MAX_TIMEOUT_CONSTANT: u32 = 0xffff_fffe;

/// The timeout constant for a timeout of `millis` milliseconds: longer
/// timeouts are clamped rather than cut to their low bits.
pub fn timeout_constant(millis: u128) -> (r: u32)
    ensures
        r as u128 == (if millis < MAX_TIMEOUT_CONSTANT as u128 {
            millis
        } else {
            MAX_TIMEOUT_CONSTANT as u128
        }),
{
    if millis < MAX_TIMEOUT_CONSTANT as u128 {
        millis as u32
    } else {
        MAX_TIMEOUT_CONSTANT
    }
}

/// Windows error codes that mean the device is not there or not usable.
pub const ERROR_FILE_NOT_FOUND: u32 = 2;

pub const ERROR_PATH_NOT_FOUND: u32 = 3;

pub const ERROR_ACCESS_DENIED: u32 = 5;

/// How a failure to open a device is reported.
#[derive(Clone, Copy, Debug, PartialEq, Eq, Structural)]
pub enum OpenErrorKind {
    /// The device is missing or may not be opened.
    NoDevice,
    /// Any other system error.
    Io,
}

/// The kind of an open failure from the system's error code.
pub fn open_error_kind(code: u32) -> (r: OpenErrorKind)
    ensures
        r == (if code == ERROR_FILE_NOT_FOUND || code == ERROR_PATH_NOT_FOUND || code
            == ERROR_ACCESS_DENIED {
            OpenErrorKind::NoDevice
        } else {
            OpenErrorKind::Io
        }),
{
    if code == ERROR_FILE_NOT_FOUND || code == ERROR_PATH_NOT_FOUND || code == ERROR_ACCESS_DENIED {
        OpenErrorKind::NoDevice
    } else {
        OpenErrorKind::Io
    }
}

} // verus!
