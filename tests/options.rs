use egui_serial_term::line_config::{
    configure, dcb_line, enable_receiver, open_error_kind, set_data_bits, set_flow_control,
    set_parity, set_stop_bits, sets_line_speed, settings_applied, timeout_constant, DcbCodes,
    OpenErrorKind, TermiosBits, TermiosFlags,
};
use egui_serial_term::options::{default_tty_path, port_listed};
use egui_serial_term::{
    BackendSettings, DataBits, FlowControl, Parity, Platform, SerialTtyOptions, StopBits,
};

/// The Linux values of the termios bits.
fn linux_bits() -> TermiosBits {
    TermiosBits {
        parenb: 0o400,
        parodd: 0o1000,
        inpck: 0o20,
        ignpar: 0o4,
        ixon: 0o2000,
        ixoff: 0o10000,
        crtscts: 0o20000000000,
        csize: 0o60,
        cs5: 0,
        cs6: 0o20,
        cs7: 0o40,
        cs8: 0o60,
        cstopb: 0o100,
        cread: 0o200,
        clocal: 0o4000,
    }
}

fn zero() -> TermiosFlags {
    TermiosFlags { c_iflag: 0, c_oflag: 0, c_cflag: 0, c_lflag: 0 }
}

#[test]
fn defaults_and_setters() {
    let o = SerialTtyOptions::default_for(Platform::Linux);
    assert_eq!(o.name, "/dev/ttyUSB0");
    assert_eq!(o.baud_rate, 115200);
    assert_eq!(o.data_bits, DataBits::Eight);
    assert_eq!(o.parity, Parity::NoParity);
    assert_eq!(o.stop_bits, StopBits::One);
    assert_eq!(o.flow_control, FlowControl::NoFlowControl);
    assert_eq!(o.timeout_ms, 100);
    let o = o
        .set_name("/dev/ttyACM1")
        .set_baud_rate(9600)
        .set_data_bits(DataBits::Seven)
        .set_parity(Parity::Even)
        .set_stop_bits(StopBits::Two)
        .set_flow_control(FlowControl::Hardware)
        .set_timeout(250);
    assert_eq!(o.name, "/dev/ttyACM1");
    assert_eq!(o.baud_rate, 9600);
    assert_eq!(o.data_bits, DataBits::Seven);
    assert_eq!(o.parity, Parity::Even);
    assert_eq!(o.stop_bits, StopBits::Two);
    assert_eq!(o.flow_control, FlowControl::Hardware);
    assert_eq!(o.timeout_ms, 250);
}

#[test]
fn default_paths_per_platform() {
    assert_eq!(default_tty_path(Platform::MacOs), "/dev/cu.usbserial-2110");
    assert_eq!(default_tty_path(Platform::FreeBsd), "/dev/cuaU0");
    assert_eq!(default_tty_path(Platform::OpenBsd), "/dev/ttyU0");
    assert_eq!(default_tty_path(Platform::Windows), "COM3");
    assert_eq!(default_tty_path(Platform::Other), "/dev/ttyS0");
}

#[test]
fn backend_settings_default() {
    let s = BackendSettings::default();
    assert_eq!(s.shell, "/bin/bash");
    assert!(s.args.is_empty());
}

#[test]
fn parity_bits() {
    let b = linux_bits();
    let mut t = TermiosFlags { c_iflag: 0o20, c_oflag: 0, c_cflag: 0o1400, c_lflag: 0 };
    set_parity(&mut t, &b, Parity::NoParity);
    assert_eq!((t.c_cflag, t.c_iflag), (0, 0o4));
    set_parity(&mut t, &b, Parity::Odd);
    assert_eq!((t.c_cflag, t.c_iflag), (0o1400, 0o20));
    set_parity(&mut t, &b, Parity::Even);
    assert_eq!((t.c_cflag, t.c_iflag), (0o400, 0o20));
}

#[test]
fn flow_control_bits() {
    let b = linux_bits();
    let mut t = zero();
    set_flow_control(&mut t, &b, FlowControl::Software);
    assert_eq!((t.c_iflag, t.c_cflag), (0o12000, 0));
    set_flow_control(&mut t, &b, FlowControl::Hardware);
    assert_eq!((t.c_iflag, t.c_cflag), (0, 0o20000000000));
    set_flow_control(&mut t, &b, FlowControl::NoFlowControl);
    assert_eq!((t.c_iflag, t.c_cflag), (0, 0));
}

#[test]
fn size_and_stop_bits() {
    let b = linux_bits();
    let mut t = TermiosFlags { c_cflag: 0o60, ..zero() };
    set_data_bits(&mut t, &b, DataBits::Six);
    assert_eq!(t.c_cflag, 0o20);
    set_data_bits(&mut t, &b, DataBits::Five);
    assert_eq!(t.c_cflag, 0);
    set_stop_bits(&mut t, &b, StopBits::Two);
    assert_eq!(t.c_cflag, 0o100);
    set_stop_bits(&mut t, &b, StopBits::One);
    assert_eq!(t.c_cflag, 0);
}

#[test]
fn configure_9600_8n1() {
    let b = linux_bits();
    let o = SerialTtyOptions::default_for(Platform::Linux).set_baud_rate(9600);
    let mut t = zero();
    enable_receiver(&mut t, &b);
    assert_eq!(t.c_cflag, 0o4200);
    configure(&mut t, &b, &o);
    assert_eq!(t.c_cflag, 0o4260);
    assert_eq!(t.c_iflag, 0o4);
    assert!(settings_applied(&t, &t.clone()));
    assert!(!settings_applied(&t, &TermiosFlags { c_lflag: 1, ..t }));
    assert!(sets_line_speed(9600));
    assert!(!sets_line_speed(0));
}

#[test]
fn dcb_fields() {
    let codes = DcbCodes { no_parity: 0, odd_parity: 1, even_parity: 2, one_stop_bit: 0, two_stop_bits: 2 };
    let o = SerialTtyOptions::default_for(Platform::Windows)
        .set_baud_rate(9600)
        .set_parity(Parity::Odd)
        .set_stop_bits(StopBits::Two)
        .set_data_bits(DataBits::Seven)
        .set_flow_control(FlowControl::Software);
    let d = dcb_line(&o, &codes);
    assert_eq!((d.baud_rate, d.byte_size, d.parity, d.stop_bits), (9600, 7, 1, 2));
    assert!(d.f_parity && d.f_outx && d.f_inx && !d.f_outx_cts_flow && !d.f_rts_control);
    let d = dcb_line(&o.set_parity(Parity::NoParity).set_flow_control(FlowControl::Hardware), &codes);
    assert!(!d.f_parity && d.f_outx_cts_flow && d.f_rts_control && !d.f_outx);
}

#[test]
fn timeouts_are_clamped() {
    assert_eq!(timeout_constant(100), 100);
    assert_eq!(timeout_constant(0xffff_fffe), 0xffff_fffe);
    assert_eq!(timeout_constant(1u128 << 40), 0xffff_fffe);
}

#[test]
fn open_errors_are_classified() {
    assert_eq!(open_error_kind(2), OpenErrorKind::NoDevice);
    assert_eq!(open_error_kind(3), OpenErrorKind::NoDevice);
    assert_eq!(open_error_kind(5), OpenErrorKind::NoDevice);
    assert_eq!(open_error_kind(6), OpenErrorKind::Io);
}

#[test]
fn port_lookup_by_name() {
    let ports = vec!["/dev/ttyUSB0".to_string(), "/dev/ttyACM0".to_string()];
    assert!(port_listed(&ports, &"/dev/ttyACM0".to_string()));
    assert!(!port_listed(&ports, &"/dev/ttyS9".to_string()));
    assert!(!port_listed(&Vec::new(), &"COM3".to_string()));
}
