use platform::gpio::{GPIOPin, Params, PeripheralFunction, Pin, Port};

const PINS: [Pin; 32] = [
    Pin::P0, Pin::P1, Pin::P2, Pin::P3, Pin::P4, Pin::P5, Pin::P6, Pin::P7,
    Pin::P8, Pin::P9, Pin::P10, Pin::P11, Pin::P12, Pin::P13, Pin::P14, Pin::P15,
    Pin::P16, Pin::P17, Pin::P18, Pin::P19, Pin::P20, Pin::P21, Pin::P22, Pin::P23,
    Pin::P24, Pin::P25, Pin::P26, Pin::P27, Pin::P28, Pin::P29, Pin::P30, Pin::P31,
];

const PORTS: [Port; 3] = [Port::PORT0, Port::PORT1, Port::PORT2];

const FUNCTIONS: [PeripheralFunction; 8] = [
    PeripheralFunction::A,
    PeripheralFunction::B,
    PeripheralFunction::C,
    PeripheralFunction::D,
    PeripheralFunction::E,
    PeripheralFunction::F,
    PeripheralFunction::G,
    PeripheralFunction::H,
];

#[test]
fn selector_bits() {
    assert_eq!(PeripheralFunction::A.bit0(), 0);
    assert_eq!(PeripheralFunction::F.bit0(), 1);
    assert_eq!(PeripheralFunction::F.bit1(), 0);
    assert_eq!(PeripheralFunction::F.bit2(), 1);
    assert_eq!(PeripheralFunction::G.bit0(), 0);
    assert_eq!(PeripheralFunction::G.bit1(), 1);
    assert_eq!(PeripheralFunction::G.bit2(), 1);
    assert_eq!(PeripheralFunction::H.bit0(), 1);
    assert_eq!(PeripheralFunction::H.bit1(), 1);
    assert_eq!(PeripheralFunction::H.bit2(), 1);
}

#[test]
fn pin_masks() {
    assert_eq!(Pin::P0.mask(), 1);
    assert_eq!(Pin::P7.mask(), 0x80);
    assert_eq!(Pin::P31.mask(), 0x8000_0000);
    for (i, pin) in PINS.iter().enumerate() {
        assert_eq!(pin.number(), i as u32);
        assert_eq!(pin.mask(), 1u32 << i);
    }
}

#[test]
fn port_addresses() {
    assert_eq!(Port::PORT0.address(), 0x400E_1000);
    assert_eq!(Port::PORT1.address(), 0x400E_1200);
    assert_eq!(Port::PORT2.address(), 0x400E_1400);
}

#[test]
fn mux_readback_all_functions_all_pins() {
    for (code, f) in FUNCTIONS.iter().enumerate() {
        for (n, pin) in PINS.iter().enumerate() {
            let mut p = GPIOPin::new(Params { pin: *pin, port: Port::PORT0 });
            p.select_peripheral(*f);
            let regs = p.registers();
            let b0 = (regs.pmr0.read() >> n) & 1;
            let b1 = (regs.pmr1.read() >> n) & 1;
            let b2 = (regs.pmr2.read() >> n) & 1;
            assert_eq!(b0 | (b1 << 1) | (b2 << 2), code as u32);
            // only this pin's bits can be set
            assert_eq!(regs.pmr0.read() & !(1u32 << n), 0);
            assert_eq!(regs.pmr1.read() & !(1u32 << n), 0);
            assert_eq!(regs.pmr2.read() & !(1u32 << n), 0);
        }
    }
}

#[test]
fn select_peripheral_releases_gpio_control() {
    let mut p = GPIOPin::new(Params { pin: Pin::P9, port: Port::PORT2 });
    p.enable_output();
    assert_eq!(p.registers().gper.read(), 1 << 9);
    p.select_peripheral(PeripheralFunction::C);
    assert_eq!(p.registers().gper.read(), 0);
    assert_eq!(p.registers().pmr0.read(), 0);
    assert_eq!(p.registers().pmr1.read(), 1 << 9);
    assert_eq!(p.registers().pmr2.read(), 0);
}

#[test]
fn enable_output_writes_three_registers() {
    let mut p = GPIOPin::new(Params { pin: Pin::P3, port: Port::PORT1 });
    p.enable_output();
    assert_eq!(p.registers().gper.read(), 0b1000);
    assert_eq!(p.registers().oder.read(), 0b1000);
    assert_eq!(p.registers().ster.read(), 0);
}

#[test]
fn set_clear_toggle_read_all_pins_all_ports() {
    for port in PORTS.iter() {
        for pin in PINS.iter() {
            let mut p = GPIOPin::new(Params { pin: *pin, port: *port });
            p.enable_output();
            p.set();
            assert!(p.read());
            p.clear();
            assert!(!p.read());
            let before = p.read();
            p.toggle();
            assert_eq!(p.read(), !before);
            p.toggle();
            assert_eq!(p.read(), before);
        }
    }
}

#[test]
fn output_uses_the_aliases() {
    let mut p = GPIOPin::new(Params { pin: Pin::P12, port: Port::PORT0 });
    p.enable_output();
    p.set();
    assert_eq!(p.registers().ovr.read(), 1 << 12);
    p.toggle();
    assert_eq!(p.registers().ovr.read(), 0);
    p.toggle();
    p.clear();
    assert_eq!(p.registers().ovr.read(), 0);
    assert_eq!(p.registers().pvr.read(), 0);
}

#[test]
fn input_pin_does_not_follow_output_value() {
    let mut p = GPIOPin::new(Params { pin: Pin::P4, port: Port::PORT0 });
    p.set();
    assert!(!p.read());
    assert_eq!(p.registers().ovr.read(), 1 << 4);
}

#[test]
fn select_peripheral_alias_words_pin5_function_d() {
    let mut p = GPIOPin::new(Params { pin: Pin::P5, port: Port::PORT0 });
    p.select_peripheral(PeripheralFunction::D);
    let r = p.registers();
    assert_eq!(r.gper.last_clear(), 0x20);
    assert_eq!(r.pmr0.last_set(), 0x20);
    assert_eq!(r.pmr1.last_set(), 0x20);
    assert_eq!(r.pmr2.last_set(), 0);
    assert_eq!(r.gper.last_set(), 0);
    assert_eq!(r.pmr0.last_clear(), 0);
    assert_eq!((r.pmr0.read() >> 5) & 1, 1);
    assert_eq!((r.pmr1.read() >> 5) & 1, 1);
    assert_eq!((r.pmr2.read() >> 5) & 1, 0);
}

#[test]
fn select_peripheral_alias_words_pin0_function_e() {
    let mut p = GPIOPin::new(Params { pin: Pin::P0, port: Port::PORT1 });
    p.select_peripheral(PeripheralFunction::E);
    let r = p.registers();
    assert_eq!(r.gper.last_clear(), 0x1);
    assert_eq!(r.pmr0.last_set(), 0);
    assert_eq!(r.pmr1.last_set(), 0);
    assert_eq!(r.pmr2.last_set(), 0x1);
    assert_eq!(r.pmr0.read() & 1, 0);
    assert_eq!(r.pmr1.read() & 1, 0);
    assert_eq!(r.pmr2.read() & 1, 1);
}

#[test]
fn enable_output_alias_words_pin3() {
    let mut p = GPIOPin::new(Params { pin: Pin::P3, port: Port::PORT0 });
    p.enable_output();
    let r = p.registers();
    assert_eq!(r.gper.last_set(), 0x8);
    assert_eq!(r.oder.last_set(), 0x8);
    assert_eq!(r.ster.last_clear(), 0x8);
    assert_eq!(r.gper.last_clear(), 0);
    assert_eq!(r.oder.last_clear(), 0);
    assert_eq!(r.ster.last_set(), 0);
}

#[test]
fn output_value_alias_words() {
    let mut p = GPIOPin::new(Params { pin: Pin::P10, port: Port::PORT2 });
    p.enable_output();
    p.set();
    assert_eq!(p.registers().ovr.last_set(), 1 << 10);
    assert_eq!(p.registers().ovr.last_clear(), 0);
    assert_eq!(p.registers().ovr.last_toggle(), 0);
    p.clear();
    assert_eq!(p.registers().ovr.last_clear(), 1 << 10);
    assert_eq!(p.registers().ovr.last_set(), 1 << 10);
    assert_eq!(p.registers().ovr.last_toggle(), 0);
    p.toggle();
    assert_eq!(p.registers().ovr.last_toggle(), 1 << 10);
    assert!(p.read());
}
