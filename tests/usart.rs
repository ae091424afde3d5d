use platform::clock::ClockGate;
use platform::usart::{compute_divisor, BaseAddr, Params, Parity, UARTParams, USART};

fn usart(address: BaseAddr) -> USART {
    USART::new(Params { address })
}

#[test]
fn gate_powers_on_once_and_off_once() {
    let mut gate = ClockGate::new();
    assert!(!gate.is_powered());
    assert!(gate.acquire());
    assert!(!gate.acquire());
    assert!(!gate.acquire());
    assert!(gate.is_powered());
    assert_eq!(gate.user_count(), 3);
    assert!(!gate.release());
    assert!(!gate.release());
    assert!(gate.is_powered());
    assert!(gate.release());
    assert!(!gate.is_powered());
    assert!(gate.acquire());
    assert!(gate.release());
}

#[test]
fn handles_share_one_clock() {
    let mut gate = ClockGate::new();
    let mut u0 = usart(BaseAddr::USART0);
    let mut u1 = usart(BaseAddr::USART1);
    let mut u2 = usart(BaseAddr::USART2);
    u0.enable_clock(&mut gate);
    u1.enable_clock(&mut gate);
    u2.enable_clock(&mut gate);
    assert_eq!(gate.user_count(), 3);
    u1.disable_clock(&mut gate);
    u0.disable_clock(&mut gate);
    assert!(gate.is_powered());
    u2.disable_clock(&mut gate);
    assert!(!gate.is_powered());
    assert_eq!(gate.user_count(), 0);
}

#[test]
fn enable_clock_is_idempotent_per_handle() {
    let mut gate = ClockGate::new();
    let mut u = usart(BaseAddr::USART3);
    u.enable_clock(&mut gate);
    u.enable_clock(&mut gate);
    assert!(u.clock_enabled());
    assert_eq!(gate.user_count(), 1);
    u.disable_clock(&mut gate);
    u.disable_clock(&mut gate);
    assert!(!u.clock_enabled());
    assert_eq!(gate.user_count(), 0);
    assert!(!gate.is_powered());
}

#[test]
fn divisor_for_standard_bauds() {
    assert_eq!(compute_divisor(48_000_000, 9600), 312);
    assert_eq!(compute_divisor(48_000_000, 9600), 48_000_000 / (16 * 9600));
    assert_eq!(compute_divisor(48_000_000, 38400), 78);
    assert_eq!(compute_divisor(48_000_000, 115200), 26);
}

#[test]
fn set_baud_rate_writes_divisor() {
    let mut u = usart(BaseAddr::USART0);
    u.set_baud_rate(115200);
    assert_eq!(u.registers().brgr, 26);
    u.set_baud_rate(9600);
    assert_eq!(u.registers().brgr, 312);
}

#[test]
fn base_addresses() {
    assert_eq!(BaseAddr::USART0.address(), 0x4002_4000);
    assert_eq!(BaseAddr::USART1.address(), 0x4002_8000);
    assert_eq!(BaseAddr::USART2.address(), 0x4002_C000);
    assert_eq!(BaseAddr::USART3.address(), 0x4003_0000);
}

#[test]
fn rx_only_survives_disable_tx() {
    let mut gate = ClockGate::new();
    let mut u = usart(BaseAddr::USART0);
    u.enable_rx(&mut gate);
    assert!(gate.is_powered());
    assert_eq!(u.registers().cr, 1 << 4);
    u.disable_tx(&mut gate);
    assert_eq!(u.registers().cr, 1 << 7);
    assert!(gate.is_powered());
    assert!(u.clock_enabled());
    u.disable_rx(&mut gate);
    assert_eq!(u.registers().cr, 1 << 5);
    assert!(!gate.is_powered());
}

#[test]
fn tx_only_survives_disable_rx() {
    let mut gate = ClockGate::new();
    let mut u = usart(BaseAddr::USART1);
    u.enable_tx(&mut gate);
    assert!(gate.is_powered());
    assert_eq!(u.registers().cr, 1 << 6);
    u.disable_rx(&mut gate);
    assert!(gate.is_powered());
    u.disable_tx(&mut gate);
    assert!(!gate.is_powered());
    assert_eq!(gate.user_count(), 0);
}

#[test]
fn both_directions_then_one_at_a_time() {
    let mut gate = ClockGate::new();
    let mut u = usart(BaseAddr::USART2);
    u.enable_rx(&mut gate);
    u.enable_tx(&mut gate);
    assert_eq!(gate.user_count(), 1);
    u.disable_rx(&mut gate);
    assert!(gate.is_powered());
    assert!(u.tx_enabled());
    assert!(!u.rx_enabled());
    u.disable_tx(&mut gate);
    assert!(!gate.is_powered());
}

#[test]
fn other_handle_keeps_clock_on() {
    let mut gate = ClockGate::new();
    let mut a = usart(BaseAddr::USART0);
    let mut b = usart(BaseAddr::USART1);
    a.enable_rx(&mut gate);
    b.enable_tx(&mut gate);
    a.disable_rx(&mut gate);
    assert!(gate.is_powered());
    b.disable_tx(&mut gate);
    assert!(!gate.is_powered());
}

#[test]
fn init_writes_mode_baud_and_guard_time() {
    let mut gate = ClockGate::new();
    let mut u = usart(BaseAddr::USART0);
    u.init(UARTParams { baud_rate: 9600, data_bits: 8, parity: Parity::NONE }, &mut gate);
    assert_eq!(u.registers().mr, (3 << 6) | (4 << 9));
    assert_eq!(u.registers().brgr, 312);
    assert_eq!(u.registers().ttgr, 4);
    assert!(gate.is_powered());
    assert!(u.clock_enabled());
}

#[test]
fn init_masks_character_length() {
    let mut gate = ClockGate::new();
    let mut u = usart(BaseAddr::USART1);
    u.init(UARTParams { baud_rate: 115200, data_bits: 5, parity: Parity::ODD }, &mut gate);
    assert_eq!(u.registers().mr, (0 << 6) | (1 << 9));
    u.init(UARTParams { baud_rate: 115200, data_bits: 7, parity: Parity::MULTIDROP }, &mut gate);
    assert_eq!(u.registers().mr, (2 << 6) | (6 << 9));
    assert_eq!(gate.user_count(), 1);
}

#[test]
fn set_mode_writes_mode_register() {
    let mut u = usart(BaseAddr::USART0);
    u.set_mode(0x1234);
    assert_eq!(u.registers().mr, 0x1234);
}

#[test]
fn status_bits() {
    let mut u = usart(BaseAddr::USART0);
    assert!(!u.rx_ready());
    assert!(!u.tx_ready());
    u.present_status(0b01);
    assert!(u.rx_ready());
    assert!(!u.tx_ready());
    u.present_status(0b10);
    assert!(!u.rx_ready());
    assert!(u.tx_ready());
}

#[test]
fn send_byte_waits_for_transmitter() {
    let mut u = usart(BaseAddr::USART0);
    assert!(!u.send_byte(0x41));
    assert_eq!(u.registers().thr, 0);
    u.present_status(0b10);
    assert!(u.send_byte(0x41));
    assert_eq!(u.registers().thr, 0x41);
}

#[test]
fn power_calls_match_count_edges_over_many_interleavings() {
    let mut seed: u32 = 0x1234_5678;
    for _ in 0..200 {
        let mut gate = ClockGate::new();
        let mut handles = [
            usart(BaseAddr::USART0),
            usart(BaseAddr::USART1),
            usart(BaseAddr::USART2),
            usart(BaseAddr::USART3),
        ];
        let (mut ons, mut offs, mut rises, mut falls) = (0u32, 0u32, 0u32, 0u32);
        for _ in 0..64 {
            seed = seed.wrapping_mul(1_103_515_245).wrapping_add(12345);
            let h = ((seed >> 16) % 4) as usize;
            let enable = (seed >> 20) & 1 == 1;
            let before = gate.user_count();
            let was_on = gate.is_powered();
            if enable {
                handles[h].enable_clock(&mut gate);
            } else {
                handles[h].disable_clock(&mut gate);
            }
            let after = gate.user_count();
            if !was_on && gate.is_powered() {
                ons += 1;
            }
            if was_on && !gate.is_powered() {
                offs += 1;
            }
            if before == 0 && after > 0 {
                rises += 1;
            }
            if before > 0 && after == 0 {
                falls += 1;
            }
            assert_eq!(gate.is_powered(), after > 0);
        }
        assert_eq!(ons, rises);
        assert_eq!(offs, falls);
    }
}
