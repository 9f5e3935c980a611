use rf230::hil::spi_master::{ClockPhase, ClockPolarity};
use rf230::sam4l::eic::{
    clear, has_occurred, is_enabled, set_enabled, set_filter_enabled, set_trigger, EicRegister,
    EicWrite, Interrupt, Trigger, TriggerRegisters,
};
use rf230::sam4l::spi::{
    baud_rate_divisor, clamp_baud_rate, get_status, received_byte, set_active_peripheral,
    set_baud_rate, set_clock, set_master, Peripheral, SpiRegister, Status,
};
use rf230::sam4l::usart::{
    baud_rate_divider, divides_directly, exchange_count, rx_ready, spi_mode, tx_ready, uart_mode,
    Location,
};

#[test]
fn interrupts_have_one_bit_each() {
    let all = [
        Interrupt::NonMaskable,
        Interrupt::Interrupt1,
        Interrupt::Interrupt2,
        Interrupt::Interrupt3,
        Interrupt::Interrupt4,
        Interrupt::Interrupt5,
        Interrupt::Interrupt6,
        Interrupt::Interrupt7,
        Interrupt::Interrupt8,
    ];
    for (number, interrupt) in all.iter().enumerate() {
        assert_eq!(interrupt.number(), number as u32);
        assert_eq!(interrupt.mask(), 1 << number);
    }
    assert_eq!(Interrupt::Interrupt5.mask(), 0x20);
}

#[test]
fn eic_registers_lie_at_their_offsets() {
    assert_eq!(EicRegister::Ier.offset(), 0x00);
    assert_eq!(EicRegister::Icr.offset(), 0x10);
    assert_eq!(EicRegister::Filter.offset(), 0x20);
    assert_eq!(EicRegister::Async.offset(), 0x28);
    assert_eq!(EicRegister::En.offset(), 0x30);
    assert_eq!(EicRegister::Ctrl.offset(), 0x38);
}

#[test]
fn enabling_writes_two_registers() {
    assert_eq!(
        set_enabled(Interrupt::Interrupt5, true),
        [
            EicWrite { register: EicRegister::Ier, value: 0x20 },
            EicWrite { register: EicRegister::En, value: 0x20 },
        ]
    );
    assert_eq!(
        set_enabled(Interrupt::Interrupt8, false),
        [
            EicWrite { register: EicRegister::Idr, value: 0x100 },
            EicWrite { register: EicRegister::Dis, value: 0x100 },
        ]
    );
    assert_eq!(clear(Interrupt::Interrupt1), EicWrite { register: EicRegister::Icr, value: 0x2 });
}

#[test]
fn status_bits_are_read_by_interrupt() {
    assert!(is_enabled(0x20, Interrupt::Interrupt5));
    assert!(!is_enabled(0xFFDF, Interrupt::Interrupt5));
    assert!(has_occurred(0x1, Interrupt::NonMaskable));
    assert!(!has_occurred(0x1FE, Interrupt::NonMaskable));
}

#[test]
fn triggers_set_or_flip_the_bit_of_the_interrupt() {
    let zero = TriggerRegisters { mode: 0, edge: 0, level: 0 };
    let ones = TriggerRegisters { mode: 0x1FF, edge: 0x1FF, level: 0x1FF };
    let int = Interrupt::Interrupt2;
    assert_eq!(
        set_trigger(zero, int, Trigger::RisingEdge),
        TriggerRegisters { mode: 4, edge: 4, level: 0 }
    );
    assert_eq!(
        set_trigger(ones, int, Trigger::FallingEdge),
        TriggerRegisters { mode: 0x1FF, edge: 0x1FB, level: 0x1FF }
    );
    assert_eq!(
        set_trigger(zero, int, Trigger::FallingEdge),
        TriggerRegisters { mode: 4, edge: 4, level: 0 }
    );
    assert_eq!(
        set_trigger(ones, int, Trigger::High),
        TriggerRegisters { mode: 0x1FB, edge: 0x1FF, level: 0x1FF }
    );
    assert_eq!(
        set_trigger(ones, int, Trigger::Low),
        TriggerRegisters { mode: 0x1FB, edge: 0x1FF, level: 0x1FB }
    );
    assert_eq!(set_filter_enabled(0, int, true), 4);
    assert_eq!(set_filter_enabled(0xF, int, false), 0xB);
    assert_eq!(set_filter_enabled(0, int, false), 4);
}

#[test]
fn baud_rate_divisor_is_the_least_that_does_not_exceed_the_rate() {
    assert_eq!(baud_rate_divisor(4_000_000), 12);
    assert_eq!(baud_rate_divisor(5_000_000), 10);
    assert_eq!(baud_rate_divisor(48_000_000), 1);
    assert_eq!(baud_rate_divisor(u32::MAX), 1);
    assert_eq!(baud_rate_divisor(24_000_001), 2);
    assert_eq!(baud_rate_divisor(188_236), 255);
    assert_eq!(baud_rate_divisor(188_235), 256);
    assert_eq!(baud_rate_divisor(0), 256);
    assert_eq!(clamp_baud_rate(0), 188_235);
    assert_eq!(clamp_baud_rate(1_000_000), 1_000_000);
    assert_eq!(clamp_baud_rate(50_000_000), 48_000_000);
    for rate in [188_235u32, 200_000, 999_999, 4_000_000, 47_999_999] {
        let divisor = baud_rate_divisor(rate) as u64;
        assert!(divisor * rate as u64 >= 48_000_000);
        assert!((divisor - 1) * (rate as u64) < 48_000_000);
    }
}

#[test]
fn the_divisor_goes_into_the_second_byte_of_the_chip_select_register() {
    assert_eq!(set_baud_rate(0xFFFF_FFFF, 4_000_000), 0xFFFF_0CFF);
    assert_eq!(set_baud_rate(0, 5_000_000), 0x0000_0A00);
    assert_eq!(set_baud_rate(0x1234_5678, 100), 0x1234_0078);
}

#[test]
fn peripherals_are_selected_in_the_mode_register() {
    assert_eq!(set_active_peripheral(0, Peripheral::Peripheral0), 0);
    assert_eq!(set_active_peripheral(0, Peripheral::Peripheral1), 0x1_0000);
    assert_eq!(set_active_peripheral(0, Peripheral::Peripheral2), 0x3_0000);
    assert_eq!(set_active_peripheral(0, Peripheral::Peripheral3), 0x7_0000);
    assert_eq!(set_active_peripheral(0xFFFF_FFFF, Peripheral::Peripheral0), 0xFFF0_FFFF);
    assert_eq!(set_active_peripheral(0xABCD_EF01, Peripheral::Peripheral2), 0xABC3_EF01);
    assert_eq!(Peripheral::Peripheral0.csr(), SpiRegister::Csr0);
    assert_eq!(Peripheral::Peripheral3.csr(), SpiRegister::Csr3);
    assert_eq!(SpiRegister::Csr3.offset(), 0x3C);
    assert_eq!(SpiRegister::Sr.offset(), 0x10);
    assert_eq!(SpiRegister::Version.offset(), 0xFC);
}

#[test]
fn status_is_read_bit_by_bit() {
    assert_eq!(
        get_status(0),
        Status { enabled: false, tx_empty: false, overrun: false, tx_reg_empty: false, rx_full: false }
    );
    assert_eq!(
        get_status(0x1_0000 | 0x200 | 0x8 | 0x2 | 0x1),
        Status { enabled: true, tx_empty: true, overrun: true, tx_reg_empty: true, rx_full: true }
    );
    assert_eq!(
        get_status(0x200 | 0x1),
        Status { enabled: false, tx_empty: true, overrun: false, tx_reg_empty: false, rx_full: true }
    );
    assert!(rf230::sam4l::spi::is_enabled(0x1_0000));
    assert!(!rf230::sam4l::spi::is_enabled(0xFFFE_FFFF));
    assert_eq!(received_byte(0x1234), 0x34);
}

#[test]
fn clock_settings_go_into_the_two_low_bits() {
    assert_eq!(set_clock(0, ClockPolarity::IdleHigh, ClockPhase::SampleTrailing), 3);
    assert_eq!(set_clock(0, ClockPolarity::IdleHigh, ClockPhase::SampleLeading), 1);
    assert_eq!(set_clock(0, ClockPolarity::IdleLow, ClockPhase::SampleTrailing), 2);
    assert_eq!(set_clock(0xFF, ClockPolarity::IdleLow, ClockPhase::SampleLeading), 0xFC);
    assert_eq!(set_master(0), 0x11);
    assert_eq!(set_master(0x7_0000), 0x7_0011);
}

#[test]
fn usarts_lie_one_after_the_other() {
    assert_eq!(Location::USART0.address(), 0x4002_4000);
    assert_eq!(Location::USART1.address(), 0x4002_8000);
    assert_eq!(Location::USART2.address(), 0x4002_C000);
    assert_eq!(Location::USART3.address(), 0x4003_0000);
}

#[test]
fn usart_modes() {
    assert_eq!(uart_mode(8, 4), 0x8C0);
    assert_eq!(uart_mode(5, 0), 0);
    assert_eq!(uart_mode(7, 1), 0x280);
    assert_eq!(spi_mode(ClockPolarity::IdleLow, ClockPhase::SampleLeading), 0x4_08CE);
    assert_eq!(spi_mode(ClockPolarity::IdleHigh, ClockPhase::SampleLeading), 0x5_08CE);
    assert_eq!(spi_mode(ClockPolarity::IdleLow, ClockPhase::SampleTrailing), 0x4_09CE);
    assert_eq!(spi_mode(ClockPolarity::IdleHigh, ClockPhase::SampleTrailing), 0x5_09CE);
    assert!(divides_directly(0xE));
    assert!(divides_directly(0xF));
    assert!(divides_directly(0x100));
    assert!(!divides_directly(0x8C0));
}

#[test]
fn usart_baud_rate_dividers() {
    assert_eq!(baud_rate_divider(0x8C0, 115_200), 26);
    assert_eq!(baud_rate_divider(0x8C0 | 1 << 19, 115_200), 52);
    assert_eq!(baud_rate_divider(0x100, 115_200), 416);
    assert_eq!(baud_rate_divider(0x4_08CE, 4_000_000), 12);
    assert_eq!(baud_rate_divider(0, 268_435_455), 0);
}

#[test]
fn usart_status_and_exchange_count() {
    assert!(rx_ready(0b01));
    assert!(!rx_ready(0b10));
    assert!(tx_ready(0b10));
    assert!(!tx_ready(0b01));
    assert_eq!(exchange_count(3, 5), 2);
    assert_eq!(exchange_count(5, 3), 2);
    assert_eq!(exchange_count(1, 1), 0);
}
