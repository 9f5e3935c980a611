//! The USARTs: which value goes into which of their registers.

use vstd::prelude::*;

use crate::hil::spi_master::{ClockPhase, ClockPolarity};

verus! {

/// The number of bytes of the address space of one USART
pub const SIZE: usize = 0x4000;

/// The address of the first register of the first USART
pub const BASE_ADDRESS: usize = 0x40024000;

/// The frequency of the clock that the baud rates are derived from
pub const CLOCK: u32 = 48000000;

/// The value of the control register that resets the receiver
pub const RESET_RX: u32 = 1 << 2;

/// The value of the control register that enables the receiver
pub const ENABLE_RX: u32 = 1 << 4;

/// The value of the control register that disables the receiver
pub const DISABLE_RX: u32 = 1 << 5;

/// The value of the control register that enables the transmitter
pub const ENABLE_TX: u32 = 1 << 6;

/// The value of the control register that disables the transmitter
pub const DISABLE_TX: u32 = 1 << 7;

/// The bit of the interrupt enable and disable registers for a received character
pub const RX_INTERRUPT: u32 = 1;

/// The bit of the interrupt enable and disable registers for a transmitter that is ready
pub const TX_INTERRUPT: u32 = 2;

/// The value of the transmitter timeguard register
pub const TIMEGUARD: u32 = 4;

/// The USARTs of the chip
#[derive(Clone, Copy, Debug, PartialEq, Eq, Structural)]
pub enum Location {
    USART0,
    USART1,
    USART2,
    USART3,
}

impl Location {
    /// The address of the first register of this USART.
    pub open spec fn spec_address(&self) -> usize {
        match *self {
            Location::USART0 => 0x40024000,
            Location::USART1 => 0x40028000,
            Location::USART2 => 0x4002C000,
            Location::USART3 => 0x40030000,
        }
    }

    /// Returns the address of the first register of this USART
    #[verifier::when_used_as_spec(spec_address)]
    pub fn address(&self) -> (address: usize)
        ensures
            address == self.spec_address(),
    {
        let index: usize = match *self {
            Location::USART0 => 0,
            Location::USART1 => 1,
            Location::USART2 => 2,
            Location::USART3 => 3,
        };
        BASE_ADDRESS + index * SIZE
    }
}

/// The mode register for asynchronous operation with one stop bit: the number of data bits
/// less one in the two bits of the character length field, from bit 6, and the code of the
/// parity in the parity field, from bit 9.
pub open spec fn spec_uart_mode(data_bits: u8, parity: u32) -> u32 {
    (((data_bits - 1) as u8 & 0x3) as u32) << 6 | parity << 9
}

/// Returns the value of the mode register for asynchronous operation with one stop bit,
/// `data_bits` data bits and the parity of the code `parity`
#[verifier::when_used_as_spec(spec_uart_mode)]
pub fn uart_mode(data_bits: u8, parity: u32) -> (mode: u32)
    requires
        data_bits >= 1,
    ensures
        mode == spec_uart_mode(data_bits, parity),
{
    let chrl: u32 = ((data_bits - 1) & 0x3) as u32;
    chrl << 6 | parity << 9
}

/// Whether a value of the mode register selects a mode in which the baud rate is the clock
/// divided by the divider: a synchronous mode, in bit 8, or one of the two SPI modes, `0xE`
/// and `0xF` in the four low bits.
pub open spec fn spec_divides_directly(mode: u32) -> bool {
    ((mode >> 8) & 1) != 0 || mode & 0xF == 0xE || mode & 0xF == 0xF
}

/// Returns true if `mode` selects a mode in which the baud rate is the clock divided by the
/// divider
#[verifier::when_used_as_spec(spec_divides_directly)]
pub fn divides_directly(mode: u32) -> (direct: bool)
    ensures
        direct == spec_divides_directly(mode),
{
    let synchronous = ((mode >> 8) & 1) != 0;
    let mode_only: u32 = mode & 0xF;
    let spi_mode = (mode_only == 0xE) || (mode_only == 0xF);
    spi_mode || synchronous
}

/// The number of clock cycles for each bit in the asynchronous modes: 16 without
/// oversampling, 8 with it, which bit 19 of the mode register selects.
pub open spec fn cycles_per_bit(mode: u32) -> u32 {
    (8 * (2 - ((mode >> 19) & 1))) as u32
}

/// Returns the value of the baud rate generator register for a baud rate, where `mode` is
/// the value of the mode register: the clock divided by the baud rate, and in the
/// asynchronous modes by the number of clock cycles for each bit as well
pub fn baud_rate_divider(mode: u32, baud_rate: u32) -> (divider: u32)
    requires
        baud_rate > 0,
        !divides_directly(mode) ==> cycles_per_bit(mode) * baud_rate <= u32::MAX,
    ensures
        divides_directly(mode) ==> divider == CLOCK / baud_rate,
        !divides_directly(mode) ==> divider == CLOCK / ((cycles_per_bit(mode) * baud_rate) as u32),
{
    if divides_directly(mode) {
        // Use the SPI or synchronous formula
        // CD = selected clock / baud rate
        CLOCK / baud_rate
    } else {
        // Use the asynchronous non-SPI formula
        // CD = selected clock / (8 * baud rate * (2 - oversample))
        // Read oversample
        let oversample: u32 = (mode >> 19) & 1;
        assert(oversample <= 1) by (bit_vector)
            requires
                oversample == (mode >> 19) & 1,
        ;
        let cycles: u32 = 8 * (2 - oversample);
        assert(cycles * baud_rate == 8 * baud_rate * (2 - oversample)) by (nonlinear_arith)
            requires
                cycles == 8 * (2 - oversample),
        ;
        assert(8 * baud_rate <= cycles * baud_rate) by (nonlinear_arith)
            requires
                cycles >= 8,
        ;
        CLOCK / (8 * baud_rate * (2 - oversample))
    }
}

/// The mode register for operation as an SPI master: SPI master mode in the four low bits,
/// eight data bits, no parity, a driven clock pin, the clock polarity in bit 16, set for a
/// clock that idles high, and the clock phase in bit 8, set for sampling on the trailing
/// edge.
pub open spec fn spec_spi_mode(polarity: ClockPolarity, phase: ClockPhase) -> u32 {
    (0xE + 0xC0 + 0x800 + 0x40000 + (if polarity is IdleHigh {
        0x10000int
    } else {
        0int
    }) + (if phase is SampleTrailing {
        0x100int
    } else {
        0int
    })) as u32
}

/// Returns the value of the mode register for operation as an SPI master
#[verifier::when_used_as_spec(spec_spi_mode)]
pub fn spi_mode(polarity: ClockPolarity, phase: ClockPhase) -> (mode: u32)
    ensures
        mode == spec_spi_mode(polarity, phase),
{
    let mut mode: u32 = 0xE;  // SPI master mode
    // Clock polarity
    match polarity {
        ClockPolarity::IdleHigh => {
            mode = mode | (1u32 << 16);
        },
        ClockPolarity::IdleLow => {  /* Defaults to 0 (IdleLow) */
        },
    }
    // Clock phase
    match phase {
        ClockPhase::SampleTrailing => {
            mode = mode | (1u32 << 8);
        },
        ClockPhase::SampleLeading => {  /* Defaults to 0 */
        },
    }
    // 8-bit character length (this includes the parity bit)
    mode = mode | (0b11u32 << 6);
    // No parity
    mode = mode | (0b100u32 << 9);
    // Drive clock pin
    mode = mode | (0b1u32 << 18);
    assert(0xEu32 | (0b11u32 << 6) | (0b100u32 << 9) | (0b1u32 << 18) == 0x408CE && 0xEu32 | (1u32
        << 16) | (0b11u32 << 6) | (0b100u32 << 9) | (0b1u32 << 18) == 0x508CE && 0xEu32 | (1u32
        << 8) | (0b11u32 << 6) | (0b100u32 << 9) | (0b1u32 << 18) == 0x409CE && 0xEu32 | (1u32
        << 16) | (1u32 << 8) | (0b11u32 << 6) | (0b100u32 << 9) | (0b1u32 << 18) == 0x509CE)
        by (bit_vector);
    mode
}

/// Whether bit `bit` of the value `register` of a register is set.
pub open spec fn is_set(register: u32, bit: u32) -> bool {
    register & (1u32 << bit) != 0
}

/// Returns true if a character has been received, where `csr` is the value of the channel
/// status register
pub fn rx_ready(csr: u32) -> (ready: bool)
    ensures
        ready == is_set(csr, 0),
{
    assert(1u32 << 0u32 == 0b1) by (bit_vector);
    csr & 0b1 != 0
}

/// Returns true if the transmitter takes a character, where `csr` is the value of the
/// channel status register
pub fn tx_ready(csr: u32) -> (ready: bool)
    ensures
        ready == is_set(csr, 1),
{
    assert(1u32 << 1u32 == 0b10) by (bit_vector);
    csr & 0b10 != 0
}

/// Returns the number of bytes that a combined read and write exchanges: one less than the
/// length of the shorter of the two buffers
pub fn exchange_count(read_length: usize, write_length: usize) -> (count: usize)
    requires
        read_length >= 1,
        write_length >= 1,
    ensures
        count + 1 == read_length || count + 1 == write_length,
        count < read_length,
        count < write_length,
{
    let shorter = if read_length < write_length {
        read_length
    } else {
        write_length
    };
    shorter - 1
}

} // verus!
