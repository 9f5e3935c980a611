//! The SPI hardware (separate from the USARTs): which value goes into which of its
//! registers.

use vstd::prelude::*;

use crate::hil::spi_master::{ClockPhase, ClockPolarity};

verus! {

/// The address of the first register of the SPI hardware
pub const BASE_ADDRESS: u32 = 0x40008000;

/// The frequency of the clock that the baud rates are derived from
pub const CLOCK: u32 = 48000000;

/// The baud rate below which a requested rate is raised to it
pub const LOWEST_BAUD_RATE: u32 = 188235;

/// The value of the control register that enables the hardware
pub const ENABLE: u32 = 0b1;

/// The value of the control register that disables the hardware
pub const DISABLE: u32 = 0b10;

/// Values for selected peripherals
#[derive(Clone, Copy, Debug, PartialEq, Eq, Structural)]
pub enum Peripheral {
    Peripheral0,
    Peripheral1,
    Peripheral2,
    Peripheral3,
}

/// Stores the status of the hardware
#[derive(Clone, Copy, Debug, PartialEq, Eq, Structural)]
pub struct Status {
    /// If the SPI hardware is enabled
    pub enabled: bool,
    /// If the transmit register and shifter are empty
    pub tx_empty: bool,
    /// If a receive overrun, in which the receive register is set before the software has
    /// read it, has occurred
    pub overrun: bool,
    /// If the transmit register is empty
    pub tx_reg_empty: bool,
    /// If data has been received since the receive register was read
    pub rx_full: bool,
}

/// The registers used to interface with the hardware
#[derive(Clone, Copy, Debug, PartialEq, Eq, Structural)]
pub enum SpiRegister {
    /// Control (0x0)
    Cr,
    /// Mode (0x4)
    Mr,
    /// Receive data (0x8)
    Rdr,
    /// Transmit data (0xC)
    Tdr,
    /// Status (0x10)
    Sr,
    /// Interrupt enable (0x14)
    Ier,
    /// Interrupt disable (0x18)
    Idr,
    /// Interrupt mask (0x1C)
    Imr,
    /// Chip select 0 (0x30)
    Csr0,
    /// Chip select 1 (0x34)
    Csr1,
    /// Chip select 2 (0x38)
    Csr2,
    /// Chip select 3 (0x3C)
    Csr3,
    /// Write protection control (0xE4)
    Wpcr,
    /// Write protection status (0xE8)
    Wpsr,
    /// Features (0xF8)
    Features,
    /// Version (0xFC)
    Version,
}

impl SpiRegister {
    /// The offset of this register from the base address, in bytes.
    pub open spec fn spec_offset(&self) -> u32 {
        match *self {
            SpiRegister::Cr => 0x00,
            SpiRegister::Mr => 0x04,
            SpiRegister::Rdr => 0x08,
            SpiRegister::Tdr => 0x0C,
            SpiRegister::Sr => 0x10,
            SpiRegister::Ier => 0x14,
            SpiRegister::Idr => 0x18,
            SpiRegister::Imr => 0x1C,
            SpiRegister::Csr0 => 0x30,
            SpiRegister::Csr1 => 0x34,
            SpiRegister::Csr2 => 0x38,
            SpiRegister::Csr3 => 0x3C,
            SpiRegister::Wpcr => 0xE4,
            SpiRegister::Wpsr => 0xE8,
            SpiRegister::Features => 0xF8,
            SpiRegister::Version => 0xFC,
        }
    }

    /// Returns the offset of this register from the base address, in bytes
    #[verifier::when_used_as_spec(spec_offset)]
    pub fn offset(&self) -> (offset: u32)
        ensures
            offset == self.spec_offset(),
    {
        match *self {
            SpiRegister::Cr => 0x00,
            SpiRegister::Mr => 0x04,
            SpiRegister::Rdr => 0x08,
            SpiRegister::Tdr => 0x0C,
            SpiRegister::Sr => 0x10,
            SpiRegister::Ier => 0x14,
            SpiRegister::Idr => 0x18,
            SpiRegister::Imr => 0x1C,
            SpiRegister::Csr0 => 0x30,
            SpiRegister::Csr1 => 0x34,
            SpiRegister::Csr2 => 0x38,
            SpiRegister::Csr3 => 0x3C,
            SpiRegister::Wpcr => 0xE4,
            SpiRegister::Wpsr => 0xE8,
            SpiRegister::Features => 0xF8,
            SpiRegister::Version => 0xFC,
        }
    }
}

impl Peripheral {
    /// The chip select register that holds the settings of this peripheral.
    pub open spec fn spec_csr(&self) -> SpiRegister {
        match *self {
            Peripheral::Peripheral0 => SpiRegister::Csr0,
            Peripheral::Peripheral1 => SpiRegister::Csr1,
            Peripheral::Peripheral2 => SpiRegister::Csr2,
            Peripheral::Peripheral3 => SpiRegister::Csr3,
        }
    }

    /// Returns the chip select register that holds the settings of this peripheral
    #[verifier::when_used_as_spec(spec_csr)]
    pub fn csr(&self) -> (register: SpiRegister)
        ensures
            register == self.spec_csr(),
    {
        match *self {
            Peripheral::Peripheral0 => SpiRegister::Csr0,
            Peripheral::Peripheral1 => SpiRegister::Csr1,
            Peripheral::Peripheral2 => SpiRegister::Csr2,
            Peripheral::Peripheral3 => SpiRegister::Csr3,
        }
    }

    /// The value of the peripheral chip select field of the mode register that selects this
    /// peripheral: all ones below the bit of the peripheral's number.
    pub open spec fn spec_select_code(&self) -> u32 {
        match *self {
            Peripheral::Peripheral0 => 0b0000,
            Peripheral::Peripheral1 => 0b0001,
            Peripheral::Peripheral2 => 0b0011,
            Peripheral::Peripheral3 => 0b0111,
        }
    }

    /// Returns the value of the peripheral chip select field that selects this peripheral
    #[verifier::when_used_as_spec(spec_select_code)]
    pub fn select_code(&self) -> (code: u32)
        ensures
            code == self.spec_select_code(),
    {
        match *self {
            Peripheral::Peripheral0 => 0b0000,
            Peripheral::Peripheral1 => 0b0001,
            Peripheral::Peripheral2 => 0b0011,
            Peripheral::Peripheral3 => 0b0111,
        }
    }
}

/// The baud rate that is set when `rate` is asked for: `rate`, but no less than
/// `LOWEST_BAUD_RATE` and no more than `CLOCK`.
pub open spec fn spec_clamp_baud_rate(rate: u32) -> u32 {
    if rate < LOWEST_BAUD_RATE {
        LOWEST_BAUD_RATE
    } else if rate > CLOCK {
        CLOCK
    } else {
        rate
    }
}

/// Returns the baud rate that is set when `rate` is asked for
#[verifier::when_used_as_spec(spec_clamp_baud_rate)]
pub fn clamp_baud_rate(rate: u32) -> (clamped: u32)
    ensures
        clamped == spec_clamp_baud_rate(rate),
        LOWEST_BAUD_RATE <= clamped <= CLOCK,
{
    let mut rate = rate;
    if rate < LOWEST_BAUD_RATE {
        rate = LOWEST_BAUD_RATE;
    }
    if rate > CLOCK {
        rate = CLOCK;
    }
    rate
}

/// The divisor of the clock for a baud rate: the clock divided by the rate set, rounded up.
pub open spec fn spec_baud_rate_divisor(rate: u32) -> u32 {
    if CLOCK % clamp_baud_rate(rate) == 0 {
        CLOCK / clamp_baud_rate(rate)
    } else {
        (CLOCK / clamp_baud_rate(rate) + 1) as u32
    }
}

/// Returns the divisor of the clock for a baud rate.
///
/// Since the only supported baud rates are `CLOCK` / n where n is an integer, the exact
/// baud rate may not be available. In that case, the next lower baud rate is selected: the
/// divisor is the least n for which `CLOCK` / n is not more than the rate set.
///
/// The divisor is at most 256. It is 256 for every rate that is less than `CLOCK` / 255,
/// as `LOWEST_BAUD_RATE` is.
#[verifier::when_used_as_spec(spec_baud_rate_divisor)]
pub fn baud_rate_divisor(rate: u32) -> (divisor: u32)
    ensures
        divisor == spec_baud_rate_divisor(rate),
        1 <= divisor <= 256,
        divisor * clamp_baud_rate(rate) >= CLOCK,
        (divisor - 1) * clamp_baud_rate(rate) < CLOCK,
{
    let rate = clamp_baud_rate(rate);
    // Divide and truncate, resulting in a n value that might be too low
    let mut scbr: u32 = CLOCK / rate;
    assert(scbr * rate <= CLOCK && CLOCK < (scbr + 1) * rate && scbr <= 255) by (nonlinear_arith)
        requires
            scbr == CLOCK / rate,
            LOWEST_BAUD_RATE <= rate <= CLOCK,
            CLOCK == 48000000,
            LOWEST_BAUD_RATE == 188235,
    ;
    // If the division was not exact, increase the n to get a slower baud rate
    if CLOCK % rate != 0 {
        assert(scbr * rate < CLOCK) by (nonlinear_arith)
            requires
                scbr == CLOCK / rate,
                CLOCK % rate != 0,
                rate > 0,
        ;
        scbr += 1;
    } else {
        assert(scbr * rate == CLOCK && (scbr - 1) * rate < CLOCK) by (nonlinear_arith)
            requires
                scbr == CLOCK / rate,
                CLOCK % rate == 0,
                rate > 0,
        ;
    }
    scbr
}

/// The chip select register with its baud rate field, bits 8 to 15, replaced by the eight
/// low bits of the divisor for a baud rate.
pub open spec fn spec_set_baud_rate(csr: u32, rate: u32) -> u32 {
    (csr & 0xFFFF00FF) | ((baud_rate_divisor(rate) & 0xFF) << 8)
}

/// Sets the approximate baud rate for a peripheral: returns the value to write to its chip
/// select register, where `csr` is the value read from it
#[verifier::when_used_as_spec(spec_set_baud_rate)]
pub fn set_baud_rate(csr: u32, rate: u32) -> (updated: u32)
    ensures
        updated == spec_set_baud_rate(csr, rate),
        updated % 0x100 == csr % 0x100,
        updated / 0x100 % 0x100 == baud_rate_divisor(rate) % 0x100,
        updated / 0x10000 == csr / 0x10000,
{
    let scbr: u32 = baud_rate_divisor(rate);
    let csr_mask: u32 = 0xFFFF00FF;
    // Clear, then write CSR bits
    let updated: u32 = (csr & csr_mask) | ((scbr & 0xFF) << 8);
    assert(updated % 0x100 == csr % 0x100 && updated / 0x100 % 0x100 == scbr % 0x100 && updated
        / 0x10000 == csr / 0x10000) by (bit_vector)
        requires
            updated == (csr & 0xFFFF00FF) | ((scbr & 0xFF) << 8),
    ;
    updated
}

/// The mode register with its peripheral chip select field, bits 16 to 19, replaced by the
/// code that selects `peripheral`.
pub open spec fn spec_set_active_peripheral(mr: u32, peripheral: Peripheral) -> u32 {
    (mr & 0xFFF0FFFF) | (peripheral.select_code() << 16)
}

/// Sets the active peripheral: returns the value to write to the mode register, where `mr`
/// is the value read from it
#[verifier::when_used_as_spec(spec_set_active_peripheral)]
pub fn set_active_peripheral(mr: u32, peripheral: Peripheral) -> (updated: u32)
    ensures
        updated == spec_set_active_peripheral(mr, peripheral),
        updated % 0x10000 == mr % 0x10000,
        updated / 0x100000 == mr / 0x100000,
        updated / 0x10000 % 0x10 == peripheral.select_code(),
{
    let peripheral_number: u32 = peripheral.select_code();
    // Clear and set MR.PCS
    let pcs_mask: u32 = 0xFFF0FFFF;
    let updated: u32 = (mr & pcs_mask) | (peripheral_number << 16);
    assert(updated % 0x10000 == mr % 0x10000 && updated / 0x100000 == mr / 0x100000 && updated
        / 0x10000 % 0x10 == peripheral_number) by (bit_vector)
        requires
            updated == (mr & 0xFFF0FFFF) | (peripheral_number << 16),
            peripheral_number < 0x10,
    ;
    updated
}

/// Whether bit `bit` of the value `register` of a register is set.
pub open spec fn is_set(register: u32, bit: u32) -> bool {
    (register >> bit) & 1 == 1
}

/// Returns the status of the SPI hardware, where `sr` is the value of the status register
pub fn get_status(sr: u32) -> (status: Status)
    ensures
        status == (Status {
            enabled: is_set(sr, 16),
            tx_empty: is_set(sr, 9),
            overrun: is_set(sr, 3),
            tx_reg_empty: is_set(sr, 1),
            rx_full: is_set(sr, 0),
        }),
{
    assert(sr & 1 == (sr >> 0u32) & 1) by (bit_vector);
    Status {
        enabled: ((sr >> 16) & 1) == 1,
        tx_empty: ((sr >> 9) & 1) == 1,
        overrun: ((sr >> 3) & 1) == 1,
        tx_reg_empty: ((sr >> 1) & 1) == 1,
        rx_full: (sr & 1) == 1,
    }
}

/// Returns true if the SPI hardware is enabled, otherwise false, where `sr` is the value of
/// the status register
pub fn is_enabled(sr: u32) -> (enabled: bool)
    ensures
        enabled == is_set(sr, 16),
{
    get_status(sr).enabled
}

/// The chip select register with the clock polarity in bit 0, set for a clock that idles
/// high, and the clock phase in bit 1, set for sampling on the trailing edge.
pub open spec fn spec_set_clock(csr: u32, polarity: ClockPolarity, phase: ClockPhase) -> u32 {
    let with_polarity = match polarity {
        ClockPolarity::IdleHigh => csr | 1,
        ClockPolarity::IdleLow => csr & 0xFFFFFFFE,
    };
    match phase {
        ClockPhase::SampleTrailing => with_polarity | (1u32 << 1),
        ClockPhase::SampleLeading => with_polarity & 0xFFFFFFFD,
    }
}

/// Sets the clock polarity and phase of a peripheral: returns the value to write to its chip
/// select register, where `csr` is the value read from it
#[verifier::when_used_as_spec(spec_set_clock)]
pub fn set_clock(csr: u32, polarity: ClockPolarity, phase: ClockPhase) -> (updated: u32)
    ensures
        updated == spec_set_clock(csr, polarity, phase),
        is_set(updated, 0) == (polarity is IdleHigh),
        is_set(updated, 1) == (phase is SampleTrailing),
        updated / 4 == csr / 4,
{
    let mut updated: u32 = csr;
    // Clock polarity
    match polarity {
        ClockPolarity::IdleHigh => {
            updated = updated | 1;
        },  // Set bit 0
        ClockPolarity::IdleLow => {
            updated = updated & 0xFFFFFFFE;
        },  // Clear bit 0
    }
    let with_polarity: u32 = updated;
    // Clock phase
    match phase {
        ClockPhase::SampleTrailing => {
            updated = updated | (1u32 << 1);
        },  // Set bit 1
        ClockPhase::SampleLeading => {
            updated = updated & 0xFFFFFFFD;
        },  // Clear bit 1
    }
    assert((((csr | 1) >> 0u32) & 1 == 1) && (((csr & 0xFFFFFFFE) >> 0u32) & 1 == 0) && (csr | 1)
        / 2 == csr / 2 && (csr & 0xFFFFFFFE) / 2 == csr / 2) by (bit_vector);
    assert((((with_polarity | (1u32 << 1)) >> 1u32) & 1 == 1) && (((with_polarity & 0xFFFFFFFD)
        >> 1u32) & 1 == 0) && (with_polarity | (1u32 << 1)) / 4 == with_polarity / 4 && (
    with_polarity & 0xFFFFFFFD) / 4 == with_polarity / 4 && ((with_polarity | (1u32 << 1)) >> 0u32)
        & 1 == (with_polarity >> 0u32) & 1 && ((with_polarity & 0xFFFFFFFD) >> 0u32) & 1 == (
    with_polarity >> 0u32) & 1) by (bit_vector);
    updated
}

/// The mode register with master mode enabled, in bit 0, and mode fault detection
/// disabled, in bit 4.
pub open spec fn spec_set_master(mr: u32) -> u32 {
    mr | 1 | (1u32 << 4)
}

/// Makes the hardware a master: returns the value to write to the mode register, where
/// `mr` is the value read from it
#[verifier::when_used_as_spec(spec_set_master)]
pub fn set_master(mr: u32) -> (updated: u32)
    ensures
        updated == spec_set_master(mr),
{
    // Enable master mode
    // Disable mode fault detection (open drain outputs do not seem to be supported)
    mr | 1 | (1u32 << 4)
}

/// Returns the byte received, where `rdr` is the value of the receive data register: its
/// eight low bits
pub fn received_byte(rdr: u32) -> (byte: u8)
    ensures
        byte == rdr % 0x100,
{
    assert(rdr & 0xFF == rdr % 0x100) by (bit_vector);
    (rdr & 0xFF) as u8
}

} // verus!
