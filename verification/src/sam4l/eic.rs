//! The external interrupt controller: which value goes into which of its registers.

use vstd::prelude::*;

verus! {

/// Defines the available external interrupts
#[derive(Clone, Copy, Debug, PartialEq, Eq, Structural)]
pub enum Interrupt {
    /// The non-maskable interrupt
    NonMaskable,
    /// Interrupt 1
    Interrupt1,
    /// Interrupt 2
    Interrupt2,
    /// Interrupt 3
    Interrupt3,
    /// Interrupt 4
    Interrupt4,
    /// Interrupt 5
    Interrupt5,
    /// Interrupt 6
    Interrupt6,
    /// Interrupt 7
    Interrupt7,
    /// Interrupt 8
    Interrupt8,
}

/// Conditions for interrupts to be triggered
#[derive(Clone, Copy, Debug, PartialEq, Eq, Structural)]
pub enum Trigger {
    /// Trigger on rising edge
    RisingEdge,
    /// Trigger on falling edge
    FallingEdge,
    /// Trigger on high
    High,
    /// Trigger on low
    Low,
}

/// The registers used to control interrupts
#[derive(Clone, Copy, Debug, PartialEq, Eq, Structural)]
pub enum EicRegister {
    /// Interrupt enable (0x0)
    Ier,
    /// Interrupt disable (0x4)
    Idr,
    /// Interrupt mask (0x8)
    Imr,
    /// Interrupt status (0xC)
    Isr,
    /// Interrupt clear (0x10)
    Icr,
    /// Mode (0x14)
    Mode,
    /// Edge (0x18)
    Edge,
    /// Level (0x1C)
    Level,
    /// Filter (0x20)
    Filter,
    /// Test (0x24)
    Test,
    /// Asynchronous (0x28)
    Async,
    /// Enable (0x30)
    En,
    /// Disable (0x34)
    Dis,
    /// Control (0x38)
    Ctrl,
}

/// The address of the first register of the controller
pub const BASE_ADDRESS: u32 = 0x400F1000;

/// A value to be written to a register of the controller.
#[derive(Clone, Copy, Debug, PartialEq, Eq, Structural)]
pub struct EicWrite {
    /// The register
    pub register: EicRegister,
    /// The value
    pub value: u32,
}

/// The three registers that hold the triggers of the interrupts, one bit each for each
/// interrupt.
#[derive(Clone, Copy, Debug, PartialEq, Eq, Structural)]
pub struct TriggerRegisters {
    /// Set for an interrupt that is triggered by an edge, clear for one triggered by a level
    pub mode: u32,
    /// Set for a rising edge, clear for a falling edge
    pub edge: u32,
    /// Set for a high level, clear for a low level
    pub level: u32,
}

impl EicRegister {
    /// The offset of this register from the base address, in bytes.
    pub open spec fn spec_offset(&self) -> u32 {
        match *self {
            EicRegister::Ier => 0x00,
            EicRegister::Idr => 0x04,
            EicRegister::Imr => 0x08,
            EicRegister::Isr => 0x0C,
            EicRegister::Icr => 0x10,
            EicRegister::Mode => 0x14,
            EicRegister::Edge => 0x18,
            EicRegister::Level => 0x1C,
            EicRegister::Filter => 0x20,
            EicRegister::Test => 0x24,
            EicRegister::Async => 0x28,
            EicRegister::En => 0x30,
            EicRegister::Dis => 0x34,
            EicRegister::Ctrl => 0x38,
        }
    }

    /// Returns the offset of this register from the base address, in bytes
    #[verifier::when_used_as_spec(spec_offset)]
    pub fn offset(&self) -> (offset: u32)
        ensures
            offset == self.spec_offset(),
    {
        match *self {
            EicRegister::Ier => 0x00,
            EicRegister::Idr => 0x04,
            EicRegister::Imr => 0x08,
            EicRegister::Isr => 0x0C,
            EicRegister::Icr => 0x10,
            EicRegister::Mode => 0x14,
            EicRegister::Edge => 0x18,
            EicRegister::Level => 0x1C,
            EicRegister::Filter => 0x20,
            EicRegister::Test => 0x24,
            EicRegister::Async => 0x28,
            EicRegister::En => 0x30,
            EicRegister::Dis => 0x34,
            EicRegister::Ctrl => 0x38,
        }
    }
}

impl Interrupt {
    /// The number of this interrupt, which is the number of its bit in each register.
    pub open spec fn spec_number(&self) -> u32 {
        match *self {
            Interrupt::NonMaskable => 0,
            Interrupt::Interrupt1 => 1,
            Interrupt::Interrupt2 => 2,
            Interrupt::Interrupt3 => 3,
            Interrupt::Interrupt4 => 4,
            Interrupt::Interrupt5 => 5,
            Interrupt::Interrupt6 => 6,
            Interrupt::Interrupt7 => 7,
            Interrupt::Interrupt8 => 8,
        }
    }

    /// Returns the number of this interrupt
    #[verifier::when_used_as_spec(spec_number)]
    pub fn number(&self) -> (number: u32)
        ensures
            number == self.spec_number(),
            number <= 8,
    {
        match *self {
            Interrupt::NonMaskable => 0,
            Interrupt::Interrupt1 => 1,
            Interrupt::Interrupt2 => 2,
            Interrupt::Interrupt3 => 3,
            Interrupt::Interrupt4 => 4,
            Interrupt::Interrupt5 => 5,
            Interrupt::Interrupt6 => 6,
            Interrupt::Interrupt7 => 7,
            Interrupt::Interrupt8 => 8,
        }
    }

    /// The value that has the bit of this interrupt set and no other.
    pub open spec fn spec_mask(&self) -> u32 {
        match *self {
            Interrupt::NonMaskable => 0x001,
            Interrupt::Interrupt1 => 0x002,
            Interrupt::Interrupt2 => 0x004,
            Interrupt::Interrupt3 => 0x008,
            Interrupt::Interrupt4 => 0x010,
            Interrupt::Interrupt5 => 0x020,
            Interrupt::Interrupt6 => 0x040,
            Interrupt::Interrupt7 => 0x080,
            Interrupt::Interrupt8 => 0x100,
        }
    }

    /// Returns the value that has the bit of this interrupt set and no other
    #[verifier::when_used_as_spec(spec_mask)]
    pub fn mask(&self) -> (mask: u32)
        ensures
            mask == self.spec_mask(),
    {
        let number: u32 = self.number();
        assert(1u32 << 0u32 == 0x001 && 1u32 << 1u32 == 0x002 && 1u32 << 2u32 == 0x004 && 1u32
            << 3u32 == 0x008 && 1u32 << 4u32 == 0x010 && 1u32 << 5u32 == 0x020 && 1u32 << 6u32
            == 0x040 && 1u32 << 7u32 == 0x080 && 1u32 << 8u32 == 0x100) by (bit_vector);
        1u32 << number
    }
}

/// Whether the bit of `interrupt` is set in the value `register` of a register.
pub open spec fn spec_is_set(register: u32, interrupt: Interrupt) -> bool {
    register & interrupt.mask() != 0
}

/// Returns the two writes that enable or disable an interrupt: the bit of the interrupt goes
/// to the interrupt enable and the enable registers, or to the interrupt disable and the
/// disable registers
pub fn set_enabled(interrupt: Interrupt, enabled: bool) -> (writes: [EicWrite; 2])
    ensures
        writes[0].value == interrupt.mask(),
        writes[1].value == interrupt.mask(),
        enabled ==> writes[0].register == EicRegister::Ier && writes[1].register
            == EicRegister::En,
        !enabled ==> writes[0].register == EicRegister::Idr && writes[1].register
            == EicRegister::Dis,
{
    if enabled {
        [
            EicWrite { register: EicRegister::Ier, value: interrupt.mask() },
            EicWrite { register: EicRegister::En, value: interrupt.mask() },
        ]
    } else {
        [
            EicWrite { register: EicRegister::Idr, value: interrupt.mask() },
            EicWrite { register: EicRegister::Dis, value: interrupt.mask() },
        ]
    }
}

/// Returns true if the given interrupt is enabled, otherwise false, where `imr` is the
/// value of the interrupt mask register
pub fn is_enabled(imr: u32, interrupt: Interrupt) -> (enabled: bool)
    ensures
        enabled == spec_is_set(imr, interrupt),
{
    imr & interrupt.mask() != 0
}

/// Returns true if the given interrupt has been triggered since it was last cleared,
/// where `isr` is the value of the interrupt status register
pub fn has_occurred(isr: u32, interrupt: Interrupt) -> (occurred: bool)
    ensures
        occurred == spec_is_set(isr, interrupt),
{
    isr & interrupt.mask() != 0
}

/// Returns the write that clears the given interrupt
pub fn clear(interrupt: Interrupt) -> (write: EicWrite)
    ensures
        write == (EicWrite { register: EicRegister::Icr, value: interrupt.mask() }),
{
    EicWrite { register: EicRegister::Icr, value: interrupt.mask() }
}

/// The trigger registers after the trigger of an interrupt has been set. The mode bit of the
/// interrupt is set for an edge; the edge bit is then set for the rising edge. For a level
/// the level bit is set for high. Where a bit is not set, it is flipped: to clear it, it
/// must have been set before.
pub open spec fn spec_set_trigger(registers: TriggerRegisters, interrupt: Interrupt, trigger: Trigger) -> TriggerRegisters {
    match trigger {
        Trigger::RisingEdge => TriggerRegisters {
            mode: registers.mode | interrupt.mask(),
            edge: registers.edge | interrupt.mask(),
            level: registers.level,
        },
        Trigger::FallingEdge => TriggerRegisters {
            mode: registers.mode | interrupt.mask(),
            edge: registers.edge ^ interrupt.mask(),
            level: registers.level,
        },
        Trigger::High => TriggerRegisters {
            mode: registers.mode ^ interrupt.mask(),
            edge: registers.edge,
            level: registers.level | interrupt.mask(),
        },
        Trigger::Low => TriggerRegisters {
            mode: registers.mode ^ interrupt.mask(),
            edge: registers.edge,
            level: registers.level ^ interrupt.mask(),
        },
    }
}

/// Sets the trigger for an interrupt: returns the values to write to the mode, edge and
/// level registers, where `registers` holds the values read from them
pub fn set_trigger(registers: TriggerRegisters, interrupt: Interrupt, trigger: Trigger) -> (updated:
    TriggerRegisters)
    ensures
        updated == spec_set_trigger(registers, interrupt, trigger),
{
    let mask: u32 = interrupt.mask();
    match trigger {
        Trigger::RisingEdge => TriggerRegisters {
            mode: registers.mode | mask,
            edge: registers.edge | mask,
            level: registers.level,
        },
        Trigger::FallingEdge => TriggerRegisters {
            mode: registers.mode | mask,
            edge: registers.edge ^ mask,
            level: registers.level,
        },
        Trigger::High => TriggerRegisters {
            mode: registers.mode ^ mask,
            edge: registers.edge,
            level: registers.level | mask,
        },
        Trigger::Low => TriggerRegisters {
            mode: registers.mode ^ mask,
            edge: registers.edge,
            level: registers.level ^ mask,
        },
    }
}

/// Enables or disables filtering for an interrupt: returns the value to write to the filter
/// register, where `filter` is the value read from it. To enable, the bit of the interrupt
/// is set; to disable, it is flipped.
/// Filtering slows propagation but may reduce spurious interrupts.
pub fn set_filter_enabled(filter: u32, interrupt: Interrupt, enabled: bool) -> (updated: u32)
    ensures
        enabled ==> updated == filter | interrupt.mask(),
        !enabled ==> updated == filter ^ interrupt.mask(),
{
    if enabled {
        filter | interrupt.mask()
    } else {
        filter ^ interrupt.mask()
    }
}

/// Once the trigger of an interrupt is set to an edge, its mode bit is set, whatever the
/// registers held; and no setting changes the bit of another interrupt.
pub proof fn lemma_set_trigger_bits(registers: TriggerRegisters, interrupt: Interrupt, trigger: Trigger, other: Interrupt)
    ensures
        trigger is RisingEdge || trigger is FallingEdge ==> spec_is_set(
            spec_set_trigger(registers, interrupt, trigger).mode,
            interrupt,
        ),
        trigger is RisingEdge ==> spec_is_set(spec_set_trigger(registers, interrupt, trigger).edge, interrupt),
        trigger is High ==> spec_is_set(spec_set_trigger(registers, interrupt, trigger).level, interrupt),
        other != interrupt ==> spec_is_set(spec_set_trigger(registers, interrupt, trigger).mode, other)
            == spec_is_set(registers.mode, other) && spec_is_set(
            spec_set_trigger(registers, interrupt, trigger).edge,
            other,
        ) == spec_is_set(registers.edge, other) && spec_is_set(
            spec_set_trigger(registers, interrupt, trigger).level,
            other,
        ) == spec_is_set(registers.level, other),
{
    let m = interrupt.mask();
    let o = other.mask();
    let mode = registers.mode;
    let edge = registers.edge;
    let level = registers.level;
    assert(m != 0 ==> (mode | m) & m != 0 && (edge | m) & m != 0 && (level | m) & m != 0)
        by (bit_vector);
    assert(m & o == 0 ==> ((mode | m) & o == mode & o) && ((mode ^ m) & o == mode & o) && ((edge
        | m) & o == edge & o) && ((edge ^ m) & o == edge & o) && ((level | m) & o == level & o)
        && ((level ^ m) & o == level & o)) by (bit_vector);
    if other != interrupt {
        assert(m & o == 0) by {
            lemma_masks_disjoint(interrupt, other);
        }
    }
}

/// The bits of two different interrupts are different bits.
proof fn lemma_masks_disjoint(a: Interrupt, b: Interrupt)
    requires
        a != b,
    ensures
        a.mask() & b.mask() == 0,
{
    let x = a.mask();
    let y = b.mask();
    assert((x == 0x001 || x == 0x002 || x == 0x004 || x == 0x008 || x == 0x010 || x == 0x020 || x
        == 0x040 || x == 0x080 || x == 0x100) && (y == 0x001 || y == 0x002 || y == 0x004 || y
        == 0x008 || y == 0x010 || y == 0x020 || y == 0x040 || y == 0x080 || y == 0x100) && x != y
        ==> x & y == 0) by (bit_vector);
}

} // verus!
