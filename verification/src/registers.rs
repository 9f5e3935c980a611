//! The register map of the AT86RF230 and the rule for writing a register safely.

use vstd::prelude::*;

verus! {

/// One register of the chip: where it is, what it holds after reset, and which of its bits
/// are reserved.
#[derive(Clone, Copy, Debug, PartialEq, Eq, Structural)]
pub struct Register {
    /// The address
    pub address: u8,
    /// The value after a reset
    pub reset_value: u8,
    /// A value with the reserved bits set to 1 and the other bits set to 0
    pub reserved_mask: u8,
}

impl Register {
    /// The value that reaches the chip when `value` is written to this register: the
    /// reserved bits come from the reset value, all other bits from `value`.
    pub open spec fn spec_clean_for_write(&self, value: u8) -> u8 {
        (value & !self.reserved_mask) | (self.reset_value & self.reserved_mask)
    }

    /// Whatever is written, the reserved bits of what reaches the chip are those of the reset
    /// value, and the other bits are those of the value written.
    pub proof fn lemma_clean_for_write(self, value: u8)
        ensures
            self.spec_clean_for_write(value) & self.reserved_mask == self.reset_value
                & self.reserved_mask,
            self.spec_clean_for_write(value) & !self.reserved_mask == value & !self.reserved_mask,
            self.reserved_mask == 0 ==> self.spec_clean_for_write(value) == value,
    {
        let mask = self.reserved_mask;
        let reset = self.reset_value;
        assert(((value & !mask) | (reset & mask)) & mask == reset & mask) by (bit_vector);
        assert(((value & !mask) | (reset & mask)) & !mask == value & !mask) by (bit_vector);
        assert(mask == 0 ==> ((value & !mask) | (reset & mask)) == value) by (bit_vector);
    }

    /// Processes a value to be written, so that the write leaves every reserved bit at its
    /// reset value. Returns the cleaned value.
    pub fn clean_for_write(&self, value: u8) -> (cleaned: u8)
        ensures
            cleaned == self.spec_clean_for_write(value),
            cleaned & self.reserved_mask == self.reset_value & self.reserved_mask,
            cleaned & !self.reserved_mask == value & !self.reserved_mask,
    {
        // Zero all the bits of the value that are reserved
        let changed_bits = value & !self.reserved_mask;
        // Zero the non-reserved bits of the reset value, leaving the reserved bits
        // equal to the reset value
        let reserved_reset_bits = self.reset_value & self.reserved_mask;
        proof {
            self.lemma_clean_for_write(value);
        }
        // Return the unreserved changed bits and the reserved reset bits
        changed_bits | reserved_reset_bits
    }
}

/// The registers of the chip, by name.
#[derive(Clone, Copy, Debug, PartialEq, Eq, Structural)]
pub enum RegisterName {
    /// `TRX_STATUS`
    TrxStatus,
    /// `TRX_STATE`
    TrxState,
    /// `TRX_CTRL_0`
    TrxCtrl0,
    /// `PHY_TX_PWR`
    PhyTxPwr,
    /// `PHY_RSSI`
    PhyRssi,
    /// `PHY_ED_LEVEL`
    PhyEdLevel,
    /// `PHY_CC_CCA`
    PhyCcCca,
    /// `CCA_THRES`
    CcaThres,
    /// `IRQ_MASK`
    IrqMask,
    /// `IRQ_STATUS`
    IrqStatus,
    /// `VREG_CTRL`
    VregCtrl,
    /// `BATMON`
    Batmon,
    /// `XOSC_CTRL`
    XoscCtrl,
    /// `PLL_CF`
    PllCf,
    /// `PLL_DCU`
    PllDcu,
    /// `PART_NUM`
    PartNum,
    /// `VERSION_NUM`
    VersionNum,
    /// `MAN_ID_0`
    ManId0,
    /// `MAN_ID_1`
    ManId1,
    /// `SHORT_ADDR_0`
    ShortAddr0,
    /// `SHORT_ADDR_1`
    ShortAddr1,
    /// `PAN_ID_0`
    PanId0,
    /// `PAN_ID_1`
    PanId1,
    /// `IEEE_ADDR_0`
    IeeeAddr0,
    /// `IEEE_ADDR_1`
    IeeeAddr1,
    /// `IEEE_ADDR_2`
    IeeeAddr2,
    /// `IEEE_ADDR_3`
    IeeeAddr3,
    /// `IEEE_ADDR_4`
    IeeeAddr4,
    /// `IEEE_ADDR_5`
    IeeeAddr5,
    /// `IEEE_ADDR_6`
    IeeeAddr6,
    /// `IEEE_ADDR_7`
    IeeeAddr7,
    /// `XAH_CTRL`
    XahCtrl,
    /// `CSMA_SEED_0`
    CsmaSeed0,
    /// `CSMA_SEED_1`
    CsmaSeed1,
}

impl RegisterName {
    /// The register of this name: the chip's register map.
    pub open spec fn spec_register(&self) -> Register {
        match *self {
            RegisterName::TrxStatus => Register { address: 0x01, reset_value: 0x00, reserved_mask: 0b00100000 },
            RegisterName::TrxState => Register { address: 0x02, reset_value: 0x00, reserved_mask: 0b00000000 },
            RegisterName::TrxCtrl0 => Register { address: 0x03, reset_value: 0x19, reserved_mask: 0b00000000 },
            RegisterName::PhyTxPwr => Register { address: 0x05, reset_value: 0x00, reserved_mask: 0b01110000 },
            RegisterName::PhyRssi => Register { address: 0x06, reset_value: 0x00, reserved_mask: 0b01100000 },
            RegisterName::PhyEdLevel => Register { address: 0x07, reset_value: 0x00, reserved_mask: 0b00000000 },
            RegisterName::PhyCcCca => Register { address: 0x08, reset_value: 0x2B, reserved_mask: 0b00000000 },
            RegisterName::CcaThres => Register { address: 0x09, reset_value: 0xC7, reserved_mask: 0b11110000 },
            RegisterName::IrqMask => Register { address: 0x0E, reset_value: 0xFF, reserved_mask: 0b00110000 },
            RegisterName::IrqStatus => Register { address: 0x0F, reset_value: 0x00, reserved_mask: 0b00110000 },
            RegisterName::VregCtrl => Register { address: 0x10, reset_value: 0x00, reserved_mask: 0b00110011 },
            RegisterName::Batmon => Register { address: 0x11, reset_value: 0x02, reserved_mask: 0b11000000 },
            RegisterName::XoscCtrl => Register { address: 0x12, reset_value: 0xF0, reserved_mask: 0b00000000 },
            RegisterName::PllCf => Register { address: 0x1A, reset_value: 0x5F, reserved_mask: 0b01111111 },
            RegisterName::PllDcu => Register { address: 0x1B, reset_value: 0x20, reserved_mask: 0b01111111 },
            RegisterName::PartNum => Register { address: 0x1C, reset_value: 0x02, reserved_mask: 0b00000000 },
            RegisterName::VersionNum => Register { address: 0x1D, reset_value: 0x02, reserved_mask: 0b00000000 },
            RegisterName::ManId0 => Register { address: 0x1E, reset_value: 0x1F, reserved_mask: 0b00000000 },
            RegisterName::ManId1 => Register { address: 0x1F, reset_value: 0x00, reserved_mask: 0b00000000 },
            RegisterName::ShortAddr0 => Register { address: 0x20, reset_value: 0x00, reserved_mask: 0b00000000 },
            RegisterName::ShortAddr1 => Register { address: 0x21, reset_value: 0x00, reserved_mask: 0b00000000 },
            RegisterName::PanId0 => Register { address: 0x22, reset_value: 0x00, reserved_mask: 0b00000000 },
            RegisterName::PanId1 => Register { address: 0x23, reset_value: 0x00, reserved_mask: 0b00000000 },
            RegisterName::IeeeAddr0 => Register { address: 0x24, reset_value: 0x00, reserved_mask: 0b00000000 },
            RegisterName::IeeeAddr1 => Register { address: 0x25, reset_value: 0x00, reserved_mask: 0b00000000 },
            RegisterName::IeeeAddr2 => Register { address: 0x26, reset_value: 0x00, reserved_mask: 0b00000000 },
            RegisterName::IeeeAddr3 => Register { address: 0x27, reset_value: 0x00, reserved_mask: 0b00000000 },
            RegisterName::IeeeAddr4 => Register { address: 0x28, reset_value: 0x00, reserved_mask: 0b00000000 },
            RegisterName::IeeeAddr5 => Register { address: 0x29, reset_value: 0x00, reserved_mask: 0b00000000 },
            RegisterName::IeeeAddr6 => Register { address: 0x2A, reset_value: 0x00, reserved_mask: 0b00000000 },
            RegisterName::IeeeAddr7 => Register { address: 0x2B, reset_value: 0x00, reserved_mask: 0b00000000 },
            RegisterName::XahCtrl => Register { address: 0x2C, reset_value: 0x38, reserved_mask: 0b00000001 },
            RegisterName::CsmaSeed0 => Register { address: 0x2D, reset_value: 0xEA, reserved_mask: 0b00000000 },
            RegisterName::CsmaSeed1 => Register { address: 0x2E, reset_value: 0xC2, reserved_mask: 0b00010000 },
        }
    }

    /// Returns the register of this name
    #[verifier::when_used_as_spec(spec_register)]
    pub fn register(&self) -> (register: Register)
        ensures
            register == self.spec_register(),
            register.address < 0x40,
    {
        match *self {
            RegisterName::TrxStatus => Register { address: 0x01, reset_value: 0x00, reserved_mask: 0b00100000 },
            RegisterName::TrxState => Register { address: 0x02, reset_value: 0x00, reserved_mask: 0b00000000 },
            RegisterName::TrxCtrl0 => Register { address: 0x03, reset_value: 0x19, reserved_mask: 0b00000000 },
            RegisterName::PhyTxPwr => Register { address: 0x05, reset_value: 0x00, reserved_mask: 0b01110000 },
            RegisterName::PhyRssi => Register { address: 0x06, reset_value: 0x00, reserved_mask: 0b01100000 },
            RegisterName::PhyEdLevel => Register { address: 0x07, reset_value: 0x00, reserved_mask: 0b00000000 },
            RegisterName::PhyCcCca => Register { address: 0x08, reset_value: 0x2B, reserved_mask: 0b00000000 },
            RegisterName::CcaThres => Register { address: 0x09, reset_value: 0xC7, reserved_mask: 0b11110000 },
            RegisterName::IrqMask => Register { address: 0x0E, reset_value: 0xFF, reserved_mask: 0b00110000 },
            RegisterName::IrqStatus => Register { address: 0x0F, reset_value: 0x00, reserved_mask: 0b00110000 },
            RegisterName::VregCtrl => Register { address: 0x10, reset_value: 0x00, reserved_mask: 0b00110011 },
            RegisterName::Batmon => Register { address: 0x11, reset_value: 0x02, reserved_mask: 0b11000000 },
            RegisterName::XoscCtrl => Register { address: 0x12, reset_value: 0xF0, reserved_mask: 0b00000000 },
            RegisterName::PllCf => Register { address: 0x1A, reset_value: 0x5F, reserved_mask: 0b01111111 },
            RegisterName::PllDcu => Register { address: 0x1B, reset_value: 0x20, reserved_mask: 0b01111111 },
            RegisterName::PartNum => Register { address: 0x1C, reset_value: 0x02, reserved_mask: 0b00000000 },
            RegisterName::VersionNum => Register { address: 0x1D, reset_value: 0x02, reserved_mask: 0b00000000 },
            RegisterName::ManId0 => Register { address: 0x1E, reset_value: 0x1F, reserved_mask: 0b00000000 },
            RegisterName::ManId1 => Register { address: 0x1F, reset_value: 0x00, reserved_mask: 0b00000000 },
            RegisterName::ShortAddr0 => Register { address: 0x20, reset_value: 0x00, reserved_mask: 0b00000000 },
            RegisterName::ShortAddr1 => Register { address: 0x21, reset_value: 0x00, reserved_mask: 0b00000000 },
            RegisterName::PanId0 => Register { address: 0x22, reset_value: 0x00, reserved_mask: 0b00000000 },
            RegisterName::PanId1 => Register { address: 0x23, reset_value: 0x00, reserved_mask: 0b00000000 },
            RegisterName::IeeeAddr0 => Register { address: 0x24, reset_value: 0x00, reserved_mask: 0b00000000 },
            RegisterName::IeeeAddr1 => Register { address: 0x25, reset_value: 0x00, reserved_mask: 0b00000000 },
            RegisterName::IeeeAddr2 => Register { address: 0x26, reset_value: 0x00, reserved_mask: 0b00000000 },
            RegisterName::IeeeAddr3 => Register { address: 0x27, reset_value: 0x00, reserved_mask: 0b00000000 },
            RegisterName::IeeeAddr4 => Register { address: 0x28, reset_value: 0x00, reserved_mask: 0b00000000 },
            RegisterName::IeeeAddr5 => Register { address: 0x29, reset_value: 0x00, reserved_mask: 0b00000000 },
            RegisterName::IeeeAddr6 => Register { address: 0x2A, reset_value: 0x00, reserved_mask: 0b00000000 },
            RegisterName::IeeeAddr7 => Register { address: 0x2B, reset_value: 0x00, reserved_mask: 0b00000000 },
            RegisterName::XahCtrl => Register { address: 0x2C, reset_value: 0x38, reserved_mask: 0b00000001 },
            RegisterName::CsmaSeed0 => Register { address: 0x2D, reset_value: 0xEA, reserved_mask: 0b00000000 },
            RegisterName::CsmaSeed1 => Register { address: 0x2E, reset_value: 0xC2, reserved_mask: 0b00010000 },
        }
    }

    /// No two names stand for the same address.
    pub proof fn lemma_addresses_distinct(self, other: RegisterName)
        requires
            self.register().address == other.register().address,
        ensures
            self == other,
    {
    }
}

} // verus!
