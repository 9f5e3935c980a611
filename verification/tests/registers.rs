use rf230::registers::{Register, RegisterName};

const NAMES: [RegisterName; 34] = [
    RegisterName::TrxStatus,
    RegisterName::TrxState,
    RegisterName::TrxCtrl0,
    RegisterName::PhyTxPwr,
    RegisterName::PhyRssi,
    RegisterName::PhyEdLevel,
    RegisterName::PhyCcCca,
    RegisterName::CcaThres,
    RegisterName::IrqMask,
    RegisterName::IrqStatus,
    RegisterName::VregCtrl,
    RegisterName::Batmon,
    RegisterName::XoscCtrl,
    RegisterName::PllCf,
    RegisterName::PllDcu,
    RegisterName::PartNum,
    RegisterName::VersionNum,
    RegisterName::ManId0,
    RegisterName::ManId1,
    RegisterName::ShortAddr0,
    RegisterName::ShortAddr1,
    RegisterName::PanId0,
    RegisterName::PanId1,
    RegisterName::IeeeAddr0,
    RegisterName::IeeeAddr1,
    RegisterName::IeeeAddr2,
    RegisterName::IeeeAddr3,
    RegisterName::IeeeAddr4,
    RegisterName::IeeeAddr5,
    RegisterName::IeeeAddr6,
    RegisterName::IeeeAddr7,
    RegisterName::XahCtrl,
    RegisterName::CsmaSeed0,
    RegisterName::CsmaSeed1,
];

#[test]
fn clean_for_write_keeps_reserved_bits_at_reset() {
    let register = Register { address: 0x09, reset_value: 0xC7, reserved_mask: 0b1111_0000 };
    assert_eq!(register.clean_for_write(0x3A), 0xCA);
    assert_eq!(register.clean_for_write(0x00), 0xC0);
    assert_eq!(register.clean_for_write(0xFF), 0xCF);
}

#[test]
fn clean_for_write_forces_reserved_bits_for_every_register_and_value() {
    for name in NAMES {
        let register = name.register();
        for value in 0..=255u8 {
            let cleaned = register.clean_for_write(value);
            assert_eq!(cleaned & register.reserved_mask, register.reset_value & register.reserved_mask);
            assert_eq!(cleaned & !register.reserved_mask, value & !register.reserved_mask);
        }
    }
}

#[test]
fn register_map_holds_the_documented_values() {
    assert_eq!(
        RegisterName::TrxStatus.register(),
        Register { address: 0x01, reset_value: 0x00, reserved_mask: 0b0010_0000 }
    );
    assert_eq!(
        RegisterName::TrxState.register(),
        Register { address: 0x02, reset_value: 0x00, reserved_mask: 0x00 }
    );
    assert_eq!(
        RegisterName::CcaThres.register(),
        Register { address: 0x09, reset_value: 0xC7, reserved_mask: 0b1111_0000 }
    );
    assert_eq!(
        RegisterName::IrqStatus.register(),
        Register { address: 0x0F, reset_value: 0x00, reserved_mask: 0b0011_0000 }
    );
    assert_eq!(
        RegisterName::PllDcu.register(),
        Register { address: 0x1B, reset_value: 0x20, reserved_mask: 0b0111_1111 }
    );
    assert_eq!(
        RegisterName::CsmaSeed1.register(),
        Register { address: 0x2E, reset_value: 0xC2, reserved_mask: 0b0001_0000 }
    );
    assert_eq!(RegisterName::PartNum.register().address, 0x1C);
    for (offset, name) in NAMES[23..31].iter().enumerate() {
        assert_eq!(name.register().address, 0x24 + offset as u8);
    }
}

#[test]
fn register_addresses_are_distinct_and_fit_six_bits() {
    for (i, a) in NAMES.iter().enumerate() {
        assert!(a.register().address < 0x40);
        for b in &NAMES[i + 1..] {
            assert_ne!(a.register().address, b.register().address);
        }
    }
}
