use gameboy_core::cpu::registers::flags::CPUFlagsRegister;

#[test]
fn initialize_clears_every_flag() {
    let flags = CPUFlagsRegister::initialize();
    assert!(!flags.get_zero());
    assert!(!flags.get_subtract());
    assert!(!flags.get_half_carry());
    assert!(!flags.get_carry());
    assert_eq!(flags, CPUFlagsRegister::default());
}

#[test]
fn from_byte_reads_the_upper_nibble() {
    let flags = CPUFlagsRegister::from(0b1000_0000u8);
    assert_eq!((flags.get_zero(), flags.get_subtract(), flags.get_half_carry(), flags.get_carry()), (true, false, false, false));
    let flags = CPUFlagsRegister::from(0b0100_0000u8);
    assert_eq!((flags.get_zero(), flags.get_subtract(), flags.get_half_carry(), flags.get_carry()), (false, true, false, false));
    let flags = CPUFlagsRegister::from(0b0010_0000u8);
    assert_eq!((flags.get_zero(), flags.get_subtract(), flags.get_half_carry(), flags.get_carry()), (false, false, true, false));
    let flags = CPUFlagsRegister::from(0b0001_0000u8);
    assert_eq!((flags.get_zero(), flags.get_subtract(), flags.get_half_carry(), flags.get_carry()), (false, false, false, true));
    let flags = CPUFlagsRegister::from(0b0000_1111u8);
    assert_eq!(flags, CPUFlagsRegister::initialize());
    let flags = CPUFlagsRegister::from(0xFFu8);
    assert_eq!((flags.get_zero(), flags.get_subtract(), flags.get_half_carry(), flags.get_carry()), (true, true, true, true));
}

#[test]
fn to_byte_fills_the_upper_nibble() {
    let mut flags = CPUFlagsRegister::initialize();
    assert_eq!(u8::from(flags), 0x00);
    flags.set_zero(true);
    assert_eq!(u8::from(flags), 0x80);
    flags.set_carry(true);
    assert_eq!(u8::from(flags), 0x90);
    flags.set_subtract(true);
    assert_eq!(u8::from(flags), 0xD0);
    flags.set_half_carry(true);
    assert_eq!(u8::from(flags), 0xF0);
    flags.set_zero(false);
    assert_eq!(u8::from(flags), 0x70);
    assert_eq!(flags.to_byte(), 0x70);
}

#[test]
fn byte_round_trip_masks_the_low_nibble() {
    for byte in 0..=255u8 {
        assert_eq!(u8::from(CPUFlagsRegister::from(byte)), byte & 0xF0);
        assert_eq!(CPUFlagsRegister::from_byte(byte).to_byte(), byte & 0xF0);
        let converted: u8 = CPUFlagsRegister::from(byte).into();
        assert_eq!(converted, byte & 0xF0);
    }
}

#[test]
fn flags_round_trip_through_the_byte() {
    for zero in [false, true] {
        for subtract in [false, true] {
            for half_carry in [false, true] {
                for carry in [false, true] {
                    let flags = CPUFlagsRegister { zero, subtract, half_carry, carry };
                    assert_eq!(CPUFlagsRegister::from(u8::from(flags)), flags);
                    assert_eq!(u8::from(flags) & 0x0F, 0);
                }
            }
        }
    }
}

#[test]
fn setting_one_flag_leaves_the_others() {
    for byte in (0..=255u8).step_by(16) {
        for value in [false, true] {
            let before = CPUFlagsRegister::from(byte);

            let mut flags = before;
            flags.set_zero(value);
            assert_eq!(flags, CPUFlagsRegister { zero: value, ..before });

            let mut flags = before;
            flags.set_subtract(value);
            assert_eq!(flags, CPUFlagsRegister { subtract: value, ..before });

            let mut flags = before;
            flags.set_half_carry(value);
            assert_eq!(flags, CPUFlagsRegister { half_carry: value, ..before });

            let mut flags = before;
            flags.set_carry(value);
            assert_eq!(flags, CPUFlagsRegister { carry: value, ..before });
        }
    }
}
