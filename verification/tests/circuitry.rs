use gameboy_core::circuitry::interface::CircuitryInterface;
use gameboy_core::circuitry::Circuitry;

#[test]
fn fresh_circuitry_reads_zero() {
    let circuitry = Circuitry::default();
    for address in [0x0000u16, 0x0001, 0x0100, 0x7FFF, 0x8000, 0xFF80, 0xFFFE, 0xFFFF] {
        assert_eq!(circuitry.read(address), 0);
    }
}

#[test]
fn written_byte_reads_back() {
    let mut circuitry = Circuitry::default();
    circuitry.write(0x0000, 0x12);
    circuitry.write(0xC000, 0x34);
    circuitry.write(0xFFFF, 0x56);
    assert_eq!(circuitry.read(0x0000), 0x12);
    assert_eq!(circuitry.read(0xC000), 0x34);
    assert_eq!(circuitry.read(0xFFFF), 0x56);
    circuitry.write(0xC000, 0x78);
    assert_eq!(circuitry.read(0xC000), 0x78);
}

#[test]
fn write_touches_one_address_only() {
    let mut circuitry = Circuitry::default();
    circuitry.write(0x8000, 0xAA);
    for address in 0..=0xFFFFu16 {
        let expected = if address == 0x8000 { 0xAA } else { 0x00 };
        assert_eq!(circuitry.read(address), expected);
    }
}

#[test]
fn circuitry_compares_by_its_bytes() {
    let mut one = Circuitry::default();
    let mut other = Circuitry::default();
    assert!(one == other);
    one.write(0xFFFF, 1);
    assert!(one != other);
    other.write(0xFFFF, 1);
    assert!(one == other);
    one.write(0x0000, 2);
    other.write(0x0001, 2);
    assert!(one != other);
}
