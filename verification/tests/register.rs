use mos6502::register::StatusRegister;

fn clear() -> StatusRegister {
    StatusRegister::new()
}

#[test]
fn new_register_has_all_flags_clear() {
    let s = StatusRegister::new();
    assert!(!s.c && !s.z && !s.i && !s.d && !s.b && !s.v && !s.n);
}

#[test]
fn clear_register_packs_to_bit_five_alone() {
    assert_eq!(clear().to_byte(), 0b0010_0000);
}

#[test]
fn each_flag_has_its_own_bit() {
    let mut s = clear();
    s.c = true;
    assert_eq!(s.to_byte(), 0b0010_0001);
    let mut s = clear();
    s.z = true;
    assert_eq!(s.to_byte(), 0b0010_0010);
    let mut s = clear();
    s.i = true;
    assert_eq!(s.to_byte(), 0b0010_0100);
    let mut s = clear();
    s.d = true;
    assert_eq!(s.to_byte(), 0b0010_1000);
    let mut s = clear();
    s.b = true;
    assert_eq!(s.to_byte(), 0b0011_0000);
    let mut s = clear();
    s.v = true;
    assert_eq!(s.to_byte(), 0b0110_0000);
    let mut s = clear();
    s.n = true;
    assert_eq!(s.to_byte(), 0b1010_0000);
}

#[test]
fn all_flags_set_pack_to_ff() {
    let s = StatusRegister { c: true, z: true, i: true, d: true, b: true, v: true, n: true };
    assert_eq!(s.to_byte(), 0xFF);
}

#[test]
fn from_byte_reads_each_bit() {
    let s = StatusRegister::from_byte(0b1100_0011);
    assert_eq!(
        s,
        StatusRegister { c: true, z: true, i: false, d: false, b: false, v: true, n: true }
    );
    let s = StatusRegister::from_byte(0b0001_1100);
    assert_eq!(
        s,
        StatusRegister { c: false, z: false, i: true, d: true, b: true, v: false, n: false }
    );
}

#[test]
fn from_byte_ignores_bit_five() {
    assert_eq!(StatusRegister::from_byte(0x20), StatusRegister::from_byte(0x00));
    assert_eq!(StatusRegister::from_byte(0xFF), StatusRegister::from_byte(0xDF));
}

#[test]
fn unpacking_then_packing_sets_bit_five_and_keeps_the_rest() {
    for byte in 0..=255u8 {
        assert_eq!(StatusRegister::from_byte(byte).to_byte(), byte | 0x20);
    }
}

#[test]
fn packing_then_unpacking_gives_the_flags_back() {
    for bits in 0..128u8 {
        let s = StatusRegister {
            c: bits & 1 != 0,
            z: bits & 2 != 0,
            i: bits & 4 != 0,
            d: bits & 8 != 0,
            b: bits & 16 != 0,
            v: bits & 32 != 0,
            n: bits & 64 != 0,
        };
        assert_eq!(StatusRegister::from_byte(s.to_byte()), s);
    }
}
