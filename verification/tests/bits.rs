use cpu16::inst::Inst;

#[test]
fn split_gives_bits_least_significant_first() {
    assert_eq!(
        Inst::bit_split(0b1010_0110),
        [false, true, true, false, false, true, false, true]
    );
    assert_eq!(Inst::bit_split(0), [false; 8]);
    assert_eq!(Inst::bit_split(255), [true; 8]);
}

#[test]
fn fuse8_weighs_bits_least_significant_first() {
    assert_eq!(
        Inst::bit_fuse8([false, true, true, false, false, true, false, true]),
        0b1010_0110
    );
    assert_eq!(Inst::bit_fuse8([true, false, false, false, false, false, false, false]), 1);
    assert_eq!(Inst::bit_fuse8([false, false, false, false, false, false, false, true]), 128);
}

#[test]
fn fuse16_weighs_bits_least_significant_first() {
    let mut bits = [false; 16];
    bits[0] = true;
    bits[15] = true;
    assert_eq!(Inst::bit_fuse16(bits), 0x8001);
    assert_eq!(Inst::bit_fuse16([true; 16]), 0xFFFF);
    assert_eq!(Inst::bit_fuse16([false; 16]), 0);
}

#[test]
fn fuse_of_split_is_identity_on_every_byte() {
    for x in 0..=255u8 {
        assert_eq!(Inst::bit_fuse8(Inst::bit_split(x)), x);
    }
}

#[test]
fn split_of_fuse_is_identity_on_bit_lists() {
    let lists = [
        [true, false, true, false, true, false, true, false],
        [false, false, false, true, true, true, false, true],
    ];
    for bits in lists {
        assert_eq!(Inst::bit_split(Inst::bit_fuse8(bits)), bits);
    }
}
