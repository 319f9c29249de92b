use svdpi::dpi::param::{InBV, InoutBV, OutBV};

#[test]
fn single_word_widths_take_one_word() {
    let words = [0xA5A5_A5A5u32];
    let bv: InBV<1> = InBV::new(&words);
    assert_eq!(bv.as_array::<1>(), &words);
    let bv: InBV<32> = InBV::new(&words);
    assert_eq!(bv.as_array::<1>(), &words);
    let bv: InBV<17> = InBV::new(&words);
    assert_eq!(bv.as_slice(), &words);
}

#[test]
fn two_word_widths_take_two_words() {
    let words = [0x1111_1111u32, 0x2222_2222u32];
    let bv: InBV<33> = InBV::new(&words);
    assert_eq!(bv.as_array::<2>(), &words);
    let bv: InBV<64> = InBV::new(&words);
    assert_eq!(bv.as_array::<2>(), &words);
}

#[test]
fn length_validation_refuses_a_mis_sized_buffer() {
    let one = [0u32];
    let two = [0u32, 0u32];
    assert!(InBV::<33>::try_new(&one).is_none());
    assert!(InBV::<32>::try_new(&two).is_none());
    assert!(InBV::<33>::try_new(&two).is_some());
    assert!(InBV::<1>::try_new(&one).is_some());

    assert!(OutBV::<64>::try_new(vec![0u32]).is_err());
    let given_back = match OutBV::<64>::try_new(vec![7u32]) {
        Err(words) => words,
        Ok(_) => panic!("a one-word buffer must be refused for a two-word width"),
    };
    assert_eq!(given_back, vec![7u32]);
    assert!(OutBV::<64>::try_new(vec![0u32, 0u32]).is_ok());
}

#[test]
fn byte_views_are_little_endian() {
    let words = [0xBBAAu32];
    let bv: InBV<16> = InBV::new(&words);
    assert_eq!(bv.as_u8_array::<2>(), vec![0xAA, 0xBB]);

    let words = [0x4433_2211u32, 0x0000_0055u32];
    let bv: InBV<40> = InBV::new(&words);
    assert_eq!(bv.as_u8_array::<5>(), vec![0x11, 0x22, 0x33, 0x44, 0x55]);
    assert_eq!(bv.as_u8_slice(), vec![0x11, 0x22, 0x33, 0x44, 0x55]);
}

#[test]
fn out_bv_writes_whole_words() {
    let mut bv: OutBV<64> = OutBV::new(vec![0, 0]);
    bv.set_word(1, 0xDEAD_BEEF);
    assert_eq!(bv.as_array::<2>(), &[0, 0xDEAD_BEEF]);
    assert_eq!(bv.into_words(), vec![0, 0xDEAD_BEEF]);
}

#[test]
fn out_bv_writes_single_bytes_in_place() {
    let mut bv: OutBV<32> = OutBV::new(vec![0x4433_2211]);
    bv.set_u8(2, 0xCC);
    assert_eq!(bv.as_u8_array::<4>(), vec![0x11, 0x22, 0xCC, 0x44]);
    assert_eq!(bv.as_array::<1>(), &[0x44CC_2211]);
}

#[test]
fn out_bv_byte_writes_leave_other_bytes_alone() {
    let mut bv: OutBV<48> = OutBV::new(vec![0x0403_0201, 0x0000_0605]);
    bv.set_u8(4, 0xEE);
    assert_eq!(bv.as_u8_array::<6>(), vec![0x01, 0x02, 0x03, 0x04, 0xEE, 0x06]);
}

#[test]
fn inout_bv_is_the_out_shape() {
    let mut bv: InoutBV<8> = OutBV::new(vec![0x0000_0012]);
    assert_eq!(bv.as_u8_array::<1>(), vec![0x12]);
    bv.set_u8(0, 0x99);
    assert_eq!(bv.as_u8_array::<1>(), vec![0x99]);
}
