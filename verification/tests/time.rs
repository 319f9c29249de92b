#[test]
fn high_word_one_is_two_to_the_thirty_two() {
    assert_eq!(svdpi::get_time(1, 0), 4294967296);
}

#[test]
fn low_word_passes_through() {
    assert_eq!(svdpi::get_time(0, 42), 42);
}

#[test]
fn both_words_compose() {
    assert_eq!(svdpi::get_time(u32::MAX, u32::MAX), u64::MAX);
    assert_eq!(svdpi::vpi::get_time(2, 7), 0x2_0000_0007);
    assert_eq!(svdpi::dpi::get_time(0, 1, 0), 4294967296);
}
