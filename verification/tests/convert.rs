use opengl_book_examples::convert::to_signed;

#[test]
fn bits_are_read_as_a_signed_integer() {
    assert_eq!(to_signed(0), 0);
    assert_eq!(to_signed(1), 1);
    assert_eq!(to_signed(0x7fff_ffff), i32::MAX);
    assert_eq!(to_signed(0x8000_0000), i32::MIN);
    assert_eq!(to_signed(0x8000_0001), i32::MIN + 1);
    assert_eq!(to_signed(u32::MAX), -1);
    for value in [0u32, 5, 0x7fff_ffff, 0x8000_0000, 0xdead_beef, u32::MAX] {
        assert_eq!(to_signed(value), value as i32);
    }
}
