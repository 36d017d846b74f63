use value_box::{BoxHeap, BoxPointer, BoxerError, StringBox, StringBoxOriginType};

#[test]
pub fn test_from_wide_string() {
    let wide_string = vec![1087u32, 1088, 1080, 1074, 1077, 1090];
    let string = StringBox::from_wide_string(wide_string);

    assert_eq!(string.to_string(), String::from("привет"));
}

#[test]
pub fn test_from_byte_string() {
    let byte_string = vec![104u8, 101, 108, 108, 111];
    let string = StringBox::from_byte_string(byte_string);

    assert_eq!(string.to_string(), String::from("hello"));
}

#[test]
pub fn test_from_utf8_string() {
    let utf8_string = vec![104u8, 101, 108, 108, 111, 0];
    let string = StringBox::from_utf8_string(utf8_string.as_slice());

    assert_eq!(string.to_string(), String::from("hello"));
}

#[test]
pub fn sparkle() {
    let sparkle = String::from("💖");
    let string_box = StringBox::from_string(sparkle.clone());

    assert_eq!(sparkle.len(), 4);
    assert_eq!(string_box.len(), 4);
    assert_eq!(string_box.char_count(), 1);

    for char in sparkle.char_indices() {
        println!("{:?}", char);
    }
    println!("{:?}", sparkle.bytes());
}

#[test]
fn hello_byte_ranges() {
    let hello = StringBox::from_string(String::from("hello"));
    assert_eq!(hello.char_index_to_byte_range(0), 0..1);
    assert_eq!(hello.char_index_to_byte_range(4), 4..5);
    assert_eq!(hello.char_index_to_byte_range(5), 5..5);
    assert_eq!(hello.char_index_to_byte_range(100), 5..5);
}

#[test]
fn mixed_width_ranges() {
    let text = StringBox::from_string(String::from("aé€💖b"));
    assert_eq!(text.len(), 1 + 2 + 3 + 4 + 1);
    assert_eq!(text.char_count(), 5);
    assert_eq!(text.char_index_to_byte_range(1), 1..3);
    assert_eq!(text.char_index_to_byte_range(2), 3..6);
    assert_eq!(text.char_index_to_byte_range(3), 6..10);
    assert_eq!(text.char_index_to_byte_range(4), 10..11);
    assert_eq!(text.char_index_to_utf16_range(0), 0..1);
    assert_eq!(text.char_index_to_utf16_range(2), 2..3);
    assert_eq!(text.char_index_to_utf16_range(3), 3..5);
    assert_eq!(text.char_index_to_utf16_range(4), 5..6);
    assert_eq!(text.char_index_to_utf16_range(9), 6..6);
    assert_eq!(text.utf16_position_to_char_index(0), 0);
    assert_eq!(text.utf16_position_to_char_index(3), 3);
    assert_eq!(text.utf16_position_to_char_index(4), 4);
    assert_eq!(text.utf16_position_to_char_index(5), 4);
    assert_eq!(text.utf16_position_to_char_index(6), 5);
    assert_eq!(text.utf16_position_to_char_index(60), 5);
}

#[test]
fn empty_text() {
    let empty = StringBox::new();
    assert_eq!(empty.len(), 0);
    assert_eq!(empty.char_count(), 0);
    assert_eq!(empty.char_index_to_byte_range(0), 0..0);
    assert_eq!(empty.char_index_to_utf16_range(0), 0..0);
    assert_eq!(empty.utf16_position_to_char_index(3), 0);
}

#[test]
fn lossy_inputs() {
    let wide = StringBox::from_wide_string(vec![0x41, 0xD800, 0x110000, 0x1F496]);
    assert_eq!(wide.to_string(), String::from("A\u{FFFD}\u{FFFD}💖"));
    assert_eq!(wide.origin_type(), StringBoxOriginType::Wide);

    let bytes = StringBox::from_byte_string(vec![0x68, 0xE9, 0xFF]);
    assert_eq!(bytes.to_string(), String::from("h\u{e9}\u{ff}"));
    assert_eq!(bytes.char_count(), 3);
    assert_eq!(bytes.len(), 5);
    assert_eq!(bytes.origin_type(), StringBoxOriginType::Byte);

    let utf8 = StringBox::from_utf8_string(&[0x61, 0xFF, 0x62, 0]);
    assert_eq!(utf8.to_string(), String::from("a\u{FFFD}b"));
    assert_eq!(utf8.origin_type(), StringBoxOriginType::UTF8);
}

#[test]
fn set_string_and_views() {
    let mut text = StringBox::from_byte_string(vec![0x61]);
    text.set_string(String::from("xyz"));
    assert_eq!(text.as_str(), "xyz");
    assert_eq!(text.as_bytes(), b"xyz");
    assert_eq!(text.origin_type(), StringBoxOriginType::UTF8);
    let origin_type: StringBoxOriginType =
        value_box::StringBoxOrigin::Byte(vec![1]).into();
    assert_eq!(origin_type, StringBoxOriginType::Byte);
}

#[test]
fn string_handles() {
    let mut strings = BoxHeap::new();
    let mut ranges = BoxHeap::new();
    let text = strings.create(StringBox::from_string(String::from("a💖")));
    let range = ranges.create(0..0);
    assert_eq!(StringBox::boxer_string_get_len(&strings, text), Ok(5));
    assert_eq!(StringBox::boxer_string_get_char_count(&strings, text), Ok(2));
    assert_eq!(
        StringBox::boxer_string_char_index_to_byte_range(&strings, text, 1, &mut ranges, range),
        Ok(())
    );
    assert_eq!(range.borrow(&ranges), Ok(&(1..5)));
    assert_eq!(
        StringBox::boxer_string_char_index_to_utf16_range(&strings, text, 1, &mut ranges, range),
        Ok(())
    );
    assert_eq!(range.borrow(&ranges), Ok(&(1..3)));
    assert_eq!(StringBox::boxer_string_utf16_position_to_char_index(&strings, text, 2), Ok(2));
    assert_eq!(StringBox::boxer_string_utf16_position_to_char_index(&strings, text, 1), Ok(1));
    assert_eq!(
        StringBox::boxer_string_char_index_to_byte_range(
            &strings,
            BoxPointer::null(),
            0,
            &mut ranges,
            range
        ),
        Err(BoxerError::NullPointer)
    );
    assert_eq!(range.borrow(&ranges), Ok(&(1..3)));
    let created = StringBox::boxer_string_create(&mut strings);
    assert_eq!(StringBox::boxer_string_get_len(&strings, created), Ok(0));
    assert_eq!(StringBox::boxer_string_drop(&mut strings, created), Ok(()));
}
