use value_box::{
    argb_to_rgba, bgra_to_argb, chunk_words, convert_color_format, convert_in_chunks,
    convert_pixels, rgba_to_argb, ArrayBox, BoxHeap, ColorConversion, PARALLEL_THRESHOLD_WORDS,
    WORKER_COUNT,
};

#[test]
fn test_argb_to_rgba() {
    let mut heap = BoxHeap::new();
    let argb = ArrayBox::boxer_array_create_with(&mut heap, 0u8, 4);
    let _ = ArrayBox::boxer_array_at_put(&mut heap, argb, 0, 255);
    let _ = ArrayBox::boxer_array_at_put(&mut heap, argb, 1, 0);
    let _ = ArrayBox::boxer_array_at_put(&mut heap, argb, 2, 100);
    let _ = ArrayBox::boxer_array_at_put(&mut heap, argb, 3, 200);

    assert_eq!(ArrayBox::boxer_array_u8_argb_to_rgba(&mut heap, argb), Ok(()));

    assert_eq!(ArrayBox::boxer_array_at(&heap, argb, 0), Ok(0));
    assert_eq!(ArrayBox::boxer_array_at(&heap, argb, 1), Ok(100));
    assert_eq!(ArrayBox::boxer_array_at(&heap, argb, 2), Ok(200));
    assert_eq!(ArrayBox::boxer_array_at(&heap, argb, 3), Ok(255));
}

#[test]
fn test_rgba_to_argb() {
    let mut heap = BoxHeap::new();
    let rgba = ArrayBox::boxer_array_create_with(&mut heap, 0u8, 4);
    let _ = ArrayBox::boxer_array_at_put(&mut heap, rgba, 0, 0);
    let _ = ArrayBox::boxer_array_at_put(&mut heap, rgba, 1, 100);
    let _ = ArrayBox::boxer_array_at_put(&mut heap, rgba, 2, 200);
    let _ = ArrayBox::boxer_array_at_put(&mut heap, rgba, 3, 255);

    assert_eq!(ArrayBox::boxer_array_u8_rgba_to_argb(&mut heap, rgba), Ok(()));

    assert_eq!(ArrayBox::boxer_array_at(&heap, rgba, 0), Ok(255));
    assert_eq!(ArrayBox::boxer_array_at(&heap, rgba, 1), Ok(0));
    assert_eq!(ArrayBox::boxer_array_at(&heap, rgba, 2), Ok(100));
    assert_eq!(ArrayBox::boxer_array_at(&heap, rgba, 3), Ok(200));
}

#[test]
fn test_bgra_to_argb() {
    let mut heap = BoxHeap::new();
    let bgra = ArrayBox::boxer_array_create_with(&mut heap, 0u8, 4);
    let _ = ArrayBox::boxer_array_at_put(&mut heap, bgra, 0, 0);
    let _ = ArrayBox::boxer_array_at_put(&mut heap, bgra, 1, 100);
    let _ = ArrayBox::boxer_array_at_put(&mut heap, bgra, 2, 200);
    let _ = ArrayBox::boxer_array_at_put(&mut heap, bgra, 3, 255);

    assert_eq!(ArrayBox::boxer_array_u8_bgra_to_argb(&mut heap, bgra), Ok(()));

    assert_eq!(ArrayBox::boxer_array_at(&heap, bgra, 0), Ok(255));
    assert_eq!(ArrayBox::boxer_array_at(&heap, bgra, 1), Ok(200));
    assert_eq!(ArrayBox::boxer_array_at(&heap, bgra, 2), Ok(100));
    assert_eq!(ArrayBox::boxer_array_at(&heap, bgra, 3), Ok(0));
}

#[test]
fn argb_round_trip_bytes() {
    let mut pixels = [0xFFu8, 0x00, 0x64, 0xC8];
    convert_pixels(&mut pixels, ColorConversion::ArgbToRgba);
    assert_eq!(pixels, [0x00, 0x64, 0xC8, 0xFF]);
    convert_pixels(&mut pixels, ColorConversion::RgbaToArgb);
    assert_eq!(pixels, [0xFF, 0x00, 0x64, 0xC8]);
}

#[test]
fn word_conversions() {
    assert_eq!(argb_to_rgba(0xC86400FF), 0xFFC86400);
    assert_eq!(rgba_to_argb(0xFFC86400), 0xC86400FF);
    assert_eq!(bgra_to_argb(0x11223344), 0x44332211);
    assert_eq!(argb_to_rgba(0x12345678), 0x12345678u32.rotate_right(8));
    assert_eq!(rgba_to_argb(0x12345678), 0x12345678u32.rotate_left(8));
    assert_eq!(bgra_to_argb(0x12345678), 0x12345678u32.swap_bytes());
}

#[test]
fn partial_pixel_is_left_alone() {
    let mut pixels = [1u8, 2, 3, 4, 5];
    convert_pixels(&mut pixels, ColorConversion::BgraToArgb);
    assert_eq!(pixels, [1, 2, 3, 4, 5]);
    convert_color_format(&mut pixels, ColorConversion::ArgbToRgba);
    assert_eq!(pixels, [1, 2, 3, 4, 5]);
}

#[test]
fn chunked_conversion_matches_unchunked() {
    let source: Vec<u8> = (0..4092u32).map(|i| (i * 7 % 251) as u8).collect();
    let mut whole = source.clone();
    convert_pixels(&mut whole, ColorConversion::ArgbToRgba);
    let chunk = chunk_words(1023, PARALLEL_THRESHOLD_WORDS, WORKER_COUNT).unwrap();
    assert_eq!(chunk, 64);
    let mut chunked = source.clone();
    convert_in_chunks(&mut chunked, ColorConversion::ArgbToRgba, chunk);
    assert_eq!(chunked, whole);
    let mut dispatched = source.clone();
    convert_color_format(&mut dispatched, ColorConversion::ArgbToRgba);
    assert_eq!(dispatched, whole);
    for pieces in source.chunks(chunk * 4).zip(whole.chunks(chunk * 4)) {
        let mut piece = pieces.0.to_vec();
        convert_pixels(&mut piece, ColorConversion::ArgbToRgba);
        assert_eq!(piece.as_slice(), pieces.1);
    }
    assert_ne!(whole, source);
}

#[test]
fn chunk_plan() {
    assert_eq!(chunk_words(512, 512, 16), None);
    assert_eq!(chunk_words(0, 512, 16), None);
    assert_eq!(chunk_words(513, 512, 16), Some(33));
    assert_eq!(chunk_words(1024, 512, 16), Some(64));
    assert_eq!(chunk_words(10, 2, 3), Some(4));
}

#[test]
fn byte_buffer_conversion_on_view() {
    let mut foreign = vec![1u8, 2, 3, 4];
    {
        let mut view = ArrayBox::from_data(&mut foreign[..]);
        view.convert_color_format(ColorConversion::BgraToArgb);
    }
    assert_eq!(foreign, vec![4, 3, 2, 1]);
}
