use vstd::prelude::*;

verus! {

/// The in-place pixel format conversions; a pixel is four bytes, read as a little-endian word.
#[derive(Debug, Clone, Copy, PartialEq, Eq, Structural)]
pub enum ColorConversion {
    /// ARGB to RGBA: the word is rotated right by eight bits.
    ArgbToRgba,
    /// BGRA to ARGB: the word's bytes are reversed.
    BgraToArgb,
    /// RGBA to ARGB: the word is rotated left by eight bits.
    RgbaToArgb,
}

/// Above this many words a conversion is split between workers.
pub const PARALLEL_THRESHOLD_WORDS: usize = 512;

/// The number of workers a large conversion is split between.
pub const WORKER_COUNT: usize = 16;

/// The word that four bytes make, least significant byte first.
pub open spec fn pack(b0: u8, b1: u8, b2: u8, b3: u8) -> u32 {
    (b0 as u32) | ((b1 as u32) << 8u32) | ((b2 as u32) << 16u32) | ((b3 as u32) << 24u32)
}

/// Which byte of a source pixel lands at position `k` of the converted pixel.
pub open spec fn source_position(c: ColorConversion, k: int) -> int {
    match c {
        ColorConversion::ArgbToRgba => (k + 1) % 4,
        ColorConversion::BgraToArgb => 3 - k,
        ColorConversion::RgbaToArgb => (k + 3) % 4,
    }
}

/// `bytes` with every pixel converted; a length that is not a whole number of pixels is left
/// as it is.
pub open spec fn converted(c: ColorConversion, bytes: Seq<u8>) -> Seq<u8> {
    if bytes.len() % 4 != 0 {
        bytes
    } else {
        Seq::new(bytes.len(), |i: int| bytes[i - i % 4 + source_position(c, i % 4)])
    }
}

/// `bytes` with the pixels from `start` (inclusive) to `end` (exclusive) converted.
pub open spec fn converted_range(c: ColorConversion, bytes: Seq<u8>, start: int, end: int) -> Seq<
    u8,
> {
    Seq::new(
        bytes.len(),
        |i: int|
            if 4 * start <= i < 4 * end {
                bytes[i - i % 4 + source_position(c, i % 4)]
            } else {
                bytes[i]
            },
    )
}

/// Rotates an ARGB word into RGBA.
pub fn argb_to_rgba(argb: u32) -> (r: u32)
    ensures
        r == (argb >> 8u32) | (argb << 24u32),
{
    (argb >> 8u32) | (argb << 24u32)
}

/// Reverses the bytes of a BGRA word into ARGB.
pub fn bgra_to_argb(bgra: u32) -> (r: u32)
    ensures
        r == ((bgra & 0xff) << 24u32) | (((bgra >> 8u32) & 0xff) << 16u32) | (((bgra >> 16u32)
            & 0xff) << 8u32) | (bgra >> 24u32),
{
    ((bgra & 0xff) << 24u32) | (((bgra >> 8u32) & 0xff) << 16u32) | (((bgra >> 16u32) & 0xff)
        << 8u32) | (bgra >> 24u32)
}

/// Rotates an RGBA word into ARGB.
pub fn rgba_to_argb(rgba: u32) -> (r: u32)
    ensures
        r == (rgba << 8u32) | (rgba >> 24u32),
{
    (rgba << 8u32) | (rgba >> 24u32)
}

proof fn lemma_argb_to_rgba_bytes(b0: u8, b1: u8, b2: u8, b3: u8)
    ensures
        ({
            let w = pack(b0, b1, b2, b3);
            let r = (w >> 8u32) | (w << 24u32);
            &&& (r & 0xff) as u8 == b1
            &&& ((r >> 8u32) & 0xff) as u8 == b2
            &&& ((r >> 16u32) & 0xff) as u8 == b3
            &&& ((r >> 24u32) & 0xff) as u8 == b0
        }),
{
    assert({
        let w = (b0 as u32) | ((b1 as u32) << 8u32) | ((b2 as u32) << 16u32) | ((b3 as u32)
            << 24u32);
        let r = (w >> 8u32) | (w << 24u32);
        &&& (r & 0xff) as u8 == b1
        &&& ((r >> 8u32) & 0xff) as u8 == b2
        &&& ((r >> 16u32) & 0xff) as u8 == b3
        &&& ((r >> 24u32) & 0xff) as u8 == b0
    }) by (bit_vector);
}

proof fn lemma_bgra_to_argb_bytes(b0: u8, b1: u8, b2: u8, b3: u8)
    ensures
        ({
            let w = pack(b0, b1, b2, b3);
            let r = ((w & 0xff) << 24u32) | (((w >> 8u32) & 0xff) << 16u32) | (((w >> 16u32) & 0xff)
                << 8u32) | (w >> 24u32);
            &&& (r & 0xff) as u8 == b3
            &&& ((r >> 8u32) & 0xff) as u8 == b2
            &&& ((r >> 16u32) & 0xff) as u8 == b1
            &&& ((r >> 24u32) & 0xff) as u8 == b0
        }),
{
    assert({
        let w = (b0 as u32) | ((b1 as u32) << 8u32) | ((b2 as u32) << 16u32) | ((b3 as u32)
            << 24u32);
        let r = ((w & 0xff) << 24u32) | (((w >> 8u32) & 0xff) << 16u32) | (((w >> 16u32) & 0xff)
            << 8u32) | (w >> 24u32);
        &&& (r & 0xff) as u8 == b3
        &&& ((r >> 8u32) & 0xff) as u8 == b2
        &&& ((r >> 16u32) & 0xff) as u8 == b1
        &&& ((r >> 24u32) & 0xff) as u8 == b0
    }) by (bit_vector);
}

proof fn lemma_rgba_to_argb_bytes(b0: u8, b1: u8, b2: u8, b3: u8)
    ensures
        ({
            let w = pack(b0, b1, b2, b3);
            let r = (w << 8u32) | (w >> 24u32);
            &&& (r & 0xff) as u8 == b3
            &&& ((r >> 8u32) & 0xff) as u8 == b0
            &&& ((r >> 16u32) & 0xff) as u8 == b1
            &&& ((r >> 24u32) & 0xff) as u8 == b2
        }),
{
    assert({
        let w = (b0 as u32) | ((b1 as u32) << 8u32) | ((b2 as u32) << 16u32) | ((b3 as u32)
            << 24u32);
        let r = (w << 8u32) | (w >> 24u32);
        &&& (r & 0xff) as u8 == b3
        &&& ((r >> 8u32) & 0xff) as u8 == b0
        &&& ((r >> 16u32) & 0xff) as u8 == b1
        &&& ((r >> 24u32) & 0xff) as u8 == b2
    }) by (bit_vector);
}

/// Converts one packed pixel word.
pub fn convert_word(conversion: ColorConversion, word: u32) -> (r: u32)
    ensures
        conversion == ColorConversion::ArgbToRgba ==> r == (word >> 8u32) | (word << 24u32),
        conversion == ColorConversion::BgraToArgb ==> r == ((word & 0xff) << 24u32) | (((word
            >> 8u32) & 0xff) << 16u32) | (((word >> 16u32) & 0xff) << 8u32) | (word >> 24u32),
        conversion == ColorConversion::RgbaToArgb ==> r == (word << 8u32) | (word >> 24u32),
{
    match conversion {
        ColorConversion::ArgbToRgba => argb_to_rgba(word),
        ColorConversion::BgraToArgb => bgra_to_argb(word),
        ColorConversion::RgbaToArgb => rgba_to_argb(word),
    }
}

/// Converts, in place, the pixels from word `start` (inclusive) to word `end` (exclusive).
pub fn convert_pixel_range(pixels: &mut [u8], conversion: ColorConversion, start: usize, end: usize)
    requires
        start <= end,
        4 * end <= old(pixels)@.len(),
    ensures
        final(pixels)@ == converted_range(conversion, old(pixels)@, start as int, end as int),
{
    let length = pixels.len();
    let mut w: usize = start;
    while w < end
        invariant
            start <= w <= end,
            length == old(pixels)@.len(),
            4 * end <= old(pixels)@.len(),
            pixels@.len() == old(pixels)@.len(),
            pixels@ == converted_range(conversion, old(pixels)@, start as int, w as int),
        decreases end - w,
    {
        let i = 4 * w;
        let b0 = pixels[i];
        let b1 = pixels[i + 1];
        let b2 = pixels[i + 2];
        let b3 = pixels[i + 3];
        let word = (b0 as u32) | ((b1 as u32) << 8u32) | ((b2 as u32) << 16u32) | ((b3 as u32)
            << 24u32);
        let r = convert_word(conversion, word);
        proof {
            match conversion {
                ColorConversion::ArgbToRgba => lemma_argb_to_rgba_bytes(b0, b1, b2, b3),
                ColorConversion::BgraToArgb => lemma_bgra_to_argb_bytes(b0, b1, b2, b3),
                ColorConversion::RgbaToArgb => lemma_rgba_to_argb_bytes(b0, b1, b2, b3),
            }
        }
        pixels[i] = (r & 0xff) as u8;
        pixels[i + 1] = ((r >> 8u32) & 0xff) as u8;
        pixels[i + 2] = ((r >> 16u32) & 0xff) as u8;
        pixels[i + 3] = ((r >> 24u32) & 0xff) as u8;
        w = w + 1;
        assert(pixels@ =~= converted_range(conversion, old(pixels)@, start as int, w as int));
    }
}

/// Converts every pixel in place; a length that is not a whole number of pixels is skipped.
pub fn convert_pixels(pixels: &mut [u8], conversion: ColorConversion)
    ensures
        final(pixels)@ == converted(conversion, old(pixels)@),
{
    let length = pixels.len();
    if length % 4 != 0 {
        return ;
    }
    convert_pixel_range(pixels, conversion, 0, length / 4);
    assert(pixels@ =~= converted(conversion, old(pixels)@));
}


/// The number of words each worker takes when `word_count` words are converted: `None` when
/// the conversion runs in one piece, else the share that covers all words in `workers` pieces.
pub fn chunk_words(word_count: usize, threshold: usize, workers: usize) -> (r: Option<usize>)
    requires
        workers > 0,
    ensures
        word_count <= threshold ==> r is None,
        word_count > threshold ==> r == Some(
            (word_count / workers + if word_count % workers != 0 {
                1usize
            } else {
                0usize
            }) as usize,
        ),
{
    if word_count <= threshold {
        return None;
    }
    let extra: usize = if word_count % workers != 0 {
        1
    } else {
        0
    };
    assert(word_count / workers + extra <= word_count) by (nonlinear_arith)
        requires
            workers > 0,
            extra == 1 ==> word_count % workers != 0,
            extra <= 1,
    {
        assert(word_count == workers * (word_count / workers) + word_count % workers);
        assert(word_count / workers <= word_count);
        if extra == 1 {
            assert(workers * (word_count / workers) < word_count);
        }
    }
    Some(word_count / workers + extra)
}

proof fn lemma_range_extends(c: ColorConversion, b: Seq<u8>, s: int, e: int)
    requires
        0 <= s <= e,
        4 * e <= b.len(),
    ensures
        converted_range(c, converted_range(c, b, 0, s), s, e) == converted_range(c, b, 0, e),
{
    let x = converted_range(c, b, 0, s);
    assert forall|i: int| 0 <= i < b.len() implies #[trigger] converted_range(c, x, s, e)[i]
        == converted_range(c, b, 0, e)[i] by {
        let k = i % 4;
        let j = i - k + source_position(c, k);
        assert(0 <= source_position(c, k) < 4);
        if 4 * s <= i < 4 * e {
            assert(4 * s <= j < 4 * e);
        }
    }
    assert(converted_range(c, x, s, e) =~= converted_range(c, b, 0, e));
}

/// Converts every pixel in place, one run of `chunk` words after another; the outcome is the
/// same as converting in one piece.
pub fn convert_in_chunks(pixels: &mut [u8], conversion: ColorConversion, chunk: usize)
    requires
        chunk > 0,
    ensures
        final(pixels)@ == converted(conversion, old(pixels)@),
{
    let length = pixels.len();
    if length % 4 != 0 {
        return ;
    }
    let words = length / 4;
    let mut start: usize = 0;
    while start < words
        invariant
            chunk > 0,
            start <= words,
            words * 4 == length,
            length == old(pixels)@.len(),
            pixels@ == converted_range(conversion, old(pixels)@, 0, start as int),
        decreases words - start,
    {
        let end = if words - start > chunk {
            start + chunk
        } else {
            words
        };
        proof {
            lemma_range_extends(conversion, old(pixels)@, start as int, end as int);
        }
        convert_pixel_range(pixels, conversion, start, end);
        start = end;
    }
    assert(pixels@ =~= converted(conversion, old(pixels)@));
}

/// Converts every pixel in place. A large buffer is worked through in the pieces that the
/// workers would take; a length that is not a whole number of pixels is skipped.
pub fn convert_color_format(pixels: &mut [u8], conversion: ColorConversion)
    ensures
        final(pixels)@ == converted(conversion, old(pixels)@),
{
    let length = pixels.len();
    if length % 4 != 0 {
        return ;
    }
    match chunk_words(length / 4, PARALLEL_THRESHOLD_WORDS, WORKER_COUNT) {
        Some(chunk) => convert_in_chunks(pixels, conversion, chunk),
        None => convert_pixels(pixels, conversion),
    }
}

/// Converting ARGB to RGBA and back again gives the bytes one started from.
pub proof fn lemma_rgba_round_trip(bytes: Seq<u8>)
    ensures
        converted(ColorConversion::RgbaToArgb, converted(ColorConversion::ArgbToRgba, bytes))
            == bytes,
{
    if bytes.len() % 4 == 0 {
        let x = converted(ColorConversion::ArgbToRgba, bytes);
        assert forall|i: int| 0 <= i < bytes.len() implies #[trigger] converted(
            ColorConversion::RgbaToArgb,
            x,
        )[i] == bytes[i] by {
            let k = i % 4;
            let j = i - k + (k + 3) % 4;
            assert(j % 4 == (k + 3) % 4);
            assert(j - j % 4 == i - k);
        }
        assert(converted(ColorConversion::RgbaToArgb, x) =~= bytes);
    }
}

/// Splitting a buffer at a pixel boundary and converting the parts gives the same bytes as
/// converting the whole.
pub proof fn lemma_split_conversion(c: ColorConversion, front: Seq<u8>, back: Seq<u8>)
    requires
        front.len() % 4 == 0,
        back.len() % 4 == 0,
    ensures
        converted(c, front + back) == converted(c, front) + converted(c, back),
{
    let whole = front + back;
    assert(whole.len() % 4 == 0);
    assert forall|i: int| 0 <= i < whole.len() implies #[trigger] converted(c, whole)[i] == (
    converted(c, front) + converted(c, back))[i] by {
        let k = i % 4;
        assert(0 <= source_position(c, k) < 4);
        if i >= front.len() {
            let i2 = i - front.len();
            assert(i2 % 4 == k);
        }
    }
    assert(converted(c, whole) =~= converted(c, front) + converted(c, back));
}

} // verus!
