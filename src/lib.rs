mod array_box;
mod boxer;
mod color;
mod error;
mod geometry;
mod string_box;
mod value_box;

pub use array_box::{copied_over, lemma_vector_round_trip, ArrayBox, ArrayData};
pub use boxer::{changed_only_at, created_at};
pub use color::{
    argb_to_rgba, bgra_to_argb, chunk_words, converted, converted_range, lemma_rgba_round_trip,
    lemma_split_conversion, pack, source_position, convert_color_format, convert_in_chunks,
    convert_pixel_range, convert_pixels, convert_word, rgba_to_argb,
    ColorConversion, PARALLEL_THRESHOLD_WORDS, WORKER_COUNT,
};
pub use error::{BoxerError, Result};
pub use geometry::{half_base, Point3Box, PointBox, SizeBox, U128Box};
pub use string_box::{
    byte_offset, decodes_to, utf16_len, utf16_offset, utf16_width, utf8_len, utf8_lossy_of,
    utf8_width, wide_units, StringBox, StringBoxOrigin, StringBoxOriginType,
};
pub use value_box::{
    borrow_outcome, heap_after_release, heap_after_replace, heap_after_take,
    lemma_borrow_of_created, lemma_pointer_equality, lemma_release_null, lemma_take_then_replace,
    release_outcome, BoxHeap, BoxPointer, BoxRef, ValueBox, ValueBoxIntoRaw,
};
