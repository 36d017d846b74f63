//! The operations that the foreign side reaches through handle addresses: each resolves its
//! handles in a heap and reports misuse as an error instead of failing.
use vstd::prelude::*;
use vstd::std_specs::convert::FromSpec;

use crate::array_box::{copied_over, ArrayBox};
use crate::color::{converted, ColorConversion};
use crate::error::{BoxerError, Result};
use crate::geometry::{Point3Box, PointBox, SizeBox};
use crate::string_box::{byte_offset, utf16_len, utf16_offset, utf8_len, StringBox};
use core::ops::Range;
use crate::value_box::{borrow_outcome, BoxHeap, BoxPointer};

verus! {

/// The heap after the handle at `p` came to hold a changed value, every other handle as before.
pub open spec fn changed_only_at<V>(
    before: Map<usize, Option<V>>,
    after: Map<usize, Option<V>>,
    p: BoxPointer,
) -> bool {
    &&& after.contains_key(p.address())
    &&& after[p.address()] is Some
    &&& after == before.insert(p.address(), after[p.address()])
}

/// A new handle in `after` at `p`, every other handle as in `before`.
pub open spec fn created_at<V>(
    before: Map<usize, Option<V>>,
    after: Map<usize, Option<V>>,
    p: BoxPointer,
) -> bool {
    &&& !p.is_null()
    &&& !before.contains_key(p.address())
    &&& changed_only_at(before, after, p)
}

impl<'a, T: Copy> ArrayBox<'a, T> {
    /// A handle to a new empty buffer.
    pub fn boxer_array_create(heap: &mut BoxHeap<ArrayBox<'a, T>>) -> (r: BoxPointer)
        requires
            old(heap).has_room(),
        ensures
            created_at(old(heap)@, final(heap)@, r),
            final(heap)@[r.address()]->Some_0@ == Seq::<T>::empty(),
            final(heap)@[r.address()]->Some_0.is_owned(),
    {
        heap.create(ArrayBox::default())
    }

    /// A handle to a new buffer of `amount` copies of `element`.
    pub fn boxer_array_create_with(
        heap: &mut BoxHeap<ArrayBox<'a, T>>,
        element: T,
        amount: usize,
    ) -> (r: BoxPointer)
        requires
            old(heap).has_room(),
        ensures
            created_at(old(heap)@, final(heap)@, r),
            final(heap)@[r.address()]->Some_0@.len() == amount,
            forall|i: int|
                0 <= i < amount ==> cloned(element, #[trigger] final(heap)@[r.address()]->Some_0@[i]),
            final(heap)@[r.address()]->Some_0.is_owned(),
    {
        heap.create(ArrayBox::new_with(element, amount))
    }

    /// A handle to a view of foreign memory.
    pub fn boxer_array_create_from_data(
        heap: &mut BoxHeap<ArrayBox<'a, T>>,
        data: &'a mut [T],
    ) -> (r: BoxPointer)
        requires
            old(heap).has_room(),
        ensures
            created_at(old(heap)@, final(heap)@, r),
            final(heap)@[r.address()]->Some_0@ == old(data)@,
            !final(heap)@[r.address()]->Some_0.is_owned(),
    {
        heap.create(ArrayBox::from_data(data))
    }

    /// Destroys the handle and its buffer; a view's foreign memory is left alone.
    pub fn boxer_array_drop(heap: &mut BoxHeap<ArrayBox<'a, T>>, array: BoxPointer) -> (r: Result<
        (),
    >)
        requires
            old(heap).admits(array),
        ensures
            r == crate::value_box::release_outcome(array),
            final(heap)@ == crate::value_box::heap_after_release(old(heap)@, array),
    {
        array.release(heap)
    }

    /// The number of elements of the buffer behind the handle.
    pub fn boxer_array_get_length(heap: &BoxHeap<ArrayBox<'a, T>>, array: BoxPointer) -> (r:
        Result<usize>)
        requires
            heap.admits(array),
        ensures
            match borrow_outcome(heap@, array) {
                Ok(a) => r == Ok::<usize, BoxerError>(a@.len() as usize),
                Err(e) => r == Err::<usize, BoxerError>(e),
            },
    {
        match array.borrow(heap) {
            Ok(a) => Ok(a.len()),
            Err(e) => Err(e),
        }
    }

    /// The capacity of the buffer behind the handle.
    pub fn boxer_array_get_capacity(heap: &BoxHeap<ArrayBox<'a, T>>, array: BoxPointer) -> (r:
        Result<usize>)
        requires
            heap.admits(array),
        ensures
            match borrow_outcome(heap@, array) {
                Ok(a) => r == Ok::<usize, BoxerError>(a.spec_capacity()),
                Err(e) => r == Err::<usize, BoxerError>(e),
            },
    {
        match array.borrow(heap) {
            Ok(a) => Ok(a.capacity()),
            Err(e) => Err(e),
        }
    }

    /// The element at `index` of the buffer behind the handle.
    pub fn boxer_array_at(heap: &BoxHeap<ArrayBox<'a, T>>, array: BoxPointer, index: usize) -> (r:
        Result<T>)
        requires
            heap.admits(array),
            borrow_outcome(heap@, array) is Ok ==> index < borrow_outcome(heap@, array)->Ok_0@.len(),
        ensures
            match borrow_outcome(heap@, array) {
                Ok(a) => r is Ok && cloned(a@[index as int], r->Ok_0),
                Err(e) => r == Err::<T, BoxerError>(e),
            },
    {
        match array.borrow(heap) {
            Ok(a) => Ok(a.at(index)),
            Err(e) => Err(e),
        }
    }

    /// Replaces the element at `index` of the buffer behind the handle.
    pub fn boxer_array_at_put(
        heap: &mut BoxHeap<ArrayBox<'a, T>>,
        array: BoxPointer,
        index: usize,
        item: T,
    ) -> (r: Result<()>)
        requires
            old(heap).admits(array),
            borrow_outcome(old(heap)@, array) is Ok ==> index < borrow_outcome(
                old(heap)@,
                array,
            )->Ok_0@.len(),
        ensures
            match borrow_outcome(old(heap)@, array) {
                Ok(a) => {
                    &&& r is Ok
                    &&& changed_only_at(old(heap)@, final(heap)@, array)
                    &&& final(heap)@[array.address()]->Some_0@ == a@.update(index as int, item)
                    &&& final(heap)@[array.address()]->Some_0.is_owned() == a.is_owned()
                },
                Err(e) => r == Err::<(), BoxerError>(e) && final(heap)@ == old(heap)@,
            },
    {
        match array.take_value(heap) {
            Ok(mut a) => {
                a.at_put(index, item);
                let ghost changed = a;
                let _ = array.replace(heap, a);
                assert(heap@ =~= old(heap)@.insert(array.address(), Some(changed)));
                Ok(())
            },
            Err(e) => {
                assert(final(heap)@ =~= old(heap)@);
                Err(e)
            },
        }
    }

    /// Copies the buffer behind `source` over the front of the one behind `destination`.
    /// The two must be different handles; the destination must be long enough.
    pub fn boxer_array_copy_into(
        heap: &mut BoxHeap<ArrayBox<'a, T>>,
        source: BoxPointer,
        destination: BoxPointer,
    ) -> (r: Result<()>)
        requires
            old(heap).admits(source),
            old(heap).admits(destination),
        ensures
            match (borrow_outcome(old(heap)@, source), borrow_outcome(old(heap)@, destination)) {
                (Ok(s), Ok(d)) => if source == destination {
                    r == Err::<(), BoxerError>(BoxerError::NoValue) && final(heap)@ == old(heap)@
                } else if s@.len() <= d@.len() {
                    &&& r is Ok
                    &&& changed_only_at(old(heap)@, final(heap)@, destination)
                    &&& final(heap)@[destination.address()]->Some_0@ == copied_over(s@, d@)
                } else {
                    &&& r == Err::<(), BoxerError>(
                        BoxerError::SizeMismatch(s@.len() as usize, d@.len() as usize),
                    )
                    &&& changed_only_at(old(heap)@, final(heap)@, destination)
                    &&& final(heap)@[destination.address()]->Some_0@ == d@
                },
                (Err(e), Ok(_)) => r == Err::<(), BoxerError>(e),
                (_, Err(e)) => r == Err::<(), BoxerError>(e) && final(heap)@ == old(heap)@,
            },
    {
        match destination.take_value(heap) {
            Ok(mut d) => {
                proof {
                    crate::value_box::lemma_pointer_equality(source, destination);
                }
                assert(borrow_outcome(heap@, source) == if source == destination {
                    Err::<ArrayBox<'a, T>, BoxerError>(BoxerError::NoValue)
                } else {
                    borrow_outcome(old(heap)@, source)
                });
                let r = match source.borrow(heap) {
                    Ok(s) => s.copy_into(&mut d),
                    Err(e) => Err(e),
                };
                let ghost changed = d;
                let _ = destination.replace(heap, d);
                assert(heap@ =~= old(heap)@.insert(destination.address(), Some(changed)));
                proof {
                    if source == destination {
                        assert(heap@ =~= old(heap)@);
                    }
                }
                r
            },
            Err(e) => {
                assert(final(heap)@ =~= old(heap)@);
                Err(e)
            },
        }
    }

    /// Copies the buffer behind `source` over the front of foreign memory; fails if it does not
    /// fit.
    pub fn boxer_array_copy_into_data(
        heap: &BoxHeap<ArrayBox<'a, T>>,
        source: BoxPointer,
        destination: &mut [T],
    ) -> (r: Result<()>)
        requires
            heap.admits(source),
        ensures
            match borrow_outcome(heap@, source) {
                Ok(s) => if s@.len() <= old(destination)@.len() {
                    r is Ok && final(destination)@ == copied_over(s@, old(destination)@)
                } else {
                    r == Err::<(), BoxerError>(
                        BoxerError::SizeMismatch(s@.len() as usize, old(destination)@.len() as usize),
                    ) && final(destination)@ == old(destination)@
                },
                Err(e) => r == Err::<(), BoxerError>(e) && final(destination)@ == old(destination)@,
            },
    {
        match source.borrow(heap) {
            Ok(s) => s.copy_into_data(destination),
            Err(e) => Err(e),
        }
    }
}

impl<'a> ArrayBox<'a, u8> {
    fn boxer_array_u8_convert(
        heap: &mut BoxHeap<ArrayBox<'a, u8>>,
        array: BoxPointer,
        conversion: ColorConversion,
    ) -> (r: Result<()>)
        requires
            old(heap).admits(array),
        ensures
            match borrow_outcome(old(heap)@, array) {
                Ok(a) => {
                    &&& r is Ok
                    &&& changed_only_at(old(heap)@, final(heap)@, array)
                    &&& final(heap)@[array.address()]->Some_0@ == converted(conversion, a@)
                    &&& final(heap)@[array.address()]->Some_0.is_owned() == a.is_owned()
                },
                Err(e) => r == Err::<(), BoxerError>(e) && final(heap)@ == old(heap)@,
            },
    {
        match array.take_value(heap) {
            Ok(mut a) => {
                a.convert_color_format(conversion);
                let ghost changed = a;
                let _ = array.replace(heap, a);
                assert(heap@ =~= old(heap)@.insert(array.address(), Some(changed)));
                Ok(())
            },
            Err(e) => {
                assert(final(heap)@ =~= old(heap)@);
                Err(e)
            },
        }
    }

    /// Converts the pixels of the byte buffer behind the handle from ARGB to RGBA, in place.
    pub fn boxer_array_u8_argb_to_rgba(
        heap: &mut BoxHeap<ArrayBox<'a, u8>>,
        array: BoxPointer,
    ) -> (r: Result<()>)
        requires
            old(heap).admits(array),
        ensures
            match borrow_outcome(old(heap)@, array) {
                Ok(a) => {
                    &&& r is Ok
                    &&& changed_only_at(old(heap)@, final(heap)@, array)
                    &&& final(heap)@[array.address()]->Some_0@ == converted(
                        ColorConversion::ArgbToRgba,
                        a@,
                    )
                },
                Err(e) => r == Err::<(), BoxerError>(e) && final(heap)@ == old(heap)@,
            },
    {
        Self::boxer_array_u8_convert(heap, array, ColorConversion::ArgbToRgba)
    }

    /// Converts the pixels of the byte buffer behind the handle from BGRA to ARGB, in place.
    pub fn boxer_array_u8_bgra_to_argb(
        heap: &mut BoxHeap<ArrayBox<'a, u8>>,
        array: BoxPointer,
    ) -> (r: Result<()>)
        requires
            old(heap).admits(array),
        ensures
            match borrow_outcome(old(heap)@, array) {
                Ok(a) => {
                    &&& r is Ok
                    &&& changed_only_at(old(heap)@, final(heap)@, array)
                    &&& final(heap)@[array.address()]->Some_0@ == converted(
                        ColorConversion::BgraToArgb,
                        a@,
                    )
                },
                Err(e) => r == Err::<(), BoxerError>(e) && final(heap)@ == old(heap)@,
            },
    {
        Self::boxer_array_u8_convert(heap, array, ColorConversion::BgraToArgb)
    }

    /// Converts the pixels of the byte buffer behind the handle from RGBA to ARGB, in place.
    pub fn boxer_array_u8_rgba_to_argb(
        heap: &mut BoxHeap<ArrayBox<'a, u8>>,
        array: BoxPointer,
    ) -> (r: Result<()>)
        requires
            old(heap).admits(array),
        ensures
            match borrow_outcome(old(heap)@, array) {
                Ok(a) => {
                    &&& r is Ok
                    &&& changed_only_at(old(heap)@, final(heap)@, array)
                    &&& final(heap)@[array.address()]->Some_0@ == converted(
                        ColorConversion::RgbaToArgb,
                        a@,
                    )
                },
                Err(e) => r == Err::<(), BoxerError>(e) && final(heap)@ == old(heap)@,
            },
    {
        Self::boxer_array_u8_convert(heap, array, ColorConversion::RgbaToArgb)
    }
}

impl StringBox {
    /// A handle to a new empty text.
    pub fn boxer_string_create(heap: &mut BoxHeap<StringBox>) -> (r: BoxPointer)
        requires
            old(heap).has_room(),
        ensures
            created_at(old(heap)@, final(heap)@, r),
            final(heap)@[r.address()]->Some_0@ == Seq::<char>::empty(),
    {
        heap.create(StringBox::new())
    }

    /// Destroys the handle and its text.
    pub fn boxer_string_drop(heap: &mut BoxHeap<StringBox>, string: BoxPointer) -> (r: Result<()>)
        requires
            old(heap).admits(string),
        ensures
            r == crate::value_box::release_outcome(string),
            final(heap)@ == crate::value_box::heap_after_release(old(heap)@, string),
    {
        string.release(heap)
    }

    /// The length in bytes of the text behind the handle.
    pub fn boxer_string_get_len(heap: &BoxHeap<StringBox>, string: BoxPointer) -> (r: Result<usize>)
        requires
            heap.admits(string),
        ensures
            match borrow_outcome(heap@, string) {
                Ok(s) => r == Ok::<usize, BoxerError>(utf8_len(s@) as usize),
                Err(e) => r == Err::<usize, BoxerError>(e),
            },
    {
        match string.borrow(heap) {
            Ok(s) => Ok(s.len()),
            Err(e) => Err(e),
        }
    }

    /// The number of characters of the text behind the handle.
    pub fn boxer_string_get_char_count(heap: &BoxHeap<StringBox>, string: BoxPointer) -> (r: Result<
        usize,
    >)
        requires
            heap.admits(string),
        ensures
            match borrow_outcome(heap@, string) {
                Ok(s) => r == Ok::<usize, BoxerError>(s@.len() as usize),
                Err(e) => r == Err::<usize, BoxerError>(e),
            },
    {
        match string.borrow(heap) {
            Ok(s) => Ok(s.char_count()),
            Err(e) => Err(e),
        }
    }

    /// Writes the byte span of character `index` of the text behind `string` into the range
    /// behind `range`.
    pub fn boxer_string_char_index_to_byte_range(
        heap: &BoxHeap<StringBox>,
        string: BoxPointer,
        index: usize,
        ranges: &mut BoxHeap<Range<usize>>,
        range: BoxPointer,
    ) -> (r: Result<()>)
        requires
            heap.admits(string),
            old(ranges).admits(range),
        ensures
            match (borrow_outcome(heap@, string), borrow_outcome(old(ranges)@, range)) {
                (Ok(s), Ok(_)) => {
                    &&& r is Ok
                    &&& changed_only_at(old(ranges)@, final(ranges)@, range)
                    &&& index < s@.len() ==> final(ranges)@[range.address()]->Some_0.start
                        == byte_offset(s@, index as int) && final(ranges)@[range.address()]->Some_0.end
                        == byte_offset(s@, index + 1)
                    &&& index >= s@.len() ==> final(ranges)@[range.address()]->Some_0.start
                        == utf8_len(s@) && final(ranges)@[range.address()]->Some_0.end == utf8_len(s@)
                },
                (Err(e), _) => r == Err::<(), BoxerError>(e) && final(ranges)@ == old(ranges)@,
                (Ok(_), Err(e)) => r == Err::<(), BoxerError>(e) && final(ranges)@ == old(ranges)@,
            },
    {
        match string.borrow(heap) {
            Ok(s) => {
                match range.borrow(ranges) {
                    Ok(_) => {},
                    Err(e) => return Err(e),
                }
                let byte_range = s.char_index_to_byte_range(index);
                let ghost written = byte_range;
                let _ = range.replace(ranges, byte_range);
                assert(ranges@ =~= old(ranges)@.insert(range.address(), Some(written)));
                Ok(())
            },
            Err(e) => Err(e),
        }
    }

    /// Writes the span in UTF-16 code units of character `index` of the text behind `string`
    /// into the range behind `range`.
    pub fn boxer_string_char_index_to_utf16_range(
        heap: &BoxHeap<StringBox>,
        string: BoxPointer,
        index: usize,
        ranges: &mut BoxHeap<Range<usize>>,
        range: BoxPointer,
    ) -> (r: Result<()>)
        requires
            heap.admits(string),
            old(ranges).admits(range),
        ensures
            match (borrow_outcome(heap@, string), borrow_outcome(old(ranges)@, range)) {
                (Ok(s), Ok(_)) => {
                    &&& r is Ok
                    &&& changed_only_at(old(ranges)@, final(ranges)@, range)
                    &&& index < s@.len() ==> final(ranges)@[range.address()]->Some_0.start
                        == utf16_offset(s@, index as int)
                        && final(ranges)@[range.address()]->Some_0.end == utf16_offset(
                        s@,
                        index + 1,
                    )
                    &&& index >= s@.len() ==> final(ranges)@[range.address()]->Some_0.start
                        == utf16_len(s@) && final(ranges)@[range.address()]->Some_0.end == utf16_len(
                        s@,
                    )
                },
                (Err(e), _) => r == Err::<(), BoxerError>(e) && final(ranges)@ == old(ranges)@,
                (Ok(_), Err(e)) => r == Err::<(), BoxerError>(e) && final(ranges)@ == old(ranges)@,
            },
    {
        match string.borrow(heap) {
            Ok(s) => {
                match range.borrow(ranges) {
                    Ok(_) => {},
                    Err(e) => return Err(e),
                }
                let utf16_range = s.char_index_to_utf16_range(index);
                let ghost written = utf16_range;
                let _ = range.replace(ranges, utf16_range);
                assert(ranges@ =~= old(ranges)@.insert(range.address(), Some(written)));
                Ok(())
            },
            Err(e) => Err(e),
        }
    }

    /// The index of the first character of the text behind the handle whose UTF-16 offset
    /// reaches `position`, or the character count when none does.
    pub fn boxer_string_utf16_position_to_char_index(
        heap: &BoxHeap<StringBox>,
        string: BoxPointer,
        position: usize,
    ) -> (r: Result<usize>)
        requires
            heap.admits(string),
        ensures
            match borrow_outcome(heap@, string) {
                Ok(s) => {
                    &&& r is Ok
                    &&& r->Ok_0 <= s@.len()
                    &&& forall|j: int| 0 <= j < r->Ok_0 ==> utf16_offset(s@, j) < position
                    &&& r->Ok_0 < s@.len() ==> utf16_offset(s@, r->Ok_0 as int) >= position
                },
                Err(e) => r == Err::<usize, BoxerError>(e),
            },
    {
        match string.borrow(heap) {
            Ok(s) => Ok(s.utf16_position_to_char_index(position)),
            Err(e) => Err(e),
        }
    }
}

impl<T: Copy + From<u8>> PointBox<T> {
    /// A handle to a new point at zero.
    pub fn boxer_point_default(heap: &mut BoxHeap<PointBox<T>>) -> (r: BoxPointer)
        requires
            old(heap).has_room(),
        ensures
            created_at(old(heap)@, final(heap)@, r),
            T::obeys_from_spec() ==> {
                &&& final(heap)@[r.address()]->Some_0.x == T::from_spec(0u8)
                &&& final(heap)@[r.address()]->Some_0.y == T::from_spec(0u8)
            },
    {
        heap.create(PointBox::new(T::from(0u8), T::from(0u8)))
    }

    /// A handle to a new point.
    pub fn boxer_point_create(heap: &mut BoxHeap<PointBox<T>>, x: T, y: T) -> (r: BoxPointer)
        requires
            old(heap).has_room(),
        ensures
            created_at(old(heap)@, final(heap)@, r),
            final(heap)@[r.address()]->Some_0.x == x,
            final(heap)@[r.address()]->Some_0.y == y,
    {
        heap.create(PointBox::new(x, y))
    }

    /// Destroys the handle and its point.
    pub fn boxer_point_drop(heap: &mut BoxHeap<PointBox<T>>, handle: BoxPointer) -> (r: Result<()>)
        requires
            old(heap).admits(handle),
        ensures
            r == crate::value_box::release_outcome(handle),
            final(heap)@ == crate::value_box::heap_after_release(old(heap)@, handle),
    {
        handle.release(heap)
    }

    /// The x of the point behind the handle.
    pub fn boxer_point_get_x(heap: &BoxHeap<PointBox<T>>, handle: BoxPointer) -> (r: Result<T>)
        requires
            heap.admits(handle),
        ensures
            match borrow_outcome(heap@, handle) {
                Ok(v) => r == Ok::<T, BoxerError>(v.x),
                Err(e) => r == Err::<T, BoxerError>(e),
            },
    {
        match handle.borrow(heap) {
            Ok(v) => Ok(v.x),
            Err(e) => Err(e),
        }
    }

    /// Sets the x of the point behind the handle.
    pub fn boxer_point_set_x(
        heap: &mut BoxHeap<PointBox<T>>,
        handle: BoxPointer,
        value: T,
    ) -> (r: Result<()>)
        requires
            old(heap).admits(handle),
        ensures
            match borrow_outcome(old(heap)@, handle) {
                Ok(v) => r is Ok && final(heap)@ == old(heap)@.insert(
                    handle.address(),
                    Some(PointBox { x: value, y: v.y }),
                ),
                Err(e) => r == Err::<(), BoxerError>(e) && final(heap)@ == old(heap)@,
            },
    {
        match handle.take_value(heap) {
            Ok(mut v) => {
                v.x = value;
                let ghost changed = v;
                let _ = handle.replace(heap, v);
                assert(heap@ =~= old(heap)@.insert(handle.address(), Some(changed)));
                Ok(())
            },
            Err(e) => {
                assert(heap@ =~= old(heap)@);
                Err(e)
            },
        }
    }

    /// The y of the point behind the handle.
    pub fn boxer_point_get_y(heap: &BoxHeap<PointBox<T>>, handle: BoxPointer) -> (r: Result<T>)
        requires
            heap.admits(handle),
        ensures
            match borrow_outcome(heap@, handle) {
                Ok(v) => r == Ok::<T, BoxerError>(v.y),
                Err(e) => r == Err::<T, BoxerError>(e),
            },
    {
        match handle.borrow(heap) {
            Ok(v) => Ok(v.y),
            Err(e) => Err(e),
        }
    }

    /// Sets the y of the point behind the handle.
    pub fn boxer_point_set_y(
        heap: &mut BoxHeap<PointBox<T>>,
        handle: BoxPointer,
        value: T,
    ) -> (r: Result<()>)
        requires
            old(heap).admits(handle),
        ensures
            match borrow_outcome(old(heap)@, handle) {
                Ok(v) => r is Ok && final(heap)@ == old(heap)@.insert(
                    handle.address(),
                    Some(PointBox { x: v.x, y: value }),
                ),
                Err(e) => r == Err::<(), BoxerError>(e) && final(heap)@ == old(heap)@,
            },
    {
        match handle.take_value(heap) {
            Ok(mut v) => {
                v.y = value;
                let ghost changed = v;
                let _ = handle.replace(heap, v);
                assert(heap@ =~= old(heap)@.insert(handle.address(), Some(changed)));
                Ok(())
            },
            Err(e) => {
                assert(heap@ =~= old(heap)@);
                Err(e)
            },
        }
    }

}

impl<T: Copy + From<u8>> Point3Box<T> {
    /// A handle to a new point at zero.
    pub fn boxer_point_default(heap: &mut BoxHeap<Point3Box<T>>) -> (r: BoxPointer)
        requires
            old(heap).has_room(),
        ensures
            created_at(old(heap)@, final(heap)@, r),
            T::obeys_from_spec() ==> {
                &&& final(heap)@[r.address()]->Some_0.x == T::from_spec(0u8)
                &&& final(heap)@[r.address()]->Some_0.y == T::from_spec(0u8)
                &&& final(heap)@[r.address()]->Some_0.z == T::from_spec(0u8)
            },
    {
        heap.create(Point3Box::new(T::from(0u8), T::from(0u8), T::from(0u8)))
    }

    /// A handle to a new point.
    pub fn boxer_point_create(heap: &mut BoxHeap<Point3Box<T>>, x: T, y: T, z: T) -> (r: BoxPointer)
        requires
            old(heap).has_room(),
        ensures
            created_at(old(heap)@, final(heap)@, r),
            final(heap)@[r.address()]->Some_0.x == x,
            final(heap)@[r.address()]->Some_0.y == y,
            final(heap)@[r.address()]->Some_0.z == z,
    {
        heap.create(Point3Box::new(x, y, z))
    }

    /// Destroys the handle and its point.
    pub fn boxer_point_drop(heap: &mut BoxHeap<Point3Box<T>>, handle: BoxPointer) -> (r: Result<()>)
        requires
            old(heap).admits(handle),
        ensures
            r == crate::value_box::release_outcome(handle),
            final(heap)@ == crate::value_box::heap_after_release(old(heap)@, handle),
    {
        handle.release(heap)
    }

    /// The x of the point behind the handle.
    pub fn boxer_point_get_x(heap: &BoxHeap<Point3Box<T>>, handle: BoxPointer) -> (r: Result<T>)
        requires
            heap.admits(handle),
        ensures
            match borrow_outcome(heap@, handle) {
                Ok(v) => r == Ok::<T, BoxerError>(v.x),
                Err(e) => r == Err::<T, BoxerError>(e),
            },
    {
        match handle.borrow(heap) {
            Ok(v) => Ok(v.x),
            Err(e) => Err(e),
        }
    }

    /// Sets the x of the point behind the handle.
    pub fn boxer_point_set_x(
        heap: &mut BoxHeap<Point3Box<T>>,
        handle: BoxPointer,
        value: T,
    ) -> (r: Result<()>)
        requires
            old(heap).admits(handle),
        ensures
            match borrow_outcome(old(heap)@, handle) {
                Ok(v) => r is Ok && final(heap)@ == old(heap)@.insert(
                    handle.address(),
                    Some(Point3Box { x: value, y: v.y, z: v.z }),
                ),
                Err(e) => r == Err::<(), BoxerError>(e) && final(heap)@ == old(heap)@,
            },
    {
        match handle.take_value(heap) {
            Ok(mut v) => {
                v.x = value;
                let ghost changed = v;
                let _ = handle.replace(heap, v);
                assert(heap@ =~= old(heap)@.insert(handle.address(), Some(changed)));
                Ok(())
            },
            Err(e) => {
                assert(heap@ =~= old(heap)@);
                Err(e)
            },
        }
    }

    /// The y of the point behind the handle.
    pub fn boxer_point_get_y(heap: &BoxHeap<Point3Box<T>>, handle: BoxPointer) -> (r: Result<T>)
        requires
            heap.admits(handle),
        ensures
            match borrow_outcome(heap@, handle) {
                Ok(v) => r == Ok::<T, BoxerError>(v.y),
                Err(e) => r == Err::<T, BoxerError>(e),
            },
    {
        match handle.borrow(heap) {
            Ok(v) => Ok(v.y),
            Err(e) => Err(e),
        }
    }

    /// Sets the y of the point behind the handle.
    pub fn boxer_point_set_y(
        heap: &mut BoxHeap<Point3Box<T>>,
        handle: BoxPointer,
        value: T,
    ) -> (r: Result<()>)
        requires
            old(heap).admits(handle),
        ensures
            match borrow_outcome(old(heap)@, handle) {
                Ok(v) => r is Ok && final(heap)@ == old(heap)@.insert(
                    handle.address(),
                    Some(Point3Box { x: v.x, y: value, z: v.z }),
                ),
                Err(e) => r == Err::<(), BoxerError>(e) && final(heap)@ == old(heap)@,
            },
    {
        match handle.take_value(heap) {
            Ok(mut v) => {
                v.y = value;
                let ghost changed = v;
                let _ = handle.replace(heap, v);
                assert(heap@ =~= old(heap)@.insert(handle.address(), Some(changed)));
                Ok(())
            },
            Err(e) => {
                assert(heap@ =~= old(heap)@);
                Err(e)
            },
        }
    }

    /// The z of the point behind the handle.
    pub fn boxer_point_get_z(heap: &BoxHeap<Point3Box<T>>, handle: BoxPointer) -> (r: Result<T>)
        requires
            heap.admits(handle),
        ensures
            match borrow_outcome(heap@, handle) {
                Ok(v) => r == Ok::<T, BoxerError>(v.z),
                Err(e) => r == Err::<T, BoxerError>(e),
            },
    {
        match handle.borrow(heap) {
            Ok(v) => Ok(v.z),
            Err(e) => Err(e),
        }
    }

    /// Sets the z of the point behind the handle.
    pub fn boxer_point_set_z(
        heap: &mut BoxHeap<Point3Box<T>>,
        handle: BoxPointer,
        value: T,
    ) -> (r: Result<()>)
        requires
            old(heap).admits(handle),
        ensures
            match borrow_outcome(old(heap)@, handle) {
                Ok(v) => r is Ok && final(heap)@ == old(heap)@.insert(
                    handle.address(),
                    Some(Point3Box { x: v.x, y: v.y, z: value }),
                ),
                Err(e) => r == Err::<(), BoxerError>(e) && final(heap)@ == old(heap)@,
            },
    {
        match handle.take_value(heap) {
            Ok(mut v) => {
                v.z = value;
                let ghost changed = v;
                let _ = handle.replace(heap, v);
                assert(heap@ =~= old(heap)@.insert(handle.address(), Some(changed)));
                Ok(())
            },
            Err(e) => {
                assert(heap@ =~= old(heap)@);
                Err(e)
            },
        }
    }

}

impl<T: Copy + From<u8>> SizeBox<T> {
    /// A handle to a new size at zero.
    pub fn boxer_size_create(heap: &mut BoxHeap<SizeBox<T>>) -> (r: BoxPointer)
        requires
            old(heap).has_room(),
        ensures
            created_at(old(heap)@, final(heap)@, r),
            T::obeys_from_spec() ==> {
                &&& final(heap)@[r.address()]->Some_0.width == T::from_spec(0u8)
                &&& final(heap)@[r.address()]->Some_0.height == T::from_spec(0u8)
            },
    {
        heap.create(SizeBox::new(T::from(0u8), T::from(0u8)))
    }

    /// A handle to a new size.
    pub fn boxer_size_create_with(
        heap: &mut BoxHeap<SizeBox<T>>,
        width: T,
        height: T,
    ) -> (r: BoxPointer)
        requires
            old(heap).has_room(),
        ensures
            created_at(old(heap)@, final(heap)@, r),
            final(heap)@[r.address()]->Some_0.width == width,
            final(heap)@[r.address()]->Some_0.height == height,
    {
        heap.create(SizeBox::new(width, height))
    }

    /// Destroys the handle and its size.
    pub fn boxer_size_drop(heap: &mut BoxHeap<SizeBox<T>>, handle: BoxPointer) -> (r: Result<()>)
        requires
            old(heap).admits(handle),
        ensures
            r == crate::value_box::release_outcome(handle),
            final(heap)@ == crate::value_box::heap_after_release(old(heap)@, handle),
    {
        handle.release(heap)
    }

    /// The width of the size behind the handle.
    pub fn boxer_size_get_width(heap: &BoxHeap<SizeBox<T>>, handle: BoxPointer) -> (r: Result<T>)
        requires
            heap.admits(handle),
        ensures
            match borrow_outcome(heap@, handle) {
                Ok(v) => r == Ok::<T, BoxerError>(v.width),
                Err(e) => r == Err::<T, BoxerError>(e),
            },
    {
        match handle.borrow(heap) {
            Ok(v) => Ok(v.width),
            Err(e) => Err(e),
        }
    }

    /// Sets the width of the size behind the handle.
    pub fn boxer_size_set_width(
        heap: &mut BoxHeap<SizeBox<T>>,
        handle: BoxPointer,
        value: T,
    ) -> (r: Result<()>)
        requires
            old(heap).admits(handle),
        ensures
            match borrow_outcome(old(heap)@, handle) {
                Ok(v) => r is Ok && final(heap)@ == old(heap)@.insert(
                    handle.address(),
                    Some(SizeBox { width: value, height: v.height }),
                ),
                Err(e) => r == Err::<(), BoxerError>(e) && final(heap)@ == old(heap)@,
            },
    {
        match handle.take_value(heap) {
            Ok(mut v) => {
                v.width = value;
                let ghost changed = v;
                let _ = handle.replace(heap, v);
                assert(heap@ =~= old(heap)@.insert(handle.address(), Some(changed)));
                Ok(())
            },
            Err(e) => {
                assert(heap@ =~= old(heap)@);
                Err(e)
            },
        }
    }

    /// The height of the size behind the handle.
    pub fn boxer_size_get_height(heap: &BoxHeap<SizeBox<T>>, handle: BoxPointer) -> (r: Result<T>)
        requires
            heap.admits(handle),
        ensures
            match borrow_outcome(heap@, handle) {
                Ok(v) => r == Ok::<T, BoxerError>(v.height),
                Err(e) => r == Err::<T, BoxerError>(e),
            },
    {
        match handle.borrow(heap) {
            Ok(v) => Ok(v.height),
            Err(e) => Err(e),
        }
    }

    /// Sets the height of the size behind the handle.
    pub fn boxer_size_set_height(
        heap: &mut BoxHeap<SizeBox<T>>,
        handle: BoxPointer,
        value: T,
    ) -> (r: Result<()>)
        requires
            old(heap).admits(handle),
        ensures
            match borrow_outcome(old(heap)@, handle) {
                Ok(v) => r is Ok && final(heap)@ == old(heap)@.insert(
                    handle.address(),
                    Some(SizeBox { width: v.width, height: value }),
                ),
                Err(e) => r == Err::<(), BoxerError>(e) && final(heap)@ == old(heap)@,
            },
    {
        match handle.take_value(heap) {
            Ok(mut v) => {
                v.height = value;
                let ghost changed = v;
                let _ = handle.replace(heap, v);
                assert(heap@ =~= old(heap)@.insert(handle.address(), Some(changed)));
                Ok(())
            },
            Err(e) => {
                assert(heap@ =~= old(heap)@);
                Err(e)
            },
        }
    }

}

} // verus!
