use vstd::prelude::*;

use crate::color::{converted, ColorConversion};
use crate::error::{BoxerError, Result};

verus! {

/// Where the elements of an [`ArrayBox`] live.
pub enum ArrayData<'a, T> {
    /// An allocation the buffer made and controls.
    Owned(Vec<T>),
    /// Memory that belongs to someone else; the buffer never frees, grows or shrinks it.
    View(&'a mut [T]),
}

/// A contiguous buffer that either owns its elements or is a view of foreign memory.
pub struct ArrayBox<'a, T> {
    data: ArrayData<'a, T>,
    capacity: usize,
}

/// Relies on `Vec::capacity`: what the allocation can hold is never less than the length.
#[verifier::external_body]
fn vec_capacity<T>(v: &Vec<T>) -> (r: usize)
    ensures
        r >= v@.len(),
{
    v.capacity()
}

/// Relies on `Vec::shrink_to_fit`: it gives back spare room and keeps the elements.
#[verifier::external_body]
fn vec_shrink_to_fit<T>(v: &mut Vec<T>)
    ensures
        final(v)@ == old(v)@,
{
    v.shrink_to_fit()
}

/// The result of copying `src` over the front of `dst`.
pub open spec fn copied_over<T>(src: Seq<T>, dst: Seq<T>) -> Seq<T> {
    src + dst.skip(src.len() as int)
}

impl<'a, T> View for ArrayBox<'a, T> {
    type V = Seq<T>;

    closed spec fn view(&self) -> Seq<T> {
        match self.data {
            ArrayData::Owned(v) => v@,
            ArrayData::View(s) => s@,
        }
    }
}

impl<'a, T> ArrayBox<'a, T> {
    /// The buffer controls its allocation (it is not a view of foreign memory).
    pub closed spec fn is_owned(&self) -> bool {
        self.data is Owned
    }

    pub closed spec fn spec_capacity(&self) -> usize {
        self.capacity
    }

    /// The capacity covers the elements, and a view's capacity is its length.
    pub closed spec fn wf(&self) -> bool {
        &&& self.capacity >= self@.len()
        &&& !self.is_owned() ==> self.capacity == self@.len()
    }

    fn owned_from(vector: Vec<T>) -> (r: Self)
        ensures
            r.wf(),
            r.is_owned(),
            r@ == vector@,
    {
        let mut data = vector;
        vec_shrink_to_fit(&mut data);
        let capacity = vec_capacity(&data);
        ArrayBox { data: ArrayData::Owned(data), capacity }
    }

    /// An empty owned buffer.
    pub fn new() -> (r: Self)
        ensures
            r.wf(),
            r.is_owned(),
            r@ == Seq::<T>::empty(),
            r.spec_capacity() == 0,
    {
        ArrayBox { data: ArrayData::Owned(Vec::new()), capacity: 0 }
    }

    /// Takes over `vector`, trimmed to fit.
    pub fn from_vector(vector: Vec<T>) -> (r: Self)
        ensures
            r.wf(),
            r.is_owned(),
            r@ == vector@,
    {
        Self::owned_from(vector)
    }

    /// A new owned buffer holding clones of `array_buffer`.
    pub fn from_array(array_buffer: &[T]) -> (r: Self) where T: Clone
        ensures
            r.wf(),
            r.is_owned(),
            r@.len() == array_buffer@.len(),
            forall|i: int| 0 <= i < r@.len() ==> cloned(#[trigger] array_buffer@[i], r@[i]),
    {
        Self::from_vector(clone_slice(array_buffer))
    }

    /// A view of foreign memory: its elements are used in place and never freed by the buffer.
    pub fn from_data(data: &'a mut [T]) -> (r: Self)
        ensures
            r.wf(),
            !r.is_owned(),
            r@ == old(data)@,
            r.spec_capacity() == old(data)@.len(),
    {
        let capacity = data.len();
        ArrayBox { data: ArrayData::View(data), capacity }
    }

    /// Holds `vector` from now on; an allocation held before is freed, a view is let go.
    pub fn set_vector(&mut self, vector: Vec<T>)
        ensures
            final(self).wf(),
            final(self).is_owned(),
            final(self)@ == vector@,
    {
        *self = Self::owned_from(vector);
    }

    /// Holds clones of `array_buffer` from now on.
    pub fn set_array(&mut self, array_buffer: &[T]) where T: Clone
        ensures
            final(self).wf(),
            final(self).is_owned(),
            final(self)@.len() == array_buffer@.len(),
            forall|i: int|
                0 <= i < array_buffer@.len() ==> cloned(#[trigger] array_buffer@[i], final(self)@[i]),
    {
        let vector = clone_slice(array_buffer);
        self.set_vector(vector);
    }

    /// The number of elements.
    pub fn len(&self) -> (r: usize)
        ensures
            r == self@.len(),
    {
        match &self.data {
            ArrayData::Owned(v) => v.len(),
            ArrayData::View(s) => s.len(),
        }
    }

    /// The number of elements the storage can hold.
    pub fn capacity(&self) -> (r: usize)
        ensures
            r == self.spec_capacity(),
    {
        self.capacity
    }

    pub fn is_owned_data(&self) -> (r: bool)
        ensures
            r == self.is_owned(),
    {
        match &self.data {
            ArrayData::Owned(_) => true,
            ArrayData::View(_) => false,
        }
    }

    /// The elements, in place.
    pub fn to_slice(&self) -> (r: &[T])
        ensures
            r@ == self@,
    {
        match &self.data {
            ArrayData::Owned(v) => v.as_slice(),
            ArrayData::View(s) => &**s,
        }
    }

    /// The elements, in place and writable; the buffer holds whatever is left in them.
    pub fn to_mut_slice(&mut self) -> (r: &mut [T])
        ensures
            r@ == old(self)@,
            final(self)@ == final(r)@,
            final(self).is_owned() == old(self).is_owned(),
            final(self).spec_capacity() == old(self).spec_capacity(),
    {
        match &mut self.data {
            ArrayData::Owned(v) => v.as_mut_slice(),
            ArrayData::View(s) => &mut **s,
        }
    }

    /// Copies every element over the front of `another_array`, which must be long enough.
    pub fn copy_into(&self, another_array: &mut ArrayBox<'_, T>) -> (r: Result<()>) where T: Copy
        ensures
            old(another_array).wf() ==> final(another_array).wf(),
            final(another_array).is_owned() == old(another_array).is_owned(),
            final(another_array).spec_capacity() == old(another_array).spec_capacity(),
            self@.len() <= old(another_array)@.len() ==> r is Ok && final(another_array)@
                == copied_over(self@, old(another_array)@),
            self@.len() > old(another_array)@.len() ==> r == Err::<(), BoxerError>(
                BoxerError::SizeMismatch(self@.len() as usize, old(another_array)@.len() as usize),
            ) && final(another_array)@ == old(another_array)@,
    {
        let length = self.len();
        let other_length = another_array.len();
        if length > other_length {
            return Err(BoxerError::SizeMismatch(length, other_length));
        }
        let source = self.to_slice();
        let mut i: usize = 0;
        while i < length
            invariant
                i <= length,
                length == self@.len(),
                source@ == self@,
                length <= other_length,
                other_length == old(another_array)@.len(),
                old(another_array).wf() ==> another_array.wf(),
                another_array.is_owned() == old(another_array).is_owned(),
                another_array.spec_capacity() == old(another_array).spec_capacity(),
                another_array@ == source@.take(i as int) + old(another_array)@.skip(i as int),
            decreases length - i,
        {
            another_array.at_put(i, source[i]);
            i = i + 1;
            assert(another_array@ =~= source@.take(i as int) + old(another_array)@.skip(i as int));
        }
        assert(another_array@ =~= copied_over(self@, old(another_array)@));
        Ok(())
    }

    /// Copies every element over the front of `destination`, foreign memory whose length the
    /// caller gives; fails if the elements do not fit.
    pub fn copy_into_data(&self, destination: &mut [T]) -> (r: Result<()>) where T: Copy
        ensures
            self@.len() <= old(destination)@.len() ==> r is Ok && final(destination)@
                == copied_over(self@, old(destination)@),
            self@.len() > old(destination)@.len() ==> r == Err::<(), BoxerError>(
                BoxerError::SizeMismatch(self@.len() as usize, old(destination)@.len() as usize),
            ) && final(destination)@ == old(destination)@,
    {
        let length = self.len();
        let other_length = destination.len();
        if length > other_length {
            return Err(BoxerError::SizeMismatch(length, other_length));
        }
        let source = self.to_slice();
        let mut i: usize = 0;
        while i < length
            invariant
                i <= length,
                length == self@.len(),
                source@ == self@,
                length <= other_length,
                other_length == old(destination)@.len(),
                destination@ == source@.take(i as int) + old(destination)@.skip(i as int),
            decreases length - i,
        {
            destination[i] = source[i];
            i = i + 1;
            assert(destination@ =~= source@.take(i as int) + old(destination)@.skip(i as int));
        }
        assert(destination@ =~= copied_over(self@, old(destination)@));
        Ok(())
    }

    /// Replaces the element at `index`.
    pub fn at_put(&mut self, index: usize, object: T)
        requires
            index < old(self)@.len(),
        ensures
            old(self).wf() ==> final(self).wf(),
            final(self)@ == old(self)@.update(index as int, object),
            final(self).is_owned() == old(self).is_owned(),
            final(self).spec_capacity() == old(self).spec_capacity(),
    {
        match &mut self.data {
            ArrayData::Owned(v) => {
                v[index] = object;
            },
            ArrayData::View(s) => {
                s[index] = object;
            },
        }
    }

    /// A clone of the element at `index`.
    pub fn at(&self, index: usize) -> (r: T) where T: Clone
        requires
            index < self@.len(),
        ensures
            cloned(self@[index as int], r),
    {
        let s = self.to_slice();
        s[index].clone()
    }
}

impl<'a, T: Clone> ArrayBox<'a, T> {
    /// The elements as a vector: an owned buffer hands over its allocation; a view is
    /// cloned, and the foreign memory is left as it is.
    pub fn to_vector(self) -> (r: Vec<T>)
        ensures
            self.is_owned() ==> r@ == self@,
            r@.len() == self@.len(),
            forall|i: int| 0 <= i < r@.len() ==> cloned(#[trigger] self@[i], r@[i]),
    {
        match self.data {
            ArrayData::Owned(v) => v,
            ArrayData::View(s) => clone_slice(s),
        }
    }
}

impl<'a, T: Copy> ArrayBox<'a, T> {
    /// The number of bytes that `count` elements take.
    pub fn byte_size(count: usize) -> (r: usize)
        requires
            vstd::layout::size_of::<T>() * count <= usize::MAX,
        ensures
            r == vstd::layout::size_of::<T>() * count,
    {
        let size = core::mem::size_of::<T>();
        size * count
    }

    /// An owned buffer of `amount` copies of `element`.
    pub fn new_with(element: T, amount: usize) -> (r: Self)
        ensures
            r.wf(),
            r.is_owned(),
            r@.len() == amount,
            forall|i: int| 0 <= i < amount ==> cloned(element, #[trigger] r@[i]),
    {
        Self::from_vector(vec![element; amount])
    }
}

impl<'a, T> Default for ArrayBox<'a, T> {
    fn default() -> (r: Self)
        ensures
            r.wf(),
            r.is_owned(),
            r@ == Seq::<T>::empty(),
    {
        Self::from_vector(Vec::new())
    }
}

/// A new vector holding clones of the elements of `s`.
fn clone_slice<T: Clone>(s: &[T]) -> (r: Vec<T>)
    ensures
        r@.len() == s@.len(),
        forall|i: int| 0 <= i < s@.len() ==> cloned(#[trigger] s@[i], r@[i]),
{
    let mut r: Vec<T> = Vec::new();
    let mut i: usize = 0;
    while i < s.len()
        invariant
            i <= s@.len(),
            r@.len() == i,
            forall|j: int| 0 <= j < i ==> cloned(#[trigger] s@[j], r@[j]),
        decreases s@.len() - i,
    {
        let c = s[i].clone();
        r.push(c);
        i = i + 1;
    }
    r
}

impl<'a> ArrayBox<'a, u8> {
    /// Converts the pixels of a byte buffer in place; a length that is not a whole number of
    /// pixels is left as it is.
    pub fn convert_color_format(&mut self, conversion: ColorConversion)
        ensures
            old(self).wf() ==> final(self).wf(),
            final(self)@ == converted(conversion, old(self)@),
            final(self).is_owned() == old(self).is_owned(),
            final(self).spec_capacity() == old(self).spec_capacity(),
    {
        match &mut self.data {
            ArrayData::Owned(v) => crate::color::convert_color_format(v.as_mut_slice(), conversion),
            ArrayData::View(s) => crate::color::convert_color_format(s, conversion),
        }
    }
}

/// A vector handed to a buffer and taken back out again is the same vector.
pub proof fn lemma_vector_round_trip<T>(vector: Seq<T>, buffer: ArrayBox<'_, T>, back: Seq<T>)
    requires
        buffer@ == vector,
        buffer.is_owned(),
        buffer.is_owned() ==> back == buffer@,
    ensures
        back == vector,
{
}

} // verus!
