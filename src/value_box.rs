use vstd::prelude::*;

use crate::error::{BoxerError, Result};

verus! {

/// The storage behind one handle: present-or-empty room for exactly one value.
pub enum ValueBox<T> {
    Value(Option<Box<T>>),
}

impl<T> ValueBox<T> {
    /// The value held, if any.
    pub open spec fn value(&self) -> Option<T> {
        match self {
            ValueBox::Value(Some(b)) => Some(**b),
            ValueBox::Value(None) => None,
        }
    }

    pub fn new(object: T) -> (r: Self)
        ensures
            r.value() == Some(object),
    {
        ValueBox::Value(Some(Box::new(object)))
    }

    pub fn null() -> (r: Self)
        ensures
            r.value() == None::<T>,
    {
        ValueBox::Value(None)
    }

    pub fn has_value(&self) -> (r: bool)
        ensures
            r == self.value() is Some,
    {
        match self {
            ValueBox::Value(value) => value.is_some(),
        }
    }

    /// Installs `object` and hands back what was there before.
    pub fn replace_value(&mut self, object: T) -> (r: Option<T>)
        ensures
            r == old(self).value(),
            final(self).value() == Some(object),
    {
        let previous = self.take_value();
        *self = ValueBox::Value(Some(Box::new(object)));
        previous
    }

    pub fn set_value(&mut self, object: T)
        ensures
            final(self).value() == Some(object),
    {
        self.replace_value(object);
    }

    pub fn clone_value(&self) -> (r: Option<T>) where T: Clone
        ensures
            r is Some == self.value() is Some,
            r is Some ==> cloned(self.value()->Some_0, r->Some_0),
    {
        match self {
            ValueBox::Value(Some(b)) => Some(T::clone(&**b)),
            ValueBox::Value(None) => None,
        }
    }

    /// Removes the value, leaving the box empty.
    pub fn take_value(&mut self) -> (r: Option<T>)
        ensures
            r == old(self).value(),
            final(self).value() == None::<T>,
    {
        let previous = match self {
            ValueBox::Value(value) => value.take(),
        };
        match previous {
            Some(b) => Some(*b),
            None => None,
        }
    }

    /// Places the box in `heap` and returns the fresh address that stands for it.
    pub fn into_raw(self, heap: &mut BoxHeap<T>) -> (r: BoxPointer)
        requires
            old(heap).has_room(),
        ensures
            !r.is_null(),
            !old(heap)@.contains_key(r.address()),
            final(heap)@ == old(heap)@.insert(r.address(), self.value()),
    {
        heap.place(self)
    }
}

/// Access to the storage of one handle for the span of one operation; it never destroys
/// the handle when it goes away.
pub struct BoxRef<'a, T> {
    pub value_box: &'a mut ValueBox<T>,
}

impl<'a, T> BoxRef<'a, T> {
    /// Calls `op` with a reference to the value.
    pub fn with_ref<R, F: FnOnce(&T) -> Result<R>>(&self, op: F) -> (r: Result<R>)
        requires
            self.value_box.value() is Some ==> op.requires((&self.value_box.value()->Some_0,)),
        ensures
            match old(self.value_box).value() {
                Some(v) => op.ensures((&v,), r),
                None => r == Err::<R, BoxerError>(BoxerError::NoValue),
            },
    {
        match &*self.value_box {
            ValueBox::Value(Some(b)) => op(&**b),
            ValueBox::Value(None) => Err(BoxerError::NoValue),
        }
    }

    /// Calls `op` with a mutable reference to the value; what `op` leaves there stays.
    pub fn with_mut<R, F: FnOnce(&mut T) -> Result<R>>(&mut self, op: F) -> (r: Result<R>)
        requires
            forall|y: &mut T| old(self).value_box.value() == Some(*y) ==> op.requires((y,)),
        ensures
            *final(final(self).value_box) == *final(old(self).value_box),
            match old(self).value_box.value() {
                Some(v) => exists|y: &mut T|
                    *y == v && op.ensures((y,), r)
                        && final(self).value_box.value() == Some(*final(y)),
                None => r == Err::<R, BoxerError>(BoxerError::NoValue)
                    && final(self).value_box.value() == None::<T>,
            },
    {
        match &mut *self.value_box {
            ValueBox::Value(Some(b)) => {
                let y: &mut T = &mut **b;
                assert(Some(*y) == old(self).value_box.value());
                op(y)
            },
            ValueBox::Value(None) => Err(BoxerError::NoValue),
        }
    }

    /// Installs `value` and hands back what was there before.
    pub fn replace(&mut self, value: T) -> (r: Option<T>)
        ensures
            *final(final(self).value_box) == *final(old(self).value_box),
            r == old(self).value_box.value(),
            final(self).value_box.value() == Some(value),
    {
        self.value_box.replace_value(value)
    }

    /// Removes the value, leaving the handle empty.
    pub fn take_value(&mut self) -> (r: Option<T>)
        ensures
            *final(final(self).value_box) == *final(old(self).value_box),
            r == old(self).value_box.value(),
            final(self).value_box.value() == None::<T>,
    {
        self.value_box.take_value()
    }
}

/// The address by which the foreign side knows a handle; zero is the null address.
#[derive(Debug, Clone, Copy, PartialEq, Eq, Structural)]
pub struct BoxPointer {
    address: usize,
}

/// Every handle that has been created and not yet released, by address.
///
/// Addresses are never reused: the slot of a released handle stays empty for good.
pub struct BoxHeap<T> {
    slots: Vec<Option<ValueBox<T>>>,
}

impl<T> View for BoxHeap<T> {
    /// Each live address, with the value its handle holds (or `None` once taken).
    type V = Map<usize, Option<T>>;

    closed spec fn view(&self) -> Map<usize, Option<T>> {
        Map::new(
            |a: usize| 1 <= a <= self.slots@.len() && self.slots@[a - 1] is Some,
            |a: usize| self.slots@[a - 1]->Some_0.value(),
        )
    }
}

/// What `borrow` gives for a handle, over the heap's contents.
pub open spec fn borrow_outcome<T>(m: Map<usize, Option<T>>, p: BoxPointer) -> Result<T> {
    if p.is_null() {
        Err(BoxerError::NullPointer)
    } else {
        match m[p.address()] {
            Some(v) => Ok(v),
            None => Err(BoxerError::NoValue),
        }
    }
}

/// The heap's contents after `take_value` on a handle.
pub open spec fn heap_after_take<T>(m: Map<usize, Option<T>>, p: BoxPointer) -> Map<
    usize,
    Option<T>,
> {
    if p.is_null() {
        m
    } else {
        m.insert(p.address(), None)
    }
}

/// The heap's contents after `replace` installs `v` in a handle.
pub open spec fn heap_after_replace<T>(m: Map<usize, Option<T>>, p: BoxPointer, v: T) -> Map<
    usize,
    Option<T>,
> {
    if p.is_null() {
        m
    } else {
        m.insert(p.address(), Some(v))
    }
}

/// The heap's contents after `release` on a handle.
pub open spec fn heap_after_release<T>(m: Map<usize, Option<T>>, p: BoxPointer) -> Map<
    usize,
    Option<T>,
> {
    if p.is_null() {
        m
    } else {
        m.remove(p.address())
    }
}

/// What `release` reports for a handle.
pub open spec fn release_outcome(p: BoxPointer) -> Result<()> {
    if p.is_null() {
        Err(BoxerError::NullPointer)
    } else {
        Ok(())
    }
}

impl<T> BoxHeap<T> {
    /// There is an address left for one more handle.
    pub closed spec fn has_room(&self) -> bool {
        self.slots@.len() + 1 < usize::MAX
    }

    /// The heap knows `p`: it is null, or a handle that was created and not released.
    /// Any other address is out of contract for every operation.
    pub open spec fn admits(&self, p: BoxPointer) -> bool {
        p.is_null() || self@.contains_key(p.address())
    }

    pub fn new() -> (r: Self)
        ensures
            r@ == Map::<usize, Option<T>>::empty(),
            r.has_room(),
    {
        let r = BoxHeap { slots: Vec::new() };
        assert(r@ =~= Map::<usize, Option<T>>::empty());
        r
    }

    pub fn can_place(&self) -> (r: bool)
        ensures
            r == self.has_room(),
    {
        self.slots.len() < usize::MAX - 1
    }

    /// Whether the heap knows `p`, so that operations on it are in contract.
    pub fn is_known(&self, p: BoxPointer) -> (r: bool)
        ensures
            r == self.admits(p),
    {
        if p.address == 0 {
            return true;
        }
        let i = p.address - 1;
        if i < self.slots.len() {
            match &self.slots[i] {
                Some(_) => true,
                None => false,
            }
        } else {
            false
        }
    }

    fn place(&mut self, value_box: ValueBox<T>) -> (r: BoxPointer)
        requires
            old(self).has_room(),
        ensures
            !r.is_null(),
            !old(self)@.contains_key(r.address()),
            final(self)@ == old(self)@.insert(r.address(), value_box.value()),
            final(self).slots@.len() == old(self).slots@.len() + 1,
    {
        let address = self.slots.len() + 1;
        self.slots.push(Some(value_box));
        let r = BoxPointer { address };
        assert(self@ =~= old(self)@.insert(r.address(), value_box.value()));
        r
    }

    /// Moves `object` into a new handle and returns its address. Never fails.
    pub fn create(&mut self, object: T) -> (r: BoxPointer)
        requires
            old(self).has_room(),
        ensures
            !r.is_null(),
            !old(self)@.contains_key(r.address()),
            final(self)@ == old(self)@.insert(r.address(), Some(object)),
    {
        ValueBox::new(object).into_raw(self)
    }
}

impl BoxPointer {
    pub closed spec fn address(&self) -> usize {
        self.address
    }

    pub open spec fn is_null(&self) -> bool {
        self.address() == 0
    }

    pub fn null() -> (r: Self)
        ensures
            r.is_null(),
    {
        BoxPointer { address: 0 }
    }

    pub fn from_address(address: usize) -> (r: Self)
        ensures
            r.address() == address,
    {
        BoxPointer { address }
    }

    pub fn get_address(&self) -> (r: usize)
        ensures
            r == self.address(),
    {
        self.address
    }

    pub fn is_null_pointer(&self) -> (r: bool)
        ensures
            r == self.is_null(),
    {
        self.address == 0
    }

    /// A reference to the value of the handle, without taking it.
    pub fn borrow<'a, T>(&self, heap: &'a BoxHeap<T>) -> (r: Result<&'a T>)
        requires
            heap.admits(*self),
        ensures
            match r {
                Ok(v) => borrow_outcome(heap@, *self) == Ok::<T, BoxerError>(*v),
                Err(e) => borrow_outcome(heap@, *self) == Err::<T, BoxerError>(e),
            },
    {
        if self.address == 0 {
            return Err(BoxerError::NullPointer);
        }
        let i = self.address - 1;
        assert(heap@.contains_key(self.address));
        match &heap.slots[i] {
            Some(ValueBox::Value(Some(b))) => Ok(&**b),
            _ => Err(BoxerError::NoValue),
        }
    }

    /// Whether the handle is non-null and holds a value.
    pub fn has_value<T>(&self, heap: &BoxHeap<T>) -> (r: bool)
        requires
            heap.admits(*self),
        ensures
            r == borrow_outcome(heap@, *self) is Ok,
    {
        self.borrow(heap).is_ok()
    }

    /// Resolves the handle to the storage behind it; fails if the handle is null or empty.
    pub fn to_ref<'a, T>(&self, heap: &'a mut BoxHeap<T>) -> (r: Result<BoxRef<'a, T>>)
        requires
            old(heap).admits(*self),
        ensures
            match borrow_outcome(old(heap)@, *self) {
                Ok(v) => {
                    &&& r is Ok
                    &&& r->Ok_0.value_box.value() == Some(v)
                    &&& final(heap)@ == old(heap)@.insert(
                        self.address(),
                        (*final(r->Ok_0.value_box)).value(),
                    )
                },
                Err(e) => r is Err && r->Err_0 == e && final(heap)@ == old(heap)@,
            },
    {
        if self.address == 0 {
            return Err(BoxerError::NullPointer);
        }
        let i = self.address - 1;
        assert(old(heap)@.contains_key(self.address));
        let slot = &mut heap.slots[i];
        match slot {
            Some(value_box) => {
                if value_box.has_value() {
                    let r = BoxRef { value_box };
                    Ok(r)
                } else {
                    Err(BoxerError::NoValue)
                }
            },
            None => Err(BoxerError::NoValue),
        }
    }

    /// Calls `op` with a reference to the value of the handle.
    pub fn with_ref<T, R, F: FnOnce(&T) -> Result<R>>(
        &self,
        heap: &BoxHeap<T>,
        op: F,
    ) -> (r: Result<R>)
        requires
            heap.admits(*self),
            borrow_outcome(heap@, *self) is Ok ==> op.requires(
                (&borrow_outcome(heap@, *self)->Ok_0,),
            ),
        ensures
            match borrow_outcome(heap@, *self) {
                Ok(v) => op.ensures((&v,), r),
                Err(e) => r == Err::<R, BoxerError>(e),
            },
    {
        match self.borrow(heap) {
            Ok(v) => op(v),
            Err(e) => Err(e),
        }
    }

    /// Calls `op`, which cannot fail, with a reference to the value of the handle.
    pub fn with_ref_ok<T, R, F: FnOnce(&T) -> R>(&self, heap: &BoxHeap<T>, op: F) -> (r: Result<R>)
        requires
            heap.admits(*self),
            borrow_outcome(heap@, *self) is Ok ==> op.requires(
                (&borrow_outcome(heap@, *self)->Ok_0,),
            ),
        ensures
            match borrow_outcome(heap@, *self) {
                Ok(v) => r is Ok && op.ensures((&v,), r->Ok_0),
                Err(e) => r == Err::<R, BoxerError>(e),
            },
    {
        match self.borrow(heap) {
            Ok(v) => Ok(op(v)),
            Err(e) => Err(e),
        }
    }

    /// Calls `op` with the value of the handle, or with `None` when the handle is null or
    /// empty.
    pub fn with_option_ref<T, R, F: FnOnce(Option<&T>) -> Result<R>>(
        &self,
        heap: &BoxHeap<T>,
        op: F,
    ) -> (r: Result<R>)
        requires
            heap.admits(*self),
            match borrow_outcome(heap@, *self) {
                Ok(v) => op.requires((Some(&v),)),
                Err(_) => op.requires((None::<&T>,)),
            },
        ensures
            match borrow_outcome(heap@, *self) {
                Ok(v) => op.ensures((Some(&v),), r),
                Err(_) => op.ensures((None::<&T>,), r),
            },
    {
        match self.borrow(heap) {
            Ok(v) => op(Some(v)),
            Err(_) => op(None),
        }
    }

    /// Calls `op` with a mutable reference to the value of the handle; what `op` leaves
    /// there stays in the handle.
    pub fn with_mut<T, R, F: FnOnce(&mut T) -> Result<R>>(
        &self,
        heap: &mut BoxHeap<T>,
        op: F,
    ) -> (r: Result<R>)
        requires
            old(heap).admits(*self),
            forall|y: &mut T|
                borrow_outcome(old(heap)@, *self) == Ok::<T, BoxerError>(*y) ==> op.requires((y,)),
        ensures
            match borrow_outcome(old(heap)@, *self) {
                Ok(v) => exists|y: &mut T|
                    *y == v && op.ensures((y,), r) && final(heap)@ == old(heap)@.insert(
                        self.address(),
                        Some(*final(y)),
                    ),
                Err(e) => r == Err::<R, BoxerError>(e) && final(heap)@ == old(heap)@,
            },
    {
        if self.address == 0 {
            return Err(BoxerError::NullPointer);
        }
        let i = self.address - 1;
        assert(old(heap)@.contains_key(self.address));
        let slot = &mut heap.slots[i];
        match slot {
            Some(ValueBox::Value(Some(b))) => {
                let y: &mut T = &mut **b;
                let ghost witness = y;
                assert(*y == old(heap)@[self.address]->Some_0);
                let r = op(y);
                assert(heap@ =~= old(heap)@.insert(self.address(), Some(*final(witness))));
                r
            },
            _ => Err(BoxerError::NoValue),
        }
    }

    /// Calls `op`, which cannot fail, with a mutable reference to the value of the handle.
    pub fn with_mut_ok<T, R, F: FnOnce(&mut T) -> R>(&self, heap: &mut BoxHeap<T>, op: F) -> (r:
        Result<R>)
        requires
            old(heap).admits(*self),
            forall|y: &mut T|
                borrow_outcome(old(heap)@, *self) == Ok::<T, BoxerError>(*y) ==> op.requires((y,)),
        ensures
            match borrow_outcome(old(heap)@, *self) {
                Ok(v) => r is Ok && exists|y: &mut T|
                    *y == v && op.ensures((y,), r->Ok_0) && final(heap)@ == old(heap)@.insert(
                        self.address(),
                        Some(*final(y)),
                    ),
                Err(e) => r == Err::<R, BoxerError>(e) && final(heap)@ == old(heap)@,
            },
    {
        if self.address == 0 {
            return Err(BoxerError::NullPointer);
        }
        let i = self.address - 1;
        assert(old(heap)@.contains_key(self.address));
        let slot = &mut heap.slots[i];
        match slot {
            Some(ValueBox::Value(Some(b))) => {
                let y: &mut T = &mut **b;
                let ghost witness = y;
                assert(*y == old(heap)@[self.address]->Some_0);
                let r = op(y);
                assert(heap@ =~= old(heap)@.insert(self.address(), Some(*final(witness))));
                Ok(r)
            },
            _ => Err(BoxerError::NoValue),
        }
    }

    /// Removes and returns the value; the handle stays valid but empty.
    pub fn take_value<T>(&self, heap: &mut BoxHeap<T>) -> (r: Result<T>)
        requires
            old(heap).admits(*self),
        ensures
            r == borrow_outcome(old(heap)@, *self),
            final(heap)@ == heap_after_take(old(heap)@, *self),
    {
        if self.address == 0 {
            return Err(BoxerError::NullPointer);
        }
        let i = self.address - 1;
        assert(old(heap)@.contains_key(self.address));
        let r = match &mut heap.slots[i] {
            Some(value_box) => match value_box.take_value() {
                Some(v) => Ok(v),
                None => Err(BoxerError::NoValue),
            },
            None => Err(BoxerError::NoValue),
        };
        assert(heap@ =~= heap_after_take(old(heap)@, *self));
        r
    }

    /// Installs `object` in the handle and returns the value it held before, if any.
    pub fn replace<T>(&self, heap: &mut BoxHeap<T>, object: T) -> (r: Result<Option<T>>)
        requires
            old(heap).admits(*self),
        ensures
            r == (if self.is_null() {
                Err::<Option<T>, BoxerError>(BoxerError::NullPointer)
            } else {
                Ok(old(heap)@[self.address()])
            }),
            final(heap)@ == heap_after_replace(old(heap)@, *self, object),
    {
        if self.address == 0 {
            return Err(BoxerError::NullPointer);
        }
        let i = self.address - 1;
        assert(old(heap)@.contains_key(self.address));
        let r = match &mut heap.slots[i] {
            Some(value_box) => Ok(value_box.replace_value(object)),
            None => Ok(None),
        };
        assert(heap@ =~= heap_after_replace(old(heap)@, *self, object));
        r
    }

    /// Takes the value out, hands it to `op`, and puts what `op` returns back.
    pub fn replace_value<T, F: FnOnce(T) -> T>(&self, heap: &mut BoxHeap<T>, op: F) -> (r: Result<
        (),
    >)
        requires
            old(heap).admits(*self),
            borrow_outcome(old(heap)@, *self) is Ok ==> op.requires(
                (borrow_outcome(old(heap)@, *self)->Ok_0,),
            ),
        ensures
            match borrow_outcome(old(heap)@, *self) {
                Ok(v) => r is Ok && exists|w: T|
                    op.ensures((v,), w) && final(heap)@ == old(heap)@.insert(
                        self.address(),
                        Some(w),
                    ),
                Err(e) => r == Err::<(), BoxerError>(e) && final(heap)@ == old(heap)@,
            },
    {
        match self.take_value(heap) {
            Ok(v) => {
                let w = op(v);
                let _ = self.replace(heap, w);
                assert(heap@ =~= old(heap)@.insert(self.address(), Some(w)));
                Ok(())
            },
            Err(e) => {
                assert(heap@ =~= old(heap)@);
                Err(e)
            },
        }
    }

    /// A clone of the value of the handle, which is left as it is.
    pub fn clone_value<T: Clone>(&self, heap: &BoxHeap<T>) -> (r: Result<T>)
        requires
            heap.admits(*self),
        ensures
            match borrow_outcome(heap@, *self) {
                Ok(v) => r is Ok && cloned(v, r->Ok_0),
                Err(e) => r == Err::<T, BoxerError>(e),
            },
    {
        match self.borrow(heap) {
            Ok(v) => Ok(T::clone(v)),
            Err(e) => Err(e),
        }
    }

    /// Calls `op` with a clone of the value of the handle.
    pub fn with_clone<T: Clone, R, F: FnOnce(T) -> Result<R>>(
        &self,
        heap: &BoxHeap<T>,
        op: F,
    ) -> (r: Result<R>)
        requires
            heap.admits(*self),
            forall|c: T|
                borrow_outcome(heap@, *self) is Ok && cloned(borrow_outcome(heap@, *self)->Ok_0, c)
                    ==> op.requires((c,)),
        ensures
            match borrow_outcome(heap@, *self) {
                Ok(v) => exists|c: T| cloned(v, c) && op.ensures((c,), r),
                Err(e) => r == Err::<R, BoxerError>(e),
            },
    {
        match self.borrow(heap) {
            Ok(v) => {
                let c = T::clone(v);
                assert(cloned(*v, c));
                assert(borrow_outcome(heap@, *self)->Ok_0 == *v);
                let r = op(c);
                assert(cloned(*v, c) && op.ensures((c,), r));
                r
            },
            Err(e) => Err(e),
        }
    }

    /// Destroys the handle and the value it holds, if any. The address is dead afterwards.
    pub fn release<T>(self, heap: &mut BoxHeap<T>) -> (r: Result<()>)
        requires
            old(heap).admits(self),
        ensures
            r == release_outcome(self),
            final(heap)@ == heap_after_release(old(heap)@, self),
    {
        if self.address == 0 {
            return Err(BoxerError::NullPointer);
        }
        let i = self.address - 1;
        heap.slots.set(i, None);
        assert(heap@ =~= heap_after_release(old(heap)@, self));
        Ok(())
    }
}


/// Places the outcome of a computation that may have made a box in a heap.
pub trait ValueBoxIntoRaw<R>: Sized {
    /// The contents of the box that was made, if one was.
    spec fn made(&self) -> Option<Option<R>>;

    /// The address of a new handle for the box that was made, or the null address.
    fn into_raw(self, heap: &mut BoxHeap<R>) -> (r: BoxPointer)
        requires
            old(heap).has_room(),
        ensures
            match self.made() {
                Some(v) => {
                    &&& !r.is_null()
                    &&& !old(heap)@.contains_key(r.address())
                    &&& final(heap)@ == old(heap)@.insert(r.address(), v)
                },
                None => r.is_null() && final(heap)@ == old(heap)@,
            },
    ;
}

impl<R> ValueBoxIntoRaw<R> for Result<ValueBox<R>> {
    open spec fn made(&self) -> Option<Option<R>> {
        match self {
            Ok(value_box) => Some(value_box.value()),
            Err(_) => None,
        }
    }

    fn into_raw(self, heap: &mut BoxHeap<R>) -> (r: BoxPointer) {
        match self {
            Ok(value_box) => value_box.into_raw(heap),
            Err(_) => BoxPointer::null(),
        }
    }
}

impl<R> ValueBoxIntoRaw<R> for Result<Option<ValueBox<R>>> {
    open spec fn made(&self) -> Option<Option<R>> {
        match self {
            Ok(Some(value_box)) => Some(value_box.value()),
            _ => None,
        }
    }

    fn into_raw(self, heap: &mut BoxHeap<R>) -> (r: BoxPointer) {
        match self {
            Ok(Some(value_box)) => value_box.into_raw(heap),
            _ => BoxPointer::null(),
        }
    }
}

/// Two pointers are the same exactly when their addresses are.
pub proof fn lemma_pointer_equality(p: BoxPointer, q: BoxPointer)
    ensures
        (p == q) == (p.address() == q.address()),
{
}

/// A handle created from `v` lends `v` out; lending leaves the heap as it is, so it does so
/// again on every later borrow.
pub proof fn lemma_borrow_of_created<T>(m: Map<usize, Option<T>>, p: BoxPointer, v: T)
    requires
        !p.is_null(),
    ensures
        borrow_outcome(m.insert(p.address(), Some(v)), p) == Ok::<T, BoxerError>(v),
{
}

/// After a value is taken out of a live handle, borrowing fails with `NoValue`; after a new
/// value is installed, borrowing gives that value.
pub proof fn lemma_take_then_replace<T>(m: Map<usize, Option<T>>, p: BoxPointer, v2: T)
    requires
        !p.is_null(),
        m.contains_key(p.address()),
    ensures
        borrow_outcome(heap_after_take(m, p), p) == Err::<T, BoxerError>(BoxerError::NoValue),
        borrow_outcome(heap_after_replace(heap_after_take(m, p), p, v2), p) == Ok::<T, BoxerError>(
            v2,
        ),
{
}

/// Releasing the null address fails with `NullPointer` and frees nothing.
pub proof fn lemma_release_null<T>(m: Map<usize, Option<T>>, p: BoxPointer)
    requires
        p.is_null(),
    ensures
        release_outcome(p) == Err::<(), BoxerError>(BoxerError::NullPointer),
        heap_after_release(m, p) == m,
{
}

} // verus!
