use std::rc::Rc;
use value_box::{BoxHeap, BoxPointer, BoxerError, ValueBox, ValueBoxIntoRaw};

#[test]
pub fn value_box_as_ref_mut() {
    let mut heap = BoxHeap::new();
    let value_box = ValueBox::new(5);
    let value_box_ptr = value_box.into_raw(&mut heap);
    let value = value_box_ptr.with_ref_ok(&heap, |value| value.clone());
    assert_eq!(value, Ok(5));
}

#[test]
fn value_box_with_not_null_value() {
    let mut heap = BoxHeap::new();
    let value_box = ValueBox::new(5);

    let value_box_ptr = value_box.into_raw(&mut heap);
    assert_eq!(value_box_ptr.is_null_pointer(), false);

    let mut result = 0;
    let _ = value_box_ptr.with_clone(&heap, |value| {
        result = value * 2;
        Ok(())
    });
    assert_eq!(value_box_ptr.is_null_pointer(), false);
    assert_eq!(result, 10);

    assert_eq!(value_box_ptr.release(&mut heap), Ok(()));
}

#[test]
fn value_box_with_not_null_value_return() {
    let mut heap = BoxHeap::new();
    let value_box = ValueBox::new(5);

    let value_box_ptr = value_box.into_raw(&mut heap);
    assert_eq!(value_box_ptr.is_null_pointer(), false);

    let result = value_box_ptr
        .with_ref_ok(&heap, |value| value * 2)
        .unwrap_or(0);
    assert_eq!(value_box_ptr.is_null_pointer(), false);
    assert_eq!(result, 10);

    assert_eq!(value_box_ptr.release(&mut heap), Ok(()));
}

#[test]
fn value_box_drop() {
    let value = Rc::new(42);
    let mut heap = BoxHeap::new();

    let ptr = ValueBox::new(value.clone()).into_raw(&mut heap);
    assert_eq!(Rc::strong_count(&value), 2);
    assert_eq!(ptr.release(&mut heap), Ok(()));

    assert_eq!(Rc::strong_count(&value), 1);
}

#[test]
fn test_is_valid() {
    let mut heap = BoxHeap::new();
    let ptr = ValueBox::new(42).into_raw(&mut heap);
    assert!(ptr.has_value(&heap));
    assert!(!BoxPointer::null().has_value(&heap));
}

#[test]
fn borrow_returns_created_value_repeatedly() {
    let mut heap = BoxHeap::new();
    let ptr = heap.create(String::from("value"));
    for _ in 0..3 {
        assert_eq!(ptr.borrow(&heap), Ok(&String::from("value")));
    }
    assert!(ptr.has_value(&heap));
}

#[test]
fn take_then_borrow_fails_then_replace_restores() {
    let mut heap = BoxHeap::new();
    let ptr = heap.create(1u32);
    assert_eq!(ptr.take_value(&mut heap), Ok(1));
    assert_eq!(ptr.borrow(&heap), Err(BoxerError::NoValue));
    assert_eq!(ptr.take_value(&mut heap), Err(BoxerError::NoValue));
    assert!(!ptr.has_value(&heap));
    assert_eq!(ptr.replace(&mut heap, 2), Ok(None));
    assert_eq!(ptr.borrow(&heap), Ok(&2));
    assert_eq!(ptr.replace(&mut heap, 3), Ok(Some(2)));
    assert_eq!(ptr.borrow(&heap), Ok(&3));
}

#[test]
fn release_null_fails_and_frees_nothing() {
    let mut heap = BoxHeap::new();
    let value = Rc::new(1);
    let ptr = heap.create(value.clone());
    assert_eq!(BoxPointer::null().release(&mut heap), Err(BoxerError::NullPointer));
    assert_eq!(Rc::strong_count(&value), 2);
    assert_eq!(ptr.borrow(&heap).map(|v| **v), Ok(1));
}

#[test]
fn null_pointer_errors() {
    let mut heap: BoxHeap<u8> = BoxHeap::new();
    let null = BoxPointer::null();
    assert!(null.is_null_pointer());
    assert_eq!(null.borrow(&heap), Err(BoxerError::NullPointer));
    assert_eq!(null.take_value(&mut heap), Err(BoxerError::NullPointer));
    assert_eq!(null.replace(&mut heap, 1), Err(BoxerError::NullPointer));
    assert_eq!(null.with_mut_ok(&mut heap, |v| *v += 1), Err(BoxerError::NullPointer));
}

#[test]
fn with_mut_changes_value() {
    let mut heap = BoxHeap::new();
    let ptr = heap.create(10i64);
    assert_eq!(ptr.with_mut_ok(&mut heap, |v| {
        *v += 5;
        *v
    }), Ok(15));
    assert_eq!(ptr.with_mut(&mut heap, |v| {
        *v *= 2;
        Ok(*v)
    }), Ok(30));
    assert_eq!(ptr.borrow(&heap), Ok(&30));
    assert_eq!(ptr.replace_value(&mut heap, |v| v - 1), Ok(()));
    assert_eq!(ptr.borrow(&heap), Ok(&29));
    let _ = ptr.take_value(&mut heap);
    assert_eq!(ptr.with_mut_ok(&mut heap, |v| *v), Err(BoxerError::NoValue));
    assert_eq!(ptr.replace_value(&mut heap, |v| v), Err(BoxerError::NoValue));
}

#[test]
fn with_ref_passes_errors_of_op() {
    let mut heap = BoxHeap::new();
    let ptr = heap.create(3u8);
    let r: Result<u8, BoxerError> =
        ptr.with_ref(&heap, |_| Err(BoxerError::AnyError(String::from("failed"))));
    assert_eq!(r, Err(BoxerError::AnyError(String::from("failed"))));
}

#[test]
fn handles_get_distinct_addresses() {
    let mut heap = BoxHeap::new();
    let a = heap.create('a');
    let b = heap.create('b');
    assert_ne!(a, b);
    assert_ne!(a.get_address(), 0);
    assert_eq!(a.release(&mut heap), Ok(()));
    assert_eq!(b.borrow(&heap), Ok(&'b'));
    let c = heap.create('c');
    assert_ne!(c, a);
    assert_eq!(BoxPointer::from_address(c.get_address()), c);
}

#[test]
fn value_box_methods() {
    let mut value_box = ValueBox::new(1u8);
    assert!(value_box.has_value());
    assert_eq!(value_box.clone_value(), Some(1));
    assert_eq!(value_box.replace_value(2), Some(1));
    value_box.set_value(3);
    assert_eq!(value_box.take_value(), Some(3));
    assert!(!value_box.has_value());
    assert_eq!(value_box.take_value(), None);
    let empty: ValueBox<u8> = ValueBox::null();
    assert_eq!(empty.clone_value(), None);
}

#[test]
fn with_option_ref_sees_missing_values() {
    let mut heap = BoxHeap::new();
    let ptr = heap.create(4u8);
    assert_eq!(ptr.with_option_ref(&heap, |v| Ok(v.copied())), Ok(Some(4)));
    let _ = ptr.take_value(&mut heap);
    assert_eq!(ptr.with_option_ref(&heap, |v| Ok(v.copied())), Ok(None));
    assert_eq!(
        BoxPointer::null().with_option_ref(&heap, |v| Ok(v.is_none())),
        Ok(true)
    );
}

#[test]
fn box_ref_access() {
    let mut heap = BoxHeap::new();
    let ptr = heap.create(vec![1u8, 2]);
    {
        let mut box_ref = ptr.to_ref(&mut heap).unwrap();
        assert_eq!(box_ref.with_ref(|v| Ok(v.len())), Ok(2));
        assert_eq!(box_ref.with_mut(|v| {
            v.push(3);
            Ok(v.len())
        }), Ok(3));
        assert_eq!(box_ref.replace(vec![9]), Some(vec![1, 2, 3]));
    }
    assert_eq!(ptr.borrow(&heap), Ok(&vec![9]));
    {
        let mut box_ref = ptr.to_ref(&mut heap).unwrap();
        assert_eq!(box_ref.take_value(), Some(vec![9]));
        assert_eq!(box_ref.with_ref(|v| Ok(v.len())), Err(BoxerError::NoValue));
    }
    assert!(ptr.to_ref(&mut heap).is_err());
    assert!(BoxPointer::null().to_ref(&mut heap).is_err());
    assert_eq!(ptr.release(&mut heap), Ok(()));
}

#[test]
fn results_into_raw() {
    let mut heap = BoxHeap::new();
    let made: Result<ValueBox<u8>, BoxerError> = Ok(ValueBox::new(8));
    let ptr = made.into_raw(&mut heap);
    assert_eq!(ptr.borrow(&heap), Ok(&8));
    let failed: Result<ValueBox<u8>, BoxerError> = Err(BoxerError::NoValue);
    assert!(failed.into_raw(&mut heap).is_null_pointer());
    let nothing: Result<Option<ValueBox<u8>>, BoxerError> = Ok(None);
    assert!(nothing.into_raw(&mut heap).is_null_pointer());
    let some: Result<Option<ValueBox<u8>>, BoxerError> = Ok(Some(ValueBox::new(9)));
    let other = some.into_raw(&mut heap);
    assert_eq!(other.borrow(&heap), Ok(&9));
}

#[test]
fn clone_value_leaves_handle() {
    let mut heap = BoxHeap::new();
    let ptr = heap.create(String::from("kept"));
    assert_eq!(ptr.clone_value(&heap), Ok(String::from("kept")));
    assert_eq!(ptr.borrow(&heap), Ok(&String::from("kept")));
    let _ = ptr.take_value(&mut heap);
    assert_eq!(ptr.clone_value(&heap), Err(BoxerError::NoValue));
    assert_eq!(BoxPointer::null().clone_value(&heap), Err(BoxerError::NullPointer));
}
