use value_box::{ArrayBox, BoxHeap, BoxPointer, BoxerError};

#[test]
fn default_array_u8() {
    let array = ArrayBox::<u8>::default();
    assert_eq!(array.capacity(), 0);
    assert_eq!(array.len(), 0);
    assert_eq!(array.to_slice().as_ptr().is_null(), false);
}

#[test]
fn new_array_u8() {
    let array = ArrayBox::<u8>::from_vector(vec![0, 1, 2, 3, 4]);
    assert_eq!(array.capacity(), 5);
    assert_eq!(array.len(), 5);
    assert_eq!(array.to_slice().as_ptr().is_null(), false);
}

#[test]
fn new_is_empty_and_owned() {
    let array = ArrayBox::<u32>::new();
    assert_eq!(array.len(), 0);
    assert_eq!(array.capacity(), 0);
    assert!(array.is_owned_data());
}

#[test]
fn view_drop_leaves_foreign_memory() {
    let mut canary = vec![7u32, 8, 9];
    {
        let view = ArrayBox::from_data(&mut canary[..]);
        assert!(!view.is_owned_data());
        assert_eq!(view.capacity(), 3);
        assert_eq!(view.len(), 3);
        drop(view);
    }
    assert_eq!(canary, vec![7, 8, 9]);
    canary.push(10);
    assert_eq!(canary, vec![7, 8, 9, 10]);
}

#[test]
fn view_handle_release_leaves_foreign_memory() {
    let mut canary = vec![1u8, 2, 3, 4];
    {
        let mut heap = BoxHeap::new();
        let array = ArrayBox::boxer_array_create_from_data(&mut heap, &mut canary[..]);
        assert_eq!(ArrayBox::boxer_array_get_length(&heap, array), Ok(4));
        assert_eq!(ArrayBox::boxer_array_drop(&mut heap, array), Ok(()));
    }
    assert_eq!(canary, vec![1, 2, 3, 4]);
}

#[test]
fn view_writes_go_to_foreign_memory() {
    let mut canary = vec![0u16; 3];
    {
        let mut view = ArrayBox::from_data(&mut canary[..]);
        view.at_put(1, 42);
        assert_eq!(view.at(1), 42);
    }
    assert_eq!(canary, vec![0, 42, 0]);
}

#[test]
fn copy_into_too_long_source_fails_without_copying() {
    let source = ArrayBox::from_vector(vec![1u8, 2, 3]);
    let mut destination = ArrayBox::from_vector(vec![9u8, 9]);
    assert_eq!(source.copy_into(&mut destination), Err(BoxerError::SizeMismatch(3, 2)));
    assert_eq!(destination.to_slice(), &[9, 9]);
}

#[test]
fn copy_into_overwrites_front() {
    let source = ArrayBox::from_vector(vec![1u8, 2]);
    let mut destination = ArrayBox::from_vector(vec![9u8, 9, 9]);
    assert_eq!(source.copy_into(&mut destination), Ok(()));
    assert_eq!(destination.to_slice(), &[1, 2, 9]);
}

#[test]
fn copy_into_data_checks_length() {
    let source = ArrayBox::from_vector(vec![5i32, 6, 7]);
    let mut small = [0i32; 2];
    assert_eq!(source.copy_into_data(&mut small), Err(BoxerError::SizeMismatch(3, 2)));
    assert_eq!(small, [0, 0]);
    let mut large = [0i32; 4];
    assert_eq!(source.copy_into_data(&mut large), Ok(()));
    assert_eq!(large, [5, 6, 7, 0]);
}

#[test]
fn vector_round_trip() {
    let seq = vec![3u64, 1, 4, 1, 5];
    assert_eq!(ArrayBox::from_vector(seq.clone()).to_vector(), seq);
    let empty: Vec<u64> = vec![];
    assert_eq!(ArrayBox::from_vector(empty.clone()).to_vector(), empty);
}

#[test]
fn view_to_vector_clones() {
    let mut foreign = vec![1u8, 2, 3];
    let copy = ArrayBox::from_data(&mut foreign[..]).to_vector();
    assert_eq!(copy, vec![1, 2, 3]);
    assert_eq!(foreign, vec![1, 2, 3]);
}

#[test]
fn from_array_and_set_array_copy() {
    let data = [4u8, 5, 6];
    let mut array = ArrayBox::from_array(&data);
    assert_eq!(array.to_slice(), &[4, 5, 6]);
    array.set_array(&[1, 2]);
    assert_eq!(array.to_slice(), &[1, 2]);
    assert!(array.is_owned_data());
}

#[test]
fn set_vector_replaces_view() {
    let mut foreign = vec![1u8, 2];
    let mut array = ArrayBox::from_data(&mut foreign[..]);
    array.set_vector(vec![7, 8, 9]);
    assert!(array.is_owned_data());
    assert_eq!(array.to_slice(), &[7, 8, 9]);
    drop(array);
    assert_eq!(foreign, vec![1, 2]);
}

#[test]
fn new_with_repeats_element() {
    let array = ArrayBox::new_with(7u32, 4);
    assert_eq!(array.to_slice(), &[7, 7, 7, 7]);
    assert_eq!(array.len(), 4);
}

#[test]
fn byte_size_multiplies() {
    assert_eq!(ArrayBox::<u32>::byte_size(3), 12);
    assert_eq!(ArrayBox::<u8>::byte_size(5), 5);
    assert_eq!(ArrayBox::<u64>::byte_size(0), 0);
}

#[test]
fn handle_array_operations() {
    let mut heap = BoxHeap::new();
    let array = ArrayBox::boxer_array_create_with(&mut heap, 0u32, 3);
    assert_eq!(ArrayBox::boxer_array_at_put(&mut heap, array, 2, 11), Ok(()));
    assert_eq!(ArrayBox::boxer_array_at(&heap, array, 2), Ok(11));
    assert_eq!(ArrayBox::boxer_array_get_length(&heap, array), Ok(3));
    assert_eq!(ArrayBox::boxer_array_get_capacity(&heap, array), Ok(3));

    let other = ArrayBox::boxer_array_create_with(&mut heap, 5u32, 4);
    assert_eq!(ArrayBox::boxer_array_copy_into(&mut heap, array, other), Ok(()));
    assert_eq!(ArrayBox::boxer_array_at(&heap, other, 2), Ok(11));
    assert_eq!(ArrayBox::boxer_array_at(&heap, other, 3), Ok(5));
    assert_eq!(
        ArrayBox::boxer_array_copy_into(&mut heap, other, array),
        Err(BoxerError::SizeMismatch(4, 3))
    );
    assert_eq!(ArrayBox::boxer_array_copy_into(&mut heap, array, array), Err(BoxerError::NoValue));
    assert_eq!(ArrayBox::boxer_array_at(&heap, array, 2), Ok(11));

    let mut out = [0u32; 3];
    assert_eq!(ArrayBox::boxer_array_copy_into_data(&heap, array, &mut out), Ok(()));
    assert_eq!(out, [0, 0, 11]);

    let empty = ArrayBox::<u32>::boxer_array_create(&mut heap);
    assert_eq!(ArrayBox::boxer_array_get_length(&heap, empty), Ok(0));
}

#[test]
fn handle_array_null_pointer() {
    let mut heap: BoxHeap<ArrayBox<u8>> = BoxHeap::new();
    let null = BoxPointer::null();
    assert_eq!(ArrayBox::boxer_array_get_length(&heap, null), Err(BoxerError::NullPointer));
    assert_eq!(ArrayBox::boxer_array_at(&heap, null, 0), Err(BoxerError::NullPointer));
    assert_eq!(ArrayBox::boxer_array_at_put(&mut heap, null, 0, 1), Err(BoxerError::NullPointer));
    assert_eq!(ArrayBox::boxer_array_drop(&mut heap, null), Err(BoxerError::NullPointer));
}
