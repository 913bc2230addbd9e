use cpu_perf::two_dim_array::TwoDimensionalArray;

#[test]
fn a_buffer_of_the_wrong_size_does_not_fit() {
    assert!(TwoDimensionalArray::new(vec![0u32; 5], 2, 2).is_none());
    assert!(TwoDimensionalArray::new(vec![0u32; 3], 2, 2).is_none());
    assert!(TwoDimensionalArray::new(vec![0u32; 4], 2, 2).is_some());
    assert!(TwoDimensionalArray::new(Vec::<u32>::new(), 0, 7).is_some());
}

#[test]
fn cells_are_read_row_major() {
    let array = TwoDimensionalArray::new(vec![1u32, 2, 3, 4], 2, 2).unwrap();
    assert_eq!(array.num_rows(), 2);
    assert_eq!(array.num_cols(), 2);
    assert_eq!(*array.get(0, 1).unwrap(), 2);
    assert_eq!(*array.get(1, 0).unwrap(), 3);
    assert_eq!(*array.get_panic(1, 1), 4);
    assert_eq!(array.as_slice(), &[1, 2, 3, 4]);
}

#[test]
fn out_of_bounds_indexes_yield_nothing() {
    let mut array = TwoDimensionalArray::new(vec![1u32, 2, 3, 4], 2, 2).unwrap();
    assert!(array.get(2, 0).is_none());
    assert!(array.get(0, 2).is_none());
    assert!(array.get_mut(5, 5).is_none());
}

#[test]
fn mutable_borrows_write_through() {
    let mut array = TwoDimensionalArray::new(vec![0u32; 6], 2, 3).unwrap();
    *array.get_mut(0, 2).unwrap() = 7;
    *array.get_mut_panic(1, 0) = 9;
    array.set(1, 2, 11);
    assert_eq!(array.as_slice(), &[0, 0, 7, 9, 0, 11]);
}

#[test]
fn fill_overwrites_every_cell() {
    let mut array = TwoDimensionalArray::new(vec![1u32, 2, 3, 4, 5, 6], 3, 2).unwrap();
    array.fill(42);
    assert_eq!(array.as_slice(), &[42; 6]);
}
