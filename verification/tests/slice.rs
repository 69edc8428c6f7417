use extra::slice::AsOption;
use extra::slice::GetSlice;
use extra::slice::bound;

#[test]
fn test_get_slice() {
    let arr = [1, 2, 3];
    assert_eq!(arr.get_slice(Some(1), Some(42)), &[2, 3]);
    assert_eq!(arr.get_slice(Some(20), Some(42)), &[]);
    assert_eq!(arr.get_slice(Some(0), None), &arr);
    assert_eq!(arr.get_slice(None, None), &arr);
    assert_eq!(arr.get_slice(None, Some(42)), &arr);
    assert_eq!(arr.get_slice(Some(1), None), &[2, 3]);
    assert_eq!(arr.get_slice(Some(1), Some(2)), &[2]);
    let mut vec = Vec::new();
    assert!(vec.get_slice(Some(1), Some(2)).is_empty());
    vec.push(3);
    assert_eq!(vec.get_slice(Some(0), Some(2)), &[3]);
    assert!(vec.get_slice(Some(1), Some(2)).is_empty());
}

#[test]
fn slice_bound_saturates_and_orders() {
    assert_eq!(bound(3, Some(1), Some(42)), (1, 3));
    assert_eq!(bound(3, None, None), (0, 3));
    assert_eq!(bound(3, Some(2), Some(1)), (0, 0));
    assert_eq!(bound(0, Some(5), Some(9)), (0, 0));
}

#[test]
fn slice_as_option_conversions() {
    assert_eq!(7usize.as_option(), Some(7));
    assert_eq!(Some(7usize).as_option(), Some(7));
    assert_eq!(None::<usize>.as_option(), None);
}
