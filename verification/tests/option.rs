use extra::option::OptionExt;

#[test]
fn test_filter() {
    assert_eq!(OptionExt::filter(Some(3), |x: &i32| x & 1 == 0), None);
    assert_eq!(OptionExt::filter(Some(2), |x: &i32| x & 1 == 0), Some(2));
}

#[test]
fn option_filter_on_none_stays_none() {
    let none: Option<i32> = None;
    assert_eq!(OptionExt::filter(none, |_x: &i32| true), None);
}
