use passcodec::{BoundedIntegerParseError, BoundedU8};

#[test]
fn test_from_str_radix() {
    type Num = BoundedU8<3, 44>;

    assert_eq!(Num::from_str_radix("3", 10).unwrap().get(), 3);
    assert_eq!(Num::from_str_radix("2C", 16).unwrap().get(), 44);

    assert!(matches!(
        Num::from_str_radix("A", 10),
        Err(BoundedIntegerParseError::Parse)
    ));
    assert!(matches!(
        Num::from_str_radix("2", 10),
        Err(BoundedIntegerParseError::BelowMin)
    ));
    assert!(matches!(
        Num::from_str_radix("45", 10),
        Err(BoundedIntegerParseError::AboveMax)
    ));
}

#[test]
fn bounded_new_rejects_out_of_range() {
    type Digit = BoundedU8<0, 9>;
    assert_eq!(Digit::new(9).unwrap().get(), 9);
    assert!(Digit::new(10).is_none());
    assert!(BoundedU8::<3, 5>::new(2).is_none());
}

#[test]
fn bounded_all_lists_range() {
    let all = BoundedU8::<2, 5>::all();
    let values: Vec<u8> = all.iter().map(|b| b.get()).collect();
    assert_eq!(values, vec![2, 3, 4, 5]);
    assert!(BoundedU8::<0, 9>::in_range(9));
    assert!(!BoundedU8::<0, 9>::in_range(10));
}
