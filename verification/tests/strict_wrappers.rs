use cmp_wrap::strict::CmpByKey;
use cmp_wrap::strict::KeyCmpContext;
use core::cmp::Ordering;

#[test]
fn can_compare_two_i32_with_reversed_order() {
    let i_to_key = |x: &i32| -> i32 { -*x };
    let x32 = CmpByKey::new(32, &i_to_key);
    let y33 = CmpByKey::new(33, &i_to_key);

    assert!(x32 > y33, "should be in reversed order");
}

#[test]
fn works_with_references() {
    let i_to_key = |x: &&i32| -> i32 { -**x };

    let x32 = 32;
    let x33 = 33;

    let r32 = CmpByKey::new(&x32, &i_to_key);
    let r33 = CmpByKey::new(&x33, &i_to_key);

    assert!(r32 > r33, "should be in reversed order");
}

#[test]
fn context_new_accept_reference() {
    let _by_length = KeyCmpContext::new(&|v: &Vec<i32>| v.len());
}

#[test]
fn cmp_gives_three_way_results() {
    let identity = |x: &i32| -> i32 { *x };
    let one = CmpByKey::new(1, &identity);
    let two = CmpByKey::new(2, &identity);
    let other_two = CmpByKey::new(2, &identity);

    assert_eq!(one.cmp(&two), Ordering::Less);
    assert_eq!(two.cmp(&one), Ordering::Greater);
    assert_eq!(two.cmp(&other_two), Ordering::Equal);
}

#[test]
fn equal_keys_make_equal_wrappers() {
    let by_abs = |x: &i32| -> i32 { x.abs() };
    let minus_five = CmpByKey::new(-5, &by_abs);
    let five = CmpByKey::new(5, &by_abs);

    assert!(minus_five == five);
}

#[test]
fn strict_context_wraps_in_one_context() {
    let by_length = KeyCmpContext::new(|v: &Vec<i32>| v.len());
    let long_vec = by_length.wrap(vec![1, 2, 3, 4]);
    let short_vec = by_length.wrap(vec![1, 2]);

    assert!(long_vec > short_vec);
}

#[test]
fn round_trip_returns_the_value_unchanged() {
    let by_length = |v: &Vec<i32>| -> usize { v.len() };
    let wrapped = CmpByKey::new(vec![1, 2, 3], &by_length);

    assert_eq!(wrapped.remove_wrapper(), vec![1, 2, 3]);
}

#[test]
fn get_key_is_idempotent() {
    let negate = |x: &i32| -> i32 { -*x };
    let w = CmpByKey::new(32, &negate);

    assert_eq!(w.get_key(), -32);
    assert_eq!(w.get_key(), w.get_key());
}

#[test]
fn unordered_keys_give_no_ordering() {
    let identity = |x: &f32| -> f32 { *x };
    let nan = CmpByKey::new(f32::NAN, &identity);
    let one = CmpByKey::new(1.0f32, &identity);

    assert_eq!(nan.partial_cmp(&one), None);
    assert!(!(nan < one));
    assert!(!(nan > one));
    assert!(!(nan == one));
}
