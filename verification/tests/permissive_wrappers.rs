use cmp_wrap::permissive::CmpByKey;
use cmp_wrap::permissive::KeyCmpContext;

struct A {
    v: i32,
}

struct B {
    v: i32,
}

#[test]
fn cmp_by_key_can_compare_two_i32_with_reversed_order() {
    let i_to_key = |x: &i32| -> i32 { -*x };
    let x32 = CmpByKey::new(32, &i_to_key);
    let y33 = CmpByKey::new(33, &i_to_key);

    assert!(x32 > y33, "should be in reversed order");
}

#[test]
fn cmp_by_key_works_with_references() {
    let i_to_key = |x: &&i32| -> i32 { -**x };

    let x32 = 32;
    let x33 = 33;

    let r32 = CmpByKey::new(&x32, &i_to_key);
    let r33 = CmpByKey::new(&x33, &i_to_key);

    assert!(r32 > r33, "should be in reversed order");
}

#[test]
fn dosnt_have_to_be_the_same_closure() {
    let x32 = CmpByKey::new(32, &|x: &i32| -> i32 { -*x });
    let y33 = CmpByKey::new(33, &|x: &i32| -> i32 { -*x });

    assert!(x32 > y33, "should be in reversed order");
}

#[test]
fn can_compare_different_types_with_same_key() {
    let a = CmpByKey::new(A { v: 3 }, &|t: &A| t.v);
    let b = CmpByKey::new(B { v: 4 }, &|t: &B| t.v);

    assert!(a < b)
}

#[test]
fn longer_vec_wins_by_length() {
    let len_as_key = |v: &Vec<i32>| -> usize { v.len() };
    let long_vec = CmpByKey::new(vec![1, 2, 3, 4], &len_as_key);
    let short_vec = CmpByKey::new(vec![1, 2], &len_as_key);

    assert!(long_vec > short_vec);
}

#[test]
fn context_wraps_vectors_by_length() {
    let len_as_key = |v: &Vec<i32>| -> usize { v.len() };
    let by_length = KeyCmpContext::new(&len_as_key);
    let long_vec = by_length.wrap(vec![1, 2, 3, 4]);
    let short_vec = by_length.wrap(vec![1, 2]);

    assert!(long_vec > short_vec);
}

#[test]
fn equal_keys_across_types_are_equal() {
    let a = CmpByKey::new(A { v: 7 }, &|t: &A| t.v);
    let b = CmpByKey::new(B { v: 7 }, &|t: &B| t.v);

    assert!(a == b);
}

#[test]
fn different_contexts_with_comparable_keys() {
    let long_vec = vec![1, 2, 3, 4, 5];
    let short_vec = vec![4, 2];

    let by_length = KeyCmpContext::new(&|v: &&Vec<i32>| v.len());
    let by_first_element = KeyCmpContext::new(&|v: &&Vec<i32>| v[0] as usize);

    let by_length_long = by_length.wrap(&long_vec);
    let by_first_element_short = by_first_element.wrap(&short_vec);

    assert!(by_length_long > by_first_element_short);
}

#[test]
fn permissive_round_trip_returns_the_value_unchanged() {
    let negate = |x: &i32| -> i32 { -*x };
    let wrapped = CmpByKey::new(17, &negate);

    assert_eq!(wrapped.remove_wrapper(), 17);
}

#[test]
fn permissive_get_key_applies_the_key_function() {
    let len_as_key = |v: &Vec<i32>| -> usize { v.len() };
    let wrapped = CmpByKey::new(vec![5, 6], &len_as_key);

    assert_eq!(wrapped.get_key(), 2);
    assert_eq!(wrapped.get_key(), wrapped.get_key());
}
