use tuple_split::{split_tuple_at, split_tuple_into, split_tuple_into_left, split_tuple_into_right};

#[test]
fn test_split_concat() {
    let t: (u8, f32, &str) = (1, 1.0, "test");

    let (l, r) = split_tuple_at::<0, _>(t);
    assert_eq!(t, tupleops::concat_tuples(l, r));

    let (l, r) = split_tuple_at::<1, _>(t);
    assert_eq!(t, tupleops::concat_tuples(l, r));

    let (l, r) = split_tuple_at::<2, _>(t);
    assert_eq!(t, tupleops::concat_tuples(l, r));

    let (l, r) = split_tuple_at::<3, _>(t);
    assert_eq!(t, tupleops::concat_tuples(l, r));
}

#[test]
fn test() {
    let t = (1u8, 2u16, 3u32, 4u64, 5u128);

    let (l1, r1) = split_tuple_into_left::<(u8, u16), _>(t);
    let (l2, r2) = split_tuple_into_right::<(u32, u64, u128), _>(t);
    let (l3, r3) = split_tuple_at::<2, _>(t);

    assert_eq!(l1, l2);
    assert_eq!(l2, l3);

    assert_eq!(r1, r2);
    assert_eq!(r2, r3);

    assert_eq!(t, tupleops::concat_tuples(l1, r1));
    assert_eq!(t, tupleops::concat_tuples(l2, r2));
    assert_eq!(t, tupleops::concat_tuples(l3, r3));
}

#[test]
fn split_at_every_index_of_three() {
    let t: (u8, f32, &str) = (1, 1.0, "test");

    assert_eq!(split_tuple_at::<0, _>(t), ((), (1, 1.0, "test")));
    assert_eq!(split_tuple_at::<1, _>(t), ((1,), (1.0, "test")));
    assert_eq!(split_tuple_at::<2, _>(t), ((1, 1.0), ("test",)));
    assert_eq!(split_tuple_at::<3, _>(t), ((1, 1.0, "test"), ()));

    assert_eq!(split_tuple_into_left::<(u8, f32), _>(t), split_tuple_at::<2, _>(t));
}

#[test]
fn boundary_splits() {
    let t = (10u8, 20u16, 30u32, 40u64);

    let (l, r) = split_tuple_at::<0, _>(t);
    assert_eq!(l, ());
    assert_eq!(r, t);

    let (l, r) = split_tuple_at::<4, _>(t);
    assert_eq!(l, t);
    assert_eq!(r, ());
}

#[test]
fn shape_agrees_with_index_at_every_point() {
    let t = (1u8, 2i16, 3u32);

    assert_eq!(split_tuple_into_left::<(), _>(t), split_tuple_at::<0, _>(t));
    assert_eq!(split_tuple_into_left::<(u8,), _>(t), split_tuple_at::<1, _>(t));
    assert_eq!(split_tuple_into_left::<(u8, i16), _>(t), split_tuple_at::<2, _>(t));
    assert_eq!(split_tuple_into_left::<(u8, i16, u32), _>(t), split_tuple_at::<3, _>(t));

    assert_eq!(split_tuple_into_right::<(u8, i16, u32), _>(t), split_tuple_at::<0, _>(t));
    assert_eq!(split_tuple_into_right::<(i16, u32), _>(t), split_tuple_at::<1, _>(t));
    assert_eq!(split_tuple_into_right::<(u32,), _>(t), split_tuple_at::<2, _>(t));
    assert_eq!(split_tuple_into_right::<(), _>(t), split_tuple_at::<3, _>(t));
}

#[test]
fn complementary_shapes_are_cross_consistent() {
    let t = ("a", "b", 3u8, 4.5f64);

    let (l1, r1) = split_tuple_into_left::<(&str, &str), _>(t);
    let (l2, r2) = split_tuple_into_right::<(u8, f64), _>(t);
    assert_eq!(l1, l2);
    assert_eq!(r1, r2);
    assert_eq!((l1, r1), (("a", "b"), (3u8, 4.5f64)));
}

#[test]
fn split_into_both_shapes() {
    let t = (1u8, 1.0f32, "test");

    let (l, r) = split_tuple_into::<(u8, f32), (&str,), _>(t);
    assert_eq!(l, (1u8, 1.0f32));
    assert_eq!(r, ("test",));
    assert_eq!(t, tupleops::concat_tuples(l, r));
}

#[test]
fn split_empty_tuple() {
    let (l, r) = split_tuple_at::<0, _>(());
    assert_eq!(l, ());
    assert_eq!(r, ());

    let (l, r) = split_tuple_into::<(), (), _>(());
    assert_eq!(l, ());
    assert_eq!(r, ());
}

#[test]
fn split_single_element() {
    let t = (7u64,);

    assert_eq!(split_tuple_at::<0, _>(t), ((), (7u64,)));
    assert_eq!(split_tuple_at::<1, _>(t), ((7u64,), ()));
}

#[test]
fn split_largest_supported_arity() {
    let t = (1u8, 2u16, 3u32, 4u64, 5i8, 6i16, 7i32, 8i64);

    let (l, r) = split_tuple_at::<5, _>(t);
    assert_eq!(l, (1u8, 2u16, 3u32, 4u64, 5i8));
    assert_eq!(r, (6i16, 7i32, 8i64));
    assert_eq!(t, tupleops::concat_tuples(l, r));

    let (l, r) = split_tuple_into_right::<(i64,), _>(t);
    assert_eq!(l, (1u8, 2u16, 3u32, 4u64, 5i8, 6i16, 7i32));
    assert_eq!(r, (8i64,));
}

#[test]
fn round_trip_at_every_index_of_five() {
    let t = (false, 1u8, 'c', 3i128, "s");

    let (l, r) = split_tuple_at::<0, _>(t);
    assert_eq!(t, tupleops::concat_tuples(l, r));
    let (l, r) = split_tuple_at::<1, _>(t);
    assert_eq!(t, tupleops::concat_tuples(l, r));
    let (l, r) = split_tuple_at::<2, _>(t);
    assert_eq!(t, tupleops::concat_tuples(l, r));
    let (l, r) = split_tuple_at::<3, _>(t);
    assert_eq!(t, tupleops::concat_tuples(l, r));
    let (l, r) = split_tuple_at::<4, _>(t);
    assert_eq!(t, tupleops::concat_tuples(l, r));
    let (l, r) = split_tuple_at::<5, _>(t);
    assert_eq!(t, tupleops::concat_tuples(l, r));
}

#[test]
fn moves_owned_values_without_copying_semantics() {
    let t = (String::from("left"), String::from("right"));

    let (l, r) = split_tuple_into_left::<(String,), _>(t);
    assert_eq!(l.0, "left");
    assert_eq!(r.0, "right");
}
