use freezable::{Freezable, Frozen, Unfreezable};
use std::time::Duration;

#[test]
fn bool_round_trips() {
    assert_eq!(true.freeze().thaw::<bool>(), true);
    assert_eq!(false.freeze().thaw::<bool>(), false);
}

#[test]
fn char_round_trips() {
    assert_eq!('x'.freeze().thaw::<char>(), 'x');
}

#[test]
fn signed_integers_round_trip() {
    assert_eq!((-8i8).freeze().thaw::<i8>(), -8);
    assert_eq!(i16::MIN.freeze().thaw::<i16>(), i16::MIN);
    assert_eq!(32i32.freeze().thaw::<i32>(), 32);
    assert_eq!(i64::MAX.freeze().thaw::<i64>(), i64::MAX);
    assert_eq!((-128i128).freeze().thaw::<i128>(), -128);
    assert_eq!(7isize.freeze().thaw::<isize>(), 7);
}

#[test]
fn unsigned_integers_round_trip() {
    assert_eq!(8u8.freeze().thaw::<u8>(), 8);
    assert_eq!(u16::MAX.freeze().thaw::<u16>(), u16::MAX);
    assert_eq!(32u32.freeze().thaw::<u32>(), 32);
    assert_eq!(u64::MAX.freeze().thaw::<u64>(), u64::MAX);
    assert_eq!(128u128.freeze().thaw::<u128>(), 128);
    assert_eq!(0usize.freeze().thaw::<usize>(), 0);
}

#[test]
fn text_round_trips() {
    assert_eq!("frozen".freeze().thaw::<&str>(), "frozen");
    assert_eq!(String::from("owned").freeze().thaw::<String>(), "owned");
    assert_eq!("".freeze().thaw::<&str>(), "");
}

#[test]
fn duration_round_trips() {
    let d = Duration::new(3, 500);
    assert_eq!(d.freeze().thaw::<Duration>(), d);
}

#[test]
fn freezing_a_primitive_wraps_it_unchanged() {
    let carrier = 41u32.freeze();
    assert_eq!(*carrier, 41);
    assert_eq!(carrier.into_inner(), 41);
}

#[test]
fn new_wraps_the_frozen_form() {
    let carrier: Frozen<u8> = Frozen::new(9);
    assert_eq!(*carrier, 9);
    assert_eq!(carrier.thaw::<u8>(), 9);
}

#[test]
fn thaw_through_the_trait() {
    let carrier = 5u64.freeze();
    let back = <u64 as Unfreezable<u64>>::thaw(carrier.into_inner());
    assert_eq!(back, 5);
}

#[test]
fn unit_round_trips() {
    let carrier = ().freeze();
    assert_eq!(carrier.thaw::<()>(), ());
}

#[test]
fn pair_round_trips() {
    let value = (1u8, 'a');
    assert_eq!(value.freeze().thaw::<(u8, char)>(), value);
}

#[test]
fn pair_freezes_each_component_in_place() {
    let carrier = (1u8, 'a').freeze();
    assert_eq!(*carrier.0, 1);
    assert_eq!(*carrier.1, 'a');
}

#[test]
fn triple_round_trips() {
    let value = (1u8, -2i64, true);
    assert_eq!(value.freeze().thaw::<(u8, i64, bool)>(), value);
}

#[test]
fn twelve_tuple_round_trips() {
    let value = (1u8, 2u16, 3u32, 4u64, 5u128, 6usize, -1i8, -2i16, -3i32, -4i64, 'k', true);
    let back = value
        .freeze()
        .thaw::<(u8, u16, u32, u64, u128, usize, i8, i16, i32, i64, char, bool)>();
    assert_eq!(back, value);
}

#[test]
fn nested_tuple_round_trips() {
    let value = ((1u8, 2u8), (Some(3u16), "x"));
    let back = value.freeze().thaw::<((u8, u8), (Option<u16>, &str))>();
    assert_eq!(back, value);
}

#[test]
fn array_round_trips() {
    let value = [3u32, 1, 2];
    assert_eq!(value.freeze().thaw::<[u32; 3]>(), value);
}

#[test]
fn array_freezes_each_element_in_place() {
    let carrier = [3u32, 1, 2].freeze();
    assert_eq!(*carrier[0], 3);
    assert_eq!(*carrier[1], 1);
    assert_eq!(*carrier[2], 2);
}

#[test]
fn empty_array_round_trips() {
    let value: [u8; 0] = [];
    assert_eq!(value.freeze().thaw::<[u8; 0]>(), value);
}

#[test]
fn array_of_pairs_round_trips() {
    let value = [(1u8, 'a'), (2, 'b')];
    assert_eq!(value.freeze().thaw::<[(u8, char); 2]>(), value);
}

#[test]
fn option_round_trips() {
    assert_eq!(Some(4u8).freeze().thaw::<Option<u8>>(), Some(4));
    assert_eq!(None::<u8>.freeze().thaw::<Option<u8>>(), None);
}

#[test]
fn option_freezes_absent_to_absent() {
    let carrier = None::<u8>.freeze();
    assert!(carrier.is_none());
    let present = Some(4u8).freeze();
    assert_eq!(*present.into_inner().unwrap(), 4);
}

#[test]
fn option_thaws_into_a_boxed_element() {
    let back = Some(4u8).freeze().thaw::<Option<Box<u8>>>();
    assert_eq!(back, Some(Box::new(4)));
}

#[test]
fn refreezing_a_carrier_keeps_the_frozen_form() {
    let first = (7u8, 'q').freeze();
    let again = (7u8, 'q').freeze().freeze();
    let back = again.thaw::<Frozen<(u8, char)>>();
    assert!(back == first);
    assert_eq!(back.thaw::<(u8, char)>(), (7, 'q'));
}

#[test]
fn refreezing_a_vec_carrier_keeps_the_frozen_form() {
    let first = vec![3u8, 1, 2].freeze();
    let back = vec![3u8, 1, 2].freeze().freeze().thaw::<Frozen<Vec<u8>>>();
    assert!(back == first);
}

#[test]
fn one_tuple_round_trips() {
    let value = (7u8,);
    let carrier = value.freeze();
    assert_eq!(*carrier.0, 7);
    assert_eq!(carrier.thaw::<(u8,)>(), value);
    assert_eq!((Some('a'),).freeze().thaw::<(Option<char>,)>(), (Some('a'),));
}
