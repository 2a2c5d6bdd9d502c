use freezable::{Freezable, FreezableIteratorExt, Frozen, FrozenForm, UnfreezableIteratorExt};
use std::collections::hash_map::DefaultHasher;
use std::hash::{Hash, Hasher};
use std::ops::{Bound, RangeBounds};

fn digest_of<T: Hash>(value: &T) -> u64 {
    let mut hasher = DefaultHasher::new();
    value.hash(&mut hasher);
    hasher.finish()
}

#[test]
fn carrier_dereferences_to_the_frozen_form() {
    let carrier = String::from("text").freeze();
    assert_eq!(carrier.len(), 4);
    assert_eq!(&*carrier, "text");
}

#[test]
fn carrier_clones_and_copies() {
    let carrier = 5u32.freeze();
    let copy = carrier;
    assert_eq!(*carrier, *copy);
    let text = String::from("t").freeze();
    let cloned = text.clone();
    assert!(cloned == text);
}

#[test]
fn carriers_compare_as_their_frozen_forms() {
    assert!(1u8.freeze() == 1u8.freeze());
    assert!(1u8.freeze() != 2u8.freeze());
    assert!(1u8.freeze() < 2u8.freeze());
    assert!(3u8.freeze() >= 2u8.freeze());
    assert_eq!(1u8.freeze().partial_cmp(&2u8.freeze()), Some(std::cmp::Ordering::Less));
    assert_eq!(2u8.freeze().cmp(&2u8.freeze()), std::cmp::Ordering::Equal);
    assert_eq!(*9u8.freeze().max(2u8.freeze()), 9);
}

#[test]
fn carrier_hashes_as_its_frozen_form() {
    assert_eq!(digest_of(&5u32.freeze()), digest_of(&5u32));
    assert_eq!(digest_of(&"abc".freeze()), digest_of(&"abc"));
    assert_ne!(digest_of(&5u32.freeze()), digest_of(&6u32));
}

#[test]
fn carrier_default_is_the_frozen_default() {
    let carrier: Frozen<u32> = Frozen::default();
    assert_eq!(*carrier, 0);
    let text: Frozen<String> = Default::default();
    assert_eq!(&*text, "");
    let list: Frozen<Vec<u8>> = Default::default();
    assert!(list.is_empty());
}

#[test]
fn carrier_shows_its_frozen_form() {
    assert_eq!(format!("{:?}", 5u32.freeze()), "Frozen(5)");
    assert_eq!(format!("{:?}", "a".freeze()), "Frozen(\"a\")");
}

#[test]
fn carrier_indexes_as_its_frozen_form() {
    let carrier = vec![3u32, 1, 2].freeze();
    assert_eq!(*carrier[0], 3);
    assert_eq!(*carrier[2], 2);
}

#[test]
fn carrier_arithmetic_passes_through() {
    assert_eq!(5u32.freeze() + 2, 7);
    assert_eq!(5u32.freeze() - 2, 3);
    assert_eq!(5u32.freeze() * 2, 10);
    assert_eq!(5u32.freeze() / 2, 2);
    assert_eq!(5u32.freeze() % 2, 1);
    assert_eq!(-(5i32.freeze()), -5);
}

#[test]
fn carrier_bit_operators_pass_through() {
    assert_eq!(6u8.freeze() & 3, 2);
    assert_eq!(6u8.freeze() | 3, 7);
    assert_eq!(6u8.freeze() ^ 3, 5);
    assert_eq!(1u8.freeze() << 3u8, 8);
    assert_eq!(8u8.freeze() >> 2u8, 2);
}

#[test]
fn borrowed_carrier_operators_pass_through() {
    let carrier = 6u32.freeze();
    assert_eq!(&carrier + 1, 7);
    assert_eq!(&carrier - 1, 5);
    assert_eq!(&carrier * 2, 12);
    assert_eq!(&carrier / 4, 1);
    assert_eq!(&carrier % 4, 2);
    assert_eq!(&carrier & 3, 2);
    assert_eq!(&carrier | 1, 7);
    assert_eq!(&carrier ^ 2, 4);
    assert_eq!(&carrier << 1u32, 12);
    assert_eq!(&carrier >> 1u32, 3);
    assert_eq!(*carrier, 6);
}

#[test]
fn frozen_adapter_freezes_each_item_in_order() {
    let carriers: Vec<Frozen<u32>> = vec![3u32, 1, 2].into_iter().frozen().collect();
    let shown: Vec<u32> = carriers.iter().map(|carrier| **carrier).collect();
    assert_eq!(shown, vec![3, 1, 2]);
}

#[test]
fn frozen_adapter_is_lazy_and_ends_with_its_source() {
    let mut adapter = vec![7u8, 8].into_iter().frozen();
    assert_eq!(*adapter.next().unwrap(), 7);
    assert_eq!(*adapter.next().unwrap(), 8);
    assert!(adapter.next().is_none());
    assert!(adapter.next().is_none());
}

#[test]
fn thawed_adapter_thaws_each_item_in_order() {
    let carriers = vec![3u32.freeze(), 1u32.freeze(), 2u32.freeze()];
    let back: Vec<u32> = carriers.into_iter().thawed::<u32>().collect();
    assert_eq!(back, vec![3, 1, 2]);
}

#[test]
fn thawed_adapter_can_pick_another_target() {
    let carriers = vec![3u32.freeze(), 1u32.freeze()];
    let back: Vec<Box<u32>> = carriers.into_iter().thawed::<Box<u32>>().collect();
    assert_eq!(back, vec![Box::new(3), Box::new(1)]);
}

#[test]
fn adapters_compose() {
    let back: Vec<u8> = vec![1u8, 2, 3].into_iter().frozen().thawed::<u8>().collect();
    assert_eq!(back, vec![1, 2, 3]);
    let none: Vec<u8> = Vec::<u8>::new().into_iter().frozen().thawed::<u8>().collect();
    assert!(none.is_empty());
}

#[test]
fn carrier_borrows_as_its_frozen_form() {
    let carrier = vec![4u8, 2].freeze();
    let list: &Vec<Frozen<u8>> = carrier.as_ref();
    assert_eq!(list.len(), 2);
    assert_eq!(*list[0], 4);
    assert_eq!(*list[1], 2);
}

struct Span {
    from: u8,
    until: u8,
}

impl FrozenForm for Span {
    type Frozen = std::ops::Range<u8>;
}

impl Freezable for Span {
    fn freezes_to(self, _frozen: std::ops::Range<u8>) -> bool {
        unreachable!()
    }

    fn freeze(self) -> Frozen<Self> {
        Frozen::new(self.from..self.until)
    }
}

#[test]
fn carrier_range_bounds_pass_through() {
    let carrier = Span { from: 1, until: 4 }.freeze();
    assert_eq!(carrier.start_bound(), Bound::Included(&1));
    assert_eq!(carrier.end_bound(), Bound::Excluded(&4));
    assert!(carrier.contains(&3));
    assert!(!carrier.contains(&4));
}

#[test]
fn a_type_of_the_caller_can_be_frozen() {
    let carrier = Span { from: 2, until: 5 }.freeze();
    assert_eq!(*carrier, 2..5);
    assert_eq!(carrier.len(), 3);
}

#[test]
fn carrier_prints_as_its_frozen_form() {
    assert_eq!(5u32.freeze().to_string(), "5");
    assert_eq!("text".freeze().to_string(), "text");
    assert_eq!((-7i8).freeze().to_string(), "-7");
    assert_eq!(true.freeze().to_string(), "true");
}

#[test]
fn chained_adapters_pull_one_item_for_each_item_asked() {
    let pulled = std::cell::Cell::new(0u32);
    let source = [5u8, 6, 7].into_iter().inspect(|_| pulled.set(pulled.get() + 1));
    let mut chain = source.frozen().thawed::<u8>();
    assert_eq!(pulled.get(), 0);
    assert_eq!(chain.next(), Some(5));
    assert_eq!(pulled.get(), 1);
    assert_eq!(chain.next(), Some(6));
    assert_eq!(chain.next(), Some(7));
    assert_eq!(pulled.get(), 3);
    assert_eq!(chain.next(), None);
    assert_eq!(chain.next(), None);
}

#[test]
fn hashing_a_carrier_leaves_the_hasher_as_hashing_its_frozen_form_does() {
    let mut through = DefaultHasher::new();
    through.write_u8(1);
    5u32.freeze().hash(&mut through);
    let mut direct = DefaultHasher::new();
    direct.write_u8(1);
    5u32.hash(&mut direct);
    assert_eq!(through.finish(), direct.finish());
}
