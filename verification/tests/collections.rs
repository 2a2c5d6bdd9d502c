use freezable::{combine, Freezable, Frozen, FrozenMap, FrozenSet, Heap};
use std::collections::hash_map::DefaultHasher;
use std::collections::{BTreeMap, BTreeSet, BinaryHeap, HashMap, HashSet, LinkedList, VecDeque};
use std::hash::{Hash, Hasher};

fn digest_of<T: Hash>(value: &T) -> u64 {
    let mut hasher = DefaultHasher::new();
    value.hash(&mut hasher);
    hasher.finish()
}

fn digest_of_entry<K: Hash, V: Hash>(key: &K, value: &V) -> u64 {
    let mut hasher = DefaultHasher::new();
    key.hash(&mut hasher);
    value.hash(&mut hasher);
    hasher.finish()
}

fn digest_of_u64(value: u64) -> u64 {
    let mut hasher = DefaultHasher::new();
    hasher.write_u64(value);
    hasher.finish()
}

#[test]
fn vec_freezes_in_order() {
    let carrier = vec![3u32, 1, 2].freeze();
    let shown: Vec<u32> = carrier.iter().map(|c| **c).collect();
    assert_eq!(shown, vec![3, 1, 2]);
}

#[test]
fn vec_round_trips() {
    let back = vec![3u32, 1, 2].freeze().thaw::<Vec<u32>>();
    assert_eq!(back, vec![3, 1, 2]);
}

#[test]
fn empty_vec_round_trips() {
    let back = Vec::<u8>::new().freeze().thaw::<Vec<u8>>();
    assert!(back.is_empty());
}

#[test]
fn frozen_vec_thaws_into_a_deque() {
    let back = vec![3u32, 1, 2].freeze().thaw::<VecDeque<u32>>();
    assert_eq!(back, VecDeque::from(vec![3, 1, 2]));
    let walked: Vec<u32> = back.into_iter().collect();
    assert_eq!(walked, vec![3, 1, 2]);
}

#[test]
fn frozen_vec_reaches_a_linked_list_in_order() {
    let thawed = vec![3u32, 1, 2].freeze().thaw::<VecDeque<u32>>();
    let list: LinkedList<u32> = thawed.into_iter().collect();
    let walked: Vec<u32> = list.into_iter().collect();
    assert_eq!(walked, vec![3, 1, 2]);
}

#[test]
fn deque_freezes_in_order_and_thaws_into_a_vec() {
    let mut deque = VecDeque::new();
    deque.push_back(2u8);
    deque.push_back(3);
    deque.push_front(1);
    let back = deque.freeze().thaw::<Vec<u8>>();
    assert_eq!(back, vec![1, 2, 3]);
}

#[test]
fn vec_of_vecs_round_trips() {
    let value = vec![vec![1u8], vec![], vec![2, 3]];
    let back = value.clone().freeze().thaw::<Vec<Vec<u8>>>();
    assert_eq!(back, value);
}

#[test]
fn frozen_vec_thaws_into_boxed_elements() {
    let back = vec![1u8, 2].freeze().thaw::<Vec<Box<u8>>>();
    assert_eq!(back, vec![Box::new(1), Box::new(2)]);
}

#[test]
fn tree_map_freezes_in_key_order() {
    let mut map = BTreeMap::new();
    map.insert(3u8, 'c');
    map.insert(1, 'a');
    map.insert(2, 'b');
    let back = map.freeze().thaw::<Vec<(u8, char)>>();
    assert_eq!(back, vec![(1, 'a'), (2, 'b'), (3, 'c')]);
}

#[test]
fn frozen_vec_of_pairs_thaws_into_a_tree_map() {
    let back = vec![(3u8, 'c'), (1, 'a'), (3, 'z')].freeze().thaw::<BTreeMap<u8, char>>();
    let walked: Vec<(u8, char)> = back.into_iter().collect();
    assert_eq!(walked, vec![(1, 'a'), (3, 'z')]);
}

#[test]
fn tree_set_freezes_in_order() {
    let mut set = BTreeSet::new();
    set.insert(3u8);
    set.insert(1);
    set.insert(2);
    let back = set.freeze().thaw::<Vec<u8>>();
    assert_eq!(back, vec![1, 2, 3]);
}

#[test]
fn frozen_vec_thaws_into_a_tree_set() {
    let back = vec![3u8, 1, 3, 2].freeze().thaw::<BTreeSet<u8>>();
    let walked: Vec<u8> = back.into_iter().collect();
    assert_eq!(walked, vec![1, 2, 3]);
}

#[test]
fn heap_freezes_in_ascending_order() {
    let heap = Heap::from_vec(vec![5u32, 1, 4, 1, 3]);
    let back = heap.freeze().thaw::<Vec<u32>>();
    assert_eq!(back, vec![1, 1, 3, 4, 5]);
}

#[test]
fn heaps_with_the_same_elements_freeze_alike() {
    let mut first = Heap::new();
    for item in [3u32, 1, 2, 2] {
        first.push(item);
    }
    let mut second = Heap::new();
    for item in [2u32, 2, 3, 1] {
        second.push(item);
    }
    assert_eq!(first.len(), 4);
    assert!(first.freeze() == second.freeze());
}

#[test]
fn binary_heap_layouts_freeze_alike() {
    let mut first = BinaryHeap::new();
    for item in [3u32, 1, 2, 9, 7] {
        first.push(item);
    }
    let mut second = BinaryHeap::new();
    for item in [9u32, 7, 3, 2, 1] {
        second.push(item);
    }
    let first_frozen = Heap::from_vec(first.into_vec()).freeze();
    let second_frozen = Heap::from_vec(second.into_vec()).freeze();
    assert!(first_frozen == second_frozen);
    assert_eq!(first_frozen.thaw::<Vec<u32>>(), vec![1, 2, 3, 7, 9]);
}

#[test]
fn heap_sorts_what_it_holds() {
    let heap = Heap::from_vec(vec![2u8, 9, 0, 2]);
    assert_eq!(heap.into_sorted_vec(), vec![0, 2, 2, 9]);
    let empty: Heap<u8> = Heap::new();
    assert!(empty.into_sorted_vec().is_empty());
    let layout = Heap::from_vec(vec![2u8, 9, 0]);
    assert_eq!(layout.into_vec(), vec![2, 9, 0]);
}

#[test]
fn combine_is_the_xor_of_the_digests() {
    assert_eq!(combine(&vec![]), 0);
    assert_eq!(combine(&vec![5]), 5);
    assert_eq!(combine(&vec![1, 2, 4]), 7);
    assert_eq!(combine(&vec![6, 3]), 5);
    assert_eq!(combine(&vec![u64::MAX, 1]), u64::MAX - 1);
}

#[test]
fn combine_ignores_the_order() {
    assert_eq!(combine(&vec![10, 20, 30, 40]), combine(&vec![40, 10, 30, 20]));
    assert_eq!(combine(&vec![7, 7, 9]), combine(&vec![7, 9, 7]));
}

#[test]
fn hash_set_freezes_to_the_same_elements() {
    let set: HashSet<u32> = [3, 1, 2].into_iter().collect();
    let carrier = set.freeze();
    assert_eq!(carrier.len(), 3);
    assert!(carrier.contains(&1) && carrier.contains(&2) && carrier.contains(&3));
    assert!(!carrier.contains(&4));
}

#[test]
fn hash_set_round_trips() {
    let set: HashSet<u32> = [3, 1, 2].into_iter().collect();
    let back = set.clone().freeze().thaw::<HashSet<u32>>();
    assert_eq!(back, set);
}

#[test]
fn hash_sets_built_in_different_orders_freeze_and_hash_alike() {
    let mut first = HashSet::new();
    for item in ["a", "b", "c", "d"] {
        first.insert(item);
    }
    let mut second = HashSet::new();
    for item in ["d", "c", "b", "a"] {
        second.insert(item);
    }
    let first_frozen = first.freeze();
    let second_frozen = second.freeze();
    assert!(first_frozen == second_frozen);
    assert_eq!(digest_of(&first_frozen), digest_of(&second_frozen));
}

#[test]
fn hash_set_hash_is_the_xor_of_the_element_digests() {
    let set: HashSet<u32> = [3, 1, 2].into_iter().collect();
    let expected = digest_of(&3u32) ^ digest_of(&1u32) ^ digest_of(&2u32);
    assert_eq!(digest_of(&set.freeze()), digest_of_u64(expected));
    let empty: HashSet<u32> = HashSet::new();
    assert_eq!(digest_of(&empty.freeze()), digest_of_u64(0));
}

#[test]
fn hash_sets_with_different_elements_differ() {
    let first: HashSet<u32> = [1, 2].into_iter().collect();
    let second: HashSet<u32> = [1, 3].into_iter().collect();
    assert!(first.freeze() != second.freeze());
}

#[test]
fn hash_map_freezes_to_the_same_entries() {
    let mut map = HashMap::new();
    map.insert(1u32, 'a');
    map.insert(2, 'b');
    let carrier = map.freeze();
    assert_eq!(carrier.len(), 2);
    assert_eq!(**carrier.get(&1).unwrap(), 'a');
    assert_eq!(**carrier.get(&2).unwrap(), 'b');
    assert!(carrier.get(&3).is_none());
}

#[test]
fn hash_map_round_trips() {
    let mut map = HashMap::new();
    map.insert(1u32, String::from("one"));
    map.insert(2, String::from("two"));
    let back = map.clone().freeze().thaw::<HashMap<u32, String>>();
    assert_eq!(back, map);
}

#[test]
fn hash_maps_built_in_different_orders_freeze_and_hash_alike() {
    let mut first = HashMap::new();
    for (key, value) in [(1u32, 10u64), (2, 20), (3, 30), (4, 40)] {
        first.insert(key, value);
    }
    let mut second = HashMap::new();
    for (key, value) in [(4u32, 40u64), (3, 30), (2, 20), (1, 10)] {
        second.insert(key, value);
    }
    let first_frozen = first.freeze();
    let second_frozen = second.freeze();
    assert!(first_frozen == second_frozen);
    assert_eq!(digest_of(&first_frozen), digest_of(&second_frozen));
}

#[test]
fn hash_map_hash_is_the_xor_of_the_entry_digests() {
    let mut map = HashMap::new();
    map.insert(1u32, 10u64);
    map.insert(2, 20);
    let expected = digest_of_entry(&1u32, &10u64.freeze()) ^ digest_of_entry(&2u32, &20u64.freeze());
    assert_eq!(digest_of(&map.freeze()), digest_of_u64(expected));
}

#[test]
fn hash_maps_with_different_values_differ() {
    let mut first = HashMap::new();
    first.insert(1u32, 'a');
    let mut second = HashMap::new();
    second.insert(1u32, 'b');
    assert!(first.freeze() != second.freeze());
}

#[test]
fn frozen_map_iter_walks_every_entry_once() {
    let mut map = HashMap::new();
    map.insert(1u32, 'a');
    map.insert(2, 'b');
    map.insert(3, 'c');
    let carrier = map.freeze();
    let mut walked: Vec<(u32, char)> = carrier.iter().map(|(key, value)| (*key, **value)).collect();
    walked.sort();
    assert_eq!(walked, vec![(1, 'a'), (2, 'b'), (3, 'c')]);
}

#[test]
fn frozen_map_and_set_can_be_cloned() {
    let mut map = HashMap::new();
    map.insert(1u32, 'a');
    let carrier: Frozen<HashMap<u32, char>> = map.freeze();
    let copy: FrozenMap<u32, Frozen<char>> = (*carrier).clone();
    assert!(copy == *carrier);
    let set: HashSet<u32> = [1, 2].into_iter().collect();
    let frozen = set.freeze();
    let copy: FrozenSet<u32> = (*frozen).clone();
    assert!(copy == *frozen);
    assert_eq!(copy.len(), 2);
}

#[test]
fn frozen_map_with_unit_values_thaws_into_a_set() {
    let mut map = HashMap::new();
    map.insert("a", ());
    map.insert("b", ());
    let back = map.freeze().thaw::<HashSet<&str>>();
    let expected: HashSet<&str> = ["a", "b"].into_iter().collect();
    assert_eq!(back, expected);
}

#[test]
fn frozen_set_thaws_into_a_map_with_unit_values() {
    let set: HashSet<&str> = ["a", "b"].into_iter().collect();
    let back = set.freeze().thaw::<HashMap<&str, ()>>();
    let mut expected = HashMap::new();
    expected.insert("a", ());
    expected.insert("b", ());
    assert_eq!(back, expected);
}

#[test]
fn hash_map_of_vecs_round_trips() {
    let mut map = HashMap::new();
    map.insert(String::from("k"), vec![1u8, 2]);
    let back = map.clone().freeze().thaw::<HashMap<String, Vec<u8>>>();
    assert_eq!(back, map);
}

#[test]
fn frozen_map_looks_up_by_an_unfrozen_key() {
    let mut map = HashMap::new();
    map.insert(1u32, 'a');
    map.insert(2, 'b');
    let carrier = map.freeze();
    assert_eq!(*(*carrier)[1u32], 'a');
    assert_eq!(*(*carrier)[2u32], 'b');
    let mut named = HashMap::new();
    named.insert(String::from("k"), 7u8);
    let carrier = named.freeze();
    assert_eq!(*(*carrier)[String::from("k")], 7);
}

#[test]
fn empty_hash_collections_freeze_to_empty_ones() {
    let map: HashMap<u8, u8> = HashMap::new();
    let carrier = map.freeze();
    assert!(carrier.is_empty());
    assert_eq!(digest_of(&carrier), digest_of_u64(0));
    assert!(carrier.thaw::<HashMap<u8, u8>>().is_empty());
    let set: HashSet<u8> = HashSet::new();
    assert!(set.freeze().thaw::<HashSet<u8>>().is_empty());
}

#[test]
fn hash_set_of_pairs_round_trips() {
    let set: HashSet<(u8, char)> = [(1, 'a'), (2, 'b')].into_iter().collect();
    let back = set.clone().freeze().thaw::<HashSet<(u8, char)>>();
    assert_eq!(back, set);
}

#[test]
fn hash_map_thaws_into_boxed_values() {
    let mut map = HashMap::new();
    map.insert(1u8, 10u32);
    let back = map.freeze().thaw::<HashMap<u8, Box<u32>>>();
    assert_eq!(back.len(), 1);
    assert_eq!(*back[&1], 10);
}

#[test]
fn frozen_map_dereferences_to_the_map() {
    let mut map = HashMap::new();
    map.insert(1u8, 'a');
    let carrier = map.freeze();
    let inner: &HashMap<u8, Frozen<char>> = &carrier;
    assert_eq!(inner.len(), 1);
    assert!(inner.contains_key(&1));
}

#[test]
fn equal_frozen_sets_in_a_set_count_once() {
    let first: HashSet<u8> = [1, 2, 3].into_iter().collect();
    let second: HashSet<u8> = [3, 2, 1].into_iter().collect();
    let mut outer = HashSet::new();
    outer.insert(first.freeze());
    outer.insert(second.freeze());
    assert_eq!(outer.len(), 1);
}

#[test]
fn tree_collections_of_one_or_none() {
    let empty: BTreeSet<u8> = BTreeSet::new();
    assert!(empty.freeze().thaw::<Vec<u8>>().is_empty());
    let mut one = BTreeMap::new();
    one.insert('k', 1u8);
    assert_eq!(one.freeze().thaw::<Vec<(char, u8)>>(), vec![('k', 1)]);
    assert!(Vec::<(u8, u8)>::new().freeze().thaw::<BTreeMap<u8, u8>>().is_empty());
}

#[test]
fn heap_of_equal_elements_keeps_them_all() {
    let heap = Heap::from_vec(vec![4u8, 4, 4]);
    assert_eq!(heap.freeze().thaw::<Vec<u8>>(), vec![4, 4, 4]);
    let empty: Heap<u8> = Heap::new();
    assert!(empty.freeze().thaw::<Vec<u8>>().is_empty());
}

#[test]
fn heap_of_text_freezes_in_ascending_order() {
    let heap = Heap::from_vec(vec!["pear", "apple", "fig"]);
    assert_eq!(heap.freeze().thaw::<Vec<&str>>(), vec!["apple", "fig", "pear"]);
}

#[test]
fn frozen_map_hands_out_its_entries() {
    let mut map = HashMap::new();
    map.insert(1u8, 'a');
    map.insert(2, 'b');
    let carrier = map.freeze();
    let mut entries: Vec<(u8, char)> =
        carrier.into_inner().into_entries().into_iter().map(|(key, value)| (key, *value)).collect();
    entries.sort();
    assert_eq!(entries, vec![(1, 'a'), (2, 'b')]);
    let empty: HashMap<u8, u8> = HashMap::new();
    assert!(empty.freeze().into_inner().into_entries().is_empty());
}

#[test]
fn frozen_map_unordered_digest_is_the_xor_of_the_entry_digests() {
    let mut map = HashMap::new();
    map.insert(7u8, 9u8);
    let carrier = map.freeze();
    assert_eq!(carrier.unordered_digest(), digest_of_entry(&7u8, &9u8.freeze()));
    let empty: HashMap<u8, u8> = HashMap::new();
    assert_eq!(empty.freeze().unordered_digest(), 0);
}

#[test]
fn frozen_set_unordered_digest_is_the_xor_of_the_element_digests() {
    let set: HashSet<u8> = [7].into_iter().collect();
    assert_eq!(set.freeze().unordered_digest(), digest_of(&7u8));
    let pair: HashSet<u8> = [7, 8].into_iter().collect();
    assert_eq!(pair.freeze().unordered_digest(), digest_of(&7u8) ^ digest_of(&8u8));
    let empty: HashSet<u8> = HashSet::new();
    assert_eq!(empty.freeze().unordered_digest(), 0);
}

#[test]
fn one_entry_map_writes_its_entry_digest_once() {
    let mut map = HashMap::new();
    map.insert(7u8, 9u8);
    let expected = digest_of_entry(&7u8, &9u8.freeze());
    assert_eq!(digest_of(&map.freeze()), digest_of_u64(expected));
}

#[test]
fn maps_built_in_opposite_orders_hash_alike() {
    let mut first = HashMap::new();
    for (key, value) in [(1i32, "x"), (2, "y"), (3, "z")] {
        first.insert(key, value);
    }
    let mut second = HashMap::new();
    for (key, value) in [(3i32, "z"), (2, "y"), (1, "x")] {
        second.insert(key, value);
    }
    assert_eq!(digest_of(&first.freeze()), digest_of(&second.freeze()));
}

#[test]
fn frozen_heap_shows_and_compares_as_its_frozen_form() {
    let small = Heap::from_vec(vec![2u8, 1]).freeze();
    let large = Heap::from_vec(vec![1u8, 3]).freeze();
    assert_eq!(format!("{:?}", small), "Frozen([Frozen(1), Frozen(2)])");
    assert!(small < large);
    assert_eq!(small.cmp(&large), std::cmp::Ordering::Less);
}

#[test]
fn hashing_a_frozen_set_writes_one_digest_into_the_hasher_as_it_is() {
    let set: HashSet<u8> = [7].into_iter().collect();
    let mut through = DefaultHasher::new();
    through.write_u8(3);
    set.freeze().hash(&mut through);
    let mut direct = DefaultHasher::new();
    direct.write_u8(3);
    direct.write_u64(digest_of(&7u8));
    assert_eq!(through.finish(), direct.finish());
}
