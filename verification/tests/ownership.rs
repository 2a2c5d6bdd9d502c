use freezable::{Freezable, Frozen, FrozenMutRef, Unfreezable};
use std::cell::{Cell, RefCell};

#[test]
fn shared_borrow_freezes_to_itself() {
    let value = 5u32;
    let carrier = (&value).freeze();
    assert_eq!(**carrier, 5);
    let back = carrier.thaw::<&u32>();
    assert!(std::ptr::eq(back, &value));
}

#[test]
fn exclusive_borrow_downgrades_and_comes_back() {
    let mut v = 5u32;
    {
        let carrier = (&mut v).freeze();
        assert_eq!(**carrier, 5);
        let back = carrier.thaw::<&mut u32>();
        assert_eq!(*back, 5);
        *back = 6;
    }
    assert_eq!(v, 6);
}

#[test]
fn exclusive_borrow_thaws_into_a_shared_borrow() {
    let mut v = 5u32;
    {
        let carrier = (&mut v).freeze();
        let back = carrier.thaw::<&u32>();
        assert_eq!(*back, 5);
    }
    v += 1;
    assert_eq!(v, 6);
}

#[test]
fn frozen_mut_ref_reads_the_referent() {
    let mut v = 5u32;
    let frozen: FrozenMutRef<u32> = (&mut v).freeze().into_inner();
    assert_eq!(*frozen, 5);
    let shown = format!("{:?}", frozen);
    assert_eq!(shown, "FrozenMutRef(5)");
}

#[test]
fn exclusive_borrow_thaw_through_the_trait() {
    let mut v = 9u8;
    let carrier: Frozen<&mut u8> = (&mut v).freeze();
    let back = <&mut u8 as Unfreezable<&mut u8>>::thaw(carrier.into_inner());
    *back += 1;
    assert_eq!(v, 10);
}

#[test]
fn box_freezes_as_its_content() {
    let carrier = Box::new(5u32).freeze();
    assert_eq!(*carrier, 5);
    let plain = 5u32.freeze();
    assert_eq!(*carrier, *plain);
}

#[test]
fn box_thaws_into_a_fresh_box() {
    let frozen = Box::new((1u8, 'a')).freeze();
    let back = Frozen::<(u8, char)>::new(frozen.into_inner()).thaw::<Box<(u8, char)>>();
    assert_eq!(*back, (1, 'a'));
    let from_plain = 5u32.freeze().thaw::<Box<u32>>();
    assert_eq!(*from_plain, 5);
}

#[test]
fn cell_freezes_what_it_holds() {
    let cell = Cell::new(5u32);
    cell.set(7);
    let carrier = cell.freeze();
    assert_eq!(*carrier, 7);
}

#[test]
fn cell_thaws_into_a_fresh_cell() {
    let back = 5u32.freeze().thaw::<Cell<u32>>();
    assert_eq!(back.get(), 5);
    back.set(6);
    assert_eq!(back.into_inner(), 6);
}

#[test]
fn ref_cell_freezes_what_it_holds() {
    let cell = RefCell::new(vec![1u8, 2]);
    cell.borrow_mut().push(3);
    let carrier = cell.freeze();
    assert_eq!(carrier.len(), 3);
    assert_eq!(*carrier[2], 3);
}

#[test]
fn ref_cell_thaws_into_a_fresh_cell() {
    let back = 5u32.freeze().thaw::<RefCell<u32>>();
    assert_eq!(*back.borrow(), 5);
    *back.borrow_mut() = 8;
    assert_eq!(back.into_inner(), 8);
}

#[test]
fn cell_of_pair_thaws_component_by_component() {
    let frozen = Cell::new((1u8, true)).freeze();
    let back = Frozen::<(u8, bool)>::new(frozen.into_inner()).thaw::<Cell<(u8, bool)>>();
    assert_eq!(back.into_inner(), (1, true));
}
