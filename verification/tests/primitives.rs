use racy_cell::RacyCell;
use racy_cell::RecklessCell;
use racy_cell::SharedMut;

#[test]
fn racy_wrap_then_read() {
    let c = RacyCell::new(5u32);
    assert_eq!(*c.racy_ref(), 5u32);
}

#[test]
fn racy_wrap_then_read_string() {
    let c = RacyCell::new(String::from("hello"));
    assert_eq!(c.racy_ref().as_str(), "hello");
}

#[test]
fn racy_inner_reads_storage() {
    let c = RacyCell::new(11i64);
    assert_eq!(*c.racy_inner(), 11i64);
}

#[test]
fn pointer_round_trip() {
    let h = SharedMut::<u8>::new(0x1000);
    assert_eq!(h.get(), 0x1000);
}

#[test]
fn pointer_round_trip_null() {
    let h = SharedMut::<u64>::new(0);
    assert_eq!(h.get(), 0);
}

#[test]
fn pointer_copy_duplicates_address() {
    let h = SharedMut::<u16>::new(64);
    let h2 = h;
    assert_eq!(h.get(), 64);
    assert_eq!(h2.get(), 64);
    let h3 = h.clone();
    assert_eq!(h3.get(), 64);
}

#[test]
fn pointer_from_address() {
    let h = SharedMut::<u32>::from(7usize);
    assert_eq!(h.get(), 7);
}

#[test]
fn racy_mutation_observed_by_fresh_read() {
    let mut c = RacyCell::new(1u32);
    *c.racy_mut() = 2;
    assert_eq!(*c.racy_ref(), 2u32);
}

#[test]
fn racy_scenario_write_99() {
    let mut c = RacyCell::new(42i32);
    *c.racy_mut() = 99;
    assert_eq!(*c.racy_ref(), 99i32);
}

#[test]
fn racy_default_is_default_value() {
    let c: RacyCell<u64> = Default::default();
    assert_eq!(*c.racy_ref(), 0u64);
}

#[test]
fn racy_from_value() {
    let c = RacyCell::from(3u8);
    assert_eq!(*c.racy_ref(), 3u8);
}

#[test]
fn reckless_wrap_then_read() {
    let c = RecklessCell::new(13u32);
    assert_eq!(*c.reckless_ref(), 13u32);
    assert_eq!(*c.reckless_cell(), 13u32);
}

#[test]
fn reckless_inner_holds_same_value() {
    let c = RecklessCell::new(8u64);
    assert_eq!(*c.reckless_inner().racy_ref(), 8u64);
}

#[test]
fn reckless_mutation_observed_by_fresh_read() {
    let mut c = RecklessCell::new(10i16);
    *c.reckless_get_mut() = -4;
    assert_eq!(*c.reckless_ref(), -4i16);
    assert_eq!(*c.reckless_cell(), -4i16);
}

#[test]
fn reckless_default_is_default_value() {
    let c: RecklessCell<i32> = Default::default();
    assert_eq!(*c.reckless_ref(), 0i32);
}

#[test]
fn reckless_from_value() {
    let c = RecklessCell::from(String::from("abc"));
    assert_eq!(c.reckless_ref().as_str(), "abc");
}
