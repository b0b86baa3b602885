use bcc_c::handle::{Handle, HandleTable};

#[test]
fn a_new_table_holds_nothing() {
    let table: HandleTable<u32> = HandleTable::new();
    assert!(!table.contains(Handle::null()));
    assert!(!table.contains(Handle { index: 0, generation: 0 }));
}

#[test]
fn created_objects_live_under_distinct_handles() {
    let mut table: HandleTable<String> = HandleTable::new();
    let a = table.create(String::from("first"));
    let b = table.create(String::from("second"));
    assert_ne!(a, b);
    assert!(table.contains(a));
    assert!(table.contains(b));
    assert_eq!(table.get(a), "first");
    assert_eq!(table.get(b), "second");
}

#[test]
fn destroy_hands_the_object_back_and_retires_the_handle() {
    let mut table: HandleTable<u32> = HandleTable::new();
    let a = table.create(7);
    let b = table.create(9);
    assert_eq!(table.destroy(a), 7);
    assert!(!table.contains(a));
    assert!(table.contains(b));
    assert_eq!(*table.get(b), 9);
}

#[test]
fn a_retired_handle_is_not_valid_again_when_its_slot_is_reused() {
    let mut table: HandleTable<u32> = HandleTable::new();
    let a = table.create(1);
    table.destroy(a);
    let b = table.create(2);
    assert_ne!(a, b);
    assert_eq!(b.index, a.index);
    assert!(!table.contains(a));
    assert!(table.contains(b));
    assert_eq!(*table.get(b), 2);
}

#[test]
fn create_then_destroy_leaves_what_was_alive() {
    let mut table: HandleTable<u32> = HandleTable::new();
    let kept = table.create(10);
    let passing = table.create(20);
    assert_eq!(table.destroy(passing), 20);
    assert!(table.contains(kept));
    assert_eq!(*table.get(kept), 10);
    assert!(!table.contains(passing));
}

#[test]
fn the_null_handle_is_never_issued() {
    let mut table: HandleTable<u8> = HandleTable::new();
    let mut i: u8 = 0;
    while i < 50 {
        let h = table.create(i);
        assert!(!h.is_null());
        assert_ne!(h, Handle::null());
        if i % 2 == 0 {
            table.destroy(h);
        }
        i += 1;
    }
    assert!(!table.contains(Handle::null()));
    assert!(Handle::null().is_null());
}

#[test]
fn a_handle_of_another_generation_is_not_alive() {
    let mut table: HandleTable<u32> = HandleTable::new();
    let a = table.create(5);
    let forged = Handle { index: a.index, generation: a.generation + 1 };
    assert!(!table.contains(forged));
    let beyond = Handle { index: a.index + 1, generation: a.generation };
    assert!(!table.contains(beyond));
}
