use p2p_node::handles::{Handle, HandleTable};

#[test]
fn insert_then_get() {
    let mut t: HandleTable<String> = HandleTable::new();
    let a = t.insert("a".to_string()).unwrap();
    let b = t.insert("b".to_string()).unwrap();
    assert_ne!(a, b);
    assert_eq!(t.get(a), Some(&"a".to_string()));
    assert_eq!(t.get(b), Some(&"b".to_string()));
}

#[test]
fn unknown_handle_is_rejected() {
    let t: HandleTable<u32> = HandleTable::new();
    assert_eq!(t.get(Handle { index: 0, generation: 0 }), None);
    assert_eq!(t.get(Handle { index: 7, generation: 3 }), None);
}

#[test]
fn removed_handle_is_rejected() {
    let mut t: HandleTable<u32> = HandleTable::new();
    let a = t.insert(10).unwrap();
    assert_eq!(t.remove(a), Some(10));
    assert_eq!(t.get(a), None);
    assert_eq!(t.remove(a), None);
}

#[test]
fn reused_slot_gets_new_generation() {
    let mut t: HandleTable<u32> = HandleTable::new();
    let a = t.insert(1).unwrap();
    t.remove(a);
    let b = t.insert(2).unwrap();
    assert_eq!(b.index, a.index);
    assert_eq!(b.generation, a.generation + 1);
    assert_eq!(t.get(a), None);
    assert_eq!(t.get(b), Some(&2));
}

#[test]
fn removal_leaves_other_handles_alone() {
    let mut t: HandleTable<u32> = HandleTable::new();
    let a = t.insert(1).unwrap();
    let b = t.insert(2).unwrap();
    t.remove(a);
    assert_eq!(t.get(b), Some(&2));
    let c = t.insert(3).unwrap();
    assert_eq!(t.get(c), Some(&3));
    assert_eq!(t.get(b), Some(&2));
}
