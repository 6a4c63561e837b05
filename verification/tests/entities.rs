use cretonne_entities::Ebb;
use cretonne_entities::ExpandedValue;
use cretonne_entities::Inst;
use cretonne_entities::JumpTable;
use cretonne_entities::StackSlot;
use cretonne_entities::Value;
use std::collections::hash_map::DefaultHasher;
use std::hash::Hash;
use std::hash::Hasher;

fn hash_of<T: Hash>(t: &T) -> u64 {
    let mut h = DefaultHasher::new();
    t.hash(&mut h);
    h.finish()
}

#[test]
fn value_with_number() {
    assert_eq!(Value::direct_with_number(0).unwrap().text(), "v0");
    assert_eq!(Value::direct_with_number(1).unwrap().text(), "v1");
    assert_eq!(Value::table_with_number(0).unwrap().text(), "vx0");
    assert_eq!(Value::table_with_number(1).unwrap().text(), "vx1");

    assert_eq!(Value::direct_with_number(u32::MAX / 2), None);
    assert_eq!(
        match Value::direct_with_number(u32::MAX / 2 - 1).unwrap().expand() {
            ExpandedValue::Direct(i) => i.index() as u32,
            _ => u32::MAX,
        },
        u32::MAX / 2 - 1
    );

    assert_eq!(Value::table_with_number(u32::MAX / 2), None);
    assert_eq!(
        match Value::table_with_number(u32::MAX / 2 - 1).unwrap().expand() {
            ExpandedValue::Table(i) => i as u32,
            _ => u32::MAX,
        },
        u32::MAX / 2 - 1
    );
}

#[test]
fn direct_numbers_expand_and_print() {
    for n in [0u32, 1, 2, 9, 10, 99, 100, 4096] {
        let v = Value::direct_with_number(n).unwrap();
        assert_eq!(v.expand(), ExpandedValue::Direct(Inst(n)));
        assert_eq!(v.text(), format!("v{}", n));
    }
    let top = Value::direct_with_number(u32::MAX / 2 - 1).unwrap();
    assert_eq!(top.text(), "v2147483646");
}

#[test]
fn table_numbers_expand_and_print() {
    for n in [0u32, 1, 2, 9, 10, 99, 100, 4096] {
        let v = Value::table_with_number(n).unwrap();
        assert_eq!(v.expand(), ExpandedValue::Table(n as usize));
        assert_eq!(v.text(), format!("vx{}", n));
    }
    let top = Value::table_with_number(u32::MAX / 2 - 1).unwrap();
    assert_eq!(top.text(), "vx2147483646");
}

#[test]
fn numbers_at_boundary_are_absent() {
    assert_eq!(Value::direct_with_number(u32::MAX / 2), None);
    assert_eq!(Value::table_with_number(u32::MAX / 2), None);
    assert_eq!(Value::direct_with_number(u32::MAX), None);
    assert_eq!(Value::table_with_number(u32::MAX), None);
    assert_eq!(Ebb::with_number(u32::MAX), None);
    assert_eq!(Ebb::with_number(u32::MAX - 1), Some(Ebb(u32::MAX - 1)));
}

#[test]
fn construction_paths_agree() {
    for k in [0u32, 1, 7, 1000, u32::MAX / 2 - 1] {
        let semantic = Value::new_direct(Inst::new(k as usize));
        let textual = Value::direct_with_number(k).unwrap();
        assert_eq!(semantic, textual);

        let semantic = Value::new_table(k as usize);
        let textual = Value::table_with_number(k).unwrap();
        assert_eq!(semantic, textual);
    }
}

#[test]
fn sentinel_value_is_absent() {
    let v = Value::default();
    assert!(matches!(v.expand(), ExpandedValue::Absent));
    assert_eq!(v.text(), "NO_VALUE");
}

#[test]
fn equal_indices_mean_equal_references() {
    assert_eq!(Ebb::new(4), Ebb::new(4));
    assert_eq!(hash_of(&Ebb::new(4)), hash_of(&Ebb::new(4)));
    assert_ne!(Ebb::new(4), Ebb::new(5));
    assert_ne!(Ebb::new(4), Ebb::default());

    assert_eq!(Inst::new(4), Inst::new(4));
    assert_eq!(hash_of(&Inst::new(4)), hash_of(&Inst::new(4)));
    assert_ne!(Inst::new(4), Inst::new(5));
    assert_ne!(Inst::new(4), Inst::default());

    assert_eq!(StackSlot::new(4), StackSlot::new(4));
    assert_eq!(hash_of(&StackSlot::new(4)), hash_of(&StackSlot::new(4)));
    assert_ne!(StackSlot::new(4), StackSlot::new(5));
    assert_ne!(StackSlot::new(4), StackSlot::default());

    assert_eq!(JumpTable::new(4), JumpTable::new(4));
    assert_eq!(hash_of(&JumpTable::new(4)), hash_of(&JumpTable::new(4)));
    assert_ne!(JumpTable::new(4), JumpTable::new(5));
    assert_ne!(JumpTable::new(4), JumpTable::default());

    assert_eq!(Value::new_direct(Inst::new(4)), Value::new_direct(Inst::new(4)));
    assert_eq!(
        hash_of(&Value::new_direct(Inst::new(4))),
        hash_of(&Value::new_direct(Inst::new(4)))
    );
    assert_ne!(Value::new_direct(Inst::new(4)), Value::new_table(4));
}

#[test]
fn defaults_are_sentinels() {
    assert_eq!(Ebb::default(), Ebb(u32::MAX));
    assert_eq!(Inst::default(), Inst(u32::MAX));
    assert_eq!(Value::default(), Value(u32::MAX));
    assert_eq!(StackSlot::default(), StackSlot(u32::MAX));
    assert_eq!(JumpTable::default(), JumpTable(u32::MAX));
}

#[test]
fn parsed_v3_round_trips() {
    let v = Value::direct_with_number(3).unwrap();
    match v.expand() {
        ExpandedValue::Direct(i) => assert_eq!(i.index(), 3),
        _ => panic!("expected a direct value"),
    }
    assert_eq!(v.text(), "v3");
}

#[test]
fn parsed_vx7_round_trips() {
    let v = Value::table_with_number(7).unwrap();
    match v.expand() {
        ExpandedValue::Table(i) => assert_eq!(i, 7),
        _ => panic!("expected a table value"),
    }
    assert_eq!(v.text(), "vx7");
}

#[test]
fn new_and_index_round_trip() {
    assert_eq!(Ebb::new(12).index(), 12);
    assert_eq!(Inst::new(7).index(), 7);
    assert_eq!(StackSlot::new(12).index(), 12);
    assert_eq!(JumpTable::new(12).index(), 12);
    assert_eq!(Ebb::new(u32::MAX as usize - 1).index(), u32::MAX as usize - 1);
}

#[test]
fn block_with_number_accepts_whole_domain() {
    let e = Ebb::with_number(0).unwrap();
    assert_eq!(e.index(), 0);
    assert_eq!(e.text(), "ebb0");
    let e = Ebb::with_number(u32::MAX - 1).unwrap();
    assert_eq!(e.index(), u32::MAX as usize - 1);
}

#[test]
fn textual_forms() {
    assert_eq!(Ebb::new(12).text(), "ebb12");
    assert_eq!(Inst::new(7).text(), "inst7");
    assert_eq!(StackSlot::new(12).text(), "ss12");
    assert_eq!(JumpTable::new(12).text(), "jt12");
    assert_eq!(Ebb::new(0).text(), "ebb0");
    assert_eq!(Ebb::new(1234567890).text(), "ebb1234567890");
    assert_eq!(Inst::new(1000000).text(), "inst1000000");
}
