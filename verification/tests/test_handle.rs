//! Handles and the reference-count calls that they owe the engine.
use synthizer::{EngineCall, Handle, HandleRef, ObjectType, ToSyzHandle, UserdataTable};

/// Stands in for the engine: counts the calls that are performed on it.
struct CountingEngine {
    increments: u64,
    decrements: u64,
}

impl CountingEngine {
    fn perform(&mut self, call: EngineCall) {
        match call {
            EngineCall::IncRef(_) => self.increments += 1,
            EngineCall::DecRef(_) => self.decrements += 1,
        }
    }
}

#[test]
fn new_wraps_without_a_call() {
    let h = Handle::new(17);
    assert_eq!(h.to_syz_handle(), 17);
    assert_eq!(h.handle().to_syz_handle(), 17);
    assert_eq!(h.handle_ref().to_syz_handle(), 17);
    assert_eq!(h.into_handle().to_syz_handle(), 17);
}

#[test]
fn clone_owes_an_increment_and_release_a_decrement() {
    let h = Handle::new(5);
    let (second, call) = h.clone_ref();
    assert_eq!(second.to_syz_handle(), 5);
    assert_eq!(call, EngineCall::IncRef(5));
    assert_eq!(second.release(), EngineCall::DecRef(5));
    assert_eq!(h.release(), EngineCall::DecRef(5));
}

#[test]
fn clones_and_drops_balance() {
    let n = 10;
    let mut engine = CountingEngine { increments: 0, decrements: 0 };
    let first = Handle::new(1);
    let mut copies = Vec::new();
    for _ in 0..n {
        let (copy, call) = first.clone_ref();
        engine.perform(call);
        copies.push(copy);
    }
    copies.push(first);
    for h in copies {
        engine.perform(h.release());
    }
    assert_eq!(engine.increments, n);
    assert_eq!(engine.decrements, n + 1);
}

#[test]
fn table_follows_the_calls() {
    let mut table: UserdataTable<u8> = UserdataTable::new();
    let first = table.adopt(9);
    assert_eq!(table.refcount(9), Some(1));
    let (copy, call) = table.clone_handle(&first);
    assert_eq!(call, EngineCall::IncRef(9));
    assert_eq!(table.refcount(9), Some(2));
    let (call, should_gc) = table.drop_handle(copy);
    assert_eq!(call, EngineCall::DecRef(9));
    assert!(!should_gc);
    assert_eq!(table.refcount(9), Some(1));
    assert!(!table.record(EngineCall::IncRef(9)));
    assert_eq!(table.refcount(9), Some(2));
    assert!(!table.record(EngineCall::DecRef(9)));
    let (_, _) = table.drop_handle(first);
    assert_eq!(table.refcount(9), Some(0));
}

#[test]
fn get_type_reads_the_reply() {
    let h = Handle::new(2);
    assert_eq!(h.get_type(0, 0, "").unwrap(), ObjectType::Context);
    assert_eq!(h.get_type(0, 2, "").unwrap(), ObjectType::BufferGenerator);
    assert_eq!(h.get_type(0, 13, "").unwrap(), ObjectType::FastSineBankGenerator);
    let e = h.get_type(0, 14, "").unwrap_err();
    assert_eq!(e.message(), "Unknown object type");
    assert_eq!(e.code(), 0);
    let e = h.get_type(7, 2, "the library is not initialized").unwrap_err();
    assert_eq!(e.message(), "the library is not initialized");
    assert_eq!(e.code(), 7);
}
