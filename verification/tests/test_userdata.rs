//! Userdata can be set, retrieved, and is dropped when the object dies.
use std::any::Any;
use std::sync::atomic::{AtomicBool, Ordering};
use std::sync::Arc;
use synthizer::{initialize, Context, ToSyzHandle, UserdataTable, Witness};

struct UserdataStruct(Arc<AtomicBool>);

impl Drop for UserdataStruct {
    fn drop(&mut self) {
        self.0.store(true, Ordering::Relaxed);
    }
}

type Payload = Arc<dyn Any + Send + Sync>;

#[test]
fn test_userdata_drops() {
    let did_drop = Arc::new(AtomicBool::new(false));
    {
        let mut witness = Witness::new();
        let guard = initialize(&mut witness, 0, "").expect("initialization succeeded");
        let mut table: UserdataTable<Payload> = UserdataTable::new();
        let context = Context::new(0, 1, "").expect("the constructor call succeeded");
        table.register(context.to_syz_handle());
        let payload: Payload = Arc::new(UserdataStruct(did_drop.clone()));
        context
            .set_userdata(&witness, &mut table, Some(payload))
            .expect("the engine is initialized");
        let ud = context
            .get_userdata(&witness, &table)
            .expect("the engine is initialized")
            .cloned();
        let ud = ud.expect("Should have userdata");
        assert!(ud.downcast::<UserdataStruct>().is_ok());
        assert!(!did_drop.load(Ordering::Relaxed));
        table.clear();
        witness.shutdown(guard);
    }
    assert!(did_drop.load(Ordering::Relaxed));
}

#[test]
fn userdata_needs_an_initialized_engine() {
    let witness = Witness::new();
    let mut table: UserdataTable<u32> = UserdataTable::new();
    let context = Context::new(0, 1, "").unwrap();
    table.register(1);
    let err = context.set_userdata(&witness, &mut table, Some(5)).unwrap_err();
    assert_eq!(err.message(), "Synthizer is not initialized");
    assert_eq!(err.code(), 0);
    assert!(!table.has_userdata(1));
    let err = context.get_userdata(&witness, &table).unwrap_err();
    assert_eq!(err.message(), "Synthizer is not initialized");
}

#[test]
fn userdata_round_trip() {
    let mut table: UserdataTable<String> = UserdataTable::new();
    table.register(7);
    assert_eq!(table.get(7), None);
    table.set(7, Some("payload".to_string()));
    assert_eq!(table.get(7), Some(&"payload".to_string()));
    table.set(7, None);
    assert_eq!(table.get(7), None);
    assert_eq!(table.refcount(7), Some(1));
}

#[test]
fn userdata_refcounting() {
    let mut table: UserdataTable<u32> = UserdataTable::new();
    table.register(3);
    table.register(3);
    table.set(3, Some(11));
    assert!(!table.unregister(3));
    assert_eq!(table.refcount(3), Some(1));
    assert_eq!(table.get(3), Some(&11));
    assert!(!table.unregister(3));
    assert_eq!(table.refcount(3), Some(0));
    assert!(!table.has_userdata(3));
    assert_eq!(table.len(), 1);
}

#[test]
fn userdata_end_to_end() {
    let mut table: UserdataTable<i32> = UserdataTable::with_gc_threshold(2);
    table.register(1);
    table.set(1, Some(42));
    assert_eq!(table.get(1), Some(&42));
    // Two more objects stay alive, so that the table is over its threshold.
    table.register(2);
    table.register(3);
    let should_gc = table.unregister(1);
    assert!(should_gc);
    assert_eq!(table.refcount(1), Some(0));
    assert!(!table.has_userdata(1));
    assert_eq!(table.len(), 3);
    table.gc();
    assert_eq!(table.refcount(1), None);
    assert_eq!(table.len(), 2);
    assert_eq!(table.refcount(2), Some(1));
    assert_eq!(table.refcount(3), Some(1));
}

#[test]
fn gc_is_not_asked_for_below_the_threshold() {
    let mut table: UserdataTable<i32> = UserdataTable::new();
    table.register(1);
    assert!(!table.unregister(1));
    table.gc();
    assert_eq!(table.len(), 0);
}
