//! Events and initialization.
use synthizer::{
    initialize, shutdown, with_witness, Context, EngineCall, Error, Event, EventType, LibraryConfig,
    LogLevel, LoggingBackend, RawEvent, RawEventKind, ToSyzHandle, UserdataTable, Witness,
};

#[test]
fn an_empty_queue_gives_no_event() {
    let ctx = Context::new(0, 1, "").unwrap();
    let events = ctx.get_events();
    assert_eq!(events.context_handle(), 1);
    let raw = RawEvent { kind: RawEventKind::Invalid, source: 0, context: 0, param: 0 };
    assert!(matches!(events.get_next(0, raw, ""), Ok(None)));
}

#[test]
fn events_carry_new_handles() {
    let ctx = Context::new(0, 1, "").unwrap();
    let events = ctx.get_events();
    let raw = RawEvent { kind: RawEventKind::Finished, source: 8, context: 1, param: 0 };
    let (event, owed) = events.get_next(0, raw, "").unwrap().unwrap();
    assert_eq!(event.source.to_syz_handle(), 8);
    assert_eq!(event.context.as_ref().unwrap().to_syz_handle(), 1);
    assert_eq!(event.event_type, EventType::Finished);
    assert_eq!(owed, vec![EngineCall::IncRef(8), EngineCall::IncRef(1)]);

    let raw = RawEvent { kind: RawEventKind::Looped, source: 8, context: 0, param: 0 };
    let (event, owed) = events.get_next(0, raw, "").unwrap().unwrap();
    assert!(event.context.is_none());
    assert_eq!(event.event_type, EventType::Looped);
    assert_eq!(owed, vec![EngineCall::IncRef(8)]);

    let raw = RawEvent { kind: RawEventKind::UserAutomation, source: 8, context: 1, param: 55 };
    let (event, _) = events.get_next(0, raw, "").unwrap().unwrap();
    assert_eq!(event.event_type, EventType::UserAutomation { param: 55 });
}

#[test]
fn bad_polls_are_errors() {
    let ctx = Context::new(0, 1, "").unwrap();
    let events = ctx.get_events();
    let raw = RawEvent { kind: RawEventKind::Finished, source: 8, context: 1, param: 0 };
    let e = events.get_next(6, raw, "context is gone").unwrap_err();
    assert_eq!(e.message(), "context is gone");
    assert_eq!(e.code(), 6);
}

fn polled(ctx: &Context, kind: RawEventKind) -> Result<Option<Event>, Error> {
    let raw = RawEvent { kind, source: 8, context: 0, param: 0 };
    ctx.get_events().get_next(0, raw, "").map(|found| found.map(|pair| pair.0))
}

#[test]
fn iteration_stops_for_good_at_the_first_error() {
    let ctx = Context::new(0, 1, "").unwrap();
    let mut events = ctx.get_events();
    assert!(!events.is_errored());
    assert!(matches!(events.next(polled(&ctx, RawEventKind::Finished)), Some(Ok(_))));
    assert!(events.next(polled(&ctx, RawEventKind::Invalid)).is_none());
    assert!(!events.is_errored());
    assert!(matches!(events.next(polled(&ctx, RawEventKind::Looped)), Some(Ok(_))));
    assert!(matches!(events.next(Err(Error::rust_error("poll failed"))), Some(Err(_))));
    assert!(events.is_errored());
    assert!(events.next(polled(&ctx, RawEventKind::Finished)).is_none());
    assert!(events.is_errored());
}

#[test]
fn initialization_sets_the_witness() {
    let mut witness = Witness::new();
    assert!(!witness.initialized());
    let e = initialize(&mut witness, 1, "no audio device").unwrap_err();
    assert_eq!(e.message(), "no audio device");
    assert!(!witness.initialized());
    let guard = initialize(&mut witness, 0, "").unwrap();
    assert!(witness.initialized());
    witness.shutdown(guard);
    assert!(!witness.initialized());
}

#[test]
fn with_witness_runs_only_when_initialized() {
    let mut witness = Witness::new();
    let mut ran = false;
    let r: Result<u8, Error> = with_witness(&witness, || {
        ran = true;
        Ok(1)
    });
    assert_eq!(r.unwrap_err().message(), "Synthizer is not initialized");
    assert!(!ran);
    let _guard = initialize(&mut witness, 0, "").unwrap();
    let r: Result<u8, Error> = with_witness(&witness, || Ok(1));
    assert_eq!(r.unwrap(), 1);
    let r: Result<u8, Error> = with_witness(&witness, || Err(Error::rust_error("inner")));
    assert_eq!(r.unwrap_err().message(), "inner");
}

#[test]
fn library_config() {
    let mut config = LibraryConfig::new();
    assert_eq!(config.get_log_level(), LogLevel::Error);
    assert_eq!(config.get_logging_backend(), LoggingBackend::Disabled);
    assert_eq!(config.get_libsndfile_path(), None);
    config.log_level(LogLevel::Debug);
    config.log_to_stderr();
    assert_eq!(config.get_log_level(), LogLevel::Debug);
    assert_eq!(config.get_logging_backend(), LoggingBackend::Stderr);
    let e = config.load_libsndfile("lib\0sndfile.so").unwrap_err();
    assert_eq!(e.message(), "Unable to convert path to C string");
    assert_eq!(config.get_libsndfile_path(), None);
    config.load_libsndfile("libsndfile.so").unwrap();
    assert_eq!(config.get_libsndfile_path(), Some("libsndfile.so"));
    let mut witness = Witness::new();
    assert!(config.initialize(&mut witness, 0, "").is_ok());
    assert!(witness.initialized());
    let mut witness = Witness::new();
    assert!(LibraryConfig::default().initialize(&mut witness, 2, "failed").is_err());
    assert!(!witness.initialized());
}

#[test]
fn shutdown_clears_the_witness_and_the_table() {
    let mut witness = Witness::new();
    let guard = initialize(&mut witness, 0, "").unwrap();
    let mut table: UserdataTable<u32> = UserdataTable::with_gc_threshold(5);
    table.register(1);
    table.set(1, Some(9));
    table.register(2);
    shutdown(&mut witness, guard, &mut table);
    assert!(!witness.initialized());
    assert_eq!(table.len(), 0);
    assert_eq!(table.refcount(1), None);
    assert!(!table.has_userdata(1));
    // The table is still usable.
    table.register(3);
    assert_eq!(table.refcount(3), Some(1));
}
