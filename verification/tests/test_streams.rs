//! Custom streams: the callbacks, and who cleans a definition up.
use std::cell::Cell;
use std::rc::Rc;
use synthizer::{
    close_cb, destroy_cb, open_outcome, read_outcome, register_stream_protocol, seek_cb,
    status_outcome, stream_open_callback, stream_read_cb, CloseStream, CustomStreamDef,
    EngineCall, MemoryStream, SeekFrom, SeekableStream, Stream, StreamHandle, StreamState,
};

/// What happened to a `Recorder`.
#[derive(Default)]
struct Journal {
    closes: Cell<u32>,
    drops: Cell<u32>,
    closed_before_drop: Cell<bool>,
}

/// A stream over memory that writes down when it is closed and dropped, and
/// fails where it is told to.
struct Recorder {
    inner: MemoryStream,
    journal: Rc<Journal>,
    fail_reads: bool,
    fail_close: bool,
    fail_seek_to_end: bool,
}

impl Recorder {
    fn new(data: Vec<u8>, journal: &Rc<Journal>) -> Recorder {
        Recorder {
            inner: MemoryStream::new(data),
            journal: journal.clone(),
            fail_reads: false,
            fail_close: false,
            fail_seek_to_end: false,
        }
    }
}

impl Drop for Recorder {
    fn drop(&mut self) {
        self.journal.closed_before_drop.set(self.journal.closes.get() > 0);
        self.journal.drops.set(self.journal.drops.get() + 1);
    }
}

impl CloseStream for Recorder {
    fn close(&mut self) -> Result<(), String> {
        self.journal.closes.set(self.journal.closes.get() + 1);
        if self.fail_close {
            Err("close failed".to_string())
        } else {
            Ok(())
        }
    }
}

impl Stream for Recorder {
    fn read(&mut self, requested: usize) -> Result<Vec<u8>, String> {
        if self.fail_reads {
            Err("read failed".to_string())
        } else {
            self.inner.read(requested)
        }
    }
}

impl SeekableStream for Recorder {
    fn seek(&mut self, pos: SeekFrom) -> Result<u64, String> {
        if self.fail_seek_to_end && matches!(pos, SeekFrom::End(_)) {
            Err("seek failed".to_string())
        } else {
            self.inner.seek(pos)
        }
    }
}

#[test]
fn dropping_an_unconsumed_definition_closes_then_destroys_once() {
    let journal = Rc::new(Journal::default());
    let mut def = CustomStreamDef::from_seekable(Recorder::new(vec![1, 2, 3], &journal))
        .ok()
        .expect("the probe succeeds");
    assert_eq!(def.state(), StreamState::Unconsumed);
    assert_eq!(def.length(), 3);
    assert!(def.is_seekable());
    def.drop_def();
    assert_eq!(def.state(), StreamState::LocallyDropped);
    assert_eq!(journal.closes.get(), 1);
    assert_eq!(journal.drops.get(), 1);
    assert!(journal.closed_before_drop.get());
    // A second drop finds nothing left to do.
    def.drop_def();
    assert_eq!(journal.closes.get(), 1);
    assert_eq!(journal.drops.get(), 1);
}

#[test]
fn a_consumed_definition_is_left_to_the_engine() {
    let journal = Rc::new(Journal::default());
    let mut def = CustomStreamDef::from_reader(Recorder::new(vec![1, 2, 3], &journal));
    assert_eq!(def.length(), -1);
    assert!(!def.is_seekable());
    let handle = StreamHandle::from_stream_def(&mut def, 0, 77, "").expect("the engine took it");
    assert_eq!(handle.get_handle(), 77);
    assert_eq!(def.state(), StreamState::Consumed);
    def.drop_def();
    assert_eq!(journal.closes.get(), 0);
    assert_eq!(journal.drops.get(), 0);
    // The engine closes and destroys through the callbacks.
    assert_eq!(close_cb(&mut def), 0);
    destroy_cb(&mut def);
    assert_eq!(journal.closes.get(), 1);
    assert_eq!(journal.drops.get(), 1);
    assert_eq!(handle.release(), EngineCall::DecRef(77));
}

#[test]
fn a_failed_constructor_cleans_the_definition_up() {
    let journal = Rc::new(Journal::default());
    let mut def = CustomStreamDef::from_reader(Recorder::new(vec![1, 2, 3], &journal));
    let err = StreamHandle::from_stream_def(&mut def, 4, 0, "no such device").err().unwrap();
    assert_eq!(err.message(), "no such device");
    assert_eq!(err.code(), 4);
    assert_eq!(def.state(), StreamState::LocallyDropped);
    assert_eq!(journal.closes.get(), 1);
    assert_eq!(journal.drops.get(), 1);
}

#[test]
fn read_callback_hands_out_the_bytes() {
    let mut def = CustomStreamDef::from_reader(MemoryStream::new(vec![10, 20, 30, 40, 50]));
    assert_eq!(def.error_message(), &vec![0u8]);
    assert_eq!(stream_read_cb(&mut def, 2), (0, vec![10, 20]));
    assert_eq!(stream_read_cb(&mut def, 10), (0, vec![30, 40, 50]));
    assert_eq!(stream_read_cb(&mut def, 10), (0, vec![]));
    assert_eq!(def.error_message(), &vec![0u8]);
}

#[test]
fn seek_callback_moves_the_stream() {
    let mut def = CustomStreamDef::from_seekable(MemoryStream::new(vec![10, 20, 30, 40, 50]))
        .ok()
        .unwrap();
    assert_eq!(def.length(), 5);
    assert_eq!(seek_cb(&mut def, 3), 0);
    assert_eq!(stream_read_cb(&mut def, 10), (0, vec![40, 50]));
    assert_eq!(seek_cb(&mut def, 0), 0);
    assert_eq!(stream_read_cb(&mut def, 1), (0, vec![10]));
}

#[test]
fn a_failing_read_fills_the_error_slot() {
    let journal = Rc::new(Journal::default());
    let mut recorder = Recorder::new(vec![1, 2, 3], &journal);
    recorder.fail_reads = true;
    recorder.fail_close = true;
    let mut def = CustomStreamDef::from_reader(recorder);
    let (status, bytes) = stream_read_cb(&mut def, 2);
    assert_eq!(status, 1);
    assert!(bytes.is_empty());
    assert_eq!(def.error_message().as_slice(), b"read failed\0");
    def.mark_used();
    assert_eq!(close_cb(&mut def), 1);
    assert_eq!(def.error_message().as_slice(), b"close failed\0");
}

#[test]
fn outcomes_follow_the_result() {
    let mut def = CustomStreamDef::from_reader(MemoryStream::new(vec![1]));
    assert_eq!(read_outcome(&mut def, Ok(vec![9, 8])), (0, vec![9, 8]));
    assert_eq!(read_outcome(&mut def, Err("broken pipe".to_string())), (1, vec![]));
    assert_eq!(def.error_message().as_slice(), b"broken pipe\0");
    assert_eq!(status_outcome(&mut def, Ok::<u64, String>(4)), 0);
    assert_eq!(def.error_message().as_slice(), b"broken pipe\0");
    assert_eq!(status_outcome(&mut def, Err::<u64, String>("bad seek".to_string())), 1);
    assert_eq!(def.error_message().as_slice(), b"bad seek\0");
    def.conv_err("last");
    assert_eq!(def.error_message().as_slice(), b"last\0");
}

#[test]
fn a_failed_probe_gives_the_resource_back() {
    let journal = Rc::new(Journal::default());
    let mut recorder = Recorder::new(vec![1, 2, 3], &journal);
    recorder.fail_seek_to_end = true;
    recorder.inner.seek(SeekFrom::Start(2)).unwrap();
    match CustomStreamDef::from_seekable(recorder) {
        Ok(_) => panic!("the probe fails"),
        Err((text, resource)) => {
            assert_eq!(text, "seek failed");
            // The probe has sent the stream back to its start all the same.
            assert_eq!(resource.inner.stream_position(), 0);
            assert_eq!(journal.closes.get(), 0);
            assert_eq!(journal.drops.get(), 0);
        }
    }
}

#[test]
fn probed_lengths() {
    let def = CustomStreamDef::from_probed(MemoryStream::new(vec![]), Ok(12), Ok(0))
        .ok()
        .unwrap();
    assert_eq!(def.length(), 12);
    let r = CustomStreamDef::from_probed(MemoryStream::new(vec![]), Ok(1u64 << 63), Ok(0));
    assert_eq!(r.err().unwrap().0, "Stream length is out of range");
    let r = CustomStreamDef::from_probed(
        MemoryStream::new(vec![]),
        Ok(3),
        Err("rewind failed".to_string()),
    );
    assert_eq!(r.err().unwrap().0, "rewind failed");
    let r = CustomStreamDef::from_probed(
        MemoryStream::new(vec![]),
        Err("first".to_string()),
        Err("second".to_string()),
    );
    assert_eq!(r.err().unwrap().0, "first");
}

#[test]
fn stream_handles_from_memory() {
    let err = StreamHandle::from_vec(vec![], 0, 5, "").err().unwrap();
    assert_eq!(err.message(), "Cannot create streams from empty vecs");
    let err = StreamHandle::from_vec(vec![1], 2, 5, "out of memory").err().unwrap();
    assert_eq!(err.message(), "out of memory");
    assert_eq!(err.code(), 2);
    let h = StreamHandle::from_vec(vec![1, 2], 0, 5, "").ok().unwrap();
    assert_eq!(h.get_handle(), 5);
}

#[test]
fn stream_handles_from_params() {
    let err = StreamHandle::from_stream_params("fi\0le", "a.wav", 0, 0, 5, "").err().unwrap();
    assert_eq!(err.message(), "Unable to convert protocol to a C string");
    let err = StreamHandle::from_stream_params("file", "a\0.wav", 0, 0, 5, "").err().unwrap();
    assert_eq!(err.message(), "Unable to convert path to a C string");
    let err = StreamHandle::from_stream_params("file", "a.wav", 0, 9, 5, "not found").err().unwrap();
    assert_eq!(err.message(), "not found");
    let h = StreamHandle::from_stream_params("file", "a.wav", 0, 0, 5, "").ok().unwrap();
    assert_eq!(h.get_handle(), 5);
    assert!(StreamHandle::check_stream_params("file", "a.wav").is_ok());
}

#[test]
fn protocol_callback_hands_the_definition_to_the_engine() {
    let callback = |protocol: &str, path: &str, param: usize| -> Result<CustomStreamDef<MemoryStream>, String> {
        if protocol == "mem" && param == 3 {
            Ok(CustomStreamDef::from_reader(MemoryStream::new(path.as_bytes().to_vec())))
        } else {
            Err("unknown protocol".to_string())
        }
    };
    let mut def = stream_open_callback(&callback, "mem", "abc", 3).ok().unwrap();
    assert_eq!(def.state(), StreamState::Consumed);
    assert_eq!(stream_read_cb(&mut def, 8), (0, b"abc".to_vec()));
    let failed = stream_open_callback(&callback, "file", "abc", 3);
    assert_eq!(failed.err().unwrap(), "Unable to create stream");
}

#[test]
fn a_definition_that_is_not_fresh_cannot_be_opened() {
    let mut stale = CustomStreamDef::from_reader(MemoryStream::new(vec![1]));
    stale.drop_def();
    let r = open_outcome(Ok::<_, String>(stale));
    assert_eq!(r.err().unwrap(), "Unable to create stream");
}

#[test]
fn protocol_registration() {
    let kept = register_stream_protocol("mem", 5u32, 0, "").ok().unwrap();
    assert_eq!(kept, 5);
    let err = register_stream_protocol("me\0m", 5u32, 0, "").err().unwrap();
    assert_eq!(err.message(), "Unable to convert protocol to a C string");
    let err = register_stream_protocol("mem", 5u32, 3, "already registered").err().unwrap();
    assert_eq!(err.message(), "already registered");
    assert_eq!(err.code(), 3);
}

#[test]
fn close_callback_follows_the_resource() {
    let journal = Rc::new(Journal::default());
    let mut def = CustomStreamDef::from_reader(Recorder::new(vec![1], &journal));
    def.mark_used();
    // A read that failed before does not keep close from being called.
    def.conv_err("earlier failure");
    assert_eq!(close_cb(&mut def), 0);
    assert_eq!(journal.closes.get(), 1);
    assert_eq!(journal.drops.get(), 0);
    assert!(def.is_closed());
    assert!(def.is_alive());
    assert_eq!(def.error_message().as_slice(), b"earlier failure\0");
    destroy_cb(&mut def);
    assert_eq!(journal.drops.get(), 1);
    assert!(!def.is_alive());
}

#[test]
fn a_failing_close_on_drop_leaves_its_message() {
    let journal = Rc::new(Journal::default());
    let mut recorder = Recorder::new(vec![1], &journal);
    recorder.fail_close = true;
    let mut def = CustomStreamDef::from_reader(recorder);
    def.drop_def();
    assert_eq!(journal.closes.get(), 1);
    assert_eq!(journal.drops.get(), 1);
    assert_eq!(def.error_message().as_slice(), b"close failed\0");
}
