//! Buffers, C strings and the stream over memory.
use synthizer::cstring::{is_c_string, to_c_string};
use synthizer::{
    BoxArena, Buffer, CloseStream, CustomStreamDef, EngineCall, Error, MemoryStream, SeekFrom,
    SeekableStream, Stream, StreamHandle, StreamState, ToSyzHandle,
};

#[test]
fn c_strings() {
    assert_eq!(to_c_string("abc"), Some(b"abc\0".to_vec()));
    assert_eq!(to_c_string(""), Some(vec![0]));
    assert_eq!(to_c_string("a\0c"), None);
    assert_eq!(to_c_string("\0"), None);
    assert_eq!(to_c_string("gr\u{fc}n"), Some(vec![b'g', b'r', 0xc3, 0xbc, b'n', 0]));
    assert!(is_c_string("abc"));
    assert!(!is_c_string("abc\0"));
}

#[test]
fn float_arrays_are_checked_in_order() {
    assert_eq!(Buffer::check_float_array(2, 8).unwrap(), 4);
    assert_eq!(Buffer::check_float_array(1, 1).unwrap(), 1);
    assert_eq!(
        Buffer::check_float_array(0, 0).unwrap_err().message(),
        "Cannot create a buffer from an empty array"
    );
    assert_eq!(Buffer::check_float_array(0, 4).unwrap_err().message(), "channels may not be 0");
    assert_eq!(
        Buffer::check_float_array(3, 4).unwrap_err().message(),
        "Length of data must be a multiple of the channel count"
    );
    assert_eq!(Buffer::from_float_array(44100, 2, 8, 0, 5, "").unwrap().to_syz_handle(), 5);
    assert_eq!(
        Buffer::from_float_array(44100, 2, 7, 0, 5, "").unwrap_err().message(),
        "Length of data must be a multiple of the channel count"
    );
    assert_eq!(
        Buffer::from_float_array(44100, 2, 8, 3, 5, "too large").unwrap_err().message(),
        "too large"
    );
}

#[test]
fn buffers_from_streams() {
    let sh = StreamHandle::from_vec(vec![1], 0, 20, "").ok().unwrap();
    let (r, call) = Buffer::from_stream_handle(sh, 0, 21, "");
    assert_eq!(r.unwrap().to_syz_handle(), 21);
    assert_eq!(call, EngineCall::DecRef(20));
    let sh = StreamHandle::from_vec(vec![1], 0, 20, "").ok().unwrap();
    let (r, call) = Buffer::from_stream_handle(sh, 1, 0, "not audio");
    assert_eq!(r.unwrap_err().message(), "not audio");
    assert_eq!(call, EngineCall::DecRef(20));
    assert!(Buffer::from_stream_params("file", "a.wav", 0, 0, 22, "").is_ok());
    assert_eq!(
        Buffer::from_stream_params("f\0", "a.wav", 0, 0, 22, "").unwrap_err().message(),
        "Unable to convert protocol to a C string"
    );
    assert_eq!(
        Buffer::from_stream_params("file", "\0", 0, 0, 22, "").unwrap_err().message(),
        "Unable to convert path to a C string"
    );
    let def = Buffer::from_read_seek(MemoryStream::new(vec![1, 2, 3, 4])).ok().unwrap();
    assert_eq!(def.length(), 4);
    assert!(def.is_seekable());
    assert_eq!(def.state(), StreamState::Unconsumed);
}

#[test]
fn memory_stream_reads_what_is_left() {
    let mut s = MemoryStream::new(vec![1, 2, 3, 4, 5]);
    assert_eq!(s.read(0).unwrap(), vec![]);
    assert_eq!(s.read(2).unwrap(), vec![1, 2]);
    assert_eq!(s.stream_position(), 2);
    assert_eq!(s.read(100).unwrap(), vec![3, 4, 5]);
    assert_eq!(s.stream_position(), 5);
    assert_eq!(s.read(1).unwrap(), vec![]);
    assert!(s.close().is_ok());
    assert_eq!(s.into_inner(), vec![1, 2, 3, 4, 5]);
}

#[test]
fn memory_stream_seeks() {
    let mut s = MemoryStream::new(vec![1, 2, 3, 4, 5]);
    assert_eq!(s.seek(SeekFrom::End(0)).unwrap(), 5);
    assert_eq!(s.seek(SeekFrom::End(-2)).unwrap(), 3);
    assert_eq!(s.read(5).unwrap(), vec![4, 5]);
    assert_eq!(s.seek(SeekFrom::Current(-4)).unwrap(), 1);
    assert_eq!(s.seek(SeekFrom::Current(2)).unwrap(), 3);
    assert_eq!(s.seek(SeekFrom::Start(9)).unwrap(), 9);
    assert_eq!(s.read(5).unwrap(), vec![]);
    assert_eq!(s.stream_position(), 9);
    let e = s.seek(SeekFrom::End(-6)).unwrap_err();
    assert_eq!(e, "invalid seek to a negative or overflowing position");
    assert_eq!(s.stream_position(), 9);
    assert!(s.seek(SeekFrom::Current(i64::MIN)).is_err());
    assert_eq!(s.seek(SeekFrom::Start(u64::MAX)).unwrap(), u64::MAX);
    assert!(s.seek(SeekFrom::Current(1)).is_err());
    assert_eq!(s.seek(SeekFrom::Current(-1)).unwrap(), u64::MAX - 1);
    assert_eq!(s.read(5).unwrap(), vec![]);
}

#[test]
fn buffer_queries_and_encoded_data() {
    let b = Buffer::from_encoded_data(10, 0, 3, "").unwrap();
    assert_eq!(b.to_syz_handle(), 3);
    assert_eq!(
        Buffer::from_encoded_data(0, 0, 3, "").unwrap_err().message(),
        "Cannot create a buffer from empty data"
    );
    assert_eq!(
        Buffer::from_encoded_data(10, 4, 3, "not audio").unwrap_err().message(),
        "not audio"
    );
    assert_eq!(b.get_length_in_samples(0, 44100, "").unwrap(), 44100);
    assert_eq!(b.get_channels(0, 2, "").unwrap(), 2);
    assert_eq!(b.get_size_in_bytes(0, 352800, "").unwrap(), 352800);
    assert_eq!(f64::from_bits(b.get_length_in_seconds(0, 1.0f64.to_bits(), "").unwrap()), 1.0);
    assert_eq!(b.get_channels(2, 0, "dead").unwrap_err().code(), 2);
    assert!(b.get_length_in_samples(2, 0, "dead").is_err());
    assert!(b.get_size_in_bytes(2, 0, "dead").is_err());
    assert!(b.get_length_in_seconds(2, 0, "dead").is_err());
}

/// A reader whose seeks fail.
struct Unseekable;

impl CloseStream for Unseekable {
    fn close(&mut self) -> Result<(), String> {
        Ok(())
    }
}

impl Stream for Unseekable {
    fn read(&mut self, _requested: usize) -> Result<Vec<u8>, String> {
        Ok(Vec::new())
    }
}

impl SeekableStream for Unseekable {
    fn seek(&mut self, pos: SeekFrom) -> Result<u64, String> {
        match pos {
            SeekFrom::End(_) => Err("not a file".to_string()),
            _ => Err("still not a file".to_string()),
        }
    }
}

#[test]
fn read_seek_probe_gives_the_length_at_the_start() {
    let mut reader = MemoryStream::new(vec![0u8; 10]);
    reader.seek(SeekFrom::Start(4)).unwrap();
    let mut def = Buffer::from_read_seek(reader).ok().unwrap();
    assert_eq!(def.length(), 10);
    assert!(def.is_seekable());
    assert_eq!(def.state(), StreamState::Unconsumed);
    // The reader is back at its start: a read gives the first bytes.
    assert_eq!(synthizer::stream_read_cb(&mut def, 3), (0, vec![0, 0, 0]));
    def.drop_def();
}

#[test]
fn read_seek_probe_failure_is_a_local_error_with_the_readers_text() {
    let e = Buffer::from_read_seek(Unseekable).err().unwrap();
    assert_eq!(e.message(), "not a file");
    assert_eq!(e.code(), 0);
}

fn stream_over(data: Vec<u8>, status: i32) -> Result<StreamHandle, Error> {
    let mut def: CustomStreamDef<MemoryStream> =
        Buffer::from_read_seek(MemoryStream::new(data)).ok().unwrap();
    let message = if status == 0 { "" } else { "no stream" };
    StreamHandle::from_stream_def(&mut def, status, 60, message)
}

#[test]
fn read_seek_buffer_needs_both_answers() {
    let mut arena: BoxArena<u8> = BoxArena::new();

    // The stream handle could not be made: the buffer call is never made.
    let mut called = false;
    let (r, call) = Buffer::from_read_seek_stream(stream_over(vec![1, 2], 7), &mut arena, |_, _| {
        called = true;
        Buffer::new(0, 61, "")
    });
    let e = r.unwrap_err();
    assert_eq!(e.message(), "no stream");
    assert_eq!(e.code(), 7);
    assert_eq!(call, None);
    assert!(!called);
    assert_eq!(arena.len(), 0);

    // The buffer could not be made: the box is freed, the stream given back.
    let mut seen = (0, 0);
    let (r, call) = Buffer::from_read_seek_stream(stream_over(vec![1, 2], 0), &mut arena, |s, t| {
        seen = (s, t);
        Buffer::new(3, 0, "not audio")
    });
    assert_eq!(r.unwrap_err().message(), "not audio");
    assert_eq!(call, Some(EngineCall::DecRef(60)));
    assert_eq!(seen.0, 60);
    assert!(!arena.contains(seen.1));
    assert_eq!(arena.len(), 0);

    // Both succeed: the box stays with the buffer, the stream is given back.
    let (r, call) = Buffer::from_read_seek_stream(stream_over(vec![1, 2], 0), &mut arena, |s, t| {
        seen = (s, t);
        Buffer::new(0, 62, "")
    });
    assert_eq!(r.unwrap().to_syz_handle(), 62);
    assert_eq!(call, Some(EngineCall::DecRef(60)));
    assert!(arena.contains(seen.1));
    assert_eq!(arena.len(), 1);
}
