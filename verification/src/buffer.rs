//! Buffers of decoded audio.
use vstd::prelude::*;
use vstd::std_specs::convert::{FromSpec, FromSpecImpl};
use crate::casting::CastTarget;
use crate::cstring::is_c_text;
use crate::custom_streams::{
    fresh_def, probed_length, CustomStreamDef, SeekFrom, SeekableStream, StreamHandle,
    StreamState, BAD_PATH, BAD_PROTOCOL,
};
use crate::delete_config::{DeleteBehaviorCall, DeleteBehaviorConfig};
use crate::enums::{I32TransmutableEnum, ObjectType};
use crate::errors::{check_error, Error, STATUS_LOCAL, STATUS_OK};
use crate::handle::{
    call_owed, EngineCall, Handle, HandleOp, HandleRef, ToSyzHandle, UNKNOWN_TYPE,
};
use crate::initialization::{Witness, NOT_INITIALIZED};
use crate::userdata::{with_payload, UserdataTable};
use crate::userdata::{wrap_file_constructor, BoxArena, UserdataBox, PATH_HAS_NUL};

verus! {

/// A buffer of decoded audio data, shared by the generators that play it.
#[derive(Debug, PartialEq, Eq, PartialOrd, Ord, Hash)]
pub struct Buffer(pub(crate) Handle);

impl Buffer {
    /// The handle that this object holds.
    pub fn handle(&self) -> (r: &Handle)
        ensures
            r.id() == self.syz_handle(),
    {
        &self.0
    }

    /// Gives up the wrapper and keeps the handle.
    pub fn into_handle(self) -> (r: Handle)
        ensures
            r.id() == self.syz_handle(),
    {
        self.0
    }

    /// Reads the engine's answer to the constructor call for an object of
    /// this type: the status of the call, the identifier that it wrote, and
    /// the engine's last error message. On success the identifier carries
    /// one unit of the reference count, which the new wrapper owns.
    pub fn new(status: i32, id: u64, last_message: &str) -> (r: Result<Self, Error>)
        ensures
            r is Ok <==> status == STATUS_OK,
            r matches Ok(w) ==> w.syz_handle() == id,
            r matches Err(e) ==> e.is_error(status, last_message@),
    {
        match check_error(status, last_message) {
            Err(e) => Err(e),
            Ok(_) => Ok(Self::from_handle_internal(Handle::new(id))),
        }
    }

    /// Wraps a handle without looking at its tag. A handle of another kind
    /// of object gives a wrapper on which every engine call fails.
    pub(crate) fn from_handle_internal(h: Handle) -> (r: Self)
        ensures
            r.syz_handle() == h.id(),
    {
        Buffer(h)
    }

    /// A second wrapper around the same object, and the increment owed for
    /// it.
    pub fn clone_ref(&self) -> (r: (Self, EngineCall))
        ensures
            r.0.syz_handle() == self.syz_handle(),
            r.1 == call_owed(HandleOp::Clone, self.syz_handle()),
    {
        let (h, call) = self.0.clone_ref();
        (Buffer(h), call)
    }

    /// Gives the object up. The decrement owed for it is returned.
    pub fn release(self) -> (r: EngineCall)
        ensures
            r == call_owed(HandleOp::Drop, self.syz_handle()),
    {
        self.0.release()
    }

    /// Reads the engine's answer to a query of this object's type. See
    /// `Handle::get_type`.
    pub fn get_type(&self, status: i32, raw_tag: i32, last_message: &str) -> (r: Result<
        ObjectType,
        Error,
    >)
        ensures
            status != STATUS_OK ==> (r matches Err(e) && e.is_error(status, last_message@)),
            status == STATUS_OK ==> match ObjectType::decode(raw_tag) {
                Some(t) => r == Ok::<ObjectType, Error>(t),
                None => (r matches Err(e) && e.is_error(STATUS_LOCAL, UNKNOWN_TYPE@)),
            },
    {
        self.0.get_type(status, raw_tag, last_message)
    }

    /// The userdata of this object. See `Handle::get_userdata`.
    pub fn get_userdata<'a, P>(&self, witness: &Witness, table: &'a UserdataTable<P>) -> (r:
        Result<Option<&'a P>, Error>)
        requires
            witness.is_initialized() ==> table.is_live(self.syz_handle()),
        ensures
            r is Ok <==> witness.is_initialized(),
            r matches Ok(found) ==> match found {
                Some(p) => table@[self.syz_handle()].payload == Some(*p),
                None => table@[self.syz_handle()].payload is None,
            },
            r matches Err(e) ==> e.is_error(STATUS_LOCAL, NOT_INITIALIZED@),
    {
        self.0.get_userdata(witness, table)
    }

    /// Sets the userdata of this object, or clears it with `None`. See
    /// `Handle::set_userdata`.
    pub fn set_userdata<P>(
        &self,
        witness: &Witness,
        table: &mut UserdataTable<P>,
        userdata: Option<P>,
    ) -> (r: Result<(), Error>)
        requires
            old(table).wf(),
            witness.is_initialized() ==> old(table).is_live(self.syz_handle()),
        ensures
            final(table).wf(),
            final(table).threshold() == old(table).threshold(),
            r is Ok <==> witness.is_initialized(),
            r is Ok ==> final(table)@ == with_payload(old(table)@, self.syz_handle(), userdata),
            r matches Err(e) ==> e.is_error(STATUS_LOCAL, NOT_INITIALIZED@) && final(table)@
                == old(table)@,
    {
        self.0.set_userdata(witness, table, userdata)
    }

    /// The call that sets the delete behavior of this object.
    pub fn config_delete_behavior(&self, config: &DeleteBehaviorConfig) -> (r: DeleteBehaviorCall)
        ensures
            r == (DeleteBehaviorCall { target: self.syz_handle(), config: *config }),
    {
        self.0.config_delete_behavior(config)
    }

    /// Casts this object to the wrapper type `T`, given the engine's answer
    /// to the query of its tag. See `Handle::cast_to`.
    pub fn cast_to<T: CastTarget>(&self, tag: Result<ObjectType, Error>) -> (r: Result<
        Option<(T, EngineCall)>,
        Error,
    >)
        ensures
            match tag {
                Err(e) => r == Err::<Option<(T, EngineCall)>, Error>(e),
                Ok(t) => if T::accepts_tag(t) {
                    r matches Ok(Some(pair)) && pair.0.object_id() == self.syz_handle() && pair.1
                        == call_owed(HandleOp::Clone, self.syz_handle())
                } else {
                    r == Ok::<Option<(T, EngineCall)>, Error>(None)
                },
            },
    {
        T::cast_from(&self.0, tag)
    }
}

impl ToSyzHandle for Buffer {
    closed spec fn syz_handle(&self) -> u64 {
        self.0.id()
    }

    fn to_syz_handle(&self) -> (r: u64) {
        self.0.to_syz_handle()
    }
}

impl HandleRef for Buffer {
    fn handle_ref(&self) -> (r: &Handle) {
        &self.0
    }
}

impl CastTarget for Buffer {
    open spec fn accepts_tag(tag: ObjectType) -> bool {
        tag == ObjectType::Buffer
    }

    open spec fn object_id(&self) -> u64 {
        self.syz_handle()
    }

    fn accepts(tag: ObjectType) -> (r: bool) {
        match tag {
            ObjectType::Buffer => true,
            _ => false,
        }
    }

    fn cast_from(h: &Handle, tag: Result<ObjectType, Error>) -> (r: Result<
        Option<(Buffer, EngineCall)>,
        Error,
    >) {
        match tag {
            Err(e) => Err(e),
            Ok(t) => {
                if Self::accepts(t) {
                    let (second, call) = h.clone_ref();
                    Ok(Some((Self::from_handle_internal(second), call)))
                } else {
                    Ok(None)
                }
            },
        }
    }
}

impl From<Buffer> for Handle {
    fn from(input: Buffer) -> (r: Handle) {
        input.0
    }
}

impl FromSpecImpl<Buffer> for Handle {
    open spec fn obeys_from_spec() -> bool {
        true
    }

    closed spec fn from_spec(input: Buffer) -> Handle {
        input.0
    }
}

/// Converting a `Buffer` to
/// `Handle` keeps the object, and every tag
/// that `Buffer` accepts is accepted by what it converts to.
pub proof fn lemma_buffer_upcasts(w: Buffer)
    ensures
        <Handle as FromSpec<Buffer>>::from_spec(w).id() == w.syz_handle(),
        forall|tag: ObjectType|
            Buffer::accepts_tag(tag) ==> Handle::accepts_tag(tag),
{
}
/// The message of the error for a buffer over no samples.
pub const EMPTY_ARRAY: &'static str = "Cannot create a buffer from an empty array";

/// The message of the error for a buffer with no channels.
pub const ZERO_CHANNELS: &'static str = "channels may not be 0";

/// The message of the error for samples that do not fill whole frames.
pub const RAGGED_ARRAY: &'static str = "Length of data must be a multiple of the channel count";

/// The message of the error for a buffer decoded from no bytes.
pub const EMPTY_DATA: &'static str = "Cannot create a buffer from empty data";

/// The number of frames in `data_len` samples of `channels` channels, or
/// the message that says why such samples make no buffer: there are none,
/// there are no channels, or the last frame is not whole. The checks are
/// made in that order.
pub open spec fn frames_of(channels: u32, data_len: usize) -> Result<u64, Seq<char>> {
    if data_len == 0 {
        Err(EMPTY_ARRAY@)
    } else if channels == 0 {
        Err(ZERO_CHANNELS@)
    } else if data_len % (channels as usize) != 0 {
        Err(RAGGED_ARRAY@)
    } else {
        Ok((data_len / (channels as usize)) as u64)
    }
}

impl Buffer {
    /// Runs the constructor call that decodes the file at `path` into a
    /// buffer, with a fresh userdata box. See `wrap_file_constructor`.
    pub fn from_file<P, F: FnOnce(u64) -> Result<Buffer, Error>>(
        path: &str,
        arena: &mut BoxArena<P>,
        closure: F,
    ) -> (r: Result<Buffer, Error>)
        requires
            old(arena).wf(),
            old(arena).can_allocate(),
            is_c_text(path@) ==> closure.requires((old(arena).next_token(),)),
        ensures
            final(arena).wf(),
            !is_c_text(path@) ==> (r matches Err(e) && e.is_error(STATUS_LOCAL, PATH_HAS_NUL@)),
            is_c_text(path@) ==> closure.ensures((old(arena).next_token(),), r),
            r is Err ==> final(arena)@ == old(arena)@,
            r is Ok ==> final(arena)@ == old(arena)@.insert(
                old(arena).next_token(),
                UserdataBox { userdata: None, streaming_userdata: None },
            ),
            final(arena).next_token() == if is_c_text(path@) {
                old(arena).next_token() + 1
            } else {
                old(arena).next_token() as int
            },
    {
        wrap_file_constructor(path, arena, closure)
    }

    /// The number of frames in `data_len` samples of `channels` channels,
    /// or the error that says why such samples make no buffer.
    pub fn check_float_array(channels: u32, data_len: usize) -> (r: Result<u64, Error>)
        ensures
            match frames_of(channels, data_len) {
                Ok(frames) => r == Ok::<u64, Error>(frames),
                Err(text) => r matches Err(e) && e.is_error(STATUS_LOCAL, text),
            },
    {
        if data_len == 0 {
            return Err(Error::rust_error(EMPTY_ARRAY));
        }
        if channels == 0 {
            return Err(Error::rust_error(ZERO_CHANNELS));
        }
        if data_len % (channels as usize) != 0 {
            return Err(Error::rust_error(RAGGED_ARRAY));
        }
        Ok((data_len / (channels as usize)) as u64)
    }

    /// Reads the engine's answer to the creation of a buffer from
    /// `data_len` samples at the sample rate `sr`, interleaved over
    /// `channels` channels.
    ///
    /// Samples that make no buffer give a local error, whatever the answer
    /// says. Otherwise a failed status gives the engine's error.
    pub fn from_float_array(
        sr: u32,
        channels: u32,
        data_len: usize,
        status: i32,
        id: u64,
        last_message: &str,
    ) -> (r: Result<Buffer, Error>)
        ensures
            r is Ok <==> frames_of(channels, data_len) is Ok && status == STATUS_OK,
            r matches Ok(b) ==> b.syz_handle() == id,
            r matches Err(e) ==> match frames_of(channels, data_len) {
                Err(text) => e.is_error(STATUS_LOCAL, text),
                Ok(_) => e.is_error(status, last_message@),
            },
    {
        match Self::check_float_array(channels, data_len) {
            Err(e) => Err(e),
            Ok(_) => Self::new(status, id, last_message),
        }
    }

    /// Reads the engine's answer to the decoding of `data_len` bytes of
    /// encoded audio into a buffer. No bytes give a local error, whatever
    /// the answer says.
    pub fn from_encoded_data(data_len: usize, status: i32, id: u64, last_message: &str) -> (r:
        Result<Buffer, Error>)
        ensures
            r is Ok <==> data_len > 0 && status == STATUS_OK,
            r matches Ok(b) ==> b.syz_handle() == id,
            r matches Err(e) ==> if data_len == 0 {
                e.is_error(STATUS_LOCAL, EMPTY_DATA@)
            } else {
                e.is_error(status, last_message@)
            },
    {
        if data_len == 0 {
            return Err(Error::rust_error(EMPTY_DATA));
        }
        Self::new(status, id, last_message)
    }

    /// Reads the engine's answer to a query of the buffer's length in
    /// samples.
    pub fn get_length_in_samples(&self, status: i32, value: u32, last_message: &str) -> (r:
        Result<u32, Error>)
        ensures
            r is Ok <==> status == STATUS_OK,
            r matches Ok(v) ==> v == value,
            r matches Err(e) ==> e.is_error(status, last_message@),
    {
        match check_error(status, last_message) {
            Err(e) => Err(e),
            Ok(_) => Ok(value),
        }
    }

    /// Reads the engine's answer to a query of the buffer's length in
    /// seconds, which is given and returned as the bits of a double.
    pub fn get_length_in_seconds(&self, status: i32, value: u64, last_message: &str) -> (r:
        Result<u64, Error>)
        ensures
            r is Ok <==> status == STATUS_OK,
            r matches Ok(v) ==> v == value,
            r matches Err(e) ==> e.is_error(status, last_message@),
    {
        match check_error(status, last_message) {
            Err(e) => Err(e),
            Ok(_) => Ok(value),
        }
    }

    /// Reads the engine's answer to a query of the buffer's channel count.
    pub fn get_channels(&self, status: i32, value: u32, last_message: &str) -> (r: Result<
        u32,
        Error,
    >)
        ensures
            r is Ok <==> status == STATUS_OK,
            r matches Ok(v) ==> v == value,
            r matches Err(e) ==> e.is_error(status, last_message@),
    {
        match check_error(status, last_message) {
            Err(e) => Err(e),
            Ok(_) => Ok(value),
        }
    }

    /// Reads the engine's answer to a query of the buffer's size in bytes.
    pub fn get_size_in_bytes(&self, status: i32, value: u64, last_message: &str) -> (r: Result<
        u64,
        Error,
    >)
        ensures
            r is Ok <==> status == STATUS_OK,
            r matches Ok(v) ==> v == value,
            r matches Err(e) ==> e.is_error(status, last_message@),
    {
        match check_error(status, last_message) {
            Err(e) => Err(e),
            Ok(_) => Ok(value),
        }
    }

    /// Reads the engine's answer to the creation of a buffer from a stream
    /// handle. The buffer has read the stream to its end by then, so the
    /// stream handle is used up either way: the decrement owed for it is
    /// returned next to the result.
    pub fn from_stream_handle(
        handle: StreamHandle,
        status: i32,
        id: u64,
        last_message: &str,
    ) -> (r: (Result<Buffer, Error>, EngineCall))
        ensures
            r.0 is Ok <==> status == STATUS_OK,
            r.0 matches Ok(b) ==> b.syz_handle() == id,
            r.0 matches Err(e) ==> e.is_error(status, last_message@),
            r.1 == call_owed(HandleOp::Drop, handle.id()),
    {
        let call = handle.release();
        (Self::new(status, id, last_message), call)
    }

    /// Reads the engine's answer to the creation of a buffer from a
    /// protocol name, a path and a parameter.
    ///
    /// A protocol or a path that cannot be a C string gives a local error,
    /// whatever the answer says. Otherwise a failed status gives the
    /// engine's error.
    pub fn from_stream_params(
        protocol: &str,
        path: &str,
        param: usize,
        status: i32,
        id: u64,
        last_message: &str,
    ) -> (r: Result<Buffer, Error>)
        ensures
            r is Ok <==> is_c_text(protocol@) && is_c_text(path@) && status == STATUS_OK,
            r matches Ok(b) ==> b.syz_handle() == id,
            r matches Err(e) ==> if !is_c_text(protocol@) {
                e.is_error(STATUS_LOCAL, BAD_PROTOCOL@)
            } else if !is_c_text(path@) {
                e.is_error(STATUS_LOCAL, BAD_PATH@)
            } else {
                e.is_error(status, last_message@)
            },
    {
        match StreamHandle::check_stream_params(protocol, path) {
            Err(e) => Err(e),
            Ok(_) => Self::new(status, id, last_message),
        }
    }

    /// The first step of decoding a buffer from a reader that can seek:
    /// the definition of a custom stream over the reader, with its length
    /// probed.
    ///
    /// The reader's `seek` is called twice, to its end and then to its
    /// start. If both succeed and the end lies within what the engine can
    /// be told, the result is the fresh definition over the reader as the
    /// two calls left it, seekable and of that length. Otherwise the
    /// result is a local error with the text of the first error, and the
    /// reader is dropped.
    ///
    /// The engine is then asked for a stream handle over the definition,
    /// and `from_read_seek_stream` makes the buffer from it.
    pub fn from_read_seek<T: SeekableStream>(reader: T) -> (r: Result<CustomStreamDef<T>, Error>)
        ensures
            exists|
                first: &mut T,
                end: Result<u64, String>,
                second: &mut T,
                rewind: Result<u64, String>,
            |
                mut_ref_current(first) == reader
                    && call_ensures(T::seek, (first, SeekFrom::End(0)), end)
                    && mut_ref_current(second) == mut_ref_future(first)
                    && call_ensures(T::seek, (second, SeekFrom::Start(0)), rewind)
                    && match probed_length(end, rewind) {
                    Ok(length) => r matches Ok(def) && def@ == fresh_def(
                        mut_ref_future(second),
                        length,
                        true,
                    ),
                    Err(text) => r matches Err(e) && e.is_error(STATUS_LOCAL, text),
                },
            r matches Ok(def) ==> def@.state() == StreamState::Unconsumed && def@.seekable
                && def@.length >= 0,
            r matches Err(e) ==> e.code_spec() == STATUS_LOCAL,
    {
        match CustomStreamDef::from_seekable(reader) {
            Ok(def) => Ok(def),
            Err(pair) => Err(Error::rust_error(pair.0.as_str())),
        }
    }

    /// The last step of decoding a buffer from a reader that can seek: runs
    /// the constructor call that makes the buffer from the stream handle
    /// over the reader, with a fresh userdata box.
    ///
    /// `stream` is what `StreamHandle::from_stream_def` made of the engine's
    /// answer to the creation of the stream handle. Where that failed, its
    /// error is the result: the closure is not run, no box is made and no
    /// call is owed. Otherwise the closure gets the identifier of the
    /// stream handle and the token of the box; the box stays in the arena
    /// if the closure succeeds and is freed at once if it fails. The buffer
    /// has read the stream to its end by then, so the stream handle is used
    /// up either way: the decrement owed for it is returned.
    pub fn from_read_seek_stream<P, F: FnOnce(u64, u64) -> Result<Buffer, Error>>(
        stream: Result<StreamHandle, Error>,
        arena: &mut BoxArena<P>,
        closure: F,
    ) -> (r: (Result<Buffer, Error>, Option<EngineCall>))
        requires
            old(arena).wf(),
            old(arena).can_allocate(),
            stream matches Ok(h) ==> closure.requires((h.id(), old(arena).next_token())),
        ensures
            final(arena).wf(),
            match stream {
                Err(e) => {
                    &&& r.0 == Err::<Buffer, Error>(e)
                    &&& r.1 is None
                    &&& final(arena)@ == old(arena)@
                    &&& final(arena).next_token() == old(arena).next_token()
                },
                Ok(h) => {
                    &&& closure.ensures((h.id(), old(arena).next_token()), r.0)
                    &&& r.1 == Some(call_owed(HandleOp::Drop, h.id()))
                    &&& r.0 is Err ==> final(arena)@ == old(arena)@
                    &&& r.0 is Ok ==> final(arena)@ == old(arena)@.insert(
                        old(arena).next_token(),
                        UserdataBox { userdata: None, streaming_userdata: h.backing() },
                    )
                    &&& final(arena).next_token() == old(arena).next_token() + 1
                },
            },
    {
        match stream {
            Err(e) => (Err(e), None),
            Ok(h) => {
                let (made, call) = h.with_userdata(arena, closure);
                (made, Some(call))
            },
        }
    }
}

} // verus!
