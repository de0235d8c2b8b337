//! Custom streams: host resources that the engine reads through callbacks.
//!
//! A stream is handed to the engine as a definition: the resource, its
//! length if known, and a slot for the text of its last error. The engine
//! then drives it through four callbacks: read, seek, close and destroy.
//! The functions here are those callbacks, and the rules for who cleans a
//! definition up.
use vstd::prelude::*;
use crate::cstring::{
    c_string_of, is_c_bytes, is_c_string, is_c_text, lemma_c_string_of_is_c_bytes, to_c_string,
};
use crate::errors::{check_error, Error, STATUS_LOCAL, STATUS_OK};
use crate::handle::{call_owed, EngineCall, HandleOp};
use crate::userdata::{BoxArena, UserdataBox};

verus! {

/// The status that a callback returns to the engine when it succeeded.
pub const CALLBACK_OK: i32 = 0;

/// The status that a callback returns to the engine when it failed. The
/// error slot then holds the message.
pub const CALLBACK_FAILED: i32 = 1;

/// The length reported for a stream whose length is not known.
pub const UNKNOWN_LENGTH: i64 = -1;

/// Where a seek is measured from.
#[derive(Copy, Clone, Debug, PartialEq, Eq, Structural)]
pub enum SeekFrom {
    /// An absolute position.
    Start(u64),
    /// An offset from the end of the stream.
    End(i64),
    /// An offset from the current position.
    Current(i64),
}

/// A resource that can be closed.
///
/// Dropping a value cannot report a failure, so closing is a step of its
/// own. The text of an error must be fit for a C string: it holds no NUL.
pub trait CloseStream {
    fn close(&mut self) -> (r: Result<(), String>)
        ensures
            r matches Err(text) ==> is_c_text(text@),
    ;
}

/// A resource that can be read from the current position on, and closed.
pub trait Stream: CloseStream {
    /// Reads at most `requested` bytes. Fewer, and none at the end of the
    /// stream, are in order.
    fn read(&mut self, requested: usize) -> (r: Result<Vec<u8>, String>)
        ensures
            r matches Ok(bytes) ==> bytes@.len() <= requested,
            r matches Err(text) ==> is_c_text(text@),
    ;
}

/// A stream that can also move its position.
pub trait SeekableStream: Stream {
    /// Moves the position and returns the new one, measured from the start.
    fn seek(&mut self, pos: SeekFrom) -> (r: Result<u64, String>)
        ensures
            r matches Err(text) ==> is_c_text(text@),
    ;
}

/// Who is responsible for cleaning a definition up.
#[derive(Copy, Clone, Debug, PartialEq, Eq, Structural)]
pub enum StreamState {
    /// Nobody has taken the definition yet: whoever drops it cleans up.
    Unconsumed,
    /// A constructor of the engine took it: the engine closes and destroys
    /// the resource through the callbacks.
    Consumed,
    /// It was dropped on this side before any constructor took it, and the
    /// resource was closed and destroyed then.
    LocallyDropped,
}

/// A definition of a custom stream over a resource of type `T`.
pub struct CustomStreamDef<T> {
    /// The resource, until it is destroyed.
    stream: Option<T>,
    /// The C string of the last error.
    err_msg: Vec<u8>,
    length: i64,
    seekable: bool,
    /// Whether a constructor of the engine has taken the definition.
    used: bool,
    closed: bool,
}

/// What a definition is, for the contracts.
pub ghost struct StreamDefView<T> {
    /// The resource, or `None` once it was destroyed.
    pub resource: Option<T>,
    /// The bytes of the error slot.
    pub error_slot: Seq<u8>,
    /// The length reported to the engine, `UNKNOWN_LENGTH` if not known.
    pub length: i64,
    /// Whether the engine is given a seek callback.
    pub seekable: bool,
    /// Whether a constructor of the engine has taken the definition.
    pub used: bool,
    /// Whether the resource was closed.
    pub closed: bool,
}

impl<T> StreamDefView<T> {
    /// Who is responsible for cleaning up.
    pub open spec fn state(self) -> StreamState {
        if self.used {
            StreamState::Consumed
        } else if self.resource is None {
            StreamState::LocallyDropped
        } else {
            StreamState::Unconsumed
        }
    }

    /// Whether the callbacks may still be called: the resource is there.
    pub open spec fn is_alive(self) -> bool {
        self.resource is Some
    }

    /// Whether `self` differs from `before` at most in what a callback on a
    /// live resource may change: the resource's own state and the error
    /// slot.
    pub open spec fn after_callback(self, before: Self) -> bool {
        &&& self.resource is Some
        &&& self == (StreamDefView {
            resource: self.resource,
            error_slot: self.error_slot,
            ..before
        })
    }
}

impl<T> View for CustomStreamDef<T> {
    type V = StreamDefView<T>;

    closed spec fn view(&self) -> StreamDefView<T> {
        StreamDefView {
            resource: self.stream,
            error_slot: self.err_msg@,
            length: self.length,
            seekable: self.seekable,
            used: self.used,
            closed: self.closed,
        }
    }
}

/// The message of the probe of a stream that is longer than the engine can
/// be told.
pub const LENGTH_OUT_OF_RANGE: &'static str = "Stream length is out of range";

/// The view of a definition fresh from construction over `resource`.
pub open spec fn fresh_def<T>(resource: T, length: i64, seekable: bool) -> StreamDefView<T> {
    StreamDefView {
        resource: Some(resource),
        error_slot: seq![0u8],
        length,
        seekable,
        used: false,
        closed: false,
    }
}

/// The length that the probe of a seekable resource gives, for the result
/// of the seek to its end and that of the seek back to its start: the
/// position of the end if both succeeded and it fits, else the first error.
pub open spec fn probed_length(end: Result<u64, String>, rewind: Result<u64, String>) -> Result<
    i64,
    Seq<char>,
> {
    match end {
        Err(text) => Err(text@),
        Ok(position) => match rewind {
            Err(text) => Err(text@),
            Ok(_) => if position <= i64::MAX {
                Ok(position as i64)
            } else {
                Err(LENGTH_OUT_OF_RANGE@)
            },
        },
    }
}

/// Whether `r` is what the construction over a seekable resource gives, for
/// the resource as it is after the probe and for the results of the seek to
/// its end and of the seek back to its start: the fresh definition with the
/// probed length, or the text of the first error and the resource.
pub open spec fn probed_def<T>(
    r: Result<CustomStreamDef<T>, (String, T)>,
    value: T,
    end: Result<u64, String>,
    rewind: Result<u64, String>,
) -> bool {
    match probed_length(end, rewind) {
        Ok(length) => r matches Ok(def) && def@ == fresh_def(value, length, true),
        Err(text) => r matches Err(pair) && pair.0@ == text && pair.1 == value,
    }
}

/// Computes the length that the probe of a seekable resource gives.
pub fn probe_length(end: Result<u64, String>, rewind: Result<u64, String>) -> (r: Result<
    i64,
    String,
>)
    ensures
        match probed_length(end, rewind) {
            Ok(length) => r == Ok::<i64, String>(length),
            Err(text) => r matches Err(t) && t@ == text,
        },
{
    match end {
        Err(text) => Err(text),
        Ok(position) => match rewind {
            Err(text) => Err(text),
            Ok(_) => if position <= i64::MAX as u64 {
                Ok(position as i64)
            } else {
                Err(LENGTH_OUT_OF_RANGE.to_owned())
            },
        },
    }
}

impl<T: Stream> CustomStreamDef<T> {
    /// A definition over a resource that can only be read. Its length is
    /// reported as unknown and the engine gets no seek callback.
    pub fn from_reader(value: T) -> (r: CustomStreamDef<T>)
        ensures
            r@ == fresh_def(value, UNKNOWN_LENGTH, false),
    {
        let mut err_msg: Vec<u8> = Vec::new();
        err_msg.push(0);
        let r = CustomStreamDef {
            stream: Some(value),
            err_msg,
            length: UNKNOWN_LENGTH,
            seekable: false,
            used: false,
            closed: false,
        };
        assert(r@.error_slot =~= seq![0u8]);
        r
    }
}

impl<T: SeekableStream> CustomStreamDef<T> {
    /// A definition over a resource that can seek. The length is probed by
    /// a seek to the end; the resource is then sent back to its start,
    /// also where the first seek failed.
    ///
    /// Where the probe fails, the text of the first error comes back
    /// together with the resource, which was not closed. Otherwise the
    /// definition reports the probed length, never a negative one, and
    /// gives the engine a seek callback. In full: the resource's `seek`
    /// is called twice, to its end and then to its start, and the result
    /// is what `from_probed` gives for the resource as it is after both
    /// calls and for what they returned.
    pub fn from_seekable(value: T) -> (r: Result<CustomStreamDef<T>, (String, T)>)
        ensures
            exists|
                first: &mut T,
                end: Result<u64, String>,
                second: &mut T,
                rewind: Result<u64, String>,
            |
                mut_ref_current(first) == value
                    && call_ensures(T::seek, (first, SeekFrom::End(0)), end)
                    && mut_ref_current(second) == mut_ref_future(first)
                    && call_ensures(T::seek, (second, SeekFrom::Start(0)), rewind)
                    && probed_def(r, mut_ref_future(second), end, rewind),
            r matches Ok(def) ==> def@.state() == StreamState::Unconsumed && def@ == fresh_def(
                def@.resource->Some_0,
                def@.length,
                true,
            ) && def@.length >= 0,
    {
        let mut value = value;
        let end = value.seek(SeekFrom::End(0));
        let rewind = value.seek(SeekFrom::Start(0));
        Self::from_probed(value, end, rewind)
    }

    /// The definition over a seekable resource that was already probed and
    /// sent back to its start, for the results of the two seeks.
    pub fn from_probed(
        value: T,
        end: Result<u64, String>,
        rewind: Result<u64, String>,
    ) -> (r: Result<CustomStreamDef<T>, (String, T)>)
        ensures
            probed_def(r, value, end, rewind),
    {
        match probe_length(end, rewind) {
            Err(text) => Err((text, value)),
            Ok(length) => {
                let mut err_msg: Vec<u8> = Vec::new();
                err_msg.push(0);
                let r = CustomStreamDef {
                    stream: Some(value),
                    err_msg,
                    length,
                    seekable: true,
                    used: false,
                    closed: false,
                };
                assert(r@.error_slot =~= seq![0u8]);
                Ok(r)
            },
        }
    }
}

impl<T: CloseStream> CustomStreamDef<T> {
    /// Cleans up a definition that is given up on this side.
    ///
    /// One that no constructor has taken has its resource closed, if it was
    /// not yet, and then destroyed: the resource's `close` is called once,
    /// and where it fails its message is left in the error slot. One that
    /// was taken, or was cleaned up before, is left alone: the engine is
    /// responsible for the first, and nothing is left of the second.
    pub fn drop_def(&mut self)
        ensures
            old(self)@.state() == StreamState::Unconsumed ==> {
                &&& final(self)@.state() == StreamState::LocallyDropped
                &&& final(self)@ == (StreamDefView {
                    resource: None,
                    closed: true,
                    error_slot: final(self)@.error_slot,
                    ..old(self)@
                })
            },
            old(self)@.state() == StreamState::Unconsumed && !old(self)@.closed ==> exists|
                resource: &mut T,
                result: Result<(), String>,
            |
                mut_ref_current(resource) == old(self)@.resource->Some_0
                    && call_ensures(T::close, (resource,), result)
                    && final(self)@.error_slot == status_answer(
                    old(self)@.error_slot,
                    result,
                ).1,
            old(self)@.state() == StreamState::Unconsumed && old(self)@.closed
                ==> final(self)@.error_slot == old(self)@.error_slot,
            old(self)@.state() != StreamState::Unconsumed ==> final(self)@ == old(self)@,
    {
        if !self.used && self.stream.is_some() {
            if !self.closed {
                let _ = close_cb(self);
            }
            destroy_cb(self);
        }
    }
}

impl<T> CustomStreamDef<T> {
    /// Records that a constructor of the engine has taken the definition.
    /// From now on the engine cleans up, and `drop_def` does nothing.
    pub fn mark_used(&mut self)
        requires
            old(self)@.state() == StreamState::Unconsumed,
        ensures
            final(self)@ == (StreamDefView { used: true, ..old(self)@ }),
            final(self)@.state() == StreamState::Consumed,
    {
        self.used = true;
    }

    /// Puts the text of an error into the slot, over what was there.
    pub fn conv_err(&mut self, text: &str)
        requires
            is_c_text(text@),
        ensures
            final(self)@ == (StreamDefView { error_slot: c_string_of(text@), ..old(self)@ }),
    {
        let converted = to_c_string(text);
        self.err_msg = converted.unwrap();
    }

    /// The length reported to the engine, `UNKNOWN_LENGTH` if not known.
    pub fn length(&self) -> (r: i64)
        ensures
            r == self@.length,
    {
        self.length
    }

    /// Whether the engine is given a seek callback.
    pub fn is_seekable(&self) -> (r: bool)
        ensures
            r == self@.seekable,
    {
        self.seekable
    }

    /// Who is responsible for cleaning up.
    pub fn state(&self) -> (r: StreamState)
        ensures
            r == self@.state(),
    {
        if self.used {
            StreamState::Consumed
        } else if self.stream.is_none() {
            StreamState::LocallyDropped
        } else {
            StreamState::Unconsumed
        }
    }

    /// Whether the resource is still there, so that the callbacks may be
    /// called.
    pub fn is_alive(&self) -> (r: bool)
        ensures
            r == self@.is_alive(),
    {
        self.stream.is_some()
    }

    /// Whether the resource was closed.
    pub fn is_closed(&self) -> (r: bool)
        ensures
            r == self@.closed,
    {
        self.closed
    }

    /// The C string of the last error: empty until a callback fails.
    pub fn error_message(&self) -> (r: &Vec<u8>)
        ensures
            r@ == self@.error_slot,
    {
        &self.err_msg
    }
}

/// Cleanup is decided once. From a definition that nobody has taken,
/// being taken by the engine leads to `Consumed` and being dropped on this
/// side leads to `LocallyDropped`; both are final, as neither state is
/// left again by a definition being taken or dropped, nor by what the
/// callbacks do to it.
pub proof fn lemma_cleanup_is_decided_once<T>(before: StreamDefView<T>, after: StreamDefView<T>)
    requires
        before.state() == StreamState::Unconsumed,
    ensures
        (StreamDefView { used: true, ..before }).state() == StreamState::Consumed,
        (StreamDefView { resource: None, closed: true, ..before }).state()
            == StreamState::LocallyDropped,
        after.used == before.used && after.resource is Some ==> after.state()
            == StreamState::Unconsumed,
        after.used ==> after.state() == StreamState::Consumed,
        !after.used && after.resource is None ==> after.state() == StreamState::LocallyDropped,
{
}

/// How many bytes the read callback asks the resource for when the engine
/// asks for `requested`: as many, or as many as a length can count.
pub open spec fn wanted_bytes(requested: u64) -> usize {
    if requested > usize::MAX {
        usize::MAX
    } else {
        requested as usize
    }
}

/// What the read callback answers for a result of the resource's `read`,
/// with the error slot as it was before: the status, the bytes handed to
/// the engine, and the error slot afterwards.
pub open spec fn read_answer(slot: Seq<u8>, result: Result<Vec<u8>, String>) -> (
    i32,
    Seq<u8>,
    Seq<u8>,
) {
    match result {
        Ok(bytes) => (CALLBACK_OK, bytes@, slot),
        Err(text) => (CALLBACK_FAILED, Seq::empty(), c_string_of(text@)),
    }
}

/// What the seek and close callbacks answer for a result of the resource's
/// own operation, with the error slot as it was before: the status, and
/// the error slot afterwards.
pub open spec fn status_answer<V>(slot: Seq<u8>, result: Result<V, String>) -> (i32, Seq<u8>) {
    match result {
        Ok(_) => (CALLBACK_OK, slot),
        Err(text) => (CALLBACK_FAILED, c_string_of(text@)),
    }
}

/// What the read callback answers for the result of the resource's `read`:
/// the bytes with the success status, or the failure status with the text
/// of the error in the slot.
pub fn read_outcome<T>(def: &mut CustomStreamDef<T>, result: Result<Vec<u8>, String>) -> (r: (
    i32,
    Vec<u8>,
))
    requires
        result matches Err(text) ==> is_c_text(text@),
    ensures
        match result {
            Ok(bytes) => r == (CALLBACK_OK, bytes) && final(def)@ == old(def)@,
            Err(text) => r.0 == CALLBACK_FAILED && r.1@ == Seq::<u8>::empty() && final(def)@ == (
            StreamDefView { error_slot: c_string_of(text@), ..old(def)@ }),
        },
        (r.0, r.1@, final(def)@.error_slot) == read_answer(old(def)@.error_slot, result),
{
    match result {
        Ok(bytes) => (CALLBACK_OK, bytes),
        Err(text) => {
            def.conv_err(text.as_str());
            (CALLBACK_FAILED, Vec::new())
        },
    }
}

/// What the seek and close callbacks answer for the result of the
/// resource's own operation: the success status, or the failure status
/// with the text of the error in the slot.
pub fn status_outcome<T, V>(def: &mut CustomStreamDef<T>, result: Result<V, String>) -> (r: i32)
    requires
        result matches Err(text) ==> is_c_text(text@),
    ensures
        match result {
            Ok(_) => r == CALLBACK_OK && final(def)@ == old(def)@,
            Err(text) => r == CALLBACK_FAILED && final(def)@ == (StreamDefView {
                error_slot: c_string_of(text@),
                ..old(def)@
            }),
        },
        (r, final(def)@.error_slot) == status_answer(old(def)@.error_slot, result),
{
    match result {
        Ok(_) => CALLBACK_OK,
        Err(text) => {
            def.conv_err(text.as_str());
            CALLBACK_FAILED
        },
    }
}

/// The read callback: asks the resource for at most `requested` bytes.
///
/// The resource's `read` is called once, for `wanted_bytes(requested)`
/// bytes, and what it gives decides the answer as `read_answer` says. On
/// success the bytes that were read are returned with `CALLBACK_OK`, never
/// more than were asked for, and the error slot is left alone. On failure
/// the status is `CALLBACK_FAILED`, no bytes are returned and the slot
/// holds the message as a C string.
pub fn stream_read_cb<T: Stream>(def: &mut CustomStreamDef<T>, requested: u64) -> (r: (
    i32,
    Vec<u8>,
))
    requires
        old(def)@.is_alive(),
    ensures
        final(def)@.after_callback(old(def)@),
        exists|resource: &mut T, result: Result<Vec<u8>, String>|
            mut_ref_current(resource) == old(def)@.resource->Some_0
                && mut_ref_future(resource) == final(def)@.resource->Some_0
                && call_ensures(T::read, (resource, wanted_bytes(requested)), result)
                && (r.0, r.1@, final(def)@.error_slot) == read_answer(
                old(def)@.error_slot,
                result,
            ),
        r.0 == CALLBACK_OK || r.0 == CALLBACK_FAILED,
        r.0 == CALLBACK_OK ==> r.1@.len() <= requested && final(def)@.error_slot == old(
            def,
        )@.error_slot,
        r.0 == CALLBACK_FAILED ==> r.1@.len() == 0 && is_c_bytes(final(def)@.error_slot),
{
    let wanted: usize = if requested > usize::MAX as u64 {
        usize::MAX
    } else {
        requested as usize
    };
    assert(wanted == wanted_bytes(requested));
    let mut stream = def.stream.take().unwrap();
    let result = stream.read(wanted);
    def.stream = Some(stream);
    proof {
        if result is Err {
            lemma_c_string_of_is_c_bytes(result->Err_0@);
        }
    }
    read_outcome(def, result)
}

/// The seek callback: moves the resource to the absolute position `pos`.
///
/// The resource's `seek` is called once, from the start to `pos`, and what
/// it gives decides the answer as `status_answer` says. The status is
/// `CALLBACK_OK`, or `CALLBACK_FAILED` with the message in the error slot
/// as a C string.
pub fn seek_cb<T: SeekableStream>(def: &mut CustomStreamDef<T>, pos: u64) -> (r: i32)
    requires
        old(def)@.is_alive(),
    ensures
        final(def)@.after_callback(old(def)@),
        exists|resource: &mut T, result: Result<u64, String>|
            mut_ref_current(resource) == old(def)@.resource->Some_0
                && mut_ref_future(resource) == final(def)@.resource->Some_0
                && call_ensures(T::seek, (resource, SeekFrom::Start(pos)), result)
                && (r, final(def)@.error_slot) == status_answer(old(def)@.error_slot, result),
        r == CALLBACK_OK || r == CALLBACK_FAILED,
        r == CALLBACK_OK ==> final(def)@.error_slot == old(def)@.error_slot,
        r == CALLBACK_FAILED ==> is_c_bytes(final(def)@.error_slot),
{
    let mut stream = def.stream.take().unwrap();
    let result = stream.seek(SeekFrom::Start(pos));
    def.stream = Some(stream);
    proof {
        if result is Err {
            lemma_c_string_of_is_c_bytes(result->Err_0@);
        }
    }
    status_outcome(def, result)
}

/// The close callback: closes the resource, once, before it is destroyed.
///
/// The resource's `close` is called once, and what it gives decides the
/// answer as `status_answer` says. The resource stays where it is, and
/// counts as closed whether or not its `close` succeeded.
/// The status is `CALLBACK_OK`, or `CALLBACK_FAILED` with the message in
/// the error slot as a C string.
pub fn close_cb<T: CloseStream>(def: &mut CustomStreamDef<T>) -> (r: i32)
    requires
        old(def)@.is_alive(),
        !old(def)@.closed,
    ensures
        final(def)@.after_callback(StreamDefView { closed: true, ..old(def)@ }),
        exists|resource: &mut T, result: Result<(), String>|
            mut_ref_current(resource) == old(def)@.resource->Some_0
                && mut_ref_future(resource) == final(def)@.resource->Some_0
                && call_ensures(T::close, (resource,), result)
                && (r, final(def)@.error_slot) == status_answer(old(def)@.error_slot, result),
        r == CALLBACK_OK || r == CALLBACK_FAILED,
        r == CALLBACK_OK ==> final(def)@.error_slot == old(def)@.error_slot,
        r == CALLBACK_FAILED ==> is_c_bytes(final(def)@.error_slot),
{
    let mut stream = def.stream.take().unwrap();
    let result = stream.close();
    def.stream = Some(stream);
    def.closed = true;
    proof {
        if result is Err {
            lemma_c_string_of_is_c_bytes(result->Err_0@);
        }
    }
    status_outcome(def, result)
}

/// The destroy callback: gives the closed resource up. No callback may
/// follow.
pub fn destroy_cb<T>(def: &mut CustomStreamDef<T>)
    requires
        old(def)@.is_alive(),
        old(def)@.closed,
    ensures
        final(def)@ == (StreamDefView { resource: None, ..old(def)@ }),
{
    def.stream = None;
}

/// The message of the error for a memory stream over no bytes.
pub const EMPTY_VEC: &'static str = "Cannot create streams from empty vecs";

/// The message of the error for a protocol name that holds a NUL.
pub const BAD_PROTOCOL: &'static str = "Unable to convert protocol to a C string";

/// The message of the error for a path that holds a NUL.
pub const BAD_PATH: &'static str = "Unable to convert path to a C string";

/// The message that the engine is given when a stream protocol could not
/// open a stream.
pub const STREAM_OPEN_FAILED: &'static str = "Unable to create stream";

/// A stream handle of the engine: what a generator or a buffer is created
/// from. It owns one unit of the handle's reference count and, for a
/// stream over memory, the bytes that the engine reads from.
pub struct StreamHandle {
    handle: u64,
    needs_drop: Option<Vec<u8>>,
}

impl StreamHandle {
    /// The identifier of the stream handle.
    pub closed spec fn id(&self) -> u64 {
        self.handle
    }

    /// The bytes that must outlive the stream, if it reads from memory.
    pub closed spec fn backing(&self) -> Option<Vec<u8>> {
        self.needs_drop
    }

    /// Reads the engine's answer to the creation of a stream handle from a
    /// definition that nobody has taken yet.
    ///
    /// On success the engine has taken the definition: it is marked used,
    /// and the engine will close and destroy the resource. On failure the
    /// definition is cleaned up here, resource closed and destroyed, and
    /// the engine's error is returned.
    pub fn from_stream_def<T: CloseStream>(
        def: &mut CustomStreamDef<T>,
        status: i32,
        id: u64,
        last_message: &str,
    ) -> (r: Result<StreamHandle, Error>)
        requires
            old(def)@.state() == StreamState::Unconsumed,
        ensures
            r is Ok <==> status == STATUS_OK,
            r matches Ok(h) ==> {
                &&& h.id() == id
                &&& h.backing() is None
                &&& final(def)@ == (StreamDefView { used: true, ..old(def)@ })
            },
            r matches Err(e) ==> {
                &&& e.is_error(status, last_message@)
                &&& final(def)@ == (StreamDefView {
                    resource: None,
                    closed: true,
                    error_slot: final(def)@.error_slot,
                    ..old(def)@
                })
            },
            r is Err && !old(def)@.closed ==> exists|resource: &mut T, result: Result<(), String>|
                mut_ref_current(resource) == old(def)@.resource->Some_0
                    && call_ensures(T::close, (resource,), result)
                    && final(def)@.error_slot == status_answer(old(def)@.error_slot, result).1,
            r is Err && old(def)@.closed ==> final(def)@.error_slot == old(def)@.error_slot,
    {
        match check_error(status, last_message) {
            Err(e) => {
                def.drop_def();
                Err(e)
            },
            Ok(_) => {
                def.mark_used();
                Ok(StreamHandle { handle: id, needs_drop: None })
            },
        }
    }

    /// Reads the engine's answer to the creation of a stream handle over
    /// the bytes of `data`.
    ///
    /// No stream can be made over no bytes: for an empty `data` the result
    /// is a local error, whatever the answer says. Otherwise a failed
    /// status gives the engine's error, and success a stream handle that
    /// keeps `data` alive.
    pub fn from_vec(data: Vec<u8>, status: i32, id: u64, last_message: &str) -> (r: Result<
        StreamHandle,
        Error,
    >)
        ensures
            r is Ok <==> data@.len() > 0 && status == STATUS_OK,
            r matches Ok(h) ==> h.id() == id && h.backing() == Some(data),
            r matches Err(e) ==> if data@.len() == 0 {
                e.is_error(STATUS_LOCAL, EMPTY_VEC@)
            } else {
                e.is_error(status, last_message@)
            },
    {
        if data.len() == 0 {
            return Err(Error::rust_error(EMPTY_VEC));
        }
        match check_error(status, last_message) {
            Err(e) => Err(e),
            Ok(_) => Ok(StreamHandle { handle: id, needs_drop: Some(data) }),
        }
    }

    /// Checks the protocol name and the path of a stream for use as C
    /// strings. The protocol is checked first.
    pub fn check_stream_params(protocol: &str, path: &str) -> (r: Result<(), Error>)
        ensures
            r is Ok <==> is_c_text(protocol@) && is_c_text(path@),
            r matches Err(e) ==> if !is_c_text(protocol@) {
                e.is_error(STATUS_LOCAL, BAD_PROTOCOL@)
            } else {
                e.is_error(STATUS_LOCAL, BAD_PATH@)
            },
    {
        if !is_c_string(protocol) {
            return Err(Error::rust_error(BAD_PROTOCOL));
        }
        if !is_c_string(path) {
            return Err(Error::rust_error(BAD_PATH));
        }
        Ok(())
    }

    /// Reads the engine's answer to the creation of a stream handle from a
    /// protocol name, a path and a parameter.
    ///
    /// A protocol or a path that cannot be a C string gives a local error,
    /// whatever the answer says. Otherwise a failed status gives the
    /// engine's error, and success the stream handle.
    pub fn from_stream_params(
        protocol: &str,
        path: &str,
        param: usize,
        status: i32,
        id: u64,
        last_message: &str,
    ) -> (r: Result<StreamHandle, Error>)
        ensures
            r is Ok <==> is_c_text(protocol@) && is_c_text(path@) && status == STATUS_OK,
            r matches Ok(h) ==> h.id() == id && h.backing() is None,
            r matches Err(e) ==> if !is_c_text(protocol@) {
                e.is_error(STATUS_LOCAL, BAD_PROTOCOL@)
            } else if !is_c_text(path@) {
                e.is_error(STATUS_LOCAL, BAD_PATH@)
            } else {
                e.is_error(status, last_message@)
            },
    {
        match Self::check_stream_params(protocol, path) {
            Err(e) => Err(e),
            Ok(_) => match check_error(status, last_message) {
                Err(e) => Err(e),
                Ok(_) => Ok(StreamHandle { handle: id, needs_drop: None }),
            },
        }
    }

    /// The identifier of the stream handle, for the engine.
    pub fn get_handle(&self) -> (r: u64)
        ensures
            r == self.id(),
    {
        self.handle
    }

    /// Gives the stream handle up without using it. The decrement owed for
    /// it is returned; the bytes that it kept are dropped.
    pub fn release(self) -> (r: EngineCall)
        ensures
            r == call_owed(HandleOp::Drop, self.id()),
    {
        EngineCall::DecRef(self.handle)
    }

    /// Uses the stream handle up in a constructor call.
    ///
    /// The bytes that the stream keeps move into a fresh userdata box,
    /// which is handed to the closure as `wrap_constructor` hands its box:
    /// it stays in the arena if the closure succeeds and is freed at once
    /// if it fails. The closure gets the identifier of the stream handle
    /// and the token of the box. Whatever the closure returns, the stream
    /// handle itself is used up: the decrement owed for it is returned.
    pub fn with_userdata<P, T, F: FnOnce(u64, u64) -> Result<T, Error>>(
        self,
        arena: &mut BoxArena<P>,
        closure: F,
    ) -> (r: (Result<T, Error>, EngineCall))
        requires
            old(arena).wf(),
            old(arena).can_allocate(),
            closure.requires((self.id(), old(arena).next_token())),
        ensures
            final(arena).wf(),
            closure.ensures((self.id(), old(arena).next_token()), r.0),
            r.1 == call_owed(HandleOp::Drop, self.id()),
            r.0 is Err ==> final(arena)@ == old(arena)@,
            r.0 is Ok ==> final(arena)@ == old(arena)@.insert(
                old(arena).next_token(),
                UserdataBox { userdata: None, streaming_userdata: self.backing() },
            ),
            !old(arena)@.contains_key(old(arena).next_token()),
            final(arena).next_token() == old(arena).next_token() + 1,
    {
        let sh = self.handle;
        let ud: UserdataBox<P> = match self.needs_drop {
            Some(bytes) => UserdataBox::from_streaming_userdata(bytes),
            None => UserdataBox::new(),
        };
        let inner = move |token: u64| -> (res: Result<T, Error>)
            requires
                closure.requires((sh, token)),
            ensures
                closure.ensures((sh, token), res),
            { closure(sh, token) };
        let res = ud.consume(arena, inner);
        (res, EngineCall::DecRef(sh))
    }
}

/// Whether `r` is what the open callback of a stream protocol answers for
/// the result of the application's callback: a fresh definition, marked
/// used, or else the fixed message.
pub open spec fn opened<T, E>(
    r: Result<CustomStreamDef<T>, &'static str>,
    result: Result<CustomStreamDef<T>, E>,
) -> bool {
    match result {
        Ok(def) => if def@.state() == StreamState::Unconsumed {
            r matches Ok(taken) && taken@ == (StreamDefView { used: true, ..def@ })
        } else {
            r == Err::<CustomStreamDef<T>, &'static str>(STREAM_OPEN_FAILED)
        },
        Err(_) => r == Err::<CustomStreamDef<T>, &'static str>(STREAM_OPEN_FAILED),
    }
}

/// What the open callback of a stream protocol answers for the result of
/// the application's callback: the definition, marked used because the
/// engine takes it, or the fixed message for the engine's error slot.
///
/// A definition that is not fresh, because it was cleaned up or taken
/// before, counts as a failure.
pub fn open_outcome<T, E>(result: Result<CustomStreamDef<T>, E>) -> (r: Result<
    CustomStreamDef<T>,
    &'static str,
>)
    ensures
        opened(r, result),
{
    match result {
        Ok(def) => {
            let mut def = def;
            match def.state() {
                StreamState::Unconsumed => {
                    def.mark_used();
                    Ok(def)
                },
                _ => Err(STREAM_OPEN_FAILED),
            }
        },
        Err(_) => Err(STREAM_OPEN_FAILED),
    }
}

/// The open callback of a stream protocol: asks the application's callback
/// for a stream, given the protocol, the path and the parameter that the
/// engine passed.
///
/// The callback is called once, with the protocol, the path and the
/// parameter as they are, and what it gives decides the answer as
/// `opened` says. It must not call back into the engine. A fresh
/// definition that it returns is handed to the engine, marked used; if it
/// fails, the engine is told `STREAM_OPEN_FAILED`.
pub fn stream_open_callback<T, E, F: Fn(&str, &str, usize) -> Result<CustomStreamDef<T>, E>>(
    callback: &F,
    protocol: &str,
    path: &str,
    param: usize,
) -> (r: Result<CustomStreamDef<T>, &'static str>)
    requires
        callback.requires((protocol, path, param)),
    ensures
        exists|result: Result<CustomStreamDef<T>, E>|
            callback.ensures((protocol, path, param), result) && opened(r, result),
        r matches Ok(taken) ==> taken@.state() == StreamState::Consumed,
        r matches Err(text) ==> text == STREAM_OPEN_FAILED,
{
    let result = callback(protocol, path, param);
    open_outcome(result)
}

/// Reads the engine's answer to the registration of a stream protocol.
///
/// A protocol name that cannot be a C string gives a local error,
/// whatever the answer says; a failed status gives the engine's error. In
/// both cases the callback is dropped. On success the callback is handed
/// back: it is registered now and must be kept for as long as the engine
/// runs.
pub fn register_stream_protocol<F>(
    protocol: &str,
    callback: F,
    status: i32,
    last_message: &str,
) -> (r: Result<F, Error>)
    ensures
        r is Ok <==> is_c_text(protocol@) && status == STATUS_OK,
        r matches Ok(kept) ==> kept == callback,
        r matches Err(e) ==> if !is_c_text(protocol@) {
            e.is_error(STATUS_LOCAL, BAD_PROTOCOL@)
        } else {
            e.is_error(status, last_message@)
        },
{
    if !is_c_string(protocol) {
        return Err(Error::rust_error(BAD_PROTOCOL));
    }
    match check_error(status, last_message) {
        Err(e) => Err(e),
        Ok(_) => Ok(callback),
    }
}

} // verus!
