//! Generators: the objects that produce audio.
use vstd::prelude::*;
use vstd::std_specs::convert::{FromSpec, FromSpecImpl};
use crate::casting::CastTarget;
use crate::cstring::is_c_text;
use crate::custom_streams::{StreamHandle, BAD_PATH, BAD_PROTOCOL};
use crate::delete_config::{DeleteBehaviorCall, DeleteBehaviorConfig};
use crate::enums::{I32TransmutableEnum, ObjectType};
use crate::errors::{check_error, Error, STATUS_LOCAL, STATUS_OK};
use crate::handle::{
    call_owed, EngineCall, Handle, HandleOp, HandleRef, ObjectCall, ToSyzHandle, UNKNOWN_TYPE,
};
use crate::initialization::{Witness, NOT_INITIALIZED};
use crate::userdata::{
    wrap_constructor, wrap_file_constructor, BoxArena, UserdataBox, PATH_HAS_NUL,
};
use crate::userdata::{with_payload, UserdataTable};

verus! {

/// The base of all generators. Every kind of generator converts to it.
#[derive(Debug, PartialEq, Eq, PartialOrd, Ord, Hash)]
pub struct Generator(pub(crate) Handle);

impl Generator {
    /// The handle that this object holds.
    pub fn handle(&self) -> (r: &Handle)
        ensures
            r.id() == self.syz_handle(),
    {
        &self.0
    }

    /// Gives up the wrapper and keeps the handle.
    pub fn into_handle(self) -> (r: Handle)
        ensures
            r.id() == self.syz_handle(),
    {
        self.0
    }

    /// Reads the engine's answer to the constructor call for an object of
    /// this type: the status of the call, the identifier that it wrote, and
    /// the engine's last error message. On success the identifier carries
    /// one unit of the reference count, which the new wrapper owns.
    pub fn new(status: i32, id: u64, last_message: &str) -> (r: Result<Self, Error>)
        ensures
            r is Ok <==> status == STATUS_OK,
            r matches Ok(w) ==> w.syz_handle() == id,
            r matches Err(e) ==> e.is_error(status, last_message@),
    {
        match check_error(status, last_message) {
            Err(e) => Err(e),
            Ok(_) => Ok(Self::from_handle_internal(Handle::new(id))),
        }
    }

    /// Wraps a handle without looking at its tag. A handle of another kind
    /// of object gives a wrapper on which every engine call fails.
    pub(crate) fn from_handle_internal(h: Handle) -> (r: Self)
        ensures
            r.syz_handle() == h.id(),
    {
        Generator(h)
    }

    /// A second wrapper around the same object, and the increment owed for
    /// it.
    pub fn clone_ref(&self) -> (r: (Self, EngineCall))
        ensures
            r.0.syz_handle() == self.syz_handle(),
            r.1 == call_owed(HandleOp::Clone, self.syz_handle()),
    {
        let (h, call) = self.0.clone_ref();
        (Generator(h), call)
    }

    /// Gives the object up. The decrement owed for it is returned.
    pub fn release(self) -> (r: EngineCall)
        ensures
            r == call_owed(HandleOp::Drop, self.syz_handle()),
    {
        self.0.release()
    }

    /// Reads the engine's answer to a query of this object's type. See
    /// `Handle::get_type`.
    pub fn get_type(&self, status: i32, raw_tag: i32, last_message: &str) -> (r: Result<
        ObjectType,
        Error,
    >)
        ensures
            status != STATUS_OK ==> (r matches Err(e) && e.is_error(status, last_message@)),
            status == STATUS_OK ==> match ObjectType::decode(raw_tag) {
                Some(t) => r == Ok::<ObjectType, Error>(t),
                None => (r matches Err(e) && e.is_error(STATUS_LOCAL, UNKNOWN_TYPE@)),
            },
    {
        self.0.get_type(status, raw_tag, last_message)
    }

    /// The userdata of this object. See `Handle::get_userdata`.
    pub fn get_userdata<'a, P>(&self, witness: &Witness, table: &'a UserdataTable<P>) -> (r:
        Result<Option<&'a P>, Error>)
        requires
            witness.is_initialized() ==> table.is_live(self.syz_handle()),
        ensures
            r is Ok <==> witness.is_initialized(),
            r matches Ok(found) ==> match found {
                Some(p) => table@[self.syz_handle()].payload == Some(*p),
                None => table@[self.syz_handle()].payload is None,
            },
            r matches Err(e) ==> e.is_error(STATUS_LOCAL, NOT_INITIALIZED@),
    {
        self.0.get_userdata(witness, table)
    }

    /// Sets the userdata of this object, or clears it with `None`. See
    /// `Handle::set_userdata`.
    pub fn set_userdata<P>(
        &self,
        witness: &Witness,
        table: &mut UserdataTable<P>,
        userdata: Option<P>,
    ) -> (r: Result<(), Error>)
        requires
            old(table).wf(),
            witness.is_initialized() ==> old(table).is_live(self.syz_handle()),
        ensures
            final(table).wf(),
            final(table).threshold() == old(table).threshold(),
            r is Ok <==> witness.is_initialized(),
            r is Ok ==> final(table)@ == with_payload(old(table)@, self.syz_handle(), userdata),
            r matches Err(e) ==> e.is_error(STATUS_LOCAL, NOT_INITIALIZED@) && final(table)@
                == old(table)@,
    {
        self.0.set_userdata(witness, table, userdata)
    }

    /// The call that sets the delete behavior of this object.
    pub fn config_delete_behavior(&self, config: &DeleteBehaviorConfig) -> (r: DeleteBehaviorCall)
        ensures
            r == (DeleteBehaviorCall { target: self.syz_handle(), config: *config }),
    {
        self.0.config_delete_behavior(config)
    }

    /// The call that pauses this object.
    pub fn pause(&self) -> (r: ObjectCall)
        ensures
            r == ObjectCall::Pause(self.syz_handle()),
    {
        ObjectCall::Pause(self.0.to_syz_handle())
    }

    /// The call that lets this object play.
    pub fn play(&self) -> (r: ObjectCall)
        ensures
            r == ObjectCall::Play(self.syz_handle()),
    {
        ObjectCall::Play(self.0.to_syz_handle())
    }

    /// Casts this object to the wrapper type `T`, given the engine's answer
    /// to the query of its tag. See `Handle::cast_to`.
    pub fn cast_to<T: CastTarget>(&self, tag: Result<ObjectType, Error>) -> (r: Result<
        Option<(T, EngineCall)>,
        Error,
    >)
        ensures
            match tag {
                Err(e) => r == Err::<Option<(T, EngineCall)>, Error>(e),
                Ok(t) => if T::accepts_tag(t) {
                    r matches Ok(Some(pair)) && pair.0.object_id() == self.syz_handle() && pair.1
                        == call_owed(HandleOp::Clone, self.syz_handle())
                } else {
                    r == Ok::<Option<(T, EngineCall)>, Error>(None)
                },
            },
    {
        T::cast_from(&self.0, tag)
    }
}

impl ToSyzHandle for Generator {
    closed spec fn syz_handle(&self) -> u64 {
        self.0.id()
    }

    fn to_syz_handle(&self) -> (r: u64) {
        self.0.to_syz_handle()
    }
}

impl HandleRef for Generator {
    fn handle_ref(&self) -> (r: &Handle) {
        &self.0
    }
}

impl CastTarget for Generator {
    open spec fn accepts_tag(tag: ObjectType) -> bool {
        tag == ObjectType::BufferGenerator
            || tag == ObjectType::StreamingGenerator
            || tag == ObjectType::NoiseGenerator
            || tag == ObjectType::FastSineBankGenerator
    }

    open spec fn object_id(&self) -> u64 {
        self.syz_handle()
    }

    fn accepts(tag: ObjectType) -> (r: bool) {
        match tag {
            ObjectType::BufferGenerator
            | ObjectType::StreamingGenerator
            | ObjectType::NoiseGenerator
            | ObjectType::FastSineBankGenerator => true,
            _ => false,
        }
    }

    fn cast_from(h: &Handle, tag: Result<ObjectType, Error>) -> (r: Result<
        Option<(Generator, EngineCall)>,
        Error,
    >) {
        match tag {
            Err(e) => Err(e),
            Ok(t) => {
                if Self::accepts(t) {
                    let (second, call) = h.clone_ref();
                    Ok(Some((Self::from_handle_internal(second), call)))
                } else {
                    Ok(None)
                }
            },
        }
    }
}

impl From<Generator> for Handle {
    fn from(input: Generator) -> (r: Handle) {
        input.0
    }
}

impl FromSpecImpl<Generator> for Handle {
    open spec fn obeys_from_spec() -> bool {
        true
    }

    closed spec fn from_spec(input: Generator) -> Handle {
        input.0
    }
}

/// Converting a `Generator` to
/// `Handle` keeps the object, and every tag
/// that `Generator` accepts is accepted by what it converts to.
pub proof fn lemma_generator_upcasts(w: Generator)
    ensures
        <Handle as FromSpec<Generator>>::from_spec(w).id() == w.syz_handle(),
        forall|tag: ObjectType|
            Generator::accepts_tag(tag) ==> Handle::accepts_tag(tag),
{
}

/// A generator that plays a buffer.
#[derive(Debug, PartialEq, Eq, PartialOrd, Ord, Hash)]
pub struct BufferGenerator(pub(crate) Handle);

impl BufferGenerator {
    /// The handle that this object holds.
    pub fn handle(&self) -> (r: &Handle)
        ensures
            r.id() == self.syz_handle(),
    {
        &self.0
    }

    /// Gives up the wrapper and keeps the handle.
    pub fn into_handle(self) -> (r: Handle)
        ensures
            r.id() == self.syz_handle(),
    {
        self.0
    }

    /// Reads the engine's answer to the constructor call for an object of
    /// this type: the status of the call, the identifier that it wrote, and
    /// the engine's last error message. On success the identifier carries
    /// one unit of the reference count, which the new wrapper owns.
    pub fn new(status: i32, id: u64, last_message: &str) -> (r: Result<Self, Error>)
        ensures
            r is Ok <==> status == STATUS_OK,
            r matches Ok(w) ==> w.syz_handle() == id,
            r matches Err(e) ==> e.is_error(status, last_message@),
    {
        match check_error(status, last_message) {
            Err(e) => Err(e),
            Ok(_) => Ok(Self::from_handle_internal(Handle::new(id))),
        }
    }

    /// Wraps a handle without looking at its tag. A handle of another kind
    /// of object gives a wrapper on which every engine call fails.
    pub(crate) fn from_handle_internal(h: Handle) -> (r: Self)
        ensures
            r.syz_handle() == h.id(),
    {
        BufferGenerator(h)
    }

    /// A second wrapper around the same object, and the increment owed for
    /// it.
    pub fn clone_ref(&self) -> (r: (Self, EngineCall))
        ensures
            r.0.syz_handle() == self.syz_handle(),
            r.1 == call_owed(HandleOp::Clone, self.syz_handle()),
    {
        let (h, call) = self.0.clone_ref();
        (BufferGenerator(h), call)
    }

    /// Gives the object up. The decrement owed for it is returned.
    pub fn release(self) -> (r: EngineCall)
        ensures
            r == call_owed(HandleOp::Drop, self.syz_handle()),
    {
        self.0.release()
    }

    /// Reads the engine's answer to a query of this object's type. See
    /// `Handle::get_type`.
    pub fn get_type(&self, status: i32, raw_tag: i32, last_message: &str) -> (r: Result<
        ObjectType,
        Error,
    >)
        ensures
            status != STATUS_OK ==> (r matches Err(e) && e.is_error(status, last_message@)),
            status == STATUS_OK ==> match ObjectType::decode(raw_tag) {
                Some(t) => r == Ok::<ObjectType, Error>(t),
                None => (r matches Err(e) && e.is_error(STATUS_LOCAL, UNKNOWN_TYPE@)),
            },
    {
        self.0.get_type(status, raw_tag, last_message)
    }

    /// The userdata of this object. See `Handle::get_userdata`.
    pub fn get_userdata<'a, P>(&self, witness: &Witness, table: &'a UserdataTable<P>) -> (r:
        Result<Option<&'a P>, Error>)
        requires
            witness.is_initialized() ==> table.is_live(self.syz_handle()),
        ensures
            r is Ok <==> witness.is_initialized(),
            r matches Ok(found) ==> match found {
                Some(p) => table@[self.syz_handle()].payload == Some(*p),
                None => table@[self.syz_handle()].payload is None,
            },
            r matches Err(e) ==> e.is_error(STATUS_LOCAL, NOT_INITIALIZED@),
    {
        self.0.get_userdata(witness, table)
    }

    /// Sets the userdata of this object, or clears it with `None`. See
    /// `Handle::set_userdata`.
    pub fn set_userdata<P>(
        &self,
        witness: &Witness,
        table: &mut UserdataTable<P>,
        userdata: Option<P>,
    ) -> (r: Result<(), Error>)
        requires
            old(table).wf(),
            witness.is_initialized() ==> old(table).is_live(self.syz_handle()),
        ensures
            final(table).wf(),
            final(table).threshold() == old(table).threshold(),
            r is Ok <==> witness.is_initialized(),
            r is Ok ==> final(table)@ == with_payload(old(table)@, self.syz_handle(), userdata),
            r matches Err(e) ==> e.is_error(STATUS_LOCAL, NOT_INITIALIZED@) && final(table)@
                == old(table)@,
    {
        self.0.set_userdata(witness, table, userdata)
    }

    /// The call that sets the delete behavior of this object.
    pub fn config_delete_behavior(&self, config: &DeleteBehaviorConfig) -> (r: DeleteBehaviorCall)
        ensures
            r == (DeleteBehaviorCall { target: self.syz_handle(), config: *config }),
    {
        self.0.config_delete_behavior(config)
    }

    /// The call that pauses this object.
    pub fn pause(&self) -> (r: ObjectCall)
        ensures
            r == ObjectCall::Pause(self.syz_handle()),
    {
        ObjectCall::Pause(self.0.to_syz_handle())
    }

    /// The call that lets this object play.
    pub fn play(&self) -> (r: ObjectCall)
        ensures
            r == ObjectCall::Play(self.syz_handle()),
    {
        ObjectCall::Play(self.0.to_syz_handle())
    }

    /// Casts this object to the wrapper type `T`, given the engine's answer
    /// to the query of its tag. See `Handle::cast_to`.
    pub fn cast_to<T: CastTarget>(&self, tag: Result<ObjectType, Error>) -> (r: Result<
        Option<(T, EngineCall)>,
        Error,
    >)
        ensures
            match tag {
                Err(e) => r == Err::<Option<(T, EngineCall)>, Error>(e),
                Ok(t) => if T::accepts_tag(t) {
                    r matches Ok(Some(pair)) && pair.0.object_id() == self.syz_handle() && pair.1
                        == call_owed(HandleOp::Clone, self.syz_handle())
                } else {
                    r == Ok::<Option<(T, EngineCall)>, Error>(None)
                },
            },
    {
        T::cast_from(&self.0, tag)
    }
}

impl ToSyzHandle for BufferGenerator {
    closed spec fn syz_handle(&self) -> u64 {
        self.0.id()
    }

    fn to_syz_handle(&self) -> (r: u64) {
        self.0.to_syz_handle()
    }
}

impl HandleRef for BufferGenerator {
    fn handle_ref(&self) -> (r: &Handle) {
        &self.0
    }
}

impl CastTarget for BufferGenerator {
    open spec fn accepts_tag(tag: ObjectType) -> bool {
        tag == ObjectType::BufferGenerator
    }

    open spec fn object_id(&self) -> u64 {
        self.syz_handle()
    }

    fn accepts(tag: ObjectType) -> (r: bool) {
        match tag {
            ObjectType::BufferGenerator => true,
            _ => false,
        }
    }

    fn cast_from(h: &Handle, tag: Result<ObjectType, Error>) -> (r: Result<
        Option<(BufferGenerator, EngineCall)>,
        Error,
    >) {
        match tag {
            Err(e) => Err(e),
            Ok(t) => {
                if Self::accepts(t) {
                    let (second, call) = h.clone_ref();
                    Ok(Some((Self::from_handle_internal(second), call)))
                } else {
                    Ok(None)
                }
            },
        }
    }
}

impl From<BufferGenerator> for Generator {
    fn from(input: BufferGenerator) -> (r: Generator) {
        Generator(input.0)
    }
}

impl FromSpecImpl<BufferGenerator> for Generator {
    open spec fn obeys_from_spec() -> bool {
        true
    }

    closed spec fn from_spec(input: BufferGenerator) -> Generator {
        Generator(input.0)
    }
}

impl From<BufferGenerator> for Handle {
    fn from(input: BufferGenerator) -> (r: Handle) {
        input.0
    }
}

impl FromSpecImpl<BufferGenerator> for Handle {
    open spec fn obeys_from_spec() -> bool {
        true
    }

    closed spec fn from_spec(input: BufferGenerator) -> Handle {
        input.0
    }
}

/// Converting a `BufferGenerator` to
/// `Generator` and `Handle` keeps the object, and every tag
/// that `BufferGenerator` accepts is accepted by what it converts to.
pub proof fn lemma_buffer_generator_upcasts(w: BufferGenerator)
    ensures
        <Generator as FromSpec<BufferGenerator>>::from_spec(w).syz_handle() == w.syz_handle(),
        forall|tag: ObjectType|
            BufferGenerator::accepts_tag(tag) ==> Generator::accepts_tag(tag),
        <Handle as FromSpec<BufferGenerator>>::from_spec(w).id() == w.syz_handle(),
        forall|tag: ObjectType|
            BufferGenerator::accepts_tag(tag) ==> Handle::accepts_tag(tag),
{
}

/// A generator of noise.
#[derive(Debug, PartialEq, Eq, PartialOrd, Ord, Hash)]
pub struct NoiseGenerator(pub(crate) Handle);

impl NoiseGenerator {
    /// The handle that this object holds.
    pub fn handle(&self) -> (r: &Handle)
        ensures
            r.id() == self.syz_handle(),
    {
        &self.0
    }

    /// Gives up the wrapper and keeps the handle.
    pub fn into_handle(self) -> (r: Handle)
        ensures
            r.id() == self.syz_handle(),
    {
        self.0
    }

    /// Reads the engine's answer to the constructor call for an object of
    /// this type: the status of the call, the identifier that it wrote, and
    /// the engine's last error message. On success the identifier carries
    /// one unit of the reference count, which the new wrapper owns.
    pub fn new(status: i32, id: u64, last_message: &str) -> (r: Result<Self, Error>)
        ensures
            r is Ok <==> status == STATUS_OK,
            r matches Ok(w) ==> w.syz_handle() == id,
            r matches Err(e) ==> e.is_error(status, last_message@),
    {
        match check_error(status, last_message) {
            Err(e) => Err(e),
            Ok(_) => Ok(Self::from_handle_internal(Handle::new(id))),
        }
    }

    /// Wraps a handle without looking at its tag. A handle of another kind
    /// of object gives a wrapper on which every engine call fails.
    pub(crate) fn from_handle_internal(h: Handle) -> (r: Self)
        ensures
            r.syz_handle() == h.id(),
    {
        NoiseGenerator(h)
    }

    /// A second wrapper around the same object, and the increment owed for
    /// it.
    pub fn clone_ref(&self) -> (r: (Self, EngineCall))
        ensures
            r.0.syz_handle() == self.syz_handle(),
            r.1 == call_owed(HandleOp::Clone, self.syz_handle()),
    {
        let (h, call) = self.0.clone_ref();
        (NoiseGenerator(h), call)
    }

    /// Gives the object up. The decrement owed for it is returned.
    pub fn release(self) -> (r: EngineCall)
        ensures
            r == call_owed(HandleOp::Drop, self.syz_handle()),
    {
        self.0.release()
    }

    /// Reads the engine's answer to a query of this object's type. See
    /// `Handle::get_type`.
    pub fn get_type(&self, status: i32, raw_tag: i32, last_message: &str) -> (r: Result<
        ObjectType,
        Error,
    >)
        ensures
            status != STATUS_OK ==> (r matches Err(e) && e.is_error(status, last_message@)),
            status == STATUS_OK ==> match ObjectType::decode(raw_tag) {
                Some(t) => r == Ok::<ObjectType, Error>(t),
                None => (r matches Err(e) && e.is_error(STATUS_LOCAL, UNKNOWN_TYPE@)),
            },
    {
        self.0.get_type(status, raw_tag, last_message)
    }

    /// The userdata of this object. See `Handle::get_userdata`.
    pub fn get_userdata<'a, P>(&self, witness: &Witness, table: &'a UserdataTable<P>) -> (r:
        Result<Option<&'a P>, Error>)
        requires
            witness.is_initialized() ==> table.is_live(self.syz_handle()),
        ensures
            r is Ok <==> witness.is_initialized(),
            r matches Ok(found) ==> match found {
                Some(p) => table@[self.syz_handle()].payload == Some(*p),
                None => table@[self.syz_handle()].payload is None,
            },
            r matches Err(e) ==> e.is_error(STATUS_LOCAL, NOT_INITIALIZED@),
    {
        self.0.get_userdata(witness, table)
    }

    /// Sets the userdata of this object, or clears it with `None`. See
    /// `Handle::set_userdata`.
    pub fn set_userdata<P>(
        &self,
        witness: &Witness,
        table: &mut UserdataTable<P>,
        userdata: Option<P>,
    ) -> (r: Result<(), Error>)
        requires
            old(table).wf(),
            witness.is_initialized() ==> old(table).is_live(self.syz_handle()),
        ensures
            final(table).wf(),
            final(table).threshold() == old(table).threshold(),
            r is Ok <==> witness.is_initialized(),
            r is Ok ==> final(table)@ == with_payload(old(table)@, self.syz_handle(), userdata),
            r matches Err(e) ==> e.is_error(STATUS_LOCAL, NOT_INITIALIZED@) && final(table)@
                == old(table)@,
    {
        self.0.set_userdata(witness, table, userdata)
    }

    /// The call that sets the delete behavior of this object.
    pub fn config_delete_behavior(&self, config: &DeleteBehaviorConfig) -> (r: DeleteBehaviorCall)
        ensures
            r == (DeleteBehaviorCall { target: self.syz_handle(), config: *config }),
    {
        self.0.config_delete_behavior(config)
    }

    /// The call that pauses this object.
    pub fn pause(&self) -> (r: ObjectCall)
        ensures
            r == ObjectCall::Pause(self.syz_handle()),
    {
        ObjectCall::Pause(self.0.to_syz_handle())
    }

    /// The call that lets this object play.
    pub fn play(&self) -> (r: ObjectCall)
        ensures
            r == ObjectCall::Play(self.syz_handle()),
    {
        ObjectCall::Play(self.0.to_syz_handle())
    }

    /// Casts this object to the wrapper type `T`, given the engine's answer
    /// to the query of its tag. See `Handle::cast_to`.
    pub fn cast_to<T: CastTarget>(&self, tag: Result<ObjectType, Error>) -> (r: Result<
        Option<(T, EngineCall)>,
        Error,
    >)
        ensures
            match tag {
                Err(e) => r == Err::<Option<(T, EngineCall)>, Error>(e),
                Ok(t) => if T::accepts_tag(t) {
                    r matches Ok(Some(pair)) && pair.0.object_id() == self.syz_handle() && pair.1
                        == call_owed(HandleOp::Clone, self.syz_handle())
                } else {
                    r == Ok::<Option<(T, EngineCall)>, Error>(None)
                },
            },
    {
        T::cast_from(&self.0, tag)
    }
}

impl ToSyzHandle for NoiseGenerator {
    closed spec fn syz_handle(&self) -> u64 {
        self.0.id()
    }

    fn to_syz_handle(&self) -> (r: u64) {
        self.0.to_syz_handle()
    }
}

impl HandleRef for NoiseGenerator {
    fn handle_ref(&self) -> (r: &Handle) {
        &self.0
    }
}

impl CastTarget for NoiseGenerator {
    open spec fn accepts_tag(tag: ObjectType) -> bool {
        tag == ObjectType::NoiseGenerator
    }

    open spec fn object_id(&self) -> u64 {
        self.syz_handle()
    }

    fn accepts(tag: ObjectType) -> (r: bool) {
        match tag {
            ObjectType::NoiseGenerator => true,
            _ => false,
        }
    }

    fn cast_from(h: &Handle, tag: Result<ObjectType, Error>) -> (r: Result<
        Option<(NoiseGenerator, EngineCall)>,
        Error,
    >) {
        match tag {
            Err(e) => Err(e),
            Ok(t) => {
                if Self::accepts(t) {
                    let (second, call) = h.clone_ref();
                    Ok(Some((Self::from_handle_internal(second), call)))
                } else {
                    Ok(None)
                }
            },
        }
    }
}

impl From<NoiseGenerator> for Generator {
    fn from(input: NoiseGenerator) -> (r: Generator) {
        Generator(input.0)
    }
}

impl FromSpecImpl<NoiseGenerator> for Generator {
    open spec fn obeys_from_spec() -> bool {
        true
    }

    closed spec fn from_spec(input: NoiseGenerator) -> Generator {
        Generator(input.0)
    }
}

impl From<NoiseGenerator> for Handle {
    fn from(input: NoiseGenerator) -> (r: Handle) {
        input.0
    }
}

impl FromSpecImpl<NoiseGenerator> for Handle {
    open spec fn obeys_from_spec() -> bool {
        true
    }

    closed spec fn from_spec(input: NoiseGenerator) -> Handle {
        input.0
    }
}

/// Converting a `NoiseGenerator` to
/// `Generator` and `Handle` keeps the object, and every tag
/// that `NoiseGenerator` accepts is accepted by what it converts to.
pub proof fn lemma_noise_generator_upcasts(w: NoiseGenerator)
    ensures
        <Generator as FromSpec<NoiseGenerator>>::from_spec(w).syz_handle() == w.syz_handle(),
        forall|tag: ObjectType|
            NoiseGenerator::accepts_tag(tag) ==> Generator::accepts_tag(tag),
        <Handle as FromSpec<NoiseGenerator>>::from_spec(w).id() == w.syz_handle(),
        forall|tag: ObjectType|
            NoiseGenerator::accepts_tag(tag) ==> Handle::accepts_tag(tag),
{
}

/// A generator that decodes a stream while it plays.
#[derive(Debug, PartialEq, Eq, PartialOrd, Ord, Hash)]
pub struct StreamingGenerator(pub(crate) Handle);

impl StreamingGenerator {
    /// The handle that this object holds.
    pub fn handle(&self) -> (r: &Handle)
        ensures
            r.id() == self.syz_handle(),
    {
        &self.0
    }

    /// Gives up the wrapper and keeps the handle.
    pub fn into_handle(self) -> (r: Handle)
        ensures
            r.id() == self.syz_handle(),
    {
        self.0
    }

    /// Reads the engine's answer to the constructor call for an object of
    /// this type: the status of the call, the identifier that it wrote, and
    /// the engine's last error message. On success the identifier carries
    /// one unit of the reference count, which the new wrapper owns.
    pub fn new(status: i32, id: u64, last_message: &str) -> (r: Result<Self, Error>)
        ensures
            r is Ok <==> status == STATUS_OK,
            r matches Ok(w) ==> w.syz_handle() == id,
            r matches Err(e) ==> e.is_error(status, last_message@),
    {
        match check_error(status, last_message) {
            Err(e) => Err(e),
            Ok(_) => Ok(Self::from_handle_internal(Handle::new(id))),
        }
    }

    /// Wraps a handle without looking at its tag. A handle of another kind
    /// of object gives a wrapper on which every engine call fails.
    pub(crate) fn from_handle_internal(h: Handle) -> (r: Self)
        ensures
            r.syz_handle() == h.id(),
    {
        StreamingGenerator(h)
    }

    /// A second wrapper around the same object, and the increment owed for
    /// it.
    pub fn clone_ref(&self) -> (r: (Self, EngineCall))
        ensures
            r.0.syz_handle() == self.syz_handle(),
            r.1 == call_owed(HandleOp::Clone, self.syz_handle()),
    {
        let (h, call) = self.0.clone_ref();
        (StreamingGenerator(h), call)
    }

    /// Gives the object up. The decrement owed for it is returned.
    pub fn release(self) -> (r: EngineCall)
        ensures
            r == call_owed(HandleOp::Drop, self.syz_handle()),
    {
        self.0.release()
    }

    /// Reads the engine's answer to a query of this object's type. See
    /// `Handle::get_type`.
    pub fn get_type(&self, status: i32, raw_tag: i32, last_message: &str) -> (r: Result<
        ObjectType,
        Error,
    >)
        ensures
            status != STATUS_OK ==> (r matches Err(e) && e.is_error(status, last_message@)),
            status == STATUS_OK ==> match ObjectType::decode(raw_tag) {
                Some(t) => r == Ok::<ObjectType, Error>(t),
                None => (r matches Err(e) && e.is_error(STATUS_LOCAL, UNKNOWN_TYPE@)),
            },
    {
        self.0.get_type(status, raw_tag, last_message)
    }

    /// The userdata of this object. See `Handle::get_userdata`.
    pub fn get_userdata<'a, P>(&self, witness: &Witness, table: &'a UserdataTable<P>) -> (r:
        Result<Option<&'a P>, Error>)
        requires
            witness.is_initialized() ==> table.is_live(self.syz_handle()),
        ensures
            r is Ok <==> witness.is_initialized(),
            r matches Ok(found) ==> match found {
                Some(p) => table@[self.syz_handle()].payload == Some(*p),
                None => table@[self.syz_handle()].payload is None,
            },
            r matches Err(e) ==> e.is_error(STATUS_LOCAL, NOT_INITIALIZED@),
    {
        self.0.get_userdata(witness, table)
    }

    /// Sets the userdata of this object, or clears it with `None`. See
    /// `Handle::set_userdata`.
    pub fn set_userdata<P>(
        &self,
        witness: &Witness,
        table: &mut UserdataTable<P>,
        userdata: Option<P>,
    ) -> (r: Result<(), Error>)
        requires
            old(table).wf(),
            witness.is_initialized() ==> old(table).is_live(self.syz_handle()),
        ensures
            final(table).wf(),
            final(table).threshold() == old(table).threshold(),
            r is Ok <==> witness.is_initialized(),
            r is Ok ==> final(table)@ == with_payload(old(table)@, self.syz_handle(), userdata),
            r matches Err(e) ==> e.is_error(STATUS_LOCAL, NOT_INITIALIZED@) && final(table)@
                == old(table)@,
    {
        self.0.set_userdata(witness, table, userdata)
    }

    /// The call that sets the delete behavior of this object.
    pub fn config_delete_behavior(&self, config: &DeleteBehaviorConfig) -> (r: DeleteBehaviorCall)
        ensures
            r == (DeleteBehaviorCall { target: self.syz_handle(), config: *config }),
    {
        self.0.config_delete_behavior(config)
    }

    /// The call that pauses this object.
    pub fn pause(&self) -> (r: ObjectCall)
        ensures
            r == ObjectCall::Pause(self.syz_handle()),
    {
        ObjectCall::Pause(self.0.to_syz_handle())
    }

    /// The call that lets this object play.
    pub fn play(&self) -> (r: ObjectCall)
        ensures
            r == ObjectCall::Play(self.syz_handle()),
    {
        ObjectCall::Play(self.0.to_syz_handle())
    }

    /// Casts this object to the wrapper type `T`, given the engine's answer
    /// to the query of its tag. See `Handle::cast_to`.
    pub fn cast_to<T: CastTarget>(&self, tag: Result<ObjectType, Error>) -> (r: Result<
        Option<(T, EngineCall)>,
        Error,
    >)
        ensures
            match tag {
                Err(e) => r == Err::<Option<(T, EngineCall)>, Error>(e),
                Ok(t) => if T::accepts_tag(t) {
                    r matches Ok(Some(pair)) && pair.0.object_id() == self.syz_handle() && pair.1
                        == call_owed(HandleOp::Clone, self.syz_handle())
                } else {
                    r == Ok::<Option<(T, EngineCall)>, Error>(None)
                },
            },
    {
        T::cast_from(&self.0, tag)
    }
}

impl ToSyzHandle for StreamingGenerator {
    closed spec fn syz_handle(&self) -> u64 {
        self.0.id()
    }

    fn to_syz_handle(&self) -> (r: u64) {
        self.0.to_syz_handle()
    }
}

impl HandleRef for StreamingGenerator {
    fn handle_ref(&self) -> (r: &Handle) {
        &self.0
    }
}

impl CastTarget for StreamingGenerator {
    open spec fn accepts_tag(tag: ObjectType) -> bool {
        tag == ObjectType::StreamingGenerator
    }

    open spec fn object_id(&self) -> u64 {
        self.syz_handle()
    }

    fn accepts(tag: ObjectType) -> (r: bool) {
        match tag {
            ObjectType::StreamingGenerator => true,
            _ => false,
        }
    }

    fn cast_from(h: &Handle, tag: Result<ObjectType, Error>) -> (r: Result<
        Option<(StreamingGenerator, EngineCall)>,
        Error,
    >) {
        match tag {
            Err(e) => Err(e),
            Ok(t) => {
                if Self::accepts(t) {
                    let (second, call) = h.clone_ref();
                    Ok(Some((Self::from_handle_internal(second), call)))
                } else {
                    Ok(None)
                }
            },
        }
    }
}

impl From<StreamingGenerator> for Generator {
    fn from(input: StreamingGenerator) -> (r: Generator) {
        Generator(input.0)
    }
}

impl FromSpecImpl<StreamingGenerator> for Generator {
    open spec fn obeys_from_spec() -> bool {
        true
    }

    closed spec fn from_spec(input: StreamingGenerator) -> Generator {
        Generator(input.0)
    }
}

impl From<StreamingGenerator> for Handle {
    fn from(input: StreamingGenerator) -> (r: Handle) {
        input.0
    }
}

impl FromSpecImpl<StreamingGenerator> for Handle {
    open spec fn obeys_from_spec() -> bool {
        true
    }

    closed spec fn from_spec(input: StreamingGenerator) -> Handle {
        input.0
    }
}

/// Converting a `StreamingGenerator` to
/// `Generator` and `Handle` keeps the object, and every tag
/// that `StreamingGenerator` accepts is accepted by what it converts to.
pub proof fn lemma_streaming_generator_upcasts(w: StreamingGenerator)
    ensures
        <Generator as FromSpec<StreamingGenerator>>::from_spec(w).syz_handle() == w.syz_handle(),
        forall|tag: ObjectType|
            StreamingGenerator::accepts_tag(tag) ==> Generator::accepts_tag(tag),
        <Handle as FromSpec<StreamingGenerator>>::from_spec(w).id() == w.syz_handle(),
        forall|tag: ObjectType|
            StreamingGenerator::accepts_tag(tag) ==> Handle::accepts_tag(tag),
{
}

/// A generator that sums a bank of sine waves.
#[derive(Debug, PartialEq, Eq, PartialOrd, Ord, Hash)]
pub struct FastSineBankGenerator(pub(crate) Handle);

impl FastSineBankGenerator {
    /// The handle that this object holds.
    pub fn handle(&self) -> (r: &Handle)
        ensures
            r.id() == self.syz_handle(),
    {
        &self.0
    }

    /// Gives up the wrapper and keeps the handle.
    pub fn into_handle(self) -> (r: Handle)
        ensures
            r.id() == self.syz_handle(),
    {
        self.0
    }

    /// Reads the engine's answer to the constructor call for an object of
    /// this type: the status of the call, the identifier that it wrote, and
    /// the engine's last error message. On success the identifier carries
    /// one unit of the reference count, which the new wrapper owns.
    pub fn new(status: i32, id: u64, last_message: &str) -> (r: Result<Self, Error>)
        ensures
            r is Ok <==> status == STATUS_OK,
            r matches Ok(w) ==> w.syz_handle() == id,
            r matches Err(e) ==> e.is_error(status, last_message@),
    {
        match check_error(status, last_message) {
            Err(e) => Err(e),
            Ok(_) => Ok(Self::from_handle_internal(Handle::new(id))),
        }
    }

    /// Wraps a handle without looking at its tag. A handle of another kind
    /// of object gives a wrapper on which every engine call fails.
    pub(crate) fn from_handle_internal(h: Handle) -> (r: Self)
        ensures
            r.syz_handle() == h.id(),
    {
        FastSineBankGenerator(h)
    }

    /// A second wrapper around the same object, and the increment owed for
    /// it.
    pub fn clone_ref(&self) -> (r: (Self, EngineCall))
        ensures
            r.0.syz_handle() == self.syz_handle(),
            r.1 == call_owed(HandleOp::Clone, self.syz_handle()),
    {
        let (h, call) = self.0.clone_ref();
        (FastSineBankGenerator(h), call)
    }

    /// Gives the object up. The decrement owed for it is returned.
    pub fn release(self) -> (r: EngineCall)
        ensures
            r == call_owed(HandleOp::Drop, self.syz_handle()),
    {
        self.0.release()
    }

    /// Reads the engine's answer to a query of this object's type. See
    /// `Handle::get_type`.
    pub fn get_type(&self, status: i32, raw_tag: i32, last_message: &str) -> (r: Result<
        ObjectType,
        Error,
    >)
        ensures
            status != STATUS_OK ==> (r matches Err(e) && e.is_error(status, last_message@)),
            status == STATUS_OK ==> match ObjectType::decode(raw_tag) {
                Some(t) => r == Ok::<ObjectType, Error>(t),
                None => (r matches Err(e) && e.is_error(STATUS_LOCAL, UNKNOWN_TYPE@)),
            },
    {
        self.0.get_type(status, raw_tag, last_message)
    }

    /// The userdata of this object. See `Handle::get_userdata`.
    pub fn get_userdata<'a, P>(&self, witness: &Witness, table: &'a UserdataTable<P>) -> (r:
        Result<Option<&'a P>, Error>)
        requires
            witness.is_initialized() ==> table.is_live(self.syz_handle()),
        ensures
            r is Ok <==> witness.is_initialized(),
            r matches Ok(found) ==> match found {
                Some(p) => table@[self.syz_handle()].payload == Some(*p),
                None => table@[self.syz_handle()].payload is None,
            },
            r matches Err(e) ==> e.is_error(STATUS_LOCAL, NOT_INITIALIZED@),
    {
        self.0.get_userdata(witness, table)
    }

    /// Sets the userdata of this object, or clears it with `None`. See
    /// `Handle::set_userdata`.
    pub fn set_userdata<P>(
        &self,
        witness: &Witness,
        table: &mut UserdataTable<P>,
        userdata: Option<P>,
    ) -> (r: Result<(), Error>)
        requires
            old(table).wf(),
            witness.is_initialized() ==> old(table).is_live(self.syz_handle()),
        ensures
            final(table).wf(),
            final(table).threshold() == old(table).threshold(),
            r is Ok <==> witness.is_initialized(),
            r is Ok ==> final(table)@ == with_payload(old(table)@, self.syz_handle(), userdata),
            r matches Err(e) ==> e.is_error(STATUS_LOCAL, NOT_INITIALIZED@) && final(table)@
                == old(table)@,
    {
        self.0.set_userdata(witness, table, userdata)
    }

    /// The call that sets the delete behavior of this object.
    pub fn config_delete_behavior(&self, config: &DeleteBehaviorConfig) -> (r: DeleteBehaviorCall)
        ensures
            r == (DeleteBehaviorCall { target: self.syz_handle(), config: *config }),
    {
        self.0.config_delete_behavior(config)
    }

    /// The call that pauses this object.
    pub fn pause(&self) -> (r: ObjectCall)
        ensures
            r == ObjectCall::Pause(self.syz_handle()),
    {
        ObjectCall::Pause(self.0.to_syz_handle())
    }

    /// The call that lets this object play.
    pub fn play(&self) -> (r: ObjectCall)
        ensures
            r == ObjectCall::Play(self.syz_handle()),
    {
        ObjectCall::Play(self.0.to_syz_handle())
    }

    /// Casts this object to the wrapper type `T`, given the engine's answer
    /// to the query of its tag. See `Handle::cast_to`.
    pub fn cast_to<T: CastTarget>(&self, tag: Result<ObjectType, Error>) -> (r: Result<
        Option<(T, EngineCall)>,
        Error,
    >)
        ensures
            match tag {
                Err(e) => r == Err::<Option<(T, EngineCall)>, Error>(e),
                Ok(t) => if T::accepts_tag(t) {
                    r matches Ok(Some(pair)) && pair.0.object_id() == self.syz_handle() && pair.1
                        == call_owed(HandleOp::Clone, self.syz_handle())
                } else {
                    r == Ok::<Option<(T, EngineCall)>, Error>(None)
                },
            },
    {
        T::cast_from(&self.0, tag)
    }
}

impl ToSyzHandle for FastSineBankGenerator {
    closed spec fn syz_handle(&self) -> u64 {
        self.0.id()
    }

    fn to_syz_handle(&self) -> (r: u64) {
        self.0.to_syz_handle()
    }
}

impl HandleRef for FastSineBankGenerator {
    fn handle_ref(&self) -> (r: &Handle) {
        &self.0
    }
}

impl CastTarget for FastSineBankGenerator {
    open spec fn accepts_tag(tag: ObjectType) -> bool {
        tag == ObjectType::FastSineBankGenerator
    }

    open spec fn object_id(&self) -> u64 {
        self.syz_handle()
    }

    fn accepts(tag: ObjectType) -> (r: bool) {
        match tag {
            ObjectType::FastSineBankGenerator => true,
            _ => false,
        }
    }

    fn cast_from(h: &Handle, tag: Result<ObjectType, Error>) -> (r: Result<
        Option<(FastSineBankGenerator, EngineCall)>,
        Error,
    >) {
        match tag {
            Err(e) => Err(e),
            Ok(t) => {
                if Self::accepts(t) {
                    let (second, call) = h.clone_ref();
                    Ok(Some((Self::from_handle_internal(second), call)))
                } else {
                    Ok(None)
                }
            },
        }
    }
}

impl From<FastSineBankGenerator> for Generator {
    fn from(input: FastSineBankGenerator) -> (r: Generator) {
        Generator(input.0)
    }
}

impl FromSpecImpl<FastSineBankGenerator> for Generator {
    open spec fn obeys_from_spec() -> bool {
        true
    }

    closed spec fn from_spec(input: FastSineBankGenerator) -> Generator {
        Generator(input.0)
    }
}

impl From<FastSineBankGenerator> for Handle {
    fn from(input: FastSineBankGenerator) -> (r: Handle) {
        input.0
    }
}

impl FromSpecImpl<FastSineBankGenerator> for Handle {
    open spec fn obeys_from_spec() -> bool {
        true
    }

    closed spec fn from_spec(input: FastSineBankGenerator) -> Handle {
        input.0
    }
}

/// Converting a `FastSineBankGenerator` to
/// `Generator` and `Handle` keeps the object, and every tag
/// that `FastSineBankGenerator` accepts is accepted by what it converts to.
pub proof fn lemma_fast_sine_bank_generator_upcasts(w: FastSineBankGenerator)
    ensures
        <Generator as FromSpec<FastSineBankGenerator>>::from_spec(w).syz_handle() == w.syz_handle(),
        forall|tag: ObjectType|
            FastSineBankGenerator::accepts_tag(tag) ==> Generator::accepts_tag(tag),
        <Handle as FromSpec<FastSineBankGenerator>>::from_spec(w).id() == w.syz_handle(),
        forall|tag: ObjectType|
            FastSineBankGenerator::accepts_tag(tag) ==> Handle::accepts_tag(tag),
{
}
impl StreamingGenerator {
    /// Runs the constructor call that streams the file at `path`, with a
    /// fresh userdata box. See `wrap_file_constructor`.
    pub fn from_file<P, F: FnOnce(u64) -> Result<StreamingGenerator, Error>>(
        path: &str,
        arena: &mut BoxArena<P>,
        closure: F,
    ) -> (r: Result<StreamingGenerator, Error>)
        requires
            old(arena).wf(),
            old(arena).can_allocate(),
            is_c_text(path@) ==> closure.requires((old(arena).next_token(),)),
        ensures
            final(arena).wf(),
            !is_c_text(path@) ==> (r matches Err(e) && e.is_error(STATUS_LOCAL, PATH_HAS_NUL@)),
            is_c_text(path@) ==> closure.ensures((old(arena).next_token(),), r),
            r is Err ==> final(arena)@ == old(arena)@,
            r is Ok ==> final(arena)@ == old(arena)@.insert(
                old(arena).next_token(),
                UserdataBox { userdata: None, streaming_userdata: None },
            ),
            final(arena).next_token() == if is_c_text(path@) {
                old(arena).next_token() + 1
            } else {
                old(arena).next_token() as int
            },
    {
        wrap_file_constructor(path, arena, closure)
    }

    /// Runs the constructor call that streams from a stream handle, which
    /// is used up. What the stream keeps alive moves into the userdata box
    /// of the new generator. See `StreamHandle::with_userdata`.
    pub fn from_stream_handle<P, F: FnOnce(u64, u64) -> Result<StreamingGenerator, Error>>(
        handle: StreamHandle,
        arena: &mut BoxArena<P>,
        closure: F,
    ) -> (r: (Result<StreamingGenerator, Error>, EngineCall))
        requires
            old(arena).wf(),
            old(arena).can_allocate(),
            closure.requires((handle.id(), old(arena).next_token())),
        ensures
            final(arena).wf(),
            closure.ensures((handle.id(), old(arena).next_token()), r.0),
            r.1 == call_owed(HandleOp::Drop, handle.id()),
            r.0 is Err ==> final(arena)@ == old(arena)@,
            r.0 is Ok ==> final(arena)@ == old(arena)@.insert(
                old(arena).next_token(),
                UserdataBox { userdata: None, streaming_userdata: handle.backing() },
            ),
            final(arena).next_token() == old(arena).next_token() + 1,
    {
        handle.with_userdata(arena, closure)
    }

    /// Runs the constructor call that streams from a protocol name, a path
    /// and a parameter, with a fresh userdata box.
    ///
    /// A protocol or a path that cannot be a C string gives a local error:
    /// the closure is not run and no box is made.
    pub fn from_stream_params<P, F: FnOnce(u64) -> Result<StreamingGenerator, Error>>(
        protocol: &str,
        path: &str,
        param: usize,
        arena: &mut BoxArena<P>,
        closure: F,
    ) -> (r: Result<StreamingGenerator, Error>)
        requires
            old(arena).wf(),
            old(arena).can_allocate(),
            is_c_text(protocol@) && is_c_text(path@) ==> closure.requires(
                (old(arena).next_token(),),
            ),
        ensures
            final(arena).wf(),
            !is_c_text(protocol@) ==> (r matches Err(e) && e.is_error(
                STATUS_LOCAL,
                BAD_PROTOCOL@,
            )),
            is_c_text(protocol@) && !is_c_text(path@) ==> (r matches Err(e) && e.is_error(
                STATUS_LOCAL,
                BAD_PATH@,
            )),
            is_c_text(protocol@) && is_c_text(path@) ==> closure.ensures(
                (old(arena).next_token(),),
                r,
            ),
            r is Err ==> final(arena)@ == old(arena)@,
            r is Ok ==> final(arena)@ == old(arena)@.insert(
                old(arena).next_token(),
                UserdataBox { userdata: None, streaming_userdata: None },
            ),
            final(arena).next_token() == if is_c_text(protocol@) && is_c_text(path@) {
                old(arena).next_token() + 1
            } else {
                old(arena).next_token() as int
            },
    {
        match StreamHandle::check_stream_params(protocol, path) {
            Err(e) => Err(e),
            Ok(_) => wrap_constructor(arena, closure),
        }
    }
}

/// The message of the error for a sine bank without waves.
pub const NO_WAVES: &'static str = "Cannot build FastSineBankGenerator with no waves";

impl FastSineBankGenerator {
    /// Runs the constructor call that builds a generator from the given
    /// waves, with a fresh userdata box.
    ///
    /// A bank needs a wave: without one the result is a local error, the
    /// closure is not run and no box is made.
    pub fn from_waves<P, F: FnOnce(u64) -> Result<FastSineBankGenerator, Error>>(
        waves: &Vec<SineBankWave>,
        arena: &mut BoxArena<P>,
        closure: F,
    ) -> (r: Result<FastSineBankGenerator, Error>)
        requires
            old(arena).wf(),
            old(arena).can_allocate(),
            waves@.len() > 0 ==> closure.requires((old(arena).next_token(),)),
        ensures
            final(arena).wf(),
            waves@.len() == 0 ==> (r matches Err(e) && e.is_error(STATUS_LOCAL, NO_WAVES@)),
            waves@.len() > 0 ==> closure.ensures((old(arena).next_token(),), r),
            r is Err ==> final(arena)@ == old(arena)@,
            r is Ok ==> final(arena)@ == old(arena)@.insert(
                old(arena).next_token(),
                UserdataBox { userdata: None, streaming_userdata: None },
            ),
            final(arena).next_token() == if waves@.len() > 0 {
                old(arena).next_token() + 1
            } else {
                old(arena).next_token() as int
            },
    {
        if waves.len() == 0 {
            return Err(Error::rust_error(NO_WAVES));
        }
        wrap_constructor(arena, closure)
    }
}

/// One sine wave of a bank: the multiple of the bank's frequency that it
/// runs at, its phase and its gain, each as the bits of a double.
#[derive(Copy, Clone, Debug, PartialEq, Eq, Structural)]
pub struct SineBankWave {
    pub frequency_mul: u64,
    pub phase: u64,
    pub gain: u64,
}

impl SineBankWave {
    pub fn new(frequency_mul: u64, phase: u64, gain: u64) -> (r: SineBankWave)
        ensures
            r == (SineBankWave { frequency_mul, phase, gain }),
    {
        SineBankWave { frequency_mul, phase, gain }
    }
}

/// Marks what can be handed to a source as a generator. A plain handle
/// qualifies: the engine checks the object's type again.
pub trait IsGenerator: ToSyzHandle {
}

impl IsGenerator for Handle {
}

impl IsGenerator for Generator {
}

impl IsGenerator for BufferGenerator {
}

impl IsGenerator for NoiseGenerator {
}

impl IsGenerator for StreamingGenerator {
}

impl IsGenerator for FastSineBankGenerator {
}

} // verus!
