//! Sources: the objects that generators are played through.
use vstd::prelude::*;
use vstd::std_specs::convert::{FromSpec, FromSpecImpl};
use crate::casting::CastTarget;
use crate::delete_config::{DeleteBehaviorCall, DeleteBehaviorConfig};
use crate::enums::{I32TransmutableEnum, ObjectType};
use crate::errors::{check_error, Error, STATUS_LOCAL, STATUS_OK};
use crate::generator::IsGenerator;
use crate::handle::{
    call_owed, EngineCall, Handle, HandleOp, HandleRef, ObjectCall, ToSyzHandle, UNKNOWN_TYPE,
};
use crate::initialization::{Witness, NOT_INITIALIZED};
use crate::userdata::{with_payload, UserdataTable};

verus! {

/// The base of all sources. Every kind of source converts to it.
#[derive(Debug, PartialEq, Eq, PartialOrd, Ord, Hash)]
pub struct Source(pub(crate) Handle);

impl Source {
    /// The handle that this object holds.
    pub fn handle(&self) -> (r: &Handle)
        ensures
            r.id() == self.syz_handle(),
    {
        &self.0
    }

    /// Gives up the wrapper and keeps the handle.
    pub fn into_handle(self) -> (r: Handle)
        ensures
            r.id() == self.syz_handle(),
    {
        self.0
    }

    /// Reads the engine's answer to the constructor call for an object of
    /// this type: the status of the call, the identifier that it wrote, and
    /// the engine's last error message. On success the identifier carries
    /// one unit of the reference count, which the new wrapper owns.
    pub fn new(status: i32, id: u64, last_message: &str) -> (r: Result<Self, Error>)
        ensures
            r is Ok <==> status == STATUS_OK,
            r matches Ok(w) ==> w.syz_handle() == id,
            r matches Err(e) ==> e.is_error(status, last_message@),
    {
        match check_error(status, last_message) {
            Err(e) => Err(e),
            Ok(_) => Ok(Self::from_handle_internal(Handle::new(id))),
        }
    }

    /// Wraps a handle without looking at its tag. A handle of another kind
    /// of object gives a wrapper on which every engine call fails.
    pub(crate) fn from_handle_internal(h: Handle) -> (r: Self)
        ensures
            r.syz_handle() == h.id(),
    {
        Source(h)
    }

    /// A second wrapper around the same object, and the increment owed for
    /// it.
    pub fn clone_ref(&self) -> (r: (Self, EngineCall))
        ensures
            r.0.syz_handle() == self.syz_handle(),
            r.1 == call_owed(HandleOp::Clone, self.syz_handle()),
    {
        let (h, call) = self.0.clone_ref();
        (Source(h), call)
    }

    /// Gives the object up. The decrement owed for it is returned.
    pub fn release(self) -> (r: EngineCall)
        ensures
            r == call_owed(HandleOp::Drop, self.syz_handle()),
    {
        self.0.release()
    }

    /// Reads the engine's answer to a query of this object's type. See
    /// `Handle::get_type`.
    pub fn get_type(&self, status: i32, raw_tag: i32, last_message: &str) -> (r: Result<
        ObjectType,
        Error,
    >)
        ensures
            status != STATUS_OK ==> (r matches Err(e) && e.is_error(status, last_message@)),
            status == STATUS_OK ==> match ObjectType::decode(raw_tag) {
                Some(t) => r == Ok::<ObjectType, Error>(t),
                None => (r matches Err(e) && e.is_error(STATUS_LOCAL, UNKNOWN_TYPE@)),
            },
    {
        self.0.get_type(status, raw_tag, last_message)
    }

    /// The userdata of this object. See `Handle::get_userdata`.
    pub fn get_userdata<'a, P>(&self, witness: &Witness, table: &'a UserdataTable<P>) -> (r:
        Result<Option<&'a P>, Error>)
        requires
            witness.is_initialized() ==> table.is_live(self.syz_handle()),
        ensures
            r is Ok <==> witness.is_initialized(),
            r matches Ok(found) ==> match found {
                Some(p) => table@[self.syz_handle()].payload == Some(*p),
                None => table@[self.syz_handle()].payload is None,
            },
            r matches Err(e) ==> e.is_error(STATUS_LOCAL, NOT_INITIALIZED@),
    {
        self.0.get_userdata(witness, table)
    }

    /// Sets the userdata of this object, or clears it with `None`. See
    /// `Handle::set_userdata`.
    pub fn set_userdata<P>(
        &self,
        witness: &Witness,
        table: &mut UserdataTable<P>,
        userdata: Option<P>,
    ) -> (r: Result<(), Error>)
        requires
            old(table).wf(),
            witness.is_initialized() ==> old(table).is_live(self.syz_handle()),
        ensures
            final(table).wf(),
            final(table).threshold() == old(table).threshold(),
            r is Ok <==> witness.is_initialized(),
            r is Ok ==> final(table)@ == with_payload(old(table)@, self.syz_handle(), userdata),
            r matches Err(e) ==> e.is_error(STATUS_LOCAL, NOT_INITIALIZED@) && final(table)@
                == old(table)@,
    {
        self.0.set_userdata(witness, table, userdata)
    }

    /// The call that sets the delete behavior of this object.
    pub fn config_delete_behavior(&self, config: &DeleteBehaviorConfig) -> (r: DeleteBehaviorCall)
        ensures
            r == (DeleteBehaviorCall { target: self.syz_handle(), config: *config }),
    {
        self.0.config_delete_behavior(config)
    }

    /// The call that pauses this object.
    pub fn pause(&self) -> (r: ObjectCall)
        ensures
            r == ObjectCall::Pause(self.syz_handle()),
    {
        ObjectCall::Pause(self.0.to_syz_handle())
    }

    /// The call that lets this object play.
    pub fn play(&self) -> (r: ObjectCall)
        ensures
            r == ObjectCall::Play(self.syz_handle()),
    {
        ObjectCall::Play(self.0.to_syz_handle())
    }

    /// The call that lets this source play the generator.
    pub fn add_generator<G: IsGenerator>(&self, generator: &G) -> (r: ObjectCall)
        ensures
            r == (ObjectCall::AddGenerator {
                source: self.syz_handle(),
                generator: generator.syz_handle(),
            }),
    {
        ObjectCall::AddGenerator {
            source: self.0.to_syz_handle(),
            generator: generator.to_syz_handle(),
        }
    }

    /// The call that stops this source from playing the generator.
    pub fn remove_generator<G: IsGenerator>(&self, generator: &G) -> (r: ObjectCall)
        ensures
            r == (ObjectCall::RemoveGenerator {
                source: self.syz_handle(),
                generator: generator.syz_handle(),
            }),
    {
        ObjectCall::RemoveGenerator {
            source: self.0.to_syz_handle(),
            generator: generator.to_syz_handle(),
        }
    }

    /// Casts this object to the wrapper type `T`, given the engine's answer
    /// to the query of its tag. See `Handle::cast_to`.
    pub fn cast_to<T: CastTarget>(&self, tag: Result<ObjectType, Error>) -> (r: Result<
        Option<(T, EngineCall)>,
        Error,
    >)
        ensures
            match tag {
                Err(e) => r == Err::<Option<(T, EngineCall)>, Error>(e),
                Ok(t) => if T::accepts_tag(t) {
                    r matches Ok(Some(pair)) && pair.0.object_id() == self.syz_handle() && pair.1
                        == call_owed(HandleOp::Clone, self.syz_handle())
                } else {
                    r == Ok::<Option<(T, EngineCall)>, Error>(None)
                },
            },
    {
        T::cast_from(&self.0, tag)
    }
}

impl ToSyzHandle for Source {
    closed spec fn syz_handle(&self) -> u64 {
        self.0.id()
    }

    fn to_syz_handle(&self) -> (r: u64) {
        self.0.to_syz_handle()
    }
}

impl HandleRef for Source {
    fn handle_ref(&self) -> (r: &Handle) {
        &self.0
    }
}

impl CastTarget for Source {
    open spec fn accepts_tag(tag: ObjectType) -> bool {
        tag == ObjectType::DirectSource
            || tag == ObjectType::AngularPannedSource
            || tag == ObjectType::ScalarPannedSource
            || tag == ObjectType::Source3D
    }

    open spec fn object_id(&self) -> u64 {
        self.syz_handle()
    }

    fn accepts(tag: ObjectType) -> (r: bool) {
        match tag {
            ObjectType::DirectSource
            | ObjectType::AngularPannedSource
            | ObjectType::ScalarPannedSource
            | ObjectType::Source3D => true,
            _ => false,
        }
    }

    fn cast_from(h: &Handle, tag: Result<ObjectType, Error>) -> (r: Result<
        Option<(Source, EngineCall)>,
        Error,
    >) {
        match tag {
            Err(e) => Err(e),
            Ok(t) => {
                if Self::accepts(t) {
                    let (second, call) = h.clone_ref();
                    Ok(Some((Self::from_handle_internal(second), call)))
                } else {
                    Ok(None)
                }
            },
        }
    }
}

impl From<Source> for Handle {
    fn from(input: Source) -> (r: Handle) {
        input.0
    }
}

impl FromSpecImpl<Source> for Handle {
    open spec fn obeys_from_spec() -> bool {
        true
    }

    closed spec fn from_spec(input: Source) -> Handle {
        input.0
    }
}

/// Converting a `Source` to
/// `Handle` keeps the object, and every tag
/// that `Source` accepts is accepted by what it converts to.
pub proof fn lemma_source_upcasts(w: Source)
    ensures
        <Handle as FromSpec<Source>>::from_spec(w).id() == w.syz_handle(),
        forall|tag: ObjectType|
            Source::accepts_tag(tag) ==> Handle::accepts_tag(tag),
{
}

/// A source that plays its generators without panning.
#[derive(Debug, PartialEq, Eq, PartialOrd, Ord, Hash)]
pub struct DirectSource(pub(crate) Handle);

impl DirectSource {
    /// The handle that this object holds.
    pub fn handle(&self) -> (r: &Handle)
        ensures
            r.id() == self.syz_handle(),
    {
        &self.0
    }

    /// Gives up the wrapper and keeps the handle.
    pub fn into_handle(self) -> (r: Handle)
        ensures
            r.id() == self.syz_handle(),
    {
        self.0
    }

    /// Reads the engine's answer to the constructor call for an object of
    /// this type: the status of the call, the identifier that it wrote, and
    /// the engine's last error message. On success the identifier carries
    /// one unit of the reference count, which the new wrapper owns.
    pub fn new(status: i32, id: u64, last_message: &str) -> (r: Result<Self, Error>)
        ensures
            r is Ok <==> status == STATUS_OK,
            r matches Ok(w) ==> w.syz_handle() == id,
            r matches Err(e) ==> e.is_error(status, last_message@),
    {
        match check_error(status, last_message) {
            Err(e) => Err(e),
            Ok(_) => Ok(Self::from_handle_internal(Handle::new(id))),
        }
    }

    /// Wraps a handle without looking at its tag. A handle of another kind
    /// of object gives a wrapper on which every engine call fails.
    pub(crate) fn from_handle_internal(h: Handle) -> (r: Self)
        ensures
            r.syz_handle() == h.id(),
    {
        DirectSource(h)
    }

    /// A second wrapper around the same object, and the increment owed for
    /// it.
    pub fn clone_ref(&self) -> (r: (Self, EngineCall))
        ensures
            r.0.syz_handle() == self.syz_handle(),
            r.1 == call_owed(HandleOp::Clone, self.syz_handle()),
    {
        let (h, call) = self.0.clone_ref();
        (DirectSource(h), call)
    }

    /// Gives the object up. The decrement owed for it is returned.
    pub fn release(self) -> (r: EngineCall)
        ensures
            r == call_owed(HandleOp::Drop, self.syz_handle()),
    {
        self.0.release()
    }

    /// Reads the engine's answer to a query of this object's type. See
    /// `Handle::get_type`.
    pub fn get_type(&self, status: i32, raw_tag: i32, last_message: &str) -> (r: Result<
        ObjectType,
        Error,
    >)
        ensures
            status != STATUS_OK ==> (r matches Err(e) && e.is_error(status, last_message@)),
            status == STATUS_OK ==> match ObjectType::decode(raw_tag) {
                Some(t) => r == Ok::<ObjectType, Error>(t),
                None => (r matches Err(e) && e.is_error(STATUS_LOCAL, UNKNOWN_TYPE@)),
            },
    {
        self.0.get_type(status, raw_tag, last_message)
    }

    /// The userdata of this object. See `Handle::get_userdata`.
    pub fn get_userdata<'a, P>(&self, witness: &Witness, table: &'a UserdataTable<P>) -> (r:
        Result<Option<&'a P>, Error>)
        requires
            witness.is_initialized() ==> table.is_live(self.syz_handle()),
        ensures
            r is Ok <==> witness.is_initialized(),
            r matches Ok(found) ==> match found {
                Some(p) => table@[self.syz_handle()].payload == Some(*p),
                None => table@[self.syz_handle()].payload is None,
            },
            r matches Err(e) ==> e.is_error(STATUS_LOCAL, NOT_INITIALIZED@),
    {
        self.0.get_userdata(witness, table)
    }

    /// Sets the userdata of this object, or clears it with `None`. See
    /// `Handle::set_userdata`.
    pub fn set_userdata<P>(
        &self,
        witness: &Witness,
        table: &mut UserdataTable<P>,
        userdata: Option<P>,
    ) -> (r: Result<(), Error>)
        requires
            old(table).wf(),
            witness.is_initialized() ==> old(table).is_live(self.syz_handle()),
        ensures
            final(table).wf(),
            final(table).threshold() == old(table).threshold(),
            r is Ok <==> witness.is_initialized(),
            r is Ok ==> final(table)@ == with_payload(old(table)@, self.syz_handle(), userdata),
            r matches Err(e) ==> e.is_error(STATUS_LOCAL, NOT_INITIALIZED@) && final(table)@
                == old(table)@,
    {
        self.0.set_userdata(witness, table, userdata)
    }

    /// The call that sets the delete behavior of this object.
    pub fn config_delete_behavior(&self, config: &DeleteBehaviorConfig) -> (r: DeleteBehaviorCall)
        ensures
            r == (DeleteBehaviorCall { target: self.syz_handle(), config: *config }),
    {
        self.0.config_delete_behavior(config)
    }

    /// The call that pauses this object.
    pub fn pause(&self) -> (r: ObjectCall)
        ensures
            r == ObjectCall::Pause(self.syz_handle()),
    {
        ObjectCall::Pause(self.0.to_syz_handle())
    }

    /// The call that lets this object play.
    pub fn play(&self) -> (r: ObjectCall)
        ensures
            r == ObjectCall::Play(self.syz_handle()),
    {
        ObjectCall::Play(self.0.to_syz_handle())
    }

    /// The call that lets this source play the generator.
    pub fn add_generator<G: IsGenerator>(&self, generator: &G) -> (r: ObjectCall)
        ensures
            r == (ObjectCall::AddGenerator {
                source: self.syz_handle(),
                generator: generator.syz_handle(),
            }),
    {
        ObjectCall::AddGenerator {
            source: self.0.to_syz_handle(),
            generator: generator.to_syz_handle(),
        }
    }

    /// The call that stops this source from playing the generator.
    pub fn remove_generator<G: IsGenerator>(&self, generator: &G) -> (r: ObjectCall)
        ensures
            r == (ObjectCall::RemoveGenerator {
                source: self.syz_handle(),
                generator: generator.syz_handle(),
            }),
    {
        ObjectCall::RemoveGenerator {
            source: self.0.to_syz_handle(),
            generator: generator.to_syz_handle(),
        }
    }

    /// Casts this object to the wrapper type `T`, given the engine's answer
    /// to the query of its tag. See `Handle::cast_to`.
    pub fn cast_to<T: CastTarget>(&self, tag: Result<ObjectType, Error>) -> (r: Result<
        Option<(T, EngineCall)>,
        Error,
    >)
        ensures
            match tag {
                Err(e) => r == Err::<Option<(T, EngineCall)>, Error>(e),
                Ok(t) => if T::accepts_tag(t) {
                    r matches Ok(Some(pair)) && pair.0.object_id() == self.syz_handle() && pair.1
                        == call_owed(HandleOp::Clone, self.syz_handle())
                } else {
                    r == Ok::<Option<(T, EngineCall)>, Error>(None)
                },
            },
    {
        T::cast_from(&self.0, tag)
    }
}

impl ToSyzHandle for DirectSource {
    closed spec fn syz_handle(&self) -> u64 {
        self.0.id()
    }

    fn to_syz_handle(&self) -> (r: u64) {
        self.0.to_syz_handle()
    }
}

impl HandleRef for DirectSource {
    fn handle_ref(&self) -> (r: &Handle) {
        &self.0
    }
}

impl CastTarget for DirectSource {
    open spec fn accepts_tag(tag: ObjectType) -> bool {
        tag == ObjectType::DirectSource
    }

    open spec fn object_id(&self) -> u64 {
        self.syz_handle()
    }

    fn accepts(tag: ObjectType) -> (r: bool) {
        match tag {
            ObjectType::DirectSource => true,
            _ => false,
        }
    }

    fn cast_from(h: &Handle, tag: Result<ObjectType, Error>) -> (r: Result<
        Option<(DirectSource, EngineCall)>,
        Error,
    >) {
        match tag {
            Err(e) => Err(e),
            Ok(t) => {
                if Self::accepts(t) {
                    let (second, call) = h.clone_ref();
                    Ok(Some((Self::from_handle_internal(second), call)))
                } else {
                    Ok(None)
                }
            },
        }
    }
}

impl From<DirectSource> for Source {
    fn from(input: DirectSource) -> (r: Source) {
        Source(input.0)
    }
}

impl FromSpecImpl<DirectSource> for Source {
    open spec fn obeys_from_spec() -> bool {
        true
    }

    closed spec fn from_spec(input: DirectSource) -> Source {
        Source(input.0)
    }
}

impl From<DirectSource> for Handle {
    fn from(input: DirectSource) -> (r: Handle) {
        input.0
    }
}

impl FromSpecImpl<DirectSource> for Handle {
    open spec fn obeys_from_spec() -> bool {
        true
    }

    closed spec fn from_spec(input: DirectSource) -> Handle {
        input.0
    }
}

/// Converting a `DirectSource` to
/// `Source` and `Handle` keeps the object, and every tag
/// that `DirectSource` accepts is accepted by what it converts to.
pub proof fn lemma_direct_source_upcasts(w: DirectSource)
    ensures
        <Source as FromSpec<DirectSource>>::from_spec(w).syz_handle() == w.syz_handle(),
        forall|tag: ObjectType|
            DirectSource::accepts_tag(tag) ==> Source::accepts_tag(tag),
        <Handle as FromSpec<DirectSource>>::from_spec(w).id() == w.syz_handle(),
        forall|tag: ObjectType|
            DirectSource::accepts_tag(tag) ==> Handle::accepts_tag(tag),
{
}

/// A source panned by azimuth and elevation.
#[derive(Debug, PartialEq, Eq, PartialOrd, Ord, Hash)]
pub struct AngularPannedSource(pub(crate) Handle);

impl AngularPannedSource {
    /// The handle that this object holds.
    pub fn handle(&self) -> (r: &Handle)
        ensures
            r.id() == self.syz_handle(),
    {
        &self.0
    }

    /// Gives up the wrapper and keeps the handle.
    pub fn into_handle(self) -> (r: Handle)
        ensures
            r.id() == self.syz_handle(),
    {
        self.0
    }

    /// Reads the engine's answer to the constructor call for an object of
    /// this type: the status of the call, the identifier that it wrote, and
    /// the engine's last error message. On success the identifier carries
    /// one unit of the reference count, which the new wrapper owns.
    pub fn new(status: i32, id: u64, last_message: &str) -> (r: Result<Self, Error>)
        ensures
            r is Ok <==> status == STATUS_OK,
            r matches Ok(w) ==> w.syz_handle() == id,
            r matches Err(e) ==> e.is_error(status, last_message@),
    {
        match check_error(status, last_message) {
            Err(e) => Err(e),
            Ok(_) => Ok(Self::from_handle_internal(Handle::new(id))),
        }
    }

    /// Wraps a handle without looking at its tag. A handle of another kind
    /// of object gives a wrapper on which every engine call fails.
    pub(crate) fn from_handle_internal(h: Handle) -> (r: Self)
        ensures
            r.syz_handle() == h.id(),
    {
        AngularPannedSource(h)
    }

    /// A second wrapper around the same object, and the increment owed for
    /// it.
    pub fn clone_ref(&self) -> (r: (Self, EngineCall))
        ensures
            r.0.syz_handle() == self.syz_handle(),
            r.1 == call_owed(HandleOp::Clone, self.syz_handle()),
    {
        let (h, call) = self.0.clone_ref();
        (AngularPannedSource(h), call)
    }

    /// Gives the object up. The decrement owed for it is returned.
    pub fn release(self) -> (r: EngineCall)
        ensures
            r == call_owed(HandleOp::Drop, self.syz_handle()),
    {
        self.0.release()
    }

    /// Reads the engine's answer to a query of this object's type. See
    /// `Handle::get_type`.
    pub fn get_type(&self, status: i32, raw_tag: i32, last_message: &str) -> (r: Result<
        ObjectType,
        Error,
    >)
        ensures
            status != STATUS_OK ==> (r matches Err(e) && e.is_error(status, last_message@)),
            status == STATUS_OK ==> match ObjectType::decode(raw_tag) {
                Some(t) => r == Ok::<ObjectType, Error>(t),
                None => (r matches Err(e) && e.is_error(STATUS_LOCAL, UNKNOWN_TYPE@)),
            },
    {
        self.0.get_type(status, raw_tag, last_message)
    }

    /// The userdata of this object. See `Handle::get_userdata`.
    pub fn get_userdata<'a, P>(&self, witness: &Witness, table: &'a UserdataTable<P>) -> (r:
        Result<Option<&'a P>, Error>)
        requires
            witness.is_initialized() ==> table.is_live(self.syz_handle()),
        ensures
            r is Ok <==> witness.is_initialized(),
            r matches Ok(found) ==> match found {
                Some(p) => table@[self.syz_handle()].payload == Some(*p),
                None => table@[self.syz_handle()].payload is None,
            },
            r matches Err(e) ==> e.is_error(STATUS_LOCAL, NOT_INITIALIZED@),
    {
        self.0.get_userdata(witness, table)
    }

    /// Sets the userdata of this object, or clears it with `None`. See
    /// `Handle::set_userdata`.
    pub fn set_userdata<P>(
        &self,
        witness: &Witness,
        table: &mut UserdataTable<P>,
        userdata: Option<P>,
    ) -> (r: Result<(), Error>)
        requires
            old(table).wf(),
            witness.is_initialized() ==> old(table).is_live(self.syz_handle()),
        ensures
            final(table).wf(),
            final(table).threshold() == old(table).threshold(),
            r is Ok <==> witness.is_initialized(),
            r is Ok ==> final(table)@ == with_payload(old(table)@, self.syz_handle(), userdata),
            r matches Err(e) ==> e.is_error(STATUS_LOCAL, NOT_INITIALIZED@) && final(table)@
                == old(table)@,
    {
        self.0.set_userdata(witness, table, userdata)
    }

    /// The call that sets the delete behavior of this object.
    pub fn config_delete_behavior(&self, config: &DeleteBehaviorConfig) -> (r: DeleteBehaviorCall)
        ensures
            r == (DeleteBehaviorCall { target: self.syz_handle(), config: *config }),
    {
        self.0.config_delete_behavior(config)
    }

    /// The call that pauses this object.
    pub fn pause(&self) -> (r: ObjectCall)
        ensures
            r == ObjectCall::Pause(self.syz_handle()),
    {
        ObjectCall::Pause(self.0.to_syz_handle())
    }

    /// The call that lets this object play.
    pub fn play(&self) -> (r: ObjectCall)
        ensures
            r == ObjectCall::Play(self.syz_handle()),
    {
        ObjectCall::Play(self.0.to_syz_handle())
    }

    /// The call that lets this source play the generator.
    pub fn add_generator<G: IsGenerator>(&self, generator: &G) -> (r: ObjectCall)
        ensures
            r == (ObjectCall::AddGenerator {
                source: self.syz_handle(),
                generator: generator.syz_handle(),
            }),
    {
        ObjectCall::AddGenerator {
            source: self.0.to_syz_handle(),
            generator: generator.to_syz_handle(),
        }
    }

    /// The call that stops this source from playing the generator.
    pub fn remove_generator<G: IsGenerator>(&self, generator: &G) -> (r: ObjectCall)
        ensures
            r == (ObjectCall::RemoveGenerator {
                source: self.syz_handle(),
                generator: generator.syz_handle(),
            }),
    {
        ObjectCall::RemoveGenerator {
            source: self.0.to_syz_handle(),
            generator: generator.to_syz_handle(),
        }
    }

    /// Casts this object to the wrapper type `T`, given the engine's answer
    /// to the query of its tag. See `Handle::cast_to`.
    pub fn cast_to<T: CastTarget>(&self, tag: Result<ObjectType, Error>) -> (r: Result<
        Option<(T, EngineCall)>,
        Error,
    >)
        ensures
            match tag {
                Err(e) => r == Err::<Option<(T, EngineCall)>, Error>(e),
                Ok(t) => if T::accepts_tag(t) {
                    r matches Ok(Some(pair)) && pair.0.object_id() == self.syz_handle() && pair.1
                        == call_owed(HandleOp::Clone, self.syz_handle())
                } else {
                    r == Ok::<Option<(T, EngineCall)>, Error>(None)
                },
            },
    {
        T::cast_from(&self.0, tag)
    }
}

impl ToSyzHandle for AngularPannedSource {
    closed spec fn syz_handle(&self) -> u64 {
        self.0.id()
    }

    fn to_syz_handle(&self) -> (r: u64) {
        self.0.to_syz_handle()
    }
}

impl HandleRef for AngularPannedSource {
    fn handle_ref(&self) -> (r: &Handle) {
        &self.0
    }
}

impl CastTarget for AngularPannedSource {
    open spec fn accepts_tag(tag: ObjectType) -> bool {
        tag == ObjectType::AngularPannedSource
    }

    open spec fn object_id(&self) -> u64 {
        self.syz_handle()
    }

    fn accepts(tag: ObjectType) -> (r: bool) {
        match tag {
            ObjectType::AngularPannedSource => true,
            _ => false,
        }
    }

    fn cast_from(h: &Handle, tag: Result<ObjectType, Error>) -> (r: Result<
        Option<(AngularPannedSource, EngineCall)>,
        Error,
    >) {
        match tag {
            Err(e) => Err(e),
            Ok(t) => {
                if Self::accepts(t) {
                    let (second, call) = h.clone_ref();
                    Ok(Some((Self::from_handle_internal(second), call)))
                } else {
                    Ok(None)
                }
            },
        }
    }
}

impl From<AngularPannedSource> for Source {
    fn from(input: AngularPannedSource) -> (r: Source) {
        Source(input.0)
    }
}

impl FromSpecImpl<AngularPannedSource> for Source {
    open spec fn obeys_from_spec() -> bool {
        true
    }

    closed spec fn from_spec(input: AngularPannedSource) -> Source {
        Source(input.0)
    }
}

impl From<AngularPannedSource> for Handle {
    fn from(input: AngularPannedSource) -> (r: Handle) {
        input.0
    }
}

impl FromSpecImpl<AngularPannedSource> for Handle {
    open spec fn obeys_from_spec() -> bool {
        true
    }

    closed spec fn from_spec(input: AngularPannedSource) -> Handle {
        input.0
    }
}

/// Converting a `AngularPannedSource` to
/// `Source` and `Handle` keeps the object, and every tag
/// that `AngularPannedSource` accepts is accepted by what it converts to.
pub proof fn lemma_angular_panned_source_upcasts(w: AngularPannedSource)
    ensures
        <Source as FromSpec<AngularPannedSource>>::from_spec(w).syz_handle() == w.syz_handle(),
        forall|tag: ObjectType|
            AngularPannedSource::accepts_tag(tag) ==> Source::accepts_tag(tag),
        <Handle as FromSpec<AngularPannedSource>>::from_spec(w).id() == w.syz_handle(),
        forall|tag: ObjectType|
            AngularPannedSource::accepts_tag(tag) ==> Handle::accepts_tag(tag),
{
}

/// A source panned by one scalar from left to right.
#[derive(Debug, PartialEq, Eq, PartialOrd, Ord, Hash)]
pub struct ScalarPannedSource(pub(crate) Handle);

impl ScalarPannedSource {
    /// The handle that this object holds.
    pub fn handle(&self) -> (r: &Handle)
        ensures
            r.id() == self.syz_handle(),
    {
        &self.0
    }

    /// Gives up the wrapper and keeps the handle.
    pub fn into_handle(self) -> (r: Handle)
        ensures
            r.id() == self.syz_handle(),
    {
        self.0
    }

    /// Reads the engine's answer to the constructor call for an object of
    /// this type: the status of the call, the identifier that it wrote, and
    /// the engine's last error message. On success the identifier carries
    /// one unit of the reference count, which the new wrapper owns.
    pub fn new(status: i32, id: u64, last_message: &str) -> (r: Result<Self, Error>)
        ensures
            r is Ok <==> status == STATUS_OK,
            r matches Ok(w) ==> w.syz_handle() == id,
            r matches Err(e) ==> e.is_error(status, last_message@),
    {
        match check_error(status, last_message) {
            Err(e) => Err(e),
            Ok(_) => Ok(Self::from_handle_internal(Handle::new(id))),
        }
    }

    /// Wraps a handle without looking at its tag. A handle of another kind
    /// of object gives a wrapper on which every engine call fails.
    pub(crate) fn from_handle_internal(h: Handle) -> (r: Self)
        ensures
            r.syz_handle() == h.id(),
    {
        ScalarPannedSource(h)
    }

    /// A second wrapper around the same object, and the increment owed for
    /// it.
    pub fn clone_ref(&self) -> (r: (Self, EngineCall))
        ensures
            r.0.syz_handle() == self.syz_handle(),
            r.1 == call_owed(HandleOp::Clone, self.syz_handle()),
    {
        let (h, call) = self.0.clone_ref();
        (ScalarPannedSource(h), call)
    }

    /// Gives the object up. The decrement owed for it is returned.
    pub fn release(self) -> (r: EngineCall)
        ensures
            r == call_owed(HandleOp::Drop, self.syz_handle()),
    {
        self.0.release()
    }

    /// Reads the engine's answer to a query of this object's type. See
    /// `Handle::get_type`.
    pub fn get_type(&self, status: i32, raw_tag: i32, last_message: &str) -> (r: Result<
        ObjectType,
        Error,
    >)
        ensures
            status != STATUS_OK ==> (r matches Err(e) && e.is_error(status, last_message@)),
            status == STATUS_OK ==> match ObjectType::decode(raw_tag) {
                Some(t) => r == Ok::<ObjectType, Error>(t),
                None => (r matches Err(e) && e.is_error(STATUS_LOCAL, UNKNOWN_TYPE@)),
            },
    {
        self.0.get_type(status, raw_tag, last_message)
    }

    /// The userdata of this object. See `Handle::get_userdata`.
    pub fn get_userdata<'a, P>(&self, witness: &Witness, table: &'a UserdataTable<P>) -> (r:
        Result<Option<&'a P>, Error>)
        requires
            witness.is_initialized() ==> table.is_live(self.syz_handle()),
        ensures
            r is Ok <==> witness.is_initialized(),
            r matches Ok(found) ==> match found {
                Some(p) => table@[self.syz_handle()].payload == Some(*p),
                None => table@[self.syz_handle()].payload is None,
            },
            r matches Err(e) ==> e.is_error(STATUS_LOCAL, NOT_INITIALIZED@),
    {
        self.0.get_userdata(witness, table)
    }

    /// Sets the userdata of this object, or clears it with `None`. See
    /// `Handle::set_userdata`.
    pub fn set_userdata<P>(
        &self,
        witness: &Witness,
        table: &mut UserdataTable<P>,
        userdata: Option<P>,
    ) -> (r: Result<(), Error>)
        requires
            old(table).wf(),
            witness.is_initialized() ==> old(table).is_live(self.syz_handle()),
        ensures
            final(table).wf(),
            final(table).threshold() == old(table).threshold(),
            r is Ok <==> witness.is_initialized(),
            r is Ok ==> final(table)@ == with_payload(old(table)@, self.syz_handle(), userdata),
            r matches Err(e) ==> e.is_error(STATUS_LOCAL, NOT_INITIALIZED@) && final(table)@
                == old(table)@,
    {
        self.0.set_userdata(witness, table, userdata)
    }

    /// The call that sets the delete behavior of this object.
    pub fn config_delete_behavior(&self, config: &DeleteBehaviorConfig) -> (r: DeleteBehaviorCall)
        ensures
            r == (DeleteBehaviorCall { target: self.syz_handle(), config: *config }),
    {
        self.0.config_delete_behavior(config)
    }

    /// The call that pauses this object.
    pub fn pause(&self) -> (r: ObjectCall)
        ensures
            r == ObjectCall::Pause(self.syz_handle()),
    {
        ObjectCall::Pause(self.0.to_syz_handle())
    }

    /// The call that lets this object play.
    pub fn play(&self) -> (r: ObjectCall)
        ensures
            r == ObjectCall::Play(self.syz_handle()),
    {
        ObjectCall::Play(self.0.to_syz_handle())
    }

    /// The call that lets this source play the generator.
    pub fn add_generator<G: IsGenerator>(&self, generator: &G) -> (r: ObjectCall)
        ensures
            r == (ObjectCall::AddGenerator {
                source: self.syz_handle(),
                generator: generator.syz_handle(),
            }),
    {
        ObjectCall::AddGenerator {
            source: self.0.to_syz_handle(),
            generator: generator.to_syz_handle(),
        }
    }

    /// The call that stops this source from playing the generator.
    pub fn remove_generator<G: IsGenerator>(&self, generator: &G) -> (r: ObjectCall)
        ensures
            r == (ObjectCall::RemoveGenerator {
                source: self.syz_handle(),
                generator: generator.syz_handle(),
            }),
    {
        ObjectCall::RemoveGenerator {
            source: self.0.to_syz_handle(),
            generator: generator.to_syz_handle(),
        }
    }

    /// Casts this object to the wrapper type `T`, given the engine's answer
    /// to the query of its tag. See `Handle::cast_to`.
    pub fn cast_to<T: CastTarget>(&self, tag: Result<ObjectType, Error>) -> (r: Result<
        Option<(T, EngineCall)>,
        Error,
    >)
        ensures
            match tag {
                Err(e) => r == Err::<Option<(T, EngineCall)>, Error>(e),
                Ok(t) => if T::accepts_tag(t) {
                    r matches Ok(Some(pair)) && pair.0.object_id() == self.syz_handle() && pair.1
                        == call_owed(HandleOp::Clone, self.syz_handle())
                } else {
                    r == Ok::<Option<(T, EngineCall)>, Error>(None)
                },
            },
    {
        T::cast_from(&self.0, tag)
    }
}

impl ToSyzHandle for ScalarPannedSource {
    closed spec fn syz_handle(&self) -> u64 {
        self.0.id()
    }

    fn to_syz_handle(&self) -> (r: u64) {
        self.0.to_syz_handle()
    }
}

impl HandleRef for ScalarPannedSource {
    fn handle_ref(&self) -> (r: &Handle) {
        &self.0
    }
}

impl CastTarget for ScalarPannedSource {
    open spec fn accepts_tag(tag: ObjectType) -> bool {
        tag == ObjectType::ScalarPannedSource
    }

    open spec fn object_id(&self) -> u64 {
        self.syz_handle()
    }

    fn accepts(tag: ObjectType) -> (r: bool) {
        match tag {
            ObjectType::ScalarPannedSource => true,
            _ => false,
        }
    }

    fn cast_from(h: &Handle, tag: Result<ObjectType, Error>) -> (r: Result<
        Option<(ScalarPannedSource, EngineCall)>,
        Error,
    >) {
        match tag {
            Err(e) => Err(e),
            Ok(t) => {
                if Self::accepts(t) {
                    let (second, call) = h.clone_ref();
                    Ok(Some((Self::from_handle_internal(second), call)))
                } else {
                    Ok(None)
                }
            },
        }
    }
}

impl From<ScalarPannedSource> for Source {
    fn from(input: ScalarPannedSource) -> (r: Source) {
        Source(input.0)
    }
}

impl FromSpecImpl<ScalarPannedSource> for Source {
    open spec fn obeys_from_spec() -> bool {
        true
    }

    closed spec fn from_spec(input: ScalarPannedSource) -> Source {
        Source(input.0)
    }
}

impl From<ScalarPannedSource> for Handle {
    fn from(input: ScalarPannedSource) -> (r: Handle) {
        input.0
    }
}

impl FromSpecImpl<ScalarPannedSource> for Handle {
    open spec fn obeys_from_spec() -> bool {
        true
    }

    closed spec fn from_spec(input: ScalarPannedSource) -> Handle {
        input.0
    }
}

/// Converting a `ScalarPannedSource` to
/// `Source` and `Handle` keeps the object, and every tag
/// that `ScalarPannedSource` accepts is accepted by what it converts to.
pub proof fn lemma_scalar_panned_source_upcasts(w: ScalarPannedSource)
    ensures
        <Source as FromSpec<ScalarPannedSource>>::from_spec(w).syz_handle() == w.syz_handle(),
        forall|tag: ObjectType|
            ScalarPannedSource::accepts_tag(tag) ==> Source::accepts_tag(tag),
        <Handle as FromSpec<ScalarPannedSource>>::from_spec(w).id() == w.syz_handle(),
        forall|tag: ObjectType|
            ScalarPannedSource::accepts_tag(tag) ==> Handle::accepts_tag(tag),
{
}

/// A source placed in three-dimensional space.
#[derive(Debug, PartialEq, Eq, PartialOrd, Ord, Hash)]
pub struct Source3D(pub(crate) Handle);

impl Source3D {
    /// The handle that this object holds.
    pub fn handle(&self) -> (r: &Handle)
        ensures
            r.id() == self.syz_handle(),
    {
        &self.0
    }

    /// Gives up the wrapper and keeps the handle.
    pub fn into_handle(self) -> (r: Handle)
        ensures
            r.id() == self.syz_handle(),
    {
        self.0
    }

    /// Reads the engine's answer to the constructor call for an object of
    /// this type: the status of the call, the identifier that it wrote, and
    /// the engine's last error message. On success the identifier carries
    /// one unit of the reference count, which the new wrapper owns.
    pub fn new(status: i32, id: u64, last_message: &str) -> (r: Result<Self, Error>)
        ensures
            r is Ok <==> status == STATUS_OK,
            r matches Ok(w) ==> w.syz_handle() == id,
            r matches Err(e) ==> e.is_error(status, last_message@),
    {
        match check_error(status, last_message) {
            Err(e) => Err(e),
            Ok(_) => Ok(Self::from_handle_internal(Handle::new(id))),
        }
    }

    /// Wraps a handle without looking at its tag. A handle of another kind
    /// of object gives a wrapper on which every engine call fails.
    pub(crate) fn from_handle_internal(h: Handle) -> (r: Self)
        ensures
            r.syz_handle() == h.id(),
    {
        Source3D(h)
    }

    /// A second wrapper around the same object, and the increment owed for
    /// it.
    pub fn clone_ref(&self) -> (r: (Self, EngineCall))
        ensures
            r.0.syz_handle() == self.syz_handle(),
            r.1 == call_owed(HandleOp::Clone, self.syz_handle()),
    {
        let (h, call) = self.0.clone_ref();
        (Source3D(h), call)
    }

    /// Gives the object up. The decrement owed for it is returned.
    pub fn release(self) -> (r: EngineCall)
        ensures
            r == call_owed(HandleOp::Drop, self.syz_handle()),
    {
        self.0.release()
    }

    /// Reads the engine's answer to a query of this object's type. See
    /// `Handle::get_type`.
    pub fn get_type(&self, status: i32, raw_tag: i32, last_message: &str) -> (r: Result<
        ObjectType,
        Error,
    >)
        ensures
            status != STATUS_OK ==> (r matches Err(e) && e.is_error(status, last_message@)),
            status == STATUS_OK ==> match ObjectType::decode(raw_tag) {
                Some(t) => r == Ok::<ObjectType, Error>(t),
                None => (r matches Err(e) && e.is_error(STATUS_LOCAL, UNKNOWN_TYPE@)),
            },
    {
        self.0.get_type(status, raw_tag, last_message)
    }

    /// The userdata of this object. See `Handle::get_userdata`.
    pub fn get_userdata<'a, P>(&self, witness: &Witness, table: &'a UserdataTable<P>) -> (r:
        Result<Option<&'a P>, Error>)
        requires
            witness.is_initialized() ==> table.is_live(self.syz_handle()),
        ensures
            r is Ok <==> witness.is_initialized(),
            r matches Ok(found) ==> match found {
                Some(p) => table@[self.syz_handle()].payload == Some(*p),
                None => table@[self.syz_handle()].payload is None,
            },
            r matches Err(e) ==> e.is_error(STATUS_LOCAL, NOT_INITIALIZED@),
    {
        self.0.get_userdata(witness, table)
    }

    /// Sets the userdata of this object, or clears it with `None`. See
    /// `Handle::set_userdata`.
    pub fn set_userdata<P>(
        &self,
        witness: &Witness,
        table: &mut UserdataTable<P>,
        userdata: Option<P>,
    ) -> (r: Result<(), Error>)
        requires
            old(table).wf(),
            witness.is_initialized() ==> old(table).is_live(self.syz_handle()),
        ensures
            final(table).wf(),
            final(table).threshold() == old(table).threshold(),
            r is Ok <==> witness.is_initialized(),
            r is Ok ==> final(table)@ == with_payload(old(table)@, self.syz_handle(), userdata),
            r matches Err(e) ==> e.is_error(STATUS_LOCAL, NOT_INITIALIZED@) && final(table)@
                == old(table)@,
    {
        self.0.set_userdata(witness, table, userdata)
    }

    /// The call that sets the delete behavior of this object.
    pub fn config_delete_behavior(&self, config: &DeleteBehaviorConfig) -> (r: DeleteBehaviorCall)
        ensures
            r == (DeleteBehaviorCall { target: self.syz_handle(), config: *config }),
    {
        self.0.config_delete_behavior(config)
    }

    /// The call that pauses this object.
    pub fn pause(&self) -> (r: ObjectCall)
        ensures
            r == ObjectCall::Pause(self.syz_handle()),
    {
        ObjectCall::Pause(self.0.to_syz_handle())
    }

    /// The call that lets this object play.
    pub fn play(&self) -> (r: ObjectCall)
        ensures
            r == ObjectCall::Play(self.syz_handle()),
    {
        ObjectCall::Play(self.0.to_syz_handle())
    }

    /// The call that lets this source play the generator.
    pub fn add_generator<G: IsGenerator>(&self, generator: &G) -> (r: ObjectCall)
        ensures
            r == (ObjectCall::AddGenerator {
                source: self.syz_handle(),
                generator: generator.syz_handle(),
            }),
    {
        ObjectCall::AddGenerator {
            source: self.0.to_syz_handle(),
            generator: generator.to_syz_handle(),
        }
    }

    /// The call that stops this source from playing the generator.
    pub fn remove_generator<G: IsGenerator>(&self, generator: &G) -> (r: ObjectCall)
        ensures
            r == (ObjectCall::RemoveGenerator {
                source: self.syz_handle(),
                generator: generator.syz_handle(),
            }),
    {
        ObjectCall::RemoveGenerator {
            source: self.0.to_syz_handle(),
            generator: generator.to_syz_handle(),
        }
    }

    /// Casts this object to the wrapper type `T`, given the engine's answer
    /// to the query of its tag. See `Handle::cast_to`.
    pub fn cast_to<T: CastTarget>(&self, tag: Result<ObjectType, Error>) -> (r: Result<
        Option<(T, EngineCall)>,
        Error,
    >)
        ensures
            match tag {
                Err(e) => r == Err::<Option<(T, EngineCall)>, Error>(e),
                Ok(t) => if T::accepts_tag(t) {
                    r matches Ok(Some(pair)) && pair.0.object_id() == self.syz_handle() && pair.1
                        == call_owed(HandleOp::Clone, self.syz_handle())
                } else {
                    r == Ok::<Option<(T, EngineCall)>, Error>(None)
                },
            },
    {
        T::cast_from(&self.0, tag)
    }
}

impl ToSyzHandle for Source3D {
    closed spec fn syz_handle(&self) -> u64 {
        self.0.id()
    }

    fn to_syz_handle(&self) -> (r: u64) {
        self.0.to_syz_handle()
    }
}

impl HandleRef for Source3D {
    fn handle_ref(&self) -> (r: &Handle) {
        &self.0
    }
}

impl CastTarget for Source3D {
    open spec fn accepts_tag(tag: ObjectType) -> bool {
        tag == ObjectType::Source3D
    }

    open spec fn object_id(&self) -> u64 {
        self.syz_handle()
    }

    fn accepts(tag: ObjectType) -> (r: bool) {
        match tag {
            ObjectType::Source3D => true,
            _ => false,
        }
    }

    fn cast_from(h: &Handle, tag: Result<ObjectType, Error>) -> (r: Result<
        Option<(Source3D, EngineCall)>,
        Error,
    >) {
        match tag {
            Err(e) => Err(e),
            Ok(t) => {
                if Self::accepts(t) {
                    let (second, call) = h.clone_ref();
                    Ok(Some((Self::from_handle_internal(second), call)))
                } else {
                    Ok(None)
                }
            },
        }
    }
}

impl From<Source3D> for Source {
    fn from(input: Source3D) -> (r: Source) {
        Source(input.0)
    }
}

impl FromSpecImpl<Source3D> for Source {
    open spec fn obeys_from_spec() -> bool {
        true
    }

    closed spec fn from_spec(input: Source3D) -> Source {
        Source(input.0)
    }
}

impl From<Source3D> for Handle {
    fn from(input: Source3D) -> (r: Handle) {
        input.0
    }
}

impl FromSpecImpl<Source3D> for Handle {
    open spec fn obeys_from_spec() -> bool {
        true
    }

    closed spec fn from_spec(input: Source3D) -> Handle {
        input.0
    }
}

/// Converting a `Source3D` to
/// `Source` and `Handle` keeps the object, and every tag
/// that `Source3D` accepts is accepted by what it converts to.
pub proof fn lemma_source3d_upcasts(w: Source3D)
    ensures
        <Source as FromSpec<Source3D>>::from_spec(w).syz_handle() == w.syz_handle(),
        forall|tag: ObjectType|
            Source3D::accepts_tag(tag) ==> Source::accepts_tag(tag),
        <Handle as FromSpec<Source3D>>::from_spec(w).id() == w.syz_handle(),
        forall|tag: ObjectType|
            Source3D::accepts_tag(tag) ==> Handle::accepts_tag(tag),
{
}

/// A panned source of an earlier interface of the engine.
#[derive(Debug, PartialEq, Eq, PartialOrd, Ord, Hash)]
pub struct PannedSource(pub(crate) Handle);

impl PannedSource {
    /// The handle that this object holds.
    pub fn handle(&self) -> (r: &Handle)
        ensures
            r.id() == self.syz_handle(),
    {
        &self.0
    }

    /// Gives up the wrapper and keeps the handle.
    pub fn into_handle(self) -> (r: Handle)
        ensures
            r.id() == self.syz_handle(),
    {
        self.0
    }

    /// Reads the engine's answer to the constructor call for an object of
    /// this type: the status of the call, the identifier that it wrote, and
    /// the engine's last error message. On success the identifier carries
    /// one unit of the reference count, which the new wrapper owns.
    pub fn new(status: i32, id: u64, last_message: &str) -> (r: Result<Self, Error>)
        ensures
            r is Ok <==> status == STATUS_OK,
            r matches Ok(w) ==> w.syz_handle() == id,
            r matches Err(e) ==> e.is_error(status, last_message@),
    {
        match check_error(status, last_message) {
            Err(e) => Err(e),
            Ok(_) => Ok(Self::from_handle_internal(Handle::new(id))),
        }
    }

    /// Wraps a handle without looking at its tag. A handle of another kind
    /// of object gives a wrapper on which every engine call fails.
    pub(crate) fn from_handle_internal(h: Handle) -> (r: Self)
        ensures
            r.syz_handle() == h.id(),
    {
        PannedSource(h)
    }

    /// A second wrapper around the same object, and the increment owed for
    /// it.
    pub fn clone_ref(&self) -> (r: (Self, EngineCall))
        ensures
            r.0.syz_handle() == self.syz_handle(),
            r.1 == call_owed(HandleOp::Clone, self.syz_handle()),
    {
        let (h, call) = self.0.clone_ref();
        (PannedSource(h), call)
    }

    /// Gives the object up. The decrement owed for it is returned.
    pub fn release(self) -> (r: EngineCall)
        ensures
            r == call_owed(HandleOp::Drop, self.syz_handle()),
    {
        self.0.release()
    }

    /// Reads the engine's answer to a query of this object's type. See
    /// `Handle::get_type`.
    pub fn get_type(&self, status: i32, raw_tag: i32, last_message: &str) -> (r: Result<
        ObjectType,
        Error,
    >)
        ensures
            status != STATUS_OK ==> (r matches Err(e) && e.is_error(status, last_message@)),
            status == STATUS_OK ==> match ObjectType::decode(raw_tag) {
                Some(t) => r == Ok::<ObjectType, Error>(t),
                None => (r matches Err(e) && e.is_error(STATUS_LOCAL, UNKNOWN_TYPE@)),
            },
    {
        self.0.get_type(status, raw_tag, last_message)
    }

    /// The userdata of this object. See `Handle::get_userdata`.
    pub fn get_userdata<'a, P>(&self, witness: &Witness, table: &'a UserdataTable<P>) -> (r:
        Result<Option<&'a P>, Error>)
        requires
            witness.is_initialized() ==> table.is_live(self.syz_handle()),
        ensures
            r is Ok <==> witness.is_initialized(),
            r matches Ok(found) ==> match found {
                Some(p) => table@[self.syz_handle()].payload == Some(*p),
                None => table@[self.syz_handle()].payload is None,
            },
            r matches Err(e) ==> e.is_error(STATUS_LOCAL, NOT_INITIALIZED@),
    {
        self.0.get_userdata(witness, table)
    }

    /// Sets the userdata of this object, or clears it with `None`. See
    /// `Handle::set_userdata`.
    pub fn set_userdata<P>(
        &self,
        witness: &Witness,
        table: &mut UserdataTable<P>,
        userdata: Option<P>,
    ) -> (r: Result<(), Error>)
        requires
            old(table).wf(),
            witness.is_initialized() ==> old(table).is_live(self.syz_handle()),
        ensures
            final(table).wf(),
            final(table).threshold() == old(table).threshold(),
            r is Ok <==> witness.is_initialized(),
            r is Ok ==> final(table)@ == with_payload(old(table)@, self.syz_handle(), userdata),
            r matches Err(e) ==> e.is_error(STATUS_LOCAL, NOT_INITIALIZED@) && final(table)@
                == old(table)@,
    {
        self.0.set_userdata(witness, table, userdata)
    }

    /// The call that sets the delete behavior of this object.
    pub fn config_delete_behavior(&self, config: &DeleteBehaviorConfig) -> (r: DeleteBehaviorCall)
        ensures
            r == (DeleteBehaviorCall { target: self.syz_handle(), config: *config }),
    {
        self.0.config_delete_behavior(config)
    }

    /// The call that pauses this object.
    pub fn pause(&self) -> (r: ObjectCall)
        ensures
            r == ObjectCall::Pause(self.syz_handle()),
    {
        ObjectCall::Pause(self.0.to_syz_handle())
    }

    /// The call that lets this object play.
    pub fn play(&self) -> (r: ObjectCall)
        ensures
            r == ObjectCall::Play(self.syz_handle()),
    {
        ObjectCall::Play(self.0.to_syz_handle())
    }

    /// The call that lets this source play the generator.
    pub fn add_generator<G: IsGenerator>(&self, generator: &G) -> (r: ObjectCall)
        ensures
            r == (ObjectCall::AddGenerator {
                source: self.syz_handle(),
                generator: generator.syz_handle(),
            }),
    {
        ObjectCall::AddGenerator {
            source: self.0.to_syz_handle(),
            generator: generator.to_syz_handle(),
        }
    }

    /// The call that stops this source from playing the generator.
    pub fn remove_generator<G: IsGenerator>(&self, generator: &G) -> (r: ObjectCall)
        ensures
            r == (ObjectCall::RemoveGenerator {
                source: self.syz_handle(),
                generator: generator.syz_handle(),
            }),
    {
        ObjectCall::RemoveGenerator {
            source: self.0.to_syz_handle(),
            generator: generator.to_syz_handle(),
        }
    }

    /// Casts this object to the wrapper type `T`, given the engine's answer
    /// to the query of its tag. See `Handle::cast_to`.
    pub fn cast_to<T: CastTarget>(&self, tag: Result<ObjectType, Error>) -> (r: Result<
        Option<(T, EngineCall)>,
        Error,
    >)
        ensures
            match tag {
                Err(e) => r == Err::<Option<(T, EngineCall)>, Error>(e),
                Ok(t) => if T::accepts_tag(t) {
                    r matches Ok(Some(pair)) && pair.0.object_id() == self.syz_handle() && pair.1
                        == call_owed(HandleOp::Clone, self.syz_handle())
                } else {
                    r == Ok::<Option<(T, EngineCall)>, Error>(None)
                },
            },
    {
        T::cast_from(&self.0, tag)
    }
}

impl ToSyzHandle for PannedSource {
    closed spec fn syz_handle(&self) -> u64 {
        self.0.id()
    }

    fn to_syz_handle(&self) -> (r: u64) {
        self.0.to_syz_handle()
    }
}

impl HandleRef for PannedSource {
    fn handle_ref(&self) -> (r: &Handle) {
        &self.0
    }
}
} // verus!
