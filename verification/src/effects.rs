//! Global effects, which sources are routed to.
use vstd::prelude::*;
use crate::casting::CastTarget;
use crate::delete_config::{DeleteBehaviorCall, DeleteBehaviorConfig};
use crate::enums::{I32TransmutableEnum, ObjectType};
use crate::errors::{check_error, Error, STATUS_LOCAL, STATUS_OK};
use crate::handle::{
    call_owed, EngineCall, Handle, HandleOp, HandleRef, ObjectCall, ToSyzHandle, UNKNOWN_TYPE,
};
use crate::initialization::{Witness, NOT_INITIALIZED};
use crate::userdata::{with_payload, UserdataTable};

verus! {

/// A global echo effect.
#[derive(Debug, PartialEq, Eq, PartialOrd, Ord, Hash)]
pub struct GlobalEcho(pub(crate) Handle);

impl GlobalEcho {
    /// The handle that this object holds.
    pub fn handle(&self) -> (r: &Handle)
        ensures
            r.id() == self.syz_handle(),
    {
        &self.0
    }

    /// Gives up the wrapper and keeps the handle.
    pub fn into_handle(self) -> (r: Handle)
        ensures
            r.id() == self.syz_handle(),
    {
        self.0
    }

    /// Reads the engine's answer to the constructor call for an object of
    /// this type: the status of the call, the identifier that it wrote, and
    /// the engine's last error message. On success the identifier carries
    /// one unit of the reference count, which the new wrapper owns.
    pub fn new(status: i32, id: u64, last_message: &str) -> (r: Result<Self, Error>)
        ensures
            r is Ok <==> status == STATUS_OK,
            r matches Ok(w) ==> w.syz_handle() == id,
            r matches Err(e) ==> e.is_error(status, last_message@),
    {
        match check_error(status, last_message) {
            Err(e) => Err(e),
            Ok(_) => Ok(Self::from_handle_internal(Handle::new(id))),
        }
    }

    /// Wraps a handle without looking at its tag. A handle of another kind
    /// of object gives a wrapper on which every engine call fails.
    pub(crate) fn from_handle_internal(h: Handle) -> (r: Self)
        ensures
            r.syz_handle() == h.id(),
    {
        GlobalEcho(h)
    }

    /// A second wrapper around the same object, and the increment owed for
    /// it.
    pub fn clone_ref(&self) -> (r: (Self, EngineCall))
        ensures
            r.0.syz_handle() == self.syz_handle(),
            r.1 == call_owed(HandleOp::Clone, self.syz_handle()),
    {
        let (h, call) = self.0.clone_ref();
        (GlobalEcho(h), call)
    }

    /// Gives the object up. The decrement owed for it is returned.
    pub fn release(self) -> (r: EngineCall)
        ensures
            r == call_owed(HandleOp::Drop, self.syz_handle()),
    {
        self.0.release()
    }

    /// Reads the engine's answer to a query of this object's type. See
    /// `Handle::get_type`.
    pub fn get_type(&self, status: i32, raw_tag: i32, last_message: &str) -> (r: Result<
        ObjectType,
        Error,
    >)
        ensures
            status != STATUS_OK ==> (r matches Err(e) && e.is_error(status, last_message@)),
            status == STATUS_OK ==> match ObjectType::decode(raw_tag) {
                Some(t) => r == Ok::<ObjectType, Error>(t),
                None => (r matches Err(e) && e.is_error(STATUS_LOCAL, UNKNOWN_TYPE@)),
            },
    {
        self.0.get_type(status, raw_tag, last_message)
    }

    /// The userdata of this object. See `Handle::get_userdata`.
    pub fn get_userdata<'a, P>(&self, witness: &Witness, table: &'a UserdataTable<P>) -> (r:
        Result<Option<&'a P>, Error>)
        requires
            witness.is_initialized() ==> table.is_live(self.syz_handle()),
        ensures
            r is Ok <==> witness.is_initialized(),
            r matches Ok(found) ==> match found {
                Some(p) => table@[self.syz_handle()].payload == Some(*p),
                None => table@[self.syz_handle()].payload is None,
            },
            r matches Err(e) ==> e.is_error(STATUS_LOCAL, NOT_INITIALIZED@),
    {
        self.0.get_userdata(witness, table)
    }

    /// Sets the userdata of this object, or clears it with `None`. See
    /// `Handle::set_userdata`.
    pub fn set_userdata<P>(
        &self,
        witness: &Witness,
        table: &mut UserdataTable<P>,
        userdata: Option<P>,
    ) -> (r: Result<(), Error>)
        requires
            old(table).wf(),
            witness.is_initialized() ==> old(table).is_live(self.syz_handle()),
        ensures
            final(table).wf(),
            final(table).threshold() == old(table).threshold(),
            r is Ok <==> witness.is_initialized(),
            r is Ok ==> final(table)@ == with_payload(old(table)@, self.syz_handle(), userdata),
            r matches Err(e) ==> e.is_error(STATUS_LOCAL, NOT_INITIALIZED@) && final(table)@
                == old(table)@,
    {
        self.0.set_userdata(witness, table, userdata)
    }

    /// The call that sets the delete behavior of this object.
    pub fn config_delete_behavior(&self, config: &DeleteBehaviorConfig) -> (r: DeleteBehaviorCall)
        ensures
            r == (DeleteBehaviorCall { target: self.syz_handle(), config: *config }),
    {
        self.0.config_delete_behavior(config)
    }

    /// Casts this object to the wrapper type `T`, given the engine's answer
    /// to the query of its tag. See `Handle::cast_to`.
    pub fn cast_to<T: CastTarget>(&self, tag: Result<ObjectType, Error>) -> (r: Result<
        Option<(T, EngineCall)>,
        Error,
    >)
        ensures
            match tag {
                Err(e) => r == Err::<Option<(T, EngineCall)>, Error>(e),
                Ok(t) => if T::accepts_tag(t) {
                    r matches Ok(Some(pair)) && pair.0.object_id() == self.syz_handle() && pair.1
                        == call_owed(HandleOp::Clone, self.syz_handle())
                } else {
                    r == Ok::<Option<(T, EngineCall)>, Error>(None)
                },
            },
    {
        T::cast_from(&self.0, tag)
    }
}

impl ToSyzHandle for GlobalEcho {
    closed spec fn syz_handle(&self) -> u64 {
        self.0.id()
    }

    fn to_syz_handle(&self) -> (r: u64) {
        self.0.to_syz_handle()
    }
}

impl HandleRef for GlobalEcho {
    fn handle_ref(&self) -> (r: &Handle) {
        &self.0
    }
}

/// A global reverb built on a feedback delay network.
#[derive(Debug, PartialEq, Eq, PartialOrd, Ord, Hash)]
pub struct GlobalFdnReverb(pub(crate) Handle);

impl GlobalFdnReverb {
    /// The handle that this object holds.
    pub fn handle(&self) -> (r: &Handle)
        ensures
            r.id() == self.syz_handle(),
    {
        &self.0
    }

    /// Gives up the wrapper and keeps the handle.
    pub fn into_handle(self) -> (r: Handle)
        ensures
            r.id() == self.syz_handle(),
    {
        self.0
    }

    /// Reads the engine's answer to the constructor call for an object of
    /// this type: the status of the call, the identifier that it wrote, and
    /// the engine's last error message. On success the identifier carries
    /// one unit of the reference count, which the new wrapper owns.
    pub fn new(status: i32, id: u64, last_message: &str) -> (r: Result<Self, Error>)
        ensures
            r is Ok <==> status == STATUS_OK,
            r matches Ok(w) ==> w.syz_handle() == id,
            r matches Err(e) ==> e.is_error(status, last_message@),
    {
        match check_error(status, last_message) {
            Err(e) => Err(e),
            Ok(_) => Ok(Self::from_handle_internal(Handle::new(id))),
        }
    }

    /// Wraps a handle without looking at its tag. A handle of another kind
    /// of object gives a wrapper on which every engine call fails.
    pub(crate) fn from_handle_internal(h: Handle) -> (r: Self)
        ensures
            r.syz_handle() == h.id(),
    {
        GlobalFdnReverb(h)
    }

    /// A second wrapper around the same object, and the increment owed for
    /// it.
    pub fn clone_ref(&self) -> (r: (Self, EngineCall))
        ensures
            r.0.syz_handle() == self.syz_handle(),
            r.1 == call_owed(HandleOp::Clone, self.syz_handle()),
    {
        let (h, call) = self.0.clone_ref();
        (GlobalFdnReverb(h), call)
    }

    /// Gives the object up. The decrement owed for it is returned.
    pub fn release(self) -> (r: EngineCall)
        ensures
            r == call_owed(HandleOp::Drop, self.syz_handle()),
    {
        self.0.release()
    }

    /// Reads the engine's answer to a query of this object's type. See
    /// `Handle::get_type`.
    pub fn get_type(&self, status: i32, raw_tag: i32, last_message: &str) -> (r: Result<
        ObjectType,
        Error,
    >)
        ensures
            status != STATUS_OK ==> (r matches Err(e) && e.is_error(status, last_message@)),
            status == STATUS_OK ==> match ObjectType::decode(raw_tag) {
                Some(t) => r == Ok::<ObjectType, Error>(t),
                None => (r matches Err(e) && e.is_error(STATUS_LOCAL, UNKNOWN_TYPE@)),
            },
    {
        self.0.get_type(status, raw_tag, last_message)
    }

    /// The userdata of this object. See `Handle::get_userdata`.
    pub fn get_userdata<'a, P>(&self, witness: &Witness, table: &'a UserdataTable<P>) -> (r:
        Result<Option<&'a P>, Error>)
        requires
            witness.is_initialized() ==> table.is_live(self.syz_handle()),
        ensures
            r is Ok <==> witness.is_initialized(),
            r matches Ok(found) ==> match found {
                Some(p) => table@[self.syz_handle()].payload == Some(*p),
                None => table@[self.syz_handle()].payload is None,
            },
            r matches Err(e) ==> e.is_error(STATUS_LOCAL, NOT_INITIALIZED@),
    {
        self.0.get_userdata(witness, table)
    }

    /// Sets the userdata of this object, or clears it with `None`. See
    /// `Handle::set_userdata`.
    pub fn set_userdata<P>(
        &self,
        witness: &Witness,
        table: &mut UserdataTable<P>,
        userdata: Option<P>,
    ) -> (r: Result<(), Error>)
        requires
            old(table).wf(),
            witness.is_initialized() ==> old(table).is_live(self.syz_handle()),
        ensures
            final(table).wf(),
            final(table).threshold() == old(table).threshold(),
            r is Ok <==> witness.is_initialized(),
            r is Ok ==> final(table)@ == with_payload(old(table)@, self.syz_handle(), userdata),
            r matches Err(e) ==> e.is_error(STATUS_LOCAL, NOT_INITIALIZED@) && final(table)@
                == old(table)@,
    {
        self.0.set_userdata(witness, table, userdata)
    }

    /// The call that sets the delete behavior of this object.
    pub fn config_delete_behavior(&self, config: &DeleteBehaviorConfig) -> (r: DeleteBehaviorCall)
        ensures
            r == (DeleteBehaviorCall { target: self.syz_handle(), config: *config }),
    {
        self.0.config_delete_behavior(config)
    }

    /// The call that clears the internal state of this effect.
    pub fn reset(&self) -> (r: ObjectCall)
        ensures
            r == ObjectCall::ResetEffect(self.syz_handle()),
    {
        ObjectCall::ResetEffect(self.0.to_syz_handle())
    }

    /// Casts this object to the wrapper type `T`, given the engine's answer
    /// to the query of its tag. See `Handle::cast_to`.
    pub fn cast_to<T: CastTarget>(&self, tag: Result<ObjectType, Error>) -> (r: Result<
        Option<(T, EngineCall)>,
        Error,
    >)
        ensures
            match tag {
                Err(e) => r == Err::<Option<(T, EngineCall)>, Error>(e),
                Ok(t) => if T::accepts_tag(t) {
                    r matches Ok(Some(pair)) && pair.0.object_id() == self.syz_handle() && pair.1
                        == call_owed(HandleOp::Clone, self.syz_handle())
                } else {
                    r == Ok::<Option<(T, EngineCall)>, Error>(None)
                },
            },
    {
        T::cast_from(&self.0, tag)
    }
}

impl ToSyzHandle for GlobalFdnReverb {
    closed spec fn syz_handle(&self) -> u64 {
        self.0.id()
    }

    fn to_syz_handle(&self) -> (r: u64) {
        self.0.to_syz_handle()
    }
}

impl HandleRef for GlobalFdnReverb {
    fn handle_ref(&self) -> (r: &Handle) {
        &self.0
    }
}
/// One tap of an echo: its delay in seconds and its gains for the left and
/// the right channel, each as the bits of a double.
#[derive(Copy, Clone, Debug, PartialEq, Eq, Structural)]
pub struct EchoTapConfig {
    pub delay: u64,
    pub gain_l: u64,
    pub gain_r: u64,
}

/// The call that sets the taps of an echo, which the binding owes the
/// engine.
#[derive(Copy, Clone, Debug, PartialEq, Eq, Structural)]
pub enum EchoCall {
    /// Replace the taps of the echo by the given number of taps.
    SetTaps { target: u64, count: u32 },
    /// Remove all taps of the echo.
    ClearTaps { target: u64 },
}

impl GlobalEcho {
    /// The call that sets the taps of the echo. No taps clear it.
    pub fn set_taps(&self, taps: &Vec<EchoTapConfig>) -> (r: EchoCall)
        requires
            taps@.len() <= u32::MAX,
        ensures
            r == if taps@.len() == 0 {
                EchoCall::ClearTaps { target: self.syz_handle() }
            } else {
                EchoCall::SetTaps { target: self.syz_handle(), count: taps@.len() as u32 }
            },
    {
        if taps.len() == 0 {
            return self.clear_taps();
        }
        EchoCall::SetTaps { target: self.to_syz_handle(), count: taps.len() as u32 }
    }

    /// The call that removes all taps of the echo.
    pub fn clear_taps(&self) -> (r: EchoCall)
        ensures
            r == (EchoCall::ClearTaps { target: self.syz_handle() }),
    {
        EchoCall::ClearTaps { target: self.to_syz_handle() }
    }
}

} // verus!
