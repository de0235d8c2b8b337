//! The context: one audio device and the objects that play on it.
use vstd::prelude::*;
use crate::casting::CastTarget;
use crate::delete_config::{DeleteBehaviorCall, DeleteBehaviorConfig};
use crate::enums::{I32TransmutableEnum, ObjectType};
use crate::errors::{check_error, Error, STATUS_LOCAL, STATUS_OK};
use crate::events::EventIterator;
use crate::handle::{
    call_owed, EngineCall, Handle, HandleOp, HandleRef, ObjectCall, ToSyzHandle, UNKNOWN_TYPE,
};
use crate::initialization::{Witness, NOT_INITIALIZED};
use crate::routes::{RouteCall, RouteConfig, RouteInput, RouteOutput};
use crate::userdata::{with_payload, UserdataTable};

verus! {

/// The context represents an audio device.
#[derive(Debug, PartialEq, Eq, PartialOrd, Ord, Hash)]
pub struct Context(pub(crate) Handle);

impl Context {
    /// The handle that this object holds.
    pub fn handle(&self) -> (r: &Handle)
        ensures
            r.id() == self.syz_handle(),
    {
        &self.0
    }

    /// Gives up the wrapper and keeps the handle.
    pub fn into_handle(self) -> (r: Handle)
        ensures
            r.id() == self.syz_handle(),
    {
        self.0
    }

    /// Reads the engine's answer to the constructor call for an object of
    /// this type: the status of the call, the identifier that it wrote, and
    /// the engine's last error message. On success the identifier carries
    /// one unit of the reference count, which the new wrapper owns.
    pub fn new(status: i32, id: u64, last_message: &str) -> (r: Result<Self, Error>)
        ensures
            r is Ok <==> status == STATUS_OK,
            r matches Ok(w) ==> w.syz_handle() == id,
            r matches Err(e) ==> e.is_error(status, last_message@),
    {
        match check_error(status, last_message) {
            Err(e) => Err(e),
            Ok(_) => Ok(Self::from_handle_internal(Handle::new(id))),
        }
    }

    /// Wraps a handle without looking at its tag. A handle of another kind
    /// of object gives a wrapper on which every engine call fails.
    pub(crate) fn from_handle_internal(h: Handle) -> (r: Self)
        ensures
            r.syz_handle() == h.id(),
    {
        Context(h)
    }

    /// A second wrapper around the same object, and the increment owed for
    /// it.
    pub fn clone_ref(&self) -> (r: (Self, EngineCall))
        ensures
            r.0.syz_handle() == self.syz_handle(),
            r.1 == call_owed(HandleOp::Clone, self.syz_handle()),
    {
        let (h, call) = self.0.clone_ref();
        (Context(h), call)
    }

    /// Gives the object up. The decrement owed for it is returned.
    pub fn release(self) -> (r: EngineCall)
        ensures
            r == call_owed(HandleOp::Drop, self.syz_handle()),
    {
        self.0.release()
    }

    /// Reads the engine's answer to a query of this object's type. See
    /// `Handle::get_type`.
    pub fn get_type(&self, status: i32, raw_tag: i32, last_message: &str) -> (r: Result<
        ObjectType,
        Error,
    >)
        ensures
            status != STATUS_OK ==> (r matches Err(e) && e.is_error(status, last_message@)),
            status == STATUS_OK ==> match ObjectType::decode(raw_tag) {
                Some(t) => r == Ok::<ObjectType, Error>(t),
                None => (r matches Err(e) && e.is_error(STATUS_LOCAL, UNKNOWN_TYPE@)),
            },
    {
        self.0.get_type(status, raw_tag, last_message)
    }

    /// The userdata of this object. See `Handle::get_userdata`.
    pub fn get_userdata<'a, P>(&self, witness: &Witness, table: &'a UserdataTable<P>) -> (r:
        Result<Option<&'a P>, Error>)
        requires
            witness.is_initialized() ==> table.is_live(self.syz_handle()),
        ensures
            r is Ok <==> witness.is_initialized(),
            r matches Ok(found) ==> match found {
                Some(p) => table@[self.syz_handle()].payload == Some(*p),
                None => table@[self.syz_handle()].payload is None,
            },
            r matches Err(e) ==> e.is_error(STATUS_LOCAL, NOT_INITIALIZED@),
    {
        self.0.get_userdata(witness, table)
    }

    /// Sets the userdata of this object, or clears it with `None`. See
    /// `Handle::set_userdata`.
    pub fn set_userdata<P>(
        &self,
        witness: &Witness,
        table: &mut UserdataTable<P>,
        userdata: Option<P>,
    ) -> (r: Result<(), Error>)
        requires
            old(table).wf(),
            witness.is_initialized() ==> old(table).is_live(self.syz_handle()),
        ensures
            final(table).wf(),
            final(table).threshold() == old(table).threshold(),
            r is Ok <==> witness.is_initialized(),
            r is Ok ==> final(table)@ == with_payload(old(table)@, self.syz_handle(), userdata),
            r matches Err(e) ==> e.is_error(STATUS_LOCAL, NOT_INITIALIZED@) && final(table)@
                == old(table)@,
    {
        self.0.set_userdata(witness, table, userdata)
    }

    /// The call that sets the delete behavior of this object.
    pub fn config_delete_behavior(&self, config: &DeleteBehaviorConfig) -> (r: DeleteBehaviorCall)
        ensures
            r == (DeleteBehaviorCall { target: self.syz_handle(), config: *config }),
    {
        self.0.config_delete_behavior(config)
    }

    /// The call that pauses this object.
    pub fn pause(&self) -> (r: ObjectCall)
        ensures
            r == ObjectCall::Pause(self.syz_handle()),
    {
        ObjectCall::Pause(self.0.to_syz_handle())
    }

    /// The call that lets this object play.
    pub fn play(&self) -> (r: ObjectCall)
        ensures
            r == ObjectCall::Play(self.syz_handle()),
    {
        ObjectCall::Play(self.0.to_syz_handle())
    }

    /// Casts this object to the wrapper type `T`, given the engine's answer
    /// to the query of its tag. See `Handle::cast_to`.
    pub fn cast_to<T: CastTarget>(&self, tag: Result<ObjectType, Error>) -> (r: Result<
        Option<(T, EngineCall)>,
        Error,
    >)
        ensures
            match tag {
                Err(e) => r == Err::<Option<(T, EngineCall)>, Error>(e),
                Ok(t) => if T::accepts_tag(t) {
                    r matches Ok(Some(pair)) && pair.0.object_id() == self.syz_handle() && pair.1
                        == call_owed(HandleOp::Clone, self.syz_handle())
                } else {
                    r == Ok::<Option<(T, EngineCall)>, Error>(None)
                },
            },
    {
        T::cast_from(&self.0, tag)
    }
}

impl ToSyzHandle for Context {
    closed spec fn syz_handle(&self) -> u64 {
        self.0.id()
    }

    fn to_syz_handle(&self) -> (r: u64) {
        self.0.to_syz_handle()
    }
}

impl HandleRef for Context {
    fn handle_ref(&self) -> (r: &Handle) {
        &self.0
    }
}
impl Context {
    /// The call that lets this context queue events.
    pub fn enable_events(&self) -> (r: ObjectCall)
        ensures
            r == ObjectCall::EnableEvents(self.syz_handle()),
    {
        ObjectCall::EnableEvents(self.to_syz_handle())
    }

    /// The events that are pending on this context. Nothing is polled
    /// before the first item is asked for.
    pub fn get_events<'a>(&'a self) -> (r: EventIterator<'a>)
        ensures
            !r.errored_spec(),
            r.context_id() == self.syz_handle(),
    {
        EventIterator::new(self)
    }

    /// The call that configures the route from `output` to `input` with
    /// the given settings.
    pub fn config_route<O: RouteOutput, I: RouteInput>(
        &self,
        output: &O,
        input: &I,
        config: &RouteConfig,
    ) -> (r: RouteCall)
        ensures
            r == (RouteCall::Config {
                context: self.syz_handle(),
                output: output.syz_handle(),
                input: input.syz_handle(),
                config: *config,
            }),
    {
        RouteCall::Config {
            context: self.to_syz_handle(),
            output: output.to_syz_handle(),
            input: input.to_syz_handle(),
            config: *config,
        }
    }

    /// The call that configures the route from `output` to `input` with
    /// the settings of a default route, as the engine fills them in.
    pub fn config_route_simple<O: RouteOutput, I: RouteInput>(
        &self,
        output: &O,
        input: &I,
        default_config: RouteConfig,
    ) -> (r: RouteCall)
        ensures
            r == (RouteCall::Config {
                context: self.syz_handle(),
                output: output.syz_handle(),
                input: input.syz_handle(),
                config: default_config,
            }),
    {
        self.config_route(output, input, &default_config)
    }

    /// The call that removes the route from `output` to `input`, fading it
    /// out over the time whose bits are `fade_out`.
    pub fn remove_route<O: RouteOutput, I: RouteInput>(
        &self,
        output: &O,
        input: &I,
        fade_out: u64,
    ) -> (r: RouteCall)
        ensures
            r == (RouteCall::Remove {
                context: self.syz_handle(),
                output: output.syz_handle(),
                input: input.syz_handle(),
                fade_out,
            }),
    {
        RouteCall::Remove {
            context: self.to_syz_handle(),
            output: output.to_syz_handle(),
            input: input.to_syz_handle(),
            fade_out,
        }
    }
}

} // verus!
