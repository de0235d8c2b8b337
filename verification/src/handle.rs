//! Handles: owned units of an engine object's reference count.
use vstd::prelude::*;
use crate::casting::CastTarget;
use crate::delete_config::{DeleteBehaviorCall, DeleteBehaviorConfig};
use crate::enums::{I32TransmutableEnum, ObjectType};
use crate::errors::{check_error, Error, STATUS_LOCAL, STATUS_OK};
use crate::initialization::{Witness, NOT_INITIALIZED};
use crate::userdata::{with_payload, UserdataTable};

verus! {

/// The message of the error for a tag that names no object type.
pub const UNKNOWN_TYPE: &'static str = "Unknown object type";

/// A reference-count call that the binding owes the engine. Whoever holds
/// one must perform it, and must treat a failure of it as fatal.
#[derive(Copy, Clone, Debug, PartialEq, Eq, Structural)]
pub enum EngineCall {
    /// Increment the reference count of the object with this identifier.
    IncRef(u64),
    /// Decrement the reference count of the object with this identifier.
    DecRef(u64),
}

/// A call on an object that the binding owes the engine, for the methods
/// that only some kinds of object have.
#[derive(Copy, Clone, Debug, PartialEq, Eq, Structural)]
pub enum ObjectCall {
    /// Pause the object.
    Pause(u64),
    /// Let the object play.
    Play(u64),
    /// Let the source play the generator.
    AddGenerator { source: u64, generator: u64 },
    /// Stop the source from playing the generator.
    RemoveGenerator { source: u64, generator: u64 },
    /// Clear the internal state of the effect.
    ResetEffect(u64),
    /// Let the context queue events for whoever polls it.
    EnableEvents(u64),
}

/// An operation on a handle that touches the engine's reference count.
#[derive(Copy, Clone, Debug, PartialEq, Eq, Structural)]
pub enum HandleOp {
    Clone,
    Drop,
}

/// The call that an operation on a handle of the object `id` owes.
pub open spec fn call_owed(op: HandleOp, id: u64) -> EngineCall {
    match op {
        HandleOp::Clone => EngineCall::IncRef(id),
        HandleOp::Drop => EngineCall::DecRef(id),
    }
}

/// By how much a call changes the reference count of the object `id`.
pub open spec fn ref_delta(call: EngineCall, id: u64) -> int {
    match call {
        EngineCall::IncRef(h) => if h == id { 1 } else { 0 },
        EngineCall::DecRef(h) => if h == id { -1 } else { 0 },
    }
}

/// By how much a sequence of calls changes the reference count of `id`.
pub open spec fn net_ref_delta(calls: Seq<EngineCall>, id: u64) -> int
    decreases calls.len(),
{
    if calls.len() == 0 {
        0
    } else {
        net_ref_delta(calls.drop_last(), id) + ref_delta(calls.last(), id)
    }
}

/// The calls that a sequence of operations on handles of `id` owes, in order.
pub open spec fn calls_owed(ops: Seq<HandleOp>, id: u64) -> Seq<EngineCall> {
    Seq::new(ops.len(), |i: int| call_owed(ops[i], id))
}

/// How often `op` occurs in `ops`.
pub open spec fn count_op(ops: Seq<HandleOp>, op: HandleOp) -> nat
    decreases ops.len(),
{
    if ops.len() == 0 {
        0
    } else {
        count_op(ops.drop_last(), op) + if ops.last() == op { 1nat } else { 0nat }
    }
}

/// How many decrements of the object `id` a sequence of calls holds.
pub open spec fn count_decrements(calls: Seq<EngineCall>, id: u64) -> nat
    decreases calls.len(),
{
    if calls.len() == 0 {
        0
    } else {
        count_decrements(calls.drop_last(), id) + if calls.last() == EngineCall::DecRef(id) {
            1nat
        } else {
            0nat
        }
    }
}

/// Over any sequence of clones and drops of handles of one object, the
/// calls owed change the engine's reference count of that object by the
/// number of clones less the number of drops, decrement it once for each
/// drop, and leave the count of every other object as it was.
pub proof fn lemma_net_refcount(ops: Seq<HandleOp>, id: u64, other: u64)
    requires
        other != id,
    ensures
        net_ref_delta(calls_owed(ops, id), id) == count_op(ops, HandleOp::Clone) - count_op(
            ops,
            HandleOp::Drop,
        ),
        count_decrements(calls_owed(ops, id), id) == count_op(ops, HandleOp::Drop),
        net_ref_delta(calls_owed(ops, id), other) == 0,
    decreases ops.len(),
{
    if ops.len() > 0 {
        lemma_net_refcount(ops.drop_last(), id, other);
        assert(calls_owed(ops, id).drop_last() =~= calls_owed(ops.drop_last(), id));
    }
}

/// The operations of cloning a handle `n` times and then dropping the
/// first handle and every clone.
pub open spec fn clone_then_drop_all(n: nat) -> Seq<HandleOp> {
    Seq::new(n, |i: int| HandleOp::Clone) + Seq::new(n + 1, |i: int| HandleOp::Drop)
}

/// Cloning a handle `n` times and dropping all `n + 1` copies decrements
/// the engine's count exactly `n + 1` times, one more than it was
/// incremented.
pub proof fn lemma_clone_then_drop_all(n: nat, id: u64)
    ensures
        count_decrements(calls_owed(clone_then_drop_all(n), id), id) == n + 1,
        net_ref_delta(calls_owed(clone_then_drop_all(n), id), id) == -1,
{
    let ops = clone_then_drop_all(n);
    let other: u64 = if id == 0 { 1 } else { 0 };
    lemma_net_refcount(ops, id, other);
    lemma_count_clone_then_drop(n, (n + 1) as nat);
}

proof fn lemma_count_clone_then_drop(n: nat, m: nat)
    ensures
        count_op(
            Seq::new(n, |i: int| HandleOp::Clone) + Seq::new(m, |i: int| HandleOp::Drop),
            HandleOp::Clone,
        ) == n,
        count_op(
            Seq::new(n, |i: int| HandleOp::Clone) + Seq::new(m, |i: int| HandleOp::Drop),
            HandleOp::Drop,
        ) == m,
    decreases n + m,
{
    let ops = Seq::new(n, |i: int| HandleOp::Clone) + Seq::new(m, |i: int| HandleOp::Drop);
    if m > 0 {
        let m1 = (m - 1) as nat;
        lemma_count_clone_then_drop(n, m1);
        assert(ops.drop_last() =~= Seq::new(n, |i: int| HandleOp::Clone) + Seq::new(
            m1,
            |i: int| HandleOp::Drop,
        ));
    } else if n > 0 {
        let n1 = (n - 1) as nat;
        lemma_count_clone_then_drop(n1, 0);
        assert(ops.drop_last() =~= Seq::new(n1, |i: int| HandleOp::Clone) + Seq::new(
            0,
            |i: int| HandleOp::Drop,
        ));
    }
}

/// An owning wrapper around one unit of the reference count of an engine
/// object. It cannot be copied: a second handle to the same object comes
/// from `clone_ref`, which owes the engine an increment, and a handle is
/// given up through `release`, which owes a decrement.
#[derive(Debug, PartialEq, Eq, PartialOrd, Ord, Hash)]
pub struct Handle(u64);

/// Conversion to the engine's raw identifier.
pub trait ToSyzHandle {
    /// The identifier of the object behind this value.
    spec fn syz_handle(&self) -> u64;

    fn to_syz_handle(&self) -> (r: u64)
        ensures
            r == self.syz_handle(),
    ;
}

/// Borrowing the handle inside a wrapper.
pub trait HandleRef: ToSyzHandle {
    fn handle_ref(&self) -> (r: &Handle)
        ensures
            r.id() == self.syz_handle(),
    ;
}

impl ToSyzHandle for Handle {
    open spec fn syz_handle(&self) -> u64 {
        self.id()
    }

    fn to_syz_handle(&self) -> (r: u64) {
        assert(self.syz_handle() == self.id());
        self.0
    }
}

impl HandleRef for Handle {
    fn handle_ref(&self) -> (r: &Handle) {
        self
    }
}

impl Handle {
    /// The identifier of the object that this handle refers to.
    pub closed spec fn id(&self) -> u64 {
        self.0
    }

    /// Wraps an identifier that already carries one unit of the reference
    /// count, as one fresh from a constructor call of the engine does.
    /// Nothing is incremented.
    pub fn new(h: u64) -> (r: Handle)
        ensures
            r.id() == h,
    {
        Handle(h)
    }

    pub fn handle(&self) -> (r: &Handle)
        ensures
            r == self,
    {
        self
    }

    pub fn into_handle(self) -> (r: Handle)
        ensures
            r == self,
    {
        self
    }

    pub fn from_handle_internal(h: Handle) -> (r: Handle)
        ensures
            r == h,
    {
        h
    }

    /// A second handle to the same object, and the increment owed for it.
    pub fn clone_ref(&self) -> (r: (Handle, EngineCall))
        ensures
            r.0.id() == self.id(),
            r.1 == call_owed(HandleOp::Clone, self.id()),
    {
        (Handle(self.0), EngineCall::IncRef(self.0))
    }

    /// Gives the handle up. The decrement owed for it is returned.
    pub fn release(self) -> (r: EngineCall)
        ensures
            r == call_owed(HandleOp::Drop, self.id()),
    {
        EngineCall::DecRef(self.0)
    }

    /// Casts this handle to the wrapper type `T`, given the engine's answer
    /// to the query of its tag. `Ok(None)` means that the tag does not
    /// match; an error means that the query itself failed. On success the
    /// wrapper holds a second handle, for which an increment is owed.
    pub fn cast_to<T: CastTarget>(&self, tag: Result<ObjectType, Error>) -> (r: Result<
        Option<(T, EngineCall)>,
        Error,
    >)
        ensures
            match tag {
                Err(e) => r == Err::<Option<(T, EngineCall)>, Error>(e),
                Ok(t) => if T::accepts_tag(t) {
                    r matches Ok(Some(pair)) && pair.0.object_id() == self.id() && pair.1
                        == call_owed(HandleOp::Clone, self.id())
                } else {
                    r == Ok::<Option<(T, EngineCall)>, Error>(None)
                },
            },
    {
        T::cast_from(self, tag)
    }

    /// The userdata of this object. Without an initialized engine the
    /// result is an error.
    pub fn get_userdata<'a, P>(&self, witness: &Witness, table: &'a UserdataTable<P>) -> (r:
        Result<Option<&'a P>, Error>)
        requires
            witness.is_initialized() ==> table.is_live(self.id()),
        ensures
            r is Ok <==> witness.is_initialized(),
            r matches Ok(found) ==> match found {
                Some(p) => table@[self.id()].payload == Some(*p),
                None => table@[self.id()].payload is None,
            },
            r matches Err(e) ==> e.is_error(STATUS_LOCAL, NOT_INITIALIZED@),
    {
        if !witness.initialized() {
            return Err(Error::rust_error(NOT_INITIALIZED));
        }
        Ok(table.get(self.0))
    }

    /// Sets the userdata of this object, or clears it with `None`. Without
    /// an initialized engine the result is an error and nothing changes.
    pub fn set_userdata<P>(
        &self,
        witness: &Witness,
        table: &mut UserdataTable<P>,
        userdata: Option<P>,
    ) -> (r: Result<(), Error>)
        requires
            old(table).wf(),
            witness.is_initialized() ==> old(table).is_live(self.id()),
        ensures
            final(table).wf(),
            final(table).threshold() == old(table).threshold(),
            r is Ok <==> witness.is_initialized(),
            r is Ok ==> final(table)@ == with_payload(old(table)@, self.id(), userdata),
            r matches Err(e) ==> e.is_error(STATUS_LOCAL, NOT_INITIALIZED@) && final(table)@
                == old(table)@,
    {
        if !witness.initialized() {
            return Err(Error::rust_error(NOT_INITIALIZED));
        }
        table.set(self.0, userdata);
        Ok(())
    }

    /// The call that sets the delete behavior of this object.
    pub fn config_delete_behavior(&self, config: &DeleteBehaviorConfig) -> (r: DeleteBehaviorCall)
        ensures
            r == (DeleteBehaviorCall { target: self.id(), config: *config }),
    {
        DeleteBehaviorCall { target: self.0, config: *config }
    }

    /// Reads the engine's answer to a query of this object's type: the
    /// status of the call, the tag that it wrote, and the engine's last
    /// error message.
    ///
    /// A failed status gives the engine's error. A tag that names no object
    /// type gives a local error.
    pub fn get_type(&self, status: i32, raw_tag: i32, last_message: &str) -> (r: Result<
        ObjectType,
        Error,
    >)
        ensures
            status != STATUS_OK ==> (r matches Err(e) && e.is_error(status, last_message@)),
            status == STATUS_OK ==> match ObjectType::decode(raw_tag) {
                Some(t) => r == Ok::<ObjectType, Error>(t),
                None => (r matches Err(e) && e.is_error(STATUS_LOCAL, UNKNOWN_TYPE@)),
            },
    {
        match check_error(status, last_message) {
            Err(e) => Err(e),
            Ok(_) => match ObjectType::from_i32(raw_tag) {
                Some(t) => Ok(t),
                None => Err(Error::rust_error(UNKNOWN_TYPE)),
            },
        }
    }
}

} // verus!
