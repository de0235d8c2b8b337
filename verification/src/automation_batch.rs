//! Automation: commands for the engine that are collected here and sent
//! in one batch.
use vstd::prelude::*;
use crate::context::Context;
use crate::enums::InterpolationType;
use crate::errors::{check_error, Error, STATUS_OK};
use crate::handle::{call_owed, EngineCall, HandleOp, ToSyzHandle};
use crate::properties::{DoubleProperty, SyzProperty};

verus! {

/// What an automation command does. Times and values are kept as the bits
/// of doubles.
#[derive(Copy, Clone, Debug, PartialEq, Eq)]
pub enum AutomationAction {
    /// Appends a point to the timeline of a property. A property of fewer
    /// than six doubles uses the first values and leaves the rest zero.
    AppendProperty {
        property: i32,
        values: (u64, u64, u64, u64, u64, u64),
        interpolation: InterpolationType,
    },
    /// Sends an event with the parameter to whoever polls the context.
    SendUserEvent { param: u64 },
    /// Clears the timeline of one property.
    ClearProperty { property: i32 },
    /// Clears the pending user events.
    ClearEvents,
    /// Clears the timelines of all properties.
    ClearAllProperties,
}

/// One automation command: what to do, to which object, and when.
#[derive(Copy, Clone, Debug, PartialEq, Eq)]
pub struct AutomationCommand {
    /// The identifier of the object.
    pub target: u64,
    /// The bits of the time; zero for a command that has none.
    pub time: u64,
    pub action: AutomationAction,
}

/// A batch of automation commands.
///
/// Commands are collected on this side and handed to the engine all at
/// once by a flush, which is much faster than handing them over one by
/// one.
pub struct AutomationBatch {
    handle: u64,
    commands: Vec<AutomationCommand>,
}

impl View for AutomationBatch {
    type V = Seq<AutomationCommand>;

    /// The commands that are waiting for the next flush, oldest first.
    closed spec fn view(&self) -> Seq<AutomationCommand> {
        self.commands@
    }
}

impl AutomationBatch {
    /// The identifier of the engine's batch object.
    pub closed spec fn id(&self) -> u64 {
        self.handle
    }

    /// Reads the engine's answer to the creation of a batch for a context.
    pub fn new(ctx: &Context, status: i32, id: u64, last_message: &str) -> (r: Result<
        AutomationBatch,
        Error,
    >)
        ensures
            r is Ok <==> status == STATUS_OK,
            r matches Ok(batch) ==> batch.id() == id && batch@ == Seq::<AutomationCommand>::empty(),
            r matches Err(e) ==> e.is_error(status, last_message@),
    {
        match check_error(status, last_message) {
            Err(e) => Err(e),
            Ok(_) => Ok(AutomationBatch { handle: id, commands: Vec::new() }),
        }
    }

    /// The identifier of the engine's batch object.
    pub fn get_handle(&self) -> (r: u64)
        ensures
            r == self.id(),
    {
        self.handle
    }

    /// The commands that are waiting for the next flush, oldest first.
    pub fn pending(&self) -> (r: &Vec<AutomationCommand>)
        ensures
            r@ == self@,
    {
        &self.commands
    }

    fn push(&mut self, cmd: AutomationCommand)
        ensures
            final(self)@ == old(self)@.push(cmd),
            final(self).id() == old(self).id(),
    {
        self.commands.push(cmd);
    }

    /// Appends a point with one double to the timeline of a property.
    pub fn set_double<H: ToSyzHandle>(
        &mut self,
        target: &H,
        property: DoubleProperty,
        time: u64,
        value: u64,
        interpolation_type: InterpolationType,
    )
        ensures
            final(self).id() == old(self).id(),
            final(self)@ == old(self)@.push(
                AutomationCommand {
                    target: target.syz_handle(),
                    time,
                    action: AutomationAction::AppendProperty {
                        property: property.property_id(),
                        values: (value, 0, 0, 0, 0, 0),
                        interpolation: interpolation_type,
                    },
                },
            ),
    {
        self.push(
            AutomationCommand {
                target: target.to_syz_handle(),
                time,
                action: AutomationAction::AppendProperty {
                    property: property.as_i32(),
                    values: (value, 0, 0, 0, 0, 0),
                    interpolation: interpolation_type,
                },
            },
        );
    }

    /// Appends a point with three doubles to the timeline of a property.
    pub fn set_double3<H: ToSyzHandle>(
        &mut self,
        target: &H,
        property: DoubleProperty,
        time: u64,
        value: (u64, u64, u64),
        interpolation_type: InterpolationType,
    )
        ensures
            final(self).id() == old(self).id(),
            final(self)@ == old(self)@.push(
                AutomationCommand {
                    target: target.syz_handle(),
                    time,
                    action: AutomationAction::AppendProperty {
                        property: property.property_id(),
                        values: (value.0, value.1, value.2, 0, 0, 0),
                        interpolation: interpolation_type,
                    },
                },
            ),
    {
        self.push(
            AutomationCommand {
                target: target.to_syz_handle(),
                time,
                action: AutomationAction::AppendProperty {
                    property: property.as_i32(),
                    values: (value.0, value.1, value.2, 0, 0, 0),
                    interpolation: interpolation_type,
                },
            },
        );
    }

    /// Appends a point with six doubles to the timeline of a property.
    pub fn set_double6<H: ToSyzHandle>(
        &mut self,
        target: &H,
        property: DoubleProperty,
        time: u64,
        value: (u64, u64, u64, u64, u64, u64),
        interpolation_type: InterpolationType,
    )
        ensures
            final(self).id() == old(self).id(),
            final(self)@ == old(self)@.push(
                AutomationCommand {
                    target: target.syz_handle(),
                    time,
                    action: AutomationAction::AppendProperty {
                        property: property.property_id(),
                        values: value,
                        interpolation: interpolation_type,
                    },
                },
            ),
    {
        self.push(
            AutomationCommand {
                target: target.to_syz_handle(),
                time,
                action: AutomationAction::AppendProperty {
                    property: property.as_i32(),
                    values: value,
                    interpolation: interpolation_type,
                },
            },
        );
    }

    /// Clears the timelines of all properties of the target.
    pub fn clear_all_properties<H: ToSyzHandle>(&mut self, target: &H)
        ensures
            final(self).id() == old(self).id(),
            final(self)@ == old(self)@.push(
                AutomationCommand {
                    target: target.syz_handle(),
                    time: 0,
                    action: AutomationAction::ClearAllProperties,
                },
            ),
    {
        self.push(
            AutomationCommand {
                target: target.to_syz_handle(),
                time: 0,
                action: AutomationAction::ClearAllProperties,
            },
        );
    }

    /// Clears the timeline of one property of the target.
    pub fn clear_property<H: ToSyzHandle, Q: SyzProperty>(&mut self, target: &H, property: Q)
        ensures
            final(self).id() == old(self).id(),
            final(self)@ == old(self)@.push(
                AutomationCommand {
                    target: target.syz_handle(),
                    time: 0,
                    action: AutomationAction::ClearProperty { property: property.property_id() },
                },
            ),
    {
        self.push(
            AutomationCommand {
                target: target.to_syz_handle(),
                time: 0,
                action: AutomationAction::ClearProperty { property: property.as_i32() },
            },
        );
    }

    /// Sends a user event with `param` from the target at the given time.
    pub fn send_user_event<H: ToSyzHandle>(&mut self, target: &H, time: u64, param: u64)
        ensures
            final(self).id() == old(self).id(),
            final(self)@ == old(self)@.push(
                AutomationCommand {
                    target: target.syz_handle(),
                    time,
                    action: AutomationAction::SendUserEvent { param },
                },
            ),
    {
        self.push(
            AutomationCommand {
                target: target.to_syz_handle(),
                time,
                action: AutomationAction::SendUserEvent { param },
            },
        );
    }

    /// Clears the pending user events of the target.
    pub fn clear_user_events<H: ToSyzHandle>(&mut self, target: &H)
        ensures
            final(self).id() == old(self).id(),
            final(self)@ == old(self)@.push(
                AutomationCommand {
                    target: target.syz_handle(),
                    time: 0,
                    action: AutomationAction::ClearEvents,
                },
            ),
    {
        self.push(
            AutomationCommand {
                target: target.to_syz_handle(),
                time: 0,
                action: AutomationAction::ClearEvents,
            },
        );
    }

    /// Reads the engine's answer to the handing over of the pending
    /// commands. On success nothing is pending any more; on failure the
    /// commands stay.
    pub fn flush(&mut self, status: i32, last_message: &str) -> (r: Result<(), Error>)
        ensures
            final(self).id() == old(self).id(),
            r is Ok <==> status == STATUS_OK,
            r is Ok ==> final(self)@ == Seq::<AutomationCommand>::empty(),
            r matches Err(e) ==> e.is_error(status, last_message@) && final(self)@ == old(self)@,
    {
        match check_error(status, last_message) {
            Err(e) => Err(e),
            Ok(_) => {
                self.commands.clear();
                Ok(())
            },
        }
    }

    /// Reads the engine's answers to a flush and to the execution of the
    /// batch that follows it. The batch is used up; the decrement owed for
    /// the engine's batch object is returned next to the result.
    ///
    /// The execution is only asked for after a successful flush: where the
    /// flush failed, its error is the result, whatever the second answer
    /// says.
    pub fn execute(
        self,
        flush_status: i32,
        flush_message: &str,
        execute_status: i32,
        execute_message: &str,
    ) -> (r: (Result<(), Error>, EngineCall))
        ensures
            r.0 is Ok <==> flush_status == STATUS_OK && execute_status == STATUS_OK,
            r.0 matches Err(e) ==> if flush_status != STATUS_OK {
                e.is_error(flush_status, flush_message@)
            } else {
                e.is_error(execute_status, execute_message@)
            },
            r.1 == call_owed(HandleOp::Drop, self.id()),
    {
        let mut batch = self;
        let call = EngineCall::DecRef(batch.handle);
        match batch.flush(flush_status, flush_message) {
            Err(e) => (Err(e), call),
            Ok(_) => (check_error(execute_status, execute_message), call),
        }
    }

    /// Gives the batch up without executing it. The decrement owed for the
    /// engine's batch object is returned.
    pub fn release(self) -> (r: EngineCall)
        ensures
            r == call_owed(HandleOp::Drop, self.id()),
    {
        EngineCall::DecRef(self.handle)
    }
}

} // verus!
