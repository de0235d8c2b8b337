//! Casting along the engine's object hierarchy, which exists only as
//! runtime tags.
use vstd::prelude::*;
use crate::enums::ObjectType;
use crate::errors::{Error, STATUS_LOCAL};
use crate::generator::{
    BufferGenerator, FastSineBankGenerator, Generator, NoiseGenerator, StreamingGenerator,
};
use crate::handle::{call_owed, EngineCall, Handle, HandleOp};
use crate::source::{AngularPannedSource, DirectSource, ScalarPannedSource, Source, Source3D};

verus! {

/// The message of the error for a conversion to a wrapper that does not
/// accept the object's tag.
pub const TYPE_MISMATCH: &'static str = "Type mismatch";

/// A wrapper type that a handle can be cast to.
///
/// Each wrapper declares the runtime tags that it accepts: a concrete
/// wrapper its own tag, a base wrapper the tags of all its kinds.
pub trait CastTarget: Sized {
    /// Whether the wrapper accepts an object with this tag.
    spec fn accepts_tag(tag: ObjectType) -> bool;

    /// The identifier of the object that the wrapper holds.
    spec fn object_id(&self) -> u64;

    fn accepts(tag: ObjectType) -> (r: bool)
        ensures
            r == Self::accepts_tag(tag),
    ;

    /// Casts `h` to this type, given the engine's answer to the query of its
    /// tag.
    ///
    /// A failed query is passed on. A tag that the type does not accept
    /// gives `Ok(None)`, which is no error. A tag that it accepts gives a
    /// wrapper around a second handle to the same object, with the
    /// increment owed for that handle; `h` itself stays with the caller.
    fn cast_from(h: &Handle, tag: Result<ObjectType, Error>) -> (r: Result<
        Option<(Self, EngineCall)>,
        Error,
    >)
        ensures
            match tag {
                Err(e) => r == Err::<Option<(Self, EngineCall)>, Error>(e),
                Ok(t) => if Self::accepts_tag(t) {
                    r matches Ok(Some(pair)) && pair.0.object_id() == h.id() && pair.1
                        == call_owed(HandleOp::Clone, h.id())
                } else {
                    r == Ok::<Option<(Self, EngineCall)>, Error>(None)
                },
            },
    ;
}

/// Converts `h` to `T`, given the engine's answer to the query of its tag.
/// Unlike a cast, a tag that `T` does not accept is an error here.
pub fn try_cast_from<T: CastTarget>(h: &Handle, tag: Result<ObjectType, Error>) -> (r: Result<
    (T, EngineCall),
    Error,
>)
    ensures
        match tag {
            Err(e) => r == Err::<(T, EngineCall), Error>(e),
            Ok(t) => if T::accepts_tag(t) {
                r matches Ok(pair) && pair.0.object_id() == h.id() && pair.1 == call_owed(
                    HandleOp::Clone,
                    h.id(),
                )
            } else {
                r matches Err(e) && e.is_error(STATUS_LOCAL, TYPE_MISMATCH@)
            },
        },
{
    match T::cast_from(h, tag) {
        Err(e) => Err(e),
        Ok(None) => Err(Error::rust_error(TYPE_MISMATCH)),
        Ok(Some(pair)) => Ok(pair),
    }
}

impl CastTarget for Handle {
    open spec fn accepts_tag(tag: ObjectType) -> bool {
        true
    }

    open spec fn object_id(&self) -> u64 {
        self.id()
    }

    fn accepts(tag: ObjectType) -> (r: bool) {
        true
    }

    fn cast_from(h: &Handle, tag: Result<ObjectType, Error>) -> (r: Result<
        Option<(Handle, EngineCall)>,
        Error,
    >) {
        match tag {
            Err(e) => Err(e),
            Ok(_) => Ok(Some(h.clone_ref())),
        }
    }
}

/// How many of the concrete generator wrappers accept a tag.
pub open spec fn generator_kinds_accepting(tag: ObjectType) -> nat {
    (if BufferGenerator::accepts_tag(tag) { 1nat } else { 0nat })
        + (if StreamingGenerator::accepts_tag(tag) { 1nat } else { 0nat })
        + (if NoiseGenerator::accepts_tag(tag) { 1nat } else { 0nat })
        + (if FastSineBankGenerator::accepts_tag(tag) { 1nat } else { 0nat })
}

/// How many of the concrete source wrappers accept a tag.
pub open spec fn source_kinds_accepting(tag: ObjectType) -> nat {
    (if DirectSource::accepts_tag(tag) { 1nat } else { 0nat })
        + (if AngularPannedSource::accepts_tag(tag) { 1nat } else { 0nat })
        + (if ScalarPannedSource::accepts_tag(tag) { 1nat } else { 0nat })
        + (if Source3D::accepts_tag(tag) { 1nat } else { 0nat })
}

/// The table of accepted tags follows the hierarchy: a tag is accepted by
/// the base wrapper of generators exactly if one concrete generator
/// wrapper accepts it, and then no second one does; the same holds of
/// sources; no tag is both a generator's and a source's; and the plain
/// handle accepts every tag.
pub proof fn lemma_tags_follow_the_hierarchy(tag: ObjectType)
    ensures
        Generator::accepts_tag(tag) <==> generator_kinds_accepting(tag) == 1,
        !Generator::accepts_tag(tag) <==> generator_kinds_accepting(tag) == 0,
        Source::accepts_tag(tag) <==> source_kinds_accepting(tag) == 1,
        !Source::accepts_tag(tag) <==> source_kinds_accepting(tag) == 0,
        !(Generator::accepts_tag(tag) && Source::accepts_tag(tag)),
        Handle::accepts_tag(tag),
{
}

} // verus!
