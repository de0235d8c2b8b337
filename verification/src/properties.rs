//! Properties: typed values of an engine object, each known to the engine
//! by the object's identifier and a number.
//!
//! Reading a property is one engine call, whose answer the `get` of a
//! property turns into a typed value. Writing one is one engine call too:
//! the `set` of a property says which. Floating-point values pass through
//! as the bit patterns of IEEE doubles, since nothing here computes with
//! them.
use vstd::prelude::*;
use std::marker::PhantomData;
use crate::enums::I32TransmutableEnum;
use crate::errors::{check_error, Error, STATUS_LOCAL, STATUS_OK};
use crate::handle::ToSyzHandle;

verus! {

/// The message of the error for a property whose value names no variant of
/// its enumeration.
pub const UNKNOWN_ENUM_VALUE: &'static str = "Unknown value of an enumeration";

/// The value of a property, as the engine takes it.
#[derive(Copy, Clone, Debug, PartialEq, Eq, Structural)]
pub enum PropertyValue {
    Int(i32),
    /// The bits of a double.
    Double(u64),
    /// The bits of three doubles.
    Double3(u64, u64, u64),
    /// The identifier of an object.
    Object(u64),
}

/// A write of a property that the binding owes the engine.
#[derive(Copy, Clone, Debug, PartialEq, Eq, Structural)]
pub struct PropertyWrite {
    /// The identifier of the object.
    pub target: u64,
    /// The number of the property.
    pub property: i32,
    pub value: PropertyValue,
}

/// Anything that names a property by its number.
pub trait SyzProperty {
    /// The number of the property.
    spec fn property_id(&self) -> i32;

    fn as_i32(&self) -> (r: i32)
        ensures
            r == self.property_id(),
    ;
}

/// A property backed by a 32-bit integer.
pub struct IntProperty<'a> {
    handle: u64,
    pub(crate) property: i32,
    _pd: PhantomData<&'a ()>,
}

impl<'a> IntProperty<'a> {
    /// The identifier of the object that the property belongs to.
    pub closed spec fn target(&self) -> u64 {
        self.handle
    }

    pub fn new<H: ToSyzHandle>(handle: &'a H, property: i32) -> (r: IntProperty<'a>)
        ensures
            r.target() == handle.syz_handle(),
            r.property_id() == property,
    {
        IntProperty { handle: handle.to_syz_handle(), property, _pd: PhantomData }
    }

    /// Reads the engine's answer to a read of the property: the status,
    /// the value that it wrote, and the engine's last error message.
    pub fn get(&self, status: i32, value: i32, last_message: &str) -> (r: Result<i32, Error>)
        ensures
            r is Ok <==> status == STATUS_OK,
            r matches Ok(v) ==> v == value,
            r matches Err(e) ==> e.is_error(status, last_message@),
    {
        match check_error(status, last_message) {
            Err(e) => Err(e),
            Ok(_) => Ok(value),
        }
    }

    /// The write that sets the property to `value`.
    pub fn set(&self, value: i32) -> (r: PropertyWrite)
        ensures
            r == (PropertyWrite {
                target: self.target(),
                property: self.property_id(),
                value: PropertyValue::Int(value),
            }),
    {
        PropertyWrite {
            target: self.handle,
            property: self.property,
            value: PropertyValue::Int(value),
        }
    }
}

impl<'a> SyzProperty for IntProperty<'a> {
    closed spec fn property_id(&self) -> i32 {
        self.property
    }

    fn as_i32(&self) -> (r: i32) {
        self.property
    }
}

/// A property whose values are the variants of an enumeration.
pub struct EnumProperty<'a, T> {
    pub(crate) iprop: IntProperty<'a>,
    _pd: PhantomData<&'a T>,
}

impl<'a, T: I32TransmutableEnum> EnumProperty<'a, T> {
    /// The identifier of the object that the property belongs to.
    pub closed spec fn target(&self) -> u64 {
        self.iprop.target()
    }

    pub fn new<H: ToSyzHandle>(handle: &'a H, property: i32) -> (r: EnumProperty<'a, T>)
        ensures
            r.target() == handle.syz_handle(),
            r.property_id() == property,
    {
        EnumProperty { iprop: IntProperty::new(handle, property), _pd: PhantomData }
    }

    /// Reads the engine's answer to a read of the property. A value that
    /// names no variant gives a local error.
    pub fn get(&self, status: i32, value: i32, last_message: &str) -> (r: Result<T, Error>)
        ensures
            r is Ok <==> status == STATUS_OK && T::decode(value) is Some,
            r matches Ok(v) ==> Some(v) == T::decode(value),
            r matches Err(e) ==> if status != STATUS_OK {
                e.is_error(status, last_message@)
            } else {
                e.is_error(STATUS_LOCAL, UNKNOWN_ENUM_VALUE@)
            },
    {
        match self.iprop.get(status, value, last_message) {
            Err(e) => Err(e),
            Ok(raw) => match T::from_i32(raw) {
                Some(v) => Ok(v),
                None => Err(Error::rust_error(UNKNOWN_ENUM_VALUE)),
            },
        }
    }

    /// The write that sets the property to `value`.
    pub fn set(&self, value: T) -> (r: PropertyWrite)
        ensures
            r == (PropertyWrite {
                target: self.target(),
                property: self.property_id(),
                value: PropertyValue::Int(value.code()),
            }),
    {
        self.iprop.set(value.as_i32())
    }
}

impl<'a, T> SyzProperty for EnumProperty<'a, T> {
    closed spec fn property_id(&self) -> i32 {
        self.iprop.property_id()
    }

    fn as_i32(&self) -> (r: i32) {
        self.iprop.as_i32()
    }
}

/// A property that is true or false: the engine keeps it as an integer
/// that is zero or not.
pub struct BoolProperty<'a> {
    pub(crate) iprop: IntProperty<'a>,
}

impl<'a> BoolProperty<'a> {
    /// The identifier of the object that the property belongs to.
    pub closed spec fn target(&self) -> u64 {
        self.iprop.target()
    }

    pub fn new<H: ToSyzHandle>(handle: &'a H, property: i32) -> (r: BoolProperty<'a>)
        ensures
            r.target() == handle.syz_handle(),
            r.property_id() == property,
    {
        BoolProperty { iprop: IntProperty::new(handle, property) }
    }

    /// Reads the engine's answer to a read of the property: any value but
    /// zero is true.
    pub fn get(&self, status: i32, value: i32, last_message: &str) -> (r: Result<bool, Error>)
        ensures
            r is Ok <==> status == STATUS_OK,
            r matches Ok(v) ==> v == (value != 0),
            r matches Err(e) ==> e.is_error(status, last_message@),
    {
        match self.iprop.get(status, value, last_message) {
            Err(e) => Err(e),
            Ok(raw) => Ok(raw != 0),
        }
    }

    /// The write that sets the property: one for true, zero for false.
    pub fn set(&self, value: bool) -> (r: PropertyWrite)
        ensures
            r == (PropertyWrite {
                target: self.target(),
                property: self.property_id(),
                value: PropertyValue::Int(if value { 1i32 } else { 0i32 }),
            }),
    {
        let raw: i32 = if value { 1 } else { 0 };
        self.iprop.set(raw)
    }
}

impl<'a> SyzProperty for BoolProperty<'a> {
    closed spec fn property_id(&self) -> i32 {
        self.iprop.property_id()
    }

    fn as_i32(&self) -> (r: i32) {
        self.iprop.as_i32()
    }
}

/// A property backed by a double.
pub struct DoubleProperty<'a> {
    handle: u64,
    pub(crate) property: i32,
    _pd: PhantomData<&'a ()>,
}

impl<'a> SyzProperty for DoubleProperty<'a> {
    closed spec fn property_id(&self) -> i32 {
        self.property
    }

    fn as_i32(&self) -> (r: i32) {
        self.property
    }
}

impl<'a> DoubleProperty<'a> {
    /// The identifier of the object that the property belongs to.
    pub closed spec fn target(&self) -> u64 {
        self.handle
    }

    pub fn new<H: ToSyzHandle>(handle: &'a H, property: i32) -> (r: DoubleProperty<'a>)
        ensures
            r.target() == handle.syz_handle(),
            r.property_id() == property,
    {
        DoubleProperty { handle: handle.to_syz_handle(), property, _pd: PhantomData }
    }

    /// Reads the engine's answer to a read of the property; the value is the
    /// bits of the double.
    pub fn get(&self, status: i32, value: u64, last_message: &str) -> (r: Result<u64, Error>)
        ensures
            r is Ok <==> status == STATUS_OK,
            r matches Ok(v) ==> v == value,
            r matches Err(e) ==> e.is_error(status, last_message@),
    {
        match check_error(status, last_message) {
            Err(e) => Err(e),
            Ok(_) => Ok(value),
        }
    }

    /// The write that sets the property to the double with the bits `value`.
    pub fn set(&self, value: u64) -> (r: PropertyWrite)
        ensures
            r == (PropertyWrite {
                target: self.target(),
                property: self.property_id(),
                value: PropertyValue::Double(value),
            }),
    {
        PropertyWrite {
            target: self.handle,
            property: self.property,
            value: PropertyValue::Double(value),
        }
    }
}

/// A property backed by three doubles, such as a position.
pub struct Double3Property<'a> {
    handle: u64,
    pub(crate) property: i32,
    _pd: PhantomData<&'a ()>,
}

impl<'a> SyzProperty for Double3Property<'a> {
    closed spec fn property_id(&self) -> i32 {
        self.property
    }

    fn as_i32(&self) -> (r: i32) {
        self.property
    }
}

impl<'a> Double3Property<'a> {
    /// The identifier of the object that the property belongs to.
    pub closed spec fn target(&self) -> u64 {
        self.handle
    }

    pub fn new<H: ToSyzHandle>(handle: &'a H, property: i32) -> (r: Double3Property<'a>)
        ensures
            r.target() == handle.syz_handle(),
            r.property_id() == property,
    {
        Double3Property { handle: handle.to_syz_handle(), property, _pd: PhantomData }
    }

    /// Reads the engine's answer to a read of the property; the values are
    /// the bits of the three doubles.
    pub fn get(&self, status: i32, value: (u64, u64, u64), last_message: &str) -> (r: Result<
        (u64, u64, u64),
        Error,
    >)
        ensures
            r is Ok <==> status == STATUS_OK,
            r matches Ok(v) ==> v == value,
            r matches Err(e) ==> e.is_error(status, last_message@),
    {
        match check_error(status, last_message) {
            Err(e) => Err(e),
            Ok(_) => Ok(value),
        }
    }

    /// The write that sets the property to the doubles with the bits `values`.
    pub fn set(&self, values: (u64, u64, u64)) -> (r: PropertyWrite)
        ensures
            r == (PropertyWrite {
                target: self.target(),
                property: self.property_id(),
                value: PropertyValue::Double3(values.0, values.1, values.2),
            }),
    {
        PropertyWrite {
            target: self.handle,
            property: self.property,
            value: PropertyValue::Double3(values.0, values.1, values.2),
        }
    }
}

/// A property backed by six doubles, such as an orientation.
pub struct Double6Property<'a> {
    handle: u64,
    pub(crate) property: i32,
    _pd: PhantomData<&'a ()>,
}

impl<'a> SyzProperty for Double6Property<'a> {
    closed spec fn property_id(&self) -> i32 {
        self.property
    }

    fn as_i32(&self) -> (r: i32) {
        self.property
    }
}

impl<'a> Double6Property<'a> {
    /// The identifier of the object that the property belongs to.
    pub closed spec fn target(&self) -> u64 {
        self.handle
    }

    pub fn new<H: ToSyzHandle>(handle: &'a H, property: i32) -> (r: Double6Property<'a>)
        ensures
            r.target() == handle.syz_handle(),
            r.property_id() == property,
    {
        Double6Property { handle: handle.to_syz_handle(), property, _pd: PhantomData }
    }

    /// Reads the engine's answer to a read of the property; the values are
    /// the bits of the six doubles.
    pub fn get(
        &self,
        status: i32,
        value: (u64, u64, u64, u64, u64, u64),
        last_message: &str,
    ) -> (r: Result<(u64, u64, u64, u64, u64, u64), Error>)
        ensures
            r is Ok <==> status == STATUS_OK,
            r matches Ok(v) ==> v == value,
            r matches Err(e) ==> e.is_error(status, last_message@),
    {
        match check_error(status, last_message) {
            Err(e) => Err(e),
            Ok(_) => Ok(value),
        }
    }
}

/// A property whose value is another object.
pub struct ObjectProperty<'a> {
    handle: u64,
    pub(crate) property: i32,
    _pd: PhantomData<&'a ()>,
}

impl<'a> SyzProperty for ObjectProperty<'a> {
    closed spec fn property_id(&self) -> i32 {
        self.property
    }

    fn as_i32(&self) -> (r: i32) {
        self.property
    }
}

impl<'a> ObjectProperty<'a> {
    /// The identifier of the object that the property belongs to.
    pub closed spec fn target(&self) -> u64 {
        self.handle
    }

    pub fn new<H: ToSyzHandle>(handle: &'a H, property: i32) -> (r: ObjectProperty<'a>)
        ensures
            r.target() == handle.syz_handle(),
            r.property_id() == property,
    {
        ObjectProperty { handle: handle.to_syz_handle(), property, _pd: PhantomData }
    }

    /// The write that sets the property to the object behind `handle`.
    pub fn set<H: ToSyzHandle>(&self, handle: &H) -> (r: PropertyWrite)
        ensures
            r == (PropertyWrite {
                target: self.target(),
                property: self.property_id(),
                value: PropertyValue::Object(handle.syz_handle()),
            }),
    {
        PropertyWrite {
            target: self.handle,
            property: self.property,
            value: PropertyValue::Object(handle.to_syz_handle()),
        }
    }
}

} // verus!
