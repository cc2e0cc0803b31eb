//! Values of the script machine, and the handles by which they name things in the player.
use vstd::prelude::*;

use crate::text::AvmString;

verus! {

/// An object of the heap.
#[derive(Clone, Copy, Debug, PartialEq, Eq, Structural)]
pub struct Object {
    pub index: usize,
}

/// A scope of the heap.
#[derive(Clone, Copy, Debug, PartialEq, Eq, Structural)]
pub struct ScopeRef {
    pub index: usize,
}

/// A display object of the stage.
#[derive(Clone, Copy, Debug, PartialEq, Eq, Structural)]
pub struct DisplayObject {
    pub index: usize,
}

/// A constant pool of the player.
#[derive(Clone, Copy, Debug, PartialEq, Eq, Structural)]
pub struct ConstantPool {
    pub index: usize,
}

/// A function provided by the player itself, by its place in the player's table.
#[derive(Clone, Copy, Debug, PartialEq, Eq, Structural)]
pub struct NativeFunction {
    pub index: usize,
}

/// A value of the script machine. A number is kept as the bits of its double.
#[derive(Debug)]
pub enum Value {
    Undefined,
    Null,
    Bool(bool),
    Number(u64),
    String(AvmString),
    Object(Object),
}

impl Clone for Value {
    fn clone(&self) -> (res: Self)
        ensures
            res == *self,
    {
        match self {
            Value::Undefined => Value::Undefined,
            Value::Null => Value::Null,
            Value::Bool(b) => Value::Bool(*b),
            Value::Number(bits) => Value::Number(*bits),
            Value::String(s) => Value::String(s.clone()),
            Value::Object(o) => Value::Object(*o),
        }
    }
}

impl Value {
    /// The object that the value is, if it is one.
    pub open spec fn object(self) -> Option<Object> {
        match self {
            Value::Object(o) => Some(o),
            _ => None,
        }
    }

    /// The object that the value is, if it is one.
    pub fn as_object(&self) -> (res: Option<Object>)
        ensures
            res == self.object(),
    {
        match self {
            Value::Object(o) => Some(*o),
            _ => None,
        }
    }
}

/// A copy of a list of values.
pub fn copy_values(values: &[Value]) -> (res: Vec<Value>)
    ensures
        res@ == values@,
{
    let mut res: Vec<Value> = Vec::new();
    let mut i: usize = 0;
    while i < values.len()
        invariant
            i <= values@.len(),
            res@ == values@.take(i as int),
        decreases values@.len() - i,
    {
        res.push(values[i].clone());
        i += 1;
        assert(res@ =~= values@.take(i as int));
    }
    assert(values@.take(values@.len() as int) =~= values@);
    res
}

/// Why an execution ended without a value.
#[derive(Debug)]
pub enum Error {
    /// More prototypes were walked than the player allows.
    PrototypeRecursionLimit,
    /// More nested function calls were made than the player allows, which is the number given.
    FunctionRecursionLimit(u16),
    /// More nested calls were made by the player itself than it allows.
    SpecialRecursionLimit,
    /// The script ran for too long.
    ExecutionTimeout,
    /// The bytecode could not be read.
    InvalidSwf(String),
    /// The script threw a value.
    ThrownValue(Value),
}

/// How a list of actions ended.
#[derive(Debug)]
pub enum ReturnType {
    /// It ran off its end.
    Implicit,
    /// It returned a value.
    Explicit(Value),
}

impl ReturnType {
    /// The value that the caller sees.
    pub open spec fn returned(self) -> Value {
        match self {
            ReturnType::Implicit => Value::Undefined,
            ReturnType::Explicit(value) => value,
        }
    }

    /// The value that the caller sees.
    pub fn value(self) -> (res: Value)
        ensures
            res == self.returned(),
    {
        match self {
            ReturnType::Implicit => Value::Undefined,
            ReturnType::Explicit(value) => value,
        }
    }
}

/// The attributes of a property.
#[derive(Clone, Copy, Debug, PartialEq, Eq, Structural)]
pub struct Attribute {
    pub bits: u16,
}

/// The property is left out when the properties of its object are listed.
pub const DONT_ENUM: u16 = 0x0001;

impl Attribute {
    /// No attribute.
    pub open spec fn none() -> Attribute {
        Attribute { bits: 0 }
    }

    /// The property is hidden from listings.
    pub open spec fn hidden() -> Attribute {
        Attribute { bits: DONT_ENUM }
    }

    /// No attribute.
    pub fn empty() -> (res: Attribute)
        ensures
            res == Attribute::none(),
    {
        Attribute { bits: 0 }
    }

    /// The property is hidden from listings.
    pub fn dont_enum() -> (res: Attribute)
        ensures
            res == Attribute::hidden(),
    {
        Attribute { bits: DONT_ENUM }
    }
}

} // verus!
