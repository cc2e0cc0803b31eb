//! Script-defined and native functions of an AVM1 player, and the convention by which they are
//! called: how a `DefineFunction2` action becomes a function, which clip, scope and version a call
//! runs under, which registers and variables it finds preloaded, and how function objects are
//! allocated, called and constructed.
//!
//! The crate holds the decisions. Running bytecode, calling a native function and looking up a
//! property that may run script are left to an interpreter, which is told what to do by the values
//! that the functions here return.
#![allow(unused_imports)]

pub mod activation;
pub mod call;
pub mod executable;
pub mod flags;
pub mod function;
pub mod function_object;
pub mod guarantees;
pub mod heap;
pub mod laws;
pub mod stage;
pub mod text;
pub mod value;

pub use activation::{Activation, ActivationIdentifier, Avm1};
pub use executable::{
    constructor_to_fn, Executable, ExecutionName, ExecutionReason, Invocation, Outcome,
};
pub use flags::FunctionFlags;
pub use function::{
    Avm1Function, DefineFunction2, FunctionParam, Param, RegisterIndex, SwfSlice,
};
pub use function_object::{
    Awaits, CallStep, ConstructEvent, ConstructStep, FunctionObject, Produces,
};
pub use heap::{Heap, ObjectKind, Scope, ScopeClass};
pub use stage::{Clip, Stage};
pub use text::AvmString;
pub use value::{
    Attribute, ConstantPool, DisplayObject, Error, NativeFunction, Object, ReturnType, ScopeRef,
    Value,
};
