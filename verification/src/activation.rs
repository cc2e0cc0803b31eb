//! Activations: what a piece of running script has at hand.
use vstd::prelude::*;

use crate::executable::ExecutionReason;
use crate::heap::{Heap, HeapModel};
use crate::stage::Stage;
use crate::text::AvmString;
use crate::value::{Attribute, ConstantPool, DisplayObject, Error, Object, ScopeRef, Value};

verus! {

/// What an activation is for, and how deep the calls are nested that led to it.
#[derive(Debug)]
pub struct ActivationIdentifier {
    /// The name for debug output.
    pub name: String,
    /// How many calls from bytecode are running.
    pub function_count: u16,
    /// How many calls from the player itself are running.
    pub special_count: u16,
}

impl ActivationIdentifier {
    /// The limit that one more call would exceed, if it would exceed one.
    pub open spec fn limit(
        self,
        reason: ExecutionReason,
        max_recursion_depth: u16,
        max_special_depth: u16,
    ) -> Option<Error> {
        match reason {
            ExecutionReason::FunctionCall => if self.function_count >= max_recursion_depth {
                Some(Error::FunctionRecursionLimit(max_recursion_depth))
            } else {
                None
            },
            ExecutionReason::Special => if self.special_count >= max_special_depth {
                Some(Error::SpecialRecursionLimit)
            } else {
                None
            },
        }
    }

    /// One call more is running than before, of the kind that the reason tells.
    pub open spec fn entered(self, reason: ExecutionReason, id: ActivationIdentifier) -> bool {
        match reason {
            ExecutionReason::FunctionCall => {
                &&& id.function_count == self.function_count + 1
                &&& id.special_count == self.special_count
            },
            ExecutionReason::Special => {
                &&& id.function_count == self.function_count
                &&& id.special_count == self.special_count + 1
            },
        }
    }

    /// Enters one more call, unless the calls are nested too deeply already.
    pub fn function(
        &self,
        name: String,
        reason: ExecutionReason,
        max_recursion_depth: u16,
        max_special_depth: u16,
    ) -> (res: Result<ActivationIdentifier, Error>)
        ensures
            match self.limit(reason, max_recursion_depth, max_special_depth) {
                Some(error) => res == Err::<ActivationIdentifier, Error>(error),
                None => res matches Ok(id) && id.name == name && self.entered(reason, id),
            },
    {
        match reason {
            ExecutionReason::FunctionCall => {
                if self.function_count >= max_recursion_depth {
                    return Err(Error::FunctionRecursionLimit(max_recursion_depth));
                }
                Ok(
                    ActivationIdentifier {
                        name,
                        function_count: self.function_count + 1,
                        special_count: self.special_count,
                    },
                )
            },
            ExecutionReason::Special => {
                if self.special_count >= max_special_depth {
                    return Err(Error::SpecialRecursionLimit);
                }
                Ok(
                    ActivationIdentifier {
                        name,
                        function_count: self.function_count,
                        special_count: self.special_count + 1,
                    },
                )
            },
        }
    }
}

/// What all activations of a player share and no call changes.
#[derive(Debug)]
pub struct Avm1 {
    /// The display objects.
    pub stage: Stage,
    /// The object of the globals.
    pub globals: Object,
    /// The prototype of arrays.
    pub array_prototype: Object,
    /// How many calls from bytecode may be nested.
    pub max_recursion_depth: u16,
    /// How many calls from the player itself may be nested.
    pub max_special_depth: u16,
    /// Whether activations get names that tell the call.
    pub debug_names: bool,
}

/// The registers with one of them set; a register that does not exist is left alone.
pub open spec fn set_register(registers: Seq<Value>, id: int, value: Value) -> Seq<Value> {
    if 0 <= id < registers.len() {
        registers.update(id, value)
    } else {
        registers
    }
}

/// A piece of running script.
#[derive(Debug)]
pub struct Activation {
    pub id: ActivationIdentifier,
    /// The version whose rules the script follows.
    pub swf_version: u8,
    /// The innermost scope.
    pub scope: ScopeRef,
    pub constant_pool: ConstantPool,
    /// The clip whose timeline or function this is.
    pub base_clip: DisplayObject,
    /// The clip that the script acts on, if it is a valid one.
    pub target_clip: Option<DisplayObject>,
    /// The value of `this`.
    pub this: Value,
    /// The function object that was called, if this is a call.
    pub callee: Option<Object>,
    /// The private registers.
    pub local_registers: Vec<Value>,
}

impl Activation {
    /// The activation is like another: all that it holds is the same.
    pub open spec fn is_like(self, other: Activation) -> bool {
        &&& self == (Activation { local_registers: self.local_registers, ..other })
        &&& self.local_registers@ == other.local_registers@
    }

    /// The clips of the activation exist.
    pub open spec fn on_stage(self, stage: Stage) -> bool {
        &&& stage.has(self.base_clip)
        &&& self.target_clip matches Some(clip) ==> stage.has(clip)
    }

    /// The activation has a scope, and the scope has variables.
    pub open spec fn in_scope(self, heap: HeapModel) -> bool {
        &&& heap.has_scope(self.scope)
        &&& heap.has(heap.scope(self.scope).values)
    }

    /// The clip that the script acts on, or else the root.
    pub open spec fn target_or_root(self, stage: Stage) -> DisplayObject {
        match self.target_clip {
            Some(clip) => clip,
            None => stage.record(self.base_clip).root,
        }
    }

    /// The activation of a list of actions, without private registers.
    pub fn from_action(
        id: ActivationIdentifier,
        swf_version: u8,
        scope: ScopeRef,
        constant_pool: ConstantPool,
        base_clip: DisplayObject,
        this: Value,
        callee: Option<Object>,
    ) -> (res: Activation)
        ensures
            res.id == id,
            res.swf_version == swf_version,
            res.scope == scope,
            res.constant_pool == constant_pool,
            res.base_clip == base_clip,
            res.target_clip == Some(base_clip),
            res.this == this,
            res.callee == callee,
            res.local_registers@ == Seq::<Value>::empty(),
    {
        Activation {
            id,
            swf_version,
            scope,
            constant_pool,
            base_clip,
            target_clip: Some(base_clip),
            this,
            callee,
            local_registers: Vec::new(),
        }
    }

    /// Whether the clips of the activation exist.
    pub fn is_on_stage(&self, stage: &Stage) -> (res: bool)
        ensures
            res == self.on_stage(*stage),
    {
        let has_target = match self.target_clip {
            Some(clip) => stage.contains(clip),
            None => true,
        };
        stage.contains(self.base_clip) && has_target
    }

    /// The version whose rules the script follows.
    pub fn swf_version(&self) -> (res: u8)
        ensures
            res == self.swf_version,
    {
        self.swf_version
    }

    /// The value of `this`.
    pub fn this_cell(&self) -> (res: Value)
        ensures
            res == self.this,
    {
        self.this.clone()
    }

    /// The clip that the script acts on, or else the root.
    pub fn target_clip_or_root(&self, stage: &Stage) -> (res: DisplayObject)
        requires
            self.on_stage(*stage),
        ensures
            res == self.target_or_root(*stage),
    {
        match self.target_clip {
            Some(clip) => clip,
            None => stage.clip(self.base_clip).root,
        }
    }

    /// Gives the activation private registers, all of them `undefined`.
    pub fn allocate_local_registers(&mut self, count: u8)
        ensures
            final(self).local_registers@ == Seq::new(count as nat, |i: int| Value::Undefined),
            *final(self) == (Activation {
                local_registers: final(self).local_registers,
                ..*old(self)
            }),
    {
        let mut registers: Vec<Value> = Vec::new();
        let mut i: u8 = 0;
        while i < count
            invariant
                i <= count,
                registers@ == Seq::new(i as nat, |j: int| Value::Undefined),
            decreases count - i,
        {
            registers.push(Value::Undefined);
            i += 1;
        }
        self.local_registers = registers;
    }

    /// Sets a private register. One that does not exist is left alone.
    pub fn set_local_register(&mut self, id: u8, value: Value)
        ensures
            final(self).local_registers@ == set_register(
                old(self).local_registers@,
                id as int,
                value,
            ),
            *final(self) == (Activation {
                local_registers: final(self).local_registers,
                ..*old(self)
            }),
    {
        let index: usize = id as usize;
        if index < self.local_registers.len() {
            self.local_registers.set(index, value);
        }
    }

    /// Defines a variable of the innermost scope.
    pub fn force_define_local(&self, heap: &mut Heap, name: AvmString, value: Value)
        requires
            old(heap).wf(),
            self.in_scope(old(heap)@),
        ensures
            final(heap).wf(),
            final(heap)@ == old(heap)@.define(
                old(heap)@.scope(self.scope).values,
                name@,
                value,
                Attribute::none(),
            ),
    {
        let values = heap.scope(self.scope).values;
        heap.define_value(values, name, value, Attribute::empty());
    }
}

} // verus!
