//! What a call of a function defined by bytecode amounts to: the clip, version and scope it runs
//! under, and what it finds in its registers and variables.
use vstd::prelude::*;

use crate::activation::{set_register, Activation, Avm1};
use crate::executable::{ExecutionName, ExecutionReason};
use crate::flags::{PRELOAD_THIS, SUPPRESS_THIS};
use crate::function::{present, Avm1Function, Param};
use crate::heap::{bare_object, HeapModel, ObjectKind, Scope, ScopeClass};
use crate::value::{Attribute, DisplayObject, Error, Object, ScopeRef, Value};

verus! {

/// The first version whose calls close over the scope that defined the function.
pub const FIRST_CLOSURE_VERSION: u8 = 6;

/// The lowest version that a call which is no closure runs under.
pub const LOWEST_CALL_VERSION: u8 = 5;

/// The registers of a call after the values have been loaded, from register 1 on. All others are
/// `undefined`, and values beyond the last register are not loaded.
pub open spec fn preloaded_registers(count: nat, values: Seq<Value>) -> Seq<Value> {
    Seq::new(
        count,
        |i: int|
            if 1 <= i <= values.len() {
                values[i - 1]
            } else {
                Value::Undefined
            },
    )
}

/// The argument at `i`. Any unassigned arguments are `undefined`.
pub open spec fn argument(args: Seq<Value>, i: int) -> Value {
    if 0 <= i < args.len() {
        args[i]
    } else {
        Value::Undefined
    }
}

/// The registers after the arguments have been loaded, one parameter after the other.
pub open spec fn with_register_params(
    registers: Seq<Value>,
    params: Seq<Param>,
    args: Seq<Value>,
) -> Seq<Value>
    decreases params.len(),
{
    if params.len() == 0 {
        registers
    } else {
        let before = with_register_params(registers, params.drop_last(), args);
        match params.last().register {
            Some(register) => set_register(
                before,
                register@ as int,
                argument(args, params.len() - 1),
            ),
            None => before,
        }
    }
}

/// The heap after the arguments have been made variables, one parameter after the other.
pub open spec fn with_variable_params(
    heap: HeapModel,
    locals: Object,
    params: Seq<Param>,
    args: Seq<Value>,
) -> HeapModel
    decreases params.len(),
{
    if params.len() == 0 {
        heap
    } else {
        let before = with_variable_params(heap, locals, params.drop_last(), args);
        match params.last().register {
            Some(_) => before,
            None => before.define(
                locals,
                params.last().name@,
                argument(args, params.len() - 1),
                Attribute::none(),
            ),
        }
    }
}

/// A call of a function defined by bytecode, as it is made.
pub struct Call {
    /// The function.
    pub function: Avm1Function,
    /// The name of the execution.
    pub name: ExecutionName,
    /// The activation that makes the call.
    pub caller: Activation,
    /// The player.
    pub avm1: Avm1,
    /// The heap before the call.
    pub heap: HeapModel,
    /// The value of `this`.
    pub this: Value,
    /// How far up the prototype chain of `this` the function was found.
    pub depth: u8,
    /// The arguments.
    pub args: Seq<Value>,
    /// The reason of the execution.
    pub reason: ExecutionReason,
    /// The function object.
    pub callee: Object,
}

impl Call {
    /// Function calls in a v6+ SWF are proper closures.
    pub open spec fn is_closure(self) -> bool {
        self.caller.swf_version >= FIRST_CLOSURE_VERSION
    }

    /// The clip that the call runs on if not on that of the function: that of `this`, or else the
    /// one that the caller acts on.
    pub open spec fn caller_clip(self) -> DisplayObject {
        match self.this {
            Value::Object(this) => match self.heap.display_object(this) {
                Some(clip) => clip,
                None => self.caller.target_or_root(self.avm1.stage),
            },
            _ => self.caller.target_or_root(self.avm1.stage),
        }
    }

    /// The clip that the call runs on.
    pub open spec fn base_clip(self) -> DisplayObject {
        if (self.is_closure() || self.reason == ExecutionReason::Special)
            && !self.avm1.stage.record(self.function.base_clip).removed {
            self.function.base_clip
        } else {
            self.caller_clip()
        }
    }

    /// The version that the call runs under.
    pub open spec fn swf_version(self) -> u8 {
        let clip_version = self.avm1.stage.record(self.base_clip()).swf_version;
        if self.is_closure() {
            self.function.swf_version
        } else if clip_version >= LOWEST_CALL_VERSION {
            clip_version
        } else {
            LOWEST_CALL_VERSION
        }
    }

    /// The heap with the scope that a call which is no closure sees around it: that of the clip,
    /// and behind it that of the globals.
    pub open spec fn with_clip_scope(self) -> HeapModel {
        let globals = self.heap.push_scope(
            Scope { parent: None, class: ScopeClass::Global, values: self.avm1.globals },
        );
        globals.push_scope(
            Scope {
                parent: Some(self.heap.next_scope()),
                class: ScopeClass::Target,
                values: self.avm1.stage.record(self.base_clip()).object->Object_0,
            },
        )
    }

    /// The heap with the scope around the call.
    pub open spec fn with_parent_scope(self) -> HeapModel {
        if self.is_closure() {
            self.heap
        } else {
            self.with_clip_scope()
        }
    }

    /// The scope around the call.
    pub open spec fn parent_scope(self) -> ScopeRef {
        if self.is_closure() {
            self.function.scope
        } else {
            ScopeRef { index: (self.heap.scopes.len() + 1) as usize }
        }
    }

    /// The object that holds the variables of the call.
    pub open spec fn locals(self) -> Object {
        self.with_parent_scope().next_object()
    }

    /// The scope of the call.
    pub open spec fn scope(self) -> ScopeRef {
        self.with_parent_scope().next_scope()
    }

    /// The heap with the scope of the call, which has no variables yet.
    pub open spec fn with_scope(self) -> HeapModel {
        self.with_parent_scope().push(bare_object(ObjectKind::Script, None)).push_scope(
            Scope {
                parent: Some(self.parent_scope()),
                class: ScopeClass::Local,
                values: self.locals(),
            },
        )
    }

    /// The heap with `arguments`. The caller is the previous callee.
    pub open spec fn with_arguments(self) -> HeapModel {
        self.function.with_arguments(
            self.with_scope(),
            self.locals(),
            self.args,
            Some(self.callee),
            self.caller.callee,
            self.avm1.array_prototype,
        )
    }

    /// The heap with `super`.
    pub open spec fn with_super(self) -> HeapModel {
        self.function.with_super(
            self.with_arguments(),
            self.locals(),
            self.this.object(),
            self.depth,
        )
    }

    /// The heap with everything that the call finds.
    pub open spec fn final_heap(self) -> HeapModel {
        with_variable_params(
            self.with_super(),
            self.locals(),
            self.function.params@,
            self.args,
        )
    }

    /// The values that are loaded into registers, from register 1 on: those of `this`,
    /// `arguments`, `super`, `_root`, `_parent` and `_global` that there are.
    pub open spec fn preloads(self) -> Seq<Value> {
        let function = self.function;
        present(function.this_preload(self.this)) + present(
            function.arguments_preload(self.with_scope().next_object()),
        ) + present(
            function.super_preload(self.this.object(), self.with_arguments().next_object()),
        ) + present(function.root_preload(self.avm1.stage, self.base_clip())) + present(
            function.parent_preload(self.avm1.stage, self.base_clip()),
        ) + present(function.global_preload(self.avm1.globals))
    }

    /// The registers of the call.
    pub open spec fn registers(self) -> Seq<Value> {
        with_register_params(
            preloaded_registers(self.function.register_count as nat, self.preloads()),
            self.function.params@,
            self.args,
        )
    }

    /// What `this` is in the scope of the call: that of the caller, if the function has `this` in
    /// a register or wants none.
    pub open spec fn local_this(self) -> Value {
        if self.function.flags.has(PRELOAD_THIS) || self.function.flags.has(SUPPRESS_THIS) {
            self.caller.this
        } else {
            self.this
        }
    }

    /// The name of the activation.
    pub open spec fn activation_name(self) -> Seq<char> {
        if self.avm1.debug_names {
            self.function.call_text(self.heap, self.avm1.stage, self.name, self.args)
        } else {
            "[Anonymous]"@
        }
    }

    /// The limit that the call exceeds, if it exceeds one.
    pub open spec fn limit(self) -> Option<Error> {
        self.caller.id.limit(
            self.reason,
            self.avm1.max_recursion_depth,
            self.avm1.max_special_depth,
        )
    }

    /// The activation is that of the call.
    pub open spec fn runs_in(self, frame: Activation) -> bool {
        &&& self.caller.id.entered(self.reason, frame.id)
        &&& frame.id.name@ == self.activation_name()
        &&& frame.swf_version == self.swf_version()
        &&& frame.scope == self.scope()
        &&& frame.constant_pool == self.function.constant_pool
        &&& frame.base_clip == self.base_clip()
        &&& frame.target_clip == Some(self.base_clip())
        &&& frame.this == self.local_this()
        &&& frame.callee == Some(self.callee)
        &&& frame.local_registers@ == self.registers()
    }

    /// Everything that the call names exists.
    pub open spec fn names_exist(self) -> bool {
        let stage = self.avm1.stage;
        &&& stage.wf()
        &&& self.heap.on_stage(stage)
        &&& self.caller.on_stage(stage)
        &&& stage.has(self.function.base_clip)
        &&& self.heap.has_value(self.this)
        &&& self.heap.has_values(self.args)
    }

    /// Everything that the call names exists, and a call that is no closure runs on a clip that
    /// has an object.
    pub open spec fn wf(self) -> bool {
        &&& self.names_exist()
        &&& !self.is_closure() ==> self.avm1.stage.record(self.base_clip()).object is Object
    }
}

} // verus!
