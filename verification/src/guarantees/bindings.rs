//! What is guaranteed of the registers and variables that a call finds.
use vstd::prelude::*;

use crate::activation::Activation;
use crate::call::with_variable_params;
use crate::function::{present, Param};
use crate::guarantees::executions::{locals_are_kept, Execution};
use crate::heap::HeapModel;
use crate::laws::{
    preloads_fill_registers_in_order, register_count_is_kept, register_param_is_loaded,
    scopes_stay, variable_param_is_local, variable_params_keep,
};
use crate::value::{Object, Value};

verus! {

/// One if the condition holds.
pub open spec fn counted(condition: bool) -> int {
    if condition {
        1
    } else {
        0
    }
}

impl Execution {
    /// The register exists, and no parameter of the function has it.
    pub open spec fn is_free(self, register: int) -> bool {
        &&& 0 <= register < self.function().register_count
        &&& forall|i: int|
            0 <= i < self.function().params@.len() ==> ((
            #[trigger] self.function().params@[i]).register matches Some(taken) ==> taken@
                != register)
    }

    /// No parameter of the function is a variable of that name.
    pub open spec fn is_unused(self, name: Seq<char>) -> bool {
        forall|i: int|
            0 <= i < self.function().params@.len() && (
            #[trigger] self.function().params@[i]).register is None
                ==> self.function().params@[i].name@ != name
    }
}

/// A call has exactly the registers that its function asks for.
pub proof fn call_has_the_registers_asked_for(execution: Execution, frame: Activation)
    requires
        execution.enters(frame),
    ensures
        frame.local_registers@.len() == execution.function().register_count,
{
    register_count_is_kept(execution.call());
}

/// The register of a parameter holds the very argument, of whatever kind it is, and `undefined` if
/// the call has no such argument. Where several parameters have the register, the last one has it.
pub proof fn register_holds_argument(execution: Execution, frame: Activation, i: int, register: int)
    requires
        execution.enters(frame),
        0 <= i < execution.function().params@.len(),
        execution.function().params@[i].register matches Some(taken) && taken@ == register,
        register < execution.function().register_count,
        forall|j: int|
            i < j < execution.function().params@.len() ==> ((
            #[trigger] execution.function().params@[j]).register matches Some(taken) ==> taken@
                != register),
    ensures
        i < execution.args.len() ==> frame.local_registers@[register] == execution.args[i],
        i >= execution.args.len() ==> frame.local_registers@[register] == Value::Undefined,
{
    register_param_is_loaded(execution.call(), i);
}

/// The variable of a parameter without a register holds the very argument, of whatever kind it is,
/// and `undefined` if the call has no such argument. Where several such parameters have the name,
/// the last one has it.
pub proof fn variable_holds_argument(execution: Execution, frame: Activation, i: int)
    requires
        execution.enters(frame),
        0 <= i < execution.function().params@.len(),
        execution.function().params@[i].register is None,
        forall|j: int|
            i < j < execution.function().params@.len() && (
            #[trigger] execution.function().params@[j]).register is None
                ==> execution.function().params@[j].name@
                != execution.function().params@[i].name@,
    ensures
        ({
            let values = execution.after.scopes[frame.scope.index as int].values;
            let variables = execution.after.objects[values.index as int].properties;
            let name = execution.function().params@[i].name@;
            &&& variables.dom().contains(name)
            &&& variables[name].attributes.bits == 0
            &&& i < execution.args.len() ==> variables[name].value == execution.args[i]
            &&& i >= execution.args.len() ==> variables[name].value == Value::Undefined
        }),
{
    variable_param_is_local(execution.call(), i);
}

/// The only variables of a call that are no parameters are `arguments` and `super`. A call has
/// `arguments` exactly if the function neither preloads nor suppresses them, and `super` exactly if
/// the function neither preloads nor suppresses it and `this` is an object.
pub proof fn other_variables_are_arguments_and_super(
    execution: Execution,
    frame: Activation,
    name: Seq<char>,
)
    requires
        execution.enters(frame),
        execution.is_unused(name),
    ensures
        ({
            let values = execution.after.scopes[frame.scope.index as int].values;
            let variables = execution.after.objects[values.index as int].properties;
            let bits = execution.bits();
            let has_arguments = bits & 0x0004 != 0x0004 && bits & 0x0008 != 0x0008;
            let has_super = bits & 0x0010 != 0x0010 && bits & 0x0020 != 0x0020
                && execution.this is Object;
            &&& variables.dom().contains(name) <==> (name == "arguments"@ && has_arguments) || (name
                == "super"@ && has_super)
            &&& name == "arguments"@ && has_arguments ==> {
                &&& variables[name].value matches Value::Object(arguments)
                &&& arguments.index == execution.before.objects.len() + 1
                &&& variables[name].attributes.bits == 0
            }
            &&& name == "super"@ && has_super ==> {
                &&& variables[name].value matches Value::Object(zuper)
                &&& zuper.index == execution.after.objects.len() - 1
                &&& variables[name].attributes.bits == 0
            }
        }),
{
    reveal_strlit("arguments");
    reveal_strlit("super");
    assert("arguments"@.len() != "super"@.len());
    let call = execution.call();
    scopes_stay(call);
    locals_are_kept(execution, frame);
    assert(call.with_scope().object(call.locals()).properties.dom() =~= Set::<
        Seq<char>,
    >::empty());
    params_leave_other_names(
        call.with_super(),
        call.locals(),
        call.function.params@,
        call.args,
        name,
    );
}

proof fn params_leave_other_names(
    heap: HeapModel,
    locals: Object,
    params: Seq<Param>,
    args: Seq<Value>,
    name: Seq<char>,
)
    requires
        heap.has(locals),
        forall|i: int|
            0 <= i < params.len() && (#[trigger] params[i]).register is None ==> params[i].name@
                != name,
    ensures
        ({
            let before = heap.object(locals).properties;
            let after = with_variable_params(heap, locals, params, args).object(locals).properties;
            &&& after.dom().contains(name) == before.dom().contains(name)
            &&& before.dom().contains(name) ==> after[name] == before[name]
        }),
    decreases params.len(),
{
    if params.len() > 0 {
        let rest = params.drop_last();
        variable_params_keep(heap, locals, rest, args);
        assert(params[params.len() - 1] == params.last());
        assert forall|i: int| 0 <= i < rest.len() && (#[trigger] rest[i]).register is None implies
            rest[i].name@ != name by {
            assert(rest[i] == params[i]);
        }
        params_leave_other_names(heap, locals, rest, args, name);
    }
}

/// A register that neither a parameter nor a preloaded value has is `undefined`, and no value is
/// ever preloaded into register 0. `_parent` is not preloaded on a clip without a parent.
pub proof fn other_registers_are_undefined(execution: Execution, frame: Activation, register: int)
    requires
        execution.enters(frame),
        execution.is_free(register),
        ({
            let bits = execution.bits();
            let clip = execution.avm1.stage.clips@[frame.base_clip.index as int];
            register == 0 || register > counted(bits & 0x0001 == 0x0001) + counted(
                bits & 0x0004 == 0x0004,
            ) + counted(bits & 0x0010 == 0x0010) + counted(bits & 0x0040 == 0x0040) + counted(
                bits & 0x0080 == 0x0080 && clip.parent is Some,
            ) + counted(bits & 0x0100 == 0x0100)
        }),
    ensures
        frame.local_registers@[register] == Value::Undefined,
{
    preloads_fill_registers_in_order(execution.call(), register);
}

/// `this`, if it is preloaded, stands in register 1. If it is suppressed as well, `undefined` stands
/// there.
pub proof fn preloaded_this_comes_first(execution: Execution, frame: Activation, register: int)
    requires
        execution.enters(frame),
        execution.is_free(register),
        execution.bits() & 0x0001 == 0x0001,
        register == 1,
    ensures
        execution.bits() & 0x0002 != 0x0002 ==> frame.local_registers@[register] == execution.this,
        execution.bits() & 0x0002 == 0x0002 ==> frame.local_registers@[register]
            == Value::Undefined,
{
    let call = execution.call();
    preloads_fill_registers_in_order(call, register);
}

/// `arguments`, if they are preloaded, stand in the register after `this`, whether they are
/// suppressed as well or not.
pub proof fn preloaded_arguments_come_next(execution: Execution, frame: Activation, register: int)
    requires
        execution.enters(frame),
        execution.is_free(register),
        execution.bits() & 0x0004 == 0x0004,
        register == 1 + counted(execution.bits() & 0x0001 == 0x0001),
    ensures
        frame.local_registers@[register] matches Value::Object(arguments) && arguments.index
            == execution.before.objects.len() + 1,
{
    let call = execution.call();
    preloads_fill_registers_in_order(call, register);
    locals_are_kept(execution, frame);
}

/// `super`, if it is preloaded, stands in the register after `arguments`. If it is suppressed as
/// well, or `this` is no object, `undefined` stands there.
pub proof fn preloaded_super_comes_next(execution: Execution, frame: Activation, register: int)
    requires
        execution.enters(frame),
        execution.is_free(register),
        execution.bits() & 0x0010 == 0x0010,
        register == 1 + counted(execution.bits() & 0x0001 == 0x0001) + counted(execution.bits() & 0x0004 == 0x0004),
    ensures
        execution.bits() & 0x0020 != 0x0020 && execution.this is Object ==> {
            &&& frame.local_registers@[register] matches Value::Object(zuper)
            &&& zuper.index == execution.after.objects.len() - 1
        },
        execution.bits() & 0x0020 == 0x0020 || execution.this !is Object
            ==> frame.local_registers@[register] == Value::Undefined,
{
    let call = execution.call();
    preloads_fill_registers_in_order(call, register);
    locals_are_kept(execution, frame);
}

/// `_root`, if it is preloaded, stands in the register after `super`. It is the object of the root of
/// the clip that the call runs on, whatever the parent of that clip is.
pub proof fn preloaded_root_comes_next(execution: Execution, frame: Activation, register: int)
    requires
        execution.enters(frame),
        execution.is_free(register),
        execution.bits() & 0x0040 == 0x0040,
        register == 1 + counted(execution.bits() & 0x0001 == 0x0001) + counted(execution.bits() & 0x0004 == 0x0004) + counted(execution.bits() & 0x0010 == 0x0010),
    ensures
        ({
            let clips = execution.avm1.stage.clips@;
            let root = clips[frame.base_clip.index as int].root;
            frame.local_registers@[register] == clips[root.index as int].object
        }),
{
    let call = execution.call();
    preloads_fill_registers_in_order(call, register);
}

/// `_parent`, if it is preloaded and the clip that the call runs on has a parent, stands in the
/// register after `_root`. It is the object of that parent.
pub proof fn preloaded_parent_comes_next(execution: Execution, frame: Activation, register: int)
    requires
        execution.enters(frame),
        execution.is_free(register),
        execution.bits() & 0x0080 == 0x0080,
        execution.avm1.stage.clips@[frame.base_clip.index as int].parent is Some,
        register == 1 + counted(execution.bits() & 0x0001 == 0x0001) + counted(execution.bits() & 0x0004 == 0x0004) + counted(execution.bits() & 0x0010 == 0x0010) + counted(execution.bits() & 0x0040 == 0x0040),
    ensures
        ({
            let clips = execution.avm1.stage.clips@;
            let parent = clips[frame.base_clip.index as int].parent->Some_0;
            frame.local_registers@[register] == clips[parent.index as int].object
        }),
{
    let call = execution.call();
    preloads_fill_registers_in_order(call, register);
}

/// `_global`, if it is preloaded, stands in the register after `_parent`, or in that of `_parent` if
/// none is preloaded, as on a clip without a parent. It is the object of the globals.
pub proof fn preloaded_global_comes_last(execution: Execution, frame: Activation, register: int)
    requires
        execution.enters(frame),
        execution.is_free(register),
        execution.bits() & 0x0100 == 0x0100,
        register == 1 + counted(execution.bits() & 0x0001 == 0x0001) + counted(execution.bits() & 0x0004 == 0x0004) + counted(execution.bits() & 0x0010 == 0x0010) + counted(execution.bits() & 0x0040 == 0x0040) + counted(
            execution.bits() & 0x0080 == 0x0080
                && execution.avm1.stage.clips@[frame.base_clip.index as int].parent is Some,
        ),
    ensures
        frame.local_registers@[register] == Value::Object(execution.avm1.globals),
{
    let call = execution.call();
    preloads_fill_registers_in_order(call, register);
}

} // verus!
