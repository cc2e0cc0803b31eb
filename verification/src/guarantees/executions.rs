//! What is guaranteed of every execution of code.
use vstd::prelude::*;

use crate::activation::{Activation, Avm1};
use crate::call::Call;
use crate::executable::{Executable, ExecutionName, ExecutionReason, Invocation};
use crate::function::{arguments_array, Avm1Function};
use crate::heap::{bare_object, Heap, HeapModel, ObjectKind, ObjectModel, ScopeClass};
use crate::laws::{call_keeps_heap, scopes_stay, variable_params_keep};
use crate::value::{Error, Object, ScopeRef, Value};

verus! {

/// An execution of code: what it is given, what it makes of the heap and what it returns.
pub struct Execution {
    pub code: Executable,
    pub name: ExecutionName,
    /// The activation that asks for it.
    pub caller: Activation,
    pub avm1: Avm1,
    pub before: HeapModel,
    pub after: HeapModel,
    pub this: Value,
    pub depth: u8,
    pub args: Seq<Value>,
    pub reason: ExecutionReason,
    pub callee: Object,
    pub res: Result<Invocation, Error>,
}

impl Execution {
    /// The execution takes place, with handles left for what it allocates.
    pub open spec fn holds(self) -> bool {
        &&& self.code.executes(
            self.name,
            self.caller,
            self.avm1,
            self.before,
            self.after,
            self.this,
            self.depth,
            self.args,
            self.reason,
            self.callee,
            self.res,
        )
        &&& self.before.objects.len() + 3 <= usize::MAX
        &&& self.before.scopes.len() + 3 <= usize::MAX
    }

    /// The execution takes place, and it is a call of a function defined by bytecode that is to
    /// run in the frame.
    pub open spec fn enters(self, frame: Activation) -> bool {
        &&& self.holds()
        &&& self.code is Action
        &&& self.res matches Ok(Invocation::Actions { frame: entered, .. })
        &&& entered == frame
    }

    /// The function, if it is one defined by bytecode.
    pub open spec fn function(self) -> Avm1Function {
        *self.code->Action_0
    }

    /// The bits of the function's flags.
    pub open spec fn bits(self) -> u16 {
        self.function().flags.bits
    }

    /// The call, if it is one of a function defined by bytecode.
    pub open spec fn call(self) -> Call {
        self.code.action_call(
            self.name,
            self.caller,
            self.avm1,
            self.before,
            self.this,
            self.depth,
            self.args,
            self.reason,
            self.callee,
        )
    }
}

/// What `Executable::exec` does is an execution with the arguments it is given.
pub proof fn exec_is_an_execution(execution: Execution, before: Heap, after: Heap)
    requires
        execution.before == before@,
        execution.after == after@,
        before@.objects.len() + 3 <= usize::MAX,
        before@.scopes.len() + 3 <= usize::MAX,
        exists|heap: &mut Heap, args: &[Value]|
            *heap == before && *final(heap) == after && args@ == execution.args
                && #[trigger] call_ensures(
                Executable::exec,
                (
                    &execution.code,
                    &execution.name,
                    &execution.caller,
                    &execution.avm1,
                    heap,
                    execution.this,
                    execution.depth,
                    args,
                    execution.reason,
                    execution.callee,
                ),
                execution.res,
            ),
    ensures
        execution.holds(),
{
}

/// A native function is left to the interpreter with `this` and the arguments as they are, and the
/// heap is not touched.
pub proof fn native_function_is_handed_over(execution: Execution)
    requires
        execution.holds(),
        execution.code is Native,
    ensures
        execution.after == execution.before,
        match execution.res {
            Ok(Invocation::Native { function, this, args }) => {
                &&& execution.code == Executable::Native(function)
                &&& this == execution.this
                &&& args@ == execution.args
            },
            _ => false,
        },
{
}

/// A call is refused exactly if as many calls of its kind are running as the player allows, and
/// the error tells the kind.
pub proof fn call_is_refused_at_the_limit(execution: Execution)
    requires
        execution.holds(),
        execution.code is Action,
    ensures
        match execution.reason {
            ExecutionReason::FunctionCall => if execution.caller.id.function_count
                >= execution.avm1.max_recursion_depth {
                execution.res == Err::<Invocation, Error>(
                    Error::FunctionRecursionLimit(execution.avm1.max_recursion_depth),
                )
            } else {
                execution.res matches Ok(Invocation::Actions { .. })
            },
            ExecutionReason::Special => if execution.caller.id.special_count
                >= execution.avm1.max_special_depth {
                execution.res == Err::<Invocation, Error>(Error::SpecialRecursionLimit)
            } else {
                execution.res matches Ok(Invocation::Actions { .. })
            },
        },
{
}

/// A call counts as one more of its kind, and of the other kind as many are running as before.
pub proof fn call_is_counted(execution: Execution, frame: Activation)
    requires
        execution.enters(frame),
    ensures
        frame.id.function_count + frame.id.special_count == execution.caller.id.function_count
            + execution.caller.id.special_count + 1,
        execution.reason == ExecutionReason::FunctionCall ==> frame.id.special_count
            == execution.caller.id.special_count,
        execution.reason == ExecutionReason::Special ==> frame.id.function_count
            == execution.caller.id.function_count,
{
}

/// A call runs the bytecode of its function with the constant pool of its function, knows the
/// function object as its callee, and acts on the clip it runs on.
pub proof fn call_runs_its_function(execution: Execution, frame: Activation)
    requires
        execution.enters(frame),
    ensures
        execution.res matches Ok(Invocation::Actions { data, .. }) && data
            == execution.function().data,
        frame.constant_pool == execution.function().constant_pool,
        frame.callee == Some(execution.callee),
        frame.target_clip == Some(frame.base_clip),
{
}

/// `this` in a call is that of the call, unless the function preloads or suppresses it: then it is
/// that of the caller.
pub proof fn this_is_inherited_or_given(execution: Execution, frame: Activation)
    requires
        execution.enters(frame),
    ensures
        execution.bits() & 0x0001 == 0x0001 ==> frame.this == execution.caller.this,
        execution.bits() & 0x0002 == 0x0002 ==> frame.this == execution.caller.this,
        execution.bits() & 0x0001 != 0x0001 && execution.bits() & 0x0002 != 0x0002 ==> frame.this
            == execution.this,
{
}

/// A call from version 6 on, and a special execution in every version, runs on the clip of the
/// function while that has not been removed.
pub proof fn call_runs_on_clip_of_function(execution: Execution, frame: Activation)
    requires
        execution.enters(frame),
        execution.caller.swf_version >= 6 || execution.reason == ExecutionReason::Special,
        !execution.avm1.stage.clips@[execution.function().base_clip.index as int].removed,
    ensures
        frame.base_clip == execution.function().base_clip,
{
}

/// A call that does not run on the clip of its function runs on the clip whose script side `this`
/// is. Where `this` is none, it runs on the clip that the caller acts on, and only where the caller
/// acts on none, on the root of the caller's own clip.
pub proof fn call_runs_on_clip_of_this_or_caller(execution: Execution, frame: Activation)
    requires
        execution.enters(frame),
        (execution.caller.swf_version < 6 && execution.reason == ExecutionReason::FunctionCall)
            || execution.avm1.stage.clips@[execution.function().base_clip.index as int].removed,
    ensures
        execution.this matches Value::Object(object) ==> (
        execution.before.objects[object.index as int].kind matches ObjectKind::Clip(clip)
            ==> frame.base_clip == clip),
        (execution.this matches Value::Object(object)
            ==> execution.before.objects[object.index as int].kind !is Clip) ==> {
            &&& execution.caller.target_clip is Some ==> Some(frame.base_clip)
                == execution.caller.target_clip
            &&& execution.caller.target_clip is None ==> frame.base_clip
                == execution.avm1.stage.clips@[execution.caller.base_clip.index as int].root
        },
{
}

/// A call from version 6 on runs under the version of its function. Before, it runs under that of
/// the clip it runs on, but never under one below 5.
pub proof fn call_has_version_of_function_or_clip(execution: Execution, frame: Activation)
    requires
        execution.enters(frame),
    ensures
        execution.caller.swf_version >= 6 ==> frame.swf_version
            == execution.function().swf_version,
        execution.caller.swf_version < 6 ==> {
            let clip = execution.avm1.stage.clips@[frame.base_clip.index as int];
            &&& frame.swf_version >= 5
            &&& frame.swf_version >= clip.swf_version
            &&& frame.swf_version == clip.swf_version || frame.swf_version == 5
        },
{
}

/// An execution leaves every object and every scope that was there before as it was.
pub proof fn execution_leaves_the_rest_alone(execution: Execution)
    requires
        execution.holds(),
    ensures
        execution.before.objects.len() <= execution.after.objects.len(),
        execution.before.scopes.len() <= execution.after.scopes.len(),
        forall|i: int|
            0 <= i < execution.before.objects.len() ==> #[trigger] execution.after.objects[i]
                == execution.before.objects[i],
        forall|i: int|
            0 <= i < execution.before.scopes.len() ==> #[trigger] execution.after.scopes[i]
                == execution.before.scopes[i],
{
    if execution.code is Action {
        let call = execution.call();
        call_keeps_heap(call);
        assert forall|i: int| 0 <= i < execution.before.objects.len() implies
            #[trigger] execution.after.objects[i] == execution.before.objects[i] by {
            let o = Object { index: i as usize };
            assert(call.heap.has(o));
            assert(execution.after.object(o) == execution.before.object(o));
        }
        assert forall|i: int| 0 <= i < execution.before.scopes.len() implies
            #[trigger] execution.after.scopes[i] == execution.before.scopes[i] by {
            let s = ScopeRef { index: i as usize };
            assert(call.heap.has_scope(s));
            assert(execution.after.scope(s) == execution.before.scope(s));
        }
    }
}

/// The scope of a call is a new one for the variables of the call alone, which are those of a new
/// object that inherits from nothing.
pub proof fn call_has_a_scope_of_its_own(execution: Execution, frame: Activation)
    requires
        execution.enters(frame),
    ensures
        execution.before.scopes.len() <= frame.scope.index < execution.after.scopes.len(),
        execution.after.scopes[frame.scope.index as int].class == ScopeClass::Local,
        ({
            let values = execution.after.scopes[frame.scope.index as int].values;
            let locals = execution.after.objects[values.index as int];
            &&& values.index == execution.before.objects.len()
            &&& values.index < execution.after.objects.len()
            &&& locals.kind is Script
            &&& locals.proto is None
            &&& locals.elements.len() == 0
            &&& locals.interfaces.len() == 0
        }),
{
    let call = execution.call();
    scopes_stay(call);
    assert(call.with_scope().object(call.locals()) == bare_object(ObjectKind::Script, None));
    locals_are_kept(execution, frame);
}

/// Behind its own variables, a call from version 6 on sees the scope that its function was born
/// into, and makes no other scope.
pub proof fn closure_sees_scope_of_function(execution: Execution, frame: Activation)
    requires
        execution.enters(frame),
        execution.caller.swf_version >= 6,
    ensures
        execution.after.scopes[frame.scope.index as int].parent == Some(
            execution.function().scope,
        ),
        frame.scope.index == execution.before.scopes.len(),
        execution.after.scopes.len() == execution.before.scopes.len() + 1,
{
    scopes_stay(execution.call());
}

/// Behind its own variables, a call before version 6 sees those of the clip it runs on, then the
/// globals, and nothing more, whatever scope its function was born into.
pub proof fn call_without_closure_sees_clip_then_globals(execution: Execution, frame: Activation)
    requires
        execution.enters(frame),
        execution.caller.swf_version < 6,
        execution.avm1.stage.clips@[frame.base_clip.index as int].object is Object,
    ensures
        execution.after.scopes.len() == execution.before.scopes.len() + 3,
        match execution.after.scopes[frame.scope.index as int].parent {
            Some(target) => {
                let scope = execution.after.scopes[target.index as int];
                &&& execution.before.scopes.len() <= target.index < execution.after.scopes.len()
                &&& scope.class == ScopeClass::Target
                &&& Value::Object(scope.values)
                    == execution.avm1.stage.clips@[frame.base_clip.index as int].object
                &&& match scope.parent {
                    Some(global) => {
                        let scope = execution.after.scopes[global.index as int];
                        &&& execution.before.scopes.len() <= global.index
                        &&& global.index < execution.after.scopes.len()
                        &&& scope.class == ScopeClass::Global
                        &&& scope.values == execution.avm1.globals
                        &&& scope.parent is None
                    },
                    None => false,
                }
            },
            None => false,
        },
{
    scopes_stay(execution.call());
}

/// Besides the object of its variables a call makes at most two: its `arguments`, if the function
/// preloads them or does not suppress them, and its `super`, if the function does not suppress it
/// and `this` is an object.
pub proof fn call_makes_what_it_needs(execution: Execution, frame: Activation)
    requires
        execution.enters(frame),
    ensures
        execution.after.objects.len() == execution.before.objects.len() + 1 + (if execution.bits()
            & 0x0004 == 0x0004 || execution.bits() & 0x0008 != 0x0008 {
            1int
        } else {
            0
        }) + (if execution.bits() & 0x0020 != 0x0020 && execution.this is Object {
            1int
        } else {
            0
        }),
{
    locals_are_kept(execution, frame);
}

/// A call that is refused has made its scope and the object of its variables, and no more.
pub proof fn refused_call_makes_only_its_scope(execution: Execution)
    requires
        execution.holds(),
        execution.code is Action,
        execution.res is Err,
    ensures
        execution.after.objects.len() == execution.before.objects.len() + 1,
        execution.after.scopes.len() == execution.before.scopes.len() + (if
        execution.caller.swf_version >= 6 {
            1int
        } else {
            3
        }),
{
}

/// `arguments`, where a call has them, are an array of the arguments, in order. It knows the
/// function object that is called and the one that calls it, `null` if none does; both are hidden
/// from listings, and nothing else is stored.
pub proof fn arguments_hold_the_arguments(execution: Execution, frame: Activation)
    requires
        execution.enters(frame),
        execution.bits() & 0x0004 == 0x0004 || execution.bits() & 0x0008 != 0x0008,
    ensures
        ({
            let arguments = execution.after.objects[(execution.before.objects.len() + 1) as int];
            let stored = arguments.properties;
            &&& arguments.kind is Array
            &&& arguments.elements == execution.args
            &&& arguments.proto == Some(execution.avm1.array_prototype)
            &&& arguments.interfaces.len() == 0
            &&& forall|name: Seq<char>| #[trigger]
                stored.dom().contains(name) <==> name == "callee"@ || name == "caller"@
            &&& stored["callee"@].value == Value::Object(execution.callee)
            &&& stored["callee"@].attributes.bits == 1
            &&& stored["caller"@].value == match execution.caller.callee {
                Some(caller) => Value::Object(caller),
                None => Value::Null,
            }
            &&& stored["caller"@].attributes.bits == 1
        }),
{
    reveal_strlit("callee");
    reveal_strlit("caller");
    assert("callee"@[5] != "caller"@[5]);
    let call = execution.call();
    let arguments = call.with_scope().next_object();
    locals_are_kept(execution, frame);
    assert(call.with_arguments().object(arguments) == arguments_array(
        call.args,
        call.callee,
        call.caller.callee,
        call.avm1.array_prototype,
    ));
    assert(call.with_super().object(arguments) == call.with_arguments().object(arguments));
    assert(execution.after.object(arguments) == call.with_super().object(arguments));
}

/// `super`, where a call has one, stands for `this` at the depth of the call.
pub proof fn super_stands_for_this(execution: Execution, frame: Activation)
    requires
        execution.enters(frame),
        execution.bits() & 0x0020 != 0x0020,
        execution.this is Object,
    ensures
        ({
            let zuper = execution.after.objects.last();
            &&& zuper.kind matches ObjectKind::Super { this, depth }
            &&& Value::Object(this) == execution.this
            &&& depth == execution.depth
            &&& zuper.properties.dom() == Set::<Seq<char>>::empty()
            &&& zuper.elements.len() == 0
            &&& zuper.proto is None
        }),
{
    let call = execution.call();
    let zuper = call.with_arguments().next_object();
    locals_are_kept(execution, frame);
    assert(call.with_super().object(zuper).kind is Super);
    assert(execution.after.object(zuper) == call.with_super().object(zuper));
    assert(execution.after.objects.last() == execution.after.object(zuper));
}

/// All objects but that of the variables are as they were before the parameters were bound.
pub(crate) proof fn locals_are_kept(execution: Execution, frame: Activation)
    requires
        execution.enters(frame),
    ensures
        ({
            let call = execution.call();
            &&& execution.after == call.final_heap()
            &&& call.locals().index == execution.before.objects.len()
            &&& call.with_super().has(call.locals())
            &&& execution.after.objects.len() == call.with_super().objects.len()
            &&& forall|o: Object|
                call.with_super().has(o) && o != call.locals() ==> #[trigger] execution.after.object(
                    o,
                ) == call.with_super().object(o)
            &&& execution.after.object(call.locals()) == (ObjectModel {
                properties: execution.after.object(call.locals()).properties,
                ..bare_object(ObjectKind::Script, None)
            })
        }),
{
    let call = execution.call();
    scopes_stay(call);
    variable_params_keep(call.with_super(), call.locals(), call.function.params@, call.args);
    assert(call.with_scope().object(call.locals()) == bare_object(ObjectKind::Script, None));
    assert(call.with_arguments().object(call.locals()).kind is Script);
}

} // verus!
