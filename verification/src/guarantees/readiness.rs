//! What is guaranteed of the questions whether code can be executed.
use vstd::prelude::*;

use crate::activation::{Activation, Avm1};
use crate::executable::{Executable, ExecutionName, ExecutionReason};
use crate::function::Avm1Function;
use crate::function_object::FunctionObject;
use crate::heap::{Heap, HeapModel, ObjectKind};
use crate::stage::Stage;
use crate::text::AvmString;
use crate::value::{DisplayObject, Object, Value};

verus! {

/// All that a call of a function names is there: the roots and parents of all clips, the clips whose
/// script sides are in the heap, those of the caller and of the function, and the objects among
/// `this` and the arguments.
pub open spec fn all_is_there(
    function: Avm1Function,
    caller: Activation,
    stage: Stage,
    heap: HeapModel,
    this: Value,
    args: Seq<Value>,
) -> bool {
    let count = stage.clips@.len();
    &&& forall|i: int|
        0 <= i < count ==> {
            &&& (#[trigger] stage.clips@[i]).root.index < count
            &&& stage.clips@[i].parent matches Some(parent) ==> parent.index < count
        }
    &&& forall|i: int|
        0 <= i < heap.objects.len() ==> ((#[trigger] heap.objects[i]).kind matches ObjectKind::Clip(
            clip,
        ) ==> clip.index < count)
    &&& caller.base_clip.index < count
    &&& caller.target_clip matches Some(target) ==> target.index < count
    &&& function.base_clip.index < count
    &&& this matches Value::Object(object) ==> object.index < heap.objects.len()
    &&& forall|i: int|
        0 <= i < args.len() ==> (#[trigger] args[i] matches Value::Object(object) ==> object.index
            < heap.objects.len())
}

/// Native code can always be executed.
pub proof fn native_code_is_always_ready(
    code: Executable,
    name: ExecutionName,
    caller: Activation,
    avm1: Avm1,
    heap: Heap,
    this: Value,
    depth: u8,
    args: &[Value],
    reason: ExecutionReason,
    callee: Object,
    ready: bool,
)
    requires
        code is Native,
        call_ensures(
            Executable::may_exec,
            (&code, &name, &caller, &avm1, &heap, &this, depth, args, reason, callee),
            ready,
        ),
    ensures
        ready,
{
}

/// Bytecode can be executed from version 6 on exactly if all that the call names is there. Before,
/// the clip that the call runs on has to have an object as well: that of the function in a special
/// execution while it has not been removed, otherwise that of `this`, or else the one that the
/// caller acts on, or else the root of the caller's own.
pub proof fn bytecode_is_ready_if_all_is_there(
    code: Executable,
    name: ExecutionName,
    caller: Activation,
    avm1: Avm1,
    heap: Heap,
    this: Value,
    depth: u8,
    args: &[Value],
    reason: ExecutionReason,
    callee: Object,
    ready: bool,
)
    requires
        code is Action,
        call_ensures(
            Executable::may_exec,
            (&code, &name, &caller, &avm1, &heap, &this, depth, args, reason, callee),
            ready,
        ),
    ensures
        ({
            let function = *code->Action_0;
            let clips = avm1.stage.clips@;
            let there = all_is_there(function, caller, avm1.stage, heap@, this, args@);
            let on_own_clip = reason == ExecutionReason::Special
                && !clips[function.base_clip.index as int].removed;
            let this_is_clip = this is Object
                && heap@.objects[this->Object_0.index as int].kind is Clip;
            let clip_of_this = heap@.objects[this->Object_0.index as int].kind->Clip_0;
            &&& !there ==> !ready
            &&& there && caller.swf_version >= 6 ==> ready
            &&& there && caller.swf_version < 6 && on_own_clip ==> (ready
                <==> clips[function.base_clip.index as int].object is Object)
            &&& there && caller.swf_version < 6 && !on_own_clip && this_is_clip ==> (ready
                <==> clips[clip_of_this.index as int].object is Object)
            &&& there && caller.swf_version < 6 && !on_own_clip && !this_is_clip ==> match caller.target_clip {
                Some(target) => ready <==> clips[target.index as int].object is Object,
                None => ready
                    <==> clips[clips[caller.base_clip.index as int].root.index as int].object is Object,
            }
        }),
{
    let call = code.action_call(
        name,
        caller,
        avm1,
        heap@,
        this,
        depth,
        args@,
        reason,
        callee,
    );
    what_is_there_exists(call.function, caller, avm1.stage, heap, this, args@);
}

proof fn what_is_there_exists(
    function: Avm1Function,
    caller: Activation,
    stage: Stage,
    heap: Heap,
    this: Value,
    args: Seq<Value>,
)
    ensures
        all_is_there(function, caller, stage, heap@, this, args) == {
            &&& stage.wf()
            &&& heap@.on_stage(stage)
            &&& caller.on_stage(stage)
            &&& stage.has(function.base_clip)
            &&& heap@.has_value(this)
            &&& heap@.has_values(args)
        },
{
    let count = stage.clips@.len();
    assert(stage.clips.len() == count);
    heap.handles_suffice();
    if stage.wf() {
        assert forall|i: int| 0 <= i < count implies {
            &&& (#[trigger] stage.clips@[i]).root.index < count
            &&& stage.clips@[i].parent matches Some(parent) ==> parent.index < count
        } by {
            let clip = DisplayObject { index: i as usize };
            assert(stage.has(clip));
            assert(stage.record(clip) == stage.clips@[i]);
        }
    }
    if heap@.on_stage(stage) {
        assert forall|i: int| 0 <= i < heap@.objects.len() implies ((
        #[trigger] heap@.objects[i]).kind matches ObjectKind::Clip(clip) ==> clip.index < count) by {
            let object = Object { index: i as usize };
            assert(heap@.has(object));
            assert(heap@.display_object(object) is Some == heap@.objects[i].kind is Clip);
        }
    }
    if heap@.has_values(args) {
        assert forall|i: int| 0 <= i < args.len() implies (
        #[trigger] args[i] matches Value::Object(object) ==> object.index < heap@.objects.len()) by {
            assert(heap@.has_value(args[i]));
        }
    }
    if all_is_there(function, caller, stage, heap@, this, args) {
        assert forall|object: Object| heap@.has(object) implies (
        #[trigger] heap@.display_object(object) matches Some(clip) ==> stage.has(clip)) by {
            assert(heap@.object(object) == heap@.objects[object.index as int]);
        }
        assert forall|clip: DisplayObject| #[trigger] stage.has(clip) implies {
            &&& stage.has(stage.record(clip).root)
            &&& stage.record(clip).parent matches Some(parent) ==> stage.has(parent)
        } by {
            assert(stage.record(clip) == stage.clips@[clip.index as int]);
        }
        assert forall|i: int| 0 <= i < args.len() implies heap@.has_value(#[trigger] args[i]) by {
        }
    }
}

/// A function object can be called exactly if it is one and its function part, if it has any, can be
/// executed under the name that is given, as an ordinary call found on `this` directly.
pub proof fn function_object_is_ready_if_its_code_is(
    function: FunctionObject,
    name: AvmString,
    caller: Activation,
    avm1: Avm1,
    heap: Heap,
    this: Value,
    args: &[Value],
    code: Executable,
    code_is_ready: bool,
    ready: bool,
)
    requires
        call_ensures(
            FunctionObject::may_call,
            (&function, &name, &caller, &avm1, &heap, &this, args),
            ready,
        ),
        call_ensures(
            Executable::may_exec,
            (
                &code,
                &ExecutionName::Dynamic(name),
                &caller,
                &avm1,
                &heap,
                &this,
                0,
                args,
                ExecutionReason::FunctionCall,
                function.base,
            ),
            code_is_ready,
        ),
    ensures
        ({
            let kind = heap@.objects[function.base.index as int].kind;
            let is_function = function.base.index < heap@.objects.len() && kind is Function;
            &&& !is_function ==> !ready
            &&& is_function && kind->Function_0.function is None ==> ready
            &&& is_function && kind->Function_0.function == Some(code) ==> ready == code_is_ready
        }),
{
}

/// A function object can construct an object exactly if it is a function object, the object exists,
/// and its constructor part, or else its function part, can be executed on the object.
pub proof fn construction_is_ready_if_its_code_is(
    function: FunctionObject,
    caller: Activation,
    avm1: Avm1,
    heap: Heap,
    this: Object,
    args: &[Value],
    code: Executable,
    code_is_ready: bool,
    ready: bool,
)
    requires
        call_ensures(
            FunctionObject::may_construct,
            (&function, &caller, &avm1, &heap, this, args),
            ready,
        ),
        call_ensures(
            Executable::may_exec,
            (
                &code,
                &ExecutionName::Static("[ctor]"),
                &caller,
                &avm1,
                &heap,
                &Value::Object(this),
                1,
                args,
                ExecutionReason::FunctionCall,
                function.base,
            ),
            code_is_ready,
        ),
    ensures
        ({
            let kind = heap@.objects[function.base.index as int].kind;
            let parts = kind->Function_0;
            let is_possible = function.base.index < heap@.objects.len() && kind is Function
                && this.index < heap@.objects.len();
            &&& !is_possible ==> !ready
            &&& is_possible && parts.constructor is None && parts.function is None ==> ready
            &&& is_possible && parts.constructor == Some(code) ==> ready == code_is_ready
            &&& is_possible && parts.constructor is None && parts.function == Some(code) ==> ready
                == code_is_ready
        }),
{
}

/// What is found ready can be done: nothing more is asked of an execution, a call or a construction
/// than the question whether it can be done answers, and that the heap is in order.
pub proof fn what_is_ready_can_be_done(
    code: Executable,
    execution_name: ExecutionName,
    function: FunctionObject,
    name: AvmString,
    caller: Activation,
    avm1: Avm1,
    before: Heap,
    this: Value,
    object: Object,
    depth: u8,
    args: &[Value],
    reason: ExecutionReason,
    callee: Object,
    may_exec: bool,
    may_call: bool,
    may_construct: bool,
)
    requires
        before.wf(),
        call_ensures(
            Executable::may_exec,
            (
                &code,
                &execution_name,
                &caller,
                &avm1,
                &before,
                &this,
                depth,
                args,
                reason,
                callee,
            ),
            may_exec,
        ),
        call_ensures(
            FunctionObject::may_call,
            (&function, &name, &caller, &avm1, &before, &this, args),
            may_call,
        ),
        call_ensures(
            FunctionObject::may_construct,
            (&function, &caller, &avm1, &before, object, args),
            may_construct,
        ),
    ensures
        may_exec ==> forall|heap: &mut Heap|
            *heap == before ==> #[trigger] call_requires(
                Executable::exec,
                (
                    &code,
                    &execution_name,
                    &caller,
                    &avm1,
                    heap,
                    this,
                    depth,
                    args,
                    reason,
                    callee,
                ),
            ),
        may_call ==> forall|heap: &mut Heap|
            *heap == before ==> #[trigger] call_requires(
                FunctionObject::call,
                (&function, name, &caller, &avm1, heap, this, args),
            ),
        may_construct ==> forall|heap: &mut Heap|
            *heap == before ==> #[trigger] call_requires(
                FunctionObject::construct_on_existing,
                (&function, &caller, &avm1, heap, object, args),
            ),
        may_construct ==> forall|heap: &mut Heap|
            *heap == before ==> #[trigger] call_requires(
                FunctionObject::construct_with_object,
                (&function, Ok(object), &caller, &avm1, heap, args),
            ),
{
}

} // verus!
