//! Laws of the calling convention and of function objects.
use vstd::prelude::*;

use crate::activation::{Activation, Avm1};
use crate::call::{
    argument, preloaded_registers, with_register_params, with_variable_params, Call,
    FIRST_CLOSURE_VERSION, LOWEST_CALL_VERSION,
};
use crate::executable::{Executable, ExecutionName, ExecutionReason, Invocation};
use crate::flags::{
    PRELOAD_ARGUMENTS, PRELOAD_GLOBAL, PRELOAD_PARENT, PRELOAD_SUPER, PRELOAD_THIS,
    SUPPRESS_ARGUMENTS, SUPPRESS_SUPER, SUPPRESS_THIS,
};
use crate::function::{arguments_array, loads, present, Avm1Function, Param};
use crate::function_object::{
    with_constructor_of, with_function, FunctionObject, FIRST_VERSION_WITHOUT_CONSTRUCTOR,
};
use crate::heap::{
    bare_object, FunctionObjectData, HeapModel, ObjectKind, ObjectModel, Scope, ScopeClass,
};
use crate::value::{Attribute, DisplayObject, Error, Object, ScopeRef, Value};

verus! {

/// Variables of a call are put into its own object, and nothing else changes.
pub(crate) proof fn variable_params_keep(
    heap: HeapModel,
    locals: Object,
    params: Seq<Param>,
    args: Seq<Value>,
)
    requires
        heap.has(locals),
    ensures
        ({
            let after = with_variable_params(heap, locals, params, args);
            &&& after.scopes == heap.scopes
            &&& after.objects.len() == heap.objects.len()
            &&& after.object(locals) == (ObjectModel {
                properties: after.object(locals).properties,
                ..heap.object(locals)
            })
            &&& forall|o: Object|
                heap.has(o) && o != locals ==> #[trigger] after.object(o) == heap.object(o)
        }),
    decreases params.len(),
{
    if params.len() > 0 {
        variable_params_keep(heap, locals, params.drop_last(), args);
        let before = with_variable_params(heap, locals, params.drop_last(), args);
        let after = with_variable_params(heap, locals, params, args);
        assert forall|o: Object| heap.has(o) && o != locals implies #[trigger] after.object(o)
            == heap.object(o) by {
            assert(after.object(o) == before.object(o));
        }
    }
}

/// Once a call has its scope, no scope is added or changed.
pub(crate) proof fn scopes_stay(call: Call)
    requires
        call.heap.has_room(),
    ensures
        call.with_super().has(call.locals()),
        call.final_heap().scopes == call.with_scope().scopes,
{
    let zuper = call.with_super();
    assert(call.with_arguments().scopes == call.with_scope().scopes);
    assert(zuper.scopes == call.with_scope().scopes);
    assert(zuper.has(call.locals()));
    variable_params_keep(zuper, call.locals(), call.function.params@, call.args);
}

/// A call, even one that is refused for being nested too deeply, leaves every object and scope
/// that existed before it as it was.
pub proof fn call_keeps_heap(call: Call)
    requires
        call.heap.has_room(),
    ensures
        call.with_scope().extends(call.heap),
        call.final_heap().extends(call.heap),
{
    let parent = call.with_parent_scope();
    assert(parent.extends(call.heap));
    let scoped = call.with_scope();
    assert(scoped.extends(call.heap));
    assert(scoped.has(call.locals()));
    let arguments = call.with_arguments();
    assert(arguments.extends(call.heap));
    let zuper = call.with_super();
    assert(zuper.extends(call.heap));
    variable_params_keep(zuper, call.locals(), call.function.params@, call.args);
}

/// A call has as many registers as its function asks for.
pub proof fn register_count_is_kept(call: Call)
    ensures
        call.registers().len() == call.function.register_count,
{
    register_params_keep_len(
        preloaded_registers(call.function.register_count as nat, call.preloads()),
        call.function.params@,
        call.args,
    );
}

proof fn register_params_keep_len(registers: Seq<Value>, params: Seq<Param>, args: Seq<Value>)
    ensures
        with_register_params(registers, params, args).len() == registers.len(),
    decreases params.len(),
{
    if params.len() > 0 {
        register_params_keep_len(registers, params.drop_last(), args);
    }
}

proof fn register_without_param(
    registers: Seq<Value>,
    params: Seq<Param>,
    args: Seq<Value>,
    r: int,
)
    requires
        0 <= r < registers.len(),
        forall|j: int|
            0 <= j < params.len() ==> ((#[trigger] params[j]).register matches Some(register)
                ==> register@ != r),
    ensures
        with_register_params(registers, params, args)[r] == registers[r],
    decreases params.len(),
{
    if params.len() > 0 {
        let rest = params.drop_last();
        register_params_keep_len(registers, rest, args);
        assert(params[params.len() - 1] == params.last());
        assert forall|j: int| 0 <= j < rest.len() implies ((
        #[trigger] rest[j]).register matches Some(register) ==> register@ != r) by {
            assert(rest[j] == params[j]);
        }
        register_without_param(registers, rest, args, r);
    }
}

proof fn register_of_param(
    registers: Seq<Value>,
    params: Seq<Param>,
    args: Seq<Value>,
    i: int,
)
    requires
        0 <= i < params.len(),
        params[i].register matches Some(register) && register@ < registers.len(),
        forall|j: int|
            i < j < params.len() ==> ((#[trigger] params[j]).register matches Some(register)
                ==> register@ != params[i].register->Some_0@),
    ensures
        with_register_params(registers, params, args)[params[i].register->Some_0@ as int]
            == argument(args, i),
    decreases params.len(),
{
    let rest = params.drop_last();
    register_params_keep_len(registers, rest, args);
    if i < params.len() - 1 {
        assert(params[params.len() - 1] == params.last());
        assert(rest[i] == params[i]);
        assert forall|j: int| i < j < rest.len() implies ((
        #[trigger] rest[j]).register matches Some(register) ==> register@
            != rest[i].register->Some_0@) by {
            assert(rest[j] == params[j]);
        }
        register_of_param(registers, rest, args, i);
    }
}

/// A parameter that has a register finds its argument there, `undefined` if the call gives none.
/// Where several parameters have the same register, the last one wins; where a preloaded value
/// has it, the parameter wins.
pub proof fn register_param_is_loaded(call: Call, i: int)
    requires
        0 <= i < call.function.params@.len(),
        call.function.params@[i].register matches Some(register) && register@
            < call.function.register_count,
        forall|j: int|
            i < j < call.function.params@.len() ==> ((
            #[trigger] call.function.params@[j]).register matches Some(register) ==> register@
                != call.function.params@[i].register->Some_0@),
    ensures
        call.registers()[call.function.params@[i].register->Some_0@ as int] == (if i
            < call.args.len() {
            call.args[i]
        } else {
            Value::Undefined
        }),
{
    register_of_param(
        preloaded_registers(call.function.register_count as nat, call.preloads()),
        call.function.params@,
        call.args,
        i,
    );
}

/// A register that no parameter has holds the preloaded value, counted from register 1 on, and
/// `undefined` if there is none. Register 0 is never preloaded.
pub proof fn preloads_fill_registers_in_order(call: Call, r: int)
    requires
        0 <= r < call.function.register_count,
        forall|j: int|
            0 <= j < call.function.params@.len() ==> ((
            #[trigger] call.function.params@[j]).register matches Some(register) ==> register@
                != r),
    ensures
        call.registers()[r] == (if 1 <= r <= call.preloads().len() {
            call.preloads()[r - 1]
        } else {
            Value::Undefined
        }),
{
    register_without_param(
        preloaded_registers(call.function.register_count as nat, call.preloads()),
        call.function.params@,
        call.args,
        r,
    );
}

/// At most six values are preloaded.
pub proof fn preloads_are_few(call: Call)
    ensures
        call.preloads().len() <= 6,
{
}

/// If `this` is to be both preloaded and suppressed, its register is `undefined`, whatever `this`
/// is.
pub proof fn suppressed_this_is_undefined(call: Call)
    requires
        call.function.flags.has(PRELOAD_THIS),
        call.function.flags.has(SUPPRESS_THIS),
    ensures
        call.preloads().len() >= 1,
        call.preloads()[0] == Value::Undefined,
{
    assert(call.preloads()[0] == present(call.function.this_preload(call.this))[0]);
}

/// If `super` is to be both preloaded and suppressed, its register is `undefined`, and no `super`
/// is made.
pub proof fn suppressed_super_is_undefined(call: Call)
    requires
        call.function.flags.has(PRELOAD_SUPER),
        call.function.flags.has(SUPPRESS_SUPER),
    ensures
        call.with_super() == call.with_arguments(),
        ({
            let before = present(call.function.this_preload(call.this)) + present(
                call.function.arguments_preload(call.with_scope().next_object()),
            );
            &&& call.preloads().len() > before.len()
            &&& call.preloads()[before.len() as int] == Value::Undefined
        }),
{
}

/// Setting both flags of `arguments` is equivalent to just preloading it: two functions that
/// preload it, one of them suppressing it as well, make the same array and load it alike.
pub proof fn suppressing_preloaded_arguments_is_moot(
    one: Avm1Function,
    other: Avm1Function,
    heap: HeapModel,
    locals: Object,
    args: Seq<Value>,
    callee: Option<Object>,
    caller: Option<Object>,
    array_prototype: Object,
)
    requires
        one.flags.has(PRELOAD_ARGUMENTS),
        other.flags.has(PRELOAD_ARGUMENTS),
    ensures
        one.arguments_preload(heap.next_object()) == Some(Value::Object(heap.next_object())),
        one.arguments_preload(heap.next_object()) == other.arguments_preload(heap.next_object()),
        forall|
            before: Activation,
            after: Activation,
            after_other: Activation,
            r_before: u8,
            r_after: u8,
            r_other: u8,
        |
            loads(before, after, r_before, r_after, one.arguments_preload(heap.next_object()))
                && loads(
                before,
                after_other,
                r_before,
                r_other,
                other.arguments_preload(heap.next_object()),
            ) ==> after.is_like(after_other) && r_after == r_other,
        one.with_arguments(heap, locals, args, callee, caller, array_prototype)
            == other.with_arguments(heap, locals, args, callee, caller, array_prototype),
{
}

/// A function that suppresses `arguments` and does not preload it gets none.
pub proof fn suppressed_arguments_are_not_made(call: Call)
    requires
        !call.function.flags.has(PRELOAD_ARGUMENTS),
        call.function.flags.has(SUPPRESS_ARGUMENTS),
    ensures
        call.with_arguments() == call.with_scope(),
        call.function.arguments_preload(call.with_scope().next_object()) is None,
{
}

/// The depth of a call matters only where a `super` is made: where `this` is no object or `super`
/// is suppressed, loading it at whatever depth leaves the heap as it was, and the same frame.
pub proof fn depth_matters_only_to_super(
    function: Avm1Function,
    heap: HeapModel,
    locals: Object,
    this: Option<Object>,
    depth: u8,
    other: u8,
)
    requires
        this is None || function.flags.has(SUPPRESS_SUPER),
    ensures
        function.with_super(heap, locals, this, depth) == heap,
        function.with_super(heap, locals, this, other) == heap,
        function.super_preload(this, heap.next_object()) == (if function.flags.has(
            PRELOAD_SUPER,
        ) {
            Some(Value::Undefined)
        } else {
            None::<Value>
        }),
        forall|
            before: Activation,
            after: Activation,
            after_other: Activation,
            r_before: u8,
            r_after: u8,
            r_other: u8,
        |
            loads(
                before,
                after,
                r_before,
                r_after,
                function.super_preload(
                    this,
                    heap.next_object(),
                ),
            ) && loads(
                before,
                after_other,
                r_before,
                r_other,
                function.super_preload(this, heap.next_object()),
            ) ==> after.is_like(after_other) && r_after == r_other,
{
}

/// Calls that differ only in depth run alike where no `super` is made: they have the same
/// registers, leave the same heap, and run in the same frames.
pub proof fn calls_of_other_depth_run_alike(call: Call, depth: u8)
    requires
        call.this !is Object || call.function.flags.has(SUPPRESS_SUPER),
    ensures
        ({
            let other = Call { depth, ..call };
            &&& other.limit() == call.limit()
            &&& other.with_scope() == call.with_scope()
            &&& other.final_heap() == call.final_heap()
            &&& other.registers() == call.registers()
            &&& forall|frame: Activation| other.runs_in(frame) == call.runs_in(frame)
        }),
{
    let other = Call { depth, ..call };
    assert(other.with_scope() == call.with_scope());
    assert(other.with_arguments() == call.with_arguments());
    assert(other.preloads() =~= call.preloads());
}

/// A call on something that is no object has no `super`.
pub proof fn no_super_without_object(call: Call)
    requires
        call.this !is Object,
    ensures
        call.with_super() == call.with_arguments(),
{
}

/// On a root timeline, which has no parent, `_global` takes the register that `_parent` would
/// have had: it comes right after `_root`.
pub proof fn global_takes_register_of_missing_parent(call: Call)
    requires
        call.function.flags.has(PRELOAD_PARENT),
        call.function.flags.has(PRELOAD_GLOBAL),
    ensures
        ({
            let before = present(call.function.this_preload(call.this)) + present(
                call.function.arguments_preload(call.with_scope().next_object()),
            ) + present(
                call.function.super_preload(
                    call.this.object(),
                    call.with_arguments().next_object(),
                ),
            ) + present(call.function.root_preload(call.avm1.stage, call.base_clip()));
            call.preloads() == before + match call.avm1.stage.parent_value(call.base_clip()) {
                Some(parent) => seq![parent, Value::Object(call.avm1.globals)],
                None => seq![Value::Object(call.avm1.globals)],
            }
        }),
{
    let before = present(call.function.this_preload(call.this)) + present(
        call.function.arguments_preload(call.with_scope().next_object()),
    ) + present(
        call.function.super_preload(call.this.object(), call.with_arguments().next_object()),
    ) + present(call.function.root_preload(call.avm1.stage, call.base_clip()));
    assert(call.preloads() =~= before + match call.avm1.stage.parent_value(call.base_clip()) {
        Some(parent) => seq![parent, Value::Object(call.avm1.globals)],
        None => seq![Value::Object(call.avm1.globals)],
    });
}

proof fn variable_of_param(
    heap: HeapModel,
    locals: Object,
    params: Seq<Param>,
    args: Seq<Value>,
    i: int,
)
    requires
        heap.has(locals),
        0 <= i < params.len(),
        params[i].register is None,
        forall|j: int|
            i < j < params.len() && (#[trigger] params[j]).register is None ==> params[j].name@
                != params[i].name@,
    ensures
        with_variable_params(heap, locals, params, args).object(locals).has(
            params[i].name@,
            argument(args, i),
            Attribute::none(),
        ),
    decreases params.len(),
{
    let rest = params.drop_last();
    variable_params_keep(heap, locals, rest, args);
    if i < params.len() - 1 {
        assert(params[params.len() - 1] == params.last());
        assert(rest[i] == params[i]);
        assert forall|j: int|
            i < j < rest.len() && (#[trigger] rest[j]).register is None implies rest[j].name@
            != rest[i].name@ by {
            assert(rest[j] == params[j]);
        }
        variable_of_param(heap, locals, rest, args, i);
    }
}

/// A parameter without a register is a variable of the call itself, and its value is the argument,
/// `undefined` if the call gives none; so no assignment to it reaches the scope around the call.
/// Where several such parameters have the same name, the last one wins.
pub proof fn variable_param_is_local(call: Call, i: int)
    requires
        call.heap.has_room(),
        0 <= i < call.function.params@.len(),
        call.function.params@[i].register is None,
        forall|j: int|
            i < j < call.function.params@.len() && (
            #[trigger] call.function.params@[j]).register is None
                ==> call.function.params@[j].name@ != call.function.params@[i].name@,
    ensures
        call.final_heap().scope(call.scope()).values == call.locals(),
        call.final_heap().object(call.locals()).has(
            call.function.params@[i].name@,
            if i < call.args.len() {
                call.args[i]
            } else {
                Value::Undefined
            },
            Attribute::none(),
        ),
{
    scopes_stay(call);
    assert(call.with_scope().scope(call.scope()).values == call.locals());
    variable_of_param(
        call.with_super(),
        call.locals(),
        call.function.params@,
        call.args,
        i,
    );
}

/// Where a call has `arguments`, they are an array of the arguments, which knows the function that
/// was called and the one that called it, `null` if none did.
pub proof fn arguments_tell_the_call(call: Call)
    requires
        call.heap.has_room(),
        call.function.makes_arguments(),
    ensures
        ({
            let arguments = call.final_heap().object(call.with_scope().next_object());
            &&& arguments.elements == call.args
            &&& arguments.proto == Some(call.avm1.array_prototype)
            &&& arguments.has("callee"@, Value::Object(call.callee), Attribute::hidden())
            &&& arguments.has(
                "caller"@,
                match call.caller.callee {
                    Some(caller) => Value::Object(caller),
                    None => Value::Null,
                },
                Attribute::hidden(),
            )
        }),
{
    reveal_strlit("callee");
    reveal_strlit("caller");
    assert("callee"@[5] != "caller"@[5]);
    let arguments = call.with_scope().next_object();
    let made = arguments_array(
        call.args,
        call.callee,
        call.caller.callee,
        call.avm1.array_prototype,
    );
    assert(call.with_arguments().object(arguments) == made);
    assert(call.with_super().object(arguments) == made);
    variable_params_keep(
        call.with_super(),
        call.locals(),
        call.function.params@,
        call.args,
    );
}

/// A call from version 6 on closes over the function's definition: it runs under the version of
/// the function, in the scope of the function and, unless that has been removed, on the clip of
/// the function.
pub proof fn closure_keeps_definition(call: Call)
    requires
        call.heap.has_room(),
        call.caller.swf_version >= FIRST_CLOSURE_VERSION,
    ensures
        call.swf_version() == call.function.swf_version,
        call.final_heap().scope(call.scope()) == (Scope {
            parent: Some(call.function.scope),
            class: ScopeClass::Local,
            values: call.locals(),
        }),
        !call.avm1.stage.record(call.function.base_clip).removed ==> call.base_clip()
            == call.function.base_clip,
{
    scopes_stay(call);
}

/// A call before version 6 does not close over anything: it runs under version 5 at least, and
/// behind its own variables it sees those of its clip and then the globals, and nothing more.
pub proof fn call_without_closure_sees_clip_and_globals(call: Call)
    requires
        call.heap.has_room(),
        call.caller.swf_version < FIRST_CLOSURE_VERSION,
        call.avm1.stage.record(call.base_clip()).object is Object,
    ensures
        call.swf_version() >= LOWEST_CALL_VERSION,
        ({
            let heap = call.final_heap();
            let local = heap.scope(call.scope());
            let target = heap.scope(local.parent->Some_0);
            let global = heap.scope(target.parent->Some_0);
            &&& local.parent is Some
            &&& local.class == ScopeClass::Local
            &&& local.values == call.locals()
            &&& target.parent is Some
            &&& target.class == ScopeClass::Target
            &&& Value::Object(target.values) == call.avm1.stage.record(call.base_clip()).object
            &&& global.parent is None
            &&& global.class == ScopeClass::Global
            &&& global.values == call.avm1.globals
        }),
{
    scopes_stay(call);
}

/// A function call before version 6 does not depend on where the function was defined: functions
/// that differ only in version, scope and clip behave alike.
pub proof fn call_without_closure_ignores_definition(
    call: Call,
    swf_version: u8,
    scope: ScopeRef,
    base_clip: DisplayObject,
)
    requires
        call.caller.swf_version < FIRST_CLOSURE_VERSION,
        call.reason == ExecutionReason::FunctionCall,
    ensures
        ({
            let other = Call {
                function: Avm1Function { swf_version, scope, base_clip, ..call.function },
                ..call
            };
            &&& other.limit() == call.limit()
            &&& other.with_scope() == call.with_scope()
            &&& other.final_heap() == call.final_heap()
            &&& other.registers() == call.registers()
            &&& forall|frame: Activation|
                other.runs_in(frame) == call.runs_in(frame)
        }),
{
    let other = Call {
        function: Avm1Function { swf_version, scope, base_clip, ..call.function },
        ..call
    };
    assert(other.base_clip() == call.base_clip());
    assert(other.with_scope() == call.with_scope());
    assert(other.with_arguments() == call.with_arguments());
    assert(other.with_super() == call.with_super());
    assert(other.preloads() =~= call.preloads());
}

/// A special execution runs on the clip of the function in every version, unless that has been
/// removed.
pub proof fn special_execution_keeps_clip(call: Call)
    requires
        call.reason == ExecutionReason::Special,
        !call.avm1.stage.record(call.function.base_clip).removed,
    ensures
        call.base_clip() == call.function.base_clip,
{
}

/// A function and its prototype are linked to each other, the one visibly and the other not, and
/// no other object changes.
pub proof fn function_and_prototype_are_linked(
    heap: HeapModel,
    function: Option<Executable>,
    constructor: Option<Executable>,
    fn_proto: Object,
    prototype: Object,
)
    requires
        heap.has_room(),
        heap.has(prototype),
    ensures
        ({
            let after = with_function(heap, function, constructor, fn_proto, prototype);
            let object = heap.next_object();
            &&& after.is_function(object)
            &&& after.code(object).function == function
            &&& after.code(object).constructor == constructor
            &&& after.object(object).proto == Some(fn_proto)
            &&& after.object(object).has(
                "prototype"@,
                Value::Object(prototype),
                Attribute::none(),
            )
            &&& after.object(prototype).has(
                "constructor"@,
                Value::Object(object),
                Attribute::hidden(),
            )
            &&& after.scopes == heap.scopes
            &&& forall|o: Object|
                heap.has(o) && o != prototype ==> #[trigger] after.object(o) == heap.object(o)
        }),
{
}

/// An object under construction knows its constructor as `__constructor__`, and before version 7
/// as `constructor` too; from then on its `constructor` is what it was. All else stays as it was.
pub proof fn constructed_object_knows_constructor(
    heap: HeapModel,
    this: Object,
    function: Object,
    swf_version: u8,
)
    requires
        heap.has(this),
    ensures
        ({
            let before = heap.object(this);
            let after = with_constructor_of(heap, this, function, swf_version);
            let told = after.object(this);
            &&& told.has("__constructor__"@, Value::Object(function), Attribute::hidden())
            &&& swf_version < FIRST_VERSION_WITHOUT_CONSTRUCTOR ==> told.has(
                "constructor"@,
                Value::Object(function),
                Attribute::hidden(),
            )
            &&& swf_version >= FIRST_VERSION_WITHOUT_CONSTRUCTOR ==> {
                &&& told.properties.dom().contains("constructor"@)
                    == before.properties.dom().contains("constructor"@)
                &&& told.properties["constructor"@] == before.properties["constructor"@]
            }
            &&& forall|o: Object| o != this && heap.has(o) ==> #[trigger] after.object(o)
                == heap.object(o)
        }),
{
    reveal_strlit("__constructor__");
    reveal_strlit("constructor");
    assert("__constructor__"@.len() != "constructor"@.len());
}

/// Executing code leaves every object and scope that existed before as it was, whether it is
/// native or not, and whether it is refused or not.
pub proof fn execution_keeps_heap(
    exec: Executable,
    name: ExecutionName,
    activation: Activation,
    avm1: Avm1,
    before: HeapModel,
    after: HeapModel,
    this: Value,
    depth: u8,
    args: Seq<Value>,
    reason: ExecutionReason,
    callee: Object,
    res: Result<Invocation, Error>,
)
    requires
        before.has_room(),
        exec.executes(
            name,
            activation,
            avm1,
            before,
            after,
            this,
            depth,
            args,
            reason,
            callee,
            res,
        ),
    ensures
        after.extends(before),
{
    if exec is Action {
        call_keeps_heap(
            exec.action_call(
                name,
                activation,
                avm1,
                before,
                this,
                depth,
                args,
                reason,
                callee,
            ),
        );
    }
}

/// A construction changes no object that existed before but the one it constructs, and of that one
/// only the properties.
pub proof fn construction_changes_only_this(
    function: FunctionObject,
    activation: Activation,
    avm1: Avm1,
    before: HeapModel,
    after: HeapModel,
    this: Object,
    args: Seq<Value>,
    executed: Option<Result<Invocation, Error>>,
)
    requires
        before.has_room(),
        before.has(this),
        function.constructs(activation, avm1, before, after, this, args, executed),
    ensures
        after.object(this) == with_constructor_of(
            before,
            this,
            function.base,
            activation.swf_version,
        ).object(this),
        after.object(this) == (ObjectModel {
            properties: after.object(this).properties,
            ..before.object(this)
        }),
        before.objects.len() <= after.objects.len(),
        before.scopes.len() <= after.scopes.len(),
        forall|o: Object|
            before.has(o) && o != this ==> #[trigger] after.object(o) == before.object(o),
        forall|s: ScopeRef| before.has_scope(s) ==> #[trigger] after.scope(s) == before.scope(s),
{
    let told = with_constructor_of(before, this, function.base, activation.swf_version);
    if let Some(exec) = before.code(function.base).constructing() {
        execution_keeps_heap(
            exec,
            ExecutionName::Static("[ctor]"),
            activation,
            avm1,
            told,
            after,
            Value::Object(this),
            1,
            args,
            ExecutionReason::FunctionCall,
            function.base,
            executed->Some_0,
        );
    }
    assert(told.has(this));
    assert(after.object(this) == told.object(this));
    assert forall|o: Object| before.has(o) && o != this implies #[trigger] after.object(o)
        == before.object(o) by {
        assert(after.object(o) == told.object(o));
        assert(told.object(o) == before.object(o));
    }
    assert forall|s: ScopeRef| before.has_scope(s) implies #[trigger] after.scope(s)
        == before.scope(s) by {
        assert(after.scope(s) == told.scope(s));
    }
}

/// Calls are never nested more deeply than the player allows: where neither count exceeded its
/// limit before a call, neither does in the call.
pub proof fn nesting_stays_bounded(call: Call, frame: Activation)
    requires
        call.limit() is None,
        call.runs_in(frame),
        call.caller.id.function_count <= call.avm1.max_recursion_depth,
        call.caller.id.special_count <= call.avm1.max_special_depth,
    ensures
        frame.id.function_count <= call.avm1.max_recursion_depth,
        frame.id.special_count <= call.avm1.max_special_depth,
{
}

/// A property that has been defined is there with its value and attributes, and every other
/// property is as it was.
pub proof fn defined_value_is_stored(
    heap: HeapModel,
    object: Object,
    name: Seq<char>,
    value: Value,
    attributes: Attribute,
)
    requires
        heap.has(object),
    ensures
        heap.define(object, name, value, attributes).object(object).has(name, value, attributes),
        heap.define(object, name, value, attributes).object(object).properties.remove(name)
            == heap.object(object).properties.remove(name),
{
    assert(heap.define(object, name, value, attributes).object(object).properties.remove(name)
        =~= heap.object(object).properties.remove(name));
}

/// The code of a function object is what it was made with for as long as no object changes its
/// kind: no change of properties, elements, interfaces or prototypes, however many there are and
/// whatever their names, alters it, and the constructor part never takes the place of the function
/// part.
pub proof fn function_keeps_code(
    heap: HeapModel,
    function: Option<Executable>,
    constructor: Option<Executable>,
    fn_proto: Object,
    prototype: Object,
    later: HeapModel,
)
    requires
        heap.has_room(),
        heap.has(prototype),
        ({
            let bare = heap.push(
                bare_object(
                    ObjectKind::Function(FunctionObjectData { function, constructor }),
                    Some(fn_proto),
                ),
            );
            let made = with_function(heap, function, constructor, fn_proto, prototype);
            later.keeps_kinds(bare) || later.keeps_kinds(made)
        }),
    ensures
        later.is_function(heap.next_object()),
        later.code(heap.next_object()).function == function,
        later.code(heap.next_object()).constructor == constructor,
{
    let made = with_function(heap, function, constructor, fn_proto, prototype);
    let bare = heap.push(
        bare_object(
            ObjectKind::Function(FunctionObjectData { function, constructor }),
            Some(fn_proto),
        ),
    );
    assert(made.has(heap.next_object()));
    assert(bare.has(heap.next_object()));
}

/// What keeps every object's kind may be done any number of times.
pub proof fn kinds_stay_through_changes(first: HeapModel, second: HeapModel, third: HeapModel)
    requires
        second.keeps_kinds(first),
        third.keeps_kinds(second),
    ensures
        third.keeps_kinds(first),
{
    assert forall|o: Object| first.has(o) implies (#[trigger] third.object(o)).kind
        == first.object(o).kind by {
        assert(second.object(o).kind == first.object(o).kind);
    }
}

/// No change of an object's properties, elements, interfaces or prototype, whatever it is, alters
/// the code of a function object, that one or another.
pub proof fn property_changes_keep_code(
    heap: HeapModel,
    object: Object,
    changed: ObjectModel,
    function: Object,
)
    requires
        heap.has(object),
        heap.has(function),
        changed.kind == heap.object(object).kind,
    ensures
        ({
            let after = HeapModel {
                objects: heap.objects.update(object.index as int, changed),
                ..heap
            };
            &&& after.keeps_kinds(heap)
            &&& after.is_function(function) == heap.is_function(function)
            &&& after.code(function) == heap.code(function)
        }),
{
}

/// Defining a property of an object, under whatever name, and replacing its interfaces leave the
/// code of every function object as it was.
pub proof fn definitions_keep_code(
    heap: HeapModel,
    object: Object,
    name: Seq<char>,
    value: Value,
    attributes: Attribute,
    interfaces: Seq<Object>,
    function: Object,
)
    requires
        heap.has(object),
        heap.has(function),
    ensures
        heap.define(object, name, value, attributes).keeps_kinds(heap),
        heap.define(object, name, value, attributes).is_function(function) == heap.is_function(
            function,
        ),
        heap.define(object, name, value, attributes).code(function) == heap.code(function),
        heap.with_interfaces(object, interfaces).keeps_kinds(heap),
        heap.with_interfaces(object, interfaces).is_function(function) == heap.is_function(
            function,
        ),
        heap.with_interfaces(object, interfaces).code(function) == heap.code(function),
{
    let defined = heap.object(object).define(name, value, attributes);
    property_changes_keep_code(heap, object, defined, function);
    let replaced = ObjectModel { interfaces, ..heap.object(object) };
    property_changes_keep_code(heap, object, replaced, function);
}

/// No construction alters the code of a function object that existed before.
pub proof fn constructions_keep_code(
    constructing: FunctionObject,
    activation: Activation,
    avm1: Avm1,
    before: HeapModel,
    after: HeapModel,
    this: Object,
    args: Seq<Value>,
    executed: Option<Result<Invocation, Error>>,
    function: Object,
)
    requires
        before.has_room(),
        before.has(this),
        constructing.constructs(activation, avm1, before, after, this, args, executed),
        before.has(function),
    ensures
        after.keeps_kinds(before),
        after.code(function) == before.code(function),
{
    construction_changes_only_this(
        constructing,
        activation,
        avm1,
        before,
        after,
        this,
        args,
        executed,
    );
}

} // verus!
