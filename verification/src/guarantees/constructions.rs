//! What is guaranteed of calls and constructions of function objects.
use vstd::prelude::*;

use crate::activation::{Activation, Avm1};
use crate::executable::{Executable, ExecutionName, ExecutionReason, Invocation, Outcome};
use crate::function_object::{
    with_constructor_of, Awaits, CallStep, ConstructEvent, ConstructStep, FunctionObject, Produces,
};
use crate::guarantees::executions::{
    call_is_counted, call_is_refused_at_the_limit, call_runs_its_function,
    execution_leaves_the_rest_alone, native_function_is_handed_over, super_stands_for_this,
    Execution,
};
use crate::heap::{FunctionObjectData, Heap, HeapModel, ObjectKind, ObjectModel};
use crate::text::AvmString;
use crate::value::{Error, Object, Value};

verus! {

/// A call of a function object.
pub struct ObjectCall {
    pub function: FunctionObject,
    pub name: AvmString,
    pub caller: Activation,
    pub avm1: Avm1,
    pub before: Heap,
    pub after: Heap,
    pub this: Value,
    pub args: Seq<Value>,
    pub res: Result<CallStep, Error>,
}

impl ObjectCall {
    /// What the function object is.
    pub open spec fn kind(self) -> ObjectKind {
        self.before@.objects[self.function.base.index as int].kind
    }

    /// The execution of code that the call is: an ordinary one, under the name that is given, for
    /// the function object itself, found on `this` directly.
    pub open spec fn execution(self, code: Executable, res: Result<Invocation, Error>) -> Execution {
        Execution {
            code,
            name: ExecutionName::Dynamic(self.name),
            caller: self.caller,
            avm1: self.avm1,
            before: self.before@,
            after: self.after@,
            this: self.this,
            depth: 0,
            args: self.args,
            reason: ExecutionReason::FunctionCall,
            callee: self.function.base,
            res,
        }
    }

    /// The call executes the code and hands over what the execution leaves to the interpreter, or
    /// its very error.
    pub open spec fn executes(self, code: Executable) -> bool {
        match self.res {
            Ok(CallStep::Invoke(invocation)) => self.execution(code, Ok(invocation)).holds(),
            Ok(CallStep::Finished(_)) => false,
            Err(error) => self.execution(code, Err(error)).holds(),
        }
    }
}

/// A call of a function object executes its function part, never its constructor part. Without a
/// function part it changes nothing and gives `undefined`.
pub proof fn call_executes_function_part(call: ObjectCall)
    requires
        call.before@.objects.len() + 3 <= usize::MAX,
        call.before@.scopes.len() + 3 <= usize::MAX,
        call.kind() is Function,
        exists|heap: &mut Heap, args: &[Value]|
            *heap == call.before && *final(heap) == call.after && args@ == call.args
                && #[trigger] call_ensures(
                FunctionObject::call,
                (&call.function, call.name, &call.caller, &call.avm1, heap, call.this, args),
                call.res,
            ),
    ensures
        call.kind()->Function_0.function matches Some(code) ==> call.executes(code),
        call.kind()->Function_0.function is None ==> {
            &&& call.res == Ok::<CallStep, Error>(CallStep::Finished(Value::Undefined))
            &&& call.after@ == call.before@
        },
{
}

/// A call of a function object of native code hands over that code, with `this` and the arguments
/// as they are.
pub proof fn call_of_native_code_hands_it_over(call: ObjectCall, code: Executable)
    requires
        call.executes(code),
        code is Native,
    ensures
        call.after@ == call.before@,
        match call.res {
            Ok(CallStep::Invoke(Invocation::Native { function, this, args })) => {
                &&& code == Executable::Native(function)
                &&& this == call.this
                &&& args@ == call.args
            },
            _ => false,
        },
{
}

/// A call of a function object of bytecode is refused exactly if as many function calls are running
/// as the player allows. Otherwise the frame counts as one more, knows the function object as its
/// callee, and its `super`, if it has one, stands for `this` itself.
pub proof fn call_of_bytecode_enters_a_frame(call: ObjectCall, code: Executable)
    requires
        call.executes(code),
        code is Action,
    ensures
        ({
            let function = *code->Action_0;
            match call.res {
                Ok(CallStep::Invoke(Invocation::Actions { frame, data })) => {
                    &&& call.caller.id.function_count < call.avm1.max_recursion_depth
                    &&& data == function.data
                    &&& frame.callee == Some(call.function.base)
                    &&& frame.id.function_count == call.caller.id.function_count + 1
                    &&& frame.id.special_count == call.caller.id.special_count
                    &&& function.flags.bits & 0x0020 != 0x0020 && call.this is Object ==> {
                        &&& call.after@.objects.last().kind matches ObjectKind::Super { this, depth }
                        &&& Value::Object(this) == call.this
                        &&& depth == 0
                    }
                },
                Err(error) => {
                    &&& call.caller.id.function_count >= call.avm1.max_recursion_depth
                    &&& error == Error::FunctionRecursionLimit(call.avm1.max_recursion_depth)
                },
                _ => false,
            }
        }),
{
    match call.res {
        Ok(CallStep::Invoke(invocation)) => {
            let execution = call.execution(code, Ok(invocation));
            call_is_refused_at_the_limit(execution);
            let frame = invocation->Actions_frame;
            call_is_counted(execution, frame);
            call_runs_its_function(execution, frame);
            if execution.bits() & 0x0020 != 0x0020 && call.this is Object {
                super_stands_for_this(execution, frame);
            }
        },
        Ok(CallStep::Finished(_)) => {},
        Err(error) => {
            call_is_refused_at_the_limit(call.execution(code, Err(error)));
        },
    }
}

/// The object has been told that the function constructs it: under `__constructor__`, and before
/// version 7 under `constructor` as well, hidden from listings. No other property, nothing else of
/// the object, no other object and no scope has changed.
pub open spec fn is_told(
    before: HeapModel,
    told: HeapModel,
    this: Object,
    function: Object,
    swf_version: u8,
) -> bool {
    let old_object = before.objects[this.index as int];
    let new_object = told.objects[this.index as int];
    &&& told.scopes == before.scopes
    &&& told.objects.len() == before.objects.len()
    &&& forall|i: int|
        0 <= i < before.objects.len() && i != this.index ==> #[trigger] told.objects[i]
            == before.objects[i]
    &&& new_object == (ObjectModel { properties: new_object.properties, ..old_object })
    &&& new_object.properties.dom().contains("__constructor__"@)
    &&& new_object.properties["__constructor__"@].value == Value::Object(function)
    &&& new_object.properties["__constructor__"@].attributes.bits == 1
    &&& swf_version < 7 ==> {
        &&& new_object.properties.dom().contains("constructor"@)
        &&& new_object.properties["constructor"@].value == Value::Object(function)
        &&& new_object.properties["constructor"@].attributes.bits == 1
    }
    &&& forall|name: Seq<char>|
        name != "__constructor__"@ && (swf_version >= 7 || name != "constructor"@) ==> {
            &&& (#[trigger] new_object.properties.dom().contains(name))
                == old_object.properties.dom().contains(name)
            &&& old_object.properties.dom().contains(name) ==> new_object.properties[name]
                == old_object.properties[name]
        }
}

proof fn telling_tells(
    before: HeapModel,
    this: Object,
    function: Object,
    swf_version: u8,
)
    requires
        this.index < before.objects.len(),
    ensures
        is_told(
            before,
            with_constructor_of(before, this, function, swf_version),
            this,
            function,
            swf_version,
        ),
{
    reveal_strlit("__constructor__");
    reveal_strlit("constructor");
    assert("__constructor__"@.len() != "constructor"@.len());
}

/// A construction by a function object of an object that exists.
pub struct Construction {
    pub function: FunctionObject,
    pub caller: Activation,
    pub avm1: Avm1,
    pub before: Heap,
    pub after: Heap,
    /// The object.
    pub this: Object,
    pub args: Seq<Value>,
}

impl Construction {
    /// The function is a function object and the object exists, on a heap with handles left.
    pub open spec fn is_possible(self) -> bool {
        &&& self.before@.objects.len() + 3 <= usize::MAX
        &&& self.before@.scopes.len() + 3 <= usize::MAX
        &&& self.this.index < self.before@.objects.len()
        &&& self.before@.objects[self.function.base.index as int].kind is Function
    }

    /// The code of the function object.
    pub open spec fn code(self) -> FunctionObjectData {
        self.before@.objects[self.function.base.index as int].kind->Function_0
    }

    /// The execution of code that the construction is: an ordinary one on the object, which has
    /// been told before, for the function object, one step up from `this`.
    pub open spec fn execution(
        self,
        code: Executable,
        told: HeapModel,
        res: Result<Invocation, Error>,
    ) -> Execution {
        Execution {
            code,
            name: ExecutionName::Static("[ctor]"),
            caller: self.caller,
            avm1: self.avm1,
            before: told,
            after: self.after@,
            this: Value::Object(self.this),
            depth: 1,
            args: self.args,
            reason: ExecutionReason::FunctionCall,
            callee: self.function.base,
            res,
        }
    }

    /// The code is executed on the object, with that result, after the object has been told.
    pub open spec fn executes(self, code: Executable, res: Result<Invocation, Error>) -> bool {
        exists|told: HeapModel|
            is_told(
                self.before@,
                told,
                self.this,
                self.function.base,
                self.caller.swf_version,
            ) && #[trigger] self.execution(code, told, res).holds()
    }
}

/// A construction with a constructor part executes that, and goes on for the sake of what it
/// returns. Without one it executes the function part, and goes on for the sake of the object. If
/// the execution is refused, the construction is over with the very error. Without any code it only
/// tells the object, and is over with `undefined`.
pub proof fn construction_executes_its_code(c: Construction, step: ConstructStep)
    requires
        c.is_possible(),
        exists|heap: &mut Heap, args: &[Value]|
            *heap == c.before && *final(heap) == c.after && args@ == c.args
                && #[trigger] call_ensures(
                FunctionObject::construct_with_object,
                (&c.function, Ok(c.this), &c.caller, &c.avm1, heap, args),
                step,
            ),
    ensures
        c.code().constructor matches Some(code) ==> match step {
            ConstructStep::Invoke { invocation, produces } => {
                &&& produces == Produces::Returned
                &&& c.executes(code, Ok(invocation))
            },
            ConstructStep::Finished(Err(error)) => c.executes(code, Err(error)),
            _ => false,
        },
        c.code().constructor is None ==> (c.code().function matches Some(code) ==> match step {
            ConstructStep::Invoke { invocation, produces } => {
                &&& produces == Produces::This(c.this)
                &&& c.executes(code, Ok(invocation))
            },
            ConstructStep::Finished(Err(error)) => c.executes(code, Err(error)),
            _ => false,
        }),
        c.code().constructor is None && c.code().function is None ==> {
            &&& step == ConstructStep::Finished(Ok(Value::Undefined))
            &&& is_told(c.before@, c.after@, c.this, c.function.base, c.caller.swf_version)
        },
{
    let told = with_constructor_of(c.before@, c.this, c.function.base, c.caller.swf_version);
    telling_tells(c.before@, c.this, c.function.base, c.caller.swf_version);
    if let Some(code) = c.code().constructing() {
        match step {
            ConstructStep::Invoke { invocation, .. } => {
                assert(c.execution(code, told, Ok(invocation)).holds());
            },
            ConstructStep::Finished(Err(error)) => {
                assert(c.execution(code, told, Err(error)).holds());
            },
            _ => {},
        }
    }
}

/// A construction whose object could not be created changes nothing, and is over with the very
/// error.
pub proof fn construction_without_object_fails(
    function: FunctionObject,
    error: Error,
    caller: Activation,
    avm1: Avm1,
    before: Heap,
    after: Heap,
    args: &[Value],
    step: ConstructStep,
)
    requires
        exists|heap: &mut Heap|
            *heap == before && *final(heap) == after && #[trigger] call_ensures(
                FunctionObject::construct_with_object,
                (&function, Err(error), &caller, &avm1, heap, args),
                step,
            ),
    ensures
        step == ConstructStep::Finished(Err(error)),
        after@ == before@,
{
}

/// A construction on an existing object executes the constructor part, or else the function part,
/// and hands over what the execution leaves to the interpreter, or its very error. Without code it
/// only tells the object.
pub proof fn construction_on_existing_executes_the_same(
    c: Construction,
    res: Result<Option<Invocation>, Error>,
)
    requires
        c.is_possible(),
        exists|heap: &mut Heap, args: &[Value]|
            *heap == c.before && *final(heap) == c.after && args@ == c.args
                && #[trigger] call_ensures(
                FunctionObject::construct_on_existing,
                (&c.function, &c.caller, &c.avm1, heap, c.this, args),
                res,
            ),
    ensures
        c.code().constructor is Some ==> match res {
            Ok(Some(invocation)) => c.executes(c.code().constructor->Some_0, Ok(invocation)),
            Ok(None) => false,
            Err(error) => c.executes(c.code().constructor->Some_0, Err(error)),
        },
        c.code().constructor is None && c.code().function is Some ==> match res {
            Ok(Some(invocation)) => c.executes(c.code().function->Some_0, Ok(invocation)),
            Ok(None) => false,
            Err(error) => c.executes(c.code().function->Some_0, Err(error)),
        },
        c.code().constructor is None && c.code().function is None ==> {
            &&& res == Ok::<Option<Invocation>, Error>(None)
            &&& is_told(c.before@, c.after@, c.this, c.function.base, c.caller.swf_version)
        },
{
    let told = with_constructor_of(c.before@, c.this, c.function.base, c.caller.swf_version);
    telling_tells(c.before@, c.this, c.function.base, c.caller.swf_version);
    match res {
        Ok(Some(invocation)) => {
            if let Some(code) = c.code().constructing() {
                assert(c.execution(code, told, Ok(invocation)).holds());
            }
        },
        Ok(None) => {},
        Err(error) => {
            if let Some(code) = c.code().constructing() {
                assert(c.execution(code, told, Err(error)).holds());
            }
        },
    }
}

/// When code has been executed on an object under construction, the object still is as it was told,
/// and every other object and scope that was there before is as it was.
pub proof fn constructed_object_stays_told(
    c: Construction,
    code: Executable,
    res: Result<Invocation, Error>,
)
    requires
        c.is_possible(),
        c.executes(code, res),
    ensures
        ({
            let n = c.before@.objects.len() as int;
            let m = c.before@.scopes.len() as int;
            &&& n <= c.after@.objects.len()
            &&& m <= c.after@.scopes.len()
            &&& is_told(
                c.before@,
                (HeapModel {
                    objects: c.after@.objects.take(n),
                    scopes: c.after@.scopes.take(m),
                }),
                c.this,
                c.function.base,
                c.caller.swf_version,
            )
        }),
{
    let told = choose|told: HeapModel|
        is_told(c.before@, told, c.this, c.function.base, c.caller.swf_version)
            && #[trigger] c.execution(code, told, res).holds();
    execution_leaves_the_rest_alone(c.execution(code, told, res));
    assert(c.after@.objects.take(told.objects.len() as int) =~= told.objects);
    assert(c.after@.scopes.take(told.scopes.len() as int) =~= told.scopes);
}

/// Bytecode that constructs an object finds the function object as its callee and, if it has a
/// `super`, one that stands one step up from the object; native code gets the object as `this`.
pub proof fn constructing_code_knows_the_object(
    c: Construction,
    code: Executable,
    res: Result<Invocation, Error>,
)
    requires
        c.is_possible(),
        c.executes(code, res),
    ensures
        match code {
            Executable::Native(native) => match res {
                Ok(Invocation::Native { function, this, args }) => {
                    &&& function == native
                    &&& this == Value::Object(c.this)
                    &&& args@ == c.args
                },
                _ => false,
            },
            Executable::Action(function) => match res {
                Ok(Invocation::Actions { frame, data }) => {
                    &&& c.caller.id.function_count < c.avm1.max_recursion_depth
                    &&& data == function.data
                    &&& frame.callee == Some(c.function.base)
                    &&& frame.id.function_count == c.caller.id.function_count + 1
                    &&& frame.id.special_count == c.caller.id.special_count
                    &&& function.flags.bits & 0x0020 != 0x0020 ==> {
                        &&& c.after@.objects.last().kind matches ObjectKind::Super { this, depth }
                        &&& this == c.this
                        &&& depth == 1
                    }
                },
                Ok(_) => false,
                Err(error) => {
                    &&& c.caller.id.function_count >= c.avm1.max_recursion_depth
                    &&& error == Error::FunctionRecursionLimit(c.avm1.max_recursion_depth)
                },
            },
        },
{
    let told = choose|told: HeapModel|
        is_told(c.before@, told, c.this, c.function.base, c.caller.swf_version)
            && #[trigger] c.execution(code, told, res).holds();
    let execution = c.execution(code, told, res);
    if code is Native {
        native_function_is_handed_over(execution);
    } else {
        call_is_refused_at_the_limit(execution);
        if let Ok(Invocation::Actions { frame, .. }) = res {
            call_is_counted(execution, frame);
            call_runs_its_function(execution, frame);
            if execution.bits() & 0x0020 != 0x0020 {
                super_stands_for_this(execution, frame);
            }
        }
    }
}

/// `new` begins by looking up `prototype` in the function object. What is found is coerced to an
/// object, or its very error ends the construction. The prototype itself creates the object, which
/// inherits from it.
pub proof fn construction_asks_in_order(
    function: FunctionObject,
    first: ConstructStep,
    found: Result<Value, Error>,
    second: ConstructStep,
    prototype: Object,
    third: ConstructStep,
)
    requires
        call_ensures(FunctionObject::construct, (&function,), first),
        call_ensures(FunctionObject::construct_with_property, (found,), second),
        call_ensures(FunctionObject::construct_with_prototype, (prototype,), third),
    ensures
        match first {
            ConstructStep::GetProperty { object, name } => object == function.base && name@
                == "prototype"@,
            _ => false,
        },
        match found {
            Ok(value) => second == ConstructStep::CoerceToObject(value),
            Err(error) => second == ConstructStep::Finished(Err(error)),
        },
        third == (ConstructStep::CreateBareObject { receiver: prototype, prototype }),
{
}

/// After each step a construction waits for what the step asks for, and after the last for nothing.
pub proof fn construction_waits_for_what_it_asks(step: ConstructStep, awaits: Awaits)
    requires
        call_ensures(ConstructStep::awaits, (&step,), awaits),
    ensures
        step is GetProperty <==> awaits is Property,
        step is CoerceToObject <==> awaits is Prototype,
        step is CreateBareObject <==> awaits is Object,
        step is Finished <==> awaits is Nothing,
        step matches ConstructStep::Invoke { produces, .. } ==> awaits == Awaits::Outcome(produces),
{
}

/// A construction that is told what it waits for goes on as the function for that event does;
/// told anything else it neither goes on nor changes anything.
pub proof fn construction_goes_on_with_the_event(
    function: FunctionObject,
    awaits: Awaits,
    event: ConstructEvent,
    caller: Activation,
    avm1: Avm1,
    before: Heap,
    after: Heap,
    args: &[Value],
    res: Option<ConstructStep>,
)
    requires
        exists|heap: &mut Heap|
            *heap == before && *final(heap) == after && #[trigger] call_ensures(
                FunctionObject::construct_step,
                (&function, awaits, event, &caller, &avm1, heap, args),
                res,
            ),
    ensures
        !(awaits is Object && event is Object) ==> after@ == before@,
        res is Some <==> match awaits {
            Awaits::Property => event is Property,
            Awaits::Prototype => event is Prototype,
            Awaits::Object => event is Object,
            Awaits::Outcome(_) => event is Outcome,
            Awaits::Nothing => false,
        },
        awaits is Property ==> match event {
            ConstructEvent::Property(Ok(value)) => res == Some(
                ConstructStep::CoerceToObject(value),
            ),
            ConstructEvent::Property(Err(error)) => res == Some(
                ConstructStep::Finished(Err(error)),
            ),
            _ => true,
        },
        awaits is Prototype ==> (event matches ConstructEvent::Prototype(prototype) ==> res == Some(
            (ConstructStep::CreateBareObject { receiver: prototype, prototype }),
        )),
        awaits matches Awaits::Outcome(produces) ==> (event matches ConstructEvent::Outcome(outcome)
            ==> forall|result: Result<Value, Error>| #[trigger]
            call_ensures(FunctionObject::finish_construct, (produces, outcome), result) ==> res
                == Some(ConstructStep::Finished(result))),
{
}

/// A construction that waits for its object and is told of it goes on exactly as
/// `construct_with_object` does.
pub proof fn construction_goes_on_with_the_object(
    function: FunctionObject,
    created: Result<Object, Error>,
    caller: Activation,
    avm1: Avm1,
    before: Heap,
    after: Heap,
    args: &[Value],
    res: Option<ConstructStep>,
)
    requires
        exists|heap: &mut Heap|
            *heap == before && *final(heap) == after && #[trigger] call_ensures(
                FunctionObject::construct_step,
                (
                    &function,
                    Awaits::Object,
                    ConstructEvent::Object(created),
                    &caller,
                    &avm1,
                    heap,
                    args,
                ),
                res,
            ),
    ensures
        res is Some,
        function.steps_with_object(
            created,
            caller,
            avm1,
            before@,
            after@,
            args@,
            res->Some_0,
        ),
{
}

} // verus!
