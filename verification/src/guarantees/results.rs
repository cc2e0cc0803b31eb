//! What is guaranteed of the results that calls and constructions hand back.
use vstd::prelude::*;

use crate::executable::{constructor_to_fn, Outcome};
use crate::function_object::{FunctionObject, Produces};
use crate::value::{Error, Object, ReturnType, Value};

verus! {

/// How a list of actions ended tells the value: the very one that it returned, and `undefined` if it
/// ran off its end.
pub proof fn ended_actions_give_the_value(ended: ReturnType, value: Value)
    requires
        call_ensures(ReturnType::value, (ended,), value),
    ensures
        ended is Implicit ==> value == Value::Undefined,
        ended matches ReturnType::Explicit(returned) ==> value == returned,
{
}

/// Whatever bytecode returns, the result of the execution is that very value. If the bytecode ran
/// off its end, it is `undefined`, and if it failed, it is the very error.
pub proof fn result_of_bytecode_is_what_it_returned(
    outcome: Outcome,
    res: Result<Value, Error>,
    value: Value,
    error: Error,
)
    requires
        call_ensures(Outcome::into_result, (outcome,), res),
    ensures
        outcome == Outcome::Actions(Ok(ReturnType::Explicit(value))) ==> res == Ok::<Value, Error>(
            value,
        ),
        outcome == Outcome::Actions(Ok(ReturnType::Implicit)) ==> res == Ok::<Value, Error>(
            Value::Undefined,
        ),
        outcome == Outcome::Actions(Err(error)) ==> res == Err::<Value, Error>(error),
{
}

/// Whatever a native function returns, value or error, is the result of the execution.
pub proof fn result_of_native_function_is_what_it_returned(
    returned: Result<Value, Error>,
    res: Result<Value, Error>,
)
    requires
        call_ensures(Outcome::into_result, (Outcome::Native(returned),), res),
    ensures
        res == returned,
{
}

/// A construction for the sake of `this` gives `this` whatever value was returned, `undefined`
/// included. One for the sake of what is returned gives that very value. If the execution failed,
/// either fails with the very error.
pub proof fn construction_gives_this_or_what_was_returned(
    outcome: Outcome,
    result: Result<Value, Error>,
    this: Object,
    for_this: Result<Value, Error>,
    for_returned: Result<Value, Error>,
)
    requires
        call_ensures(Outcome::into_result, (outcome,), result),
        call_ensures(FunctionObject::finish_construct, (Produces::This(this), outcome), for_this),
        call_ensures(FunctionObject::finish_construct, (Produces::Returned, outcome), for_returned),
    ensures
        for_returned == result,
        result is Ok ==> for_this == Ok::<Value, Error>(Value::Object(this)),
        result is Err ==> for_this == result,
{
}

/// The same, told of how the execution ended: a construction for the sake of `this` gives `this`
/// whether bytecode ran off its end, returned any value, or a native function returned any value.
pub proof fn construction_gives_this_however_it_ended(
    outcome: Outcome,
    this: Object,
    res: Result<Value, Error>,
)
    requires
        call_ensures(FunctionObject::finish_construct, (Produces::This(this), outcome), res),
        match outcome {
            Outcome::Native(returned) => returned is Ok,
            Outcome::Actions(ended) => ended is Ok,
        },
    ensures
        res == Ok::<Value, Error>(Value::Object(this)),
{
}

/// A construction on an existing object succeeds exactly if the execution does, and fails with the
/// very error.
pub proof fn construction_on_existing_discards_the_value(
    outcome: Outcome,
    result: Result<Value, Error>,
    res: Result<(), Error>,
)
    requires
        call_ensures(Outcome::into_result, (outcome,), result),
        call_ensures(FunctionObject::finish_construct_on_existing, (outcome,), res),
    ensures
        result is Ok ==> res == Ok::<(), Error>(()),
        result matches Err(error) ==> res == Err::<(), Error>(error),
{
}

/// A built-in constructor that is called as a function gives `undefined` whatever it returned, and
/// fails with the very error if it failed.
pub proof fn constructor_called_as_function_gives_undefined(
    result: Result<Value, Error>,
    res: Result<Value, Error>,
)
    requires
        call_ensures(constructor_to_fn, (result,), res),
    ensures
        result is Ok ==> res == Ok::<Value, Error>(Value::Undefined),
        result is Err ==> res == result,
{
}

} // verus!
