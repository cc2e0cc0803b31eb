//! What is guaranteed of the names that tell calls and types.
use vstd::prelude::*;

use crate::activation::Activation;
use crate::executable::{Executable, ExecutionName};
use crate::function::{listed, Avm1Function};
use crate::guarantees::executions::Execution;
use crate::heap::{Heap, ObjectKind};
use crate::stage::Stage;
use crate::value::Value;

verus! {

/// The frame of a call has the name that tells the call if the player wants such names, and is
/// anonymous if it does not.
pub proof fn frame_is_named_after_the_call(
    execution: Execution,
    frame: Activation,
    heap: Heap,
    args: &[Value],
    text: String,
)
    requires
        execution.enters(frame),
        heap@ == execution.before,
        args@ == execution.args,
        call_ensures(
            Avm1Function::debug_string_for_call,
            (&execution.function(), &heap, &execution.avm1.stage, &execution.name, args),
            text,
        ),
    ensures
        execution.avm1.debug_names ==> frame.id.name@ == text@,
        !execution.avm1.debug_names ==> frame.id.name@ == "[Anonymous]"@,
{
}

/// A call without arguments is told by the function's own name, or else by that of the execution,
/// and empty brackets.
pub proof fn call_without_arguments_is_told_by_name(
    function: Avm1Function,
    heap: Heap,
    stage: Stage,
    name: ExecutionName,
    args: &[Value],
    text: String,
)
    requires
        args@.len() == 0,
        call_ensures(
            Avm1Function::debug_string_for_call,
            (&function, &heap, &stage, &name, args),
            text,
        ),
    ensures
        function.name matches Some(own) ==> text@ == own@ + "("@ + ")"@,
        function.name is None ==> (name matches ExecutionName::Static(given) ==> text@ == given@
            + "("@ + ")"@),
        function.name is None ==> (name matches ExecutionName::Dynamic(given) ==> text@ == given@
            + "("@ + ")"@),
{
    assert(args@.map_values(|arg: Value| heap@.type_text(stage, arg)) =~= Seq::empty());
    assert(text@ =~= function.call_name(name) + "("@ + ")"@);
}

/// One argument more adds its type before the closing bracket, behind a comma if it is not the
/// first.
pub proof fn argument_adds_its_type(
    function: Avm1Function,
    heap: Heap,
    stage: Stage,
    name: ExecutionName,
    fewer: &[Value],
    more: &[Value],
    last: Value,
    kind: &'static str,
    text: String,
    longer: String,
)
    requires
        more@ == fewer@.push(last),
        call_ensures(Heap::type_of, (&heap, &stage, &last), kind),
        call_ensures(
            Avm1Function::debug_string_for_call,
            (&function, &heap, &stage, &name, fewer),
            text,
        ),
        call_ensures(
            Avm1Function::debug_string_for_call,
            (&function, &heap, &stage, &name, more),
            longer,
        ),
    ensures
        text@.len() > 0,
        text@.last() == ')',
        fewer@.len() == 0 ==> longer@ == text@.drop_last() + kind@ + ")"@,
        fewer@.len() > 0 ==> longer@ == text@.drop_last() + ", "@ + kind@ + ")"@,
{
    reveal_strlit(")");
    let types = fewer@.map_values(|arg: Value| heap@.type_text(stage, arg));
    let all = more@.map_values(|arg: Value| heap@.type_text(stage, arg));
    assert(all =~= types.push(kind@));
    assert(all.drop_last() =~= types);
    let start = function.call_name(name) + "("@;
    assert(text@ =~= start + listed(types) + ")"@);
    assert(text@.drop_last() =~= start + listed(types));
    if fewer@.len() == 0 {
        assert(listed(types) =~= Seq::empty());
        assert(longer@ =~= text@.drop_last() + kind@ + ")"@);
    } else {
        assert(listed(all) == listed(types) + ", "@ + kind@);
        assert(longer@ =~= text@.drop_last() + ", "@ + kind@ + ")"@);
    }
}

/// Every kind of value has a type name of its own. Among objects, those that can be called are
/// functions and the script sides of movie clips are movie clips.
pub proof fn types_are_told_by_kind(heap: Heap, stage: Stage, value: Value, kind: &'static str)
    requires
        call_ensures(Heap::type_of, (&heap, &stage, &value), kind),
    ensures
        value is Undefined ==> kind@ == "undefined"@,
        value is Null ==> kind@ == "null"@,
        value is Bool ==> kind@ == "boolean"@,
        value is Number ==> kind@ == "number"@,
        value is String ==> kind@ == "string"@,
        value matches Value::Object(object) ==> match heap@.objects[object.index as int].kind {
            ObjectKind::Function(code) => if code.function is Some {
                kind@ == "function"@
            } else {
                kind@ == "object"@
            },
            ObjectKind::Clip(clip) => if stage.clips@[clip.index as int].is_movie_clip {
                kind@ == "movieclip"@
            } else {
                kind@ == "object"@
            },
            _ => kind@ == "object"@,
        },
{
}

/// The debug text of code tells its kind and holds the inner text in brackets, between quotes if the
/// code is native.
pub proof fn debug_text_holds_the_inner_text(code: Executable, inner: &str, text: String)
    requires
        call_ensures(Executable::debug_text, (&code, inner), text),
    ensures
        code is Native ==> text@ == "Executable::Native(\""@ + inner@ + "\")"@,
        code is Action ==> text@ == "Executable::Action("@ + inner@ + ")"@,
{
}

} // verus!
