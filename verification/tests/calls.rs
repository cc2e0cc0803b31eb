use std::rc::Rc;

use avm1_function::flags::{
    PRELOAD_ARGUMENTS, PRELOAD_GLOBAL, PRELOAD_PARENT, PRELOAD_ROOT, PRELOAD_SUPER, PRELOAD_THIS,
    SUPPRESS_ARGUMENTS, SUPPRESS_SUPER, SUPPRESS_THIS,
};
use avm1_function::value::DONT_ENUM;
use avm1_function::{
    constructor_to_fn, Activation, ActivationIdentifier, Attribute, Avm1, Avm1Function, AvmString,
    Clip, ConstantPool, DisplayObject, Error, Executable, ExecutionName, ExecutionReason,
    FunctionFlags, FunctionObject, Heap, Invocation, NativeFunction, Object, ObjectKind, Outcome,
    Param, RegisterIndex, ReturnType, Scope, ScopeClass, ScopeRef, Stage, SwfSlice, Value,
};

/// A root clip and a child of it; objects for both, for the globals, for arrays and a plain one.
struct World {
    heap: Heap,
    avm1: Avm1,
    scope: ScopeRef,
    root_object: Object,
    child_object: Object,
    plain: Object,
}

const ROOT: DisplayObject = DisplayObject { index: 0 };
const CHILD: DisplayObject = DisplayObject { index: 1 };
const CALLEE: Object = Object { index: 77 };

fn clip(object: Object, swf_version: u8, parent: Option<DisplayObject>) -> Clip {
    Clip {
        removed: false,
        swf_version,
        is_movie_clip: true,
        object: Value::Object(object),
        root: ROOT,
        parent,
    }
}

fn world() -> World {
    let mut heap = Heap::new();
    let root_object = heap.allocate(ObjectKind::Clip(ROOT), vec![], None);
    let child_object = heap.allocate(ObjectKind::Clip(CHILD), vec![], None);
    let globals = heap.allocate(ObjectKind::Script, vec![], None);
    let array_prototype = heap.allocate(ObjectKind::Script, vec![], None);
    let plain = heap.allocate(ObjectKind::Script, vec![], None);
    let scope =
        heap.allocate_scope(Scope { parent: None, class: ScopeClass::Global, values: globals });
    let stage =
        Stage { clips: vec![clip(root_object, 4, None), clip(child_object, 8, Some(ROOT))] };
    let avm1 = Avm1 {
        stage,
        globals,
        array_prototype,
        max_recursion_depth: 3,
        max_special_depth: 2,
        debug_names: false,
    };
    World { heap, avm1, scope, root_object, child_object, plain }
}

fn activation(w: &World, swf_version: u8) -> Activation {
    let id = ActivationIdentifier { name: "[Test]".to_string(), function_count: 0, special_count: 0 };
    Activation::from_action(
        id,
        swf_version,
        w.scope,
        ConstantPool { index: 1 },
        ROOT,
        Value::Number(11),
        None,
    )
}

fn function(w: &World, flags: u16, register_count: u8) -> Avm1Function {
    Avm1Function {
        swf_version: 9,
        data: SwfSlice { movie: Rc::new(vec![0; 8]), start: 2, end: 6 },
        name: None,
        register_count,
        params: vec![],
        scope: w.scope,
        constant_pool: ConstantPool { index: 42 },
        base_clip: CHILD,
        flags: FunctionFlags { bits: flags },
    }
}

fn param(name: &str, register: u8) -> Param {
    Param { name: AvmString::from_literal(name), register: RegisterIndex::new(register) }
}

fn call(
    w: &mut World,
    function: Avm1Function,
    activation: &Activation,
    this: Value,
    args: &[Value],
    reason: ExecutionReason,
) -> Result<Activation, Error> {
    let exec = Executable::from(Rc::new(function));
    let name = ExecutionName::Static("test");
    match exec.exec(&name, activation, &w.avm1, &mut w.heap, this, 3, args, reason, CALLEE)? {
        Invocation::Actions { frame, data } => {
            assert_eq!((data.start, data.end), (2, 6));
            Ok(frame)
        }
        Invocation::Native { .. } => panic!("bytecode expected"),
    }
}

fn call6(w: &mut World, function: Avm1Function, this: Value, args: &[Value]) -> Activation {
    let caller = activation(w, 6);
    call(w, function, &caller, this, args, ExecutionReason::FunctionCall).unwrap()
}

fn local(w: &World, frame: &Activation, name: &str) -> Option<Value> {
    let values = w.heap.scope(frame.scope).values;
    w.heap.property(values, &AvmString::from_literal(name)).map(|p| {
        assert_eq!(p.attributes, Attribute::empty());
        p.value
    })
}

fn is_number(value: &Value, bits: u64) -> bool {
    matches!(value, Value::Number(b) if *b == bits)
}

fn is_object(value: &Value, object: Object) -> bool {
    matches!(value, Value::Object(o) if *o == object)
}

fn object_of(value: &Value) -> Object {
    value.as_object().unwrap()
}

#[test]
fn native_function_is_left_to_the_interpreter() {
    let mut w = world();
    let caller = activation(&w, 6);
    let before = w.heap.len();
    let exec = Executable::from(NativeFunction { index: 12 });
    let invocation = exec
        .exec(
            &ExecutionName::Static("native"),
            &caller,
            &w.avm1,
            &mut w.heap,
            Value::Bool(true),
            0,
            &[Value::Null, Value::Number(5)],
            ExecutionReason::Special,
            CALLEE,
        )
        .unwrap();
    match invocation {
        Invocation::Native { function, this, args } => {
            assert_eq!(function, NativeFunction { index: 12 });
            assert!(matches!(this, Value::Bool(true)));
            assert_eq!(args.len(), 2);
            assert!(matches!(args[0], Value::Null));
            assert!(is_number(&args[1], 5));
        }
        Invocation::Actions { .. } => panic!("native expected"),
    }
    assert_eq!(w.heap.len(), before);
}

#[test]
fn closure_keeps_version_scope_and_clip_of_the_function() {
    let mut w = world();
    let f = function(&w, SUPPRESS_ARGUMENTS, 0);
    let this = Value::Object(w.plain);
    let frame = call6(&mut w, f, this, &[]);
    assert_eq!(frame.swf_version, 9);
    assert_eq!(frame.base_clip, CHILD);
    assert_eq!(frame.target_clip, Some(CHILD));
    assert_eq!(frame.constant_pool, ConstantPool { index: 42 });
    assert_eq!(frame.callee, Some(CALLEE));
    assert_eq!(frame.id.name, "[Anonymous]");
    let scope = w.heap.scope(frame.scope);
    assert_eq!(scope.parent, Some(w.scope));
    assert_eq!(scope.class, ScopeClass::Local);
}

#[test]
fn removed_clip_gives_way_to_that_of_this() {
    let mut w = world();
    w.avm1.stage.clips[1].removed = true;
    let f = function(&w, SUPPRESS_ARGUMENTS, 0);
    let this = Value::Object(w.root_object);
    let frame = call6(&mut w, f, this, &[]);
    assert_eq!(frame.base_clip, ROOT);
    assert_eq!(frame.swf_version, 9);
}

#[test]
fn removed_clip_gives_way_to_the_target() {
    let mut w = world();
    w.avm1.stage.clips[1].removed = true;
    let f = function(&w, SUPPRESS_ARGUMENTS, 0);
    let mut caller = activation(&w, 6);
    caller.target_clip = Some(CHILD);
    let this = Value::Object(w.plain);
    let frame = call(&mut w, f, &caller, this, &[], ExecutionReason::FunctionCall).unwrap();
    assert_eq!(frame.base_clip, CHILD);
}

#[test]
fn removed_clip_gives_way_to_the_root_without_target() {
    let mut w = world();
    w.avm1.stage.clips[1].removed = true;
    let f = function(&w, SUPPRESS_ARGUMENTS, 0);
    let mut caller = activation(&w, 6);
    caller.target_clip = None;
    caller.base_clip = CHILD;
    let frame =
        call(&mut w, f, &caller, Value::Undefined, &[], ExecutionReason::FunctionCall).unwrap();
    assert_eq!(frame.base_clip, ROOT);
}

#[test]
fn old_call_sees_clip_of_this_and_globals() {
    let mut w = world();
    let f = function(&w, SUPPRESS_ARGUMENTS, 0);
    let caller = activation(&w, 5);
    let this = Value::Object(w.child_object);
    let frame = call(&mut w, f, &caller, this, &[], ExecutionReason::FunctionCall).unwrap();
    assert_eq!(frame.base_clip, CHILD);
    assert_eq!(frame.swf_version, 8);
    let scope = w.heap.scope(frame.scope);
    let target = w.heap.scope(scope.parent.unwrap());
    let global = w.heap.scope(target.parent.unwrap());
    assert_eq!(target.class, ScopeClass::Target);
    assert_eq!(target.values, w.child_object);
    assert_eq!(global.class, ScopeClass::Global);
    assert_eq!(global.values, w.avm1.globals);
    assert_eq!(global.parent, None);
}

#[test]
fn old_call_runs_under_version_five_at_least() {
    let mut w = world();
    let f = function(&w, SUPPRESS_ARGUMENTS, 0);
    let caller = activation(&w, 5);
    let frame =
        call(&mut w, f, &caller, Value::Undefined, &[], ExecutionReason::FunctionCall).unwrap();
    assert_eq!(frame.base_clip, ROOT);
    assert_eq!(frame.swf_version, 5);
}

#[test]
fn old_call_ignores_where_the_function_was_defined() {
    let mut frames = vec![];
    for (version, clip) in [(6u8, ROOT), (8u8, CHILD)] {
        let mut w = world();
        let mut f = function(&w, PRELOAD_THIS, 3);
        f.swf_version = version;
        f.base_clip = clip;
        let caller = activation(&w, 4);
        let this = Value::Object(w.child_object);
        let frame = call(&mut w, f, &caller, this, &[], ExecutionReason::FunctionCall).unwrap();
        frames.push((frame.swf_version, frame.base_clip, frame.scope));
    }
    assert_eq!(frames[0], frames[1]);
}

#[test]
fn special_execution_keeps_the_clip_in_old_versions() {
    let mut w = world();
    let f = function(&w, SUPPRESS_ARGUMENTS, 0);
    let caller = activation(&w, 5);
    let this = Value::Object(w.root_object);
    let frame = call(&mut w, f, &caller, this, &[], ExecutionReason::Special).unwrap();
    assert_eq!(frame.base_clip, CHILD);
    assert_eq!(frame.swf_version, 8);
}

#[test]
fn all_preloads_come_in_order() {
    let mut w = world();
    let f = function(
        &w,
        PRELOAD_THIS
            | PRELOAD_ARGUMENTS
            | PRELOAD_SUPER
            | PRELOAD_ROOT
            | PRELOAD_PARENT
            | PRELOAD_GLOBAL,
        8,
    );
    let this = w.plain;
    let frame = call6(&mut w, f, Value::Object(this), &[Value::Number(1)]);
    let r = &frame.local_registers;
    assert_eq!(r.len(), 8);
    assert!(matches!(r[0], Value::Undefined));
    assert!(is_object(&r[1], this));
    assert!(matches!(w.heap.object(object_of(&r[2])).kind, ObjectKind::Array));
    match w.heap.object(object_of(&r[3])).kind {
        ObjectKind::Super { this: of, depth } => {
            assert_eq!(of, this);
            assert_eq!(depth, 3);
        }
        _ => panic!("super expected"),
    }
    assert!(is_object(&r[4], w.root_object));
    assert!(is_object(&r[5], w.root_object));
    assert!(is_object(&r[6], w.avm1.globals));
    assert!(matches!(r[7], Value::Undefined));
    assert!(local(&w, &frame, "arguments").is_none());
    assert!(local(&w, &frame, "super").is_none());
}

#[test]
fn global_takes_the_register_of_a_missing_parent() {
    let mut w = world();
    let mut f = function(
        &w,
        PRELOAD_ROOT | PRELOAD_PARENT | PRELOAD_GLOBAL | SUPPRESS_ARGUMENTS | SUPPRESS_SUPER,
        5,
    );
    f.base_clip = ROOT;
    let frame = call6(&mut w, f, Value::Undefined, &[]);
    assert!(is_object(&frame.local_registers[1], w.root_object));
    assert!(is_object(&frame.local_registers[2], w.avm1.globals));
    assert!(matches!(frame.local_registers[3], Value::Undefined));
}

#[test]
fn preloads_beyond_the_registers_are_dropped() {
    let mut w = world();
    let f = function(&w, PRELOAD_THIS | PRELOAD_ROOT | PRELOAD_GLOBAL | SUPPRESS_ARGUMENTS, 2);
    let frame = call6(&mut w, f, Value::Number(4), &[]);
    assert_eq!(frame.local_registers.len(), 2);
    assert!(is_number(&frame.local_registers[1], 4));
}

#[test]
fn suppressed_and_preloaded_this_is_undefined() {
    let mut w = world();
    let f = function(&w, PRELOAD_THIS | SUPPRESS_THIS | PRELOAD_GLOBAL | SUPPRESS_ARGUMENTS, 3);
    let frame = call6(&mut w, f, Value::Number(4), &[]);
    assert!(matches!(frame.local_registers[1], Value::Undefined));
    assert!(is_object(&frame.local_registers[2], w.avm1.globals));
}

#[test]
fn suppressed_and_preloaded_super_is_undefined() {
    let mut w = world();
    let f = function(&w, PRELOAD_SUPER | SUPPRESS_SUPER | PRELOAD_GLOBAL | SUPPRESS_ARGUMENTS, 3);
    let this = Value::Object(w.plain);
    let frame = call6(&mut w, f, this, &[]);
    assert!(matches!(frame.local_registers[1], Value::Undefined));
    assert!(is_object(&frame.local_registers[2], w.avm1.globals));
}

#[test]
fn preloaded_super_of_no_object_is_undefined() {
    let mut w = world();
    let f = function(&w, PRELOAD_SUPER | PRELOAD_GLOBAL | SUPPRESS_ARGUMENTS, 3);
    let frame = call6(&mut w, f, Value::Number(1), &[]);
    assert!(matches!(frame.local_registers[1], Value::Undefined));
    assert!(is_object(&frame.local_registers[2], w.avm1.globals));
}

#[test]
fn suppressed_and_preloaded_arguments_are_preloaded() {
    let mut w = world();
    let f = function(&w, PRELOAD_ARGUMENTS | SUPPRESS_ARGUMENTS, 2);
    let frame = call6(&mut w, f, Value::Undefined, &[Value::Number(8)]);
    let arguments = w.heap.object(object_of(&frame.local_registers[1]));
    assert_eq!(arguments.elements.len(), 1);
    assert!(is_number(&arguments.elements[0], 8));
    assert!(local(&w, &frame, "arguments").is_none());
}

#[test]
fn suppressed_arguments_and_super_are_not_defined() {
    let mut w = world();
    let f = function(&w, SUPPRESS_ARGUMENTS | SUPPRESS_SUPER, 2);
    let this = Value::Object(w.plain);
    let before = w.heap.len();
    let frame = call6(&mut w, f, this, &[Value::Number(8)]);
    assert!(local(&w, &frame, "arguments").is_none());
    assert!(local(&w, &frame, "super").is_none());
    assert_eq!(w.heap.len(), before + 1);
}

#[test]
fn arguments_and_super_are_variables_by_default() {
    let mut w = world();
    let f = function(&w, 0, 0);
    let this = Value::Object(w.plain);
    let frame = call6(&mut w, f, this, &[Value::Null, Value::Number(2)]);
    let arguments = object_of(&local(&w, &frame, "arguments").unwrap());
    assert_eq!(w.heap.object(arguments).elements.len(), 2);
    assert_eq!(w.heap.object(arguments).proto, Some(w.avm1.array_prototype));
    let zuper = object_of(&local(&w, &frame, "super").unwrap());
    assert!(matches!(w.heap.object(zuper).kind, ObjectKind::Super { .. }));
}

#[test]
fn arguments_know_callee_and_caller() {
    let mut w = world();
    let callee = AvmString::from_literal("callee");
    let caller_name = AvmString::from_literal("caller");
    let f = function(&w, 0, 0);
    let frame = call6(&mut w, f, Value::Undefined, &[]);
    let arguments = object_of(&local(&w, &frame, "arguments").unwrap());
    let property = w.heap.property(arguments, &callee).unwrap();
    assert!(is_object(&property.value, CALLEE));
    assert_eq!(property.attributes.bits, DONT_ENUM);
    let property = w.heap.property(arguments, &caller_name).unwrap();
    assert!(matches!(property.value, Value::Null));
    assert_eq!(property.attributes.bits, DONT_ENUM);

    let f = function(&w, 0, 0);
    let frame = call(&mut w, f, &frame, Value::Undefined, &[], ExecutionReason::FunctionCall).unwrap();
    let arguments = object_of(&local(&w, &frame, "arguments").unwrap());
    let property = w.heap.property(arguments, &caller_name).unwrap();
    assert!(is_object(&property.value, CALLEE));
}

#[test]
fn this_is_inherited_if_flagged() {
    for (flags, bits) in [(0u16, 4u64), (PRELOAD_THIS, 11), (SUPPRESS_THIS, 11), (3, 11)] {
        let mut w = world();
        let f = function(&w, flags | SUPPRESS_ARGUMENTS, 0);
        let frame = call6(&mut w, f, Value::Number(4), &[]);
        assert!(is_number(&frame.this, bits));
    }
}

#[test]
fn params_get_their_arguments() {
    let mut w = world();
    let mut f = function(&w, SUPPRESS_ARGUMENTS, 4);
    f.params = vec![param("a", 0), param("b", 3), param("c", 0), param("d", 2)];
    let frame = call6(&mut w, f, Value::Undefined, &[Value::Number(1), Value::Number(2)]);
    assert!(is_number(&local(&w, &frame, "a").unwrap(), 1));
    assert!(is_number(&frame.local_registers[3], 2));
    assert!(matches!(local(&w, &frame, "c"), Some(Value::Undefined)));
    assert!(matches!(frame.local_registers[2], Value::Undefined));
    assert!(local(&w, &frame, "b").is_none());
    assert!(local(&w, &frame, "d").is_none());
}

#[test]
fn surplus_arguments_are_ignored() {
    let mut w = world();
    let mut f = function(&w, SUPPRESS_ARGUMENTS, 0);
    f.params = vec![param("a", 0)];
    let frame = call6(&mut w, f, Value::Undefined, &[Value::Number(1), Value::Number(2)]);
    assert!(is_number(&local(&w, &frame, "a").unwrap(), 1));
}

#[test]
fn param_wins_over_preload() {
    let mut w = world();
    let mut f = function(&w, PRELOAD_THIS | SUPPRESS_ARGUMENTS, 3);
    f.params = vec![param("a", 1)];
    let frame = call6(&mut w, f, Value::Number(4), &[Value::Number(9)]);
    assert!(is_number(&frame.local_registers[1], 9));
}

#[test]
fn last_param_of_a_register_or_name_wins() {
    let mut w = world();
    let mut f = function(&w, SUPPRESS_ARGUMENTS, 3);
    f.params = vec![param("a", 2), param("x", 0), param("b", 2), param("x", 0)];
    let args: Vec<Value> = (1..=4).map(Value::Number).collect();
    let frame = call6(&mut w, f, Value::Undefined, &args);
    assert!(is_number(&frame.local_registers[2], 3));
    assert!(is_number(&local(&w, &frame, "x").unwrap(), 4));
}

#[test]
fn param_beyond_the_registers_is_dropped() {
    let mut w = world();
    let mut f = function(&w, SUPPRESS_ARGUMENTS, 2);
    f.params = vec![param("a", 2), param("b", 1)];
    let frame = call6(&mut w, f, Value::Undefined, &[Value::Number(1), Value::Number(2)]);
    assert_eq!(frame.local_registers.len(), 2);
    assert!(is_number(&frame.local_registers[1], 2));
    assert!(local(&w, &frame, "a").is_none());
}

#[test]
fn call_leaves_earlier_objects_alone() {
    let mut w = world();
    let mut f = function(&w, 0, 0);
    f.params = vec![param("a", 0)];
    let this = Value::Object(w.plain);
    let before = w.heap.len();
    call6(&mut w, f, this, &[]);
    let name = AvmString::from_literal("a");
    for index in 0..before {
        assert!(w.heap.property(Object { index }, &name).is_none());
    }
    assert_eq!(w.heap.len(), before + 3);
}

#[test]
fn function_calls_are_limited() {
    let mut w = world();
    let mut caller = activation(&w, 6);
    for count in 1..=3u16 {
        let f = function(&w, 0, 0);
        caller = call(&mut w, f, &caller, Value::Undefined, &[], ExecutionReason::FunctionCall).unwrap();
        assert_eq!(caller.id.function_count, count);
        assert_eq!(caller.id.special_count, 0);
    }
    let f = function(&w, 0, 0);
    let res = call(&mut w, f, &caller, Value::Undefined, &[], ExecutionReason::FunctionCall);
    assert!(matches!(res, Err(Error::FunctionRecursionLimit(3))));
    let f = function(&w, 0, 0);
    let frame = call(&mut w, f, &caller, Value::Undefined, &[], ExecutionReason::Special).unwrap();
    assert_eq!(frame.id.function_count, 3);
    assert_eq!(frame.id.special_count, 1);
}

#[test]
fn special_calls_are_limited() {
    let mut w = world();
    let mut caller = activation(&w, 6);
    caller.id.special_count = 2;
    let f = function(&w, 0, 0);
    let res = call(&mut w, f, &caller, Value::Undefined, &[], ExecutionReason::Special);
    assert!(matches!(res, Err(Error::SpecialRecursionLimit)));
}

#[test]
fn debug_names_tell_the_call() {
    let mut w = world();
    w.avm1.debug_names = true;
    let f = FunctionObject::bare_function(
        &mut w.heap,
        Some(Executable::from(NativeFunction { index: 0 })),
        None,
        Object { index: 0 },
    );
    let args = [
        Value::Undefined,
        Value::Null,
        Value::Bool(true),
        Value::Number(0),
        Value::String(AvmString::from_literal("s")),
        Value::Object(w.plain),
        Value::Object(f.base),
        Value::Object(w.root_object),
    ];
    let code = function(&w, 0, 0);
    let frame = call6(&mut w, code, Value::Undefined, &args);
    assert_eq!(
        frame.id.name,
        "test(undefined, null, boolean, number, string, object, function, movieclip)"
    );
    let mut code = function(&w, 0, 0);
    code.name = Some(AvmString::from_literal("own"));
    let frame = call6(&mut w, code, Value::Undefined, &[]);
    assert_eq!(frame.id.name, "own()");
}

#[test]
fn debug_string_uses_the_dynamic_name() {
    let w = world();
    let f = function(&w, 0, 0);
    let name = ExecutionName::Dynamic(AvmString::from_literal("method"));
    let text = f.debug_string_for_call(&w.heap, &w.avm1.stage, &name, &[Value::Null]);
    assert_eq!(text, "method(null)");
}

#[test]
fn calls_of_what_does_not_exist_are_told() {
    let w = world();
    let caller = activation(&w, 5);
    let name = ExecutionName::Static("test");
    let reason = ExecutionReason::FunctionCall;
    let exec = Executable::from(Rc::new(function(&w, 0, 0)));
    let may = |avm1: &Avm1, caller: &Activation, this: Value, args: &[Value]| {
        exec.may_exec(&name, caller, avm1, &w.heap, &this, 0, args, reason, CALLEE)
    };
    assert!(may(&w.avm1, &caller, Value::Undefined, &[Value::Object(w.plain)]));
    let nowhere = Object { index: 1000 };
    assert!(!may(&w.avm1, &caller, Value::Object(nowhere), &[]));
    assert!(!may(&w.avm1, &caller, Value::Undefined, &[Value::Null, Value::Object(nowhere)]));
    let mut lost = activation(&w, 5);
    lost.target_clip = Some(DisplayObject { index: 9 });
    assert!(!may(&w.avm1, &lost, Value::Undefined, &[]));
    let mut other = world();
    other.avm1.stage.clips[0].object = Value::Undefined;
    assert!(!may(&other.avm1, &caller, Value::Undefined, &[]));
    assert!(may(&other.avm1, &activation(&w, 6), Value::Undefined, &[]));
    other.avm1.stage.clips[0].parent = Some(DisplayObject { index: 9 });
    assert!(!may(&other.avm1, &activation(&w, 6), Value::Undefined, &[]));
    other.avm1.stage.clips.pop();
    assert!(!may(&other.avm1, &activation(&w, 6), Value::Undefined, &[]));
    let native = Executable::from(NativeFunction { index: 0 });
    let this = Value::Object(nowhere);
    assert!(native.may_exec(&name, &lost, &w.avm1, &w.heap, &this, 0, &[], reason, CALLEE));
}

#[test]
fn outcome_is_the_result() {
    let res = Outcome::Actions(Ok(ReturnType::Implicit)).into_result();
    assert!(matches!(res, Ok(Value::Undefined)));
    let res = Outcome::Actions(Ok(ReturnType::Explicit(Value::Null))).into_result();
    assert!(matches!(res, Ok(Value::Null)));
    let res = Outcome::Actions(Err(Error::ExecutionTimeout)).into_result();
    assert!(matches!(res, Err(Error::ExecutionTimeout)));
    let res = Outcome::Native(Ok(Value::Bool(true))).into_result();
    assert!(matches!(res, Ok(Value::Bool(true))));
    let res = Outcome::Native(Err(Error::PrototypeRecursionLimit)).into_result();
    assert!(matches!(res, Err(Error::PrototypeRecursionLimit)));
}

#[test]
fn constructor_called_as_function_discards_its_value() {
    assert!(matches!(constructor_to_fn(Ok(Value::Bool(true))), Ok(Value::Undefined)));
    assert!(matches!(
        constructor_to_fn(Err(Error::ThrownValue(Value::Null))),
        Err(Error::ThrownValue(Value::Null))
    ));
}

#[test]
fn executables_have_a_debug_text() {
    let w = world();
    let native = Executable::from(NativeFunction { index: 0 });
    assert_eq!(native.debug_text("0x1f"), "Executable::Native(\"0x1f\")");
    let action = Executable::from(Rc::new(function(&w, 0, 0)));
    assert_eq!(action.debug_text("Gc { ptr: .. }"), "Executable::Action(Gc { ptr: .. })");
}

#[test]
fn cloned_function_is_the_same() {
    let w = world();
    let mut f = function(&w, PRELOAD_THIS, 3);
    f.name = Some(AvmString::from_literal("f"));
    f.params = vec![param("a", 2), param("b", 0)];
    let g = f.clone();
    assert_eq!(format!("{:?}", g), format!("{:?}", f));
    let p = f.params[0].clone();
    assert_eq!(p.name.as_str(), "a");
    assert_eq!(p.register.unwrap().get(), 2);
}

#[test]
fn depth_matters_only_to_super() {
    for (flags, is_object) in [(SUPPRESS_SUPER, true), (0, false)] {
        let mut results = vec![];
        for depth in [0u8, 7] {
            let mut w = world();
            let this = if is_object { Value::Object(w.plain) } else { Value::Null };
            let caller = activation(&w, 6);
            let exec = Executable::from(Rc::new(function(&w, flags | PRELOAD_SUPER, 3)));
            let name = ExecutionName::Static("test");
            let reason = ExecutionReason::FunctionCall;
            exec.exec(&name, &caller, &w.avm1, &mut w.heap, this, depth, &[], reason, CALLEE)
                .map(|invocation| results.push((format!("{:?}", invocation), w.heap.len())))
                .unwrap();
        }
        assert_eq!(results[0], results[1]);
    }
}
