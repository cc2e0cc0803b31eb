use std::rc::Rc;

use avm1_function::value::DONT_ENUM;
use avm1_function::{
    Activation, ActivationIdentifier, Attribute, Avm1, Avm1Function, AvmString, Awaits, CallStep,
    Clip, ConstantPool, ConstructEvent, ConstructStep, DisplayObject, Error, Executable, FunctionFlags, FunctionObject,
    Heap, Invocation, NativeFunction, Object, ObjectKind, Outcome, Produces, ReturnType, Scope,
    ScopeClass, ScopeRef, Stage, SwfSlice, Value,
};

struct World {
    heap: Heap,
    avm1: Avm1,
    scope: ScopeRef,
    fn_proto: Object,
    prototype: Object,
    this: Object,
}

const CLIP: DisplayObject = DisplayObject { index: 0 };

fn world() -> World {
    let mut heap = Heap::new();
    let root = heap.allocate(ObjectKind::Clip(CLIP), vec![], None);
    let globals = heap.allocate(ObjectKind::Script, vec![], None);
    let array_prototype = heap.allocate(ObjectKind::Script, vec![], None);
    let fn_proto = heap.allocate(ObjectKind::Script, vec![], None);
    let prototype = heap.allocate(ObjectKind::Script, vec![], None);
    let this = heap.allocate(ObjectKind::Script, vec![], Some(prototype));
    let scope =
        heap.allocate_scope(Scope { parent: None, class: ScopeClass::Global, values: globals });
    let clip = Clip {
        removed: false,
        swf_version: 6,
        is_movie_clip: true,
        object: Value::Object(root),
        root: CLIP,
        parent: None,
    };
    let avm1 = Avm1 {
        stage: Stage { clips: vec![clip] },
        globals,
        array_prototype,
        max_recursion_depth: 10,
        max_special_depth: 10,
        debug_names: true,
    };
    World { heap, avm1, scope, fn_proto, prototype, this }
}

fn activation(w: &World, swf_version: u8) -> Activation {
    let id = ActivationIdentifier { name: "[Test]".to_string(), function_count: 0, special_count: 0 };
    let pool = ConstantPool { index: 0 };
    Activation::from_action(id, swf_version, w.scope, pool, CLIP, Value::Undefined, None)
}

fn code(w: &World) -> Rc<Avm1Function> {
    Rc::new(Avm1Function {
        swf_version: 6,
        data: SwfSlice { movie: Rc::new(vec![]), start: 0, end: 0 },
        name: None,
        register_count: 0,
        params: vec![],
        scope: w.scope,
        constant_pool: ConstantPool { index: 0 },
        base_clip: CLIP,
        flags: FunctionFlags::empty(),
    })
}

fn native(index: usize) -> NativeFunction {
    NativeFunction { index }
}

fn stored(w: &World, object: Object, name: &str) -> Option<(Object, u16)> {
    w.heap
        .property(object, &AvmString::from_literal(name))
        .map(|p| (p.value.as_object().unwrap(), p.attributes.bits))
}

#[test]
fn function_and_prototype_know_each_other() {
    let mut w = world();
    let f = FunctionObject::function(&mut w.heap, native(1), w.fn_proto, w.prototype);
    assert_eq!(stored(&w, f, "prototype"), Some((w.prototype, 0)));
    assert_eq!(stored(&w, w.prototype, "constructor"), Some((f, DONT_ENUM)));
    let object = FunctionObject { base: f };
    assert!(matches!(object.proto(&w.heap), Value::Object(o) if o == w.fn_proto));
    assert!(matches!(object.as_executable(&w.heap), Some(Executable::Native(n)) if n == native(1)));
    assert_eq!(object.as_script_object(), Some(f));
    assert_eq!(Object::from(object), f);
}

#[test]
fn bare_function_has_no_prototype() {
    let mut w = world();
    let f = FunctionObject::bare_function(&mut w.heap, None, None, w.fn_proto);
    assert!(f.as_executable(&w.heap).is_none());
    assert!(stored(&w, f.base, "prototype").is_none());
}

#[test]
fn bare_object_of_a_function_is_a_function_without_code() {
    let mut w = world();
    let o = FunctionObject::create_bare_object(&mut w.heap, w.prototype).unwrap();
    match &w.heap.object(o).kind {
        ObjectKind::Function(data) => {
            assert!(data.function.is_none());
            assert!(data.constructor.is_none());
        }
        _ => panic!("function expected"),
    }
    assert_eq!(w.heap.object(o).proto, Some(w.prototype));
}

#[test]
fn call_without_code_is_undefined() {
    let mut w = world();
    let caller = activation(&w, 6);
    let f = FunctionObject::bare_function(&mut w.heap, None, Some(native(1).into()), w.fn_proto);
    let before = w.heap.len();
    let name = AvmString::from_literal("f");
    let step = f.call(name, &caller, &w.avm1, &mut w.heap, Value::Undefined, &[]).unwrap();
    assert!(matches!(step, CallStep::Finished(Value::Undefined)));
    assert_eq!(w.heap.len(), before);
}

#[test]
fn call_runs_the_function_and_not_the_constructor() {
    let mut w = world();
    let caller = activation(&w, 6);
    let f = FunctionObject::constructor(
        &mut w.heap,
        native(1),
        native(2),
        w.fn_proto,
        w.prototype,
    );
    let f = FunctionObject { base: f };
    let name = AvmString::from_literal("f");
    let step = f.call(name, &caller, &w.avm1, &mut w.heap, Value::Null, &[Value::Null]).unwrap();
    match step {
        CallStep::Invoke(Invocation::Native { function, this, args }) => {
            assert_eq!(function, native(2));
            assert!(matches!(this, Value::Null));
            assert_eq!(args.len(), 1);
        }
        _ => panic!("invocation expected"),
    }
}

#[test]
fn call_of_bytecode_is_named_and_of_depth_zero() {
    let mut w = world();
    let caller = activation(&w, 6);
    let code = code(&w);
    let f = FunctionObject::function(&mut w.heap, code, w.fn_proto, w.prototype);
    let f = FunctionObject { base: f };
    let name = AvmString::from_literal("method");
    let this = Value::Object(w.this);
    let step = f.call(name, &caller, &w.avm1, &mut w.heap, this, &[]).unwrap();
    match step {
        CallStep::Invoke(Invocation::Actions { frame, .. }) => {
            assert_eq!(frame.id.name, "method()");
            assert_eq!(frame.callee, Some(f.base));
            assert_eq!(frame.id.function_count, 1);
            let locals = w.heap.scope(frame.scope).values;
            let zuper = stored(&w, locals, "super").unwrap().0;
            assert!(matches!(w.heap.object(zuper).kind, ObjectKind::Super { depth: 0, .. }));
        }
        _ => panic!("invocation expected"),
    }
}

#[test]
fn refused_call_is_an_error() {
    let mut w = world();
    let mut caller = activation(&w, 6);
    caller.id.function_count = 10;
    let code = code(&w);
    let f = FunctionObject::function(&mut w.heap, code, w.fn_proto, w.prototype);
    let f = FunctionObject { base: f };
    let name = AvmString::from_literal("f");
    let res = f.call(name, &caller, &w.avm1, &mut w.heap, Value::Undefined, &[]);
    assert!(matches!(res, Err(Error::FunctionRecursionLimit(10))));
    let this = w.this;
    let res = f.construct_on_existing(&caller, &w.avm1, &mut w.heap, this, &[]);
    assert!(matches!(res, Err(Error::FunctionRecursionLimit(10))));
    let step = f.construct_with_object(Ok(this), &caller, &w.avm1, &mut w.heap, &[]);
    assert!(matches!(
        step,
        ConstructStep::Finished(Err(Error::FunctionRecursionLimit(10)))
    ));
    assert_eq!(stored(&w, this, "__constructor__"), Some((f.base, DONT_ENUM)));
}

#[test]
fn construction_on_existing_prefers_the_constructor() {
    let mut w = world();
    let caller = activation(&w, 6);
    let f = FunctionObject::constructor(
        &mut w.heap,
        native(1),
        native(2),
        w.fn_proto,
        w.prototype,
    );
    let f = FunctionObject { base: f };
    let this = w.this;
    let invocation = f
        .construct_on_existing(&caller, &w.avm1, &mut w.heap, this, &[Value::Null])
        .unwrap()
        .unwrap();
    match invocation {
        Invocation::Native { function, this: on, args } => {
            assert_eq!(function, native(1));
            assert!(matches!(on, Value::Object(o) if o == this));
            assert_eq!(args.len(), 1);
        }
        _ => panic!("native expected"),
    }
}

#[test]
fn construction_on_existing_falls_back_to_the_function() {
    let mut w = world();
    let caller = activation(&w, 6);
    let f = FunctionObject::function(&mut w.heap, native(2), w.fn_proto, w.prototype);
    let f = FunctionObject { base: f };
    let this = w.this;
    let invocation = f.construct_on_existing(&caller, &w.avm1, &mut w.heap, this, &[]).unwrap();
    assert!(matches!(invocation, Some(Invocation::Native { function, .. }) if function == native(2)));
}

#[test]
fn construction_on_existing_without_code_invokes_nothing() {
    let mut w = world();
    let caller = activation(&w, 7);
    let f = FunctionObject::bare_function(&mut w.heap, None, None, w.fn_proto);
    let this = w.this;
    let invocation = f.construct_on_existing(&caller, &w.avm1, &mut w.heap, this, &[]).unwrap();
    assert!(invocation.is_none());
    assert_eq!(stored(&w, this, "__constructor__"), Some((f.base, DONT_ENUM)));
}

#[test]
fn constructor_property_is_set_before_version_seven_only() {
    for (version, expected) in [(5u8, true), (6, true), (7, false), (8, false)] {
        let mut w = world();
        let caller = activation(&w, version);
        let f = FunctionObject::bare_function(&mut w.heap, None, None, w.fn_proto);
        let this = w.this;
        f.construct_on_existing(&caller, &w.avm1, &mut w.heap, this, &[]).unwrap();
        assert_eq!(stored(&w, this, "__constructor__"), Some((f.base, DONT_ENUM)));
        let own = stored(&w, this, "constructor");
        assert_eq!(own, if expected { Some((f.base, DONT_ENUM)) } else { None });
    }
}

#[test]
fn construction_on_existing_discards_the_value() {
    let outcome = Outcome::Native(Ok(Value::Bool(true)));
    assert!(matches!(FunctionObject::finish_construct_on_existing(outcome), Ok(())));
    let outcome = Outcome::Actions(Err(Error::ExecutionTimeout));
    assert!(matches!(
        FunctionObject::finish_construct_on_existing(outcome),
        Err(Error::ExecutionTimeout)
    ));
}

#[test]
fn construction_looks_up_coerces_and_creates() {
    let mut w = world();
    let f = FunctionObject::function(&mut w.heap, native(1), w.fn_proto, w.prototype);
    let f = FunctionObject { base: f };
    match f.construct() {
        ConstructStep::GetProperty { object, name } => {
            assert_eq!(object, f.base);
            assert_eq!(name, "prototype");
        }
        _ => panic!("lookup expected"),
    }
    let step = FunctionObject::construct_with_property(Ok(Value::Number(3)));
    assert!(matches!(step, ConstructStep::CoerceToObject(Value::Number(3))));
    let step = FunctionObject::construct_with_property(Err(Error::PrototypeRecursionLimit));
    assert!(matches!(step, ConstructStep::Finished(Err(Error::PrototypeRecursionLimit))));
    match FunctionObject::construct_with_prototype(w.prototype) {
        ConstructStep::CreateBareObject { receiver, prototype } => {
            assert_eq!(receiver, w.prototype);
            assert_eq!(prototype, w.prototype);
        }
        _ => panic!("creation expected"),
    }
}

#[test]
fn construction_with_constructor_produces_what_it_returns() {
    let mut w = world();
    let caller = activation(&w, 8);
    let f = FunctionObject::constructor(
        &mut w.heap,
        native(1),
        native(2),
        w.fn_proto,
        w.prototype,
    );
    let f = FunctionObject { base: f };
    let this = w.this;
    match f.construct_with_object(Ok(this), &caller, &w.avm1, &mut w.heap, &[]) {
        ConstructStep::Invoke { invocation, produces } => {
            assert!(matches!(invocation, Invocation::Native { function, .. } if function == native(1)));
            assert_eq!(produces, Produces::Returned);
        }
        _ => panic!("invocation expected"),
    }
    let res = FunctionObject::finish_construct(
        Produces::Returned,
        Outcome::Native(Ok(Value::Number(6))),
    );
    assert!(matches!(res, Ok(Value::Number(6))));
}

#[test]
fn construction_with_function_produces_this() {
    let mut w = world();
    let caller = activation(&w, 6);
    let code = code(&w);
    let f = FunctionObject::function(&mut w.heap, code, w.fn_proto, w.prototype);
    let f = FunctionObject { base: f };
    let this = w.this;
    match f.construct_with_object(Ok(this), &caller, &w.avm1, &mut w.heap, &[]) {
        ConstructStep::Invoke { invocation: Invocation::Actions { frame, .. }, produces } => {
            assert_eq!(produces, Produces::This(this));
            assert_eq!(frame.id.name, "[ctor]()");
            assert!(matches!(frame.this, Value::Object(o) if o == this));
            let locals = w.heap.scope(frame.scope).values;
            let zuper = stored(&w, locals, "super").unwrap().0;
            assert!(matches!(w.heap.object(zuper).kind, ObjectKind::Super { depth: 1, .. }));
        }
        _ => panic!("invocation expected"),
    }
    assert_eq!(stored(&w, this, "constructor"), Some((f.base, DONT_ENUM)));
    let outcome = Outcome::Actions(Ok(ReturnType::Explicit(Value::Null)));
    let res = FunctionObject::finish_construct(Produces::This(this), outcome);
    assert!(matches!(res, Ok(Value::Object(o)) if o == this));
    let outcome = Outcome::Actions(Err(Error::SpecialRecursionLimit));
    let res = FunctionObject::finish_construct(Produces::This(this), outcome);
    assert!(matches!(res, Err(Error::SpecialRecursionLimit)));
}

#[test]
fn construction_without_code_is_undefined() {
    let mut w = world();
    let caller = activation(&w, 6);
    let f = FunctionObject::bare_function(&mut w.heap, None, None, w.fn_proto);
    let this = w.this;
    let step = f.construct_with_object(Ok(this), &caller, &w.avm1, &mut w.heap, &[]);
    assert!(matches!(step, ConstructStep::Finished(Ok(Value::Undefined))));
    assert_eq!(stored(&w, this, "__constructor__"), Some((f.base, DONT_ENUM)));
}

#[test]
fn construction_that_creates_nothing_is_an_error() {
    let mut w = world();
    let caller = activation(&w, 6);
    let f = FunctionObject::bare_function(&mut w.heap, None, None, w.fn_proto);
    let created = Err(Error::InvalidSwf("bad".to_string()));
    match f.construct_with_object(created, &caller, &w.avm1, &mut w.heap, &[]) {
        ConstructStep::Finished(Err(Error::InvalidSwf(text))) => assert_eq!(text, "bad"),
        _ => panic!("error expected"),
    }
}

#[test]
fn defined_properties_are_stored() {
    let mut w = world();
    let f = FunctionObject::bare_function(&mut w.heap, None, None, w.fn_proto);
    let x = AvmString::from_literal("x");
    let y = AvmString::from_literal("y");
    assert!(w.heap.property(f.base, &x).is_none());
    f.define_value(&mut w.heap, x.clone(), Value::Number(1), Attribute::empty());
    f.define_value(&mut w.heap, y.clone(), Value::Number(2), Attribute::empty());
    f.define_value(&mut w.heap, x.clone(), Value::Number(3), Attribute::dont_enum());
    let property = w.heap.property(f.base, &x).unwrap();
    assert!(matches!(property.value, Value::Number(3)));
    assert_eq!(property.attributes, Attribute::dont_enum());
    let property = w.heap.property(f.base, &y).unwrap();
    assert!(matches!(property.value, Value::Number(2)));
    assert!(w.heap.property(f.base, &AvmString::from_literal("z")).is_none());
}

#[test]
fn new_function_objects_are_new() {
    let mut w = world();
    let before = w.heap.len();
    let f = FunctionObject::function(&mut w.heap, native(1), w.fn_proto, w.prototype);
    let g = FunctionObject::constructor(&mut w.heap, native(1), native(2), f, w.prototype);
    let o = FunctionObject::create_bare_object(&mut w.heap, w.prototype).unwrap();
    assert_eq!((f.index, g.index, o.index), (before, before + 1, before + 2));
    assert_eq!(w.heap.len(), before + 3);
    assert_eq!(w.heap.scope_count(), 1);
    assert!(w.heap.can_grow());
}

#[test]
fn interfaces_are_kept() {
    let mut w = world();
    let f = FunctionObject::bare_function(&mut w.heap, None, None, w.fn_proto);
    assert!(f.interfaces(&w.heap).is_empty());
    f.set_interfaces(&mut w.heap, vec![w.prototype, w.this]);
    assert_eq!(f.interfaces(&w.heap), vec![w.prototype, w.this]);
}

#[test]
fn only_function_objects_can_be_called_and_construct() {
    let mut w = world();
    let caller = activation(&w, 6);
    let code = code(&w);
    let f = FunctionObject::function(&mut w.heap, code, w.fn_proto, w.prototype);
    let f = FunctionObject { base: f };
    let plain = FunctionObject { base: w.this };
    let nowhere = FunctionObject { base: Object { index: 1000 } };
    let name = AvmString::from_literal("f");
    assert!(f.is_function(&w.heap) && !plain.is_function(&w.heap));
    assert!(f.may_call(&name, &caller, &w.avm1, &w.heap, &Value::Undefined, &[]));
    assert!(!f.may_call(&name, &caller, &w.avm1, &w.heap, &Value::Object(nowhere.base), &[]));
    assert!(!plain.may_call(&name, &caller, &w.avm1, &w.heap, &Value::Undefined, &[]));
    assert!(!nowhere.may_call(&name, &caller, &w.avm1, &w.heap, &Value::Undefined, &[]));
    assert!(f.may_construct(&caller, &w.avm1, &w.heap, w.this, &[]));
    assert!(!f.may_construct(&caller, &w.avm1, &w.heap, nowhere.base, &[]));
    assert!(!plain.may_construct(&caller, &w.avm1, &w.heap, w.this, &[]));
}

#[test]
fn executables_are_taken_as_they_are() {
    let mut w = world();
    let f = FunctionObject::constructor(
        &mut w.heap,
        Executable::Native(native(1)),
        Executable::Native(native(2)),
        w.fn_proto,
        w.prototype,
    );
    match &w.heap.object(f).kind {
        ObjectKind::Function(data) => {
            assert!(matches!(data.constructor, Some(Executable::Native(n)) if n == native(1)));
            assert!(matches!(data.function, Some(Executable::Native(n)) if n == native(2)));
            let copy = data.clone();
            assert!(matches!(copy.constructor, Some(Executable::Native(n)) if n == native(1)));
            assert!(matches!(copy.function, Some(Executable::Native(n)) if n == native(2)));
        }
        _ => panic!("function expected"),
    }
}

#[test]
fn property_changes_leave_the_code_alone() {
    let mut w = world();
    let with_code = FunctionObject::bare_function(
        &mut w.heap,
        Some(native(1).into()),
        Some(native(2).into()),
        w.fn_proto,
    );
    let without = FunctionObject::bare_function(&mut w.heap, None, Some(native(2).into()), w.fn_proto);
    for f in [with_code, without] {
        for name in ["prototype", "constructor", "x"] {
            let name = AvmString::from_literal(name);
            f.define_value(&mut w.heap, name, Value::Null, Attribute::empty());
        }
        f.set_interfaces(&mut w.heap, vec![w.prototype]);
    }
    assert!(matches!(with_code.as_executable(&w.heap), Some(Executable::Native(n)) if n == native(1)));
    assert!(without.as_executable(&w.heap).is_none());
}

#[test]
fn construction_goes_from_step_to_step() {
    let mut w = world();
    let caller = activation(&w, 6);
    let f = FunctionObject::constructor(
        &mut w.heap,
        native(1),
        native(2),
        w.fn_proto,
        w.prototype,
    );
    let f = FunctionObject { base: f };
    let (prototype, this) = (w.prototype, w.this);
    let mut next = |awaits: Awaits, event: ConstructEvent| {
        f.construct_step(awaits, event, &caller, &w.avm1, &mut w.heap, &[])
    };
    let step = f.construct();
    assert_eq!(step.awaits(), Awaits::Property);
    let found = ConstructEvent::Property(Ok(Value::Object(prototype)));
    let step = next(step.awaits(), found).unwrap();
    assert_eq!(step.awaits(), Awaits::Prototype);
    let step = next(step.awaits(), ConstructEvent::Prototype(prototype)).unwrap();
    assert_eq!(step.awaits(), Awaits::Object);
    let step = next(step.awaits(), ConstructEvent::Object(Ok(this))).unwrap();
    assert_eq!(step.awaits(), Awaits::Outcome(Produces::Returned));
    let outcome = Outcome::Native(Ok(Value::Number(6)));
    let step = next(step.awaits(), ConstructEvent::Outcome(outcome)).unwrap();
    assert_eq!(step.awaits(), Awaits::Nothing);
    assert!(matches!(step, ConstructStep::Finished(Ok(Value::Number(6)))));
}

#[test]
fn construction_ends_with_the_first_error() {
    let mut w = world();
    let caller = activation(&w, 6);
    let f = FunctionObject::bare_function(&mut w.heap, None, None, w.fn_proto);
    let events = [
        (Awaits::Property, ConstructEvent::Property(Err(Error::ExecutionTimeout))),
        (Awaits::Object, ConstructEvent::Object(Err(Error::ExecutionTimeout))),
        (
            Awaits::Outcome(Produces::Returned),
            ConstructEvent::Outcome(Outcome::Native(Err(Error::ExecutionTimeout))),
        ),
    ];
    for (awaits, event) in events {
        let step = f.construct_step(awaits, event, &caller, &w.avm1, &mut w.heap, &[]);
        assert!(matches!(step, Some(ConstructStep::Finished(Err(Error::ExecutionTimeout)))));
    }
}

#[test]
fn construction_has_no_step_for_what_it_does_not_await() {
    let mut w = world();
    let caller = activation(&w, 6);
    let f = FunctionObject::bare_function(&mut w.heap, None, None, w.fn_proto);
    let before = w.heap.len();
    for awaits in [Awaits::Property, Awaits::Object, Awaits::Nothing] {
        let event = ConstructEvent::Prototype(w.prototype);
        let step = f.construct_step(awaits, event, &caller, &w.avm1, &mut w.heap, &[]);
        assert!(step.is_none());
    }
    assert_eq!(w.heap.len(), before);
}
