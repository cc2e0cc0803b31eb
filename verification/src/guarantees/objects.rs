//! What is guaranteed of function objects and of the heap that holds them.
use std::rc::Rc;
use vstd::prelude::*;

use crate::executable::Executable;
use crate::function::Avm1Function;
use crate::function_object::{with_function, FunctionObject};
use crate::heap::{
    FunctionObjectData, Heap, HeapModel, ObjectData, ObjectKind, ObjectModel, Property, PropertyMap,
    Scope,
};
use crate::text::AvmString;
use crate::value::{
    Attribute, DisplayObject, Error, NativeFunction, Object, ScopeRef, Value,
};

verus! {

/// A new object has the next handle, is what it was made as, and has no properties. All others are
/// as they were.
pub proof fn allocation_adds_an_object(
    before: Heap,
    after: Heap,
    kind: ObjectKind,
    elements: Vec<Value>,
    proto: Option<Object>,
    object: Object,
)
    requires
        exists|heap: &mut Heap|
            *heap == before && *final(heap) == after && #[trigger] call_ensures(
                Heap::allocate,
                (heap, kind, elements, proto),
                object,
            ),
    ensures
        object.index == before@.objects.len(),
        after@.objects.len() == before@.objects.len() + 1,
        after@.scopes == before@.scopes,
        forall|i: int|
            0 <= i < before@.objects.len() ==> #[trigger] after@.objects[i] == before@.objects[i],
        after@.objects.last().kind == kind,
        after@.objects.last().elements == elements@,
        after@.objects.last().proto == proto,
        after@.objects.last().properties.dom() == Set::<Seq<char>>::empty(),
        after@.objects.last().interfaces.len() == 0,
{
}

/// A new scope has the next handle and is what it was made as. All others are as they were.
pub proof fn allocation_adds_a_scope(before: Heap, after: Heap, scope: Scope, handle: ScopeRef)
    requires
        exists|heap: &mut Heap|
            *heap == before && *final(heap) == after && #[trigger] call_ensures(
                Heap::allocate_scope,
                (heap, scope),
                handle,
            ),
    ensures
        handle.index == before@.scopes.len(),
        after@.scopes.len() == before@.scopes.len() + 1,
        after@.objects == before@.objects,
        forall|i: int|
            0 <= i < before@.scopes.len() ==> #[trigger] after@.scopes[i] == before@.scopes[i],
        after@.scopes.last() == scope,
{
}

/// A property that has been defined is read back with its value and attributes; every other one is
/// read as before. Nothing else changes.
pub proof fn defined_property_is_read_back(
    before: Heap,
    after: Heap,
    object: Object,
    name: AvmString,
    value: Value,
    attributes: Attribute,
    other: AvmString,
    old_value: Option<Property>,
    new_value: Option<Property>,
)
    requires
        object.index < before@.objects.len(),
        exists|heap: &mut Heap|
            *heap == before && *final(heap) == after && (#[trigger] call_ensures(
                Heap::define_value,
                (heap, object, name, value, attributes),
                (),
            )),
        call_ensures(Heap::property, (&before, object, &other), old_value),
        call_ensures(Heap::property, (&after, object, &other), new_value),
    ensures
        other@ == name@ ==> new_value == Some(Property { value, attributes }),
        other@ != name@ ==> new_value == old_value,
        after@.scopes == before@.scopes,
        after@.objects.len() == before@.objects.len(),
        forall|i: int|
            0 <= i < before@.objects.len() && i != object.index ==> #[trigger] after@.objects[i]
                == before@.objects[i],
        after@.objects[object.index as int].kind == before@.objects[object.index as int].kind,
        after@.objects[object.index as int].elements
            == before@.objects[object.index as int].elements,
        after@.objects[object.index as int].proto == before@.objects[object.index as int].proto,
        after@.objects[object.index as int].interfaces
            == before@.objects[object.index as int].interfaces,
{
}

/// A function object defines a property as the heap does, on its own object.
pub proof fn function_object_defines_on_itself(
    function: FunctionObject,
    before: Heap,
    after: Heap,
    name: AvmString,
    value: Value,
    attributes: Attribute,
    other: AvmString,
    old_value: Option<Property>,
    new_value: Option<Property>,
)
    requires
        function.base.index < before@.objects.len(),
        exists|heap: &mut Heap|
            *heap == before && *final(heap) == after && #[trigger] call_ensures(
                FunctionObject::define_value,
                (&function, heap, name, value, attributes),
                (),
            ),
        call_ensures(Heap::property, (&before, function.base, &other), old_value),
        call_ensures(Heap::property, (&after, function.base, &other), new_value),
    ensures
        other@ == name@ ==> new_value == Some(Property { value, attributes }),
        other@ != name@ ==> new_value == old_value,
        after@.scopes == before@.scopes,
        after@.objects.len() == before@.objects.len(),
        forall|i: int|
            0 <= i < before@.objects.len() && i != function.base.index
                ==> #[trigger] after@.objects[i] == before@.objects[i],
        after@.objects[function.base.index as int].kind
            == before@.objects[function.base.index as int].kind,
        after@.objects[function.base.index as int].proto
            == before@.objects[function.base.index as int].proto,
{
}

/// A name that has been put into a map is found there, and every other name is found as before. In a
/// new map no name is found.
pub proof fn inserted_property_is_found(
    before: PropertyMap,
    after: PropertyMap,
    empty: PropertyMap,
    name: AvmString,
    property: Property,
    other: AvmString,
    old_property: Option<&Property>,
    new_property: Option<&Property>,
    no_property: Option<&Property>,
)
    requires
        exists|map: &mut PropertyMap|
            *map == before && *final(map) == after && #[trigger] call_ensures(
                PropertyMap::insert,
                (map, name, property),
                (),
            ),
        call_ensures(PropertyMap::get, (&before, &other), old_property),
        call_ensures(PropertyMap::get, (&after, &other), new_property),
        call_ensures(PropertyMap::new, (), empty),
        call_ensures(PropertyMap::get, (&empty, &other), no_property),
    ensures
        other@ == name@ ==> new_property == Some(&property),
        other@ != name@ ==> new_property == old_property,
        no_property is None,
{
}

/// The interfaces of a function object that have been set are those that are read back, in order,
/// and nothing else changes.
pub proof fn set_interfaces_are_read_back(
    function: FunctionObject,
    before: Heap,
    after: Heap,
    interfaces: Vec<Object>,
    read: Vec<Object>,
)
    requires
        function.base.index < before@.objects.len(),
        exists|heap: &mut Heap|
            *heap == before && *final(heap) == after && #[trigger] call_ensures(
                FunctionObject::set_interfaces,
                (&function, heap, interfaces),
                (),
            ),
        call_ensures(FunctionObject::interfaces, (&function, &after), read),
    ensures
        read@ == interfaces@,
        after@.scopes == before@.scopes,
        after@.objects.len() == before@.objects.len(),
        forall|i: int|
            0 <= i < before@.objects.len() && i != function.base.index
                ==> #[trigger] after@.objects[i] == before@.objects[i],
        after@.objects[function.base.index as int] == (ObjectModel {
            interfaces: interfaces@,
            ..before@.objects[function.base.index as int]
        }),
{
}

/// The interfaces that have been set in the heap are those of the object, and nothing else changes.
pub proof fn heap_sets_interfaces(
    before: Heap,
    after: Heap,
    object: Object,
    interfaces: Vec<Object>,
    data: &ObjectData,
)
    requires
        object.index < before@.objects.len(),
        exists|heap: &mut Heap|
            *heap == before && *final(heap) == after && #[trigger] call_ensures(
                Heap::set_interfaces,
                (heap, object, interfaces),
                (),
            ),
        call_ensures(Heap::object, (&after, object), data),
    ensures
        data.interfaces@ == interfaces@,
        data.kind == before@.objects[object.index as int].kind,
        data.elements@ == before@.objects[object.index as int].elements,
        data.proto == before@.objects[object.index as int].proto,
        data.properties@ == before@.objects[object.index as int].properties,
        after@.scopes == before@.scopes,
        after@.objects.len() == before@.objects.len(),
        forall|i: int|
            0 <= i < before@.objects.len() && i != object.index ==> #[trigger] after@.objects[i]
                == before@.objects[i],
{
}

/// What is read of a heap is what it holds.
pub proof fn heap_is_read_as_it_is(
    heap: Heap,
    empty: Heap,
    object: Object,
    data: &ObjectData,
    clip: Option<DisplayObject>,
    handle: ScopeRef,
    scope: Scope,
    objects: usize,
    scopes: usize,
    contained: bool,
)
    requires
        call_ensures(Heap::new, (), empty),
        call_ensures(Heap::object, (&heap, object), data),
        call_ensures(Heap::as_display_object, (&heap, object), clip),
        call_ensures(Heap::scope, (&heap, handle), scope),
        call_ensures(Heap::len, (&heap,), objects),
        call_ensures(Heap::scope_count, (&heap,), scopes),
        call_ensures(Heap::contains, (&heap, object), contained),
    ensures
        empty@.objects.len() == 0,
        empty@.scopes.len() == 0,
        data.kind == heap@.objects[object.index as int].kind,
        data.elements@ == heap@.objects[object.index as int].elements,
        data.proto == heap@.objects[object.index as int].proto,
        data.properties@ == heap@.objects[object.index as int].properties,
        data.interfaces@ == heap@.objects[object.index as int].interfaces,
        data.kind matches ObjectKind::Clip(own) ==> clip == Some(own),
        data.kind !is Clip ==> clip is None,
        scope == heap@.scopes[handle.index as int],
        objects == heap@.objects.len(),
        scopes == heap@.scopes.len(),
        contained <==> object.index < objects,
{
}

/// Values are in a heap exactly if those among them that are objects have handles of it.
pub proof fn heap_knows_its_values(
    heap: Heap,
    value: Value,
    values: &[Value],
    one: bool,
    all: bool,
)
    requires
        call_ensures(Heap::contains_value, (&heap, &value), one),
        call_ensures(Heap::contains_values, (&heap, values), all),
    ensures
        one <==> (value matches Value::Object(object) ==> object.index < heap@.objects.len()),
        all <==> forall|i: int|
            0 <= i < values@.len() ==> (#[trigger] values@[i] matches Value::Object(object)
                ==> object.index < heap@.objects.len()),
{
    if all {
        assert forall|i: int| 0 <= i < values@.len() implies (
        #[trigger] values@[i] matches Value::Object(object) ==> object.index
            < heap@.objects.len()) by {
            assert(heap@.has_value(values@[i]));
        }
    }
}

/// A heap can grow exactly if there are handles for three more objects and three more scopes.
pub proof fn heap_can_grow_while_handles_last(heap: Heap, can_grow: bool)
    requires
        call_ensures(Heap::can_grow, (&heap,), can_grow),
    ensures
        can_grow <==> heap@.objects.len() + 3 <= usize::MAX && heap@.scopes.len() + 3 <= usize::MAX,
{
}

/// The function object is new: it has the next handle and the code, inherits from `fn_proto`, and is
/// linked with the prototype. The link from the function is visible, the link back is hidden from
/// listings. Nothing else changes, the rest of the prototype included.
pub open spec fn is_linked(
    before: HeapModel,
    after: HeapModel,
    object: Object,
    function: Option<Executable>,
    constructor: Option<Executable>,
    fn_proto: Object,
    prototype: Object,
) -> bool {
    let made = after.objects[object.index as int];
    let old_prototype = before.objects[prototype.index as int];
    let new_prototype = after.objects[prototype.index as int];
    &&& object.index == before.objects.len()
    &&& after.objects.len() == before.objects.len() + 1
    &&& after.scopes == before.scopes
    &&& made.kind == ObjectKind::Function(FunctionObjectData { function, constructor })
    &&& made.proto == Some(fn_proto)
    &&& made.elements.len() == 0
    &&& made.interfaces.len() == 0
    &&& forall|name: Seq<char>| #[trigger]
        made.properties.dom().contains(name) <==> name == "prototype"@
    &&& made.properties["prototype"@].value == Value::Object(prototype)
    &&& made.properties["prototype"@].attributes.bits == 0
    &&& new_prototype == (ObjectModel { properties: new_prototype.properties, ..old_prototype })
    &&& new_prototype.properties.dom().contains("constructor"@)
    &&& new_prototype.properties["constructor"@].value == Value::Object(object)
    &&& new_prototype.properties["constructor"@].attributes.bits == 1
    &&& forall|name: Seq<char>|
        name != "constructor"@ ==> {
            &&& (#[trigger] new_prototype.properties.dom().contains(name))
                == old_prototype.properties.dom().contains(name)
            &&& old_prototype.properties.dom().contains(name) ==> new_prototype.properties[name]
                == old_prototype.properties[name]
        }
    &&& forall|i: int|
        0 <= i < before.objects.len() && i != prototype.index ==> #[trigger] after.objects[i]
            == before.objects[i]
}

proof fn linking_links(
    heap: HeapModel,
    function: Option<Executable>,
    constructor: Option<Executable>,
    fn_proto: Object,
    prototype: Object,
)
    requires
        prototype.index < heap.objects.len() < usize::MAX,
    ensures
        is_linked(
            heap,
            with_function(heap, function, constructor, fn_proto, prototype),
            Object { index: heap.objects.len() as usize },
            function,
            constructor,
            fn_proto,
            prototype,
        ),
{
}

/// A regular function has the function part it was made from, whatever that is converted from, and
/// no constructor part.
pub proof fn regular_function_is_linked<F: Into<Executable>>(
    before: Heap,
    after: Heap,
    function: F,
    fn_proto: Object,
    prototype: Object,
    object: Object,
)
    requires
        prototype.index < before@.objects.len() < usize::MAX,
        exists|heap: &mut Heap|
            *heap == before && *final(heap) == after && #[trigger] call_ensures(
                FunctionObject::function::<F>,
                (heap, function, fn_proto, prototype),
                object,
            ),
    ensures
        exists|code: Executable| #[trigger]
            call_ensures(F::into, (function,), code) && is_linked(
                before@,
                after@,
                object,
                Some(code),
                None,
                fn_proto,
                prototype,
            ),
{
    let code = choose|code: Executable| #[trigger]
        call_ensures(F::into, (function,), code) && after@ == with_function(
            before@,
            Some(code),
            None,
            fn_proto,
            prototype,
        );
    linking_links(before@, Some(code), None, fn_proto, prototype);
}

/// A constructor function has the constructor part and the function part it was made from, each in
/// its own place.
pub proof fn constructor_function_is_linked<C: Into<Executable>, F: Into<Executable>>(
    before: Heap,
    after: Heap,
    constructor: C,
    function: F,
    fn_proto: Object,
    prototype: Object,
    object: Object,
)
    requires
        prototype.index < before@.objects.len() < usize::MAX,
        exists|heap: &mut Heap|
            *heap == before && *final(heap) == after && #[trigger] call_ensures(
                FunctionObject::constructor::<C, F>,
                (heap, constructor, function, fn_proto, prototype),
                object,
            ),
    ensures
        exists|construct: Executable, call: Executable| #[trigger]
            call_ensures(C::into, (constructor,), construct) && #[trigger] call_ensures(
                F::into,
                (function,),
                call,
            ) && is_linked(
                before@,
                after@,
                object,
                Some(call),
                Some(construct),
                fn_proto,
                prototype,
            ),
{
    let (construct, call) = choose|construct: Executable, call: Executable| #[trigger]
        call_ensures(C::into, (constructor,), construct) && #[trigger] call_ensures(
            F::into,
            (function,),
            call,
        ) && after@ == with_function(before@, Some(call), Some(construct), fn_proto, prototype);
    linking_links(before@, Some(call), Some(construct), fn_proto, prototype);
}

/// Native functions and functions defined by bytecode become code of their own kind, unchanged.
pub proof fn functions_become_code(
    native: NativeFunction,
    from_native: Executable,
    action: Rc<Avm1Function>,
    from_action: Executable,
)
    requires
        call_ensures(<Executable as From<NativeFunction>>::from, (native,), from_native),
        call_ensures(<Executable as From<Rc<Avm1Function>>>::from, (action,), from_action),
    ensures
        from_native == Executable::Native(native),
        from_action == Executable::Action(action),
{
}

/// A bare function has the code it was made from, each part in its place, inherits from `fn_proto`,
/// and is linked with nothing.
pub proof fn bare_functions_have_no_prototype(
    before: Heap,
    after: Heap,
    function: Option<Executable>,
    constructor: Option<Executable>,
    fn_proto: Object,
    made: FunctionObject,
)
    requires
        exists|heap: &mut Heap|
            *heap == before && *final(heap) == after && #[trigger] call_ensures(
                FunctionObject::bare_function,
                (heap, function, constructor, fn_proto),
                made,
            ),
    ensures
        ({
            let object = after@.objects[made.base.index as int];
            &&& made.base.index == before@.objects.len()
            &&& after@.objects == before@.objects.push(object)
            &&& after@.scopes == before@.scopes
            &&& object.kind == ObjectKind::Function(FunctionObjectData { function, constructor })
            &&& object.proto == Some(fn_proto)
            &&& object.elements.len() == 0
            &&& object.properties.dom() == Set::<Seq<char>>::empty()
            &&& object.interfaces.len() == 0
        }),
{
}

/// A bare object of a function is a function object without code that inherits from the prototype.
pub proof fn bare_object_is_a_function_without_code(
    before: Heap,
    after: Heap,
    prototype: Object,
    res: Result<Object, Error>,
)
    requires
        exists|heap: &mut Heap|
            *heap == before && *final(heap) == after && #[trigger] call_ensures(
                FunctionObject::create_bare_object,
                (heap, prototype),
                res,
            ),
    ensures
        res is Ok,
        ({
            let made = after@.objects[res->Ok_0.index as int];
            &&& res->Ok_0.index == before@.objects.len()
            &&& after@.objects == before@.objects.push(made)
            &&& after@.scopes == before@.scopes
            &&& made.kind matches ObjectKind::Function(code)
            &&& code.function is None
            &&& code.constructor is None
            &&& made.proto == Some(prototype)
            &&& made.elements.len() == 0
            &&& made.properties.dom() == Set::<Seq<char>>::empty()
            &&& made.interfaces.len() == 0
        }),
{
}

/// What is read of a function object is what the heap holds under its handle: the function part, not
/// the constructor part, as its code, what it inherits from as its prototype, and itself as its
/// script object.
pub proof fn function_object_is_read_as_it_is(
    function: FunctionObject,
    heap: Heap,
    is_function: bool,
    code: Option<Executable>,
    proto: Value,
    interfaces: Vec<Object>,
    script: Option<Object>,
    object: Object,
)
    requires
        call_ensures(FunctionObject::is_function, (&function, &heap), is_function),
        call_ensures(FunctionObject::as_executable, (&function, &heap), code),
        call_ensures(FunctionObject::proto, (&function, &heap), proto),
        call_ensures(FunctionObject::interfaces, (&function, &heap), interfaces),
        call_ensures(FunctionObject::as_script_object, (&function,), script),
        call_ensures(<Object as From<FunctionObject>>::from, (function,), object),
    ensures
        ({
            let held = heap@.objects[function.base.index as int];
            &&& is_function <==> function.base.index < heap@.objects.len() && held.kind is Function
            &&& held.kind matches ObjectKind::Function(data) ==> code == data.function
            &&& held.proto matches Some(own) ==> proto == Value::Object(own)
            &&& held.proto is None ==> proto == Value::Undefined
            &&& interfaces@ == held.interfaces
            &&& script == Some(function.base)
            &&& object == function.base
        }),
{
}

} // verus!
