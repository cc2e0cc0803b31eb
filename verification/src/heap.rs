//! The objects and scopes of the script machine.
use vstd::prelude::*;

use crate::executable::Executable;
use crate::stage::Stage;
use crate::text::AvmString;
use crate::value::{Attribute, DisplayObject, Object, ScopeRef, Value};

verus! {

/// A stored property.
#[derive(Debug)]
pub struct Property {
    pub value: Value,
    pub attributes: Attribute,
}

impl Clone for Property {
    fn clone(&self) -> (res: Self)
        ensures
            res == *self,
    {
        Property { value: self.value.clone(), attributes: self.attributes }
    }
}

/// A property with its name.
#[derive(Debug)]
pub struct PropertyEntry {
    pub name: AvmString,
    pub property: Property,
}

/// The stored properties of an object, in the order in which their names were first defined.
#[derive(Debug)]
pub struct PropertyMap {
    entries: Vec<PropertyEntry>,
}

impl View for PropertyMap {
    type V = Map<Seq<char>, Property>;

    closed spec fn view(&self) -> Map<Seq<char>, Property> {
        Map::new(
            |name: Seq<char>| exists|i: int| self.named(i, name),
            |name: Seq<char>| self.entries@[choose|i: int| self.named(i, name)].property,
        )
    }
}

impl PropertyMap {
    /// The entry at `i` exists and has the name.
    spec fn named(&self, i: int, name: Seq<char>) -> bool {
        0 <= i < self.entries@.len() && self.entries@[i].name@ == name
    }

    /// No name stands twice.
    pub closed spec fn wf(&self) -> bool {
        forall|i: int, j: int|
            0 <= i < self.entries@.len() && 0 <= j < self.entries@.len()
                && #[trigger] self.entries@[i].name@ == #[trigger] self.entries@[j].name@ ==> i == j
    }

    proof fn entry_is_viewed(&self, i: int)
        requires
            self.wf(),
            0 <= i < self.entries@.len(),
        ensures
            self@.dom().contains(self.entries@[i].name@),
            self@[self.entries@[i].name@] == self.entries@[i].property,
    {
        assert(self.named(i, self.entries@[i].name@));
    }

    /// No property.
    pub fn new() -> (res: PropertyMap)
        ensures
            res.wf(),
            res@ == Map::<Seq<char>, Property>::empty(),
    {
        let res = PropertyMap { entries: Vec::new() };
        assert(res@ =~= Map::<Seq<char>, Property>::empty());
        res
    }

    /// The place of a name, if it is defined.
    fn position(&self, name: &AvmString) -> (res: Option<usize>)
        ensures
            match res {
                Some(i) => self.named(i as int, name@),
                None => forall|i: int| !self.named(i, name@),
            },
    {
        let mut i: usize = 0;
        while i < self.entries.len()
            invariant
                i <= self.entries@.len(),
                forall|j: int| 0 <= j < i ==> !self.named(j, name@),
            decreases self.entries@.len() - i,
        {
            if self.entries[i].name.same_text(name) {
                return Some(i);
            }
            i += 1;
        }
        None
    }

    /// The property of a name.
    pub fn get(&self, name: &AvmString) -> (res: Option<&Property>)
        requires
            self.wf(),
        ensures
            match res {
                Some(property) => self@.dom().contains(name@) && *property == self@[name@],
                None => !self@.dom().contains(name@),
            },
    {
        match self.position(name) {
            Some(i) => {
                proof {
                    self.entry_is_viewed(i as int);
                }
                Some(&self.entries[i].property)
            },
            None => None,
        }
    }

    /// Defines a name, in place of whatever it was before.
    pub fn insert(&mut self, name: AvmString, property: Property)
        requires
            old(self).wf(),
        ensures
            final(self).wf(),
            final(self)@ == old(self)@.insert(name@, property),
    {
        let ghost before = *self;
        match self.position(&name) {
            Some(i) => {
                self.entries.set(i, PropertyEntry { name, property });
                proof {
                    Self::insertion_is_viewed(before, *self, i as int);
                }
            },
            None => {
                self.entries.push(PropertyEntry { name, property });
                proof {
                    let last = before.entries@.len() as int;
                    assert forall|i: int| 0 <= i < last implies #[trigger] before.entries@[i].name@
                        != name@ by {
                        assert(!before.named(i, name@));
                    }
                    Self::insertion_is_viewed(before, *self, last);
                }
            },
        }
    }

    /// A map whose entry at `at` was put there, in place of one of the same name or as a new one,
    /// and is else the same, has that entry inserted.
    proof fn insertion_is_viewed(before: PropertyMap, after: PropertyMap, at: int)
        requires
            before.wf(),
            after.wf(),
            0 <= at < after.entries@.len(),
            before.entries@.len() <= after.entries@.len() <= before.entries@.len() + 1,
            after.entries@.len() == before.entries@.len() + 1 ==> at == before.entries@.len(),
            at < before.entries@.len() ==> before.entries@[at].name@ == after.entries@[at].name@,
            forall|j: int|
                0 <= j < before.entries@.len() && j != at ==> #[trigger] after.entries@[j]
                    == before.entries@[j],
        ensures
            after@ == before@.insert(after.entries@[at].name@, after.entries@[at].property),
    {
        let inserted = before@.insert(after.entries@[at].name@, after.entries@[at].property);
        after.entry_is_viewed(at);
        assert forall|k: Seq<char>| after@.dom().contains(k) == inserted.dom().contains(k) by {
            if before@.dom().contains(k) {
                let j = choose|j: int| before.named(j, k);
                assert(after.named(j, k));
            }
            if after@.dom().contains(k) {
                let j = choose|j: int| after.named(j, k);
                if j != at {
                    assert(before.named(j, k));
                }
            }
        }
        assert forall|k: Seq<char>| after@.dom().contains(k) implies after@[k] == inserted[k] by {
            let j = choose|j: int| after.named(j, k);
            after.entry_is_viewed(j);
            if j != at {
                before.entry_is_viewed(j);
            }
        }
        assert(after@ =~= inserted);
    }
}

/// The code that a function object holds.
pub struct FunctionObjectData {
    /// The code that will be invoked when the object is called.
    pub function: Option<Executable>,
    /// The code that will be invoked when the object is constructed.
    pub constructor: Option<Executable>,
}

impl Clone for FunctionObjectData {
    fn clone(&self) -> (res: Self)
        ensures
            res == *self,
    {
        let function = match &self.function {
            Some(function) => Some(function.clone()),
            None => None,
        };
        let constructor = match &self.constructor {
            Some(constructor) => Some(constructor.clone()),
            None => None,
        };
        FunctionObjectData { function, constructor }
    }
}

/// What an object is besides its properties.
pub enum ObjectKind {
    /// A plain object.
    Script,
    /// An array.
    Array,
    /// A function object.
    Function(FunctionObjectData),
    /// `super`, as seen from a method of `this` that stands `depth` prototypes up its chain.
    Super { this: Object, depth: u8 },
    /// The script side of a display object.
    Clip(DisplayObject),
}

/// The record of an object.
pub struct ObjectData {
    pub kind: ObjectKind,
    /// The elements, if it is an array.
    pub elements: Vec<Value>,
    /// The object it inherits from.
    pub proto: Option<Object>,
    pub properties: PropertyMap,
    /// The interfaces that it implements, if it is a prototype.
    pub interfaces: Vec<Object>,
}

/// What an object amounts to.
#[verifier::ext_equal]
pub struct ObjectModel {
    pub kind: ObjectKind,
    pub elements: Seq<Value>,
    pub proto: Option<Object>,
    pub properties: Map<Seq<char>, Property>,
    pub interfaces: Seq<Object>,
}

impl View for ObjectData {
    type V = ObjectModel;

    open spec fn view(&self) -> ObjectModel {
        ObjectModel {
            kind: self.kind,
            elements: self.elements@,
            proto: self.proto,
            properties: self.properties@,
            interfaces: self.interfaces@,
        }
    }
}

/// An object without elements and properties.
pub open spec fn bare_object(kind: ObjectKind, proto: Option<Object>) -> ObjectModel {
    ObjectModel {
        kind,
        elements: Seq::empty(),
        proto,
        properties: Map::empty(),
        interfaces: Seq::empty(),
    }
}

impl ObjectModel {
    /// The object with a property defined.
    pub open spec fn define(
        self,
        name: Seq<char>,
        value: Value,
        attributes: Attribute,
    ) -> ObjectModel {
        ObjectModel {
            properties: self.properties.insert(name, Property { value, attributes }),
            ..self
        }
    }

    /// The property of that name has that value and those attributes.
    pub open spec fn has(self, name: Seq<char>, value: Value, attributes: Attribute) -> bool {
        &&& self.properties.dom().contains(name)
        &&& self.properties[name] == (Property { value, attributes })
    }
}

/// What a scope was made for.
#[derive(Clone, Copy, Debug, PartialEq, Eq, Structural)]
pub enum ScopeClass {
    /// The scope of the globals.
    Global,
    /// The scope of a timeline.
    Target,
    /// The scope of a function call.
    Local,
    /// The scope of a `with` block.
    With,
}

/// A scope: the variables of an object, and behind them those of a parent.
#[derive(Clone, Copy, Debug, PartialEq, Eq, Structural)]
pub struct Scope {
    pub parent: Option<ScopeRef>,
    pub class: ScopeClass,
    pub values: Object,
}

/// What a heap amounts to.
#[verifier::ext_equal]
pub struct HeapModel {
    pub objects: Seq<ObjectModel>,
    pub scopes: Seq<Scope>,
}

/// The objects and scopes of the script machine. A handle stays good for as long as the heap
/// lives.
pub struct Heap {
    objects: Vec<ObjectData>,
    scopes: Vec<Scope>,
}

impl View for Heap {
    type V = HeapModel;

    closed spec fn view(&self) -> HeapModel {
        HeapModel {
            objects: Seq::new(self.objects@.len(), |i: int| self.objects@[i]@),
            scopes: self.scopes@,
        }
    }
}

impl HeapModel {
    /// The object exists.
    pub open spec fn has(self, object: Object) -> bool {
        object.index < self.objects.len()
    }

    /// The object.
    pub open spec fn object(self, object: Object) -> ObjectModel {
        self.objects[object.index as int]
    }

    /// The scope exists.
    pub open spec fn has_scope(self, scope: ScopeRef) -> bool {
        scope.index < self.scopes.len()
    }

    /// The scope.
    pub open spec fn scope(self, scope: ScopeRef) -> Scope {
        self.scopes[scope.index as int]
    }

    /// The handle that the next object will get.
    pub open spec fn next_object(self) -> Object {
        Object { index: self.objects.len() as usize }
    }

    /// The handle that the next scope will get.
    pub open spec fn next_scope(self) -> ScopeRef {
        ScopeRef { index: self.scopes.len() as usize }
    }

    /// The heap with one more object.
    pub open spec fn push(self, object: ObjectModel) -> HeapModel {
        HeapModel { objects: self.objects.push(object), ..self }
    }

    /// The heap with one more scope.
    pub open spec fn push_scope(self, scope: Scope) -> HeapModel {
        HeapModel { scopes: self.scopes.push(scope), ..self }
    }

    /// The heap with a property of an object defined.
    pub open spec fn define(
        self,
        object: Object,
        name: Seq<char>,
        value: Value,
        attributes: Attribute,
    ) -> HeapModel {
        HeapModel {
            objects: self.objects.update(
                object.index as int,
                self.object(object).define(name, value, attributes),
            ),
            ..self
        }
    }

    /// The heap with the interfaces of an object replaced.
    pub open spec fn with_interfaces(self, object: Object, interfaces: Seq<Object>) -> HeapModel {
        HeapModel {
            objects: self.objects.update(
                object.index as int,
                ObjectModel { interfaces, ..self.object(object) },
            ),
            ..self
        }
    }

    /// The object is a function object.
    pub open spec fn is_function(self, object: Object) -> bool {
        self.has(object) && self.object(object).kind is Function
    }

    /// The code of a function object.
    pub open spec fn code(self, object: Object) -> FunctionObjectData {
        self.object(object).kind->Function_0
    }

    /// The display object whose script side an object is, if it is one.
    pub open spec fn display_object(self, object: Object) -> Option<DisplayObject> {
        match self.object(object).kind {
            ObjectKind::Clip(clip) => Some(clip),
            _ => None,
        }
    }

    /// The value, if it is an object, is one of the heap.
    pub open spec fn has_value(self, value: Value) -> bool {
        value matches Value::Object(object) ==> self.has(object)
    }

    /// Every value is one of the heap.
    pub open spec fn has_values(self, values: Seq<Value>) -> bool {
        forall|i: int| 0 <= i < values.len() ==> self.has_value(#[trigger] values[i])
    }

    /// Every object that is the script side of a display object is that of one on the stage.
    pub open spec fn on_stage(self, stage: Stage) -> bool {
        forall|object: Object|
            self.has(object) ==> (#[trigger] self.display_object(object) matches Some(clip)
                ==> stage.has(clip))
    }

    /// Every object of `earlier` is in this heap under the same handle, and of the same kind.
    pub open spec fn keeps_kinds(self, earlier: HeapModel) -> bool {
        &&& earlier.objects.len() <= self.objects.len()
        &&& forall|o: Object|
            earlier.has(o) ==> (#[trigger] self.object(o)).kind == earlier.object(o).kind
    }

    /// There are handles left for everything that a call allocates.
    pub open spec fn has_room(self) -> bool {
        &&& self.objects.len() + 3 <= usize::MAX
        &&& self.scopes.len() + 3 <= usize::MAX
    }

    /// Every object and scope of `earlier` is in this heap under the same handle, unchanged.
    pub open spec fn extends(self, earlier: HeapModel) -> bool {
        &&& earlier.objects.len() <= self.objects.len()
        &&& earlier.scopes.len() <= self.scopes.len()
        &&& forall|o: Object| earlier.has(o) ==> #[trigger] self.object(o) == earlier.object(o)
        &&& forall|s: ScopeRef|
            earlier.has_scope(s) ==> #[trigger] self.scope(s) == earlier.scope(s)
    }

    /// The name of a value's type, as `typeof` gives it.
    pub open spec fn type_text(self, stage: Stage, value: Value) -> Seq<char> {
        match value {
            Value::Undefined => "undefined"@,
            Value::Null => "null"@,
            Value::Bool(_) => "boolean"@,
            Value::Number(_) => "number"@,
            Value::String(_) => "string"@,
            Value::Object(object) => match self.object(object).kind {
                ObjectKind::Function(FunctionObjectData { function: Some(_), .. }) => "function"@,
                ObjectKind::Clip(clip) if stage.record(clip).is_movie_clip => "movieclip"@,
                _ => "object"@,
            },
        }
    }
}

impl Heap {
    /// The records are in order.
    pub closed spec fn wf(&self) -> bool {
        forall|i: int|
            0 <= i < self.objects@.len() ==> (#[trigger] self.objects@[i]).properties.wf()
    }

    /// Every object and scope has a handle.
    pub proof fn handles_suffice(&self)
        ensures
            self@.objects.len() <= usize::MAX,
            self@.scopes.len() <= usize::MAX,
    {
        assert(self.objects.len() <= usize::MAX);
        assert(self.scopes.len() <= usize::MAX);
    }

    /// An empty heap.
    pub fn new() -> (res: Heap)
        ensures
            res.wf(),
            res@ == (HeapModel { objects: Seq::empty(), scopes: Seq::empty() }),
    {
        Heap { objects: Vec::new(), scopes: Vec::new() }
    }

    /// Adds an object without properties.
    pub fn allocate(
        &mut self,
        kind: ObjectKind,
        elements: Vec<Value>,
        proto: Option<Object>,
    ) -> (res: Object)
        requires
            old(self).wf(),
        ensures
            final(self).wf(),
            res == old(self)@.next_object(),
            res.index == old(self)@.objects.len(),
            final(self)@ == old(self)@.push(
                (ObjectModel { elements: elements@, ..bare_object(kind, proto) }),
            ),
    {
        let index: usize = self.objects.len();
        self.objects.push(
            ObjectData {
                kind,
                elements,
                proto,
                properties: PropertyMap::new(),
                interfaces: Vec::new(),
            },
        );
        assert(self@.objects =~= old(self)@.objects.push(
            (ObjectModel { elements: elements@, ..bare_object(kind, proto) }),
        ));
        Object { index }
    }

    /// Adds a scope.
    pub fn allocate_scope(&mut self, scope: Scope) -> (res: ScopeRef)
        requires
            old(self).wf(),
        ensures
            final(self).wf(),
            res == old(self)@.next_scope(),
            res.index == old(self)@.scopes.len(),
            final(self)@ == old(self)@.push_scope(scope),
    {
        let index: usize = self.scopes.len();
        self.scopes.push(scope);
        assert(self@.objects =~= old(self)@.objects);
        ScopeRef { index }
    }

    /// Defines a property of an object, in place of whatever the name was before.
    pub fn define_value(
        &mut self,
        object: Object,
        name: AvmString,
        value: Value,
        attributes: Attribute,
    )
        requires
            old(self).wf(),
            old(self)@.has(object),
        ensures
            final(self).wf(),
            final(self)@ == old(self)@.define(object, name@, value, attributes),
    {
        let data: &mut ObjectData = &mut self.objects[object.index];
        data.properties.insert(name, Property { value, attributes });
        assert(self@.objects =~= old(self)@.define(object, name@, value, attributes).objects);
    }

    /// Replaces the interfaces of an object.
    pub fn set_interfaces(&mut self, object: Object, interfaces: Vec<Object>)
        requires
            old(self).wf(),
            old(self)@.has(object),
        ensures
            final(self).wf(),
            final(self)@ == old(self)@.with_interfaces(object, interfaces@),
    {
        let data: &mut ObjectData = &mut self.objects[object.index];
        data.interfaces = interfaces;
        assert(self@.objects =~= old(self)@.with_interfaces(object, interfaces@).objects);
    }

    /// The property of an object.
    pub fn property(&self, object: Object, name: &AvmString) -> (res: Option<Property>)
        requires
            self.wf(),
            self@.has(object),
        ensures
            match res {
                Some(property) => self@.object(object).properties.dom().contains(name@) && property
                    == self@.object(object).properties[name@],
                None => !self@.object(object).properties.dom().contains(name@),
            },
    {
        match self.objects[object.index].properties.get(name) {
            Some(property) => Some(property.clone()),
            None => None,
        }
    }

    /// The record of an object.
    pub fn object(&self, object: Object) -> (res: &ObjectData)
        requires
            self@.has(object),
        ensures
            res@ == self@.object(object),
    {
        &self.objects[object.index]
    }

    /// A scope.
    pub fn scope(&self, scope: ScopeRef) -> (res: Scope)
        requires
            self@.has_scope(scope),
        ensures
            res == self@.scope(scope),
    {
        self.scopes[scope.index]
    }

    /// Whether the object exists.
    pub fn contains(&self, object: Object) -> (res: bool)
        ensures
            res == self@.has(object),
    {
        object.index < self.objects.len()
    }

    /// Whether the value, if it is an object, is one of the heap.
    pub fn contains_value(&self, value: &Value) -> (res: bool)
        ensures
            res == self@.has_value(*value),
    {
        match value {
            Value::Object(object) => self.contains(*object),
            _ => true,
        }
    }

    /// Whether every value is one of the heap.
    pub fn contains_values(&self, values: &[Value]) -> (res: bool)
        ensures
            res == self@.has_values(values@),
    {
        let mut i: usize = 0;
        while i < values.len()
            invariant
                i <= values@.len(),
                forall|j: int| 0 <= j < i ==> self@.has_value(#[trigger] values@[j]),
            decreases values@.len() - i,
        {
            if !self.contains_value(&values[i]) {
                assert(!self@.has_value(values@[i as int]));
                return false;
            }
            i += 1;
        }
        true
    }

    /// Whether every object that is the script side of a display object is that of one on the
    /// stage.
    pub fn is_on_stage(&self, stage: &Stage) -> (res: bool)
        ensures
            res == self@.on_stage(*stage),
    {
        let mut i: usize = 0;
        while i < self.objects.len()
            invariant
                i <= self.objects@.len(),
                self@.objects.len() == self.objects@.len(),
                forall|object: Object|
                    object.index < i ==> (#[trigger] self@.display_object(object) matches Some(clip)
                        ==> stage.has(clip)),
            decreases self.objects@.len() - i,
        {
            let object = Object { index: i };
            if let Some(clip) = self.as_display_object(object) {
                if !stage.contains(clip) {
                    assert(self@.display_object(object) == Some(clip));
                    return false;
                }
            }
            i += 1;
        }
        true
    }

    /// How many scopes there are.
    pub fn scope_count(&self) -> (res: usize)
        ensures
            res == self@.scopes.len(),
    {
        self.scopes.len()
    }

    /// Whether there are handles left for everything that a call allocates.
    pub fn can_grow(&self) -> (res: bool)
        ensures
            res == self@.has_room(),
    {
        self.len() <= usize::MAX - 3 && self.scope_count() <= usize::MAX - 3
    }

    /// How many objects there are.
    pub fn len(&self) -> (res: usize)
        ensures
            res == self@.objects.len(),
    {
        self.objects.len()
    }

    /// The display object whose script side an object is, if it is one.
    pub fn as_display_object(&self, object: Object) -> (res: Option<DisplayObject>)
        requires
            self@.has(object),
        ensures
            res == self@.display_object(object),
    {
        match &self.objects[object.index].kind {
            ObjectKind::Clip(clip) => Some(*clip),
            _ => None,
        }
    }

    /// The name of a value's type, as `typeof` gives it.
    pub fn type_of(&self, stage: &Stage, value: &Value) -> (res: &'static str)
        requires
            self@.has_value(*value),
            self@.on_stage(*stage),
        ensures
            res@ == self@.type_text(*stage, *value),
    {
        match value {
            Value::Undefined => "undefined",
            Value::Null => "null",
            Value::Bool(_) => "boolean",
            Value::Number(_) => "number",
            Value::String(_) => "string",
            Value::Object(object) => match &self.objects[object.index].kind {
                ObjectKind::Function(data) => {
                    if data.function.is_some() {
                        "function"
                    } else {
                        "object"
                    }
                },
                ObjectKind::Clip(clip) => {
                    assert(self@.display_object(*object) == Some(*clip));
                    if stage.clip(*clip).is_movie_clip {
                        "movieclip"
                    } else {
                        "object"
                    }
                },
                _ => "object",
            },
        }
    }
}

} // verus!
