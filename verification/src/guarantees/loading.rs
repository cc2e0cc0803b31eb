//! What is guaranteed of each loading of a special value into a frame.
use vstd::prelude::*;

use crate::activation::{Activation, Avm1};
use crate::function::Avm1Function;
use crate::heap::{Heap, HeapModel, ObjectKind, ObjectModel, Scope};
use crate::value::{Object, Value};

verus! {

/// A frame with the register that comes next, before or after a loading.
pub struct Progress {
    pub frame: Activation,
    pub next: u8,
}

impl Progress {
    /// All of the frame but its registers is the same.
    pub open spec fn shares_frame(self, other: Progress) -> bool {
        &&& self.frame.id == other.frame.id
        &&& self.frame.swf_version == other.frame.swf_version
        &&& self.frame.scope == other.frame.scope
        &&& self.frame.constant_pool == other.frame.constant_pool
        &&& self.frame.base_clip == other.frame.base_clip
        &&& self.frame.target_clip == other.frame.target_clip
        &&& self.frame.this == other.frame.this
        &&& self.frame.callee == other.frame.callee
        &&& self.frame.local_registers@.len() == other.frame.local_registers@.len()
    }

    /// One value has been loaded into the register that came next, if it exists.
    pub open spec fn has_taken(self, before: Progress, value: Value) -> bool {
        &&& self.shares_frame(before)
        &&& self.next == before.next + 1
        &&& forall|i: int|
            0 <= i < before.frame.local_registers@.len()
                ==> #[trigger] self.frame.local_registers@[i] == (if i == before.next {
                value
            } else {
                before.frame.local_registers@[i]
            })
    }

    /// Nothing has been loaded.
    pub open spec fn is_still(self, before: Progress) -> bool {
        &&& self.shares_frame(before)
        &&& self.next == before.next
        &&& forall|i: int|
            0 <= i < before.frame.local_registers@.len()
                ==> #[trigger] self.frame.local_registers@[i] == before.frame.local_registers@[i]
    }
}

/// Loading `this` takes a register exactly if the function preloads it: for `this` itself, or for
/// `undefined` if the function suppresses it as well.
pub proof fn loading_this(function: Avm1Function, before: Progress, after: Progress, this: Value)
    requires
        exists|frame: &mut Activation, next: &mut u8|
            *frame == before.frame && *final(frame) == after.frame && *next == before.next
                && *final(next) == after.next && #[trigger] call_ensures(
                Avm1Function::load_this,
                (&function, frame, this, next),
                (),
            ),
    ensures
        ({
            let bits = function.flags.bits;
            &&& bits & 0x0001 != 0x0001 ==> after.is_still(before)
            &&& bits & 0x0001 == 0x0001 && bits & 0x0002 != 0x0002 ==> after.has_taken(before, this)
            &&& bits & 0x0001 == 0x0001 && bits & 0x0002 == 0x0002 ==> after.has_taken(
                before,
                Value::Undefined,
            )
        }),
{
}

/// Loading `arguments` makes an array of the arguments, unless the function suppresses and does not
/// preload it. The array takes a register if the function preloads it; otherwise it becomes a
/// variable of the frame's scope. No other object and no other variable changes.
pub proof fn loading_arguments(
    function: Avm1Function,
    before: Progress,
    after: Progress,
    heap_before: Heap,
    heap_after: Heap,
    avm1: Avm1,
    args: &[Value],
    caller: Option<Object>,
    locals: Object,
)
    requires
        locals == heap_before@.scopes[before.frame.scope.index as int].values,
        locals.index < heap_before@.objects.len() < usize::MAX,
        before.frame.callee is Some,
        exists|frame: &mut Activation, heap: &mut Heap, next: &mut u8|
            *frame == before.frame && *final(frame) == after.frame && *heap == heap_before
                && *final(heap) == heap_after && *next == before.next && *final(next) == after.next
                && #[trigger] call_ensures(
                Avm1Function::load_arguments,
                (&function, frame, heap, &avm1, args, caller, next),
                (),
            ),
    ensures
        ({
            let bits = function.flags.bits;
            let count = heap_before@.objects.len();
            let made = heap_after@.objects[count as int];
            let variables = heap_after@.objects[locals.index as int].properties;
            &&& heap_after@.scopes == heap_before@.scopes
            &&& forall|i: int|
                0 <= i < count && i != locals.index ==> #[trigger] heap_after@.objects[i]
                    == heap_before@.objects[i]
            &&& bits & 0x0004 != 0x0004 && bits & 0x0008 == 0x0008 ==> {
                &&& after.is_still(before)
                &&& heap_after@ == heap_before@
            }
            &&& bits & 0x0004 == 0x0004 || bits & 0x0008 != 0x0008 ==> {
                &&& heap_after@.objects.len() == count + 1
                &&& made.kind is Array
                &&& made.elements == args@
                &&& made.proto == Some(avm1.array_prototype)
                &&& made.properties["callee"@].value == Value::Object(before.frame.callee->Some_0)
                &&& made.properties["callee"@].attributes.bits == 1
                &&& made.properties["caller"@].value == match caller {
                    Some(object) => Value::Object(object),
                    None => Value::Null,
                }
                &&& made.properties["caller"@].attributes.bits == 1
                &&& forall|name: Seq<char>| #[trigger]
                    made.properties.dom().contains(name) <==> name == "callee"@ || name
                        == "caller"@
            }
            &&& bits & 0x0004 == 0x0004 ==> {
                &&& after.has_taken(before, Value::Object(Object { index: count as usize }))
                &&& heap_after@.objects[locals.index as int]
                    == heap_before@.objects[locals.index as int]
            }
            &&& bits & 0x0004 != 0x0004 && bits & 0x0008 != 0x0008 ==> {
                &&& after.is_still(before)
                &&& variables.dom().contains("arguments"@)
                &&& variables["arguments"@].value == Value::Object(Object { index: count as usize })
                &&& variables["arguments"@].attributes.bits == 0
                &&& heap_after@.objects[locals.index as int] == (ObjectModel {
                    properties: heap_before@.objects[locals.index as int].properties.insert(
                        "arguments"@,
                        variables["arguments"@],
                    ),
                    ..heap_before@.objects[locals.index as int]
                })
            }
        }),
{
    reveal_strlit("callee");
    reveal_strlit("caller");
    assert("callee"@[5] != "caller"@[5]);
}

/// Loading `super` makes one for `this` at the depth, unless the function suppresses it or `this` is
/// no object. If the function preloads it, a register is taken, for `undefined` where none was
/// made; otherwise the `super` that was made becomes a variable of the frame's scope.
pub proof fn loading_super(
    function: Avm1Function,
    before: Progress,
    after: Progress,
    heap_before: Heap,
    heap_after: Heap,
    this: Option<Object>,
    depth: u8,
    locals: Object,
)
    requires
        locals == heap_before@.scopes[before.frame.scope.index as int].values,
        locals.index < heap_before@.objects.len() < usize::MAX,
        exists|frame: &mut Activation, heap: &mut Heap, next: &mut u8|
            *frame == before.frame && *final(frame) == after.frame && *heap == heap_before
                && *final(heap) == heap_after && *next == before.next && *final(next) == after.next
                && #[trigger] call_ensures(
                Avm1Function::load_super,
                (&function, frame, heap, this, depth, next),
                (),
            ),
    ensures
        ({
            let bits = function.flags.bits;
            let count = heap_before@.objects.len();
            let made = heap_after@.objects[count as int];
            let variables = heap_after@.objects[locals.index as int].properties;
            let zuper = Value::Object(Object { index: count as usize });
            &&& heap_after@.scopes == heap_before@.scopes
            &&& forall|i: int|
                0 <= i < count && i != locals.index ==> #[trigger] heap_after@.objects[i]
                    == heap_before@.objects[i]
            &&& bits & 0x0020 == 0x0020 || this is None ==> {
                &&& heap_after@ == heap_before@
                &&& bits & 0x0010 == 0x0010 ==> after.has_taken(before, Value::Undefined)
                &&& bits & 0x0010 != 0x0010 ==> after.is_still(before)
            }
            &&& bits & 0x0020 != 0x0020 && this is Some ==> {
                &&& heap_after@.objects.len() == count + 1
                &&& made.kind == ObjectKind::Super { this: this->Some_0, depth }
                &&& made.proto is None
                &&& made.properties.dom() == Set::<Seq<char>>::empty()
                &&& bits & 0x0010 == 0x0010 ==> {
                    &&& after.has_taken(before, zuper)
                    &&& heap_after@.objects[locals.index as int]
                        == heap_before@.objects[locals.index as int]
                }
                &&& bits & 0x0010 != 0x0010 ==> {
                    &&& after.is_still(before)
                    &&& variables.dom().contains("super"@)
                    &&& variables["super"@].value == zuper
                    &&& variables["super"@].attributes.bits == 0
                    &&& heap_after@.objects[locals.index as int] == (ObjectModel {
                        properties: heap_before@.objects[locals.index as int].properties.insert(
                            "super"@,
                            variables["super"@],
                        ),
                        ..heap_before@.objects[locals.index as int]
                    })
                }
            }
        }),
{
}

/// Loading `_root` takes a register exactly if the function preloads it, for the object of the root
/// of the frame's clip, whatever the parent of that clip is.
pub proof fn loading_root(function: Avm1Function, before: Progress, after: Progress, avm1: Avm1)
    requires
        exists|frame: &mut Activation, next: &mut u8|
            *frame == before.frame && *final(frame) == after.frame && *next == before.next
                && *final(next) == after.next && #[trigger] call_ensures(
                Avm1Function::load_root,
                (&function, frame, &avm1, next),
                (),
            ),
    ensures
        ({
            let clips = avm1.stage.clips@;
            let root = clips[before.frame.base_clip.index as int].root;
            &&& function.flags.bits & 0x0040 != 0x0040 ==> after.is_still(before)
            &&& function.flags.bits & 0x0040 == 0x0040 ==> after.has_taken(
                before,
                clips[root.index as int].object,
            )
        }),
{
}

/// Loading `_parent` takes a register exactly if the function preloads it and the frame's clip has
/// a parent, for the object of that parent.
pub proof fn loading_parent(function: Avm1Function, before: Progress, after: Progress, avm1: Avm1)
    requires
        exists|frame: &mut Activation, next: &mut u8|
            *frame == before.frame && *final(frame) == after.frame && *next == before.next
                && *final(next) == after.next && #[trigger] call_ensures(
                Avm1Function::load_parent,
                (&function, frame, &avm1, next),
                (),
            ),
    ensures
        ({
            let clips = avm1.stage.clips@;
            let parent = clips[before.frame.base_clip.index as int].parent;
            &&& function.flags.bits & 0x0080 != 0x0080 || parent is None ==> after.is_still(before)
            &&& function.flags.bits & 0x0080 == 0x0080 && parent is Some ==> after.has_taken(
                before,
                clips[parent->Some_0.index as int].object,
            )
        }),
{
}

/// Loading `_global` takes a register exactly if the function preloads it, for the object of the
/// globals.
pub proof fn loading_global(function: Avm1Function, before: Progress, after: Progress, avm1: Avm1)
    requires
        exists|frame: &mut Activation, next: &mut u8|
            *frame == before.frame && *final(frame) == after.frame && *next == before.next
                && *final(next) == after.next && #[trigger] call_ensures(
                Avm1Function::load_global,
                (&function, frame, &avm1, next),
                (),
            ),
    ensures
        function.flags.bits & 0x0100 != 0x0100 ==> after.is_still(before),
        function.flags.bits & 0x0100 == 0x0100 ==> after.has_taken(
            before,
            Value::Object(avm1.globals),
        ),
{
}

} // verus!
