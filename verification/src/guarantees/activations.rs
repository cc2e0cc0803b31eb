//! What is guaranteed of activations, of the stage and of values.
use vstd::prelude::*;

use crate::activation::{Activation, ActivationIdentifier};
use crate::executable::ExecutionReason;
use crate::flags::FunctionFlags;
use crate::function::RegisterIndex;
use crate::heap::{Heap, ObjectModel};
use crate::stage::{Clip, Stage};
use crate::text::AvmString;
use crate::value::{
    copy_values, Attribute, ConstantPool, DisplayObject, Error, Object, ScopeRef, Value,
};

verus! {

/// One more call is entered exactly if fewer of its kind are running than are allowed. It has the
/// name, and counts as one more of its kind only.
pub proof fn calls_are_counted_by_kind(
    id: ActivationIdentifier,
    name: String,
    reason: ExecutionReason,
    most_calls: u16,
    most_specials: u16,
    res: Result<ActivationIdentifier, Error>,
)
    requires
        call_ensures(
            ActivationIdentifier::function,
            (&id, name, reason, most_calls, most_specials),
            res,
        ),
    ensures
        reason == ExecutionReason::FunctionCall && id.function_count >= most_calls ==> res == Err::<
            ActivationIdentifier,
            Error,
        >(Error::FunctionRecursionLimit(most_calls)),
        reason == ExecutionReason::Special && id.special_count >= most_specials ==> res == Err::<
            ActivationIdentifier,
            Error,
        >(Error::SpecialRecursionLimit),
        reason == ExecutionReason::FunctionCall && id.function_count < most_calls ==> {
            &&& res matches Ok(entered)
            &&& entered.name == name
            &&& entered.function_count == id.function_count + 1
            &&& entered.special_count == id.special_count
        },
        reason == ExecutionReason::Special && id.special_count < most_specials ==> {
            &&& res matches Ok(entered)
            &&& entered.name == name
            &&& entered.function_count == id.function_count
            &&& entered.special_count == id.special_count + 1
        },
{
}

/// A new activation holds what it is given, acts on its own clip, and has no registers.
pub proof fn new_activation_holds_what_it_is_given(
    id: ActivationIdentifier,
    swf_version: u8,
    scope: ScopeRef,
    constant_pool: ConstantPool,
    base_clip: DisplayObject,
    this: Value,
    callee: Option<Object>,
    activation: Activation,
    read_version: u8,
    read_this: Value,
)
    requires
        call_ensures(
            Activation::from_action,
            (id, swf_version, scope, constant_pool, base_clip, this, callee),
            activation,
        ),
        call_ensures(Activation::swf_version, (&activation,), read_version),
        call_ensures(Activation::this_cell, (&activation,), read_this),
    ensures
        activation.id == id,
        activation.scope == scope,
        activation.constant_pool == constant_pool,
        activation.base_clip == base_clip,
        activation.target_clip == Some(base_clip),
        activation.callee == callee,
        activation.local_registers@.len() == 0,
        read_version == swf_version,
        read_this == this,
{
}

/// An activation acts on its target clip, whatever the root is; only without one, on the root of its
/// own clip.
pub proof fn target_clip_goes_before_root(
    activation: Activation,
    stage: Stage,
    clip: DisplayObject,
)
    requires
        call_ensures(Activation::target_clip_or_root, (&activation, &stage), clip),
    ensures
        activation.target_clip matches Some(target) ==> clip == target,
        activation.target_clip is None ==> clip
            == stage.clips@[activation.base_clip.index as int].root,
{
}

/// Only the registers of an activation change when they are allocated: then there are as many as
/// asked for, all of them `undefined`.
pub proof fn allocated_registers_are_undefined(before: Activation, after: Activation, count: u8)
    requires
        exists|frame: &mut Activation|
            *frame == before && *final(frame) == after && #[trigger] call_ensures(
                Activation::allocate_local_registers,
                (frame, count),
                (),
            ),
    ensures
        after == (Activation { local_registers: after.local_registers, ..before }),
        after.local_registers@.len() == count,
        forall|i: int|
            0 <= i < count ==> #[trigger] after.local_registers@[i] == Value::Undefined,
{
}

/// A register that is set holds the very value, and every other register, and all else of the
/// activation, is as it was. Setting one that does not exist changes nothing.
pub proof fn set_register_holds_the_value(
    before: Activation,
    after: Activation,
    register: u8,
    value: Value,
)
    requires
        exists|frame: &mut Activation|
            *frame == before && *final(frame) == after && #[trigger] call_ensures(
                Activation::set_local_register,
                (frame, register, value),
                (),
            ),
    ensures
        after == (Activation { local_registers: after.local_registers, ..before }),
        after.local_registers@.len() == before.local_registers@.len(),
        forall|i: int|
            0 <= i < before.local_registers@.len() ==> #[trigger] after.local_registers@[i] == (if i
                == register {
                value
            } else {
                before.local_registers@[i]
            }),
{
}

/// A variable that is defined belongs to the innermost scope and has no attributes. Every other
/// variable of that scope, and every other object, is as it was.
pub proof fn defined_variable_is_local(
    activation: Activation,
    before: Heap,
    after: Heap,
    name: AvmString,
    value: Value,
)
    requires
        before@.scopes[activation.scope.index as int].values.index < before@.objects.len(),
        exists|heap: &mut Heap|
            *heap == before && *final(heap) == after && #[trigger] call_ensures(
                Activation::force_define_local,
                (&activation, heap, name, value),
                (),
            ),
    ensures
        ({
            let values = before@.scopes[activation.scope.index as int].values;
            let old_object = before@.objects[values.index as int];
            let new_object = after@.objects[values.index as int];
            &&& after@.scopes == before@.scopes
            &&& after@.objects.len() == before@.objects.len()
            &&& forall|i: int|
                0 <= i < before@.objects.len() && i != values.index ==> #[trigger] after@.objects[i]
                    == before@.objects[i]
            &&& new_object == (ObjectModel { properties: new_object.properties, ..old_object })
            &&& new_object.properties.dom().contains(name@)
            &&& new_object.properties[name@].value == value
            &&& new_object.properties[name@].attributes.bits == 0
            &&& forall|other: Seq<char>|
                other != name@ ==> {
                    &&& (#[trigger] new_object.properties.dom().contains(other))
                        == old_object.properties.dom().contains(other)
                    &&& old_object.properties.dom().contains(other)
                        ==> new_object.properties[other] == old_object.properties[other]
                }
        }),
{
}

/// A display object is on the stage exactly if its handle is one of the stage's, and its record is
/// the one under that handle. A stage is consistent exactly if all roots and parents are on it, and
/// an activation is on it exactly if its own clip and its target are.
pub proof fn stage_is_read_as_it_is(
    stage: Stage,
    clip: DisplayObject,
    contained: bool,
    record: &Clip,
    consistent: bool,
    activation: Activation,
    on_stage: bool,
)
    requires
        call_ensures(Stage::contains, (&stage, clip), contained),
        call_ensures(Stage::clip, (&stage, clip), record),
        call_ensures(Stage::is_consistent, (&stage,), consistent),
        call_ensures(Activation::is_on_stage, (&activation, &stage), on_stage),
    ensures
        contained <==> clip.index < stage.clips@.len(),
        *record == stage.clips@[clip.index as int],
        consistent <==> forall|i: int|
            0 <= i < stage.clips@.len() ==> {
                &&& (#[trigger] stage.clips@[i]).root.index < stage.clips@.len()
                &&& stage.clips@[i].parent matches Some(parent) ==> parent.index
                    < stage.clips@.len()
            },
        on_stage <==> {
            &&& activation.base_clip.index < stage.clips@.len()
            &&& activation.target_clip matches Some(target) ==> target.index < stage.clips@.len()
        },
{
    assert(stage.clips.len() == stage.clips@.len());
    if consistent {
        assert forall|i: int| 0 <= i < stage.clips@.len() implies {
            &&& (#[trigger] stage.clips@[i]).root.index < stage.clips@.len()
            &&& stage.clips@[i].parent matches Some(parent) ==> parent.index < stage.clips@.len()
        } by {
            let handle = DisplayObject { index: i as usize };
            assert(stage.has(handle));
            assert(stage.record(handle) == stage.clips@[i]);
        }
    }
}

/// A value is an object exactly if it says so, and then it is that very object. A copy of a list of
/// values has the same values in the same order.
pub proof fn values_are_what_they_say(
    value: Value,
    object: Option<Object>,
    values: &[Value],
    copy: Vec<Value>,
)
    requires
        call_ensures(Value::as_object, (&value,), object),
        call_ensures(copy_values, (values,), copy),
    ensures
        value matches Value::Object(own) ==> object == Some(own),
        value !is Object ==> object is None,
        copy@.len() == values@.len(),
        forall|i: int| 0 <= i < values@.len() ==> #[trigger] copy@[i] == values@[i],
{
}

/// A register index is made of every number but 0, and has that number.
pub proof fn register_index_is_not_zero(index: u8, made: Option<RegisterIndex>, number: u8)
    requires
        call_ensures(RegisterIndex::new, (index,), made),
        made matches Some(register) ==> call_ensures(RegisterIndex::get, (&register,), number),
    ensures
        made is None <==> index == 0,
        made is Some ==> number == index,
{
}

/// Flags contain others exactly if no bit of those is missing, and intersect with others exactly if
/// some bit is common to both. No flags are without bits.
pub proof fn flags_are_told_by_bits(
    flags: FunctionFlags,
    others: u16,
    contained: bool,
    common: bool,
    none: FunctionFlags,
)
    requires
        call_ensures(FunctionFlags::contains, (&flags, others), contained),
        call_ensures(FunctionFlags::intersects, (&flags, others), common),
        call_ensures(FunctionFlags::empty, (), none),
    ensures
        contained <==> !flags.bits & others == 0,
        common <==> flags.bits & others != 0,
        none.bits == 0,
{
    let bits = flags.bits;
    assert((bits & others == others) == (!bits & others == 0)) by (bit_vector);
}

/// The empty attributes have no bit, and those of a hidden property have the lowest only.
pub proof fn attributes_are_told_by_bits(none: Attribute, hidden: Attribute)
    requires
        call_ensures(Attribute::empty, (), none),
        call_ensures(Attribute::dont_enum, (), hidden),
    ensures
        none.bits == 0,
        hidden.bits == 1,
{
}

} // verus!
