//! What is guaranteed of functions that are defined by bytecode, and of the texts they hold.
use vstd::prelude::*;
use vstd::utf8::{decode_utf8, valid_utf8};

use crate::executable::Executable;
use crate::function::{Avm1Function, DefineFunction2, Param, SwfSlice};
use crate::heap::{FunctionObjectData, Property};
use crate::text::{can_decode, decode_name, AvmString};
use crate::value::{ConstantPool, DisplayObject, ScopeRef, Value};

verus! {

/// A definition keeps all that it is told: where and for which version the function was defined, its
/// bytecode, registers and flags, and of each parameter, in order, the register.
pub proof fn definition_is_kept(
    swf_version: u8,
    actions: SwfSlice,
    definition: DefineFunction2,
    scope: ScopeRef,
    constant_pool: ConstantPool,
    base_clip: DisplayObject,
    function: Avm1Function,
)
    requires
        call_ensures(
            Avm1Function::from_swf_function,
            (swf_version, actions, definition, scope, constant_pool, base_clip),
            function,
        ),
    ensures
        function.swf_version == swf_version,
        function.data == actions,
        function.scope == scope,
        function.constant_pool == constant_pool,
        function.base_clip == base_clip,
        function.register_count == definition.register_count,
        function.flags.bits == definition.flags.bits,
        function.params@.len() == definition.params@.len(),
        forall|i: int|
            0 <= i < function.params@.len() ==> (#[trigger] function.params@[i]).register
                == definition.params@[i].register_index,
{
}

/// A function is anonymous exactly if its definition has an empty name. Otherwise its name, and
/// those of its parameters, are what decoding the names under the version gives.
pub proof fn names_are_decoded(
    swf_version: u8,
    actions: SwfSlice,
    definition: DefineFunction2,
    scope: ScopeRef,
    constant_pool: ConstantPool,
    base_clip: DisplayObject,
    function: Avm1Function,
    bytes: &[u8],
    text: AvmString,
)
    requires
        call_ensures(
            Avm1Function::from_swf_function,
            (swf_version, actions, definition, scope, constant_pool, base_clip),
            function,
        ),
        call_ensures(decode_name, (bytes, swf_version), text),
    ensures
        function.name is None <==> definition.name@.len() == 0,
        function.name matches Some(name) ==> (bytes@ == definition.name@ ==> name@ == text@),
        forall|i: int|
            0 <= i < function.params@.len() && bytes@ == definition.params@[i].name@ ==> (
            #[trigger] function.params@[i]).name@ == text@,
{
}

/// A function that is made of decoded names has those names, but for an empty one of its own, which
/// leaves it anonymous.
pub proof fn decoded_definition_is_kept(
    swf_version: u8,
    actions: SwfSlice,
    definition: DefineFunction2,
    name: AvmString,
    param_names: &[AvmString],
    scope: ScopeRef,
    constant_pool: ConstantPool,
    base_clip: DisplayObject,
    function: Avm1Function,
)
    requires
        call_ensures(
            Avm1Function::from_decoded,
            (
                swf_version,
                actions,
                &definition,
                name,
                param_names,
                scope,
                constant_pool,
                base_clip,
            ),
            function,
        ),
    ensures
        function.swf_version == swf_version,
        function.data == actions,
        function.scope == scope,
        function.constant_pool == constant_pool,
        function.base_clip == base_clip,
        function.register_count == definition.register_count,
        function.flags.bits == definition.flags.bits,
        definition.name@.len() == 0 ==> function.name is None,
        definition.name@.len() > 0 ==> function.name == Some(name),
        function.params@.len() == definition.params@.len(),
        forall|i: int|
            0 <= i < function.params@.len() ==> {
                &&& (#[trigger] function.params@[i]).register
                    == definition.params@[i].register_index
                &&& function.params@[i].name == param_names@[i]
            },
{
}

/// What is read of a function is what its definition gave it.
pub proof fn function_is_read_as_defined(
    function: Avm1Function,
    swf_version: u8,
    data: SwfSlice,
    name: Option<AvmString>,
    scope: ScopeRef,
    register_count: u8,
)
    requires
        call_ensures(Avm1Function::swf_version, (&function,), swf_version),
        call_ensures(Avm1Function::data, (&function,), data),
        call_ensures(Avm1Function::name, (&function,), name),
        call_ensures(Avm1Function::scope, (&function,), scope),
        call_ensures(Avm1Function::register_count, (&function,), register_count),
    ensures
        swf_version == function.swf_version,
        data == function.data,
        name == function.name,
        scope == function.scope,
        register_count == function.register_count,
{
}

/// From version 6 on, well-formed UTF-8 is decoded to the text it encodes. Before, each byte is one
/// character, its own code point for all bytes outside of 0x80 to 0x9f.
pub proof fn names_are_utf8_from_version_6_on(bytes: &[u8], swf_version: u8, text: AvmString)
    requires
        call_ensures(decode_name, (bytes, swf_version), text),
    ensures
        swf_version >= 6 && valid_utf8(bytes@) ==> text@ == decode_utf8(bytes@),
        swf_version < 6 ==> text@.len() == bytes@.len(),
        swf_version < 6 ==> forall|i: int|
            0 <= i < bytes@.len() && !(0x80 <= bytes@[i] < 0xa0) ==> #[trigger] text@[i]
                == bytes@[i] as char,
{
}

/// The version matters only by whether it is before 6: names decode alike under any two versions on
/// the same side.
pub proof fn decoding_depends_on_the_side_of_version_6(
    bytes: &[u8],
    one: u8,
    other: u8,
    text: AvmString,
    other_text: AvmString,
)
    requires
        call_ensures(decode_name, (bytes, one), text),
        call_ensures(decode_name, (bytes, other), other_text),
        (one < 6) == (other < 6),
    ensures
        text@ == other_text@,
{
}

/// A name can be decoded exactly if a buffer of eight bytes for each of its own, and some more, can
/// be allocated, and a definition all of whose names can be decoded can be made into a function.
pub proof fn what_can_be_decoded_can_be_defined(
    swf_version: u8,
    actions: SwfSlice,
    definition: DefineFunction2,
    scope: ScopeRef,
    constant_pool: ConstantPool,
    base_clip: DisplayObject,
    bytes: &[u8],
    decodable: bool,
)
    requires
        call_ensures(can_decode, (bytes,), decodable),
    ensures
        decodable <==> 8 * bytes@.len() + 64 <= isize::MAX,
        decodable ==> call_requires(decode_name, (bytes, swf_version)),
        8 * definition.name@.len() + 64 <= isize::MAX && (forall|i: int|
            0 <= i < definition.params@.len() ==> 8 * (
            #[trigger] definition.params@[i]).name@.len() + 64 <= isize::MAX) ==> call_requires(
            Avm1Function::from_swf_function,
            (swf_version, actions, definition, scope, constant_pool, base_clip),
        ),
{
}

/// Copies are the same as what they were made of.
pub proof fn copies_are_the_same(
    function: Avm1Function,
    function_copy: Avm1Function,
    param: Param,
    param_copy: Param,
    data: SwfSlice,
    data_copy: SwfSlice,
    string: AvmString,
    string_copy: AvmString,
    value: Value,
    value_copy: Value,
    code: Executable,
    code_copy: Executable,
    parts: FunctionObjectData,
    parts_copy: FunctionObjectData,
    property: Property,
    property_copy: Property,
)
    requires
        call_ensures(<Avm1Function as Clone>::clone, (&function,), function_copy),
        call_ensures(<Param as Clone>::clone, (&param,), param_copy),
        call_ensures(<SwfSlice as Clone>::clone, (&data,), data_copy),
        call_ensures(<AvmString as Clone>::clone, (&string,), string_copy),
        call_ensures(<Value as Clone>::clone, (&value,), value_copy),
        call_ensures(<Executable as Clone>::clone, (&code,), code_copy),
        call_ensures(<FunctionObjectData as Clone>::clone, (&parts,), parts_copy),
        call_ensures(<Property as Clone>::clone, (&property,), property_copy),
    ensures
        function_copy.swf_version == function.swf_version,
        function_copy.data == function.data,
        function_copy.name == function.name,
        function_copy.register_count == function.register_count,
        function_copy.params@ == function.params@,
        function_copy.scope == function.scope,
        function_copy.constant_pool == function.constant_pool,
        function_copy.base_clip == function.base_clip,
        function_copy.flags == function.flags,
        param_copy == param,
        data_copy == data,
        string_copy == string,
        value_copy == value,
        code_copy == code,
        parts_copy == parts,
        property_copy == property,
{
}

/// A text that is made into a string value is read back, and strings are told apart by their texts.
pub proof fn strings_hold_their_texts(
    text: String,
    string: AvmString,
    literal: &str,
    from_literal: AvmString,
    read: &str,
    copy: String,
    same: bool,
)
    requires
        call_ensures(AvmString::new_utf8, (text,), string),
        call_ensures(AvmString::from_literal, (literal,), from_literal),
        call_ensures(AvmString::as_str, (&string,), read),
        call_ensures(AvmString::to_utf8_lossy, (&string,), copy),
        call_ensures(AvmString::same_text, (&string, &from_literal), same),
    ensures
        read@ == text@,
        copy@ == text@,
        from_literal@ == literal@,
        same <==> text@ == literal@,
{
}

} // verus!
