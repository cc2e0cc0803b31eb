use std::rc::Rc;

use avm1_function::flags::{
    PRELOAD_ARGUMENTS, PRELOAD_GLOBAL, PRELOAD_PARENT, PRELOAD_ROOT, PRELOAD_SUPER, PRELOAD_THIS,
    SUPPRESS_ARGUMENTS, SUPPRESS_SUPER, SUPPRESS_THIS,
};
use avm1_function::text::{can_decode, decode_name};
use avm1_function::{
    Avm1Function, AvmString, ConstantPool, DefineFunction2, DisplayObject, FunctionFlags,
    FunctionParam, RegisterIndex, ScopeRef, SwfSlice,
};

fn slice() -> SwfSlice {
    SwfSlice { movie: Rc::new(vec![1, 2, 3, 4]), start: 1, end: 3 }
}

fn define(swf_version: u8, definition: DefineFunction2) -> Avm1Function {
    Avm1Function::from_swf_function(
        swf_version,
        slice(),
        definition,
        ScopeRef { index: 5 },
        ConstantPool { index: 6 },
        DisplayObject { index: 7 },
    )
}

fn named(name: &[u8]) -> DefineFunction2 {
    DefineFunction2 {
        name: name.to_vec(),
        register_count: 4,
        params: vec![],
        flags: FunctionFlags::empty(),
    }
}

#[test]
fn definition_is_taken_over() {
    let function = define(
        6,
        DefineFunction2 {
            name: b"greet".to_vec(),
            register_count: 9,
            params: vec![
                FunctionParam { name: b"first".to_vec(), register_index: RegisterIndex::new(3) },
                FunctionParam { name: b"second".to_vec(), register_index: RegisterIndex::new(0) },
            ],
            flags: FunctionFlags { bits: 0x0105 },
        },
    );
    assert_eq!(function.swf_version(), 6);
    assert_eq!(function.register_count(), 9);
    assert_eq!(function.name().unwrap().as_str(), "greet");
    assert_eq!(function.scope(), ScopeRef { index: 5 });
    assert_eq!(function.constant_pool, ConstantPool { index: 6 });
    assert_eq!(function.base_clip, DisplayObject { index: 7 });
    assert_eq!(function.flags, FunctionFlags { bits: 0x0105 });
    let data = function.data();
    assert_eq!((data.start, data.end), (1, 3));
    assert_eq!(*data.movie, vec![1, 2, 3, 4]);
    assert_eq!(function.params.len(), 2);
    assert_eq!(function.params[0].name.as_str(), "first");
    assert_eq!(function.params[0].register.unwrap().get(), 3);
    assert_eq!(function.params[1].name.as_str(), "second");
    assert!(function.params[1].register.is_none());
}

#[test]
fn empty_name_is_anonymous() {
    assert!(define(6, named(b"")).name().is_none());
    assert!(define(5, named(b"")).name().is_none());
    assert!(define(6, named(b"f")).name().is_some());
}

#[test]
fn name_is_utf8_from_version_six() {
    let bytes = [0xf0, 0x9f, 0x92, 0x96, b'!'];
    assert_eq!(define(6, named(&bytes)).name().unwrap().as_str(), "\u{1f496}!");
    assert_eq!(define(255, named(&bytes)).name().unwrap().as_str(), "\u{1f496}!");
}

#[test]
fn name_is_windows_1252_before_version_six() {
    let bytes = [b'n', 0x80, 0xe9, 0x9f];
    assert_eq!(define(5, named(&bytes)).name().unwrap().as_str(), "n\u{20ac}\u{e9}\u{178}");
    assert_eq!(define(0, named(&bytes)).name().unwrap().as_str(), "n\u{20ac}\u{e9}\u{178}");
}

#[test]
fn param_names_are_decoded_too() {
    for (version, expected) in [(5u8, "\u{c3}\u{a9}"), (6u8, "\u{e9}")] {
        let mut definition = named(b"f");
        definition
            .params
            .push(FunctionParam { name: vec![0xc3, 0xa9], register_index: None });
        assert_eq!(define(version, definition).params[0].name.as_str(), expected);
    }
}

#[test]
fn malformed_utf8_is_replaced() {
    assert_eq!(decode_name(&[b'a', 0xff, b'b'], 6).as_str(), "a\u{fffd}b");
}

#[test]
fn ordinary_names_can_be_decoded() {
    assert!(can_decode(b""));
    assert!(can_decode(&[0; 100_000]));
}

#[test]
fn byte_order_mark_is_kept() {
    assert_eq!(decode_name(&[0xef, 0xbb, 0xbf, b'x'], 6).as_str(), "\u{feff}x");
}

#[test]
fn windows_1252_has_every_byte() {
    let high: [u32; 32] = [
        0x20ac, 0x81, 0x201a, 0x192, 0x201e, 0x2026, 0x2020, 0x2021, 0x2c6, 0x2030, 0x160, 0x2039,
        0x152, 0x8d, 0x17d, 0x8f, 0x90, 0x2018, 0x2019, 0x201c, 0x201d, 0x2022, 0x2013, 0x2014,
        0x2dc, 0x2122, 0x161, 0x203a, 0x153, 0x9d, 0x17e, 0x178,
    ];
    for byte in 0..=255u8 {
        let code = if (0x80..0xa0).contains(&byte) {
            high[byte as usize - 0x80]
        } else {
            byte as u32
        };
        let expected = char::from_u32(code).unwrap().to_string();
        assert_eq!(decode_name(&[byte], 5).as_str(), expected);
    }
}

#[test]
fn decoded_names_go_with_their_registers() {
    let mut definition = named(b"raw");
    definition
        .params
        .push(FunctionParam { name: b"raw0".to_vec(), register_index: RegisterIndex::new(2) });
    definition
        .params
        .push(FunctionParam { name: b"raw1".to_vec(), register_index: None });
    let names = [AvmString::from_literal("p"), AvmString::from_literal("q")];
    let function = Avm1Function::from_decoded(
        8,
        slice(),
        &definition,
        AvmString::from_literal("f"),
        &names,
        ScopeRef { index: 0 },
        ConstantPool { index: 0 },
        DisplayObject { index: 0 },
    );
    assert_eq!(function.name().unwrap().as_str(), "f");
    assert_eq!(function.params[0].name.as_str(), "p");
    assert_eq!(function.params[0].register.unwrap().get(), 2);
    assert_eq!(function.params[1].name.as_str(), "q");
    assert!(function.params[1].register.is_none());
}

#[test]
fn register_zero_is_none() {
    assert!(RegisterIndex::new(0).is_none());
    assert_eq!(RegisterIndex::new(255).unwrap().get(), 255);
}

#[test]
fn flags_are_those_of_the_file_format() {
    type Swf = swf::avm1::types::FunctionFlags;
    assert_eq!(PRELOAD_THIS, Swf::PRELOAD_THIS.bits());
    assert_eq!(SUPPRESS_THIS, Swf::SUPPRESS_THIS.bits());
    assert_eq!(PRELOAD_ARGUMENTS, Swf::PRELOAD_ARGUMENTS.bits());
    assert_eq!(SUPPRESS_ARGUMENTS, Swf::SUPPRESS_ARGUMENTS.bits());
    assert_eq!(PRELOAD_SUPER, Swf::PRELOAD_SUPER.bits());
    assert_eq!(SUPPRESS_SUPER, Swf::SUPPRESS_SUPER.bits());
    assert_eq!(PRELOAD_ROOT, Swf::PRELOAD_ROOT.bits());
    assert_eq!(PRELOAD_PARENT, Swf::PRELOAD_PARENT.bits());
    assert_eq!(PRELOAD_GLOBAL, Swf::PRELOAD_GLOBAL.bits());
}

#[test]
fn flags_answer_as_those_of_the_file_format() {
    type Swf = swf::avm1::types::FunctionFlags;
    for bits in 0..0x200u16 {
        let ours = FunctionFlags { bits };
        let theirs = Swf::from_bits_retain(bits);
        for flag in 0..0x200u16 {
            assert_eq!(ours.contains(flag), theirs.contains(Swf::from_bits_retain(flag)));
            assert_eq!(ours.intersects(flag), theirs.intersects(Swf::from_bits_retain(flag)));
        }
    }
}
