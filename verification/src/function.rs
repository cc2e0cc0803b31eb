//! Functions defined by bytecode: what a definition makes of them, and what they find loaded when
//! they are called.
use std::rc::Rc;
use vstd::prelude::*;

use crate::activation::{set_register, Activation, Avm1};
use crate::executable::ExecutionName;
use crate::flags::{
    FunctionFlags, PRELOAD_ARGUMENTS, PRELOAD_GLOBAL, PRELOAD_PARENT, PRELOAD_ROOT, PRELOAD_SUPER,
    PRELOAD_THIS, SUPPRESS_ARGUMENTS, SUPPRESS_SUPER, SUPPRESS_THIS,
};
use crate::heap::{bare_object, Heap, HeapModel, ObjectKind, ObjectModel};
use crate::stage::Stage;
use crate::text::{decodable, decode_name, is_swf_text, AvmString};
use crate::value::{copy_values, Attribute, ConstantPool, DisplayObject, Object, ScopeRef, Value};

verus! {

/// The number of a register that a parameter can be loaded into: any but 0.
#[derive(Clone, Copy, Debug)]
pub struct RegisterIndex {
    index: u8,
}

impl View for RegisterIndex {
    type V = u8;

    closed spec fn view(&self) -> u8 {
        self.index
    }
}

impl RegisterIndex {
    #[verifier::type_invariant]
    spec fn wf(self) -> bool {
        self.index != 0
    }

    /// The register of that number; 0 stands for none.
    pub fn new(index: u8) -> (res: Option<RegisterIndex>)
        ensures
            match res {
                Some(register) => index != 0 && register@ == index,
                None => index == 0,
            },
    {
        if index == 0 {
            None
        } else {
            Some(RegisterIndex { index })
        }
    }

    /// The number of the register.
    pub fn get(&self) -> (res: u8)
        ensures
            res == self@,
            res != 0,
    {
        proof {
            use_type_invariant(self);
        }
        self.index
    }
}

/// A stretch of the data of a movie.
#[derive(Debug)]
pub struct SwfSlice {
    pub movie: Rc<Vec<u8>>,
    pub start: usize,
    pub end: usize,
}

impl Clone for SwfSlice {
    fn clone(&self) -> (res: Self)
        ensures
            res == *self,
    {
        SwfSlice { movie: self.movie.clone(), start: self.start, end: self.end }
    }
}

/// A parameter in a `DefineFunction2` action, its name still in the encoding of the file.
#[derive(Debug)]
pub struct FunctionParam {
    pub name: Vec<u8>,
    pub register_index: Option<RegisterIndex>,
}

/// A `DefineFunction2` action, its names still in the encoding of the file.
#[derive(Debug)]
pub struct DefineFunction2 {
    pub name: Vec<u8>,
    pub register_count: u8,
    pub params: Vec<FunctionParam>,
    pub flags: FunctionFlags,
}

/// A parameter of a function.
#[derive(Debug)]
pub struct Param {
    /// The register the argument will be preloaded into.
    ///
    /// If `register` is `None`, then this parameter will be stored in a named variable in the
    /// function activation and can be accessed using `GetVariable`/`SetVariable`. Otherwise, the
    /// parameter is loaded into a register and must be accessed with `Push`/`StoreRegister`.
    pub register: Option<RegisterIndex>,
    /// The name of the parameter.
    pub name: AvmString,
}

impl Clone for Param {
    fn clone(&self) -> (res: Self)
        ensures
            res == *self,
    {
        Param { register: self.register, name: self.name.clone() }
    }
}

/// A function defined by bytecode, either through `DefineFunction` or `DefineFunction2`.
#[derive(Debug)]
pub struct Avm1Function {
    /// The file format version of the SWF that generated this function.
    pub swf_version: u8,
    /// A reference to the underlying SWF data.
    pub data: SwfSlice,
    /// The name of the function, if not anonymous.
    pub name: Option<AvmString>,
    /// The number of registers to allocate for this function's private register set. Any register
    /// beyond this ID will be served from the global one.
    pub register_count: u8,
    /// The parameters of the function.
    pub params: Vec<Param>,
    /// The scope the function was born into.
    pub scope: ScopeRef,
    /// The constant pool the function executes with.
    pub constant_pool: ConstantPool,
    /// The base movie clip that the function was defined on. This is the movie clip that contains
    /// the bytecode.
    pub base_clip: DisplayObject,
    /// The flags that define the preloaded registers of the function.
    pub flags: FunctionFlags,
}

impl Clone for Avm1Function {
    fn clone(&self) -> (res: Self)
        ensures
            res.params@ == self.params@,
            res == (Avm1Function { params: res.params, ..*self }),
    {
        let mut params: Vec<Param> = Vec::new();
        let mut i: usize = 0;
        while i < self.params.len()
            invariant
                i <= self.params@.len(),
                params@ == self.params@.take(i as int),
            decreases self.params@.len() - i,
        {
            params.push(self.params[i].clone());
            i += 1;
            assert(params@ =~= self.params@.take(i as int));
        }
        assert(self.params@.take(self.params@.len() as int) =~= self.params@);
        Avm1Function {
            swf_version: self.swf_version,
            data: self.data.clone(),
            name: self.name(),
            register_count: self.register_count,
            params,
            scope: self.scope,
            constant_pool: self.constant_pool,
            base_clip: self.base_clip,
            flags: self.flags,
        }
    }
}

/// The texts one after the other, with `", "` between them.
pub open spec fn listed(texts: Seq<Seq<char>>) -> Seq<char>
    decreases texts.len(),
{
    if texts.len() == 0 {
        Seq::empty()
    } else if texts.len() == 1 {
        texts[0]
    } else {
        listed(texts.drop_last()) + ", "@ + texts.last()
    }
}

/// The `arguments` array of a call.
pub open spec fn arguments_array(
    args: Seq<Value>,
    callee: Object,
    caller: Option<Object>,
    array_prototype: Object,
) -> ObjectModel {
    let array = ObjectModel {
        elements: args,
        ..bare_object(ObjectKind::Array, Some(array_prototype))
    };
    let caller_value = match caller {
        Some(object) => Value::Object(object),
        None => Value::Null,
    };
    array.define("callee"@, Value::Object(callee), Attribute::hidden()).define(
        "caller"@,
        caller_value,
        Attribute::hidden(),
    )
}

/// No value or one, as a sequence.
pub open spec fn present(value: Option<Value>) -> Seq<Value> {
    match value {
        Some(value) => seq![value],
        None => Seq::empty(),
    }
}

/// What the loading of a value does to a frame: if there is a value, it goes into the register
/// `r_before`, if there is such a register, and the register counts as taken.
pub open spec fn loads(
    before: Activation,
    after: Activation,
    r_before: u8,
    r_after: u8,
    value: Option<Value>,
) -> bool {
    &&& after == (Activation { local_registers: after.local_registers, ..before })
    &&& match value {
        Some(value) => {
            &&& after.local_registers@ == set_register(
                before.local_registers@,
                r_before as int,
                value,
            )
            &&& r_after == r_before + 1
        },
        None => {
            &&& after.local_registers@ == before.local_registers@
            &&& r_after == r_before
        },
    }
}

impl Avm1Function {
    /// What is loaded for `this`. The register is set to `undefined` if both flags are set.
    pub open spec fn this_preload(self, this: Value) -> Option<Value> {
        if self.flags.has(PRELOAD_THIS) {
            Some(
                if self.flags.has(SUPPRESS_THIS) {
                    Value::Undefined
                } else {
                    this
                },
            )
        } else {
            None
        }
    }

    /// Calls have an `arguments` array.
    pub open spec fn makes_arguments(self) -> bool {
        self.flags.has(PRELOAD_ARGUMENTS) || !self.flags.has(SUPPRESS_ARGUMENTS)
    }

    /// What is loaded for `arguments`. Contrarily to `this` and `super`, setting both flags is
    /// equivalent to just setting `preload`.
    pub open spec fn arguments_preload(self, arguments: Object) -> Option<Value> {
        if self.flags.has(PRELOAD_ARGUMENTS) {
            Some(Value::Object(arguments))
        } else {
            None
        }
    }

    /// What the variable `arguments` is defined as.
    pub open spec fn arguments_variable(self, arguments: Object) -> Option<Value> {
        if !self.flags.has(PRELOAD_ARGUMENTS) && !self.flags.has(SUPPRESS_ARGUMENTS) {
            Some(Value::Object(arguments))
        } else {
            None
        }
    }

    /// Calls on that `this` have a `super`.
    pub open spec fn makes_super(self, this: Option<Object>) -> bool {
        this is Some && !self.flags.has(SUPPRESS_SUPER)
    }

    /// What is loaded for `super`. The register is set to `undefined` if there is no `super`, as
    /// when both flags are set.
    pub open spec fn super_preload(self, this: Option<Object>, zuper: Object) -> Option<Value> {
        if self.flags.has(PRELOAD_SUPER) {
            Some(
                if self.makes_super(this) {
                    Value::Object(zuper)
                } else {
                    Value::Undefined
                },
            )
        } else {
            None
        }
    }

    /// What the variable `super` is defined as.
    pub open spec fn super_variable(self, this: Option<Object>, zuper: Object) -> Option<Value> {
        if !self.flags.has(PRELOAD_SUPER) && self.makes_super(this) {
            Some(Value::Object(zuper))
        } else {
            None
        }
    }

    /// What is loaded for `_root`.
    pub open spec fn root_preload(self, stage: Stage, base_clip: DisplayObject) -> Option<Value> {
        if self.flags.has(PRELOAD_ROOT) {
            Some(stage.root_value(base_clip))
        } else {
            None
        }
    }

    /// What is loaded for `_parent`: nothing at all if there is no parent.
    pub open spec fn parent_preload(self, stage: Stage, base_clip: DisplayObject) -> Option<Value> {
        if self.flags.has(PRELOAD_PARENT) {
            stage.parent_value(base_clip)
        } else {
            None
        }
    }

    /// What is loaded for `_global`.
    pub open spec fn global_preload(self, globals: Object) -> Option<Value> {
        if self.flags.has(PRELOAD_GLOBAL) {
            Some(Value::Object(globals))
        } else {
            None
        }
    }

    /// The name that a call is told by: the function's own, or else that of the execution.
    pub open spec fn call_name(self, name: ExecutionName) -> Seq<char> {
        match self.name {
            Some(own) => own@,
            None => name.text(),
        }
    }

    /// The text that tells a call: the name, and the types of the arguments in brackets.
    pub open spec fn call_text(
        self,
        heap: HeapModel,
        stage: Stage,
        name: ExecutionName,
        args: Seq<Value>,
    ) -> Seq<char> {
        self.call_name(name) + "("@ + listed(
            args.map_values(|arg: Value| heap.type_text(stage, arg)),
        ) + ")"@
    }

    /// The function of a `DefineFunction2` action whose names have been decoded. A function with an
    /// empty name is anonymous.
    pub fn from_decoded(
        swf_version: u8,
        actions: SwfSlice,
        swf_function: &DefineFunction2,
        name: AvmString,
        param_names: &[AvmString],
        scope: ScopeRef,
        constant_pool: ConstantPool,
        base_clip: DisplayObject,
    ) -> (res: Avm1Function)
        requires
            param_names@.len() == swf_function.params@.len(),
        ensures
            res.swf_version == swf_version,
            res.data == actions,
            res.name == (if swf_function.name@.len() == 0 {
                None::<AvmString>
            } else {
                Some(name)
            }),
            res.register_count == swf_function.register_count,
            res.params@.len() == swf_function.params@.len(),
            forall|i: int|
                0 <= i < res.params@.len() ==> #[trigger] res.params@[i] == (Param {
                    register: swf_function.params@[i].register_index,
                    name: param_names@[i],
                }),
            res.scope == scope,
            res.constant_pool == constant_pool,
            res.base_clip == base_clip,
            res.flags == swf_function.flags,
    {
        let name = if swf_function.name.len() == 0 {
            None
        } else {
            Some(name)
        };
        let mut params: Vec<Param> = Vec::new();
        let mut i: usize = 0;
        while i < swf_function.params.len()
            invariant
                i <= swf_function.params@.len(),
                param_names@.len() == swf_function.params@.len(),
                params@.len() == i,
                forall|j: int|
                    0 <= j < i ==> #[trigger] params@[j] == (Param {
                        register: swf_function.params@[j].register_index,
                        name: param_names@[j],
                    }),
            decreases swf_function.params@.len() - i,
        {
            params.push(
                Param {
                    register: swf_function.params[i].register_index,
                    name: param_names[i].clone(),
                },
            );
            i += 1;
        }
        Avm1Function {
            swf_version,
            data: actions,
            name,
            register_count: swf_function.register_count,
            params,
            scope,
            constant_pool,
            base_clip,
            flags: swf_function.flags,
        }
    }

    /// Construct a function from a `DefineFunction2` action.
    pub fn from_swf_function(
        swf_version: u8,
        actions: SwfSlice,
        swf_function: DefineFunction2,
        scope: ScopeRef,
        constant_pool: ConstantPool,
        base_clip: DisplayObject,
    ) -> (res: Avm1Function)
        requires
            decodable(swf_function.name@),
            forall|i: int|
                0 <= i < swf_function.params@.len() ==> decodable(
                    (#[trigger] swf_function.params@[i]).name@,
                ),
        ensures
            res.swf_version == swf_version,
            res.data == actions,
            match res.name {
                Some(name) => swf_function.name@.len() > 0 && is_swf_text(
                    name@,
                    swf_function.name@,
                    swf_version,
                ),
                None => swf_function.name@.len() == 0,
            },
            res.register_count == swf_function.register_count,
            res.params@.len() == swf_function.params@.len(),
            forall|i: int|
                #![trigger res.params@[i]]
                #![trigger swf_function.params@[i]]
                0 <= i < res.params@.len() ==> {
                    &&& res.params@[i].register == swf_function.params@[i].register_index
                    &&& is_swf_text(
                        res.params@[i].name@,
                        swf_function.params@[i].name@,
                        swf_version,
                    )
                },
            res.scope == scope,
            res.constant_pool == constant_pool,
            res.base_clip == base_clip,
            res.flags == swf_function.flags,
    {
        let name = decode_name(swf_function.name.as_slice(), swf_version);
        let mut param_names: Vec<AvmString> = Vec::new();
        let mut i: usize = 0;
        while i < swf_function.params.len()
            invariant
                i <= swf_function.params@.len(),
                forall|j: int|
                    0 <= j < swf_function.params@.len() ==> decodable(
                        (#[trigger] swf_function.params@[j]).name@,
                    ),
                param_names@.len() == i,
                forall|j: int|
                    0 <= j < i ==> is_swf_text(
                        (#[trigger] param_names@[j])@,
                        swf_function.params@[j].name@,
                        swf_version,
                    ),
            decreases swf_function.params@.len() - i,
        {
            param_names.push(decode_name(swf_function.params[i].name.as_slice(), swf_version));
            i += 1;
        }
        let function = Avm1Function::from_decoded(
            swf_version,
            actions,
            &swf_function,
            name,
            param_names.as_slice(),
            scope,
            constant_pool,
            base_clip,
        );
        assert forall|j: int| 0 <= j < function.params@.len() implies is_swf_text(
            (#[trigger] function.params@[j]).name@,
            swf_function.params@[j].name@,
            swf_version,
        ) by {
            assert(function.params@[j].name == param_names@[j]);
        }
        function
    }

    /// The version of the SWF that generated this function.
    pub fn swf_version(&self) -> (res: u8)
        ensures
            res == self.swf_version,
    {
        self.swf_version
    }

    /// The bytecode.
    pub fn data(&self) -> (res: SwfSlice)
        ensures
            res == self.data,
    {
        self.data.clone()
    }

    /// The name, if not anonymous.
    pub fn name(&self) -> (res: Option<AvmString>)
        ensures
            res == self.name,
    {
        match &self.name {
            Some(name) => Some(name.clone()),
            None => None,
        }
    }

    /// The scope the function was born into.
    pub fn scope(&self) -> (res: ScopeRef)
        ensures
            res == self.scope,
    {
        self.scope
    }

    /// The number of private registers.
    pub fn register_count(&self) -> (res: u8)
        ensures
            res == self.register_count,
    {
        self.register_count
    }

    /// The text that tells a call in debug output.
    pub fn debug_string_for_call(
        &self,
        heap: &Heap,
        stage: &Stage,
        name: &ExecutionName,
        args: &[Value],
    ) -> (res: String)
        requires
            heap@.has_values(args@),
            heap@.on_stage(*stage),
        ensures
            res@ == self.call_text(heap@, *stage, *name, args@),
    {
        let mut result = match &self.name {
            Some(own) => own.to_utf8_lossy(),
            None => match name {
                ExecutionName::Static(n) => (*n).to_owned(),
                ExecutionName::Dynamic(n) => n.to_utf8_lossy(),
            },
        };
        let ghost start = result@ + "("@;
        let ghost types = args@.map_values(|arg: Value| heap@.type_text(*stage, arg));
        result.append("(");
        let mut i: usize = 0;
        assert(result@ =~= start + listed(types.take(0)));
        while i < args.len()
            invariant
                i <= args@.len(),
                heap@.has_values(args@),
                heap@.on_stage(*stage),
                types == args@.map_values(|arg: Value| heap@.type_text(*stage, arg)),
                result@ == start + listed(types.take(i as int)),
            decreases args@.len() - i,
        {
            if i > 0 {
                result.append(", ");
            }
            assert(heap@.has_value(args@[i as int]));
            result.append(heap.type_of(stage, &args[i]));
            proof {
                let now = types.take(i + 1);
                assert(now.drop_last() =~= types.take(i as int));
                assert(now.last() == heap@.type_text(*stage, args@[i as int]));
                assert(result@ =~= start + listed(now));
            }
            i += 1;
        }
        result.append(")");
        proof {
            assert(types.take(args@.len() as int) =~= types);
            assert(result@ =~= self.call_text(heap@, *stage, *name, args@));
        }
        result
    }

    /// Loads `this`.
    pub fn load_this(&self, frame: &mut Activation, this: Value, preload_r: &mut u8)
        requires
            self.this_preload(this) is Some ==> *old(preload_r) < u8::MAX,
        ensures
            loads(
                *old(frame),
                *final(frame),
                *old(preload_r),
                *final(preload_r),
                self.this_preload(this),
            ),
    {
        let preload = self.flags.contains(PRELOAD_THIS);
        let suppress = self.flags.contains(SUPPRESS_THIS);

        if preload {
            // The register is set to undefined if both flags are set.
            let this = if suppress {
                Value::Undefined
            } else {
                this
            };
            frame.set_local_register(*preload_r, this);
            *preload_r += 1;
        }
    }

    /// Makes and loads `arguments`.
    pub fn load_arguments(
        &self,
        frame: &mut Activation,
        heap: &mut Heap,
        avm1: &Avm1,
        args: &[Value],
        caller: Option<Object>,
        preload_r: &mut u8,
    )
        requires
            old(heap).wf(),
            old(frame).in_scope(old(heap)@),
            self.makes_arguments() ==> old(frame).callee is Some,
            self.flags.has(PRELOAD_ARGUMENTS) ==> *old(preload_r) < u8::MAX,
        ensures
            final(heap).wf(),
            loads(
                *old(frame),
                *final(frame),
                *old(preload_r),
                *final(preload_r),
                self.arguments_preload(old(heap)@.next_object()),
            ),
            final(heap)@ == self.with_arguments(
                old(heap)@,
                old(heap)@.scope(old(frame).scope).values,
                args@,
                old(frame).callee,
                caller,
                avm1.array_prototype,
            ),
    {
        let preload = self.flags.contains(PRELOAD_ARGUMENTS);
        let suppress = self.flags.contains(SUPPRESS_ARGUMENTS);

        if suppress && !preload {
            return;
        }
        let elements = copy_values(args);
        let callee = frame.callee.unwrap();
        let caller_value = match caller {
            Some(object) => Value::Object(object),
            None => Value::Null,
        };
        let arguments = heap.allocate(ObjectKind::Array, elements, Some(avm1.array_prototype));
        heap.define_value(
            arguments,
            AvmString::from_literal("callee"),
            Value::Object(callee),
            Attribute::dont_enum(),
        );
        heap.define_value(
            arguments,
            AvmString::from_literal("caller"),
            caller_value,
            Attribute::dont_enum(),
        );
        assert(heap@ =~= old(heap)@.push(
            arguments_array(args@, callee, caller, avm1.array_prototype),
        ));

        // Contrarily to `this` and `super`, setting both flags is equivalent to just setting
        // `preload`.
        if preload {
            frame.set_local_register(*preload_r, Value::Object(arguments));
            *preload_r += 1;
        } else {
            frame.force_define_local(
                heap,
                AvmString::from_literal("arguments"),
                Value::Object(arguments),
            );
        }
    }

    /// Makes and loads `super`.
    pub fn load_super(
        &self,
        frame: &mut Activation,
        heap: &mut Heap,
        this: Option<Object>,
        depth: u8,
        preload_r: &mut u8,
    )
        requires
            old(heap).wf(),
            old(frame).in_scope(old(heap)@),
            self.flags.has(PRELOAD_SUPER) ==> *old(preload_r) < u8::MAX,
        ensures
            final(heap).wf(),
            loads(
                *old(frame),
                *final(frame),
                *old(preload_r),
                *final(preload_r),
                self.super_preload(this, old(heap)@.next_object()),
            ),
            final(heap)@ == self.with_super(
                old(heap)@,
                old(heap)@.scope(old(frame).scope).values,
                this,
                depth,
            ),
    {
        let preload = self.flags.contains(PRELOAD_SUPER);
        let suppress = self.flags.contains(SUPPRESS_SUPER);

        let zuper = match this {
            Some(this) => if suppress {
                None
            } else {
                Some(
                    Value::Object(
                        heap.allocate(ObjectKind::Super { this, depth }, Vec::new(), None),
                    ),
                )
            },
            None => None,
        };

        if preload {
            // The register is set to undefined if both flags are set.
            let value = match zuper {
                Some(zuper) => zuper,
                None => Value::Undefined,
            };
            frame.set_local_register(*preload_r, value);
            *preload_r += 1;
        } else if let Some(zuper) = zuper {
            frame.force_define_local(heap, AvmString::from_literal("super"), zuper);
        }
    }

    /// Loads `_root`.
    pub fn load_root(&self, frame: &mut Activation, avm1: &Avm1, preload_r: &mut u8)
        requires
            avm1.stage.wf(),
            avm1.stage.has(old(frame).base_clip),
            self.flags.has(PRELOAD_ROOT) ==> *old(preload_r) < u8::MAX,
        ensures
            loads(
                *old(frame),
                *final(frame),
                *old(preload_r),
                *final(preload_r),
                self.root_preload(avm1.stage, old(frame).base_clip),
            ),
    {
        if self.flags.contains(PRELOAD_ROOT) {
            let root = avm1.stage.clip(frame.base_clip).root;
            frame.set_local_register(*preload_r, avm1.stage.clip(root).object.clone());
            *preload_r += 1;
        }
    }

    /// Loads `_parent`.
    pub fn load_parent(&self, frame: &mut Activation, avm1: &Avm1, preload_r: &mut u8)
        requires
            avm1.stage.wf(),
            avm1.stage.has(old(frame).base_clip),
            self.parent_preload(avm1.stage, old(frame).base_clip) is Some ==> *old(preload_r)
                < u8::MAX,
        ensures
            loads(
                *old(frame),
                *final(frame),
                *old(preload_r),
                *final(preload_r),
                self.parent_preload(avm1.stage, old(frame).base_clip),
            ),
    {
        if self.flags.contains(PRELOAD_PARENT) {
            // If `_parent` is undefined (because this is a root timeline), it does not get pushed,
            // and `_global` ends up taking `_parent`'s register.
            if let Some(parent) = avm1.stage.clip(frame.base_clip).parent {
                frame.set_local_register(*preload_r, avm1.stage.clip(parent).object.clone());
                *preload_r += 1;
            }
        }
    }

    /// Loads `_global`.
    pub fn load_global(&self, frame: &mut Activation, avm1: &Avm1, preload_r: &mut u8)
        requires
            self.flags.has(PRELOAD_GLOBAL) ==> *old(preload_r) < u8::MAX,
        ensures
            loads(
                *old(frame),
                *final(frame),
                *old(preload_r),
                *final(preload_r),
                self.global_preload(avm1.globals),
            ),
    {
        if self.flags.contains(PRELOAD_GLOBAL) {
            frame.set_local_register(*preload_r, Value::Object(avm1.globals));
            *preload_r += 1;
        }
    }

    /// The heap after the `arguments` of a call have been made, with `locals` its variables.
    pub open spec fn with_arguments(
        self,
        heap: HeapModel,
        locals: Object,
        args: Seq<Value>,
        callee: Option<Object>,
        caller: Option<Object>,
        array_prototype: Object,
    ) -> HeapModel {
        if self.makes_arguments() {
            let arguments = heap.next_object();
            let made = heap.push(
                arguments_array(args, callee->Some_0, caller, array_prototype),
            );
            match self.arguments_variable(arguments) {
                Some(value) => made.define(locals, "arguments"@, value, Attribute::none()),
                None => made,
            }
        } else {
            heap
        }
    }

    /// The heap after the `super` of a call has been made, with `locals` its variables.
    pub open spec fn with_super(
        self,
        heap: HeapModel,
        locals: Object,
        this: Option<Object>,
        depth: u8,
    ) -> HeapModel {
        if self.makes_super(this) {
            let zuper = heap.next_object();
            let made = heap.push(
                bare_object(ObjectKind::Super { this: this->Some_0, depth }, None),
            );
            match self.super_variable(this, zuper) {
                Some(value) => made.define(locals, "super"@, value, Attribute::none()),
                None => made,
            }
        } else {
            heap
        }
    }
}

} // verus!
