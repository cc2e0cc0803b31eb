//! Executable code and the decisions that a call of it takes.
use std::rc::Rc;
use vstd::prelude::*;

use crate::activation::{Activation, Avm1};
use crate::call::{
    argument, preloaded_registers, with_register_params, with_variable_params, Call,
    FIRST_CLOSURE_VERSION, LOWEST_CALL_VERSION,
};
use crate::flags::{this_flags_intersect, PRELOAD_THIS, SUPPRESS_THIS};
use crate::function::{loads, present, Avm1Function, SwfSlice};
use crate::heap::{Heap, HeapModel, ObjectKind, Scope, ScopeClass};
use crate::text::AvmString;
use crate::value::{
    copy_values, DisplayObject, Error, NativeFunction, Object, ReturnType, ScopeRef, Value,
};

verus! {

/// Indicates the reason for an execution.
#[derive(Clone, Copy, Debug, PartialEq, Eq, Structural)]
pub enum ExecutionReason {
    /// This execution is a "normal" function call from bytecode.
    FunctionCall,
    /// This execution is a "special" internal function call from the player, such as getters,
    /// setters, `toString`, or event handlers.
    Special,
}

/// Indicates the default name to use for this execution in debug output.
#[derive(Debug)]
pub enum ExecutionName {
    Static(&'static str),
    Dynamic(AvmString),
}

impl ExecutionName {
    /// The name.
    pub open spec fn text(self) -> Seq<char> {
        match self {
            ExecutionName::Static(name) => name@,
            ExecutionName::Dynamic(name) => name@,
        }
    }
}

/// A function that is provided by the player or defined by bytecode.
pub enum Executable {
    /// A function provided by the player.
    Native(NativeFunction),
    /// A function defined by an earlier `DefineFunction` or `DefineFunction2` action.
    Action(Rc<Avm1Function>),
}

impl Clone for Executable {
    fn clone(&self) -> (res: Self)
        ensures
            res == *self,
    {
        match self {
            Executable::Native(nf) => Executable::Native(*nf),
            Executable::Action(af) => Executable::Action(af.clone()),
        }
    }
}

/// `From<T> for T` of the standard library, which `Into` goes through where nothing has to be
/// converted. Claimed of it: it returns its argument unchanged.
pub assume_specification<T>[ <T as core::convert::From<T>>::from ](t: T) -> (res: T)
    ensures
        res == t,
;

impl From<NativeFunction> for Executable {
    fn from(nf: NativeFunction) -> (res: Self) {
        Executable::Native(nf)
    }
}

impl vstd::std_specs::convert::FromSpecImpl<NativeFunction> for Executable {
    open spec fn obeys_from_spec() -> bool {
        true
    }

    open spec fn from_spec(nf: NativeFunction) -> Self {
        Executable::Native(nf)
    }
}

impl From<Rc<Avm1Function>> for Executable {
    fn from(af: Rc<Avm1Function>) -> (res: Self) {
        Executable::Action(af)
    }
}

impl vstd::std_specs::convert::FromSpecImpl<Rc<Avm1Function>> for Executable {
    open spec fn obeys_from_spec() -> bool {
        true
    }

    open spec fn from_spec(af: Rc<Avm1Function>) -> Self {
        Executable::Action(af)
    }
}

/// What is left to the interpreter of an execution.
#[derive(Debug)]
pub enum Invocation {
    /// Call the function with `this` coerced to an object.
    Native { function: NativeFunction, this: Value, args: Vec<Value> },
    /// Run the bytecode in the frame.
    Actions { frame: Activation, data: SwfSlice },
}

/// What came of an invocation.
#[derive(Debug)]
pub enum Outcome {
    /// What the native function returned.
    Native(Result<Value, Error>),
    /// How the bytecode ended.
    Actions(Result<ReturnType, Error>),
}

impl Outcome {
    /// The result of the execution.
    pub open spec fn result(self) -> Result<Value, Error> {
        match self {
            Outcome::Native(result) => result,
            Outcome::Actions(Ok(ended)) => Ok(ended.returned()),
            Outcome::Actions(Err(error)) => Err(error),
        }
    }

    /// The result of the execution.
    pub fn into_result(self) -> (res: Result<Value, Error>)
        ensures
            res == self.result(),
    {
        match self {
            Outcome::Native(result) => result,
            Outcome::Actions(Ok(ended)) => Ok(ended.value()),
            Outcome::Actions(Err(error)) => Err(error),
        }
    }
}

/// What comes of the result of a built-in constructor that is called as a function: the value is
/// discarded.
pub fn constructor_to_fn(result: Result<Value, Error>) -> (res: Result<Value, Error>)
    ensures
        res == match result {
            Ok(_) => Ok::<Value, Error>(Value::Undefined),
            Err(error) => Err(error),
        },
{
    match result {
        Ok(_) => Ok(Value::Undefined),
        Err(error) => Err(error),
    }
}

/// How far the loading of a frame has come.
struct Preloading {
    /// The frame.
    frame: Activation,
    /// The register that comes next.
    preload_r: u8,
    /// What has been loaded.
    loaded: Seq<Value>,
}

impl Preloading {
    /// What has been loaded stands in the registers from the first on.
    spec fn wf(self, count: nat) -> bool {
        &&& self.frame.local_registers@ == preloaded_registers(count, self.loaded)
        &&& self.preload_r == 1 + self.loaded.len()
    }

    /// One value more has been loaded, if there was one.
    proof fn advance(
        self,
        frame: Activation,
        preload_r: u8,
        value: Option<Value>,
        count: nat,
    ) -> (now: Preloading)
        requires
            self.wf(count),
            loads(self.frame, frame, self.preload_r, preload_r, value),
        ensures
            now.wf(count),
            now == (Preloading { frame, preload_r, loaded: self.loaded + present(value) }),
            now.loaded.len() <= self.loaded.len() + 1,
    {
        let loaded = self.loaded + present(value);
        assert(frame.local_registers@ =~= preloaded_registers(count, loaded));
        Preloading { frame, preload_r, loaded }
    }
}

impl Executable {
    /// The call that executing the code is, if it is bytecode.
    pub open spec fn action_call(
        self,
        name: ExecutionName,
        activation: Activation,
        avm1: Avm1,
        heap: HeapModel,
        this: Value,
        depth: u8,
        args: Seq<Value>,
        reason: ExecutionReason,
        callee: Object,
    ) -> Call
        recommends
            self is Action,
    {
        Call {
            function: *self->Action_0,
            name,
            caller: activation,
            avm1,
            heap,
            this,
            depth,
            args,
            reason,
            callee,
        }
    }

    /// The code can be executed: what the call names exists. Of a native function nothing is
    /// asked.
    pub open spec fn can_exec(
        self,
        name: ExecutionName,
        activation: Activation,
        avm1: Avm1,
        heap: HeapModel,
        this: Value,
        depth: u8,
        args: Seq<Value>,
        reason: ExecutionReason,
        callee: Object,
    ) -> bool {
        self is Action ==> self.action_call(
            name,
            activation,
            avm1,
            heap,
            this,
            depth,
            args,
            reason,
            callee,
        ).wf()
    }

    /// What executing the code leaves to the interpreter, and what it does to the heap.
    pub open spec fn executes(
        self,
        name: ExecutionName,
        activation: Activation,
        avm1: Avm1,
        before: HeapModel,
        after: HeapModel,
        this: Value,
        depth: u8,
        args: Seq<Value>,
        reason: ExecutionReason,
        callee: Object,
        res: Result<Invocation, Error>,
    ) -> bool {
        match self {
            Executable::Native(native) => {
                &&& after == before
                &&& res matches Ok(Invocation::Native { function, this: native_this, args: native_args })
                &&& function == native
                &&& native_this == this
                &&& native_args@ == args
            },
            Executable::Action(function) => {
                let call = self.action_call(
                    name,
                    activation,
                    avm1,
                    before,
                    this,
                    depth,
                    args,
                    reason,
                    callee,
                );
                match call.limit() {
                    Some(error) => {
                        &&& after == call.with_scope()
                        &&& res == Err::<Invocation, Error>(error)
                    },
                    None => {
                        &&& after == call.final_heap()
                        &&& res matches Ok(Invocation::Actions { frame, data })
                        &&& call.runs_in(frame)
                        &&& data == function.data
                    },
                }
            },
        }
    }

    /// The text for debug output: the kind of the code, and in brackets the text of what it holds.
    /// Of a native function that is the text of its pointer, in quotes.
    pub fn debug_text(&self, inner: &str) -> (res: String)
        ensures
            res@ == match *self {
                Executable::Native(_) => "Executable::Native(\""@ + inner@ + "\")"@,
                Executable::Action(_) => "Executable::Action("@ + inner@ + ")"@,
            },
    {
        match self {
            Executable::Native(_) => {
                let mut res = "Executable::Native(\"".to_owned();
                res.append(inner);
                res.append("\")");
                res
            },
            Executable::Action(_) => {
                let mut res = "Executable::Action(".to_owned();
                res.append(inner);
                res.append(")");
                res
            },
        }
    }

    /// Whether the code can be executed.
    pub fn may_exec(
        &self,
        name: &ExecutionName,
        activation: &Activation,
        avm1: &Avm1,
        heap: &Heap,
        this: &Value,
        depth: u8,
        args: &[Value],
        reason: ExecutionReason,
        callee: Object,
    ) -> (res: bool)
        ensures
            res == self.can_exec(
                *name,
                *activation,
                *avm1,
                heap@,
                *this,
                depth,
                args@,
                reason,
                callee,
            ),
    {
        let function = match self {
            Executable::Native(_) => return true,
            Executable::Action(function) => function,
        };
        let ghost call = self.action_call(
            *name,
            *activation,
            *avm1,
            heap@,
            *this,
            depth,
            args@,
            reason,
            callee,
        );
        let stage = &avm1.stage;
        if !(stage.is_consistent() && heap.is_on_stage(stage) && activation.is_on_stage(stage)
            && stage.contains(function.base_clip) && heap.contains_value(this)
            && heap.contains_values(args)) {
            return false;
        }
        if activation.swf_version() >= FIRST_CLOSURE_VERSION {
            return true;
        }
        let base_clip = function.select_base_clip(
            activation,
            avm1,
            heap,
            this.as_object(),
            reason,
            Ghost(call),
        );
        stage.clip(base_clip).object.as_object().is_some()
    }

    /// Begins the execution of the code.
    ///
    /// What remains is to be done by the interpreter, and what comes of it is the result of the
    /// execution (see `Outcome::into_result`).
    pub fn exec(
        &self,
        name: &ExecutionName,
        activation: &Activation,
        avm1: &Avm1,
        heap: &mut Heap,
        this: Value,
        depth: u8,
        args: &[Value],
        reason: ExecutionReason,
        callee: Object,
    ) -> (res: Result<Invocation, Error>)
        requires
            old(heap).wf(),
            self.can_exec(
                *name,
                *activation,
                *avm1,
                old(heap)@,
                this,
                depth,
                args@,
                reason,
                callee,
            ),
        ensures
            final(heap).wf(),
            self.executes(
                *name,
                *activation,
                *avm1,
                old(heap)@,
                final(heap)@,
                this,
                depth,
                args@,
                reason,
                callee,
                res,
            ),
    {
        match self {
            Executable::Native(function) => Ok(
                Invocation::Native { function: *function, this, args: copy_values(args) },
            ),
            Executable::Action(af) => af.exec(
                name,
                activation,
                avm1,
                heap,
                this,
                depth,
                args,
                reason,
                callee,
            ),
        }
    }
}

impl Avm1Function {
    /// The clip that a call runs on.
    fn select_base_clip(
        &self,
        activation: &Activation,
        avm1: &Avm1,
        heap: &Heap,
        this: Option<Object>,
        reason: ExecutionReason,
        Ghost(call): Ghost<Call>,
    ) -> (res: DisplayObject)
        requires
            call.names_exist(),
            call.function == *self,
            call.caller == *activation,
            call.avm1 == *avm1,
            call.heap == heap@,
            call.this.object() == this,
            call.reason == reason,
        ensures
            res == call.base_clip(),
            avm1.stage.has(res),
    {
        let target = activation.target_clip_or_root(&avm1.stage);
        let is_closure = activation.swf_version() >= FIRST_CLOSURE_VERSION;
        let removed = avm1.stage.clip(self.base_clip).removed;
        if (is_closure || reason == ExecutionReason::Special) && !removed {
            self.base_clip
        } else {
            match this {
                Some(this) => match heap.as_display_object(this) {
                    Some(clip) => clip,
                    None => target,
                },
                None => target,
            }
        }
    }

    /// The version that a call runs under and the scope around it.
    fn select_scope(
        &self,
        activation: &Activation,
        avm1: &Avm1,
        heap: &mut Heap,
        base_clip: DisplayObject,
        Ghost(call): Ghost<Call>,
    ) -> (res: (u8, ScopeRef))
        requires
            old(heap).wf(),
            call.wf(),
            call.function == *self,
            call.caller == *activation,
            call.avm1 == *avm1,
            call.heap == old(heap)@,
            call.base_clip() == base_clip,
            avm1.stage.has(base_clip),
        ensures
            final(heap).wf(),
            res.0 == call.swf_version(),
            res.1 == call.parent_scope(),
            final(heap)@ == call.with_parent_scope(),
    {
        if activation.swf_version() >= FIRST_CLOSURE_VERSION {
            // Function calls in a v6+ SWF are proper closures, and "close" over the scope that
            // defined the function:
            // * Use the SWF version from the SWF that defined the function.
            // * Use the base clip from when the function was defined.
            // * Close over the scope from when the function was defined.
            (self.swf_version(), self.scope())
        } else {
            // Function calls in a v5 SWF are *not* closures, and will use the settings of `this`,
            // regardless of the function's origin:
            // * Use the SWF version of `this`.
            // * Use the base clip of `this`.
            // * Allocate a new scope using the given base clip. No previous scope is closed over.
            let clip = avm1.stage.clip(base_clip);
            let swf_version: u8 = if clip.swf_version >= LOWEST_CALL_VERSION {
                clip.swf_version
            } else {
                LOWEST_CALL_VERSION
            };
            let base_clip_obj = clip.object.as_object().unwrap();
            let globals = heap.allocate_scope(
                Scope { parent: None, class: ScopeClass::Global, values: avm1.globals },
            );
            let scope = heap.allocate_scope(
                Scope { parent: Some(globals), class: ScopeClass::Target, values: base_clip_obj },
            );
            (swf_version, scope)
        }
    }

    /// Loads the arguments into the registers and variables of the parameters.
    fn load_params(
        &self,
        frame: &mut Activation,
        heap: &mut Heap,
        args: &[Value],
        Ghost(locals): Ghost<Object>,
    )
        requires
            old(heap).wf(),
            old(frame).in_scope(old(heap)@),
            old(heap)@.scope(old(frame).scope).values == locals,
        ensures
            final(heap).wf(),
            *final(frame) == (Activation {
                local_registers: final(frame).local_registers,
                ..*old(frame)
            }),
            final(frame).local_registers@ == with_register_params(
                old(frame).local_registers@,
                self.params@,
                args@,
            ),
            final(heap)@ == with_variable_params(old(heap)@, locals, self.params@, args@),
    {
        let ghost registers = frame.local_registers@;
        let ghost before = heap@;
        let mut i: usize = 0;
        assert(self.params@.take(0) =~= Seq::empty());
        while i < self.params.len()
            invariant
                i <= self.params@.len(),
                heap.wf(),
                frame.in_scope(heap@),
                heap@.scope(frame.scope).values == locals,
                *frame == (Activation { local_registers: frame.local_registers, ..*old(frame) }),
                frame.local_registers@ == with_register_params(
                    registers,
                    self.params@.take(i as int),
                    args@,
                ),
                heap@ == with_variable_params(before, locals, self.params@.take(i as int), args@),
            decreases self.params@.len() - i,
        {
            // Any unassigned args are set to undefined to prevent assignments from leaking to the
            // parent scope.
            let value = if i < args.len() {
                args[i].clone()
            } else {
                Value::Undefined
            };
            assert(value == argument(args@, i as int));
            let param = &self.params[i];
            if let Some(register) = param.register {
                frame.set_local_register(register.get(), value);
            } else {
                frame.force_define_local(heap, param.name.clone(), value);
            }
            proof {
                let now = self.params@.take(i + 1);
                assert(now.drop_last() =~= self.params@.take(i as int));
                assert(now.last() == *param);
            }
            i += 1;
        }
        assert(self.params@.take(self.params@.len() as int) =~= self.params@);
    }

    /// Loads `this`, `arguments` and `super` into the first registers.
    fn load_objects(
        &self,
        frame: &mut Activation,
        heap: &mut Heap,
        avm1: &Avm1,
        this: Value,
        depth: u8,
        args: &[Value],
        caller: Option<Object>,
        Ghost(locals): Ghost<Object>,
    ) -> (preload_r: u8)
        requires
            old(heap).wf(),
            old(frame).callee is Some,
            old(frame).in_scope(old(heap)@),
            old(heap)@.scope(old(frame).scope).values == locals,
            old(frame).local_registers@ == preloaded_registers(
                self.register_count as nat,
                Seq::empty(),
            ),
        ensures
            final(heap).wf(),
            final(frame).in_scope(final(heap)@),
            final(heap)@.scope(final(frame).scope).values == locals,
            *final(frame) == (Activation {
                local_registers: final(frame).local_registers,
                ..*old(frame)
            }),
            ({
                let with_arguments = self.with_arguments(
                    old(heap)@,
                    locals,
                    args@,
                    old(frame).callee,
                    caller,
                    avm1.array_prototype,
                );
                let loaded = present(self.this_preload(this)) + present(
                    self.arguments_preload(old(heap)@.next_object()),
                ) + present(self.super_preload(this.object(), with_arguments.next_object()));
                &&& final(heap)@ == self.with_super(with_arguments, locals, this.object(), depth)
                &&& (Preloading { frame: *final(frame), preload_r, loaded }).wf(
                    self.register_count as nat,
                )
                &&& loaded.len() <= 3
            }),
    {
        let this_obj = this.as_object();
        let mut preload_r: u8 = 1;
        let ghost count = self.register_count as nat;
        let ghost this_value = self.this_preload(this);
        let ghost mut at = Preloading { frame: *frame, preload_r, loaded: Seq::empty() };

        self.load_this(frame, this, &mut preload_r);
        proof {
            at = at.advance(*frame, preload_r, this_value, count);
            assert(at.loaded =~= present(this_value));
        }

        let ghost arguments = heap@.next_object();
        self.load_arguments(frame, heap, avm1, args, caller, &mut preload_r);
        proof {
            at = at.advance(*frame, preload_r, self.arguments_preload(arguments), count);
        }

        let ghost zuper = heap@.next_object();
        self.load_super(frame, heap, this_obj, depth, &mut preload_r);
        proof {
            at = at.advance(*frame, preload_r, self.super_preload(this_obj, zuper), count);
        }
        preload_r
    }

    /// Loads `_root`, `_parent` and `_global` into the registers from `preload_r` on.
    fn load_clips(
        &self,
        frame: &mut Activation,
        avm1: &Avm1,
        preload_r: u8,
        Ghost(loaded): Ghost<Seq<Value>>,
    )
        requires
            avm1.stage.wf(),
            avm1.stage.has(old(frame).base_clip),
            (Preloading { frame: *old(frame), preload_r, loaded }).wf(self.register_count as nat),
            loaded.len() <= 3,
        ensures
            *final(frame) == (Activation {
                local_registers: final(frame).local_registers,
                ..*old(frame)
            }),
            final(frame).local_registers@ == preloaded_registers(
                self.register_count as nat,
                loaded + present(self.root_preload(avm1.stage, old(frame).base_clip)) + present(
                    self.parent_preload(avm1.stage, old(frame).base_clip),
                ) + present(self.global_preload(avm1.globals)),
            ),
    {
        let mut preload_r: u8 = preload_r;
        let ghost count = self.register_count as nat;
        let ghost root = self.root_preload(avm1.stage, frame.base_clip);
        let ghost parent = self.parent_preload(avm1.stage, frame.base_clip);
        let ghost mut at = Preloading { frame: *frame, preload_r, loaded };

        self.load_root(frame, avm1, &mut preload_r);
        proof {
            at = at.advance(*frame, preload_r, root, count);
        }

        self.load_parent(frame, avm1, &mut preload_r);
        proof {
            at = at.advance(*frame, preload_r, parent, count);
        }

        self.load_global(frame, avm1, &mut preload_r);
        proof {
            at = at.advance(*frame, preload_r, self.global_preload(avm1.globals), count);
        }
    }

    /// Begins a call of the function: sets up the frame that its bytecode is to run in.
    fn exec(
        &self,
        name: &ExecutionName,
        activation: &Activation,
        avm1: &Avm1,
        heap: &mut Heap,
        this: Value,
        depth: u8,
        args: &[Value],
        reason: ExecutionReason,
        callee: Object,
    ) -> (res: Result<Invocation, Error>)
        requires
            old(heap).wf(),
            (Call {
                function: *self,
                name: *name,
                caller: *activation,
                avm1: *avm1,
                heap: old(heap)@,
                this,
                depth,
                args: args@,
                reason,
                callee,
            }).wf(),
        ensures
            final(heap).wf(),
            ({
                let call = Call {
                    function: *self,
                    name: *name,
                    caller: *activation,
                    avm1: *avm1,
                    heap: old(heap)@,
                    this,
                    depth,
                    args: args@,
                    reason,
                    callee,
                };
                match call.limit() {
                    Some(error) => {
                        &&& final(heap)@ == call.with_scope()
                        &&& res == Err::<Invocation, Error>(error)
                    },
                    None => {
                        &&& final(heap)@ == call.final_heap()
                        &&& res matches Ok(Invocation::Actions { frame, data })
                        &&& call.runs_in(frame)
                        &&& data == self.data
                    },
                }
            }),
    {
        let ghost call = Call {
            function: *self,
            name: *name,
            caller: *activation,
            avm1: *avm1,
            heap: heap@,
            this,
            depth,
            args: args@,
            reason,
            callee,
        };
        let this_obj = this.as_object();
        let base_clip = self.select_base_clip(
            activation,
            avm1,
            heap,
            this_obj,
            reason,
            Ghost(call),
        );
        let name = if avm1.debug_names {
            self.debug_string_for_call(heap, &avm1.stage, name, args)
        } else {
            "[Anonymous]".to_owned()
        };
        let (swf_version, parent_scope) = self.select_scope(
            activation,
            avm1,
            heap,
            base_clip,
            Ghost(call),
        );
        let locals = heap.allocate(ObjectKind::Script, Vec::new(), None);
        let child_scope = heap.allocate_scope(
            Scope { parent: Some(parent_scope), class: ScopeClass::Local, values: locals },
        );
        assert(heap@ =~= call.with_scope());

        // The caller is the previous callee.
        let arguments_caller = activation.callee;

        let is_this_inherited = self.flags.intersects(PRELOAD_THIS | SUPPRESS_THIS);
        proof {
            this_flags_intersect(self.flags);
        }
        let local_this = if is_this_inherited {
            activation.this_cell()
        } else {
            this.clone()
        };

        let id = match activation.id.function(
            name,
            reason,
            avm1.max_recursion_depth,
            avm1.max_special_depth,
        ) {
            Ok(id) => id,
            Err(error) => return Err(error),
        };
        let mut frame = Activation::from_action(
            id,
            swf_version,
            child_scope,
            self.constant_pool,
            base_clip,
            local_this,
            Some(callee),
        );
        frame.allocate_local_registers(self.register_count());
        assert(frame.local_registers@ =~= preloaded_registers(
            self.register_count as nat,
            Seq::empty(),
        ));

        let preload_r: u8 = self.load_objects(
            &mut frame,
            heap,
            avm1,
            this,
            depth,
            args,
            arguments_caller,
            Ghost(locals),
        );
        let ghost loaded = present(self.this_preload(call.this)) + present(
            self.arguments_preload(call.with_scope().next_object()),
        ) + present(self.super_preload(this_obj, call.with_arguments().next_object()));
        self.load_clips(&mut frame, avm1, preload_r, Ghost(loaded));
        self.load_params(&mut frame, heap, args, Ghost(locals));

        Ok(Invocation::Actions { frame, data: self.data() })
    }
}

} // verus!
