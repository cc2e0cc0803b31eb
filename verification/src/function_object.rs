//! Function objects: objects that hold executable code.
use vstd::prelude::*;

use crate::activation::{Activation, Avm1};
use crate::executable::{Executable, ExecutionName, ExecutionReason, Invocation, Outcome};
use crate::heap::{bare_object, FunctionObjectData, Heap, HeapModel, ObjectKind};
use crate::text::AvmString;
use crate::value::{Attribute, Error, Object, Value};

verus! {

/// The first version whose constructed objects do not get a `constructor` property of their own.
pub const FIRST_VERSION_WITHOUT_CONSTRUCTOR: u8 = 7;

/// An object of the heap that holds executable code.
#[derive(Clone, Copy, Debug, PartialEq, Eq, Structural)]
pub struct FunctionObject {
    pub base: Object,
}

impl From<FunctionObject> for Object {
    fn from(function: FunctionObject) -> (res: Self) {
        function.base
    }
}

impl vstd::std_specs::convert::FromSpecImpl<FunctionObject> for Object {
    open spec fn obeys_from_spec() -> bool {
        true
    }

    open spec fn from_spec(function: FunctionObject) -> Self {
        function.base
    }
}

/// How a call goes on.
#[derive(Debug)]
pub enum CallStep {
    /// It is over, with this value.
    Finished(Value),
    /// It goes on with an invocation, and its result is that of the invocation.
    Invoke(Invocation),
}

/// How a construction goes on.
#[derive(Debug)]
pub enum ConstructStep {
    /// Look up the property of that name in the function object.
    GetProperty { object: Object, name: &'static str },
    /// Coerce the value to an object.
    CoerceToObject(Value),
    /// Have the receiver create an object of its kind that inherits from the prototype.
    CreateBareObject { receiver: Object, prototype: Object },
    /// Invoke the constructor.
    Invoke { invocation: Invocation, produces: Produces },
    /// It is over, with this result.
    Finished(Result<Value, Error>),
}

/// What a construction waits for.
#[derive(Clone, Copy, Debug, PartialEq, Eq, Structural)]
pub enum Awaits {
    /// The value of the property.
    Property,
    /// The prototype as an object.
    Prototype,
    /// The object that was created.
    Object,
    /// What came of the invocation.
    Outcome(Produces),
    /// Nothing more.
    Nothing,
}

/// What a construction is told when the interpreter has done what it asked for.
#[derive(Debug)]
pub enum ConstructEvent {
    /// The value of the property.
    Property(Result<Value, Error>),
    /// The prototype as an object.
    Prototype(Object),
    /// The object that was created.
    Object(Result<Object, Error>),
    /// What came of the invocation.
    Outcome(Outcome),
}

impl ConstructStep {
    /// What the construction waits for after the step.
    pub open spec fn awaited(self) -> Awaits {
        match self {
            ConstructStep::GetProperty { .. } => Awaits::Property,
            ConstructStep::CoerceToObject(_) => Awaits::Prototype,
            ConstructStep::CreateBareObject { .. } => Awaits::Object,
            ConstructStep::Invoke { produces, .. } => Awaits::Outcome(produces),
            ConstructStep::Finished(_) => Awaits::Nothing,
        }
    }

    /// What the construction waits for after the step.
    pub fn awaits(&self) -> (res: Awaits)
        ensures
            res == self.awaited(),
    {
        match self {
            ConstructStep::GetProperty { .. } => Awaits::Property,
            ConstructStep::CoerceToObject(_) => Awaits::Prototype,
            ConstructStep::CreateBareObject { .. } => Awaits::Object,
            ConstructStep::Invoke { produces, .. } => Awaits::Outcome(*produces),
            ConstructStep::Finished(_) => Awaits::Nothing,
        }
    }
}

/// The step after the prototype has been looked up.
pub open spec fn step_with_property(found: Result<Value, Error>) -> ConstructStep {
    match found {
        Ok(value) => ConstructStep::CoerceToObject(value),
        Err(error) => ConstructStep::Finished(Err(error)),
    }
}

/// What a construction results in after its invocation.
pub open spec fn produced(produces: Produces, outcome: Outcome) -> Result<Value, Error> {
    match (outcome.result(), produces) {
        (Ok(value), Produces::Returned) => Ok(value),
        (Ok(_), Produces::This(this)) => Ok(Value::Object(this)),
        (Err(error), _) => Err(error),
    }
}

/// What a construction produces after its invocation.
#[derive(Clone, Copy, Debug, PartialEq, Eq, Structural)]
pub enum Produces {
    /// The value that the invocation returned. Native constructors will return the constructed
    /// `this`. This allows for `new Object` etc. returning different types.
    Returned,
    /// The object that was constructed.
    This(Object),
}

/// The heap with a new function object and its prototype linked to each other.
pub open spec fn with_function(
    heap: HeapModel,
    function: Option<Executable>,
    constructor: Option<Executable>,
    fn_proto: Object,
    prototype: Object,
) -> HeapModel {
    let object = heap.next_object();
    heap.push(
        bare_object(
            ObjectKind::Function(FunctionObjectData { function, constructor }),
            Some(fn_proto),
        ),
    ).define(prototype, "constructor"@, Value::Object(object), Attribute::hidden()).define(
        object,
        "prototype"@,
        Value::Object(prototype),
        Attribute::none(),
    )
}

/// The heap with an object told which function constructs it.
pub open spec fn with_constructor_of(
    heap: HeapModel,
    this: Object,
    function: Object,
    swf_version: u8,
) -> HeapModel {
    let told = heap.define(
        this,
        "__constructor__"@,
        Value::Object(function),
        Attribute::hidden(),
    );
    if swf_version < FIRST_VERSION_WITHOUT_CONSTRUCTOR {
        told.define(this, "constructor"@, Value::Object(function), Attribute::hidden())
    } else {
        told
    }
}

impl FunctionObjectData {
    /// The code that constructs: the constructor, or else the function.
    pub open spec fn constructing(self) -> Option<Executable> {
        match self.constructor {
            Some(constructor) => Some(constructor),
            None => self.function,
        }
    }
}

impl FunctionObject {
    /// Construct a function sans prototype.
    pub fn bare_function(
        heap: &mut Heap,
        function: Option<Executable>,
        constructor: Option<Executable>,
        fn_proto: Object,
    ) -> (res: FunctionObject)
        requires
            old(heap).wf(),
        ensures
            final(heap).wf(),
            res.base == old(heap)@.next_object(),
            res.base.index == old(heap)@.objects.len(),
            final(heap)@ == old(heap)@.push(
                bare_object(
                    ObjectKind::Function(FunctionObjectData { function, constructor }),
                    Some(fn_proto),
                ),
            ),
    {
        let base = heap.allocate(
            ObjectKind::Function(FunctionObjectData { function, constructor }),
            Vec::new(),
            Some(fn_proto),
        );
        FunctionObject { base }
    }

    /// Construct a function with any combination of regular and constructor parts.
    ///
    /// `fn_proto` refers to the implicit proto of the function object, and the `prototype` refers
    /// to the explicit prototype of the function. The function and its prototype will be linked to
    /// each other.
    fn allocate_function(
        heap: &mut Heap,
        function: Option<Executable>,
        constructor: Option<Executable>,
        fn_proto: Object,
        prototype: Object,
    ) -> (res: Object)
        requires
            old(heap).wf(),
            old(heap)@.has(prototype),
        ensures
            final(heap).wf(),
            res == old(heap)@.next_object(),
            res.index == old(heap)@.objects.len(),
            final(heap)@ == with_function(
                old(heap)@,
                function,
                constructor,
                fn_proto,
                prototype,
            ),
    {
        let object = Object::from(Self::bare_function(heap, function, constructor, fn_proto));
        heap.define_value(
            prototype,
            AvmString::from_literal("constructor"),
            Value::Object(object),
            Attribute::dont_enum(),
        );
        heap.define_value(
            object,
            AvmString::from_literal("prototype"),
            Value::Object(prototype),
            Attribute::empty(),
        );
        object
    }

    /// Construct a regular function from an executable and associated protos.
    pub fn function<F: Into<Executable>>(
        heap: &mut Heap,
        function: F,
        fn_proto: Object,
        prototype: Object,
    ) -> (res: Object)
        requires
            old(heap).wf(),
            old(heap)@.has(prototype),
            call_requires(F::into, (function,)),
        ensures
            final(heap).wf(),
            res == old(heap)@.next_object(),
            res.index == old(heap)@.objects.len(),
            exists|executable: Executable| #[trigger]
                call_ensures(F::into, (function,), executable) && final(heap)@ == with_function(
                    old(heap)@,
                    Some(executable),
                    None,
                    fn_proto,
                    prototype,
                ),
    {
        let executable: Executable = function.into();
        Self::allocate_function(heap, Some(executable), None, fn_proto, prototype)
    }

    /// Construct a regular and constructor function from an executable and associated protos.
    pub fn constructor<C: Into<Executable>, F: Into<Executable>>(
        heap: &mut Heap,
        constructor: C,
        function: F,
        fn_proto: Object,
        prototype: Object,
    ) -> (res: Object)
        requires
            old(heap).wf(),
            old(heap)@.has(prototype),
            call_requires(C::into, (constructor,)),
            call_requires(F::into, (function,)),
        ensures
            final(heap).wf(),
            res == old(heap)@.next_object(),
            res.index == old(heap)@.objects.len(),
            exists|construct: Executable, call: Executable| #[trigger]
                call_ensures(C::into, (constructor,), construct) && #[trigger] call_ensures(
                    F::into,
                    (function,),
                    call,
                ) && final(heap)@ == with_function(
                    old(heap)@,
                    Some(call),
                    Some(construct),
                    fn_proto,
                    prototype,
                ),
    {
        let call: Executable = function.into();
        let construct: Executable = constructor.into();
        Self::allocate_function(heap, Some(call), Some(construct), fn_proto, prototype)
    }

    /// The code that will be invoked when the object is called.
    pub fn as_executable(&self, heap: &Heap) -> (res: Option<Executable>)
        requires
            heap@.is_function(self.base),
        ensures
            res == heap@.code(self.base).function,
    {
        match &heap.object(self.base).kind {
            ObjectKind::Function(data) => match &data.function {
                Some(function) => Some(function.clone()),
                None => None,
            },
            _ => None,
        }
    }

    /// The code that will be invoked when the object is constructed.
    fn as_constructor(&self, heap: &Heap) -> (res: Option<Executable>)
        requires
            heap@.is_function(self.base),
        ensures
            res == heap@.code(self.base).constructor,
    {
        match &heap.object(self.base).kind {
            ObjectKind::Function(data) => match &data.constructor {
                Some(constructor) => Some(constructor.clone()),
                None => None,
            },
            _ => None,
        }
    }

    /// Whether the object is a function object.
    pub fn is_function(&self, heap: &Heap) -> (res: bool)
        ensures
            res == heap@.is_function(self.base),
    {
        if !heap.contains(self.base) {
            return false;
        }
        match &heap.object(self.base).kind {
            ObjectKind::Function(_) => true,
            _ => false,
        }
    }

    /// The object is a function object whose code, if there is any, can be executed.
    pub open spec fn can_call(
        self,
        name: AvmString,
        activation: Activation,
        avm1: Avm1,
        heap: HeapModel,
        this: Value,
        args: Seq<Value>,
    ) -> bool {
        &&& heap.is_function(self.base)
        &&& heap.code(self.base).function matches Some(exec) ==> exec.can_exec(
            ExecutionName::Dynamic(name),
            activation,
            avm1,
            heap,
            this,
            0,
            args,
            ExecutionReason::FunctionCall,
            self.base,
        )
    }

    /// Whether the function object can be called.
    pub fn may_call(
        &self,
        name: &AvmString,
        activation: &Activation,
        avm1: &Avm1,
        heap: &Heap,
        this: &Value,
        args: &[Value],
    ) -> (res: bool)
        ensures
            res == self.can_call(*name, *activation, *avm1, heap@, *this, args@),
    {
        if !self.is_function(heap) {
            return false;
        }
        match self.as_executable(heap) {
            Some(exec) => exec.may_exec(
                &ExecutionName::Dynamic(name.clone()),
                activation,
                avm1,
                heap,
                this,
                0,
                args,
                ExecutionReason::FunctionCall,
                self.base,
            ),
            None => true,
        }
    }

    /// Calls the function object. One without code returns `undefined`.
    pub fn call(
        &self,
        name: AvmString,
        activation: &Activation,
        avm1: &Avm1,
        heap: &mut Heap,
        this: Value,
        args: &[Value],
    ) -> (res: Result<CallStep, Error>)
        requires
            old(heap).wf(),
            self.can_call(name, *activation, *avm1, old(heap)@, this, args@),
        ensures
            final(heap).wf(),
            match old(heap)@.code(self.base).function {
                Some(exec) => exists|executed: Result<Invocation, Error>| #[trigger]
                    exec.executes(
                        ExecutionName::Dynamic(name),
                        *activation,
                        *avm1,
                        old(heap)@,
                        final(heap)@,
                        this,
                        0,
                        args@,
                        ExecutionReason::FunctionCall,
                        self.base,
                        executed,
                    ) && res == match executed {
                        Ok(invocation) => Ok::<CallStep, Error>(CallStep::Invoke(invocation)),
                        Err(error) => Err(error),
                    },
                None => final(heap)@ == old(heap)@ && res == Ok::<CallStep, Error>(
                    CallStep::Finished(Value::Undefined),
                ),
            },
    {
        match self.as_executable(heap) {
            Some(exec) => {
                let executed = exec.exec(
                    &ExecutionName::Dynamic(name),
                    activation,
                    avm1,
                    heap,
                    this,
                    0,
                    args,
                    ExecutionReason::FunctionCall,
                    self.base,
                );
                match executed {
                    Ok(invocation) => Ok(CallStep::Invoke(invocation)),
                    Err(error) => Err(error),
                }
            },
            None => Ok(CallStep::Finished(Value::Undefined)),
        }
    }

    /// Tells an object which function constructs it.
    fn define_constructor_of(&self, heap: &mut Heap, this: Object, swf_version: u8)
        requires
            old(heap).wf(),
            old(heap)@.has(this),
        ensures
            final(heap).wf(),
            final(heap)@ == with_constructor_of(old(heap)@, this, self.base, swf_version),
    {
        heap.define_value(
            this,
            AvmString::from_literal("__constructor__"),
            Value::Object(self.base),
            Attribute::dont_enum(),
        );
        if swf_version < FIRST_VERSION_WITHOUT_CONSTRUCTOR {
            heap.define_value(
                this,
                AvmString::from_literal("constructor"),
                Value::Object(self.base),
                Attribute::dont_enum(),
            );
        }
    }

    /// The code that constructs, if there is any, can be executed on the object.
    pub open spec fn can_construct(
        self,
        activation: Activation,
        avm1: Avm1,
        heap: HeapModel,
        this: Object,
        args: Seq<Value>,
    ) -> bool {
        &&& heap.is_function(self.base)
        &&& heap.has(this)
        &&& heap.code(self.base).constructing() matches Some(exec) ==> exec.can_exec(
            ExecutionName::Static("[ctor]"),
            activation,
            avm1,
            heap,
            Value::Object(this),
            1,
            args,
            ExecutionReason::FunctionCall,
            self.base,
        )
    }

    /// Whether the code that constructs can be executed on the object.
    pub fn may_construct(
        &self,
        activation: &Activation,
        avm1: &Avm1,
        heap: &Heap,
        this: Object,
        args: &[Value],
    ) -> (res: bool)
        ensures
            res == self.can_construct(*activation, *avm1, heap@, this, args@),
    {
        if !(self.is_function(heap) && heap.contains(this)) {
            return false;
        }
        let code = match self.as_constructor(heap) {
            Some(constructor) => Some(constructor),
            None => self.as_executable(heap),
        };
        match code {
            Some(exec) => exec.may_exec(
                &ExecutionName::Static("[ctor]"),
                activation,
                avm1,
                heap,
                &Value::Object(this),
                1,
                args,
                ExecutionReason::FunctionCall,
                self.base,
            ),
            None => true,
        }
    }

    /// The code that constructs, if there is any, is executed on the object, which has been told
    /// of the function before.
    pub open spec fn constructs(
        self,
        activation: Activation,
        avm1: Avm1,
        before: HeapModel,
        after: HeapModel,
        this: Object,
        args: Seq<Value>,
        executed: Option<Result<Invocation, Error>>,
    ) -> bool {
        let told = with_constructor_of(before, this, self.base, activation.swf_version);
        match before.code(self.base).constructing() {
            Some(exec) => {
                &&& executed is Some
                &&& exec.executes(
                    ExecutionName::Static("[ctor]"),
                    activation,
                    avm1,
                    told,
                    after,
                    Value::Object(this),
                    1,
                    args,
                    ExecutionReason::FunctionCall,
                    self.base,
                    executed->Some_0,
                )
            },
            None => executed is None && after == told,
        }
    }

    /// Executes the code that constructs on an object.
    fn execute_constructing(
        &self,
        activation: &Activation,
        avm1: &Avm1,
        heap: &mut Heap,
        this: Object,
        args: &[Value],
    ) -> (res: Option<Result<Invocation, Error>>)
        requires
            old(heap).wf(),
            self.can_construct(*activation, *avm1, old(heap)@, this, args@),
        ensures
            final(heap).wf(),
            self.constructs(*activation, *avm1, old(heap)@, final(heap)@, this, args@, res),
    {
        let code = match self.as_constructor(heap) {
            Some(constructor) => Some(constructor),
            None => self.as_executable(heap),
        };
        self.define_constructor_of(heap, this, activation.swf_version());
        match code {
            Some(exec) => {
                proof {
                    told_can_exec(
                        exec,
                        *activation,
                        *avm1,
                        old(heap)@,
                        this,
                        self.base,
                        args@,
                    );
                }
                Some(
                    exec.exec(
                        &ExecutionName::Static("[ctor]"),
                        activation,
                        avm1,
                        heap,
                        Value::Object(this),
                        1,
                        args,
                        ExecutionReason::FunctionCall,
                        self.base,
                    ),
                )
            },
            None => None,
        }
    }

    /// Runs the constructor on an object that exists. What is invoked, if anything, is followed by
    /// `finish_construct_on_existing`.
    pub fn construct_on_existing(
        &self,
        activation: &Activation,
        avm1: &Avm1,
        heap: &mut Heap,
        this: Object,
        args: &[Value],
    ) -> (res: Result<Option<Invocation>, Error>)
        requires
            old(heap).wf(),
            self.can_construct(*activation, *avm1, old(heap)@, this, args@),
        ensures
            final(heap).wf(),
            exists|executed: Option<Result<Invocation, Error>>| #[trigger]
                self.constructs(
                    *activation,
                    *avm1,
                    old(heap)@,
                    final(heap)@,
                    this,
                    args@,
                    executed,
                ) && res == match executed {
                    Some(Ok(invocation)) => Ok::<Option<Invocation>, Error>(Some(invocation)),
                    Some(Err(error)) => Err(error),
                    None => Ok(None),
                },
    {
        match self.execute_constructing(activation, avm1, heap, this, args) {
            Some(Ok(invocation)) => Ok(Some(invocation)),
            Some(Err(error)) => Err(error),
            None => Ok(None),
        }
    }

    /// What a construction on an existing object results in: the value is discarded.
    pub fn finish_construct_on_existing(outcome: Outcome) -> (res: Result<(), Error>)
        ensures
            res == match outcome.result() {
                Ok(_) => Ok::<(), Error>(()),
                Err(error) => Err(error),
            },
    {
        match outcome.into_result() {
            Ok(_) => Ok(()),
            Err(error) => Err(error),
        }
    }

    /// Begins a construction: the prototype of the function is looked up.
    pub fn construct(&self) -> (res: ConstructStep)
        ensures
            res matches ConstructStep::GetProperty { object, name } && object == self.base && name@
                == "prototype"@,
    {
        ConstructStep::GetProperty { object: self.base, name: "prototype" }
    }

    /// Goes on when the prototype has been looked up.
    pub fn construct_with_property(found: Result<Value, Error>) -> (res: ConstructStep)
        ensures
            res == step_with_property(found),
    {
        match found {
            Ok(value) => ConstructStep::CoerceToObject(value),
            Err(error) => ConstructStep::Finished(Err(error)),
        }
    }

    /// Goes on when the prototype has been coerced to an object.
    pub fn construct_with_prototype(prototype: Object) -> (res: ConstructStep)
        ensures
            res == (ConstructStep::CreateBareObject { receiver: prototype, prototype }),
    {
        ConstructStep::CreateBareObject { receiver: prototype, prototype }
    }

    /// The step after the object has been created, or could not be, and what it does to the heap.
    pub open spec fn steps_with_object(
        self,
        created: Result<Object, Error>,
        activation: Activation,
        avm1: Avm1,
        before: HeapModel,
        after: HeapModel,
        args: Seq<Value>,
        step: ConstructStep,
    ) -> bool {
        match created {
            Ok(this) => exists|executed: Option<Result<Invocation, Error>>| #[trigger]
                self.constructs(activation, avm1, before, after, this, args, executed) && step
                    == match executed {
                    Some(Ok(invocation)) => ConstructStep::Invoke {
                        invocation,
                        produces: if before.code(self.base).constructor is Some {
                            Produces::Returned
                        } else {
                            Produces::This(this)
                        },
                    },
                    Some(Err(error)) => ConstructStep::Finished(Err(error)),
                    None => ConstructStep::Finished(Ok(Value::Undefined)),
                },
            Err(error) => after == before && step == ConstructStep::Finished(Err(error)),
        }
    }

    /// Goes on when the object has been created, or could not be.
    pub fn construct_with_object(
        &self,
        created: Result<Object, Error>,
        activation: &Activation,
        avm1: &Avm1,
        heap: &mut Heap,
        args: &[Value],
    ) -> (res: ConstructStep)
        requires
            old(heap).wf(),
            old(heap)@.is_function(self.base),
            created matches Ok(this) ==> self.can_construct(
                *activation,
                *avm1,
                old(heap)@,
                this,
                args@,
            ),
        ensures
            final(heap).wf(),
            self.steps_with_object(
                created,
                *activation,
                *avm1,
                old(heap)@,
                final(heap)@,
                args@,
                res,
            ),
    {
        let this = match created {
            Ok(this) => this,
            Err(error) => return ConstructStep::Finished(Err(error)),
        };
        let produces = if self.as_constructor(heap).is_some() {
            Produces::Returned
        } else {
            Produces::This(this)
        };
        match self.execute_constructing(activation, avm1, heap, this, args) {
            Some(Ok(invocation)) => ConstructStep::Invoke { invocation, produces },
            Some(Err(error)) => ConstructStep::Finished(Err(error)),
            None => ConstructStep::Finished(Ok(Value::Undefined)),
        }
    }

    /// What a construction results in.
    pub fn finish_construct(produces: Produces, outcome: Outcome) -> (res: Result<Value, Error>)
        ensures
            res == produced(produces, outcome),
    {
        match outcome.into_result() {
            Ok(value) => match produces {
                Produces::Returned => Ok(value),
                Produces::This(this) => Ok(Value::Object(this)),
            },
            Err(error) => Err(error),
        }
    }

    /// Goes on with a construction: from what it waits for and what it is told to the next step.
    /// There is no next step if it is told something else than it waits for.
    pub fn construct_step(
        &self,
        awaits: Awaits,
        event: ConstructEvent,
        activation: &Activation,
        avm1: &Avm1,
        heap: &mut Heap,
        args: &[Value],
    ) -> (res: Option<ConstructStep>)
        requires
            old(heap).wf(),
            old(heap)@.is_function(self.base),
            awaits is Object ==> (event matches ConstructEvent::Object(Ok(this))
                ==> self.can_construct(*activation, *avm1, old(heap)@, this, args@)),
        ensures
            final(heap).wf(),
            match (awaits, event) {
                (Awaits::Property, ConstructEvent::Property(found)) => {
                    &&& final(heap)@ == old(heap)@
                    &&& res == Some(step_with_property(found))
                },
                (Awaits::Prototype, ConstructEvent::Prototype(prototype)) => {
                    &&& final(heap)@ == old(heap)@
                    &&& res == Some(
                        (ConstructStep::CreateBareObject { receiver: prototype, prototype }),
                    )
                },
                (Awaits::Object, ConstructEvent::Object(created)) => {
                    &&& res is Some
                    &&& self.steps_with_object(
                        created,
                        *activation,
                        *avm1,
                        old(heap)@,
                        final(heap)@,
                        args@,
                        res->Some_0,
                    )
                },
                (Awaits::Outcome(produces), ConstructEvent::Outcome(outcome)) => {
                    &&& final(heap)@ == old(heap)@
                    &&& res == Some(ConstructStep::Finished(produced(produces, outcome)))
                },
                _ => final(heap)@ == old(heap)@ && res is None,
            },
    {
        match (awaits, event) {
            (Awaits::Property, ConstructEvent::Property(found)) => Some(
                Self::construct_with_property(found),
            ),
            (Awaits::Prototype, ConstructEvent::Prototype(prototype)) => Some(
                Self::construct_with_prototype(prototype),
            ),
            (Awaits::Object, ConstructEvent::Object(created)) => Some(
                self.construct_with_object(created, activation, avm1, heap, args),
            ),
            (Awaits::Outcome(produces), ConstructEvent::Outcome(outcome)) => Some(
                ConstructStep::Finished(Self::finish_construct(produces, outcome)),
            ),
            _ => None,
        }
    }

    /// Creates a function object without code that inherits from the prototype.
    pub fn create_bare_object(heap: &mut Heap, prototype: Object) -> (res: Result<Object, Error>)
        requires
            old(heap).wf(),
        ensures
            final(heap).wf(),
            res == Ok::<Object, Error>(old(heap)@.next_object()),
            res->Ok_0.index == old(heap)@.objects.len(),
            final(heap)@ == old(heap)@.push(
                bare_object(
                    ObjectKind::Function(FunctionObjectData { function: None, constructor: None }),
                    Some(prototype),
                ),
            ),
    {
        Ok(Self::bare_function(heap, None, None, prototype).base)
    }

    /// Defines a property.
    pub fn define_value(
        &self,
        heap: &mut Heap,
        name: AvmString,
        value: Value,
        attributes: Attribute,
    )
        requires
            old(heap).wf(),
            old(heap)@.has(self.base),
        ensures
            final(heap).wf(),
            final(heap)@ == old(heap)@.define(self.base, name@, value, attributes),
    {
        heap.define_value(self.base, name, value, attributes)
    }

    /// The object that the function object inherits from.
    pub fn proto(&self, heap: &Heap) -> (res: Value)
        requires
            heap@.has(self.base),
        ensures
            res == match heap@.object(self.base).proto {
                Some(proto) => Value::Object(proto),
                None => Value::Undefined,
            },
    {
        match heap.object(self.base).proto {
            Some(proto) => Value::Object(proto),
            None => Value::Undefined,
        }
    }

    /// The interfaces of the object.
    pub fn interfaces(&self, heap: &Heap) -> (res: Vec<Object>)
        requires
            heap@.has(self.base),
        ensures
            res@ == heap@.object(self.base).interfaces,
    {
        let list = &heap.object(self.base).interfaces;
        let mut res: Vec<Object> = Vec::new();
        let mut i: usize = 0;
        while i < list.len()
            invariant
                i <= list@.len(),
                res@ == list@.take(i as int),
            decreases list@.len() - i,
        {
            res.push(list[i]);
            i += 1;
            assert(res@ =~= list@.take(i as int));
        }
        assert(list@.take(list@.len() as int) =~= list@);
        res
    }

    /// Set the interface list for this object. (Only useful for prototypes.)
    pub fn set_interfaces(&self, heap: &mut Heap, iface_list: Vec<Object>)
        requires
            old(heap).wf(),
            old(heap)@.has(self.base),
        ensures
            final(heap).wf(),
            final(heap)@ == old(heap)@.with_interfaces(self.base, iface_list@),
    {
        heap.set_interfaces(self.base, iface_list)
    }

    /// The object itself.
    pub fn as_script_object(&self) -> (res: Option<Object>)
        ensures
            res == Some(self.base),
    {
        Some(self.base)
    }
}

/// Telling an object of its constructor leaves a call possible.
proof fn told_can_exec(
    exec: Executable,
    activation: Activation,
    avm1: Avm1,
    heap: HeapModel,
    this: Object,
    function: Object,
    args: Seq<Value>,
)
    requires
        heap.has(this),
        exec.can_exec(
            ExecutionName::Static("[ctor]"),
            activation,
            avm1,
            heap,
            Value::Object(this),
            1,
            args,
            ExecutionReason::FunctionCall,
            function,
        ),
    ensures
        exec.can_exec(
            ExecutionName::Static("[ctor]"),
            activation,
            avm1,
            with_constructor_of(heap, this, function, activation.swf_version),
            Value::Object(this),
            1,
            args,
            ExecutionReason::FunctionCall,
            function,
        ),
{
    let told = with_constructor_of(heap, this, function, activation.swf_version);
    assert forall|o: Object| heap.has(o) implies #[trigger] told.display_object(o)
        == heap.display_object(o) by {
        assert(told.object(o).kind == heap.object(o).kind);
    }
}

} // verus!
