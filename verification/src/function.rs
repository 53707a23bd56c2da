//! Function definitions: user-registered code with declared arguments and
//! named input and output slots, owned by a user and optionally public.

use vstd::prelude::*;
use vstd::string::StringExecFns;
use crate::file::{function_prefix, key_string_of, make_key_string, spec_starts_with,
    str_starts_with, ExternalID};
use crate::trusted::fresh_uuid;
use crate::value::{Value, ValueModel};
use crate::wire::{vec_of_value, vec_to_value, wire_seq, Wire};

verus! {

/// A declared input slot of a function.
pub ghost struct FunctionInputModel {
    pub name: Seq<char>,
    pub description: Seq<char>,
}

/// A declared input slot of a function.
#[derive(Debug, Clone, PartialEq)]
pub struct FunctionInput {
    pub name: String,
    pub description: String,
}

impl DeepView for FunctionInput {
    type V = FunctionInputModel;

    open spec fn deep_view(&self) -> FunctionInputModel {
        FunctionInputModel { name: self.name@, description: self.description@ }
    }
}

impl FunctionInput {
    /// Declares an input slot.
    pub fn new(name: String, description: String) -> (r: FunctionInput)
        ensures
            r.name@ == name@,
            r.description@ == description@,
    {
        FunctionInput { name, description }
    }
}

impl Wire for FunctionInput {
    open spec fn wire(m: FunctionInputModel) -> ValueModel {
        ValueModel::Pair(
            Box::new(ValueModel::Txt(m.name)),
            Box::new(ValueModel::Txt(m.description)),
        )
    }

    fn to_value(&self) -> (v: Value) {
        Value::pair(self.name.to_value(), self.description.to_value())
    }

    fn of_value(v: Value) -> (r: Option<FunctionInput>) {
        match v.into_pair() {
            Some((a, b)) => {
                match (a.into_txt(), b.into_txt()) {
                    (Some(name), Some(description)) => Some(FunctionInput { name, description }),
                    _ => None,
                }
            },
            None => None,
        }
    }
}

/// A declared output slot of a function.
pub ghost struct FunctionOutputModel {
    pub name: Seq<char>,
    pub description: Seq<char>,
}

/// A declared output slot of a function.
#[derive(Debug, Clone, PartialEq)]
pub struct FunctionOutput {
    pub name: String,
    pub description: String,
}

impl DeepView for FunctionOutput {
    type V = FunctionOutputModel;

    open spec fn deep_view(&self) -> FunctionOutputModel {
        FunctionOutputModel { name: self.name@, description: self.description@ }
    }
}

impl FunctionOutput {
    /// Declares an output slot.
    pub fn new(name: String, description: String) -> (r: FunctionOutput)
        ensures
            r.name@ == name@,
            r.description@ == description@,
    {
        FunctionOutput { name, description }
    }
}

impl Wire for FunctionOutput {
    open spec fn wire(m: FunctionOutputModel) -> ValueModel {
        ValueModel::Pair(
            Box::new(ValueModel::Txt(m.name)),
            Box::new(ValueModel::Txt(m.description)),
        )
    }

    fn to_value(&self) -> (v: Value) {
        Value::pair(self.name.to_value(), self.description.to_value())
    }

    fn of_value(v: Value) -> (r: Option<FunctionOutput>) {
        match v.into_pair() {
            Some((a, b)) => {
                match (a.into_txt(), b.into_txt()) {
                    (Some(name), Some(description)) => Some(FunctionOutput { name, description }),
                    _ => None,
                }
            },
            None => None,
        }
    }
}

impl Wire for Vec<FunctionInput> {
    open spec fn wire(m: Seq<FunctionInputModel>) -> ValueModel {
        wire_seq::<FunctionInput>(m)
    }

    fn to_value(&self) -> (v: Value) {
        vec_to_value(self)
    }

    fn of_value(v: Value) -> (r: Option<Vec<FunctionInput>>) {
        vec_of_value::<FunctionInput>(v)
    }
}

impl Wire for Vec<FunctionOutput> {
    open spec fn wire(m: Seq<FunctionOutputModel>) -> ValueModel {
        wire_seq::<FunctionOutput>(m)
    }

    fn to_value(&self) -> (v: Value) {
        vec_to_value(self)
    }

    fn of_value(v: Value) -> (r: Option<Vec<FunctionOutput>>) {
        vec_of_value::<FunctionOutput>(v)
    }
}

/// A registered function.
pub ghost struct FunctionModel {
    pub uuid: Seq<char>,
    pub name: Seq<char>,
    pub description: Seq<char>,
    pub payload: Seq<u8>,
    pub public: bool,
    pub executor_type: Seq<char>,
    pub owner: Seq<char>,
    pub arguments: Seq<Seq<char>>,
    pub inputs: Seq<FunctionInputModel>,
    pub outputs: Seq<FunctionOutputModel>,
}

/// A registered function.
#[derive(Debug, Clone, PartialEq)]
pub struct Function {
    pub uuid: String,
    pub name: String,
    pub description: String,
    pub payload: Vec<u8>,
    pub public: bool,
    pub executor_type: String,
    pub owner: String,
    pub arguments: Vec<String>,
    pub inputs: Vec<FunctionInput>,
    pub outputs: Vec<FunctionOutput>,
}

impl DeepView for Function {
    type V = FunctionModel;

    open spec fn deep_view(&self) -> FunctionModel {
        FunctionModel {
            uuid: self.uuid@,
            name: self.name@,
            description: self.description@,
            payload: self.payload.deep_view(),
            public: self.public,
            executor_type: self.executor_type@,
            owner: self.owner@,
            arguments: self.arguments.deep_view(),
            inputs: self.inputs.deep_view(),
            outputs: self.outputs.deep_view(),
        }
    }
}

impl Function {
    /// An empty private function with a fresh UUID, to be filled by the
    /// builder methods.
    pub fn new() -> (r: Function)
        ensures
            r.deep_view() == (FunctionModel {
                uuid: r.uuid@,
                name: Seq::<char>::empty(),
                description: Seq::<char>::empty(),
                payload: Seq::<u8>::empty(),
                public: false,
                executor_type: Seq::<char>::empty(),
                owner: Seq::<char>::empty(),
                arguments: Seq::<Seq<char>>::empty(),
                inputs: Seq::<FunctionInputModel>::empty(),
                outputs: Seq::<FunctionOutputModel>::empty(),
            }),
            r.uuid@.len() == 36,
    {
        let payload: Vec<u8> = Vec::new();
        let arguments: Vec<String> = Vec::new();
        let inputs: Vec<FunctionInput> = Vec::new();
        let outputs: Vec<FunctionOutput> = Vec::new();
        proof {
            assert(payload.deep_view() =~= Seq::<u8>::empty());
            assert(arguments.deep_view() =~= Seq::<Seq<char>>::empty());
            assert(inputs.deep_view() =~= Seq::<FunctionInputModel>::empty());
            assert(outputs.deep_view() =~= Seq::<FunctionOutputModel>::empty());
        }
        Function {
            uuid: fresh_uuid(),
            name: String::new(),
            description: String::new(),
            payload,
            public: false,
            executor_type: String::new(),
            owner: String::new(),
            arguments,
            inputs,
            outputs,
        }
    }

    /// Sets the identifier.
    pub fn id(self, uuid: String) -> (r: Function)
        ensures
            r.deep_view() == (FunctionModel { uuid: uuid@, ..self.deep_view() }),
    {
        Function { uuid, ..self }
    }

    /// Sets the name.
    pub fn name(self, name: String) -> (r: Function)
        ensures
            r.deep_view() == (FunctionModel { name: name@, ..self.deep_view() }),
    {
        Function { name, ..self }
    }

    /// Sets the description.
    pub fn description(self, description: String) -> (r: Function)
        ensures
            r.deep_view() == (FunctionModel { description: description@, ..self.deep_view() }),
    {
        Function { description, ..self }
    }

    /// Sets the payload.
    pub fn payload(self, payload: Vec<u8>) -> (r: Function)
        ensures
            r.deep_view() == (FunctionModel { payload: payload.deep_view(), ..self.deep_view() }),
    {
        Function { payload, ..self }
    }

    /// Sets whether the function is public.
    pub fn public(self, public: bool) -> (r: Function)
        ensures
            r.deep_view() == (FunctionModel { public: public, ..self.deep_view() }),
    {
        Function { public, ..self }
    }

    /// Sets the executor type.
    pub fn executor_type(self, executor_type: String) -> (r: Function)
        ensures
            r.deep_view() == (FunctionModel {
                executor_type: executor_type@,
                ..self.deep_view()
            }),
    {
        Function { executor_type, ..self }
    }

    /// Sets the owner.
    pub fn owner(self, owner: String) -> (r: Function)
        ensures
            r.deep_view() == (FunctionModel { owner: owner@, ..self.deep_view() }),
    {
        Function { owner, ..self }
    }

    /// Sets the argument names.
    pub fn arguments(self, arguments: Vec<String>) -> (r: Function)
        ensures
            r.deep_view() == (FunctionModel {
                arguments: arguments.deep_view(),
                ..self.deep_view()
            }),
    {
        Function { arguments, ..self }
    }

    /// Sets the input slots.
    pub fn inputs(self, inputs: Vec<FunctionInput>) -> (r: Function)
        ensures
            r.deep_view() == (FunctionModel { inputs: inputs.deep_view(), ..self.deep_view() }),
    {
        Function { inputs, ..self }
    }

    /// Sets the output slots.
    pub fn outputs(self, outputs: Vec<FunctionOutput>) -> (r: Function)
        ensures
            r.deep_view() == (FunctionModel { outputs: outputs.deep_view(), ..self.deep_view() }),
    {
        Function { outputs, ..self }
    }

    /// The external identifier of this function.
    pub fn external_id(&self) -> (r: ExternalID)
        ensures
            r.prefix@ == function_prefix(),
            r.uuid@ == self.uuid@,
    {
        ExternalID { prefix: String::from_str("function"), uuid: self.uuid.clone() }
    }

    /// The key string this function is stored under.
    pub fn key_string(&self) -> (r: String)
        ensures
            r@ == key_string_of(function_prefix(), self.uuid@),
    {
        make_key_string("function", &self.uuid)
    }

    /// Whether a key belongs to the function key space.
    pub fn match_prefix(key: &String) -> (r: bool)
        ensures
            r == spec_starts_with(key@, function_prefix()),
    {
        str_starts_with(key, "function")
    }
}

impl Wire for Function {
    open spec fn wire(m: FunctionModel) -> ValueModel {
        ValueModel::Pair(
            Box::new(ValueModel::Txt(m.uuid)),
            Box::new(
                ValueModel::Pair(
                    Box::new(ValueModel::Txt(m.name)),
                    Box::new(
                        ValueModel::Pair(
                            Box::new(ValueModel::Txt(m.description)),
                            Box::new(
                                ValueModel::Pair(
                                    Box::new(ValueModel::Bin(m.payload)),
                                    Box::new(
                                        ValueModel::Pair(
                                            Box::new(<bool as Wire>::wire(m.public)),
                                            Box::new(
                                                ValueModel::Pair(
                                                    Box::new(ValueModel::Txt(m.executor_type)),
                                                    Box::new(
                                                        ValueModel::Pair(
                                                            Box::new(ValueModel::Txt(m.owner)),
                                                            Box::new(
                                                                ValueModel::Pair(
                                                                    Box::new(
                                                                        <Vec<String> as Wire>::wire(
                                                                            m.arguments,
                                                                        ),
                                                                    ),
                                                                    Box::new(
                                                                        ValueModel::Pair(
                                                                            Box::new(
                                                                                <Vec<
                                                                                    FunctionInput,
                                                                                > as Wire>::wire(
                                                                                    m.inputs,
                                                                                ),
                                                                            ),
                                                                            Box::new(
                                                                                <Vec<
                                                                                    FunctionOutput,
                                                                                > as Wire>::wire(
                                                                                    m.outputs,
                                                                                ),
                                                                            ),
                                                                        ),
                                                                    ),
                                                                ),
                                                            ),
                                                        ),
                                                    ),
                                                ),
                                            ),
                                        ),
                                    ),
                                ),
                            ),
                        ),
                    ),
                ),
            ),
        )
    }

    fn to_value(&self) -> (v: Value) {
        Value::pair(
            self.uuid.to_value(),
            Value::pair(
                self.name.to_value(),
                Value::pair(
                    self.description.to_value(),
                    Value::pair(
                        self.payload.to_value(),
                        Value::pair(
                            self.public.to_value(),
                            Value::pair(
                                self.executor_type.to_value(),
                                Value::pair(
                                    self.owner.to_value(),
                                    Value::pair(
                                        self.arguments.to_value(),
                                        Value::pair(
                                            self.inputs.to_value(),
                                            self.outputs.to_value(),
                                        ),
                                    ),
                                ),
                            ),
                        ),
                    ),
                ),
            ),
        )
    }

    fn of_value(v: Value) -> (r: Option<Function>) {
        let (vuuid, rest1) = match v.into_pair() {
            Some(p) => p,
            None => {
                return None;
            },
        };
        let (vname, rest2) = match rest1.into_pair() {
            Some(p) => p,
            None => {
                return None;
            },
        };
        let (vdesc, rest3) = match rest2.into_pair() {
            Some(p) => p,
            None => {
                return None;
            },
        };
        let (vpayload, rest4) = match rest3.into_pair() {
            Some(p) => p,
            None => {
                return None;
            },
        };
        let (vpublic, rest5) = match rest4.into_pair() {
            Some(p) => p,
            None => {
                return None;
            },
        };
        let (vexec, rest6) = match rest5.into_pair() {
            Some(p) => p,
            None => {
                return None;
            },
        };
        let (vowner, rest7) = match rest6.into_pair() {
            Some(p) => p,
            None => {
                return None;
            },
        };
        let (vargs, rest8) = match rest7.into_pair() {
            Some(p) => p,
            None => {
                return None;
            },
        };
        let (vinputs, voutputs) = match rest8.into_pair() {
            Some(p) => p,
            None => {
                return None;
            },
        };
        match (
            vuuid.into_txt(),
            vname.into_txt(),
            vdesc.into_txt(),
            vpayload.into_bin(),
            <bool as Wire>::of_value(vpublic),
            vexec.into_txt(),
            vowner.into_txt(),
            <Vec<String> as Wire>::of_value(vargs),
            <Vec<FunctionInput> as Wire>::of_value(vinputs),
            <Vec<FunctionOutput> as Wire>::of_value(voutputs),
        ) {
            (
                Some(uuid),
                Some(name),
                Some(description),
                Some(payload),
                Some(public),
                Some(executor_type),
                Some(owner),
                Some(arguments),
                Some(inputs),
                Some(outputs),
            ) => Some(
                Function {
                    uuid,
                    name,
                    description,
                    payload,
                    public,
                    executor_type,
                    owner,
                    arguments,
                    inputs,
                    outputs,
                },
            ),
            _ => None,
        }
    }
}

} // verus!
