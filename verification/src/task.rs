//! The task entity and its approval/assignment state machine, together with
//! the staged-task record that an approved task is compiled into when it is
//! dispatched onto the execution queue.

use vstd::prelude::*;
use vstd::string::StringExecFns;
use crate::errors::ServiceError;
use crate::file::{key_string_of, make_key_string, spec_starts_with, str_starts_with, task_prefix,
    ExternalID, ExternalIDModel, FileCrypto, FileCryptoModel, InputFileModel, OutputFileModel,
    TeaclaveInputFile, TeaclaveOutputFile};
use crate::function::Function;
use crate::owners::{str_set_eq, vec_contains_str};
use crate::status::TaskStatus;
use crate::strmap::{map_contains, map_find, map_keys_distinct, same_keys, lemma_find_exists,
    StringMap};
use crate::trusted::fresh_uuid;
use crate::value::{Value, ValueModel};
use crate::wire::Wire;

verus! {

impl DeepView for TaskStatus {
    type V = TaskStatus;

    open spec fn deep_view(&self) -> TaskStatus {
        *self
    }
}

/// The wire number of a status.
pub open spec fn status_num(s: TaskStatus) -> u64 {
    match s {
        TaskStatus::Created => 0,
        TaskStatus::DataAssigned => 1,
        TaskStatus::Approved => 2,
        TaskStatus::Staged => 3,
        TaskStatus::Running => 4,
        TaskStatus::Finished => 5,
    }
}

impl Wire for TaskStatus {
    open spec fn wire(m: TaskStatus) -> ValueModel {
        ValueModel::Num(status_num(m))
    }

    fn to_value(&self) -> (v: Value) {
        Value::Num(
            match self {
                TaskStatus::Created => 0,
                TaskStatus::DataAssigned => 1,
                TaskStatus::Approved => 2,
                TaskStatus::Staged => 3,
                TaskStatus::Running => 4,
                TaskStatus::Finished => 5,
            },
        )
    }

    fn of_value(v: Value) -> (r: Option<TaskStatus>) {
        match v.into_num() {
            Some(0u64) => Some(TaskStatus::Created),
            Some(1u64) => Some(TaskStatus::DataAssigned),
            Some(2u64) => Some(TaskStatus::Approved),
            Some(3u64) => Some(TaskStatus::Staged),
            Some(4u64) => Some(TaskStatus::Running),
            Some(5u64) => Some(TaskStatus::Finished),
            _ => None,
        }
    }
}

/// The products of a finished task.
pub ghost struct TaskOutputsModel {
    pub return_value: Seq<u8>,
    pub tags_map: Seq<(Seq<char>, Seq<u8>)>,
}

/// The products of a finished task: its return value and, for each output
/// slot, the authentication tag of the finalized file.
#[derive(Debug, Clone, PartialEq)]
pub struct TaskOutputs {
    pub return_value: Vec<u8>,
    pub tags_map: StringMap<Vec<u8>>,
}

impl DeepView for TaskOutputs {
    type V = TaskOutputsModel;

    open spec fn deep_view(&self) -> TaskOutputsModel {
        TaskOutputsModel {
            return_value: self.return_value.deep_view(),
            tags_map: self.tags_map.deep_view(),
        }
    }
}

impl Wire for TaskOutputs {
    open spec fn wire(m: TaskOutputsModel) -> ValueModel {
        ValueModel::Pair(
            Box::new(ValueModel::Bin(m.return_value)),
            Box::new(<StringMap<Vec<u8>> as Wire>::wire(m.tags_map)),
        )
    }

    fn to_value(&self) -> (v: Value) {
        Value::pair(self.return_value.to_value(), self.tags_map.to_value())
    }

    fn of_value(v: Value) -> (r: Option<TaskOutputs>) {
        match v.into_pair() {
            Some((a, b)) => {
                match (a.into_bin(), <StringMap<Vec<u8>> as Wire>::of_value(b)) {
                    (Some(return_value), Some(tags_map)) => Some(
                        TaskOutputs { return_value, tags_map },
                    ),
                    _ => None,
                }
            },
            None => None,
        }
    }
}

/// Why a task failed.
pub ghost struct TaskFailureModel {
    pub reason: Seq<char>,
}

/// Why a task failed.
#[derive(Debug, Clone, PartialEq)]
pub struct TaskFailure {
    pub reason: String,
}

impl DeepView for TaskFailure {
    type V = TaskFailureModel;

    open spec fn deep_view(&self) -> TaskFailureModel {
        TaskFailureModel { reason: self.reason@ }
    }
}

impl Wire for TaskFailure {
    open spec fn wire(m: TaskFailureModel) -> ValueModel {
        ValueModel::Pair(Box::new(ValueModel::Txt(m.reason)), Box::new(ValueModel::Unit))
    }

    fn to_value(&self) -> (v: Value) {
        Value::pair(self.reason.to_value(), Value::unit())
    }

    fn of_value(v: Value) -> (r: Option<TaskFailure>) {
        match v.into_pair() {
            Some((a, b)) => {
                if !b.is_unit() {
                    return None;
                }
                match a.into_txt() {
                    Some(reason) => Some(TaskFailure { reason }),
                    None => None,
                }
            },
            None => None,
        }
    }
}

/// The result slot of a task.
pub ghost enum TaskResultModel {
    NotReady,
    Done(TaskOutputsModel),
    Failed(TaskFailureModel),
}

/// The result slot of a task: nothing until execution completes, then the
/// outputs of a successful run or the reason for a failed one.
#[derive(Debug, Clone, PartialEq)]
pub enum TaskResult {
    NotReady,
    Done(TaskOutputs),
    Failed(TaskFailure),
}

impl DeepView for TaskResult {
    type V = TaskResultModel;

    open spec fn deep_view(&self) -> TaskResultModel {
        match self {
            TaskResult::NotReady => TaskResultModel::NotReady,
            TaskResult::Done(o) => TaskResultModel::Done(o.deep_view()),
            TaskResult::Failed(f) => TaskResultModel::Failed(f.deep_view()),
        }
    }
}

impl Wire for TaskResult {
    open spec fn wire(m: TaskResultModel) -> ValueModel {
        match m {
            TaskResultModel::NotReady => ValueModel::Num(0),
            TaskResultModel::Done(o) => ValueModel::Pair(
                Box::new(ValueModel::Num(1)),
                Box::new(TaskOutputs::wire(o)),
            ),
            TaskResultModel::Failed(f) => ValueModel::Pair(
                Box::new(ValueModel::Num(2)),
                Box::new(TaskFailure::wire(f)),
            ),
        }
    }

    fn to_value(&self) -> (v: Value) {
        match self {
            TaskResult::NotReady => Value::Num(0),
            TaskResult::Done(o) => Value::pair(Value::Num(1), o.to_value()),
            TaskResult::Failed(f) => Value::pair(Value::Num(2), f.to_value()),
        }
    }

    fn of_value(v: Value) -> (r: Option<TaskResult>) {
        match v {
            Value::Num(0u64) => Some(TaskResult::NotReady),
            Value::Pair(tag, payload) => {
                let t = match (*tag).into_num() {
                    Some(t) => t,
                    None => {
                        return None;
                    },
                };
                if t == 1 {
                    match TaskOutputs::of_value(*payload) {
                        Some(o) => Some(TaskResult::Done(o)),
                        None => None,
                    }
                } else if t == 2 {
                    match TaskFailure::of_value(*payload) {
                        Some(f) => Some(TaskResult::Failed(f)),
                        None => None,
                    }
                } else {
                    None
                }
            },
            _ => None,
        }
    }
}

/// A file reference handed to the executor for an input slot.
pub ghost struct FunctionInputFileModel {
    pub url: Seq<char>,
    pub cmac: Seq<u8>,
    pub crypto_info: FileCryptoModel,
}

/// A file reference handed to the executor for an input slot.
#[derive(Debug, Clone, PartialEq)]
pub struct FunctionInputFile {
    pub url: String,
    pub cmac: Vec<u8>,
    pub crypto_info: FileCrypto,
}

impl DeepView for FunctionInputFile {
    type V = FunctionInputFileModel;

    open spec fn deep_view(&self) -> FunctionInputFileModel {
        FunctionInputFileModel {
            url: self.url@,
            cmac: self.cmac.deep_view(),
            crypto_info: self.crypto_info.deep_view(),
        }
    }
}

impl FunctionInputFile {
    /// The reference the executor gets for an assigned input file.
    pub open spec fn of_input_model(m: InputFileModel) -> FunctionInputFileModel {
        FunctionInputFileModel { url: m.url, cmac: m.cmac, crypto_info: m.crypto_info }
    }

    /// Builds the executor-facing reference for an input file.
    pub fn from_teaclave_file(f: &TeaclaveInputFile) -> (r: FunctionInputFile)
        ensures
            r.deep_view() == Self::of_input_model(f.deep_view()),
    {
        FunctionInputFile {
            url: f.url.clone(),
            cmac: vstd::slice::slice_to_vec(f.cmac.as_slice()),
            crypto_info: f.crypto_info.duplicate(),
        }
    }
}

impl Wire for FunctionInputFile {
    open spec fn wire(m: FunctionInputFileModel) -> ValueModel {
        ValueModel::Pair(
            Box::new(ValueModel::Txt(m.url)),
            Box::new(
                ValueModel::Pair(
                    Box::new(ValueModel::Bin(m.cmac)),
                    Box::new(FileCrypto::wire(m.crypto_info)),
                ),
            ),
        )
    }

    fn to_value(&self) -> (v: Value) {
        Value::pair(
            self.url.to_value(),
            Value::pair(self.cmac.to_value(), self.crypto_info.to_value()),
        )
    }

    fn of_value(v: Value) -> (r: Option<FunctionInputFile>) {
        match v.into_pair() {
            Some((a, rest)) => {
                match rest.into_pair() {
                    Some((b, c)) => {
                        match (a.into_txt(), b.into_bin(), FileCrypto::of_value(c)) {
                            (Some(url), Some(cmac), Some(crypto_info)) => Some(
                                FunctionInputFile { url, cmac, crypto_info },
                            ),
                            _ => None,
                        }
                    },
                    None => None,
                }
            },
            None => None,
        }
    }
}

/// A file reference handed to the executor for an output slot.
pub ghost struct FunctionOutputFileModel {
    pub url: Seq<char>,
    pub crypto_info: FileCryptoModel,
}

/// A file reference handed to the executor for an output slot.
#[derive(Debug, Clone, PartialEq)]
pub struct FunctionOutputFile {
    pub url: String,
    pub crypto_info: FileCrypto,
}

impl DeepView for FunctionOutputFile {
    type V = FunctionOutputFileModel;

    open spec fn deep_view(&self) -> FunctionOutputFileModel {
        FunctionOutputFileModel { url: self.url@, crypto_info: self.crypto_info.deep_view() }
    }
}

impl FunctionOutputFile {
    /// The reference the executor gets for an assigned output file.
    pub open spec fn of_output_model(m: OutputFileModel) -> FunctionOutputFileModel {
        FunctionOutputFileModel { url: m.url, crypto_info: m.crypto_info }
    }

    /// Builds the executor-facing reference for an output file.
    pub fn from_teaclave_file(f: &TeaclaveOutputFile) -> (r: FunctionOutputFile)
        ensures
            r.deep_view() == Self::of_output_model(f.deep_view()),
    {
        FunctionOutputFile { url: f.url.clone(), crypto_info: f.crypto_info.duplicate() }
    }
}

impl Wire for FunctionOutputFile {
    open spec fn wire(m: FunctionOutputFileModel) -> ValueModel {
        ValueModel::Pair(
            Box::new(ValueModel::Txt(m.url)),
            Box::new(FileCrypto::wire(m.crypto_info)),
        )
    }

    fn to_value(&self) -> (v: Value) {
        Value::pair(self.url.to_value(), self.crypto_info.to_value())
    }

    fn of_value(v: Value) -> (r: Option<FunctionOutputFile>) {
        match v.into_pair() {
            Some((a, b)) => {
                match (a.into_txt(), FileCrypto::of_value(b)) {
                    (Some(url), Some(crypto_info)) => Some(FunctionOutputFile { url, crypto_info }),
                    _ => None,
                }
            },
            None => None,
        }
    }
}

/// The executor-facing description of a runnable task.
pub ghost struct StagedTaskModel {
    pub task_id: Seq<char>,
    pub executor: Seq<char>,
    pub function_payload: Seq<u8>,
    pub function_arguments: Seq<(Seq<char>, Seq<char>)>,
    pub input_data: Seq<(Seq<char>, FunctionInputFileModel)>,
    pub output_data: Seq<(Seq<char>, FunctionOutputFileModel)>,
}

/// The executor-facing description of a runnable task, delivered over the
/// staged queue.
#[derive(Debug, Clone, PartialEq)]
pub struct StagedTask {
    pub task_id: String,
    pub executor: String,
    pub function_payload: Vec<u8>,
    pub function_arguments: StringMap<String>,
    pub input_data: StringMap<FunctionInputFile>,
    pub output_data: StringMap<FunctionOutputFile>,
}

impl DeepView for StagedTask {
    type V = StagedTaskModel;

    open spec fn deep_view(&self) -> StagedTaskModel {
        StagedTaskModel {
            task_id: self.task_id@,
            executor: self.executor@,
            function_payload: self.function_payload.deep_view(),
            function_arguments: self.function_arguments.deep_view(),
            input_data: self.input_data.deep_view(),
            output_data: self.output_data.deep_view(),
        }
    }
}

impl StagedTask {
    /// An empty staged task, to be filled by the builder methods.
    pub fn new() -> (r: StagedTask)
        ensures
            r.deep_view() == (StagedTaskModel {
                task_id: Seq::<char>::empty(),
                executor: Seq::<char>::empty(),
                function_payload: Seq::<u8>::empty(),
                function_arguments: Seq::<(Seq<char>, Seq<char>)>::empty(),
                input_data: Seq::<(Seq<char>, FunctionInputFileModel)>::empty(),
                output_data: Seq::<(Seq<char>, FunctionOutputFileModel)>::empty(),
            }),
    {
        let function_payload: Vec<u8> = Vec::new();
        proof {
            assert(function_payload.deep_view() =~= Seq::<u8>::empty());
        }
        StagedTask {
            task_id: String::new(),
            executor: String::new(),
            function_payload,
            function_arguments: StringMap::new(),
            input_data: StringMap::new(),
            output_data: StringMap::new(),
        }
    }

    /// Sets the task identifier.
    pub fn task_id(self, task_id: String) -> (r: StagedTask)
        ensures
            r.deep_view() == (StagedTaskModel { task_id: task_id@, ..self.deep_view() }),
    {
        StagedTask { task_id, ..self }
    }

    /// Sets the executor.
    pub fn executor(self, executor: String) -> (r: StagedTask)
        ensures
            r.deep_view() == (StagedTaskModel { executor: executor@, ..self.deep_view() }),
    {
        StagedTask { executor, ..self }
    }

    /// Sets the function payload.
    pub fn function_payload(self, function_payload: Vec<u8>) -> (r: StagedTask)
        ensures
            r.deep_view() == (StagedTaskModel {
                function_payload: function_payload.deep_view(),
                ..self.deep_view()
            }),
    {
        StagedTask { function_payload, ..self }
    }

    /// Sets the function arguments.
    pub fn function_arguments(self, function_arguments: StringMap<String>) -> (r: StagedTask)
        ensures
            r.deep_view() == (StagedTaskModel {
                function_arguments: function_arguments.deep_view(),
                ..self.deep_view()
            }),
    {
        StagedTask { function_arguments, ..self }
    }

    /// Sets the input file references.
    pub fn input_data(self, input_data: StringMap<FunctionInputFile>) -> (r: StagedTask)
        ensures
            r.deep_view() == (StagedTaskModel {
                input_data: input_data.deep_view(),
                ..self.deep_view()
            }),
    {
        StagedTask { input_data, ..self }
    }

    /// Sets the output file references.
    pub fn output_data(self, output_data: StringMap<FunctionOutputFile>) -> (r: StagedTask)
        ensures
            r.deep_view() == (StagedTaskModel {
                output_data: output_data.deep_view(),
                ..self.deep_view()
            }),
    {
        StagedTask { output_data, ..self }
    }

    /// The key of the queue that staged tasks are delivered on.
    pub fn get_queue_key() -> (r: String)
        ensures
            r@ == "staged-task"@,
    {
        String::from_str("staged-task")
    }
}

impl Wire for StagedTask {
    open spec fn wire(m: StagedTaskModel) -> ValueModel {
        ValueModel::Pair(
            Box::new(ValueModel::Txt(m.task_id)),
            Box::new(
                ValueModel::Pair(
                    Box::new(ValueModel::Txt(m.executor)),
                    Box::new(
                        ValueModel::Pair(
                            Box::new(ValueModel::Bin(m.function_payload)),
                            Box::new(
                                ValueModel::Pair(
                                    Box::new(
                                        <StringMap<String> as Wire>::wire(m.function_arguments),
                                    ),
                                    Box::new(
                                        ValueModel::Pair(
                                            Box::new(
                                                <StringMap<FunctionInputFile> as Wire>::wire(
                                                    m.input_data,
                                                ),
                                            ),
                                            Box::new(
                                                <StringMap<FunctionOutputFile> as Wire>::wire(
                                                    m.output_data,
                                                ),
                                            ),
                                        ),
                                    ),
                                ),
                            ),
                        ),
                    ),
                ),
            ),
        )
    }

    fn to_value(&self) -> (v: Value) {
        Value::pair(
            self.task_id.to_value(),
            Value::pair(
                self.executor.to_value(),
                Value::pair(
                    self.function_payload.to_value(),
                    Value::pair(
                        self.function_arguments.to_value(),
                        Value::pair(self.input_data.to_value(), self.output_data.to_value()),
                    ),
                ),
            ),
        )
    }

    fn of_value(v: Value) -> (r: Option<StagedTask>) {
        let (vid, rest1) = match v.into_pair() {
            Some(p) => p,
            None => {
                return None;
            },
        };
        let (vexec, rest2) = match rest1.into_pair() {
            Some(p) => p,
            None => {
                return None;
            },
        };
        let (vpayload, rest3) = match rest2.into_pair() {
            Some(p) => p,
            None => {
                return None;
            },
        };
        let (vargs, rest4) = match rest3.into_pair() {
            Some(p) => p,
            None => {
                return None;
            },
        };
        let (vin, vout) = match rest4.into_pair() {
            Some(p) => p,
            None => {
                return None;
            },
        };
        match (
            vid.into_txt(),
            vexec.into_txt(),
            vpayload.into_bin(),
            <StringMap<String> as Wire>::of_value(vargs),
            <StringMap<FunctionInputFile> as Wire>::of_value(vin),
            <StringMap<FunctionOutputFile> as Wire>::of_value(vout),
        ) {
            (
                Some(task_id),
                Some(executor),
                Some(function_payload),
                Some(function_arguments),
                Some(input_data),
                Some(output_data),
            ) => Some(
                StagedTask {
                    task_id,
                    executor,
                    function_payload,
                    function_arguments,
                    input_data,
                    output_data,
                },
            ),
            _ => None,
        }
    }
}

/// A multi-party task.
pub ghost struct TaskModel {
    pub uuid: Seq<char>,
    pub creator: Seq<char>,
    pub function_id: ExternalIDModel,
    pub function_owner: Seq<char>,
    pub executor: Seq<char>,
    pub function_arguments: Seq<(Seq<char>, Seq<char>)>,
    pub inputs_ownership: Seq<(Seq<char>, Seq<Seq<char>>)>,
    pub outputs_ownership: Seq<(Seq<char>, Seq<Seq<char>>)>,
    pub participants: Seq<Seq<char>>,
    pub approved_users: Seq<Seq<char>>,
    pub assigned_inputs: Seq<(Seq<char>, InputFileModel)>,
    pub assigned_outputs: Seq<(Seq<char>, OutputFileModel)>,
    pub result: TaskResultModel,
    pub status: TaskStatus,
}

/// Every declared input and output slot carries an assignment.
pub open spec fn fully_assigned(t: TaskModel) -> bool {
    same_keys(t.assigned_inputs, t.inputs_ownership) && same_keys(
        t.assigned_outputs,
        t.outputs_ownership,
    )
}

/// Every participant other than the creator has approved.
pub open spec fn fully_approved(t: TaskModel) -> bool {
    forall|u: Seq<char>|
        t.participants.contains(u) && u != t.creator ==> #[trigger] t.approved_users.contains(u)
}

/// The status recomputed after an assignment or approval: a fully assigned
/// task leaves `Created`; once also fully approved it becomes `Approved`.
/// Later states never change here.
pub open spec fn step_status(t: TaskModel) -> TaskStatus {
    if t.status is Created || t.status is DataAssigned {
        if fully_assigned(t) {
            if fully_approved(t) {
                TaskStatus::Approved
            } else {
                TaskStatus::DataAssigned
            }
        } else {
            t.status
        }
    } else {
        t.status
    }
}

/// The recomputed status never precedes the current one: task status never
/// regresses.
pub proof fn lemma_step_status_monotone(t: TaskModel)
    ensures
        crate::status::status_le(t.status, step_status(t)),
{
}

/// Once every declared slot of a task in `Created` or `DataAssigned` is
/// assigned, recomputation advances it to `DataAssigned`, or directly to
/// `Approved` when no other participant's consent is outstanding.
pub proof fn lemma_full_assignment_advances(t: TaskModel)
    requires
        t.status is Created || t.status is DataAssigned,
        fully_assigned(t),
    ensures
        step_status(t) == if fully_approved(t) {
            TaskStatus::Approved
        } else {
            TaskStatus::DataAssigned
        },
{
}

/// Once every participant other than the creator has approved a fully
/// assigned task awaiting consent, recomputation makes it `Approved`.
pub proof fn lemma_all_approved_status(t: TaskModel)
    requires
        t.status is DataAssigned,
        fully_assigned(t),
        fully_approved(t),
    ensures
        step_status(t) == TaskStatus::Approved,
{
}

/// Approving again is a no-op: adding a user already in the approval set
/// leaves the set as it is, and a task whose stored status is already
/// settled (as every status the service writes is) keeps it.
pub proof fn lemma_repeat_approve_no_op(t: TaskModel, u: Seq<char>)
    requires
        t.approved_users.contains(u),
        t.status == step_status(t),
    ensures
        (TaskModel {
            approved_users: if t.approved_users.contains(u) {
                t.approved_users
            } else {
                t.approved_users.push(u)
            },
            status: step_status(
                TaskModel {
                    approved_users: if t.approved_users.contains(u) {
                        t.approved_users
                    } else {
                        t.approved_users.push(u)
                    },
                    ..t
                },
            ),
            ..t
        }) == t,
{
    assert(TaskModel { approved_users: t.approved_users, ..t } == t);
}

/// A multi-party task: a function bound to declared data slots, the users
/// who must consent, and the record of what has been assigned and approved.
#[derive(Debug, Clone, PartialEq)]
pub struct Task {
    pub uuid: String,
    pub creator: String,
    pub function_id: ExternalID,
    pub function_owner: String,
    pub executor: String,
    pub function_arguments: StringMap<String>,
    pub inputs_ownership: StringMap<Vec<String>>,
    pub outputs_ownership: StringMap<Vec<String>>,
    pub participants: Vec<String>,
    pub approved_users: Vec<String>,
    pub assigned_inputs: StringMap<TeaclaveInputFile>,
    pub assigned_outputs: StringMap<TeaclaveOutputFile>,
    pub result: TaskResult,
    pub status: TaskStatus,
}

impl DeepView for Task {
    type V = TaskModel;

    open spec fn deep_view(&self) -> TaskModel {
        TaskModel {
            uuid: self.uuid@,
            creator: self.creator@,
            function_id: self.function_id.deep_view(),
            function_owner: self.function_owner@,
            executor: self.executor@,
            function_arguments: self.function_arguments.deep_view(),
            inputs_ownership: self.inputs_ownership.deep_view(),
            outputs_ownership: self.outputs_ownership.deep_view(),
            participants: self.participants.deep_view(),
            approved_users: self.approved_users.deep_view(),
            assigned_inputs: self.assigned_inputs.deep_view(),
            assigned_outputs: self.assigned_outputs.deep_view(),
            result: self.result.deep_view(),
            status: self.status,
        }
    }
}

/// The structural invariant of a task.
pub open spec fn task_wf(t: TaskModel) -> bool {
    &&& t.participants.contains(t.creator)
    &&& (forall|u: Seq<char>|
        #[trigger] t.approved_users.contains(u) ==> t.participants.contains(u))
    &&& map_keys_distinct(t.function_arguments)
    &&& map_keys_distinct(t.inputs_ownership)
    &&& map_keys_distinct(t.outputs_ownership)
    &&& map_keys_distinct(t.assigned_inputs)
    &&& map_keys_distinct(t.assigned_outputs)
    &&& (forall|q: Seq<char>|
        #[trigger] map_contains(t.assigned_inputs, q) ==> map_contains(t.inputs_ownership, q))
    &&& (forall|q: Seq<char>|
        #[trigger] map_contains(t.assigned_outputs, q) ==> map_contains(t.outputs_ownership, q))
    &&& (t.status is DataAssigned ==> fully_assigned(t))
    &&& ((t.status is Approved || t.status is Staged) ==> fully_assigned(t) && fully_approved(t))
}

/// Membership in a concatenation is membership in either part.
pub proof fn lemma_concat_contains(a: Seq<Seq<char>>, b: Seq<Seq<char>>, x: Seq<char>)
    ensures
        (a + b).contains(x) <==> (a.contains(x) || b.contains(x)),
{
    if a.contains(x) {
        let i = choose|i: int| 0 <= i < a.len() && a[i] == x;
        assert((a + b)[i] == x);
    }
    if b.contains(x) {
        let i = choose|i: int| 0 <= i < b.len() && b[i] == x;
        assert((a + b)[a.len() + i] == x);
    }
    if (a + b).contains(x) {
        let i = choose|i: int| 0 <= i < (a + b).len() && (a + b)[i] == x;
        if i < a.len() {
            assert(a[i] == x);
        } else {
            assert(b[i - a.len()] == x);
        }
    }
}

/// `u` is named in one of the owner lists of `m`.
pub open spec fn owner_declared(m: Seq<(Seq<char>, Seq<Seq<char>>)>, u: Seq<char>) -> bool {
    exists|j: int| 0 <= j < m.len() && #[trigger] m[j].1.contains(u)
}

/// Whether the key sets of two maps coincide.
pub fn maps_same_keys<A: DeepView, B: DeepView>(a: &StringMap<A>, b: &StringMap<B>) -> (r: bool)
    ensures
        r == same_keys(a.deep_view(), b.deep_view()),
{
    let ghost adv = a.deep_view();
    let ghost bdv = b.deep_view();
    let mut i: usize = 0;
    while i < a.len()
        invariant
            0 <= i <= adv.len(),
            adv == a.deep_view(),
            bdv == b.deep_view(),
            forall|j: int| 0 <= j < i ==> map_contains(bdv, #[trigger] adv[j].0),
        decreases adv.len() - i,
    {
        let present = b.contains_key(&a.entry(i).0);
        if !present {
            proof {
                lemma_find_exists(adv, adv[i as int].0, 0);
            }
            return false;
        }
        i += 1;
    }
    let mut j: usize = 0;
    while j < b.len()
        invariant
            0 <= j <= bdv.len(),
            adv == a.deep_view(),
            bdv == b.deep_view(),
            forall|t: int| 0 <= t < adv.len() ==> map_contains(bdv, #[trigger] adv[t].0),
            forall|t: int| 0 <= t < j ==> map_contains(adv, #[trigger] bdv[t].0),
        decreases bdv.len() - j,
    {
        let present = a.contains_key(&b.entry(j).0);
        if !present {
            proof {
                lemma_find_exists(bdv, bdv[j as int].0, 0);
            }
            return false;
        }
        j += 1;
    }
    proof {
        assert forall|q: Seq<char>| #[trigger] map_contains(adv, q) implies map_contains(
            bdv,
            q,
        ) by {
            lemma_find_exists(adv, q, 0);
            let t = choose|t: int| 0 <= t < adv.len() && adv[t].0 == q;
            assert(map_contains(bdv, adv[t].0));
        }
        assert forall|q: Seq<char>| #[trigger] map_contains(bdv, q) implies map_contains(
            adv,
            q,
        ) by {
            lemma_find_exists(bdv, q, 0);
            let t = choose|t: int| 0 <= t < bdv.len() && bdv[t].0 == q;
            assert(map_contains(adv, bdv[t].0));
        }
    }
    true
}

/// Whether the keys of `m` are exactly the strings in `names`.
pub fn map_keys_match_names<A: DeepView>(m: &StringMap<A>, names: &Vec<String>) -> (r: bool)
    ensures
        r == (forall|q: Seq<char>|
            #[trigger] map_contains(m.deep_view(), q) == names.deep_view().contains(q)),
{
    let ghost mdv = m.deep_view();
    let ghost ndv = names.deep_view();
    let mut i: usize = 0;
    while i < m.len()
        invariant
            0 <= i <= mdv.len(),
            mdv == m.deep_view(),
            ndv == names.deep_view(),
            forall|j: int| 0 <= j < i ==> ndv.contains(#[trigger] mdv[j].0),
        decreases mdv.len() - i,
    {
        let present = vec_contains_str(names, &m.entry(i).0);
        if !present {
            proof {
                lemma_find_exists(mdv, mdv[i as int].0, 0);
                assert(mdv[i as int].0 == mdv[i as int].0);
                assert(map_contains(mdv, mdv[i as int].0));
                assert(map_contains(mdv, mdv[i as int].0) != ndv.contains(mdv[i as int].0));
            }
            return false;
        }
        i += 1;
    }
    let mut j: usize = 0;
    while j < names.len()
        invariant
            0 <= j <= ndv.len(),
            mdv == m.deep_view(),
            ndv == names.deep_view(),
            ndv.len() == names.len(),
            forall|t: int| 0 <= t < mdv.len() ==> ndv.contains(#[trigger] mdv[t].0),
            forall|t: int| 0 <= t < j ==> map_contains(mdv, #[trigger] ndv[t]),
        decreases ndv.len() - j,
    {
        let present = m.contains_key(&names[j]);
        if !present {
            proof {
                assert(ndv.contains(ndv[j as int]));
            }
            return false;
        }
        j += 1;
    }
    proof {
        assert forall|q: Seq<char>| #[trigger] map_contains(mdv, q) implies ndv.contains(q) by {
            lemma_find_exists(mdv, q, 0);
            let t = choose|t: int| 0 <= t < mdv.len() && mdv[t].0 == q;
            assert(ndv.contains(mdv[t].0));
        }
        assert forall|q: Seq<char>| ndv.contains(q) implies map_contains(mdv, q) by {
            let t = choose|t: int| 0 <= t < ndv.len() && ndv[t] == q;
            assert(map_contains(mdv, ndv[t]));
        }
    }
    true
}

impl Task {
    /// Constructs a task for a function: the argument names and the declared
    /// input and output slots must match the function exactly. The creator
    /// and every listed owner become participants; nothing is assigned or
    /// approved yet.
    pub fn new(
        creator: String,
        executor: String,
        function_arguments: StringMap<String>,
        inputs_ownership: StringMap<Vec<String>>,
        outputs_ownership: StringMap<Vec<String>>,
        function: Function,
    ) -> (r: Result<Task, ServiceError>)
        requires
            function_arguments.wf(),
            inputs_ownership.wf(),
            outputs_ownership.wf(),
        ensures
            r is Ok <==> {
                &&& (forall|q: Seq<char>|
                    #[trigger] map_contains(function_arguments.deep_view(), q)
                        == function.arguments.deep_view().contains(q))
                &&& (forall|q: Seq<char>|
                    #[trigger] map_contains(inputs_ownership.deep_view(), q)
                        == function.inputs.deep_view().map_values(
                        |x: crate::function::FunctionInputModel| x.name,
                    ).contains(q))
                &&& (forall|q: Seq<char>|
                    #[trigger] map_contains(outputs_ownership.deep_view(), q)
                        == function.outputs.deep_view().map_values(
                        |x: crate::function::FunctionOutputModel| x.name,
                    ).contains(q))
            },
            r is Err ==> r == Err::<Task, ServiceError>(ServiceError::BadTask),
            r matches Ok(t) ==> {
                &&& t.uuid@.len() == 36
                &&& t.creator@ == creator@
                &&& t.function_id.deep_view() == (ExternalIDModel {
                    prefix: crate::file::function_prefix(),
                    uuid: function.uuid@,
                })
                &&& t.function_owner@ == function.owner@
                &&& t.executor@ == executor@
                &&& t.function_arguments.deep_view() == function_arguments.deep_view()
                &&& t.inputs_ownership.deep_view() == inputs_ownership.deep_view()
                &&& t.outputs_ownership.deep_view() == outputs_ownership.deep_view()
                &&& t.approved_users.deep_view() == Seq::<Seq<char>>::empty()
                &&& t.assigned_inputs.deep_view() == Seq::<(Seq<char>, InputFileModel)>::empty()
                &&& t.assigned_outputs.deep_view() == Seq::<(Seq<char>, OutputFileModel)>::empty()
                &&& t.result.deep_view() == TaskResultModel::NotReady
                &&& t.status == TaskStatus::Created
                &&& task_wf(t.deep_view())
                &&& (forall|u: Seq<char>|
                    #[trigger] t.participants.deep_view().contains(u) <==> (u == creator@
                        || owner_declared(inputs_ownership.deep_view(), u) || owner_declared(
                        outputs_ownership.deep_view(),
                        u,
                    )))
            },
    {
        let names_ok = map_keys_match_names(&function_arguments, &function.arguments);
        let inputs_names = slot_names_of_inputs(&function.inputs);
        let outputs_names = slot_names_of_outputs(&function.outputs);
        let inputs_ok = map_keys_match_names(&inputs_ownership, &inputs_names);
        let outputs_ok = map_keys_match_names(&outputs_ownership, &outputs_names);
        if !(names_ok && inputs_ok && outputs_ok) {
            return Err(ServiceError::BadTask);
        }
        let mut participants: Vec<String> = Vec::new();
        participants.push(creator.clone());
        let ghost iodv = inputs_ownership.deep_view();
        let ghost oodv = outputs_ownership.deep_view();
        proof {
            assert(participants.deep_view() =~= Seq::<Seq<char>>::empty().push(creator@));
            assert forall|u: Seq<char>|
                #[trigger] participants.deep_view().contains(u) <==> (u == creator@) by {
                if u == creator@ {
                    assert(participants.deep_view()[0] == creator@);
                }
                if participants.deep_view().contains(u) {
                    let j = choose|j: int|
                        0 <= j < participants.deep_view().len() && participants.deep_view()[j]
                            == u;
                    assert(j == 0);
                }
            }
        }
        let mut i: usize = 0;
        while i < inputs_ownership.len()
            invariant
                0 <= i <= iodv.len(),
                iodv == inputs_ownership.deep_view(),
                forall|u: Seq<char>|
                    #[trigger] participants.deep_view().contains(u) <==> (u == creator@ || exists|
                        j: int,
                    |
                        0 <= j < i && #[trigger] iodv[j].1.contains(u)),
            decreases iodv.len() - i,
        {
            let ghost before = participants.deep_view();
            extend_participants(&mut participants, &inputs_ownership, i);
            proof {
                assert forall|u: Seq<char>|
                    #[trigger] participants.deep_view().contains(u) <==> (u == creator@ || exists|
                        j: int,
                    |
                        0 <= j < i + 1 && #[trigger] iodv[j].1.contains(u)) by {
                    lemma_concat_contains(before, iodv[i as int].1, u);
                }
            }
            i += 1;
        }
        let mut j: usize = 0;
        while j < outputs_ownership.len()
            invariant
                0 <= j <= oodv.len(),
                iodv == inputs_ownership.deep_view(),
                oodv == outputs_ownership.deep_view(),
                forall|u: Seq<char>|
                    #[trigger] participants.deep_view().contains(u) <==> (u == creator@
                        || owner_declared(iodv, u) || exists|t: int|
                        0 <= t < j && #[trigger] oodv[t].1.contains(u)),
            decreases oodv.len() - j,
        {
            let ghost before = participants.deep_view();
            extend_participants(&mut participants, &outputs_ownership, j);
            proof {
                assert forall|u: Seq<char>|
                    #[trigger] participants.deep_view().contains(u) <==> (u == creator@
                        || owner_declared(iodv, u) || exists|t: int|
                        0 <= t < j + 1 && #[trigger] oodv[t].1.contains(u)) by {
                    lemma_concat_contains(before, oodv[j as int].1, u);
                }
            }
            j += 1;
        }
        let approved_users: Vec<String> = Vec::new();
        let assigned_inputs: StringMap<TeaclaveInputFile> = StringMap::new();
        let assigned_outputs: StringMap<TeaclaveOutputFile> = StringMap::new();
        proof {
            assert(approved_users.deep_view() =~= Seq::<Seq<char>>::empty());
        }
        let t = Task {
            uuid: fresh_uuid(),
            creator,
            function_id: ExternalID {
                prefix: String::from_str("function"),
                uuid: function.uuid,
            },
            function_owner: function.owner,
            executor,
            function_arguments,
            inputs_ownership,
            outputs_ownership,
            participants,
            approved_users,
            assigned_inputs,
            assigned_outputs,
            result: TaskResult::NotReady,
            status: TaskStatus::Created,
        };
        Ok(t)
    }

    /// Whether every declared slot is assigned.
    pub fn exec_fully_assigned(&self) -> (r: bool)
        ensures
            r == fully_assigned(self.deep_view()),
    {
        let a = maps_same_keys(&self.assigned_inputs, &self.inputs_ownership);
        let b = maps_same_keys(&self.assigned_outputs, &self.outputs_ownership);
        a && b
    }

    /// Whether every participant other than the creator has approved.
    pub fn exec_fully_approved(&self) -> (r: bool)
        ensures
            r == fully_approved(self.deep_view()),
    {
        let ghost pdv = self.participants.deep_view();
        let ghost adv = self.approved_users.deep_view();
        let mut i: usize = 0;
        while i < self.participants.len()
            invariant
                0 <= i <= pdv.len(),
                pdv == self.participants.deep_view(),
                adv == self.approved_users.deep_view(),
                pdv.len() == self.participants.len(),
                forall|j: int|
                    0 <= j < i ==> (#[trigger] pdv[j] == self.creator@ || adv.contains(pdv[j])),
            decreases pdv.len() - i,
        {
            let is_creator = self.participants[i] == self.creator;
            if !is_creator {
                let ok = vec_contains_str(&self.approved_users, &self.participants[i]);
                if !ok {
                    proof {
                        assert(pdv.contains(pdv[i as int]));
                        assert(!adv.contains(pdv[i as int]));
                        assert(pdv[i as int] != self.creator@);
                        assert(!fully_approved(self.deep_view())) by {
                            assert(self.deep_view().participants == pdv);
                            assert(self.deep_view().approved_users == adv);
                            assert(self.deep_view().participants.contains(pdv[i as int]));
                            assert(!self.deep_view().approved_users.contains(pdv[i as int]));
                        }
                    }
                    return false;
                }
            }
            i += 1;
        }
        proof {
            assert forall|u: Seq<char>|
                pdv.contains(u) && u != self.creator@ implies #[trigger] adv.contains(u) by {
                let j = choose|j: int| 0 <= j < pdv.len() && pdv[j] == u;
                assert(pdv[j] == self.creator@ || adv.contains(pdv[j]));
            }
        }
        true
    }

    /// Recomputes the status after a mutation, as `step_status` says.
    pub fn update_status(&mut self)
        requires
            task_wf(old(self).deep_view()),
        ensures
            final(self).deep_view() == (TaskModel {
                status: step_status(old(self).deep_view()),
                ..old(self).deep_view()
            }),
            task_wf(final(self).deep_view()),
    {
        let in_early = match self.status {
            TaskStatus::Created => true,
            TaskStatus::DataAssigned => true,
            _ => false,
        };
        if in_early {
            if self.exec_fully_assigned() {
                if self.exec_fully_approved() {
                    self.status = TaskStatus::Approved;
                } else {
                    self.status = TaskStatus::DataAssigned;
                }
            }
        }
    }

    /// Records the consent of `user`: allowed exactly for participants other
    /// than the creator while the task sits in `DataAssigned`. Approving
    /// again is harmless; once everyone has consented the task is `Approved`.
    pub fn approve(&mut self, user: &String) -> (r: Result<(), ServiceError>)
        requires
            task_wf(old(self).deep_view()),
        ensures
            r is Ok <==> {
                &&& old(self).status is DataAssigned
                &&& old(self).participants.deep_view().contains(user@)
                &&& user@ != old(self).creator@
            },
            r is Err ==> *final(self) == *old(self) && r == Err::<(), ServiceError>(
                ServiceError::PermissionDenied,
            ),
            r is Ok ==> final(self).deep_view() == (TaskModel {
                approved_users: (if old(self).approved_users.deep_view().contains(user@) {
                    old(self).approved_users.deep_view()
                } else {
                    old(self).approved_users.deep_view().push(user@)
                }),
                status: step_status(
                    TaskModel {
                        approved_users: (if old(self).approved_users.deep_view().contains(
                            user@,
                        ) {
                            old(self).approved_users.deep_view()
                        } else {
                            old(self).approved_users.deep_view().push(user@)
                        }),
                        ..old(self).deep_view()
                    },
                ),
                ..old(self).deep_view()
            }),
            task_wf(final(self).deep_view()),
    {
        let is_data_assigned = match self.status {
            TaskStatus::DataAssigned => true,
            _ => false,
        };
        if !is_data_assigned {
            return Err(ServiceError::PermissionDenied);
        }
        if !vec_contains_str(&self.participants, user) {
            return Err(ServiceError::PermissionDenied);
        }
        if *user == self.creator {
            return Err(ServiceError::PermissionDenied);
        }
        let ghost before = self.approved_users.deep_view();
        if !vec_contains_str(&self.approved_users, user) {
            self.approved_users.push(user.clone());
            proof {
                assert(self.approved_users.deep_view() =~= before.push(user@));
            }
        }
        proof {
            assert forall|u: Seq<char>|
                #[trigger] self.approved_users.deep_view().contains(u) implies self
                .participants.deep_view().contains(u) by {
                let av = self.approved_users.deep_view();
                let j = choose|j: int| 0 <= j < av.len() && av[j] == u;
                if j < before.len() {
                    assert(before[j] == u);
                    assert(old(self).deep_view().approved_users.contains(u));
                    assert(old(self).deep_view().participants.contains(u));
                    assert(self.participants.deep_view() == old(self).participants.deep_view());
                } else {
                    assert(u == user@);
                }
            }
        }
        self.update_status();
        Ok(())
    }

    /// Assigns an input file to a named slot: the slot must exist, the
    /// file's owners must be exactly the slot's declared owners, and the
    /// caller must be one of them.
    #[verifier::rlimit(50)]
    pub fn assign_input(&mut self, user: &String, name: &String, file: TeaclaveInputFile) -> (r:
        Result<(), ServiceError>)
        requires
            task_wf(old(self).deep_view()),
        ensures
            r is Ok <==> {
                &&& map_find(old(self).inputs_ownership.deep_view(), name@) matches Some(ol)
                &&& str_set_eq(
                    match map_find(old(self).inputs_ownership.deep_view(), name@) {
                        Some(ol) => ol,
                        None => Seq::<Seq<char>>::empty(),
                    },
                    file.owner.deep_view(),
                )
                &&& file.owner.deep_view().contains(user@)
            },
            r is Err ==> *final(self) == *old(self) && r == Err::<(), ServiceError>(
                ServiceError::PermissionDenied,
            ),
            r is Ok ==> {
                &&& (forall|q: Seq<char>|
                    #[trigger] map_find(final(self).assigned_inputs.deep_view(), q) == (if q
                        == name@ {
                        Some(file.deep_view())
                    } else {
                        map_find(old(self).assigned_inputs.deep_view(), q)
                    }))
                &&& final(self).deep_view().assigned_outputs == old(
                    self,
                ).deep_view().assigned_outputs
                &&& final(self).deep_view().status == old(self).deep_view().status
                &&& final(self).deep_view().approved_users == old(self).deep_view().approved_users
                &&& final(self).deep_view().participants == old(self).deep_view().participants
                &&& final(self).deep_view().inputs_ownership == old(
                    self,
                ).deep_view().inputs_ownership
                &&& final(self).deep_view().outputs_ownership == old(
                    self,
                ).deep_view().outputs_ownership
                &&& final(self).deep_view().uuid == old(self).deep_view().uuid
                &&& final(self).deep_view().creator == old(self).deep_view().creator
                &&& final(self).deep_view().function_id == old(self).deep_view().function_id
                &&& final(self).deep_view().function_owner == old(self).deep_view().function_owner
                &&& final(self).deep_view().executor == old(self).deep_view().executor
                &&& final(self).deep_view().function_arguments == old(
                    self,
                ).deep_view().function_arguments
                &&& final(self).deep_view().result == old(self).deep_view().result
            },
            task_wf(final(self).deep_view()),
    {
        let owners = match self.inputs_ownership.get(name) {
            Some(ol) => ol,
            None => {
                return Err(ServiceError::PermissionDenied);
            },
        };
        if !crate::owners::str_set_equal(owners, &file.owner) {
            return Err(ServiceError::PermissionDenied);
        }
        if !vec_contains_str(&file.owner, user) {
            return Err(ServiceError::PermissionDenied);
        }
        let ghost oldm = self.deep_view();
        self.assigned_inputs.insert(name.clone(), file);
        proof {
            lemma_find_exists(self.inputs_ownership.deep_view(), name@, 0);
            assert(map_contains(self.inputs_ownership.deep_view(), name@));
            assert forall|q: Seq<char>|
                #[trigger] map_contains(self.assigned_inputs.deep_view(), q) implies map_contains(
                self.inputs_ownership.deep_view(),
                q,
            ) by {
                if q != name@ {
                    assert(map_find(self.assigned_inputs.deep_view(), q) == map_find(
                        oldm.assigned_inputs,
                        q,
                    ));
                    assert(map_contains(oldm.assigned_inputs, q));
                    assert(map_contains(oldm.inputs_ownership, q));
                    assert(self.inputs_ownership.deep_view() == oldm.inputs_ownership);
                }
            }
            assert(same_keys(self.assigned_inputs.deep_view(), self.inputs_ownership.deep_view())
                <== same_keys(oldm.assigned_inputs, oldm.inputs_ownership)) by {
                if same_keys(oldm.assigned_inputs, oldm.inputs_ownership) {
                    assert forall|q: Seq<char>|
                        #[trigger] map_contains(self.assigned_inputs.deep_view(), q)
                            == map_contains(self.inputs_ownership.deep_view(), q) by {
                        if q != name@ {
                            assert(map_find(self.assigned_inputs.deep_view(), q) == map_find(
                                oldm.assigned_inputs,
                                q,
                            ));
                        }
                    }
                }
            }
            let newm = self.deep_view();
            assert(task_wf(newm)) by {
                assert(newm.participants.contains(newm.creator)) by {
                    assert(oldm.participants.contains(oldm.creator));
                }
                assert forall|u: Seq<char>| #[trigger] newm.approved_users.contains(u) implies
                    newm.participants.contains(u) by {
                    assert(oldm.approved_users.contains(u));
                }
                if newm.status is DataAssigned || newm.status is Approved || newm.status
                    is Staged {
                    assert(fully_assigned(oldm));
                    assert(same_keys(newm.assigned_outputs, newm.outputs_ownership));
                    assert(same_keys(newm.assigned_inputs, newm.inputs_ownership));
                }
                if newm.status is Approved || newm.status is Staged {
                    assert forall|u: Seq<char>|
                        newm.participants.contains(u) && u != newm.creator implies #[trigger]
                    newm.approved_users.contains(u) by {
                        assert(oldm.approved_users.contains(u));
                    }
                }
            }
        }
        Ok(())
    }

    /// Assigns an output file to a named slot: as for inputs, and the file
    /// must not have been finalized yet.
    #[verifier::rlimit(50)]
    pub fn assign_output(&mut self, user: &String, name: &String, file: TeaclaveOutputFile) -> (r:
        Result<(), ServiceError>)
        requires
            task_wf(old(self).deep_view()),
        ensures
            r is Ok <==> {
                &&& map_find(old(self).outputs_ownership.deep_view(), name@) matches Some(ol)
                &&& str_set_eq(
                    match map_find(old(self).outputs_ownership.deep_view(), name@) {
                        Some(ol) => ol,
                        None => Seq::<Seq<char>>::empty(),
                    },
                    file.owner.deep_view(),
                )
                &&& file.owner.deep_view().contains(user@)
                &&& file.cmac is None
            },
            r is Err ==> *final(self) == *old(self) && r == Err::<(), ServiceError>(
                ServiceError::PermissionDenied,
            ),
            r is Ok ==> {
                &&& (forall|q: Seq<char>|
                    #[trigger] map_find(final(self).assigned_outputs.deep_view(), q) == (if q
                        == name@ {
                        Some(file.deep_view())
                    } else {
                        map_find(old(self).assigned_outputs.deep_view(), q)
                    }))
                &&& final(self).deep_view().assigned_inputs == old(
                    self,
                ).deep_view().assigned_inputs
                &&& final(self).deep_view().status == old(self).deep_view().status
                &&& final(self).deep_view().approved_users == old(self).deep_view().approved_users
                &&& final(self).deep_view().participants == old(self).deep_view().participants
                &&& final(self).deep_view().inputs_ownership == old(
                    self,
                ).deep_view().inputs_ownership
                &&& final(self).deep_view().outputs_ownership == old(
                    self,
                ).deep_view().outputs_ownership
                &&& final(self).deep_view().uuid == old(self).deep_view().uuid
                &&& final(self).deep_view().creator == old(self).deep_view().creator
                &&& final(self).deep_view().function_id == old(self).deep_view().function_id
                &&& final(self).deep_view().function_owner == old(self).deep_view().function_owner
                &&& final(self).deep_view().executor == old(self).deep_view().executor
                &&& final(self).deep_view().function_arguments == old(
                    self,
                ).deep_view().function_arguments
                &&& final(self).deep_view().result == old(self).deep_view().result
            },
            task_wf(final(self).deep_view()),
    {
        let owners = match self.outputs_ownership.get(name) {
            Some(ol) => ol,
            None => {
                return Err(ServiceError::PermissionDenied);
            },
        };
        if !crate::owners::str_set_equal(owners, &file.owner) {
            return Err(ServiceError::PermissionDenied);
        }
        if !vec_contains_str(&file.owner, user) {
            return Err(ServiceError::PermissionDenied);
        }
        let not_finalized = match &file.cmac {
            Option::None => true,
            Option::Some(_) => false,
        };
        if !not_finalized {
            return Err(ServiceError::PermissionDenied);
        }
        let ghost oldm = self.deep_view();
        self.assigned_outputs.insert(name.clone(), file);
        proof {
            lemma_find_exists(self.outputs_ownership.deep_view(), name@, 0);
            assert(map_contains(self.outputs_ownership.deep_view(), name@));
            assert forall|q: Seq<char>|
                #[trigger] map_contains(self.assigned_outputs.deep_view(), q) implies map_contains(
                self.outputs_ownership.deep_view(),
                q,
            ) by {
                if q != name@ {
                    assert(map_find(self.assigned_outputs.deep_view(), q) == map_find(
                        oldm.assigned_outputs,
                        q,
                    ));
                    assert(map_contains(oldm.assigned_outputs, q));
                    assert(map_contains(oldm.outputs_ownership, q));
                    assert(self.outputs_ownership.deep_view() == oldm.outputs_ownership);
                }
            }
            assert(same_keys(self.assigned_outputs.deep_view(), self.outputs_ownership.deep_view())
                <== same_keys(oldm.assigned_outputs, oldm.outputs_ownership)) by {
                if same_keys(oldm.assigned_outputs, oldm.outputs_ownership) {
                    assert forall|q: Seq<char>|
                        #[trigger] map_contains(self.assigned_outputs.deep_view(), q)
                            == map_contains(self.outputs_ownership.deep_view(), q) by {
                        if q != name@ {
                            assert(map_find(self.assigned_outputs.deep_view(), q) == map_find(
                                oldm.assigned_outputs,
                                q,
                            ));
                        }
                    }
                }
            }
            let newm = self.deep_view();
            assert(task_wf(newm)) by {
                assert(newm.participants.contains(newm.creator)) by {
                    assert(oldm.participants.contains(oldm.creator));
                }
                assert forall|u: Seq<char>| #[trigger] newm.approved_users.contains(u) implies
                    newm.participants.contains(u) by {
                    assert(oldm.approved_users.contains(u));
                }
                if newm.status is DataAssigned || newm.status is Approved || newm.status
                    is Staged {
                    assert(fully_assigned(oldm));
                    assert(same_keys(newm.assigned_inputs, newm.inputs_ownership));
                    assert(same_keys(newm.assigned_outputs, newm.outputs_ownership));
                }
                if newm.status is Approved || newm.status is Staged {
                    assert forall|u: Seq<char>|
                        newm.participants.contains(u) && u != newm.creator implies #[trigger]
                    newm.approved_users.contains(u) by {
                        assert(oldm.approved_users.contains(u));
                    }
                }
            }
        }
        Ok(())
    }

    /// Compiles an approved task into the executor-facing staged record and
    /// moves the task to `Staged`: the staged record carries the task's
    /// identifier, executor, arguments, the function's payload, and a file
    /// reference for every assigned slot.
    pub fn stage_for_running(&mut self, function: &Function) -> (st: StagedTask)
        requires
            task_wf(old(self).deep_view()),
            old(self).status is Approved,
        ensures
            final(self).deep_view() == (TaskModel {
                status: TaskStatus::Staged,
                ..old(self).deep_view()
            }),
            task_wf(final(self).deep_view()),
            st.deep_view() == (StagedTaskModel {
                task_id: old(self).uuid@,
                executor: old(self).executor@,
                function_payload: function.payload.deep_view(),
                function_arguments: old(self).function_arguments.deep_view(),
                input_data: old(self).assigned_inputs.deep_view().map_values(
                    |p: (Seq<char>, InputFileModel)| (p.0, FunctionInputFile::of_input_model(p.1)),
                ),
                output_data: old(self).assigned_outputs.deep_view().map_values(
                    |p: (Seq<char>, OutputFileModel)|
                        (p.0, FunctionOutputFile::of_output_model(p.1)),
                ),
            }),
    {
        let ghost adv = self.assigned_inputs.deep_view();
        let ghost odv = self.assigned_outputs.deep_view();
        let ghost fin = |p: (Seq<char>, InputFileModel)|
            (p.0, FunctionInputFile::of_input_model(p.1));
        let ghost fout = |p: (Seq<char>, OutputFileModel)|
            (p.0, FunctionOutputFile::of_output_model(p.1));
        let mut in_pairs: Vec<(String, FunctionInputFile)> = Vec::new();
        proof {
            assert(in_pairs.deep_view() =~= adv.map_values(fin).subrange(0, 0));
        }
        let mut i: usize = 0;
        while i < self.assigned_inputs.len()
            invariant
                0 <= i <= adv.len(),
                adv == self.assigned_inputs.deep_view(),
                fin == (|p: (Seq<char>, InputFileModel)|
                    (p.0, FunctionInputFile::of_input_model(p.1))),
                in_pairs.deep_view() == adv.map_values(fin).subrange(0, i as int),
            decreases adv.len() - i,
        {
            let ghost prev = in_pairs.deep_view();
            let e = self.assigned_inputs.entry(i);
            in_pairs.push((e.0.clone(), FunctionInputFile::from_teaclave_file(&e.1)));
            proof {
                assert(in_pairs.deep_view() =~= prev.push(fin(adv[i as int])));
                assert(in_pairs.deep_view() =~= adv.map_values(fin).subrange(0, i as int + 1));
            }
            i += 1;
        }
        proof {
            assert(adv.map_values(fin).subrange(0, adv.map_values(fin).len() as int)
                =~= adv.map_values(fin));
        }
        let mut out_pairs: Vec<(String, FunctionOutputFile)> = Vec::new();
        proof {
            assert(out_pairs.deep_view() =~= odv.map_values(fout).subrange(0, 0));
        }
        let mut j: usize = 0;
        while j < self.assigned_outputs.len()
            invariant
                0 <= j <= odv.len(),
                odv == self.assigned_outputs.deep_view(),
                fout == (|p: (Seq<char>, OutputFileModel)|
                    (p.0, FunctionOutputFile::of_output_model(p.1))),
                out_pairs.deep_view() == odv.map_values(fout).subrange(0, j as int),
            decreases odv.len() - j,
        {
            let ghost prev = out_pairs.deep_view();
            let e = self.assigned_outputs.entry(j);
            out_pairs.push((e.0.clone(), FunctionOutputFile::from_teaclave_file(&e.1)));
            proof {
                assert(out_pairs.deep_view() =~= prev.push(fout(odv[j as int])));
                assert(out_pairs.deep_view() =~= odv.map_values(fout).subrange(0, j as int + 1));
            }
            j += 1;
        }
        proof {
            assert(odv.map_values(fout).subrange(0, odv.map_values(fout).len() as int)
                =~= odv.map_values(fout));
        }
        let payload = vstd::slice::slice_to_vec(function.payload.as_slice());
        proof {
            assert(payload.deep_view() =~= function.payload.deep_view());
        }
        let st = StagedTask {
            task_id: self.uuid.clone(),
            executor: self.executor.clone(),
            function_payload: payload,
            function_arguments: dup_string_map(&self.function_arguments),
            input_data: StringMap { pairs: in_pairs },
            output_data: StringMap { pairs: out_pairs },
        };
        let ghost oldm = self.deep_view();
        self.status = TaskStatus::Staged;
        proof {
            let newm = self.deep_view();
            assert(task_wf(newm)) by {
                assert(newm.participants.contains(newm.creator)) by {
                    assert(oldm.participants.contains(oldm.creator));
                }
                assert forall|u: Seq<char>| #[trigger] newm.approved_users.contains(u) implies
                    newm.participants.contains(u) by {
                    assert(oldm.approved_users.contains(u));
                }
                assert(fully_assigned(oldm) && fully_approved(oldm));
                assert(same_keys(newm.assigned_inputs, newm.inputs_ownership));
                assert(same_keys(newm.assigned_outputs, newm.outputs_ownership));
                assert forall|u: Seq<char>|
                    newm.participants.contains(u) && u != newm.creator implies #[trigger]
                newm.approved_users.contains(u) by {
                    assert(oldm.approved_users.contains(u));
                }
            }
        }
        st
    }

    /// The external identifier of the task.
    pub fn external_id(&self) -> (r: ExternalID)
        ensures
            r.prefix@ == task_prefix(),
            r.uuid@ == self.uuid@,
    {
        ExternalID { prefix: String::from_str("task"), uuid: self.uuid.clone() }
    }

    /// The key string the task is persisted under.
    pub fn key_string(&self) -> (r: String)
        ensures
            r@ == key_string_of(task_prefix(), self.uuid@),
    {
        make_key_string("task", &self.uuid)
    }

    /// Whether a key belongs to the task key space.
    pub fn match_prefix(key: &String) -> (r: bool)
        ensures
            r == spec_starts_with(key@, task_prefix()),
    {
        str_starts_with(key, "task")
    }
}

/// An identical copy of a map of argument strings.
pub fn dup_string_map(m: &StringMap<String>) -> (r: StringMap<String>)
    ensures
        r.deep_view() == m.deep_view(),
{
    let ghost mdv = m.deep_view();
    let mut pairs: Vec<(String, String)> = Vec::new();
    proof {
        assert(pairs.deep_view() =~= mdv.subrange(0, 0));
    }
    let mut i: usize = 0;
    while i < m.len()
        invariant
            0 <= i <= mdv.len(),
            mdv == m.deep_view(),
            pairs.deep_view() == mdv.subrange(0, i as int),
        decreases mdv.len() - i,
    {
        let ghost prev = pairs.deep_view();
        let e = m.entry(i);
        pairs.push((e.0.clone(), e.1.clone()));
        proof {
            assert(pairs.deep_view() =~= prev.push(mdv[i as int]));
            assert(pairs.deep_view() =~= mdv.subrange(0, i as int + 1));
        }
        i += 1;
    }
    proof {
        assert(mdv.subrange(0, mdv.len() as int) =~= mdv);
    }
    StringMap { pairs }
}

/// The input slot names of a function, in declaration order.
pub fn slot_names_of_inputs(inputs: &Vec<crate::function::FunctionInput>) -> (r: Vec<String>)
    ensures
        r.deep_view() == inputs.deep_view().map_values(
            |x: crate::function::FunctionInputModel| x.name,
        ),
{
    let ghost idv = inputs.deep_view();
    let mut r: Vec<String> = Vec::new();
    proof {
        assert(r.deep_view() =~= idv.map_values(
            |x: crate::function::FunctionInputModel| x.name,
        ).subrange(0, 0));
    }
    let mut i: usize = 0;
    while i < inputs.len()
        invariant
            0 <= i <= idv.len(),
            idv == inputs.deep_view(),
            idv.len() == inputs.len(),
            r.deep_view() == idv.map_values(
                |x: crate::function::FunctionInputModel| x.name,
            ).subrange(0, i as int),
        decreases idv.len() - i,
    {
        let ghost prev = r.deep_view();
        r.push(inputs[i].name.clone());
        proof {
            let mapped = idv.map_values(|x: crate::function::FunctionInputModel| x.name);
            assert(r.deep_view() =~= prev.push(idv[i as int].name));
            assert(r.deep_view() =~= mapped.subrange(0, i as int + 1));
        }
        i += 1;
    }
    proof {
        let mapped = idv.map_values(|x: crate::function::FunctionInputModel| x.name);
        assert(mapped.subrange(0, mapped.len() as int) =~= mapped);
    }
    r
}

/// The output slot names of a function, in declaration order.
pub fn slot_names_of_outputs(outputs: &Vec<crate::function::FunctionOutput>) -> (r: Vec<String>)
    ensures
        r.deep_view() == outputs.deep_view().map_values(
            |x: crate::function::FunctionOutputModel| x.name,
        ),
{
    let ghost odv = outputs.deep_view();
    let mut r: Vec<String> = Vec::new();
    proof {
        assert(r.deep_view() =~= odv.map_values(
            |x: crate::function::FunctionOutputModel| x.name,
        ).subrange(0, 0));
    }
    let mut i: usize = 0;
    while i < outputs.len()
        invariant
            0 <= i <= odv.len(),
            odv == outputs.deep_view(),
            odv.len() == outputs.len(),
            r.deep_view() == odv.map_values(
                |x: crate::function::FunctionOutputModel| x.name,
            ).subrange(0, i as int),
        decreases odv.len() - i,
    {
        let ghost prev = r.deep_view();
        r.push(outputs[i].name.clone());
        proof {
            let mapped = odv.map_values(|x: crate::function::FunctionOutputModel| x.name);
            assert(r.deep_view() =~= prev.push(odv[i as int].name));
            assert(r.deep_view() =~= mapped.subrange(0, i as int + 1));
        }
        i += 1;
    }
    proof {
        let mapped = odv.map_values(|x: crate::function::FunctionOutputModel| x.name);
        assert(mapped.subrange(0, mapped.len() as int) =~= mapped);
    }
    r
}

impl Wire for Task {
    open spec fn wire(m: TaskModel) -> ValueModel {
        ValueModel::Pair(
            Box::new(ValueModel::Txt(m.uuid)),
            Box::new(
                ValueModel::Pair(
                    Box::new(ValueModel::Txt(m.creator)),
                    Box::new(
                        ValueModel::Pair(
                            Box::new(ExternalID::wire(m.function_id)),
                            Box::new(
                                ValueModel::Pair(
                                    Box::new(ValueModel::Txt(m.function_owner)),
                                    Box::new(
                                        ValueModel::Pair(
                                            Box::new(ValueModel::Txt(m.executor)),
                                            Box::new(
                                                ValueModel::Pair(
                                                    Box::new(
                                                        <StringMap<String> as Wire>::wire(
                                                            m.function_arguments,
                                                        ),
                                                    ),
                                                    Box::new(
                                                        ValueModel::Pair(
                                                            Box::new(
                                                                <StringMap<
                                                                    Vec<String>,
                                                                > as Wire>::wire(
                                                                    m.inputs_ownership,
                                                                ),
                                                            ),
                                                            Box::new(
                                                                ValueModel::Pair(
                                                                    Box::new(
                                                                        <StringMap<
                                                                            Vec<String>,
                                                                        > as Wire>::wire(
                                                                            m.outputs_ownership,
                                                                        ),
                                                                    ),
                                                                    Box::new(
                                                                        ValueModel::Pair(
                                                                            Box::new(
                                                                                <Vec<
                                                                                    String,
                                                                                > as Wire>::wire(
                                                                                    m.participants,
                                                                                ),
                                                                            ),
                                                                            Box::new(
                                                                                ValueModel::Pair(
                                                                                    Box::new(
                                                                                        <Vec<
                                                                                            String,
                                                                                        > as Wire>::wire(
                                                                                            m.approved_users,
                                                                                        ),
                                                                                    ),
                                                                                    Box::new(
                                                                                        ValueModel::Pair(
                                                                                            Box::new(
                                                                                                <StringMap<
                                                                                                    TeaclaveInputFile,
                                                                                                > as Wire>::wire(
                                                                                                    m.assigned_inputs,
                                                                                                ),
                                                                                            ),
                                                                                            Box::new(
                                                                                                ValueModel::Pair(
                                                                                                    Box::new(
                                                                                                        <StringMap<
                                                                                                            TeaclaveOutputFile,
                                                                                                        > as Wire>::wire(
                                                                                                            m.assigned_outputs,
                                                                                                        ),
                                                                                                    ),
                                                                                                    Box::new(
                                                                                                        ValueModel::Pair(
                                                                                                            Box::new(
                                                                                                                TaskResult::wire(
                                                                                                                    m.result,
                                                                                                                ),
                                                                                                            ),
                                                                                                            Box::new(
                                                                                                                TaskStatus::wire(
                                                                                                                    m.status,
                                                                                                                ),
                                                                                                            ),
                                                                                                        ),
                                                                                                    ),
                                                                                                ),
                                                                                            ),
                                                                                        ),
                                                                                    ),
                                                                                ),
                                                                            ),
                                                                        ),
                                                                    ),
                                                                ),
                                                            ),
                                                        ),
                                                    ),
                                                ),
                                            ),
                                        ),
                                    ),
                                ),
                            ),
                        ),
                    ),
                ),
            ),
        )
    }

    fn to_value(&self) -> (v: Value) {
        Value::pair(
            self.uuid.to_value(),
            Value::pair(
                self.creator.to_value(),
                Value::pair(
                    self.function_id.to_value(),
                    Value::pair(
                        self.function_owner.to_value(),
                        Value::pair(
                            self.executor.to_value(),
                            Value::pair(
                                self.function_arguments.to_value(),
                                Value::pair(
                                    self.inputs_ownership.to_value(),
                                    Value::pair(
                                        self.outputs_ownership.to_value(),
                                        Value::pair(
                                            self.participants.to_value(),
                                            Value::pair(
                                                self.approved_users.to_value(),
                                                Value::pair(
                                                    self.assigned_inputs.to_value(),
                                                    Value::pair(
                                                        self.assigned_outputs.to_value(),
                                                        Value::pair(
                                                            self.result.to_value(),
                                                            self.status.to_value(),
                                                        ),
                                                    ),
                                                ),
                                            ),
                                        ),
                                    ),
                                ),
                            ),
                        ),
                    ),
                ),
            ),
        )
    }

    fn of_value(v: Value) -> (r: Option<Task>) {
        let (vuuid, rest1) = match v.into_pair() {
            Some(p) => p,
            None => {
                return None;
            },
        };
        let (vcreator, rest2) = match rest1.into_pair() {
            Some(p) => p,
            None => {
                return None;
            },
        };
        let (vfid, rest3) = match rest2.into_pair() {
            Some(p) => p,
            None => {
                return None;
            },
        };
        let (vfowner, rest4) = match rest3.into_pair() {
            Some(p) => p,
            None => {
                return None;
            },
        };
        let (vexec, rest5) = match rest4.into_pair() {
            Some(p) => p,
            None => {
                return None;
            },
        };
        let (vargs, rest6) = match rest5.into_pair() {
            Some(p) => p,
            None => {
                return None;
            },
        };
        let (vio, rest7) = match rest6.into_pair() {
            Some(p) => p,
            None => {
                return None;
            },
        };
        let (voo, rest8) = match rest7.into_pair() {
            Some(p) => p,
            None => {
                return None;
            },
        };
        let (vpart, rest9) = match rest8.into_pair() {
            Some(p) => p,
            None => {
                return None;
            },
        };
        let (vappr, rest10) = match rest9.into_pair() {
            Some(p) => p,
            None => {
                return None;
            },
        };
        let (vain, rest11) = match rest10.into_pair() {
            Some(p) => p,
            None => {
                return None;
            },
        };
        let (vaout, rest12) = match rest11.into_pair() {
            Some(p) => p,
            None => {
                return None;
            },
        };
        let (vres, vstatus) = match rest12.into_pair() {
            Some(p) => p,
            None => {
                return None;
            },
        };
        let uuid = match vuuid.into_txt() {
            Some(x) => x,
            None => {
                return None;
            },
        };
        let creator = match vcreator.into_txt() {
            Some(x) => x,
            None => {
                return None;
            },
        };
        let function_id = match ExternalID::of_value(vfid) {
            Some(x) => x,
            None => {
                return None;
            },
        };
        let function_owner = match vfowner.into_txt() {
            Some(x) => x,
            None => {
                return None;
            },
        };
        let executor = match vexec.into_txt() {
            Some(x) => x,
            None => {
                return None;
            },
        };
        let function_arguments = match <StringMap<String> as Wire>::of_value(vargs) {
            Some(x) => x,
            None => {
                return None;
            },
        };
        let inputs_ownership = match <StringMap<Vec<String>> as Wire>::of_value(vio) {
            Some(x) => x,
            None => {
                return None;
            },
        };
        let outputs_ownership = match <StringMap<Vec<String>> as Wire>::of_value(voo) {
            Some(x) => x,
            None => {
                return None;
            },
        };
        let participants = match <Vec<String> as Wire>::of_value(vpart) {
            Some(x) => x,
            None => {
                return None;
            },
        };
        let approved_users = match <Vec<String> as Wire>::of_value(vappr) {
            Some(x) => x,
            None => {
                return None;
            },
        };
        let assigned_inputs = match <StringMap<TeaclaveInputFile> as Wire>::of_value(vain) {
            Some(x) => x,
            None => {
                return None;
            },
        };
        let assigned_outputs = match <StringMap<TeaclaveOutputFile> as Wire>::of_value(vaout) {
            Some(x) => x,
            None => {
                return None;
            },
        };
        let result = match TaskResult::of_value(vres) {
            Some(x) => x,
            None => {
                return None;
            },
        };
        let status = match TaskStatus::of_value(vstatus) {
            Some(x) => x,
            None => {
                return None;
            },
        };
        Some(
            Task {
                uuid,
                creator,
                function_id,
                function_owner,
                executor,
                function_arguments,
                inputs_ownership,
                outputs_ownership,
                participants,
                approved_users,
                assigned_inputs,
                assigned_outputs,
                result,
                status,
            },
        )
    }
}

/// Appends the owner list of entry `i` of `m` to `participants`.
fn extend_participants(
    participants: &mut Vec<String>,
    m: &StringMap<Vec<String>>,
    i: usize,
)
    requires
        i < m.deep_view().len(),
    ensures
        final(participants).deep_view() == old(participants).deep_view() + m.deep_view()[
            i as int
        ].1,
{
    let entry = m.entry(i);
    crate::owners::extend_strings(participants, &entry.1);
}


} // verus!

