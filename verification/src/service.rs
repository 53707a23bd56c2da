//! The management service: a request-level coordinator that keeps every
//! entity in byte storage under its prefix-tagged key, enforces ownership,
//! participation and status rules on each endpoint, and dispatches approved
//! tasks onto the staged queue. A ghost map ties the stored bytes to the
//! entities they encode, so each endpoint's contract speaks of entities.

use vstd::prelude::*;
use vstd::string::{StrSliceExecFns, StringExecFns};
use vstd::utf8::{encode_utf8, encode_utf8_decode_utf8};
use crate::errors::ServiceError;
use crate::file::{default_crypto_model, function_prefix, input_file_prefix, key_string_of,
    output_file_prefix, task_prefix, ExternalID, ExternalIDModel, FileCrypto, InputFileModel,
    OutputFileModel, TeaclaveInputFile, TeaclaveOutputFile};
use crate::function::{Function, FunctionModel};
use crate::status::TaskStatus;
use crate::storage::Storage;
use crate::strmap::{map_contains, map_find, StringMap};
use crate::task::{step_status, task_wf, StagedTask, StagedTaskModel, Task, TaskModel};
use crate::trusted::{check_url, fresh_uuid, url_ok};
use crate::value::enc;
use crate::wire::Wire;

verus! {

/// One persisted entity, tagged by its kind.
#[derive(Debug)]
pub enum StoredEntity {
    In(TeaclaveInputFile),
    Out(TeaclaveOutputFile),
    Fun(Function),
    Tsk(Task),
}

/// The model of one persisted entity.
pub ghost enum EntityModel {
    In(InputFileModel),
    Out(OutputFileModel),
    Fun(FunctionModel),
    Tsk(TaskModel),
}

impl DeepView for StoredEntity {
    type V = EntityModel;

    open spec fn deep_view(&self) -> EntityModel {
        match self {
            StoredEntity::In(f) => EntityModel::In(f.deep_view()),
            StoredEntity::Out(f) => EntityModel::Out(f.deep_view()),
            StoredEntity::Fun(f) => EntityModel::Fun(f.deep_view()),
            StoredEntity::Tsk(t) => EntityModel::Tsk(t.deep_view()),
        }
    }
}

/// The key bytes an entity with this prefix and UUID is stored under.
pub open spec fn spec_key_bytes(prefix: Seq<char>, uuid: Seq<char>) -> Seq<u8> {
    encode_utf8(key_string_of(prefix, uuid))
}

/// The kind prefix of an entity.
pub open spec fn entity_prefix(m: EntityModel) -> Seq<char> {
    match m {
        EntityModel::In(_) => input_file_prefix(),
        EntityModel::Out(_) => output_file_prefix(),
        EntityModel::Fun(_) => function_prefix(),
        EntityModel::Tsk(_) => task_prefix(),
    }
}

/// The UUID of an entity.
pub open spec fn entity_uuid(m: EntityModel) -> Seq<char> {
    match m {
        EntityModel::In(f) => f.uuid,
        EntityModel::Out(f) => f.uuid,
        EntityModel::Fun(f) => f.uuid,
        EntityModel::Tsk(t) => t.uuid,
    }
}

/// The key bytes an entity is stored under.
pub open spec fn entity_key(m: EntityModel) -> Seq<u8> {
    spec_key_bytes(entity_prefix(m), entity_uuid(m))
}

/// The byte encoding of an entity.
pub open spec fn entity_enc(m: EntityModel) -> Seq<u8> {
    match m {
        EntityModel::In(f) => enc(TeaclaveInputFile::wire(f)),
        EntityModel::Out(f) => enc(TeaclaveOutputFile::wire(f)),
        EntityModel::Fun(f) => enc(Function::wire(f)),
        EntityModel::Tsk(t) => enc(Task::wire(t)),
    }
}

/// The structural invariant of an entity.
pub open spec fn entity_wf(m: EntityModel) -> bool {
    match m {
        EntityModel::In(f) => TeaclaveInputFile::wf(f),
        EntityModel::Out(f) => TeaclaveOutputFile::wf(f),
        EntityModel::Fun(_) => true,
        EntityModel::Tsk(t) => task_wf(t),
    }
}

/// Equal UTF-8 encodings come from equal strings.
pub proof fn lemma_utf8_injective(a: Seq<char>, b: Seq<char>)
    requires
        encode_utf8(a) == encode_utf8(b),
    ensures
        a == b,
{
    encode_utf8_decode_utf8(a);
    encode_utf8_decode_utf8(b);
}

/// A stored entity's key determines its kind and its UUID: the four kind
/// prefixes start with four different characters, so no two kinds share a
/// key, and within a kind the key pins the UUID.
pub proof fn lemma_key_determines_kind(m: EntityModel, prefix: Seq<char>, uuid: Seq<char>)
    requires
        entity_key(m) == spec_key_bytes(prefix, uuid),
        prefix == input_file_prefix() || prefix == output_file_prefix() || prefix
            == function_prefix() || prefix == task_prefix(),
    ensures
        prefix == input_file_prefix() ==> m is In && entity_uuid(m) == uuid,
        prefix == output_file_prefix() ==> m is Out && entity_uuid(m) == uuid,
        prefix == function_prefix() ==> m is Fun && entity_uuid(m) == uuid,
        prefix == task_prefix() ==> m is Tsk && entity_uuid(m) == uuid,
{
    reveal_strlit("input-file");
    reveal_strlit("output-file");
    reveal_strlit("function");
    reveal_strlit("task");
    reveal_strlit("-");
    let p1 = entity_prefix(m);
    let u1 = entity_uuid(m);
    lemma_utf8_injective(key_string_of(p1, u1), key_string_of(prefix, uuid));
    let s = key_string_of(p1, u1);
    assert(s[0] == p1[0]);
    assert(s[0] == prefix[0]);
    assert(p1 == prefix) by {
        assert(p1[0] == prefix[0]);
    }
    assert(u1 == uuid) by {
        assert(u1 =~= s.subrange(p1.len() as int + 1, s.len() as int));
        assert(uuid =~= s.subrange(prefix.len() as int + 1, s.len() as int));
    }
}

/// The string `"id"` used as the metadata key for the authenticated user.
pub fn id_metadata_key() -> (r: String)
    ensures
        r@ == "id"@,
{
    String::from_str("id")
}

/// The authenticated user of a request: the `"id"` entry of its metadata.
/// A request without one is invalid.
pub fn get_request_user_id(meta: &StringMap<String>) -> (r: Result<String, ServiceError>)
    ensures
        r is Ok <==> map_contains(meta.deep_view(), "id"@),
        r matches Ok(u) ==> map_find(meta.deep_view(), "id"@) == Some(u@),
        r is Err ==> r == Err::<String, ServiceError>(ServiceError::InvalidRequest),
{
    let key = id_metadata_key();
    match meta.get(&key) {
        Some(u) => Ok(u.clone()),
        None => Err(ServiceError::InvalidRequest),
    }
}


/// A sixteen-byte zero tag, used by the mock seeding data.
fn mock_tag() -> (r: Vec<u8>)
    ensures
        r.deep_view() == seq![0u8; 16],
{
    let v: Vec<u8> = vec![0u8; 16];
    proof {
        assert(v.deep_view() =~= seq![0u8; 16]);
    }
    v
}

/// The management service: byte storage, and the ghost record of which
/// entity every stored key holds and which staged tasks have been queued.
pub struct TeaclaveManagementService {
    pub storage: Storage,
    pub model: Ghost<Map<Seq<u8>, EntityModel>>,
    pub staged: Ghost<Seq<StagedTaskModel>>,
}

impl TeaclaveManagementService {
    /// The service invariant: the ghost model and the stored bytes agree:
    /// every key holds exactly the encoding of its entity, under the key
    /// derived from the entity itself, and every entity is well formed; the
    /// queue holds exactly the encodings of the staged tasks, in order.
    pub open spec fn wf(&self) -> bool {
        &&& self.storage.wf()
        &&& (forall|k: Seq<u8>|
            #![trigger self.model@.contains_key(k)]
            #![trigger map_contains(self.storage.kv.deep_view(), k)]
            self.model@.contains_key(k) <==> map_contains(self.storage.kv.deep_view(), k))
        &&& (forall|k: Seq<u8>|
            #[trigger] self.model@.contains_key(k) ==> {
                &&& map_find(self.storage.kv.deep_view(), k) == Some(entity_enc(self.model@[k]))
                &&& k == entity_key(self.model@[k])
                &&& entity_wf(self.model@[k])
            })
        &&& self.storage.queue.deep_view().len() == self.staged@.len()
        &&& (forall|i: int|
            0 <= i < self.staged@.len() ==> #[trigger] self.storage.queue.deep_view()[i] == (
            encode_utf8("staged-task"@),
            enc(StagedTask::wire(self.staged@[i])),
            ))
    }

    /// The input file stored under this identifier, if its prefix names the
    /// input-file kind and the key is present.
    pub open spec fn lookup_input(&self, id: ExternalIDModel) -> Option<InputFileModel> {
        let k = spec_key_bytes(id.prefix, id.uuid);
        if id.prefix == input_file_prefix() && self.model@.contains_key(k) && self.model@[k]
            is In {
            Some(self.model@[k]->In_0)
        } else {
            None
        }
    }

    /// The output file stored under this identifier, if any.
    pub open spec fn lookup_output(&self, id: ExternalIDModel) -> Option<OutputFileModel> {
        let k = spec_key_bytes(id.prefix, id.uuid);
        if id.prefix == output_file_prefix() && self.model@.contains_key(k) && self.model@[k]
            is Out {
            Some(self.model@[k]->Out_0)
        } else {
            None
        }
    }

    /// The function stored under this identifier, if any.
    pub open spec fn lookup_function(&self, id: ExternalIDModel) -> Option<FunctionModel> {
        let k = spec_key_bytes(id.prefix, id.uuid);
        if id.prefix == function_prefix() && self.model@.contains_key(k) && self.model@[k]
            is Fun {
            Some(self.model@[k]->Fun_0)
        } else {
            None
        }
    }

    /// The task stored under this identifier, if any.
    pub open spec fn lookup_task(&self, id: ExternalIDModel) -> Option<TaskModel> {
        let k = spec_key_bytes(id.prefix, id.uuid);
        if id.prefix == task_prefix() && self.model@.contains_key(k) && self.model@[k] is Tsk {
            Some(self.model@[k]->Tsk_0)
        } else {
            None
        }
    }

    /// A fresh service over empty storage.
    pub fn new() -> (r: TeaclaveManagementService)
        ensures
            r.wf(),
            r.model@ =~= Map::<Seq<u8>, EntityModel>::empty(),
            r.staged@ =~= Seq::<StagedTaskModel>::empty(),
    {
        let r = TeaclaveManagementService {
            storage: Storage::new(),
            model: Ghost(Map::empty()),
            staged: Ghost(Seq::empty()),
        };
        proof {
            assert forall|k: Seq<u8>| !map_contains(r.storage.kv.deep_view(), k) by {
                crate::strmap::lemma_find_exists(r.storage.kv.deep_view(), k, 0);
            }
        }
        r
    }

    /// Persists an entity under its own key, overwriting what was there.
    fn write_entity(&mut self, e: &StoredEntity)
        requires
            old(self).wf(),
            entity_wf(e.deep_view()),
        ensures
            final(self).wf(),
            final(self).model@ == old(self).model@.insert(
                entity_key(e.deep_view()),
                e.deep_view(),
            ),
            final(self).staged == old(self).staged,
            final(self).storage.queue == old(self).storage.queue,
    {
        let (ks, val) = match e {
            StoredEntity::In(f) => (f.key_string(), f.to_value()),
            StoredEntity::Out(f) => (f.key_string(), f.to_value()),
            StoredEntity::Fun(f) => (f.key_string(), f.to_value()),
            StoredEntity::Tsk(t) => (t.key_string(), t.to_value()),
        };
        let kb = ks.as_str().as_bytes_vec();
        let bytes = crate::value::encode_to_vec(&val);
        let ghost kdv = entity_key(e.deep_view());
        proof {
            assert(kb.deep_view() =~= kb@);
            assert(bytes.deep_view() =~= bytes@);
            assert(kb@ == kdv);
        }
        self.storage.put(kb, bytes);
        proof {
            self.model@ = old(self).model@.insert(kdv, e.deep_view());
        }
        proof {
            assert forall|k: Seq<u8>|
                #![trigger self.model@.contains_key(k)]
                #![trigger map_contains(self.storage.kv.deep_view(), k)]
                self.model@.contains_key(k) <==> map_contains(
                self.storage.kv.deep_view(),
                k,
            ) by {
                if k != kdv {
                    assert(map_find(self.storage.kv.deep_view(), k) == map_find(
                        old(self).storage.kv.deep_view(),
                        k,
                    ));
                    assert(old(self).model@.contains_key(k) <==> map_contains(
                        old(self).storage.kv.deep_view(),
                        k,
                    ));
                }
            }
            assert forall|k: Seq<u8>| #[trigger] self.model@.contains_key(k) implies {
                &&& map_find(self.storage.kv.deep_view(), k) == Some(entity_enc(self.model@[k]))
                &&& k == entity_key(self.model@[k])
                &&& entity_wf(self.model@[k])
            } by {
                if k != kdv {
                    assert(map_find(self.storage.kv.deep_view(), k) == map_find(
                        old(self).storage.kv.deep_view(),
                        k,
                    ));
                    assert(old(self).model@.contains_key(k));
                }
            }
        }
    }

    /// Appends a staged task to the staged queue.
    fn enqueue_staged(&mut self, st: &StagedTask)
        requires
            old(self).wf(),
        ensures
            final(self).wf(),
            final(self).staged@ == old(self).staged@.push(st.deep_view()),
            final(self).model == old(self).model,
            final(self).storage.kv == old(self).storage.kv,
    {
        let key = StagedTask::get_queue_key();
        let kb = key.as_str().as_bytes_vec();
        let bytes = crate::value::encode_to_vec(&st.to_value());
        proof {
            assert(kb.deep_view() =~= kb@);
            assert(bytes.deep_view() =~= bytes@);
        }
        self.storage.enqueue(kb, bytes);
        proof {
            self.staged@ = old(self).staged@.push(st.deep_view());
        }
    }

    /// Reads the input file stored under `id`.
    fn read_input(&self, id: &ExternalID) -> (r: Option<TeaclaveInputFile>)
        requires
            self.wf(),
        ensures
            match r {
                Some(f) => self.lookup_input(id.deep_view()) == Some(f.deep_view())
                    && TeaclaveInputFile::wf(f.deep_view()),
                None => self.lookup_input(id.deep_view()) is None,
            },
    {
        let expected = String::from_str("input-file");
        if !(id.prefix == expected) {
            return None;
        }
        let kb = id.key_bytes();
        proof {
            assert(kb.deep_view() =~= kb@);
        }
        match self.storage.get(&kb) {
            None => {
                proof {
                    assert(!self.model@.contains_key(kb.deep_view()));
                }
                None
            },
            Some(bytes) => {
                let ghost k = kb.deep_view();
                let ghost em = self.model@[k];
                proof {
                    assert(self.model@.contains_key(k));
                    lemma_key_determines_kind(em, input_file_prefix(), id.uuid@);
                    assert(bytes.deep_view() =~= bytes@);
                    assert(bytes@ == enc(TeaclaveInputFile::wire(em->In_0)));
                }
                match crate::value::decode_from_bytes(bytes) {
                    Some(v) => {
                        match TeaclaveInputFile::of_value(v) {
                            Some(f) => Some(f),
                            None => {
                                proof {
                                    assert(false);
                                }
                                None
                            },
                        }
                    },
                    None => {
                        proof {
                            assert(false);
                        }
                        None
                    },
                }
            },
        }
    }

    /// Reads the output file stored under `id`.
    fn read_output(&self, id: &ExternalID) -> (r: Option<TeaclaveOutputFile>)
        requires
            self.wf(),
        ensures
            match r {
                Some(f) => self.lookup_output(id.deep_view()) == Some(f.deep_view())
                    && TeaclaveOutputFile::wf(f.deep_view()),
                None => self.lookup_output(id.deep_view()) is None,
            },
    {
        let expected = String::from_str("output-file");
        if !(id.prefix == expected) {
            return None;
        }
        let kb = id.key_bytes();
        proof {
            assert(kb.deep_view() =~= kb@);
        }
        match self.storage.get(&kb) {
            None => {
                proof {
                    assert(!self.model@.contains_key(kb.deep_view()));
                }
                None
            },
            Some(bytes) => {
                let ghost k = kb.deep_view();
                let ghost em = self.model@[k];
                proof {
                    assert(self.model@.contains_key(k));
                    lemma_key_determines_kind(em, output_file_prefix(), id.uuid@);
                    assert(bytes.deep_view() =~= bytes@);
                    assert(bytes@ == enc(TeaclaveOutputFile::wire(em->Out_0)));
                }
                match crate::value::decode_from_bytes(bytes) {
                    Some(v) => {
                        match TeaclaveOutputFile::of_value(v) {
                            Some(f) => Some(f),
                            None => {
                                proof {
                                    assert(false);
                                }
                                None
                            },
                        }
                    },
                    None => {
                        proof {
                            assert(false);
                        }
                        None
                    },
                }
            },
        }
    }

    /// Reads the function stored under `id`.
    fn read_function(&self, id: &ExternalID) -> (r: Option<Function>)
        requires
            self.wf(),
        ensures
            match r {
                Some(f) => self.lookup_function(id.deep_view()) == Some(f.deep_view()),
                None => self.lookup_function(id.deep_view()) is None,
            },
    {
        let expected = String::from_str("function");
        if !(id.prefix == expected) {
            return None;
        }
        let kb = id.key_bytes();
        proof {
            assert(kb.deep_view() =~= kb@);
        }
        match self.storage.get(&kb) {
            None => {
                proof {
                    assert(!self.model@.contains_key(kb.deep_view()));
                }
                None
            },
            Some(bytes) => {
                let ghost k = kb.deep_view();
                let ghost em = self.model@[k];
                proof {
                    assert(self.model@.contains_key(k));
                    lemma_key_determines_kind(em, function_prefix(), id.uuid@);
                    assert(bytes.deep_view() =~= bytes@);
                    assert(bytes@ == enc(Function::wire(em->Fun_0)));
                }
                match crate::value::decode_from_bytes(bytes) {
                    Some(v) => {
                        match Function::of_value(v) {
                            Some(f) => Some(f),
                            None => {
                                proof {
                                    assert(false);
                                }
                                None
                            },
                        }
                    },
                    None => {
                        proof {
                            assert(false);
                        }
                        None
                    },
                }
            },
        }
    }

    /// Reads the task stored under `id`.
    fn read_task(&self, id: &ExternalID) -> (r: Option<Task>)
        requires
            self.wf(),
        ensures
            match r {
                Some(t) => self.lookup_task(id.deep_view()) == Some(t.deep_view()) && task_wf(
                    t.deep_view(),
                ),
                None => self.lookup_task(id.deep_view()) is None,
            },
    {
        let expected = String::from_str("task");
        if !(id.prefix == expected) {
            return None;
        }
        let kb = id.key_bytes();
        proof {
            assert(kb.deep_view() =~= kb@);
        }
        match self.storage.get(&kb) {
            None => {
                proof {
                    assert(!self.model@.contains_key(kb.deep_view()));
                }
                None
            },
            Some(bytes) => {
                let ghost k = kb.deep_view();
                let ghost em = self.model@[k];
                proof {
                    assert(self.model@.contains_key(k));
                    lemma_key_determines_kind(em, task_prefix(), id.uuid@);
                    assert(bytes.deep_view() =~= bytes@);
                    assert(bytes@ == enc(Task::wire(em->Tsk_0)));
                }
                match crate::value::decode_from_bytes(bytes) {
                    Some(v) => {
                        match Task::of_value(v) {
                            Some(t) => Some(t),
                            None => {
                                proof {
                                    assert(false);
                                }
                                None
                            },
                        }
                    },
                    None => {
                        proof {
                            assert(false);
                        }
                        None
                    },
                }
            },
        }
    }
}

/// The synthetic URL a fusion output is created at.
pub open spec fn spec_fusion_url(uuid: Seq<char>) -> Seq<char> {
    "fusion:///TEACLAVE_FUSION_BASE/"@ + uuid + ".fusion"@
}

impl TeaclaveManagementService {
    /// Whether one assign-data input entry is acceptable for task `t`:
    /// the slot exists, the file exists, the file's owners are exactly the
    /// slot's declared owners, and the caller is one of them.
    pub open spec fn input_entry_ok(
        &self,
        t: TaskModel,
        user: Seq<char>,
        name: Seq<char>,
        id: ExternalIDModel,
    ) -> bool {
        match (map_find(t.inputs_ownership, name), self.lookup_input(id)) {
            (Some(ol), Some(f)) => crate::owners::str_set_eq(ol, f.owner) && f.owner.contains(
                user,
            ),
            _ => false,
        }
    }

    /// Whether one assign-data output entry is acceptable for task `t`:
    /// as for inputs, and the file must not have been finalized.
    pub open spec fn output_entry_ok(
        &self,
        t: TaskModel,
        user: Seq<char>,
        name: Seq<char>,
        id: ExternalIDModel,
    ) -> bool {
        match (map_find(t.outputs_ownership, name), self.lookup_output(id)) {
            (Some(ol), Some(f)) => crate::owners::str_set_eq(ol, f.owner) && f.owner.contains(
                user,
            ) && f.cmac is None,
            _ => false,
        }
    }

    /// What an input slot holds after the first `i` entries are applied in
    /// order: the last entry for a name wins.
    pub open spec fn fold_assigned_inputs(
        &self,
        t: TaskModel,
        entries: Seq<(Seq<char>, ExternalIDModel)>,
        i: int,
        q: Seq<char>,
    ) -> Option<InputFileModel>
        decreases i,
    {
        if i <= 0 {
            map_find(t.assigned_inputs, q)
        } else if entries[i - 1].0 == q {
            self.lookup_input(entries[i - 1].1)
        } else {
            self.fold_assigned_inputs(t, entries, i - 1, q)
        }
    }

    /// What an output slot holds after the first `i` entries are applied.
    pub open spec fn fold_assigned_outputs(
        &self,
        t: TaskModel,
        entries: Seq<(Seq<char>, ExternalIDModel)>,
        i: int,
        q: Seq<char>,
    ) -> Option<OutputFileModel>
        decreases i,
    {
        if i <= 0 {
            map_find(t.assigned_outputs, q)
        } else if entries[i - 1].0 == q {
            self.lookup_output(entries[i - 1].1)
        } else {
            self.fold_assigned_outputs(t, entries, i - 1, q)
        }
    }


    /// Seeds the store with mock entities under fixed identifiers: two
    /// finalized fusion outputs, an input derived from the second, and two
    /// public functions. Meant for exercising the service in tests.
    pub fn add_mock_data(&mut self) -> (r: Result<(), ServiceError>)
        requires
            old(self).wf(),
        ensures
            final(self).wf(),
            final(self).staged == old(self).staged,
            r is Ok,
            final(self).model@ == old(self).model@.insert(
                spec_key_bytes(output_file_prefix(), "00000000-0000-0000-0000-000000000001"@),
                EntityModel::Out(
                    OutputFileModel {
                        url: "fusion:///TEACLAVE_FUSION_BASE/mock1.fusion"@,
                        cmac: Some(seq![0u8; 16]),
                        crypto_info: default_crypto_model(),
                        owner: seq!["mock_user1"@, "frontend_user"@],
                        uuid: "00000000-0000-0000-0000-000000000001"@,
                    },
                ),
            ).insert(
                spec_key_bytes(output_file_prefix(), "00000000-0000-0000-0000-000000000002"@),
                EntityModel::Out(
                    OutputFileModel {
                        url: "fusion:///TEACLAVE_FUSION_BASE/mock2.fusion"@,
                        cmac: Some(seq![0u8; 16]),
                        crypto_info: default_crypto_model(),
                        owner: seq!["mock_user2"@, "mock_user3"@],
                        uuid: "00000000-0000-0000-0000-000000000002"@,
                    },
                ),
            ).insert(
                spec_key_bytes(input_file_prefix(), "00000000-0000-0000-0000-000000000002"@),
                EntityModel::In(
                    InputFileModel {
                        url: "fusion:///TEACLAVE_FUSION_BASE/mock2.fusion"@,
                        cmac: seq![0u8; 16],
                        crypto_info: default_crypto_model(),
                        owner: seq!["mock_user2"@, "mock_user3"@],
                        uuid: "00000000-0000-0000-0000-000000000002"@,
                    },
                ),
            ).insert(
                spec_key_bytes(function_prefix(), "00000000-0000-0000-0000-000000000001"@),
                EntityModel::Fun(
                    FunctionModel {
                        uuid: "00000000-0000-0000-0000-000000000001"@,
                        name: "mock-func-1"@,
                        description: "mock-desc"@,
                        payload: seq![77u8, 80u8],
                        public: true,
                        executor_type: Seq::<char>::empty(),
                        owner: "teaclave"@,
                        arguments: seq!["arg1"@, "arg2"@],
                        inputs: seq![
                            crate::function::FunctionInputModel {
                                name: "input"@,
                                description: "input_desc"@,
                            },
                            crate::function::FunctionInputModel {
                                name: "input2"@,
                                description: "input_desc"@,
                            },
                        ],
                        outputs: seq![
                            crate::function::FunctionOutputModel {
                                name: "output"@,
                                description: "output_desc"@,
                            },
                            crate::function::FunctionOutputModel {
                                name: "output2"@,
                                description: "output_desc"@,
                            },
                        ],
                    },
                ),
            ).insert(
                spec_key_bytes(function_prefix(), "00000000-0000-0000-0000-000000000002"@),
                EntityModel::Fun(
                    FunctionModel {
                        uuid: "00000000-0000-0000-0000-000000000002"@,
                        name: "mock-func-2"@,
                        description: "mock-desc"@,
                        payload: seq![77u8, 80u8],
                        public: true,
                        executor_type: Seq::<char>::empty(),
                        owner: "teaclave"@,
                        arguments: seq!["arg1"@],
                        inputs: Seq::<crate::function::FunctionInputModel>::empty(),
                        outputs: seq![
                            crate::function::FunctionOutputModel {
                                name: "output"@,
                                description: "output_desc"@,
                            },
                        ],
                    },
                ),
            ),
    {
        let mut owner1: Vec<String> = Vec::new();
        owner1.push(String::from_str("mock_user1"));
        owner1.push(String::from_str("frontend_user"));
        proof {
            assert(owner1.deep_view() =~= seq!["mock_user1"@, "frontend_user"@]);
        }
        let output1 = TeaclaveOutputFile {
            url: String::from_str("fusion:///TEACLAVE_FUSION_BASE/mock1.fusion"),
            cmac: Some(mock_tag()),
            crypto_info: FileCrypto::default(),
            owner: owner1,
            uuid: String::from_str("00000000-0000-0000-0000-000000000001"),
        };
        self.write_entity(&StoredEntity::Out(output1));
        let mut owner2: Vec<String> = Vec::new();
        owner2.push(String::from_str("mock_user2"));
        owner2.push(String::from_str("mock_user3"));
        proof {
            assert(owner2.deep_view() =~= seq!["mock_user2"@, "mock_user3"@]);
        }
        let output2 = TeaclaveOutputFile {
            url: String::from_str("fusion:///TEACLAVE_FUSION_BASE/mock2.fusion"),
            cmac: Some(mock_tag()),
            crypto_info: FileCrypto::default(),
            owner: owner2,
            uuid: String::from_str("00000000-0000-0000-0000-000000000002"),
        };
        let input2 = match TeaclaveInputFile::from_output(output2) {
            Ok(f) => f,
            Err(_) => {
                proof {
                    assert(false);
                }
                return Err(ServiceError::DataError);
            },
        };
        let input2 = TeaclaveInputFile {
            uuid: String::from_str("00000000-0000-0000-0000-000000000002"),
            ..input2
        };
        let output2 = TeaclaveOutputFile {
            url: String::from_str("fusion:///TEACLAVE_FUSION_BASE/mock2.fusion"),
            cmac: Some(mock_tag()),
            crypto_info: FileCrypto::default(),
            owner: {
                let mut o: Vec<String> = Vec::new();
                o.push(String::from_str("mock_user2"));
                o.push(String::from_str("mock_user3"));
                proof {
                    assert(o.deep_view() =~= seq!["mock_user2"@, "mock_user3"@]);
                }
                o
            },
            uuid: String::from_str("00000000-0000-0000-0000-000000000002"),
        };
        self.write_entity(&StoredEntity::Out(output2));
        proof {
            assert(input2.cmac.deep_view() =~= seq![0u8; 16]);
        }
        self.write_entity(&StoredEntity::In(input2));
        let mut args1: Vec<String> = Vec::new();
        args1.push(String::from_str("arg1"));
        args1.push(String::from_str("arg2"));
        let mut ins1: Vec<crate::function::FunctionInput> = Vec::new();
        ins1.push(
            crate::function::FunctionInput::new(
                String::from_str("input"),
                String::from_str("input_desc"),
            ),
        );
        ins1.push(
            crate::function::FunctionInput::new(
                String::from_str("input2"),
                String::from_str("input_desc"),
            ),
        );
        let mut outs1: Vec<crate::function::FunctionOutput> = Vec::new();
        outs1.push(
            crate::function::FunctionOutput::new(
                String::from_str("output"),
                String::from_str("output_desc"),
            ),
        );
        outs1.push(
            crate::function::FunctionOutput::new(
                String::from_str("output2"),
                String::from_str("output_desc"),
            ),
        );
        proof {
            assert(args1.deep_view() =~= seq!["arg1"@, "arg2"@]);
            assert(ins1.deep_view() =~= seq![
                crate::function::FunctionInputModel {
                    name: "input"@,
                    description: "input_desc"@,
                },
                crate::function::FunctionInputModel {
                    name: "input2"@,
                    description: "input_desc"@,
                },
            ]);
            assert(outs1.deep_view() =~= seq![
                crate::function::FunctionOutputModel {
                    name: "output"@,
                    description: "output_desc"@,
                },
                crate::function::FunctionOutputModel {
                    name: "output2"@,
                    description: "output_desc"@,
                },
            ]);
        }
        let payload1: Vec<u8> = vec![77u8, 80u8];
        proof {
            assert(payload1.deep_view() =~= seq![77u8, 80u8]);
        }
        let function1 = Function::new().id(
            String::from_str("00000000-0000-0000-0000-000000000001"),
        ).name(String::from_str("mock-func-1")).description(String::from_str("mock-desc")).payload(
            payload1,
        ).public(true).arguments(args1).inputs(ins1).outputs(outs1).owner(
            String::from_str("teaclave"),
        );
        self.write_entity(&StoredEntity::Fun(function1));
        let mut args2: Vec<String> = Vec::new();
        args2.push(String::from_str("arg1"));
        let mut outs2: Vec<crate::function::FunctionOutput> = Vec::new();
        outs2.push(
            crate::function::FunctionOutput::new(
                String::from_str("output"),
                String::from_str("output_desc"),
            ),
        );
        proof {
            assert(args2.deep_view() =~= seq!["arg1"@]);
            assert(outs2.deep_view() =~= seq![
                crate::function::FunctionOutputModel {
                    name: "output"@,
                    description: "output_desc"@,
                },
            ]);
        }
        let payload2: Vec<u8> = vec![77u8, 80u8];
        proof {
            assert(payload2.deep_view() =~= seq![77u8, 80u8]);
        }
        let function2 = Function::new().id(
            String::from_str("00000000-0000-0000-0000-000000000002"),
        ).name(String::from_str("mock-func-2")).description(String::from_str("mock-desc")).payload(
            payload2,
        ).public(true).arguments(args2).outputs(outs2).owner(String::from_str("teaclave"));
        self.write_entity(&StoredEntity::Fun(function2));
        Ok(())
    }

    /// Registers an input file owned by the caller alone.
    pub fn register_input_file(
        &mut self,
        user: &String,
        url: String,
        cmac: Vec<u8>,
        crypto_info: FileCrypto,
    ) -> (r: Result<ExternalID, ServiceError>)
        requires
            old(self).wf(),
            cmac.deep_view().len() >= 1,
        ensures
            final(self).wf(),
            r is Ok,
            r matches Ok(id) ==> {
                &&& id.prefix@ == input_file_prefix()
                &&& final(self).model@ == old(self).model@.insert(
                    spec_key_bytes(input_file_prefix(), id.uuid@),
                    EntityModel::In(
                        InputFileModel {
                            url: url@,
                            cmac: cmac.deep_view(),
                            crypto_info: crypto_info.deep_view(),
                            owner: seq![user@],
                            uuid: id.uuid@,
                        },
                    ),
                )
            },
            final(self).staged == old(self).staged,
    {
        let mut owner: Vec<String> = Vec::new();
        owner.push(user.clone());
        proof {
            assert(owner.deep_view() =~= seq![user@]);
        }
        let file = TeaclaveInputFile::new(url, cmac, crypto_info, owner);
        let id = file.external_id();
        self.write_entity(&StoredEntity::In(file));
        Ok(id)
    }

    /// Registers an output file owned by the caller alone, not finalized.
    pub fn register_output_file(
        &mut self,
        user: &String,
        url: String,
        crypto_info: FileCrypto,
    ) -> (r: Result<ExternalID, ServiceError>)
        requires
            old(self).wf(),
        ensures
            final(self).wf(),
            r is Ok,
            r matches Ok(id) ==> {
                &&& id.prefix@ == output_file_prefix()
                &&& final(self).model@ == old(self).model@.insert(
                    spec_key_bytes(output_file_prefix(), id.uuid@),
                    EntityModel::Out(
                        OutputFileModel {
                            url: url@,
                            cmac: None,
                            crypto_info: crypto_info.deep_view(),
                            owner: seq![user@],
                            uuid: id.uuid@,
                        },
                    ),
                )
            },
            final(self).staged == old(self).staged,
    {
        let mut owner: Vec<String> = Vec::new();
        owner.push(user.clone());
        proof {
            assert(owner.deep_view() =~= seq![user@]);
        }
        let file = TeaclaveOutputFile::new(url, crypto_info, owner);
        let id = file.external_id();
        self.write_entity(&StoredEntity::Out(file));
        Ok(id)
    }

    /// Builds a fusion output file: a fresh UUID under the synthetic fusion
    /// URL, default crypto, no tag yet, owned by the given users. Fails with
    /// a data error exactly when the synthetic URL is not a valid URL;
    /// which, since the drawn identifier always has the canonical UUID
    /// shape, cannot happen unless the URL parser rejects such a URL.
    pub fn create_fusion_data(&self, owners: Vec<String>) -> (r: Result<
        TeaclaveOutputFile,
        ServiceError,
    >)
        ensures
            (forall|u: Seq<char>|
                crate::trusted::uuid_shape(u) ==> #[trigger] url_ok(spec_fusion_url(u))) ==> r
                is Ok,
            r matches Ok(f) ==> {
                &&& f.url@ == spec_fusion_url(f.uuid@)
                &&& url_ok(f.url@)
                &&& f.cmac is None
                &&& f.crypto_info.deep_view() == default_crypto_model()
                &&& f.owner.deep_view() == owners.deep_view()
                &&& f.uuid@.len() == 36
                &&& crate::trusted::uuid_shape(f.uuid@)
            },
            r is Err ==> r == Err::<TeaclaveOutputFile, ServiceError>(ServiceError::DataError),
    {
        let uuid = fresh_uuid();
        let mut url = String::from_str("fusion:///TEACLAVE_FUSION_BASE/");
        url.append(uuid.as_str());
        url.append(".fusion");
        proof {
            assert(url@ == spec_fusion_url(uuid@));
        }
        if !check_url(url.as_str()) {
            proof {
                assert(!url_ok(spec_fusion_url(uuid@)));
            }
            return Err(ServiceError::DataError);
        }
        Ok(
            TeaclaveOutputFile {
                url,
                cmac: None,
                crypto_info: FileCrypto::default(),
                owner: owners,
                uuid,
            },
        )
    }

    /// Registers a fusion output shared by at least two distinct users, the
    /// caller among them; anything else is denied.
    pub fn register_fusion_output(&mut self, user: &String, owner_list: Vec<String>) -> (r: Result<
        ExternalID,
        ServiceError,
    >)
        requires
            old(self).wf(),
        ensures
            final(self).wf(),
            final(self).staged == old(self).staged,
            !(crate::owners::two_distinct(owner_list.deep_view())
                && owner_list.deep_view().contains(user@)) ==> r == Err::<
                ExternalID,
                ServiceError,
            >(ServiceError::PermissionDenied) && final(self).model == old(self).model,
            (crate::owners::two_distinct(owner_list.deep_view())
                && owner_list.deep_view().contains(user@) && (forall|u: Seq<char>|
                crate::trusted::uuid_shape(u) ==> #[trigger] url_ok(spec_fusion_url(u)))) ==> r
                is Ok,
            (crate::owners::two_distinct(owner_list.deep_view())
                && owner_list.deep_view().contains(user@) && r is Err) ==> r == Err::<
                ExternalID,
                ServiceError,
            >(ServiceError::DataError),
            r matches Ok(id) ==> {
                &&& crate::owners::two_distinct(owner_list.deep_view())
                &&& owner_list.deep_view().contains(user@)
                &&& id.prefix@ == output_file_prefix()
                &&& (exists|u: Seq<char>|
                    final(self).model@ == old(self).model@.insert(
                        spec_key_bytes(output_file_prefix(), id.uuid@),
                        EntityModel::Out(
                            OutputFileModel {
                                url: spec_fusion_url(u),
                                cmac: None,
                                crypto_info: default_crypto_model(),
                                owner: owner_list.deep_view(),
                                uuid: id.uuid@,
                            },
                        ),
                    ) && #[trigger] url_ok(spec_fusion_url(u)) && u == id.uuid@)
            },
            r is Err ==> final(self).model == old(self).model && (r == Err::<
                ExternalID,
                ServiceError,
            >(ServiceError::PermissionDenied) || r == Err::<ExternalID, ServiceError>(
                ServiceError::DataError,
            )),
    {
        let two = crate::owners::has_two_distinct(&owner_list);
        let member = crate::owners::vec_contains_str(&owner_list, user);
        if !(two && member) {
            return Err(ServiceError::PermissionDenied);
        }
        let ghost odv = owner_list.deep_view();
        let file = match self.create_fusion_data(owner_list) {
            Ok(f) => f,
            Err(e) => {
                return Err(ServiceError::DataError);
            },
        };
        proof {
            let i = choose|i: int, j: int|
                0 <= i < odv.len() && 0 <= j < odv.len() && odv[i] != odv[j];
        }
        let id = file.external_id();
        self.write_entity(&StoredEntity::Out(file));
        Ok(id)
    }

    /// Derives an input file from a finalized output file the caller owns.
    pub fn register_input_from_output(&mut self, user: &String, data_id: &ExternalID) -> (r:
        Result<ExternalID, ServiceError>)
        requires
            old(self).wf(),
        ensures
            final(self).wf(),
            final(self).staged == old(self).staged,
            r is Ok <==> {
                &&& old(self).lookup_output(data_id.deep_view()) matches Some(o)
                &&& o.owner.contains(user@)
                &&& o.cmac is Some
            },
            r is Err ==> r == Err::<ExternalID, ServiceError>(ServiceError::PermissionDenied)
                && final(self).model == old(self).model,
            r matches Ok(id) ==> {
                &&& id.prefix@ == input_file_prefix()
                &&& (old(self).lookup_output(data_id.deep_view()) matches Some(o)
                    && final(self).model@ == old(self).model@.insert(
                    spec_key_bytes(input_file_prefix(), id.uuid@),
                    EntityModel::In(
                        InputFileModel {
                            url: o.url,
                            cmac: o.cmac->0,
                            crypto_info: o.crypto_info,
                            owner: o.owner,
                            uuid: id.uuid@,
                        },
                    ),
                ))
            },
    {
        let output = match self.read_output(data_id) {
            Some(o) => o,
            None => {
                return Err(ServiceError::PermissionDenied);
            },
        };
        if !crate::owners::vec_contains_str(&output.owner, user) {
            return Err(ServiceError::PermissionDenied);
        }
        let input = match TeaclaveInputFile::from_output(output) {
            Ok(f) => f,
            Err(_) => {
                return Err(ServiceError::PermissionDenied);
            },
        };
        let id = input.external_id();
        self.write_entity(&StoredEntity::In(input));
        Ok(id)
    }

    /// Returns the owners and tag of an input file; exactly the owners may
    /// ask.
    pub fn get_input_file(&self, user: &String, data_id: &ExternalID) -> (r: Result<
        (Vec<String>, Vec<u8>),
        ServiceError,
    >)
        requires
            self.wf(),
        ensures
            r is Ok <==> (self.lookup_input(data_id.deep_view()) matches Some(f)
                && f.owner.contains(user@)),
            r matches Ok(resp) ==> (self.lookup_input(data_id.deep_view()) matches Some(f)
                && resp.0.deep_view() == f.owner && resp.1.deep_view() == f.cmac),
            r is Err ==> r == Err::<(Vec<String>, Vec<u8>), ServiceError>(
                ServiceError::PermissionDenied,
            ),
    {
        let file = match self.read_input(data_id) {
            Some(f) => f,
            None => {
                return Err(ServiceError::PermissionDenied);
            },
        };
        if !crate::owners::vec_contains_str(&file.owner, user) {
            return Err(ServiceError::PermissionDenied);
        }
        Ok((file.owner, file.cmac))
    }

    /// Returns the owners and tag (if finalized) of an output file; exactly
    /// the owners may ask.
    pub fn get_output_file(&self, user: &String, data_id: &ExternalID) -> (r: Result<
        (Vec<String>, Option<Vec<u8>>),
        ServiceError,
    >)
        requires
            self.wf(),
        ensures
            r is Ok <==> (self.lookup_output(data_id.deep_view()) matches Some(f)
                && f.owner.contains(user@)),
            r matches Ok(resp) ==> (self.lookup_output(data_id.deep_view()) matches Some(f)
                && resp.0.deep_view() == f.owner && resp.1.deep_view() == f.cmac),
            r is Err ==> r == Err::<(Vec<String>, Option<Vec<u8>>), ServiceError>(
                ServiceError::PermissionDenied,
            ),
    {
        let file = match self.read_output(data_id) {
            Some(f) => f,
            None => {
                return Err(ServiceError::PermissionDenied);
            },
        };
        if !crate::owners::vec_contains_str(&file.owner, user) {
            return Err(ServiceError::PermissionDenied);
        }
        Ok((file.owner, file.cmac))
    }

    /// Registers a function under a fresh identifier, owned by the caller.
    pub fn register_function(&mut self, user: &String, function: Function) -> (r: Result<
        ExternalID,
        ServiceError,
    >)
        requires
            old(self).wf(),
        ensures
            final(self).wf(),
            final(self).staged == old(self).staged,
            r is Ok,
            r matches Ok(id) ==> {
                &&& id.prefix@ == function_prefix()
                &&& final(self).model@ == old(self).model@.insert(
                    spec_key_bytes(function_prefix(), id.uuid@),
                    EntityModel::Fun(
                        FunctionModel { uuid: id.uuid@, owner: user@, ..function.deep_view() },
                    ),
                )
            },
    {
        let f = function.id(fresh_uuid()).owner(user.clone());
        let id = f.external_id();
        self.write_entity(&StoredEntity::Fun(f));
        Ok(id)
    }

    /// Returns a function; allowed exactly when it is public or the caller
    /// owns it.
    pub fn get_function(&self, user: &String, function_id: &ExternalID) -> (r: Result<
        Function,
        ServiceError,
    >)
        requires
            self.wf(),
        ensures
            r is Ok <==> (self.lookup_function(function_id.deep_view()) matches Some(f) && (
            f.public || f.owner == user@)),
            r matches Ok(f) ==> self.lookup_function(function_id.deep_view()) == Some(
                f.deep_view(),
            ),
            r is Err ==> r == Err::<Function, ServiceError>(ServiceError::PermissionDenied),
    {
        let f = match self.read_function(function_id) {
            Some(f) => f,
            None => {
                return Err(ServiceError::PermissionDenied);
            },
        };
        if f.public || f.owner == *user {
            Ok(f)
        } else {
            Err(ServiceError::PermissionDenied)
        }
    }

    /// Creates a task over a function the caller may read: its argument
    /// names and slot names must match the function exactly.
    pub fn create_task(
        &mut self,
        user: &String,
        executor: String,
        function_arguments: StringMap<String>,
        inputs_ownership: StringMap<Vec<String>>,
        outputs_ownership: StringMap<Vec<String>>,
        function_id: &ExternalID,
    ) -> (r: Result<ExternalID, ServiceError>)
        requires
            old(self).wf(),
            function_arguments.wf(),
            inputs_ownership.wf(),
            outputs_ownership.wf(),
        ensures
            final(self).wf(),
            final(self).staged == old(self).staged,
            r is Err ==> final(self).model == old(self).model,
            (old(self).lookup_function(function_id.deep_view()) is None) ==> r == Err::<
                ExternalID,
                ServiceError,
            >(ServiceError::PermissionDenied),
            (old(self).lookup_function(function_id.deep_view()) matches Some(f) && !(f.public
                || f.owner == user@)) ==> r == Err::<ExternalID, ServiceError>(
                ServiceError::PermissionDenied,
            ),
            r is Ok <==> (old(self).lookup_function(function_id.deep_view()) matches Some(f) && (
            f.public || f.owner == user@) && (forall|q: Seq<char>|
                #[trigger] map_contains(function_arguments.deep_view(), q) == f.arguments.contains(
                    q,
                )) && (forall|q: Seq<char>|
                #[trigger] map_contains(inputs_ownership.deep_view(), q) == f.inputs.map_values(
                    |x: crate::function::FunctionInputModel| x.name,
                ).contains(q)) && (forall|q: Seq<char>|
                #[trigger] map_contains(outputs_ownership.deep_view(), q) == f.outputs.map_values(
                    |x: crate::function::FunctionOutputModel| x.name,
                ).contains(q))),
            (old(self).lookup_function(function_id.deep_view()) matches Some(f) && (f.public
                || f.owner == user@) && r is Err) ==> r == Err::<ExternalID, ServiceError>(
                ServiceError::BadTask,
            ),
            r matches Ok(id) ==> {
                &&& id.prefix@ == task_prefix()
                &&& (final(self).lookup_task(
                    ExternalIDModel { prefix: task_prefix(), uuid: id.uuid@ },
                ) matches Some(t) && {
                    &&& final(self).model@ == old(self).model@.insert(
                        spec_key_bytes(task_prefix(), id.uuid@),
                        EntityModel::Tsk(t),
                    )
                    &&& t.creator == user@
                    &&& t.executor == executor@
                    &&& t.function_arguments == function_arguments.deep_view()
                    &&& t.inputs_ownership == inputs_ownership.deep_view()
                    &&& t.outputs_ownership == outputs_ownership.deep_view()
                    &&& t.approved_users == Seq::<Seq<char>>::empty()
                    &&& t.assigned_inputs == Seq::<(Seq<char>, InputFileModel)>::empty()
                    &&& t.assigned_outputs == Seq::<(Seq<char>, OutputFileModel)>::empty()
                    &&& t.status == TaskStatus::Created
                    &&& t.result == crate::task::TaskResultModel::NotReady
                    &&& task_wf(t)
                    &&& (old(self).lookup_function(function_id.deep_view()) matches Some(f)
                        && t.function_id == (ExternalIDModel {
                        prefix: function_prefix(),
                        uuid: f.uuid,
                    }) && t.function_owner == f.owner)
                    &&& (forall|u: Seq<char>|
                        #[trigger] t.participants.contains(u) <==> (u == user@
                            || crate::task::owner_declared(inputs_ownership.deep_view(), u)
                            || crate::task::owner_declared(outputs_ownership.deep_view(), u)))
                })
            },
    {
        let function = match self.read_function(function_id) {
            Some(f) => f,
            None => {
                return Err(ServiceError::PermissionDenied);
            },
        };
        if !(function.public || function.owner == *user) {
            return Err(ServiceError::PermissionDenied);
        }
        let task = match Task::new(
            user.clone(),
            executor,
            function_arguments,
            inputs_ownership,
            outputs_ownership,
            function,
        ) {
            Ok(t) => t,
            Err(_) => {
                return Err(ServiceError::BadTask);
            },
        };
        let id = task.external_id();
        self.write_entity(&StoredEntity::Tsk(task));
        Ok(id)
    }

    /// Returns a task; exactly its participants may ask.
    pub fn get_task(&self, user: &String, task_id: &ExternalID) -> (r: Result<Task, ServiceError>)
        requires
            self.wf(),
        ensures
            r is Ok <==> (self.lookup_task(task_id.deep_view()) matches Some(t)
                && t.participants.contains(user@)),
            r matches Ok(t) ==> self.lookup_task(task_id.deep_view()) == Some(t.deep_view()),
            r is Err ==> r == Err::<Task, ServiceError>(ServiceError::PermissionDenied),
    {
        let task = match self.read_task(task_id) {
            Some(t) => t,
            None => {
                return Err(ServiceError::PermissionDenied);
            },
        };
        if !crate::owners::vec_contains_str(&task.participants, user) {
            return Err(ServiceError::PermissionDenied);
        }
        Ok(task)
    }


    /// Assigns files to a task's declared slots: callable by participants
    /// while the task is in `Created` or `DataAssigned`, and every named
    /// entry must be acceptable, or the whole call is denied and nothing is
    /// persisted. The status is recomputed afterwards and never regresses.
    pub fn assign_data(
        &mut self,
        user: &String,
        task_id: &ExternalID,
        inputs: &Vec<(String, ExternalID)>,
        outputs: &Vec<(String, ExternalID)>,
    ) -> (r: Result<(), ServiceError>)
        requires
            old(self).wf(),
        ensures
            final(self).wf(),
            final(self).staged == old(self).staged,
            r is Ok <==> (old(self).lookup_task(task_id.deep_view()) matches Some(t)
                && t.participants.contains(user@) && (t.status is Created || t.status
                is DataAssigned) && (forall|j: int|
                0 <= j < inputs.deep_view().len() ==> old(self).input_entry_ok(
                    t,
                    user@,
                    #[trigger] inputs.deep_view()[j].0,
                    inputs.deep_view()[j].1,
                )) && (forall|j: int|
                0 <= j < outputs.deep_view().len() ==> old(self).output_entry_ok(
                    t,
                    user@,
                    #[trigger] outputs.deep_view()[j].0,
                    outputs.deep_view()[j].1,
                ))),
            r is Err ==> final(self).model == old(self).model && r == Err::<(), ServiceError>(
                ServiceError::PermissionDenied,
            ),
            r is Ok ==> (old(self).lookup_task(task_id.deep_view()) matches Some(t)
                && (final(self).lookup_task(task_id.deep_view()) matches Some(t2) && {
                &&& final(self).model@ == old(self).model@.insert(
                    spec_key_bytes(task_prefix(), t.uuid),
                    EntityModel::Tsk(t2),
                )
                &&& (forall|q: Seq<char>|
                    #[trigger] map_find(t2.assigned_inputs, q) == old(self).fold_assigned_inputs(
                        t,
                        inputs.deep_view(),
                        inputs.deep_view().len() as int,
                        q,
                    ))
                &&& (forall|q: Seq<char>|
                    #[trigger] map_find(t2.assigned_outputs, q) == old(self).fold_assigned_outputs(
                        t,
                        outputs.deep_view(),
                        outputs.deep_view().len() as int,
                        q,
                    ))
                &&& t2.approved_users == t.approved_users
                &&& t2.participants == t.participants
                &&& t2.creator == t.creator
                &&& t2.uuid == t.uuid
                &&& t2.function_id == t.function_id
                &&& t2.function_owner == t.function_owner
                &&& t2.executor == t.executor
                &&& t2.function_arguments == t.function_arguments
                &&& t2.inputs_ownership == t.inputs_ownership
                &&& t2.outputs_ownership == t.outputs_ownership
                &&& t2.result == t.result
                &&& t2.status == step_status(
                    TaskModel {
                        assigned_inputs: t2.assigned_inputs,
                        assigned_outputs: t2.assigned_outputs,
                        ..t
                    },
                )
                &&& task_wf(t2)
                &&& crate::status::status_le(t.status, t2.status)
            })),
    {
        let task0 = match self.read_task(task_id) {
            Some(t) => t,
            None => {
                return Err(ServiceError::PermissionDenied);
            },
        };
        if !crate::owners::vec_contains_str(&task0.participants, user) {
            return Err(ServiceError::PermissionDenied);
        }
        let status_ok = match task0.status {
            TaskStatus::Created => true,
            TaskStatus::DataAssigned => true,
            _ => false,
        };
        if !status_ok {
            return Err(ServiceError::PermissionDenied);
        }
        let mut task = task0;
        let ghost t = task.deep_view();
        let ghost idv = inputs.deep_view();
        let ghost odv = outputs.deep_view();
        let mut i: usize = 0;
        while i < inputs.len()
            invariant
                0 <= i <= idv.len(),
                idv == inputs.deep_view(),
                idv.len() == inputs.len(),
                self == old(self),
                self.wf(),
                t == old(self).lookup_task(task_id.deep_view())->Some_0,
                old(self).lookup_task(task_id.deep_view()) is Some,
                task_wf(task.deep_view()),
                task.deep_view() == (TaskModel {
                    assigned_inputs: task.deep_view().assigned_inputs,
                    ..t
                }),
                forall|j: int|
                    0 <= j < i ==> old(self).input_entry_ok(
                        t,
                        user@,
                        #[trigger] idv[j].0,
                        idv[j].1,
                    ),
                forall|q: Seq<char>|
                    #[trigger] map_find(task.deep_view().assigned_inputs, q) == old(
                        self,
                    ).fold_assigned_inputs(t, idv, i as int, q),
            decreases idv.len() - i,
        {
            let name = &inputs[i].0;
            let data_id = &inputs[i].1;
            let file = match self.read_input(data_id) {
                Some(f) => f,
                None => {
                    proof {
                        assert(!old(self).input_entry_ok(t, user@, idv[i as int].0, idv[
                            i as int
                        ].1));
                    }
                    return Err(ServiceError::PermissionDenied);
                },
            };
            let ghost fdv = file.deep_view();
            let ghost before = task.deep_view();
            match task.assign_input(user, name, file) {
                Ok(()) => {
                    proof {
                        assert(old(self).input_entry_ok(t, user@, idv[i as int].0, idv[
                            i as int
                        ].1)) by {
                            assert(map_find(before.inputs_ownership, name@) is Some);
                            assert(before.inputs_ownership == t.inputs_ownership);
                        }
                        assert forall|q: Seq<char>|
                            #[trigger] map_find(task.deep_view().assigned_inputs, q) == old(
                                self,
                            ).fold_assigned_inputs(t, idv, i as int + 1, q) by {
                            if q == idv[i as int].0 {
                                assert(map_find(task.deep_view().assigned_inputs, q) == Some(fdv));
                            } else {
                                assert(map_find(task.deep_view().assigned_inputs, q) == map_find(
                                    before.assigned_inputs,
                                    q,
                                ));
                            }
                        }
                    }
                },
                Err(_) => {
                    proof {
                        assert(!old(self).input_entry_ok(t, user@, idv[i as int].0, idv[
                            i as int
                        ].1)) by {
                            assert(before.inputs_ownership == t.inputs_ownership);
                        }
                    }
                    return Err(ServiceError::PermissionDenied);
                },
            }
            i += 1;
        }
        let mut j: usize = 0;
        while j < outputs.len()
            invariant
                0 <= j <= odv.len(),
                odv == outputs.deep_view(),
                odv.len() == outputs.len(),
                idv == inputs.deep_view(),
                self == old(self),
                self.wf(),
                t == old(self).lookup_task(task_id.deep_view())->Some_0,
                old(self).lookup_task(task_id.deep_view()) is Some,
                task_wf(task.deep_view()),
                task.deep_view() == (TaskModel {
                    assigned_inputs: task.deep_view().assigned_inputs,
                    assigned_outputs: task.deep_view().assigned_outputs,
                    ..t
                }),
                forall|q: Seq<char>|
                    #[trigger] map_find(task.deep_view().assigned_inputs, q) == old(
                        self,
                    ).fold_assigned_inputs(t, idv, idv.len() as int, q),
                forall|jj: int|
                    0 <= jj < idv.len() ==> old(self).input_entry_ok(
                        t,
                        user@,
                        #[trigger] idv[jj].0,
                        idv[jj].1,
                    ),
                forall|jj: int|
                    0 <= jj < j ==> old(self).output_entry_ok(
                        t,
                        user@,
                        #[trigger] odv[jj].0,
                        odv[jj].1,
                    ),
                forall|q: Seq<char>|
                    #[trigger] map_find(task.deep_view().assigned_outputs, q) == old(
                        self,
                    ).fold_assigned_outputs(t, odv, j as int, q),
            decreases odv.len() - j,
        {
            let name = &outputs[j].0;
            let data_id = &outputs[j].1;
            let file = match self.read_output(data_id) {
                Some(f) => f,
                None => {
                    proof {
                        assert(!old(self).output_entry_ok(t, user@, odv[j as int].0, odv[
                            j as int
                        ].1));
                    }
                    return Err(ServiceError::PermissionDenied);
                },
            };
            let ghost fdv = file.deep_view();
            let ghost before = task.deep_view();
            match task.assign_output(user, name, file) {
                Ok(()) => {
                    proof {
                        assert(old(self).output_entry_ok(t, user@, odv[j as int].0, odv[
                            j as int
                        ].1)) by {
                            assert(map_find(before.outputs_ownership, name@) is Some);
                            assert(before.outputs_ownership == t.outputs_ownership);
                        }
                        assert forall|q: Seq<char>|
                            #[trigger] map_find(task.deep_view().assigned_outputs, q) == old(
                                self,
                            ).fold_assigned_outputs(t, odv, j as int + 1, q) by {
                            if q == odv[j as int].0 {
                                assert(map_find(task.deep_view().assigned_outputs, q) == Some(
                                    fdv,
                                ));
                            } else {
                                assert(map_find(task.deep_view().assigned_outputs, q) == map_find(
                                    before.assigned_outputs,
                                    q,
                                ));
                            }
                        }
                    }
                },
                Err(_) => {
                    proof {
                        assert(!old(self).output_entry_ok(t, user@, odv[j as int].0, odv[
                            j as int
                        ].1)) by {
                            assert(before.outputs_ownership == t.outputs_ownership);
                        }
                    }
                    return Err(ServiceError::PermissionDenied);
                },
            }
            j += 1;
        }
        task.update_status();
        proof {
            lemma_key_determines_kind(
                old(self).model@[spec_key_bytes(task_id.prefix@, task_id.uuid@)],
                task_prefix(),
                task_id.uuid@,
            );
        }
        self.write_entity(&StoredEntity::Tsk(task));
        Ok(())
    }

    /// Records the caller's consent on a task. Repeating an approval is a
    /// no-op on the approval set; once every non-creator participant has
    /// approved, the task becomes `Approved`. The status never regresses.
    pub fn approve_task(&mut self, user: &String, task_id: &ExternalID) -> (r: Result<
        (),
        ServiceError,
    >)
        requires
            old(self).wf(),
        ensures
            final(self).wf(),
            final(self).staged == old(self).staged,
            r is Ok <==> (old(self).lookup_task(task_id.deep_view()) matches Some(t) && t.status
                is DataAssigned && t.participants.contains(user@) && user@ != t.creator),
            r is Err ==> final(self).model == old(self).model && r == Err::<(), ServiceError>(
                ServiceError::PermissionDenied,
            ),
            r is Ok ==> (old(self).lookup_task(task_id.deep_view()) matches Some(t) && {
                let approved2 = if t.approved_users.contains(user@) {
                    t.approved_users
                } else {
                    t.approved_users.push(user@)
                };
                let t2 = TaskModel {
                    approved_users: approved2,
                    status: step_status(TaskModel { approved_users: approved2, ..t }),
                    ..t
                };
                &&& final(self).model@ == old(self).model@.insert(
                    spec_key_bytes(task_prefix(), t.uuid),
                    EntityModel::Tsk(t2),
                )
                &&& final(self).lookup_task(task_id.deep_view()) == Some(t2)
                &&& crate::status::status_le(t.status, t2.status)
            }),
    {
        let mut task = match self.read_task(task_id) {
            Some(t) => t,
            None => {
                return Err(ServiceError::PermissionDenied);
            },
        };
        let ghost t = task.deep_view();
        match task.approve(user) {
            Ok(()) => {
            },
            Err(_) => {
                return Err(ServiceError::PermissionDenied);
            },
        }
        proof {
            lemma_key_determines_kind(
                old(self).model@[spec_key_bytes(task_id.prefix@, task_id.uuid@)],
                task_prefix(),
                task_id.uuid@,
            );
        }
        self.write_entity(&StoredEntity::Tsk(task));
        Ok(())
    }

    /// Dispatches an approved task: only its creator may invoke it, only in
    /// `Approved`; the staged record is appended to the queue and the task
    /// becomes `Staged`.
    pub fn invoke_task(&mut self, user: &String, task_id: &ExternalID) -> (r: Result<
        (),
        ServiceError,
    >)
        requires
            old(self).wf(),
        ensures
            final(self).wf(),
            r is Ok <==> (old(self).lookup_task(task_id.deep_view()) matches Some(t) && t.creator
                == user@ && t.status is Approved && old(self).lookup_function(t.function_id)
                is Some),
            r is Err ==> final(self).model == old(self).model && final(self).staged == old(
                self,
            ).staged && r == Err::<(), ServiceError>(ServiceError::PermissionDenied),
            r is Ok ==> (old(self).lookup_task(task_id.deep_view()) matches Some(t) && old(
                self,
            ).lookup_function(t.function_id) matches Some(f) && {
                let t2 = TaskModel { status: TaskStatus::Staged, ..t };
                let st = StagedTaskModel {
                    task_id: t.uuid,
                    executor: t.executor,
                    function_payload: f.payload,
                    function_arguments: t.function_arguments,
                    input_data: t.assigned_inputs.map_values(
                        |p: (Seq<char>, InputFileModel)|
                            (p.0, crate::task::FunctionInputFile::of_input_model(p.1)),
                    ),
                    output_data: t.assigned_outputs.map_values(
                        |p: (Seq<char>, OutputFileModel)|
                            (p.0, crate::task::FunctionOutputFile::of_output_model(p.1)),
                    ),
                };
                &&& final(self).model@ == old(self).model@.insert(
                    spec_key_bytes(task_prefix(), t.uuid),
                    EntityModel::Tsk(t2),
                )
                &&& final(self).lookup_task(task_id.deep_view()) == Some(t2)
                &&& final(self).staged@ == old(self).staged@.push(st)
                &&& crate::status::status_le(t.status, t2.status)
            }),
    {
        let task0 = match self.read_task(task_id) {
            Some(t) => t,
            None => {
                return Err(ServiceError::PermissionDenied);
            },
        };
        if !(*user == task0.creator) {
            return Err(ServiceError::PermissionDenied);
        }
        let is_approved = match task0.status {
            TaskStatus::Approved => true,
            _ => false,
        };
        if !is_approved {
            return Err(ServiceError::PermissionDenied);
        }
        let function = match self.read_function(&task0.function_id) {
            Some(f) => f,
            None => {
                return Err(ServiceError::PermissionDenied);
            },
        };
        let mut task = task0;
        let st = task.stage_for_running(&function);
        proof {
            lemma_key_determines_kind(
                old(self).model@[spec_key_bytes(task_id.prefix@, task_id.uuid@)],
                task_prefix(),
                task_id.uuid@,
            );
        }
        self.enqueue_staged(&st);
        self.write_entity(&StoredEntity::Tsk(task));
        Ok(())
    }
}

/// Checks that an input file matches its own key space and survives the
/// codec round trip.
pub fn handle_input_file() {
    let url = String::from_str("s3://bucket_id/path?token=mock_token");
    let cmac: Vec<u8> = vec![0u8; 16];
    let mut owner: Vec<String> = Vec::new();
    owner.push(String::from_str("mock_user"));
    let file = TeaclaveInputFile::new(url, cmac, FileCrypto::default(), owner);
    let key = file.key_string();
    let prefix_ok = TeaclaveInputFile::match_prefix(&key);
    proof {
        crate::file::lemma_key_prefix_matches(input_file_prefix(), file.uuid@);
    }
    assert(prefix_ok);
    let ghost fdv = file.deep_view();
    let bytes = crate::value::encode_to_vec(&file.to_value());
    let decoded = crate::value::decode_from_bytes(&bytes);
    match decoded {
        Some(v) => {
            match TeaclaveInputFile::of_value(v) {
                Some(back) => {
                    assert(back.deep_view() == fdv);
                },
                None => {
                    assert(false);
                },
            }
        },
        None => {
            assert(false);
        },
    }
}

/// Checks that an output file matches its own key space and survives the
/// codec round trip.
pub fn handle_output_file() {
    let url = String::from_str("s3://bucket_id/path?token=mock_token");
    let mut owner: Vec<String> = Vec::new();
    owner.push(String::from_str("mock_user"));
    let file = TeaclaveOutputFile::new(url, FileCrypto::default(), owner);
    let key = file.key_string();
    let prefix_ok = TeaclaveOutputFile::match_prefix(&key);
    proof {
        crate::file::lemma_key_prefix_matches(output_file_prefix(), file.uuid@);
    }
    assert(prefix_ok);
    let ghost fdv = file.deep_view();
    let bytes = crate::value::encode_to_vec(&file.to_value());
    let decoded = crate::value::decode_from_bytes(&bytes);
    match decoded {
        Some(v) => {
            match TeaclaveOutputFile::of_value(v) {
                Some(back) => {
                    assert(back.deep_view() == fdv);
                },
                None => {
                    assert(false);
                },
            }
        },
        None => {
            assert(false);
        },
    }
}

/// Checks that a function matches its own key space and survives the codec
/// round trip.
pub fn handle_function() {
    let mut args: Vec<String> = Vec::new();
    args.push(String::from_str("arg"));
    let mut ins: Vec<crate::function::FunctionInput> = Vec::new();
    ins.push(
        crate::function::FunctionInput::new(
            String::from_str("input"),
            String::from_str("input_desc"),
        ),
    );
    let mut outs: Vec<crate::function::FunctionOutput> = Vec::new();
    outs.push(
        crate::function::FunctionOutput::new(
            String::from_str("output"),
            String::from_str("output_desc"),
        ),
    );
    let function = Function::new().name(String::from_str("mock_function")).description(
        String::from_str("mock function"),
    ).payload(vec![1u8, 2u8, 3u8]).arguments(args).inputs(ins).outputs(outs).public(true).owner(
        String::from_str("mock_user"),
    );
    let key = function.key_string();
    let prefix_ok = Function::match_prefix(&key);
    proof {
        crate::file::lemma_key_prefix_matches(function_prefix(), function.uuid@);
    }
    assert(prefix_ok);
    let ghost fdv = function.deep_view();
    let bytes = crate::value::encode_to_vec(&function.to_value());
    let decoded = crate::value::decode_from_bytes(&bytes);
    match decoded {
        Some(v) => {
            match Function::of_value(v) {
                Some(back) => {
                    assert(back.deep_view() == fdv);
                },
                None => {
                    assert(false);
                },
            }
        },
        None => {
            assert(false);
        },
    }
}

/// Checks that a freshly created task matches its own key space and survives
/// the codec round trip.
pub fn handle_task() {
    let mut args: Vec<String> = Vec::new();
    args.push(String::from_str("arg"));
    let function = Function::new().name(String::from_str("mock_function")).arguments(
        args,
    ).public(true).owner(String::from_str("mock_user"));
    let mut fargs: StringMap<String> = StringMap::new();
    fargs.insert(String::from_str("arg"), String::from_str("data"));
    let io: StringMap<Vec<String>> = StringMap::new();
    let oo: StringMap<Vec<String>> = StringMap::new();
    proof {
        assert forall|q: Seq<char>|
            #[trigger] map_contains(fargs.deep_view(), q) == function.arguments.deep_view()
                .contains(q) by {
            if q == "arg"@ {
                assert(function.arguments.deep_view()[0] == "arg"@);
            } else {
                if function.arguments.deep_view().contains(q) {
                    let i = choose|i: int|
                        0 <= i < function.arguments.deep_view().len()
                            && function.arguments.deep_view()[i] == q;
                    assert(i == 0);
                }
            }
        }
        assert forall|q: Seq<char>|
            #[trigger] map_contains(io.deep_view(), q) == function.inputs.deep_view().map_values(
                |x: crate::function::FunctionInputModel| x.name,
            ).contains(q) by {
            let mapped = function.inputs.deep_view().map_values(
                |x: crate::function::FunctionInputModel| x.name,
            );
            if mapped.contains(q) {
                let i = choose|i: int| 0 <= i < mapped.len() && mapped[i] == q;
            }
        }
        assert forall|q: Seq<char>|
            #[trigger] map_contains(oo.deep_view(), q) == function.outputs.deep_view().map_values(
                |x: crate::function::FunctionOutputModel| x.name,
            ).contains(q) by {
            let mapped = function.outputs.deep_view().map_values(
                |x: crate::function::FunctionOutputModel| x.name,
            );
            if mapped.contains(q) {
                let i = choose|i: int| 0 <= i < mapped.len() && mapped[i] == q;
            }
        }
    }
    let task_res = Task::new(
        String::from_str("mock_user"),
        String::from_str("mesapy"),
        fargs,
        io,
        oo,
        function,
    );
    match task_res {
        Ok(task) => {
            let key = task.key_string();
            let prefix_ok = Task::match_prefix(&key);
            proof {
                crate::file::lemma_key_prefix_matches(task_prefix(), task.uuid@);
            }
            assert(prefix_ok);
            let ghost tdv = task.deep_view();
            let bytes = crate::value::encode_to_vec(&task.to_value());
            let decoded = crate::value::decode_from_bytes(&bytes);
            match decoded {
                Some(v) => {
                    match Task::of_value(v) {
                        Some(back) => {
                            assert(back.deep_view() == tdv);
                        },
                        None => {
                            assert(false);
                        },
                    }
                },
                None => {
                    assert(false);
                },
            }
        },
        Err(_) => {
            assert(false);
        },
    }
}

/// Checks that a staged task survives the codec round trip.
pub fn handle_staged_task() {
    let mut fargs: StringMap<String> = StringMap::new();
    fargs.insert(String::from_str("arg"), String::from_str("data"));
    let staged = StagedTask::new().task_id(crate::trusted::fresh_uuid()).executor(
        String::from_str("mesapy"),
    ).function_payload(vec![9u8, 9u8]).function_arguments(fargs);
    let ghost sdv = staged.deep_view();
    let bytes = crate::value::encode_to_vec(&staged.to_value());
    let decoded = crate::value::decode_from_bytes(&bytes);
    match decoded {
        Some(v) => {
            match StagedTask::of_value(v) {
                Some(back) => {
                    assert(back.deep_view() == sdv);
                },
                None => {
                    assert(false);
                },
            }
        },
        None => {
            assert(false);
        },
    }
}

/// Runs every self-check above; they are all statically verified, so this
/// always succeeds.
pub fn run_tests() -> (r: bool)
    ensures
        r,
{
    handle_input_file();
    handle_output_file();
    handle_function();
    handle_task();
    handle_staged_task();
    true
}

} // verus!
