use teaclave_management::common::UserCredential;
use teaclave_management::errors::ServiceError;
use teaclave_management::file::{ExternalID, FileCrypto, TeaclaveInputFile, TeaclaveOutputFile};
use teaclave_management::file_agent::{FileAgentRequest, HandleFileCommand, HandleFileInfo};
use teaclave_management::function::{Function, FunctionInput, FunctionOutput};
use teaclave_management::service::{get_request_user_id, run_tests, TeaclaveManagementService};
use teaclave_management::status::TaskStatus;
use teaclave_management::strmap::StringMap;
use teaclave_management::task::{StagedTask, Task};
use teaclave_management::value::decode_from_bytes;
use teaclave_management::wire::Wire;

fn s(x: &str) -> String {
    x.to_string()
}

fn args_map(pairs: &[(&str, &str)]) -> StringMap<String> {
    let mut m: StringMap<String> = StringMap::new();
    for (k, v) in pairs {
        m.insert(s(k), s(v));
    }
    m
}

fn owners_map(pairs: &[(&str, &[&str])]) -> StringMap<Vec<String>> {
    let mut m: StringMap<Vec<String>> = StringMap::new();
    for (k, vs) in pairs {
        m.insert(s(k), vs.iter().map(|x| s(x)).collect());
    }
    m
}

#[test]
fn verified_self_checks_pass() {
    assert!(run_tests());
}

#[test]
fn request_user_id_extraction() {
    let meta = args_map(&[("id", "alice"), ("token", "t")]);
    assert_eq!(get_request_user_id(&meta), Ok(s("alice")));
    let empty = args_map(&[("token", "t")]);
    assert_eq!(get_request_user_id(&empty), Err(ServiceError::InvalidRequest));
    let cred = UserCredential::new(s("alice"), s("t"));
    assert_eq!(cred.id, s("alice"));
}

#[test]
fn register_and_get_input_file() {
    let mut svc = TeaclaveManagementService::new();
    let alice = s("alice");
    let bob = s("bob");
    let id = svc
        .register_input_file(&alice, s("s3://in"), vec![1u8; 16], FileCrypto::default())
        .unwrap();
    assert_eq!(id.prefix, s("input-file"));
    assert_eq!(id.uuid.chars().count(), 36);
    let (owner, cmac) = svc.get_input_file(&alice, &id).unwrap();
    assert_eq!(owner, vec![s("alice")]);
    assert_eq!(cmac, vec![1u8; 16]);
    assert_eq!(
        svc.get_input_file(&bob, &id),
        Err(ServiceError::PermissionDenied)
    );
}

#[test]
fn fusion_happy_path() {
    let mut svc = TeaclaveManagementService::new();
    let alice = s("alice");
    let o1 = svc
        .register_fusion_output(&alice, vec![s("alice"), s("bob")])
        .unwrap();
    assert_eq!(o1.prefix, s("output-file"));
    let (owner, cmac) = svc.get_output_file(&alice, &o1).unwrap();
    assert_eq!(owner, vec![s("alice"), s("bob")]);
    assert_eq!(cmac, None);
    assert_eq!(
        svc.get_output_file(&s("carol"), &o1),
        Err(ServiceError::PermissionDenied)
    );
}

#[test]
fn fusion_output_requires_two_distinct_owners_including_caller() {
    let mut svc = TeaclaveManagementService::new();
    let alice = s("alice");
    assert_eq!(
        svc.register_fusion_output(&alice, vec![s("alice")]),
        Err(ServiceError::PermissionDenied)
    );
    assert_eq!(
        svc.register_fusion_output(&alice, vec![s("alice"), s("alice")]),
        Err(ServiceError::PermissionDenied)
    );
    assert_eq!(
        svc.register_fusion_output(&s("carol"), vec![s("alice"), s("bob")]),
        Err(ServiceError::PermissionDenied)
    );
}

#[test]
fn input_from_output_requires_finalized_file() {
    let mut svc = TeaclaveManagementService::new();
    let alice = s("alice");
    let o1 = svc
        .register_output_file(&alice, s("s3://out"), FileCrypto::default())
        .unwrap();
    // Not finalized yet: no tag, so the derivation is denied.
    assert_eq!(
        svc.register_input_from_output(&alice, &o1),
        Err(ServiceError::PermissionDenied)
    );
    // Not an owner: denied, even for a bogus id.
    assert_eq!(
        svc.register_input_from_output(&s("bob"), &o1),
        Err(ServiceError::PermissionDenied)
    );
    // At the entity level, a finalized output derives an input that carries
    // everything over.
    let finalized = TeaclaveOutputFile {
        url: s("s3://done"),
        cmac: Some(vec![5u8; 16]),
        crypto_info: FileCrypto::default(),
        owner: vec![s("alice"), s("bob")],
        uuid: s("u-1"),
    };
    let input = TeaclaveInputFile::from_output(finalized).unwrap();
    assert_eq!(input.url, s("s3://done"));
    assert_eq!(input.cmac, vec![5u8; 16]);
    assert_eq!(input.owner, vec![s("alice"), s("bob")]);
    let pending = TeaclaveOutputFile {
        url: s("s3://pending"),
        cmac: None,
        crypto_info: FileCrypto::default(),
        owner: vec![s("alice")],
        uuid: s("u-2"),
    };
    assert_eq!(
        TeaclaveInputFile::from_output(pending),
        Err(ServiceError::PermissionDenied)
    );
}

#[test]
fn get_function_respects_visibility() {
    let mut svc = TeaclaveManagementService::new();
    let alice = s("alice");
    let private_fn = Function::new().name(s("private")).public(false);
    let fid = svc.register_function(&alice, private_fn).unwrap();
    assert_eq!(fid.prefix, s("function"));
    assert!(svc.get_function(&alice, &fid).is_ok());
    assert_eq!(
        svc.get_function(&s("bob"), &fid),
        Err(ServiceError::PermissionDenied)
    );
    let public_fn = Function::new().name(s("pub")).public(true);
    let fid2 = svc.register_function(&alice, public_fn).unwrap();
    assert!(svc.get_function(&s("bob"), &fid2).is_ok());
}

#[test]
fn prefix_mismatch_is_denial() {
    let mut svc = TeaclaveManagementService::new();
    let alice = s("alice");
    let fid = svc
        .register_function(&alice, Function::new().public(true))
        .unwrap();
    // A function id where an input file is expected: denied, not a typed
    // "wrong kind" error.
    assert_eq!(
        svc.get_input_file(&alice, &fid),
        Err(ServiceError::PermissionDenied)
    );
    assert_eq!(
        svc.get_output_file(&alice, &fid),
        Err(ServiceError::PermissionDenied)
    );
    let forged = ExternalID { prefix: s("input-file"), uuid: fid.uuid.clone() };
    assert_eq!(
        svc.get_input_file(&alice, &forged),
        Err(ServiceError::PermissionDenied)
    );
}

fn register_public_function(
    svc: &mut TeaclaveManagementService,
    owner: &String,
    inputs: &[&str],
    outputs: &[&str],
    arguments: &[&str],
) -> ExternalID {
    let function = Function::new()
        .name(s("f"))
        .payload(b"payload-bytes".to_vec())
        .public(true)
        .arguments(arguments.iter().map(|x| s(x)).collect())
        .inputs(
            inputs
                .iter()
                .map(|x| FunctionInput::new(s(x), s("d")))
                .collect(),
        )
        .outputs(
            outputs
                .iter()
                .map(|x| FunctionOutput::new(s(x), s("d")))
                .collect(),
        );
    svc.register_function(owner, function).unwrap()
}

#[test]
fn public_function_task_lifecycle() {
    let mut svc = TeaclaveManagementService::new();
    let alice = s("alice");
    let fid = register_public_function(&mut svc, &alice, &["in"], &["out"], &["arg"]);
    let tid = svc
        .create_task(
            &alice,
            s("mesapy"),
            args_map(&[("arg", "v")]),
            owners_map(&[("in", &["alice"])]),
            owners_map(&[("out", &["alice"])]),
            &fid,
        )
        .unwrap();
    assert_eq!(tid.prefix, s("task"));
    let task = svc.get_task(&alice, &tid).unwrap();
    assert_eq!(task.status, TaskStatus::Created);
    assert_eq!(task.creator, s("alice"));
    let i1 = svc
        .register_input_file(&alice, s("s3://in"), vec![2u8; 16], FileCrypto::default())
        .unwrap();
    let o1 = svc
        .register_output_file(&alice, s("s3://out"), FileCrypto::default())
        .unwrap();
    svc.assign_data(
        &alice,
        &tid,
        &vec![(s("in"), i1)],
        &vec![(s("out"), o1)],
    )
    .unwrap();
    // Sole participant: assignment completes and approval is immediate.
    let task = svc.get_task(&alice, &tid).unwrap();
    assert_eq!(task.status, TaskStatus::Approved);
    svc.invoke_task(&alice, &tid).unwrap();
    let task = svc.get_task(&alice, &tid).unwrap();
    assert_eq!(task.status, TaskStatus::Staged);
    // Exactly one staged task sits on the queue, carrying the payload.
    assert_eq!(svc.storage.queue_len(), 1);
    let entry = svc.storage.queue_entry(0);
    assert_eq!(entry.0, b"staged-task".to_vec());
    let staged = StagedTask::of_value(decode_from_bytes(&entry.1).unwrap()).unwrap();
    assert_eq!(staged.task_id, task.uuid);
    assert_eq!(staged.function_payload, b"payload-bytes".to_vec());
    assert_eq!(staged.input_data.get(&s("in")).unwrap().url, s("s3://in"));
    assert_eq!(staged.output_data.get(&s("out")).unwrap().url, s("s3://out"));
    // A second invocation is denied: the task is no longer `Approved`.
    assert_eq!(
        svc.invoke_task(&alice, &tid),
        Err(ServiceError::PermissionDenied)
    );
}

#[test]
fn multi_party_approval() {
    let mut svc = TeaclaveManagementService::new();
    let alice = s("alice");
    let bob = s("bob");
    let carol = s("carol");
    let fid = register_public_function(&mut svc, &alice, &[], &["out1", "out2"], &[]);
    let tid = svc
        .create_task(
            &alice,
            s("mesapy"),
            args_map(&[]),
            owners_map(&[]),
            owners_map(&[("out1", &["alice", "bob"]), ("out2", &["alice", "carol"])]),
            &fid,
        )
        .unwrap();
    let o1 = svc
        .register_fusion_output(&alice, vec![s("alice"), s("bob")])
        .unwrap();
    let o2 = svc
        .register_fusion_output(&alice, vec![s("alice"), s("carol")])
        .unwrap();
    // Invoking before data is assigned fails.
    assert_eq!(svc.invoke_task(&alice, &tid), Err(ServiceError::PermissionDenied));
    svc.assign_data(
        &alice,
        &tid,
        &vec![],
        &vec![(s("out1"), o1), (s("out2"), o2)],
    )
    .unwrap();
    assert_eq!(svc.get_task(&alice, &tid).unwrap().status, TaskStatus::DataAssigned);
    // The creator may not approve; approval is for the other participants.
    assert_eq!(svc.approve_task(&alice, &tid), Err(ServiceError::PermissionDenied));
    svc.approve_task(&bob, &tid).unwrap();
    assert_eq!(svc.get_task(&alice, &tid).unwrap().status, TaskStatus::DataAssigned);
    // Approving twice changes nothing.
    let before = svc.get_task(&alice, &tid).unwrap().approved_users;
    svc.approve_task(&bob, &tid).unwrap();
    let after = svc.get_task(&alice, &tid).unwrap().approved_users;
    assert_eq!(before, after);
    // Invoking before everyone approved fails.
    assert_eq!(svc.invoke_task(&alice, &tid), Err(ServiceError::PermissionDenied));
    svc.approve_task(&carol, &tid).unwrap();
    assert_eq!(svc.get_task(&alice, &tid).unwrap().status, TaskStatus::Approved);
    // Only the creator may invoke.
    assert_eq!(svc.invoke_task(&bob, &tid), Err(ServiceError::PermissionDenied));
    svc.invoke_task(&alice, &tid).unwrap();
    assert_eq!(svc.get_task(&alice, &tid).unwrap().status, TaskStatus::Staged);
}

#[test]
fn wrong_owner_on_assign_is_denied() {
    let mut svc = TeaclaveManagementService::new();
    let alice = s("alice");
    let fid = register_public_function(&mut svc, &alice, &["in"], &[], &[]);
    let tid = svc
        .create_task(
            &alice,
            s("mesapy"),
            args_map(&[]),
            owners_map(&[("in", &["alice", "bob"])]),
            owners_map(&[]),
            &fid,
        )
        .unwrap();
    // I1 is owned by alice alone; the slot expects {alice, bob}.
    let i1 = svc
        .register_input_file(&alice, s("s3://in"), vec![3u8; 16], FileCrypto::default())
        .unwrap();
    assert_eq!(
        svc.assign_data(&alice, &tid, &vec![(s("in"), i1)], &vec![]),
        Err(ServiceError::PermissionDenied)
    );
    // Nothing was persisted: the task is unchanged.
    let task = svc.get_task(&alice, &tid).unwrap();
    assert_eq!(task.status, TaskStatus::Created);
    assert_eq!(task.assigned_inputs.len(), 0);
}

#[test]
fn finalized_output_cannot_be_assigned() {
    let function = Function::new().public(true).outputs(vec![FunctionOutput::new(
        s("out"),
        s("d"),
    )]);
    let mut task = Task::new(
        s("alice"),
        s("mesapy"),
        StringMap::new(),
        StringMap::new(),
        owners_map(&[("out", &["alice"])]),
        function,
    )
    .unwrap();
    let finalized = TeaclaveOutputFile {
        url: s("s3://done"),
        cmac: Some(vec![8u8; 16]),
        crypto_info: FileCrypto::default(),
        owner: vec![s("alice")],
        uuid: s("u-9"),
    };
    assert_eq!(
        task.assign_output(&s("alice"), &s("out"), finalized),
        Err(ServiceError::PermissionDenied)
    );
}

#[test]
fn create_task_rejects_mismatched_slots() {
    let mut svc = TeaclaveManagementService::new();
    let alice = s("alice");
    let fid = register_public_function(&mut svc, &alice, &["in"], &[], &["arg"]);
    // Wrong argument name.
    assert_eq!(
        svc.create_task(
            &alice,
            s("mesapy"),
            args_map(&[("wrong", "v")]),
            owners_map(&[("in", &["alice"])]),
            owners_map(&[]),
            &fid,
        ),
        Err(ServiceError::BadTask)
    );
    // Missing input slot.
    assert_eq!(
        svc.create_task(
            &alice,
            s("mesapy"),
            args_map(&[("arg", "v")]),
            owners_map(&[]),
            owners_map(&[]),
            &fid,
        ),
        Err(ServiceError::BadTask)
    );
    // A private function of someone else cannot anchor a task.
    let other_fid = svc
        .register_function(&s("bob"), Function::new().public(false))
        .unwrap();
    assert_eq!(
        svc.create_task(
            &alice,
            s("mesapy"),
            args_map(&[]),
            owners_map(&[]),
            owners_map(&[]),
            &other_fid,
        ),
        Err(ServiceError::PermissionDenied)
    );
}

#[test]
fn get_task_is_for_participants_only() {
    let mut svc = TeaclaveManagementService::new();
    let alice = s("alice");
    let fid = register_public_function(&mut svc, &alice, &[], &["out"], &[]);
    let tid = svc
        .create_task(
            &alice,
            s("mesapy"),
            args_map(&[]),
            owners_map(&[]),
            owners_map(&[("out", &["alice", "bob"])]),
            &fid,
        )
        .unwrap();
    assert!(svc.get_task(&alice, &tid).is_ok());
    assert!(svc.get_task(&s("bob"), &tid).is_ok());
    assert_eq!(
        svc.get_task(&s("carol"), &tid),
        Err(ServiceError::PermissionDenied)
    );
}

#[test]
fn file_agent_request_shape() {
    let info = HandleFileInfo::new(s("/tmp/in"), s("s3://bucket/in"));
    let req = FileAgentRequest::new(
        HandleFileCommand::Download,
        vec![info.clone()],
        s("/fusion"),
    );
    assert_eq!(req.cmd, HandleFileCommand::Download);
    assert_eq!(req.info.len(), 1);
    assert_eq!(req.info[0].local, s("/tmp/in"));
    assert_eq!(req.info[0].remote, s("s3://bucket/in"));
    assert_eq!(req.fusion_base, s("/fusion"));
}

#[test]
fn mock_data_supports_input_derivation() {
    let mut svc = TeaclaveManagementService::new();
    svc.add_mock_data().unwrap();
    let o1 = ExternalID {
        prefix: s("output-file"),
        uuid: s("00000000-0000-0000-0000-000000000001"),
    };
    let (owner, cmac) = svc.get_output_file(&s("mock_user1"), &o1).unwrap();
    assert_eq!(owner, vec![s("mock_user1"), s("frontend_user")]);
    assert_eq!(cmac, Some(vec![0u8; 16]));
    // The second mock output is finalized, so an owner may derive an input
    // from it; everything is carried over.
    let o2 = ExternalID {
        prefix: s("output-file"),
        uuid: s("00000000-0000-0000-0000-000000000002"),
    };
    let derived = svc.register_input_from_output(&s("mock_user2"), &o2).unwrap();
    assert_eq!(derived.prefix, s("input-file"));
    let (owner, cmac) = svc.get_input_file(&s("mock_user2"), &derived).unwrap();
    assert_eq!(owner, vec![s("mock_user2"), s("mock_user3")]);
    assert_eq!(cmac, vec![0u8; 16]);
    // A stranger may not derive from it.
    assert_eq!(
        svc.register_input_from_output(&s("carol"), &o2),
        Err(ServiceError::PermissionDenied)
    );
    // The two seeded functions are public and fully populated.
    let f1 = ExternalID {
        prefix: s("function"),
        uuid: s("00000000-0000-0000-0000-000000000001"),
    };
    let got = svc.get_function(&s("carol"), &f1).unwrap();
    assert_eq!(got.name, s("mock-func-1"));
    assert_eq!(got.owner, s("teaclave"));
    assert_eq!(got.arguments, vec![s("arg1"), s("arg2")]);
    assert_eq!(got.inputs.len(), 2);
    assert_eq!(got.outputs.len(), 2);
    let f2 = ExternalID {
        prefix: s("function"),
        uuid: s("00000000-0000-0000-0000-000000000002"),
    };
    let got = svc.get_function(&s("carol"), &f2).unwrap();
    assert_eq!(got.name, s("mock-func-2"));
    assert_eq!(got.arguments, vec![s("arg1")]);
    assert!(got.inputs.is_empty());
}
