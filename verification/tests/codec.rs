use teaclave_management::errors::{ServiceError, TeaclaveServiceResponseError};
use teaclave_management::file::{ExternalID, FileCrypto, TeaclaveInputFile, TeaclaveOutputFile};
use teaclave_management::function::{Function, FunctionInput, FunctionOutput};
use teaclave_management::status::{i32_from_task_status, i32_to_task_status, TaskStatus};
use teaclave_management::strmap::StringMap;
use teaclave_management::task::StagedTask;
use teaclave_management::value::{decode_from_bytes, encode_to_vec};
use teaclave_management::wire::Wire;

fn s(x: &str) -> String {
    x.to_string()
}

#[test]
fn input_file_round_trip() {
    let file = TeaclaveInputFile::new(
        s("s3://bucket_id/path?token=mock_token"),
        vec![7u8; 16],
        FileCrypto::new(s("teaclave-file-128"), vec![1, 2], vec![3]),
        vec![s("mock_user"), s("mock_user2")],
    );
    let bytes = encode_to_vec(&file.to_value());
    let back = TeaclaveInputFile::of_value(decode_from_bytes(&bytes).unwrap()).unwrap();
    assert_eq!(back.url, file.url);
    assert_eq!(back.cmac, file.cmac);
    assert_eq!(back.crypto_info.schema, file.crypto_info.schema);
    assert_eq!(back.crypto_info.key, file.crypto_info.key);
    assert_eq!(back.crypto_info.iv, file.crypto_info.iv);
    assert_eq!(back.owner, file.owner);
    assert_eq!(back.uuid, file.uuid);
}

#[test]
fn input_file_key_prefix_matches() {
    let file = TeaclaveInputFile::new(
        s("s3://bucket/x"),
        vec![1u8],
        FileCrypto::default(),
        vec![s("u")],
    );
    let key = file.key_string();
    assert!(TeaclaveInputFile::match_prefix(&key));
    assert!(key.starts_with("input-file-"));
    assert!(!TeaclaveOutputFile::match_prefix(&key));
}

#[test]
fn output_file_round_trip() {
    let file = TeaclaveOutputFile::new(
        s("s3://bucket_id/path?token=mock_token"),
        FileCrypto::default(),
        vec![s("mock_user")],
    );
    assert!(file.cmac.is_none());
    let bytes = encode_to_vec(&file.to_value());
    let back = TeaclaveOutputFile::of_value(decode_from_bytes(&bytes).unwrap()).unwrap();
    assert_eq!(back.url, file.url);
    assert_eq!(back.cmac, file.cmac);
    assert_eq!(back.owner, file.owner);
    assert_eq!(back.uuid, file.uuid);
    let key = file.key_string();
    assert!(TeaclaveOutputFile::match_prefix(&key));
    assert!(key.starts_with("output-file-"));
}

#[test]
fn function_round_trip() {
    let function = Function::new()
        .name(s("mock_function"))
        .description(s("mock function"))
        .payload(b"python script".to_vec())
        .arguments(vec![s("arg")])
        .inputs(vec![FunctionInput::new(s("input"), s("input_desc"))])
        .outputs(vec![FunctionOutput::new(s("output"), s("output_desc"))])
        .public(true)
        .owner(s("mock_user"));
    let bytes = encode_to_vec(&function.to_value());
    let back = Function::of_value(decode_from_bytes(&bytes).unwrap()).unwrap();
    assert_eq!(back.uuid, function.uuid);
    assert_eq!(back.name, function.name);
    assert_eq!(back.description, function.description);
    assert_eq!(back.payload, function.payload);
    assert_eq!(back.public, function.public);
    assert_eq!(back.owner, function.owner);
    assert_eq!(back.arguments, vec![s("arg")]);
    assert_eq!(back.inputs.len(), 1);
    assert_eq!(back.inputs[0].name, s("input"));
    assert_eq!(back.outputs[0].description, s("output_desc"));
    assert!(Function::match_prefix(&function.key_string()));
}

#[test]
fn unicode_text_round_trips() {
    let file = TeaclaveInputFile::new(
        s("s3://bucket/πρόσβαση?token=秘密"),
        vec![9u8],
        FileCrypto::default(),
        vec![s("ägare"), s("所有者")],
    );
    let bytes = encode_to_vec(&file.to_value());
    let back = TeaclaveInputFile::of_value(decode_from_bytes(&bytes).unwrap()).unwrap();
    assert_eq!(back.url, file.url);
    assert_eq!(back.owner, file.owner);
}

#[test]
fn staged_task_round_trip() {
    let mut args: StringMap<String> = StringMap::new();
    args.insert(s("arg"), s("data"));
    let staged = StagedTask::new()
        .task_id(s("0000"))
        .executor(s("mesapy"))
        .function_payload(b"python script".to_vec())
        .function_arguments(args);
    let bytes = encode_to_vec(&staged.to_value());
    let back = StagedTask::of_value(decode_from_bytes(&bytes).unwrap()).unwrap();
    assert_eq!(back.task_id, s("0000"));
    assert_eq!(back.executor, s("mesapy"));
    assert_eq!(back.function_payload, b"python script".to_vec());
    assert_eq!(back.function_arguments.get(&s("arg")), Some(&s("data")));
}

#[test]
fn corrupt_bytes_are_rejected() {
    let bytes = vec![250u8, 1, 2];
    assert!(decode_from_bytes(&bytes).is_none());
}

#[test]
fn task_status_wire_numbers() {
    assert_eq!(i32_from_task_status(TaskStatus::Created), 0);
    assert_eq!(i32_from_task_status(TaskStatus::DataAssigned), 1);
    assert_eq!(i32_from_task_status(TaskStatus::Approved), 2);
    assert_eq!(i32_from_task_status(TaskStatus::Staged), 3);
    assert_eq!(i32_from_task_status(TaskStatus::Running), 4);
    assert_eq!(i32_from_task_status(TaskStatus::Finished), 5);
    for n in 0..=5 {
        let st = i32_to_task_status(n).unwrap();
        assert_eq!(i32_from_task_status(st), n);
    }
    assert_eq!(i32_to_task_status(6), Err(ServiceError::InvalidRequest));
    assert_eq!(i32_to_task_status(-1), Err(ServiceError::InvalidRequest));
}

#[test]
fn error_messages() {
    assert_eq!(ServiceError::InvalidRequest.message(), s("invalid request"));
    assert_eq!(ServiceError::PermissionDenied.message(), s("permission denied"));
    assert_eq!(ServiceError::DataError.message(), s("data error"));
    assert_eq!(ServiceError::StorageError.message(), s("storage error"));
    assert_eq!(ServiceError::BadTask.message(), s("bad task"));
    let wire = TeaclaveServiceResponseError::from(ServiceError::PermissionDenied);
    assert_eq!(
        wire,
        TeaclaveServiceResponseError::RequestError(s("permission denied"))
    );
}

#[test]
fn external_id_key_string() {
    let id = ExternalID { prefix: s("task"), uuid: s("abc") };
    assert_eq!(id.key_string(), s("task-abc"));
    assert_eq!(id.key_bytes(), b"task-abc".to_vec());
}
