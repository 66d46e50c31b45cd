use rencfs_desktop::vault_handler::VaultHandlerError;
use rencfs_desktop::vault_service_error::{
    read_reply, Code, ReplyOutcome, RpcStatus, VaultServiceError,
};

const KEY: &str = "x-custom-tonic-error-vault_service_error";

fn kinds() -> [VaultHandlerError; 4] {
    [
        VaultHandlerError::CannotLockVault,
        VaultHandlerError::CannotUnlockVault,
        VaultHandlerError::CannotChangeMountPoint,
        VaultHandlerError::CannotChangeDataDir,
    ]
}

#[test]
fn handler_errors_have_their_messages() {
    assert_eq!(VaultHandlerError::CannotLockVault.message(), "cannot lock vault");
    assert_eq!(VaultHandlerError::CannotUnlockVault.message(), "cannot unlock vault");
    assert_eq!(VaultHandlerError::CannotChangeMountPoint.message(), "cannot change mount point");
    assert_eq!(VaultHandlerError::CannotChangeDataDir.message(), "cannot change data dir");
}

#[test]
fn service_error_shows_the_message_of_its_cause() {
    for kind in kinds() {
        assert_eq!(VaultServiceError::from(kind).message(), kind.message());
    }
}

#[test]
fn service_error_wraps_the_handler_error() {
    assert_eq!(
        VaultServiceError::from(VaultHandlerError::CannotUnlockVault),
        VaultServiceError::VaultHandlerError(VaultHandlerError::CannotUnlockVault)
    );
}

#[test]
fn textual_form_is_exact() {
    assert_eq!(
        VaultServiceError::VaultHandlerError(VaultHandlerError::CannotLockVault).encode(),
        "{\"VaultHandlerError\":\"CannotLockVault\"}"
    );
    assert_eq!(
        VaultServiceError::VaultHandlerError(VaultHandlerError::CannotUnlockVault).encode(),
        "{\"VaultHandlerError\":\"CannotUnlockVault\"}"
    );
    assert_eq!(
        VaultServiceError::VaultHandlerError(VaultHandlerError::CannotChangeMountPoint).encode(),
        "{\"VaultHandlerError\":\"CannotChangeMountPoint\"}"
    );
    assert_eq!(
        VaultServiceError::VaultHandlerError(VaultHandlerError::CannotChangeDataDir).encode(),
        "{\"VaultHandlerError\":\"CannotChangeDataDir\"}"
    );
}

#[test]
fn textual_form_is_the_json_of_a_tagged_variant() {
    for kind in kinds() {
        let text = VaultServiceError::VaultHandlerError(kind).encode();
        let value: serde_json::Value = serde_json::from_str(&text).unwrap();
        let object = value.as_object().unwrap();
        assert_eq!(object.len(), 1);
        let name = object.get("VaultHandlerError").unwrap().as_str().unwrap();
        assert_eq!(name, format!("{:?}", kind));
        assert_eq!(serde_json::to_string(&value).unwrap(), text);
    }
}

#[test]
fn decode_inverts_encode() {
    for kind in kinds() {
        let error = VaultServiceError::VaultHandlerError(kind);
        assert_eq!(VaultServiceError::decode(&error.encode()), Some(error));
    }
}

#[test]
fn decode_gives_each_kind() {
    assert_eq!(
        VaultServiceError::decode("{\"VaultHandlerError\":\"CannotChangeMountPoint\"}"),
        Some(VaultServiceError::VaultHandlerError(VaultHandlerError::CannotChangeMountPoint))
    );
}

#[test]
fn decode_refuses_what_is_no_textual_form() {
    assert_eq!(VaultServiceError::decode(""), None);
    assert_eq!(VaultServiceError::decode("CannotLockVault"), None);
    assert_eq!(VaultServiceError::decode("{\"VaultHandlerError\":\"CannotFly\"}"), None);
    assert_eq!(VaultServiceError::decode("{\"VaultHandlerError\":\"CannotLockVault\"} "), None);
    assert_eq!(VaultServiceError::decode("{\"Other\":\"CannotLockVault\"}"), None);
    assert_eq!(VaultServiceError::decode("{\"VaultHandlerError\":\"CannotLockVault\""), None);
}

#[test]
fn status_of_an_error_is_internal_with_the_kind_in_the_metadata() {
    let status =
        RpcStatus::from(VaultServiceError::VaultHandlerError(VaultHandlerError::CannotLockVault));
    assert_eq!(
        status,
        RpcStatus {
            code: Code::Internal,
            message: "internal error: cannot lock vault".to_string(),
            metadata: vec![(
                KEY.to_string(),
                "{\"VaultHandlerError\":\"CannotLockVault\"}".to_string()
            )],
        }
    );
}

#[test]
fn error_survives_the_status() {
    for kind in kinds() {
        let error = VaultServiceError::VaultHandlerError(kind);
        let status = RpcStatus::from(error);
        assert_eq!(VaultServiceError::try_from(&status), Ok(error));
    }
}

#[test]
fn status_with_another_code_names_no_error() {
    let mut status =
        RpcStatus::from(VaultServiceError::VaultHandlerError(VaultHandlerError::CannotLockVault));
    status.code = Code::Unavailable;
    assert_eq!(VaultServiceError::try_from(&status), Err(()));
    status.code = Code::Success;
    assert_eq!(VaultServiceError::try_from(&status), Err(()));
    status.code = Code::FailedPrecondition;
    assert_eq!(VaultServiceError::try_from(&status), Err(()));
}

#[test]
fn status_without_the_entry_names_no_error() {
    let status = RpcStatus {
        code: Code::Internal,
        message: "boom".to_string(),
        metadata: vec![("other".to_string(), "{\"VaultHandlerError\":\"CannotLockVault\"}".to_string())],
    };
    assert_eq!(VaultServiceError::try_from(&status), Err(()));
    let empty = RpcStatus { code: Code::Internal, message: "boom".to_string(), metadata: vec![] };
    assert_eq!(VaultServiceError::try_from(&empty), Err(()));
}

#[test]
fn status_with_a_malformed_entry_names_no_error() {
    let status = RpcStatus {
        code: Code::Internal,
        message: "boom".to_string(),
        metadata: vec![(KEY.to_string(), "unable to create metadata value".to_string())],
    };
    assert_eq!(VaultServiceError::try_from(&status), Err(()));
}

#[test]
fn the_first_entry_under_the_key_counts() {
    let status = RpcStatus {
        code: Code::Internal,
        message: "boom".to_string(),
        metadata: vec![
            ("a".to_string(), "b".to_string()),
            (KEY.to_string(), "{\"VaultHandlerError\":\"CannotUnlockVault\"}".to_string()),
            (KEY.to_string(), "{\"VaultHandlerError\":\"CannotLockVault\"}".to_string()),
        ],
    };
    assert_eq!(
        VaultServiceError::try_from(&status),
        Ok(VaultServiceError::VaultHandlerError(VaultHandlerError::CannotUnlockVault))
    );
}

#[test]
fn reply_is_read_as_ack_error_or_opaque_failure() {
    assert_eq!(read_reply(Ok(())), ReplyOutcome::Acknowledged);
    let error = VaultServiceError::VaultHandlerError(VaultHandlerError::CannotChangeDataDir);
    assert_eq!(read_reply(Err(RpcStatus::from(error))), ReplyOutcome::ServiceError(error));
    let opaque = RpcStatus {
        code: Code::Unavailable,
        message: "connection refused".to_string(),
        metadata: vec![],
    };
    assert_eq!(
        read_reply(Err(opaque)),
        ReplyOutcome::TransportError("connection refused".to_string())
    );
}
