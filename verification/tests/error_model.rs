use axum_connect::error::{RpcError, RpcErrorCode};

const ALL: [RpcErrorCode; 16] = [
    RpcErrorCode::Canceled,
    RpcErrorCode::Unknown,
    RpcErrorCode::InvalidArgument,
    RpcErrorCode::DeadlineExceeded,
    RpcErrorCode::NotFound,
    RpcErrorCode::AlreadyExists,
    RpcErrorCode::PermissionDenied,
    RpcErrorCode::ResourceExhausted,
    RpcErrorCode::FailedPrecondition,
    RpcErrorCode::Aborted,
    RpcErrorCode::OutOfRange,
    RpcErrorCode::Unimplemented,
    RpcErrorCode::Internal,
    RpcErrorCode::Unavailable,
    RpcErrorCode::DataLoss,
    RpcErrorCode::Unauthenticated,
];

#[test]
fn status_of_each_code() {
    assert_eq!(RpcErrorCode::Canceled.http_status(), 499);
    assert_eq!(RpcErrorCode::Unknown.http_status(), 500);
    assert_eq!(RpcErrorCode::InvalidArgument.http_status(), 400);
    assert_eq!(RpcErrorCode::DeadlineExceeded.http_status(), 504);
    assert_eq!(RpcErrorCode::NotFound.http_status(), 404);
    assert_eq!(RpcErrorCode::AlreadyExists.http_status(), 409);
    assert_eq!(RpcErrorCode::PermissionDenied.http_status(), 403);
    assert_eq!(RpcErrorCode::ResourceExhausted.http_status(), 429);
    assert_eq!(RpcErrorCode::FailedPrecondition.http_status(), 400);
    assert_eq!(RpcErrorCode::Aborted.http_status(), 409);
    assert_eq!(RpcErrorCode::OutOfRange.http_status(), 400);
    assert_eq!(RpcErrorCode::Unimplemented.http_status(), 501);
    assert_eq!(RpcErrorCode::Internal.http_status(), 500);
    assert_eq!(RpcErrorCode::Unavailable.http_status(), 503);
    assert_eq!(RpcErrorCode::DataLoss.http_status(), 500);
    assert_eq!(RpcErrorCode::Unauthenticated.http_status(), 401);
}

#[test]
fn every_status_is_an_error_status() {
    for code in ALL {
        let status = code.http_status();
        assert!((400..=599).contains(&status), "{:?} -> {}", code, status);
    }
}

#[test]
fn every_status_is_accepted_by_the_http_crate() {
    for code in ALL {
        assert!(axum::http::StatusCode::from_u16(code.http_status()).is_ok());
    }
}

#[test]
fn name_of_each_code() {
    let names: Vec<&str> = ALL.iter().map(|c| c.as_str()).collect();
    assert_eq!(
        names,
        vec![
            "canceled",
            "unknown",
            "invalid_argument",
            "deadline_exceeded",
            "not_found",
            "already_exists",
            "permission_denied",
            "resource_exhausted",
            "failed_precondition",
            "aborted",
            "out_of_range",
            "unimplemented",
            "internal",
            "unavailable",
            "data_loss",
            "unauthenticated",
        ]
    );
}

#[test]
fn names_are_distinct() {
    for (i, a) in ALL.iter().enumerate() {
        for (j, b) in ALL.iter().enumerate() {
            assert_eq!(i == j, a.as_str() == b.as_str());
        }
    }
}

#[test]
fn new_keeps_code_and_message() {
    let e = RpcError::new(RpcErrorCode::NotFound, "no such thing".to_string());
    assert_eq!(e.code, RpcErrorCode::NotFound);
    assert_eq!(e.message, "no such thing");
}

#[test]
fn clone_is_equal() {
    let e = RpcError::new(RpcErrorCode::Aborted, "try again".to_string());
    assert_eq!(e.clone(), e);
}
