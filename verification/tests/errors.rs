use curtailing::error::{ClientError, Error};

#[test]
fn client_hears_of_its_own_mistakes() {
    assert_eq!(
        Error::LinkCreateFailedBadProtocol.client_status_and_error(),
        (400, ClientError::INVALID_PARAMS, "target must have http or https protocol")
    );
    assert_eq!(
        Error::LinkCreateFailedEmptyTarget.client_status_and_error(),
        (400, ClientError::INVALID_PARAMS, "target must not be empty")
    );
    assert_eq!(
        Error::LinkCreateFailedTargetTooLong.client_status_and_error(),
        (413, ClientError::INVALID_PARAMS, "target is too long")
    );
}

#[test]
fn client_hears_of_a_missing_link() {
    assert_eq!(
        Error::LinkGetNoSuchLink.client_status_and_error(),
        (404, ClientError::LINK_NOT_FOUND, "Link not found")
    );
}

#[test]
fn store_faults_are_kept_vague() {
    for e in [
        Error::LinkCreateFailedDBError,
        Error::LinkGetDBError,
        Error::LinkCreateFailedCapacityExceeded,
    ] {
        assert_eq!(
            e.client_status_and_error(),
            (500, ClientError::SERVICE_ERROR, "Database error")
        );
    }
}

#[test]
fn everything_else_is_a_service_error() {
    for e in [Error::LoginFail, Error::LinkCreateFailedTooManyCollisions] {
        assert_eq!(e.client_status_and_error(), (500, ClientError::SERVICE_ERROR, "Service error"));
    }
}

#[test]
fn client_error_names() {
    assert_eq!(ClientError::LINK_NOT_FOUND.as_ref(), "LINK_NOT_FOUND");
    assert_eq!(ClientError::LOGIN_FAIL.as_ref(), "LOGIN_FAIL");
    assert_eq!(ClientError::NO_AUTH.as_ref(), "NO_AUTH");
    assert_eq!(ClientError::INVALID_PARAMS.as_ref(), "INVALID_PARAMS");
    assert_eq!(ClientError::SERVICE_ERROR.as_ref(), "SERVICE_ERROR");
}

#[test]
fn error_names() {
    let all = [
        (Error::LoginFail, "LoginFail"),
        (Error::LinkCreateFailedBadProtocol, "LinkCreateFailedBadProtocol"),
        (Error::LinkCreateFailedCapacityExceeded, "LinkCreateFailedCapacityExceeded"),
        (Error::LinkCreateFailedDBError, "LinkCreateFailedDBError"),
        (Error::LinkCreateFailedEmptyTarget, "LinkCreateFailedEmptyTarget"),
        (Error::LinkCreateFailedTargetTooLong, "LinkCreateFailedTargetTooLong"),
        (Error::LinkCreateFailedTooManyCollisions, "LinkCreateFailedTooManyCollisions"),
        (Error::LinkGetDBError, "LinkGetDBError"),
        (Error::LinkGetNoSuchLink, "LinkGetNoSuchLink"),
    ];
    for (e, name) in all {
        assert_eq!(e.as_ref(), name);
        assert_eq!(format!("{:?}", e), name);
    }
}
