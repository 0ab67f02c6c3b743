use fprint_core::error::{map_error, normalize_discovery_error, AppError};

/// Mirrors what the bus plumbing hands the library for a zbus failure:
/// the named error identifier when the call failed with a method error,
/// plus the failure's display text.
fn to_app_error(err: zbus::Error) -> AppError {
    let text = err.to_string();
    match &err {
        zbus::Error::MethodError(name, _, _) => map_error(Some(name.as_str()), &text),
        _ => map_error(None, &text),
    }
}

fn create_method_error(name: &str) -> zbus::Error {
    let msg = zbus::message::Message::method_call("/", "Ping")
        .unwrap()
        .destination("org.freedesktop.DBus")
        .unwrap()
        .build(&())
        .unwrap();

    let error_name = zbus::names::ErrorName::try_from(name).unwrap();
    zbus::Error::MethodError(error_name.into(), None, msg)
}

#[test]
fn test_zbus_error_conversion() {
    let test_cases = vec![
        ("net.reactivated.Fprint.Error.PermissionDenied", AppError::PermissionDenied),
        ("net.reactivated.Fprint.Error.AlreadyInUse", AppError::AlreadyInUse),
        ("net.reactivated.Fprint.Error.Internal", AppError::Internal),
        ("net.reactivated.Fprint.Error.NoEnrolledPrints", AppError::NoEnrolledPrints),
        ("net.reactivated.Fprint.Error.ClaimDevice", AppError::ClaimDevice),
        ("net.reactivated.Fprint.Error.PrintsNotDeleted", AppError::PrintsNotDeleted),
        ("net.reactivated.Fprint.Error.Timeout", AppError::Timeout),
        ("net.reactivated.Fprint.Error.DeviceNotFound", AppError::DeviceNotFound),
    ];

    for (error_str, expected) in test_cases {
        let zbus_err = create_method_error(error_str);
        let app_err = to_app_error(zbus_err);
        assert_eq!(app_err, expected, "Failed for error: {}", error_str);
    }
}

#[test]
fn test_unknown_zbus_error() {
    let error_str = "net.reactivated.Fprint.Error.UnknownOne";
    let zbus_err = create_method_error(error_str);
    let app_err = to_app_error(zbus_err);

    if let AppError::Unknown(msg) = app_err {
        assert!(msg.contains(error_str));
    } else {
        panic!("Expected AppError::Unknown, got {:?}", app_err);
    }
}

#[test]
fn test_non_method_error() {
    let zbus_err = zbus::Error::from(std::io::Error::new(std::io::ErrorKind::Other, "test error"));
    let app_err = to_app_error(zbus_err);

    if let AppError::Unknown(msg) = app_err {
        assert!(msg.contains("test error"));
    } else {
        panic!("Expected AppError::Unknown, got {:?}", app_err);
    }
}

#[test]
fn test_app_error_localization() {
    assert_eq!(
        AppError::PermissionDenied.localized_message(),
        "Permission denied."
    );
    assert_eq!(
        AppError::AlreadyInUse.localized_message(),
        "Device is already in use by another application."
    );
    assert_eq!(
        AppError::DeviceNotFound.localized_message(),
        "Fingerprint device not found."
    );
    assert_eq!(
        AppError::Timeout.localized_message(),
        "Operation timed out."
    );
    assert_eq!(
        AppError::ConnectDbus("Connection error".to_string()).localized_message(),
        "Failed to connect to DBus: \u{2068}Connection error\u{2069}"
    );
}

#[test]
fn test_app_error_unknown_context() {
    let err = AppError::Unknown("Some error".to_string());
    let err_with_context = err.with_context("Context");

    assert_eq!(err_with_context.localized_message(), "Context: Some error");
}

#[test]
fn test_app_error_known_context() {
    let err = AppError::PermissionDenied;
    let err_with_context = err.with_context("Context");

    assert_eq!(err_with_context.localized_message(), "Permission denied.");
}

#[test]
fn test_every_tag_has_its_message() {
    assert_eq!(
        AppError::Internal.localized_message(),
        "An internal error occurred."
    );
    assert_eq!(
        AppError::NoEnrolledPrints.localized_message(),
        "No fingerprints are enrolled."
    );
    assert_eq!(
        AppError::ClaimDevice.localized_message(),
        "Failed to claim the fingerprint device."
    );
    assert_eq!(
        AppError::PrintsNotDeleted.localized_message(),
        "Failed to delete fingerprints."
    );
    assert_eq!(
        AppError::Unknown("raw text".to_string()).localized_message(),
        "raw text"
    );
}

#[test]
fn test_map_error_without_name_keeps_message() {
    let e = map_error(None, "transport broke");
    assert_eq!(e, AppError::Unknown("transport broke".to_string()));
}

#[test]
fn test_with_context_is_noop_for_every_fixed_tag() {
    let tags = vec![
        AppError::PermissionDenied,
        AppError::AlreadyInUse,
        AppError::Internal,
        AppError::NoEnrolledPrints,
        AppError::ClaimDevice,
        AppError::PrintsNotDeleted,
        AppError::Timeout,
        AppError::DeviceNotFound,
        AppError::ConnectDbus("detail".to_string()),
    ];
    for tag in tags {
        let before = tag.clone();
        assert_eq!(before.with_context("note"), tag);
    }
}

#[test]
fn test_discovery_error_normalization() {
    assert_eq!(
        normalize_discovery_error(AppError::Unknown("org.freedesktop.DBus.Error.ServiceUnknown: x".to_string())),
        AppError::DeviceNotFound
    );
    assert_eq!(
        normalize_discovery_error(AppError::PermissionDenied),
        AppError::PermissionDenied
    );
}
