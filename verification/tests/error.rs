use factoriod::error::FactorioServerStartError;

#[test]
fn message_of_path_not_found() {
    let error = FactorioServerStartError::PathNotFound("/opt/factorio".to_string());
    assert_eq!(error.message(), "Path not found: /opt/factorio");
}

#[test]
fn message_of_no_save_found() {
    let error = FactorioServerStartError::NoSaveFound("/var/lib/factoriod/saves".to_string());
    assert_eq!(
        error.message(),
        "No save found in the saves directory at /var/lib/factoriod/saves."
    );
}

#[test]
fn message_of_start_failed() {
    let error = FactorioServerStartError::StartFailed {
        path: "/opt/factorio/bin/x64/factorio".to_string(),
        source: "Permission denied (os error 13)".to_string(),
    };
    assert_eq!(
        error.message(),
        "Failed to start Factorio server from binary /opt/factorio/bin/x64/factorio: Permission denied (os error 13)"
    );
}
