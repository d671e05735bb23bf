use harper_zed::error::ProvisionError;

#[test]
fn fetch_message_carries_the_cause() {
    let error = ProvisionError::Fetch {
        cause: "status 503".to_string(),
    };
    assert_eq!(
        error.message(),
        "Failed to fetch latest release: status 503"
    );
}

#[test]
fn unsupported_architecture_message() {
    assert_eq!(
        ProvisionError::UnsupportedArchitecture.message(),
        "x86 architecture is not supported"
    );
}

#[test]
fn missing_asset_message_names_the_platform() {
    let error = ProvisionError::NoCompatibleAsset {
        target: "aarch64-unknown-linux-gnu".to_string(),
    };
    assert_eq!(
        error.message(),
        "No compatible Harper binary found for aarch64-unknown-linux-gnu"
    );
}

#[test]
fn download_message_carries_the_cause() {
    let error = ProvisionError::Download {
        cause: "connection reset".to_string(),
    };
    assert_eq!(
        error.message(),
        "Failed to download Harper binary: connection reset"
    );
}

#[test]
fn extraction_message_carries_the_cause() {
    let error = ProvisionError::Extraction {
        cause: "bad header".to_string(),
    };
    assert_eq!(
        error.message(),
        "Failed to extract Harper binary: bad header"
    );
}

#[test]
fn permission_message_carries_the_cause() {
    let error = ProvisionError::Permission {
        cause: "read-only file system".to_string(),
    };
    assert_eq!(
        error.message(),
        "Failed to make binary executable: read-only file system"
    );
}

#[test]
fn path_encoding_message() {
    assert_eq!(
        ProvisionError::PathEncoding.message(),
        "Failed to convert binary path to string"
    );
}

#[test]
fn empty_cause_leaves_the_prefix() {
    let error = ProvisionError::Fetch {
        cause: String::new(),
    };
    assert_eq!(error.message(), "Failed to fetch latest release: ");
}
