use harper_zed::extension::HarperExtension;
use harper_zed::settings::{or_empty_object, LspSettings, EMPTY_OBJECT};

#[test]
fn configured_initialization_options_are_passed_on() {
    let extension = HarperExtension::new();
    let settings = LspSettings {
        initialization_options: Some(r#"{"harper-ls":{"dialect":"British"}}"#.to_string()),
        settings: Some(r#"{"linters":{}}"#.to_string()),
    };

    assert_eq!(
        extension.language_server_initialization_options(Some(settings.clone())),
        r#"{"harper-ls":{"dialect":"British"}}"#
    );
    assert_eq!(
        extension.language_server_workspace_configuration(Some(settings)),
        r#"{"linters":{}}"#
    );
}

#[test]
fn missing_settings_default_to_the_empty_object() {
    let extension = HarperExtension::new();

    assert_eq!(extension.language_server_initialization_options(None), "{}");
    assert_eq!(extension.language_server_workspace_configuration(None), "{}");
}

#[test]
fn unset_parts_default_to_the_empty_object() {
    let extension = HarperExtension::new();
    let only_options = LspSettings {
        initialization_options: Some("[1,2]".to_string()),
        settings: None,
    };
    let only_settings = LspSettings {
        initialization_options: None,
        settings: Some("true".to_string()),
    };

    assert_eq!(
        extension.language_server_initialization_options(Some(only_options.clone())),
        "[1,2]"
    );
    assert_eq!(
        extension.language_server_workspace_configuration(Some(only_options)),
        "{}"
    );
    assert_eq!(
        extension.language_server_initialization_options(Some(only_settings.clone())),
        "{}"
    );
    assert_eq!(
        extension.language_server_workspace_configuration(Some(only_settings)),
        "true"
    );
}

#[test]
fn empty_object_is_two_braces() {
    assert_eq!(EMPTY_OBJECT, "{}");
    assert_eq!(or_empty_object(None), "{}");
    assert_eq!(or_empty_object(Some("null".to_string())), "null");
}
