use harper_zed::command::{Command, HarperBinary};
use harper_zed::error::ProvisionError;
use harper_zed::extension::HarperExtension;

#[test]
fn command_runs_the_binary_over_stdio_in_its_environment() {
    let extension = HarperExtension::new();
    let binary = HarperBinary {
        path: b"/usr/bin/harper-ls".to_vec(),
        env: Some(vec![
            ("PATH".to_string(), "/usr/bin:/bin".to_string()),
            ("LANG".to_string(), "en_US.UTF-8".to_string()),
        ]),
    };

    let command = extension.language_server_command(Ok(binary));

    assert_eq!(
        command,
        Ok(Command {
            command: "/usr/bin/harper-ls".to_string(),
            args: vec!["--stdio".to_string()],
            env: vec![
                ("PATH".to_string(), "/usr/bin:/bin".to_string()),
                ("LANG".to_string(), "en_US.UTF-8".to_string()),
            ],
        })
    );
}

#[test]
fn command_for_an_installed_binary_has_no_environment() {
    let extension = HarperExtension::new();
    let binary = HarperBinary::installed(&"harper-ls-1.2.3/harper-ls".to_string());
    assert_eq!(binary.path, b"harper-ls-1.2.3/harper-ls".to_vec());
    assert_eq!(binary.env, None);

    let command = extension.language_server_command(Ok(binary));

    assert_eq!(
        command,
        Ok(Command {
            command: "harper-ls-1.2.3/harper-ls".to_string(),
            args: vec!["--stdio".to_string()],
            env: Vec::new(),
        })
    );
}

#[test]
fn path_that_is_not_text_gives_no_command() {
    let extension = HarperExtension::new();
    let binary = HarperBinary {
        path: vec![b'/', b'o', b'p', b't', b'/', 0xff, 0xfe],
        env: None,
    };

    let command = extension.language_server_command(Ok(binary));

    assert_eq!(command, Err(ProvisionError::PathEncoding));
}

#[test]
fn truncated_multibyte_path_gives_no_command() {
    let binary = HarperBinary {
        path: vec![b'a', 0xc3],
        env: Some(Vec::new()),
    };
    assert_eq!(binary.command(), Err(ProvisionError::PathEncoding));
}

#[test]
fn path_beyond_ascii_is_decoded() {
    let binary = HarperBinary {
        path: "/home/zoë/bin/harper-ls".as_bytes().to_vec(),
        env: None,
    };

    let command = binary.command().unwrap();

    assert_eq!(command.command, "/home/zoë/bin/harper-ls");
    assert_eq!(command.command.chars().count(), 23);
}

#[test]
fn installed_path_beyond_ascii_round_trips() {
    let path = "harper-ls-1.2.3-β/harper-ls".to_string();
    let command = HarperBinary::installed(&path).command().unwrap();
    assert_eq!(command.command, path);
}

#[test]
fn failed_resolution_gives_its_own_error() {
    let extension = HarperExtension::new();
    let failure = ProvisionError::Fetch {
        cause: "offline".to_string(),
    };

    let command = extension.language_server_command(Err(failure.clone()));

    assert_eq!(command, Err(failure));
}

#[test]
fn empty_path_is_text() {
    let binary = HarperBinary {
        path: Vec::new(),
        env: None,
    };
    assert_eq!(binary.command().unwrap().command, "");
}
