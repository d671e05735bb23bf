//! The binary a resolution arrives at, and the command that starts it.

use crate::error::{ProvisionError, ProvisionErrorView};
use vstd::prelude::*;
use vstd::utf8::{decode_utf8, encode_utf8, valid_utf8};

verus! {

/// A `harper-ls` executable that was found or installed.
#[derive(Clone, Debug, PartialEq, Eq)]
pub struct HarperBinary {
    /// The path of the executable, as the bytes of its encoding. A path the
    /// host found need not be text.
    pub path: Vec<u8>,
    /// The environment to start it in, where it was found through the shell's
    /// search path; `None` where the host's own environment will do.
    pub env: Option<Vec<(String, String)>>,
}

/// How the host starts the language server.
#[derive(Clone, Debug, PartialEq, Eq)]
pub struct Command {
    pub command: String,
    pub args: Vec<String>,
    pub env: Vec<(String, String)>,
}

pub struct HarperBinaryView {
    pub path: Seq<u8>,
    pub env: Option<Seq<(Seq<char>, Seq<char>)>>,
}

pub struct CommandView {
    pub command: Seq<char>,
    pub args: Seq<Seq<char>>,
    pub env: Seq<(Seq<char>, Seq<char>)>,
}

impl View for HarperBinary {
    type V = HarperBinaryView;

    open spec fn view(&self) -> HarperBinaryView {
        HarperBinaryView { path: self.path@, env: self.env.deep_view() }
    }
}

impl View for Command {
    type V = CommandView;

    open spec fn view(&self) -> CommandView {
        CommandView {
            command: self.command@,
            args: self.args.deep_view(),
            env: self.env.deep_view(),
        }
    }
}

/// The view of the outcome of a resolution.
pub open spec fn outcome_view(outcome: Result<HarperBinary, ProvisionError>) -> Result<
    HarperBinaryView,
    ProvisionErrorView,
> {
    match outcome {
        Ok(binary) => Ok(binary@),
        Err(error) => Err(error@),
    }
}

/// The binary at a path that is text, to be started in the host's own
/// environment.
pub open spec fn spec_installed(path: Seq<char>) -> HarperBinaryView {
    HarperBinaryView { path: encode_utf8(path), env: None }
}

/// The command for a resolved binary: the binary itself, told to speak over
/// standard input and output, in the environment it was found in. A path
/// that is not text gives no command.
pub open spec fn spec_command(binary: HarperBinaryView) -> Result<
    CommandView,
    ProvisionErrorView,
> {
    if valid_utf8(binary.path) {
        Ok(
            CommandView {
                command: decode_utf8(binary.path),
                args: seq!["--stdio"@],
                env: match binary.env {
                    Some(env) => env,
                    None => Seq::empty(),
                },
            },
        )
    } else {
        Err(ProvisionErrorView::PathEncoding)
    }
}

/// The command for the outcome of a resolution; a failed resolution gives
/// its own error.
pub open spec fn spec_language_server_command(
    outcome: Result<HarperBinaryView, ProvisionErrorView>,
) -> Result<CommandView, ProvisionErrorView> {
    match outcome {
        Ok(binary) => spec_command(binary),
        Err(error) => Err(error),
    }
}

/// `String::from_utf8`: the bytes as a string, where they are valid UTF-8,
/// and nothing where they are not. The string then holds exactly those
/// bytes.
#[verifier::external_body]
fn text_of(bytes: Vec<u8>) -> (text: Option<String>)
    ensures
        text is Some <==> valid_utf8(bytes@),
        text matches Some(string) ==> encode_utf8(string@) == bytes@,
{
    String::from_utf8(bytes).ok()
}

impl HarperBinary {
    /// The binary at a path that is text, to be started in the host's own
    /// environment.
    pub fn installed(path: &String) -> (binary: HarperBinary)
        ensures
            binary@ == spec_installed(path@),
    {
        HarperBinary { path: path.as_str().as_bytes_vec(), env: None }
    }

    /// The command that starts this binary.
    pub fn command(self) -> (command: Result<Command, ProvisionError>)
        ensures
            match command {
                Ok(command) => spec_command(self@) == Ok::<CommandView, ProvisionErrorView>(
                    command@,
                ),
                Err(error) => spec_command(self@) == Err::<CommandView, ProvisionErrorView>(
                    error@,
                ),
            },
    {
        let HarperBinary { path, env } = self;
        match text_of(path) {
            Some(command) => {
                proof {
                    vstd::utf8::encode_utf8_decode_utf8(command@);
                }
                let mut args: Vec<String> = Vec::new();
                args.push(String::from_str("--stdio"));
                let env = match env {
                    Some(env) => env,
                    None => Vec::new(),
                };
                let command = Command { command, args, env };
                assert(command@.args =~= seq!["--stdio"@]);
                assert(command@.env =~= match self@.env {
                    Some(env) => env,
                    None => Seq::empty(),
                });
                Ok(command)
            },
            None => Err(ProvisionError::PathEncoding),
        }
    }
}

} // verus!
