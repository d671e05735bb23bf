//! The extension as the host holds it: the state that outlives a
//! resolution, and the answers to what the host asks of a language server.

use crate::command::{
    outcome_view, spec_installed, spec_language_server_command, Command, CommandView,
    HarperBinary,
};
use crate::error::{ProvisionError, ProvisionErrorView};
use crate::protocol::Reply;
use crate::resolver::{plan_for, spec_advance, stale_entries, Plan, Stage, StageView};
use crate::settings::{
    lookup_view, or_empty_object, spec_initialization_options, spec_workspace_configuration,
    LspSettings,
};
use vstd::prelude::*;

verus! {

/// The state that outlives a resolution: the path of the binary that was
/// installed last, if any was.
pub struct HarperExtension {
    binary_cache: Option<String>,
}

impl View for HarperExtension {
    type V = Option<Seq<char>>;

    closed spec fn view(&self) -> Option<Seq<char>> {
        match self.binary_cache {
            Some(path) => Some(path@),
            None => None,
        }
    }
}

impl HarperExtension {
    /// An extension that has installed nothing yet.
    pub fn new() -> (extension: HarperExtension)
        ensures
            extension@ is None,
    {
        HarperExtension { binary_cache: None }
    }

    /// The path of the binary that was installed last.
    pub fn cached_binary_path(&self) -> (path: Option<&String>)
        ensures
            match path {
                Some(path) => self@ == Some(path@),
                None => self@ is None,
            },
    {
        match &self.binary_cache {
            Some(path) => Some(path),
            None => None,
        }
    }

    /// Begins a resolution: search path first, then the cached binary, then
    /// an installation.
    pub fn get_binary(&self) -> (stage: Stage)
        ensures
            stage@ == StageView::Locating,
    {
        Stage::Locating
    }

    /// Begins an installation of the latest release.
    pub fn install_binary(&self) -> (stage: Stage)
        ensures
            stage@ == StageView::Announcing,
    {
        Stage::Announcing
    }

    /// Takes the host's answer to the request the stage waits on, and gives
    /// the stage that follows. Only a successful installation changes the
    /// cached path.
    pub fn advance(&mut self, stage: Stage, reply: Reply) -> (next: Stage)
        ensures
            (final(self)@, next@) == spec_advance(old(self)@, stage@, reply@),
    {
        match stage {
            Stage::Locating => match reply {
                Reply::Which(Some(path)) => Stage::ReadingEnv { path },
                Reply::Which(None) => match &self.binary_cache {
                    Some(path) => Stage::Revalidating { path: path.clone() },
                    None => Stage::Announcing,
                },
                _ => Stage::Locating,
            },
            Stage::ReadingEnv { path } => match reply {
                Reply::ShellEnv(env) => Stage::Finished(Ok(HarperBinary { path, env: Some(env) })),
                _ => Stage::ReadingEnv { path },
            },
            Stage::Revalidating { path } => match reply {
                Reply::Exists(true) => Stage::Finished(Ok(HarperBinary::installed(&path))),
                Reply::Exists(false) => Stage::Announcing,
                _ => Stage::Revalidating { path },
            },
            Stage::Announcing => match reply {
                Reply::Acknowledged => Stage::Probing,
                _ => Stage::Announcing,
            },
            Stage::Probing => match reply {
                Reply::Platform(os, arch) => match arch.cpu() {
                    Some(cpu) => Stage::Fetching { os, cpu },
                    None => Stage::Finished(Err(ProvisionError::UnsupportedArchitecture)),
                },
                _ => Stage::Probing,
            },
            Stage::Fetching { os, cpu } => match reply {
                Reply::Release(release) => match plan_for(os, cpu, release) {
                    Ok(plan) => Stage::Checking { plan },
                    Err(error) => Stage::Finished(Err(error)),
                },
                Reply::NoRelease { cause } => Stage::Finished(
                    Err(ProvisionError::Fetch { cause }),
                ),
                _ => Stage::Fetching { os, cpu },
            },
            Stage::Checking { plan } => match reply {
                Reply::Exists(true) => self.installed(&plan),
                Reply::Exists(false) => Stage::AnnouncingDownload { plan },
                _ => Stage::Checking { plan },
            },
            Stage::AnnouncingDownload { plan } => match reply {
                Reply::Acknowledged => Stage::Downloading { plan },
                _ => Stage::AnnouncingDownload { plan },
            },
            Stage::Downloading { plan } => match reply {
                Reply::Downloaded => Stage::Marking { plan },
                Reply::DownloadFailed { cause } => Stage::Cleaning {
                    directory: plan.directory(),
                    error: ProvisionError::Download { cause },
                },
                Reply::ExtractionFailed { cause } => Stage::Cleaning {
                    directory: plan.directory(),
                    error: ProvisionError::Extraction { cause },
                },
                _ => Stage::Downloading { plan },
            },
            Stage::Marking { plan } => match reply {
                Reply::MadeExecutable => Stage::Listing { plan },
                Reply::NotMadeExecutable { cause } => Stage::Cleaning {
                    directory: plan.directory(),
                    error: ProvisionError::Permission { cause },
                },
                _ => Stage::Marking { plan },
            },
            Stage::Cleaning { directory, error } => match reply {
                Reply::Acknowledged => Stage::Finished(Err(error)),
                _ => Stage::Cleaning { directory, error },
            },
            Stage::Listing { plan } => match reply {
                Reply::Entries(names) => {
                    let stale = stale_entries(&names, &plan.directory());
                    Stage::Pruning { plan, stale }
                },
                _ => Stage::Listing { plan },
            },
            Stage::Pruning { plan, stale } => match reply {
                Reply::Acknowledged => self.installed(&plan),
                _ => Stage::Pruning { plan, stale },
            },
            Stage::Finished(outcome) => Stage::Finished(outcome),
        }
    }

    /// The command that starts the language server, for the outcome of a
    /// resolution. A failed resolution gives its own error; a binary whose
    /// path is not text gives [`ProvisionError::PathEncoding`].
    pub fn language_server_command(
        &self,
        outcome: Result<HarperBinary, ProvisionError>,
    ) -> (command: Result<Command, ProvisionError>)
        ensures
            match command {
                Ok(command) => spec_language_server_command(outcome_view(outcome)) == Ok::<
                    CommandView,
                    ProvisionErrorView,
                >(command@),
                Err(error) => spec_language_server_command(outcome_view(outcome)) == Err::<
                    CommandView,
                    ProvisionErrorView,
                >(error@),
            },
    {
        match outcome {
            Ok(binary) => binary.command(),
            Err(error) => Err(error),
        }
    }

    /// The initialization options to pass to the language server, as JSON
    /// text, for what the lookup of its settings gave.
    pub fn language_server_initialization_options(&self, lookup: Option<LspSettings>) -> (options:
        String)
        ensures
            options@ == spec_initialization_options(lookup_view(lookup)),
    {
        match lookup {
            Some(settings) => or_empty_object(settings.initialization_options),
            None => or_empty_object(None),
        }
    }

    /// The workspace configuration to pass to the language server, as JSON
    /// text, for what the lookup of its settings gave.
    pub fn language_server_workspace_configuration(&self, lookup: Option<LspSettings>) -> (settings:
        String)
        ensures
            settings@ == spec_workspace_configuration(lookup_view(lookup)),
    {
        match lookup {
            Some(found) => or_empty_object(found.settings),
            None => or_empty_object(None),
        }
    }

    /// Records the planned binary as installed and ends the resolution with
    /// it.
    fn installed(&mut self, plan: &Plan) -> (stage: Stage)
        ensures
            final(self)@ == Some(plan@.binary_path()),
            stage@ == StageView::Finished(Ok(spec_installed(plan@.binary_path()))),
    {
        let path = plan.binary_path();
        let binary = HarperBinary::installed(&path);
        self.binary_cache = Some(path);
        Stage::Finished(Ok(binary))
    }
}

} // verus!
