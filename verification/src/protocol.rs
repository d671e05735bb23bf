//! What the library asks of the host, and what the host answers.

use crate::platform::{Architecture, ArchiveKind, Os};
use crate::release::{Release, ReleaseView};
use vstd::prelude::*;

verus! {

/// What the host shows of an installation in progress.
#[derive(Clone, Copy, Debug, PartialEq, Eq, Structural)]
pub enum InstallationStatus {
    CheckingForUpdate,
    Downloading,
}

/// One thing for the host to do. Each request has one kind of [`Reply`] that
/// answers it.
#[derive(Clone, Debug, PartialEq, Eq)]
pub enum Request {
    /// Look the binary up on the shell's search path; answered by
    /// [`Reply::Which`].
    Which { binary_name: String },
    /// Read the shell's environment; answered by [`Reply::ShellEnv`].
    ShellEnv,
    /// Tell whether anything exists at the path; answered by
    /// [`Reply::Exists`].
    Exists { path: String },
    /// Show the status; answered by [`Reply::Acknowledged`].
    SetStatus { status: InstallationStatus },
    /// Tell the platform the host runs on; answered by [`Reply::Platform`].
    CurrentPlatform,
    /// Fetch the latest release of the repository; answered by
    /// [`Reply::Release`] or [`Reply::NoRelease`].
    LatestRelease { repository: String, require_assets: bool, pre_release: bool },
    /// Download the archive and unpack it into the directory; answered by
    /// [`Reply::Downloaded`], [`Reply::DownloadFailed`] or
    /// [`Reply::ExtractionFailed`].
    Download { url: String, directory: String, kind: ArchiveKind },
    /// Mark the file executable; answered by [`Reply::MadeExecutable`] or
    /// [`Reply::NotMadeExecutable`].
    MakeExecutable { path: String },
    /// List the names of the entries of the working directory; answered by
    /// [`Reply::Entries`].
    ListEntries,
    /// Delete the named entries of the working directory with all they hold,
    /// as far as that succeeds; answered by [`Reply::Acknowledged`].
    Remove { names: Vec<String> },
}

/// The host's answer to a [`Request`].
#[derive(Clone, Debug, PartialEq, Eq)]
pub enum Reply {
    /// The path at which the binary was found, as the bytes of its encoding.
    Which(Option<Vec<u8>>),
    ShellEnv(Vec<(String, String)>),
    Exists(bool),
    /// The request was carried out, as far as the host could.
    Acknowledged,
    Platform(Os, Architecture),
    Release(Release),
    /// The release service could not be reached, or has no release to offer.
    NoRelease { cause: String },
    Downloaded,
    DownloadFailed { cause: String },
    ExtractionFailed { cause: String },
    MadeExecutable,
    NotMadeExecutable { cause: String },
    /// The names of the entries; none where the directory cannot be read.
    Entries(Vec<String>),
}

pub enum RequestView {
    Which { binary_name: Seq<char> },
    ShellEnv,
    Exists { path: Seq<char> },
    SetStatus { status: InstallationStatus },
    CurrentPlatform,
    LatestRelease { repository: Seq<char>, require_assets: bool, pre_release: bool },
    Download { url: Seq<char>, directory: Seq<char>, kind: ArchiveKind },
    MakeExecutable { path: Seq<char> },
    ListEntries,
    Remove { names: Seq<Seq<char>> },
}

pub enum ReplyView {
    Which(Option<Seq<u8>>),
    ShellEnv(Seq<(Seq<char>, Seq<char>)>),
    Exists(bool),
    Acknowledged,
    Platform(Os, Architecture),
    Release(ReleaseView),
    NoRelease { cause: Seq<char> },
    Downloaded,
    DownloadFailed { cause: Seq<char> },
    ExtractionFailed { cause: Seq<char> },
    MadeExecutable,
    NotMadeExecutable { cause: Seq<char> },
    Entries(Seq<Seq<char>>),
}

impl View for Request {
    type V = RequestView;

    open spec fn view(&self) -> RequestView {
        match self {
            Request::Which { binary_name } => RequestView::Which { binary_name: binary_name@ },
            Request::ShellEnv => RequestView::ShellEnv,
            Request::Exists { path } => RequestView::Exists { path: path@ },
            Request::SetStatus { status } => RequestView::SetStatus { status: *status },
            Request::CurrentPlatform => RequestView::CurrentPlatform,
            Request::LatestRelease { repository, require_assets, pre_release } =>
                RequestView::LatestRelease {
                    repository: repository@,
                    require_assets: *require_assets,
                    pre_release: *pre_release,
                },
            Request::Download { url, directory, kind } => RequestView::Download {
                url: url@,
                directory: directory@,
                kind: *kind,
            },
            Request::MakeExecutable { path } => RequestView::MakeExecutable { path: path@ },
            Request::ListEntries => RequestView::ListEntries,
            Request::Remove { names } => RequestView::Remove { names: names.deep_view() },
        }
    }
}

impl View for Reply {
    type V = ReplyView;

    open spec fn view(&self) -> ReplyView {
        match self {
            Reply::Which(found) => ReplyView::Which(
                match found {
                    Some(path) => Some(path@),
                    None => None,
                },
            ),
            Reply::ShellEnv(env) => ReplyView::ShellEnv(env.deep_view()),
            Reply::Exists(exists) => ReplyView::Exists(*exists),
            Reply::Acknowledged => ReplyView::Acknowledged,
            Reply::Platform(os, arch) => ReplyView::Platform(*os, *arch),
            Reply::Release(release) => ReplyView::Release(release@),
            Reply::NoRelease { cause } => ReplyView::NoRelease { cause: cause@ },
            Reply::Downloaded => ReplyView::Downloaded,
            Reply::DownloadFailed { cause } => ReplyView::DownloadFailed { cause: cause@ },
            Reply::ExtractionFailed { cause } => ReplyView::ExtractionFailed { cause: cause@ },
            Reply::MadeExecutable => ReplyView::MadeExecutable,
            Reply::NotMadeExecutable { cause } => ReplyView::NotMadeExecutable { cause: cause@ },
            Reply::Entries(names) => ReplyView::Entries(names.deep_view()),
        }
    }
}

} // verus!
