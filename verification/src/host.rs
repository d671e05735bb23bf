//! A model of the host: what a host that does as it is asked answers to each
//! request, and what the request does to its disk. The model is what the
//! laws of the resolution are stated against.

use crate::platform::{Architecture, Os};
use crate::protocol::{ReplyView, RequestView};
use crate::release::ReleaseView;
use crate::resolver::{spec_advance, StageView};
use vstd::prelude::*;

verus! {

/// How a download would end on a host.
pub enum DownloadResult {
    Unpacked,
    DownloadFails { cause: Seq<char> },
    ExtractionFails { cause: Seq<char> },
}

/// A host at one moment.
pub struct Host {
    /// Where `harper-ls` is on the shell's search path, if it is.
    pub on_path: Option<Seq<u8>>,
    /// The shell's environment.
    pub environment: Seq<(Seq<char>, Seq<char>)>,
    pub os: Os,
    pub arch: Architecture,
    /// What the release service has to say: the latest release, or why
    /// there is none.
    pub latest: Result<ReleaseView, Seq<char>>,
    /// How a download would end.
    pub download: DownloadResult,
    /// Whether a download that fails leaves its directory behind.
    pub leaves_litter: bool,
    /// The files the release archive holds, by their paths inside it.
    pub archive: Set<Seq<char>>,
    /// Why a file that is there cannot be marked executable, if it cannot.
    pub marking: Result<(), Seq<char>>,
    /// What the host has to say of a file that is not there.
    pub missing: Seq<char>,
    /// The names of the entries of the working directory.
    pub entries: Seq<Seq<char>>,
    /// The paths, from the working directory, at which a file exists.
    pub files: Set<Seq<char>>,
    /// The requests served so far, oldest first.
    pub served: Seq<RequestView>,
}

/// Whether the text names an entry of a directory: it has no separator.
pub open spec fn is_entry_name(name: Seq<char>) -> bool {
    !name.contains('/')
}

/// The entry of the working directory that a relative path leads through:
/// the path up to its first separator.
pub open spec fn top_entry(path: Seq<char>) -> Seq<char> {
    match path.index_of_first('/') {
        Some(separator) => path.take(separator),
        None => path,
    }
}

/// Whether the path is the named entry or lies below it.
pub open spec fn is_under(name: Seq<char>, path: Seq<char>) -> bool {
    path == name || (name + seq!['/']).is_prefix_of(path)
}

/// Whether the path is, or lies below, one of the named entries.
pub open spec fn is_under_any(names: Seq<Seq<char>>, path: Seq<char>) -> bool {
    exists|index: int| 0 <= index < names.len() && is_under(#[trigger] names[index], path)
}

/// The test for an entry that is none of the named ones.
pub open spec fn is_none_of(names: Seq<Seq<char>>) -> spec_fn(Seq<char>) -> bool {
    |entry: Seq<char>| !names.contains(entry)
}

/// The test for a path that neither is nor lies below one of the named
/// entries.
pub open spec fn is_outside(names: Seq<Seq<char>>) -> spec_fn(Seq<char>) -> bool {
    |path: Seq<char>| !is_under_any(names, path)
}

impl Host {
    /// The entries are names, and no name is listed twice.
    pub open spec fn wf(self) -> bool {
        &&& self.entries.no_duplicates()
        &&& forall|index: int|
            0 <= index < self.entries.len() ==> is_entry_name(#[trigger] self.entries[index])
    }

    /// The entries once the directory at the path exists.
    pub open spec fn entries_with(self, directory: Seq<char>) -> Seq<Seq<char>> {
        if self.entries.contains(top_entry(directory)) {
            self.entries
        } else {
            self.entries.push(top_entry(directory))
        }
    }

    /// The files once the archive is unpacked into the directory.
    pub open spec fn files_with(self, directory: Seq<char>) -> Set<Seq<char>> {
        self.files.union(self.archive.map(|inside: Seq<char>| directory + seq!['/'] + inside))
    }

    /// The entries once the named ones are deleted.
    pub open spec fn entries_without(self, names: Seq<Seq<char>>) -> Seq<Seq<char>> {
        self.entries.filter(is_none_of(names))
    }

    /// The files once the named entries are deleted with all they hold.
    pub open spec fn files_without(self, names: Seq<Seq<char>>) -> Set<Seq<char>> {
        self.files.filter(is_outside(names))
    }

    /// What the request does to the disk.
    pub open spec fn effect(self, request: RequestView) -> Host {
        match request {
            RequestView::Download { directory, .. } => match self.download {
                DownloadResult::Unpacked => Host {
                    entries: self.entries_with(directory),
                    files: self.files_with(directory),
                    ..self
                },
                _ => if self.leaves_litter {
                    Host { entries: self.entries_with(directory), ..self }
                } else {
                    self
                },
            },
            RequestView::Remove { names } => Host {
                entries: self.entries_without(names),
                files: self.files_without(names),
                ..self
            },
            _ => self,
        }
    }

    /// The answer to the request.
    pub open spec fn answer(self, request: RequestView) -> ReplyView {
        match request {
            RequestView::Which { .. } => ReplyView::Which(self.on_path),
            RequestView::ShellEnv => ReplyView::ShellEnv(self.environment),
            RequestView::Exists { path } => ReplyView::Exists(self.files.contains(path)),
            RequestView::SetStatus { .. } => ReplyView::Acknowledged,
            RequestView::CurrentPlatform => ReplyView::Platform(self.os, self.arch),
            RequestView::LatestRelease { .. } => match self.latest {
                Ok(release) => ReplyView::Release(release),
                Err(cause) => ReplyView::NoRelease { cause },
            },
            RequestView::Download { .. } => match self.download {
                DownloadResult::Unpacked => ReplyView::Downloaded,
                DownloadResult::DownloadFails { cause } => ReplyView::DownloadFailed { cause },
                DownloadResult::ExtractionFails { cause } => ReplyView::ExtractionFailed {
                    cause,
                },
            },
            RequestView::MakeExecutable { path } => if !self.files.contains(path) {
                ReplyView::NotMadeExecutable { cause: self.missing }
            } else {
                match self.marking {
                    Ok(_) => ReplyView::MadeExecutable,
                    Err(cause) => ReplyView::NotMadeExecutable { cause },
                }
            },
            RequestView::ListEntries => ReplyView::Entries(self.entries),
            RequestView::Remove { .. } => ReplyView::Acknowledged,
        }
    }

    /// The host after it has served the request.
    pub open spec fn serve(self, request: RequestView) -> Host {
        Host { served: self.served.push(request), ..self.effect(request) }
    }
}

impl StageView {
    /// The most requests a resolution still makes from this stage on.
    pub open spec fn requests_left(self) -> nat {
        match self {
            StageView::Locating => 11,
            StageView::ReadingEnv { .. } => 1,
            StageView::Revalidating { .. } => 10,
            StageView::Announcing => 9,
            StageView::Probing => 8,
            StageView::Fetching { .. } => 7,
            StageView::Checking { .. } => 6,
            StageView::AnnouncingDownload { .. } => 5,
            StageView::Downloading { .. } => 4,
            StageView::Marking { .. } => 3,
            StageView::Listing { .. } => 2,
            StageView::Pruning { .. } => 1,
            StageView::Cleaning { .. } => 1,
            StageView::Finished(_) => 0,
        }
    }
}

/// Where a resolution stands: the cached path, the stage, and the host.
pub struct Resolution {
    pub cache: Option<Seq<char>>,
    pub stage: StageView,
    pub host: Host,
}

impl Resolution {
    /// The resolution after the host has served the request it waits on.
    pub open spec fn step(self) -> Resolution {
        match self.stage.request() {
            Some(request) => {
                let (cache, stage) = spec_advance(
                    self.cache,
                    self.stage,
                    self.host.answer(request),
                );
                Resolution { cache, stage, host: self.host.serve(request) }
            },
            None => self,
        }
    }

    /// The resolution carried through to its end.
    pub open spec fn run(self) -> Resolution
        decreases self.stage.requests_left(),
    {
        if self.stage.request() is Some {
            self.step().run()
        } else {
            self
        }
    }
}

} // verus!
