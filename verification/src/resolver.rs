//! The resolution of the `harper-ls` binary, one answer at a time.
//!
//! A binary on the shell's search path comes first; then the binary this
//! extension installed earlier, if it is still on disk; then a fresh
//! installation of the latest release.

use crate::command::{spec_installed, HarperBinary, HarperBinaryView};
use crate::error::{ProvisionError, ProvisionErrorView};
use crate::layout::{
    asset_name, binary_path, spec_asset_name, spec_binary_path, spec_target_name,
    spec_version_dir, target_name, version_dir,
};
use crate::platform::{Cpu, Os};
use crate::protocol::{InstallationStatus, ReplyView, Request, RequestView};
use crate::release::{find_asset, spec_find_asset, Release, ReleaseView};
use vstd::prelude::*;

verus! {

/// The name under which the binary is looked up on the search path.
pub const BINARY_NAME: &'static str = "harper-ls";

/// The repository whose releases are installed.
pub const REPOSITORY: &'static str = "elijah-potter/harper";

/// What is to be installed: a version for an operating system, and where to
/// download it from.
#[derive(Clone, Debug, PartialEq, Eq)]
pub struct Plan {
    pub version: String,
    pub os: Os,
    pub download_url: String,
}

pub struct PlanView {
    pub version: Seq<char>,
    pub os: Os,
    pub download_url: Seq<char>,
}

impl View for Plan {
    type V = PlanView;

    open spec fn view(&self) -> PlanView {
        PlanView { version: self.version@, os: self.os, download_url: self.download_url@ }
    }
}

impl PlanView {
    /// The directory the version is unpacked into.
    pub open spec fn directory(self) -> Seq<char> {
        spec_version_dir(self.version)
    }

    /// The path at which the executable is expected.
    pub open spec fn binary_path(self) -> Seq<char> {
        spec_binary_path(self.version, self.os)
    }
}

/// How far a resolution has come. Every stage but the last waits for the
/// answer to one request.
#[derive(Debug, PartialEq, Eq)]
pub enum Stage {
    /// Looking the binary up on the search path.
    Locating,
    /// Found on the search path; reading the shell's environment.
    ReadingEnv { path: Vec<u8> },
    /// Checking that the binary installed earlier is still on disk.
    Revalidating { path: String },
    /// Installing: telling the host that an update is being looked for.
    Announcing,
    /// Installing: asking for the platform.
    Probing,
    /// Installing: fetching the latest release.
    Fetching { os: Os, cpu: Cpu },
    /// Installing: checking whether the version is on disk already.
    Checking { plan: Plan },
    /// Installing: telling the host that a download begins.
    AnnouncingDownload { plan: Plan },
    /// Installing: downloading and unpacking.
    Downloading { plan: Plan },
    /// Installing: marking the binary executable.
    Marking { plan: Plan },
    /// The installation failed; removing what it left behind.
    Cleaning { directory: String, error: ProvisionError },
    /// Installed; listing the working directory.
    Listing { plan: Plan },
    /// Installed; removing what is not the installed version.
    Pruning { plan: Plan, stale: Vec<String> },
    /// The resolution is over.
    Finished(Result<HarperBinary, ProvisionError>),
}

pub enum StageView {
    Locating,
    ReadingEnv { path: Seq<u8> },
    Revalidating { path: Seq<char> },
    Announcing,
    Probing,
    Fetching { os: Os, cpu: Cpu },
    Checking { plan: PlanView },
    AnnouncingDownload { plan: PlanView },
    Downloading { plan: PlanView },
    Marking { plan: PlanView },
    Cleaning { directory: Seq<char>, error: ProvisionErrorView },
    Listing { plan: PlanView },
    Pruning { plan: PlanView, stale: Seq<Seq<char>> },
    Finished(Result<HarperBinaryView, ProvisionErrorView>),
}

impl View for Stage {
    type V = StageView;

    open spec fn view(&self) -> StageView {
        match self {
            Stage::Locating => StageView::Locating,
            Stage::ReadingEnv { path } => StageView::ReadingEnv { path: path@ },
            Stage::Revalidating { path } => StageView::Revalidating { path: path@ },
            Stage::Announcing => StageView::Announcing,
            Stage::Probing => StageView::Probing,
            Stage::Fetching { os, cpu } => StageView::Fetching { os: *os, cpu: *cpu },
            Stage::Checking { plan } => StageView::Checking { plan: plan@ },
            Stage::AnnouncingDownload { plan } => StageView::AnnouncingDownload { plan: plan@ },
            Stage::Downloading { plan } => StageView::Downloading { plan: plan@ },
            Stage::Marking { plan } => StageView::Marking { plan: plan@ },
            Stage::Cleaning { directory, error } => StageView::Cleaning {
                directory: directory@,
                error: error@,
            },
            Stage::Listing { plan } => StageView::Listing { plan: plan@ },
            Stage::Pruning { plan, stale } => StageView::Pruning {
                plan: plan@,
                stale: stale.deep_view(),
            },
            Stage::Finished(outcome) => StageView::Finished(
                match outcome {
                    Ok(binary) => Ok(binary@),
                    Err(error) => Err(error@),
                },
            ),
        }
    }
}

/// The test for a name that is not the one to keep.
pub open spec fn differs_from(keep: Seq<char>) -> spec_fn(Seq<char>) -> bool {
    |name: Seq<char>| name != keep
}

/// The names that are not the one to keep, in the order given.
pub open spec fn spec_stale_entries(names: Seq<Seq<char>>, keep: Seq<char>) -> Seq<Seq<char>> {
    names.filter(differs_from(keep))
}

/// What a release has for a platform: the plan to install it, or the
/// failure to find an asset of the platform's name.
pub open spec fn spec_plan(os: Os, cpu: Cpu, release: ReleaseView) -> Result<
    PlanView,
    ProvisionErrorView,
> {
    match spec_find_asset(release.assets, spec_asset_name(os, cpu)) {
        Some(index) => Ok(
            PlanView {
                version: release.version,
                os,
                download_url: release.assets[index].download_url,
            },
        ),
        None => Err(ProvisionErrorView::NoCompatibleAsset { target: spec_target_name(os, cpu) }),
    }
}

impl StageView {
    /// The request a stage waits on; a finished resolution waits on none.
    pub open spec fn request(self) -> Option<RequestView> {
        match self {
            StageView::Locating => Some(RequestView::Which { binary_name: BINARY_NAME@ }),
            StageView::ReadingEnv { .. } => Some(RequestView::ShellEnv),
            StageView::Revalidating { path } => Some(RequestView::Exists { path }),
            StageView::Announcing => Some(
                RequestView::SetStatus { status: InstallationStatus::CheckingForUpdate },
            ),
            StageView::Probing => Some(RequestView::CurrentPlatform),
            StageView::Fetching { .. } => Some(
                RequestView::LatestRelease {
                    repository: REPOSITORY@,
                    require_assets: true,
                    pre_release: false,
                },
            ),
            StageView::Checking { plan } => Some(RequestView::Exists { path: plan.binary_path() }),
            StageView::AnnouncingDownload { .. } => Some(
                RequestView::SetStatus { status: InstallationStatus::Downloading },
            ),
            StageView::Downloading { plan } => Some(
                RequestView::Download {
                    url: plan.download_url,
                    directory: plan.directory(),
                    kind: plan.os.spec_archive_kind(),
                },
            ),
            StageView::Marking { plan } => Some(
                RequestView::MakeExecutable { path: plan.binary_path() },
            ),
            StageView::Cleaning { directory, .. } => Some(
                RequestView::Remove { names: seq![directory] },
            ),
            StageView::Listing { .. } => Some(RequestView::ListEntries),
            StageView::Pruning { stale, .. } => Some(RequestView::Remove { names: stale }),
            StageView::Finished(_) => None,
        }
    }

    /// The outcome of a finished resolution.
    pub open spec fn outcome(self) -> Option<Result<HarperBinaryView, ProvisionErrorView>> {
        match self {
            StageView::Finished(outcome) => Some(outcome),
            _ => None,
        }
    }
}

/// The cached path and the stage after an answer. An answer to another
/// request than the one the stage waits on changes nothing.
pub open spec fn spec_advance(
    cache: Option<Seq<char>>,
    stage: StageView,
    reply: ReplyView,
) -> (Option<Seq<char>>, StageView) {
    match (stage, reply) {
        (StageView::Locating, ReplyView::Which(Some(path))) => (
            cache,
            StageView::ReadingEnv { path },
        ),
        (StageView::Locating, ReplyView::Which(None)) => match cache {
            Some(path) => (cache, StageView::Revalidating { path }),
            None => (cache, StageView::Announcing),
        },
        (StageView::ReadingEnv { path }, ReplyView::ShellEnv(env)) => (
            cache,
            StageView::Finished(Ok(HarperBinaryView { path, env: Some(env) })),
        ),
        (StageView::Revalidating { path }, ReplyView::Exists(exists)) => if exists {
            (cache, StageView::Finished(Ok(spec_installed(path))))
        } else {
            (cache, StageView::Announcing)
        },
        (StageView::Announcing, ReplyView::Acknowledged) => (cache, StageView::Probing),
        (StageView::Probing, ReplyView::Platform(os, arch)) => match arch.spec_cpu() {
            Some(cpu) => (cache, StageView::Fetching { os, cpu }),
            None => (
                cache,
                StageView::Finished(Err(ProvisionErrorView::UnsupportedArchitecture)),
            ),
        },
        (StageView::Fetching { os, cpu }, ReplyView::Release(release)) => match spec_plan(
            os,
            cpu,
            release,
        ) {
            Ok(plan) => (cache, StageView::Checking { plan }),
            Err(error) => (cache, StageView::Finished(Err(error))),
        },
        (StageView::Fetching { .. }, ReplyView::NoRelease { cause }) => (
            cache,
            StageView::Finished(Err(ProvisionErrorView::Fetch { cause })),
        ),
        (StageView::Checking { plan }, ReplyView::Exists(exists)) => if exists {
            (Some(plan.binary_path()), StageView::Finished(Ok(spec_installed(plan.binary_path()))))
        } else {
            (cache, StageView::AnnouncingDownload { plan })
        },
        (StageView::AnnouncingDownload { plan }, ReplyView::Acknowledged) => (
            cache,
            StageView::Downloading { plan },
        ),
        (StageView::Downloading { plan }, ReplyView::Downloaded) => (
            cache,
            StageView::Marking { plan },
        ),
        (StageView::Downloading { plan }, ReplyView::DownloadFailed { cause }) => (
            cache,
            StageView::Cleaning {
                directory: plan.directory(),
                error: ProvisionErrorView::Download { cause },
            },
        ),
        (StageView::Downloading { plan }, ReplyView::ExtractionFailed { cause }) => (
            cache,
            StageView::Cleaning {
                directory: plan.directory(),
                error: ProvisionErrorView::Extraction { cause },
            },
        ),
        (StageView::Marking { plan }, ReplyView::MadeExecutable) => (
            cache,
            StageView::Listing { plan },
        ),
        (StageView::Marking { plan }, ReplyView::NotMadeExecutable { cause }) => (
            cache,
            StageView::Cleaning {
                directory: plan.directory(),
                error: ProvisionErrorView::Permission { cause },
            },
        ),
        (StageView::Cleaning { error, .. }, ReplyView::Acknowledged) => (
            cache,
            StageView::Finished(Err(error)),
        ),
        (StageView::Listing { plan }, ReplyView::Entries(names)) => (
            cache,
            StageView::Pruning { plan, stale: spec_stale_entries(names, plan.directory()) },
        ),
        (StageView::Pruning { plan, .. }, ReplyView::Acknowledged) => (
            Some(plan.binary_path()),
            StageView::Finished(Ok(spec_installed(plan.binary_path()))),
        ),
        _ => (cache, stage),
    }
}

/// The names that are not the one to keep, in the order given.
pub fn stale_entries(names: &Vec<String>, keep: &String) -> (stale: Vec<String>)
    ensures
        stale.deep_view() == spec_stale_entries(names.deep_view(), keep@),
{
    let ghost all = names.deep_view();
    let ghost differs = differs_from(keep@);
    let mut stale: Vec<String> = Vec::new();
    let mut index: usize = 0;
    assert(all.take(0) =~= Seq::<Seq<char>>::empty());
    assert(stale.deep_view() =~= Seq::<Seq<char>>::empty());
    proof {
        reveal(Seq::filter);
    }
    while index < names.len()
        invariant
            index <= names.len(),
            all == names.deep_view(),
            differs == differs_from(keep@),
            stale.deep_view() == all.take(index as int).filter(differs),
        decreases names.len() - index,
    {
        let ghost before = stale.deep_view();
        proof {
            assert(all.take(index as int + 1) =~= all.take(index as int).push(
                names[index as int]@,
            ));
            Seq::lemma_filter_push(all.take(index as int), names[index as int]@, differs);
        }
        if names[index] != *keep {
            stale.push(names[index].clone());
            assert(stale.deep_view() =~= before.push(names[index as int]@));
        }
        index = index + 1;
    }
    assert(all.take(index as int) =~= all);
    stale
}

/// What a release has for a platform: the plan to install it, or the
/// failure to find an asset of the platform's name.
pub fn plan_for(os: Os, cpu: Cpu, release: Release) -> (plan: Result<Plan, ProvisionError>)
    ensures
        match plan {
            Ok(plan) => spec_plan(os, cpu, release@) == Ok::<PlanView, ProvisionErrorView>(plan@),
            Err(error) => spec_plan(os, cpu, release@) == Err::<PlanView, ProvisionErrorView>(
                error@,
            ),
        },
{
    let name = asset_name(os, cpu);
    let Release { version, assets } = release;
    match find_asset(&assets, &name) {
        Some(index) => {
            let download_url = assets[index].download_url.clone();
            assert(release@.assets[index as int].download_url == download_url@);
            Ok(Plan { version, os, download_url })
        },
        None => Err(ProvisionError::NoCompatibleAsset { target: target_name(os, cpu) }),
    }
}

impl Plan {
    /// The directory the version is unpacked into.
    pub fn directory(&self) -> (directory: String)
        ensures
            directory@ == self@.directory(),
    {
        version_dir(self.version.as_str())
    }

    /// The path at which the executable is expected.
    pub fn binary_path(&self) -> (path: String)
        ensures
            path@ == self@.binary_path(),
    {
        binary_path(self.version.as_str(), self.os)
    }
}

impl Stage {
    /// The request this stage waits on; a finished resolution waits on none.
    pub fn request(&self) -> (request: Option<Request>)
        ensures
            match request {
                Some(request) => self@.request() == Some(request@),
                None => self@.request() is None,
            },
    {
        match self {
            Stage::Locating => Some(Request::Which { binary_name: String::from_str(BINARY_NAME) }),
            Stage::ReadingEnv { .. } => Some(Request::ShellEnv),
            Stage::Revalidating { path } => Some(Request::Exists { path: path.clone() }),
            Stage::Announcing => Some(
                Request::SetStatus { status: InstallationStatus::CheckingForUpdate },
            ),
            Stage::Probing => Some(Request::CurrentPlatform),
            Stage::Fetching { .. } => Some(
                Request::LatestRelease {
                    repository: String::from_str(REPOSITORY),
                    require_assets: true,
                    pre_release: false,
                },
            ),
            Stage::Checking { plan } => Some(Request::Exists { path: plan.binary_path() }),
            Stage::AnnouncingDownload { .. } => Some(
                Request::SetStatus { status: InstallationStatus::Downloading },
            ),
            Stage::Downloading { plan } => Some(
                Request::Download {
                    url: plan.download_url.clone(),
                    directory: plan.directory(),
                    kind: plan.os.archive_kind(),
                },
            ),
            Stage::Marking { plan } => Some(Request::MakeExecutable { path: plan.binary_path() }),
            Stage::Cleaning { directory, .. } => {
                let mut names: Vec<String> = Vec::new();
                names.push(directory.clone());
                assert(names.deep_view() =~= seq![directory@]);
                Some(Request::Remove { names })
            },
            Stage::Listing { .. } => Some(Request::ListEntries),
            Stage::Pruning { stale, .. } => {
                let names = copy_names(stale);
                Some(Request::Remove { names })
            },
            Stage::Finished(_) => None,
        }
    }
}

fn copy_names(names: &Vec<String>) -> (copy: Vec<String>)
    ensures
        copy.deep_view() == names.deep_view(),
{
    let mut copy: Vec<String> = Vec::new();
    let mut index: usize = 0;
    while index < names.len()
        invariant
            index <= names.len(),
            copy.len() == index,
            forall|at: int| 0 <= at < index ==> copy[at]@ == names[at]@,
        decreases names.len() - index,
    {
        copy.push(names[index].clone());
        index = index + 1;
    }
    assert(copy.deep_view() =~= names.deep_view());
    copy
}

} // verus!
