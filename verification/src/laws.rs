//! What holds of every resolution, against the model of the host.

use crate::command::{spec_command, spec_installed, CommandView, HarperBinaryView};
use crate::error::ProvisionErrorView;
use crate::host::{
    is_entry_name, is_none_of, is_under, is_under_any, top_entry, DownloadResult, Host,
    Resolution,
};
use crate::layout::spec_binary_file;
use crate::platform::Architecture;
use crate::protocol::{InstallationStatus, ReplyView, RequestView};
use crate::resolver::{
    differs_from, spec_advance, spec_plan, spec_stale_entries, PlanView, StageView, BINARY_NAME,
    REPOSITORY,
};
use vstd::prelude::*;

verus! {

/// A resolution that starts at the search path.
pub open spec fn resolve(cache: Option<Seq<char>>, host: Host) -> Resolution {
    Resolution { cache, stage: StageView::Locating, host }.run()
}

/// A resolution that starts at the installation.
pub open spec fn install(cache: Option<Seq<char>>, host: Host) -> Resolution {
    Resolution { cache, stage: StageView::Announcing, host }.run()
}

/// Whether serving the request takes the network.
pub open spec fn is_network_call(request: RequestView) -> bool {
    request is LatestRelease || request is Download
}

/// Whether the host served a network call after it had served `before`
/// requests.
pub open spec fn called_network_since(host: Host, before: nat) -> bool {
    exists|index: int|
        before <= index < host.served.len() && is_network_call(#[trigger] host.served[index])
}

/// Every resolution comes to an end, whatever the host answers.
pub proof fn law_resolution_ends(start: Resolution)
    ensures
        start.run().stage is Finished,
    decreases start.stage.requests_left(),
{
    if start.stage.request() is Some {
        law_resolution_ends(start.step());
    }
}

/// A binary on the search path is the one resolved, in the shell's
/// environment, whatever is cached and whatever is on disk: the host is
/// asked for the path and the environment and for nothing else, and the
/// cached path stays as it was.
pub proof fn law_search_path_comes_first(cache: Option<Seq<char>>, host: Host, path: Seq<u8>)
    requires
        host.on_path == Some(path),
    ensures
        resolve(cache, host) == (Resolution {
            cache,
            stage: StageView::Finished(
                Ok(HarperBinaryView { path, env: Some(host.environment) }),
            ),
            host: Host {
                served: host.served.push(RequestView::Which { binary_name: BINARY_NAME@ }).push(
                    RequestView::ShellEnv,
                ),
                ..host
            },
        }),
        !called_network_since(resolve(cache, host).host, host.served.len()),
{
    reveal_with_fuel(Resolution::run, 3);
}

/// A cached path at which nothing exists any more is not resolved: the
/// resolution goes on as an installation does.
pub proof fn law_stale_cache_falls_through(host: Host, path: Seq<char>)
    requires
        host.on_path is None,
        !host.files.contains(path),
    ensures
        resolve(Some(path), host) == install(
            Some(path),
            Host {
                served: host.served.push(RequestView::Which { binary_name: BINARY_NAME@ }).push(
                    RequestView::Exists { path },
                ),
                ..host
            },
        ),
{
    reveal_with_fuel(Resolution::run, 3);
}

/// On 32-bit x86 an installation fails as unsupported before the network is
/// taken: the host is asked to show the status and to tell its platform,
/// and for nothing else.
pub proof fn law_unsupported_architecture_fails_first(cache: Option<Seq<char>>, host: Host)
    requires
        host.arch == Architecture::X86,
    ensures
        install(cache, host) == (Resolution {
            cache,
            stage: StageView::Finished(Err(ProvisionErrorView::UnsupportedArchitecture)),
            host: Host {
                served: host.served.push(
                    RequestView::SetStatus { status: InstallationStatus::CheckingForUpdate },
                ).push(RequestView::CurrentPlatform),
                ..host
            },
        }),
        !called_network_since(install(cache, host).host, host.served.len()),
{
    reveal_with_fuel(Resolution::run, 3);
}

/// A binary that was installed has a command, and the command is the path
/// it was installed at: of the two ways a resolution can end well, only a
/// binary from the search path can have a path that is not text.
pub proof fn law_installed_binary_has_command(path: Seq<char>)
    ensures
        spec_command(spec_installed(path)) == Ok::<CommandView, ProvisionErrorView>(
            CommandView { command: path, args: seq!["--stdio"@], env: Seq::empty() },
        ),
{
    vstd::utf8::encode_utf8_valid_utf8(path);
    vstd::utf8::encode_utf8_decode_utf8(path);
}

/// The requests of an installation up to the look at the disk: the status,
/// the platform, the release, and whether the binary is there.
pub open spec fn look_before_download(plan: PlanView) -> Seq<RequestView> {
    seq![
        RequestView::SetStatus { status: InstallationStatus::CheckingForUpdate },
        RequestView::CurrentPlatform,
        RequestView::LatestRelease {
            repository: REPOSITORY@,
            require_assets: true,
            pre_release: false,
        },
        RequestView::Exists { path: plan.binary_path() },
    ]
}

/// What a host has to offer for its platform: the plan to install the latest
/// release, where the platform is supported and the release has its asset.
pub open spec fn offer(host: Host) -> Option<PlanView> {
    match (host.arch.spec_cpu(), host.latest) {
        (Some(cpu), Ok(release)) => match spec_plan(host.os, cpu, release) {
            Ok(plan) => Some(plan),
            Err(_) => None,
        },
        _ => None,
    }
}

/// Where the binary of the latest release is on disk already, an
/// installation downloads nothing and leaves the disk as it is, and a second
/// installation does the same and gives the same path.
pub proof fn law_install_twice(cache: Option<Seq<char>>, host: Host, plan: PlanView)
    requires
        offer(host) == Some(plan),
        host.files.contains(plan.binary_path()),
    ensures
        ({
            let first = install(cache, host);
            let second = install(first.cache, first.host);
            &&& first.stage == StageView::Finished(Ok(spec_installed(plan.binary_path())))
            &&& second.stage == first.stage
            &&& first.cache == Some(plan.binary_path())
            &&& second.cache == first.cache
            &&& first.host == Host { served: host.served + look_before_download(plan), ..host }
            &&& second.host == Host {
                served: first.host.served + look_before_download(plan),
                ..first.host
            }
            &&& forall|index: int|
                host.served.len() <= index < second.host.served.len()
                    ==> !(#[trigger] second.host.served[index] is Download)
        }),
{
    lemma_install_present(cache, host, plan);
    let first = install(cache, host);
    lemma_install_present(first.cache, first.host, plan);
}

/// An installation where the binary of the latest release is on disk
/// already.
proof fn lemma_install_present(cache: Option<Seq<char>>, host: Host, plan: PlanView)
    requires
        offer(host) == Some(plan),
        host.files.contains(plan.binary_path()),
    ensures
        install(cache, host) == (Resolution {
            cache: Some(plan.binary_path()),
            stage: StageView::Finished(Ok(spec_installed(plan.binary_path()))),
            host: Host { served: host.served + look_before_download(plan), ..host },
        }),
{
    reveal_with_fuel(Resolution::run, 5);
    let trace = look_before_download(plan);
    assert(host.served.push(trace[0]).push(trace[1]).push(trace[2]).push(trace[3])
        =~= host.served + trace);
}

/// A sequence without duplicates, filtered by a test that only `kept`
/// passes, is `kept` alone where it was there.
proof fn lemma_filter_down_to_one(
    entries: Seq<Seq<char>>,
    test: spec_fn(Seq<char>) -> bool,
    kept: Seq<char>,
)
    requires
        entries.no_duplicates(),
        forall|entry: Seq<char>| #[trigger] test(entry) <==> entry == kept,
    ensures
        entries.filter(test) == if entries.contains(kept) {
            seq![kept]
        } else {
            Seq::<Seq<char>>::empty()
        },
    decreases entries.len(),
{
    reveal(Seq::filter);
    if entries.len() > 0 {
        let front = entries.drop_last();
        lemma_filter_down_to_one(front, test, kept);
        if entries.last() == kept {
            assert(!front.contains(kept)) by {
                if front.contains(kept) {
                    let at = choose|at: int| 0 <= at < front.len() && front[at] == kept;
                    assert(entries[at] == entries[entries.len() - 1]);
                }
            }
            assert(entries.contains(kept)) by {
                assert(entries[entries.len() - 1] == kept);
            }
            assert(entries.filter(test) =~= seq![kept]);
        } else {
            assert(entries.contains(kept) <==> front.contains(kept)) by {
                if entries.contains(kept) {
                    let at = choose|at: int| 0 <= at < entries.len() && entries[at] == kept;
                    assert(front[at] == kept);
                }
                if front.contains(kept) {
                    let at = choose|at: int| 0 <= at < front.len() && front[at] == kept;
                    assert(entries[at] == kept);
                }
            }
        }
    } else {
        assert(!entries.contains(kept));
    }
}

/// The directory of a version whose name has no separator is an entry of
/// the working directory.
proof fn lemma_top_entry_of_name(name: Seq<char>)
    requires
        is_entry_name(name),
    ensures
        top_entry(name) == name,
{
    name.index_of_first_ensures('/');
}

/// Filtering keeps a sequence free of duplicates.
proof fn lemma_filter_keeps_distinct(entries: Seq<Seq<char>>, test: spec_fn(Seq<char>) -> bool)
    requires
        entries.no_duplicates(),
    ensures
        entries.filter(test).no_duplicates(),
    decreases entries.len(),
{
    reveal(Seq::filter);
    if entries.len() > 0 {
        let front = entries.drop_last();
        let last = entries.last();
        lemma_filter_keeps_distinct(front, test);
        if front.filter(test).contains(last) {
            front.lemma_filter_contains_rev(test, last);
            let at = choose|at: int| 0 <= at < front.len() && front[at] == last;
            assert(entries[at] == entries[entries.len() - 1]);
        }
    }
}

/// Whatever a host is asked, its working directory stays a list of names
/// without duplicates.
pub proof fn law_host_stays_well_formed(host: Host, request: RequestView)
    requires
        host.wf(),
    ensures
        host.serve(request).wf(),
{
    let after = host.serve(request).entries;
    match request {
        RequestView::Download { directory, .. } => {
            directory.index_of_first_ensures('/');
            let top = top_entry(directory);
            assert(is_entry_name(top)) by {
                if top.contains('/') {
                    let at = choose|at: int| 0 <= at < top.len() && top[at] == '/';
                    assert(directory[at] == '/');
                }
            }
        },
        RequestView::Remove { names } => {
            lemma_filter_keeps_distinct(host.entries, is_none_of(names));
            assert forall|index: int| 0 <= index < after.len() implies is_entry_name(
                #[trigger] after[index],
            ) by {
                host.entries.lemma_filter_contains_rev(is_none_of(names), after[index]);
                let at = choose|at: int|
                    0 <= at < host.entries.len() && host.entries[at] == after[index];
                assert(is_entry_name(host.entries[at]));
            }
        },
        _ => {},
    }
}

/// The host once the archive is unpacked into the directory of the plan.
pub open spec fn unpacked(host: Host, plan: PlanView) -> Host {
    Host {
        entries: host.entries_with(plan.directory()),
        files: host.files_with(plan.directory()),
        ..host
    }
}

/// The error an installation that downloads ends with: that of the
/// download, of the unpacking, or of the marking of the binary, which fails
/// also where the archive had no binary in it. `None` where all three
/// succeed.
pub open spec fn failure_after_download(host: Host, plan: PlanView) -> Option<
    ProvisionErrorView,
> {
    match host.download {
        DownloadResult::DownloadFails { cause } => Some(ProvisionErrorView::Download { cause }),
        DownloadResult::ExtractionFails { cause } => Some(
            ProvisionErrorView::Extraction { cause },
        ),
        DownloadResult::Unpacked => if !unpacked(host, plan).files.contains(plan.binary_path()) {
            Some(ProvisionErrorView::Permission { cause: host.missing })
        } else {
            match host.marking {
                Err(cause) => Some(ProvisionErrorView::Permission { cause }),
                Ok(_) => None,
            }
        },
    }
}

/// An installation that downloads, step by step: the disk at its end is the
/// disk after unpacking, without what the listing showed beside the
/// directory of the version.
proof fn lemma_install_downloads(cache: Option<Seq<char>>, host: Host, plan: PlanView)
    requires
        offer(host) == Some(plan),
        !host.files.contains(plan.binary_path()),
        failure_after_download(host, plan) is None,
    ensures
        ({
            let end = install(cache, host);
            let stale = spec_stale_entries(unpacked(host, plan).entries, plan.directory());
            &&& end.stage == StageView::Finished(Ok(spec_installed(plan.binary_path())))
            &&& end.cache == Some(plan.binary_path())
            &&& end.host.entries == unpacked(host, plan).entries_without(stale)
            &&& end.host.files == unpacked(host, plan).files_without(stale)
            &&& offer(end.host) == Some(plan)
        }),
{
    let announcing = Resolution { cache, stage: StageView::Announcing, host };
    let checking = announcing.step().step().step();
    assert(checking.stage == StageView::Checking { plan });
    let marking = checking.step().step().step();
    assert(marking.stage == StageView::Marking { plan });
    assert(marking.host.entries == unpacked(host, plan).entries);
    assert(marking.host.files == unpacked(host, plan).files);
    let listing = marking.step();
    assert(listing.stage == StageView::Listing { plan });
    let pruning = listing.step();
    let end = pruning.step();
    assert(end.stage is Finished);
    assert(announcing.run() == end) by {
        reveal_with_fuel(Resolution::run, 4);
        assert(announcing.run() == checking.run());
        assert(checking.run() == marking.run());
        assert(marking.run() == end);
    }
}

/// After an installation that downloads, the working directory holds the
/// directory of the installed version and nothing else, whatever it held
/// before. This is stated of versions whose directory is one entry of the
/// working directory: its name has no separator.
pub proof fn law_one_version_remains(cache: Option<Seq<char>>, host: Host, plan: PlanView)
    requires
        host.wf(),
        offer(host) == Some(plan),
        !host.files.contains(plan.binary_path()),
        failure_after_download(host, plan) is None,
        is_entry_name(plan.directory()),
    ensures
        install(cache, host).stage == StageView::Finished(
            Ok(spec_installed(plan.binary_path())),
        ),
        install(cache, host).cache == Some(plan.binary_path()),
        install(cache, host).host.entries == seq![plan.directory()],
{
    lemma_install_downloads(cache, host, plan);
    let directory = plan.directory();
    lemma_top_entry_of_name(directory);
    let entries = unpacked(host, plan).entries;
    let stale = spec_stale_entries(entries, directory);
    let keep = is_none_of(stale);
    let only = |entry: Seq<char>| entry == directory;
    assert(entries.contains(directory)) by {
        if !host.entries.contains(directory) {
            assert(entries[entries.len() - 1] == directory);
        }
    }
    assert forall|at: int| 0 <= at < entries.len() implies (keep(#[trigger] entries[at])
        <==> only(entries[at])) by {
        lemma_stale_is_all_but_kept(entries, directory, entries[at]);
    }
    lemma_filter_agrees(entries, keep, only);
    lemma_filter_down_to_one(entries, only, directory);
}

/// A listed name is stale exactly where it is not the name kept.
proof fn lemma_stale_is_all_but_kept(names: Seq<Seq<char>>, kept: Seq<char>, name: Seq<char>)
    requires
        names.contains(name),
    ensures
        spec_stale_entries(names, kept).contains(name) <==> name != kept,
{
    let differs = differs_from(kept);
    let stale = spec_stale_entries(names, kept);
    if stale.contains(name) {
        let found = choose|found: int| 0 <= found < stale.len() && stale[found] == name;
        names.lemma_filter_pred(differs, found);
    }
    if name != kept {
        let at = choose|at: int| 0 <= at < names.len() && names[at] == name;
        names.lemma_filter_contains(differs, at);
    }
}

/// The path of a file in a directory lies below no other entry than that
/// directory.
proof fn lemma_below_one_entry(directory: Seq<char>, file: Seq<char>, other: Seq<char>)
    requires
        is_entry_name(directory),
        is_entry_name(other),
        is_under(other, directory + seq!['/'] + file),
    ensures
        other == directory,
{
    let path = directory + seq!['/'] + file;
    assert(path[directory.len() as int] == '/');
    if path == other {
        assert(other[directory.len() as int] == '/');
    } else {
        let prefix = other + seq!['/'];
        assert(prefix =~= path.subrange(0, prefix.len() as int));
        assert(path[other.len() as int] == prefix[other.len() as int]);
        if other.len() < directory.len() {
            assert(directory[other.len() as int] == path[other.len() as int]);
        } else if other.len() > directory.len() {
            assert(other[directory.len() as int] == prefix[directory.len() as int]);
            assert(prefix[directory.len() as int] == path[directory.len() as int]);
        } else {
            assert forall|at: int| 0 <= at < other.len() implies other[at] == directory[at] by {
                assert(other[at] == prefix[at]);
                assert(prefix[at] == path[at]);
            }
            assert(other =~= directory);
        }
    }
}

/// An installation that downloads and succeeds leaves the binary on disk,
/// and the installation after it downloads nothing: it looks, finds the
/// binary, and gives the same path. This is stated of versions whose
/// directory is one entry of the working directory.
pub proof fn law_second_install_is_free(cache: Option<Seq<char>>, host: Host, plan: PlanView)
    requires
        host.wf(),
        offer(host) == Some(plan),
        !host.files.contains(plan.binary_path()),
        failure_after_download(host, plan) is None,
        is_entry_name(plan.directory()),
    ensures
        ({
            let first = install(cache, host);
            let second = install(first.cache, first.host);
            &&& first.host.files.contains(plan.binary_path())
            &&& second.stage == first.stage
            &&& second.cache == first.cache
            &&& second.host == Host {
                served: first.host.served + look_before_download(plan),
                ..first.host
            }
        }),
{
    lemma_install_downloads(cache, host, plan);
    let first = install(cache, host);
    let directory = plan.directory();
    let path = plan.binary_path();
    let entries = unpacked(host, plan).entries;
    let stale = spec_stale_entries(entries, directory);
    lemma_top_entry_of_name(directory);
    assert(path == directory + seq!['/'] + spec_binary_file(plan.os)) by {
        reveal_strlit("/");
        assert("/"@ =~= seq!['/']);
    }
    assert(!is_under_any(stale, path)) by {
        if is_under_any(stale, path) {
            let index = choose|index: int|
                0 <= index < stale.len() && is_under(#[trigger] stale[index], path);
            let name = stale[index];
            entries.lemma_filter_contains_rev(differs_from(directory), name);
            let at = choose|at: int| 0 <= at < entries.len() && entries[at] == name;
            assert(is_entry_name(entries[at]));
            lemma_below_one_entry(directory, spec_binary_file(plan.os), name);
        }
    }
    lemma_install_present(first.cache, first.host, plan);
}

/// Two tests that agree on the members of a sequence filter it alike.
proof fn lemma_filter_agrees(
    entries: Seq<Seq<char>>,
    one: spec_fn(Seq<char>) -> bool,
    other: spec_fn(Seq<char>) -> bool,
)
    requires
        forall|at: int|
            0 <= at < entries.len() ==> (one(#[trigger] entries[at]) <==> other(entries[at])),
    ensures
        entries.filter(one) == entries.filter(other),
    decreases entries.len(),
{
    reveal(Seq::filter);
    if entries.len() > 0 {
        let front = entries.drop_last();
        assert forall|at: int| 0 <= at < front.len() implies (one(#[trigger] front[at]) <==> other(
            front[at],
        )) by {
            assert(front[at] == entries[at]);
        }
        lemma_filter_agrees(front, one, other);
    }
}

/// Where the download fails, the unpacking, or the marking of the binary,
/// the installation fails with that failure, the directory of the version
/// is gone with all it held, and the cached path is the one from before.
pub proof fn law_failed_download_leaves_nothing(
    cache: Option<Seq<char>>,
    host: Host,
    plan: PlanView,
    error: ProvisionErrorView,
)
    requires
        offer(host) == Some(plan),
        !host.files.contains(plan.binary_path()),
        failure_after_download(host, plan) == Some(error),
    ensures
        install(cache, host).stage == StageView::Finished(Err(error)),
        install(cache, host).cache == cache,
        !install(cache, host).host.entries.contains(plan.directory()),
        forall|path: Seq<char>|
            is_under(plan.directory(), path) ==> !install(cache, host).host.files.contains(path),
{
    reveal_with_fuel(Resolution::run, 10);
    let directory = plan.directory();
    let names = seq![directory];
    assert(names[0] == directory);
    let end = install(cache, host);
    if end.host.entries.contains(directory) {
        let at = choose|at: int| 0 <= at < end.host.entries.len() && end.host.entries[at]
            == directory;
        if host.download is Unpacked {
            let before = host.entries_with(directory);
            before.lemma_filter_pred(is_none_of(names), at);
        } else if host.leaves_litter {
            let before = host.entries_with(directory);
            before.lemma_filter_pred(is_none_of(names), at);
        } else {
            host.entries.lemma_filter_pred(is_none_of(names), at);
        }
    }
}

/// Only the end of a successful installation changes the cached path, and
/// it changes it to the path of the binary the installation ends with.
pub proof fn law_only_installation_caches(
    cache: Option<Seq<char>>,
    stage: StageView,
    reply: ReplyView,
)
    ensures
        ({
            let (cached, next) = spec_advance(cache, stage, reply);
            cached != cache ==> {
                &&& stage is Checking || stage is Pruning
                &&& cached matches Some(path) && next == StageView::Finished(
                    Ok(spec_installed(path)),
                )
            }
        }),
{
}

/// A resolution that fails leaves the cached path as it was.
pub proof fn law_failure_keeps_cache(start: Resolution)
    ensures
        start.run().stage matches StageView::Finished(Err(error)) ==> start.run().cache
            == start.cache,
    decreases start.stage.requests_left(),
{
    if start.stage.request() is Some {
        law_failure_keeps_cache(start.step());
    }
}

} // verus!
