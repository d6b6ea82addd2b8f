//! The binary-resolution state machine.
//!
//! A resolution walks four sources in order: the cached path, the configured
//! override, the executable search path, and a managed download of the latest
//! release. Everything that touches the outside world is a [`Query`] handed to the
//! caller, who performs it and hands the outcome back as an [`Answer`]. The
//! decisions between those steps are made here.

use vstd::prelude::*;
use vstd::string::*;
use crate::platform::{
    asset_name, asset_name_spec, binary_path, binary_path_spec, download_kind, download_kind_spec,
    version_dir, version_dir_spec, Architecture, DownloadKind, Os,
};
use crate::release::{
    find_asset, has_no_match, is_first_match, names_of, stale_of, stale_version_dirs, Release,
};

verus! {

/// What a resolution needs to know to install one release.
pub struct InstallPlan {
    /// `rumdl-<version>`, relative to the working directory.
    pub version_dir: String,
    /// The server binary inside `version_dir`.
    pub binary_path: String,
    /// Where the release asset is downloaded from.
    pub download_url: String,
    /// How the asset is unpacked.
    pub kind: DownloadKind,
}

/// Why a resolution failed.
pub enum ResolveError {
    /// Reading the language-server settings failed.
    Configuration(String),
    /// The latest release could not be fetched.
    ReleaseFetch(String),
    /// The release has no asset with this expected file name.
    AssetNotFound(String),
    /// Downloading or unpacking the asset failed.
    Download(String),
    /// Marking the binary executable failed.
    Permission(String),
    /// Listing the working directory for cleanup failed.
    DirectoryList(String),
}

/// Where a resolution stands: which answer it waits for.
pub enum Phase {
    /// Waits to learn whether the cached path is a regular file.
    CheckingCache,
    /// Waits for the configured binary path, if any.
    ReadingOverride,
    /// Waits for the executable search path lookup.
    SearchingPath,
    /// Waits for the latest release and the current platform.
    FetchingRelease,
    /// Waits to learn whether the planned binary is already a regular file.
    CheckingInstall(InstallPlan),
    /// Waits for the download of the asset.
    Downloading(InstallPlan),
    /// Waits for the binary to be marked executable.
    MarkingExecutable(InstallPlan),
    /// Waits for the entries of the working directory.
    ListingWorkingDir(InstallPlan),
    /// Waits for stale install directories to be removed.
    RemovingStale(InstallPlan),
    /// The resolution is over.
    Finished,
}

/// What the caller is asked to do next.
pub enum Query {
    /// Tell whether this path is an existing regular file.
    IsFile(String),
    /// Read the binary path configured for the language server.
    ReadOverride,
    /// Look this executable name up on the search path.
    FindOnPath(String),
    /// Signal "checking for update", then fetch the latest release that has assets
    /// and is no pre-release, together with the current platform.
    FetchLatestRelease,
    /// Signal "downloading", then download and unpack `url` into `dir`.
    Download { url: String, dir: String, kind: DownloadKind },
    /// Mark this file executable.
    MakeExecutable(String),
    /// List the names of the entries of the working directory.
    ListWorkingDir,
    /// Remove each of these directories recursively; failures are ignored.
    RemoveDirs(Vec<String>),
    /// The resolution is over: launch this binary.
    Resolved(String),
    /// The resolution is over and failed.
    Failed(ResolveError),
}

/// The outcome of a [`Query`].
pub enum Answer {
    IsFile(bool),
    Override(Result<Option<String>, String>),
    OnPath(Option<String>),
    Release(Result<Release, String>, Os, Architecture),
    Downloaded(Result<(), String>),
    MadeExecutable(Result<(), String>),
    Listed(Result<Vec<String>, String>),
    /// The directories that could not be removed.
    Removed(Vec<String>),
}

/// The state one extension instance keeps between resolutions.
pub struct RumdlExtension {
    /// The last path that a resolution returned.
    pub cached_binary_path: Option<String>,
    /// Whether that path came from the settings or the search path, in which case
    /// the server runs with the shell environment.
    pub use_system_binary: bool,
}

/// The launch specification of the language server.
pub struct LaunchCommand {
    pub command: String,
    pub args: Vec<String>,
    pub env: Vec<(String, String)>,
}

/// The executable name looked up on the search path.
pub open spec fn server_name_spec() -> Seq<char> {
    "rumdl"@
}

/// `plan` installs `rel` for `os` from the asset at index `i`.
pub open spec fn plan_fits(plan: InstallPlan, rel: Release, os: Os, i: int) -> bool {
    &&& plan.version_dir@ == version_dir_spec(rel.version@)
    &&& plan.binary_path@ == binary_path_spec(rel.version@, os)
    &&& plan.download_url@ == rel.assets@[i].download_url@
    &&& plan.kind == download_kind_spec(os)
}

/// `plan` installs `rel` from the first asset built for `os` and `arch`.
pub open spec fn plan_for(rel: Release, os: Os, arch: Architecture, plan: InstallPlan) -> bool {
    exists|i: int|
        #![trigger is_first_match(rel.assets@, asset_name_spec(os, arch), i)]
        is_first_match(rel.assets@, asset_name_spec(os, arch), i) && plan_fits(plan, rel, os, i)
}

/// Whether `a` answers what `ph` waits for.
pub open spec fn accepts(ph: Phase, a: Answer) -> bool {
    match (ph, a) {
        (Phase::CheckingCache, Answer::IsFile(_)) => true,
        (Phase::ReadingOverride, Answer::Override(_)) => true,
        (Phase::SearchingPath, Answer::OnPath(_)) => true,
        (Phase::FetchingRelease, Answer::Release(_, _, _)) => true,
        (Phase::CheckingInstall(_), Answer::IsFile(_)) => true,
        (Phase::Downloading(_), Answer::Downloaded(_)) => true,
        (Phase::MarkingExecutable(_), Answer::MadeExecutable(_)) => true,
        (Phase::ListingWorkingDir(_), Answer::Listed(_)) => true,
        (Phase::RemovingStale(_), Answer::Removed(_)) => true,
        _ => false,
    }
}

/// The phase and query that a resolution starts with.
pub open spec fn start(s: RumdlExtension, ph: Phase, q: Query) -> bool {
    match s.cached_binary_path {
        Some(p) => ph == Phase::CheckingCache && q == Query::IsFile(p),
        None => ph == Phase::ReadingOverride && q == Query::ReadOverride,
    }
}

/// The state `s1` resolves to `p` from the settings or the search path.
pub open spec fn system_hit(s1: RumdlExtension, ph1: Phase, q: Query, p: String) -> bool {
    &&& s1.cached_binary_path == Some(p)
    &&& s1.use_system_binary
    &&& ph1 == Phase::Finished
    &&& q == Query::Resolved(p)
}

/// The resolution ends with the error `e` and leaves the state as it was.
pub open spec fn fails_with(s0: RumdlExtension, s1: RumdlExtension, ph1: Phase, q: Query, e: ResolveError) -> bool {
    s1 == s0 && ph1 == Phase::Finished && q == Query::Failed(e)
}

/// The managed binary of `plan` is the result, and is cached as no system binary.
pub open spec fn managed_hit(s1: RumdlExtension, ph1: Phase, q: Query, plan: InstallPlan) -> bool {
    &&& s1.cached_binary_path == Some(plan.binary_path)
    &&& !s1.use_system_binary
    &&& ph1 == Phase::Finished
    &&& q == Query::Resolved(plan.binary_path)
}

/// From state `s0` in phase `ph`, the answer `a` leads to state `s1`, phase `ph1`
/// and query `q`.
pub open spec fn step(s0: RumdlExtension, ph: Phase, a: Answer, s1: RumdlExtension, ph1: Phase, q: Query) -> bool {
    match (ph, a) {
        (Phase::CheckingCache, Answer::IsFile(is_file)) => {
            if is_file && s0.cached_binary_path is Some {
                s1 == s0 && ph1 == Phase::Finished
                    && q == Query::Resolved(s0.cached_binary_path->Some_0)
            } else {
                s1 == s0 && ph1 == Phase::ReadingOverride && q == Query::ReadOverride
            }
        },
        (Phase::ReadingOverride, Answer::Override(Err(e))) =>
            fails_with(s0, s1, ph1, q, ResolveError::Configuration(e)),
        (Phase::ReadingOverride, Answer::Override(Ok(configured))) => {
            if configured is Some && configured->Some_0@.len() > 0 {
                system_hit(s1, ph1, q, configured->Some_0)
            } else {
                &&& s1 == s0
                &&& ph1 == Phase::SearchingPath
                &&& q is FindOnPath
                &&& q->FindOnPath_0@ == server_name_spec()
            }
        },
        (Phase::SearchingPath, Answer::OnPath(Some(p))) => system_hit(s1, ph1, q, p),
        (Phase::SearchingPath, Answer::OnPath(None)) => {
            &&& s1.cached_binary_path == s0.cached_binary_path
            &&& !s1.use_system_binary
            &&& ph1 == Phase::FetchingRelease
            &&& q == Query::FetchLatestRelease
        },
        (Phase::FetchingRelease, Answer::Release(Err(e), _, _)) =>
            fails_with(s0, s1, ph1, q, ResolveError::ReleaseFetch(e)),
        (Phase::FetchingRelease, Answer::Release(Ok(rel), os, arch)) => {
            if has_no_match(rel.assets@, asset_name_spec(os, arch)) {
                &&& s1 == s0
                &&& ph1 == Phase::Finished
                &&& q is Failed
                &&& q->Failed_0 is AssetNotFound
                &&& q->Failed_0->AssetNotFound_0@ == asset_name_spec(os, arch)
            } else {
                &&& s1 == s0
                &&& ph1 is CheckingInstall
                &&& plan_for(rel, os, arch, ph1->CheckingInstall_0)
                &&& q == Query::IsFile(ph1->CheckingInstall_0.binary_path)
            }
        },
        (Phase::CheckingInstall(plan), Answer::IsFile(is_file)) => {
            if is_file {
                managed_hit(s1, ph1, q, plan)
            } else {
                &&& s1 == s0
                &&& ph1 == Phase::Downloading(plan)
                &&& q == (Query::Download {
                    url: plan.download_url,
                    dir: plan.version_dir,
                    kind: plan.kind,
                })
            }
        },
        (Phase::Downloading(plan), Answer::Downloaded(Err(e))) =>
            fails_with(s0, s1, ph1, q, ResolveError::Download(e)),
        (Phase::Downloading(plan), Answer::Downloaded(Ok(_))) => {
            s1 == s0 && ph1 == Phase::MarkingExecutable(plan) && q == Query::MakeExecutable(plan.binary_path)
        },
        (Phase::MarkingExecutable(plan), Answer::MadeExecutable(Err(e))) =>
            fails_with(s0, s1, ph1, q, ResolveError::Permission(e)),
        (Phase::MarkingExecutable(plan), Answer::MadeExecutable(Ok(_))) => {
            s1 == s0 && ph1 == Phase::ListingWorkingDir(plan) && q == Query::ListWorkingDir
        },
        (Phase::ListingWorkingDir(plan), Answer::Listed(Err(e))) =>
            fails_with(s0, s1, ph1, q, ResolveError::DirectoryList(e)),
        (Phase::ListingWorkingDir(plan), Answer::Listed(Ok(entries))) => {
            &&& s1 == s0
            &&& ph1 == Phase::RemovingStale(plan)
            &&& q is RemoveDirs
            &&& names_of(q->RemoveDirs_0@) == stale_of(names_of(entries@), plan.version_dir@)
        },
        (Phase::RemovingStale(plan), Answer::Removed(_)) => managed_hit(s1, ph1, q, plan),
        _ => false,
    }
}

/// The launch specification for `binary_path`: one `server` argument, and the shell
/// environment only for a binary from the settings or the search path.
pub open spec fn launch_fits(s: RumdlExtension, binary_path: String, shell_env: Seq<(String, String)>, c: LaunchCommand) -> bool {
    &&& c.command == binary_path
    &&& names_of(c.args@) == seq!["server"@]
    &&& c.env@ == (if s.use_system_binary { shell_env } else { Seq::empty() })
}

/// The install plan for `rel` on `os` and `arch`, or the error naming the missing asset.
pub fn plan_install(rel: &Release, os: Os, arch: Architecture) -> (r: Result<InstallPlan, ResolveError>)
    ensures
        match r {
            Ok(plan) => plan_for(*rel, os, arch, plan),
            Err(e) => has_no_match(rel.assets@, asset_name_spec(os, arch))
                && e is AssetNotFound && e->AssetNotFound_0@ == asset_name_spec(os, arch),
        },
        r is Err <==> has_no_match(rel.assets@, asset_name_spec(os, arch)),
{
    let name = asset_name(os, arch);
    match find_asset(&rel.assets, &name) {
        None => Err(ResolveError::AssetNotFound(name)),
        Some(i) => {
            let plan = InstallPlan {
                version_dir: version_dir(rel.version.as_str()),
                binary_path: binary_path(rel.version.as_str(), os),
                download_url: rel.assets[i].download_url.clone(),
                kind: download_kind(os),
            };
            assert(is_first_match(rel.assets@, asset_name_spec(os, arch), i as int));
            assert(plan_fits(plan, *rel, os, i as int));
            Ok(plan)
        },
    }
}

/// The text shown to the user for a failed resolution.
pub open spec fn message_spec(e: ResolveError) -> Seq<char> {
    match e {
        ResolveError::Configuration(m) => m@,
        ResolveError::ReleaseFetch(m) => m@,
        ResolveError::AssetNotFound(name) => "no asset found matching "@ + name@,
        ResolveError::Download(m) => "failed to download file: "@ + m@,
        ResolveError::Permission(m) => m@,
        ResolveError::DirectoryList(m) => "failed to list working directory "@ + m@,
    }
}

impl ResolveError {
    /// The text shown to the user for this failure.
    pub fn message(&self) -> (r: String)
        ensures
            r@ == message_spec(*self),
    {
        match self {
            ResolveError::Configuration(m) => m.clone(),
            ResolveError::ReleaseFetch(m) => m.clone(),
            ResolveError::AssetNotFound(name) => {
                let mut s = String::from_str("no asset found matching ");
                s.append(name.as_str());
                s
            },
            ResolveError::Download(m) => {
                let mut s = String::from_str("failed to download file: ");
                s.append(m.as_str());
                s
            },
            ResolveError::Permission(m) => m.clone(),
            ResolveError::DirectoryList(m) => {
                let mut s = String::from_str("failed to list working directory ");
                s.append(m.as_str());
                s
            },
        }
    }
}

impl Phase {
    /// Whether `a` answers what this phase waits for.
    pub fn accepts(&self, a: &Answer) -> (r: bool)
        ensures
            r == accepts(*self, *a),
    {
        match (self, a) {
            (Phase::CheckingCache, Answer::IsFile(_)) => true,
            (Phase::ReadingOverride, Answer::Override(_)) => true,
            (Phase::SearchingPath, Answer::OnPath(_)) => true,
            (Phase::FetchingRelease, Answer::Release(_, _, _)) => true,
            (Phase::CheckingInstall(_), Answer::IsFile(_)) => true,
            (Phase::Downloading(_), Answer::Downloaded(_)) => true,
            (Phase::MarkingExecutable(_), Answer::MadeExecutable(_)) => true,
            (Phase::ListingWorkingDir(_), Answer::Listed(_)) => true,
            (Phase::RemovingStale(_), Answer::Removed(_)) => true,
            _ => false,
        }
    }
}

impl RumdlExtension {
    /// A fresh instance: nothing cached, no system binary.
    pub fn new() -> (r: Self)
        ensures
            r.cached_binary_path is None,
            !r.use_system_binary,
    {
        RumdlExtension { cached_binary_path: None, use_system_binary: false }
    }

    /// Starts a resolution: check the cached path if there is one, else read the settings.
    pub fn begin(&self) -> (r: (Phase, Query))
        ensures
            start(*self, r.0, r.1),
    {
        match &self.cached_binary_path {
            Some(p) => (Phase::CheckingCache, Query::IsFile(p.clone())),
            None => (Phase::ReadingOverride, Query::ReadOverride),
        }
    }

    /// Takes the answer to the last query and decides the next one.
    pub fn advance(&mut self, phase: Phase, answer: Answer) -> (r: (Phase, Query))
        requires
            accepts(phase, answer),
        ensures
            step(*old(self), phase, answer, *final(self), r.0, r.1),
    {
        match (phase, answer) {
            (Phase::CheckingCache, Answer::IsFile(is_file)) => {
                if is_file {
                    if let Some(p) = &self.cached_binary_path {
                        return (Phase::Finished, Query::Resolved(p.clone()));
                    }
                }
                (Phase::ReadingOverride, Query::ReadOverride)
            },
            (Phase::ReadingOverride, Answer::Override(Err(e))) => {
                (Phase::Finished, Query::Failed(ResolveError::Configuration(e)))
            },
            (Phase::ReadingOverride, Answer::Override(Ok(configured))) => {
                if let Some(p) = configured {
                    if p.unicode_len() > 0 {
                        self.cached_binary_path = Some(p.clone());
                        self.use_system_binary = true;
                        return (Phase::Finished, Query::Resolved(p));
                    }
                }
                (Phase::SearchingPath, Query::FindOnPath(String::from_str("rumdl")))
            },
            (Phase::SearchingPath, Answer::OnPath(Some(p))) => {
                self.cached_binary_path = Some(p.clone());
                self.use_system_binary = true;
                (Phase::Finished, Query::Resolved(p))
            },
            (Phase::SearchingPath, Answer::OnPath(None)) => {
                self.use_system_binary = false;
                (Phase::FetchingRelease, Query::FetchLatestRelease)
            },
            (Phase::FetchingRelease, Answer::Release(Err(e), _, _)) => {
                (Phase::Finished, Query::Failed(ResolveError::ReleaseFetch(e)))
            },
            (Phase::FetchingRelease, Answer::Release(Ok(rel), os, arch)) => {
                match plan_install(&rel, os, arch) {
                    Err(e) => (Phase::Finished, Query::Failed(e)),
                    Ok(plan) => {
                        let check = plan.binary_path.clone();
                        (Phase::CheckingInstall(plan), Query::IsFile(check))
                    },
                }
            },
            (Phase::CheckingInstall(plan), Answer::IsFile(is_file)) => {
                if is_file {
                    self.cached_binary_path = Some(plan.binary_path.clone());
                    self.use_system_binary = false;
                    (Phase::Finished, Query::Resolved(plan.binary_path))
                } else {
                    let q = Query::Download {
                        url: plan.download_url.clone(),
                        dir: plan.version_dir.clone(),
                        kind: plan.kind,
                    };
                    (Phase::Downloading(plan), q)
                }
            },
            (Phase::Downloading(_), Answer::Downloaded(Err(e))) => {
                (Phase::Finished, Query::Failed(ResolveError::Download(e)))
            },
            (Phase::Downloading(plan), Answer::Downloaded(Ok(_))) => {
                let q = Query::MakeExecutable(plan.binary_path.clone());
                (Phase::MarkingExecutable(plan), q)
            },
            (Phase::MarkingExecutable(_), Answer::MadeExecutable(Err(e))) => {
                (Phase::Finished, Query::Failed(ResolveError::Permission(e)))
            },
            (Phase::MarkingExecutable(plan), Answer::MadeExecutable(Ok(_))) => {
                (Phase::ListingWorkingDir(plan), Query::ListWorkingDir)
            },
            (Phase::ListingWorkingDir(_), Answer::Listed(Err(e))) => {
                (Phase::Finished, Query::Failed(ResolveError::DirectoryList(e)))
            },
            (Phase::ListingWorkingDir(plan), Answer::Listed(Ok(entries))) => {
                let stale = stale_version_dirs(&entries, &plan.version_dir);
                (Phase::RemovingStale(plan), Query::RemoveDirs(stale))
            },
            (Phase::RemovingStale(plan), Answer::Removed(_)) => {
                self.cached_binary_path = Some(plan.binary_path.clone());
                self.use_system_binary = false;
                (Phase::Finished, Query::Resolved(plan.binary_path))
            },
            // not reached: `accepts` rules every other pair out
            (phase, _) => (phase, Query::ReadOverride),
        }
    }

    /// The launch specification for a resolved binary. `shell_env` is the shell
    /// environment of the worktree; it is passed on only for a system binary.
    pub fn launch_command(&self, binary_path: String, shell_env: Vec<(String, String)>) -> (r: LaunchCommand)
        ensures
            launch_fits(*self, binary_path, shell_env@, r),
    {
        let mut args: Vec<String> = Vec::new();
        args.push(String::from_str("server"));
        let env = if self.use_system_binary {
            shell_env
        } else {
            Vec::new()
        };
        assert(names_of(args@) =~= seq!["server"@]);
        LaunchCommand { command: binary_path, args, env }
    }
}

} // verus!
