//! The Fabric loader backend. Every Fabric loader version runs on every game
//! version that Fabric supports, so its catalog is two flat lists rather than
//! a map from game version to loader versions.
use vstd::prelude::*;
use crate::cache::{access_step, complete_step, Access, CacheState, Lookup, OnceCache};
use crate::errors::LoaderError;

verus! {

/// An entry of Fabric's loader-version and game-version catalogs.
pub struct Versions {
    pub version: String,
}

/// An entry of Fabric's installer catalog.
pub struct InstallrVersions {
    pub url: String,
}

/// The `version` of each entry, in order.
pub open spec fn versions_of(vs: Seq<Versions>) -> Seq<String> {
    vs.map_values(|v: Versions| v.version)
}

/// Whether `mc` is one of `vs`.
pub open spec fn contains_str(vs: Seq<String>, mc: Seq<char>) -> bool {
    exists|i: int| 0 <= i < vs.len() && #[trigger] vs[i]@ == mc
}

/// The loader versions that run on game version `mc`: all of them when Fabric
/// supports `mc`, none otherwise.
pub open spec fn fabric_compat(supported: Seq<String>, loaders: Seq<String>, mc: Seq<char>) -> Option<
    Seq<String>,
> {
    if contains_str(supported, mc) {
        Some(loaders)
    } else {
        None
    }
}

/// The view of an optional list.
pub open spec fn opt_seq(o: Option<Vec<String>>) -> Option<Seq<String>> {
    match o {
        Some(v) => Some(v@),
        None => None,
    }
}

/// Whether `s` is `t`, by characters.
fn str_eq(s: &String, t: &str) -> (r: bool)
    ensures
        r == (s@ == t@),
{
    let owned = t.to_owned();
    *s == owned
}

/// A copy of `v`.
fn copy_strings(v: &Vec<String>) -> (r: Vec<String>)
    ensures
        r@ == v@,
{
    let mut r: Vec<String> = Vec::new();
    let mut i: usize = 0;
    while i < v.len()
        invariant
            i <= v@.len(),
            r@ == v@.subrange(0, i as int),
        decreases v@.len() - i,
    {
        r.push(v[i].clone());
        i = i + 1;
        assert(r@ =~= v@.subrange(0, i as int));
    }
    assert(v@.subrange(0, i as int) =~= v@);
    r
}

/// Fabric's catalog: the game versions it supports and its loader versions,
/// newest first.
pub struct FabricCache {
    supported: Vec<String>,
    loaders: Vec<String>,
}

impl FabricCache {
    pub closed spec fn supported(&self) -> Seq<String> {
        self.supported@
    }

    pub closed spec fn loaders(&self) -> Seq<String> {
        self.loaders@
    }

    pub fn new(supported: Vec<String>, loaders: Vec<String>) -> (r: Self)
        ensures
            r.supported() == supported@,
            r.loaders() == loaders@,
    {
        FabricCache { supported, loaders }
    }

    /// The catalog built from the loader-version and game-version catalogs.
    pub fn from_catalogs(loaders: &Vec<Versions>, games: &Vec<Versions>) -> (r: Self)
        ensures
            r.supported() == versions_of(games@),
            r.loaders() == versions_of(loaders@),
    {
        FabricCache { supported: version_strings(games), loaders: version_strings(loaders) }
    }

    /// The loader versions that run on `mc`, or `None` when Fabric does not
    /// support `mc`.
    pub fn compatible_versions(&self, mc: &str) -> (r: Option<Vec<String>>)
        ensures
            opt_seq(r) == fabric_compat(self.supported(), self.loaders(), mc@),
    {
        let mut i: usize = 0;
        while i < self.supported.len()
            invariant
                i <= self.supported@.len(),
                forall|j: int| 0 <= j < i ==> self.supported@[j]@ != mc@,
            decreases self.supported@.len() - i,
        {
            if str_eq(&self.supported[i], mc) {
                return Some(copy_strings(&self.loaders));
            }
            i = i + 1;
        }
        None
    }
}

/// The `version` of each entry.
fn version_strings(vs: &Vec<Versions>) -> (r: Vec<String>)
    ensures
        r@ == versions_of(vs@),
{
    let mut r: Vec<String> = Vec::new();
    let mut i: usize = 0;
    while i < vs.len()
        invariant
            i <= vs@.len(),
            r@ == versions_of(vs@.subrange(0, i as int)),
        decreases vs@.len() - i,
    {
        r.push(vs[i].version.clone());
        i = i + 1;
        assert(versions_of(vs@.subrange(0, i as int)) =~= versions_of(vs@.subrange(0, i - 1)).push(
            vs@[i - 1].version,
        ));
    }
    assert(vs@.subrange(0, i as int) =~= vs@);
    r
}

/// The arguments that run Fabric's installer at `installer` in server mode
/// for game version `mc` and loader version `loader`, into directory `dir`.
pub open spec fn installer_args_spec(
    installer: Seq<char>,
    mc: Seq<char>,
    loader: Seq<char>,
    dir: Seq<char>,
) -> Seq<Seq<char>> {
    seq![
        "-jar"@,
        installer,
        "server"@,
        "-mcversion"@,
        mc,
        "-loader"@,
        loader,
        "-downloadMinecraft"@,
        "-dir"@,
        dir,
    ]
}

/// The message of the error for an installer catalog without entries.
pub const EMPTY_CATALOG: &'static str = "Response was empty";

/// The arguments that run Fabric's installer at `installer` in server mode
/// for game version `mc` and loader version `loader`, into directory `dir`.
pub fn installer_args(installer: &str, mc: &str, loader: &str, dir: &str) -> (r: Vec<String>)
    ensures
        r@.map_values(|a: String| a@) == installer_args_spec(installer@, mc@, loader@, dir@),
{
    let r: Vec<String> = vec![
        "-jar".to_owned(),
        installer.to_owned(),
        "server".to_owned(),
        "-mcversion".to_owned(),
        mc.to_owned(),
        "-loader".to_owned(),
        loader.to_owned(),
        "-downloadMinecraft".to_owned(),
        "-dir".to_owned(),
        dir.to_owned(),
    ];
    assert(r@.map_values(|a: String| a@) =~= installer_args_spec(installer@, mc@, loader@, dir@));
    r
}

/// The outcome of an installer run that exited with `success` and, if it had
/// one, exit code `code`.
pub fn install_result(success: bool, code: Option<i32>) -> (r: Result<(), LoaderError>)
    ensures
        success ==> r is Ok,
        !success ==> r == Err::<(), LoaderError>(LoaderError::Install(code)),
{
    if success {
        Ok(())
    } else {
        Err(LoaderError::Install(code))
    }
}

/// Where a Fabric install stands: what it waits for.
#[derive(Debug, PartialEq, Eq)]
pub enum FabricPhase {
    /// The installer catalog.
    FetchingCatalog,
    /// Whether the target is an existing directory; `url` is the newest
    /// installer's.
    CheckingDirectory { url: String },
    /// The download of the installer at `url` into the target directory.
    Downloading { url: String },
    /// The installer's exit.
    Running,
    /// The removal of the downloaded installer.
    Cleaning,
    /// Nothing: the install finished with this outcome.
    Done(Result<(), LoaderError>),
}

/// What the caller must do next for a Fabric install.
#[derive(Debug, PartialEq, Eq)]
pub enum FabricAction {
    /// Fetch the installer catalog and report `InstallerCatalog`.
    FetchInstallerCatalog,
    /// Report with `IsDirectory` whether the target is an existing directory.
    CheckDirectory,
    /// Download `url` to `installer.jar` in the target directory and report
    /// `Downloaded`.
    DownloadInstaller { url: String },
    /// Run the installer with `installer_args` for `mc` and `loader` and
    /// report `InstallerExited`.
    RunInstaller { mc: String, loader: String },
    /// Delete the downloaded installer and report `Removed`.
    RemoveInstaller,
    /// The install is over.
    Finish(Result<(), LoaderError>),
}

/// What the caller reports after carrying out a `FabricAction`.
pub enum FabricEvent {
    InstallerCatalog(Vec<InstallrVersions>),
    IsDirectory(bool),
    Downloaded,
    InstallerExited { success: bool, code: Option<i32> },
    Removed,
    /// The action failed with this error.
    Failed(LoaderError),
}

/// The error for an installer catalog without entries.
pub open spec fn is_empty_catalog_error(e: LoaderError) -> bool {
    e is Status && e->Status_0@ == EMPTY_CATALOG@
}

/// Whether `next` is the phase that follows `p` on event `ev`. A failure
/// ends the install; an event that does not answer the pending action
/// changes nothing; a finished install stays finished.
pub open spec fn fabric_next(p: FabricPhase, ev: FabricEvent, next: FabricPhase) -> bool {
    match p {
        FabricPhase::Done(_) => next == p,
        _ => match ev {
            FabricEvent::Failed(e) => next == FabricPhase::Done(Err(e)),
            _ => match p {
                FabricPhase::FetchingCatalog => match ev {
                    FabricEvent::InstallerCatalog(c) => if c@.len() == 0 {
                        next is Done && next->Done_0 is Err && is_empty_catalog_error(
                            next->Done_0->Err_0,
                        )
                    } else {
                        next == FabricPhase::CheckingDirectory { url: c@[0].url }
                    },
                    _ => next == p,
                },
                FabricPhase::CheckingDirectory { url } => match ev {
                    FabricEvent::IsDirectory(is_dir) => if is_dir {
                        next == FabricPhase::Downloading { url }
                    } else {
                        next == FabricPhase::Done(Err(LoaderError::NotDirectory))
                    },
                    _ => next == p,
                },
                FabricPhase::Downloading { .. } => match ev {
                    FabricEvent::Downloaded => next == FabricPhase::Running,
                    _ => next == p,
                },
                FabricPhase::Running => match ev {
                    FabricEvent::InstallerExited { success, code } => if success {
                        next == FabricPhase::Cleaning
                    } else {
                        next == FabricPhase::Done(Err(LoaderError::Install(code)))
                    },
                    _ => next == p,
                },
                FabricPhase::Cleaning => match ev {
                    FabricEvent::Removed => next == FabricPhase::Done(Ok(())),
                    _ => next == p,
                },
                FabricPhase::Done(_) => next == p,
            },
        },
    }
}

/// The action that phase `p` waits on, for game version `mc` and loader
/// version `loader`.
pub open spec fn fabric_action(p: FabricPhase, mc: String, loader: String) -> FabricAction {
    match p {
        FabricPhase::FetchingCatalog => FabricAction::FetchInstallerCatalog,
        FabricPhase::CheckingDirectory { .. } => FabricAction::CheckDirectory,
        FabricPhase::Downloading { url } => FabricAction::DownloadInstaller { url },
        FabricPhase::Running => FabricAction::RunInstaller { mc, loader },
        FabricPhase::Cleaning => FabricAction::RemoveInstaller,
        FabricPhase::Done(r) => FabricAction::Finish(r),
    }
}

/// A Fabric server install of loader version `loader` for game version `mc`:
/// fetch the installer catalog, check the target directory, download the
/// newest installer into it, run it, and remove it again.
pub struct FabricInstall {
    pub mc: String,
    pub loader: String,
    pub phase: FabricPhase,
}

impl FabricInstall {
    pub fn new(mc: &str, loader: &str) -> (r: Self)
        ensures
            r.mc@ == mc@,
            r.loader@ == loader@,
            r.phase == FabricPhase::FetchingCatalog,
    {
        FabricInstall { mc: mc.to_owned(), loader: loader.to_owned(), phase: FabricPhase::FetchingCatalog }
    }

    /// The action the install waits on.
    pub fn action(&self) -> (r: FabricAction)
        ensures
            r == fabric_action(self.phase, self.mc, self.loader),
    {
        match &self.phase {
            FabricPhase::FetchingCatalog => FabricAction::FetchInstallerCatalog,
            FabricPhase::CheckingDirectory { .. } => FabricAction::CheckDirectory,
            FabricPhase::Downloading { url } => FabricAction::DownloadInstaller { url: url.clone() },
            FabricPhase::Running => FabricAction::RunInstaller {
                mc: self.mc.clone(),
                loader: self.loader.clone(),
            },
            FabricPhase::Cleaning => FabricAction::RemoveInstaller,
            FabricPhase::Done(Ok(done)) => FabricAction::Finish(Ok(*done)),
            FabricPhase::Done(Err(e)) => FabricAction::Finish(Err(e.copy())),
        }
    }

    /// Takes the outcome of the pending action and returns the next action.
    pub fn step(&mut self, ev: FabricEvent) -> (r: FabricAction)
        ensures
            final(self).mc == old(self).mc,
            final(self).loader == old(self).loader,
            fabric_next(old(self).phase, ev, final(self).phase),
            r == fabric_action(final(self).phase, final(self).mc, final(self).loader),
    {
        let next = match (&self.phase, ev) {
            (FabricPhase::Done(_), _) => None,
            (_, FabricEvent::Failed(e)) => Some(FabricPhase::Done(Err(e))),
            (FabricPhase::FetchingCatalog, FabricEvent::InstallerCatalog(c)) => {
                match FabricLoader::latest_installer(&c) {
                    Ok(url) => Some(FabricPhase::CheckingDirectory { url }),
                    Err(e) => Some(FabricPhase::Done(Err(e))),
                }
            },
            (FabricPhase::CheckingDirectory { url }, FabricEvent::IsDirectory(is_dir)) => {
                if is_dir {
                    Some(FabricPhase::Downloading { url: url.clone() })
                } else {
                    Some(FabricPhase::Done(Err(LoaderError::NotDirectory)))
                }
            },
            (FabricPhase::Downloading { .. }, FabricEvent::Downloaded) => Some(FabricPhase::Running),
            (FabricPhase::Running, FabricEvent::InstallerExited { success, code }) => {
                match install_result(success, code) {
                    Ok(()) => Some(FabricPhase::Cleaning),
                    Err(e) => Some(FabricPhase::Done(Err(e))),
                }
            },
            (FabricPhase::Cleaning, FabricEvent::Removed) => Some(FabricPhase::Done(Ok(()))),
            _ => None,
        };
        if let Some(p) = next {
            self.phase = p;
        }
        self.action()
    }
}

/// The Fabric backend: its catalog, fetched once.
pub struct FabricLoader {
    cache: OnceCache<FabricCache>,
}

impl FabricLoader {
    pub closed spec fn catalogs(&self) -> CacheState<FabricCache> {
        self.cache@
    }

    pub fn new() -> (r: Self)
        ensures
            r.catalogs() == CacheState::<FabricCache>::Empty,
    {
        FabricLoader { cache: OnceCache::new() }
    }

    /// The loader versions that run on `mc` (`None` when Fabric does not
    /// support it), once the catalog is cached. `Fetch` asks the caller to
    /// fetch the catalog and hand it to `store_catalogs`.
    pub fn get_compatible_versions(&mut self, mc: &str) -> (r: Lookup<Option<Vec<String>>>)
        ensures
            final(self).catalogs() == access_step(old(self).catalogs()).0,
            match old(self).catalogs() {
                CacheState::Ready(c) => r is Ready && opt_seq(r->Ready_0) == fabric_compat(
                    c.supported(),
                    c.loaders(),
                    mc@,
                ),
                CacheState::Empty => r is Fetch,
                CacheState::Fetching => r is Wait,
            },
    {
        match self.cache.access() {
            Access::Fetch => Lookup::Fetch,
            Access::Wait => Lookup::Wait,
            Access::Hit => match self.cache.get() {
                Some(c) => Lookup::Ready(c.compatible_versions(mc)),
                None => Lookup::Wait,
            },
        }
    }

    /// Reports the catalog fetch that `get_compatible_versions` asked for:
    /// `None` when it failed.
    pub fn store_catalogs(&mut self, fetched: Option<FabricCache>)
        ensures
            final(self).catalogs() == complete_step(old(self).catalogs(), fetched),
    {
        self.cache.complete(fetched);
    }

    /// The url of the newest installer: the first entry of the installer
    /// catalog.
    pub fn latest_installer(catalog: &Vec<InstallrVersions>) -> (r: Result<String, LoaderError>)
        ensures
            catalog@.len() == 0 <==> r is Err,
            catalog@.len() == 0 ==> r->Err_0 is Status && r->Err_0->Status_0@ == EMPTY_CATALOG@,
            catalog@.len() > 0 ==> r == Ok::<String, LoaderError>(catalog@[0].url),
    {
        if catalog.len() == 0 {
            Err(LoaderError::Status(EMPTY_CATALOG.to_owned()))
        } else {
            Ok(catalog[0].url.clone())
        }
    }
}

} // verus!
