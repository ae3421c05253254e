//! The server installer: lists game versions, answers loader compatibility
//! questions and decides how a requested server is installed.
//!
//! Catalogs are fetched by the caller: an operation that needs one that is
//! not cached answers `Lookup::Fetch`, and the caller hands the fetched
//! catalog to `store_manifest` or `store_fabric_catalogs` and asks again.
use vstd::prelude::*;
use crate::cache::{access_step, complete_step, Access, CacheState, Lookup, OnceCache};
use crate::errors::InstallerError;
use crate::fabric::{contains_str, fabric_compat, opt_seq, FabricCache, FabricLoader};
use crate::models::{ids_of, lemma_url_for_found, url_for, Manifest, VersionManifest};

verus! {

/// The mod-loader backends. Only Fabric has a backend; Forge is named but
/// has none.
#[derive(PartialEq, Eq, Structural, Hash, Debug, Clone, Copy)]
pub enum LoaderType {
    Fabric,
    Forge,
}

/// The server to install.
pub enum ServerKind {
    Vanilla { mc: String },
    Modded { mc: String, loadertype: LoaderType, version: String },
}

/// How a requested server is installed, once the request has been checked.
#[derive(Debug, PartialEq, Eq)]
pub enum InstallPlan {
    /// Fetch the version detail at `detail_url`; its server artifact becomes
    /// `server.jar` in the target directory.
    Vanilla { mc: String, detail_url: String },
    /// Run Fabric's installer for game version `mc` and loader version `loader`.
    Fabric { mc: String, loader: String },
}

/// The plan for a vanilla server of version `mc`, given the manifest.
pub open spec fn vanilla_plan(m: Manifest, mc: String) -> Result<InstallPlan, InstallerError> {
    match url_for(m.versions@, mc@) {
        Some(u) => Ok(InstallPlan::Vanilla { mc, detail_url: u }),
        None => Err(InstallerError::InvalidVersion),
    }
}

/// The plan for loader version `lv` on game version `mc`, given the loader
/// versions that run on `mc` (`None` when the loader does not support it).
pub open spec fn modded_plan(compat: Option<Seq<String>>, mc: String, lv: String) -> Result<
    InstallPlan,
    InstallerError,
> {
    match compat {
        Some(l) => if contains_str(l, lv@) {
            Ok(InstallPlan::Fabric { mc, loader: lv })
        } else {
            Err(InstallerError::NotCompatible(lv, mc))
        },
        None => Err(InstallerError::NotCompatible(lv, mc)),
    }
}

/// The answer for a request that needs the value of cache `s`, computed by
/// `f` once the value is there.
pub open spec fn with_cached<T, U>(
    s: CacheState<T>,
    f: spec_fn(T) -> Result<U, InstallerError>,
) -> Result<Lookup<U>, InstallerError> {
    match s {
        CacheState::Ready(v) => match f(v) {
            Ok(u) => Ok(Lookup::Ready(u)),
            Err(e) => Err(e),
        },
        CacheState::Empty => Ok(Lookup::Fetch),
        CacheState::Fetching => Ok(Lookup::Wait),
    }
}

/// What `install_server` answers for `kind`, given the version manifest
/// cache `catalog` and the Fabric catalog cache `fabric`.
pub open spec fn install_outcome(
    catalog: CacheState<Manifest>,
    fabric: CacheState<FabricCache>,
    kind: ServerKind,
) -> Result<Lookup<InstallPlan>, InstallerError> {
    match kind {
        ServerKind::Vanilla { mc } => with_cached(catalog, |m: Manifest| vanilla_plan(m, mc)),
        ServerKind::Modded { mc, loadertype, version } => match loadertype {
            LoaderType::Fabric => with_cached(
                fabric,
                |c: FabricCache| modded_plan(fabric_compat(c.supported(), c.loaders(), mc@), mc, version),
            ),
            LoaderType::Forge => Err(InstallerError::InvalidLoader(LoaderType::Forge)),
        },
    }
}

/// The url of the server artifact of version `mc`, given its detail.
pub open spec fn jar_outcome(detail: VersionManifest, mc: String) -> Result<String, InstallerError> {
    match detail.downloads.server {
        Some(d) => Ok(d.url),
        None => Err(InstallerError::NoJarFile(mc)),
    }
}

/// A vanilla request fails with `InvalidVersion` exactly when its version is
/// not in the manifest; a version that is there but whose detail has no
/// server artifact fails with `NoJarFile` once its detail is read.
pub proof fn lemma_vanilla_failures(
    m: Manifest,
    fabric: CacheState<FabricCache>,
    mc: String,
    detail: VersionManifest,
)
    ensures
        install_outcome(CacheState::Ready(m), fabric, ServerKind::Vanilla { mc })
            == Err::<Lookup<InstallPlan>, InstallerError>(InstallerError::InvalidVersion) <==> !(
        exists|i: int| 0 <= i < m.versions@.len() && #[trigger] m.versions@[i].id@ == mc@),
        detail.downloads.server is None ==> jar_outcome(detail, mc) == Err::<String, InstallerError>(
            InstallerError::NoJarFile(mc),
        ),
{
    lemma_url_for_found(m.versions@, mc@);
}

/// A Fabric request fails with `NotCompatible` exactly when its loader
/// version is not among those that `get_loader_compat` answers for its game
/// version.
pub proof fn lemma_incompatible_loader(
    catalog: CacheState<Manifest>,
    c: FabricCache,
    mc: String,
    lv: String,
)
    ensures
        install_outcome(
            catalog,
            CacheState::Ready(c),
            ServerKind::Modded { mc, loadertype: LoaderType::Fabric, version: lv },
        ) == Err::<Lookup<InstallPlan>, InstallerError>(InstallerError::NotCompatible(lv, mc)) <==> !(
        fabric_compat(c.supported(), c.loaders(), mc@) is Some && contains_str(
            fabric_compat(c.supported(), c.loaders(), mc@)->0,
            lv@,
        )),
{
}

/// The installer: the version manifest, fetched once, and the loader
/// backends.
pub struct ServerInstaller {
    manifest: OnceCache<Manifest>,
    fabric: FabricLoader,
}

impl ServerInstaller {
    /// The version manifest cache.
    pub closed spec fn catalog(&self) -> CacheState<Manifest> {
        self.manifest@
    }

    /// The Fabric backend's catalog cache.
    pub closed spec fn fabric(&self) -> CacheState<FabricCache> {
        self.fabric.catalogs()
    }

    pub fn new() -> (r: Self)
        ensures
            r.catalog() == CacheState::<Manifest>::Empty,
            r.fabric() == CacheState::<FabricCache>::Empty,
    {
        ServerInstaller { manifest: OnceCache::new(), fabric: FabricLoader::new() }
    }

    /// Every known game version id, newest first, once the manifest is cached.
    pub fn get_versions(&mut self) -> (r: Lookup<Vec<String>>)
        ensures
            final(self).catalog() == access_step(old(self).catalog()).0,
            final(self).fabric() == old(self).fabric(),
            match old(self).catalog() {
                CacheState::Ready(m) => r is Ready && r->Ready_0@ == ids_of(m.versions@),
                CacheState::Empty => r is Fetch,
                CacheState::Fetching => r is Wait,
            },
    {
        match self.manifest.access() {
            Access::Fetch => Lookup::Fetch,
            Access::Wait => Lookup::Wait,
            Access::Hit => match self.manifest.get() {
                Some(m) => Lookup::Ready(m.ids()),
                None => Lookup::Wait,
            },
        }
    }

    /// Reports the manifest fetch that was asked for: `None` when it failed.
    pub fn store_manifest(&mut self, fetched: Option<Manifest>)
        ensures
            final(self).catalog() == complete_step(old(self).catalog(), fetched),
            final(self).fabric() == old(self).fabric(),
    {
        self.manifest.complete(fetched);
    }

    /// Reports the Fabric catalog fetch that was asked for: `None` when it
    /// failed.
    pub fn store_fabric_catalogs(&mut self, fetched: Option<FabricCache>)
        ensures
            final(self).fabric() == complete_step(old(self).fabric(), fetched),
            final(self).catalog() == old(self).catalog(),
    {
        self.fabric.store_catalogs(fetched);
    }

    /// The loader versions of `loadertype` that run on `mc_version` (`None`
    /// when the loader does not support it). Fails with `InvalidLoader` for a
    /// loader without a backend.
    pub fn get_loader_compat(&mut self, mc_version: &str, loadertype: LoaderType) -> (r: Result<
        Lookup<Option<Vec<String>>>,
        InstallerError,
    >)
        ensures
            final(self).catalog() == old(self).catalog(),
            loadertype == LoaderType::Forge ==> r == Err::<Lookup<Option<Vec<String>>>, InstallerError>(
                InstallerError::InvalidLoader(LoaderType::Forge),
            ) && final(self).fabric() == old(self).fabric(),
            loadertype == LoaderType::Fabric ==> {
                &&& final(self).fabric() == access_step(old(self).fabric()).0
                &&& r is Ok
                &&& match old(self).fabric() {
                    CacheState::Ready(c) => r->Ok_0 is Ready && opt_seq(r->Ok_0->Ready_0)
                        == fabric_compat(c.supported(), c.loaders(), mc_version@),
                    CacheState::Empty => r->Ok_0 is Fetch,
                    CacheState::Fetching => r->Ok_0 is Wait,
                }
            },
    {
        match loadertype {
            LoaderType::Fabric => Ok(self.fabric.get_compatible_versions(mc_version)),
            LoaderType::Forge => Err(InstallerError::InvalidLoader(loadertype)),
        }
    }

    /// Checks a request to install a server and says how to install it:
    /// for a vanilla server, where its version's detail is; for a modded one,
    /// which loader installer to run. The version must be in the manifest,
    /// the loader must have a backend, and the loader version must run on the
    /// game version.
    pub fn install_server(&mut self, server_info: &ServerKind) -> (r: Result<
        Lookup<InstallPlan>,
        InstallerError,
    >)
        ensures
            r == install_outcome(old(self).catalog(), old(self).fabric(), *server_info),
            match *server_info {
                ServerKind::Vanilla { .. } => final(self).catalog() == access_step(
                    old(self).catalog(),
                ).0 && final(self).fabric() == old(self).fabric(),
                ServerKind::Modded { loadertype: LoaderType::Fabric, .. } => final(self).fabric()
                    == access_step(old(self).fabric()).0 && final(self).catalog() == old(
                    self,
                ).catalog(),
                ServerKind::Modded { loadertype: LoaderType::Forge, .. } => final(self).fabric()
                    == old(self).fabric() && final(self).catalog() == old(self).catalog(),
            },
    {
        match server_info {
            ServerKind::Vanilla { mc } => match self.manifest.access() {
                Access::Fetch => Ok(Lookup::Fetch),
                Access::Wait => Ok(Lookup::Wait),
                Access::Hit => match self.manifest.get() {
                    Some(m) => match m.find_url(mc.as_str()) {
                        Some(url) => Ok(
                            Lookup::Ready(InstallPlan::Vanilla { mc: mc.clone(), detail_url: url }),
                        ),
                        None => Err(InstallerError::InvalidVersion),
                    },
                    None => Ok(Lookup::Wait),
                },
            },
            ServerKind::Modded { mc, loadertype, version } => match loadertype {
                LoaderType::Forge => Err(InstallerError::InvalidLoader(*loadertype)),
                LoaderType::Fabric => match self.fabric.get_compatible_versions(mc.as_str()) {
                    Lookup::Fetch => Ok(Lookup::Fetch),
                    Lookup::Wait => Ok(Lookup::Wait),
                    Lookup::Ready(compat) => {
                        let fits = match &compat {
                            Some(l) => contains(l, version),
                            None => false,
                        };
                        if fits {
                            Ok(
                                Lookup::Ready(
                                    InstallPlan::Fabric { mc: mc.clone(), loader: version.clone() },
                                ),
                            )
                        } else {
                            Err(InstallerError::NotCompatible(version.clone(), mc.clone()))
                        }
                    },
                },
            },
        }
    }

    /// The url of the server artifact of version `mc`, given its detail.
    /// Fails with `NoJarFile` when the version has none.
    pub fn jar_url(detail: &VersionManifest, mc: &String) -> (r: Result<String, InstallerError>)
        ensures
            r == jar_outcome(*detail, *mc),
    {
        match &detail.downloads.server {
            Some(d) => Ok(d.url.clone()),
            None => Err(InstallerError::NoJarFile(mc.clone())),
        }
    }
}

impl Default for ServerInstaller {
    fn default() -> (r: Self)
        ensures
            r.catalog() == CacheState::<Manifest>::Empty,
            r.fabric() == CacheState::<FabricCache>::Empty,
    {
        ServerInstaller::new()
    }
}

/// Whether `s` is one of `l`, by characters.
fn contains(l: &Vec<String>, s: &String) -> (r: bool)
    ensures
        r == contains_str(l@, s@),
{
    let mut i: usize = 0;
    while i < l.len()
        invariant
            i <= l@.len(),
            forall|j: int| 0 <= j < i ==> l@[j]@ != s@,
        decreases l@.len() - i,
    {
        if l[i] == *s {
            return true;
        }
        i = i + 1;
    }
    false
}

} // verus!
