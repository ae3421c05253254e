//! A plain client of the version manifest: caches the manifest and lists the
//! versions of one release channel.
use vstd::prelude::*;
use crate::models::{ids_of_type, url_for, Manifest};

verus! {

pub struct ApiHandler {
    cached_manifest: Option<Manifest>,
}

impl ApiHandler {
    /// The cached manifest, if any.
    pub closed spec fn cached(&self) -> Option<Manifest> {
        self.cached_manifest
    }

    /// A handler with nothing cached.
    pub fn new() -> (r: Self)
        ensures
            r.cached() is None,
    {
        ApiHandler { cached_manifest: None }
    }

    /// Caches a freshly fetched manifest in place of the one cached before.
    pub fn cache_manifest(&mut self, manifest: Manifest)
        ensures
            final(self).cached() == Some(manifest),
    {
        self.cached_manifest = Some(manifest);
    }

    /// Whether a manifest is cached.
    pub fn is_cached(&self) -> (r: bool)
        ensures
            r == self.cached() is Some,
    {
        self.cached_manifest.is_some()
    }

    /// The ids of the cached manifest's versions of channel `version_type`,
    /// in manifest order; `None` when no manifest is cached yet.
    pub fn get_versions(&self, version_type: &str) -> (r: Option<Vec<String>>)
        ensures
            self.cached() is None ==> r is None,
            self.cached() is Some ==> r is Some && r->0@ == ids_of_type(
                self.cached()->0.versions@,
                version_type@,
            ),
    {
        match &self.cached_manifest {
            Some(m) => Some(m.ids_of_type(version_type)),
            None => None,
        }
    }

    /// The detail url of version `version_id` in the cached manifest; `None`
    /// when no manifest is cached or the version is not in it.
    pub fn version_url(&self, version_id: &str) -> (r: Option<String>)
        ensures
            self.cached() is None ==> r is None,
            self.cached() is Some ==> r == url_for(self.cached()->0.versions@, version_id@),
    {
        match &self.cached_manifest {
            Some(m) => m.find_url(version_id),
            None => None,
        }
    }
}

impl Default for ApiHandler {
    fn default() -> (r: Self)
        ensures
            r.cached() is None,
    {
        ApiHandler::new()
    }
}

} // verus!
