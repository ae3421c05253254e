//! Values read from the game's version manifest and per-version details.
use vstd::prelude::*;

verus! {

/// One entry of the version manifest.
pub struct Version {
    pub id: String,
    /// The release channel: `release`, `snapshot`, `old_beta` or `old_alpha`.
    pub vtype: String,
    /// Where the version's detail document lives.
    pub url: String,
}

/// The version manifest: every known version, newest first.
pub struct Manifest {
    pub versions: Vec<Version>,
}

/// The detail document of one version.
pub struct VersionManifest {
    pub downloads: VersionDownloads,
}

pub struct VersionDownloads {
    /// Absent for versions that never shipped a server.
    pub server: Option<DownloadsData>,
}

/// A downloadable artifact.
pub struct DownloadsData {
    pub size: u64,
    pub url: String,
}

/// The ids of `vs`, in order.
pub open spec fn ids_of(vs: Seq<Version>) -> Seq<String> {
    vs.map_values(|v: Version| v.id)
}

/// The ids of the entries of `vs` whose channel is `vtype`, in order.
pub open spec fn ids_of_type(vs: Seq<Version>, vtype: Seq<char>) -> Seq<String>
    decreases vs.len(),
{
    if vs.len() == 0 {
        Seq::empty()
    } else {
        let rest = ids_of_type(vs.drop_last(), vtype);
        if vs.last().vtype@ == vtype {
            rest.push(vs.last().id)
        } else {
            rest
        }
    }
}

/// The detail url of the first entry of `vs` whose id is `id`.
pub open spec fn url_for(vs: Seq<Version>, id: Seq<char>) -> Option<String>
    decreases vs.len(),
{
    if vs.len() == 0 {
        None
    } else {
        match url_for(vs.drop_last(), id) {
            Some(u) => Some(u),
            None => if vs.last().id@ == id {
                Some(vs.last().url)
            } else {
                None
            },
        }
    }
}

/// `url_for` finds an entry exactly when some entry has the id.
pub proof fn lemma_url_for_found(vs: Seq<Version>, id: Seq<char>)
    ensures
        url_for(vs, id) is Some <==> exists|i: int| 0 <= i < vs.len() && #[trigger] vs[i].id@ == id,
    decreases vs.len(),
{
    if vs.len() > 0 {
        lemma_url_for_found(vs.drop_last(), id);
        if url_for(vs.drop_last(), id) is Some {
            let i = choose|i: int| 0 <= i < vs.drop_last().len() && #[trigger] vs.drop_last()[i].id@ == id;
            assert(vs[i].id@ == id);
        }
        if exists|i: int| 0 <= i < vs.len() && #[trigger] vs[i].id@ == id {
            let i = choose|i: int| 0 <= i < vs.len() && #[trigger] vs[i].id@ == id;
            if i < vs.len() - 1 {
                assert(vs.drop_last()[i].id@ == id);
            }
        }
    }
}

impl Manifest {
    /// Every version id, in manifest order.
    pub fn ids(&self) -> (r: Vec<String>)
        ensures
            r@ == ids_of(self.versions@),
    {
        let mut r: Vec<String> = Vec::new();
        let mut i: usize = 0;
        while i < self.versions.len()
            invariant
                i <= self.versions@.len(),
                r@ == ids_of(self.versions@.subrange(0, i as int)),
            decreases self.versions@.len() - i,
        {
            r.push(self.versions[i].id.clone());
            i = i + 1;
            assert(ids_of(self.versions@.subrange(0, i as int)) =~= ids_of(
                self.versions@.subrange(0, i - 1),
            ).push(self.versions@[i - 1].id));
        }
        assert(self.versions@.subrange(0, i as int) =~= self.versions@);
        r
    }

    /// The ids of the versions whose channel is `vtype`, in manifest order.
    pub fn ids_of_type(&self, vtype: &str) -> (r: Vec<String>)
        ensures
            r@ == ids_of_type(self.versions@, vtype@),
    {
        let wanted = vtype.to_owned();
        let mut r: Vec<String> = Vec::new();
        let mut i: usize = 0;
        while i < self.versions.len()
            invariant
                i <= self.versions@.len(),
                wanted@ == vtype@,
                r@ == ids_of_type(self.versions@.subrange(0, i as int), vtype@),
            decreases self.versions@.len() - i,
        {
            let v = &self.versions[i];
            if v.vtype == wanted {
                r.push(v.id.clone());
            }
            i = i + 1;
            assert(self.versions@.subrange(0, i as int).drop_last() =~= self.versions@.subrange(
                0,
                i - 1,
            ));
        }
        assert(self.versions@.subrange(0, i as int) =~= self.versions@);
        r
    }

    /// The detail url of the first version whose id is `id`.
    pub fn find_url(&self, id: &str) -> (r: Option<String>)
        ensures
            r == url_for(self.versions@, id@),
    {
        let wanted = id.to_owned();
        let mut found: Option<String> = None;
        let mut i: usize = 0;
        while i < self.versions.len()
            invariant
                i <= self.versions@.len(),
                wanted@ == id@,
                found == url_for(self.versions@.subrange(0, i as int), id@),
            decreases self.versions@.len() - i,
        {
            let v = &self.versions[i];
            if found.is_none() && v.id == wanted {
                found = Some(v.url.clone());
            }
            i = i + 1;
            assert(self.versions@.subrange(0, i as int).drop_last() =~= self.versions@.subrange(
                0,
                i - 1,
            ));
        }
        assert(self.versions@.subrange(0, i as int) =~= self.versions@);
        found
    }
}

} // verus!
