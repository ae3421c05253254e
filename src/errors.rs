//! The three error taxonomies: downloads, loader backends, and the installer.
//! Failures that come from the network or the file system carry the
//! message of the underlying error.
use vstd::prelude::*;
use crate::installer::LoaderType;

verus! {

#[derive(Debug, PartialEq, Eq)]
pub enum DownloadError {
    /// A response whose status is not a success: the status code and the url.
    Http(u16, String),
    /// The request failed, or reading the body did.
    Reqwest(String),
    /// A local file operation failed.
    Io(String),
    /// Moving the finished temporary file into place failed.
    Persist(String),
}

#[derive(Debug, PartialEq, Eq)]
pub enum LoaderError {
    /// The install target is not an existing directory.
    NotDirectory,
    /// A path could not be turned into a string for the installer's arguments.
    PathToStr,
    /// A catalog answered with something unusable.
    Status(String),
    /// The installer program exited with a failure; its exit code, if it had one.
    Install(Option<i32>),
    Reqwest(String),
    Download(DownloadError),
    Io(String),
}

#[derive(Debug, PartialEq, Eq)]
pub enum InstallerError {
    /// No backend is registered for this loader.
    InvalidLoader(LoaderType),
    Loader(LoaderError),
    /// The loader version (first) does not work with the game version (second).
    NotCompatible(String, String),
    /// The game version is not in the catalog.
    InvalidVersion,
    Reqwest(String),
    Download(DownloadError),
    /// The game version has no server artifact.
    NoJarFile(String),
}

impl DownloadError {
    /// An equal error.
    pub fn copy(&self) -> (r: Self)
        ensures
            r == *self,
    {
        match self {
            DownloadError::Http(status, url) => DownloadError::Http(*status, url.clone()),
            DownloadError::Reqwest(m) => DownloadError::Reqwest(m.clone()),
            DownloadError::Io(m) => DownloadError::Io(m.clone()),
            DownloadError::Persist(m) => DownloadError::Persist(m.clone()),
        }
    }
}

impl LoaderError {
    /// An equal error.
    pub fn copy(&self) -> (r: Self)
        ensures
            r == *self,
    {
        match self {
            LoaderError::NotDirectory => LoaderError::NotDirectory,
            LoaderError::PathToStr => LoaderError::PathToStr,
            LoaderError::Status(m) => LoaderError::Status(m.clone()),
            LoaderError::Install(code) => LoaderError::Install(*code),
            LoaderError::Reqwest(m) => LoaderError::Reqwest(m.clone()),
            LoaderError::Download(e) => LoaderError::Download(e.copy()),
            LoaderError::Io(m) => LoaderError::Io(m.clone()),
        }
    }
}

} // verus!
