use mcman::api_handler::ApiHandler;
use mcman::cache::{Access, OnceCache};
use mcman::download::check_status;
use mcman::errors::{DownloadError, LoaderError};
use mcman::fabric::{
    install_result, installer_args, FabricCache, FabricLoader, InstallrVersions, Versions,
};
use mcman::cache::Lookup;
use mcman::models::{Manifest, Version};

fn version(id: &str, vtype: &str, url: &str) -> Version {
    Version { id: id.to_string(), vtype: vtype.to_string(), url: url.to_string() }
}

fn mixed() -> Manifest {
    Manifest {
        versions: vec![
            version("24w14a", "snapshot", "u0"),
            version("1.20.6", "release", "u1"),
            version("b1.7.3", "old_beta", "u2"),
            version("1.20.5", "release", "u3"),
            version("1.20.6", "release", "u4"),
        ],
    }
}

fn strings(v: &[&str]) -> Vec<String> {
    v.iter().map(|s| s.to_string()).collect()
}

#[test]
fn racing_accesses_fetch_once() {
    let mut c: OnceCache<u64> = OnceCache::new();
    assert_eq!(c.access(), Access::Fetch);
    assert_eq!(c.access(), Access::Wait);
    assert_eq!(c.access(), Access::Wait);
    assert_eq!(c.get(), None);
    c.complete(Some(7));
    assert_eq!(c.get(), Some(&7));
    assert_eq!(c.access(), Access::Hit);
    assert_eq!(c.get(), Some(&7));
}

#[test]
fn ready_value_is_never_replaced() {
    let mut c: OnceCache<u64> = OnceCache::new();
    assert_eq!(c.access(), Access::Fetch);
    c.complete(Some(1));
    c.complete(Some(2));
    c.complete(None);
    assert_eq!(c.access(), Access::Hit);
    assert_eq!(c.get(), Some(&1));
}

#[test]
fn failed_fetch_leaves_cache_empty() {
    let mut c: OnceCache<u64> = OnceCache::new();
    assert_eq!(c.access(), Access::Fetch);
    c.complete(None);
    assert_eq!(c.get(), None);
    assert_eq!(c.access(), Access::Fetch);
}

#[test]
fn complete_without_fetch_is_ignored() {
    let mut c: OnceCache<u64> = OnceCache::new();
    c.complete(Some(3));
    assert_eq!(c.get(), None);
    assert_eq!(c.access(), Access::Fetch);
}

#[test]
fn manifest_ids_in_order() {
    assert_eq!(mixed().ids(), strings(&["24w14a", "1.20.6", "b1.7.3", "1.20.5", "1.20.6"]));
    assert_eq!(Manifest { versions: vec![] }.ids(), Vec::<String>::new());
}

#[test]
fn manifest_ids_of_type() {
    let m = mixed();
    assert_eq!(m.ids_of_type("release"), strings(&["1.20.6", "1.20.5", "1.20.6"]));
    assert_eq!(m.ids_of_type("old_beta"), strings(&["b1.7.3"]));
    assert_eq!(m.ids_of_type("old_alpha"), Vec::<String>::new());
}

#[test]
fn find_url_takes_first_match() {
    let m = mixed();
    assert_eq!(m.find_url("1.20.6"), Some("u1".to_string()));
    assert_eq!(m.find_url("1.20.5"), Some("u3".to_string()));
    assert_eq!(m.find_url("1.20"), None);
    assert_eq!(Manifest { versions: vec![] }.find_url("1.20.6"), None);
}

#[test]
fn fabric_cache_from_catalogs() {
    let loaders = vec![
        Versions { version: "0.15.0".to_string() },
        Versions { version: "0.14.0".to_string() },
    ];
    let games = vec![Versions { version: "1.20.6".to_string() }];
    let c = FabricCache::from_catalogs(&loaders, &games);
    assert_eq!(c.compatible_versions("1.20.6"), Some(strings(&["0.15.0", "0.14.0"])));
    assert_eq!(c.compatible_versions("1.19"), None);
}

#[test]
fn fabric_cache_empty_lists() {
    let c = FabricCache::new(vec![], strings(&["0.15.0"]));
    assert_eq!(c.compatible_versions("1.20.6"), None);
    let c = FabricCache::new(strings(&["1.20.6"]), vec![]);
    assert_eq!(c.compatible_versions("1.20.6"), Some(vec![]));
}

#[test]
fn fabric_loader_fetches_catalog_once() {
    let mut l = FabricLoader::new();
    assert_eq!(l.get_compatible_versions("1.20.6"), Lookup::Fetch);
    assert_eq!(l.get_compatible_versions("1.20.6"), Lookup::Wait);
    l.store_catalogs(Some(FabricCache::new(strings(&["1.20.6"]), strings(&["0.15.0"]))));
    assert_eq!(l.get_compatible_versions("1.20.6"), Lookup::Ready(Some(strings(&["0.15.0"]))));
    assert_eq!(l.get_compatible_versions("1.19"), Lookup::Ready(None));
}

#[test]
fn latest_installer_of_empty_catalog() {
    assert_eq!(
        FabricLoader::latest_installer(&vec![]),
        Err(LoaderError::Status("Response was empty".to_string()))
    );
}

#[test]
fn latest_installer_is_first_entry() {
    let catalog = vec![
        InstallrVersions { url: "https://maven.example/installer-1.0.1.jar".to_string() },
        InstallrVersions { url: "https://maven.example/installer-1.0.0.jar".to_string() },
    ];
    assert_eq!(
        FabricLoader::latest_installer(&catalog),
        Ok("https://maven.example/installer-1.0.1.jar".to_string())
    );
}

#[test]
fn installer_arguments() {
    assert_eq!(
        installer_args("/srv/mc/installer.jar", "1.20.6", "0.15.0", "/srv/mc"),
        strings(&[
            "-jar",
            "/srv/mc/installer.jar",
            "server",
            "-mcversion",
            "1.20.6",
            "-loader",
            "0.15.0",
            "-downloadMinecraft",
            "-dir",
            "/srv/mc",
        ])
    );
}

#[test]
fn installer_exit_status() {
    assert_eq!(install_result(true, Some(0)), Ok(()));
    assert_eq!(install_result(false, Some(1)), Err(LoaderError::Install(Some(1))));
    assert_eq!(install_result(false, None), Err(LoaderError::Install(None)));
}

#[test]
fn status_success_range() {
    assert_eq!(check_status(200, &"u".to_string()), Ok(()));
    assert_eq!(check_status(204, &"u".to_string()), Ok(()));
    assert_eq!(check_status(299, &"u".to_string()), Ok(()));
}

#[test]
fn status_failures_carry_code_and_url() {
    let url = &"https://piston-data.example/server.jar".to_string();
    assert_eq!(check_status(404, url), Err(DownloadError::Http(404, url.to_string())));
    assert_eq!(check_status(300, url), Err(DownloadError::Http(300, url.to_string())));
    assert_eq!(check_status(199, url), Err(DownloadError::Http(199, url.to_string())));
    assert_eq!(check_status(500, url), Err(DownloadError::Http(500, url.to_string())));
}

#[test]
fn api_handler_lists_channel() {
    let mut h = ApiHandler::new();
    assert!(!h.is_cached());
    assert_eq!(h.get_versions("release"), None);
    h.cache_manifest(mixed());
    assert!(h.is_cached());
    assert_eq!(h.get_versions("release"), Some(strings(&["1.20.6", "1.20.5", "1.20.6"])));
    assert_eq!(h.get_versions("snapshot"), Some(strings(&["24w14a"])));
}

#[test]
fn api_handler_version_url() {
    let mut h = ApiHandler::default();
    assert_eq!(h.version_url("1.20.6"), None);
    h.cache_manifest(mixed());
    assert_eq!(h.version_url("1.20.6"), Some("u1".to_string()));
    assert_eq!(h.version_url("1.21"), None);
}

#[test]
fn api_handler_recaches() {
    let mut h = ApiHandler::new();
    h.cache_manifest(mixed());
    h.cache_manifest(Manifest { versions: vec![version("1.21", "release", "u9")] });
    assert_eq!(h.get_versions("release"), Some(strings(&["1.21"])));
}
