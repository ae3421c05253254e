use mcman::errors::{DownloadError, LoaderError};
use mcman::fabric::{FabricAction, FabricEvent, FabricInstall, FabricPhase, InstallrVersions};

const INSTALLER: &str = "https://maven.example/fabric-installer-1.0.1.jar";

fn catalog() -> FabricEvent {
    FabricEvent::InstallerCatalog(vec![
        InstallrVersions { url: INSTALLER.to_string() },
        InstallrVersions { url: "https://maven.example/fabric-installer-1.0.0.jar".to_string() },
    ])
}

fn run_action() -> FabricAction {
    FabricAction::RunInstaller { mc: "1.20.6".to_string(), loader: "0.15.0".to_string() }
}

#[test]
fn fabric_install_happy_path() {
    let mut job = FabricInstall::new("1.20.6", "0.15.0");
    assert_eq!(job.action(), FabricAction::FetchInstallerCatalog);
    assert_eq!(job.step(catalog()), FabricAction::CheckDirectory);
    assert_eq!(
        job.step(FabricEvent::IsDirectory(true)),
        FabricAction::DownloadInstaller { url: INSTALLER.to_string() }
    );
    assert_eq!(job.step(FabricEvent::Downloaded), run_action());
    assert_eq!(
        job.step(FabricEvent::InstallerExited { success: true, code: Some(0) }),
        FabricAction::RemoveInstaller
    );
    assert_eq!(job.step(FabricEvent::Removed), FabricAction::Finish(Ok(())));
    assert_eq!(job.phase, FabricPhase::Done(Ok(())));
}

#[test]
fn fabric_install_empty_catalog() {
    let mut job = FabricInstall::new("1.20.6", "0.15.0");
    assert_eq!(
        job.step(FabricEvent::InstallerCatalog(vec![])),
        FabricAction::Finish(Err(LoaderError::Status("Response was empty".to_string())))
    );
}

#[test]
fn fabric_install_needs_directory() {
    let mut job = FabricInstall::new("1.20.6", "0.15.0");
    job.step(catalog());
    assert_eq!(
        job.step(FabricEvent::IsDirectory(false)),
        FabricAction::Finish(Err(LoaderError::NotDirectory))
    );
}

#[test]
fn fabric_install_failed_installer_keeps_file() {
    let mut job = FabricInstall::new("1.20.6", "0.15.0");
    job.step(catalog());
    job.step(FabricEvent::IsDirectory(true));
    job.step(FabricEvent::Downloaded);
    assert_eq!(
        job.step(FabricEvent::InstallerExited { success: false, code: Some(1) }),
        FabricAction::Finish(Err(LoaderError::Install(Some(1))))
    );
}

#[test]
fn fabric_install_download_failure() {
    let mut job = FabricInstall::new("1.20.6", "0.15.0");
    job.step(catalog());
    job.step(FabricEvent::IsDirectory(true));
    let err = LoaderError::Download(DownloadError::Http(404, INSTALLER.to_string()));
    assert_eq!(
        job.step(FabricEvent::Failed(err)),
        FabricAction::Finish(Err(LoaderError::Download(DownloadError::Http(
            404,
            INSTALLER.to_string()
        ))))
    );
}

#[test]
fn fabric_install_ignores_unrelated_events() {
    let mut job = FabricInstall::new("1.20.6", "0.15.0");
    assert_eq!(job.step(FabricEvent::Downloaded), FabricAction::FetchInstallerCatalog);
    job.step(catalog());
    assert_eq!(job.step(FabricEvent::Removed), FabricAction::CheckDirectory);
}

#[test]
fn fabric_install_finished_stays_finished() {
    let mut job = FabricInstall::new("1.20.6", "0.15.0");
    job.step(FabricEvent::Failed(LoaderError::PathToStr));
    assert_eq!(job.action(), FabricAction::Finish(Err(LoaderError::PathToStr)));
    assert_eq!(job.step(catalog()), FabricAction::Finish(Err(LoaderError::PathToStr)));
    assert_eq!(
        job.step(FabricEvent::Failed(LoaderError::Io("late".to_string()))),
        FabricAction::Finish(Err(LoaderError::PathToStr))
    );
}

#[test]
fn fabric_install_run_failure_reported() {
    let mut job = FabricInstall::new("1.20.6", "0.15.0");
    job.step(catalog());
    job.step(FabricEvent::IsDirectory(true));
    assert_eq!(job.step(FabricEvent::Downloaded), run_action());
    assert_eq!(
        job.step(FabricEvent::InstallerExited { success: false, code: None }),
        FabricAction::Finish(Err(LoaderError::Install(None)))
    );
}
