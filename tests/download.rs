use mcman::download::{Download, DownloadAction, DownloadEvent, DownloadPhase};
use mcman::errors::DownloadError;

const URL: &str = "https://piston-data.example/server.jar";

fn started() -> Download {
    let mut d = Download::new(URL);
    assert_eq!(d.action(), DownloadAction::CreateParent);
    assert_eq!(d.step(DownloadEvent::ParentReady), DownloadAction::SendRequest);
    d
}

fn streaming() -> Download {
    let mut d = started();
    assert_eq!(d.step(DownloadEvent::Responded(200)), DownloadAction::CreateTemp);
    assert_eq!(d.step(DownloadEvent::TempCreated), DownloadAction::WriteNextChunk);
    d
}

#[test]
fn download_happy_path() {
    let mut d = streaming();
    assert_eq!(d.step(DownloadEvent::ChunkWritten), DownloadAction::WriteNextChunk);
    assert_eq!(d.step(DownloadEvent::ChunkWritten), DownloadAction::WriteNextChunk);
    assert_eq!(d.step(DownloadEvent::StreamEnded), DownloadAction::Flush);
    assert_eq!(d.step(DownloadEvent::Flushed), DownloadAction::Persist);
    assert_eq!(d.step(DownloadEvent::Persisted), DownloadAction::Finish(Ok(())));
    assert_eq!(d.phase, DownloadPhase::Done(Ok(())));
}

#[test]
fn download_empty_body_still_persists() {
    let mut d = streaming();
    assert_eq!(d.step(DownloadEvent::StreamEnded), DownloadAction::Flush);
    assert_eq!(d.step(DownloadEvent::Flushed), DownloadAction::Persist);
}

#[test]
fn download_http_error_writes_nothing() {
    let mut d = started();
    assert_eq!(
        d.step(DownloadEvent::Responded(404)),
        DownloadAction::Finish(Err(DownloadError::Http(404, URL.to_string())))
    );
    // a late event cannot bring the download back to the destination
    assert_eq!(
        d.step(DownloadEvent::Flushed),
        DownloadAction::Finish(Err(DownloadError::Http(404, URL.to_string())))
    );
}

#[test]
fn download_stream_failure_never_persists() {
    let mut d = streaming();
    d.step(DownloadEvent::ChunkWritten);
    let err = DownloadError::Reqwest("connection reset".to_string());
    assert_eq!(
        d.step(DownloadEvent::Failed(err)),
        DownloadAction::Finish(Err(DownloadError::Reqwest("connection reset".to_string())))
    );
    assert_eq!(
        d.step(DownloadEvent::StreamEnded),
        DownloadAction::Finish(Err(DownloadError::Reqwest("connection reset".to_string())))
    );
}

#[test]
fn download_persist_failure() {
    let mut d = streaming();
    d.step(DownloadEvent::StreamEnded);
    d.step(DownloadEvent::Flushed);
    assert_eq!(
        d.step(DownloadEvent::Failed(DownloadError::Persist("cross-device link".to_string()))),
        DownloadAction::Finish(Err(DownloadError::Persist("cross-device link".to_string())))
    );
}

#[test]
fn download_flush_needs_end_of_body() {
    let mut d = streaming();
    // a flush report while the body is still streaming changes nothing
    assert_eq!(d.step(DownloadEvent::Flushed), DownloadAction::WriteNextChunk);
    assert_eq!(d.step(DownloadEvent::Persisted), DownloadAction::WriteNextChunk);
}

#[test]
fn download_redirect_status_is_not_success() {
    let mut d = started();
    assert_eq!(
        d.step(DownloadEvent::Responded(301)),
        DownloadAction::Finish(Err(DownloadError::Http(301, URL.to_string())))
    );
}
