//! The download primitive's decisions. A download streams the response body
//! into a temporary file in the destination's own directory and only then
//! moves it to the destination, so the destination never holds a partial
//! body. The caller does the network and file work that each step asks for.
use vstd::prelude::*;
use crate::errors::DownloadError;

verus! {

/// Whether an HTTP status code reports success (the 2xx range).
pub open spec fn is_success(status: u16) -> bool {
    200 <= status < 300
}

/// Accepts a response with status `status` to a request for `url`, or fails
/// with `Http(status, url)`.
pub fn check_status(status: u16, url: &String) -> (r: Result<(), DownloadError>)
    ensures
        is_success(status) ==> r is Ok,
        !is_success(status) ==> r == Err::<(), DownloadError>(DownloadError::Http(status, *url)),
{
    if 200 <= status && status < 300 {
        Ok(())
    } else {
        Err(DownloadError::Http(status, url.clone()))
    }
}

/// Where a download stands: what it waits for.
#[derive(Debug, PartialEq, Eq)]
pub enum DownloadPhase {
    /// The destination's parent directory to be created.
    Preparing,
    /// The response status.
    Requesting,
    /// A temporary file in the destination's directory.
    CreatingTemp,
    /// The next chunk of the body written to the temporary file, or the end
    /// of the body.
    Streaming,
    /// The temporary file flushed.
    Flushing,
    /// The temporary file moved to the destination.
    Persisting,
    /// Nothing: the download finished with this outcome.
    Done(Result<(), DownloadError>),
}

/// What the caller must do next for a download.
#[derive(Debug, PartialEq, Eq)]
pub enum DownloadAction {
    /// Create the destination's parent directory if it is missing; report
    /// `ParentReady`.
    CreateParent,
    /// Send the request; report `Responded` with the status.
    SendRequest,
    /// Create the temporary file beside the destination; report `TempCreated`.
    CreateTemp,
    /// Read the next chunk of the body and write it to the temporary file;
    /// report `ChunkWritten`, or `StreamEnded` when the body is over.
    WriteNextChunk,
    /// Flush the temporary file; report `Flushed`.
    Flush,
    /// Move the temporary file to the destination; report `Persisted`. This
    /// is the only action that touches the destination.
    Persist,
    /// The download is over.
    Finish(Result<(), DownloadError>),
}

/// What the caller reports after carrying out a `DownloadAction`.
pub enum DownloadEvent {
    ParentReady,
    Responded(u16),
    TempCreated,
    ChunkWritten,
    StreamEnded,
    Flushed,
    Persisted,
    /// The action failed with this error.
    Failed(DownloadError),
}

/// The phase that follows `p` on event `ev`, for a download of `url`. A
/// failure ends the download; an event that does not answer the pending
/// action changes nothing; a finished download stays finished.
pub open spec fn download_next(p: DownloadPhase, url: String, ev: DownloadEvent) -> DownloadPhase {
    match p {
        DownloadPhase::Done(_) => p,
        _ => match ev {
            DownloadEvent::Failed(e) => DownloadPhase::Done(Err(e)),
            DownloadEvent::ParentReady => if p is Preparing {
                DownloadPhase::Requesting
            } else {
                p
            },
            DownloadEvent::Responded(status) => if p is Requesting {
                if is_success(status) {
                    DownloadPhase::CreatingTemp
                } else {
                    DownloadPhase::Done(Err(DownloadError::Http(status, url)))
                }
            } else {
                p
            },
            DownloadEvent::TempCreated => if p is CreatingTemp {
                DownloadPhase::Streaming
            } else {
                p
            },
            DownloadEvent::ChunkWritten => p,
            DownloadEvent::StreamEnded => if p is Streaming {
                DownloadPhase::Flushing
            } else {
                p
            },
            DownloadEvent::Flushed => if p is Flushing {
                DownloadPhase::Persisting
            } else {
                p
            },
            DownloadEvent::Persisted => if p is Persisting {
                DownloadPhase::Done(Ok(()))
            } else {
                p
            },
        },
    }
}

/// The action that phase `p` waits on.
pub open spec fn download_action(p: DownloadPhase) -> DownloadAction {
    match p {
        DownloadPhase::Preparing => DownloadAction::CreateParent,
        DownloadPhase::Requesting => DownloadAction::SendRequest,
        DownloadPhase::CreatingTemp => DownloadAction::CreateTemp,
        DownloadPhase::Streaming => DownloadAction::WriteNextChunk,
        DownloadPhase::Flushing => DownloadAction::Flush,
        DownloadPhase::Persisting => DownloadAction::Persist,
        DownloadPhase::Done(r) => DownloadAction::Finish(r),
    }
}

/// The phase after the events `evs`, from `p`.
pub open spec fn download_run(p: DownloadPhase, url: String, evs: Seq<DownloadEvent>) -> DownloadPhase
    decreases evs.len(),
{
    if evs.len() == 0 {
        p
    } else {
        download_next(download_run(p, url, evs.drop_last()), url, evs.last())
    }
}

/// Whether some event of `evs` is a failure.
pub open spec fn has_failure(evs: Seq<DownloadEvent>) -> bool {
    exists|i: int| 0 <= i < evs.len() && #[trigger] evs[i] is Failed
}

/// Whether `evs` reports the end of the body and, after it, a flush.
pub open spec fn ended_then_flushed(evs: Seq<DownloadEvent>) -> bool {
    exists|i: int, j: int|
        0 <= i < j < evs.len() && #[trigger] evs[i] is StreamEnded && #[trigger] evs[j] is Flushed
}

/// Whether `evs` reports the end of the body.
pub open spec fn ended(evs: Seq<DownloadEvent>) -> bool {
    exists|i: int| 0 <= i < evs.len() && #[trigger] evs[i] is StreamEnded
}

/// A download asks to move its file to the destination only when no
/// failure was reported and the whole body was read and the file flushed;
/// it reports success only after that move.
pub proof fn lemma_persist_only_complete(url: String, evs: Seq<DownloadEvent>, ev: DownloadEvent)
    ensures
        download_run(DownloadPhase::Preparing, url, evs) is Persisting ==> !has_failure(evs)
            && ended_then_flushed(evs),
        ({
            let p = download_run(DownloadPhase::Preparing, url, evs);
            download_next(p, url, ev) == DownloadPhase::Done(Ok(())) ==> p == DownloadPhase::Done(
                Ok(()),
            ) || (p is Persisting && ev is Persisted)
        }),
{
    lemma_download_progress(url, evs);
}

/// What a download that has not finished, or waits for its flush or its
/// move, has seen.
proof fn lemma_download_progress(url: String, evs: Seq<DownloadEvent>)
    ensures
        !(download_run(DownloadPhase::Preparing, url, evs) is Done) ==> !has_failure(evs),
        download_run(DownloadPhase::Preparing, url, evs) is Flushing || download_run(
            DownloadPhase::Preparing,
            url,
            evs,
        ) is Persisting ==> ended(evs),
        download_run(DownloadPhase::Preparing, url, evs) is Persisting ==> ended_then_flushed(evs),
    decreases evs.len(),
{
    if evs.len() > 0 {
        let prev = evs.drop_last();
        let last = evs.len() - 1;
        lemma_download_progress(url, prev);
        let q = download_run(DownloadPhase::Preparing, url, prev);
        let p = download_run(DownloadPhase::Preparing, url, evs);
        assert(p == download_next(q, url, evs[last]));
        if !(p is Done) {
            assert(!(q is Done));
            assert(!(evs[last] is Failed));
            assert forall|k: int| 0 <= k < evs.len() implies !(#[trigger] evs[k] is Failed) by {
                if k < last {
                    assert(evs[k] == prev[k]);
                }
            }
        }
        if p is Flushing || p is Persisting {
            if q is Flushing || q is Persisting {
                let i = choose|i: int| 0 <= i < prev.len() && #[trigger] prev[i] is StreamEnded;
                assert(evs[i] is StreamEnded);
            } else {
                assert(evs[last] is StreamEnded);
            }
        }
        if p is Persisting {
            if q is Persisting {
                let (i, j) = choose|i: int, j: int|
                    0 <= i < j < prev.len() && #[trigger] prev[i] is StreamEnded
                        && #[trigger] prev[j] is Flushed;
                assert(evs[i] is StreamEnded && evs[j] is Flushed);
            } else {
                let i = choose|i: int| 0 <= i < prev.len() && #[trigger] prev[i] is StreamEnded;
                assert(evs[i] is StreamEnded && evs[last] is Flushed);
            }
        }
    }
}

/// A download of `url`.
pub struct Download {
    pub url: String,
    pub phase: DownloadPhase,
}

impl Download {
    pub fn new(url: &str) -> (r: Self)
        ensures
            r.url@ == url@,
            r.phase == DownloadPhase::Preparing,
    {
        Download { url: url.to_owned(), phase: DownloadPhase::Preparing }
    }

    /// The action the download waits on.
    pub fn action(&self) -> (r: DownloadAction)
        ensures
            r == download_action(self.phase),
    {
        match &self.phase {
            DownloadPhase::Preparing => DownloadAction::CreateParent,
            DownloadPhase::Requesting => DownloadAction::SendRequest,
            DownloadPhase::CreatingTemp => DownloadAction::CreateTemp,
            DownloadPhase::Streaming => DownloadAction::WriteNextChunk,
            DownloadPhase::Flushing => DownloadAction::Flush,
            DownloadPhase::Persisting => DownloadAction::Persist,
            DownloadPhase::Done(Ok(done)) => DownloadAction::Finish(Ok(*done)),
            DownloadPhase::Done(Err(e)) => DownloadAction::Finish(Err(e.copy())),
        }
    }

    /// Takes the outcome of the pending action and returns the next action.
    pub fn step(&mut self, ev: DownloadEvent) -> (r: DownloadAction)
        ensures
            final(self).url == old(self).url,
            final(self).phase == download_next(old(self).phase, old(self).url, ev),
            r == download_action(final(self).phase),
    {
        let next = match (&self.phase, ev) {
            (DownloadPhase::Done(_), _) => None,
            (_, DownloadEvent::Failed(e)) => Some(DownloadPhase::Done(Err(e))),
            (DownloadPhase::Preparing, DownloadEvent::ParentReady) => Some(DownloadPhase::Requesting),
            (DownloadPhase::Requesting, DownloadEvent::Responded(status)) => {
                match check_status(status, &self.url) {
                    Ok(()) => Some(DownloadPhase::CreatingTemp),
                    Err(e) => Some(DownloadPhase::Done(Err(e))),
                }
            },
            (DownloadPhase::CreatingTemp, DownloadEvent::TempCreated) => Some(DownloadPhase::Streaming),
            (DownloadPhase::Streaming, DownloadEvent::StreamEnded) => Some(DownloadPhase::Flushing),
            (DownloadPhase::Flushing, DownloadEvent::Flushed) => Some(DownloadPhase::Persisting),
            (DownloadPhase::Persisting, DownloadEvent::Persisted) => Some(DownloadPhase::Done(Ok(()))),
            _ => None,
        };
        if let Some(p) = next {
            self.phase = p;
        }
        self.action()
    }
}

} // verus!
