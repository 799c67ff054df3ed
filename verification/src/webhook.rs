//! Endpoint decision logic: ingestion of recorder events, the status and
//! history reports, and operator-triggered retry, together with the shared
//! single-slot runtime state the worker publishes progress through.

use crate::db::{BiliupDao, StoreError, UploadRecord};
use crate::queue::JobQueue;
use crate::recorder::RecorderEvent;
use crate::textfmt::str_eq;
use vstd::prelude::*;

verus! {

/// Process-wide single-slot progress state: the event currently being
/// uploaded, if any, and the bytes uploaded for it so far. Written only by
/// the single worker; read concurrently by status requests.
pub struct AppState {
    pub current: Option<String>,
    pub uploaded: u64,
}

/// Summary of a pending job, as reported by the status endpoint.
pub struct UploadState {
    pub event_id: String,
    pub created_at: i64,
    pub relative_path: String,
    pub file_size: u64,
}

/// Mathematical content of an [`UploadState`].
pub ghost struct UploadStateV {
    pub event_id: Seq<char>,
    pub created_at: int,
    pub relative_path: Seq<char>,
    pub file_size: u64,
}

impl View for UploadState {
    type V = UploadStateV;

    open spec fn view(&self) -> UploadStateV {
        UploadStateV {
            event_id: self.event_id@,
            created_at: self.created_at as int,
            relative_path: self.relative_path@,
            file_size: self.file_size,
        }
    }
}

/// Summary of a finished job, as reported by the history endpoint.
pub struct UploadHistory {
    pub finished_at: Option<i64>,
    pub relative_path: String,
    pub file_size: u64,
    pub avid: Option<u64>,
}

/// Mathematical content of an [`UploadHistory`].
pub ghost struct UploadHistoryV {
    pub finished_at: Option<i64>,
    pub relative_path: Seq<char>,
    pub file_size: u64,
    pub avid: Option<u64>,
}

impl View for UploadHistory {
    type V = UploadHistoryV;

    open spec fn view(&self) -> UploadHistoryV {
        UploadHistoryV {
            finished_at: self.finished_at,
            relative_path: self.relative_path@,
            file_size: self.file_size,
            avid: self.avid,
        }
    }
}

impl AppState {
    /// Fresh state: no job in flight, no bytes counted.
    pub fn new() -> (r: AppState)
        ensures
            r.current is None,
            r.uploaded == 0,
    {
        AppState { current: None, uploaded: 0 }
    }

    /// Whether a job is in flight.
    pub fn is_busy(&self) -> (r: bool)
        ensures
            r == (self.current is Some),
    {
        self.current.is_some()
    }

    /// Publishes the event the worker starts uploading. The single worker
    /// may only begin once the previous job's slot has been cleared.
    pub fn begin_job(&mut self, event_id: &str)
        requires
            old(self).current is None,
        ensures
            final(self).current is Some,
            final(self).current.unwrap()@ == event_id@,
            final(self).uploaded == old(self).uploaded,
    {
        self.current = Some(event_id.to_owned());
    }

    /// Adds a completed chunk's length to the live byte counter.
    pub fn add_progress(&mut self, len: u64)
        requires
            old(self).uploaded + len <= u64::MAX,
        ensures
            final(self).uploaded == old(self).uploaded + len,
            final(self).current == old(self).current,
    {
        self.uploaded = self.uploaded + len;
    }

    /// Empties the slot and zeroes the byte counter, on completion and on
    /// failure alike, so the system is never stuck busy.
    pub fn clear(&mut self)
        ensures
            final(self).current is None,
            final(self).uploaded == 0,
    {
        self.current = None;
        self.uploaded = 0;
    }
}

impl Default for AppState {
    /// Same empty state as [`AppState::new`].
    fn default() -> (r: AppState)
        ensures
            r.current is None,
            r.uploaded == 0,
    {
        AppState { current: None, uploaded: 0 }
    }
}

/// An event is worth uploading only if it reports a closed file of at least
/// ten seconds of media.
pub open spec fn spec_actionable(e: RecorderEvent) -> bool {
    e.event_type@ == "FileClosed"@ && e.event_data.duration_ms >= 10000
}

/// Outcome of ingesting one recorder event.
pub enum IngestOutcome {
    /// Persisted and queued for upload.
    Accepted,
    /// Intentionally ignored: not a close event, or below the duration
    /// threshold. The producer still gets an acknowledgement.
    Ignored,
    /// The store refused one of the two writes.
    Failed(StoreError),
    /// Persisted, but the queue is full; the event is handed back so the
    /// caller can wait and enqueue it again, or leave it to manual retry.
    QueueFull(RecorderEvent),
}

/// Ingests one recorder event: validates it, persists the event and its
/// pending job, and enqueues it for the worker.
pub fn recorder(dao: &mut BiliupDao, queue: &mut JobQueue, event: RecorderEvent, now: i64) -> (r:
    IngestOutcome)
    requires
        old(dao).wf(),
        old(queue).wf(),
        old(dao).uploads().len() < usize::MAX,
    ensures
        final(dao).wf(),
        final(queue).wf(),
        final(queue).cap() == old(queue).cap(),
        !spec_actionable(event) ==> r is Ignored && final(dao).events() == old(dao).events()
            && final(dao).uploads() == old(dao).uploads() && final(queue).items() == old(queue).items(),
        spec_actionable(event) && old(dao).has_event_id(event.event_id@) ==> r == (
        IngestOutcome::Failed(StoreError::DuplicateKey)) && final(dao).events() == old(dao).events() && final(dao).uploads() == old(dao).uploads() && final(queue).items() == old(queue).items(),
        spec_actionable(event) && !old(dao).has_event_id(event.event_id@) ==> final(dao).events()
            == old(dao).events().push(event) && final(dao).uploads() == old(dao).uploads().push(
            (UploadRecord {
                event_id: event.event_id,
                created_at: now,
                uploaded: false,
                finished_at: None,
                avid: None,
                archive: None,
            }),
        ),
        spec_actionable(event) && !old(dao).has_event_id(event.event_id@) && old(queue).items().len() < old(queue).cap() ==> r is Accepted && final(queue).items() == old(queue).items().push(event),
        spec_actionable(event) && !old(dao).has_event_id(event.event_id@) && old(queue).items().len() == old(queue).cap() ==> (r matches IngestOutcome::QueueFull(e) && e
            == event) && final(queue).items() == old(queue).items(),
{
    if !str_eq(event.event_type.as_str(), "FileClosed") {
        return IngestOutcome::Ignored;
    }
    if event.event_data.duration_ms < 10000 {
        return IngestOutcome::Ignored;
    }
    match dao.add_event(&event) {
        Ok(_) => (),
        Err(e) => {
            return IngestOutcome::Failed(e);
        },
    }
    proof {
        assert(dao.events()[dao.events().len() - 1] == event);
        assert(dao.has_event_id(event.event_id@));
        if dao.has_upload_for(event.event_id@) {
            let w = choose|i: int|
                0 <= i < dao.uploads().len() && dao.uploads()[i].event_id@ == event.event_id@;
            assert(old(dao).has_event_id(old(dao).uploads()[w].event_id@));
            assert(false);
        }
    }
    match dao.add_upload(&event, now) {
        Ok(_) => (),
        Err(e) => {
            return IngestOutcome::Failed(e);
        },
    }
    match queue.push(event) {
        Ok(_) => IngestOutcome::Accepted,
        Err(e) => IngestOutcome::QueueFull(e),
    }
}

/// Outcome of an operator-triggered retry.
#[derive(Clone, Copy, PartialEq, Eq, Structural, Debug)]
pub enum RetryOutcome {
    /// The stored event was put back on the queue.
    Requeued,
    /// An upload is in flight; nothing was enqueued.
    Busy,
    /// No stored event carries the requested id.
    NoSuchEvent,
    /// The queue is full; nothing was enqueued.
    Failed,
}

/// Re-enqueues a previously recorded event, unless an upload is in flight.
pub fn retry(state: &AppState, dao: &BiliupDao, queue: &mut JobQueue, event_id: &str) -> (r:
    RetryOutcome)
    requires
        dao.wf(),
        old(queue).wf(),
    ensures
        final(queue).wf(),
        final(queue).cap() == old(queue).cap(),
        state.current is Some ==> r == RetryOutcome::Busy && final(queue).items() == old(queue).items(),
        state.current is None && !dao.has_event_id(event_id@) ==> r == RetryOutcome::NoSuchEvent
            && final(queue).items() == old(queue).items(),
        state.current is None && dao.has_event_id(event_id@) && old(queue).items().len() == old(queue).cap() ==> r == RetryOutcome::Failed && final(queue).items() == old(queue).items(),
        state.current is None && dao.has_event_id(event_id@) && old(queue).items().len() < old(queue).cap() ==> r == RetryOutcome::Requeued && final(queue).items().len() == old(queue).items().len() + 1 && final(queue).items().drop_last() == old(queue).items() && final(queue).items().last().event_id@ == event_id@ && exists|i: int|
            0 <= i < dao.events().len() && dao.events()[i] == final(queue).items().last(),
{
    if state.is_busy() {
        return RetryOutcome::Busy;
    }
    match dao.get_event(event_id) {
        None => RetryOutcome::NoSuchEvent,
        Some(event) => {
            match queue.push(event) {
                Ok(_) => {
                    proof {
                        assert(queue.items().drop_last() =~= old(queue).items());
                    }
                    RetryOutcome::Requeued
                },
                Err(_) => RetryOutcome::Failed,
            }
        },
    }
}

/// The status endpoint's reply: the in-flight event, its live byte count,
/// and all pending jobs.
pub struct StateResponse {
    pub current: Option<String>,
    pub uploaded: u64,
    pub uploads: Vec<UploadState>,
}

/// Builds the status reply from the runtime state and the store's
/// pending-job read; a failed read (`None`) yields an explicit absent reply
/// rather than a crash or an empty default.
pub fn status(state: &AppState, store_read: Option<Vec<UploadState>>) -> (r: Option<StateResponse>)
    ensures
        r is Some <==> store_read is Some,
        r is Some ==> (r.unwrap().current is Some <==> state.current is Some),
        r is Some && state.current is Some ==> r.unwrap().current.unwrap()@
            == state.current.unwrap()@,
        r is Some ==> r.unwrap().uploaded == state.uploaded && r.unwrap().uploads
            == store_read.unwrap(),
{
    match store_read {
        None => None,
        Some(uploads) => {
            let current = match &state.current {
                Some(id) => Some(id.clone()),
                None => None,
            };
            Some(StateResponse { current, uploaded: state.uploaded, uploads })
        },
    }
}

} // verus!
