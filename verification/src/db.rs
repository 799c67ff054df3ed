//! Durable record of recorder events and upload jobs.
//!
//! The store keeps one row per event, keyed by `event_id`, and one job row
//! per event. A job is pending until it is finished exactly once; finished
//! jobs are immutable history. Insertion of an already-known `event_id`
//! fails with a duplicate-key error, which is the idempotency guard against
//! re-delivered webhooks.

use crate::recorder::RecorderEvent;
use crate::textfmt::str_eq;
use crate::webhook::{UploadHistory, UploadHistoryV, UploadState, UploadStateV};
use vstd::pervasive::unreached;
use vstd::prelude::*;

verus! {

/// Failures the store itself can signal.
#[derive(Clone, Copy, PartialEq, Eq, Structural, Debug)]
pub enum StoreError {
    /// The row to insert already exists.
    DuplicateKey,
    /// The row to touch does not exist (or is no longer pending).
    NotFound,
}

/// Bookkeeping row of one upload job, keyed by its event.
pub struct UploadRecord {
    pub event_id: String,
    pub created_at: i64,
    pub uploaded: bool,
    pub finished_at: Option<i64>,
    pub avid: Option<u64>,
    pub archive: Option<String>,
}

impl Clone for UploadRecord {
    fn clone(&self) -> (r: Self)
        ensures
            r == *self,
    {
        UploadRecord {
            event_id: self.event_id.clone(),
            created_at: self.created_at,
            uploaded: self.uploaded,
            finished_at: self.finished_at,
            avid: self.avid,
            archive: match &self.archive {
                Some(s) => Some(s.clone()),
                None => None,
            },
        }
    }
}

/// The first event of `events` carrying `id`, if any.
pub open spec fn spec_event_for(events: Seq<RecorderEvent>, id: Seq<char>) -> Option<RecorderEvent>
    decreases events.len(),
{
    if events.len() == 0 {
        None
    } else if events[0].event_id@ == id {
        Some(events[0])
    } else {
        spec_event_for(events.skip(1), id)
    }
}

/// Pending-job summaries of `ups`, in store order, joined with their events.
pub open spec fn spec_pending_view(
    events: Seq<RecorderEvent>,
    ups: Seq<UploadRecord>,
) -> Seq<UploadStateV>
    decreases ups.len(),
{
    if ups.len() == 0 {
        Seq::empty()
    } else {
        let front = spec_pending_view(events, ups.drop_last());
        let u = ups.last();
        if !u.uploaded && spec_event_for(events, u.event_id@) is Some {
            front + seq![
                (UploadStateV {
                    event_id: u.event_id@,
                    created_at: u.created_at as int,
                    relative_path: spec_event_for(
                        events,
                        u.event_id@,
                    ).unwrap().event_data.relative_path@,
                    file_size: spec_event_for(events, u.event_id@).unwrap().event_data.file_size,
                }),
            ]
        } else {
            front
        }
    }
}

/// Finished-job summaries of `ups` created at or after `since`, in store
/// order, joined with their events.
pub open spec fn spec_history_view(
    events: Seq<RecorderEvent>,
    ups: Seq<UploadRecord>,
    since: int,
) -> Seq<UploadHistoryV>
    decreases ups.len(),
{
    if ups.len() == 0 {
        Seq::empty()
    } else {
        let front = spec_history_view(events, ups.drop_last(), since);
        let u = ups.last();
        if u.uploaded && u.created_at >= since && spec_event_for(events, u.event_id@) is Some {
            front + seq![
                (UploadHistoryV {
                    finished_at: u.finished_at,
                    relative_path: spec_event_for(
                        events,
                        u.event_id@,
                    ).unwrap().event_data.relative_path@,
                    file_size: spec_event_for(events, u.event_id@).unwrap().event_data.file_size,
                    avid: u.avid,
                }),
            ]
        } else {
            front
        }
    }
}

/// With pairwise-distinct event ids, a row carrying `id` is the row the
/// lookup finds.
pub proof fn lemma_event_for_found(events: Seq<RecorderEvent>, id: Seq<char>, k: int)
    requires
        forall|i: int, j: int|
            0 <= i < j < events.len() ==> events[i].event_id@ != events[j].event_id@,
        0 <= k < events.len(),
        events[k].event_id@ == id,
    ensures
        spec_event_for(events, id) == Some(events[k]),
    decreases events.len(),
{
    if k == 0 {
    } else {
        assert(events[0].event_id@ != id);
        let tail = events.skip(1);
        assert forall|i: int, j: int|
            0 <= i < j < tail.len() implies tail[i].event_id@ != tail[j].event_id@ by {
            assert(tail[i] == events[i + 1]);
            assert(tail[j] == events[j + 1]);
        }
        assert(tail[k - 1] == events[k]);
        lemma_event_for_found(tail, id, k - 1);
    }
}

/// In-memory model of the durable store: the `events` and `uploads` tables.
pub struct BiliupDao {
    events: Vec<RecorderEvent>,
    uploads: Vec<UploadRecord>,
}

impl BiliupDao {
    /// The event rows, in insertion order.
    pub closed spec fn events(&self) -> Seq<RecorderEvent> {
        self.events@
    }

    /// The job rows, in insertion order.
    pub closed spec fn uploads(&self) -> Seq<UploadRecord> {
        self.uploads@
    }

    /// An event row with this id exists.
    pub open spec fn has_event_id(&self, id: Seq<char>) -> bool {
        exists|i: int| 0 <= i < self.events().len() && self.events()[i].event_id@ == id
    }

    /// A job row for this event exists.
    pub open spec fn has_upload_for(&self, id: Seq<char>) -> bool {
        exists|i: int| 0 <= i < self.uploads().len() && self.uploads()[i].event_id@ == id
    }

    /// A still-pending job row for this event exists.
    pub open spec fn has_pending_upload_for(&self, id: Seq<char>) -> bool {
        exists|i: int|
            0 <= i < self.uploads().len() && self.uploads()[i].event_id@ == id && !self.uploads()[
                i
            ].uploaded
    }

    /// Store invariant: event ids are unique, at most one job per event, and
    /// every job references an existing event.
    pub open spec fn wf(&self) -> bool {
        &&& forall|i: int, j: int|
            0 <= i < j < self.events().len() ==> self.events()[i].event_id@ != self.events()[
                j
            ].event_id@
        &&& forall|i: int, j: int|
            0 <= i < j < self.uploads().len() ==> self.uploads()[i].event_id@ != self.uploads()[
                j
            ].event_id@
        &&& forall|i: int|
            0 <= i < self.uploads().len() ==> self.has_event_id(self.uploads()[i].event_id@)
    }

    /// An empty store.
    pub fn new() -> (r: BiliupDao)
        ensures
            r.wf(),
            r.events().len() == 0,
            r.uploads().len() == 0,
    {
        BiliupDao { events: Vec::new(), uploads: Vec::new() }
    }

    /// Index of the event row carrying `event_id`, if any.
    #[verifier::loop_isolation(false)]
    fn event_index(&self, event_id: &str) -> (r: Option<usize>)
        ensures
            r is Some <==> self.has_event_id(event_id@),
            r is Some ==> 0 <= r.unwrap() < self.events().len() && self.events()[
                r.unwrap() as int
            ].event_id@ == event_id@,
    {
        let n = self.events.len();
        let mut i: usize = 0;
        while i < n
            invariant
                i <= n,
                n == self.events().len(),
                forall|k: int| 0 <= k < i ==> self.events()[k].event_id@ != event_id@,
            decreases n - i,
        {
            if str_eq(self.events[i].event_id.as_str(), event_id) {
                return Some(i);
            }
            i += 1;
        }
        None
    }

    /// Inserts the event row; duplicate delivery of an `event_id` is refused
    /// and changes nothing.
    #[verifier::loop_isolation(false)]
    pub fn add_event(&mut self, event: &RecorderEvent) -> (r: Result<(), StoreError>)
        requires
            old(self).wf(),
        ensures
            final(self).wf(),
            old(self).has_event_id(event.event_id@) ==> r == Err::<(), StoreError>(
                StoreError::DuplicateKey,
            ) && final(self).events() == old(self).events() && final(self).uploads() == old(self).uploads(),
            !old(self).has_event_id(event.event_id@) ==> r == Ok::<(), StoreError>(()) && final(self).events() == old(self).events().push(*event) && final(self).uploads() == old(self).uploads(),
    {
        match self.event_index(&event.event_id) {
            Some(_) => Err(StoreError::DuplicateKey),
            None => {
                self.events.push(event.clone());
                proof {
                    let oe = old(self).events();
                    assert(self.events() == oe.push(*event));
                    assert forall|i: int, j: int|
                        0 <= i < j < self.events().len() implies self.events()[i].event_id@
                        != self.events()[j].event_id@ by {
                        assert(self.events()[i] == oe[i]);
                        if j < oe.len() {
                            assert(self.events()[j] == oe[j]);
                        } else {
                            assert(self.events()[j] == *event);
                            if oe[i].event_id@ == event.event_id@ {
                                assert(old(self).has_event_id(event.event_id@));
                            }
                        }
                    }
                    assert forall|i: int|
                        0 <= i < self.uploads().len() implies self.has_event_id(
                        self.uploads()[i].event_id@,
                    ) by {
                        let id = self.uploads()[i].event_id@;
                        assert(old(self).has_event_id(id));
                        let w = choose|k: int| 0 <= k < oe.len() && oe[k].event_id@ == id;
                        assert(self.events()[w] == oe[w]);
                        assert(self.events()[w].event_id@ == id);
                    }
                }
                Ok(())
            },
        }
    }

    /// Inserts the pending job row for an already-inserted event and returns
    /// its one-based row id.
    #[verifier::loop_isolation(false)]
    pub fn add_upload(&mut self, event: &RecorderEvent, now: i64) -> (r: Result<u64, StoreError>)
        requires
            old(self).wf(),
            old(self).uploads().len() < usize::MAX,
        ensures
            final(self).wf(),
            !old(self).has_event_id(event.event_id@) ==> r == Err::<u64, StoreError>(
                StoreError::NotFound,
            ) && final(self).events() == old(self).events() && final(self).uploads() == old(self).uploads(),
            old(self).has_event_id(event.event_id@) && old(self).has_upload_for(event.event_id@)
                ==> r == Err::<u64, StoreError>(StoreError::DuplicateKey) && final(self).events() == old(self).events() && final(self).uploads() == old(self).uploads(),
            old(self).has_event_id(event.event_id@) && !old(self).has_upload_for(event.event_id@)
                ==> r == Ok::<u64, StoreError>(((old(self).uploads().len() + 1) as u64)) && final(self).events() == old(self).events() && final(self).uploads() == old(self).uploads().push(
                (UploadRecord {
                    event_id: event.event_id,
                    created_at: now,
                    uploaded: false,
                    finished_at: None,
                    avid: None,
                    archive: None,
                }),
            ),
    {
        if self.event_index(&event.event_id).is_none() {
            return Err(StoreError::NotFound);
        }
        let n = self.uploads.len();
        let mut i: usize = 0;
        while i < n
            invariant
                i <= n,
                n == self.uploads().len(),
                forall|k: int| 0 <= k < i ==> self.uploads()[k].event_id@ != event.event_id@,
            decreases n - i,
        {
            if str_eq(self.uploads[i].event_id.as_str(), event.event_id.as_str()) {
                return Err(StoreError::DuplicateKey);
            }
            i += 1;
        }
        self.uploads.push(
            UploadRecord {
                event_id: event.event_id.clone(),
                created_at: now,
                uploaded: false,
                finished_at: None,
                avid: None,
                archive: None,
            },
        );
        proof {
            let ou = old(self).uploads();
            assert forall|p: int, q: int|
                0 <= p < q < self.uploads().len() implies self.uploads()[p].event_id@
                != self.uploads()[q].event_id@ by {
                assert(self.uploads()[p] == ou[p]);
                if q < ou.len() {
                    assert(self.uploads()[q] == ou[q]);
                } else {
                    assert(self.uploads()[q].event_id@ == event.event_id@);
                }
            }
            assert forall|q: int|
                0 <= q < self.uploads().len() implies self.has_event_id(
                self.uploads()[q].event_id@,
            ) by {
                if q < ou.len() {
                    assert(self.uploads()[q] == ou[q]);
                    assert(old(self).has_event_id(ou[q].event_id@));
                } else {
                    assert(self.uploads()[q].event_id@ == event.event_id@);
                    assert(old(self).has_event_id(event.event_id@));
                }
                let id = self.uploads()[q].event_id@;
                let w = choose|k: int|
                    0 <= k < old(self).events().len() && old(self).events()[k].event_id@ == id;
                assert(self.events()[w].event_id@ == id);
            }
        }
        Ok(n as u64 + 1)
    }

    /// Marks the pending job of `event_id` finished, stamping the completion
    /// time, remote archive id and resulting title; a job that does not
    /// exist or was already finished is refused.
    #[verifier::loop_isolation(false)]
    pub fn finish_upload(&mut self, event_id: &str, avid: u64, title: &str, now: i64) -> (r: Result<
        (),
        StoreError,
    >)
        requires
            old(self).wf(),
        ensures
            final(self).wf(),
            final(self).events() == old(self).events(),
            !old(self).has_pending_upload_for(event_id@) ==> r == Err::<(), StoreError>(
                StoreError::NotFound,
            ) && final(self).events() == old(self).events() && final(self).uploads() == old(self).uploads(),
            old(self).has_pending_upload_for(event_id@) ==> r == Ok::<(), StoreError>(()) && final(self).uploads().len() == old(self).uploads().len() && exists|i: int|
                {
                    &&& 0 <= i < old(self).uploads().len()
                    &&& old(self).uploads()[i].event_id@ == event_id@
                    &&& !old(self).uploads()[i].uploaded
                    &&& forall|k: int|
                        0 <= k < old(self).uploads().len() && k != i ==> final(self).uploads()[k]
                            == old(self).uploads()[k]
                    &&& final(self).uploads()[i].event_id@ == event_id@
                    &&& final(self).uploads()[i].created_at == old(self).uploads()[i].created_at
                    &&& final(self).uploads()[i].uploaded
                    &&& final(self).uploads()[i].finished_at == Some(now)
                    &&& final(self).uploads()[i].avid == Some(avid)
                    &&& final(self).uploads()[i].archive is Some
                    &&& final(self).uploads()[i].archive.unwrap()@ == title@
                },
    {
        let n = self.uploads.len();
        let mut i: usize = 0;
        while i < n
            invariant
                i <= n,
                n == self.uploads().len(),
                self.events() == old(self).events(),
                self.uploads() == old(self).uploads(),
                forall|k: int|
                    0 <= k < i ==> !(self.uploads()[k].event_id@ == event_id@ && !self.uploads()[
                        k
                    ].uploaded),
            decreases n - i,
        {
            if !self.uploads[i].uploaded && str_eq(self.uploads[i].event_id.as_str(), event_id) {
                let created_at = self.uploads[i].created_at;
                let new_row = UploadRecord {
                    event_id: self.uploads[i].event_id.clone(),
                    created_at,
                    uploaded: true,
                    finished_at: Some(now),
                    avid: Some(avid),
                    archive: Some(title.to_owned()),
                };
                let ghost nr = new_row;
                proof {
                    assert(nr.event_id@ == old(self).uploads()[i as int].event_id@);
                }
                self.uploads.set(i, new_row);
                proof {
                    assert(self.uploads() == old(self).uploads().update(i as int, nr));
                    assert forall|q: int|
                        0 <= q < self.uploads().len() implies self.uploads()[q].event_id@ == old(
                        self,
                    ).uploads()[q].event_id@ by {
                        if q != i {
                            assert(self.uploads()[q] == old(self).uploads()[q]);
                        }
                    }
                    assert forall|q: int|
                        0 <= q < self.uploads().len() implies self.has_event_id(
                        self.uploads()[q].event_id@,
                    ) by {
                        let id = self.uploads()[q].event_id@;
                        assert(old(self).has_event_id(id));
                        let w = choose|k: int|
                            0 <= k < old(self).events().len() && old(self).events()[k].event_id@
                                == id;
                        assert(self.events()[w].event_id@ == id);
                    }
                }
                return Ok(());
            }
            i += 1;
        }
        Err(StoreError::NotFound)
    }

    /// A finished upload with this avid exists for the room/open-time pair.
    pub open spec fn matching_finished(&self, room_id: u64, fot: Seq<char>, i: int, j: int) -> bool {
        &&& 0 <= i < self.uploads().len()
        &&& 0 <= j < self.events().len()
        &&& self.uploads()[i].uploaded
        &&& self.uploads()[i].avid is Some
        &&& self.uploads()[i].event_id@ == self.events()[j].event_id@
        &&& self.events()[j].event_data.room_id == room_id
        &&& self.events()[j].event_data.file_open_time@ == fot
    }

    /// Some finished upload exists for the room/open-time pair.
    pub open spec fn has_finished_for(&self, room_id: u64, fot: Seq<char>) -> bool {
        exists|i: int, j: int| self.matching_finished(room_id, fot, i, j)
    }

    /// `v` is the avid of some finished upload for the room/open-time pair.
    pub open spec fn finished_avid_for(&self, room_id: u64, fot: Seq<char>, v: u64) -> bool {
        exists|i: int, j: int|
            self.matching_finished(room_id, fot, i, j) && self.uploads()[i].avid == Some(v)
    }

    /// The remote archive id of a prior finished upload sharing the same
    /// room and open time, used to decide append versus create.
    #[verifier::loop_isolation(false)]
    pub fn find_existing_upload(&self, data: &crate::recorder::RecorderEventData) -> (r: Option<
        u64,
    >)
        ensures
            r is Some <==> self.has_finished_for(data.room_id, data.file_open_time@),
            r is Some ==> self.finished_avid_for(data.room_id, data.file_open_time@, r.unwrap()),
    {
        let n = self.uploads.len();
        let m = self.events.len();
        let mut i: usize = 0;
        while i < n
            invariant
                i <= n,
                n == self.uploads().len(),
                m == self.events().len(),
                forall|k: int, j: int|
                    0 <= k < i ==> !self.matching_finished(data.room_id, data.file_open_time@, k, j),
            decreases n - i,
        {
            if self.uploads[i].uploaded && self.uploads[i].avid.is_some() {
                let mut j: usize = 0;
                while j < m
                    invariant
                        j <= m,
                        n == self.uploads().len(),
                        m == self.events().len(),
                        i < n,
                        forall|q: int|
                            0 <= q < j ==> !self.matching_finished(
                                data.room_id,
                                data.file_open_time@,
                                i as int,
                                q,
                            ),
                    decreases m - j,
                {
                    if self.events[j].event_data.room_id == data.room_id && str_eq(
                        self.events[j].event_id.as_str(),
                        self.uploads[i].event_id.as_str(),
                    ) && str_eq(
                        self.events[j].event_data.file_open_time.as_str(),
                        data.file_open_time.as_str(),
                    ) {
                        let v = match self.uploads[i].avid {
                            Some(v) => v,
                            None => unreached(),
                        };
                        proof {
                            assert(self.matching_finished(
                                data.room_id,
                                data.file_open_time@,
                                i as int,
                                j as int,
                            ));
                        }
                        return Some(v);
                    }
                    j += 1;
                }
            }
            i += 1;
        }
        None
    }

    /// All pending jobs joined with their events, for status reporting.
    #[verifier::loop_isolation(false)]
    pub fn get_unfinished_uploads(&self) -> (r: Vec<UploadState>)
        requires
            self.wf(),
        ensures
            r@.map_values(|x: UploadState| x@) == spec_pending_view(self.events(), self.uploads()),
    {
        let mut r: Vec<UploadState> = Vec::new();
        let n = self.uploads.len();
        let mut i: usize = 0;
        proof {
            assert(self.uploads().take(0) =~= Seq::<UploadRecord>::empty());
            assert(r@.map_values(|x: UploadState| x@) =~= spec_pending_view(
                self.events(),
                self.uploads().take(0),
            ));
        }
        while i < n
            invariant
                i <= n,
                r@.map_values(|x: UploadState| x@) == spec_pending_view(
                    self.events(),
                    self.uploads().take(i as int),
                ),
            decreases n - i,
        {
            proof {
                assert(self.uploads().take(i + 1).drop_last() =~= self.uploads().take(i as int));
                assert(self.uploads().take(i + 1).last() == self.uploads()[i as int]);
            }
            if !self.uploads[i].uploaded {
                let j = match self.event_index(self.uploads[i].event_id.as_str()) {
                    Some(j) => j,
                    None => unreached(),
                };
                let s = UploadState {
                    event_id: self.uploads[i].event_id.clone(),
                    created_at: self.uploads[i].created_at,
                    relative_path: self.events[j].event_data.relative_path.clone(),
                    file_size: self.events[j].event_data.file_size,
                };
                proof {
                    lemma_event_for_found(
                        self.events(),
                        self.uploads()[i as int].event_id@,
                        j as int,
                    );
                }
                r.push(s);
                proof {
                    assert(r@.map_values(|x: UploadState| x@) =~= spec_pending_view(
                        self.events(),
                        self.uploads().take(i + 1),
                    ));
                }
            } else {
                proof {
                    assert(r@.map_values(|x: UploadState| x@) =~= spec_pending_view(
                        self.events(),
                        self.uploads().take(i + 1),
                    ));
                }
            }
            i += 1;
        }
        proof {
            assert(self.uploads().take(n as int) =~= self.uploads());
        }
        r
    }

    /// All jobs finished within the trailing day before `now`, joined with
    /// their events, for history reporting.
    #[verifier::loop_isolation(false)]
    pub fn get_finished_uploads(&self, now: i64) -> (r: Vec<UploadHistory>)
        requires
            self.wf(),
            i64::MIN + 86400 <= now,
        ensures
            r@.map_values(|x: UploadHistory| x@) == spec_history_view(
                self.events(),
                self.uploads(),
                now - 86400,
            ),
    {
        let since = now - 86400;
        let mut r: Vec<UploadHistory> = Vec::new();
        let n = self.uploads.len();
        let mut i: usize = 0;
        proof {
            assert(self.uploads().take(0) =~= Seq::<UploadRecord>::empty());
            assert(r@.map_values(|x: UploadHistory| x@) =~= spec_history_view(
                self.events(),
                self.uploads().take(0),
                since as int,
            ));
        }
        while i < n
            invariant
                i <= n,
                r@.map_values(|x: UploadHistory| x@) == spec_history_view(
                    self.events(),
                    self.uploads().take(i as int),
                    since as int,
                ),
            decreases n - i,
        {
            proof {
                assert(self.uploads().take(i + 1).drop_last() =~= self.uploads().take(i as int));
                assert(self.uploads().take(i + 1).last() == self.uploads()[i as int]);
            }
            if self.uploads[i].uploaded && self.uploads[i].created_at >= since {
                let j = match self.event_index(self.uploads[i].event_id.as_str()) {
                    Some(j) => j,
                    None => unreached(),
                };
                let s = UploadHistory {
                    finished_at: self.uploads[i].finished_at,
                    relative_path: self.events[j].event_data.relative_path.clone(),
                    file_size: self.events[j].event_data.file_size,
                    avid: self.uploads[i].avid,
                };
                proof {
                    lemma_event_for_found(
                        self.events(),
                        self.uploads()[i as int].event_id@,
                        j as int,
                    );
                }
                r.push(s);
                proof {
                    assert(r@.map_values(|x: UploadHistory| x@) =~= spec_history_view(
                        self.events(),
                        self.uploads().take(i + 1),
                        since as int,
                    ));
                }
            } else {
                proof {
                    assert(r@.map_values(|x: UploadHistory| x@) =~= spec_history_view(
                        self.events(),
                        self.uploads().take(i + 1),
                        since as int,
                    ));
                }
            }
            i += 1;
        }
        proof {
            assert(self.uploads().take(n as int) =~= self.uploads());
        }
        r
    }

    /// Number of job rows in the store.
    pub fn upload_count(&self) -> (r: usize)
        ensures
            r == self.uploads().len(),
    {
        self.uploads.len()
    }

    /// Reconstructs the full event for `event_id`, for retry.
    pub fn get_event(&self, event_id: &str) -> (r: Option<RecorderEvent>)
        ensures
            r is Some <==> self.has_event_id(event_id@),
            r is Some ==> r.unwrap().event_id@ == event_id@ && exists|i: int|
                0 <= i < self.events().len() && self.events()[i] == r.unwrap(),
    {
        match self.event_index(event_id) {
            Some(i) => Some(self.events[i].clone()),
            None => None,
        }
    }
}

} // verus!
