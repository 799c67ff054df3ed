//! The upload worker's decisions: line selection, archive assembly, the
//! append-versus-create resolution, and job finalization. The network calls
//! themselves (authentication, byte transfer, archive submission) happen
//! outside, between these steps; every decision that feeds them is verified
//! here.

use crate::config::{ManagerConfig, RoomConfig};
use crate::datetime::parse_rfc3339;
use crate::db::{BiliupDao, StoreError};
use crate::recorder::{RecorderEvent, RecorderEventData};
use crate::textfmt::{spec_u64_string, str_eq, u64_string};
use crate::webhook::AppState;
use vstd::prelude::*;

verus! {

broadcast use vstd::std_specs::hash::group_hash_axioms;

/// The closed set of known upload lines, plus automatic probing.
#[derive(Clone, Copy, PartialEq, Eq, Structural, Debug)]
pub enum Line {
    Bda2,
    Kodo,
    Ws,
    Qn,
    Cos,
    CosInternal,
    Auto,
}

/// The line a configured name denotes; unknown names denote none and are
/// rejected when the job is prepared.
pub open spec fn spec_parse_line(s: Seq<char>) -> Option<Line> {
    if s == "bda2"@ {
        Some(Line::Bda2)
    } else if s == "kodo"@ {
        Some(Line::Kodo)
    } else if s == "ws"@ {
        Some(Line::Ws)
    } else if s == "qn"@ {
        Some(Line::Qn)
    } else if s == "cos"@ {
        Some(Line::Cos)
    } else if s == "cos-internal"@ {
        Some(Line::CosInternal)
    } else if s == "AUTO"@ {
        Some(Line::Auto)
    } else {
        None
    }
}

/// Resolves a configured line name to a known line.
pub fn parse_line(name: &str) -> (r: Option<Line>)
    ensures
        r == spec_parse_line(name@),
{
    if str_eq(name, "bda2") {
        Some(Line::Bda2)
    } else if str_eq(name, "kodo") {
        Some(Line::Kodo)
    } else if str_eq(name, "ws") {
        Some(Line::Ws)
    } else if str_eq(name, "qn") {
        Some(Line::Qn)
    } else if str_eq(name, "cos") {
        Some(Line::Cos)
    } else if str_eq(name, "cos-internal") {
        Some(Line::CosInternal)
    } else if str_eq(name, "AUTO") {
        Some(Line::Auto)
    } else {
        None
    }
}

/// A new archive submission assembled from room configuration and event
/// data, before its video parts are attached.
pub struct Studio {
    pub copyright: u8,
    pub source: String,
    pub tid: u16,
    pub cover: String,
    pub title: String,
    pub desc: String,
    pub dynamic: String,
    pub tag: String,
}

/// Assembles a new archive submission: original-source copyright, the live
/// room's URL as source, and the room's category, cover, templated title,
/// description and tags.
pub fn make_studio(data: &RecorderEventData, config: &RoomConfig) -> (s: Studio)
    requires
        data.spec_parts() is Some,
    ensures
        s.copyright == 2,
        s.source@ == "https://live.bilibili.com/"@ + spec_u64_string(data.room_id as int),
        s.tid == config.tid,
        s.cover@ == config.cover@,
        s.title@ == data.spec_formatted(config.studio_title@),
        s.desc@ == config.description@,
        s.dynamic@ == Seq::<char>::empty(),
        s.tag@ == config.tags@,
{
    let mut source = String::from_str("https://live.bilibili.com/");
    let digits = u64_string(data.room_id);
    source.append(digits.as_str());
    Studio {
        copyright: 2,
        source,
        tid: config.tid,
        cover: config.cover.clone(),
        title: data.format(config.studio_title.as_str()),
        desc: config.description.clone(),
        dynamic: String::new(),
        tag: config.tags.clone(),
    }
}

/// Whether a configured cover is already a URL; anything else is a local
/// file that must first be uploaded.
pub open spec fn spec_is_http_url(s: Seq<char>) -> bool {
    s.len() >= 4 && s.subrange(0, 4) == "http"@
}

/// True when the configured cover must be uploaded before submission.
pub fn cover_needs_upload(cover: &str) -> (r: bool)
    ensures
        r == !spec_is_http_url(cover@),
{
    let n = cover.unicode_len();
    if n < 4 {
        return true;
    }
    let p = cover.substring_char(0, 4);
    !str_eq(p, "http")
}

/// The worker's append-versus-create resolution.
#[derive(Clone, Copy, PartialEq, Eq, Structural, Debug)]
pub enum SubmitPlan {
    /// Append the new part to the existing archive with this remote id.
    Append(u64),
    /// Submit a new archive.
    Create,
}

/// Decides whether the freshly uploaded part joins an existing archive of
/// the same room and recording-session start, or opens a new one.
pub fn decide_submit(dao: &BiliupDao, data: &RecorderEventData) -> (p: SubmitPlan)
    ensures
        dao.has_finished_for(data.room_id, data.file_open_time@) <==> (p matches SubmitPlan::Append(
            _,
        )),
        p matches SubmitPlan::Append(v) ==> dao.finished_avid_for(
            data.room_id,
            data.file_open_time@,
            v,
        ),
        !dao.has_finished_for(data.room_id, data.file_open_time@) ==> p == SubmitPlan::Create,
{
    match dao.find_existing_upload(data) {
        Some(avid) => SubmitPlan::Append(avid),
        None => SubmitPlan::Create,
    }
}

/// Why a job cannot be prepared; each is fatal for this job only.
#[derive(Clone, Copy, PartialEq, Eq, Structural, Debug)]
pub enum JobError {
    /// No room configuration for the event's room.
    MissingRoom,
    /// The configured line name is not a known line.
    UnknownLine,
    /// The event's opening timestamp does not parse.
    BadTimestamp,
}

/// Everything the worker decides locally before touching the network.
pub struct PreparedJob {
    pub line: Line,
    pub studio: Studio,
    pub part_title: String,
    pub relative_path: String,
    pub limit: usize,
}

/// Resolves configuration and assembles the submission for one event:
/// unknown rooms, unknown line names, and unparseable timestamps are
/// rejected before any upload starts.
pub fn prepare_job(config: &ManagerConfig, event: &RecorderEvent) -> (r: Result<
    PreparedJob,
    JobError,
>)
    ensures
        !config.rooms@.contains_key(event.event_data.room_id) ==> r == Err::<PreparedJob, JobError>(
            JobError::MissingRoom,
        ),
        config.rooms@.contains_key(event.event_data.room_id) && spec_parse_line(config.line@)
            is None ==> r == Err::<PreparedJob, JobError>(JobError::UnknownLine),
        config.rooms@.contains_key(event.event_data.room_id) && spec_parse_line(config.line@)
            is Some && event.event_data.spec_parts() is None ==> r == Err::<PreparedJob, JobError>(
            JobError::BadTimestamp,
        ),
        config.rooms@.contains_key(event.event_data.room_id) && spec_parse_line(config.line@)
            is Some && event.event_data.spec_parts() is Some ==> r is Ok && r.unwrap().line
            == spec_parse_line(config.line@).unwrap() && r.unwrap().studio.title@
            == event.event_data.spec_formatted(
            config.rooms@[event.event_data.room_id].studio_title@,
        ) && r.unwrap().studio.cover@ == config.rooms@[event.event_data.room_id].cover@
            && r.unwrap().studio.tid == config.rooms@[event.event_data.room_id].tid
            && r.unwrap().studio.desc@ == config.rooms@[event.event_data.room_id].description@
            && r.unwrap().studio.tag@ == config.rooms@[event.event_data.room_id].tags@
            && r.unwrap().part_title@ == event.event_data.spec_formatted(
            config.rooms@[event.event_data.room_id].part_title@,
        ) && r.unwrap().relative_path@ == event.event_data.relative_path@ && r.unwrap().limit
            == config.limit,
{
    let data = &event.event_data;
    let room = match config.rooms.get(&data.room_id) {
        Some(room) => room,
        None => {
            return Err(JobError::MissingRoom);
        },
    };
    let line = match parse_line(config.line.as_str()) {
        Some(line) => line,
        None => {
            return Err(JobError::UnknownLine);
        },
    };
    match parse_rfc3339(data.file_open_time.as_str()) {
        Some(_) => (),
        None => {
            return Err(JobError::BadTimestamp);
        },
    }
    let studio = make_studio(data, room);
    let part_title = data.format(room.part_title.as_str());
    Ok(
        PreparedJob {
            line,
            studio,
            part_title,
            relative_path: data.relative_path.clone(),
            limit: config.limit,
        },
    )
}

/// Finalizes a successful upload: marks the job finished in the store and
/// clears the runtime slot; the slot is cleared even when the store refuses,
/// so the system is never stuck busy.
pub fn finish_job(
    dao: &mut BiliupDao,
    state: &mut AppState,
    event_id: &str,
    avid: u64,
    title: &str,
    now: i64,
) -> (r: Result<(), StoreError>)
    requires
        old(dao).wf(),
    ensures
        final(dao).wf(),
        final(dao).events() == old(dao).events(),
        final(state).current is None && final(state).uploaded == 0,
        !old(dao).has_pending_upload_for(event_id@) ==> r == Err::<(), StoreError>(
            StoreError::NotFound,
        ) && final(dao).uploads() == old(dao).uploads(),
        old(dao).has_pending_upload_for(event_id@) ==> r == Ok::<(), StoreError>(()) && !final(dao).has_pending_upload_for(event_id@),
{
    let r = dao.finish_upload(event_id, avid, title, now);
    state.clear();
    proof {
        if old(dao).has_pending_upload_for(event_id@) && dao.has_pending_upload_for(event_id@) {
            let i = choose|i: int|
                {
                    &&& 0 <= i < old(dao).uploads().len()
                    &&& old(dao).uploads()[i].event_id@ == event_id@
                    &&& !old(dao).uploads()[i].uploaded
                    &&& forall|k: int|
                        0 <= k < old(dao).uploads().len() && k != i ==> dao.uploads()[k] == old(dao).uploads()[k]
                    &&& dao.uploads()[i].event_id@ == event_id@
                    &&& dao.uploads()[i].uploaded
                };
            let k = choose|k: int|
                0 <= k < dao.uploads().len() && dao.uploads()[k].event_id@ == event_id@
                    && !dao.uploads()[k].uploaded;
            assert(k != i);
            assert(dao.uploads()[k] == old(dao).uploads()[k]);
            assert(old(dao).uploads()[k].event_id@ == old(dao).uploads()[i].event_id@);
            assert(false);
        }
    }
    r
}

/// One observable action of the worker on the runtime slot, as realized by
/// [`AppState::begin_job`], [`AppState::add_progress`] and
/// [`AppState::clear`]: their contracts admit exactly the allowed steps.
pub ghost enum WorkerStep {
    /// Publish the given event as in flight; only allowed on an empty slot.
    Begin(Seq<char>),
    /// Count uploaded bytes for the in-flight event.
    Progress(u64),
    /// Clear the slot, on completion or on failure.
    Settle,
}

/// Whether a step may fire from a slot state.
pub open spec fn spec_step_allowed(cur: Option<Seq<char>>, step: WorkerStep) -> bool {
    match step {
        WorkerStep::Begin(_) => cur is None,
        WorkerStep::Progress(_) => cur is Some,
        WorkerStep::Settle => true,
    }
}

/// The slot state after a step.
pub open spec fn spec_step_next(cur: Option<Seq<char>>, step: WorkerStep) -> Option<Seq<char>> {
    match step {
        WorkerStep::Begin(id) => Some(id),
        WorkerStep::Progress(_) => cur,
        WorkerStep::Settle => None,
    }
}

/// A run of worker steps in which every step was allowed when it fired.
pub open spec fn spec_trace_ok(cur: Option<Seq<char>>, steps: Seq<WorkerStep>) -> bool
    decreases steps.len(),
{
    steps.len() == 0 || (spec_step_allowed(cur, steps[0]) && spec_trace_ok(
        spec_step_next(cur, steps[0]),
        steps.skip(1),
    ))
}

/// While the slot is occupied, no begin can fire before a settle: any begin
/// in a run starting busy is preceded by a settle.
pub proof fn lemma_busy_until_settle(cur: Option<Seq<char>>, steps: Seq<WorkerStep>, j: int)
    requires
        spec_trace_ok(cur, steps),
        cur is Some,
        0 <= j < steps.len(),
        steps[j] is Begin,
    ensures
        exists|k: int| 0 <= k < j && steps[k] is Settle,
    decreases j,
{
    assert(spec_step_allowed(cur, steps[0]));
    if steps[0] is Settle {
        assert(steps[0] is Settle && 0 <= 0 < j);
    } else {
        assert(steps[0] is Progress);
        assert(spec_step_next(cur, steps[0]) == cur);
        assert(steps.skip(1)[j - 1] == steps[j]);
        lemma_busy_until_settle(cur, steps.skip(1), j - 1);
        let k = choose|k: int| 0 <= k < j - 1 && steps.skip(1)[k] is Settle;
        assert(steps[k + 1] is Settle);
    }
}

/// Worker serialization: in any allowed run, two uploads never overlap —
/// between the begin of one event and the begin of the next there is always
/// a settle that cleared the first event's slot.
pub proof fn lemma_worker_serialization(
    cur: Option<Seq<char>>,
    steps: Seq<WorkerStep>,
    i: int,
    j: int,
)
    requires
        spec_trace_ok(cur, steps),
        0 <= i < j < steps.len(),
        steps[i] is Begin,
        steps[j] is Begin,
    ensures
        exists|k: int| i < k < j && steps[k] is Settle,
    decreases i,
{
    if i == 0 {
        assert(spec_step_next(cur, steps[0]) is Some);
        assert(steps.skip(1)[j - 1] == steps[j]);
        lemma_busy_until_settle(spec_step_next(cur, steps[0]), steps.skip(1), j - 1);
        let k = choose|k: int| 0 <= k < j - 1 && steps.skip(1)[k] is Settle;
        assert(steps[k + 1] is Settle && i < k + 1 < j);
    } else {
        assert(steps.skip(1)[i - 1] == steps[i]);
        assert(steps.skip(1)[j - 1] == steps[j]);
        lemma_worker_serialization(spec_step_next(cur, steps[0]), steps.skip(1), i - 1, j - 1);
        let k = choose|k: int| i - 1 < k < j - 1 && steps.skip(1)[k] is Settle;
        assert(steps[k + 1] is Settle && i < k + 1 < j);
    }
}

} // verus!
