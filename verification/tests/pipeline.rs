use biliupmgr::config::{default_limit, default_line, ManagerConfig, RoomConfig};
use biliupmgr::db::{BiliupDao, StoreError};
use biliupmgr::queue::JobQueue;
use biliupmgr::recorder::{get_streamer_name, RecorderEvent, RecorderEventData};
use biliupmgr::upload::{
    cover_needs_upload, decide_submit, finish_job, parse_line, prepare_job, JobError, Line,
    SubmitPlan,
};
use biliupmgr::webhook::{recorder, retry, status, AppState, IngestOutcome, RetryOutcome};
use std::collections::HashMap;

fn mk_event(id: &str, room_id: u64, fot: &str, duration_ms: u64) -> RecorderEvent {
    RecorderEvent {
        event_id: id.to_string(),
        event_type: "FileClosed".to_string(),
        event_data: RecorderEventData {
            room_id,
            name: "streamer".to_string(),
            title: "night show".to_string(),
            relative_path: format!("rec/{}.flv", id),
            file_open_time: fot.to_string(),
            file_size: 4096,
            duration_ms,
        },
    }
}

fn mk_room(room_id: u64) -> RoomConfig {
    RoomConfig {
        room_id,
        user_cookie: "cookies.json".to_string(),
        studio_title: "%T %d".to_string(),
        part_title: "%T-%t".to_string(),
        cover: "cover.png".to_string(),
        description: "auto upload".to_string(),
        tags: "live,record".to_string(),
        tid: 171,
    }
}

fn mk_config(line: &str, rooms: Vec<RoomConfig>) -> ManagerConfig {
    let mut table = HashMap::new();
    for r in rooms {
        table.insert(r.room_id, r);
    }
    ManagerConfig {
        version: 1,
        host: "127.0.0.1".to_string(),
        port: 23380,
        rec_dir: "/rec".to_string(),
        limit: default_limit(),
        line: line.to_string(),
        rooms: table,
    }
}

#[test]
fn format_title_dash_name() {
    let e = mk_event("e1", 1, "2024-05-06T12:30:45+08:00", 60_000);
    assert_eq!(e.event_data.format("%T-%N"), "night show-streamer");
}

#[test]
fn format_unmatched_directive_is_literal() {
    let e = mk_event("e1", 1, "2024-05-06T12:30:45+08:00", 60_000);
    assert_eq!(e.event_data.format("%z"), "%z");
}

#[test]
fn format_trailing_percent_is_literal() {
    let e = mk_event("e1", 1, "2024-05-06T12:30:45+08:00", 60_000);
    assert_eq!(e.event_data.format("%T%"), "night show%");
}

#[test]
fn format_drops_text_after_last_directive() {
    let e = mk_event("e1", 1, "2024-05-06T12:30:45+08:00", 60_000);
    assert_eq!(e.event_data.format("a-%T!end"), "a-night show");
}

#[test]
fn format_checked_rejects_bad_timestamp() {
    let e = mk_event("e1", 1, "yesterday evening", 60_000);
    assert!(e.event_data.format_checked("%T").is_none());
    let ok = mk_event("e2", 1, "2024-05-06T12:30:45+08:00", 60_000);
    assert_eq!(ok.event_data.format_checked("%T").unwrap(), "night show");
}

#[test]
fn date_string_rolls_back_before_four() {
    let e = mk_event("e1", 1, "2024-05-06T03:00:00+08:00", 60_000);
    assert_eq!(e.event_data.format("%d"), "2024.05.05");
}

#[test]
fn date_string_no_rollback_at_four() {
    let e = mk_event("e1", 1, "2024-05-06T04:00:00+08:00", 60_000);
    assert_eq!(e.event_data.format("%d"), "2024.05.06");
}

#[test]
fn date_string_rollback_crosses_leap_month() {
    let e = mk_event("e1", 1, "2024-03-01T01:00:00+08:00", 60_000);
    assert_eq!(e.event_data.format("%d"), "2024.02.29");
}

#[test]
fn time_string_keeps_east_eight() {
    let e = mk_event("e1", 1, "2024-05-06T12:30:45+08:00", 60_000);
    assert_eq!(e.event_data.format("%t"), "20240506-123045");
}

#[test]
fn time_string_converts_other_offsets() {
    let e = mk_event("e1", 1, "2024-05-06T20:00:00-04:00", 60_000);
    assert_eq!(e.event_data.format("%t"), "20240507-080000");
}

#[test]
fn add_event_rejects_duplicate_id() {
    let mut dao = BiliupDao::new();
    let e = mk_event("e1", 1, "2024-05-06T12:30:45+08:00", 60_000);
    assert!(dao.add_event(&e).is_ok());
    let again = mk_event("e1", 2, "2024-05-06T13:00:00+08:00", 90_000);
    assert!(matches!(dao.add_event(&again), Err(StoreError::DuplicateKey)));
    let stored = dao.get_event("e1").unwrap();
    assert_eq!(stored.event_data.room_id, 1);
}

#[test]
fn ingest_ignores_other_event_types() {
    let mut dao = BiliupDao::new();
    let mut queue = JobQueue::new(16);
    let mut e = mk_event("e1", 1, "2024-05-06T12:30:45+08:00", 60_000);
    e.event_type = "FileOpening".to_string();
    assert!(matches!(
        recorder(&mut dao, &mut queue, e, 1_700_000_000),
        IngestOutcome::Ignored
    ));
    assert_eq!(queue.len(), 0);
    assert!(dao.get_event("e1").is_none());
    assert!(dao.get_unfinished_uploads().is_empty());
}

#[test]
fn ingest_ignores_short_recordings() {
    let mut dao = BiliupDao::new();
    let mut queue = JobQueue::new(16);
    let e = mk_event("e1", 1, "2024-05-06T12:30:45+08:00", 9_999);
    assert!(matches!(
        recorder(&mut dao, &mut queue, e, 1_700_000_000),
        IngestOutcome::Ignored
    ));
    assert_eq!(queue.len(), 0);
    assert!(dao.get_event("e1").is_none());
}

#[test]
fn ingest_accepts_persists_and_enqueues() {
    let mut dao = BiliupDao::new();
    let mut queue = JobQueue::new(16);
    let e = mk_event("e1", 1, "2024-05-06T12:30:45+08:00", 60_000);
    assert!(matches!(
        recorder(&mut dao, &mut queue, e, 1_700_000_000),
        IngestOutcome::Accepted
    ));
    assert_eq!(queue.len(), 1);
    let queued = queue.pop().unwrap();
    assert_eq!(queued.event_id, "e1");
    let pending = dao.get_unfinished_uploads();
    assert_eq!(pending.len(), 1);
    assert_eq!(pending[0].event_id, "e1");
    assert_eq!(pending[0].created_at, 1_700_000_000);
    assert_eq!(pending[0].relative_path, "rec/e1.flv");
    assert_eq!(pending[0].file_size, 4096);
}

#[test]
fn ingest_duplicate_is_a_distinct_failure() {
    let mut dao = BiliupDao::new();
    let mut queue = JobQueue::new(16);
    let e = mk_event("e1", 1, "2024-05-06T12:30:45+08:00", 60_000);
    assert!(matches!(
        recorder(&mut dao, &mut queue, e, 1_700_000_000),
        IngestOutcome::Accepted
    ));
    let again = mk_event("e1", 1, "2024-05-06T12:30:45+08:00", 60_000);
    assert!(matches!(
        recorder(&mut dao, &mut queue, again, 1_700_000_001),
        IngestOutcome::Failed(StoreError::DuplicateKey)
    ));
    assert_eq!(queue.len(), 1);
}

#[test]
fn ingest_hands_event_back_when_queue_full() {
    let mut dao = BiliupDao::new();
    let mut queue = JobQueue::new(1);
    let a = mk_event("a", 1, "2024-05-06T12:30:45+08:00", 60_000);
    let b = mk_event("b", 1, "2024-05-06T13:30:45+08:00", 60_000);
    assert!(matches!(
        recorder(&mut dao, &mut queue, a, 1),
        IngestOutcome::Accepted
    ));
    match recorder(&mut dao, &mut queue, b, 2) {
        IngestOutcome::QueueFull(e) => assert_eq!(e.event_id, "b"),
        _ => panic!("expected a full queue"),
    }
    assert_eq!(queue.len(), 1);
    assert_eq!(dao.get_unfinished_uploads().len(), 2);
}

#[test]
fn queue_is_fifo() {
    let mut queue = JobQueue::new(16);
    let a = mk_event("a", 1, "2024-05-06T12:30:45+08:00", 60_000);
    let b = mk_event("b", 1, "2024-05-06T13:30:45+08:00", 60_000);
    assert!(queue.push(a).is_ok());
    assert!(queue.push(b).is_ok());
    assert_eq!(queue.pop().unwrap().event_id, "a");
    assert_eq!(queue.pop().unwrap().event_id, "b");
    assert!(queue.pop().is_none());
}

#[test]
fn append_when_same_session_already_finished() {
    let mut dao = BiliupDao::new();
    let mut queue = JobQueue::new(16);
    let a = mk_event("a", 7, "2024-05-06T12:30:45+08:00", 60_000);
    assert!(matches!(
        recorder(&mut dao, &mut queue, a, 1),
        IngestOutcome::Accepted
    ));
    let mut state = AppState::new();
    state.begin_job("a");
    assert!(finish_job(&mut dao, &mut state, "a", 77, "night show", 10).is_ok());
    let b = mk_event("b", 7, "2024-05-06T12:30:45+08:00", 90_000);
    assert!(matches!(
        recorder(&mut dao, &mut queue, b.clone(), 2),
        IngestOutcome::Accepted
    ));
    assert_eq!(decide_submit(&dao, &b.event_data), SubmitPlan::Append(77));
}

#[test]
fn create_when_no_finished_session_matches() {
    let mut dao = BiliupDao::new();
    let mut queue = JobQueue::new(16);
    let a = mk_event("a", 7, "2024-05-06T12:30:45+08:00", 60_000);
    assert!(matches!(
        recorder(&mut dao, &mut queue, a.clone(), 1),
        IngestOutcome::Accepted
    ));
    // still pending: not a dedup target
    assert_eq!(decide_submit(&dao, &a.event_data), SubmitPlan::Create);
    let other = mk_event("c", 8, "2024-05-06T12:30:45+08:00", 60_000);
    assert_eq!(decide_submit(&dao, &other.event_data), SubmitPlan::Create);
}

#[test]
fn finish_upload_requires_a_pending_job() {
    let mut dao = BiliupDao::new();
    assert!(matches!(
        dao.finish_upload("ghost", 1, "t", 0),
        Err(StoreError::NotFound)
    ));
}

#[test]
fn finished_job_is_immutable_history() {
    let mut dao = BiliupDao::new();
    let mut queue = JobQueue::new(16);
    let a = mk_event("a", 7, "2024-05-06T12:30:45+08:00", 60_000);
    recorder(&mut dao, &mut queue, a, 1);
    assert!(dao.finish_upload("a", 77, "t", 10).is_ok());
    assert!(matches!(
        dao.finish_upload("a", 78, "t2", 11),
        Err(StoreError::NotFound)
    ));
}

#[test]
fn history_reports_only_the_trailing_day() {
    let mut dao = BiliupDao::new();
    let mut queue = JobQueue::new(16);
    let now = 1_700_000_000;
    let old = mk_event("old", 1, "2024-05-06T12:30:45+08:00", 60_000);
    recorder(&mut dao, &mut queue, old, now - 100_000);
    dao.finish_upload("old", 70, "old title", now - 99_000).unwrap();
    let fresh = mk_event("new", 1, "2024-05-07T12:30:45+08:00", 60_000);
    recorder(&mut dao, &mut queue, fresh, now - 100);
    dao.finish_upload("new", 71, "new title", now - 50).unwrap();
    let history = dao.get_finished_uploads(now);
    assert_eq!(history.len(), 1);
    assert_eq!(history[0].avid, Some(71));
    assert_eq!(history[0].finished_at, Some(now - 50));
    assert_eq!(history[0].relative_path, "rec/new.flv");
}

#[test]
fn retry_while_busy_changes_nothing() {
    let mut dao = BiliupDao::new();
    let mut queue = JobQueue::new(16);
    let a = mk_event("a", 1, "2024-05-06T12:30:45+08:00", 60_000);
    recorder(&mut dao, &mut queue, a, 1);
    let mut state = AppState::new();
    state.begin_job("a");
    assert_eq!(retry(&state, &dao, &mut queue, "a"), RetryOutcome::Busy);
    assert_eq!(queue.len(), 1);
}

#[test]
fn retry_unknown_event_is_distinct() {
    let dao = BiliupDao::new();
    let mut queue = JobQueue::new(16);
    let state = AppState::new();
    assert_eq!(
        retry(&state, &dao, &mut queue, "ghost"),
        RetryOutcome::NoSuchEvent
    );
    assert_eq!(queue.len(), 0);
}

#[test]
fn retry_requeues_a_stored_event() {
    let mut dao = BiliupDao::new();
    let mut queue = JobQueue::new(16);
    let a = mk_event("a", 1, "2024-05-06T12:30:45+08:00", 60_000);
    recorder(&mut dao, &mut queue, a, 1);
    queue.pop().unwrap();
    let state = AppState::new();
    assert_eq!(retry(&state, &dao, &mut queue, "a"), RetryOutcome::Requeued);
    assert_eq!(queue.pop().unwrap().event_id, "a");
}

#[test]
fn retry_reports_a_full_queue() {
    let mut dao = BiliupDao::new();
    let mut queue = JobQueue::new(1);
    let a = mk_event("a", 1, "2024-05-06T12:30:45+08:00", 60_000);
    recorder(&mut dao, &mut queue, a, 1);
    let state = AppState::new();
    assert_eq!(retry(&state, &dao, &mut queue, "a"), RetryOutcome::Failed);
    assert_eq!(queue.len(), 1);
}

#[test]
fn status_is_absent_on_storage_failure() {
    let mut state = AppState::new();
    state.begin_job("a");
    assert!(status(&state, None).is_none());
}

#[test]
fn status_reports_current_and_pending() {
    let mut state = AppState::new();
    state.begin_job("a");
    state.add_progress(1000);
    state.add_progress(24);
    let mut dao = BiliupDao::new();
    let mut queue = JobQueue::new(16);
    let a = mk_event("a", 1, "2024-05-06T12:30:45+08:00", 60_000);
    recorder(&mut dao, &mut queue, a, 1);
    let reply = status(&state, Some(dao.get_unfinished_uploads())).unwrap();
    assert_eq!(reply.current.as_deref(), Some("a"));
    assert_eq!(reply.uploaded, 1024);
    assert_eq!(reply.uploads.len(), 1);
    assert_eq!(reply.uploads[0].event_id, "a");
}

#[test]
fn clearing_the_slot_resets_progress() {
    let mut state = AppState::new();
    state.begin_job("a");
    state.add_progress(7);
    state.clear();
    assert!(!state.is_busy());
    let reply = status(&state, Some(Vec::new())).unwrap();
    assert_eq!(reply.current, None);
    assert_eq!(reply.uploaded, 0);
}

#[test]
fn parse_line_knows_every_configured_name() {
    assert_eq!(parse_line("bda2"), Some(Line::Bda2));
    assert_eq!(parse_line("kodo"), Some(Line::Kodo));
    assert_eq!(parse_line("ws"), Some(Line::Ws));
    assert_eq!(parse_line("qn"), Some(Line::Qn));
    assert_eq!(parse_line("cos"), Some(Line::Cos));
    assert_eq!(parse_line("cos-internal"), Some(Line::CosInternal));
    assert_eq!(parse_line("AUTO"), Some(Line::Auto));
    assert_eq!(parse_line("auto"), None);
}

#[test]
fn prepare_job_rejects_unknown_room() {
    let config = mk_config("AUTO", vec![]);
    let e = mk_event("e1", 1, "2024-05-06T12:30:45+08:00", 60_000);
    assert!(matches!(prepare_job(&config, &e), Err(JobError::MissingRoom)));
}

#[test]
fn prepare_job_rejects_unknown_line() {
    let config = mk_config("fastest", vec![mk_room(1)]);
    let e = mk_event("e1", 1, "2024-05-06T12:30:45+08:00", 60_000);
    assert!(matches!(prepare_job(&config, &e), Err(JobError::UnknownLine)));
}

#[test]
fn prepare_job_rejects_bad_timestamp() {
    let config = mk_config("AUTO", vec![mk_room(1)]);
    let e = mk_event("e1", 1, "not a timestamp", 60_000);
    assert!(matches!(prepare_job(&config, &e), Err(JobError::BadTimestamp)));
}

#[test]
fn prepare_job_assembles_the_submission() {
    let config = mk_config("bda2", vec![mk_room(1)]);
    let e = mk_event("e1", 1, "2024-05-06T03:00:00+08:00", 60_000);
    let job = prepare_job(&config, &e).unwrap();
    assert_eq!(job.line, Line::Bda2);
    assert_eq!(job.limit, 3);
    assert_eq!(job.relative_path, "rec/e1.flv");
    assert_eq!(job.studio.title, "night show 2024.05.05");
    assert_eq!(job.part_title, "night show-20240506-030000");
    assert_eq!(job.studio.source, "https://live.bilibili.com/1");
    assert_eq!(job.studio.cover, "cover.png");
    assert_eq!(job.studio.tid, 171);
    assert_eq!(job.studio.copyright, 2);
    assert_eq!(job.studio.desc, "auto upload");
    assert_eq!(job.studio.tag, "live,record");
}

#[test]
fn cover_upload_only_for_local_files() {
    assert!(cover_needs_upload("cover.png"));
    assert!(cover_needs_upload("jpg"));
    assert!(!cover_needs_upload("http://example.test/c.png"));
    assert!(!cover_needs_upload("https://example.test/c.png"));
}

#[test]
fn finish_job_clears_the_slot_even_on_store_errors() {
    let mut dao = BiliupDao::new();
    let mut state = AppState::new();
    state.begin_job("ghost");
    state.add_progress(9);
    assert!(matches!(
        finish_job(&mut dao, &mut state, "ghost", 1, "t", 0),
        Err(StoreError::NotFound)
    ));
    assert!(!state.is_busy());
}

#[test]
fn defaults_match_the_reference_sizing() {
    assert_eq!(default_limit(), 3);
    assert_eq!(default_line(), "AUTO");
}

#[test]
fn streamer_names_are_configured_per_room() {
    assert_eq!(get_streamer_name(3), "3号直播间");
    assert_eq!(get_streamer_name(4), "");
}
