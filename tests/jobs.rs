use vertd::format::{Conversion, ConverterFormat};
use vertd::job::{
    classify_line, input_path, output_path, parse_job_id, permanent_path, probed_bitrate, probed_fps, probed_frames,
    target_bitrate, ConversionJob, JobState, ProgressEvent, DEFAULT_BITRATE, DEFAULT_FPS,
};
use vertd::retention::{CleanupTask, RetentionScheduler};
use vertd::session::{
    classify_outcome, default_keep_metadata, CancelOutcome, Message, Outcome, ProgressUpdate, Session,
};
use vertd::state::{admin_allowed, permanent_link, AppState, DownloadError, KeepError};

const J: u128 = 0x67e5_5044_10b1_426f_9247_bb68_0e5f_e0c8;
const J_TEXT: &str = "67e55044-10b1-426f-9247-bb680e5fe0c8";

fn registry_with(from: &str) -> AppState<u32> {
    let mut state: AppState<u32> = AppState::default();
    state.insert(ConversionJob::with_id(J, "T".to_string(), from.to_string())).unwrap();
    state
}

fn started(state: &mut AppState<u32>, session: &mut Session, to: &str) {
    let plan = session.start_job(state, "T", J, to).unwrap();
    state.set_active_process(plan.job_id, 7);
}

#[test]
fn start_records_target_and_converts() {
    let mut state = registry_with("mp4");
    let mut session = Session::new();
    let plan = session.start_job(&mut state, "T", J, "gif").unwrap();
    assert_eq!(plan.job_id, J);
    assert_eq!(plan.conversion, Conversion::new(ConverterFormat::MP4, ConverterFormat::GIF));
    assert_eq!(plan.from, "mp4");
    assert_eq!(plan.to, "gif");
    let job = state.get(J).unwrap();
    assert_eq!(job.to, Some("gif".to_string()));
    assert_eq!(job.state, JobState::Converting);
    assert!(!session.is_idle());
}

#[test]
fn second_start_is_refused_as_completed() {
    let mut state = registry_with("mp4");
    let mut session = Session::new();
    started(&mut state, &mut session, "gif");
    let resolution = session.on_finished(&mut state, &mut RetentionScheduler::new(), 0, Some(10));
    assert_eq!(resolution.outcome, Outcome::Completed);
    let mut other = Session::new();
    assert_eq!(other.start_job(&mut state, "T", J, "mkv").err(), Some("job already completed".to_string()));
    assert_eq!(state.get(J).unwrap().to, Some("gif".to_string()));
}

#[test]
fn start_errors_in_order() {
    let mut state = registry_with("mp4");
    let mut session = Session::new();
    assert_eq!(session.start_job(&mut state, "T", J + 1, "gif").err(), Some("job not found".to_string()));
    assert_eq!(session.start_job(&mut state, "X", J, "gif").err(), Some("invalid token".to_string()));
    assert_eq!(session.start_job(&mut state, "T", J, "png").err(), Some("invalid output format".to_string()));
    let mut bad_source = registry_with("bmp");
    assert_eq!(
        session.start_job(&mut bad_source, "T", J, "gif").err(),
        Some("invalid input format".to_string())
    );
    assert!(session.is_idle());
    assert_eq!(state.get(J).unwrap().state, JobState::Uploaded);
    assert_eq!(state.get(J).unwrap().to, None);
}

#[test]
fn rmvb_target_is_refused_before_any_process() {
    let mut state = registry_with("mp4");
    let mut session = Session::new();
    assert_eq!(
        session.start_job(&mut state, "T", J, "rmvb").err(),
        Some("failed to convert: Encoding to RM/RMVB is not supported".to_string())
    );
    assert!(session.is_idle());
    assert_eq!(state.get(J).unwrap().state, JobState::Uploaded);
    assert_eq!(state.take_active_process(J), None);
}

#[test]
fn cancel_with_wrong_token_leaves_job_running() {
    let mut state = registry_with("mp4");
    let mut session = Session::new();
    started(&mut state, &mut session, "webm");
    match session.on_cancel(&mut state, "T-prime", J) {
        CancelOutcome::Rejected { reply } => assert_eq!(
            reply,
            Message::Error { message: "invalid token or job id for cancellation".to_string() }
        ),
        CancelOutcome::Cancelled { .. } => panic!("cancelled with a wrong token"),
    }
    match session.on_cancel(&mut state, "T", J + 1) {
        CancelOutcome::Rejected { .. } => {}
        CancelOutcome::Cancelled { .. } => panic!("cancelled with a wrong job id"),
    }
    assert_eq!(state.get(J).unwrap().state, JobState::Converting);
    assert!(!session.is_idle());
    assert_eq!(state.take_active_process(J), Some(7));
}

#[test]
fn cancel_kills_removes_and_reports() {
    let mut state = registry_with("mp4");
    let mut session = Session::new();
    started(&mut state, &mut session, "webm");
    match session.on_cancel(&mut state, "T", J) {
        CancelOutcome::Cancelled { process, reply, input_path } => {
            assert_eq!(process, Some(7));
            assert_eq!(reply, Message::JobCancelled { job_id: J });
            assert_eq!(input_path, format!("input/{J_TEXT}.mp4"));
        }
        CancelOutcome::Rejected { .. } => panic!("refused a valid cancellation"),
    }
    assert!(state.get(J).is_none());
    assert_eq!(state.take_active_process(J), None);
    assert!(session.is_idle());
    assert!(!session.accepts(&Message::CancelJob { token: "T".to_string(), job_id: J }));
}

#[test]
fn progress_is_relayed_and_errors_buffered() {
    let mut state = registry_with("mp4");
    let mut session = Session::new();
    started(&mut state, &mut session, "mkv");
    assert_eq!(
        session.on_progress(ProgressEvent::FrameCount(12)),
        Some(Message::ProgressUpdate(ProgressUpdate::Frame(12)))
    );
    assert_eq!(
        session.on_progress(ProgressEvent::FpsSample("29.97".to_string())),
        Some(Message::ProgressUpdate(ProgressUpdate::FPS("29.97".to_string())))
    );
    assert_eq!(session.on_progress(ProgressEvent::ErrorLine("bad frame".to_string())), None);
    assert_eq!(session.on_progress(ProgressEvent::ErrorLine("giving up".to_string())), None);
    let mut scheduler = RetentionScheduler::new();
    let r = session.on_finished(&mut state, &mut scheduler, 100, Some(0));
    assert_eq!(r.outcome, Outcome::Failed);
    assert_eq!(r.reply, Message::Error { message: "bad frame\ngiving up".to_string() });
    let report = r.failure.unwrap();
    assert_eq!(report.logs, "bad frame\ngiving up");
    assert_eq!((report.job_id, report.from.as_str(), report.to.as_str()), (J, "mp4", "mkv"));
    assert_eq!(r.process, Some(7));
    assert_eq!(state.get(J).unwrap().state, JobState::Failed);
    assert_eq!(scheduler.len(), 2);
}

#[test]
fn empty_output_fails_even_after_clean_exit() {
    assert_eq!(classify_outcome(None), Outcome::Failed);
    assert_eq!(classify_outcome(Some(0)), Outcome::Failed);
    assert_eq!(classify_outcome(Some(1)), Outcome::Completed);
    let mut state = registry_with("mp4");
    let mut session = Session::new();
    started(&mut state, &mut session, "mkv");
    let r = session.on_finished(&mut state, &mut RetentionScheduler::new(), 0, None);
    assert_eq!(r.reply, Message::Error { message: "No error logs.".to_string() });
    assert_eq!(r.failure.unwrap().logs, "");
}

#[test]
fn finished_conversion_reports_and_schedules_cleanup() {
    let mut state = registry_with("mp4");
    let mut session = Session::new();
    started(&mut state, &mut session, "mkv");
    let mut scheduler = RetentionScheduler::new();
    let r = session.on_finished(&mut state, &mut scheduler, 1000, Some(2048));
    assert_eq!(r.reply, Message::JobFinished { job_id: J });
    assert!(r.failure.is_none());
    assert_eq!(state.get(J).unwrap().state, JobState::Completed);
    assert!(scheduler.take_due(1014).is_empty());
    let due = scheduler.take_due(1015);
    assert_eq!(due.len(), 1);
    assert_eq!(due[0].due, 1015);
    match &due[0].task {
        CleanupTask::RemoveInput { id, path } => {
            assert_eq!(*id, J);
            assert_eq!(path, &format!("input/{J_TEXT}.mp4"));
        }
        other => panic!("unexpected task {other:?}"),
    }
    assert_eq!(scheduler.len(), 1);
    let due = scheduler.take_due(4600);
    match &due[0].task {
        CleanupTask::ExpireOutput { id, path } => {
            assert_eq!(*id, J);
            assert_eq!(path, &format!("output/{J_TEXT}.mkv"));
        }
        other => panic!("unexpected task {other:?}"),
    }
    assert_eq!(scheduler.len(), 0);
}

#[test]
fn start_failure_marks_job_failed() {
    let mut state = registry_with("mp4");
    let mut session = Session::new();
    started(&mut state, &mut session, "mkv");
    let m = session.start_failed(&mut state, "no encoder");
    assert_eq!(m, Message::Error { message: "failed to convert: no encoder".to_string() });
    assert_eq!(state.get(J).unwrap().state, JobState::Failed);
    assert!(session.is_idle());
}

#[test]
fn session_accepts_by_state() {
    let start = Message::StartJob {
        token: "T".to_string(),
        job_id: J,
        to: "gif".to_string(),
        speed: vertd::speed::ConversionSpeed::Fast,
        keep_metadata: default_keep_metadata(),
    };
    let cancel = Message::CancelJob { token: "T".to_string(), job_id: J };
    let session = Session::new();
    assert!(session.accepts(&start));
    assert!(!session.accepts(&cancel));
    assert!(!session.accepts(&Message::JobFinished { job_id: J }));
    assert!(default_keep_metadata());
}

#[test]
fn download_is_single_use() {
    let mut state = registry_with("mp4");
    let mut session = Session::new();
    started(&mut state, &mut session, "mkv");
    session.on_finished(&mut state, &mut RetentionScheduler::new(), 0, Some(5));
    assert_eq!(state.download(J, "T"), Ok(format!("output/{J_TEXT}.mkv")));
    assert_eq!(state.download(J, "T"), Err(DownloadError::JobNotFound));
}

#[test]
fn download_errors() {
    let mut state = registry_with("mp4");
    assert_eq!(state.download(J, "T"), Err(DownloadError::IncompleteHandshake));
    assert_eq!(state.download(J, "X"), Err(DownloadError::InvalidToken));
    assert_eq!(state.download(J + 1, "T"), Err(DownloadError::JobNotFound));
    assert!(state.get(J).is_some());
    assert_eq!(DownloadError::InvalidToken.message(), "invalid token");
    assert_eq!(DownloadError::FilesystemError("disk".to_string()).message(), "filesystem error: disk");
}

#[test]
fn plan_download_parses_id_and_guesses_type() {
    let mut state = registry_with("mp4");
    let mut session = Session::new();
    started(&mut state, &mut session, "mp4");
    session.on_finished(&mut state, &mut RetentionScheduler::new(), 0, Some(5));
    assert_eq!(state.plan_download("not-a-uuid", "T", None).err(), Some(DownloadError::JobNotFound));
    let plan = state.plan_download(J_TEXT, "T", Some("")).ok().unwrap();
    assert_eq!(plan.path, format!("output/{J_TEXT}.mp4"));
    assert_eq!(plan.content_type, "video/mp4");
    assert!(state.get(J).is_none());
    let admin = state.plan_download("abc.mp4", "pw", Some("pw")).ok().unwrap();
    assert_eq!(admin.path, "permanent/abc.mp4");
    assert_eq!(admin.content_type, "video/mp4");
}

#[test]
fn admin_password_rules() {
    assert!(admin_allowed(Some("pw"), "pw"));
    assert!(!admin_allowed(Some("pw"), "px"));
    assert!(!admin_allowed(Some(""), ""));
    assert!(!admin_allowed(Some("supersecret"), "supersecret"));
    assert!(!admin_allowed(None, "pw"));
}

#[test]
fn keep_only_for_failed_jobs() {
    let mut state = registry_with("mp4");
    assert_eq!(state.keep(J + 1, "T").err(), Some(KeepError::JobNotFound));
    assert_eq!(state.keep(J, "T").err(), Some(KeepError::NotErrored));
    let mut session = Session::new();
    started(&mut state, &mut session, "mkv");
    assert_eq!(state.keep(J, "T").err(), Some(KeepError::NotErrored));
    session.on_finished(&mut state, &mut RetentionScheduler::new(), 0, Some(0));
    assert_eq!(state.keep(J, "X").err(), Some(KeepError::InvalidToken));
    let plan = state.keep(J, "T").ok().unwrap();
    assert_eq!(plan.id, J);
    assert_eq!(plan.from, "mp4");
    assert_eq!(plan.current_path, format!("input/{J_TEXT}.mp4"));
    assert_eq!(plan.permanent_path, format!("permanent/{J_TEXT}.mp4"));
    assert_eq!(state.get(J).unwrap().state, JobState::Failed);
    assert_eq!(KeepError::NotErrored.message(), "job is not in an error state");
}

#[test]
fn keep_refused_on_completed_job() {
    let mut state = registry_with("mp4");
    let mut session = Session::new();
    started(&mut state, &mut session, "mkv");
    session.on_finished(&mut state, &mut RetentionScheduler::new(), 0, Some(3));
    assert_eq!(state.keep(J, "T").err(), Some(KeepError::NotErrored));
}

#[test]
fn paths_and_ids() {
    assert_eq!(input_path(J, "mp4"), format!("input/{J_TEXT}.mp4"));
    assert_eq!(output_path(J, "gif"), format!("output/{J_TEXT}.gif"));
    assert_eq!(permanent_path(J, "mov"), format!("permanent/{J_TEXT}.mov"));
    assert_eq!(parse_job_id(J_TEXT), Some(J));
    assert_eq!(parse_job_id("nope"), None);
    assert_eq!(
        permanent_link("https://x.example", J, "mp4", "pw"),
        format!("https://x.example/api/download/{J_TEXT}.mp4/pw")
    );
}

#[test]
fn new_jobs_are_fresh_and_distinct() {
    let a = ConversionJob::new("T".to_string(), "mp4".to_string());
    let b = ConversionJob::new("T".to_string(), "mp4".to_string());
    assert_ne!(a.id(), b.id());
    assert_eq!(a.auth(), "T");
    assert_eq!(a.state, JobState::Uploaded);
    assert!(!a.completed());
    assert!(!a.errored());
}

#[test]
fn probe_output_reading() {
    assert_eq!(probed_bitrate("1234567\n"), 1234567);
    assert_eq!(probed_bitrate("N/A\n"), DEFAULT_BITRATE);
    assert_eq!(probed_bitrate(""), DEFAULT_BITRATE);
    assert_eq!(target_bitrate(4_000_000), 10_000_000);
    assert_eq!(target_bitrate(3), 7);
    assert_eq!(target_bitrate(u64::MAX), u64::MAX);
    assert_eq!(probed_frames(" 300 \n"), Some(300));
    assert_eq!(probed_frames("N/A"), None);
}

#[test]
fn registry_caches_probes_once() {
    let mut state = registry_with("mp4");
    assert_eq!(state.cached_bitrate(J), None);
    state.record_bitrate(J, 100);
    state.record_bitrate(J, 200);
    assert_eq!(state.cached_bitrate(J), Some(100));
    state.record_total_frames(J, 50);
    assert_eq!(state.cached_total_frames(J), Some(50));
    assert_eq!(state.remove(J).map(|j| j.id), Some(J));
    assert_eq!(state.cached_bitrate(J), None);
}

#[test]
fn progress_lines() {
    assert_eq!(classify_line("frame=120"), Some(ProgressEvent::FrameCount(120)));
    assert_eq!(classify_line("fps=29.97"), Some(ProgressEvent::FpsSample("29.97".to_string())));
    assert_eq!(classify_line("bitrate=1200.0kbits/s"), None);
    assert_eq!(classify_line("progress=end"), None);
    assert_eq!(classify_line("frame=abc"), None);
    assert_eq!(classify_line("   "), None);
    assert_eq!(
        classify_line("Error while decoding stream #0:0"),
        Some(ProgressEvent::ErrorLine("Error while decoding stream #0:0".to_string()))
    );
    assert_eq!(
        classify_line("Key = value"),
        Some(ProgressEvent::ErrorLine("Key = value".to_string()))
    );
}

#[test]
fn frame_rate_reading() {
    assert_eq!(probed_fps("30000/1001\n"), 29);
    assert_eq!(probed_fps("25/1"), 25);
    assert_eq!(probed_fps("60"), 60);
    assert_eq!(probed_fps("0/0"), DEFAULT_FPS);
    assert_eq!(probed_fps("N/A"), DEFAULT_FPS);
    assert_eq!(probed_fps(""), DEFAULT_FPS);
    assert_eq!(probed_fps("99999999999/1"), u32::MAX);
}

#[test]
fn insert_refuses_a_taken_id() {
    let mut state = registry_with("mp4");
    let refused = state.insert(ConversionJob::with_id(J, "U".to_string(), "mkv".to_string()));
    let back = refused.err().unwrap();
    assert_eq!((back.id, back.auth.as_str(), back.from.as_str()), (J, "U", "mkv"));
    let kept = state.get(J).unwrap();
    assert_eq!((kept.auth.as_str(), kept.from.as_str()), ("T", "mp4"));
    assert!(state.insert(ConversionJob::with_id(J + 1, "U".to_string(), "mkv".to_string())).is_ok());
    assert_eq!(state.get(J + 1).unwrap().auth, "U");
}

#[test]
fn probe_output_with_sign_and_unicode_space() {
    assert_eq!(probed_bitrate("+5"), 5);
    assert_eq!(probed_frames("+5"), Some(5));
    assert_eq!(probed_frames("+"), None);
    assert_eq!(probed_frames("-5"), None);
    assert_eq!(probed_bitrate("\u{a0}\u{2003}42\u{3000}"), 42);
    assert_eq!(probed_frames("\u{85}7\u{2028}"), Some(7));
}
