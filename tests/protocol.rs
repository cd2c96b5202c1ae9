use image_lambda::image_task::{grayscale, ImageTask, ParseError, TaskType};
use image_lambda::lock::{
    batch_succeeded, read_decision, Action, Completion, Event, ReadDecision, Stage, TaskError,
    TaskSession,
};
use std::io::Cursor;

fn task(key: &str, token: &str, kind: &str) -> ImageTask {
    ImageTask::from_record_fields(
        Some(kind.to_string()),
        Some("bucket".to_string()),
        Some(key.to_string()),
        Some(token.to_string()),
    )
    .unwrap()
}

fn png_bytes() -> Vec<u8> {
    let img = image::RgbImage::from_pixel(2, 2, image::Rgb([200, 40, 10]));
    let mut buf = Vec::new();
    image::DynamicImage::ImageRgb8(img)
        .write_to(&mut Cursor::new(&mut buf), image::ImageFormat::Png)
        .unwrap();
    buf
}

fn stored(mut t: ImageTask, processing: bool) -> ImageTask {
    t.processing = processing;
    t
}

/// Drives a session against an in-memory lock record and destination
/// object; the source object holds `input`.
fn run(
    session: &mut TaskSession,
    record: &mut Option<ImageTask>,
    input: &[u8],
    output: &mut Option<Vec<u8>>,
    clears: &mut usize,
) -> Result<Completion, TaskError> {
    let mut action = Action::CheckClock;
    for _ in 0..100 {
        let event = match action {
            Action::CheckClock => Event::Clock(1),
            Action::ReadRecord => Event::Record(record.clone()),
            Action::Sleep(_) => Event::Woke,
            Action::PutRecord => match record {
                Some(r) if r.processing => Event::PutConflict,
                _ => {
                    *record = Some(session.task.clone());
                    Event::PutDone
                }
            },
            Action::ReadInput => Event::InputRead(input.to_vec()),
            Action::WriteOutput(bytes) => {
                *output = Some(bytes);
                Event::OutputWritten
            }
            Action::DeleteOutput => match output.take() {
                Some(_) => Event::OutputDeleted,
                None => Event::OutputAbsent,
            },
            Action::ClearProcessing => {
                *clears += 1;
                if let Some(r) = record.as_mut() {
                    r.processing = false;
                }
                Event::Released
            }
            Action::Finish => return session.outcome().unwrap(),
        };
        action = session.step(event);
    }
    panic!("session did not finish");
}

#[test]
fn stale_tokens_are_rejected_without_write() {
    let rec = stored(task("a.png", "5", "ObjectCreated:Put"), false);
    for token in ["3", "5"] {
        let mut s = TaskSession::new(task("a.png", token, "ObjectCreated:Put"), 30, 2);
        assert!(matches!(s.step(Event::Clock(0)), Action::ReadRecord));
        assert!(matches!(s.step(Event::Record(Some(rec.clone()))), Action::Finish));
        assert_eq!(s.outcome(), Some(Ok(Completion::SkippedStale)));
    }
    let mut s = TaskSession::new(task("a.png", "6", "ObjectCreated:Put"), 30, 2);
    s.step(Event::Clock(0));
    assert!(matches!(s.step(Event::Record(Some(rec))), Action::PutRecord));
}

#[test]
fn newer_task_waits_for_busy_holder() {
    let rec = stored(task("a.png", "5", "ObjectCreated:Put"), true);
    let newer = task("a.png", "6", "ObjectCreated:Put");
    assert_eq!(read_decision(&newer, &Some(rec.clone())), ReadDecision::Wait);
    let mut s = TaskSession::new(newer, 30, 2);
    s.step(Event::Clock(0));
    assert!(matches!(s.step(Event::Record(Some(rec))), Action::Sleep(2)));
    assert!(matches!(s.step(Event::Woke), Action::CheckClock));
}

#[test]
fn race_has_one_winner() {
    let mut record: Option<ImageTask> = None;
    let mut a = TaskSession::new(task("a.png", "6", "ObjectRemoved:Delete"), 30, 2);
    let mut b = TaskSession::new(task("a.png", "7", "ObjectRemoved:Delete"), 30, 2);
    a.step(Event::Clock(0));
    b.step(Event::Clock(0));
    // Both read an empty store and try to write.
    assert!(matches!(a.step(Event::Record(record.clone())), Action::PutRecord));
    assert!(matches!(b.step(Event::Record(record.clone())), Action::PutRecord));
    // "7" writes first; the write of "6" then meets a record in progress.
    record = Some(b.task.clone());
    assert!(matches!(b.step(Event::PutDone), Action::DeleteOutput));
    assert!(matches!(a.step(Event::PutConflict), Action::Sleep(2)));
    a.step(Event::Woke);
    a.step(Event::Clock(1));
    assert!(matches!(a.step(Event::Record(record.clone())), Action::Finish));
    assert_eq!(a.outcome(), Some(Ok(Completion::SkippedStale)));
}

#[test]
fn release_follows_every_effect_outcome() {
    let failures = [Event::EffectFailed, Event::StoreFailed];
    for failure in failures {
        let mut s = TaskSession::new(task("a.png", "1", "ObjectCreated:Put"), 30, 2);
        s.step(Event::Clock(0));
        s.step(Event::Record(None));
        assert!(matches!(s.step(Event::PutDone), Action::ReadInput));
        assert!(matches!(s.step(failure.clone()), Action::ClearProcessing));
        assert!(matches!(s.step(Event::Released), Action::Finish));
        assert!(s.outcome().unwrap().is_err());
    }
    // Bytes that do not decode are an effect error, after release.
    let mut record = None;
    let mut output = None;
    let mut clears = 0;
    let mut s = TaskSession::new(task("a.png", "1", "ObjectCreated:Put"), 30, 2);
    let r = run(&mut s, &mut record, b"not an image", &mut output, &mut clears);
    assert_eq!(r, Err(TaskError::EffectFailed));
    assert_eq!(clears, 1);
    assert!(output.is_none());
    assert!(!record.unwrap().processing);
}

#[test]
fn failed_release_is_reported() {
    let mut s = TaskSession::new(task("a.png", "1", "ObjectRemoved:Delete"), 30, 2);
    s.step(Event::Clock(0));
    s.step(Event::Record(None));
    s.step(Event::PutDone);
    assert!(matches!(s.step(Event::OutputDeleted), Action::ClearProcessing));
    s.step(Event::StoreFailed);
    assert_eq!(s.outcome(), Some(Err(TaskError::StoreUnavailable)));
}

#[test]
fn deleting_absent_output_succeeds() {
    let mut record = None;
    let mut output: Option<Vec<u8>> = None;
    let mut clears = 0;
    let mut s = TaskSession::new(task("a.png", "1", "ObjectRemoved:Delete"), 30, 2);
    let r = run(&mut s, &mut record, b"", &mut output, &mut clears);
    assert_eq!(r, Ok(Completion::Executed));
    assert_eq!(clears, 1);
}

#[test]
fn zero_budget_times_out_on_first_poll() {
    let mut s = TaskSession::new(task("a.png", "6", "ObjectCreated:Put"), 0, 2);
    assert!(matches!(s.step(Event::Clock(1)), Action::Finish));
    assert_eq!(s.outcome(), Some(Err(TaskError::LockTimeout)));
    assert!(matches!(s.stage, Stage::Finished(_)));
}

#[test]
fn lock_store_failure_is_fatal() {
    let mut s = TaskSession::new(task("a.png", "6", "ObjectCreated:Put"), 30, 2);
    s.step(Event::Clock(0));
    s.step(Event::Record(None));
    assert!(matches!(s.step(Event::StoreFailed), Action::Finish));
    assert_eq!(s.outcome(), Some(Err(TaskError::StoreUnavailable)));
}

#[test]
fn out_of_order_batch_writes_newest_once() {
    let input = png_bytes();
    let mut record = None;
    let mut output = None;
    let mut clears = 0;
    let mut newest = TaskSession::new(task("a.png", "002", "ObjectCreated:Put"), 30, 2);
    let r = run(&mut newest, &mut record, &input, &mut output, &mut clears);
    assert_eq!(r, Ok(Completion::Executed));
    let written = output.clone().unwrap();
    let mut older = TaskSession::new(task("a.png", "001", "ObjectCreated:Put"), 30, 2);
    let r = run(&mut older, &mut record, &input, &mut output, &mut clears);
    assert_eq!(r, Ok(Completion::SkippedStale));
    assert_eq!(output, Some(written));
    assert_eq!(clears, 1);
    assert_eq!(record.unwrap().sequencer.sequencer, "002");
}

#[test]
fn grayscale_converts_pixels() {
    let input = png_bytes();
    let out = grayscale(&task("photo.png", "1", "ObjectCreated:Put"), &input).unwrap();
    assert_ne!(out, input);
    let img = image::load_from_memory(&out).unwrap();
    assert_eq!(img.color(), image::ColorType::L8);
    assert!(grayscale(&task("photo.txt", "1", "ObjectCreated:Put"), &input).is_none());
    assert!(grayscale(&task("photo.png", "1", "ObjectCreated:Put"), &vec![1, 2, 3]).is_none());
}

#[test]
fn record_fields_become_a_task() {
    let t = task("dir/a.jpg", "00ff", "ObjectCreated:Copy");
    assert_eq!(t.task_type, TaskType::Grayscale);
    assert_eq!(t.bucket_name, "bucket");
    assert_eq!(t.object_key, "dir/a.jpg");
    assert_eq!(t.sequencer.sequencer, "00ff");
    assert!(t.processing);
    assert_eq!(task("k", "1", "ObjectRemoved:Delete").task_type, TaskType::Delete);
}

#[test]
fn record_field_errors() {
    let s = |v: &str| Some(v.to_string());
    let e = |a, b, c, d| ImageTask::from_record_fields(a, b, c, d).err();
    assert_eq!(e(None, s("b"), s("k"), s("1")), Some(ParseError::MissingEventName));
    assert_eq!(e(s("ObjectRestore:Post"), s("b"), s("k"), s("1")), Some(ParseError::UnknownEventName));
    assert_eq!(e(s("Object"), s("b"), s("k"), s("1")), Some(ParseError::UnknownEventName));
    assert_eq!(e(s("ObjectCreated:Put"), None, s("k"), s("1")), Some(ParseError::MissingBucketName));
    assert_eq!(e(s("ObjectCreated:Put"), s("b"), None, s("1")), Some(ParseError::MissingObjectKey));
    assert_eq!(e(s("ObjectRemoved:Delete"), s("b"), s("k"), None), Some(ParseError::MissingSequencer));
}

#[test]
fn batch_fails_on_any_error() {
    assert!(batch_succeeded(&vec![]));
    assert!(batch_succeeded(&vec![Ok(Completion::Executed), Ok(Completion::SkippedStale)]));
    assert!(!batch_succeeded(&vec![Ok(Completion::Executed), Err(TaskError::LockTimeout)]));
}
