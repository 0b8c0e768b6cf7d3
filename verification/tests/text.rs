use backup_stream::flush::SafePointId;
use backup_stream::observe::SkipReason;
use backup_stream::report::Report;
use backup_stream::scan::Cf;
use backup_stream::text::{push_decimal, service_safe_point_id};
use backup_stream::types::{Error, ErrorContext};

fn error(message: &str) -> Error {
    Error { code: "KV:Unknown".to_string(), message: message.to_string(), context: None }
}

#[test]
fn decimal_numbers() {
    for n in [0u64, 9, 10, 11, 99, 100, 1_000_000, u64::MAX] {
        let mut text = "n=".to_string();
        push_decimal(&mut text, n);
        assert_eq!(text, format!("n={}", n));
    }
}

#[test]
fn safe_point_names() {
    assert_eq!(service_safe_point_id("pitr", 1), "backup-stream-pitr-1");
    assert_eq!(service_safe_point_id("", 0), "backup-stream--0");
    let task = "a-1".to_string();
    assert_eq!(SafePointId { task: &task, store_id: 42 }.text(), "backup-stream-a-1-42");
}

#[test]
fn safe_point_names_with_dashes_stay_apart() {
    assert_eq!(service_safe_point_id("a", 11), "backup-stream-a-11");
    assert_eq!(service_safe_point_id("a-1", 1), "backup-stream-a-1-1");
    assert_ne!(service_safe_point_id("a-1", 1), service_safe_point_id("a", 11));
}

#[test]
fn report_texts() {
    let task = "pitr".to_string();
    let err = error("no space");
    assert_eq!(Report::WatchTasks.text(), "failed to start watch tasks");
    assert_eq!(Report::WatchPause.text(), "failed to start watch pause");
    assert_eq!(Report::WatchEvent.text(), "metadata client watch meet error");
    assert_eq!(Report::Fatal { err: &err }.text(), "fatal for task no space");
    assert_eq!(Report::UploadError { err: &err }.text(), "failed to upload error no space");
    assert_eq!(
        Report::RegisterRefused { task: &task }.text(),
        "failed to register backup stream task pitr"
    );
    assert_eq!(
        Report::RangesNotFound { task: &task }.text(),
        "failed to register backup stream task pitr to router: ranges not found"
    );
    assert_eq!(Report::InitializeRange.text(), "backup stream initialize failed");
    assert_eq!(Report::InitialScan.text(), "during initial scanning of region ");
    assert_eq!(Report::GetTso.text(), "failed to get tso from pd");
    assert_eq!(Report::SafePoint.text(), "failed to update service safe point!");
    assert_eq!(Report::Flushing { task: &task }.text(), "on flushing task pitr");
}

#[test]
fn error_texts() {
    assert_eq!(error("closed").text(), "closed");
    assert_eq!(
        error("closed").annotate(ErrorContext::RegionInfoBusy { region_id: 17 }).text(),
        "failed to send request to region info accessor, server maybe too too too busy. (region id = 17): closed"
    );
    let dropped = error("closed").annotate(ErrorContext::MessageDropped);
    assert_eq!(dropped.text(), "BUG?: unexpected channel message dropped.: closed");
    assert_eq!(dropped.code, "KV:Unknown");
    assert_eq!(dropped.clone(), dropped);
}

#[test]
fn labels() {
    assert_eq!(SkipReason::RegionAbsent.label(), "region-absent");
    assert_eq!(SkipReason::NotLeader.label(), "not-leader");
    assert_eq!(SkipReason::StaleCommand.label(), "stale-command");
    assert_eq!(Cf::Lock.label(), "lock");
    assert_eq!(Cf::Write.label(), "write");
    assert_eq!(Cf::Default.label(), "default");
}
