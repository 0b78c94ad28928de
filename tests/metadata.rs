use git_props::options::Options;
use git_props::results::{HeadSnapshot, Results};
use git_props::status::{arguments_accepted, status_code, Failure};
use git_props::timestamp::{calculate_time, pick, Candidates, GitTime};

const SHA: &str = "abc123def4567890abc123def4567890abc12345";

fn snapshot(status_entries: usize, head_is_branch: bool, name: Option<&str>) -> HeadSnapshot {
    HeadSnapshot {
        sha: SHA.to_string(),
        time: GitTime { seconds: 1_700_000_000, offset_minutes: 60 },
        status_entries,
        head_is_branch,
        branch_short_name: name.map(|n| n.to_string()),
    }
}

#[test]
fn options_bits() {
    let compat = Options::gversion_compat();
    let latest = Options::use_latest_date();
    let both = compat.union(latest);
    assert_eq!(both.bits(), 5);
    assert!(both.contains(compat));
    assert!(both.contains(latest));
    assert!(!both.contains(Options::gen_build_date()));
    assert!(both.is_compat() && both.is_latest());
    assert!(!Options::empty().is_compat());
    assert_eq!(Options::empty().bits(), 0);
    assert_eq!(Options::all().bits(), 7);
    assert_eq!(Options::from_bits_truncate(0xff).bits(), 7);
}

#[test]
fn commit_time_in_positive_offset() {
    let t = calculate_time(GitTime { seconds: 1_700_000_000, offset_minutes: 60 }, Options::empty()).unwrap();
    assert_eq!(t.text, "2023-11-14T23:13:20+01:00");
    assert_eq!(t.epoch_millis, 1_700_000_000_000);
    assert_eq!(t.offset_seconds, 3600);
}

#[test]
fn commit_time_in_negative_offset() {
    let t = calculate_time(GitTime { seconds: 1_700_000_000, offset_minutes: -300 }, Options::empty()).unwrap();
    assert_eq!(t.text, "2023-11-14T17:13:20-05:00");
    assert_eq!(t.offset_seconds, -18000);
}

#[test]
fn commit_time_at_epoch_in_utc() {
    let t = calculate_time(GitTime { seconds: 0, offset_minutes: 0 }, Options::empty()).unwrap();
    assert_eq!(t.text, "1970-01-01T00:00:00+00:00");
}

#[test]
fn commit_time_does_not_depend_on_tie_break() {
    let g = GitTime { seconds: 1_234_567_890, offset_minutes: 330 };
    let a = calculate_time(g, Options::empty()).unwrap();
    let b = calculate_time(g, Options::use_latest_date()).unwrap();
    assert_eq!(a, b);
    assert_eq!(a.text, "2009-02-14T05:01:30+05:30");
}

#[test]
fn commit_time_offset_of_a_day_is_absent() {
    assert!(calculate_time(GitTime { seconds: 0, offset_minutes: 1440 }, Options::empty()).is_none());
    assert!(calculate_time(GitTime { seconds: 0, offset_minutes: -1440 }, Options::empty()).is_none());
    assert!(calculate_time(GitTime { seconds: 0, offset_minutes: 1439 }, Options::empty()).is_some());
    assert!(calculate_time(GitTime { seconds: 0, offset_minutes: i32::MAX }, Options::empty()).is_none());
}

#[test]
fn commit_time_out_of_range_is_absent() {
    assert!(calculate_time(GitTime { seconds: i64::MAX, offset_minutes: 0 }, Options::empty()).is_none());
    assert!(calculate_time(GitTime { seconds: i64::MAX / 1000, offset_minutes: 0 }, Options::empty()).is_none());
}

#[test]
fn tie_break_picks_earliest_or_latest() {
    assert_eq!(pick(Candidates::Ambiguous(1, 2), Options::empty()), Some(1));
    assert_eq!(pick(Candidates::Ambiguous(1, 2), Options::use_latest_date()), Some(2));
    assert_eq!(pick(Candidates::Single(7), Options::use_latest_date()), Some(7));
    assert_eq!(pick(Candidates::<i32>::Nothing, Options::empty()), None);
}

#[test]
fn results_fields_from_clean_branch() {
    let r = Results::new(snapshot(0, true, Some("main")));
    assert_eq!(r.sha(), SHA);
    assert!(!r.dirty());
    assert_eq!(r.branch_name(), Some("main"));
    assert_eq!(r.commit_time().unwrap().text, "2023-11-14T23:13:20+01:00");
    assert_eq!(r.options().bits(), 0);
    assert_eq!(r.build_time(), None);
}

#[test]
fn results_dirty_when_status_has_entries() {
    let r = Results::new(snapshot(3, true, Some("main")));
    assert!(r.dirty());
}

#[test]
fn results_detached_head_has_no_branch() {
    let r = Results::new(snapshot(0, false, Some("HEAD")));
    assert_eq!(r.branch_name(), None);
    let lines = r.java_properties_lines();
    assert!(lines.iter().all(|l| !l.starts_with("branch_name=")));
}

#[test]
fn results_compat_captures_build_time() {
    let r = Results::options_new(snapshot(0, true, Some("main")), Options::gversion_compat());
    let b = r.build_time().unwrap();
    assert!(!b.is_empty());
    let lines = r.java_properties_lines();
    assert!(lines.iter().any(|l| l == &format!("build_date={b}")));
}

#[test]
fn status_codes() {
    assert_eq!(status_code(Ok(())), 0);
    assert_eq!(status_code(Err(Failure::RepoPathUnreadable)), 0x11);
    assert_eq!(status_code(Err(Failure::OutputPathUnreadable)), 0x12);
    assert_eq!(Failure::NotARepository.code(), 0x21);
    assert_eq!(Failure::WriteFailed.code(), 0x22);
}

#[test]
fn not_a_repository_gives_code_0x21() {
    assert_eq!(status_code(Err(Failure::NotARepository)), 0x21);
}

#[test]
fn write_failure_gives_code_0x22() {
    assert_eq!(status_code(Err(Failure::WriteFailed)), 0x22);
}

#[test]
fn argument_count() {
    assert!(arguments_accepted(3));
    assert!(!arguments_accepted(2));
    assert!(!arguments_accepted(4));
}
