use git_props::options::Options;
use git_props::properties::{
    entry_line, join_text, parse_line, parse_lines, parse_properties, render_lines, split_text, COMPAT_MSG,
};
use git_props::results::{HeadSnapshot, Results};
use git_props::timestamp::GitTime;

const SHA: &str = "abc123def4567890abc123def4567890abc12345";

fn clean_main() -> HeadSnapshot {
    HeadSnapshot {
        sha: SHA.to_string(),
        time: GitTime { seconds: 1_700_000_000, offset_minutes: 60 },
        status_entries: 0,
        head_is_branch: true,
        branch_short_name: Some("main".to_string()),
    }
}

fn owned(v: &[&str]) -> Vec<String> {
    v.iter().map(|s| s.to_string()).collect()
}

#[test]
fn entry_line_joins_key_and_value() {
    assert_eq!(entry_line("git_sha", "abc"), "git_sha=abc");
    assert_eq!(entry_line("k", ""), "k=");
}

#[test]
fn render_current_keys() {
    let lines = render_lines(SHA, Some("2023-11-14T23:13:20+01:00"), None, false, Some("main"), false);
    let expected = vec![
        format!("git_sha={SHA}"),
        COMPAT_MSG.to_string(),
        "commit_date=2023-11-14T23:13:20+01:00".to_string(),
        COMPAT_MSG.to_string(),
        "has_uncommited_changes=false".to_string(),
        "branch_name=main".to_string(),
    ];
    assert_eq!(lines, expected);
}

#[test]
fn render_compat_keys() {
    let lines = render_lines("s", Some("d"), Some("b"), true, None, true);
    let expected = owned(&[
        "git_sha=s",
        COMPAT_MSG,
        "git_date=d",
        "commit_date=d",
        "build_date=b",
        COMPAT_MSG,
        "dirty=1",
        "has_uncommited_changes=true",
    ]);
    assert_eq!(lines, expected);
}

#[test]
fn render_without_optional_fields() {
    let lines = render_lines("s", None, None, true, None, false);
    assert_eq!(lines, owned(&["git_sha=s", COMPAT_MSG, "has_uncommited_changes=true"]));
}

#[test]
fn clean_main_scenario() {
    let lines = Results::new(clean_main()).java_properties_lines();
    assert!(lines.contains(&format!("git_sha={SHA}")));
    assert!(lines.contains(&"branch_name=main".to_string()));
    assert!(lines.contains(&"has_uncommited_changes=false".to_string()));
    let compat = Results::from_snapshot(clean_main(), Options::gversion_compat(), None).java_properties_lines();
    assert!(compat.contains(&"dirty=0".to_string()));
    assert!(compat.contains(&"has_uncommited_changes=false".to_string()));
}

#[test]
fn parse_line_cases() {
    assert_eq!(parse_line("git_sha=abc"), Some(("git_sha".to_string(), "abc".to_string())));
    assert_eq!(parse_line("k=a=b"), Some(("k".to_string(), "a=b".to_string())));
    assert_eq!(parse_line("k="), Some(("k".to_string(), String::new())));
    assert_eq!(parse_line("# x=y"), None);
    assert_eq!(parse_line("no separator"), None);
    assert_eq!(parse_line(""), None);
}

#[test]
fn written_lines_read_back() {
    let r = Results::from_snapshot(clean_main(), Options::gversion_compat(), Some("2024-01-01T00:00:00+00:00".to_string()));
    let lines = r.java_properties_lines();
    let parsed = parse_lines(&lines);
    let entries: Vec<(String, String)> = parsed.into_iter().flatten().collect();
    let expected: Vec<(String, String)> = [
        ("git_sha", SHA),
        ("git_date", "2023-11-14T23:13:20+01:00"),
        ("commit_date", "2023-11-14T23:13:20+01:00"),
        ("build_date", "2024-01-01T00:00:00+00:00"),
        ("dirty", "0"),
        ("has_uncommited_changes", "false"),
        ("branch_name", "main"),
    ]
    .iter()
    .map(|(k, v)| (k.to_string(), v.to_string()))
    .collect();
    assert_eq!(entries, expected);
}

#[test]
fn same_state_gives_same_lines() {
    let a = Results::from_snapshot(clean_main(), Options::gversion_compat(), Some("t".to_string()));
    let b = Results::from_snapshot(clean_main(), Options::gversion_compat(), Some("t".to_string()));
    assert_eq!(a.java_properties_lines(), b.java_properties_lines());
    let c = Results::new(clean_main()).java_properties_lines();
    let d = Results::new(clean_main()).java_properties_lines();
    assert_eq!(c, d);
}

#[test]
fn join_text_ends_each_line() {
    assert_eq!(join_text(&owned(&["a=1", "b=2"])), "a=1\nb=2\n");
    assert_eq!(join_text(&Vec::new()), "");
}

#[test]
fn split_text_cases() {
    assert_eq!(split_text("a=1\nb=2\n"), owned(&["a=1", "b=2"]));
    assert_eq!(split_text("a=1\nb=2"), owned(&["a=1", "b=2"]));
    assert_eq!(split_text(""), Vec::<String>::new());
    assert_eq!(split_text("\n\nx\n"), owned(&["", "", "x"]));
}

#[test]
fn properties_text_reads_back() {
    let r = Results::new(clean_main());
    let text = r.java_properties_text();
    assert_eq!(
        text,
        format!(
            "git_sha={SHA}\n{COMPAT_MSG}\ncommit_date=2023-11-14T23:13:20+01:00\n{COMPAT_MSG}\nhas_uncommited_changes=false\nbranch_name=main\n"
        )
    );
    let parsed = parse_properties(&text);
    let entries: Vec<(String, String)> = parsed.into_iter().flatten().collect();
    let expected: Vec<(String, String)> = [
        ("git_sha", SHA),
        ("commit_date", "2023-11-14T23:13:20+01:00"),
        ("has_uncommited_changes", "false"),
        ("branch_name", "main"),
    ]
    .iter()
    .map(|(k, v)| (k.to_string(), v.to_string()))
    .collect();
    assert_eq!(entries, expected);
}

#[test]
fn same_state_gives_same_text() {
    let a = Results::from_snapshot(clean_main(), Options::gversion_compat(), Some("t".to_string()));
    let b = Results::from_snapshot(clean_main(), Options::gversion_compat(), Some("t".to_string()));
    assert_eq!(a.java_properties_text(), b.java_properties_text());
}
