use new_script::error::TemplateError;
use new_script::template::parsers::{
    check_udeps_stderr, names_from_json, outcome_from_json, parse_locate_project_stdout,
    parse_udeps_stdout, root_from_json, unused_deps_from_json, OutcomeUnusedDeps,
};

fn names(list: &[&str]) -> Vec<String> {
    list.iter().map(|name| name.to_string()).collect()
}

fn json(text: &str) -> serde_json::Value {
    serde_json::from_str(text).unwrap()
}

#[test]
fn locate_reply_yields_the_root_exactly() {
    let reply = br#"{"root": "/a/b/Cargo.toml"}"#;
    assert_eq!(parse_locate_project_stdout(reply), Some("/a/b/Cargo.toml".to_string()));
}

#[test]
fn locate_reply_may_end_with_a_line_break() {
    let reply = b"{\"root\":\"/home/me/project/Cargo.toml\"}\n";
    assert_eq!(
        parse_locate_project_stdout(reply),
        Some("/home/me/project/Cargo.toml".to_string())
    );
}

#[test]
fn locate_reply_without_root_is_no_answer() {
    assert_eq!(parse_locate_project_stdout(br#"{"path": "/a/b/Cargo.toml"}"#), None);
    assert_eq!(parse_locate_project_stdout(br#"{}"#), None);
}

#[test]
fn locate_reply_with_a_root_that_is_no_string_is_no_answer() {
    assert_eq!(parse_locate_project_stdout(br#"{"root": 7}"#), None);
    assert_eq!(parse_locate_project_stdout(br#"{"root": null}"#), None);
    assert_eq!(parse_locate_project_stdout(br#"{"root": ["/a"]}"#), None);
}

#[test]
fn locate_reply_that_is_no_object_is_no_answer() {
    assert_eq!(parse_locate_project_stdout(br#""/a/b/Cargo.toml""#), None);
    assert_eq!(parse_locate_project_stdout(br#"["/a/b/Cargo.toml"]"#), None);
}

#[test]
fn locate_reply_that_is_no_json_is_no_answer() {
    assert_eq!(parse_locate_project_stdout(b""), None);
    assert_eq!(parse_locate_project_stdout(b"root: /a/b/Cargo.toml"), None);
    assert_eq!(parse_locate_project_stdout(br#"{"root": "/a/b/Cargo.toml""#), None);
}

#[test]
fn root_is_read_from_a_parsed_reply() {
    assert_eq!(
        root_from_json(&json(r#"{"root": "/x/Cargo.toml", "more": 1}"#)),
        Some("/x/Cargo.toml".to_string())
    );
    assert_eq!(root_from_json(&json("[]")), None);
}

#[test]
fn successful_analysis_names_nothing() {
    let outcome = parse_udeps_stdout(br#"{"success": true}"#).unwrap();
    assert!(outcome.normal.is_empty());
    assert!(outcome.development.is_empty());
    assert!(outcome.build.is_empty());
    assert_eq!(outcome, OutcomeUnusedDeps::default());
}

#[test]
fn successful_analysis_ignores_what_else_the_reply_holds() {
    let reply = br#"{"success": true, "unused_deps": {"x": {"normal": ["foo"]}}, "note": "n"}"#;
    assert_eq!(parse_udeps_stdout(reply), Some(OutcomeUnusedDeps::default()));
}

#[test]
fn failed_analysis_names_the_unused_dependencies() {
    let reply =
        br#"{"success": false, "unused_deps": {"x": {"normal": ["foo"], "development": [], "build": []}}}"#;
    let outcome = parse_udeps_stdout(reply).unwrap();
    assert_eq!(outcome.normal, names(&["foo"]));
    assert_eq!(outcome.development, names(&[]));
    assert_eq!(outcome.build, names(&[]));
}

#[test]
fn failed_analysis_fills_all_three_categories() {
    let reply = br#"{
        "success": false,
        "unused_deps": {
            "demo 0.1.0 (path+file:///tmp/demo)": {
                "manifest_path": "/tmp/demo/Cargo.toml",
                "normal": ["rand", "serde"],
                "development": ["proptest"],
                "build": ["cc"]
            }
        },
        "note": "some note"
    }"#;
    let outcome = parse_udeps_stdout(reply).unwrap();
    assert_eq!(outcome.normal, names(&["rand", "serde"]));
    assert_eq!(outcome.development, names(&["proptest"]));
    assert_eq!(outcome.build, names(&["cc"]));
}

#[test]
fn a_name_that_is_reported_twice_is_kept_once() {
    let reply = br#"{"success": false, "unused_deps": {"x": {"normal": ["a", "b", "a"], "development": [], "build": []}}}"#;
    assert_eq!(parse_udeps_stdout(reply).unwrap().normal, names(&["a", "b"]));
}

#[test]
fn names_come_out_in_ascending_order() {
    let reply = br#"{"success": false, "unused_deps": {"x": {"normal": ["b", "a", "b"], "development": ["z", "y", "x", "y"], "build": []}}}"#;
    let outcome = parse_udeps_stdout(reply).unwrap();
    assert_eq!(outcome.normal.len(), 2);
    assert_eq!(outcome.normal, names(&["a", "b"]));
    assert_eq!(outcome.development, names(&["x", "y", "z"]));
}

#[test]
fn names_are_ordered_as_a_set_of_strings_orders_them() {
    let listed = ["serde", "Rand", "ab", "a", "", "zeta", "été", "b", "ab", "a-b", "a_b", "日本"];
    let text = serde_json::to_string(&listed.to_vec()).unwrap();
    let sorted: std::collections::BTreeSet<String> =
        listed.iter().map(|name| name.to_string()).collect();
    let expected: Vec<String> = sorted.into_iter().collect();
    assert_eq!(names_from_json(&json(&text)), Some(expected));
    assert_eq!(
        names_from_json(&json(&text)),
        Some(names(&["", "Rand", "a", "a-b", "a_b", "ab", "b", "serde", "zeta", "été", "日本"]))
    );
}

#[test]
fn only_the_first_report_is_read() {
    let reply = br#"{"success": false, "unused_deps": {
        "b": {"normal": ["from-b"], "development": [], "build": []},
        "a": {"normal": ["from-a"], "development": [], "build": []}
    }}"#;
    assert_eq!(parse_udeps_stdout(reply).unwrap().normal, names(&["from-a"]));
}

#[test]
fn reply_without_success_is_no_answer() {
    let reply = br#"{"unused_deps": {"x": {"normal": [], "development": [], "build": []}}}"#;
    assert_eq!(parse_udeps_stdout(reply), None);
}

#[test]
fn reply_whose_success_is_no_boolean_is_no_answer() {
    assert_eq!(parse_udeps_stdout(br#"{"success": "true"}"#), None);
    assert_eq!(parse_udeps_stdout(br#"{"success": 1}"#), None);
    assert_eq!(parse_udeps_stdout(br#"{"success": null}"#), None);
}

#[test]
fn failed_analysis_without_reports_is_no_answer() {
    assert_eq!(parse_udeps_stdout(br#"{"success": false}"#), None);
    assert_eq!(parse_udeps_stdout(br#"{"success": false, "unused_deps": {}}"#), None);
    assert_eq!(parse_udeps_stdout(br#"{"success": false, "unused_deps": []}"#), None);
    assert_eq!(parse_udeps_stdout(br#"{"success": false, "unused_deps": "x"}"#), None);
}

#[test]
fn report_that_lacks_a_category_is_no_answer() {
    let reply = br#"{"success": false, "unused_deps": {"x": {"normal": ["foo"], "build": []}}}"#;
    assert_eq!(parse_udeps_stdout(reply), None);
}

#[test]
fn report_whose_category_is_no_list_of_strings_is_no_answer() {
    let reply = br#"{"success": false, "unused_deps": {"x": {"normal": "foo", "development": [], "build": []}}}"#;
    assert_eq!(parse_udeps_stdout(reply), None);
    let reply = br#"{"success": false, "unused_deps": {"x": {"normal": ["foo", 1], "development": [], "build": []}}}"#;
    assert_eq!(parse_udeps_stdout(reply), None);
}

#[test]
fn report_that_is_no_object_is_no_answer() {
    let reply = br#"{"success": false, "unused_deps": {"x": [["foo"], [], []]}}"#;
    assert_eq!(parse_udeps_stdout(reply), None);
    let reply = br#"{"success": false, "unused_deps": {"x": null}}"#;
    assert_eq!(parse_udeps_stdout(reply), None);
}

#[test]
fn analyzer_reply_that_is_no_json_is_no_answer() {
    assert_eq!(parse_udeps_stdout(b""), None);
    assert_eq!(parse_udeps_stdout(b"All deps seem to have been used."), None);
    assert_eq!(parse_udeps_stdout(b"[true]"), None);
}

#[test]
fn names_are_read_from_a_json_array() {
    assert_eq!(names_from_json(&json(r#"["x", "y", "x"]"#)), Some(names(&["x", "y"])));
    assert_eq!(names_from_json(&json("[]")), Some(names(&[])));
    assert_eq!(names_from_json(&json(r#"["x", true]"#)), None);
    assert_eq!(names_from_json(&json(r#"{"x": "y"}"#)), None);
}

#[test]
fn one_report_is_read_from_parsed_json() {
    let report = json(r#"{"normal": ["n"], "development": ["d"], "build": ["b"], "other": 1}"#);
    let outcome = outcome_from_json(&report).unwrap();
    assert_eq!(outcome.normal, names(&["n"]));
    assert_eq!(outcome.development, names(&["d"]));
    assert_eq!(outcome.build, names(&["b"]));
    assert_eq!(outcome_from_json(&json(r#"{"normal": ["n"], "development": ["d"]}"#)), None);
}

#[test]
fn a_parsed_reply_is_read_like_its_text() {
    let text = r#"{"success": false, "unused_deps": {"x": {"normal": ["foo"], "development": ["bar"], "build": []}}}"#;
    assert_eq!(unused_deps_from_json(&json(text)), parse_udeps_stdout(text.as_bytes()));
    assert_eq!(unused_deps_from_json(&json("{}")), None);
}

#[test]
fn empty_stderr_is_fine() {
    assert_eq!(check_udeps_stderr(Vec::new()), Ok(()));
}

#[test]
fn informational_stderr_is_tolerated() {
    let stderr = b"    Checking demo v0.1.0 (/tmp/demo)\n    Finished dev [unoptimized] target(s)\n";
    assert_eq!(check_udeps_stderr(stderr.to_vec()), Ok(()));
}

#[test]
fn unknown_command_means_the_analyzer_is_missing() {
    let stderr = b"error: no such command: `udeps`\n\n\tView all installed commands with `cargo --list`\n";
    assert_eq!(check_udeps_stderr(stderr.to_vec()), Err(TemplateError::AnalyzerNotInstalled));
}

#[test]
fn failed_write_means_a_permission_problem() {
    let stderr = b"error: failed to write /tmp/demo/Cargo.lock\n";
    assert_eq!(check_udeps_stderr(stderr.to_vec()), Err(TemplateError::AnalyzerPermissionDenied));
}

#[test]
fn mention_of_the_nightly_compiler_means_the_wrong_toolchain() {
    let stderr = b"error: the option `Z` is only accepted on the nightly compiler\n";
    assert_eq!(check_udeps_stderr(stderr.to_vec()), Err(TemplateError::AnalyzerToolchainMismatch));
}

#[test]
fn a_marker_for_the_start_counts_only_at_the_start() {
    let stderr = b"note: error: no such command\n";
    assert_eq!(check_udeps_stderr(stderr.to_vec()), Ok(()));
    let stderr = b" error: failed to write\n";
    assert_eq!(check_udeps_stderr(stderr.to_vec()), Ok(()));
}

#[test]
fn the_markers_are_tried_in_order() {
    let stderr = b"error: no such command: `udeps`, try a nightly compiler\n";
    assert_eq!(check_udeps_stderr(stderr.to_vec()), Err(TemplateError::AnalyzerNotInstalled));
    let stderr = b"error: failed to write with this nightly compiler\n";
    assert_eq!(check_udeps_stderr(stderr.to_vec()), Err(TemplateError::AnalyzerPermissionDenied));
}

#[test]
fn the_nightly_marker_may_end_the_text() {
    assert_eq!(
        check_udeps_stderr(b"nightly compiler".to_vec()),
        Err(TemplateError::AnalyzerToolchainMismatch)
    );
    assert_eq!(check_udeps_stderr(b"nightly compile".to_vec()), Ok(()));
}

#[test]
fn stderr_that_is_not_utf8_is_malformed() {
    assert_eq!(
        check_udeps_stderr(vec![0xff, 0xfe, 0x00]),
        Err(TemplateError::AnalyzerStderrMalformed)
    );
    let mut stderr = b"error: no such command".to_vec();
    stderr.push(0xc3);
    assert_eq!(check_udeps_stderr(stderr), Err(TemplateError::AnalyzerStderrMalformed));
}

#[test]
fn stderr_with_text_beyond_ascii_is_read() {
    let stderr = "avertissement: dépendance inutilisée — nightly compiler requis\n";
    assert_eq!(
        check_udeps_stderr(stderr.as_bytes().to_vec()),
        Err(TemplateError::AnalyzerToolchainMismatch)
    );
    assert_eq!(check_udeps_stderr("été — ok".as_bytes().to_vec()), Ok(()));
}
