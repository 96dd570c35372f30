use new_script::error::{LocateFailure, TemplateError};
use new_script::template::{check_extension, FileProbe, QueryOutput, Template};

fn template(prune_dependencies: bool) -> Template {
    Template::open("project/src/main.rs".to_string(), prune_dependencies, FileProbe::File).unwrap()
}

fn output(stdout: &str, stderr: &str) -> QueryOutput {
    QueryOutput { stdout: stdout.as_bytes().to_vec(), stderr: stderr.as_bytes().to_vec() }
}

const MANIFEST: &str = r#"[package]
name = "demo" # the name

[dependencies]
rand = "0.8"   # unused
serde = "1"

[dev-dependencies]
proptest = "1"
"#;

const REPORT: &str = r#"{"success": false, "unused_deps": {"demo": {"normal": ["rand"], "development": ["proptest"], "build": []}}}"#;

#[test]
fn only_the_rs_extension_will_do() {
    assert_eq!(check_extension(Some("rs")), Ok(()));
    assert_eq!(check_extension(Some("txt")), Err(TemplateError::WrongExtension));
    assert_eq!(check_extension(Some("RS")), Err(TemplateError::WrongExtension));
    assert_eq!(check_extension(Some("")), Err(TemplateError::WrongExtension));
    assert_eq!(check_extension(None), Err(TemplateError::WrongExtension));
}

#[test]
fn path_with_rs_extension_is_accepted() {
    assert_eq!(Template::check_path("main.rs"), Ok(()));
    assert_eq!(Template::check_path("project/src/main.rs"), Ok(()));
    assert_eq!(Template::check_path("a.b.rs"), Ok(()));
}

#[test]
fn path_without_rs_extension_is_rejected() {
    assert_eq!(Template::check_path("main.txt"), Err(TemplateError::WrongExtension));
    assert_eq!(Template::check_path("main"), Err(TemplateError::WrongExtension));
    assert_eq!(Template::check_path("main.rs.bak"), Err(TemplateError::WrongExtension));
    assert_eq!(Template::check_path(".rs"), Err(TemplateError::WrongExtension));
    assert_eq!(Template::check_path(""), Err(TemplateError::WrongExtension));
    assert_eq!(Template::check_path("dir.rs/main"), Err(TemplateError::WrongExtension));
}

#[test]
fn wrong_extension_is_reported_whatever_is_on_disk() {
    for probe in [FileProbe::Missing, FileProbe::Directory, FileProbe::File] {
        assert_eq!(
            Template::open("main.txt".to_string(), true, probe),
            Err(TemplateError::WrongExtension)
        );
    }
}

#[test]
fn missing_file_is_not_found() {
    assert_eq!(
        Template::open("main.rs".to_string(), false, FileProbe::Missing),
        Err(TemplateError::TemplateNotFound)
    );
}

#[test]
fn directory_is_no_template() {
    assert_eq!(
        Template::open("main.rs".to_string(), false, FileProbe::Directory),
        Err(TemplateError::TemplateIsDirectory)
    );
}

#[test]
fn opened_template_knows_its_directory() {
    let opened = template(true);
    assert_eq!(opened.path, "project/src/main.rs");
    assert_eq!(opened.pwd, "project/src");
    assert!(opened.prune_dependencies);
    let opened = Template::open("main.rs".to_string(), false, FileProbe::File).unwrap();
    assert_eq!(opened.pwd, "");
    assert!(!opened.prune_dependencies);
}

#[test]
fn template_from_parts_needs_a_parent() {
    assert_eq!(
        Template::from_parts("main.rs".to_string(), false, Some("rs"), FileProbe::File, None),
        Err(TemplateError::NoParentDirectory)
    );
    let opened = Template::from_parts(
        "x/main.rs".to_string(),
        true,
        Some("rs"),
        FileProbe::File,
        Some("x".to_string()),
    )
    .unwrap();
    assert_eq!(opened.path, "x/main.rs");
    assert_eq!(opened.pwd, "x");
    assert!(opened.prune_dependencies);
}

#[test]
fn template_from_parts_judges_in_order() {
    assert_eq!(
        Template::from_parts("m".to_string(), false, None, FileProbe::Missing, None),
        Err(TemplateError::WrongExtension)
    );
    assert_eq!(
        Template::from_parts("m".to_string(), false, Some("rs"), FileProbe::Missing, None),
        Err(TemplateError::TemplateNotFound)
    );
    assert_eq!(
        Template::from_parts("m".to_string(), false, Some("rs"), FileProbe::Directory, None),
        Err(TemplateError::TemplateIsDirectory)
    );
}

#[test]
fn manifest_is_located_from_the_reply() {
    let reply = output("{\"root\":\"/home/me/project/Cargo.toml\"}\n", "");
    assert_eq!(
        template(false).locate_manifest(Some(&reply)),
        Ok("/home/me/project/Cargo.toml".to_string())
    );
}

#[test]
fn query_that_did_not_run_locates_nothing() {
    assert_eq!(
        template(false).locate_manifest(None),
        Err(TemplateError::ManifestLocateFailed(LocateFailure::QueryFailed))
    );
}

#[test]
fn any_stderr_means_no_manifest() {
    let reply = output(
        "{\"root\":\"/home/me/project/Cargo.toml\"}",
        "error: could not find `Cargo.toml`\n",
    );
    assert_eq!(
        template(false).locate_manifest(Some(&reply)),
        Err(TemplateError::ManifestLocateFailed(LocateFailure::NoManifest(
            "project/src/main.rs".to_string()
        )))
    );
    let reply = output("{\"root\":\"/x\"}", " ");
    assert!(template(false).locate_manifest(Some(&reply)).is_err());
}

#[test]
fn unexpected_reply_locates_nothing() {
    for stdout in ["", "{}", "{\"root\": 1}", "/home/me/project/Cargo.toml"] {
        assert_eq!(
            template(false).locate_manifest(Some(&output(stdout, ""))),
            Err(TemplateError::ManifestLocateFailed(LocateFailure::UnexpectedOutput))
        );
    }
}

#[test]
fn manifest_is_loaded_without_its_formatting() {
    let manifest = template(false).deserialize_manifest(MANIFEST, None).unwrap();
    assert_eq!(
        manifest.to_string(),
        "[package]\nname = \"demo\"\n\n[dependencies]\nrand = \"0.8\"\nserde = \"1\"\n\n[dev-dependencies]\nproptest = \"1\"\n"
    );
}

#[test]
fn manifest_text_is_read_without_its_formatting() {
    let manifest = Template::read_manifest(MANIFEST).unwrap();
    assert_eq!(
        manifest.to_string(),
        "[package]\nname = \"demo\"\n\n[dependencies]\nrand = \"0.8\"\nserde = \"1\"\n\n[dev-dependencies]\nproptest = \"1\"\n"
    );
    assert_eq!(
        Template::read_manifest("= 1").map(|manifest| manifest.to_string()).is_err(),
        true
    );
}

#[test]
fn manifest_is_not_pruned_unless_asked() {
    let manifest =
        template(false).deserialize_manifest(MANIFEST, Some(output(REPORT, ""))).unwrap();
    assert_eq!(manifest["dependencies"]["rand"].as_str(), Some("0.8"));
    assert_eq!(manifest["dev-dependencies"]["proptest"].as_str(), Some("1"));
}

#[test]
fn manifest_is_pruned_when_asked() {
    let manifest =
        template(true).deserialize_manifest(MANIFEST, Some(output(REPORT, ""))).unwrap();
    assert_eq!(
        manifest.to_string(),
        "[package]\nname = \"demo\"\n\n[dependencies]\nserde = \"1\"\n\n[dev-dependencies]\n"
    );
}

#[test]
fn manifest_that_is_no_toml_is_rejected() {
    match template(false).deserialize_manifest("[package\nname = ", None) {
        Err(TemplateError::ManifestParseFailed(complaint)) => assert!(!complaint.is_empty()),
        other => panic!("unexpected: {:?}", other.map(|manifest| manifest.to_string())),
    }
    match template(true).deserialize_manifest("a = 1\na = 2\n", Some(output(REPORT, ""))) {
        Err(TemplateError::ManifestParseFailed(complaint)) => assert!(!complaint.is_empty()),
        other => panic!("unexpected: {:?}", other.map(|manifest| manifest.to_string())),
    }
}

#[test]
fn pruning_needs_the_analyzer_to_have_run() {
    assert_eq!(
        template(true).deserialize_manifest(MANIFEST, None).map(|manifest| manifest.to_string()),
        Err(TemplateError::AnalyzerIoFailure)
    );
}

#[test]
fn analyzer_failures_stop_the_loading() {
    let load = |stdout: &str, stderr: &str| {
        template(true)
            .deserialize_manifest(MANIFEST, Some(output(stdout, stderr)))
            .map(|manifest| manifest.to_string())
    };
    assert_eq!(
        load(REPORT, "error: no such command: `udeps`"),
        Err(TemplateError::AnalyzerNotInstalled)
    );
    assert_eq!(
        load(REPORT, "error: failed to write lock file"),
        Err(TemplateError::AnalyzerPermissionDenied)
    );
    assert_eq!(
        load(REPORT, "needs the nightly compiler"),
        Err(TemplateError::AnalyzerToolchainMismatch)
    );
    assert_eq!(load("not json", ""), Err(TemplateError::AnalyzerOutputMalformed));
    assert_eq!(load("{\"success\": false}", ""), Err(TemplateError::AnalyzerOutputMalformed));
}

#[test]
fn analyzer_stderr_is_judged_before_its_stdout() {
    let run = QueryOutput { stdout: b"not json".to_vec(), stderr: vec![0xff] };
    assert_eq!(Template::unused_deps(Some(run)), Err(TemplateError::AnalyzerStderrMalformed));
}

#[test]
fn analyzer_chatter_on_stderr_is_tolerated() {
    let run = output(REPORT, "    Checking demo v0.1.0\n");
    let unused = Template::unused_deps(Some(run)).unwrap();
    assert_eq!(unused.normal, vec!["rand".to_string()]);
    assert_eq!(unused.development, vec!["proptest".to_string()]);
    assert!(unused.build.is_empty());
}

#[test]
fn analyzer_that_did_not_run_is_a_failure() {
    assert_eq!(Template::unused_deps(None), Err(TemplateError::AnalyzerIoFailure));
}

#[test]
fn successful_analysis_prunes_nothing() {
    let mut manifest: toml_edit::DocumentMut = MANIFEST.parse().unwrap();
    let done = template(true).prune_unused_deps(&mut manifest, Some(output("{\"success\": true}", "")));
    assert_eq!(done, Ok(()));
    assert_eq!(manifest.to_string(), MANIFEST);
}

#[test]
fn failed_pruning_leaves_the_manifest() {
    let mut manifest: toml_edit::DocumentMut = MANIFEST.parse().unwrap();
    let done = template(true).prune_unused_deps(&mut manifest, Some(output("{}", "")));
    assert_eq!(done, Err(TemplateError::AnalyzerOutputMalformed));
    assert_eq!(manifest.to_string(), MANIFEST);
}

#[test]
fn pruning_by_a_report_removes_what_it_names() {
    let mut manifest: toml_edit::DocumentMut = MANIFEST.parse().unwrap();
    let done = template(false).prune_unused_deps(&mut manifest, Some(output(REPORT, "")));
    assert_eq!(done, Ok(()));
    assert!(manifest["dependencies"].get("rand").is_none());
    assert_eq!(manifest["dependencies"]["serde"].as_str(), Some("1"));
    assert!(manifest["dev-dependencies"].get("proptest").is_none());
}

#[test]
fn each_failure_has_its_sentence() {
    let sentence = |failure: TemplateError| failure.message();
    assert_eq!(sentence(TemplateError::WrongExtension), "template must have .rs file extension");
    assert_eq!(sentence(TemplateError::TemplateNotFound), "template file does not exist");
    assert_eq!(sentence(TemplateError::TemplateIsDirectory), "cannot read template: is a directory");
    assert_eq!(sentence(TemplateError::NoParentDirectory), "no parent directory for template script");
    assert_eq!(
        sentence(TemplateError::ManifestLocateFailed(LocateFailure::QueryFailed)),
        "failed to run cargo locate-manifest"
    );
    assert_eq!(
        sentence(TemplateError::ManifestLocateFailed(LocateFailure::NoManifest("a/b.rs".to_string()))),
        "cargo locate-manifest could not find a manifest file for a/b.rs"
    );
    assert_eq!(
        sentence(TemplateError::ManifestLocateFailed(LocateFailure::UnexpectedOutput)),
        "unexpected output from cargo locate-manifest"
    );
    assert_eq!(sentence(TemplateError::ManifestParseFailed("bad toml".to_string())), "bad toml");
    assert_eq!(sentence(TemplateError::AnalyzerIoFailure), "failed to run cargo-udeps");
    assert_eq!(
        sentence(TemplateError::AnalyzerStderrMalformed),
        "failed to run cargo-udeps - malformed stderr"
    );
    assert_eq!(
        sentence(TemplateError::AnalyzerNotInstalled),
        "failed to run cargo-udeps - is cargo-udeps installed?"
    );
    assert_eq!(
        sentence(TemplateError::AnalyzerPermissionDenied),
        "failed to run cargo-udeps - permission error"
    );
    assert_eq!(
        sentence(TemplateError::AnalyzerToolchainMismatch),
        "failed to run cargo-udeps - are you using a nightly toolchain?"
    );
    assert_eq!(sentence(TemplateError::AnalyzerOutputMalformed), "unexpected output from cargo-udeps");
    assert_eq!(LocateFailure::QueryFailed.message(), "failed to run cargo locate-manifest");
}
