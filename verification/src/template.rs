//! Importing an existing program as a template: validating its path,
//! finding and loading the manifest of its project, and pruning it.
//!
//! Nothing here touches a file or runs a tool. The caller does, in this
//! order, and hands in what came back: it checks the path with
//! [`Template::check_path`], looks at the file, opens the template with
//! [`Template::open`], runs `cargo locate-project` in the template's `pwd`
//! for [`Template::locate_manifest`], reads the manifest's text for
//! [`Template::read_manifest`] and, if `prune_dependencies` is set, runs
//! `cargo udeps` there for [`Template::prune_unused_deps`]. With the tools'
//! output in hand, [`Template::deserialize_manifest`] does the last two steps
//! in one.

pub mod parsers;
pub mod prune;
pub mod strip_decor;

use crate::error::{LocateFailure, TemplateError};
use crate::json::json_parse;
use crate::manifest::{document_model, parse_document, toml_parse};
use crate::template::parsers::{
    check_udeps_stderr, located_root, parse_locate_project_stdout, parse_udeps_stdout,
    stderr_verdict, unused_in_reply, OutcomeUnusedDeps, UnusedNames,
};
use crate::template::prune::{prune, pruned};
use crate::template::strip_decor::{strip_decor, stripped};
use crate::text::same_text;
use toml_edit::DocumentMut;
use vstd::prelude::*;

verus! {

/// What the caller found at the template's path.
#[derive(Debug, Clone, Copy, PartialEq, Eq)]
pub enum FileProbe {
    /// The file could not be opened.
    Missing,
    /// The path names a directory.
    Directory,
    /// The path names a file that can be read.
    File,
}

/// What a tool printed before it ended.
#[derive(Debug, Clone, PartialEq, Eq)]
pub struct QueryOutput {
    pub stdout: Vec<u8>,
    pub stderr: Vec<u8>,
}

/// A program that is imported as the body of a new script. `pwd` is the
/// directory in which the tools are run.
#[derive(Debug, Clone, PartialEq, Eq)]
pub struct Template {
    pub path: String,
    pub pwd: String,
    pub prune_dependencies: bool,
}

/// What `std::path::Path::extension` makes of a path: the part of its file
/// name after the last dot, or nothing where the path has no file name, the
/// file name has no dot, or its only dot comes first. Which part of a path is
/// its file name is for `std::path` to say.
pub uninterp spec fn extension_of(path: Seq<char>) -> Option<Seq<char>>;

/// `std::path::Path::extension` of a path, as text. The result is a function
/// of the path's text alone, named by [`extension_of`]; the extension of a
/// path that is valid Unicode is valid Unicode too.
#[verifier::external_body]
fn path_extension(path: &str) -> (extension: Option<String>)
    ensures
        match extension {
            Some(found) => extension_of(path@) == Some(found@),
            None => extension_of(path@) is None,
        },
{
    std::path::Path::new(path).extension().and_then(|found| found.to_str()).map(
        |found| found.to_string(),
    )
}

/// What `std::path::Path::parent` makes of a path: the path without its
/// last component, or nothing where the path ends in a root or is empty.
pub uninterp spec fn parent_of(path: Seq<char>) -> Option<Seq<char>>;

/// `std::path::Path::parent` of a path, as text. The result is a function
/// of the path's text alone, named by [`parent_of`]; the parent of a path
/// that is valid Unicode is valid Unicode too.
#[verifier::external_body]
fn path_parent(path: &str) -> (parent: Option<String>)
    ensures
        match parent {
            Some(found) => parent_of(path@) == Some(found@),
            None => parent_of(path@) is None,
        },
{
    std::path::Path::new(path).parent().and_then(|found| found.to_str()).map(
        |found| found.to_string(),
    )
}

/// Whether a template may have this extension: only `rs` will do.
pub open spec fn extension_verdict(extension: Option<Seq<char>>) -> Result<(), TemplateError> {
    if extension == Some("rs"@) {
        Ok(())
    } else {
        Err(TemplateError::WrongExtension)
    }
}

/// Whether a template can be opened. The extension is judged first: a wrong
/// one is reported whatever was found on disk. Then the file must exist and
/// be no directory, and its path must have a parent.
pub open spec fn open_verdict(
    extension: Option<Seq<char>>,
    probe: FileProbe,
    parent: Option<Seq<char>>,
) -> Result<Seq<char>, TemplateError> {
    if extension_verdict(extension) is Err {
        Err(TemplateError::WrongExtension)
    } else if probe == FileProbe::Missing {
        Err(TemplateError::TemplateNotFound)
    } else if probe == FileProbe::Directory {
        Err(TemplateError::TemplateIsDirectory)
    } else {
        match parent {
            Some(pwd) => Ok(pwd),
            None => Err(TemplateError::NoParentDirectory),
        }
    }
}

/// Where a locate-project query says the manifest is. A query that could
/// not be run, or that wrote anything to its standard error, has found
/// none. Otherwise its standard output must be JSON that names the root.
pub open spec fn locate_verdict(template_path: String, query: Option<QueryOutput>) -> Result<
    Seq<char>,
    LocateFailure,
> {
    match query {
        None => Err(LocateFailure::QueryFailed),
        Some(output) => if output.stderr@.len() > 0 {
            Err(LocateFailure::NoManifest(template_path))
        } else {
            match json_parse(output.stdout@) {
                Some(reply) => match located_root(reply) {
                    Some(root) => Ok(root),
                    None => Err(LocateFailure::UnexpectedOutput),
                },
                None => Err(LocateFailure::UnexpectedOutput),
            }
        },
    }
}

/// What an analyzer run says is unused. A run that could not be made is a
/// failure, then its standard error is judged, then its standard output must
/// be a reply of the expected shape.
pub open spec fn analyzer_verdict(run: Option<QueryOutput>) -> Result<UnusedNames, TemplateError> {
    match run {
        None => Err(TemplateError::AnalyzerIoFailure),
        Some(output) => match stderr_verdict(output.stderr@) {
            Err(failure) => Err(failure),
            Ok(_) => match json_parse(output.stdout@) {
                Some(reply) => match unused_in_reply(reply) {
                    Some(unused) => Ok(unused),
                    None => Err(TemplateError::AnalyzerOutputMalformed),
                },
                None => Err(TemplateError::AnalyzerOutputMalformed),
            },
        },
    }
}

/// Judges a path's extension.
pub fn check_extension(extension: Option<&str>) -> (verdict: Result<(), TemplateError>)
    ensures
        verdict == extension_verdict(
            match extension {
                Some(found) => Some(found@),
                None => None,
            },
        ),
{
    match extension {
        Some(found) => if same_text(found, "rs") {
            Ok(())
        } else {
            Err(TemplateError::WrongExtension)
        },
        None => Err(TemplateError::WrongExtension),
    }
}

impl Template {
    /// Judges the extension of a template's path: the path is accepted if
    /// and only if its extension is `rs`, and else rejected as having the
    /// wrong one. This needs no look at the disk, and the caller asks it
    /// before any.
    pub fn check_path(path: &str) -> (verdict: Result<(), TemplateError>)
        ensures
            verdict == extension_verdict(extension_of(path@)),
    {
        match path_extension(path) {
            Some(extension) => check_extension(Some(extension.as_str())),
            None => check_extension(None),
        }
    }

    /// Opens a template of which the extension, what is on disk and the
    /// parent directory are known.
    pub fn from_parts(
        path: String,
        prune_dependencies: bool,
        extension: Option<&str>,
        probe: FileProbe,
        parent: Option<String>,
    ) -> (opened: Result<Template, TemplateError>)
        ensures
            match open_verdict(
                match extension {
                    Some(found) => Some(found@),
                    None => None,
                },
                probe,
                match parent {
                    Some(found) => Some(found@),
                    None => None,
                },
            ) {
                Ok(pwd) => opened is Ok && opened->Ok_0.path == path && opened->Ok_0.pwd@ == pwd
                    && opened->Ok_0.prune_dependencies == prune_dependencies,
                Err(failure) => opened == Err::<Template, TemplateError>(failure),
            },
    {
        if check_extension(extension).is_err() {
            return Err(TemplateError::WrongExtension);
        }
        match probe {
            FileProbe::Missing => { return Err(TemplateError::TemplateNotFound); },
            FileProbe::Directory => { return Err(TemplateError::TemplateIsDirectory); },
            FileProbe::File => {},
        }
        match parent {
            Some(pwd) => Ok(Template { path, pwd, prune_dependencies }),
            None => Err(TemplateError::NoParentDirectory),
        }
    }

    /// Opens a template, given what the caller found at its path. The
    /// extension and the parent directory are read from the path itself: a
    /// path whose extension is not `rs` is rejected whatever was found, then
    /// a missing file and a directory are, and a file is opened with the
    /// path's parent as the directory in which the tools are run.
    pub fn open(path: String, prune_dependencies: bool, probe: FileProbe) -> (opened: Result<
        Template,
        TemplateError,
    >)
        ensures
            match open_verdict(extension_of(path@), probe, parent_of(path@)) {
                Ok(pwd) => opened is Ok && opened->Ok_0.path == path && opened->Ok_0.pwd@ == pwd
                    && opened->Ok_0.prune_dependencies == prune_dependencies,
                Err(failure) => opened == Err::<Template, TemplateError>(failure),
            },
    {
        let extension = path_extension(path.as_str());
        let parent = path_parent(path.as_str());
        match extension {
            Some(found) => Template::from_parts(
                path,
                prune_dependencies,
                Some(found.as_str()),
                probe,
                parent,
            ),
            None => Template::from_parts(path, prune_dependencies, None, probe, parent),
        }
    }

    /// The path of the manifest that governs the template, from what
    /// `cargo locate-project` printed; `None` where it could not be run.
    pub fn locate_manifest(&self, query: Option<&QueryOutput>) -> (manifest_path: Result<
        String,
        TemplateError,
    >)
        ensures
            match locate_verdict(
                self.path,
                match query {
                    Some(output) => Some(*output),
                    None => None,
                },
            ) {
                Ok(root) => manifest_path is Ok && manifest_path->Ok_0@ == root,
                Err(failure) => manifest_path == Err::<String, TemplateError>(
                    TemplateError::ManifestLocateFailed(failure),
                ),
            },
    {
        let output = match query {
            Some(output) => output,
            None => {
                return Err(TemplateError::ManifestLocateFailed(LocateFailure::QueryFailed));
            },
        };
        if output.stderr.len() > 0 {
            return Err(
                TemplateError::ManifestLocateFailed(LocateFailure::NoManifest(self.path.clone())),
            );
        }
        match parse_locate_project_stdout(output.stdout.as_slice()) {
            Some(root) => Ok(root),
            None => Err(TemplateError::ManifestLocateFailed(LocateFailure::UnexpectedOutput)),
        }
    }

    /// What an analyzer run reports as unused; `None` where the analyzer
    /// could not be run.
    pub fn unused_deps(run: Option<QueryOutput>) -> (unused: Result<
        OutcomeUnusedDeps,
        TemplateError,
    >)
        ensures
            match analyzer_verdict(run) {
                Ok(names) => unused is Ok && unused->Ok_0@ == names && unused->Ok_0.wf(),
                Err(failure) => unused == Err::<OutcomeUnusedDeps, TemplateError>(failure),
            },
    {
        let output = match run {
            Some(output) => output,
            None => { return Err(TemplateError::AnalyzerIoFailure); },
        };
        match check_udeps_stderr(output.stderr) {
            Ok(_) => {},
            Err(failure) => { return Err(failure); },
        }
        match parse_udeps_stdout(output.stdout.as_slice()) {
            Some(unused) => Ok(unused),
            None => Err(TemplateError::AnalyzerOutputMalformed),
        }
    }

    /// Prunes the manifest by what an analyzer run reports. On any failure
    /// the manifest is left as it was.
    pub fn prune_unused_deps(&self, manifest: &mut DocumentMut, run: Option<QueryOutput>) -> (done:
        Result<(), TemplateError>)
        ensures
            match analyzer_verdict(run) {
                Ok(names) => done is Ok && document_model(*final(manifest)) == pruned(
                    document_model(*old(manifest)),
                    names,
                ),
                Err(failure) => done == Err::<(), TemplateError>(failure) && document_model(
                    *final(manifest),
                ) == document_model(*old(manifest)),
            },
    {
        match Template::unused_deps(run) {
            Ok(unused) => {
                prune(manifest, &unused);
                Ok(())
            },
            Err(failure) => Err(failure),
        }
    }

    /// Reads a manifest from its text: parses it and removes its formatting.
    pub fn read_manifest(manifest_text: &str) -> (read: Result<DocumentMut, TemplateError>)
        ensures
            match toml_parse(manifest_text@) {
                Err(complaint) => read matches Err(TemplateError::ManifestParseFailed(shown))
                    && shown@ == complaint,
                Ok(parsed) => read is Ok && document_model(read->Ok_0) == stripped(parsed),
            },
    {
        match parse_document(manifest_text) {
            Ok(mut manifest) => {
                strip_decor(&mut manifest);
                Ok(manifest)
            },
            Err(complaint) => Err(TemplateError::ManifestParseFailed(complaint)),
        }
    }

    /// Loads the manifest from its text: parses it, removes its formatting
    /// and, if the template asks for it, prunes it by the analyzer's run.
    pub fn deserialize_manifest(&self, manifest_text: &str, run: Option<QueryOutput>) -> (loaded:
        Result<DocumentMut, TemplateError>)
        ensures
            match toml_parse(manifest_text@) {
                Err(complaint) => loaded matches Err(TemplateError::ManifestParseFailed(shown))
                    && shown@ == complaint,
                Ok(parsed) => if self.prune_dependencies {
                    match analyzer_verdict(run) {
                        Ok(names) => loaded is Ok && document_model(loaded->Ok_0) == pruned(
                            stripped(parsed),
                            names,
                        ),
                        Err(failure) => loaded is Err && loaded->Err_0 == failure,
                    }
                } else {
                    loaded is Ok && document_model(loaded->Ok_0) == stripped(parsed)
                },
            },
    {
        let mut manifest = match Template::read_manifest(manifest_text) {
            Ok(manifest) => manifest,
            Err(failure) => { return Err(failure); },
        };
        if self.prune_dependencies {
            match self.prune_unused_deps(&mut manifest, run) {
                Ok(_) => {},
                Err(failure) => { return Err(failure); },
            }
        }
        Ok(manifest)
    }
}

} // verus!
