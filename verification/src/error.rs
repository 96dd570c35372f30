//! What can go wrong while a template is imported.

use vstd::prelude::*;

verus! {

/// Why the manifest of a template's project was not found.
#[derive(Debug, Clone, PartialEq, Eq)]
pub enum LocateFailure {
    /// The locate-project query could not be run.
    QueryFailed,
    /// The query wrote to its standard error. Holds the template's path.
    NoManifest(String),
    /// The query's standard output was not the expected JSON.
    UnexpectedOutput,
}

/// Why a template could not be opened, or its manifest not loaded.
#[derive(Debug, Clone, PartialEq, Eq)]
pub enum TemplateError {
    /// The template's path does not end in `.rs`.
    WrongExtension,
    /// The template could not be opened.
    TemplateNotFound,
    /// The template's path names a directory.
    TemplateIsDirectory,
    /// The template's path has no parent directory.
    NoParentDirectory,
    /// The manifest that governs the template was not found.
    ManifestLocateFailed(LocateFailure),
    /// The manifest is not well-formed. Holds the parser's complaint.
    ManifestParseFailed(String),
    /// The analyzer could not be run.
    AnalyzerIoFailure,
    /// The analyzer's standard error is not UTF-8.
    AnalyzerStderrMalformed,
    /// Cargo does not know the analyzer's command.
    AnalyzerNotInstalled,
    /// The analyzer could not write a file.
    AnalyzerPermissionDenied,
    /// The analyzer needs another toolchain.
    AnalyzerToolchainMismatch,
    /// The analyzer's standard output is not the expected JSON.
    AnalyzerOutputMalformed,
}

impl LocateFailure {
    /// The sentence shown to the user.
    pub open spec fn message_text(self) -> Seq<char> {
        match self {
            LocateFailure::QueryFailed => "failed to run cargo locate-manifest"@,
            LocateFailure::NoManifest(path) => {
                "cargo locate-manifest could not find a manifest file for "@ + path@
            },
            LocateFailure::UnexpectedOutput => "unexpected output from cargo locate-manifest"@,
        }
    }

    pub fn message(&self) -> (text: String)
        ensures
            text@ == self.message_text(),
    {
        match self {
            LocateFailure::QueryFailed => String::from_str("failed to run cargo locate-manifest"),
            LocateFailure::NoManifest(path) => {
                let mut text = String::from_str(
                    "cargo locate-manifest could not find a manifest file for ",
                );
                text.append(path.as_str());
                text
            },
            LocateFailure::UnexpectedOutput => String::from_str(
                "unexpected output from cargo locate-manifest",
            ),
        }
    }
}

impl TemplateError {
    /// The sentence shown to the user.
    pub open spec fn message_text(self) -> Seq<char> {
        match self {
            TemplateError::WrongExtension => "template must have .rs file extension"@,
            TemplateError::TemplateNotFound => "template file does not exist"@,
            TemplateError::TemplateIsDirectory => "cannot read template: is a directory"@,
            TemplateError::NoParentDirectory => "no parent directory for template script"@,
            TemplateError::ManifestLocateFailed(failure) => failure.message_text(),
            TemplateError::ManifestParseFailed(complaint) => complaint@,
            TemplateError::AnalyzerIoFailure => "failed to run cargo-udeps"@,
            TemplateError::AnalyzerStderrMalformed => "failed to run cargo-udeps - malformed stderr"@,
            TemplateError::AnalyzerNotInstalled => {
                "failed to run cargo-udeps - is cargo-udeps installed?"@
            },
            TemplateError::AnalyzerPermissionDenied => "failed to run cargo-udeps - permission error"@,
            TemplateError::AnalyzerToolchainMismatch => {
                "failed to run cargo-udeps - are you using a nightly toolchain?"@
            },
            TemplateError::AnalyzerOutputMalformed => "unexpected output from cargo-udeps"@,
        }
    }

    pub fn message(&self) -> (text: String)
        ensures
            text@ == self.message_text(),
    {
        match self {
            TemplateError::WrongExtension => String::from_str("template must have .rs file extension"),
            TemplateError::TemplateNotFound => String::from_str("template file does not exist"),
            TemplateError::TemplateIsDirectory => String::from_str(
                "cannot read template: is a directory",
            ),
            TemplateError::NoParentDirectory => String::from_str(
                "no parent directory for template script",
            ),
            TemplateError::ManifestLocateFailed(failure) => failure.message(),
            TemplateError::ManifestParseFailed(complaint) => complaint.clone(),
            TemplateError::AnalyzerIoFailure => String::from_str("failed to run cargo-udeps"),
            TemplateError::AnalyzerStderrMalformed => String::from_str(
                "failed to run cargo-udeps - malformed stderr",
            ),
            TemplateError::AnalyzerNotInstalled => String::from_str(
                "failed to run cargo-udeps - is cargo-udeps installed?",
            ),
            TemplateError::AnalyzerPermissionDenied => String::from_str(
                "failed to run cargo-udeps - permission error",
            ),
            TemplateError::AnalyzerToolchainMismatch => String::from_str(
                "failed to run cargo-udeps - are you using a nightly toolchain?",
            ),
            TemplateError::AnalyzerOutputMalformed => String::from_str(
                "unexpected output from cargo-udeps",
            ),
        }
    }
}

} // verus!
