//! The errors of a vendoring run: what failed, for which package, and the
//! message that tells the user so.

use vstd::prelude::*;
use crate::text::{occurs_in, lemma_occurs_between, lemma_occurs_within};

verus! {

/// The stage at which a run failed.
#[derive(Clone, Copy, Debug, PartialEq, Eq, Structural)]
pub enum ErrorKind {
    /// The index or the download directory was there before the run.
    DirectoryAlreadyExists,
    /// A directory of the registry cannot be written as a `file` URL.
    PathNotUrlRepresentable,
    /// The cache holds no archive for a package.
    ArchiveNotFound,
    /// Creating, copying, reading or writing a file failed.
    IoFailure,
    /// A record could not be written as JSON.
    SerializationFailure,
    /// The index repository could not be set up.
    RepositoryInitFailure,
    /// The index could not be committed.
    RepositoryCommitFailure,
}

/// The name and the version of the package that an error is about.
#[derive(Clone, Debug)]
pub struct PackageIdent {
    pub name: String,
    pub version: String,
}

/// An error of a vendoring run.
#[derive(Clone, Debug)]
pub struct VendorError {
    pub kind: ErrorKind,
    pub package: Option<PackageIdent>,
    pub detail: String,
}

/// A package identity as texts.
pub struct IdentModel {
    pub name: Seq<char>,
    pub version: Seq<char>,
}

/// An error as plain values.
pub struct ErrorModel {
    pub kind: ErrorKind,
    pub package: Option<IdentModel>,
    pub detail: Seq<char>,
}

impl View for PackageIdent {
    type V = IdentModel;

    open spec fn view(&self) -> IdentModel {
        IdentModel { name: self.name@, version: self.version@ }
    }
}

impl View for VendorError {
    type V = ErrorModel;

    open spec fn view(&self) -> ErrorModel {
        ErrorModel {
            kind: self.kind,
            package: match self.package {
                Some(ident) => Some(ident@),
                None => None,
            },
            detail: self.detail@,
        }
    }
}

/// How a package is named in messages: its name, ` v` and its version.
pub open spec fn ident_text(ident: IdentModel) -> Seq<char> {
    ident.name + " v"@ + ident.version
}

/// The words that name the stage of an error.
pub open spec fn kind_text(kind: ErrorKind) -> Seq<char> {
    match kind {
        ErrorKind::DirectoryAlreadyExists => "directory already exists"@,
        ErrorKind::PathNotUrlRepresentable => "path cannot be written as a URL"@,
        ErrorKind::ArchiveNotFound => "cached archive not found"@,
        ErrorKind::IoFailure => "input or output failed"@,
        ErrorKind::SerializationFailure => "record could not be serialized"@,
        ErrorKind::RepositoryInitFailure => "index repository could not be created"@,
        ErrorKind::RepositoryCommitFailure => "failed to commit the index"@,
    }
}

/// The message of an error: the package, if it is about one, then the stage
/// and the detail.
pub open spec fn message_text(error: ErrorModel) -> Seq<char> {
    let cause = kind_text(error.kind) + ": "@ + error.detail;
    match error.package {
        Some(ident) => "failed to vendor `"@ + ident_text(ident) + "`: "@ + cause,
        None => cause,
    }
}

/// An error that is about no package yet.
pub open spec fn plain_error(kind: ErrorKind, detail: Seq<char>) -> ErrorModel {
    ErrorModel { kind, package: None, detail }
}

/// An error about the package `ident`.
pub open spec fn package_error(kind: ErrorKind, ident: IdentModel, detail: Seq<char>) -> ErrorModel {
    ErrorModel { kind, package: Some(ident), detail }
}

/// The words for a stage.
pub fn kind_words(kind: ErrorKind) -> (words: &'static str)
    ensures
        words@ == kind_text(kind),
{
    match kind {
        ErrorKind::DirectoryAlreadyExists => "directory already exists",
        ErrorKind::PathNotUrlRepresentable => "path cannot be written as a URL",
        ErrorKind::ArchiveNotFound => "cached archive not found",
        ErrorKind::IoFailure => "input or output failed",
        ErrorKind::SerializationFailure => "record could not be serialized",
        ErrorKind::RepositoryInitFailure => "index repository could not be created",
        ErrorKind::RepositoryCommitFailure => "failed to commit the index",
    }
}

impl VendorError {
    /// An error that is about no package.
    pub fn new(kind: ErrorKind, detail: String) -> (error: VendorError)
        ensures
            error@ == plain_error(kind, detail@),
    {
        VendorError { kind, package: None, detail }
    }

    /// The same error, said of the package `name` in version `version`. An
    /// error that names a package already is about that one from then on.
    pub fn for_package(self, name: &str, version: &str) -> (error: VendorError)
        ensures
            error@ == package_error(
                self@.kind,
                (IdentModel { name: name@, version: version@ }),
                self@.detail,
            ),
    {
        VendorError {
            kind: self.kind,
            package: Some(PackageIdent { name: name.to_owned(), version: version.to_owned() }),
            detail: self.detail,
        }
    }

    /// The message for the user.
    pub fn message(&self) -> (message: String)
        ensures
            message@ == message_text(self@),
    {
        let mut cause: String = kind_words(self.kind).to_owned();
        cause.append(": ");
        cause.append(self.detail.as_str());
        match &self.package {
            Some(ident) => {
                let mut message: String = "failed to vendor `".to_owned();
                message.append(ident.name.as_str());
                message.append(" v");
                message.append(ident.version.as_str());
                message.append("`: ");
                message.append(cause.as_str());
                assert(message@ =~= message_text(self@));
                message
            },
            None => cause,
        }
    }
}

/// The message of an error about a package holds the package's name and its
/// version.
pub proof fn lemma_message_names_package(error: ErrorModel)
    requires
        error.package is Some,
    ensures
        occurs_in(error.package->0.name, message_text(error)),
        occurs_in(error.package->0.version, message_text(error)),
{
    let ident = error.package->0;
    let cause = kind_text(error.kind) + ": "@ + error.detail;
    let head = "failed to vendor `"@;
    let tail = "`: "@ + cause;
    lemma_occurs_between(Seq::empty(), ident.name, " v"@ + ident.version);
    assert(Seq::<char>::empty() + ident.name + (" v"@ + ident.version) =~= ident_text(ident));
    lemma_occurs_between(ident.name + " v"@, ident.version, Seq::empty());
    assert(ident.name + " v"@ + ident.version + Seq::<char>::empty() =~= ident_text(ident));
    lemma_occurs_within(ident.name, ident_text(ident), head, tail);
    lemma_occurs_within(ident.version, ident_text(ident), head, tail);
    assert(head + ident_text(ident) + tail =~= message_text(error));
}

} // verus!
