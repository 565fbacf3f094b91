//! A vendoring run, step by step.
//!
//! The run itself touches no file. It names one action at a time, is told
//! how the action went, and names the next: the two roots, the index
//! repository and its configuration first, then for each package, in the
//! order given, its archive and its record, and at last the commit. The
//! first failure ends the run.

use vstd::prelude::*;
use crate::checksum::{checksum, checksum_text};
use crate::error::{
    ErrorKind, ErrorModel, IdentModel, VendorError, package_error, plain_error,
};
use crate::json::{encode_record, encoding_failure, record_encodable, record_text};
use crate::layout::{
    archive_path, archive_path_text, config_json, config_path, config_path_text, config_text,
    directory_url, download_dir, download_dir_text, download_path, download_path_text,
    download_root, download_root_text, file_url, index_file, index_file_dir,
    index_file_dir_text, index_file_text, index_root, index_root_text, no_url,
};
use crate::record::{PackageDescriptor, PackageModel, RegistryPackage, record_of};

verus! {

/// Where a run stands: what the last action named was for. The number is
/// the place of the package in the list.
#[derive(Clone, Copy, Debug, PartialEq, Eq, Structural)]
pub enum Stage {
    CreatingDownloadRoot,
    CreatingIndexRoot,
    InitialisingIndex,
    WritingConfig,
    PreparingDownload(usize),
    CopyingArchive(usize),
    ReadingArchive(usize),
    PreparingIndex(usize),
    AppendingRecord(usize),
    Committing,
    Finished,
    Failed,
}

/// Why an action failed, as far as the run tells causes apart.
#[derive(Clone, Copy, Debug, PartialEq, Eq, Structural)]
pub enum Cause {
    AlreadyExists,
    NotFound,
    Other,
}

/// A failed action: its cause and what the system said.
#[derive(Clone, Debug)]
pub struct Failure {
    pub cause: Cause,
    pub detail: String,
}

/// How the last action went.
#[derive(Clone, Debug)]
pub enum Event {
    /// It was done.
    Done,
    /// It was done and read these bytes.
    Read(Vec<u8>),
    /// It failed.
    Failed(Failure),
}

/// What is to be done next.
#[derive(Clone, Debug)]
pub enum Action {
    /// Create one directory; its parent is there, and it must not be.
    CreateDir { path: String },
    /// Create a directory and the parents it lacks.
    CreateDirAll { path: String },
    /// Set up an empty repository in a directory that is there.
    InitRepository { path: String },
    /// Create a file with this content.
    WriteFile { path: String, content: String },
    /// Copy a file.
    CopyFile { from: String, to: String },
    /// Read a whole file and hand its bytes back.
    ReadFile { path: String },
    /// Add this content to the end of a file, creating the file if need be.
    Append { path: String, content: String },
    /// Stage every file of the repository and commit them, without a parent.
    Commit { path: String, message: String },
    /// The run is over: tell the user the URL of the index.
    Report { index_url: String },
    /// The run is over: it failed.
    Fail { error: VendorError },
    /// Nothing: the run was over before.
    Idle,
}

/// A vendoring run.
#[derive(Debug)]
pub struct Vendoring {
    root: String,
    cache_root: String,
    packages: Vec<PackageDescriptor>,
    stage: Stage,
    index_url: String,
    download_url: String,
    line: String,
}

/// An event as plain values.
pub enum EventModel {
    Done,
    Read(Seq<u8>),
    Failed { cause: Cause, detail: Seq<char> },
}

/// An action as plain values.
pub enum ActionModel {
    CreateDir { path: Seq<char> },
    CreateDirAll { path: Seq<char> },
    InitRepository { path: Seq<char> },
    WriteFile { path: Seq<char>, content: Seq<char> },
    CopyFile { from: Seq<char>, to: Seq<char> },
    ReadFile { path: Seq<char> },
    Append { path: Seq<char>, content: Seq<char> },
    Commit { path: Seq<char>, message: Seq<char> },
    Report { index_url: Seq<char> },
    Fail { error: ErrorModel },
    Idle,
}

/// A run as plain values: the registry root, the root of the cache, the
/// packages, the stage, the two URLs once they are known, and the line of
/// the package at hand once its archive is read.
pub struct VendoringModel {
    pub root: Seq<char>,
    pub cache_root: Seq<char>,
    pub packages: Seq<PackageModel>,
    pub stage: Stage,
    pub index_url: Seq<char>,
    pub download_url: Seq<char>,
    pub line: Seq<char>,
}

impl View for Event {
    type V = EventModel;

    open spec fn view(&self) -> EventModel {
        match self {
            Event::Done => EventModel::Done,
            Event::Read(bytes) => EventModel::Read(bytes@),
            Event::Failed(failure) => EventModel::Failed {
                cause: failure.cause,
                detail: failure.detail@,
            },
        }
    }
}

impl View for Action {
    type V = ActionModel;

    open spec fn view(&self) -> ActionModel {
        match self {
            Action::CreateDir { path } => ActionModel::CreateDir { path: path@ },
            Action::CreateDirAll { path } => ActionModel::CreateDirAll { path: path@ },
            Action::InitRepository { path } => ActionModel::InitRepository { path: path@ },
            Action::WriteFile { path, content } => ActionModel::WriteFile {
                path: path@,
                content: content@,
            },
            Action::CopyFile { from, to } => ActionModel::CopyFile { from: from@, to: to@ },
            Action::ReadFile { path } => ActionModel::ReadFile { path: path@ },
            Action::Append { path, content } => ActionModel::Append {
                path: path@,
                content: content@,
            },
            Action::Commit { path, message } => ActionModel::Commit {
                path: path@,
                message: message@,
            },
            Action::Report { index_url } => ActionModel::Report { index_url: index_url@ },
            Action::Fail { error } => ActionModel::Fail { error: error@ },
            Action::Idle => ActionModel::Idle,
        }
    }
}

/// The packages of a list as plain values.
pub open spec fn package_models(packages: Seq<PackageDescriptor>) -> Seq<PackageModel> {
    Seq::new(packages.len(), |i: int| packages[i]@)
}

impl View for Vendoring {
    type V = VendoringModel;

    closed spec fn view(&self) -> VendoringModel {
        VendoringModel {
            root: self.root@,
            cache_root: self.cache_root@,
            packages: package_models(self.packages@),
            stage: self.stage,
            index_url: self.index_url@,
            download_url: self.download_url@,
            line: self.line@,
        }
    }
}

/// The package that a stage works on, if it works on one.
pub open spec fn stage_package(stage: Stage) -> Option<usize> {
    match stage {
        Stage::PreparingDownload(i) => Some(i),
        Stage::CopyingArchive(i) => Some(i),
        Stage::ReadingArchive(i) => Some(i),
        Stage::PreparingIndex(i) => Some(i),
        Stage::AppendingRecord(i) => Some(i),
        _ => None,
    }
}

/// A run is well formed if every package has a name and the run works on a
/// package of its list, if on any.
pub open spec fn well_formed(run: VendoringModel) -> bool {
    &&& forall|i: int| 0 <= i < run.packages.len() ==> (#[trigger] run.packages[i]).name.len() > 0
    &&& stage_package(run.stage) matches Some(i) ==> i < run.packages.len()
}

/// The name and the version of a package.
pub open spec fn ident_of(package: PackageModel) -> IdentModel {
    IdentModel { name: package.name, version: package.version }
}

/// The line that the index gets for a package whose copied archive holds
/// `archive`: its record, with the checksum of these bytes, and a line end.
pub open spec fn line_text(package: PackageModel, archive: Seq<u8>) -> Seq<char> {
    record_text(record_of(package, checksum_text(archive))) + "\n"@
}

/// The JSON encoder writes the record of a package whose copied archive
/// holds `archive`.
pub open spec fn line_encodable(package: PackageModel, archive: Seq<u8>) -> bool {
    record_encodable(record_of(package, checksum_text(archive)))
}

/// Where the cache is expected to hold the archive of a package.
pub open spec fn package_archive_text(run: VendoringModel, package: PackageModel) -> Seq<char> {
    archive_path_text(
        run.cache_root,
        package.host,
        package.short_hash,
        package.name,
        package.version,
    )
}

/// What the error says of an archive that the cache does not hold.
pub open spec fn missing_archive_text(path: Seq<char>) -> Seq<char> {
    "cached crate file `"@ + path + "` doesn't exist"@
}

/// The kind of the error for an action that failed at a stage.
pub open spec fn failure_kind(stage: Stage, cause: Cause) -> ErrorKind {
    match stage {
        Stage::CreatingDownloadRoot | Stage::CreatingIndexRoot => if cause
            == Cause::AlreadyExists {
            ErrorKind::DirectoryAlreadyExists
        } else {
            ErrorKind::IoFailure
        },
        Stage::InitialisingIndex => ErrorKind::RepositoryInitFailure,
        Stage::CopyingArchive(_) => if cause == Cause::NotFound {
            ErrorKind::ArchiveNotFound
        } else {
            ErrorKind::IoFailure
        },
        Stage::Committing => ErrorKind::RepositoryCommitFailure,
        _ => ErrorKind::IoFailure,
    }
}

/// An error of the given kind at the stage of the run: about the package
/// that the stage works on, if it works on one.
pub open spec fn error_at(run: VendoringModel, kind: ErrorKind, detail: Seq<char>) -> ErrorModel {
    match stage_package(run.stage) {
        Some(i) => package_error(kind, ident_of(run.packages[i as int]), detail),
        None => plain_error(kind, detail),
    }
}

/// The error for an action that failed.
pub open spec fn failure_error(run: VendoringModel, cause: Cause, detail: Seq<char>) -> ErrorModel {
    let kind = failure_kind(run.stage, cause);
    match run.stage {
        Stage::CopyingArchive(i) if cause == Cause::NotFound => error_at(
            run,
            kind,
            missing_archive_text(package_archive_text(run, run.packages[i as int])),
        ),
        _ => error_at(run, kind, detail),
    }
}

/// The error for an event that does not answer the action named last.
pub open spec fn unexpected_error(run: VendoringModel) -> ErrorModel {
    error_at(run, ErrorKind::IoFailure, "the event does not answer the action"@)
}

/// The run fails with `error`.
pub open spec fn failing(run: VendoringModel, error: ErrorModel) -> (VendoringModel, ActionModel) {
    (VendoringModel { stage: Stage::Failed, ..run }, ActionModel::Fail { error })
}

/// The run turns to the package at `i`, or to the commit after the last.
pub open spec fn entering(run: VendoringModel, i: int) -> (VendoringModel, ActionModel) {
    if 0 <= i < run.packages.len() {
        (
            VendoringModel { stage: Stage::PreparingDownload(i as usize), ..run },
            ActionModel::CreateDirAll {
                path: download_dir_text(run.root, run.packages[i].name, run.packages[i].version),
            },
        )
    } else {
        (
            VendoringModel { stage: Stage::Committing, ..run },
            ActionModel::Commit {
                path: index_root_text(run.root),
                message: "Initial commit"@,
            },
        )
    }
}

/// What follows an action that was done.
pub open spec fn proceeding(run: VendoringModel) -> (VendoringModel, ActionModel) {
    match run.stage {
        Stage::CreatingDownloadRoot => (
            VendoringModel { stage: Stage::CreatingIndexRoot, ..run },
            ActionModel::CreateDir { path: index_root_text(run.root) },
        ),
        Stage::CreatingIndexRoot => {
            let index = index_root_text(run.root);
            let download = download_root_text(run.root);
            match (file_url(index), file_url(download)) {
                (None, _) => failing(run, no_url(index)),
                (Some(_), None) => failing(run, no_url(download)),
                (Some(index_url), Some(download_url)) => (
                    VendoringModel {
                        stage: Stage::InitialisingIndex,
                        index_url,
                        download_url,
                        ..run
                    },
                    ActionModel::InitRepository { path: index },
                ),
            }
        },
        Stage::InitialisingIndex => (
            VendoringModel { stage: Stage::WritingConfig, ..run },
            ActionModel::WriteFile {
                path: config_path_text(run.root),
                content: config_text(run.download_url),
            },
        ),
        Stage::WritingConfig => entering(run, 0),
        Stage::PreparingDownload(i) => {
            let package = run.packages[i as int];
            (
                VendoringModel { stage: Stage::CopyingArchive(i), ..run },
                ActionModel::CopyFile {
                    from: package_archive_text(run, package),
                    to: download_path_text(run.root, package.name, package.version),
                },
            )
        },
        Stage::CopyingArchive(i) => {
            let package = run.packages[i as int];
            (
                VendoringModel { stage: Stage::ReadingArchive(i), ..run },
                ActionModel::ReadFile {
                    path: download_path_text(run.root, package.name, package.version),
                },
            )
        },
        Stage::ReadingArchive(_) => failing(run, unexpected_error(run)),
        Stage::PreparingIndex(i) => (
            VendoringModel { stage: Stage::AppendingRecord(i), ..run },
            ActionModel::Append {
                path: index_file_text(run.root, run.packages[i as int].name),
                content: run.line,
            },
        ),
        Stage::AppendingRecord(i) => entering(run, i + 1),
        Stage::Committing => (
            VendoringModel { stage: Stage::Finished, ..run },
            ActionModel::Report { index_url: run.index_url },
        ),
        Stage::Finished | Stage::Failed => (run, ActionModel::Idle),
    }
}

/// What follows a read that handed `archive` back: the line of the package
/// is made, or the run fails where the JSON encoder does not write it.
pub open spec fn recording(run: VendoringModel, archive: Seq<u8>) -> (VendoringModel, ActionModel) {
    match run.stage {
        Stage::ReadingArchive(i) => {
            let package = run.packages[i as int];
            if line_encodable(package, archive) {
                (
                    VendoringModel {
                        stage: Stage::PreparingIndex(i),
                        line: line_text(package, archive),
                        ..run
                    },
                    ActionModel::CreateDirAll {
                        path: index_file_dir_text(run.root, package.name),
                    },
                )
            } else {
                failing(
                    run,
                    error_at(run, ErrorKind::SerializationFailure, encoding_failure().detail),
                )
            }
        },
        _ => failing(run, unexpected_error(run)),
    }
}

/// The step of a run: the run after an event and the action it names then.
pub open spec fn next(run: VendoringModel, event: EventModel) -> (VendoringModel, ActionModel) {
    match run.stage {
        Stage::Finished | Stage::Failed => (run, ActionModel::Idle),
        _ => match event {
            EventModel::Failed { cause, detail } => failing(
                run,
                failure_error(run, cause, detail),
            ),
            EventModel::Done => proceeding(run),
            EventModel::Read(archive) => recording(run, archive),
        },
    }
}

/// The start of a run: nothing is done yet but to name the first action.
pub open spec fn begin(cache_root: Seq<char>, packages: Seq<PackageModel>, root: Seq<char>) -> (
    VendoringModel,
    ActionModel,
) {
    (
        VendoringModel {
            root,
            cache_root,
            packages,
            stage: Stage::CreatingDownloadRoot,
            index_url: Seq::empty(),
            download_url: Seq::empty(),
            line: Seq::empty(),
        },
        ActionModel::CreateDir { path: download_root_text(root) },
    )
}

/// Tells whether every package has a name, as a run asks of its packages.
pub fn all_named(packages: &Vec<PackageDescriptor>) -> (named: bool)
    ensures
        named == forall|i: int|
            0 <= i < packages@.len() ==> (#[trigger] packages@[i]).name@.len() > 0,
{
    let mut i: usize = 0;
    while i < packages.len()
        invariant
            i <= packages.len(),
            forall|k: int| 0 <= k < i ==> (#[trigger] packages@[k]).name@.len() > 0,
        decreases packages.len() - i,
    {
        if packages[i].name.as_str().is_empty() {
            return false;
        }
        i += 1;
    }
    true
}

/// Computes the line that the index gets for `package` from the bytes of its
/// copied archive: the record with the SHA-256 checksum of these bytes, as
/// JSON, and a line end. It fails if and only if the JSON encoder does not
/// write one of the record's texts.
pub fn vendor_package(package: &PackageDescriptor, archive: &[u8]) -> (line: Result<
    String,
    VendorError,
>)
    ensures
        match line {
            Ok(text) => line_encodable(package@, archive@) && text@ == line_text(
                package@,
                archive@,
            ),
            Err(error) => !line_encodable(package@, archive@) && error@ == encoding_failure(),
        },
{
    let record = RegistryPackage::new(package, checksum(archive));
    let mut text: String = encode_record(&record)?;
    text.append("\n");
    Ok(text)
}

/// Begins a run that vendors `packages`, whose archives the cache below
/// `cache_root` holds, into the directory `into`. The caller performs the
/// action, then hands what happened to `advance`, and so on until the run
/// names `Report` or `Fail`.
pub fn vendor(cache_root: &str, packages: Vec<PackageDescriptor>, into: &str) -> (run: (
    Vendoring,
    Action,
))
    requires
        forall|i: int| 0 <= i < packages@.len() ==> (#[trigger] packages@[i]).name@.len() > 0,
    ensures
        (run.0@, run.1@) == begin(cache_root@, package_models(packages@), into@),
        run.0.wf(),
{
    let action = Action::CreateDir { path: download_root(into) };
    let run = Vendoring {
        root: into.to_owned(),
        cache_root: cache_root.to_owned(),
        packages,
        stage: Stage::CreatingDownloadRoot,
        index_url: String::new(),
        download_url: String::new(),
        line: String::new(),
    };
    (run, action)
}

impl Vendoring {
    /// The run is well formed.
    pub closed spec fn wf(&self) -> bool {
        well_formed(self@)
    }

    /// Where the run stands.
    pub fn stage(&self) -> (stage: Stage)
        ensures
            stage == self@.stage,
    {
        self.stage
    }

    /// The run is over: it named `Report` or `Fail`.
    pub fn is_over(&self) -> (over: bool)
        ensures
            over == (self@.stage == Stage::Finished || self@.stage == Stage::Failed),
    {
        match self.stage {
            Stage::Finished => true,
            Stage::Failed => true,
            _ => false,
        }
    }

    /// What a well-formed run knows of the package at `i`.
    proof fn lemma_package(&self, i: int)
        requires
            self.wf(),
            0 <= i < self.packages@.len(),
        ensures
            self@.packages[i] == self.packages@[i]@,
            self.packages@[i].name@.len() > 0,
    {
        assert(self@.packages[i].name.len() > 0);
    }

    /// A run stays well formed as long as its packages stay and it works on
    /// one of them.
    proof fn lemma_stays_wf(&self, before: &Vendoring)
        requires
            before.wf(),
            self@.packages == before@.packages,
            stage_package(self@.stage) matches Some(i) ==> i < self@.packages.len(),
        ensures
            self.wf(),
    {
        assert forall|i: int| 0 <= i < self@.packages.len() implies (
        #[trigger] self@.packages[i]).name.len() > 0 by {
            assert(before@.packages[i].name.len() > 0);
        }
    }

    /// Says an error of the package that the run works on, if on any.
    fn error_here(&self, kind: ErrorKind, detail: String) -> (error: VendorError)
        requires
            self.wf(),
        ensures
            error@ == error_at(self@, kind, detail@),
    {
        let error = VendorError::new(kind, detail);
        let at: Option<usize> = match self.stage {
            Stage::PreparingDownload(i) => Some(i),
            Stage::CopyingArchive(i) => Some(i),
            Stage::ReadingArchive(i) => Some(i),
            Stage::PreparingIndex(i) => Some(i),
            Stage::AppendingRecord(i) => Some(i),
            _ => None,
        };
        match at {
            Some(i) => {
                let package = &self.packages[i];
                error.for_package(package.name.as_str(), package.version.as_str())
            },
            None => error,
        }
    }

    /// Ends the run with an error.
    fn fail(&mut self, error: VendorError) -> (action: Action)
        requires
            old(self).wf(),
        ensures
            final(self).wf(),
            (final(self)@, action@) == failing(old(self)@, error@),
    {
        self.stage = Stage::Failed;
        proof {
            self.lemma_stays_wf(old(self));
        }
        Action::Fail { error }
    }

    /// Where the cache is expected to hold the archive of the package at `i`.
    fn archive_of(&self, i: usize) -> (path: String)
        requires
            i < self@.packages.len(),
        ensures
            path@ == package_archive_text(self@, self@.packages[i as int]),
    {
        let package = &self.packages[i];
        archive_path(
            self.cache_root.as_str(),
            package.source.host.as_str(),
            package.source.short_hash.as_str(),
            package.name.as_str(),
            package.version.as_str(),
        )
    }

    /// Turns to the package at `i`, or to the commit after the last.
    fn enter(&mut self, i: usize) -> (action: Action)
        requires
            old(self).wf(),
            i <= old(self)@.packages.len(),
        ensures
            final(self).wf(),
            (final(self)@, action@) == entering(old(self)@, i as int),
    {
        if i < self.packages.len() {
            self.stage = Stage::PreparingDownload(i);
            proof {
                self.lemma_stays_wf(old(self));
            }
            let package = &self.packages[i];
            Action::CreateDirAll {
                path: download_dir(
                    self.root.as_str(),
                    package.name.as_str(),
                    package.version.as_str(),
                ),
            }
        } else {
            self.stage = Stage::Committing;
            proof {
                self.lemma_stays_wf(old(self));
            }
            Action::Commit {
                path: index_root(self.root.as_str()),
                message: "Initial commit".to_owned(),
            }
        }
    }

    /// The error for a failed action.
    fn failure(&self, failure: Failure) -> (error: VendorError)
        requires
            self.wf(),
        ensures
            error@ == failure_error(self@, failure.cause, failure.detail@),
    {
        match self.stage {
            Stage::CreatingDownloadRoot | Stage::CreatingIndexRoot => match failure.cause {
                Cause::AlreadyExists => self.error_here(
                    ErrorKind::DirectoryAlreadyExists,
                    failure.detail,
                ),
                _ => self.error_here(ErrorKind::IoFailure, failure.detail),
            },
            Stage::InitialisingIndex => self.error_here(
                ErrorKind::RepositoryInitFailure,
                failure.detail,
            ),
            Stage::CopyingArchive(i) => match failure.cause {
                Cause::NotFound => {
                    let mut detail: String = "cached crate file `".to_owned();
                    detail.append(self.archive_of(i).as_str());
                    detail.append("` doesn't exist");
                    self.error_here(ErrorKind::ArchiveNotFound, detail)
                },
                _ => self.error_here(ErrorKind::IoFailure, failure.detail),
            },
            Stage::Committing => self.error_here(
                ErrorKind::RepositoryCommitFailure,
                failure.detail,
            ),
            _ => self.error_here(ErrorKind::IoFailure, failure.detail),
        }
    }

    /// The error for an event that does not answer the action named last.
    fn unexpected(&self) -> (error: VendorError)
        requires
            self.wf(),
        ensures
            error@ == unexpected_error(self@),
    {
        self.error_here(ErrorKind::IoFailure, "the event does not answer the action".to_owned())
    }

    /// Goes on after an action that was done.
    fn proceed(&mut self) -> (action: Action)
        requires
            old(self).wf(),
        ensures
            final(self).wf(),
            (final(self)@, action@) == proceeding(old(self)@),
    {
        proof {
            if let Some(i) = stage_package(self@.stage) {
                self.lemma_package(i as int);
            }
        }
        match self.stage {
            Stage::CreatingDownloadRoot => {
                self.stage = Stage::CreatingIndexRoot;
                proof {
                    self.lemma_stays_wf(old(self));
                }
                Action::CreateDir { path: index_root(self.root.as_str()) }
            },
            Stage::CreatingIndexRoot => {
                let index: String = index_root(self.root.as_str());
                let download: String = download_root(self.root.as_str());
                let index_url: String = match directory_url(index.as_str()) {
                    Ok(url) => url,
                    Err(error) => {
                        return self.fail(error);
                    },
                };
                let download_url: String = match directory_url(download.as_str()) {
                    Ok(url) => url,
                    Err(error) => {
                        return self.fail(error);
                    },
                };
                self.index_url = index_url;
                self.download_url = download_url;
                self.stage = Stage::InitialisingIndex;
                proof {
                    self.lemma_stays_wf(old(self));
                }
                Action::InitRepository { path: index }
            },
            Stage::InitialisingIndex => {
                self.stage = Stage::WritingConfig;
                proof {
                    self.lemma_stays_wf(old(self));
                }
                Action::WriteFile {
                    path: config_path(self.root.as_str()),
                    content: config_json(self.download_url.as_str()),
                }
            },
            Stage::WritingConfig => self.enter(0),
            Stage::PreparingDownload(i) => {
                self.stage = Stage::CopyingArchive(i);
                proof {
                    self.lemma_stays_wf(old(self));
                }
                let package = &self.packages[i];
                Action::CopyFile {
                    from: self.archive_of(i),
                    to: download_path(
                        self.root.as_str(),
                        package.name.as_str(),
                        package.version.as_str(),
                    ),
                }
            },
            Stage::CopyingArchive(i) => {
                self.stage = Stage::ReadingArchive(i);
                proof {
                    self.lemma_stays_wf(old(self));
                }
                let package = &self.packages[i];
                Action::ReadFile {
                    path: download_path(
                        self.root.as_str(),
                        package.name.as_str(),
                        package.version.as_str(),
                    ),
                }
            },
            Stage::ReadingArchive(_) => {
                let error = self.unexpected();
                self.fail(error)
            },
            Stage::PreparingIndex(i) => {
                self.stage = Stage::AppendingRecord(i);
                proof {
                    self.lemma_stays_wf(old(self));
                }
                Action::Append {
                    path: index_file(self.root.as_str(), self.packages[i].name.as_str()),
                    content: self.line.clone(),
                }
            },
            Stage::AppendingRecord(i) => {
                let count: usize = self.packages.len();
                assert(i < count);
                self.enter(i + 1)
            },
            Stage::Committing => {
                self.stage = Stage::Finished;
                proof {
                    self.lemma_stays_wf(old(self));
                }
                Action::Report { index_url: self.index_url.clone() }
            },
            Stage::Finished => Action::Idle,
            Stage::Failed => Action::Idle,
        }
    }

    /// Goes on after a read.
    fn record(&mut self, archive: &[u8]) -> (action: Action)
        requires
            old(self).wf(),
        ensures
            final(self).wf(),
            (final(self)@, action@) == recording(old(self)@, archive@),
    {
        proof {
            if let Some(i) = stage_package(self@.stage) {
                self.lemma_package(i as int);
            }
        }
        match self.stage {
            Stage::ReadingArchive(i) => {
                match vendor_package(&self.packages[i], archive) {
                    Ok(line) => {
                        self.line = line;
                        self.stage = Stage::PreparingIndex(i);
                        proof {
                            self.lemma_stays_wf(old(self));
                            self.lemma_package(i as int);
                        }
                        Action::CreateDirAll {
                            path: index_file_dir(
                                self.root.as_str(),
                                self.packages[i].name.as_str(),
                            ),
                        }
                    },
                    Err(error) => {
                        let error = self.error_here(error.kind, error.detail);
                        self.fail(error)
                    },
                }
            },
            _ => {
                let error = self.unexpected();
                self.fail(error)
            },
        }
    }

    /// Takes what happened to the action named last and names the next one.
    pub fn advance(&mut self, event: Event) -> (action: Action)
        requires
            old(self).wf(),
        ensures
            final(self).wf(),
            (final(self)@, action@) == next(old(self)@, event@),
    {
        if self.is_over() {
            return Action::Idle;
        }
        match event {
            Event::Done => self.proceed(),
            Event::Read(archive) => self.record(archive.as_slice()),
            Event::Failed(failure) => {
                let error = self.failure(failure);
                self.fail(error)
            },
        }
    }
}

} // verus!
