use std::collections::{BTreeMap, BTreeSet};

use local_registry::checksum::checksum;
use local_registry::error::{ErrorKind, VendorError};
use local_registry::record::{
    CacheSource, DependencyDescriptor, DependencyKind, FeatureTable, PackageDescriptor,
};
use local_registry::registry::{
    all_named, vendor, vendor_package, Action, Cause, Event, Failure, Stage, Vendoring,
};

const CACHE: &str = "/home/u/.cargo/registry/cache";
const SOURCE: &str = "/home/u/.cargo/registry/cache/github.com-1ecc6299db9ec823";

struct Disk {
    dirs: BTreeSet<String>,
    files: BTreeMap<String, Vec<u8>>,
    commits: Vec<Vec<String>>,
    log: Vec<String>,
}

enum Outcome {
    Reported(String),
    Failed(VendorError),
}

fn disk() -> Disk {
    Disk { dirs: BTreeSet::new(), files: BTreeMap::new(), commits: Vec::new(), log: Vec::new() }
}

fn failed(cause: Cause, detail: &str) -> Event {
    Event::Failed(Failure { cause, detail: detail.to_string() })
}

fn perform(disk: &mut Disk, action: Action) -> Result<Event, Outcome> {
    match action {
        Action::CreateDir { path } => {
            disk.log.push(format!("mkdir {}", path));
            if disk.dirs.contains(&path) {
                return Ok(failed(Cause::AlreadyExists, "File exists"));
            }
            disk.dirs.insert(path);
            Ok(Event::Done)
        }
        Action::CreateDirAll { path } => {
            disk.log.push(format!("mkdir -p {}", path));
            disk.dirs.insert(path);
            Ok(Event::Done)
        }
        Action::InitRepository { path } => {
            disk.log.push(format!("init {}", path));
            disk.dirs.insert(path);
            Ok(Event::Done)
        }
        Action::WriteFile { path, content } => {
            disk.log.push(format!("write {}", path));
            disk.files.insert(path, content.into_bytes());
            Ok(Event::Done)
        }
        Action::CopyFile { from, to } => {
            disk.log.push(format!("copy {} {}", from, to));
            match disk.files.get(&from).cloned() {
                Some(bytes) => {
                    disk.files.insert(to, bytes);
                    Ok(Event::Done)
                }
                None => Ok(failed(Cause::NotFound, "No such file or directory")),
            }
        }
        Action::ReadFile { path } => {
            disk.log.push(format!("read {}", path));
            match disk.files.get(&path).cloned() {
                Some(bytes) => Ok(Event::Read(bytes)),
                None => Ok(failed(Cause::NotFound, "No such file or directory")),
            }
        }
        Action::Append { path, content } => {
            disk.log.push(format!("append {}", path));
            disk.files.entry(path).or_insert_with(Vec::new).extend(content.into_bytes());
            Ok(Event::Done)
        }
        Action::Commit { path, message } => {
            disk.log.push(format!("commit {} {}", path, message));
            let prefix = format!("{}/", path);
            let staged = disk.files.keys().filter(|k| k.starts_with(&prefix)).cloned().collect();
            disk.commits.push(staged);
            Ok(Event::Done)
        }
        Action::Report { index_url } => Err(Outcome::Reported(index_url)),
        Action::Fail { error } => Err(Outcome::Failed(error)),
        Action::Idle => panic!("the run was over"),
    }
}

fn drive(disk: &mut Disk, packages: Vec<PackageDescriptor>, root: &str) -> (Vendoring, Outcome) {
    assert!(all_named(&packages));
    let (mut run, mut action) = vendor(CACHE, packages, root);
    loop {
        match perform(disk, action) {
            Ok(event) => action = run.advance(event),
            Err(outcome) => return (run, outcome),
        }
    }
}

fn package(name: &str, version: &str) -> PackageDescriptor {
    let mut features = FeatureTable::new();
    features.insert("default".to_string(), vec!["std".to_string()]);
    PackageDescriptor {
        name: name.to_string(),
        version: version.to_string(),
        dependencies: vec![DependencyDescriptor {
            name: "libc".to_string(),
            req: "^0.2".to_string(),
            features: Vec::new(),
            optional: true,
            default_features: false,
            target: None,
            kind: DependencyKind::Development,
        }],
        features,
        source: CacheSource {
            host: "github.com".to_string(),
            short_hash: "1ecc6299db9ec823".to_string(),
        },
    }
}

fn cached(disk: &mut Disk, name: &str, version: &str, bytes: &[u8]) {
    disk.files.insert(format!("{}/{}-{}.crate", SOURCE, name, version), bytes.to_vec());
}

fn text(disk: &Disk, path: &str) -> String {
    String::from_utf8(disk.files.get(path).expect(path).clone()).unwrap()
}

fn line(name: &str, version: &str, bytes: &[u8]) -> String {
    format!(
        "{{\"name\":\"{}\",\"vers\":\"{}\",\"deps\":[{{\"name\":\"libc\",\"req\":\"^0.2\",\
         \"features\":[],\"optional\":true,\"default_features\":false,\"target\":null,\
         \"kind\":\"dev\"}}],\"features\":{{\"default\":[\"std\"]}},\"cksum\":\"{}\",\
         \"yanked\":false}}\n",
        name,
        version,
        checksum(bytes)
    )
}

#[test]
fn empty_collection_gives_a_configured_and_committed_registry() {
    let mut disk = disk();
    let (run, outcome) = drive(&mut disk, Vec::new(), "/tmp/reg");
    match outcome {
        Outcome::Reported(url) => assert_eq!(url, "file:///tmp/reg/index"),
        Outcome::Failed(error) => panic!("{}", error.message()),
    }
    assert_eq!(run.stage(), Stage::Finished);
    assert!(run.is_over());
    assert_eq!(
        text(&disk, "/tmp/reg/index/config.json"),
        "{\"dl\":\"file:///tmp/reg/cache\",\"api\":\"\"}"
    );
    assert_eq!(disk.commits, vec![vec!["/tmp/reg/index/config.json".to_string()]]);
    assert_eq!(
        disk.log,
        vec![
            "mkdir /tmp/reg/cache",
            "mkdir /tmp/reg/index",
            "init /tmp/reg/index",
            "write /tmp/reg/index/config.json",
            "commit /tmp/reg/index Initial commit",
        ]
    );
}

#[test]
fn one_package_goes_through_its_five_steps() {
    let mut disk = disk();
    cached(&mut disk, "serde", "1.0.3", b"serde archive");
    let (_, outcome) = drive(&mut disk, vec![package("serde", "1.0.3")], "/tmp/reg");
    assert!(matches!(outcome, Outcome::Reported(_)));
    assert_eq!(
        disk.log,
        vec![
            "mkdir /tmp/reg/cache".to_string(),
            "mkdir /tmp/reg/index".to_string(),
            "init /tmp/reg/index".to_string(),
            "write /tmp/reg/index/config.json".to_string(),
            "mkdir -p /tmp/reg/cache/serde/1.0.3".to_string(),
            format!("copy {}/serde-1.0.3.crate /tmp/reg/cache/serde/1.0.3/download", SOURCE),
            "read /tmp/reg/cache/serde/1.0.3/download".to_string(),
            "mkdir -p /tmp/reg/index/se/rd".to_string(),
            "append /tmp/reg/index/se/rd/serde".to_string(),
            "commit /tmp/reg/index Initial commit".to_string(),
        ]
    );
    assert_eq!(disk.files["/tmp/reg/cache/serde/1.0.3/download"], b"serde archive".to_vec());
    assert_eq!(
        text(&disk, "/tmp/reg/index/se/rd/serde"),
        line("serde", "1.0.3", b"serde archive")
    );
    assert_eq!(
        disk.commits,
        vec![vec![
            "/tmp/reg/index/config.json".to_string(),
            "/tmp/reg/index/se/rd/serde".to_string()
        ]]
    );
}

#[test]
fn checksum_in_the_record_is_that_of_the_copied_bytes() {
    let mut disk = disk();
    cached(&mut disk, "ab", "0.1.0", &[0u8, 1, 2, 3, 255]);
    let (_, outcome) = drive(&mut disk, vec![package("ab", "0.1.0")], "/tmp/reg");
    assert!(matches!(outcome, Outcome::Reported(_)));
    let copied = disk.files["/tmp/reg/cache/ab/0.1.0/download"].clone();
    let record = text(&disk, "/tmp/reg/index/2/ab");
    assert!(record.contains(&format!("\"cksum\":\"{}\"", checksum(&copied))));
}

#[test]
fn checksum_goes_by_what_was_read_back() {
    let (mut run, _) = vendor(CACHE, vec![package("ab", "0.1.0")], "/tmp/reg");
    for _ in 0..6 {
        run.advance(Event::Done);
    }
    assert_eq!(run.stage(), Stage::ReadingArchive(0));
    run.advance(Event::Read(b"damaged on the way".to_vec()));
    match run.advance(Event::Done) {
        Action::Append { path, content } => {
            assert_eq!(path, "/tmp/reg/index/2/ab");
            assert_eq!(content, line("ab", "0.1.0", b"damaged on the way"));
        }
        other => panic!("{:?}", other),
    }
}

#[test]
fn two_versions_of_one_name_give_two_lines_in_input_order() {
    let mut disk = disk();
    cached(&mut disk, "serde", "1.0.3", b"newer");
    cached(&mut disk, "serde", "0.9.0", b"older");
    cached(&mut disk, "libc", "0.2.1", b"libc");
    let packages =
        vec![package("serde", "1.0.3"), package("libc", "0.2.1"), package("serde", "0.9.0")];
    let (_, outcome) = drive(&mut disk, packages, "/tmp/reg");
    assert!(matches!(outcome, Outcome::Reported(_)));
    let expected =
        format!("{}{}", line("serde", "1.0.3", b"newer"), line("serde", "0.9.0", b"older"));
    assert_eq!(text(&disk, "/tmp/reg/index/se/rd/serde"), expected);
    assert_eq!(text(&disk, "/tmp/reg/index/li/bc/libc"), line("libc", "0.2.1", b"libc"));
    assert_eq!(disk.commits.len(), 1);
}

#[test]
fn the_same_version_twice_gives_the_line_twice() {
    let mut disk = disk();
    cached(&mut disk, "a", "1.0.0", b"a");
    let (_, outcome) =
        drive(&mut disk, vec![package("a", "1.0.0"), package("a", "1.0.0")], "/tmp/reg");
    assert!(matches!(outcome, Outcome::Reported(_)));
    let once = line("a", "1.0.0", b"a");
    assert_eq!(text(&disk, "/tmp/reg/index/1/a"), format!("{}{}", once, once));
}

#[test]
fn missing_archive_fails_the_run_and_names_the_package() {
    let mut disk = disk();
    let (mut run, outcome) = drive(&mut disk, vec![package("serde", "1.0.3")], "/tmp/reg");
    let error = match outcome {
        Outcome::Failed(error) => error,
        Outcome::Reported(_) => panic!("the run must fail"),
    };
    assert_eq!(error.kind, ErrorKind::ArchiveNotFound);
    let message = error.message();
    assert!(message.contains("serde"));
    assert!(message.contains("1.0.3"));
    assert!(message.contains(&format!("{}/serde-1.0.3.crate", SOURCE)));
    assert_eq!(
        message,
        format!(
            "failed to vendor `serde v1.0.3`: cached archive not found: cached crate file \
             `{}/serde-1.0.3.crate` doesn't exist",
            SOURCE
        )
    );
    assert!(disk.commits.is_empty());
    assert!(!disk.files.contains_key("/tmp/reg/index/se/rd/serde"));
    assert!(disk.log.iter().all(|entry| !entry.starts_with("append")));
    assert_eq!(run.stage(), Stage::Failed);
    assert!(matches!(run.advance(Event::Done), Action::Idle));
    assert!(matches!(run.advance(Event::Read(Vec::new())), Action::Idle));
    assert_eq!(run.stage(), Stage::Failed);
}

#[test]
fn missing_archive_of_a_later_package_stops_before_the_commit() {
    let mut disk = disk();
    cached(&mut disk, "a", "1.0.0", b"a");
    let (_, outcome) =
        drive(&mut disk, vec![package("a", "1.0.0"), package("b", "2.0.0")], "/tmp/reg");
    match outcome {
        Outcome::Failed(error) => {
            assert_eq!(error.kind, ErrorKind::ArchiveNotFound);
            let ident = error.package.unwrap();
            assert_eq!(ident.name, "b");
            assert_eq!(ident.version, "2.0.0");
        }
        Outcome::Reported(_) => panic!("the run must fail"),
    }
    assert!(disk.commits.is_empty());
    assert!(!disk.files.contains_key("/tmp/reg/index/1/b"));
}

#[test]
fn copy_that_fails_otherwise_is_an_io_failure() {
    let (mut run, _) = vendor(CACHE, vec![package("a", "1.0.0")], "/tmp/reg");
    for _ in 0..5 {
        run.advance(Event::Done);
    }
    assert_eq!(run.stage(), Stage::CopyingArchive(0));
    match run.advance(failed(Cause::Other, "permission denied")) {
        Action::Fail { error } => {
            assert_eq!(error.kind, ErrorKind::IoFailure);
            assert_eq!(
                error.message(),
                "failed to vendor `a v1.0.0`: input or output failed: permission denied"
            );
        }
        other => panic!("{:?}", other),
    }
}

#[test]
fn existing_download_root_fails_the_run() {
    let mut disk = disk();
    disk.dirs.insert("/tmp/reg/cache".to_string());
    let (_, outcome) = drive(&mut disk, Vec::new(), "/tmp/reg");
    match outcome {
        Outcome::Failed(error) => {
            assert_eq!(error.kind, ErrorKind::DirectoryAlreadyExists);
            assert!(error.package.is_none());
            assert_eq!(error.message(), "directory already exists: File exists");
        }
        Outcome::Reported(_) => panic!("the run must fail"),
    }
    assert!(disk.files.is_empty());
    assert!(disk.commits.is_empty());
}

#[test]
fn download_root_that_cannot_be_created_is_an_io_failure() {
    let (mut run, first) = vendor(CACHE, Vec::new(), "/tmp/reg");
    assert!(matches!(first, Action::CreateDir { ref path } if path == "/tmp/reg/cache"));
    assert_eq!(run.stage(), Stage::CreatingDownloadRoot);
    match run.advance(failed(Cause::NotFound, "no parent")) {
        Action::Fail { error } => assert_eq!(error.kind, ErrorKind::IoFailure),
        other => panic!("{:?}", other),
    }
}

#[test]
fn relative_root_has_no_url() {
    let mut disk = disk();
    let (_, outcome) = drive(&mut disk, Vec::new(), "reg");
    match outcome {
        Outcome::Failed(error) => {
            assert_eq!(error.kind, ErrorKind::PathNotUrlRepresentable);
            assert_eq!(error.detail, "reg/index");
        }
        Outcome::Reported(_) => panic!("the run must fail"),
    }
    assert_eq!(disk.log, vec!["mkdir reg/cache", "mkdir reg/index"]);
}

#[test]
fn repository_that_cannot_be_set_up_fails_the_run() {
    let (mut run, _) = vendor(CACHE, Vec::new(), "/tmp/reg");
    assert!(matches!(run.advance(Event::Done), Action::CreateDir { ref path } if path == "/tmp/reg/index"));
    assert_eq!(run.stage(), Stage::CreatingIndexRoot);
    assert!(matches!(run.advance(Event::Done), Action::InitRepository { ref path } if path == "/tmp/reg/index"));
    assert_eq!(run.stage(), Stage::InitialisingIndex);
    match run.advance(failed(Cause::Other, "not a repository")) {
        Action::Fail { error } => {
            assert_eq!(error.kind, ErrorKind::RepositoryInitFailure);
            assert_eq!(
                error.message(),
                "index repository could not be created: not a repository"
            );
        }
        other => panic!("{:?}", other),
    }
}

#[test]
fn existing_index_fails_the_run() {
    let mut disk = disk();
    disk.dirs.insert("/tmp/reg/index".to_string());
    let (_, outcome) = drive(&mut disk, Vec::new(), "/tmp/reg");
    match outcome {
        Outcome::Failed(error) => {
            assert_eq!(error.kind, ErrorKind::DirectoryAlreadyExists);
            assert_eq!(error.message(), "directory already exists: File exists");
        }
        Outcome::Reported(_) => panic!("the run must fail"),
    }
    assert_eq!(disk.log, vec!["mkdir /tmp/reg/cache", "mkdir /tmp/reg/index"]);
    assert!(disk.commits.is_empty());
}

#[test]
fn index_root_that_cannot_be_created_is_an_io_failure() {
    let (mut run, _) = vendor(CACHE, Vec::new(), "/tmp/reg");
    run.advance(Event::Done);
    match run.advance(failed(Cause::Other, "read-only")) {
        Action::Fail { error } => assert_eq!(error.kind, ErrorKind::IoFailure),
        other => panic!("{:?}", other),
    }
}

#[test]
fn repository_failure_keeps_its_kind_whatever_the_cause() {
    let (mut run, _) = vendor(CACHE, Vec::new(), "/tmp/reg");
    run.advance(Event::Done);
    run.advance(Event::Done);
    match run.advance(failed(Cause::AlreadyExists, "exists")) {
        Action::Fail { error } => assert_eq!(error.kind, ErrorKind::RepositoryInitFailure),
        other => panic!("{:?}", other),
    }
}

#[test]
fn configuration_that_cannot_be_written_is_an_io_failure() {
    let (mut run, _) = vendor(CACHE, Vec::new(), "/tmp/reg");
    run.advance(Event::Done);
    run.advance(Event::Done);
    match run.advance(Event::Done) {
        Action::WriteFile { path, content } => {
            assert_eq!(path, "/tmp/reg/index/config.json");
            assert_eq!(content, "{\"dl\":\"file:///tmp/reg/cache\",\"api\":\"\"}");
        }
        other => panic!("{:?}", other),
    }
    assert_eq!(run.stage(), Stage::WritingConfig);
    match run.advance(failed(Cause::Other, "read-only")) {
        Action::Fail { error } => {
            assert_eq!(error.kind, ErrorKind::IoFailure);
            assert!(error.package.is_none());
        }
        other => panic!("{:?}", other),
    }
}

#[test]
fn commit_that_fails_is_a_failure_of_its_own() {
    let (mut run, _) = vendor(CACHE, Vec::new(), "/tmp/reg");
    run.advance(Event::Done);
    run.advance(Event::Done);
    run.advance(Event::Done);
    match run.advance(Event::Done) {
        Action::Commit { path, message } => {
            assert_eq!(path, "/tmp/reg/index");
            assert_eq!(message, "Initial commit");
        }
        other => panic!("{:?}", other),
    }
    assert_eq!(run.stage(), Stage::Committing);
    match run.advance(failed(Cause::Other, "no signature")) {
        Action::Fail { error } => {
            assert_eq!(error.kind, ErrorKind::RepositoryCommitFailure);
            assert_eq!(error.message(), "failed to commit the index: no signature");
        }
        other => panic!("{:?}", other),
    }
}

#[test]
fn read_that_fails_names_the_package() {
    let (mut run, _) = vendor(CACHE, vec![package("abc", "3.2.1")], "/tmp/reg");
    for _ in 0..6 {
        run.advance(Event::Done);
    }
    match run.advance(failed(Cause::Other, "interrupted")) {
        Action::Fail { error } => {
            assert_eq!(error.kind, ErrorKind::IoFailure);
            assert_eq!(
                error.message(),
                "failed to vendor `abc v3.2.1`: input or output failed: interrupted"
            );
        }
        other => panic!("{:?}", other),
    }
}

#[test]
fn event_that_does_not_answer_the_action_fails_the_run() {
    let (mut run, _) = vendor(CACHE, vec![package("abc", "3.2.1")], "/tmp/reg");
    match run.advance(Event::Read(vec![1, 2, 3])) {
        Action::Fail { error } => {
            assert_eq!(error.kind, ErrorKind::IoFailure);
            assert_eq!(error.detail, "the event does not answer the action");
        }
        other => panic!("{:?}", other),
    }
    let (mut run, _) = vendor(CACHE, vec![package("abc", "3.2.1")], "/tmp/reg");
    for _ in 0..6 {
        run.advance(Event::Done);
    }
    assert_eq!(run.stage(), Stage::ReadingArchive(0));
    match run.advance(Event::Done) {
        Action::Fail { error } => {
            assert_eq!(error.kind, ErrorKind::IoFailure);
            assert_eq!(error.package.unwrap().name, "abc");
        }
        other => panic!("{:?}", other),
    }
}

#[test]
fn finished_run_names_nothing_more() {
    let mut disk = disk();
    let (mut run, _) = drive(&mut disk, Vec::new(), "/tmp/reg");
    assert!(matches!(run.advance(Event::Done), Action::Idle));
    assert!(matches!(run.advance(failed(Cause::Other, "late")), Action::Idle));
    assert_eq!(run.stage(), Stage::Finished);
}

#[test]
fn line_of_a_package_ends_the_line() {
    let text = vendor_package(&package("serde", "1.0.3"), b"bytes").unwrap();
    assert_eq!(text, line("serde", "1.0.3", b"bytes"));
    assert!(text.ends_with("}\n"));
    assert_eq!(text.matches('\n').count(), 1);
}

#[test]
fn packages_without_a_name_are_told_apart() {
    assert!(all_named(&Vec::new()));
    assert!(all_named(&vec![package("a", "1.0.0")]));
    assert!(!all_named(&vec![package("a", "1.0.0"), package("", "1.0.0")]));
}
