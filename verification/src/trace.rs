//! What a whole run does: the actions it names over a sequence of events,
//! and what they add to the index.

use vstd::prelude::*;
use crate::checksum::checksum_text;
use crate::error::{ErrorKind, lemma_message_names_package, message_text};
use crate::json::record_text;
use crate::layout::{
    config_path_text, config_text, download_path_text, file_url, index_file_dir_text,
    index_file_text, index_root_text, download_root_text, lemma_under_injective,
};
use crate::record::{PackageModel, record_of};
use crate::registry::{
    ActionModel, Cause, EventModel, Stage, VendoringModel, begin, entering, failure_error,
    ident_of, line_encodable, line_text, next, package_archive_text, well_formed,
};
use crate::shard::{index_path_text, lemma_index_path_injective};
use crate::text::occurs_in;

verus! {

/// The run after a sequence of events, and the actions it named in answer
/// to them, one for each event.
pub open spec fn run_from(run: VendoringModel, events: Seq<EventModel>) -> (
    VendoringModel,
    Seq<ActionModel>,
)
    decreases events.len(),
{
    if events.len() == 0 {
        (run, Seq::empty())
    } else {
        let step = next(run, events[0]);
        let rest = run_from(step.0, events.skip(1));
        (rest.0, seq![step.1] + rest.1)
    }
}

/// What a sequence of actions adds to the file at `path`, in their order.
pub open spec fn appended_to(actions: Seq<ActionModel>, path: Seq<char>) -> Seq<char>
    decreases actions.len(),
{
    if actions.len() == 0 {
        Seq::empty()
    } else {
        let rest = appended_to(actions.skip(1), path);
        match actions[0] {
            ActionModel::Append { path: target, content } if target == path => content + rest,
            _ => rest,
        }
    }
}

/// The events of a package whose every action is done and whose copied
/// archive holds `archive`.
pub open spec fn package_events(archive: Seq<u8>) -> Seq<EventModel> {
    seq![
        EventModel::Done,
        EventModel::Done,
        EventModel::Read(archive),
        EventModel::Done,
        EventModel::Done,
    ]
}

/// The events of the packages from `from` on, each with its archive.
pub open spec fn packages_events(archives: Seq<Seq<u8>>, from: int) -> Seq<EventModel>
    decreases archives.len() - from,
{
    if 0 <= from < archives.len() {
        package_events(archives[from]) + packages_events(archives, from + 1)
    } else {
        Seq::empty()
    }
}

/// The events of a run in which every action is done: the two roots, the
/// repository, the configuration, the packages, the commit.
pub open spec fn success_events(archives: Seq<Seq<u8>>) -> Seq<EventModel> {
    seq![EventModel::Done, EventModel::Done, EventModel::Done, EventModel::Done]
        + packages_events(archives, 0) + seq![EventModel::Done]
}

/// The lines of the packages from `from` on that are called `name`, in the
/// order of the packages.
pub open spec fn lines_from(
    packages: Seq<PackageModel>,
    archives: Seq<Seq<u8>>,
    name: Seq<char>,
    from: int,
) -> Seq<char>
    decreases packages.len() - from,
{
    if 0 <= from < packages.len() {
        let rest = lines_from(packages, archives, name, from + 1);
        if packages[from].name == name {
            line_text(packages[from], archives[from]) + rest
        } else {
            rest
        }
    } else {
        Seq::empty()
    }
}

/// The run at the package `i`, with the line of that package in hand.
pub open spec fn with_line(run: VendoringModel, i: int, archive: Seq<u8>) -> VendoringModel {
    VendoringModel { line: line_text(run.packages[i], archive), ..run }
}

/// The actions that a run names while the package `i` goes through.
pub open spec fn package_actions(run: VendoringModel, i: int, archive: Seq<u8>) -> Seq<
    ActionModel,
> {
    let package = run.packages[i];
    seq![
        ActionModel::CopyFile {
            from: package_archive_text(run, package),
            to: download_path_text(run.root, package.name, package.version),
        },
        ActionModel::ReadFile {
            path: download_path_text(run.root, package.name, package.version),
        },
        ActionModel::CreateDirAll { path: index_file_dir_text(run.root, package.name) },
        ActionModel::Append {
            path: index_file_text(run.root, package.name),
            content: line_text(package, archive),
        },
        entering(with_line(run, i, archive), i + 1).1,
    ]
}

/// One event first, then the others.
pub proof fn lemma_run_step(run: VendoringModel, event: EventModel, rest: Seq<EventModel>)
    ensures
        run_from(run, seq![event] + rest) == (
            run_from(next(run, event).0, rest).0,
            seq![next(run, event).1] + run_from(next(run, event).0, rest).1,
        ),
{
    let events = seq![event] + rest;
    assert(events[0] == event);
    assert(events.skip(1) =~= rest);
}

/// A run over two sequences of events is the run over the first, then the
/// run over the second.
pub proof fn lemma_run_concat(run: VendoringModel, first: Seq<EventModel>, second: Seq<EventModel>)
    ensures
        run_from(run, first + second) == (
            run_from(run_from(run, first).0, second).0,
            run_from(run, first).1 + run_from(run_from(run, first).0, second).1,
        ),
    decreases first.len(),
{
    if first.len() == 0 {
        assert(first + second =~= second);
        assert(Seq::<ActionModel>::empty() + run_from(run, second).1 =~= run_from(run, second).1);
    } else {
        let step = next(run, first[0]);
        lemma_run_concat(step.0, first.skip(1), second);
        assert((first + second)[0] == first[0]);
        assert((first + second).skip(1) =~= first.skip(1) + second);
        let tail = run_from(step.0, first.skip(1));
        let after = run_from(tail.0, second);
        assert(seq![step.1] + (tail.1 + after.1) =~= (seq![step.1] + tail.1) + after.1);
    }
}

/// What two sequences of actions add to a file is what the first adds, then
/// what the second adds.
pub proof fn lemma_appended_concat(
    first: Seq<ActionModel>,
    second: Seq<ActionModel>,
    path: Seq<char>,
)
    ensures
        appended_to(first + second, path) == appended_to(first, path) + appended_to(second, path),
    decreases first.len(),
{
    if first.len() == 0 {
        assert(first + second =~= second);
        assert(Seq::<char>::empty() + appended_to(second, path) =~= appended_to(second, path));
    } else {
        lemma_appended_concat(first.skip(1), second, path);
        assert((first + second)[0] == first[0]);
        assert((first + second).skip(1) =~= first.skip(1) + second);
        let rest = appended_to(first.skip(1), path);
        let more = appended_to(second, path);
        match first[0] {
            ActionModel::Append { path: target, content } => {
                assert(content + (rest + more) =~= (content + rest) + more);
            },
            _ => {},
        }
    }
}

/// A package goes through: its archive is copied to its place among the
/// downloads and read from there, and the line that is added to its index
/// file holds the checksum of the bytes that were read.
pub proof fn lemma_package_run(run: VendoringModel, i: int, archive: Seq<u8>)
    requires
        well_formed(run),
        0 <= i < run.packages.len(),
        i <= usize::MAX,
        run.stage == Stage::PreparingDownload(i as usize),
        line_encodable(run.packages[i], archive),
    ensures
        run_from(run, package_events(archive)) == (
            entering(with_line(run, i, archive), i + 1).0,
            package_actions(run, i, archive),
        ),
        package_actions(run, i, archive)[1] == (ActionModel::ReadFile {
            path: download_path_text(run.root, run.packages[i].name, run.packages[i].version),
        }),
        package_actions(run, i, archive)[3] == (ActionModel::Append {
            path: index_file_text(run.root, run.packages[i].name),
            content: record_text(record_of(run.packages[i], checksum_text(archive))) + "\n"@,
        }),
        record_of(run.packages[i], checksum_text(archive)).cksum == checksum_text(archive),
{
    let done = EventModel::Done;
    let read = EventModel::Read(archive);
    let none = Seq::<EventModel>::empty();
    let e4 = seq![done] + none;
    let e3 = seq![done] + e4;
    let e2 = seq![read] + e3;
    let e1 = seq![done] + e2;
    let e0 = seq![done] + e1;
    assert(e0 =~= package_events(archive));
    let s1 = next(run, done);
    let s2 = next(s1.0, done);
    let s3 = next(s2.0, read);
    let s4 = next(s3.0, done);
    let s5 = next(s4.0, done);
    lemma_run_step(run, done, e1);
    lemma_run_step(s1.0, done, e2);
    lemma_run_step(s2.0, read, e3);
    lemma_run_step(s3.0, done, e4);
    lemma_run_step(s4.0, done, none);
    assert(s4.0 == VendoringModel {
        stage: Stage::AppendingRecord(i as usize),
        ..with_line(run, i, archive)
    });
    assert(s5 == entering(with_line(run, i, archive), i + 1));
    assert(run_from(run, e0).1 =~= package_actions(run, i, archive));
}

/// The index files of two packages are one file only if the packages have
/// one name.
pub proof fn lemma_index_file_injective(root: Seq<char>, a: Seq<char>, b: Seq<char>)
    requires
        a.len() > 0,
        b.len() > 0,
        index_file_text(root, a) == index_file_text(root, b),
    ensures
        a == b,
{
    lemma_under_injective(root, index_path_text(a), index_path_text(b));
    lemma_index_path_injective(a, b);
}

/// What the actions of one package add to the index file of `name`: the
/// line of the package, if it is called `name`.
proof fn lemma_package_appends(run: VendoringModel, i: int, archive: Seq<u8>, name: Seq<char>)
    requires
        well_formed(run),
        0 <= i < run.packages.len(),
        name.len() > 0,
    ensures
        appended_to(package_actions(run, i, archive), index_file_text(run.root, name)) == if run.packages[i].name
            == name {
            line_text(run.packages[i], archive)
        } else {
            Seq::empty()
        },
{
    let actions = package_actions(run, i, archive);
    let path = index_file_text(run.root, name);
    let package = run.packages[i];
    if index_file_text(run.root, package.name) == path {
        lemma_index_file_injective(run.root, package.name, name);
    }
    let a1 = actions.skip(1);
    let a2 = a1.skip(1);
    let a3 = a2.skip(1);
    let a4 = a3.skip(1);
    let a5 = a4.skip(1);
    assert(a5.len() == 0);
    assert(appended_to(a5, path) =~= Seq::<char>::empty());
    assert(a4[0] == entering(with_line(run, i, archive), i + 1).1);
    assert(appended_to(a4, path) =~= Seq::<char>::empty());
    assert(a3[0] == actions[3]);
    assert(appended_to(a3, path) =~= if package.name == name {
        line_text(package, archive)
    } else {
        Seq::empty()
    });
    assert(a2[0] == actions[2]);
    assert(appended_to(a2, path) == appended_to(a3, path));
    assert(a1[0] == actions[1]);
    assert(appended_to(a1, path) == appended_to(a2, path));
    assert(appended_to(actions, path) == appended_to(a1, path));
}

/// The packages from `from` on go through one after another: the run comes
/// to the commit, and each index file has got the lines of the packages of
/// its name, in their order.
proof fn lemma_packages_run(
    run: VendoringModel,
    archives: Seq<Seq<u8>>,
    from: int,
    name: Seq<char>,
)
    requires
        well_formed(run),
        archives.len() == run.packages.len(),
        run.packages.len() <= usize::MAX,
        0 <= from < run.packages.len(),
        run.stage == Stage::PreparingDownload(from as usize),
        forall|i: int|
            from <= i < run.packages.len() ==> line_encodable(
                #[trigger] run.packages[i],
                archives[i],
            ),
        name.len() > 0,
    ensures
        ({
            let end = run_from(run, packages_events(archives, from));
            &&& end.0.stage == Stage::Committing
            &&& end.0.root == run.root
            &&& end.0.index_url == run.index_url
            &&& end.0.packages == run.packages
            &&& end.1.len() > 0
            &&& end.1.last() == (ActionModel::Commit {
                path: index_root_text(run.root),
                message: "Initial commit"@,
            })
            &&& appended_to(end.1, index_file_text(run.root, name)) == lines_from(
                run.packages,
                archives,
                name,
                from,
            )
        }),
    decreases run.packages.len() - from,
{
    let path = index_file_text(run.root, name);
    let first = package_events(archives[from]);
    let rest = packages_events(archives, from + 1);
    let mid = entering(with_line(run, from, archives[from]), from + 1).0;
    let acts = package_actions(run, from, archives[from]);
    lemma_package_run(run, from, archives[from]);
    lemma_package_appends(run, from, archives[from], name);
    lemma_run_concat(run, first, rest);
    let tail = run_from(mid, rest);
    lemma_appended_concat(acts, tail.1, path);
    assert(well_formed(mid)) by {
        assert forall|k: int| 0 <= k < mid.packages.len() implies (
        #[trigger] mid.packages[k]).name.len() > 0 by {
            assert(run.packages[k].name.len() > 0);
        }
    }
    if from + 1 < run.packages.len() {
        lemma_packages_run(mid, archives, from + 1, name);
        assert((acts + tail.1).last() == tail.1.last());
    } else {
        assert(rest =~= Seq::<EventModel>::empty());
        assert(tail.1 =~= Seq::<ActionModel>::empty());
        assert(acts + tail.1 =~= acts);
        assert(acts.last() == acts[4]);
        assert(lines_from(run.packages, archives, name, from + 1) =~= Seq::<char>::empty());
    }
    let line = if run.packages[from].name == name {
        line_text(run.packages[from], archives[from])
    } else {
        Seq::empty()
    };
    assert(line + lines_from(run.packages, archives, name, from + 1) =~= lines_from(
        run.packages,
        archives,
        name,
        from,
    ));
}

/// A run in which every action is done, and in which the JSON encoder
/// writes every record, finishes: it writes the configuration with the
/// download URL, adds to each index file the lines of
/// the packages of that name, one line for each version and in the order in
/// which the packages were given, commits after the last line and reports
/// the URL of the index.
pub proof fn lemma_whole_run(
    cache_root: Seq<char>,
    packages: Seq<PackageModel>,
    root: Seq<char>,
    archives: Seq<Seq<u8>>,
    name: Seq<char>,
)
    requires
        forall|i: int| 0 <= i < packages.len() ==> (#[trigger] packages[i]).name.len() > 0,
        packages.len() <= usize::MAX,
        archives.len() == packages.len(),
        forall|i: int|
            0 <= i < packages.len() ==> line_encodable(#[trigger] packages[i], archives[i]),
        file_url(index_root_text(root)) is Some,
        file_url(download_root_text(root)) is Some,
        name.len() > 0,
    ensures
        ({
            let end = run_from(begin(cache_root, packages, root).0, success_events(archives));
            let count = end.1.len();
            &&& end.0.stage == Stage::Finished
            &&& count == 5 * packages.len() + 5
            &&& end.1[0] == (ActionModel::CreateDir { path: index_root_text(root) })
            &&& end.1[1] == (ActionModel::InitRepository { path: index_root_text(root) })
            &&& end.1[2] == (ActionModel::WriteFile {
                path: config_path_text(root),
                content: config_text(file_url(download_root_text(root))->0),
            })
            &&& end.1[count - 2] == (ActionModel::Commit {
                path: index_root_text(root),
                message: "Initial commit"@,
            })
            &&& end.1[count - 1] == (ActionModel::Report {
                index_url: file_url(index_root_text(root))->0,
            })
            &&& appended_to(end.1, index_file_text(root, name)) == lines_from(
                packages,
                archives,
                name,
                0,
            )
        }),
{
    let path = index_file_text(root, name);
    let done = EventModel::Done;
    let start = begin(cache_root, packages, root).0;
    let s0 = next(start, done);
    let s1 = next(s0.0, done);
    let s2 = next(s1.0, done);
    let s3 = next(s2.0, done);
    let middle = packages_events(archives, 0);
    let last = seq![done];
    let events = success_events(archives);
    let e2 = seq![done] + (middle + last);
    let e1 = seq![done] + e2;
    let e0 = seq![done] + e1;
    assert(events =~= seq![done] + e0);
    lemma_run_step(start, done, e0);
    lemma_run_step(s0.0, done, e1);
    lemma_run_step(s1.0, done, e2);
    lemma_run_step(s2.0, done, middle + last);
    lemma_run_concat(s3.0, middle, last);
    let through = run_from(s3.0, middle);
    lemma_run_step(through.0, done, Seq::empty());
    assert(last =~= seq![done] + Seq::<EventModel>::empty());
    let report = next(through.0, done);
    assert(s3 == entering(s2.0, 0));
    assert(well_formed(s3.0)) by {
        assert forall|k: int| 0 <= k < s3.0.packages.len() implies (
        #[trigger] s3.0.packages[k]).name.len() > 0 by {
            assert(packages[k].name.len() > 0);
        }
    }
    lemma_packages_shape(archives, 0);
    if packages.len() > 0 {
        lemma_packages_run(s3.0, archives, 0, name);
        lemma_run_len(s3.0, middle);
    } else {
        assert(middle =~= Seq::<EventModel>::empty());
        assert(through.1 =~= Seq::<ActionModel>::empty());
        assert(lines_from(packages, archives, name, 0) =~= Seq::<char>::empty());
    }
    let head = seq![s0.1, s1.1, s2.1];
    let body = seq![s3.1] + through.1;
    let tail = seq![report.1];
    let all = run_from(start, events).1;
    assert(all =~= head + body + tail);
    lemma_appended_concat(head + body, tail, path);
    lemma_appended_concat(head, body, path);
    lemma_appended_concat(seq![s3.1], through.1, path);
    assert(appended_to(head, path) =~= Seq::<char>::empty()) by {
        let h1 = head.skip(1);
        let h2 = h1.skip(1);
        let h3 = h2.skip(1);
        assert(h1[0] == s1.1);
        assert(h2[0] == s2.1);
        assert(h3 =~= Seq::<ActionModel>::empty());
        assert(appended_to(h3, path) =~= Seq::<char>::empty());
        assert(appended_to(h2, path) =~= Seq::<char>::empty());
        assert(appended_to(h1, path) =~= Seq::<char>::empty());
    }
    assert(appended_to(tail, path) =~= Seq::<char>::empty()) by {
        assert(tail.skip(1) =~= Seq::<ActionModel>::empty());
        assert(appended_to(tail.skip(1), path) =~= Seq::<char>::empty());
    }
    assert(appended_to(seq![s3.1], path) =~= Seq::<char>::empty()) by {
        assert(seq![s3.1].skip(1) =~= Seq::<ActionModel>::empty());
        assert(appended_to(seq![s3.1].skip(1), path) =~= Seq::<char>::empty());
    }
    assert(appended_to(all, path) =~= appended_to(through.1, path));
}

/// The packages from `from` on have five events each.
proof fn lemma_packages_shape(archives: Seq<Seq<u8>>, from: int)
    requires
        0 <= from <= archives.len(),
    ensures
        packages_events(archives, from).len() == 5 * (archives.len() - from),
    decreases archives.len() - from,
{
    if from < archives.len() {
        lemma_packages_shape(archives, from + 1);
    }
}

/// A run names one action for each event.
pub proof fn lemma_run_len(run: VendoringModel, events: Seq<EventModel>)
    ensures
        run_from(run, events).1.len() == events.len(),
    decreases events.len(),
{
    if events.len() > 0 {
        lemma_run_len(next(run, events[0]).0, events.skip(1));
    }
}

/// A run without packages still creates the two roots, sets up the
/// repository and writes the configuration, commits and reports: none of its
/// actions adds to an index file.
pub proof fn lemma_empty_run(cache_root: Seq<char>, root: Seq<char>)
    requires
        file_url(index_root_text(root)) is Some,
        file_url(download_root_text(root)) is Some,
    ensures
        begin(cache_root, Seq::empty(), root).1 == (ActionModel::CreateDir {
            path: download_root_text(root),
        }),
        run_from(
            begin(cache_root, Seq::empty(), root).0,
            success_events(Seq::empty()),
        ).1 == seq![
            ActionModel::CreateDir { path: index_root_text(root) },
            ActionModel::InitRepository { path: index_root_text(root) },
            ActionModel::WriteFile {
                path: config_path_text(root),
                content: config_text(file_url(download_root_text(root))->0),
            },
            ActionModel::Commit { path: index_root_text(root), message: "Initial commit"@ },
            ActionModel::Report { index_url: file_url(index_root_text(root))->0 },
        ],
        run_from(
            begin(cache_root, Seq::empty(), root).0,
            success_events(Seq::empty()),
        ).0.stage == Stage::Finished,
{
    let done = EventModel::Done;
    let none = Seq::<EventModel>::empty();
    let start = begin(cache_root, Seq::empty(), root).0;
    let s0 = next(start, done);
    let s1 = next(s0.0, done);
    let s2 = next(s1.0, done);
    let s3 = next(s2.0, done);
    let s4 = next(s3.0, done);
    let e4 = seq![done] + none;
    let e3 = seq![done] + e4;
    let e2 = seq![done] + e3;
    let e1 = seq![done] + e2;
    let e0 = seq![done] + e1;
    assert(packages_events(Seq::empty(), 0) =~= none);
    assert(success_events(Seq::empty()) =~= e0);
    lemma_run_step(start, done, e1);
    lemma_run_step(s0.0, done, e2);
    lemma_run_step(s1.0, done, e3);
    lemma_run_step(s2.0, done, e4);
    lemma_run_step(s3.0, done, none);
    assert(run_from(start, e0).1 =~= seq![s0.1, s1.1, s2.1, s3.1, s4.1]);
}

/// A line is added only once the directory of its index file is there, the
/// commit is named only once the configuration is written and the last
/// package has its line, and the only file that is written whole is the
/// configuration: no step writes over an index file.
pub proof fn lemma_when_files_change(run: VendoringModel, event: EventModel)
    requires
        well_formed(run),
    ensures
        next(run, event).1 is Append ==> event is Done && run.stage is PreparingIndex,
        next(run, event).1 is Commit ==> event is Done && (run.stage
            == Stage::WritingConfig && run.packages.len() == 0 || exists|i: usize|
            run.stage == Stage::AppendingRecord(i) && i + 1 == run.packages.len()),
        next(run, event).1 matches ActionModel::WriteFile { path, .. } ==> event is Done
            && run.stage == Stage::InitialisingIndex && path == config_path_text(run.root),
{
}

/// A record that the JSON encoder does not write ends the run with an error
/// about its package.
pub proof fn lemma_unwritten_record_ends_run(run: VendoringModel, i: int, archive: Seq<u8>)
    requires
        well_formed(run),
        0 <= i < run.packages.len(),
        i <= usize::MAX,
        run.stage == Stage::ReadingArchive(i as usize),
        !line_encodable(run.packages[i], archive),
    ensures
        next(run, EventModel::Read(archive)).0.stage == Stage::Failed,
        next(run, EventModel::Read(archive)).1 matches ActionModel::Fail { error }
            && error.kind == ErrorKind::SerializationFailure && error.package == Some(
            ident_of(run.packages[i]),
        ),
{
}

/// After the end of a run nothing is named any more, whatever comes.
pub proof fn lemma_over_stays_over(run: VendoringModel, events: Seq<EventModel>)
    requires
        run.stage == Stage::Finished || run.stage == Stage::Failed,
    ensures
        run_from(run, events).0 == run,
        forall|k: int|
            0 <= k < events.len() ==> #[trigger] run_from(run, events).1[k] == ActionModel::Idle,
    decreases events.len(),
{
    if events.len() > 0 {
        lemma_over_stays_over(run, events.skip(1));
        lemma_run_len(run, events.skip(1));
        let rest = run_from(run, events.skip(1)).1;
        let all = run_from(run, events).1;
        assert(all == seq![ActionModel::Idle] + rest);
        assert forall|k: int| 0 <= k < events.len() implies #[trigger] all[k]
            == ActionModel::Idle by {
            if k > 0 {
                assert(all[k] == rest[k - 1]);
            }
        }
    }
}

/// An archive that the cache does not hold ends the run: the error is about
/// the package, its message holds the package's name and its version and
/// the place where the archive was looked for, and whatever comes after, the
/// run names no action any more: no line is added and nothing is committed.
pub proof fn lemma_missing_archive_ends_run(
    run: VendoringModel,
    i: int,
    detail: Seq<char>,
    later: Seq<EventModel>,
)
    requires
        well_formed(run),
        0 <= i < run.packages.len(),
        i <= usize::MAX,
        run.stage == Stage::CopyingArchive(i as usize),
    ensures
        ({
            let missing = EventModel::Failed { cause: Cause::NotFound, detail };
            let step = next(run, missing);
            let error = failure_error(run, Cause::NotFound, detail);
            &&& step.0.stage == Stage::Failed
            &&& step.1 == ActionModel::Fail { error }
            &&& error.kind == ErrorKind::ArchiveNotFound
            &&& error.package == Some(ident_of(run.packages[i]))
            &&& occurs_in(run.packages[i].name, message_text(error))
            &&& occurs_in(run.packages[i].version, message_text(error))
            &&& occurs_in(package_archive_text(run, run.packages[i]), message_text(error))
            &&& forall|k: int|
                0 <= k < later.len() ==> #[trigger] run_from(step.0, later).1[k]
                    == ActionModel::Idle
        }),
{
    let missing = EventModel::Failed { cause: Cause::NotFound, detail };
    let step = next(run, missing);
    let error = failure_error(run, Cause::NotFound, detail);
    lemma_message_names_package(error);
    lemma_over_stays_over(step.0, later);
    let path = package_archive_text(run, run.packages[i]);
    let head = "failed to vendor `"@ + crate::error::ident_text(ident_of(run.packages[i])) + "`: "@
        + crate::error::kind_text(error.kind) + ": "@ + "cached crate file `"@;
    let tail = "` doesn't exist"@;
    crate::text::lemma_occurs_between(head, path, tail);
    assert(head + path + tail =~= message_text(error));
}

} // verus!
