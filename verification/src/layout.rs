//! The layout of a registry on disk: where the archives, the index files and
//! the registry's configuration go, and what the configuration says.

use vstd::prelude::*;
use crate::error::{ErrorKind, ErrorModel, VendorError, plain_error};
use crate::record::optional_text;
use crate::shard::{index_dir, index_dir_text, index_path, index_path_text};

verus! {

/// The `file` URL that `url::Url::from_file_path` gives for a path, written
/// out; `None` where it gives none, as for a path that is not absolute.
pub uninterp spec fn file_url(path: Seq<char>) -> Option<Seq<char>>;

/// The entry `entry` of the directory `dir`.
pub open spec fn under(dir: Seq<char>, entry: Seq<char>) -> Seq<char> {
    dir + "/"@ + entry
}

/// The root of the index: the directory that is committed.
pub open spec fn index_root_text(root: Seq<char>) -> Seq<char> {
    under(root, "index"@)
}

/// The root of the downloads.
pub open spec fn download_root_text(root: Seq<char>) -> Seq<char> {
    under(root, "cache"@)
}

/// The configuration file of the registry.
pub open spec fn config_path_text(root: Seq<char>) -> Seq<char> {
    under(index_root_text(root), "config.json"@)
}

/// The directory of the archive of one version of a package.
pub open spec fn download_dir_text(root: Seq<char>, name: Seq<char>, version: Seq<char>) -> Seq<
    char,
> {
    under(under(download_root_text(root), name), version)
}

/// The archive of one version of a package in the registry.
pub open spec fn download_path_text(root: Seq<char>, name: Seq<char>, version: Seq<char>) -> Seq<
    char,
> {
    under(download_dir_text(root, name, version), "download"@)
}

/// The file name of a cached archive.
pub open spec fn archive_name_text(name: Seq<char>, version: Seq<char>) -> Seq<char> {
    name + "-"@ + version + ".crate"@
}

/// The directory in which the cache keeps the archives of one source.
pub open spec fn source_dir_text(host: Seq<char>, short_hash: Seq<char>) -> Seq<char> {
    host + "-"@ + short_hash
}

/// The archive of one version of a package in the cache.
pub open spec fn archive_path_text(
    cache_root: Seq<char>,
    host: Seq<char>,
    short_hash: Seq<char>,
    name: Seq<char>,
    version: Seq<char>,
) -> Seq<char> {
    under(under(cache_root, source_dir_text(host, short_hash)), archive_name_text(name, version))
}

/// The index file of a package.
pub open spec fn index_file_text(root: Seq<char>, name: Seq<char>) -> Seq<char> {
    under(root, index_path_text(name))
}

/// The directory of the index file of a package.
pub open spec fn index_file_dir_text(root: Seq<char>, name: Seq<char>) -> Seq<char> {
    under(root, index_dir_text(name))
}

/// What the configuration file holds: the download URL and an empty API URL.
pub open spec fn config_text(download_url: Seq<char>) -> Seq<char> {
    "{\"dl\":\""@ + download_url + "\",\"api\":\"\"}"@
}

/// What the user is told after a run: how to point the package manager at
/// the index.
pub open spec fn usage_text(index_url: Seq<char>) -> Seq<char> {
    "Create a `.cargo/config` with this entry to use the vendor cache:\n\n    [registry]\n    index = \""@
        + index_url + "\"\n\n"@
}

/// The error for a directory that has no `file` URL.
pub open spec fn no_url(path: Seq<char>) -> ErrorModel {
    plain_error(ErrorKind::PathNotUrlRepresentable, path)
}

/// Calls `url::Url::from_file_path` and writes the URL out. Trusted: on the
/// platform that the library is built for, the result is a function of the
/// path's text alone; the call reads nothing from the file system.
#[verifier::external_body]
fn url_from_file_path(path: &str) -> (url: Option<String>)
    ensures
        optional_text(url) == file_url(path@),
{
    match url::Url::from_file_path(path) {
        Ok(url) => Some(String::from(url)),
        Err(()) => None,
    }
}

/// The `file` URL of a directory of the registry.
pub fn directory_url(path: &str) -> (url: Result<String, VendorError>)
    ensures
        match url {
            Ok(text) => file_url(path@) == Some(text@),
            Err(error) => file_url(path@) is None && error@ == no_url(path@),
        },
{
    match url_from_file_path(path) {
        Some(text) => Ok(text),
        None => Err(VendorError::new(ErrorKind::PathNotUrlRepresentable, path.to_owned())),
    }
}

/// Names an entry of a directory.
pub fn join_path(dir: &str, entry: &str) -> (path: String)
    ensures
        path@ == under(dir@, entry@),
{
    let mut path: String = dir.to_owned();
    path.append("/");
    path.append(entry);
    path
}

/// The root of the index below the registry root.
pub fn index_root(root: &str) -> (path: String)
    ensures
        path@ == index_root_text(root@),
{
    join_path(root, "index")
}

/// The root of the downloads below the registry root.
pub fn download_root(root: &str) -> (path: String)
    ensures
        path@ == download_root_text(root@),
{
    join_path(root, "cache")
}

/// The configuration file of the registry.
pub fn config_path(root: &str) -> (path: String)
    ensures
        path@ == config_path_text(root@),
{
    let index: String = index_root(root);
    join_path(index.as_str(), "config.json")
}

/// The directory that takes the archive of `name` in version `version`.
pub fn download_dir(root: &str, name: &str, version: &str) -> (path: String)
    ensures
        path@ == download_dir_text(root@, name@, version@),
{
    let downloads: String = download_root(root);
    let package: String = join_path(downloads.as_str(), name);
    join_path(package.as_str(), version)
}

/// Where the archive of `name` in version `version` is copied to.
pub fn download_path(root: &str, name: &str, version: &str) -> (path: String)
    ensures
        path@ == download_path_text(root@, name@, version@),
{
    let dir: String = download_dir(root, name, version);
    join_path(dir.as_str(), "download")
}

/// Where the cache keeps the archive of `name` in version `version`, which
/// came from the source with the host `host` and the short hash `short_hash`.
pub fn archive_path(cache_root: &str, host: &str, short_hash: &str, name: &str, version: &str) -> (path:
    String)
    ensures
        path@ == archive_path_text(cache_root@, host@, short_hash@, name@, version@),
{
    let mut source: String = host.to_owned();
    source.append("-");
    source.append(short_hash);
    let mut file: String = name.to_owned();
    file.append("-");
    file.append(version);
    file.append(".crate");
    let dir: String = join_path(cache_root, source.as_str());
    join_path(dir.as_str(), file.as_str())
}

/// The index file of the package `name`.
pub fn index_file(root: &str, name: &str) -> (path: String)
    requires
        name@.len() > 0,
    ensures
        path@ == index_file_text(root@, name@),
{
    let relative: String = index_path(name);
    join_path(root, relative.as_str())
}

/// The directory of the index file of the package `name`.
pub fn index_file_dir(root: &str, name: &str) -> (path: String)
    requires
        name@.len() > 0,
    ensures
        path@ == index_file_dir_text(root@, name@),
{
    let relative: String = index_dir(name);
    join_path(root, relative.as_str())
}

/// The content of the configuration file for a download URL: one JSON
/// object, no white space, no line end.
pub fn config_json(download_url: &str) -> (content: String)
    ensures
        content@ == config_text(download_url@),
{
    let mut content: String = "{\"dl\":\"".to_owned();
    content.append(download_url);
    content.append("\",\"api\":\"\"}");
    content
}

/// The note for the user that names the index URL.
pub fn usage_note(index_url: &str) -> (note: String)
    ensures
        note@ == usage_text(index_url@),
{
    let mut note: String =
        "Create a `.cargo/config` with this entry to use the vendor cache:\n\n    [registry]\n    index = \"".to_owned();
    note.append(index_url);
    note.append("\"\n\n");
    note
}

/// The configuration is the download URL between `{"dl":"` and
/// `","api":""}`, character for character: nothing stands before, between or
/// after them.
pub proof fn lemma_config_text_exact(download_url: Seq<char>)
    ensures
        config_text(download_url) == seq!['{', '"', 'd', 'l', '"', ':', '"'] + download_url + seq![
            '"',
            ',',
            '"',
            'a',
            'p',
            'i',
            '"',
            ':',
            '"',
            '"',
            '}',
        ],
        config_text(download_url).len() == download_url.len() + 18,
{
    reveal_strlit("{\"dl\":\"");
    reveal_strlit("\",\"api\":\"\"}");
    assert("{\"dl\":\""@ =~= seq!['{', '"', 'd', 'l', '"', ':', '"']);
    assert("\",\"api\":\"\"}"@ =~= seq!['"', ',', '"', 'a', 'p', 'i', '"', ':', '"', '"', '}']);
}

/// Entries of one directory with different names are different paths.
pub proof fn lemma_under_injective(dir: Seq<char>, a: Seq<char>, b: Seq<char>)
    requires
        under(dir, a) == under(dir, b),
    ensures
        a == b,
{
    let head = dir + "/"@;
    let whole_a = under(dir, a);
    let whole_b = under(dir, b);
    assert(whole_a.subrange(head.len() as int, whole_a.len() as int) =~= a);
    assert(whole_b.subrange(head.len() as int, whole_b.len() as int) =~= b);
}

} // verus!
