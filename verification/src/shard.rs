//! Where the records of a package live in the index: the sharding rule.
//!
//! Names of one or two characters share the directories `1` and `2`, names of
//! three characters are grouped under `3` by their first character, and longer
//! names by their first two and their next two characters.

use vstd::prelude::*;

verus! {

/// The directory, below the index root, that holds the file of `name`.
pub open spec fn shard_text(name: Seq<char>) -> Seq<char>
    recommends
        name.len() > 0,
{
    if name.len() == 1 {
        seq!['1']
    } else if name.len() == 2 {
        seq!['2']
    } else if name.len() == 3 {
        seq!['3', '/'] + name.subrange(0, 1)
    } else {
        name.subrange(0, 2) + seq!['/'] + name.subrange(2, 4)
    }
}

/// The directory of the index file of `name`, from the registry root.
pub open spec fn index_dir_text(name: Seq<char>) -> Seq<char>
    recommends
        name.len() > 0,
{
    seq!['i', 'n', 'd', 'e', 'x', '/'] + shard_text(name)
}

/// The index file of `name`, from the registry root.
pub open spec fn index_path_text(name: Seq<char>) -> Seq<char>
    recommends
        name.len() > 0,
{
    index_dir_text(name) + seq!['/'] + name
}

/// The directory that holds the index file of `name`, relative to the
/// registry root.
pub fn index_dir(name: &str) -> (dir: String)
    requires
        name@.len() > 0,
    ensures
        dir@ == index_dir_text(name@),
{
    proof {
        reveal_strlit("index/");
        reveal_strlit("1");
        reveal_strlit("2");
        reveal_strlit("3/");
        reveal_strlit("/");
    }
    let n: usize = name.unicode_len();
    let mut dir: String = "index/".to_owned();
    assert(dir@ =~= seq!['i', 'n', 'd', 'e', 'x', '/']);
    if n == 1 {
        dir.append("1");
        assert("1"@ =~= seq!['1']);
    } else if n == 2 {
        dir.append("2");
        assert("2"@ =~= seq!['2']);
    } else if n == 3 {
        dir.append("3/");
        dir.append(name.substring_char(0, 1));
        assert("3/"@ =~= seq!['3', '/']);
        assert(dir@ =~= index_dir_text(name@));
    } else {
        dir.append(name.substring_char(0, 2));
        dir.append("/");
        dir.append(name.substring_char(2, 4));
        assert("/"@ =~= seq!['/']);
        assert(dir@ =~= index_dir_text(name@));
    }
    dir
}

/// The index file of the package `name`, relative to the registry root.
pub fn index_path(name: &str) -> (path: String)
    requires
        name@.len() > 0,
    ensures
        path@ == index_path_text(name@),
{
    proof {
        reveal_strlit("/");
    }
    let mut path: String = index_dir(name);
    path.append("/");
    path.append(name);
    assert("/"@ =~= seq!['/']);
    path
}

/// The length of an index path tells the length of the name it was made for.
proof fn lemma_index_path_len(name: Seq<char>)
    requires
        name.len() > 0,
    ensures
        name.len() == 1 ==> index_path_text(name).len() == 9,
        name.len() == 2 ==> index_path_text(name).len() == 10,
        name.len() == 3 ==> index_path_text(name).len() == 13,
        name.len() >= 4 ==> index_path_text(name).len() == name.len() + 12,
{
}

/// Every index path ends in the name it was made for.
proof fn lemma_index_path_tail(name: Seq<char>)
    requires
        name.len() > 0,
    ensures
        index_path_text(name).len() >= name.len(),
        index_path_text(name).subrange(
            index_path_text(name).len() - name.len(),
            index_path_text(name).len() as int,
        ) == name,
{
    let path = index_path_text(name);
    assert(path.subrange(path.len() - name.len(), path.len() as int) =~= name);
}

/// Two packages share an index file only if they share their name: the
/// records of different packages never land in one file.
pub proof fn lemma_index_path_injective(a: Seq<char>, b: Seq<char>)
    requires
        a.len() > 0,
        b.len() > 0,
        index_path_text(a) == index_path_text(b),
    ensures
        a == b,
{
    lemma_index_path_len(a);
    lemma_index_path_len(b);
    lemma_index_path_tail(a);
    lemma_index_path_tail(b);
}

} // verus!
