//! Texts as sequences of characters: lists of texts and how they are joined.

use vstd::prelude::*;

verus! {

/// The texts that a list of strings holds, item by item.
pub open spec fn texts_of(items: Seq<String>) -> Seq<Seq<char>> {
    Seq::new(items.len(), |i: int| items[i]@)
}

/// The items of `parts` one after another, with `sep` between neighbours.
pub open spec fn joined(parts: Seq<Seq<char>>, sep: Seq<char>) -> Seq<char>
    decreases parts.len(),
{
    if parts.len() == 0 {
        Seq::empty()
    } else if parts.len() == 1 {
        parts[0]
    } else {
        parts[0] + sep + joined(parts.skip(1), sep)
    }
}

/// `needle` occurs in `hay` as one unbroken run of characters.
pub open spec fn occurs_in(needle: Seq<char>, hay: Seq<char>) -> bool {
    exists|at: int|
        0 <= at && at + needle.len() <= hay.len() && #[trigger] hay.subrange(
            at,
            at + needle.len(),
        ) == needle
}

/// Joining one more part to a list that is not empty adds the separator and the part.
pub proof fn lemma_joined_push(parts: Seq<Seq<char>>, sep: Seq<char>, last: Seq<char>)
    ensures
        joined(parts.push(last), sep) == if parts.len() == 0 {
            last
        } else {
            joined(parts, sep) + sep + last
        },
    decreases parts.len(),
{
    let all = parts.push(last);
    if parts.len() == 0 {
        assert(all[0] == last);
    } else if parts.len() == 1 {
        assert(all.skip(1) =~= seq![last]);
        assert(joined(all.skip(1), sep) == last);
        assert(all[0] == parts[0]);
    } else {
        lemma_joined_push(parts.skip(1), sep, last);
        assert(all.skip(1) =~= parts.skip(1).push(last));
        assert(all[0] == parts[0]);
        assert(parts[0] + sep + (joined(parts.skip(1), sep) + sep + last) =~= (parts[0] + sep
            + joined(parts.skip(1), sep)) + sep + last);
    }
}

/// A text that stands between two others occurs in the whole.
pub proof fn lemma_occurs_between(before: Seq<char>, needle: Seq<char>, after: Seq<char>)
    ensures
        occurs_in(needle, before + needle + after),
{
    let hay = before + needle + after;
    let at = before.len() as int;
    assert(hay.subrange(at, at + needle.len()) =~= needle);
}

/// What occurs in a text occurs in every text built around it.
pub proof fn lemma_occurs_within(
    needle: Seq<char>,
    inner: Seq<char>,
    before: Seq<char>,
    after: Seq<char>,
)
    requires
        occurs_in(needle, inner),
    ensures
        occurs_in(needle, before + inner + after),
{
    let at = choose|at: int|
        0 <= at && at + needle.len() <= inner.len() && #[trigger] inner.subrange(
            at,
            at + needle.len(),
        ) == needle;
    let hay = before + inner + after;
    let shifted = before.len() + at;
    assert(hay.subrange(shifted, shifted + needle.len()) =~= inner.subrange(
        at,
        at + needle.len(),
    ));
}

/// Copies a list of strings.
pub fn clone_texts(items: &Vec<String>) -> (copy: Vec<String>)
    ensures
        texts_of(copy@) == texts_of(items@),
{
    let mut copy: Vec<String> = Vec::new();
    let mut i: usize = 0;
    while i < items.len()
        invariant
            i <= items.len(),
            copy.len() == i,
            forall|k: int| 0 <= k < i ==> copy[k]@ == items[k]@,
        decreases items.len() - i,
    {
        copy.push(items[i].clone());
        i += 1;
    }
    assert(texts_of(copy@) =~= texts_of(items@));
    copy
}

/// Joins the strings of a list, with `sep` between neighbours.
pub fn join(parts: &Vec<String>, sep: &str) -> (whole: String)
    ensures
        whole@ == joined(texts_of(parts@), sep@),
{
    let mut whole = String::new();
    let mut i: usize = 0;
    while i < parts.len()
        invariant
            i <= parts.len(),
            whole@ == joined(texts_of(parts@).take(i as int), sep@),
        decreases parts.len() - i,
    {
        proof {
            let done = texts_of(parts@).take(i as int);
            lemma_joined_push(done, sep@, parts[i as int]@);
            assert(done.push(parts[i as int]@) =~= texts_of(parts@).take(i + 1));
        }
        if i > 0 {
            whole.append(sep);
        }
        whole.append(parts[i].as_str());
        i += 1;
    }
    assert(texts_of(parts@).take(parts.len() as int) =~= texts_of(parts@));
    whole
}

} // verus!
