//! Managing the owners of a crate: who may do it, and the messages that answer it.
use vstd::prelude::*;

use crate::text::{join, join_texts, push_text, texts};

verus! {

/// The names of authors as one phrase: `a`, `a and b`, `a, b and c`, and so on.
pub open spec fn authors_phrase(names: Seq<Seq<char>>) -> Seq<char> {
    if names.len() == 0 {
        Seq::empty()
    } else if names.len() == 1 {
        names[0]
    } else if names.len() == 2 {
        names[0] + " and "@ + names[1]
    } else {
        join(names.drop_last(), ", "@) + " and "@ + names.last()
    }
}

/// The names of authors as one phrase.
pub fn authors_list(names: &Vec<String>) -> (res: String)
    ensures
        res@ == authors_phrase(texts(names@)),
{
    let n = names.len();
    if n == 0 {
        String::new()
    } else if n == 1 {
        names[0].clone()
    } else if n == 2 {
        let mut res = names[0].clone();
        push_text(&mut res, " and ");
        push_text(&mut res, names[1].as_str());
        res
    } else {
        let mut firsts: Vec<String> = Vec::new();
        let mut i: usize = 0;
        while i < n - 1
            invariant
                n == names.len(),
                n >= 3,
                i <= n - 1,
                firsts@.len() == i,
                forall|j: int| 0 <= j < i ==> #[trigger] firsts@[j]@ == names@[j]@,
            decreases n - 1 - i,
        {
            firsts.push(names[i].clone());
            i = i + 1;
        }
        assert(texts(firsts@) =~= texts(names@).drop_last());
        let mut res = join_texts(&firsts, ", ");
        push_text(&mut res, " and ");
        push_text(&mut res, names[n - 1].as_str());
        res
    }
}

/// The message that answers adding authors to a crate.
pub fn added_authors_message(names: &Vec<String>, krate: &str) -> (res: String)
    ensures
        res@ == authors_phrase(texts(names@)) + " has been added as authors of "@ + krate@,
{
    let mut res = authors_list(names);
    push_text(&mut res, " has been added as authors of ");
    push_text(&mut res, krate);
    res
}

/// The message that answers removing authors from a crate.
pub fn removed_authors_message(names: &Vec<String>, krate: &str) -> (res: String)
    ensures
        res@ == authors_phrase(texts(names@)) + " has been removed from authors of "@ + krate@,
{
    let mut res = authors_list(names);
    push_text(&mut res, " has been removed from authors of ");
    push_text(&mut res, krate);
    res
}

/// Whether `author` is one of the authors of a crate.
pub fn is_author(authors: &Vec<u64>, author: u64) -> (res: bool)
    ensures
        res == authors@.contains(author),
{
    let mut i: usize = 0;
    while i < authors.len()
        invariant
            i <= authors.len(),
            forall|j: int| 0 <= j < i ==> authors@[j] != author,
        decreases authors.len() - i,
    {
        if authors[i] == author {
            return true;
        }
        i = i + 1;
    }
    false
}

/// Whether removing `removed` of the `current` authors of a crate (the removed ones being
/// among its authors) is refused for leaving the crate without any author: it is when as
/// many authors are removed as the crate has.
pub fn leaves_no_author(current: usize, removed: usize) -> (res: bool)
    ensures
        res == (removed >= current),
{
    removed >= current
}

} // verus!
