//! Searching crates by name (`cargo search`, suggestions and the search pages): the
//! pattern given to the database, and which window of results a page shows.
use vstd::prelude::*;

use crate::text::{push_char, push_text};

verus! {

/// A searched text with its `\` and `%` escaped (`\\` and `\%`), so that the database
/// matches them literally.
pub open spec fn like_escaped(q: Seq<char>) -> Seq<char>
    decreases q.len(),
{
    if q.len() == 0 {
        Seq::empty()
    } else {
        like_escaped(q.drop_last()) + if q.last() == '\\' {
            seq!['\\', '\\']
        } else if q.last() == '%' {
            seq!['\\', '%']
        } else {
            seq![q.last()]
        }
    }
}

/// The pattern that finds the crates whose name contains the searched text: `%<text>%`.
pub open spec fn like_pattern(q: Seq<char>) -> Seq<char> {
    seq!['%'] + like_escaped(q) + seq!['%']
}

/// The pattern that finds the crates whose name contains `q`.
pub fn search_pattern(q: &str) -> (res: String)
    ensures
        res@ == like_pattern(q@),
        has_no_like_escape(q@) ==> res@ == seq!['%'] + q@ + seq!['%'],
{
    proof {
        if has_no_like_escape(q@) {
            lemma_plain_text_unescaped(q@);
        }
    }
    let mut res = String::new();
    push_char(&mut res, '%');
    let ghost start = res@;
    for c in it: q.chars()
        invariant
            it.seq() == q@,
            res@ == start + like_escaped(q@.take(it.index() as int)),
    {
        let ghost before = q@.take(it.index() as int);
        if c == '\\' {
            push_char(&mut res, '\\');
            push_char(&mut res, '\\');
        } else if c == '%' {
            push_char(&mut res, '\\');
            push_char(&mut res, '%');
        } else {
            push_char(&mut res, c);
        }
        proof {
            let after = q@.take(it.index() + 1);
            assert(after.drop_last() =~= before);
            assert(after.last() == c);
        }
    }
    assert(q@.take(q@.len() as int) =~= q@);
    push_char(&mut res, '%');
    res
}

/// A text in which the database finds no character to escape: no `\\` and no `%`.
pub open spec fn has_no_like_escape(q: Seq<char>) -> bool {
    forall|i: int| 0 <= i < q.len() ==> q[i] != '\\' && q[i] != '%'
}

/// A text with no `\\` and no `%` is searched as it stands: every character, `_`
/// included, stands once and unchanged in the pattern, between the two `%`.
pub proof fn law_pattern_keeps_plain_text(q: Seq<char>)
    requires
        has_no_like_escape(q),
    ensures
        like_pattern(q) == seq!['%'] + q + seq!['%'],
{
    lemma_plain_text_unescaped(q);
}

/// Escaping leaves a text with no `\\` and no `%` as it is.
proof fn lemma_plain_text_unescaped(q: Seq<char>)
    requires
        has_no_like_escape(q),
    ensures
        like_escaped(q) == q,
    decreases q.len(),
{
    if q.len() > 0 {
        assert(has_no_like_escape(q.drop_last()));
        lemma_plain_text_unescaped(q.drop_last());
        assert(q.drop_last() + seq![q.last()] =~= q);
    }
}

/// The text is escaped character by character: escaping `q` followed by `r` gives the
/// escaped `q` followed by the escaped `r`; a `\\` becomes `\\\\`, a `%` becomes `\\%`,
/// and any other character stays as it is.
pub proof fn law_escape_by_character(q: Seq<char>, r: Seq<char>, c: char)
    ensures
        like_escaped(q + r) == like_escaped(q) + like_escaped(r),
        c == '\\' ==> like_escaped(seq![c]) == seq!['\\', '\\'],
        c == '%' ==> like_escaped(seq![c]) == seq!['\\', '%'],
        c != '\\' && c != '%' ==> like_escaped(seq![c]) == seq![c],
    decreases r.len(),
{
    let one = seq![c];
    assert(one.drop_last() =~= Seq::<char>::empty());
    assert(one.last() == c);
    assert(like_escaped(Seq::<char>::empty()) =~= Seq::<char>::empty());
    assert(like_escaped(one) =~= if c == '\\' {
        seq!['\\', '\\']
    } else if c == '%' {
        seq!['\\', '%']
    } else {
        seq![c]
    });
    if r.len() == 0 {
        assert(q + r =~= q);
        assert(like_escaped(q) + like_escaped(r) =~= like_escaped(q));
    } else {
        law_escape_by_character(q, r.drop_last(), c);
        assert((q + r).drop_last() =~= q + r.drop_last());
        assert((q + r).last() == r.last());
        let tail = if r.last() == '\\' {
            seq!['\\', '\\']
        } else if r.last() == '%' {
            seq!['\\', '%']
        } else {
            seq![r.last()]
        };
        assert(like_escaped(q + r) == like_escaped(q + r.drop_last()) + tail);
        assert(like_escaped(r) == like_escaped(r.drop_last()) + tail);
        assert(like_escaped(q) + like_escaped(r.drop_last()) + tail
            =~= like_escaped(q) + (like_escaped(r.drop_last()) + tail));
    }
}

/// Which results of a search a request asks for: at most `limit` of them (all when
/// `None`), after skipping `offset` (none when `None`).
#[derive(Debug, Clone, Copy, PartialEq, Eq, Structural)]
pub struct SearchWindow {
    /// The most results to give.
    pub limit: Option<i64>,
    /// The number of results to skip.
    pub offset: Option<i64>,
}

/// The window of `cargo search` results (the `per_page` and `page` parameters, counted
/// from 1): page `page` of `per_page` results; the first `per_page` results without a page;
/// all results without a number per page.
pub fn search_window(per_page: Option<u32>, page: Option<u32>) -> (res: SearchWindow)
    requires
        per_page matches Some(n) ==> n >= 1,
        page matches Some(p) ==> p >= 1,
        per_page matches Some(n) && page matches Some(p) ==> (p - 1) * n <= u32::MAX,
    ensures
        match (per_page, page) {
            (Some(n), Some(p)) => res == (SearchWindow {
                limit: Some(n as i64),
                offset: Some(((p - 1) * n) as i64),
            }),
            (Some(n), None) => res == (SearchWindow { limit: Some(n as i64), offset: None }),
            _ => res == (SearchWindow { limit: None, offset: None }),
        },
{
    match (per_page, page) {
        (Some(n), Some(p)) => {
            let skipped: u32 = (p - 1) * n;
            SearchWindow { limit: Some(n as i64), offset: Some(skipped as i64) }
        },
        (Some(n), None) => SearchWindow { limit: Some(n as i64), offset: None },
        _ => SearchWindow { limit: None, offset: None },
    }
}

/// The window of results of the first version of the search endpoint, whose pages are
/// counted from 0: page `page` of `per_page` results.
pub fn api_search_window(per_page: Option<u32>, page: Option<u32>) -> (res: SearchWindow)
    requires
        per_page matches Some(n) && page matches Some(p) ==> p * n <= u32::MAX,
    ensures
        match (per_page, page) {
            (Some(n), Some(p)) => res == (SearchWindow {
                limit: Some(n as i64),
                offset: Some((p * n) as i64),
            }),
            (Some(n), None) => res == (SearchWindow { limit: Some(n as i64), offset: None }),
            _ => res == (SearchWindow { limit: None, offset: None }),
        },
{
    match (per_page, page) {
        (Some(n), Some(p)) => {
            let skipped: u32 = p * n;
            SearchWindow { limit: Some(n as i64), offset: Some(skipped as i64) }
        },
        (Some(n), None) => SearchWindow { limit: Some(n as i64), offset: None },
        _ => SearchWindow { limit: None, offset: None },
    }
}

/// The number of suggestions to give: `limit` when given, 10 otherwise.
pub fn suggestion_limit(limit: Option<u32>) -> (res: i64)
    ensures
        res == match limit {
            Some(n) => n as int,
            None => 10,
        },
{
    match limit {
        Some(n) => n as i64,
        None => 10,
    }
}

} // verus!
