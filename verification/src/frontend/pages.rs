use vstd::prelude::*;

use crate::text::{append_decimal, decimal, push_text};

verus! {

/// The number of crates on a page of the frontend's listings.
pub const PAGE_SIZE: i64 = 15;

/// The number of pages that `total` results take, 15 per page: one page more than the
/// full pages, except when the results exactly fill them (and at least one page always).
pub open spec fn spec_page_count(total: int) -> int {
    total / 15 + if total > 0 && total % 15 == 0 {
        0int
    } else {
        1int
    }
}

/// The number of pages that `total` results take.
pub fn page_count(total: i64) -> (res: i64)
    requires
        total >= 0,
    ensures
        res == spec_page_count(total as int),
{
    total / 15 + if total > 0 && total % 15 == 0 {
        0
    } else {
        1
    }
}

/// The pages cover every result, and every page shows at least one result when there are
/// results: `page_count` pages of 15 hold `total` results, one page fewer would not.
pub proof fn law_pages_cover_results(total: int)
    requires
        total >= 0,
    ensures
        spec_page_count(total) >= 1,
        15 * spec_page_count(total) >= total,
        total > 0 ==> 15 * (spec_page_count(total) - 1) < total,
{
}

/// The number of results that page `page` (counted from 1) skips.
pub fn page_offset(page: u32) -> (res: i64)
    requires
        page >= 1,
    ensures
        res == 15 * (page - 1),
{
    15 * ((page - 1) as i64)
}

/// The link to page `page` of the last updated crates.
pub open spec fn last_updated_link(page: nat) -> Seq<char> {
    "/last-updated?page="@ + decimal(page)
}

/// The links to the next and previous pages of the last updated crates, from page `page`
/// (counted from 1) of `page_count`: the next one unless it is the last page, the
/// previous one unless it is the first.
pub fn last_updated_links(page: u32, page_count: u32) -> (res: (Option<String>, Option<String>))
    requires
        page >= 1,
    ensures
        page < page_count ==> (res.0 matches Some(l) && l@ == last_updated_link((page + 1) as nat)),
        page >= page_count ==> res.0 is None,
        page > 1 ==> (res.1 matches Some(l) && l@ == last_updated_link((page - 1) as nat)),
        page == 1 ==> res.1 is None,
{
    let next = if page < page_count {
        let mut l = String::new();
        push_text(&mut l, "/last-updated?page=");
        append_decimal(&mut l, (page + 1) as u64);
        Some(l)
    } else {
        None
    };
    let prev = if page > 1 {
        let mut l = String::new();
        push_text(&mut l, "/last-updated?page=");
        append_decimal(&mut l, (page - 1) as u64);
        Some(l)
    } else {
        None
    };
    (next, prev)
}

} // verus!
