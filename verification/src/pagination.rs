//! Cutting the investors of a vault into the pages of a day.
//!
//! The program does not record which investors a day has paid. The cranker
//! has to hand in pages that cover every investor once. Cutting the list of
//! investors, in a fixed order, into full pages and one last page does so.

use vstd::prelude::*;
use crate::constants::MAX_INVESTORS_PER_PAGE;

verus! {

/// The number of pages that `total_investors` investors fill, the last one
/// perhaps in part.
pub open spec fn page_count(total_investors: int) -> int {
    (total_investors + 19) / 20
}

/// The place of the first investor of a page among all investors.
pub open spec fn page_start(total_investors: int, page: int) -> int {
    if page * 20 < total_investors {
        page * 20
    } else {
        total_investors
    }
}

/// The number of investors in a page.
pub open spec fn page_len(total_investors: int, page: int) -> int {
    page_start(total_investors, page + 1) - page_start(total_investors, page)
}

/// Computes the number of pages that the investors fill.
pub fn pages_needed(total_investors: u64) -> (pages: u64)
    ensures
        pages == page_count(total_investors as int),
{
    let full: u64 = total_investors / (MAX_INVESTORS_PER_PAGE as u64);
    if total_investors % (MAX_INVESTORS_PER_PAGE as u64) == 0 {
        full
    } else {
        full + 1
    }
}

/// Computes the number of investors in a page. The pages are counted from zero.
pub fn investors_in_page(total_investors: u64, page: u32) -> (count: u8)
    ensures
        count == page_len(total_investors as int, page as int),
        count <= MAX_INVESTORS_PER_PAGE,
{
    let per_page: u64 = MAX_INVESTORS_PER_PAGE as u64;
    assert(page * per_page == page * 20) by (nonlinear_arith)
        requires
            per_page == 20,
    ;
    let start: u64 = page as u64 * per_page;
    if start >= total_investors {
        0
    } else if total_investors - start >= MAX_INVESTORS_PER_PAGE as u64 {
        MAX_INVESTORS_PER_PAGE as u8
    } else {
        (total_investors - start) as u8
    }
}

/// Decides whether a page is the one that closes the day: the last of the
/// pages that the investors fill, or the first where there are no investors.
pub fn closes_day(total_investors: u64, page: u32) -> (last: bool)
    ensures
        last == (page + 1 >= page_count(total_investors as int)),
{
    page as u64 + 1 >= pages_needed(total_investors)
}

/// The pages lie end to end from the first investor to the last: no investor
/// is left out and none is in two pages. Each page before the last is full,
/// and the last one is not empty.
pub proof fn lemma_pages_cover_investors(total_investors: int, page: int)
    requires
        0 <= total_investors,
        0 <= page,
    ensures
        page_start(total_investors, 0) == 0,
        page_start(total_investors, page_count(total_investors)) == total_investors,
        page_start(total_investors, page) + page_len(total_investors, page) == page_start(
            total_investors,
            page + 1,
        ),
        0 <= page_len(total_investors, page) <= 20,
        page + 1 < page_count(total_investors) ==> page_len(total_investors, page) == 20,
        page < page_count(total_investors) ==> page_len(total_investors, page) > 0,
        page >= page_count(total_investors) ==> page_len(total_investors, page) == 0,
{
}

/// The sum of the sizes of the first `pages` pages.
pub open spec fn investors_in_pages(total_investors: int, pages: int) -> int
    decreases pages,
{
    if pages <= 0 {
        0
    } else {
        investors_in_pages(total_investors, pages - 1) + page_len(total_investors, pages - 1)
    }
}

/// The pages that the investors fill hold, together, every investor.
pub proof fn lemma_pages_hold_all_investors(total_investors: int)
    requires
        0 <= total_investors,
    ensures
        investors_in_pages(total_investors, page_count(total_investors)) == total_investors,
{
    lemma_pages_up_to(total_investors, page_count(total_investors));
    lemma_pages_cover_investors(total_investors, 0);
}

proof fn lemma_pages_up_to(total_investors: int, pages: int)
    requires
        0 <= total_investors,
        0 <= pages,
    ensures
        investors_in_pages(total_investors, pages) == page_start(total_investors, pages),
    decreases pages,
{
    if pages > 0 {
        lemma_pages_up_to(total_investors, pages - 1);
    }
}

} // verus!
