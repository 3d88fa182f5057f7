//! Page arithmetic for the remote catalog.
//!
//! The remote catalog hands items out in fixed-size pages. A synchronizer
//! that has already processed some prefix of an account's items resumes at
//! the page holding the first unseen item, and after each page recomputes
//! how many items it has effectively processed from the page number and the
//! number of items the page actually returned, so that a short final page
//! (or a remote total that changed underneath it) never desynchronizes the
//! count.

use vstd::prelude::*;

verus! {

/// Number of catalog items in one remote page.
pub const PAGE_LIMIT: usize = 50;

/// The 1-based page that holds the first item beyond `processed` already
/// processed items.
pub open spec fn spec_first_unseen_page(processed: int) -> int {
    1 + processed / (PAGE_LIMIT as int)
}

/// How many items are effectively processed once `page` has returned
/// `returned` items: everything before the page, plus what the page held.
pub open spec fn spec_effective_processed(page: int, returned: int) -> int {
    (page - 1) * (PAGE_LIMIT as int) + returned
}

/// The 1-based page that holds the first item not yet processed.
pub fn first_unseen_page(processed: usize) -> (page: usize)
    ensures
        page == spec_first_unseen_page(processed as int),
{
    1 + processed / PAGE_LIMIT
}

/// The effective processed count after `page` returned `returned` items,
/// or `None` when that count does not fit in `usize`.
pub fn effective_processed(page: usize, returned: usize) -> (r: Option<usize>)
    requires
        page >= 1,
    ensures
        match r {
            Some(n) => n == spec_effective_processed(page as int, returned as int),
            None => spec_effective_processed(page as int, returned as int) > usize::MAX,
        },
{
    match (page - 1).checked_mul(PAGE_LIMIT) {
        Some(start) => start.checked_add(returned),
        None => None,
    }
}

/// Pagination correctness: when fewer than `total` items are processed, the
/// page holding the first unseen item starts at or before the processed
/// count (no gap), and once it returns every item the remote holds in its
/// range (a full page, or a short final page), the effective processed count
/// strictly advances and never passes `total` (no overlap beyond the end).
pub proof fn lemma_pagination_reaches_total(processed: int, total: int)
    requires
        0 <= processed < total,
    ensures
        ({
            let page = spec_first_unseen_page(processed);
            let start = (page - 1) * (PAGE_LIMIT as int);
            let returned = if total - start < PAGE_LIMIT as int {
                total - start
            } else {
                PAGE_LIMIT as int
            };
            let eff = spec_effective_processed(page, returned);
            &&& start <= processed
            &&& processed < eff
            &&& eff <= total
        }),
{
    vstd::arithmetic::div_mod::lemma_fundamental_div_mod(processed, PAGE_LIMIT as int);
    vstd::arithmetic::div_mod::lemma_mod_bound(processed, PAGE_LIMIT as int);
}

/// Simulates one full pagination pass over a catalog of `total` items whose
/// pages each return every item in their range, and records each fetch as a
/// `(page, effective_processed)` pair: the effective counts climb strictly,
/// each equals the smaller of `page * PAGE_LIMIT` and `total`, and the pass
/// ends exactly at `total`.
pub fn simulate_pagination(total: usize) -> (pairs: Vec<(usize, usize)>)
    ensures
        pairs.len() == 0 <==> total == 0,
        pairs.len() > 0 ==> pairs[pairs.len() - 1].1 == total,
        forall|i: int|
            0 <= i < pairs.len() ==> (#[trigger] pairs[i]).1 == vstd::math::min(
                pairs[i].0 * (PAGE_LIMIT as int),
                total as int,
            ),
        pairs.len() > 0 ==> pairs[0].0 == 1,
        forall|i: int|
            0 < i < pairs.len() ==> (#[trigger] pairs[i]).0 == spec_first_unseen_page(
                pairs[i - 1].1 as int,
            ),
        forall|i: int, j: int| 0 <= i < j < pairs.len() ==> pairs[i].1 < pairs[j].1,
{
    let mut pairs: Vec<(usize, usize)> = Vec::new();
    let mut processed: usize = 0;

    while processed < total
        invariant
            processed <= total,
            pairs.len() == 0 <==> processed == 0,
            pairs.len() > 0 ==> pairs[pairs.len() - 1].1 == processed,
            forall|i: int|
                0 <= i < pairs.len() ==> (#[trigger] pairs[i]).1 == vstd::math::min(
                    pairs[i].0 * (PAGE_LIMIT as int),
                    total as int,
                ),
            pairs.len() > 0 ==> pairs[0].0 == 1,
            forall|i: int|
                0 < i < pairs.len() ==> (#[trigger] pairs[i]).0 == spec_first_unseen_page(
                    pairs[i - 1].1 as int,
                ),
            forall|i: int, j: int| 0 <= i < j < pairs.len() ==> pairs[i].1 < pairs[j].1,
        decreases total - processed,
    {
        proof {
            lemma_pagination_reaches_total(processed as int, total as int);
        }
        let page = first_unseen_page(processed);
        let start = (page - 1) * PAGE_LIMIT;
        let returned = if total - start < PAGE_LIMIT {
            total - start
        } else {
            PAGE_LIMIT
        };
        let eff = start + returned;
        pairs.push((page, eff));
        processed = eff;
    }
    pairs
}

} // verus!
