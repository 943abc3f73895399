//! Cutting the post list into index pages.

use vstd::prelude::*;
use vstd::string::*;
use crate::text::{decimal, decimal_string};

verus! {

/// The smaller of two numbers.
pub open spec fn least(a: int, b: int) -> int {
    if a <= b {
        a
    } else {
        b
    }
}

/// The number of index pages for `total` posts at `size` posts a page: the
/// quotient of the two, rounded up.
pub open spec fn page_count(total: nat, size: nat) -> nat
    recommends
        size > 0,
{
    ((total + size - 1) / (size as int)) as nat
}

/// Where page `k` (counted from zero) begins in the post list.
pub open spec fn page_start(total: nat, size: nat, k: nat) -> nat {
    least((k * size) as int, total as int) as nat
}

/// Where page `k` (counted from zero) ends in the post list.
pub open spec fn page_end(total: nat, size: nat, k: nat) -> nat {
    least(((k + 1) * size) as int, total as int) as nat
}

/// The posts of page `k` (counted from zero).
pub open spec fn page_slice<T>(items: Seq<T>, size: nat, k: nat) -> Seq<T> {
    items.subrange(
        page_start(items.len(), size, k) as int,
        page_end(items.len(), size, k) as int,
    )
}

/// The posts of the first `n` pages, page after page.
pub open spec fn pages_joined<T>(items: Seq<T>, size: nat, n: nat) -> Seq<T>
    decreases n,
{
    if n == 0 {
        Seq::empty()
    } else {
        pages_joined(items, size, (n - 1) as nat) + page_slice(items, size, (n - 1) as nat)
    }
}

/// One index page: its number, counted from one, and the range of posts it
/// shows.
#[derive(Clone, Copy, Debug, PartialEq, Eq, Structural)]
pub struct PageSpan {
    pub number: usize,
    pub start: usize,
    pub end: usize,
}

/// `k` is the page count as soon as `k` pages are enough and `k - 1` are not.
proof fn lemma_page_count_is(total: nat, size: nat, k: nat)
    requires
        size > 0,
        k * size >= total,
        k > 0 ==> (k - 1) * size < total,
    ensures
        k == page_count(total, size),
{
    let q = (total + size - 1) / (size as int);
    assert(q * size <= total + size - 1 < q * size + size) by (nonlinear_arith)
        requires
            size > 0,
            q == (total + size - 1) / (size as int),
    ;
    assert(k == q) by (nonlinear_arith)
        requires
            size > 0,
            k * size >= total,
            k > 0 ==> (k - 1) * size < total,
            q * size <= total + size - 1 < q * size + size,
            q >= 0,
    ;
}

/// The page count is the quotient rounded up: that many pages are enough,
/// and one fewer is not.
pub proof fn lemma_page_count_rounds_up(total: nat, size: nat)
    requires
        size > 0,
    ensures
        page_count(total, size) * size >= total,
        page_count(total, size) > 0 ==> (page_count(total, size) - 1) * size < total,
        total == 0 <==> page_count(total, size) == 0,
{
    let q = (total + size - 1) / (size as int);
    assert(q * size <= total + size - 1 < q * size + size) by (nonlinear_arith)
        requires
            size > 0,
            q == (total + size - 1) / (size as int),
    ;
    assert(q >= 0) by (nonlinear_arith)
        requires
            size > 0,
            q * size + size > total + size - 1,
            total >= 0,
    ;
    assert((q - 1) * size == q * size - size) by (nonlinear_arith);
    if total == 0 {
        assert(q == 0) by (nonlinear_arith)
            requires
                size > 0,
                q * size <= size - 1,
                q >= 0,
        ;
    }
}

/// Cuts `total` posts into pages of `size` posts.
pub fn paginate(total: usize, size: usize) -> (spans: Vec<PageSpan>)
    requires
        size > 0,
    ensures
        spans@.len() == page_count(total as nat, size as nat),
        forall|k: int|
            0 <= k < spans@.len() ==> {
                &&& (#[trigger] spans@[k]).number == k + 1
                &&& spans@[k].start == page_start(total as nat, size as nat, k as nat)
                &&& spans@[k].end == page_end(total as nat, size as nat, k as nat)
                &&& spans@[k].start < spans@[k].end
            },
{
    let mut spans: Vec<PageSpan> = Vec::new();
    let mut start: usize = 0;
    assert(0 * size == 0) by (nonlinear_arith);
    while start < total
        invariant
            size > 0,
            start <= total,
            spans@.len() <= start,
            start == least(spans@.len() * size, total as int),
            spans@.len() > 0 ==> (spans@.len() - 1) * size < total,
            forall|k: int|
                0 <= k < spans@.len() ==> {
                    &&& (#[trigger] spans@[k]).number == k + 1
                    &&& spans@[k].start == page_start(total as nat, size as nat, k as nat)
                    &&& spans@[k].end == page_end(total as nat, size as nat, k as nat)
                    &&& spans@[k].start < spans@[k].end
                },
        decreases total - start,
    {
        let ghost k = spans@.len();
        let end: usize = if total - start > size {
            start + size
        } else {
            total
        };
        proof {
            assert(start == k * size);
            assert((k + 1) * size == k * size + size) by (nonlinear_arith);
            assert(end == least((k + 1) * size, total as int));
        }
        spans.push(PageSpan { number: spans.len() + 1, start, end });
        start = end;
    }
    proof {
        let k = spans@.len() as nat;
        assert(k * size >= total);
        lemma_page_count_is(total as nat, size as nat, k);
    }
    spans
}

/// The first `n` pages together hold the posts up to the end of page `n`.
proof fn lemma_pages_joined_prefix<T>(items: Seq<T>, size: nat, n: nat)
    requires
        size > 0,
    ensures
        pages_joined(items, size, n) == items.take(least((n * size) as int, items.len() as int)),
    decreases n,
{
    if n == 0 {
        assert(0 * size == 0) by (nonlinear_arith);
        assert(items.take(0) =~= Seq::<T>::empty());
    } else {
        let m = (n - 1) as nat;
        lemma_pages_joined_prefix(items, size, m);
        assert((m + 1) * size == m * size + size) by (nonlinear_arith);
        assert(m * size >= 0) by (nonlinear_arith)
            requires
                m >= 0,
                size > 0,
        ;
        let a = least((m * size) as int, items.len() as int);
        let b = least((n * size) as int, items.len() as int);
        assert(items.take(a) + items.subrange(a, b) =~= items.take(b));
    }
}

/// Pagination neither drops nor repeats a post.
///
/// The pages of a post list, joined in order, are the post list itself; every
/// page but the last is full, and no page is empty.
pub proof fn lemma_pages_cover<T>(items: Seq<T>, size: nat)
    requires
        size > 0,
    ensures
        pages_joined(items, size, page_count(items.len(), size)) == items,
        forall|k: nat|
            k < page_count(items.len(), size) ==> 0 < (#[trigger] page_slice(items, size, k)).len()
                <= size,
        forall|k: nat|
            k + 1 < page_count(items.len(), size) ==> (#[trigger] page_slice(
                items,
                size,
                k,
            )).len() == size,
{
    let total = items.len();
    let n = page_count(total, size);
    lemma_page_count_rounds_up(total, size);
    lemma_pages_joined_prefix(items, size, n);
    assert(items.take(total as int) == items);
    assert forall|k: nat| k < n implies 0 < (#[trigger] page_slice(items, size, k)).len()
        <= size by {
        assert((k + 1) * size == k * size + size) by (nonlinear_arith);
        assert(k * size <= (n - 1) * size) by (nonlinear_arith)
            requires
                k <= n - 1,
                size > 0,
        ;
        assert(k * size >= 0) by (nonlinear_arith)
            requires
                k >= 0,
                size > 0,
        ;
    }
    assert forall|k: nat| k + 1 < n implies (#[trigger] page_slice(items, size, k)).len()
        == size by {
        assert((k + 1) * size == k * size + size) by (nonlinear_arith);
        assert((k + 1) * size <= (n - 1) * size) by (nonlinear_arith)
            requires
                k + 1 <= n - 1,
                size > 0,
        ;
        assert(k * size >= 0) by (nonlinear_arith)
            requires
                k >= 0,
                size > 0,
        ;
    }
}

} // verus!
