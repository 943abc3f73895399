//! Putting things in order: by text, by date, by month.
//!
//! What is ordered are positions `0..n` of some list; a [`SortKey`] says by
//! what. Things that compare equal keep the order of their positions.

use vstd::prelude::*;
use crate::models::types::Timestamp;

verus! {

/// The character codes of a text.
pub open spec fn codes(text: Seq<char>) -> Seq<int> {
    text.map_values(|c: char| (c as u32) as int)
}

/// Whether `a` comes strictly before `b` in dictionary order: at the first
/// place where the two differ `a` has the smaller element, or `a` ends there.
pub open spec fn lex_lt(a: Seq<int>, b: Seq<int>) -> bool
    decreases a.len(),
{
    if b.len() == 0 {
        false
    } else if a.len() == 0 {
        true
    } else if a[0] != b[0] {
        a[0] < b[0]
    } else {
        lex_lt(a.skip(1), b.skip(1))
    }
}

/// Tells whether the text `a` comes strictly before the text `b` in
/// dictionary order by character code.
pub fn text_before(a: &Vec<char>, b: &Vec<char>) -> (r: bool)
    ensures
        r == lex_lt(codes(a@), codes(b@)),
{
    let mut i: usize = 0;
    assert(codes(a@).skip(0) == codes(a@));
    assert(codes(b@).skip(0) == codes(b@));
    while i < a.len() && i < b.len()
        invariant
            i <= a@.len(),
            i <= b@.len(),
            lex_lt(codes(a@), codes(b@)) == lex_lt(codes(a@).skip(i as int), codes(b@).skip(i as int)),
        decreases a@.len() - i,
    {
        let ghost x = codes(a@).skip(i as int);
        let ghost y = codes(b@).skip(i as int);
        assert(x[0] == (a@[i as int] as u32) as int);
        assert(y[0] == (b@[i as int] as u32) as int);
        assert(x.skip(1) == codes(a@).skip(i + 1));
        assert(y.skip(1) == codes(b@).skip(i + 1));
        let left = a[i] as u32;
        let right = b[i] as u32;
        if left != right {
            return left < right;
        }
        i = i + 1;
    }
    let ghost x = codes(a@).skip(i as int);
    let ghost y = codes(b@).skip(i as int);
    assert(x.len() == a@.len() - i);
    assert(y.len() == b@.len() - i);
    i < b.len()
}

/// By what positions are ordered.
pub enum SortKey<'a> {
    /// By the text at each position, ascending.
    Texts(&'a Vec<Vec<char>>),
    /// By the text at each position, descending.
    TextsDescending(&'a Vec<Vec<char>>),
    /// By the date at each position, newest first.
    Newest(&'a Vec<Timestamp>),
    /// By the year and month at each position, latest first.
    LatestMonth(&'a Vec<(i32, u32)>),
}

impl<'a> SortKey<'a> {
    /// How many positions the key covers.
    pub open spec fn len(&self) -> nat {
        match self {
            SortKey::Texts(texts) => texts@.len(),
            SortKey::TextsDescending(texts) => texts@.len(),
            SortKey::Newest(dates) => dates@.len(),
            SortKey::LatestMonth(months) => months@.len(),
        }
    }

    /// Whether position `i` goes strictly before position `j`.
    pub open spec fn precedes(&self, i: int, j: int) -> bool {
        match self {
            SortKey::Texts(texts) => lex_lt(codes(texts@[i]@), codes(texts@[j]@)),
            SortKey::TextsDescending(texts) => lex_lt(codes(texts@[j]@), codes(texts@[i]@)),
            SortKey::Newest(dates) => dates@[j].before(dates@[i]),
            SortKey::LatestMonth(months) => months@[j].0 < months@[i].0 || (months@[j].0
                == months@[i].0 && months@[j].1 < months@[i].1),
        }
    }

    fn goes_before(&self, i: usize, j: usize) -> (r: bool)
        requires
            i < self.len(),
            j < self.len(),
        ensures
            r == self.precedes(i as int, j as int),
    {
        match self {
            SortKey::Texts(texts) => text_before(&texts[i], &texts[j]),
            SortKey::TextsDescending(texts) => text_before(&texts[j], &texts[i]),
            SortKey::Newest(dates) => dates[j].is_before(&dates[i]),
            SortKey::LatestMonth(months) => months[j].0 < months[i].0 || (months[j].0
                == months[i].0 && months[j].1 < months[i].1),
        }
    }
}

/// Where position `x` goes in an ordered list: before the first position it
/// strictly precedes, and so after everything that compares equal.
pub open spec fn slot(precedes: spec_fn(int, int) -> bool, order: Seq<usize>, x: int) -> int
    decreases order.len(),
{
    if order.len() == 0 {
        0
    } else if precedes(x, order[0] as int) {
        0
    } else {
        1 + slot(precedes, order.skip(1), x)
    }
}

/// The positions `items` in the order of `precedes`; positions that compare
/// equal keep the order in which they stand in `items`.
pub open spec fn arranged(precedes: spec_fn(int, int) -> bool, items: Seq<usize>) -> Seq<usize>
    decreases items.len(),
{
    if items.len() == 0 {
        Seq::empty()
    } else {
        let before = arranged(precedes, items.drop_last());
        before.insert(slot(precedes, before, items.last() as int), items.last())
    }
}

/// The positions `0..n`, in rising order.
pub open spec fn all_positions(n: nat) -> Seq<usize> {
    Seq::new(n, |k: int| k as usize)
}

impl<'a> SortKey<'a> {
    /// The order that the key stands for.
    pub open spec fn relation(&self) -> spec_fn(int, int) -> bool {
        |i: int, j: int| self.precedes(i, j)
    }
}

/// A slot lies within the list, after every position that the new one does
/// not precede and before one that it precedes.
pub proof fn lemma_slot(precedes: spec_fn(int, int) -> bool, order: Seq<usize>, x: int)
    ensures
        0 <= slot(precedes, order, x) <= order.len(),
        forall|k: int|
            0 <= k < slot(precedes, order, x) ==> !precedes(x, (#[trigger] order[k]) as int),
        slot(precedes, order, x) < order.len() ==> precedes(
            x,
            order[slot(precedes, order, x)] as int,
        ),
    decreases order.len(),
{
    if order.len() > 0 && !precedes(x, order[0] as int) {
        let rest = order.skip(1);
        lemma_slot(precedes, rest, x);
        assert forall|k: int| 0 <= k < slot(precedes, order, x) implies !precedes(
            x,
            (#[trigger] order[k]) as int,
        ) by {
            if k > 0 {
                assert(rest[k - 1] == order[k]);
            }
        }
        if slot(precedes, order, x) < order.len() {
            assert(rest[slot(precedes, rest, x)] == order[slot(precedes, order, x)]);
        }
    }
}

/// An arranged list has the length of its items and holds the very same
/// positions.
pub proof fn lemma_arranged(precedes: spec_fn(int, int) -> bool, items: Seq<usize>)
    ensures
        arranged(precedes, items).len() == items.len(),
        arranged(precedes, items).to_multiset() == items.to_multiset(),
        forall|k: int|
            0 <= k < items.len() ==> items.contains(#[trigger] arranged(precedes, items)[k]),
    decreases items.len(),
{
    broadcast use vstd::seq_lib::group_to_multiset_ensures;

    if items.len() > 0 {
        let front = items.drop_last();
        let last = items.last();
        lemma_arranged(precedes, front);
        let before = arranged(precedes, front);
        lemma_slot(precedes, before, last as int);
        let at = slot(precedes, before, last as int);
        let out = before.insert(at, last);
        assert(out.remove(at) =~= before);
        assert(out.to_multiset().remove(last) == before.to_multiset());
        assert(items =~= front.push(last));
        assert(out.to_multiset() =~= items.to_multiset());
        assert forall|k: int| 0 <= k < items.len() implies items.contains(#[trigger] out[k]) by {
            if k == at {
                assert(items[items.len() - 1] == last);
            } else {
                let b = if k < at {
                    k
                } else {
                    k - 1
                };
                assert(out[k] == before[b]);
                assert(front.contains(before[b]));
                let w = choose|w: int| 0 <= w < front.len() && front[w] == before[b];
                assert(items[w] == before[b]);
            }
        }
    }
}

/// Two orders that agree on the positions in question arrange them alike.
pub proof fn lemma_arranged_alike(
    first: spec_fn(int, int) -> bool,
    second: spec_fn(int, int) -> bool,
    items: Seq<usize>,
)
    requires
        forall|i: int, j: int|
            0 <= i < items.len() && 0 <= j < items.len() ==> first(items[i] as int, items[j] as int)
                == second(items[i] as int, items[j] as int),
    ensures
        arranged(first, items) == arranged(second, items),
    decreases items.len(),
{
    if items.len() > 0 {
        let front = items.drop_last();
        assert forall|i: int, j: int| 0 <= i < front.len() && 0 <= j < front.len() implies first(
            front[i] as int,
            front[j] as int,
        ) == second(front[i] as int, front[j] as int) by {
            assert(front[i] == items[i] && front[j] == items[j]);
        }
        lemma_arranged_alike(first, second, front);
        let before = arranged(first, front);
        lemma_arranged(first, front);
        assert forall|k: int| 0 <= k < before.len() implies first(
            items.last() as int,
            (#[trigger] before[k]) as int,
        ) == second(items.last() as int, before[k] as int) by {
            assert(front.contains(before[k]));
            let w = choose|w: int| 0 <= w < front.len() && front[w] == before[k];
            assert(items[w] == before[k]);
            assert(items[items.len() - 1] == items.last());
        }
        lemma_slot_alike(first, second, before, items.last() as int);
    }
}

proof fn lemma_slot_alike(
    first: spec_fn(int, int) -> bool,
    second: spec_fn(int, int) -> bool,
    order: Seq<usize>,
    x: int,
)
    requires
        forall|k: int|
            0 <= k < order.len() ==> first(x, (#[trigger] order[k]) as int) == second(
                x,
                order[k] as int,
            ),
    ensures
        slot(first, order, x) == slot(second, order, x),
    decreases order.len(),
{
    if order.len() > 0 {
        assert(first(x, order[0] as int) == second(x, order[0] as int));
        let rest = order.skip(1);
        assert forall|k: int| 0 <= k < rest.len() implies first(x, (#[trigger] rest[k]) as int)
            == second(x, rest[k] as int) by {
            assert(rest[k] == order[k + 1]);
        }
        lemma_slot_alike(first, second, rest, x);
    }
}

/// No sequence comes before itself.
pub proof fn lemma_lex_irreflexive(a: Seq<int>)
    ensures
        !lex_lt(a, a),
    decreases a.len(),
{
    if a.len() > 0 {
        lemma_lex_irreflexive(a.skip(1));
    }
}

/// Dictionary order is transitive.
pub proof fn lemma_lex_transitive(a: Seq<int>, b: Seq<int>, c: Seq<int>)
    requires
        lex_lt(a, b),
        lex_lt(b, c),
    ensures
        lex_lt(a, c),
    decreases a.len(),
{
    if a.len() > 0 && b.len() > 0 && c.len() > 0 && a[0] == b[0] && b[0] == c[0] {
        lemma_lex_transitive(a.skip(1), b.skip(1), c.skip(1));
    }
}

/// Of two different sequences one comes before the other.
pub proof fn lemma_lex_total(a: Seq<int>, b: Seq<int>)
    ensures
        lex_lt(a, b) || lex_lt(b, a) || a == b,
    decreases a.len(),
{
    if a.len() > 0 && b.len() > 0 && a[0] == b[0] {
        lemma_lex_total(a.skip(1), b.skip(1));
        if a.skip(1) == b.skip(1) {
            assert(a =~= seq![a[0]] + a.skip(1));
            assert(b =~= seq![b[0]] + b.skip(1));
        }
    } else if a.len() == 0 && b.len() == 0 {
        assert(a =~= b);
    }
}

/// Whether `precedes` orders positions strictly and weakly: nothing precedes
/// itself, what precedes something that precedes a third precedes the third,
/// and so does "does not precede".
pub open spec fn orders(precedes: spec_fn(int, int) -> bool) -> bool {
    &&& (forall|a: int| !#[trigger] precedes(a, a))
    &&& (forall|a: int, b: int, c: int|
        #[trigger] precedes(a, b) && #[trigger] precedes(b, c) ==> precedes(a, c))
    &&& (forall|a: int, b: int, c: int|
        !#[trigger] precedes(a, b) && !#[trigger] precedes(b, c) ==> !precedes(a, c))
}

/// Under an order, the arranged positions are sorted: no position precedes
/// one that stands before it.
pub proof fn lemma_arranged_sorted(precedes: spec_fn(int, int) -> bool, items: Seq<usize>)
    requires
        orders(precedes),
    ensures
        forall|k: int, l: int|
            0 <= k < l < arranged(precedes, items).len() ==> !precedes(
                arranged(precedes, items)[l] as int,
                arranged(precedes, items)[k] as int,
            ),
    decreases items.len(),
{
    if items.len() > 0 {
        let before = arranged(precedes, items.drop_last());
        let x = items.last();
        let at = slot(precedes, before, x as int);
        let out = arranged(precedes, items);
        lemma_arranged_sorted(precedes, items.drop_last());
        lemma_slot(precedes, before, x as int);
        assert(out == before.insert(at, x));
        assert forall|k: int, l: int| 0 <= k < l < out.len() implies !precedes(
            out[l] as int,
            out[k] as int,
        ) by {
            if l < at {
                assert(out[k] == before[k] && out[l] == before[l]);
            } else if l == at {
                assert(out[l] == x && out[k] == before[k]);
            } else if k == at {
                assert(out[k] == x && out[l] == before[l - 1]);
                let first = before[at] as int;
                let later = before[l - 1] as int;
                assert(precedes(x as int, first));
                if precedes(later, x as int) {
                    assert(precedes(later, first));
                    if l - 1 > at {
                        assert(!precedes(before[l - 1] as int, before[at] as int));
                    }
                }
            } else if k < at {
                assert(out[k] == before[k] && out[l] == before[l - 1]);
            } else {
                assert(out[k] == before[k - 1] && out[l] == before[l - 1]);
            }
        }
    }
}

/// Puts the positions `items` in order.
pub fn arrange(key: &SortKey, items: &Vec<usize>) -> (order: Vec<usize>)
    requires
        forall|k: int| 0 <= k < items@.len() ==> (#[trigger] items@[k]) < key.len(),
    ensures
        order@ == arranged(key.relation(), items@),
        order@.len() == items@.len(),
        forall|k: int| 0 <= k < order@.len() ==> (#[trigger] order@[k]) < key.len(),
{
    let ghost precedes = key.relation();
    let mut order: Vec<usize> = Vec::new();
    let mut n: usize = 0;
    assert(order@ =~= arranged(precedes, items@.take(0)));
    while n < items.len()
        invariant
            n <= items.len(),
            order@.len() == n,
            precedes == key.relation(),
            forall|k: int| 0 <= k < items@.len() ==> (#[trigger] items@[k]) < key.len(),
            forall|k: int| 0 <= k < order@.len() ==> (#[trigger] order@[k]) < key.len(),
            order@ == arranged(precedes, items@.take(n as int)),
        decreases items.len() - n,
    {
        let x = items[n];
        proof {
            assert(items@.take(n + 1).drop_last() == items@.take(n as int));
            assert(items@.take(n + 1).last() == items@[n as int]);
        }
        let mut at: usize = 0;
        assert(order@.skip(0) == order@);
        while at < order.len() && !key.goes_before(x, order[at])
            invariant
                at <= order@.len(),
                x < key.len(),
                precedes == key.relation(),
                forall|k: int| 0 <= k < order@.len() ==> (#[trigger] order@[k]) < key.len(),
                slot(precedes, order@, x as int) == at + slot(
                    precedes,
                    order@.skip(at as int),
                    x as int,
                ),
            decreases order@.len() - at,
        {
            proof {
                let rest = order@.skip(at as int);
                assert(rest[0] == order@[at as int]);
                assert(rest.skip(1) == order@.skip(at + 1));
            }
            at = at + 1;
        }
        proof {
            let rest = order@.skip(at as int);
            if at < order@.len() {
                assert(rest[0] == order@[at as int]);
            }
            assert(slot(precedes, rest, x as int) == 0);
        }
        order.insert(at, x);
        n = n + 1;
    }
    assert(items@.take(n as int) == items@);
    order
}

/// The positions `0..n`, in rising order.
pub fn positions(n: usize) -> (items: Vec<usize>)
    ensures
        items@ == all_positions(n as nat),
{
    let mut items: Vec<usize> = Vec::new();
    let mut i: usize = 0;
    while i < n
        invariant
            i <= n,
            items@.len() == i,
            forall|k: int| 0 <= k < i ==> (#[trigger] items@[k]) == k,
        decreases n - i,
    {
        items.push(i);
        i = i + 1;
    }
    assert(items@ =~= all_positions(n as nat));
    items
}

} // verus!
