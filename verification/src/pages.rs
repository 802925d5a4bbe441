//! Pages of entities, loaded on demand in both directions and kept in the
//! order of their numbers, so that scrolling can run from any position
//! through all that follows.

use std::collections::BTreeMap;
use url::Url;
use vstd::prelude::*;
use vstd::std_specs::iter::IteratorSpec;

verus! {

/// An address, as the `url` crate holds it. The pages only carry it.
#[verifier::external_type_specification]
#[verifier::external_body]
pub struct ExUrl(Url);

/// An entity of a page.
#[derive(Debug, Clone, Copy, PartialEq, Eq)]
pub struct Item {
    pub value: u32,
}

/// A page: its items, and where the pages after and before it are found.
#[derive(Debug, Clone)]
pub struct Page {
    pub items: Vec<Item>,
    pub next: Option<Url>,
    pub prev: Option<Url>,
}

impl Page {
    /// A page of `items` with the given neighbours.
    pub fn new(items: Vec<Item>, next: Option<Url>, prev: Option<Url>) -> (r: Page)
        ensures
            r.items == items,
            r.next == next,
            r.prev == prev,
    {
        Page { items, next, prev }
    }
}

/// Whether the numbers of the pages rise strictly.
pub open spec fn ascending(entries: Seq<(i32, Page)>) -> bool {
    forall|i: int, j: int| 0 <= i < j < entries.len() ==> entries[i].0 < entries[j].0
}

/// How many pages at the front have a number below `number`.
pub open spec fn lower_bound(entries: Seq<(i32, Page)>, number: i32) -> int
    decreases entries.len(),
{
    if entries.len() == 0 || entries[0].0 >= number {
        0
    } else {
        1 + lower_bound(entries.skip(1), number)
    }
}

/// The items of all the pages, in order.
pub open spec fn all_items(entries: Seq<(i32, Page)>) -> Seq<Item>
    decreases entries.len(),
{
    if entries.len() == 0 {
        Seq::empty()
    } else {
        all_items(entries.drop_last()) + entries.last().1.items@
    }
}

/// The items from the first page whose number is at least `page_index`
/// on, without the first `index` of them.
pub open spec fn items_after(entries: Seq<(i32, Page)>, page_index: i32, index: usize) -> Seq<Item> {
    let items = all_items(entries.skip(lower_bound(entries, page_index)));
    if index >= items.len() {
        Seq::empty()
    } else {
        items.skip(index as int)
    }
}

/// `lower_bound` lies inside the pages; it counts the first `n` pages
/// where those are below `number` and the next one, if any, is not.
pub proof fn lemma_lower_bound(entries: Seq<(i32, Page)>, number: i32, n: int)
    requires
        0 <= n <= entries.len(),
        forall|k: int| 0 <= k < n ==> (#[trigger] entries[k]).0 < number,
        n < entries.len() ==> entries[n].0 >= number,
    ensures
        lower_bound(entries, number) == n,
    decreases n,
{
    if n > 0 {
        let rest = entries.skip(1);
        assert forall|k: int| 0 <= k < n - 1 implies (#[trigger] rest[k]).0 < number by {
            assert(rest[k] == entries[k + 1]);
        }
        if n < entries.len() {
            assert(rest[n - 1] == entries[n]);
        }
        lemma_lower_bound(rest, number, n - 1);
    }
}

/// Walking from a number that no page lies below, with nothing left out,
/// goes through every item of every page.
pub proof fn lemma_walk_from_the_start(entries: Seq<(i32, Page)>, page_index: i32)
    requires
        entries.len() > 0 ==> page_index <= entries[0].0,
    ensures
        items_after(entries, page_index, 0) == all_items(entries),
{
    assert(entries.skip(0) =~= entries);
    let items = all_items(entries);
    if items.len() > 0 {
        assert(items.skip(0) =~= items);
    } else {
        assert(items =~= Seq::<Item>::empty());
    }
}

/// Whether `entries` are the pages of `pages` with their numbers, each
/// once, in rising order of number.
pub open spec fn in_order(entries: Seq<(i32, Page)>, pages: Map<i32, Page>) -> bool {
    &&& ascending(entries)
    &&& forall|i: int|
        0 <= i < entries.len() ==> pages.contains_key((#[trigger] entries[i]).0)
            && pages[entries[i].0] == entries[i].1
    &&& forall|number: i32| #[trigger]
        pages.contains_key(number) ==> exists|i: int|
            0 <= i < entries.len() && (#[trigger] entries[i]).0 == number
}

/// The pages of `pages` with their numbers, in rising order of number.
pub open spec fn pages_in_order(pages: Map<i32, Page>) -> Seq<(i32, Page)> {
    choose|entries: Seq<(i32, Page)>| in_order(entries, pages)
}

/// There is one way only to put the pages in order.
pub proof fn lemma_order_is_unique(a: Seq<(i32, Page)>, b: Seq<(i32, Page)>, pages: Map<i32, Page>)
    requires
        in_order(a, pages),
        in_order(b, pages),
    ensures
        a == b,
    decreases a.len(),
{
    if a.len() == 0 {
        if b.len() > 0 {
            assert(pages.contains_key(b[0].0));
        }
        assert(a =~= b);
    } else {
        let x = a.last();
        assert(pages.contains_key(x.0));
        let j = choose|j: int| 0 <= j < b.len() && (#[trigger] b[j]).0 == x.0;
        let y = b.last();
        assert(pages.contains_key(y.0));
        let i = choose|i: int| 0 <= i < a.len() && (#[trigger] a[i]).0 == y.0;
        assert(a[i].0 <= x.0);
        assert(b[j].0 <= y.0);
        assert(x == y);
        let rest = pages.remove(x.0);
        let a1 = a.drop_last();
        let b1 = b.drop_last();
        assert forall|number: i32| #[trigger] rest.contains_key(number) implies exists|k: int|
            0 <= k < a1.len() && (#[trigger] a1[k]).0 == number by {
            assert(pages.contains_key(number));
            let k = choose|k: int| 0 <= k < a.len() && (#[trigger] a[k]).0 == number;
            assert(a1[k] == a[k]);
        }
        assert forall|number: i32| #[trigger] rest.contains_key(number) implies exists|k: int|
            0 <= k < b1.len() && (#[trigger] b1[k]).0 == number by {
            assert(pages.contains_key(number));
            let k = choose|k: int| 0 <= k < b.len() && (#[trigger] b[k]).0 == number;
            assert(b1[k] == b[k]);
        }
        assert forall|k: int| 0 <= k < a1.len() implies rest.contains_key((#[trigger] a1[k]).0)
            && rest[a1[k].0] == a1[k].1 by {
            assert(a1[k] == a[k]);
        }
        assert forall|k: int| 0 <= k < b1.len() implies rest.contains_key((#[trigger] b1[k]).0)
            && rest[b1[k].0] == b1[k].1 by {
            assert(b1[k] == b[k]);
        }
        assert(in_order(a1, rest));
        assert(in_order(b1, rest));
        lemma_order_is_unique(a1, b1, rest);
        assert(a =~= a1.push(x));
        assert(b =~= b1.push(y));
    }
}

/// Without pages there is nothing to put in order.
pub proof fn lemma_no_pages()
    ensures
        pages_in_order(Map::<i32, Page>::empty()) == Seq::<(i32, Page)>::empty(),
{
    let none = Seq::<(i32, Page)>::empty();
    let pages = Map::<i32, Page>::empty();
    assert(in_order(none, pages));
    lemma_order_is_unique(none, pages_in_order(pages), pages);
}

/// A page put under a number above all the others comes last, behind the
/// others in their order.
pub proof fn lemma_page_above_comes_last(pages: Map<i32, Page>, number: i32, page: Page)
    requires
        in_order(pages_in_order(pages), pages),
        forall|k: i32| pages.contains_key(k) ==> k < number,
    ensures
        in_order(pages_in_order(pages.insert(number, page)), pages.insert(number, page)),
        pages_in_order(pages.insert(number, page)) == pages_in_order(pages).push((number, page)),
{
    let before = pages_in_order(pages);
    let after = before.push((number, page));
    let grown = pages.insert(number, page);
    assert forall|i: int, j: int| 0 <= i < j < after.len() implies after[i].0 < after[j].0 by {
        assert(after[i] == before[i]);
        assert(pages.contains_key(before[i].0));
        if j < before.len() {
            assert(after[j] == before[j]);
        }
    }
    assert forall|i: int| 0 <= i < after.len() implies grown.contains_key((#[trigger] after[i]).0)
        && grown[after[i].0] == after[i].1 by {
        if i < before.len() {
            assert(after[i] == before[i]);
            assert(pages.contains_key(before[i].0));
        }
    }
    assert forall|k: i32| #[trigger] grown.contains_key(k) implies exists|i: int|
        0 <= i < after.len() && (#[trigger] after[i]).0 == k by {
        if k == number {
            assert(after[before.len() as int].0 == k);
        } else {
            assert(pages.contains_key(k));
            let i = choose|i: int| 0 <= i < before.len() && (#[trigger] before[i]).0 == k;
            assert(after[i] == before[i]);
        }
    }
    assert(in_order(after, grown));
    lemma_order_is_unique(after, pages_in_order(grown), grown);
}

/// The pages, by number.
#[derive(Debug)]
pub struct Pages {
    pages: BTreeMap<i32, Page>,
}

impl Pages {
    /// The pages by their numbers.
    pub closed spec fn view(&self) -> Map<i32, Page> {
        self.pages@
    }

    /// No pages.
    pub fn new() -> (r: Self)
        ensures
            r@ == Map::<i32, Page>::empty(),
    {
        Self { pages: BTreeMap::new() }
    }

    /// The number of pages.
    pub fn len(&self) -> (r: usize)
        ensures
            r == self@.len(),
    {
        self.pages.len()
    }

    /// Puts `page` under `number`, and hands back the page that had the
    /// number before, if there was one.
    pub fn insert(&mut self, number: i32, page: Page) -> (r: Option<Page>)
        ensures
            final(self)@ == old(self)@.insert(number, page),
            r == (if old(self)@.contains_key(number) {
                Some(old(self)@[number])
            } else {
                None
            }),
    {
        self.pages.insert(number, page)
    }

    /// The items from the first page whose number is at least `page_index`
    /// on, through all later pages, without the first `index` of them.
    pub fn iter_items_after(&self, page_index: i32, index: usize) -> (r: Vec<Item>)
        ensures
            in_order(pages_in_order(self@), self@),
            r@ == items_after(pages_in_order(self@), page_index, index),
    {
        let iter = self.pages.iter();
        let ghost seq0 = iter.remaining();
        let ghost entries = seq0.map_values(|kv: (&i32, &Page)| (*kv.0, *kv.1));
        proof {
            broadcast use vstd::std_specs::btree::group_btree_axioms;
            let keys = seq0.map_values(|kv: (&i32, &Page)| *kv.0);
            assert(vstd::std_specs::btree::increasing_seq(keys));
            crate::order::lemma_keys_rise(keys);
            assert forall|i: int, j: int| 0 <= i < j < entries.len() implies entries[i].0
                < entries[j].0 by {
                assert(keys[i] == entries[i].0 && keys[j] == entries[j].0);
            }
            assert forall|number: i32| #[trigger] self@.contains_key(number) implies exists|
                i: int,
            | 0 <= i < entries.len() && (#[trigger] entries[i]).0 == number by {
                assert(seq0.contains((&number, &self@[number])));
                let i = choose|i: int| 0 <= i < seq0.len() && seq0[i] == (&number, &self@[number]);
                assert(entries[i].0 == number);
            }
            assert(in_order(entries, self@));
            lemma_order_is_unique(entries, pages_in_order(self@), self@);
        }
        let mut out: Vec<Item> = Vec::new();
        let mut skipped: usize = 0;
        let mut started = false;
        let ghost mut start: int = 0;
        for kv in it: iter
            invariant
                it.seq() == seq0,
                entries == seq0.map_values(|kv: (&i32, &Page)| (*kv.0, *kv.1)),
                skipped <= index,
                skipped == index || out@.len() == 0,
                !started ==> out@.len() == 0 && skipped == 0 && forall|k: int|
                    0 <= k < it.index() ==> (#[trigger] entries[k]).0 < page_index,
                started ==> 0 <= start < it.index() && entries[start].0 >= page_index && forall|
                    k: int,
                | 0 <= k < start ==> (#[trigger] entries[k]).0 < page_index,
                started ==> skipped as int + out@.len() == all_items(
                    entries.subrange(start, it.index()),
                ).len() && out@ == all_items(entries.subrange(start, it.index())).skip(
                    skipped as int,
                ),
        {
            let ghost at = it.index();
            assert(entries[at] == (*kv.0, *kv.1));
            if !started && *kv.0 >= page_index {
                started = true;
                proof {
                    start = at;
                    assert(entries.subrange(at, at) =~= Seq::<(i32, Page)>::empty());
                }
            }
            if started {
                let items = &kv.1.items;
                let ghost done = all_items(entries.subrange(start, at));
                proof {
                    assert(entries.subrange(start, at + 1).drop_last() =~= entries.subrange(
                        start,
                        at,
                    ));
                    assert(entries.subrange(start, at + 1).last() == entries[at]);
                    assert(all_items(entries.subrange(start, at + 1)) == done + items@);
                }
                let mut k: usize = 0;
                while k < items.len()
                    invariant
                        k <= items.len(),
                        skipped <= index,
                        skipped == index || out@.len() == 0,
                        skipped as int + out@.len() == done.len() + k,
                        out@ == (done + items@.take(k as int)).skip(skipped as int),
                    decreases items.len() - k,
                {
                    proof {
                        assert(done + items@.take(k + 1) =~= (done + items@.take(k as int)).push(
                            items@[k as int],
                        ));
                    }
                    if skipped < index {
                        skipped += 1;
                        assert(out@ =~= (done + items@.take(k + 1)).skip(skipped as int));
                    } else {
                        out.push(items[k]);
                        assert(out@ =~= (done + items@.take(k + 1)).skip(skipped as int));
                    }
                    k += 1;
                }
                proof {
                    assert(items@.take(items.len() as int) =~= items@);
                }
            }
        }
        proof {
            if started {
                lemma_lower_bound(entries, page_index, start);
                assert(entries.subrange(start, entries.len() as int) =~= entries.skip(start));
                let items = all_items(entries.skip(start));
                if index >= items.len() {
                    assert(out@ =~= Seq::<Item>::empty());
                }
            } else {
                lemma_lower_bound(entries, page_index, entries.len() as int);
                assert(entries.skip(entries.len() as int) =~= Seq::<(i32, Page)>::empty());
                assert(out@ =~= Seq::<Item>::empty());
            }
            assert(out@ == items_after(entries, page_index, index));
        }
        assert(entries == pages_in_order(self@));
        out
    }
}

} // verus!
