//! Putting the pages of a listing together: which pages are requested at
//! once, and how their items come back into one sequence in page order,
//! whatever the order in which the answers arrive.

use crate::activity::reversed;
use crate::repo::RepoRef;
use vstd::prelude::*;

verus! {

/// How the pages after the first are retrieved.
#[derive(Clone, Copy, Debug, PartialEq, Eq, Structural)]
pub enum FetchPlan {
    /// One page after the other, each found through the page before it.
    Sequential,
    /// All pages from the second to the last at once.
    Concurrent { number_of_pages: u32 },
}

/// What is asked of the listing of one kind for one page.
#[derive(Clone, Copy, Debug, PartialEq, Eq, Structural)]
pub struct PageRequest {
    /// The number of the page, counted from one.
    pub page: u32,
    /// How many records the page may hold.
    pub per_page: u8,
    /// Whether closed records are asked for as well as open ones.
    pub all_states: bool,
}

/// The answer to the request for one page: its number, and its items or the
/// failure of the request.
pub type PageResult<T, E> = (u32, Result<Vec<T>, E>);

/// Pages are requested at once only where the caller allows it and the
/// first page told how many there are.
pub open spec fn spec_fetch_plan(parallelize: bool, number_of_pages: Option<u32>) -> FetchPlan {
    match number_of_pages {
        Some(n) => if parallelize {
            FetchPlan::Concurrent { number_of_pages: n }
        } else {
            FetchPlan::Sequential
        },
        None => FetchPlan::Sequential,
    }
}

/// The number of slots for a listing of so many pages: one for each page,
/// and one for the first page in any case.
pub open spec fn slot_count(number_of_pages: u32) -> nat {
    if number_of_pages == 0 {
        1
    } else {
        number_of_pages as nat
    }
}

/// The slots before any later page has arrived: the first page in its
/// place, every other slot empty.
pub open spec fn initial_slots<T>(number_of_pages: u32, first: Seq<T>) -> Seq<Seq<T>> {
    Seq::new(
        slot_count(number_of_pages),
        |i: int|
            if i == 0 {
                first
            } else {
                Seq::<T>::empty()
            },
    )
}

/// The items of each vector.
pub open spec fn page_views<T>(pages: Seq<Vec<T>>) -> Seq<Seq<T>> {
    pages.map_values(|page: Vec<T>| page@)
}

/// The slots after the answers have been taken in their order: each page
/// that arrived stands in the slot of its number, and a later answer for
/// the same page replaces an earlier one.
pub open spec fn filled<T, E>(slots: Seq<Seq<T>>, results: Seq<PageResult<T, E>>) -> Seq<Seq<T>>
    decreases results.len(),
{
    if results.len() == 0 {
        slots
    } else {
        let earlier = filled(slots, results.drop_last());
        match results.last().1 {
            Ok(items) => earlier.update(results.last().0 - 1, items@),
            Err(_) => earlier,
        }
    }
}

/// The answer at this place is the first that failed.
pub open spec fn first_failure_at<T, E>(results: Seq<PageResult<T, E>>, k: int) -> bool {
    &&& 0 <= k < results.len()
    &&& results[k].1 is Err
    &&& forall|j: int| 0 <= j < k ==> (#[trigger] results[j]).1 is Ok
}

/// Some answer is for the page of this number.
pub open spec fn answered<T, E>(results: Seq<PageResult<T, E>>, page: int) -> bool {
    exists|k: int| 0 <= k < results.len() && (#[trigger] results[k]).0 == page
}

/// No answer failed.
pub open spec fn all_arrived<T, E>(results: Seq<PageResult<T, E>>) -> bool {
    forall|j: int| 0 <= j < results.len() ==> (#[trigger] results[j]).1 is Ok
}

/// Every answer is for a page that has a slot.
pub open spec fn all_in_range<T, E>(results: Seq<PageResult<T, E>>, slots: nat) -> bool {
    forall|j: int| 0 <= j < results.len() ==> 1 <= (#[trigger] results[j]).0 <= slots
}

/// The request for a page of a listing: records of every state, and as
/// many on the page as a request can ask for.
pub fn page_request(page: u32) -> (r: PageRequest)
    ensures
        r.page == page,
        r.per_page == u8::MAX,
        r.all_states,
{
    PageRequest { page, per_page: u8::MAX, all_states: true }
}

/// Decides how the pages after the first are retrieved, from whether the
/// caller allows requests at once and from the number of pages that the
/// first page told, if it told one.
pub fn fetch_plan(parallelize: bool, number_of_pages: Option<u32>) -> (r: FetchPlan)
    ensures
        r == spec_fetch_plan(parallelize, number_of_pages),
{
    match number_of_pages {
        Some(n) => if parallelize {
            FetchPlan::Concurrent { number_of_pages: n }
        } else {
            FetchPlan::Sequential
        },
        None => FetchPlan::Sequential,
    }
}

impl RepoRef {
    /// How the pages of a listing of this repository are retrieved after
    /// the first.
    pub fn fetch_plan(&self, number_of_pages: Option<u32>) -> (r: FetchPlan)
        ensures
            r == spec_fetch_plan(self.parallelize, number_of_pages),
    {
        fetch_plan(self.parallelize, number_of_pages)
    }
}

/// Whether every answer is for a page that has a slot in a listing of so
/// many pages.
pub fn answers_in_range<T, E>(number_of_pages: u32, results: &Vec<PageResult<T, E>>) -> (r: bool)
    ensures
        r == all_in_range(results@, slot_count(number_of_pages)),
{
    let slots: u32 = if number_of_pages == 0 {
        1
    } else {
        number_of_pages
    };
    let mut i: usize = 0;
    while i < results.len()
        invariant
            0 <= i <= results@.len(),
            slots == slot_count(number_of_pages),
            forall|j: int| 0 <= j < i ==> 1 <= (#[trigger] results@[j]).0 <= slots,
        decreases results@.len() - i,
    {
        let page = results[i].0;
        if page < 1 || page > slots {
            return false;
        }
        i = i + 1;
    }
    true
}

/// The numbers of the pages after the first, in their order.
pub fn later_pages(number_of_pages: u32) -> (r: Vec<u32>)
    ensures
        r@.len() == slot_count(number_of_pages) - 1,
        forall|i: int| 0 <= i < r@.len() ==> r@[i] == i + 2,
{
    let mut pages: Vec<u32> = Vec::new();
    let mut page: u32 = 1;
    while page < number_of_pages
        invariant
            1 <= page,
            page <= number_of_pages || (number_of_pages == 0 && page == 1),
            pages@.len() == page - 1,
            forall|i: int| 0 <= i < pages@.len() ==> pages@[i] == i + 2,
        decreases number_of_pages - page,
    {
        page = page + 1;
        pages.push(page);
    }
    pages
}

/// One slot for each page of a listing, so that the items of a page find
/// their place by the number of the page.
pub struct PageSlots<T> {
    slots: Vec<Vec<T>>,
}

impl<T> View for PageSlots<T> {
    type V = Seq<Seq<T>>;

    closed spec fn view(&self) -> Seq<Seq<T>> {
        page_views(self.slots@)
    }
}

impl<T> PageSlots<T> {
    /// The slots for a listing of so many pages, with the first page in its
    /// place.
    pub fn new(number_of_pages: u32, first: Vec<T>) -> (r: Self)
        ensures
            r@ == initial_slots(number_of_pages, first@),
    {
        let mut slots: Vec<Vec<T>> = Vec::new();
        slots.push(first);
        let mut page: u32 = 1;
        while page < number_of_pages
            invariant
                1 <= page,
                page <= number_of_pages || (number_of_pages == 0 && page == 1),
                slots@.len() == page,
                slots@[0]@ == first@,
                forall|i: int| 1 <= i < slots@.len() ==> (#[trigger] slots@[i])@ == Seq::<T>::empty(),
            decreases number_of_pages - page,
        {
            page = page + 1;
            slots.push(Vec::new());
        }
        proof {
            assert(page_views(slots@) =~= initial_slots(number_of_pages, first@));
        }
        PageSlots { slots }
    }

    /// How many slots there are.
    pub fn len(&self) -> (r: usize)
        ensures
            r == self@.len(),
    {
        self.slots.len()
    }

    /// Puts the items of a page into the slot of its number.
    pub fn place(&mut self, page_number: u32, items: Vec<T>)
        requires
            1 <= page_number <= old(self)@.len(),
        ensures
            final(self)@ == old(self)@.update(page_number - 1, items@),
    {
        let ghost before = self.slots@;
        let index: usize = (page_number - 1) as usize;
        self.slots.set(index, items);
        proof {
            assert(page_views(self.slots@) =~= page_views(before).update(
                page_number - 1,
                items@,
            ));
        }
    }

    /// The items of all slots, slot after slot.
    pub fn into_items(self) -> (r: Vec<T>)
        ensures
            r@ == self@.flatten(),
    {
        concat_pages(self.slots)
    }
}

/// The items of all pages, page after page.
pub fn concat_pages<T>(pages: Vec<Vec<T>>) -> (r: Vec<T>)
    ensures
        r@ == page_views(pages@).flatten(),
{
    let ghost all = page_views(pages@);
    let ghost count = pages@.len();
    let mut rest = reversed(pages);
    let mut items: Vec<T> = Vec::new();
    let ghost mut done: int = 0;
    proof {
        assert(all.take(0) =~= Seq::<Seq<T>>::empty());
        assert(all.take(0).flatten() =~= Seq::<T>::empty());
    }
    while rest.len() > 0
        invariant
            0 <= done <= count,
            all.len() == count,
            rest@.len() + done == count,
            forall|j: int| 0 <= j < rest@.len() ==> (#[trigger] rest@[j])@ == all[count - 1 - j],
            items@ == all.take(done).flatten(),
        decreases rest@.len(),
    {
        let mut page = rest.pop().unwrap();
        proof {
            assert(page@ == all[done]);
            assert(all.take(done + 1) =~= all.take(done).push(page@));
            all.take(done).lemma_flatten_push(page@);
        }
        items.append(&mut page);
        proof {
            done = done + 1;
        }
    }
    proof {
        assert(all.take(done) =~= all);
    }
    items
}

/// Puts the pages of a listing together from the first page and the
/// answers to the requests for the others, taken in the order in which they
/// are handed over. The first answer that failed ends the work with its
/// failure; where none failed, the items come out in page order.
pub fn reassemble<T, E>(number_of_pages: u32, first: Vec<T>, results: Vec<PageResult<T, E>>) -> (r:
    Result<Vec<T>, E>)
    requires
        all_in_range(results@, slot_count(number_of_pages)),
    ensures
        r is Ok <==> all_arrived(results@),
        r matches Ok(items) ==> items@ == filled(
            initial_slots(number_of_pages, first@),
            results@,
        ).flatten(),
        r matches Err(e) ==> exists|k: int|
            first_failure_at(results@, k) && (#[trigger] results@[k]).1 == Err::<Vec<T>, E>(e),
{
    let ghost all = results@;
    let ghost start = initial_slots(number_of_pages, first@);
    let mut slots = PageSlots::new(number_of_pages, first);
    let mut rest = reversed(results);
    let ghost mut done: int = 0;
    proof {
        assert(all.take(0) =~= Seq::<PageResult<T, E>>::empty());
    }
    while rest.len() > 0
        invariant
            all == results@,
            0 <= done <= all.len(),
            rest@.len() + done == all.len(),
            forall|j: int| 0 <= j < rest@.len() ==> rest@[j] == all[all.len() - 1 - j],
            all_in_range(all, slot_count(number_of_pages)),
            start.len() == slot_count(number_of_pages),
            slots@ == filled(start, all.take(done)),
            slots@.len() == start.len(),
            forall|j: int| 0 <= j < done ==> (#[trigger] all[j]).1 is Ok,
        decreases rest@.len(),
    {
        let (page_number, result) = rest.pop().unwrap();
        proof {
            assert((page_number, result) == all[done]);
            assert(all.take(done + 1).drop_last() =~= all.take(done));
            assert(all.take(done + 1).last() == all[done]);
        }
        match result {
            Ok(items) => {
                slots.place(page_number, items);
            },
            Err(e) => {
                proof {
                    assert(first_failure_at(all, done));
                    assert(all[done].1 == Err::<Vec<T>, E>(e));
                }
                return Err(e);
            },
        }
        proof {
            done = done + 1;
        }
    }
    proof {
        assert(all.take(done) =~= all);
    }
    Ok(slots.into_items())
}

/// Where every answer holds the page of its number, the slots hold each
/// page that arrived and are unchanged elsewhere.
pub proof fn lemma_filled_holds_pages<T, E>(
    pages: Seq<Seq<T>>,
    slots: Seq<Seq<T>>,
    results: Seq<PageResult<T, E>>,
)
    requires
        slots.len() == pages.len(),
        forall|k: int|
            0 <= k < results.len() ==> {
                &&& 1 <= (#[trigger] results[k]).0 <= pages.len()
                &&& results[k].1 matches Ok(items) && items@ == pages[results[k].0 - 1]
            },
    ensures
        filled(slots, results).len() == slots.len(),
        forall|i: int|
            0 <= i < slots.len() ==> (#[trigger] filled(slots, results)[i]) == if answered(
                results,
                i + 1,
            ) {
                pages[i]
            } else {
                slots[i]
            },
    decreases results.len(),
{
    if results.len() > 0 {
        let earlier = results.drop_last();
        lemma_filled_holds_pages(pages, slots, earlier);
        let last = results.last();
        assert forall|i: int| 0 <= i < slots.len() implies (#[trigger] filled(slots, results)[i])
            == if answered(results, i + 1) {
            pages[i]
        } else {
            slots[i]
        } by {
            if last.0 == i + 1 {
                assert(results[results.len() - 1].0 == i + 1);
            } else {
                if answered(results, i + 1) {
                    let k = choose|k: int|
                        0 <= k < results.len() && (#[trigger] results[k]).0 == i + 1;
                    assert(earlier[k].0 == i + 1);
                } else {
                    assert forall|k: int| 0 <= k < earlier.len() implies (#[trigger] earlier[k]).0
                        != i + 1 by {
                        assert(results[k].0 != i + 1);
                    }
                }
            }
        }
    }
}

/// Requesting the pages at once gives the same sequence as walking them one
/// after the other: where every page after the first has arrived, in
/// whatever order, the slots hold the pages in page order, and their items
/// are those of the pages one after the other.
pub proof fn lemma_concurrent_order_is_page_order<T, E>(
    pages: Seq<Seq<T>>,
    results: Seq<PageResult<T, E>>,
)
    requires
        1 <= pages.len() <= u32::MAX,
        forall|k: int|
            0 <= k < results.len() ==> {
                &&& 2 <= (#[trigger] results[k]).0 <= pages.len()
                &&& results[k].1 matches Ok(items) && items@ == pages[results[k].0 - 1]
            },
        forall|page: int| 2 <= page <= pages.len() ==> #[trigger] answered(results, page),
    ensures
        filled(initial_slots(pages.len() as u32, pages[0]), results) == pages,
        filled(initial_slots(pages.len() as u32, pages[0]), results).flatten() == pages.flatten(),
{
    let start = initial_slots(pages.len() as u32, pages[0]);
    lemma_filled_holds_pages(pages, start, results);
    let end = filled(start, results);
    assert forall|i: int| 0 <= i < pages.len() implies end[i] == pages[i] by {
        if i == 0 {
            assert forall|k: int| 0 <= k < results.len() implies (#[trigger] results[k]).0 != 1 by {}
        } else {
            assert(answered(results, i + 1));
        }
    }
    assert(end =~= pages);
}

} // verus!
