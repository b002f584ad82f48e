//! What pull requests and issues have in common, and the collections that
//! are built from them.

use crate::event::Event;
use crate::time::Instant;
use crate::time::TimeRange;
use vstd::prelude::*;

verus! {

/// A kind of record that can be listed, counted and filtered by its events.
/// Each kind says for itself what it is called, which of its records stand
/// for themselves, and when an event happened to a record.
pub trait IActivity: Sized {
    /// The label of the kind in a report.
    spec fn spec_name() -> Seq<char>;

    /// Whether the record is listed under its own kind only.
    spec fn spec_is_unique(&self) -> bool;

    /// The number of the record within its kind.
    spec fn spec_number(&self) -> u64;

    /// The login of the author; empty where there is none.
    spec fn spec_author(&self) -> Seq<char>;

    /// The title; empty where there is none.
    spec fn spec_title(&self) -> Seq<char>;

    /// Whether the record holds the address of its page.
    spec fn spec_has_url(&self) -> bool;

    /// The address of the record's page, for a record that holds one.
    spec fn spec_url(&self) -> Seq<char>;

    /// When the event happened to the record, if it did.
    spec fn spec_event_time(&self, event: Event) -> Option<Instant>;

    fn name() -> (r: &'static str)
        ensures
            r@ == Self::spec_name(),
    ;

    /// Check if the record is unique, i.e., if it is not the same as a
    /// record of another kind.
    fn is_unique(&self) -> (r: bool)
        ensures
            r == self.spec_is_unique(),
    ;

    fn number(&self) -> (r: u64)
        ensures
            r == self.spec_number(),
    ;

    fn author(&self) -> (r: &str)
        ensures
            r@ == self.spec_author(),
    ;

    fn title(&self) -> (r: &str)
        ensures
            r@ == self.spec_title(),
    ;

    /// The address of the record's page. A record that holds none has
    /// none to give.
    fn url(&self) -> (r: &str)
        requires
            self.spec_has_url(),
        ensures
            r@ == self.spec_url(),
    ;

    fn event_time(&self, event: Event) -> (r: Option<Instant>)
        ensures
            r == self.spec_event_time(event),
    ;
}

/// One record of a kind, with what every kind offers.
pub struct Activity<T: IActivity>(pub T);

/// The records of one kind that stand for themselves, in the order of their
/// pages.
pub struct ActivityList<T: IActivity>(Vec<Activity<T>>);

/// The records of a list to which an event happened inside a window, in the
/// order of the list.
pub struct ActivityFilteredList<'a, T: IActivity> {
    pub all: Vec<&'a Activity<T>>,
    pub event: Event,
    pub time_range: &'a TimeRange,
}

/// The records that stand for themselves, in their old order.
pub open spec fn unique_only<T: IActivity>(items: Seq<T>) -> Seq<T> {
    items.filter(|item: T| item.spec_is_unique())
}

/// Each record wrapped as an activity.
pub open spec fn wrapped<T: IActivity>(items: Seq<T>) -> Seq<Activity<T>> {
    items.map_values(|item: T| Activity(item))
}

/// The activities to which the event happened inside the window, in their
/// old order.
pub open spec fn between<T: IActivity>(
    all: Seq<Activity<T>>,
    event: Event,
    time_range: TimeRange,
) -> Seq<Activity<T>> {
    all.filter(|activity: Activity<T>| activity.spec_event_between(event, time_range))
}

impl<T: IActivity> Activity<T> {
    /// The event happened to the record, at a time strictly inside the
    /// window.
    pub open spec fn spec_event_between(self, event: Event, time_range: TimeRange) -> bool {
        match self.0.spec_event_time(event) {
            None => false,
            Some(time) => time_range.spec_contains(time),
        }
    }

    pub fn name() -> (r: &'static str)
        ensures
            r@ == T::spec_name(),
    {
        T::name()
    }

    pub fn is_unique(&self) -> (r: bool)
        ensures
            r == self.0.spec_is_unique(),
    {
        self.0.is_unique()
    }

    pub fn number(&self) -> (r: u64)
        ensures
            r == self.0.spec_number(),
    {
        self.0.number()
    }

    pub fn author(&self) -> (r: &str)
        ensures
            r@ == self.0.spec_author(),
    {
        self.0.author()
    }

    pub fn title(&self) -> (r: &str)
        ensures
            r@ == self.0.spec_title(),
    {
        self.0.title()
    }

    pub fn url(&self) -> (r: &str)
        requires
            self.0.spec_has_url(),
        ensures
            r@ == self.0.spec_url(),
    {
        self.0.url()
    }

    pub fn event_time(&self, event: Event) -> (r: Option<Instant>)
        ensures
            r == self.0.spec_event_time(event),
    {
        self.0.event_time(event)
    }

    /// Whether the event happened to the record at a time strictly inside
    /// the window. A record to which the event never happened is outside
    /// every window.
    pub fn event_between(&self, event: Event, time_range: &TimeRange) -> (r: bool)
        ensures
            r == self.spec_event_between(event, *time_range),
            self.0.spec_event_time(event) is None ==> !r,
            self.0.spec_event_time(event) matches Some(time) ==> {
                &&& time_range.start is None && time_range.end is None ==> r
                &&& time_range.start is Some && time_range.end is None ==> (r
                    <==> time_range.start->0.is_before(time))
                &&& time_range.start is None && time_range.end is Some ==> (r <==> time.is_before(
                    time_range.end->0,
                ))
                &&& time_range.start is Some && time_range.end is Some ==> (r
                    <==> time_range.start->0.is_before(time) && time.is_before(time_range.end->0))
            },
    {
        match self.event_time(event) {
            None => false,
            Some(time) => time_range.contains(&time),
        }
    }

    /// The list of one kind, made of all its records in the order of their
    /// pages: those that stand for themselves are kept, in that order.
    pub fn list(items: Vec<T>) -> (r: ActivityList<T>)
        ensures
            r@ == wrapped(unique_only(items@)),
            forall|i: int| 0 <= i < r@.len() ==> (#[trigger] r@[i]).0.spec_is_unique(),
    {
        let ghost all = items@;
        let mut rest = reversed(items);
        let mut kept: Vec<Activity<T>> = Vec::new();
        let ghost mut done: int = 0;
        proof {
            assert(all.take(0) =~= Seq::<T>::empty());
            assert(wrapped(unique_only(all.take(0))) =~= Seq::<Activity<T>>::empty());
        }
        while rest.len() > 0
            invariant
                0 <= done <= all.len(),
                rest@.len() + done == all.len(),
                forall|j: int| 0 <= j < rest@.len() ==> rest@[j] == all[all.len() - 1 - j],
                kept@ == wrapped(unique_only(all.take(done))),
            decreases rest@.len(),
        {
            let item = rest.pop().unwrap();
            proof {
                assert(item == all[done]);
                assert(all.take(done + 1).drop_last() =~= all.take(done));
                assert(all.take(done + 1).last() == item);
                lemma_unique_only_step(all.take(done + 1));
                lemma_wrapped_push(unique_only(all.take(done)), item);
            }
            if item.is_unique() {
                kept.push(Activity(item));
            }
            proof {
                done = done + 1;
            }
        }
        proof {
            assert(all.take(done) =~= all);
            lemma_unique_only_all_unique(all);
        }
        ActivityList(kept)
    }
}

impl<T: IActivity> View for ActivityList<T> {
    type V = Seq<Activity<T>>;

    closed spec fn view(&self) -> Seq<Activity<T>> {
        self.0@
    }
}

impl<T: IActivity> ActivityList<T> {
    /// How many records the list holds.
    pub fn len(&self) -> (r: usize)
        ensures
            r == self@.len(),
    {
        self.0.len()
    }

    /// The record at a place of the list.
    pub fn get(&self, index: usize) -> (r: Option<&Activity<T>>)
        ensures
            index < self@.len() ==> r == Some(&self@[index as int]),
            index >= self@.len() ==> r is None,
    {
        if index < self.0.len() {
            Some(&self.0[index])
        } else {
            None
        }
    }

    /// The records of the list to which the event happened inside the
    /// window, in the order of the list.
    pub fn events_between<'a>(&'a self, event: Event, time_range: &'a TimeRange) -> (r:
        ActivityFilteredList<'a, T>)
        ensures
            r.event == event,
            *r.time_range == *time_range,
            r.items() == between(self@, event, *time_range),
            r.well_formed(),
    {
        let mut all: Vec<&'a Activity<T>> = Vec::new();
        let mut i: usize = 0;
        proof {
            assert(self@.take(0) =~= Seq::<Activity<T>>::empty());
            assert(items_of(all@) =~= between(self@.take(0), event, *time_range));
        }
        while i < self.0.len()
            invariant
                0 <= i <= self@.len(),
                self@ == self.0@,
                items_of(all@) == between(self@.take(i as int), event, *time_range),
                forall|j: int|
                    0 <= j < all@.len() ==> (#[trigger] all@[j]).spec_event_between(
                        event,
                        *time_range,
                    ),
            decreases self@.len() - i,
        {
            let activity = &self.0[i];
            proof {
                assert(self@.take(i + 1).drop_last() =~= self@.take(i as int));
                assert(self@.take(i + 1).last() == *activity);
                lemma_between_step(self@.take(i + 1), event, *time_range);
                assert(items_of(all@.push(activity)) =~= items_of(all@).push(*activity));
            }
            if activity.event_between(event, time_range) {
                all.push(activity);
            }
            i = i + 1;
        }
        proof {
            assert(self@.take(i as int) =~= self@);
        }
        ActivityFilteredList { all, event, time_range }
    }
}

/// The activities that the references of a selection point to.
pub open spec fn items_of<T: IActivity>(all: Seq<&Activity<T>>) -> Seq<Activity<T>> {
    all.map_values(|activity: &Activity<T>| *activity)
}

impl<'a, T: IActivity> ActivityFilteredList<'a, T> {
    /// The selected activities, in their order.
    pub open spec fn items(self) -> Seq<Activity<T>> {
        items_of(self.all@)
    }

    /// The event happened to every selected record.
    pub open spec fn well_formed(self) -> bool {
        forall|j: int|
            0 <= j < self.all@.len() ==> (#[trigger] self.all@[j]).0.spec_event_time(
                self.event,
            ) is Some
    }
}

/// The vector with its elements in the opposite order.
pub fn reversed<T>(items: Vec<T>) -> (r: Vec<T>)
    ensures
        r@ == items@.reverse(),
{
    let ghost all = items@;
    let mut rest = items;
    let mut out: Vec<T> = Vec::new();
    while rest.len() > 0
        invariant
            rest@.len() + out@.len() == all.len(),
            rest@ == all.take(rest@.len() as int),
            forall|j: int| 0 <= j < out@.len() ==> out@[j] == all[all.len() - 1 - j],
        decreases rest@.len(),
    {
        let item = rest.pop().unwrap();
        out.push(item);
    }
    proof {
        assert(out@ =~= all.reverse());
    }
    out
}

/// Filtering a sequence looks at its last element last.
pub proof fn lemma_unique_only_step<T: IActivity>(items: Seq<T>)
    requires
        items.len() > 0,
    ensures
        unique_only(items) == if items.last().spec_is_unique() {
            unique_only(items.drop_last()).push(items.last())
        } else {
            unique_only(items.drop_last())
        },
{
    reveal(Seq::filter);
}

/// Selecting the records that stand for themselves a second time changes
/// nothing: what the first selection kept, the second keeps.
pub proof fn lemma_unique_only_idempotent<T: IActivity>(items: Seq<T>)
    ensures
        unique_only(unique_only(items)) == unique_only(items),
        wrapped(unique_only(unique_only(items))) == wrapped(unique_only(items)),
    decreases items.len(),
{
    if items.len() == 0 {
        reveal(Seq::filter);
        assert(unique_only(items) =~= Seq::<T>::empty());
        assert(unique_only(unique_only(items)) =~= Seq::<T>::empty());
    } else {
        let earlier = unique_only(items.drop_last());
        lemma_unique_only_idempotent(items.drop_last());
        lemma_unique_only_step(items);
        if items.last().spec_is_unique() {
            let kept = earlier.push(items.last());
            assert(kept.drop_last() =~= earlier);
            lemma_unique_only_step(kept);
        }
    }
}

/// Every record of a selection stands for itself.
pub proof fn lemma_unique_only_all_unique<T: IActivity>(items: Seq<T>)
    ensures
        forall|i: int|
            0 <= i < unique_only(items).len() ==> (#[trigger] unique_only(
                items,
            )[i]).spec_is_unique(),
    decreases items.len(),
{
    reveal(Seq::filter);
    if items.len() > 0 {
        lemma_unique_only_all_unique(items.drop_last());
    }
}

/// Filtering by an event and a window looks at the last element last.
pub proof fn lemma_between_step<T: IActivity>(
    all: Seq<Activity<T>>,
    event: Event,
    time_range: TimeRange,
)
    requires
        all.len() > 0,
    ensures
        between(all, event, time_range) == if all.last().spec_event_between(event, time_range) {
            between(all.drop_last(), event, time_range).push(all.last())
        } else {
            between(all.drop_last(), event, time_range)
        },
{
    reveal(Seq::filter);
}

/// Wrapping goes element by element.
pub proof fn lemma_wrapped_push<T: IActivity>(items: Seq<T>, item: T)
    ensures
        wrapped(items.push(item)) == wrapped(items).push(Activity(item)),
{
    assert(wrapped(items.push(item)) =~= wrapped(items).push(Activity(item)));
}

} // verus!
