//! Ordered, paged lists of records.

use vstd::prelude::*;

verus! {

/// How a list is ordered; records of the same time are ordered by their ids.
#[derive(Debug, Clone, Copy, PartialEq, Eq, Structural)]
pub enum ListOrder {
    /// By creation, the oldest first.
    OldestFirst,
    /// By creation, the newest first.
    NewestFirst,
    /// By the last change, the latest first.
    LatestChangeFirst,
}

/// A record that is listed.
pub trait Entry: Sized {
    /// Numeric id.
    spec fn number(self) -> i64;

    /// Creation time as Unix epoch milliseconds.
    spec fn created(self) -> i64;

    /// Time of the last change as Unix epoch milliseconds.
    spec fn changed(self) -> i64;

    /// Returns the numeric id.
    fn entry_id(&self) -> (result: i64)
        ensures
            result == self.number(),
    ;

    /// Returns the creation time.
    fn entry_created(&self) -> (result: i64)
        ensures
            result == self.created(),
    ;

    /// Returns the time of the last change.
    fn entry_changed(&self) -> (result: i64)
        ensures
            result == self.changed(),
    ;
}

/// A record stands before another one in a list.
pub open spec fn precedes<T: Entry>(left: T, right: T, order: ListOrder) -> bool {
    match order {
        ListOrder::OldestFirst => left.created() < right.created() || (left.created()
            == right.created() && left.number() < right.number()),
        ListOrder::NewestFirst => left.created() > right.created() || (left.created()
            == right.created() && left.number() > right.number()),
        ListOrder::LatestChangeFirst => left.changed() > right.changed() || (left.changed()
            == right.changed() && left.number() > right.number()),
    }
}

/// No record of the list stands before an earlier one.
pub open spec fn in_order<T: Entry>(list: Seq<T>, order: ListOrder) -> bool {
    forall|i: int, j: int|
        0 <= i < j < list.len() ==> !precedes(#[trigger] list[j], #[trigger] list[i], order)
}

/// The list holds the records, in order.
pub open spec fn arranged<T: Entry>(list: Seq<T>, records: Seq<T>, order: ListOrder) -> bool {
    list.to_multiset() == records.to_multiset() && in_order(list, order)
}

/// The part of a list that a page shows.
pub open spec fn page_slice<T>(list: Seq<T>, offset: int, size: int) -> Seq<T> {
    if offset >= list.len() {
        Seq::empty()
    } else if offset + size >= list.len() {
        list.skip(offset)
    } else {
        list.subrange(offset, offset + size)
    }
}

/// The page shows a part of the records in order.
pub open spec fn shows<T: Entry>(
    page: Seq<T>,
    records: Seq<T>,
    order: ListOrder,
    offset: int,
    size: int,
) -> bool {
    exists|list: Seq<T>| #[trigger]
        arranged(list, records, order) && page == page_slice(list, offset, size)
}

fn stands_before<T: Entry>(left: &T, right: &T, order: ListOrder) -> (result: bool)
    ensures
        result == precedes(*left, *right, order),
{
    match order {
        ListOrder::OldestFirst => left.entry_created() < right.entry_created() || (
        left.entry_created() == right.entry_created() && left.entry_id() < right.entry_id()),
        ListOrder::NewestFirst => left.entry_created() > right.entry_created() || (
        left.entry_created() == right.entry_created() && left.entry_id() > right.entry_id()),
        ListOrder::LatestChangeFirst => left.entry_changed() > right.entry_changed() || (
        left.entry_changed() == right.entry_changed() && left.entry_id() > right.entry_id()),
    }
}

proof fn lemma_inserted<T: Entry>(list: Seq<T>, at: int, record: T, order: ListOrder)
    requires
        in_order(list, order),
        0 <= at <= list.len(),
        forall|i: int| 0 <= i < at ==> !precedes(record, #[trigger] list[i], order),
        at < list.len() ==> precedes(record, list[at], order),
    ensures
        in_order(list.insert(at, record), order),
        list.insert(at, record).to_multiset() == list.to_multiset().insert(record),
{
    let longer = list.insert(at, record);
    assert forall|i: int, j: int| 0 <= i < j < longer.len() implies !precedes(
        #[trigger] longer[j],
        #[trigger] longer[i],
        order,
    ) by {
        if j < at {
            assert(longer[j] == list[j] && longer[i] == list[i]);
        } else if j == at {
            assert(longer[i] == list[i]);
        } else if i < at {
            assert(longer[j] == list[j - 1] && longer[i] == list[i]);
        } else if i > at {
            assert(longer[j] == list[j - 1] && longer[i] == list[i - 1]);
        } else {
            assert(longer[j] == list[j - 1]);
            if j - 1 > at {
                assert(!precedes(list[j - 1], list[at], order));
            }
        }
    }
    assert(longer.remove(at) =~= list);
    vstd::seq_lib::to_multiset_remove(longer, at);
    assert(longer.contains(record)) by {
        assert(longer[at] == record);
    }
    longer.to_multiset_ensures();
    assert(longer.to_multiset() =~= list.to_multiset().insert(record));
}

/// Puts records in order.
pub fn arrange<T: Entry>(records: Vec<T>, order: ListOrder) -> (result: Vec<T>)
    ensures
        arranged(result@, records@, order),
{
    let ghost all = records@;
    let mut list: Vec<T> = Vec::new();
    proof {
        assert(all.take(0) =~= list@);
    }
    for record in it: records
        invariant
            it.seq() == all,
            in_order(list@, order),
            list@.to_multiset() == all.take(it.index() as int).to_multiset(),
    {
        let mut at: usize = 0;
        while at < list.len() && !stands_before(&record, &list[at], order)
            invariant
                at <= list@.len(),
                forall|i: int| 0 <= i < at ==> !precedes(record, #[trigger] list@[i], order),
            ensures
                at <= list@.len(),
                forall|i: int| 0 <= i < at ==> !precedes(record, #[trigger] list@[i], order),
                at < list@.len() ==> precedes(record, list@[at as int], order),
            decreases list@.len() - at,
        {
            at = at + 1;
        }
        proof {
            lemma_inserted(list@, at as int, record, order);
            assert(all.take(it.index() + 1) =~= all.take(it.index() as int).push(record));
            all.take(it.index() as int).to_multiset_ensures();
        }
        list.insert(at, record);
    }
    proof {
        assert(all.take(all.len() as int) =~= all);
    }
    list
}

/// Takes the part of a list that a page shows.
pub fn take_page<T>(list: Vec<T>, offset: u64, size: u64) -> (result: Vec<T>)
    ensures
        result@ == page_slice(list@, offset as int, size as int),
{
    let ghost all = list@;
    let mut page: Vec<T> = Vec::new();
    let mut skipped: u64 = 0;
    let mut left: u64 = size;
    let ghost mut seen: int = 0;
    for item in it: list
        invariant
            it.seq() == all,
            seen == it.index(),
            skipped <= offset,
            left <= size,
            skipped < offset ==> seen == skipped && left == size,
            skipped == offset && left > 0 ==> seen == offset + (size - left),
            left == 0 && skipped == offset ==> seen >= offset + size,
            page@.len() == size - left,
            forall|i: int| 0 <= i < page@.len() ==> #[trigger] page@[i] == all[offset + i],
    {
        if skipped < offset {
            skipped = skipped + 1;
        } else if left > 0 {
            left = left - 1;
            page.push(item);
        }
        proof {
            seen = seen + 1;
        }
    }
    assert(page@ =~= page_slice(all, offset as int, size as int));
    page
}

/// Consecutive pages of the same list follow each other without a gap and without an overlap.
pub proof fn law_pages_are_consecutive<T>(list: Seq<T>, offset: int, size: int)
    requires
        0 <= offset,
        0 < size,
    ensures
        page_slice(list, offset, size) + page_slice(list, offset + size, size) == page_slice(
            list,
            offset,
            size + size,
        ),
        page_slice(list, offset, size).len() <= size,
{
    assert(page_slice(list, offset, size) + page_slice(list, offset + size, size) =~= page_slice(
        list,
        offset,
        size + size,
    ));
}

/// Records with different ids.
pub open spec fn numbered<T: Entry>(records: Seq<T>) -> bool {
    forall|i: int, j: int|
        0 <= i < j < records.len() ==> (#[trigger] records[i]).number() != (
        #[trigger] records[j]).number()
}

proof fn lemma_numbered<T: Entry>(list: Seq<T>, records: Seq<T>)
    requires
        numbered(records),
        list.to_multiset() == records.to_multiset(),
    ensures
        numbered(list),
        list.len() == records.len(),
{
    assert(records.no_duplicates());
    records.lemma_multiset_has_no_duplicates();
    list.lemma_multiset_has_no_duplicates_conv();
    list.to_multiset_ensures();
    records.to_multiset_ensures();
    assert forall|i: int, j: int| 0 <= i < j < list.len() implies (#[trigger] list[i]).number() != (
    #[trigger] list[j]).number() by {
        assert(list.contains(list[i]));
        assert(list.contains(list[j]));
        assert(records.to_multiset().count(list[i]) > 0);
        assert(records.to_multiset().count(list[j]) > 0);
        let k = choose|k: int| 0 <= k < records.len() && records[k] == list[i];
        let l = choose|l: int| 0 <= l < records.len() && records[l] == list[j];
        assert(k != l);
        if k < l {
            assert(records[k].number() != records[l].number());
        } else {
            assert(records[l].number() != records[k].number());
        }
    }
}

/// Records with different ids can be listed in one order only.
pub proof fn law_order_is_unique<T: Entry>(
    left: Seq<T>,
    right: Seq<T>,
    records: Seq<T>,
    order: ListOrder,
)
    requires
        arranged(left, records, order),
        arranged(right, records, order),
        numbered(records),
    ensures
        left == right,
    decreases records.len(),
{
    lemma_numbered(left, records);
    lemma_numbered(right, records);
    left.to_multiset_ensures();
    right.to_multiset_ensures();
    if left.len() == 0 {
        assert(left =~= right);
    } else {
        assert(right.contains(left[0])) by {
            assert(left.contains(left[0]));
            assert(right.to_multiset().count(left[0]) > 0);
        }
        assert(left.contains(right[0])) by {
            assert(right.contains(right[0]));
            assert(left.to_multiset().count(right[0]) > 0);
        }
        let k = choose|k: int| 0 <= k < right.len() && right[k] == left[0];
        let l = choose|l: int| 0 <= l < left.len() && left[l] == right[0];
        if k > 0 {
            assert(!precedes(right[k], right[0], order));
            assert(right[0].number() != right[k].number());
            assert(l > 0);
            assert(!precedes(left[l], left[0], order));
        }
        assert(left[0] == right[0]);
        let left_rest = left.drop_first();
        let right_rest = right.drop_first();
        assert(left.remove(0) =~= left_rest);
        assert(right.remove(0) =~= right_rest);
        assert forall|i: int, j: int| 0 <= i < j < left_rest.len() implies !precedes(
            #[trigger] left_rest[j],
            #[trigger] left_rest[i],
            order,
        ) && left_rest[i].number() != left_rest[j].number() by {
            assert(left_rest[i] == left[i + 1] && left_rest[j] == left[j + 1]);
        }
        assert forall|i: int, j: int| 0 <= i < j < right_rest.len() implies !precedes(
            #[trigger] right_rest[j],
            #[trigger] right_rest[i],
            order,
        ) by {
            assert(right_rest[i] == right[i + 1] && right_rest[j] == right[j + 1]);
        }
        law_order_is_unique(left_rest, right_rest, left_rest, order);
        assert(left =~= seq![left[0]] + left_rest);
        assert(right =~= seq![right[0]] + right_rest);
    }
}

/// A page shows up to its size of records of the list, one after the other from where it begins.
pub proof fn law_page_shows_the_records_from_its_beginning<T>(list: Seq<T>, offset: int, size: int)
    requires
        0 <= offset,
        0 < size,
    ensures
        offset >= list.len() ==> page_slice(list, offset, size).len() == 0,
        offset < list.len() <= offset + size ==> page_slice(list, offset, size).len() == list.len()
            - offset,
        offset + size <= list.len() ==> page_slice(list, offset, size).len() == size,
        forall|i: int|
            0 <= i < page_slice(list, offset, size).len() ==> #[trigger] page_slice(
                list,
                offset,
                size,
            )[i] == list[offset + i],
{
}

/// A page shows records of the list only, by their times in the order that was asked for, those of
/// one time by their ids. One that has room for all of them leaves none out.
pub proof fn law_page_is_ordered<T: Entry>(
    page: Seq<T>,
    records: Seq<T>,
    order: ListOrder,
    offset: int,
    size: int,
)
    requires
        shows(page, records, order, offset, size),
        0 <= offset,
        0 < size,
    ensures
        offset >= records.len() ==> page.len() == 0,
        offset < records.len() <= offset + size ==> page.len() == records.len() - offset,
        offset + size <= records.len() ==> page.len() == size,
        offset == 0 && records.len() <= size ==> page.to_multiset() == records.to_multiset(),
        forall|i: int| 0 <= i < page.len() ==> records.contains(#[trigger] page[i]),
        order is OldestFirst ==> forall|i: int, j: int|
            0 <= i < j < page.len() ==> {
                ||| (#[trigger] page[i]).created() < (#[trigger] page[j]).created()
                ||| page[i].created() == page[j].created() && page[i].number() <= page[j].number()
            },
        order is NewestFirst ==> forall|i: int, j: int|
            0 <= i < j < page.len() ==> {
                ||| (#[trigger] page[i]).created() > (#[trigger] page[j]).created()
                ||| page[i].created() == page[j].created() && page[i].number() >= page[j].number()
            },
        order is LatestChangeFirst ==> forall|i: int, j: int|
            0 <= i < j < page.len() ==> {
                ||| (#[trigger] page[i]).changed() > (#[trigger] page[j]).changed()
                ||| page[i].changed() == page[j].changed() && page[i].number() >= page[j].number()
            },
{
    let list = choose|list: Seq<T>| #[trigger]
        arranged(list, records, order) && page == page_slice(list, offset, size);
    law_page_shows_the_records_from_its_beginning(list, offset, size);
    list.to_multiset_ensures();
    records.to_multiset_ensures();
    assert(list.len() == records.len());
    assert forall|i: int| 0 <= i < page.len() implies records.contains(#[trigger] page[i]) by {
        assert(page[i] == list[offset + i]);
        assert(list.contains(page[i]));
        assert(list.to_multiset().count(page[i]) > 0);
    }
    assert forall|i: int, j: int| 0 <= i < j < page.len() implies !precedes(
        #[trigger] page[j],
        #[trigger] page[i],
        order,
    ) by {
        assert(page[i] == list[offset + i] && page[j] == list[offset + j]);
    }
    if offset == 0 && records.len() <= size {
        assert(page =~= list);
    }
}

} // verus!
