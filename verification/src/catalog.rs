//! Lists of records that are ordered by a number and then by a text.

use vstd::prelude::*;

use crate::text::{is_text_before, lemma_text_order_is_transitive, text_precedes};

verus! {

/// Which end of a catalog comes first.
#[derive(Debug, Clone, Copy, PartialEq, Eq, Structural)]
pub enum CatalogOrder {
    /// The least rank first.
    Ascending,
    /// The greatest rank first.
    Descending,
}

/// A record that is listed by a rank, and among records of one rank by a key.
pub trait Keyed: Sized {
    /// The number by which the record is ordered.
    spec fn rank(self) -> i64;

    /// The text by which records of one rank are ordered.
    spec fn key(self) -> Seq<char>;

    /// Returns the rank.
    fn entry_rank(&self) -> (result: i64)
        ensures
            result == self.rank(),
    ;

    /// Returns the key.
    fn entry_key(&self) -> (result: &str)
        ensures
            result@ == self.key(),
    ;
}

/// A record stands before another one if it is of a lesser rank, or of the same rank and a lesser
/// key; a descending catalog turns this round.
pub open spec fn leads<T: Keyed>(left: T, right: T, order: CatalogOrder) -> bool {
    match order {
        CatalogOrder::Ascending => left.rank() < right.rank() || (left.rank() == right.rank()
            && text_precedes(left.key(), right.key())),
        CatalogOrder::Descending => left.rank() > right.rank() || (left.rank() == right.rank()
            && text_precedes(right.key(), left.key())),
    }
}

/// No record of the list stands before an earlier one.
pub open spec fn sorted<T: Keyed>(list: Seq<T>, order: CatalogOrder) -> bool {
    forall|i: int, j: int|
        0 <= i < j < list.len() ==> !leads(#[trigger] list[j], #[trigger] list[i], order)
}

/// The list holds the records, in order.
pub open spec fn cataloged<T: Keyed>(list: Seq<T>, records: Seq<T>, order: CatalogOrder) -> bool {
    sorted(list, order) && list.to_multiset() == records.to_multiset()
}

/// Records with different keys.
pub open spec fn distinctly_keyed<T: Keyed>(records: Seq<T>) -> bool {
    forall|i: int, j: int|
        0 <= i < j < records.len() ==> (#[trigger] records[i]).key() != (#[trigger] records[j]).key()
}

fn is_leading<T: Keyed>(left: &T, right: &T, order: CatalogOrder) -> (result: bool)
    ensures
        result == leads(*left, *right, order),
{
    match order {
        CatalogOrder::Ascending => left.entry_rank() < right.entry_rank() || (left.entry_rank()
            == right.entry_rank() && is_text_before(left.entry_key(), right.entry_key())),
        CatalogOrder::Descending => left.entry_rank() > right.entry_rank() || (left.entry_rank()
            == right.entry_rank() && is_text_before(right.entry_key(), left.entry_key())),
    }
}

proof fn lemma_leads_is_transitive<T: Keyed>(a: T, b: T, c: T, order: CatalogOrder)
    requires
        leads(a, b, order),
        leads(b, c, order),
    ensures
        leads(a, c, order),
{
    if a.rank() == b.rank() && b.rank() == c.rank() {
        match order {
            CatalogOrder::Ascending => {
                lemma_text_order_is_transitive(a.key(), b.key(), c.key());
            },
            CatalogOrder::Descending => {
                lemma_text_order_is_transitive(c.key(), b.key(), a.key());
            },
        }
    }
}

proof fn lemma_text_is_not_before_itself(text: Seq<char>)
    ensures
        !text_precedes(text, text),
    decreases text.len(),
{
    if text.len() > 0 {
        lemma_text_is_not_before_itself(text.drop_first());
    }
}

proof fn lemma_texts_are_ordered(left: Seq<char>, right: Seq<char>)
    requires
        left != right,
    ensures
        text_precedes(left, right) || text_precedes(right, left),
    decreases left.len(),
{
    if left.len() == 0 || right.len() == 0 {
        if left.len() == right.len() {
            assert(left =~= right);
        }
    } else if left[0] == right[0] {
        if left.drop_first() == right.drop_first() {
            assert(left =~= seq![left[0]] + left.drop_first());
            assert(right =~= seq![right[0]] + right.drop_first());
        }
        lemma_texts_are_ordered(left.drop_first(), right.drop_first());
    }
}

proof fn lemma_inserted<T: Keyed>(list: Seq<T>, at: int, record: T, order: CatalogOrder)
    requires
        sorted(list, order),
        0 <= at <= list.len(),
        forall|i: int| 0 <= i < at ==> !leads(record, #[trigger] list[i], order),
        at < list.len() ==> leads(record, list[at], order),
    ensures
        sorted(list.insert(at, record), order),
        list.insert(at, record).to_multiset() == list.to_multiset().insert(record),
{
    let longer = list.insert(at, record);
    assert forall|i: int, j: int| 0 <= i < j < longer.len() implies !leads(
        #[trigger] longer[j],
        #[trigger] longer[i],
        order,
    ) by {
        if j < at {
            assert(longer[j] == list[j] && longer[i] == list[i]);
        } else if j == at {
            assert(longer[i] == list[i]);
        } else if i < at {
            assert(longer[j] == list[j - 1] && longer[i] == list[i]);
        } else if i > at {
            assert(longer[j] == list[j - 1] && longer[i] == list[i - 1]);
        } else {
            assert(longer[j] == list[j - 1]);
            if leads(list[j - 1], record, order) {
                lemma_leads_is_transitive(list[j - 1], record, list[at], order);
                if j - 1 > at {
                    assert(!leads(list[j - 1], list[at], order));
                } else {
                    lemma_text_is_not_before_itself(list[at].key());
                }
            }
        }
    }
    assert(longer.remove(at) =~= list);
    vstd::seq_lib::to_multiset_remove(longer, at);
    assert(longer.contains(record)) by {
        assert(longer[at] == record);
    }
    longer.to_multiset_ensures();
    assert(longer.to_multiset() =~= list.to_multiset().insert(record));
}

/// Puts records in order.
pub fn catalog<T: Keyed>(records: Vec<T>, order: CatalogOrder) -> (result: Vec<T>)
    ensures
        cataloged(result@, records@, order),
{
    let ghost all = records@;
    let mut list: Vec<T> = Vec::new();
    proof {
        assert(all.take(0) =~= list@);
    }
    for record in it: records
        invariant
            it.seq() == all,
            sorted(list@, order),
            list@.to_multiset() == all.take(it.index() as int).to_multiset(),
    {
        let mut at: usize = 0;
        while at < list.len() && !is_leading(&record, &list[at], order)
            invariant
                at <= list@.len(),
                forall|i: int| 0 <= i < at ==> !leads(record, #[trigger] list@[i], order),
            ensures
                at <= list@.len(),
                forall|i: int| 0 <= i < at ==> !leads(record, #[trigger] list@[i], order),
                at < list@.len() ==> leads(record, list@[at as int], order),
            decreases list@.len() - at,
        {
            at = at + 1;
        }
        proof {
            lemma_inserted(list@, at as int, record, order);
            assert(all.take(it.index() + 1) =~= all.take(it.index() as int).push(record));
            all.take(it.index() as int).to_multiset_ensures();
        }
        list.insert(at, record);
    }
    proof {
        assert(all.take(all.len() as int) =~= all);
    }
    list
}

proof fn lemma_distinctly_keyed<T: Keyed>(list: Seq<T>, records: Seq<T>)
    requires
        distinctly_keyed(records),
        list.to_multiset() == records.to_multiset(),
    ensures
        distinctly_keyed(list),
        list.len() == records.len(),
{
    assert(records.no_duplicates());
    records.lemma_multiset_has_no_duplicates();
    list.lemma_multiset_has_no_duplicates_conv();
    list.to_multiset_ensures();
    records.to_multiset_ensures();
    assert forall|i: int, j: int| 0 <= i < j < list.len() implies (#[trigger] list[i]).key() != (
    #[trigger] list[j]).key() by {
        assert(list.contains(list[i]));
        assert(list.contains(list[j]));
        assert(records.to_multiset().count(list[i]) > 0);
        assert(records.to_multiset().count(list[j]) > 0);
        let k = choose|k: int| 0 <= k < records.len() && records[k] == list[i];
        let l = choose|l: int| 0 <= l < records.len() && records[l] == list[j];
        assert(k != l);
        if k < l {
            assert(records[k].key() != records[l].key());
        } else {
            assert(records[l].key() != records[k].key());
        }
    }
}

/// Records with different keys can be listed in one order only.
pub proof fn law_catalog_is_unique<T: Keyed>(
    left: Seq<T>,
    right: Seq<T>,
    records: Seq<T>,
    order: CatalogOrder,
)
    requires
        cataloged(left, records, order),
        cataloged(right, records, order),
        distinctly_keyed(records),
    ensures
        left == right,
    decreases records.len(),
{
    lemma_distinctly_keyed(left, records);
    lemma_distinctly_keyed(right, records);
    left.to_multiset_ensures();
    right.to_multiset_ensures();
    if left.len() == 0 {
        assert(left =~= right);
    } else {
        assert(right.contains(left[0])) by {
            assert(left.contains(left[0]));
            assert(right.to_multiset().count(left[0]) > 0);
        }
        assert(left.contains(right[0])) by {
            assert(right.contains(right[0]));
            assert(left.to_multiset().count(right[0]) > 0);
        }
        let k = choose|k: int| 0 <= k < right.len() && right[k] == left[0];
        let l = choose|l: int| 0 <= l < left.len() && left[l] == right[0];
        if k > 0 {
            assert(!leads(right[k], right[0], order));
            assert(right[0].key() != right[k].key());
            assert(l > 0);
            assert(!leads(left[l], left[0], order));
            lemma_texts_are_ordered(left[0].key(), right[0].key());
        }
        assert(left[0] == right[0]);
        let left_rest = left.drop_first();
        let right_rest = right.drop_first();
        assert(left.remove(0) =~= left_rest);
        assert(right.remove(0) =~= right_rest);
        vstd::seq_lib::to_multiset_remove(left, 0);
        vstd::seq_lib::to_multiset_remove(right, 0);
        assert forall|i: int, j: int| 0 <= i < j < left_rest.len() implies !leads(
            #[trigger] left_rest[j],
            #[trigger] left_rest[i],
            order,
        ) && left_rest[i].key() != left_rest[j].key() by {
            assert(left_rest[i] == left[i + 1] && left_rest[j] == left[j + 1]);
        }
        assert forall|i: int, j: int| 0 <= i < j < right_rest.len() implies !leads(
            #[trigger] right_rest[j],
            #[trigger] right_rest[i],
            order,
        ) by {
            assert(right_rest[i] == right[i + 1] && right_rest[j] == right[j + 1]);
        }
        law_catalog_is_unique(left_rest, right_rest, left_rest, order);
        assert(left =~= seq![left[0]] + left_rest);
        assert(right =~= seq![right[0]] + right_rest);
    }
}

/// A catalog holds each record as often as it was given, by rank in the order that was asked for,
/// and among records of one rank by key in that order.
pub proof fn law_catalog_is_ordered<T: Keyed>(list: Seq<T>, records: Seq<T>, order: CatalogOrder)
    requires
        cataloged(list, records, order),
    ensures
        list.len() == records.len(),
        list.to_multiset() == records.to_multiset(),
        forall|i: int| 0 <= i < list.len() ==> records.contains(#[trigger] list[i]),
        forall|i: int| 0 <= i < records.len() ==> list.contains(#[trigger] records[i]),
        order is Ascending ==> forall|i: int, j: int|
            0 <= i < j < list.len() ==> {
                ||| (#[trigger] list[i]).rank() < (#[trigger] list[j]).rank()
                ||| list[i].rank() == list[j].rank() && (list[i].key() == list[j].key()
                    || text_precedes(list[i].key(), list[j].key()))
            },
        order is Descending ==> forall|i: int, j: int|
            0 <= i < j < list.len() ==> {
                ||| (#[trigger] list[i]).rank() > (#[trigger] list[j]).rank()
                ||| list[i].rank() == list[j].rank() && (list[i].key() == list[j].key()
                    || text_precedes(list[j].key(), list[i].key()))
            },
{
    list.to_multiset_ensures();
    records.to_multiset_ensures();
    assert forall|i: int| 0 <= i < list.len() implies records.contains(#[trigger] list[i]) by {
        assert(list.contains(list[i]));
        assert(list.to_multiset().count(list[i]) > 0);
    }
    assert forall|i: int| 0 <= i < records.len() implies list.contains(#[trigger] records[i]) by {
        assert(records.contains(records[i]));
        assert(records.to_multiset().count(records[i]) > 0);
    }
    assert forall|i: int, j: int| 0 <= i < j < list.len() implies (#[trigger] list[i]).key() == (
    #[trigger] list[j]).key() || text_precedes(list[i].key(), list[j].key()) || text_precedes(
        list[j].key(),
        list[i].key(),
    ) by {
        if list[i].key() != list[j].key() {
            lemma_texts_are_ordered(list[i].key(), list[j].key());
        }
    }
    assert forall|i: int, j: int| 0 <= i < j < list.len() implies !leads(
        #[trigger] list[j],
        #[trigger] list[i],
        order,
    ) by {}
}

} // verus!
