//! Records that are read from database rows.

use vstd::prelude::*;

use crate::error::StorageError;

verus! {

/// A database row that holds a record.
pub trait Row: Sized {
    /// What the row holds.
    type Record;

    /// The failure of a row whose columns hold no record.
    spec fn broken(self) -> Option<StorageError>;

    /// The row holds this record.
    spec fn holds(self, record: Self::Record) -> bool;

    /// Reads the record.
    fn read(self) -> (result: Result<Self::Record, StorageError>)
        ensures
            match result {
                Ok(record) => self.broken() is None && self.holds(record),
                Err(error) => self.broken() == Some(error),
            },
    ;
}

/// A row that may be missing is read: a missing row holds nothing.
pub open spec fn row_read<T: Row>(
    row: Option<T>,
    result: Result<Option<T::Record>, StorageError>,
) -> bool {
    match (row, result) {
        (None, Ok(record)) => record is None,
        (None, Err(_)) => false,
        (Some(row), Ok(record)) => row.broken() is None && record is Some && row.holds(
            record->Some_0,
        ),
        (Some(row), Err(error)) => row.broken() == Some(error),
    }
}

/// Rows are read in order: either all of them hold their records, or the first broken one fails.
pub open spec fn rows_read<T: Row>(
    rows: Seq<T>,
    result: Result<Vec<T::Record>, StorageError>,
) -> bool {
    match result {
        Ok(records) => {
            &&& records@.len() == rows.len()
            &&& forall|i: int|
                0 <= i < rows.len() ==> (#[trigger] rows[i]).broken() is None && rows[i].holds(
                    records@[i],
                )
        },
        Err(error) => exists|k: int|
            {
                &&& 0 <= k < rows.len()
                &&& (#[trigger] rows[k]).broken() == Some(error)
                &&& forall|i: int| 0 <= i < k ==> (#[trigger] rows[i]).broken() is None
            },
    }
}

/// Reads a row that may be missing.
pub fn read_row<T: Row>(row: Option<T>) -> (result: Result<Option<T::Record>, StorageError>)
    ensures
        row_read(row, result),
{
    match row {
        None => Ok(None),
        Some(row) => match row.read() {
            Ok(record) => Ok(Some(record)),
            Err(error) => Err(error),
        },
    }
}

/// Reads rows in order.
pub fn read_rows<T: Row>(rows: Vec<T>) -> (result: Result<Vec<T::Record>, StorageError>)
    ensures
        rows_read(rows@, result),
{
    let ghost all = rows@;
    let mut records: Vec<T::Record> = Vec::new();
    for row in it: rows
        invariant
            it.seq() == all,
            all == rows@,
            records@.len() == it.index(),
            forall|i: int|
                0 <= i < it.index() ==> (#[trigger] all[i]).broken() is None && all[i].holds(
                    records@[i],
                ),
    {
        proof {
            assert(all[it.index() as int] == row);
        }
        match row.read() {
            Ok(record) => records.push(record),
            Err(error) => return Err(error),
        }
    }
    Ok(records)
}

/// Rows are read one for one, in order; a broken row fails with its own failure, the first of several
/// deciding. A missing row is no failure.
pub proof fn law_rows_are_read_one_for_one<T: Row>(
    rows: Seq<T>,
    all: Result<Vec<T::Record>, StorageError>,
    row: Option<T>,
    one: Result<Option<T::Record>, StorageError>,
)
    ensures
        rows_read(rows, all) && all is Ok ==> {
            &&& all->Ok_0@.len() == rows.len()
            &&& forall|i: int| 0 <= i < rows.len() ==> (#[trigger] rows[i]).holds(all->Ok_0@[i])
            &&& forall|i: int| 0 <= i < rows.len() ==> (#[trigger] rows[i]).broken() is None
        },
        rows_read(rows, all) && all is Err ==> exists|k: int|
            0 <= k < rows.len() && (#[trigger] rows[k]).broken() == Some(all->Err_0) && forall|i: int|
                0 <= i < k ==> (#[trigger] rows[i]).broken() is None,
        row_read(None::<T>, one) ==> one is Ok && one->Ok_0 is None,
        row is Some && row_read(row, one) && one is Ok ==> one->Ok_0 is Some && row->0.holds(
            one->Ok_0->0,
        ) && row->0.broken() is None,
        row is Some && row_read(row, one) && one is Err ==> row->0.broken() == Some(one->Err_0),
{
}

} // verus!
