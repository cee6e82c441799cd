//! What is read of sessions, messages, runs and permissions.

use vstd::prelude::*;

use crate::agent::model::{
    AgentMessageRecord, AgentRunRecord, AgentSessionRecord, ToolPermissionRecord,
};
use crate::agent::rows::{RawMessage, RawPermission, RawRun, RawSession};
use crate::agent::session::message_page;
use crate::catalog::{
    catalog, cataloged, distinctly_keyed, law_catalog_is_ordered, law_catalog_is_unique, leads,
    CatalogOrder, Keyed,
};
use crate::error::StorageError;
use crate::listing::{law_page_shows_the_records_from_its_beginning, page_slice, take_page};
use crate::query::lemma_filter_of_longer;
use crate::row::{read_row, read_rows, row_read, rows_read, Row};
use crate::storage::Storage;
use crate::text::same_text;

verus! {

/// The sessions are listed with the last updated one first.
pub open spec fn sessions_listed(
    rows: Seq<RawSession>,
    result: Result<Vec<AgentSessionRecord>, StorageError>,
) -> bool {
    exists|list: Seq<RawSession>| #[trigger]
        cataloged(list, rows, CatalogOrder::Descending) && rows_read(list, result)
}

/// A message of a session, from an ordinal on.
pub open spec fn in_message_page(row: RawMessage, session_id: Seq<char>, start: i64) -> bool {
    row.session_id@ == session_id && row.ordinal >= start
}

/// The messages of a session from an ordinal on.
pub open spec fn message_rows(rows: Seq<RawMessage>, session_id: Seq<char>, start: i64) -> Seq<
    RawMessage,
> {
    rows.filter(|row: RawMessage| in_message_page(row, session_id, start))
}

/// The messages are those of the session from an ordinal on, in order, and no more than asked for.
pub open spec fn messages_listed(
    rows: Seq<RawMessage>,
    session_id: Seq<char>,
    start: i64,
    limit: i64,
    result: Result<Vec<AgentMessageRecord>, StorageError>,
) -> bool {
    exists|list: Seq<RawMessage>| #[trigger]
        cataloged(
            list,
            message_rows(rows, session_id, start),
            CatalogOrder::Ascending,
        ) && rows_read(page_slice(list, 0, limit as int), result)
}

/// A permission of a run that still waits or may be executed.
pub open spec fn active_for(row: RawPermission, run_id: Seq<char>) -> bool {
    row.run_id@ == run_id && (row.status@ == "pending"@ || row.status@ == "approved"@)
}

/// The position of the first active permission of a run; the number of rows if there is none.
pub open spec fn first_active(rows: Seq<RawPermission>, run_id: Seq<char>) -> nat
    decreases rows.len(),
{
    if rows.len() == 0 || active_for(rows[0], run_id) {
        0
    } else {
        1 + first_active(rows.drop_first(), run_id)
    }
}

proof fn lemma_first_active(rows: Seq<RawPermission>, run_id: Seq<char>, at: int)
    requires
        0 <= at <= rows.len(),
        forall|i: int| 0 <= i < at ==> !active_for(#[trigger] rows[i], run_id),
        at < rows.len() ==> active_for(rows[at], run_id),
    ensures
        first_active(rows, run_id) == at,
    decreases rows.len(),
{
    if rows.len() > 0 && at > 0 {
        assert(!active_for(rows[0], run_id));
        let rest = rows.drop_first();
        assert forall|i: int| 0 <= i < at - 1 implies !active_for(#[trigger] rest[i], run_id) by {
            assert(rest[i] == rows[i + 1]);
        }
        lemma_first_active(rest, run_id, at - 1);
    }
}

impl Storage {
    /// Reads a session.
    pub fn get_agent_session(row: Option<RawSession>) -> (result: Result<
        Option<AgentSessionRecord>,
        StorageError,
    >)
        ensures
            row_read(row, result),
    {
        read_row(row)
    }

    /// Lists sessions, the last updated one first.
    pub fn list_agent_sessions(rows: Vec<RawSession>) -> (result: Result<
        Vec<AgentSessionRecord>,
        StorageError,
    >)
        ensures
            sessions_listed(rows@, result),
    {
        let list = catalog(rows, CatalogOrder::Descending);
        let ghost ordered = list@;
        let records = read_rows(list);
        assert(cataloged(ordered, rows@, CatalogOrder::Descending));
        records
    }

    /// Reads a page of the messages of a session.
    pub fn list_agent_messages(
        session_id: &String,
        start_ordinal: u64,
        limit: u32,
        session_exists: bool,
        rows: Vec<RawMessage>,
    ) -> (result: Result<Vec<AgentMessageRecord>, StorageError>)
        ensures
            match message_page(*session_id, start_ordinal, limit, session_exists) {
                Err(error) => result == Err::<Vec<AgentMessageRecord>, StorageError>(error),
                Ok((start, count)) => messages_listed(rows@, session_id@, start, count, result),
            },
    {
        let (start, count): (i64, i64) = Storage::bound_agent_message_page(
            session_id,
            start_ordinal,
            limit,
            session_exists,
        )?;
        let ghost all = rows@;
        let ghost wanted = |row: RawMessage| in_message_page(row, session_id@, start);
        let mut found: Vec<RawMessage> = Vec::new();
        proof {
            reveal(Seq::filter);
            assert(all.take(0).filter(wanted) =~= found@);
        }
        for row in it: rows
            invariant
                it.seq() == all,
                wanted == (|row: RawMessage| in_message_page(row, session_id@, start)),
                found@ == all.take(it.index() as int).filter(wanted),
        {
            proof {
                reveal(Seq::filter);
                assert(all.take(it.index() + 1).drop_last() =~= all.take(it.index() as int));
            }
            if row.ordinal >= start && same_text(row.session_id.as_str(), session_id.as_str()) {
                found.push(row);
            }
        }
        proof {
            assert(all.take(all.len() as int) =~= all);
        }
        let list = catalog(found, CatalogOrder::Ascending);
        let ghost ordered = list@;
        let page = take_page(list, 0, limit as u64);
        let records = read_rows(page);
        assert(cataloged(
            ordered,
            message_rows(all, session_id@, start),
            CatalogOrder::Ascending,
        ));
        records
    }

    /// Reads a run.
    pub fn get_agent_run(row: Option<RawRun>) -> (result: Result<
        Option<AgentRunRecord>,
        StorageError,
    >)
        ensures
            row_read(row, result),
    {
        read_row(row)
    }

    /// Reads a tool permission.
    pub fn get_tool_permission(row: Option<RawPermission>) -> (result: Result<
        Option<ToolPermissionRecord>,
        StorageError,
    >)
        ensures
            row_read(row, result),
    {
        read_row(row)
    }

    /// Reads the pending or approved permission of a run.
    pub fn get_active_tool_permission_for_run(run_id: &str, rows: Vec<RawPermission>) -> (result:
        Result<Option<ToolPermissionRecord>, StorageError>)
        ensures
            ({
                let first = first_active(rows@, run_id@);
                if first < rows@.len() {
                    row_read(Some(rows@[first as int]), result)
                } else {
                    row_read(None::<RawPermission>, result)
                }
            }),
    {
        let ghost all = rows@;
        for row in it: rows
            invariant
                it.seq() == all,
                all == rows@,
                forall|i: int| 0 <= i < it.index() ==> !active_for(#[trigger] all[i], run_id@),
        {
            proof {
                assert(all[it.index() as int] == row);
            }
            if same_text(row.run_id.as_str(), run_id) && (same_text(row.status.as_str(), "pending")
                || same_text(row.status.as_str(), "approved")) {
                proof {
                    lemma_first_active(all, run_id@, it.index() as int);
                }
                return read_row(Some(row));
            }
        }
        proof {
            lemma_first_active(all, run_id@, all.len() as int);
        }
        Ok(None)
    }
}

proof fn lemma_rows_from(rows: Seq<RawMessage>, session_id: Seq<char>, start: i64)
    requires
        0 <= start,
        forall|i: int|
            0 <= i < rows.len() ==> (#[trigger] rows[i]).session_id@ == session_id
                && rows[i].ordinal == i,
    ensures
        message_rows(rows, session_id, start) == (if start <= rows.len() {
            rows.skip(start as int)
        } else {
            Seq::empty()
        }),
    decreases rows.len(),
{
    reveal(Seq::filter);
    if rows.len() > 0 {
        let rest = rows.drop_last();
        assert forall|i: int| 0 <= i < rest.len() implies (#[trigger] rest[i]).session_id@
            == session_id && rest[i].ordinal == i by {
            assert(rest[i] == rows[i]);
        }
        lemma_rows_from(rest, session_id, start);
        let last = rows[rows.len() - 1];
        assert(last.session_id@ == session_id && last.ordinal == rows.len() - 1);
        if start < rows.len() {
            assert(rest.skip(start as int).push(last) =~= rows.skip(start as int));
        } else if start == rows.len() {
            assert(rows.skip(start as int) =~= Seq::empty());
        }
    } else if start == 0 {
        assert(rows.skip(0) =~= Seq::empty());
    }
}

/// Where the ordinals of a session run from 0 without a gap, a page is a slice of its messages: the
/// message with the ordinal that was asked for comes first, and each one after it is the next.
pub proof fn law_message_page_is_a_slice(
    list: Seq<RawMessage>,
    rows: Seq<RawMessage>,
    session_id: Seq<char>,
    start: i64,
)
    requires
        0 <= start <= rows.len(),
        forall|i: int|
            0 <= i < rows.len() ==> (#[trigger] rows[i]).session_id@ == session_id
                && rows[i].ordinal == i,
        distinctly_keyed(rows),
        cataloged(list, message_rows(rows, session_id, start), CatalogOrder::Ascending),
    ensures
        list == rows.skip(start as int),
{
    lemma_rows_from(rows, session_id, start);
    let slice = rows.skip(start as int);
    assert forall|i: int, j: int| 0 <= i < j < slice.len() implies !leads(
        #[trigger] slice[j],
        #[trigger] slice[i],
        CatalogOrder::Ascending,
    ) && slice[i].key() != slice[j].key() by {
        assert(slice[i] == rows[start + i] && slice[j] == rows[start + j]);
        assert(rows[start + i].key() != rows[start + j].key());
    }
    law_catalog_is_unique(list, slice, slice, CatalogOrder::Ascending);
}

/// A page lists messages of the session from the ordinal that was asked for on, in the order of
/// their ordinals, and as many of them as there are, up to the number that was asked for.
pub proof fn law_message_page_lists_the_session(
    rows: Seq<RawMessage>,
    session_id: Seq<char>,
    start: i64,
    limit: i64,
    result: Result<Vec<AgentMessageRecord>, StorageError>,
)
    requires
        messages_listed(rows, session_id, start, limit, result),
        0 < limit,
    ensures
        result matches Ok(records) ==> {
            &&& message_rows(rows, session_id, start).len() <= limit ==> records@.len()
                == message_rows(rows, session_id, start).len()
            &&& message_rows(rows, session_id, start).len() > limit ==> records@.len() == limit
            &&& forall|i: int|
                0 <= i < records@.len() ==> (#[trigger] records@[i]).session_id@ == session_id
                    && records@[i].ordinal >= start
            &&& forall|i: int, j: int|
                0 <= i < j < records@.len() ==> (#[trigger] records@[i]).ordinal <= (
                #[trigger] records@[j]).ordinal
        },
{
    if let Ok(records) = result {
        let found = message_rows(rows, session_id, start);
        let list = choose|list: Seq<RawMessage>| #[trigger]
            cataloged(list, found, CatalogOrder::Ascending) && rows_read(
                page_slice(list, 0, limit as int),
                result,
            );
        let shown = page_slice(list, 0, limit as int);
        law_catalog_is_ordered(list, found, CatalogOrder::Ascending);
        law_page_shows_the_records_from_its_beginning(list, 0, limit as int);
        assert forall|i: int| 0 <= i < records@.len() implies (#[trigger] records@[i]).session_id@
            == session_id && records@[i].ordinal >= start && shown[i] == list[i]
            && records@[i].ordinal == shown[i].ordinal by {
            assert(shown[i].broken() is None && shown[i].holds(records@[i]));
            assert(shown[i] == list[i]);
            assert(found.contains(list[i]));
            broadcast use vstd::seq_lib::group_filter_ensures;

            assert(in_message_page(list[i], session_id, start));
        }
        assert forall|i: int, j: int| 0 <= i < j < records@.len() implies (
        #[trigger] records@[i]).ordinal <= (#[trigger] records@[j]).ordinal by {
            assert(list[i].rank() <= list[j].rank());
        }
    }
}

/// The messages of a session from an ordinal on are those of the session with that ordinal or a
/// later one.
pub proof fn law_message_rows_are_those_of_the_session(
    rows: Seq<RawMessage>,
    row: RawMessage,
    session_id: Seq<char>,
    start: i64,
)
    ensures
        message_rows(Seq::empty(), session_id, start).len() == 0,
        row.session_id@ == session_id && row.ordinal >= start ==> message_rows(
            rows.push(row),
            session_id,
            start,
        ) == message_rows(rows, session_id, start).push(row),
        row.session_id@ != session_id || row.ordinal < start ==> message_rows(
            rows.push(row),
            session_id,
            start,
        ) == message_rows(rows, session_id, start),
{
    lemma_filter_of_longer(rows, row, |row: RawMessage| in_message_page(row, session_id, start));
}

/// All sessions are listed, the last updated one first.
pub proof fn law_sessions_are_listed_by_their_update(
    rows: Seq<RawSession>,
    result: Result<Vec<AgentSessionRecord>, StorageError>,
)
    requires
        sessions_listed(rows, result),
    ensures
        result matches Ok(records) ==> {
            &&& records@.len() == rows.len()
            &&& forall|i: int, j: int|
                0 <= i < j < records@.len() ==> (#[trigger] records@[i]).updated_at_ms >= (
                #[trigger] records@[j]).updated_at_ms
            &&& forall|i: int|
                0 <= i < rows.len() ==> exists|k: int|
                    0 <= k < records@.len() && (#[trigger] records@[k]).id == (
                    #[trigger] rows[i]).id
        },
{
    if let Ok(records) = result {
        let list = choose|list: Seq<RawSession>| #[trigger]
            cataloged(list, rows, CatalogOrder::Descending) && rows_read(list, result);
        law_catalog_is_ordered(list, rows, CatalogOrder::Descending);
        assert forall|i: int| 0 <= i < list.len() implies (#[trigger] records@[i]).updated_at_ms
            == list[i].rank() && records@[i].id == list[i].id by {
            assert(list[i].broken() is None && list[i].holds(records@[i]));
        }
        assert forall|i: int| 0 <= i < rows.len() implies exists|k: int|
            0 <= k < records@.len() && (#[trigger] records@[k]).id == (#[trigger] rows[i]).id by {
            assert(list.contains(rows[i]));
            let k = choose|k: int| 0 <= k < list.len() && list[k] == rows[i];
            assert(records@[k].id == rows[i].id);
        }
    }
}

/// The active permission of a run is the first of its permissions that is pending or approved.
pub proof fn law_active_permission_is_the_first(rows: Seq<RawPermission>, run_id: Seq<char>)
    ensures
        first_active(rows, run_id) <= rows.len(),
        first_active(rows, run_id) < rows.len() ==> {
            let row = rows[first_active(rows, run_id) as int];
            row.run_id@ == run_id && (row.status@ == "pending"@ || row.status@ == "approved"@)
        },
        forall|i: int|
            0 <= i < first_active(rows, run_id) ==> (#[trigger] rows[i]).run_id@ != run_id || (
            rows[i].status@ != "pending"@ && rows[i].status@ != "approved"@),
    decreases rows.len(),
{
    if rows.len() > 0 && !active_for(rows[0], run_id) {
        let rest = rows.drop_first();
        law_active_permission_is_the_first(rest, run_id);
        assert forall|i: int| 0 <= i < first_active(rows, run_id) implies (
        #[trigger] rows[i]).run_id@ != run_id || (rows[i].status@ != "pending"@ && rows[i].status@
            != "approved"@) by {
            if i > 0 {
                assert(rest[i - 1] == rows[i]);
            }
        }
    }
}

} // verus!
