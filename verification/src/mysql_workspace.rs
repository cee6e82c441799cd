use vstd::prelude::*;

use crate::catalog::{catalog, cataloged, law_catalog_is_ordered, CatalogOrder, Keyed};
use crate::error::StorageError;
use crate::storage::Storage;
use crate::text::{blank, byte_len, contains_char, is_blank, same_text, text_len};

verus! {

/// Maximum UTF-8 bytes of a datasource id.
pub const MAX_DATASOURCE_ID_BYTES: usize = 512;

/// Maximum UTF-8 bytes of the name of a database, a schema or a table.
pub const MAX_IDENTIFIER_BYTES: usize = 256;

/// Maximum UTF-8 bytes of an ER layout.
pub const MAX_ER_POSITION_BYTES: usize = 16 * 1024 * 1024;

/// A table that is pinned in a scope.
#[derive(Debug, Clone, PartialEq, Eq)]
pub struct PinnedTable {
    /// Datasource of the scope.
    pub datasource_id: String,
    /// Database of the scope.
    pub database_name: String,
    /// Schema of the scope.
    pub schema_name: String,
    /// The table.
    pub table_name: String,
    /// Creation time as Unix epoch milliseconds.
    pub created_at_ms: i64,
}

/// The ER layout that is saved for a scope.
#[derive(Debug, Clone, PartialEq, Eq)]
pub struct ErPosition {
    /// Datasource of the scope.
    pub datasource_id: String,
    /// Database of the scope.
    pub database_name: String,
    /// Schema of the scope.
    pub schema_name: String,
    /// The layout.
    pub position: String,
    /// Last update time as Unix epoch milliseconds.
    pub updated_at_ms: i64,
}

/// An identifier that is too long or holds a NUL.
pub open spec fn identifier_broken(value: Seq<char>) -> bool {
    byte_len(value) > MAX_IDENTIFIER_BYTES || value.contains('\0')
}

/// The rules of a scope; the first one broken decides the failure.
pub open spec fn scope_check(
    datasource_id: Seq<char>,
    database_name: Seq<char>,
    schema_name: Seq<char>,
) -> Result<(), StorageError> {
    if blank(datasource_id) || byte_len(datasource_id) > MAX_DATASOURCE_ID_BYTES {
        Err(
            StorageError::InvalidWorkspace(
                "datasource id must be non-empty and at most 512 UTF-8 bytes",
            ),
        )
    } else if identifier_broken(database_name) {
        Err(
            StorageError::InvalidWorkspace(
                "database name must be NUL-free and at most 256 UTF-8 bytes",
            ),
        )
    } else if identifier_broken(schema_name) {
        Err(
            StorageError::InvalidWorkspace(
                "schema name must be NUL-free and at most 256 UTF-8 bytes",
            ),
        )
    } else {
        Ok(())
    }
}

/// The rules of a pin.
pub open spec fn pin_check(
    datasource_id: Seq<char>,
    database_name: Seq<char>,
    schema_name: Seq<char>,
    table_name: Seq<char>,
) -> Result<(), StorageError> {
    if scope_check(datasource_id, database_name, schema_name) is Err {
        scope_check(datasource_id, database_name, schema_name)
    } else if table_name.len() == 0 || identifier_broken(table_name) {
        Err(
            StorageError::InvalidWorkspace(
                "table name must be non-empty, NUL-free, and at most 256 UTF-8 bytes",
            ),
        )
    } else {
        Ok(())
    }
}

/// The rules of an ER layout.
pub open spec fn er_position_check(
    datasource_id: Seq<char>,
    database_name: Seq<char>,
    schema_name: Seq<char>,
    position: Seq<char>,
) -> Result<(), StorageError> {
    if scope_check(datasource_id, database_name, schema_name) is Err {
        scope_check(datasource_id, database_name, schema_name)
    } else if byte_len(position) > MAX_ER_POSITION_BYTES {
        Err(StorageError::InvalidWorkspace("ER position exceeds the 16 MiB UTF-8 limit"))
    } else {
        Ok(())
    }
}

/// The pin is one of the scope.
pub open spec fn pinned_in(
    pin: PinnedTable,
    datasource_id: Seq<char>,
    database_name: Seq<char>,
    schema_name: Seq<char>,
) -> bool {
    &&& pin.datasource_id@ == datasource_id
    &&& pin.database_name@ == database_name
    &&& pin.schema_name@ == schema_name
}

/// The table is pinned in the scope.
pub open spec fn is_pinned(
    pins: Seq<PinnedTable>,
    datasource_id: Seq<char>,
    database_name: Seq<char>,
    schema_name: Seq<char>,
    table_name: Seq<char>,
) -> bool {
    exists|i: int|
        0 <= i < pins.len() && pinned_in(
            #[trigger] pins[i],
            datasource_id,
            database_name,
            schema_name,
        ) && pins[i].table_name@ == table_name
}

impl Keyed for PinnedTable {
    open spec fn rank(self) -> i64 {
        self.created_at_ms
    }

    open spec fn key(self) -> Seq<char> {
        self.table_name@
    }

    fn entry_rank(&self) -> (result: i64) {
        self.created_at_ms
    }

    fn entry_key(&self) -> (result: &str) {
        self.table_name.as_str()
    }
}

/// The names are those of the pins, the oldest pin first, and of pins of the same time in the
/// order of the names.
pub open spec fn names_listed(names: Seq<String>, pins: Seq<PinnedTable>) -> bool {
    exists|list: Seq<PinnedTable>| #[trigger]
        cataloged(list, pins, CatalogOrder::Ascending) && names == list.map_values(
            |pin: PinnedTable| pin.table_name,
        )
}

/// Checks a scope.
pub fn validate_scope(datasource_id: &str, database_name: &str, schema_name: &str) -> (result:
    Result<(), StorageError>)
    ensures
        result == scope_check(datasource_id@, database_name@, schema_name@),
{
    if is_blank(datasource_id) || text_len(datasource_id) > MAX_DATASOURCE_ID_BYTES {
        return Err(
            StorageError::InvalidWorkspace(
                "datasource id must be non-empty and at most 512 UTF-8 bytes",
            ),
        );
    }
    if text_len(database_name) > MAX_IDENTIFIER_BYTES || contains_char(database_name, '\0') {
        return Err(
            StorageError::InvalidWorkspace(
                "database name must be NUL-free and at most 256 UTF-8 bytes",
            ),
        );
    }
    if text_len(schema_name) > MAX_IDENTIFIER_BYTES || contains_char(schema_name, '\0') {
        return Err(
            StorageError::InvalidWorkspace(
                "schema name must be NUL-free and at most 256 UTF-8 bytes",
            ),
        );
    }
    Ok(())
}

/// Checks a scope and a table.
pub fn validate_pin(
    datasource_id: &str,
    database_name: &str,
    schema_name: &str,
    table_name: &str,
) -> (result: Result<(), StorageError>)
    ensures
        result == pin_check(datasource_id@, database_name@, schema_name@, table_name@),
{
    validate_scope(datasource_id, database_name, schema_name)?;
    if table_name.is_empty() || text_len(table_name) > MAX_IDENTIFIER_BYTES || contains_char(
        table_name,
        '\0',
    ) {
        return Err(
            StorageError::InvalidWorkspace(
                "table name must be non-empty, NUL-free, and at most 256 UTF-8 bytes",
            ),
        );
    }
    Ok(())
}

fn is_in_scope(
    pin: &PinnedTable,
    datasource_id: &str,
    database_name: &str,
    schema_name: &str,
) -> (result: bool)
    ensures
        result == pinned_in(*pin, datasource_id@, database_name@, schema_name@),
{
    same_text(pin.datasource_id.as_str(), datasource_id) && same_text(
        pin.database_name.as_str(),
        database_name,
    ) && same_text(pin.schema_name.as_str(), schema_name)
}

fn finds_pin(
    pins: &Vec<PinnedTable>,
    datasource_id: &str,
    database_name: &str,
    schema_name: &str,
    table_name: &str,
) -> (result: bool)
    ensures
        result == is_pinned(
            pins@,
            datasource_id@,
            database_name@,
            schema_name@,
            table_name@,
        ),
{
    let mut i: usize = 0;
    while i < pins.len()
        invariant
            i <= pins@.len(),
            forall|j: int|
                0 <= j < i ==> !(pinned_in(
                    #[trigger] pins@[j],
                    datasource_id@,
                    database_name@,
                    schema_name@,
                ) && pins@[j].table_name@ == table_name@),
        decreases pins@.len() - i,
    {
        if is_in_scope(&pins[i], datasource_id, database_name, schema_name) && same_text(
            pins[i].table_name.as_str(),
            table_name,
        ) {
            assert(pinned_in(pins@[i as int], datasource_id@, database_name@, schema_name@));
            return true;
        }
        i = i + 1;
    }
    false
}

impl Storage {
    /// Pins a table, unless it is pinned already.
    pub fn pin_mysql_table(
        datasource_id: &str,
        database_name: &str,
        schema_name: &str,
        table_name: &str,
        pins: &Vec<PinnedTable>,
        timestamp: i64,
    ) -> (result: Result<Option<PinnedTable>, StorageError>)
        ensures
            ({
                let check = pin_check(datasource_id@, database_name@, schema_name@, table_name@);
                let known = is_pinned(
                    pins@,
                    datasource_id@,
                    database_name@,
                    schema_name@,
                    table_name@,
                );
                match result {
                    Err(error) => check == Err::<(), StorageError>(error),
                    Ok(None) => check is Ok && known,
                    Ok(Some(pin)) => {
                        &&& check is Ok
                        &&& !known
                        &&& pinned_in(pin, datasource_id@, database_name@, schema_name@)
                        &&& pin.table_name@ == table_name@
                        &&& pin.created_at_ms == timestamp
                    },
                }
            }),
    {
        validate_pin(datasource_id, database_name, schema_name, table_name)?;
        if finds_pin(pins, datasource_id, database_name, schema_name, table_name) {
            return Ok(None);
        }
        Ok(
            Some(
                PinnedTable {
                    datasource_id: datasource_id.to_owned(),
                    database_name: database_name.to_owned(),
                    schema_name: schema_name.to_owned(),
                    table_name: table_name.to_owned(),
                    created_at_ms: timestamp,
                },
            ),
        )
    }

    /// Decides whether there is a pin to remove.
    pub fn unpin_mysql_table(
        datasource_id: &str,
        database_name: &str,
        schema_name: &str,
        table_name: &str,
        pins: &Vec<PinnedTable>,
    ) -> (result: Result<bool, StorageError>)
        ensures
            result == (match pin_check(
                datasource_id@,
                database_name@,
                schema_name@,
                table_name@,
            ) {
                Err(error) => Err::<bool, StorageError>(error),
                Ok(_) => Ok(
                    is_pinned(
                        pins@,
                        datasource_id@,
                        database_name@,
                        schema_name@,
                        table_name@,
                    ),
                ),
            }),
    {
        validate_pin(datasource_id, database_name, schema_name, table_name)?;
        Ok(finds_pin(pins, datasource_id, database_name, schema_name, table_name))
    }

    /// Lists the names of the tables pinned in a scope, the oldest pin first.
    pub fn list_mysql_pinned_tables(
        datasource_id: &str,
        database_name: &str,
        schema_name: &str,
        pins: Vec<PinnedTable>,
    ) -> (result: Result<Vec<String>, StorageError>)
        ensures
            match result {
                Err(error) => scope_check(datasource_id@, database_name@, schema_name@) == Err::<
                    (),
                    StorageError,
                >(error),
                Ok(names) => {
                    &&& scope_check(datasource_id@, database_name@, schema_name@) is Ok
                    &&& names_listed(
                        names@,
                        pins@.filter(
                            |pin: PinnedTable|
                                pinned_in(pin, datasource_id@, database_name@, schema_name@),
                        ),
                    )
                },
            },
    {
        validate_scope(datasource_id, database_name, schema_name)?;
        let ghost all = pins@;
        let ghost wanted = |pin: PinnedTable|
            pinned_in(pin, datasource_id@, database_name@, schema_name@);
        let mut found: Vec<PinnedTable> = Vec::new();
        proof {
            reveal(Seq::filter);
            assert(all.take(0).filter(wanted) =~= found@);
        }
        for pin in it: pins
            invariant
                it.seq() == all,
                wanted == (|pin: PinnedTable|
                    pinned_in(pin, datasource_id@, database_name@, schema_name@)),
                found@ == all.take(it.index() as int).filter(wanted),
        {
            proof {
                reveal(Seq::filter);
                assert(all.take(it.index() + 1).drop_last() =~= all.take(it.index() as int));
            }
            if is_in_scope(&pin, datasource_id, database_name, schema_name) {
                found.push(pin);
            }
        }
        proof {
            assert(all.take(all.len() as int) =~= all);
        }
        let list = catalog(found, CatalogOrder::Ascending);
        let ghost ordered = list@;
        let mut names: Vec<String> = Vec::new();
        for pin in it: list
            invariant
                it.seq() == ordered,
                names@.len() == it.index(),
                forall|i: int|
                    0 <= i < names@.len() ==> #[trigger] names@[i] == ordered[i].table_name,
        {
            names.push(pin.table_name);
        }
        proof {
            assert(names@ =~= ordered.map_values(|pin: PinnedTable| pin.table_name));
        }
        Ok(names)
    }

    /// Returns the ER layout that is saved for a scope.
    pub fn mysql_er_position(
        datasource_id: &str,
        database_name: &str,
        schema_name: &str,
        saved: Option<ErPosition>,
    ) -> (result: Result<Option<String>, StorageError>)
        ensures
            result == (match scope_check(datasource_id@, database_name@, schema_name@) {
                Err(error) => Err::<Option<String>, StorageError>(error),
                Ok(_) => Ok(
                    match saved {
                        Some(layout) => Some(layout.position),
                        None => None,
                    },
                ),
            }),
    {
        validate_scope(datasource_id, database_name, schema_name)?;
        match saved {
            Some(layout) => Ok(Some(layout.position)),
            None => Ok(None),
        }
    }

    /// Saves the ER layout of a scope, in place of the one that was saved before.
    pub fn save_mysql_er_position(
        datasource_id: &str,
        database_name: &str,
        schema_name: &str,
        position: String,
        timestamp: i64,
    ) -> (result: Result<ErPosition, StorageError>)
        ensures
            ({
                let check = er_position_check(
                    datasource_id@,
                    database_name@,
                    schema_name@,
                    position@,
                );
                match result {
                    Err(error) => check == Err::<(), StorageError>(error),
                    Ok(layout) => {
                        &&& check is Ok
                        &&& layout.datasource_id@ == datasource_id@
                        &&& layout.database_name@ == database_name@
                        &&& layout.schema_name@ == schema_name@
                        &&& layout.position == position
                        &&& layout.updated_at_ms == timestamp
                    },
                }
            }),
    {
        validate_scope(datasource_id, database_name, schema_name)?;
        if text_len(position.as_str()) > MAX_ER_POSITION_BYTES {
            return Err(StorageError::InvalidWorkspace("ER position exceeds the 16 MiB UTF-8 limit"));
        }
        Ok(
            ErPosition {
                datasource_id: datasource_id.to_owned(),
                database_name: database_name.to_owned(),
                schema_name: schema_name.to_owned(),
                position,
                updated_at_ms: timestamp,
            },
        )
    }
}

/// Once a table is pinned, pinning it again changes nothing.
pub proof fn law_pin_is_idempotent(pins: Seq<PinnedTable>, pin: PinnedTable)
    ensures
        is_pinned(
            pins.push(pin),
            pin.datasource_id@,
            pin.database_name@,
            pin.schema_name@,
            pin.table_name@,
        ),
{
    assert(pins.push(pin)[pins.len() as int] == pin);
}

/// A pin in one scope is no pin in another.
pub proof fn law_pins_are_scoped(
    pin: PinnedTable,
    datasource_id: Seq<char>,
    database_name: Seq<char>,
    schema_name: Seq<char>,
)
    requires
        pin.datasource_id@ != datasource_id || pin.database_name@ != database_name
            || pin.schema_name@ != schema_name,
    ensures
        !is_pinned(seq![pin], datasource_id, database_name, schema_name, pin.table_name@),
{
}

/// A scope is valid exactly if its datasource is named within its bound, and its database and its
/// schema are within theirs and hold no NUL. A pin also names its table, within its bound and
/// without a NUL, and a layout is within its own bound.
pub proof fn law_workspace_input_is_accepted(
    datasource_id: Seq<char>,
    database_name: Seq<char>,
    schema_name: Seq<char>,
    text: Seq<char>,
)
    ensures
        scope_check(datasource_id, database_name, schema_name) is Ok <==> {
            &&& !blank(datasource_id) && byte_len(datasource_id) <= 512
            &&& byte_len(database_name) <= 256 && !database_name.contains('\0')
            &&& byte_len(schema_name) <= 256 && !schema_name.contains('\0')
        },
        pin_check(datasource_id, database_name, schema_name, text) is Ok <==> {
            &&& scope_check(datasource_id, database_name, schema_name) is Ok
            &&& 0 < text.len() && byte_len(text) <= 256 && !text.contains('\0')
        },
        er_position_check(datasource_id, database_name, schema_name, text) is Ok <==> {
            &&& scope_check(datasource_id, database_name, schema_name) is Ok
            &&& byte_len(text) <= 16_777_216
        },
{
}

/// A table is pinned in a scope exactly if there is a pin of that datasource, database, schema and
/// table.
pub proof fn law_pin_names_scope_and_table(
    pins: Seq<PinnedTable>,
    pin: PinnedTable,
    datasource_id: Seq<char>,
    database_name: Seq<char>,
    schema_name: Seq<char>,
    table_name: Seq<char>,
)
    ensures
        !is_pinned(Seq::empty(), datasource_id, database_name, schema_name, table_name),
        is_pinned(pins.push(pin), datasource_id, database_name, schema_name, table_name) <==> {
            ||| is_pinned(pins, datasource_id, database_name, schema_name, table_name)
            ||| pin.datasource_id@ == datasource_id && pin.database_name@ == database_name
                && pin.schema_name@ == schema_name && pin.table_name@ == table_name
        },
{
    let longer = pins.push(pin);
    if is_pinned(pins, datasource_id, database_name, schema_name, table_name) {
        let i = choose|i: int|
            0 <= i < pins.len() && pinned_in(
                #[trigger] pins[i],
                datasource_id,
                database_name,
                schema_name,
            ) && pins[i].table_name@ == table_name;
        assert(longer[i] == pins[i]);
    }
    if is_pinned(longer, datasource_id, database_name, schema_name, table_name) {
        let i = choose|i: int|
            0 <= i < longer.len() && pinned_in(
                #[trigger] longer[i],
                datasource_id,
                database_name,
                schema_name,
            ) && longer[i].table_name@ == table_name;
        if i < pins.len() {
            assert(pins[i] == longer[i]);
        }
    }
    assert(longer[pins.len() as int] == pin);
}

/// Pinned tables are listed one for one, the oldest pin first.
pub proof fn law_pinned_tables_are_listed_by_age(names: Seq<String>, pins: Seq<PinnedTable>)
    requires
        names_listed(names, pins),
    ensures
        names.len() == pins.len(),
        forall|i: int|
            0 <= i < pins.len() ==> names.contains((#[trigger] pins[i]).table_name),
        exists|list: Seq<PinnedTable>|
            {
                &&& list.to_multiset() == pins.to_multiset()
                &&& list.len() == names.len()
                &&& forall|i: int|
                    0 <= i < list.len() ==> (#[trigger] list[i]).table_name == names[i]
                &&& forall|i: int, j: int|
                    0 <= i < j < list.len() ==> (#[trigger] list[i]).created_at_ms <= (
                    #[trigger] list[j]).created_at_ms
            },
{
    let list = choose|list: Seq<PinnedTable>| #[trigger]
        cataloged(list, pins, CatalogOrder::Ascending) && names == list.map_values(
            |pin: PinnedTable| pin.table_name,
        );
    law_catalog_is_ordered(list, pins, CatalogOrder::Ascending);
    assert forall|i: int| 0 <= i < pins.len() implies names.contains(
        (#[trigger] pins[i]).table_name,
    ) by {
        let k = choose|k: int| 0 <= k < list.len() && list[k] == pins[i];
        assert(names[k] == pins[i].table_name);
    }
    assert forall|i: int, j: int| 0 <= i < j < list.len() implies (
    #[trigger] list[i]).created_at_ms <= (#[trigger] list[j]).created_at_ms by {
        assert(list[i].rank() <= list[j].rank());
    }
}

} // verus!
