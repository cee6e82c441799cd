use chat2db_storage::mysql_workspace::{ErPosition, PinnedTable};
use chat2db_storage::{Storage, StorageError};

/// Tables in memory, driven by the rules of the library.
struct Workspace {
    pins: Vec<PinnedTable>,
    positions: Vec<ErPosition>,
    now: i64,
}

impl Workspace {
    fn open() -> Workspace {
        Workspace { pins: Vec::new(), positions: Vec::new(), now: 1_000 }
    }

    fn pin_mysql_table(
        &mut self,
        datasource: &str,
        database: &str,
        schema: &str,
        table: &str,
    ) -> Result<(), StorageError> {
        self.now += 1;
        let pin =
            Storage::pin_mysql_table(datasource, database, schema, table, &self.pins, self.now)?;
        self.pins.extend(pin);
        Ok(())
    }

    fn unpin_mysql_table(
        &mut self,
        datasource: &str,
        database: &str,
        schema: &str,
        table: &str,
    ) -> Result<bool, StorageError> {
        let pinned = Storage::unpin_mysql_table(datasource, database, schema, table, &self.pins)?;
        if pinned {
            self.pins.retain(|pin| {
                !(pin.datasource_id == datasource
                    && pin.database_name == database
                    && pin.schema_name == schema
                    && pin.table_name == table)
            });
        }
        Ok(pinned)
    }

    fn list_mysql_pinned_tables(
        &self,
        datasource: &str,
        database: &str,
        schema: &str,
    ) -> Result<Vec<String>, StorageError> {
        Storage::list_mysql_pinned_tables(datasource, database, schema, self.pins.clone())
    }

    fn save_mysql_er_position(
        &mut self,
        datasource: &str,
        database: &str,
        schema: &str,
        position: &str,
    ) -> Result<(), StorageError> {
        self.now += 1;
        let saved = Storage::save_mysql_er_position(
            datasource,
            database,
            schema,
            position.to_owned(),
            self.now,
        )?;
        self.positions.retain(|old| {
            !(old.datasource_id == saved.datasource_id
                && old.database_name == saved.database_name
                && old.schema_name == saved.schema_name)
        });
        self.positions.push(saved);
        Ok(())
    }

    fn mysql_er_position(
        &self,
        datasource: &str,
        database: &str,
        schema: &str,
    ) -> Result<Option<String>, StorageError> {
        let saved = self
            .positions
            .iter()
            .find(|saved| {
                saved.datasource_id == datasource
                    && saved.database_name == database
                    && saved.schema_name == schema
            })
            .cloned();
        Storage::mysql_er_position(datasource, database, schema, saved)
    }
}

#[test]
fn pins_are_idempotent_scoped_and_restart_safe() {
    let mut storage = Workspace::open();
    let datasource_id = "datasource-1";
    storage
        .pin_mysql_table(datasource_id, "shop", "", "orders")
        .expect("pin creates");
    storage
        .pin_mysql_table(datasource_id, "shop", "", "orders")
        .expect("duplicate pin is idempotent");
    storage
        .pin_mysql_table(datasource_id, "shop", "", "users")
        .expect("second pin creates");

    assert_eq!(
        storage
            .list_mysql_pinned_tables(datasource_id, "shop", "")
            .expect("pins list"),
        vec!["orders", "users"]
    );
    storage
        .unpin_mysql_table(datasource_id, "shop", "", "orders")
        .expect("pin deletes");
    assert_eq!(
        storage
            .list_mysql_pinned_tables(datasource_id, "shop", "")
            .expect("pins relist"),
        vec!["users"]
    );
}

#[test]
fn er_position_upsert_replaces_the_existing_layout_and_survives_restart() {
    let mut storage = Workspace::open();
    let datasource_id = "datasource-1";
    storage
        .save_mysql_er_position(datasource_id, "shop", "", r#"{"version":1}"#)
        .expect("first layout saves");
    storage
        .save_mysql_er_position(datasource_id, "shop", "", r#"{"version":2}"#)
        .expect("second layout replaces first");

    assert_eq!(
        storage
            .mysql_er_position(datasource_id, "shop", "")
            .expect("layout reads")
            .as_deref(),
        Some(r#"{"version":2}"#)
    );
}

#[test]
fn pins_of_one_scope_are_not_listed_in_another() {
    let mut storage = Workspace::open();
    storage.pin_mysql_table("a", "shop", "", "orders").expect("pin creates");
    storage.pin_mysql_table("a", "shop", "sales", "orders").expect("pin creates");
    storage.pin_mysql_table("b", "shop", "", "users").expect("pin creates");
    assert_eq!(storage.list_mysql_pinned_tables("a", "shop", "").expect("pins list"), ["orders"]);
    assert_eq!(storage.list_mysql_pinned_tables("b", "shop", "").expect("pins list"), ["users"]);
    assert!(storage.list_mysql_pinned_tables("c", "shop", "").expect("pins list").is_empty());
    assert!(!storage.unpin_mysql_table("c", "shop", "", "orders").expect("nothing unpins"));
    assert_eq!(storage.mysql_er_position("a", "shop", "").expect("layout reads"), None);
}

#[test]
fn pins_of_one_time_are_listed_by_name() {
    let mut storage = Workspace::open();
    for table in ["b", "a"] {
        storage.pin_mysql_table("d", "shop", "", table).expect("pin creates");
        storage.now = 1_000;
    }
    assert_eq!(storage.list_mysql_pinned_tables("d", "shop", "").expect("pins list"), ["a", "b"]);
}

#[test]
fn workspace_scopes_and_names_are_bounded() {
    let mut storage = Workspace::open();
    assert!(matches!(
        storage.pin_mysql_table("", "shop", "", "orders"),
        Err(StorageError::InvalidWorkspace(_))
    ));
    assert!(matches!(
        storage.pin_mysql_table("d", "shop", "", ""),
        Err(StorageError::InvalidWorkspace(_))
    ));
    assert!(matches!(
        storage.pin_mysql_table("d", "sh\0op", "", "orders"),
        Err(StorageError::InvalidWorkspace(_))
    ));
    assert!(matches!(
        storage.save_mysql_er_position("d", "shop", "", &"x".repeat(16 * 1024 * 1024 + 1)),
        Err(StorageError::InvalidWorkspace(_))
    ));
}
