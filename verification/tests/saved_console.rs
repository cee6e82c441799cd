use chat2db_storage::{
    CreateSavedConsole, SavedConsoleListQuery, SavedConsolePage, SavedConsoleRecord, Storage,
    StorageError, UpdateSavedConsole,
};

/// A table in memory whose numeric ids are never used twice, driven by the rules of the library.
struct Table {
    rows: Vec<SavedConsoleRecord>,
    greatest_id: i64,
    now: i64,
}

impl Table {
    fn open() -> Table {
        Table { rows: Vec::new(), greatest_id: 0, now: 1_000 }
    }

    fn find(&self, id: i64) -> Option<SavedConsoleRecord> {
        self.rows.iter().find(|row| row.id == id).cloned()
    }

    fn create_saved_console(
        &mut self,
        input: CreateSavedConsole,
    ) -> Result<SavedConsoleRecord, StorageError> {
        self.now += 1;
        let record = Storage::create_saved_console(input, self.greatest_id + 1, self.now)?;
        self.greatest_id = self.greatest_id.max(record.id);
        self.rows.push(record.clone());
        Ok(record)
    }

    fn get_saved_console(&self, id: i64) -> Result<Option<SavedConsoleRecord>, StorageError> {
        Storage::get_saved_console(id, self.find(id))
    }

    fn update_saved_console(
        &mut self,
        id: i64,
        input: UpdateSavedConsole,
    ) -> Result<SavedConsoleRecord, StorageError> {
        self.now += 1;
        let record = Storage::update_saved_console(id, input, self.find(id), self.now)?;
        for row in &mut self.rows {
            if row.id == id {
                *row = record.clone();
            }
        }
        Ok(record)
    }

    fn delete_saved_console(&mut self, id: i64) -> bool {
        let deleted = Storage::delete_saved_console(id, self.find(id).is_some());
        if deleted {
            self.rows.retain(|row| row.id != id);
        }
        deleted
    }

    fn list_saved_consoles(
        &self,
        query: &SavedConsoleListQuery,
    ) -> Result<SavedConsolePage, StorageError> {
        Storage::list_saved_consoles(query, self.rows.clone())
    }
}

fn input(name: &str, datasource_id: &str) -> CreateSavedConsole {
    CreateSavedConsole {
        id: None,
        name: name.to_owned(),
        data_source_id: Some(datasource_id.to_owned()),
        data_source_name: Some("Local MySQL".to_owned()),
        database_name: Some("chat2db".to_owned()),
        schema_name: Some("public".to_owned()),
        database_type: Some("MYSQL".to_owned()),
        ddl: "SELECT 1".to_owned(),
        status: "DRAFT".to_owned(),
        tab_opened: "y".to_owned(),
        operation_type: "console".to_owned(),
    }
}

#[test]
fn saved_console_crud_survives_reopen() {
    let mut storage = Table::open();
    let created = storage
        .create_saved_console(input("orders", "datasource-1"))
        .expect("Console creates");
    assert!(created.id > 0);
    assert_eq!(
        storage.get_saved_console(created.id).expect("Console reads"),
        Some(created.clone())
    );

    let updated = storage
        .update_saved_console(
            created.id,
            UpdateSavedConsole {
                name: Some("orders-release".to_owned()),
                schema_name: Some(None),
                ddl: Some("SELECT * FROM orders".to_owned()),
                status: Some("RELEASE".to_owned()),
                tab_opened: Some("n".to_owned()),
                ..UpdateSavedConsole::default()
            },
        )
        .expect("Console updates");
    assert_eq!(updated.name, "orders-release");
    assert_eq!(updated.schema_name, None);
    assert_eq!(updated.status, "RELEASE");
    assert!(updated.updated_at_ms >= created.updated_at_ms);

    assert_eq!(
        storage.get_saved_console(created.id).expect("Console rereads"),
        Some(updated)
    );
    assert!(storage.delete_saved_console(created.id));
    assert!(!storage.delete_saved_console(created.id));
    assert_eq!(
        storage.get_saved_console(created.id).expect("deleted Console reads"),
        None
    );
}

#[test]
fn requested_numeric_identity_can_be_restored_without_reuse() {
    let mut storage = Table::open();
    let mut requested = input("restored", "datasource-1");
    requested.id = Some(42);
    let first = storage
        .create_saved_console(requested.clone())
        .expect("requested id creates");
    assert_eq!(first.id, 42);
    assert!(storage.delete_saved_console(42));

    let restored = storage
        .create_saved_console(requested)
        .expect("same deleted id restores");
    assert_eq!(restored.id, 42);
    let allocated = storage
        .create_saved_console(input("next", "datasource-1"))
        .expect("next id allocates");
    assert!(allocated.id > 42);
}

#[test]
fn list_filters_pages_searches_and_sorts_stably() {
    let mut storage = Table::open();
    let alpha = storage
        .create_saved_console(input("Alpha report", "datasource-a"))
        .expect("alpha creates");
    let mut beta_input = input("Beta report", "datasource-a");
    beta_input.database_name = Some("analytics".to_owned());
    beta_input.status = "RELEASE".to_owned();
    beta_input.tab_opened = "n".to_owned();
    let beta = storage.create_saved_console(beta_input).expect("beta creates");
    let gamma = storage
        .create_saved_console(input("Gamma", "datasource-b"))
        .expect("gamma creates");

    let first_page = storage
        .list_saved_consoles(&SavedConsoleListQuery {
            page_size: 2,
            ..SavedConsoleListQuery::default()
        })
        .expect("first page lists");
    assert_eq!(first_page.total, 3);
    assert_eq!(
        first_page.records.iter().map(|record| record.id).collect::<Vec<_>>(),
        vec![alpha.id, beta.id]
    );

    let descending = storage
        .list_saved_consoles(&SavedConsoleListQuery {
            page_size: 3,
            order_by_desc: true,
            ..SavedConsoleListQuery::default()
        })
        .expect("descending page lists");
    assert_eq!(
        descending.records.iter().map(|record| record.id).collect::<Vec<_>>(),
        vec![gamma.id, beta.id, alpha.id]
    );

    let filtered = storage
        .list_saved_consoles(&SavedConsoleListQuery {
            data_source_id: Some("datasource-a".to_owned()),
            database_name: Some("analytics".to_owned()),
            status: Some("RELEASE".to_owned()),
            tab_opened: Some("n".to_owned()),
            operation_type: Some("console".to_owned()),
            search_key: Some("beta".to_owned()),
            ..SavedConsoleListQuery::default()
        })
        .expect("filtered page lists");
    assert_eq!(filtered.total, 1);
    assert_eq!(filtered.records[0].id, beta.id);
}

#[test]
fn invalid_updates_and_pages_fail_closed() {
    let mut storage = Table::open();
    let record = storage
        .create_saved_console(input("query", "datasource-1"))
        .expect("Console creates");

    let invalid_update = storage
        .update_saved_console(
            record.id,
            UpdateSavedConsole {
                tab_opened: Some("maybe".to_owned()),
                ..UpdateSavedConsole::default()
            },
        )
        .expect_err("invalid tab flag must fail");
    assert!(matches!(invalid_update, StorageError::InvalidSavedConsole(_)));
    assert_eq!(
        storage
            .get_saved_console(record.id)
            .expect("record remains readable")
            .expect("record remains present")
            .tab_opened,
        "y"
    );

    let invalid_page = storage
        .list_saved_consoles(&SavedConsoleListQuery {
            page_no: 0,
            ..SavedConsoleListQuery::default()
        })
        .expect_err("zero page must fail");
    assert!(matches!(invalid_page, StorageError::InvalidSavedConsole(_)));
    assert!(matches!(
        storage
            .update_saved_console(9_999, UpdateSavedConsole::default())
            .expect_err("missing update must fail"),
        StorageError::SavedConsoleNotFound(9_999)
    ));
}

#[test]
fn an_empty_update_changes_only_the_time() {
    let mut storage = Table::open();
    let created = storage
        .create_saved_console(input("query", "datasource-1"))
        .expect("Console creates");
    let updated = storage
        .update_saved_console(created.id, UpdateSavedConsole::default())
        .expect("Console updates");
    assert_eq!(
        SavedConsoleRecord { updated_at_ms: created.updated_at_ms, ..updated.clone() },
        created
    );
    assert!(updated.updated_at_ms > created.updated_at_ms);
}

#[test]
fn a_console_has_a_bounded_name_a_state_and_a_positive_id() {
    let mut storage = Table::open();
    assert!(matches!(
        storage.create_saved_console(input(&"n".repeat(513), "datasource-1")),
        Err(StorageError::InvalidSavedConsole(_))
    ));
    let mut stateless = input("query", "datasource-1");
    stateless.status = String::new();
    assert!(matches!(
        storage.create_saved_console(stateless),
        Err(StorageError::InvalidSavedConsole(_))
    ));
    let mut requested = input("query", "datasource-1");
    requested.id = Some(0);
    assert!(matches!(
        storage.create_saved_console(requested),
        Err(StorageError::InvalidSavedConsole(_))
    ));
}
