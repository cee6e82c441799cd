use chat2db_storage::operation_log::{matches_operation_log, validate_operation_log};
use chat2db_storage::{
    CreateOperationLog, OperationLogListQuery, OperationLogPage, OperationLogRecord, Storage,
    StorageError,
};

/// A table in memory, driven by the rules of the library.
struct Table {
    rows: Vec<OperationLogRecord>,
    now: i64,
}

impl Table {
    fn open() -> Table {
        Table { rows: Vec::new(), now: 1_000 }
    }

    fn create_operation_log(
        &mut self,
        input: CreateOperationLog,
    ) -> Result<OperationLogRecord, StorageError> {
        self.now += 1;
        let record = Storage::create_operation_log(self.rows.len() as i64 + 1, input, self.now)?;
        self.rows.push(record.clone());
        Ok(record)
    }

    fn get_operation_log(&self, id: i64) -> Result<Option<OperationLogRecord>, StorageError> {
        let row = self.rows.iter().find(|row| row.id == id).cloned();
        Storage::get_operation_log(id, row)
    }

    fn list_operation_logs(
        &self,
        query: &OperationLogListQuery,
    ) -> Result<OperationLogPage, StorageError> {
        Storage::list_operation_logs(query, self.rows.clone())
    }
}

fn input(name: &str, datasource_id: &str, ddl: &str) -> CreateOperationLog {
    CreateOperationLog {
        name: Some(name.to_owned()),
        data_source_id: Some(datasource_id.to_owned()),
        data_source_name: Some("Local MySQL".to_owned()),
        connectable: Some(true),
        database_name: Some("chat2db".to_owned()),
        database_type: Some("MYSQL".to_owned()),
        ddl: ddl.to_owned(),
        status: "SUCCESS".to_owned(),
        operation_rows: Some(1),
        use_time: Some(12),
        extend_info: Some(r#"{"source":"console","result":null}"#.to_owned()),
        schema_name: Some("public".to_owned()),
        organization_id: None,
        user_name: Some("local-user".to_owned()),
        more: false,
        operation_type: "SQL_EXECUTE".to_owned(),
    }
}

#[test]
fn operation_log_round_trip_survives_reopen() {
    let mut storage = Table::open();
    let mut create = input("orders", "datasource-1", "SELECT * FROM orders");
    create.connectable = None;
    create.operation_rows = None;
    create.organization_id = Some(7);
    create.more = true;
    let created = storage.create_operation_log(create).expect("operation log creates");
    assert!(created.id > 0);
    assert_eq!(created.connectable, None);
    assert_eq!(created.operation_rows, None);
    assert_eq!(created.organization_id, Some(7));
    assert!(created.more);
    assert_eq!(created.created_at_ms, created.updated_at_ms);
    assert_eq!(
        storage.get_operation_log(created.id).expect("operation log reads"),
        Some(created)
    );
    assert_eq!(
        storage.get_operation_log(0).expect("invalid identity is absent"),
        None
    );
}

#[test]
fn list_filters_searches_and_pages_in_stable_newest_first_order() {
    let mut storage = Table::open();
    let alpha = storage
        .create_operation_log(input("Alpha", "datasource-a", "SELECT alpha"))
        .expect("alpha creates");

    let mut beta_input = input("Beta", "datasource-a", "SELECT beta");
    beta_input.database_name = Some("analytics".to_owned());
    beta_input.schema_name = Some("reporting".to_owned());
    beta_input.user_name = Some("Alice".to_owned());
    let beta = storage.create_operation_log(beta_input).expect("beta creates");

    let mut gamma_input = input("Gamma", "datasource-b", "DELETE FROM audit_events");
    gamma_input.operation_type = "SQL_AUDIT".to_owned();
    let gamma = storage.create_operation_log(gamma_input).expect("gamma creates");

    let delta = storage
        .create_operation_log(input("literal %_ marker", "datasource-a", "SELECT delta"))
        .expect("delta creates");

    let first_page = storage
        .list_operation_logs(&OperationLogListQuery {
            page_size: 2,
            ..OperationLogListQuery::default()
        })
        .expect("first page lists");
    assert_eq!(first_page.total, 4);
    assert_eq!(
        first_page.records.iter().map(|record| record.id).collect::<Vec<_>>(),
        vec![delta.id, gamma.id]
    );

    let second_page = storage
        .list_operation_logs(&OperationLogListQuery {
            page_no: 2,
            page_size: 2,
            ..OperationLogListQuery::default()
        })
        .expect("second page lists");
    assert_eq!(
        second_page.records.iter().map(|record| record.id).collect::<Vec<_>>(),
        vec![beta.id, alpha.id]
    );

    let filtered = storage
        .list_operation_logs(&OperationLogListQuery {
            data_source_id: Some("datasource-a".to_owned()),
            database_name: Some("analytics".to_owned()),
            schema_name: Some("reporting".to_owned()),
            operation_type: Some("SQL_EXECUTE".to_owned()),
            search_key: Some("ALICE".to_owned()),
            ..OperationLogListQuery::default()
        })
        .expect("combined filters list");
    assert_eq!(filtered.total, 1);
    assert_eq!(filtered.records[0].id, beta.id);

    let by_datasource = storage
        .list_operation_logs(&OperationLogListQuery {
            data_source_id: Some("datasource-b".to_owned()),
            ..OperationLogListQuery::default()
        })
        .expect("datasource filters");
    assert_eq!(by_datasource.records, vec![gamma.clone()]);

    let by_database = storage
        .list_operation_logs(&OperationLogListQuery {
            database_name: Some("analytics".to_owned()),
            ..OperationLogListQuery::default()
        })
        .expect("database filters");
    assert_eq!(by_database.records, vec![beta.clone()]);

    let by_schema = storage
        .list_operation_logs(&OperationLogListQuery {
            schema_name: Some("reporting".to_owned()),
            ..OperationLogListQuery::default()
        })
        .expect("schema filters");
    assert_eq!(by_schema.records, vec![beta]);

    let audit = storage
        .list_operation_logs(&OperationLogListQuery {
            operation_type: Some("SQL_AUDIT".to_owned()),
            ..OperationLogListQuery::default()
        })
        .expect("operation type filters");
    assert_eq!(audit.records, vec![gamma]);

    let escaped_search = storage
        .list_operation_logs(&OperationLogListQuery {
            search_key: Some("%_".to_owned()),
            ..OperationLogListQuery::default()
        })
        .expect("wildcards search literally");
    assert_eq!(escaped_search.records, vec![delta]);
}

#[test]
fn invalid_operation_logs_and_pages_fail_closed() {
    let mut storage = Table::open();
    let mut invalid = input("invalid", "datasource-1", "SELECT 1");
    invalid.operation_rows = Some(-1);
    assert!(matches!(
        storage
            .create_operation_log(invalid)
            .expect_err("negative operation row count must fail"),
        StorageError::InvalidOperationLog(_)
    ));

    let mut invalid = input("invalid", "datasource-1", "SELECT 1");
    invalid.use_time = Some(-1);
    assert!(matches!(
        storage
            .create_operation_log(invalid)
            .expect_err("negative duration must fail"),
        StorageError::InvalidOperationLog(_)
    ));

    let invalid_page = storage
        .list_operation_logs(&OperationLogListQuery {
            page_no: 0,
            ..OperationLogListQuery::default()
        })
        .expect_err("zero page must fail");
    assert!(matches!(invalid_page, StorageError::InvalidOperationLog(_)));
}

#[test]
fn operation_log_texts_are_bounded() {
    let mut log = input("name", "datasource-1", "SELECT 1");
    assert!(validate_operation_log(&log).is_ok());
    log.name = Some("n".repeat(513));
    assert!(matches!(
        validate_operation_log(&log),
        Err(StorageError::InvalidOperationLog(_))
    ));
    log.name = None;
    assert!(validate_operation_log(&log).is_ok());
    log.operation_type = "t".repeat(256);
    assert!(validate_operation_log(&log).is_err());
}

#[test]
fn a_page_past_the_end_is_empty_and_a_blank_key_finds_everything() {
    let mut storage = Table::open();
    let log = storage
        .create_operation_log(input("Alpha", "datasource-a", "SELECT alpha"))
        .expect("log creates");
    let page = storage
        .list_operation_logs(&OperationLogListQuery {
            page_no: 2,
            ..OperationLogListQuery::default()
        })
        .expect("page lists");
    assert!(page.records.is_empty());
    assert_eq!((page.total, page.page_no, page.page_size), (1, 2, 20));
    let blank = OperationLogListQuery {
        search_key: Some("  ".to_owned()),
        ..OperationLogListQuery::default()
    };
    assert!(matches_operation_log(&blank, &log));
    assert!(matches!(
        storage.list_operation_logs(&OperationLogListQuery {
            page_size: 1_001,
            ..OperationLogListQuery::default()
        }),
        Err(StorageError::InvalidOperationLog(_))
    ));
}
