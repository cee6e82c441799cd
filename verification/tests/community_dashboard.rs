use chat2db_storage::community_dashboard::chart::{
    chart_name_for_create, chart_name_for_update, RawChart,
};
use chat2db_storage::community_dashboard::column::{next_modified, MAX_JSON_BYTES};
use chat2db_storage::community_dashboard::dashboard::{dashboard_search_pattern, RawDashboard};
use chat2db_storage::{
    CommunityChart, CommunityDashboard, CommunityDashboardListQuery, CommunityDashboardPage,
    CreateCommunityChartRequest, CreateCommunityDashboardRequest, Storage, StorageError,
    UpdateCommunityChartRequest, UpdateCommunityDashboardRequest,
};
use serde_json::Value;

fn json(text: &str) -> Value {
    serde_json::from_str(text).expect("test JSON parses")
}

/// Tables in memory, driven by the rules of the library.
struct Tables {
    dashboards: Vec<RawDashboard>,
    charts: Vec<RawChart>,
    next_id: i64,
    now: i64,
}

impl Tables {
    fn open() -> Tables {
        Tables { dashboards: Vec::new(), charts: Vec::new(), next_id: 0, now: 1_000 }
    }

    fn allocate(&mut self) -> i64 {
        self.next_id += 1;
        self.next_id
    }

    fn get_community_dashboard(
        &self,
        id: i64,
    ) -> Result<Option<CommunityDashboard>, StorageError> {
        let row = self.dashboards.iter().find(|row| row.id == id).cloned();
        Storage::get_community_dashboard(id, row)
    }

    fn get_community_chart(&self, id: i64) -> Result<Option<CommunityChart>, StorageError> {
        let row = self.charts.iter().find(|row| row.id == id).cloned();
        Storage::get_community_chart(id, row)
    }

    fn create_community_dashboard(
        &mut self,
        input: CreateCommunityDashboardRequest,
    ) -> Result<i64, StorageError> {
        let id = self.allocate();
        let row = Storage::create_community_dashboard(id, input, self.now)?;
        self.dashboards.push(row);
        Ok(id)
    }

    fn create_community_chart(
        &mut self,
        input: CreateCommunityChartRequest,
    ) -> Result<i64, StorageError> {
        let id = self.allocate();
        let row = Storage::create_community_chart(id, input, self.now)?;
        self.charts.push(row);
        Ok(id)
    }

    fn update_community_dashboard(
        &mut self,
        id: i64,
        input: UpdateCommunityDashboardRequest,
    ) -> Result<(), StorageError> {
        let current = self.get_community_dashboard(id)?;
        let row = Storage::update_community_dashboard(id, input, current, self.now)?;
        self.dashboards.retain(|old| old.id != id);
        self.dashboards.push(row);
        Ok(())
    }

    fn update_community_chart(
        &mut self,
        id: i64,
        input: UpdateCommunityChartRequest,
    ) -> Result<(), StorageError> {
        let current = self.get_community_chart(id)?;
        let row = Storage::update_community_chart(id, input, current, self.now)?;
        self.charts.retain(|old| old.id != id);
        self.charts.push(row);
        Ok(())
    }

    fn delete_community_dashboard(&mut self, id: i64) -> Result<bool, StorageError> {
        let stored = self.dashboards.iter().find(|row| row.id == id);
        let chart_ids_json = stored.map(|row| row.chart_ids_json.clone());
        match Storage::delete_community_dashboard(id, chart_ids_json) {
            None => Ok(false),
            Some(chart_ids) => {
                self.dashboards.retain(|row| row.id != id);
                self.charts.retain(|row| !chart_ids.contains(&row.id));
                Ok(true)
            }
        }
    }

    fn list_community_dashboards(
        &self,
        query: &CommunityDashboardListQuery,
    ) -> Result<CommunityDashboardPage, StorageError> {
        Storage::list_community_dashboards(query, self.dashboards.clone())
    }
}

fn chart(name: Option<&str>, chart_schema: Value) -> CreateCommunityChartRequest {
    CreateCommunityChartRequest {
        name: name.map(str::to_owned),
        description: Some("Revenue by region".to_owned()),
        schema: Some(r#"{"legacy":true}"#.to_owned()),
        data_source_id: Some(42),
        data_source_name: Some("Local MySQL".to_owned()),
        schema_name: Some("analytics".to_owned()),
        chart_type: Some("BAR".to_owned()),
        database_name: Some("warehouse".to_owned()),
        ddl: Some("select region, sum(amount) from sales group by region".to_owned()),
        deleted: Some("N".to_owned()),
        user_id: Some(7),
        chart_schema: Some(chart_schema),
        meta_data: Some(json(r#"{"rows": [{"region": "east", "amount": 10.50}]}"#)),
        database_info: Some(json(
            r#"{
                "dataSourceId": 42,
                "databaseName": "warehouse",
                "schemaName": "analytics",
                "sql": "select 1"
            }"#,
        )),
        refresh_type: Some("AUTO".to_owned()),
        refresh_cycle: Some(json(r#"{"unit": "seconds", "value": 30}"#)),
    }
}

#[test]
fn dashboard_and_chart_round_trip_across_restart_with_partial_updates() {
    let mut storage = Tables::open();
    let chart_id = storage
        .create_community_chart(chart(Some("  "), json(r#"{"title": "Revenue"}"#)))
        .expect("chart creates");
    let dashboard_id = storage
        .create_community_dashboard(CreateCommunityDashboardRequest {
            name: Some("Executive".to_owned()),
            description: Some("Initial description".to_owned()),
            data_source_collection_id: Some(12),
            chart_ids: vec![chart_id],
            schema: Some(r#"[{"i":"chart"}]"#.to_owned()),
            refresh_type: Some("MANUAL".to_owned()),
            refresh_cycle: Some(json(r#"{"cron": "0 * * * *"}"#)),
            user_id: Some(7),
        })
        .expect("dashboard creates");
    let before = storage
        .get_community_dashboard(dashboard_id)
        .expect("dashboard reads")
        .expect("dashboard exists");
    storage
        .update_community_dashboard(
            dashboard_id,
            UpdateCommunityDashboardRequest {
                description: Some("Updated description".to_owned()),
                ..UpdateCommunityDashboardRequest::default()
            },
        )
        .expect("dashboard updates");
    storage
        .update_community_chart(
            chart_id,
            UpdateCommunityChartRequest {
                name: Some(String::new()),
                chart_schema: Some(json(r#"{"summary": "Revenue summary"}"#)),
                ..UpdateCommunityChartRequest::default()
            },
        )
        .expect("chart updates");

    let dashboard = storage
        .get_community_dashboard(dashboard_id)
        .expect("dashboard rereads")
        .expect("dashboard survives restart");
    assert_eq!(dashboard.name.as_deref(), Some("Executive"));
    assert_eq!(dashboard.description.as_deref(), Some("Updated description"));
    assert_eq!(dashboard.chart_ids, vec![chart_id]);
    assert_eq!(dashboard.refresh_cycle, Some(json(r#"{"cron": "0 * * * *"}"#)));
    assert!(dashboard.gmt_modified > before.gmt_modified);

    let chart = storage
        .get_community_chart(chart_id)
        .expect("chart rereads")
        .expect("chart survives restart");
    assert_eq!(chart.name.as_deref(), Some("Revenue summary"));
    assert_eq!(chart.description.as_deref(), Some("Revenue by region"));
    assert_eq!(chart.chart_schema, Some(json(r#"{"summary": "Revenue summary"}"#)));
    assert_eq!(
        chart.meta_data,
        Some(json(r#"{"rows": [{"region": "east", "amount": 10.50}]}"#))
    );
    assert_eq!(
        chart.database_info.as_ref().and_then(|value| value.get("sql")),
        Some(&json(r#""select 1""#))
    );
}

#[test]
fn dashboard_list_is_modified_desc_paged_and_case_insensitive() {
    let mut storage = Tables::open();
    let first = storage
        .create_community_dashboard(CreateCommunityDashboardRequest {
            name: Some("Alpha".to_owned()),
            description: Some("Quarterly SALES".to_owned()),
            ..CreateCommunityDashboardRequest::default()
        })
        .expect("first creates");
    let second = storage
        .create_community_dashboard(CreateCommunityDashboardRequest {
            name: Some("Beta".to_owned()),
            description: Some("Operations".to_owned()),
            ..CreateCommunityDashboardRequest::default()
        })
        .expect("second creates");
    let third = storage
        .create_community_dashboard(CreateCommunityDashboardRequest {
            name: Some("Gamma".to_owned()),
            description: Some("Sales forecast".to_owned()),
            ..CreateCommunityDashboardRequest::default()
        })
        .expect("third creates");
    storage
        .update_community_dashboard(
            first,
            UpdateCommunityDashboardRequest {
                description: Some("Quarterly SALES updated".to_owned()),
                ..UpdateCommunityDashboardRequest::default()
            },
        )
        .expect("first becomes newest");

    let page = storage
        .list_community_dashboards(&CommunityDashboardListQuery {
            page_no: 1,
            page_size: 2,
            search_key: None,
        })
        .expect("page lists");
    assert_eq!(page.total, 3);
    assert_eq!(page.data.len(), 2);
    assert!(page.has_next_page);
    assert_eq!(page.data[0].id, first);
    assert_eq!(page.data[1].id, third);

    let exact_page = storage
        .list_community_dashboards(&CommunityDashboardListQuery {
            page_no: 1,
            page_size: 3,
            search_key: None,
        })
        .expect("exact boundary page lists");
    assert_eq!(exact_page.total, 3);
    assert_eq!(exact_page.data.len(), 3);
    assert!(
        exact_page.has_next_page,
        "Community WebPageResult reports another page at an exact boundary"
    );

    let search = storage
        .list_community_dashboards(&CommunityDashboardListQuery {
            search_key: Some("sAlEs".to_owned()),
            ..CommunityDashboardListQuery::default()
        })
        .expect("search lists");
    assert_eq!(search.total, 2);
    assert_eq!(search.data[0].id, first);
    assert_eq!(search.data[1].id, third);

    let literal_wildcard = storage
        .list_community_dashboards(&CommunityDashboardListQuery {
            search_key: Some("%".to_owned()),
            ..CommunityDashboardListQuery::default()
        })
        .expect("literal wildcard searches");
    assert_eq!(literal_wildcard.total, 0);
    assert_ne!(second, third);
}

#[test]
fn dashboard_delete_cascades_only_referenced_charts() {
    let mut storage = Tables::open();
    let first = storage
        .create_community_chart(chart(None, json(r#"{"title": "First"}"#)))
        .expect("first chart creates");
    let second = storage
        .create_community_chart(chart(None, json(r#"{"summary": "Second"}"#)))
        .expect("second chart creates");
    let unrelated = storage
        .create_community_chart(chart(Some("Unrelated"), json("{}")))
        .expect("unrelated chart creates");
    let dashboard = storage
        .create_community_dashboard(CreateCommunityDashboardRequest {
            chart_ids: vec![first, second, first],
            ..CreateCommunityDashboardRequest::default()
        })
        .expect("dashboard creates");

    assert!(storage
        .delete_community_dashboard(dashboard)
        .expect("dashboard deletes"));
    assert!(storage
        .get_community_dashboard(dashboard)
        .expect("dashboard absence reads")
        .is_none());
    assert!(storage
        .get_community_chart(first)
        .expect("first absence reads")
        .is_none());
    assert!(storage
        .get_community_chart(second)
        .expect("second absence reads")
        .is_none());
    assert!(storage
        .get_community_chart(unrelated)
        .expect("unrelated reads")
        .is_some());
    assert!(!storage
        .delete_community_dashboard(dashboard)
        .expect("missing delete is idempotent"));
}

#[test]
fn a_dashboard_whose_chart_list_cannot_be_read_is_deleted_alone() {
    let stored = |text: &str| Some(text.to_owned());
    assert_eq!(Storage::delete_community_dashboard(7, stored("[3,1,3]")), Some(vec![3, 1, 3]));
    assert_eq!(Storage::delete_community_dashboard(7, stored("[3,")), Some(Vec::new()));
    assert_eq!(Storage::delete_community_dashboard(7, None), None);
    assert_eq!(Storage::delete_community_dashboard(0, stored("[3]")), None);
}

#[test]
fn defaults_missing_records_and_json_limits_are_enforced() {
    let mut storage = Tables::open();
    let dashboard = storage
        .create_community_dashboard(CreateCommunityDashboardRequest::default())
        .expect("default dashboard creates");
    assert!(storage
        .get_community_dashboard(dashboard)
        .expect("dashboard reads")
        .expect("dashboard exists")
        .chart_ids
        .is_empty());
    assert!(storage
        .get_community_dashboard(9_999_999)
        .expect("missing dashboard reads")
        .is_none());
    assert!(storage
        .get_community_chart(9_999_999)
        .expect("missing chart reads")
        .is_none());
    assert!(matches!(
        storage.update_community_dashboard(9_999_999, UpdateCommunityDashboardRequest::default()),
        Err(StorageError::CommunityDashboardNotFound(9_999_999))
    ));
    assert!(matches!(
        storage.update_community_chart(9_999_999, UpdateCommunityChartRequest::default()),
        Err(StorageError::CommunityChartNotFound(9_999_999))
    ));

    let oversized = "x".repeat(MAX_JSON_BYTES + 1);
    let error = storage
        .create_community_chart(CreateCommunityChartRequest {
            chart_schema: Some(json(&format!(r#"{{"value": "{oversized}"}}"#))),
            ..CreateCommunityChartRequest::default()
        })
        .expect_err("oversized JSON is rejected");
    assert!(matches!(error, StorageError::InvalidCommunityChart(_)));
}

#[test]
fn chart_names_fall_back_to_the_title_or_the_summary() {
    let titled = Some(json(r#"{"title": "Title", "summary": "Summary"}"#));
    assert_eq!(chart_name_for_create(None, &titled).as_deref(), Some("Title"));
    assert_eq!(
        chart_name_for_create(Some("Own".to_owned()), &titled).as_deref(),
        Some("Own")
    );
    let unnamed = Some(json(r#"{"title": " "}"#));
    assert_eq!(
        chart_name_for_update(None, &unnamed, Some("Old".to_owned())).as_deref(),
        Some("Old")
    );
}

#[test]
fn a_change_always_moves_the_time_forward() {
    assert_eq!(next_modified(1_000, 900).expect("time advances"), 1_001);
    assert_eq!(next_modified(1_000, 2_000).expect("time advances"), 2_000);
    assert!(next_modified(i64::MAX, 0).is_err());
}

#[test]
fn search_patterns_escape_wildcards() {
    assert_eq!(
        dashboard_search_pattern(&Some(r"50%_\".to_owned())).as_deref(),
        Some(r"%50\%\_\\%")
    );
    assert_eq!(dashboard_search_pattern(&Some("  ".to_owned())), None);
    assert_eq!(dashboard_search_pattern(&None), None);
}

#[test]
fn a_chart_is_deleted_once() {
    assert!(Storage::delete_community_chart(7, true));
    assert!(!Storage::delete_community_chart(7, false));
    assert!(!Storage::delete_community_chart(0, true));
}

#[test]
fn damaged_columns_fail_closed() {
    let mut storage = Tables::open();
    let id = storage
        .create_community_dashboard(CreateCommunityDashboardRequest::default())
        .expect("dashboard creates");
    storage.dashboards[0].chart_ids_json = "[1,".to_owned();
    assert!(matches!(
        storage.get_community_dashboard(id),
        Err(StorageError::Integrity(_))
    ));
    let id = storage
        .create_community_chart(chart(None, json("{}")))
        .expect("chart creates");
    storage.charts[0].meta_data_json = Some("{".to_owned());
    assert!(matches!(
        storage.get_community_chart(id),
        Err(StorageError::Integrity(_))
    ));
}

#[test]
fn documents_read_back_as_deep_as_they_can_be_read() {
    let mut tables = Tables::open();
    let nested = |levels: usize| (0..levels).fold(json("7"), |value, _| Value::Array(vec![value]));
    let flat = json(r#"{"é\"\\":[-9223372036854775808,18446744073709551615,null,true],"a":"\u0000"}"#);
    for document in [flat, nested(127)] {
        let id = tables
            .create_community_chart(chart(Some("Revenue"), document.clone()))
            .expect("chart creates");
        let read = tables.get_community_chart(id).expect("chart reads").expect("chart exists");
        assert_eq!(read.chart_schema, Some(document));
    }
    let id = tables
        .create_community_chart(chart(Some("Revenue"), nested(128)))
        .expect("chart creates");
    assert!(matches!(
        tables.get_community_chart(id),
        Err(StorageError::Integrity("persisted Community chartSchema JSON is invalid"))
    ));
}
