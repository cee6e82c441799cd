use std::time::Duration;

use chat2db_storage::catalog::{catalog, CatalogOrder};
use chat2db_storage::clock::end_of_retention;
use chat2db_storage::digest::{digest_from_bytes, same_bytes, same_digest};
use chat2db_storage::json::is_json_object;
use chat2db_storage::listing::{arrange, take_page, ListOrder};
use chat2db_storage::mysql_workspace::PinnedTable;
use chat2db_storage::number::{
    from_sql_optional_u64, from_sql_u64, next_count, to_sql_i64, to_u64,
};
use chat2db_storage::query::{
    first_of_page, has_value, holds_key, is_too_long, search_pattern, trimmed_key,
};
use chat2db_storage::text::{
    contains_char, contains_key, is_blank, is_text_before, like_pattern, same_optional_text,
    same_text, strip_prefix, strip_suffix, take_tail, take_until, text_len, to_ascii_lower, trim,
};
use chat2db_storage::vault::{apply_change, is_listed, take_secret, StagedChange};
use chat2db_storage::{
    OperationLogRecord, SecretRef, SecretValue, SecretVaultError, Storage, StorageError,
};

#[test]
fn texts_are_measured_in_bytes() {
    assert_eq!(text_len(""), 0);
    assert_eq!(text_len("aé€𝄞"), 10);
}

#[test]
fn texts_are_compared_and_cut() {
    assert!(same_text("é", "é"));
    assert!(!same_text("a", "b"));
    assert!(same_optional_text(&None, &None));
    assert!(!same_optional_text(&None, &Some(String::new())));
    assert!(is_blank(" \t\n\u{2003}"));
    let white: Vec<u32> = ('\0'..=char::MAX)
        .filter(|c| is_blank(c.encode_utf8(&mut [0; 4])))
        .map(u32::from)
        .collect();
    let listed: Vec<u32> = (0x9..=0xd)
        .chain([0x20, 0x85, 0xa0, 0x1680])
        .chain(0x2000..=0x200a)
        .chain([0x2028, 0x2029, 0x202f, 0x205f, 0x3000])
        .collect();
    assert_eq!(white, listed);
    assert!(!is_blank(" a "));
    assert!(contains_char("a/b", '/'));
    assert_eq!(to_ascii_lower("AbÉ"), "abÉ");
    assert_eq!(strip_prefix("chat2db:x", "chat2db:"), Some("x"));
    assert_eq!(strip_prefix("x", "chat2db:"), None);
    assert_eq!(strip_suffix("a.part", ".part"), Some("a"));
    assert_eq!(strip_suffix("a", ".part"), None);
    assert_eq!(take_until("host/path", '/'), "host");
    assert_eq!(take_until("host", '/'), "host");
    assert_eq!(take_tail("abcd", 2), "cd");
    assert_eq!(take_tail("ab", 5), "ab");
    assert_eq!(trim("  a b\u{2003}"), "a b");
}

#[test]
fn texts_are_ordered_by_their_characters() {
    assert!(is_text_before("a", "b"));
    assert!(is_text_before("", "a"));
    assert!(is_text_before("a", "aa"));
    assert!(!is_text_before("a", "a"));
    assert!(is_text_before("Z", "a"));
    assert!(is_text_before("z", "é"));
}

#[test]
fn keys_are_found_literally_and_without_regard_to_ascii_case() {
    assert!(contains_key("Quarterly SALES", "sAlEs"));
    assert!(contains_key("100% sure", "%"));
    assert!(!contains_key("100 sure", "%"));
    assert!(!contains_key("ab", "a_"));
    assert!(!contains_key("É", "é"));
    assert_eq!(like_pattern(r"50%_\"), r"%50\%\_\\%");
}

#[test]
fn list_controls_are_read() {
    assert!(is_too_long(&Some("abc".to_owned()), 2));
    assert!(!is_too_long(&None, 2));
    assert!(has_value(&Some("a".to_owned()), &None));
    assert!(has_value(&Some("a".to_owned()), &Some("a".to_owned())));
    assert!(!has_value(&None, &Some("a".to_owned())));
    assert!(holds_key("b", &Some("abc".to_owned())));
    assert!(!holds_key("b", &None));
    assert_eq!(trimmed_key(&Some(" a ".to_owned())), Some("a"));
    assert_eq!(trimmed_key(&Some("  ".to_owned())), None);
    assert_eq!(search_pattern(&Some(" a ".to_owned())).as_deref(), Some("%a%"));
    assert_eq!(first_of_page(3, 20), 40);
}

#[test]
fn numbers_cross_the_database_only_where_they_fit() {
    assert_eq!(to_sql_i64(7, "label").expect("fits"), 7);
    assert!(matches!(to_sql_i64(u64::MAX, "label"), Err(StorageError::NumericRange("label"))));
    assert_eq!(from_sql_u64(7, "label").expect("fits"), 7);
    assert!(matches!(from_sql_u64(-1, "label"), Err(StorageError::NumericRange("label"))));
    assert_eq!(from_sql_optional_u64(None, "label").expect("fits"), None);
    assert!(from_sql_optional_u64(Some(-1), "label").is_err());
    assert_eq!(to_u64(7, "label").expect("fits"), 7);
    assert_eq!(next_count(7, "label").expect("fits"), 8);
    assert!(next_count(u64::MAX, "label").is_err());
}

#[test]
fn retention_ends_after_its_duration() {
    let end = |retention| {
        end_of_retention(&retention, 1_000, StorageError::InvalidAgent("empty"), "span", "end")
    };
    assert_eq!(end(Duration::from_millis(5)).expect("retention ends"), 1_005);
    assert!(matches!(end(Duration::ZERO), Err(StorageError::InvalidAgent("empty"))));
    assert!(matches!(
        end(Duration::from_secs(u64::MAX)),
        Err(StorageError::NumericRange("span"))
    ));
    assert!(matches!(
        end(Duration::from_millis(i64::MAX as u64)),
        Err(StorageError::NumericRange("end"))
    ));
}

#[test]
fn digests_are_thirty_two_bytes() {
    assert!(same_bytes(&[1, 2], &[1, 2]));
    assert!(!same_bytes(&[1, 2], &[1]));
    assert!(same_digest(&[7; 32], &[7; 32]));
    assert!(!same_digest(&[7; 32], &[8; 32]));
    assert_eq!(digest_from_bytes(&vec![7; 32]), Some([7; 32]));
    assert_eq!(digest_from_bytes(&vec![7; 33]), None);
}

#[test]
fn json_objects_are_told_from_other_documents() {
    assert!(is_json_object(r#"{"a":[1,2.5,null]}"#));
    assert!(!is_json_object("[]"));
    assert!(!is_json_object("{"));
    assert!(!is_json_object(""));
}

fn log(id: i64, created: i64) -> OperationLogRecord {
    OperationLogRecord {
        id,
        name: None,
        data_source_id: None,
        data_source_name: None,
        connectable: None,
        database_name: None,
        database_type: None,
        ddl: String::new(),
        status: "SUCCESS".to_owned(),
        operation_rows: None,
        use_time: None,
        extend_info: None,
        schema_name: None,
        organization_id: None,
        user_name: None,
        more: false,
        operation_type: "SQL_EXECUTE".to_owned(),
        created_at_ms: created,
        updated_at_ms: 100 - created,
    }
}

#[test]
fn lists_are_arranged_by_time_and_then_by_id() {
    let records = || vec![log(1, 5), log(2, 4), log(3, 5)];
    let ids = |order| -> Vec<i64> {
        arrange(records(), order).iter().map(|record| record.id).collect()
    };
    assert_eq!(ids(ListOrder::OldestFirst), [2, 1, 3]);
    assert_eq!(ids(ListOrder::NewestFirst), [3, 1, 2]);
    assert_eq!(ids(ListOrder::LatestChangeFirst), [2, 3, 1]);
}

#[test]
fn pages_follow_each_other() {
    let list = || vec![1, 2, 3, 4, 5];
    assert_eq!(take_page(list(), 0, 2), [1, 2]);
    assert_eq!(take_page(list(), 2, 2), [3, 4]);
    assert_eq!(take_page(list(), 4, 2), [5]);
    assert!(take_page(list(), 6, 2).is_empty());
    assert!(take_page(list(), 0, 0).is_empty());
}

#[test]
fn catalogs_are_ordered_by_rank_and_then_by_key() {
    let pin = |table: &str, created: i64| PinnedTable {
        datasource_id: String::new(),
        database_name: String::new(),
        schema_name: String::new(),
        table_name: table.to_owned(),
        created_at_ms: created,
    };
    let pins = || vec![pin("b", 2), pin("c", 1), pin("a", 2)];
    let names = |order| -> Vec<String> {
        catalog(pins(), order).into_iter().map(|pin| pin.table_name).collect()
    };
    assert_eq!(names(CatalogOrder::Ascending), ["c", "a", "b"]);
    assert_eq!(names(CatalogOrder::Descending), ["b", "a", "c"]);
}

#[test]
fn a_change_of_secret_retires_what_it_gives_up() {
    let old = SecretRef::generate();
    let new = SecretRef::generate();
    let (next, installed, retired) =
        apply_change(Some(old.clone()), StagedChange::Replace(new.clone()));
    assert_eq!((next, installed, retired), (Some(new.clone()), Some(new), Some(old.clone())));
    let (next, installed, retired) = apply_change(Some(old.clone()), StagedChange::Keep);
    assert_eq!((next, installed, retired), (Some(old.clone()), None, None));
    let (next, installed, retired) = apply_change(Some(old.clone()), StagedChange::Clear);
    assert_eq!((next, installed, retired), (None, None, Some(old)));
}

#[test]
fn cleanups_report_what_is_left() {
    assert!(is_listed(&vec!["a".to_owned()], "a"));
    assert!(!is_listed(&vec!["a".to_owned()], "b"));
    let kept = Storage::reconcile_secrets(
        vec!["a".to_owned(), "b".to_owned(), "c".to_owned()],
        &vec!["b".to_owned()],
    );
    assert_eq!(kept, ["a", "c"]);
    let cleanup = Storage::settle_secret_cleanup(
        vec!["a".to_owned(), "b".to_owned(), "c".to_owned(), "d".to_owned()],
        &vec!["b".to_owned()],
        &vec![Ok(()), Err(SecretVaultError::Unavailable), Ok(())],
    );
    assert_eq!(cleanup.deleted, ["a", "d"]);
    assert_eq!(cleanup.left, ["b", "c"]);
    assert_eq!((cleanup.report.deleted, cleanup.report.pending), (2, 2));
    let spared = Storage::settle_secret_cleanup(
        vec!["held".to_owned()],
        &vec!["held".to_owned()],
        &vec![Ok(())],
    );
    assert_eq!(spared.left, ["held"]);
    assert_eq!((spared.report.deleted, spared.report.pending), (0, 1));
    let unasked = Storage::settle_secret_cleanup(vec!["a".to_owned()], &Vec::new(), &Vec::new());
    assert_eq!((unasked.report.deleted, unasked.report.pending), (0, 1));
    assert!(matches!(
        take_secret(Err(SecretVaultError::AccessDenied)),
        Err(StorageError::SecretVault { operation: "get", source: SecretVaultError::AccessDenied })
    ));
    let found = take_secret(Ok(Some(SecretValue::new(vec![1])))).expect("secret is found");
    assert_eq!(found.expose_secret(), [1]);
}
