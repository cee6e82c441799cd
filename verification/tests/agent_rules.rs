use std::time::Duration;

use chat2db_storage::agent::content::{
    judge_message, normalize_message_json, text_message_json, valid_contract_tool_call, validate_message_role,
    write_message,
};
use chat2db_storage::agent::handle::ObservedResult;
use chat2db_storage::agent::message::SessionMessages;
use chat2db_storage::agent::permission::{validate_permission_request, PermissionOutcome};
use chat2db_storage::agent::progress::{
    validate_progress_values, validate_safe_error, InitiatingMessages, RunProgress,
};
use chat2db_storage::agent::recovery::ObservedHandle;
use chat2db_storage::agent::rows::{decode_run, decode_session, encode_run, RawSession};
use chat2db_storage::agent::run::CoverageRow;
use chat2db_storage::agent::session::{validate_session_title, SessionReferences};
use chat2db_storage::agent::visibility::{MessageElement, MessageFacts};
use chat2db_storage::{
    AgentMessageContent, AgentMessageRole, AgentResultHandle, AgentRunMessage, AgentRunRecord,
    AgentRunStatus, AgentRunUpdate, AgentToolCall, AgentToolOutput, AppendAgentMessage,
    CancelAgentRun, CompleteAgentRun, CreateAgentSession, FailAgentRun, RequestToolPermission,
    SqlPermissionMode, StartAgentRun, Storage, StorageError, ToolPermissionDecision,
    ToolPermissionRecord, ToolPermissionStatus, MAX_AGENT_MESSAGES_PER_SESSION,
};

const TEXT: &str = r#"[{"type":"text","text":"hello"}]"#;

fn refused(content: &str) -> StorageError {
    match normalize_message_json(content) {
        Err(error) => error,
        Ok(_) => panic!("message is refused"),
    }
}

#[test]
fn messages_are_brought_to_their_canonical_form() {
    let message = normalize_message_json(r#" [ {"text":"hello", "type":"text"} ] "#)
        .expect("message normalizes");
    assert_eq!(message.content_json, TEXT);
    let again = normalize_message_json(&message.content_json).expect("message normalizes");
    assert_eq!(again.content_json, TEXT);

    let escaped = normalize_message_json("[{\"type\":\"text\",\"text\":\"\\u00e9\\n\\\"\"}]")
        .expect("message normalizes");
    assert_eq!(escaped.content_json, "[{\"type\":\"text\",\"text\":\"é\\n\\\"\"}]");
}

#[test]
fn written_blocks_read_back() {
    let blocks = vec![
        AgentMessageContent::Text { text: "done".to_owned() },
        AgentMessageContent::ToolCalls {
            calls: vec![AgentToolCall {
                id: "call-1".to_owned(),
                name: "query".to_owned(),
                arguments_json: "{}".to_owned(),
            }],
        },
        AgentMessageContent::ToolResult {
            tool_call_id: "call-1".to_owned(),
            name: "query".to_owned(),
            output: AgentToolOutput { content: "ok".to_owned(), truncated: true },
        },
    ];
    let written = write_message(&blocks);
    assert_eq!(
        written,
        "[{\"type\":\"text\",\"text\":\"done\"},\
         {\"type\":\"tool_calls\",\"calls\":[{\"id\":\"call-1\",\"name\":\"query\",\"argumentsJson\":\"{}\"}]},\
         {\"type\":\"tool_result\",\"toolCallId\":\"call-1\",\"name\":\"query\",\
         \"output\":{\"type\":\"text\",\"content\":\"ok\",\"truncated\":true}}]"
    );
    let read = normalize_message_json(&written).expect("message normalizes");
    assert_eq!(read.content_json, written);
}

#[test]
fn messages_that_are_no_visible_arrays_are_refused() {
    assert!(matches!(
        refused(""),
        StorageError::AgentQuotaExceeded { resource: "single message bytes", .. }
    ));
    for content in ["{}", "[", "null", "[1]", r#"[{"type":"image"}]"#] {
        assert!(matches!(refused(content), StorageError::InvalidAgent(_)), "{content}");
    }
    for hidden in [
        "hidden_reasoning",
        "Reasoning_Content",
        "raw_provider_delta",
        "rows",
        "result_rows",
        "full_result",
        "API_KEY",
        "authorization",
    ] {
        let content = format!(r#"[{{"type":"text","text":"ok","inner":{{"{hidden}":1}}}}]"#);
        assert!(matches!(
            refused(&content),
            StorageError::InvalidAgent(
                "message must be a strict visible JSON array without hidden reasoning or raw deltas"
            )
        ));
    }
}

#[test]
fn text_messages_need_text() {
    assert_eq!(text_message_json("hello").expect("text writes").content_json, TEXT);
    assert!(matches!(
        text_message_json("  "),
        Err(StorageError::InvalidAgent("agent text message must be non-empty"))
    ));
}

#[test]
fn tool_calls_carry_an_object() {
    let call = |id: &str, name: &str, arguments: &str| AgentToolCall {
        id: id.to_owned(),
        name: name.to_owned(),
        arguments_json: arguments.to_owned(),
    };
    assert!(valid_contract_tool_call(&call("1", "query", r#"{"sql":"select 1"}"#)));
    assert!(!valid_contract_tool_call(&call("", "query", "{}")));
    assert!(!valid_contract_tool_call(&call("1", "", "{}")));
    assert!(!valid_contract_tool_call(&call("1", "query", "[]")));
    assert!(!valid_contract_tool_call(&call("1", "query", "not json")));
}

#[test]
fn roles_admit_their_blocks() {
    let text = vec![AgentMessageContent::Text { text: "hello".to_owned() }];
    for role in [
        AgentMessageRole::System,
        AgentMessageRole::User,
        AgentMessageRole::Assistant,
        AgentMessageRole::Summary,
    ] {
        assert!(validate_message_role(role, &text).is_ok());
    }
    assert!(matches!(
        validate_message_role(AgentMessageRole::Tool, &text),
        Err(StorageError::InvalidAgent("message content blocks do not match the persisted role"))
    ));
    assert!(validate_message_role(AgentMessageRole::User, &Vec::new()).is_err());
}

#[test]
fn persisted_names_read_back() {
    for name in ["system", "user", "assistant", "tool", "summary"] {
        assert_eq!(AgentMessageRole::from_persisted(name).expect("role reads").as_str(), name);
    }
    for name in ["running", "waiting_permission", "completed", "failed", "cancelled"] {
        assert_eq!(AgentRunStatus::from_persisted(name).expect("status reads").as_str(), name);
    }
    for name in ["pending", "approved", "denied", "consumed", "expired", "revoked"] {
        assert_eq!(
            ToolPermissionStatus::from_persisted(name).expect("status reads").as_str(),
            name
        );
    }
    assert!(AgentMessageRole::from_persisted("owner").is_err());
    assert!(AgentRunStatus::from_persisted("paused").is_err());
    assert!(SqlPermissionMode::from_persisted("all").is_err());
    assert!(ToolPermissionStatus::from_persisted("").is_err());
    assert_eq!(SqlPermissionMode::default(), SqlPermissionMode::ReadOnly);
}

#[test]
fn ended_runs_stay_ended() {
    for status in [AgentRunStatus::Completed, AgentRunStatus::Failed, AgentRunStatus::Cancelled] {
        assert!(status.is_terminal());
        assert!(!status.can_transition_to(AgentRunStatus::Running));
        assert!(!status.can_transition_to(status));
    }
    assert!(AgentRunStatus::Running.can_transition_to(AgentRunStatus::WaitingPermission));
    assert!(AgentRunStatus::WaitingPermission.can_transition_to(AgentRunStatus::Running));
    assert!(!AgentRunStatus::WaitingPermission.can_transition_to(AgentRunStatus::Completed));
}

fn progress() -> RunProgress {
    RunProgress {
        last_sequence: 1,
        model_rounds: 0,
        tool_calls: 0,
        input_tokens: 2,
        output_tokens: 3,
        total_tokens: 5,
        compaction_count: 0,
        compacted_through_ordinal: None,
    }
}

#[test]
fn progress_values_are_consistent() {
    assert!(validate_progress_values(progress()).is_ok());
    assert!(matches!(
        validate_progress_values(RunProgress { last_sequence: 0, ..progress() }),
        Err(StorageError::InvalidAgent("agent event sequence must be greater than zero"))
    ));
    assert!(matches!(
        validate_progress_values(RunProgress { total_tokens: 4, ..progress() }),
        Err(StorageError::InvalidAgent(_))
    ));
    assert!(matches!(
        validate_progress_values(RunProgress { compaction_count: 1, ..progress() }),
        Err(StorageError::InvalidAgent(_))
    ));
    assert!(matches!(
        validate_progress_values(RunProgress { model_rounds: u64::MAX, ..progress() }),
        Err(StorageError::NumericRange(_))
    ));
}

#[test]
fn run_errors_are_bounded() {
    assert!(validate_safe_error("provider_error", &None).is_ok());
    assert!(validate_safe_error("", &None).is_err());
    assert!(validate_safe_error(&"c".repeat(129), &None).is_err());
    assert!(validate_safe_error("code", &Some("m".repeat(4_097))).is_err());
}

#[test]
fn session_titles_are_bounded() {
    assert!(validate_session_title("Session").is_ok());
    assert!(validate_session_title(" ").is_err());
    assert!(validate_session_title(&"t".repeat(512)).is_ok());
    assert!(validate_session_title(&"t".repeat(513)).is_err());
}

fn session() -> CreateAgentSession {
    CreateAgentSession {
        title: "Session".to_owned(),
        provider_id: "provider".to_owned(),
        datasource_id: Some("datasource".to_owned()),
        system_prompt: None,
    }
}

#[test]
fn sessions_refer_to_what_exists() {
    let create = |provider_exists, datasource_exists| {
        Storage::create_agent_session(
            session(),
            SessionReferences { provider_exists, datasource_exists },
            "session".to_owned(),
            &"message".to_owned(),
            1,
        )
    };
    assert!(matches!(
        create(false, true),
        Err(StorageError::ProviderNotFound(id)) if id == "provider"
    ));
    assert!(matches!(
        create(true, false),
        Err(StorageError::DatasourceNotFound(id)) if id == "datasource"
    ));
    let created = create(true, true).expect("session creates");
    assert_eq!((created.session.revision, created.session.created_at_ms), (1, 1));
    assert!(created.system_message.is_none());
}

fn totals(count: i64) -> SessionMessages {
    SessionMessages {
        session_exists: true,
        run_owned: true,
        count,
        bytes: count * 32,
        maximum: if count == 0 { None } else { Some(count - 1) },
    }
}

fn started() -> AgentRunRecord {
    Storage::start_agent_run(
        &"session".to_owned(),
        StartAgentRun {
            user_message: "hello".to_owned(),
            sql_permission_mode: SqlPermissionMode::AskBeforeWrite,
        },
        false,
        totals(0),
        "run".to_owned(),
        &"message".to_owned(),
        1_000,
    )
    .expect("run starts")
    .run
}

const INITIATING: InitiatingMessages = InitiatingMessages { count: 1, ordinal: Some(0) };

#[test]
fn messages_of_a_missing_or_full_session_are_refused() {
    let append = |totals| {
        Storage::append_agent_message(
            &"session".to_owned(),
            AppendAgentMessage {
                role: AgentMessageRole::User,
                summary_through_ordinal: None,
                content_json: TEXT.to_owned(),
            },
            false,
            totals,
            &"message".to_owned(),
            1,
        )
    };
    let missing = SessionMessages { session_exists: false, ..totals(0) };
    assert!(matches!(append(missing), Err(StorageError::AgentSessionNotFound(_))));
    let full = totals(MAX_AGENT_MESSAGES_PER_SESSION as i64);
    assert!(matches!(
        append(full),
        Err(StorageError::AgentQuotaExceeded { resource: "session message count", .. })
    ));
    let message = append(totals(3)).expect("message appends");
    assert_eq!((message.ordinal, message.content_bytes), (3, TEXT.len() as u64));
}

#[test]
fn a_message_brings_its_session_to_the_front() {
    let created = Storage::create_agent_session(
        CreateAgentSession { datasource_id: None, ..session() },
        SessionReferences { provider_exists: true, datasource_exists: false },
        "session".to_owned(),
        &"message".to_owned(),
        1,
    )
    .expect("session creates")
    .session;
    let message = Storage::append_agent_message(
        &"session".to_owned(),
        AppendAgentMessage {
            role: AgentMessageRole::User,
            summary_through_ordinal: None,
            content_json: TEXT.to_owned(),
        },
        false,
        totals(0),
        &"message".to_owned(),
        9,
    )
    .expect("message appends");
    let dated = Storage::date_agent_session(created.clone(), &vec![message]);
    assert_eq!((dated.updated_at_ms, dated.revision), (9, 1));
    assert_eq!(Storage::date_agent_session(created.clone(), &Vec::new()), created);
}

#[test]
fn message_pages_are_bounded() {
    let list = |limit, exists| {
        Storage::list_agent_messages(&"session".to_owned(), 0, limit, exists, Vec::new())
    };
    assert!(matches!(list(0, true), Err(StorageError::InvalidAgent(_))));
    assert!(matches!(list(513, true), Err(StorageError::InvalidAgent(_))));
    assert!(matches!(list(1, false), Err(StorageError::AgentSessionNotFound(_))));
    assert!(list(512, true).expect("page lists").is_empty());
}

#[test]
fn sessions_are_listed_with_the_last_updated_first() {
    let row = |id: &str, updated: i64| RawSession {
        id: id.to_owned(),
        title: "Session".to_owned(),
        provider_id: "provider".to_owned(),
        datasource_id: None,
        revision: 1,
        created_at_ms: 0,
        updated_at_ms: updated,
    };
    let listed = Storage::list_agent_sessions(vec![row("a", 1), row("b", 2), row("c", 1)])
        .expect("sessions list");
    let ids: Vec<&str> = listed.iter().map(|session| session.id.as_str()).collect();
    assert_eq!(ids, ["b", "c", "a"]);
    let mut broken = row("d", 1);
    broken.revision = -1;
    assert!(matches!(
        decode_session(broken),
        Err(StorageError::NumericRange("agent session revision"))
    ));
}

#[test]
fn a_run_advances_only_from_the_state_its_caller_saw() {
    let update = |last_sequence| AgentRunUpdate {
        status: AgentRunStatus::Running,
        last_sequence,
        model_rounds: 1,
        tool_calls: 0,
        input_tokens: 1,
        output_tokens: 1,
        total_tokens: 2,
        compaction_count: 0,
        compacted_through_ordinal: None,
    };
    let id = "run".to_owned();
    let updated = Storage::update_agent_run(
        &id,
        AgentRunStatus::Running,
        update(2),
        Some(started()),
        INITIATING,
        2_000,
    )
    .expect("run advances");
    assert_eq!((updated.last_sequence, updated.model_rounds, updated.updated_at_ms), (2, 1, 2_000));
    assert!(matches!(
        Storage::update_agent_run(
            &id,
            AgentRunStatus::WaitingPermission,
            update(2),
            Some(started()),
            INITIATING,
            2_000
        ),
        Err(StorageError::AgentStateConflict {
            expected: "waiting_permission",
            actual: "running",
            ..
        })
    ));
    assert!(matches!(
        Storage::update_agent_run(
            &id,
            AgentRunStatus::Running,
            update(2),
            None,
            INITIATING,
            2_000
        ),
        Err(StorageError::AgentRunNotFound(id)) if id == "run"
    ));
    assert!(matches!(
        Storage::update_agent_run(
            &id,
            AgentRunStatus::Running,
            update(1),
            Some(updated),
            INITIATING,
            2_001
        ),
        Err(StorageError::InvalidAgent(_))
    ));
}

#[test]
fn a_completed_run_ends_with_an_assistant_message() {
    let complete = |messages| {
        Storage::complete_agent_run(
            &"run".to_owned(),
            AgentRunStatus::Running,
            CompleteAgentRun {
                last_sequence: 2,
                model_rounds: 1,
                tool_calls: 0,
                input_tokens: 0,
                output_tokens: 0,
                total_tokens: 0,
                messages,
                compaction_count: 0,
                compacted_through_ordinal: None,
            },
            Some(started()),
            INITIATING,
            totals(1),
            &vec!["answer".to_owned()],
            Vec::new(),
            3_000,
        )
    };
    assert!(matches!(
        complete(Vec::new()),
        Err(StorageError::InvalidAgent("completed agent run requires a final assistant message"))
    ));
    let ended = complete(vec![AgentRunMessage {
        role: AgentMessageRole::Assistant,
        summary_through_ordinal: None,
        content_json: TEXT.to_owned(),
    }])
    .expect("run completes");
    assert_eq!(ended.outcome.run.message_id.as_deref(), Some("answer"));
    assert_eq!(ended.outcome.run.finished_at_ms, Some(3_000));
    assert_eq!(ended.outcome.messages[0].ordinal, 1);
    assert!(ended.revoked.is_empty());
}

#[test]
fn a_run_is_cancelled_only_on_request() {
    let cancel = || CancelAgentRun {
        last_sequence: 2,
        model_rounds: 0,
        tool_calls: 0,
        input_tokens: 0,
        output_tokens: 0,
        total_tokens: 0,
        messages: Vec::new(),
        compaction_count: 0,
        compacted_through_ordinal: None,
    };
    let finish = |run| {
        Storage::finish_cancelled_agent_run(
            &"run".to_owned(),
            AgentRunStatus::Running,
            cancel(),
            Some(run),
            INITIATING,
            totals(1),
            &Vec::new(),
            3_000,
        )
    };
    assert!(matches!(finish(started()), Err(StorageError::InvalidAgent(_))));
    let requested = Storage::request_agent_run_cancellation(
        &"run".to_owned(),
        Some(started()),
        Vec::new(),
        2_000,
    )
    .expect("cancellation requests");
    let cancelled = finish(requested.outcome).expect("run cancels");
    assert_eq!(cancelled.run.status, AgentRunStatus::Cancelled);
}

fn request(last_sequence: u64) -> RequestToolPermission {
    RequestToolPermission {
        tool_call_id: "call".to_owned(),
        tool_name: "sql_write".to_owned(),
        arguments_sha256: [7; 32],
        summary: "Execute one SQL write".to_owned(),
        last_sequence,
        retention: Duration::from_secs(60),
    }
}

fn permission() -> (ToolPermissionRecord, AgentRunRecord) {
    let step = Storage::create_tool_permission(
        &"run".to_owned(),
        request(2),
        Some(started()),
        "permission".to_owned(),
        2_000,
    )
    .expect("permission creates");
    let run = step.run.expect("run waits");
    (step.permission, run)
}

#[test]
fn permission_requests_are_bounded() {
    assert!(validate_permission_request(&request(2)).is_ok());
    for broken in [
        RequestToolPermission { tool_call_id: String::new(), ..request(2) },
        RequestToolPermission { tool_name: "n".repeat(513), ..request(2) },
        RequestToolPermission { summary: "s".repeat(4_097), ..request(2) },
    ] {
        assert!(matches!(
            validate_permission_request(&broken),
            Err(StorageError::InvalidAgent(_))
        ));
    }
    let zero = RequestToolPermission { retention: Duration::ZERO, ..request(2) };
    assert!(matches!(
        Storage::create_tool_permission(
            &"run".to_owned(),
            zero,
            Some(started()),
            "permission".to_owned(),
            2_000
        ),
        Err(StorageError::InvalidAgent("tool permission retention must be greater than zero"))
    ));
    let (created, run) = permission();
    assert_eq!(created.expires_at_ms, 62_000);
    assert_eq!(created.status, ToolPermissionStatus::Pending);
    assert_eq!(run.status, AgentRunStatus::WaitingPermission);
}

#[test]
fn a_read_only_run_asks_for_no_permission() {
    let mut run = started();
    run.sql_permission_mode = SqlPermissionMode::ReadOnly;
    assert!(Storage::create_tool_permission(
        &"run".to_owned(),
        request(2),
        Some(run),
        "permission".to_owned(),
        2_000
    )
    .is_err());
}

#[test]
fn decisions_need_the_revision_that_was_seen() {
    let (created, run) = permission();
    let decide = |id: &str, revision, permission| {
        Storage::decide_tool_permission(
            &id.to_owned(),
            revision,
            &"run".to_owned(),
            &"call".to_owned(),
            [7; 32],
            3,
            ToolPermissionDecision::Approve,
            permission,
            Some(run.clone()),
            3_000,
        )
    };
    assert!(matches!(
        decide("permission", 9, Some(created.clone())),
        Err(StorageError::PermissionRevisionConflict { expected: 9, actual: Some(1), .. })
    ));
    assert!(matches!(
        decide("permission", 1, None),
        Err(StorageError::PermissionNotFound(id)) if id == "permission"
    ));
    match decide("permission", 1, Some(created)).expect("permission approves") {
        PermissionOutcome::Done(step) => {
            assert_eq!(step.permission.status, ToolPermissionStatus::Approved);
            assert_eq!(step.permission.revision, 2);
        }
        PermissionOutcome::Lapsed(_, _) => panic!("permission is live"),
    }
}

#[test]
fn a_lapsed_permission_is_written_down_as_expired() {
    let (created, run) = permission();
    match Storage::decide_tool_permission(
        &"permission".to_owned(),
        1,
        &"run".to_owned(),
        &"call".to_owned(),
        [7; 32],
        3,
        ToolPermissionDecision::Approve,
        Some(created),
        Some(run),
        62_000,
    )
    .expect("permission is found")
    {
        PermissionOutcome::Lapsed(step, error) => {
            assert_eq!(step.permission.status, ToolPermissionStatus::Expired);
            assert!(matches!(error, StorageError::PermissionNotExecutable { .. }));
        }
        PermissionOutcome::Done(_) => panic!("permission has lapsed"),
    }
}

fn handle(retention: Duration, observed: Option<ObservedResult>) -> Result<AgentResultHandle, StorageError> {
    Storage::create_agent_result_handle(
        &"session".to_owned(),
        &"run".to_owned(),
        &"result".to_owned(),
        retention,
        Some("session".to_owned()),
        observed,
        "handle".to_owned(),
        1_000,
    )
}

#[test]
fn a_handle_never_outlives_its_result() {
    let live = ObservedResult { complete: true, expires_at_ms: 5_000 };
    let created = handle(Duration::from_secs(60), Some(live)).expect("handle creates");
    assert_eq!(created.expires_at_ms, 5_000);
    let short = handle(Duration::from_secs(1), Some(live)).expect("handle creates");
    assert_eq!(short.expires_at_ms, 2_000);
    assert!(matches!(
        handle(Duration::ZERO, Some(live)),
        Err(StorageError::InvalidAgent("result handle retention must be greater than zero"))
    ));
    assert!(matches!(
        handle(Duration::from_secs(1), None),
        Err(StorageError::ResultNotFound(id)) if id == "result"
    ));
    let unfinished = ObservedResult { complete: false, ..live };
    assert!(matches!(
        handle(Duration::from_secs(1), Some(unfinished)),
        Err(StorageError::ResultNotFound(_))
    ));
    let purged = Storage::purge_expired_agent_result_handles(vec![created, short], 2_000);
    assert_eq!(purged.len(), 1);
}

#[test]
fn a_second_recovery_finds_nothing_to_do() {
    let (created, run) = permission();
    let live = ObservedResult { complete: true, expires_at_ms: 5_000 };
    let kept = handle(Duration::from_secs(1), Some(live)).expect("handle creates");
    let first = Storage::recover_agents_at(
        vec![run],
        vec![created],
        vec![ObservedHandle { handle: kept.clone(), result: Some(live) }],
        1_500,
    );
    assert_eq!(first.report.runs_failed, 1);
    assert_eq!(first.report.permissions_revoked, 1);
    assert_eq!(first.report.result_handles_removed, 0);
    assert_eq!(first.runs[0].error_code.as_deref(), Some("runtime_restarted"));
    let second = Storage::recover_agents_at(
        first.runs,
        first.permissions,
        vec![ObservedHandle { handle: kept, result: Some(live) }],
        1_600,
    );
    assert!(second.runs.is_empty());
    assert!(second.permissions.is_empty());
    assert!(second.handles.is_empty());
}

#[test]
fn printable_forms_show_lengths_in_place_of_texts() {
    let failure = FailAgentRun {
        last_sequence: 4,
        model_rounds: 1,
        tool_calls: 1,
        input_tokens: 1,
        output_tokens: 1,
        total_tokens: 2,
        error_code: "provider_error".to_owned(),
        error_message: Some("four".to_owned()),
        messages: vec![AgentRunMessage {
            role: AgentMessageRole::Assistant,
            summary_through_ordinal: None,
            content_json: "[]".to_owned(),
        }],
        compaction_count: 0,
        compacted_through_ordinal: None,
    };
    assert_eq!(
        format!("{:?}", failure.redacted()),
        "FailAgentRun { last_sequence: 4, model_rounds: 1, tool_calls: 1, input_tokens: 1, \
         output_tokens: 1, total_tokens: 2, error_code: \"provider_error\", \
         error_message_bytes: 4, messages: [AgentRunMessage { role: Assistant, \
         summary_through_ordinal: None, content_json_bytes: 2 }], compaction_count: 0, \
         compacted_through_ordinal: None }"
    );
    let create = CreateAgentSession {
        system_prompt: Some("geheim".to_owned()),
        datasource_id: None,
        ..session()
    };
    assert_eq!(
        format!("{:?}", create.redacted()),
        "CreateAgentSession { title_bytes: 7, provider_id: \"provider\", datasource_id: None, \
         system_prompt_bytes: 6 }"
    );
}

#[test]
fn run_rows_read_back_and_broken_ones_fail_closed() {
    let mut run = started();
    run.write_in_flight_tool_call_id = Some("call".to_owned());
    run.write_in_flight_arguments_sha256 = Some([9; 32]);
    let raw = encode_run(&run).expect("run encodes");
    assert!(decode_run(raw.clone()).expect("run decodes") == run);
    let mut broken = raw.clone();
    broken.write_in_flight_arguments_sha256 = Some(vec![9; 31]);
    assert!(matches!(
        decode_run(broken),
        Err(StorageError::InvalidAgent("database write argument digest is invalid"))
    ));
    let mut broken = raw;
    broken.status = "paused".to_owned();
    assert!(matches!(
        decode_run(broken),
        Err(StorageError::InvalidAgent("persisted run status is invalid"))
    ));
}

const NOT_VISIBLE: &str =
    "message must be a strict visible JSON array without hidden reasoning or raw deltas";
const NO_CONTRACT: &str = "message content does not match the canonical contract";

#[test]
fn repeated_members_are_judged_as_they_are_written() {
    for content in [
        r#"[{"type":"bogus","type":"text","text":"x"}]"#,
        r#"[{"type":"text","text":{"rows":1},"text":"x"}]"#,
        r#"[{"\u0074ype":"bogus","type":"text","text":"x"}]"#,
    ] {
        let StorageError::InvalidAgent(reason) = refused(content) else {
            panic!("{content}");
        };
        assert_eq!(reason, NOT_VISIBLE, "{content}");
    }
    let last = normalize_message_json(r#"[{"type":"text","text":"a","text":"hello"}]"#)
        .expect("the last member counts");
    assert_eq!(last.content_json, TEXT);
}

#[test]
fn elements_that_are_no_objects_are_refused_in_order() {
    for content in [r#"["abc"]"#, r#"[null,"abc",1]"#] {
        assert!(
            matches!(refused(content), StorageError::Sqlite("malformed JSON")),
            "{content}"
        );
    }
    for (content, expected) in [
        (r#"[1,"abc"]"#, NOT_VISIBLE),
        (r#"["[1]"]"#, NOT_VISIBLE),
        (r#"["{\"type\":\"image\"}"]"#, NOT_VISIBLE),
        (r#"{"a":"abc"}"#, NOT_VISIBLE),
        ("[]", NOT_VISIBLE),
        ("[{type:'text'}]", NOT_VISIBLE),
        (r#"["{\"type\":\"text\"}"]"#, NO_CONTRACT),
        ("[null]", NO_CONTRACT),
        (r#"[{"type":"text","text":1e999}]"#, NO_CONTRACT),
        (r#"[{"type":"text","text":"\ud800"}]"#, NO_CONTRACT),
    ] {
        let StorageError::InvalidAgent(reason) = refused(content) else {
            panic!("{content}");
        };
        assert_eq!(reason, expected, "{content}");
    }
}

#[test]
fn messages_are_judged_by_what_is_read_of_them() {
    let value = serde_json::from_str(TEXT).ok();
    let facts = |kind: &str, elements: Vec<MessageElement>, keys: &[&str]| {
        Some(MessageFacts {
            kind: kind.to_owned(),
            elements,
            keys: keys.iter().map(|key| Some((*key).to_owned())).collect(),
        })
    };
    let block = |label: Option<&str>| MessageElement::Value {
        kind: "object".to_owned(),
        label: label.map(str::to_owned),
    };
    let shown = facts("array", vec![block(Some("text"))], &["0", "type", "text"]);
    let message = judge_message(40, &shown, &value).expect("message is accepted");
    assert_eq!(message.content_json, TEXT);
    assert_eq!(message.content_bytes, 32);
    assert!(judge_message(40, &facts("array", vec![block(None)], &[]), &value).is_ok());
    assert!(matches!(
        judge_message(0, &shown, &value),
        Err(StorageError::AgentQuotaExceeded { limit: 262_144, .. })
    ));
    assert!(judge_message(262_144, &shown, &value).is_ok());
    assert!(judge_message(262_145, &shown, &value).is_err());
    for unseen in [
        None,
        facts("object", vec![block(None)], &[]),
        facts("array", Vec::new(), &[]),
        facts("array", vec![block(Some("image"))], &[]),
        facts("array", vec![block(None)], &["Rows"]),
    ] {
        assert!(matches!(
            judge_message(40, &unseen, &value),
            Err(StorageError::InvalidAgent(reason)) if reason == NOT_VISIBLE
        ));
    }
    let broken = facts("array", vec![MessageElement::Null, MessageElement::Malformed], &["rows"]);
    assert!(matches!(
        judge_message(40, &broken, &value),
        Err(StorageError::Sqlite("malformed JSON"))
    ));
    assert!(matches!(
        judge_message(40, &shown, &None),
        Err(StorageError::InvalidAgent(reason)) if reason == NO_CONTRACT
    ));
    assert!(matches!(
        judge_message(40, &shown, &serde_json::from_str("[]").ok()),
        Err(StorageError::InvalidAgent(reason)) if reason == NOT_VISIBLE
    ));
}

#[test]
fn canonical_messages_stay_as_they_are() {
    for text in ["hello", "\u{0}\u{8}\u{c}\u{1f}\"\\/\u{7f}é", "rows", "{\"rows\":1}"] {
        let written = text_message_json(text).expect("text writes");
        let again = normalize_message_json(&written.content_json).expect("message normalizes");
        assert_eq!(again.content_json, written.content_json);
        assert_eq!(again.content_bytes, written.content_bytes);
    }
    assert_eq!(
        text_message_json("\u{0}\u{8}\u{c}\u{1f}\"\\/\u{7f}").expect("text writes").content_json,
        "[{\"type\":\"text\",\"text\":\"\\u0000\\b\\f\\u001f\\\"\\\\/\u{7f}\"}]"
    );
}

#[test]
fn session_coverage_is_the_largest_of_the_session() {
    let row = |session_id: &str, ordinal: Option<i64>| CoverageRow {
        session_id: session_id.to_owned(),
        ordinal,
    };
    let id = "session".to_owned();
    let covered = |exists: bool, rows: Vec<CoverageRow>| {
        let coverage = Storage::gather_session_coverage(&id, exists, &rows);
        Storage::get_agent_session_compaction_coverage(&id, coverage)
    };
    assert!(matches!(
        covered(false, vec![row("session", Some(1))]),
        Err(StorageError::AgentSessionNotFound(missing)) if missing == "session"
    ));
    assert_eq!(covered(true, Vec::new()).expect("coverage reads"), None);
    assert_eq!(
        covered(true, vec![row("session", None), row("other", Some(9))]).expect("coverage reads"),
        None
    );
    let rows = vec![
        row("session", Some(2)),
        row("session", Some(7)),
        row("other", Some(9)),
        row("session", None),
        row("session", Some(4)),
    ];
    assert_eq!(covered(true, rows).expect("coverage reads"), Some(7));
}

#[test]
fn a_restart_removes_the_handles_of_results_that_are_gone() {
    let live = ObservedResult { complete: true, expires_at_ms: 5_000 };
    let kept = handle(Duration::from_secs(1), Some(live)).expect("handle creates");
    let removed = |result: Option<ObservedResult>, timestamp: i64| {
        let handles = vec![ObservedHandle { handle: kept.clone(), result }];
        Storage::recover_agents_at(Vec::new(), Vec::new(), handles, timestamp).handles.len()
    };
    assert_eq!(removed(Some(live), 1_500), 0);
    assert_eq!(removed(Some(live), kept.expires_at_ms), 1);
    assert_eq!(removed(None, 1_500), 1);
    assert_eq!(removed(Some(ObservedResult { complete: false, ..live }), 1_500), 1);
    assert_eq!(removed(Some(ObservedResult { expires_at_ms: 1_500, ..live }), 1_500), 1);
}
