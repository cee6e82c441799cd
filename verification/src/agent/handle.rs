use std::time::Duration;

use vstd::prelude::*;

use crate::agent::model::AgentResultHandle;
use crate::clock::{end_of_retention, retention_end};
use crate::error::StorageError;
use crate::storage::Storage;
use crate::text::same_text;

verus! {

/// What the index holds of a retained result.
#[derive(Debug, Clone, Copy, PartialEq, Eq, Structural)]
pub struct ObservedResult {
    /// Whether the result is complete.
    pub complete: bool,
    /// Its expiry.
    pub expires_at_ms: i64,
}

/// How the resolution of a handle ends.
pub enum ResolvedHandle {
    /// The handle can be used.
    Live(AgentResultHandle),
    /// The handle has ended: it is removed, and the caller gets the failure.
    Removed(StorageError),
}

/// A result that is complete and not yet expired.
pub open spec fn live_result(result: Option<ObservedResult>, timestamp: i64) -> bool {
    result matches Some(observed) && observed.complete && observed.expires_at_ms > timestamp
}

/// A run of the session gets a handle on a live result, which it never outlives.
pub open spec fn handle_created(
    session_id: String,
    run_id: String,
    result_id: String,
    owner: Option<String>,
    result: Option<ObservedResult>,
    id: String,
    timestamp: i64,
    requested_expiry: i64,
) -> Result<AgentResultHandle, StorageError> {
    if requested_expiry <= timestamp {
        Err(StorageError::InvalidAgent("result handle expiry must be after creation"))
    } else if owner is None {
        Err(StorageError::AgentRunNotFound(run_id))
    } else if owner->0@ != session_id@ {
        Err(StorageError::ResultHandleNotFound(run_id))
    } else if !live_result(result, timestamp) {
        Err(StorageError::ResultNotFound(result_id))
    } else {
        Ok(
            AgentResultHandle {
                id,
                session_id,
                run_id,
                result_id,
                created_at_ms: timestamp,
                expires_at_ms: if requested_expiry <= result->0.expires_at_ms {
                    requested_expiry
                } else {
                    result->0.expires_at_ms
                },
            },
        )
    }
}

/// A handle belongs to one session and one run.
pub open spec fn owned_by(
    handle: AgentResultHandle,
    session_id: Seq<char>,
    run_id: Seq<char>,
) -> bool {
    handle.session_id@ == session_id && handle.run_id@ == run_id
}

/// A handle resolves for its owner while it and its result live.
pub open spec fn handle_resolved(
    id: String,
    session_id: Seq<char>,
    run_id: Seq<char>,
    handle: Option<AgentResultHandle>,
    result: Option<ObservedResult>,
    timestamp: i64,
) -> Result<ResolvedHandle, StorageError> {
    match handle {
        None => Err(StorageError::ResultHandleNotFound(id)),
        Some(found) => if !owned_by(found, session_id, run_id) {
            Err(StorageError::ResultHandleNotFound(id))
        } else if found.expires_at_ms <= timestamp || !live_result(result, timestamp) {
            Ok(ResolvedHandle::Removed(StorageError::ResultHandleNotFound(id)))
        } else {
            Ok(ResolvedHandle::Live(found))
        },
    }
}

/// The handles whose time has passed.
pub open spec fn expired_handles(handles: Seq<AgentResultHandle>, timestamp: i64) -> Seq<
    AgentResultHandle,
> {
    handles.filter(|handle: AgentResultHandle| handle.expires_at_ms <= timestamp)
}

/// Tests whether a result is complete and not yet expired.
pub fn is_live_result(result: Option<ObservedResult>, timestamp: i64) -> (live: bool)
    ensures
        live == live_result(result, timestamp),
{
    match result {
        Some(observed) => observed.complete && observed.expires_at_ms > timestamp,
        None => false,
    }
}

impl Storage {
    /// Creates a handle for a run, for as long as the caller asks and the result lives.
    pub fn create_agent_result_handle(
        session_id: &String,
        run_id: &String,
        result_id: &String,
        retention: Duration,
        owner: Option<String>,
        observed: Option<ObservedResult>,
        id: String,
        timestamp: i64,
    ) -> (result: Result<AgentResultHandle, StorageError>)
        ensures
            result == (match retention_end(
                retention,
                timestamp,
                StorageError::InvalidAgent("result handle retention must be greater than zero"),
                "result handle retention",
                "result handle expiry",
            ) {
                Err(error) => Err(error),
                Ok(expiry) => handle_created(
                    *session_id,
                    *run_id,
                    *result_id,
                    owner,
                    observed,
                    id,
                    timestamp,
                    expiry,
                ),
            }),
    {
        let requested_expiry: i64 = end_of_retention(
            &retention,
            timestamp,
            StorageError::InvalidAgent("result handle retention must be greater than zero"),
            "result handle retention",
            "result handle expiry",
        )?;
        Storage::create_agent_result_handle_at(
            session_id,
            run_id,
            result_id,
            owner,
            observed,
            id,
            timestamp,
            requested_expiry,
        )
    }

    /// Creates a handle for a run, until the given time or as long as the result lives.
    pub fn create_agent_result_handle_at(
        session_id: &String,
        run_id: &String,
        result_id: &String,
        owner: Option<String>,
        observed: Option<ObservedResult>,
        id: String,
        timestamp: i64,
        requested_expiry: i64,
    ) -> (result: Result<AgentResultHandle, StorageError>)
        ensures
            result == handle_created(
                *session_id,
                *run_id,
                *result_id,
                owner,
                observed,
                id,
                timestamp,
                requested_expiry,
            ),
    {
        if requested_expiry <= timestamp {
            return Err(StorageError::InvalidAgent("result handle expiry must be after creation"));
        }
        match &owner {
            None => return Err(StorageError::AgentRunNotFound(run_id.clone())),
            Some(session) => if !same_text(session.as_str(), session_id.as_str()) {
                return Err(StorageError::ResultHandleNotFound(run_id.clone()));
            },
        }
        if !is_live_result(observed, timestamp) {
            return Err(StorageError::ResultNotFound(result_id.clone()));
        }
        let result_expiry: i64 = observed.unwrap().expires_at_ms;
        let expires_at_ms: i64 = if requested_expiry <= result_expiry {
            requested_expiry
        } else {
            result_expiry
        };
        Ok(
            AgentResultHandle {
                id,
                session_id: session_id.clone(),
                run_id: run_id.clone(),
                result_id: result_id.clone(),
                created_at_ms: timestamp,
                expires_at_ms,
            },
        )
    }

    /// Resolves a handle for the session and the run that own it.
    pub fn resolve_agent_result_handle(
        id: &String,
        session_id: &str,
        run_id: &str,
        handle: Option<AgentResultHandle>,
        observed: Option<ObservedResult>,
        timestamp: i64,
    ) -> (result: Result<ResolvedHandle, StorageError>)
        ensures
            result == handle_resolved(*id, session_id@, run_id@, handle, observed, timestamp),
    {
        let found = match handle {
            Some(found) => found,
            None => return Err(StorageError::ResultHandleNotFound(id.clone())),
        };
        if !same_text(found.session_id.as_str(), session_id) || !same_text(
            found.run_id.as_str(),
            run_id,
        ) {
            return Err(StorageError::ResultHandleNotFound(id.clone()));
        }
        if found.expires_at_ms <= timestamp || !is_live_result(observed, timestamp) {
            return Ok(ResolvedHandle::Removed(StorageError::ResultHandleNotFound(id.clone())));
        }
        Ok(ResolvedHandle::Live(found))
    }

    /// Selects the handles whose time has passed.
    pub fn purge_expired_agent_result_handles(
        handles: Vec<AgentResultHandle>,
        timestamp: i64,
    ) -> (result: Vec<AgentResultHandle>)
        ensures
            result@ == expired_handles(handles@, timestamp),
    {
        let ghost whole = handles@;
        let ghost ended = |handle: AgentResultHandle| handle.expires_at_ms <= timestamp;
        let mut removed: Vec<AgentResultHandle> = Vec::new();
        proof {
            reveal(Seq::filter);
        }
        for handle in it: handles
            invariant
                it.seq() == whole,
                ended == (|handle: AgentResultHandle| handle.expires_at_ms <= timestamp),
                removed@ == whole.take(it.index() as int).filter(ended),
        {
            proof {
                reveal(Seq::filter);
                let index = it.index() as int;
                assert(whole.take(index + 1).drop_last() =~= whole.take(index));
                assert(whole.take(index + 1).last() == whole[index]);
            }
            if handle.expires_at_ms <= timestamp {
                removed.push(handle);
            }
        }
        assert(whole.take(whole.len() as int) =~= whole);
        removed
    }
}

/// A handle expires no later than its result and no later than was asked.
pub proof fn law_handle_never_outlives_its_result(
    session_id: String,
    run_id: String,
    result_id: String,
    owner: Option<String>,
    result: Option<ObservedResult>,
    id: String,
    timestamp: i64,
    requested_expiry: i64,
)
    requires
        handle_created(
            session_id,
            run_id,
            result_id,
            owner,
            result,
            id,
            timestamp,
            requested_expiry,
        ) is Ok,
    ensures
        ({
            let handle = handle_created(
                session_id,
                run_id,
                result_id,
                owner,
                result,
                id,
                timestamp,
                requested_expiry,
            )->Ok_0;
            &&& timestamp < handle.expires_at_ms <= requested_expiry
            &&& handle.expires_at_ms <= result->0.expires_at_ms
            &&& handle_resolved(
                id,
                session_id@,
                run_id@,
                Some(handle),
                result,
                timestamp,
            ) == Ok::<ResolvedHandle, StorageError>(ResolvedHandle::Live(handle))
        }),
{
}

/// Nobody but the session and the run that own a handle can resolve it, and nobody can once it or
/// its result has ended.
pub proof fn law_handle_resolves_for_its_owner_only(
    id: String,
    session_id: Seq<char>,
    run_id: Seq<char>,
    handle: AgentResultHandle,
    result: Option<ObservedResult>,
    timestamp: i64,
)
    ensures
        (handle_resolved(id, session_id, run_id, Some(handle), result, timestamp) matches Ok(
            ResolvedHandle::Live(_),
        )) <==> (handle.session_id@ == session_id && handle.run_id@ == run_id
            && handle.expires_at_ms > timestamp && live_result(result, timestamp)),
{
}

} // verus!
