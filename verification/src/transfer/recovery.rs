use vstd::prelude::*;

use crate::result::naming::is_named;
use crate::storage::Storage;
use crate::text::{lowered, strip_suffix, to_ascii_lower};
use crate::transfer::artifact::{storage_name_valid, validate_storage_name};
use crate::transfer::model::{
    StoredTransferTaskStatus, TransferRecoveryReport, TransferTaskRecord, MAX_RETAINED_TASKS,
};

verus! {

/// An artifact row with what decides its removal.
pub struct ArtifactExpiry {
    /// Name of the file in the managed directory.
    pub storage_name: String,
    /// Task that the artifact belongs to.
    pub task_id: Option<i64>,
    /// Expiry time as Unix epoch milliseconds.
    pub expires_at_ms: Option<i64>,
}

/// A task row with what decides its removal.
pub struct TaskAge {
    /// Task id.
    pub id: i64,
    /// Persisted state.
    pub status: String,
    /// Creation time as Unix epoch milliseconds.
    pub created_at_ms: i64,
}

/// What recovery does with a file of the managed directory.
#[derive(Debug, Clone, Copy, PartialEq, Eq, Structural)]
pub enum FileFate {
    /// It goes with its artifact, which has expired.
    Expired,
    /// It was never completed and is removed.
    Partial,
    /// It belongs to no artifact and is removed.
    Orphan,
    /// It is kept.
    Kept,
}

/// What recovery does to the transfers of a store.
pub struct TransferRecovery {
    /// The tasks that it ends, as they are afterwards.
    pub interrupted: Vec<TransferTaskRecord>,
    /// The file names of the artifacts that it removes.
    pub expired: Vec<String>,
    /// What it does with each file.
    pub fates: Vec<FileFate>,
    /// Its summary.
    pub report: TransferRecoveryReport,
}

/// A task that was under way when the application stopped.
pub open spec fn task_interrupted(
    after: TransferTaskRecord,
    before: TransferTaskRecord,
    timestamp: i64,
) -> bool {
    &&& after.progress_description@ == "Interrupted"@
    &&& after.error_log@ == (if before.error_log@.len() == 0 {
        "Application stopped before the task completed"@
    } else {
        before.error_log@
    })
    &&& after == (TransferTaskRecord {
        status: StoredTransferTaskStatus::Interrupted,
        progress_description: after.progress_description,
        error_log: after.error_log,
        updated_at_ms: timestamp,
        finished_at_ms: Some(timestamp),
        ..before
    })
}

/// The artifact belongs to no task and has expired.
pub open spec fn artifact_expired(row: ArtifactExpiry, timestamp: i64) -> bool {
    row.task_id is None && (row.expires_at_ms matches Some(expiry) && expiry <= timestamp)
}

/// The name has the extension of partial files, in capitals or not.
pub open spec fn partial_name(name: Seq<char>) -> bool {
    exists|stem: Seq<char>| stem.len() > 0 && lowered(name) == #[trigger] (stem + ".part"@)
}

/// A name is among names.
pub open spec fn listed(names: Seq<String>, name: Seq<char>) -> bool {
    exists|i: int| 0 <= i < names.len() && (#[trigger] names[i])@ == name
}

/// What recovery does with a file; a partial file goes, even if it is known.
pub open spec fn file_fate(
    name: Seq<char>,
    expired: Seq<String>,
    known: Seq<String>,
) -> FileFate {
    if listed(expired, name) && storage_name_valid(name) {
        FileFate::Expired
    } else if partial_name(name) {
        FileFate::Partial
    } else if !listed(known, name) {
        FileFate::Orphan
    } else {
        FileFate::Kept
    }
}

/// The tasks that were under way, as recovery ends them.
pub open spec fn tasks_interrupted(
    after: Seq<TransferTaskRecord>,
    tasks: Seq<TransferTaskRecord>,
    timestamp: i64,
) -> bool {
    let stopped = tasks.filter(|task: TransferTaskRecord| !task.status.terminal());
    &&& after.len() == stopped.len()
    &&& forall|i: int|
        0 <= i < stopped.len() ==> task_interrupted(#[trigger] after[i], stopped[i], timestamp)
}

/// The file names of the artifacts that have expired, or of the others, in order.
pub open spec fn artifact_names(
    rows: Seq<ArtifactExpiry>,
    timestamp: i64,
    expired: bool,
) -> Seq<String>
    decreases rows.len(),
{
    if rows.len() == 0 {
        Seq::empty()
    } else {
        let before = artifact_names(rows.drop_last(), timestamp, expired);
        if artifact_expired(rows.last(), timestamp) == expired {
            before.push(rows.last().storage_name)
        } else {
            before
        }
    }
}

/// What recovery does to the transfers of a store: it ends the tasks that were under way, removes
/// the artifacts that have expired, and removes each file but those of the other artifacts.
pub open spec fn transfers_recovered(
    recovery: TransferRecovery,
    tasks: Seq<TransferTaskRecord>,
    artifacts: Seq<ArtifactExpiry>,
    files: Seq<String>,
    timestamp: i64,
) -> bool {
    let expired = artifact_names(artifacts, timestamp, true);
    let known = artifact_names(artifacts, timestamp, false);
    &&& tasks_interrupted(recovery.interrupted@, tasks, timestamp)
    &&& recovery.expired@ == expired
    &&& recovery.fates@ == files.map_values(|name: String| file_fate(name@, expired, known))
    &&& recovery.report.interrupted_tasks == recovery.interrupted@.len()
    &&& recovery.report.expired_artifacts == recovery.expired@.len()
    &&& recovery.report.partial_files_removed == fated(recovery.fates@, FileFate::Partial)
    &&& recovery.report.orphan_files_removed == fated(recovery.fates@, FileFate::Orphan)
}

/// How many files meet a fate.
pub open spec fn fated(fates: Seq<FileFate>, fate: FileFate) -> nat
    decreases fates.len(),
{
    if fates.len() == 0 {
        0
    } else {
        fated(fates.drop_last(), fate) + (if fates.last() == fate {
            1nat
        } else {
            0nat
        })
    }
}

/// A task was created after another one; of two created at once, the one with the larger id.
pub open spec fn newer(left: TaskAge, right: TaskAge) -> bool {
    left.created_at_ms > right.created_at_ms || (left.created_at_ms == right.created_at_ms
        && left.id > right.id)
}

/// How many tasks are newer than one.
pub open spec fn newer_count(tasks: Seq<TaskAge>, task: TaskAge) -> nat
    decreases tasks.len(),
{
    if tasks.len() == 0 {
        0
    } else {
        newer_count(tasks.drop_last(), task) + (if newer(tasks.last(), task) {
            1nat
        } else {
            0nat
        })
    }
}

/// A task that has ended and is not among the newest.
pub open spec fn prunable(tasks: Seq<TaskAge>, task: TaskAge) -> bool {
    &&& newer_count(tasks, task) >= MAX_RETAINED_TASKS
    &&& (StoredTransferTaskStatus::persisted(task.status@) matches Ok(status) && status.terminal())
}

/// The ids of the tasks that are pruned, in order.
pub open spec fn pruned(tasks: Seq<TaskAge>, count: nat) -> Seq<i64>
    decreases count,
{
    if count == 0 {
        Seq::empty()
    } else {
        let before = pruned(tasks, (count - 1) as nat);
        if prunable(tasks, tasks[count - 1]) {
            before.push(tasks[count - 1].id)
        } else {
            before
        }
    }
}

fn count_newer(tasks: &Vec<TaskAge>, at: usize) -> (result: usize)
    requires
        at < tasks@.len(),
    ensures
        result == newer_count(tasks@, tasks@[at as int]),
{
    let mut count: usize = 0;
    let mut i: usize = 0;
    proof {
        assert(tasks@.take(0).len() == 0);
    }
    while i < tasks.len()
        invariant
            at < tasks@.len(),
            i <= tasks@.len(),
            count <= i,
            count == newer_count(tasks@.take(i as int), tasks@[at as int]),
        decreases tasks@.len() - i,
    {
        proof {
            assert(tasks@.take(i + 1).drop_last() =~= tasks@.take(i as int));
        }
        let left = &tasks[i];
        let right = &tasks[at];
        if left.created_at_ms > right.created_at_ms || (left.created_at_ms == right.created_at_ms
            && left.id > right.id) {
            count = count + 1;
        }
        i = i + 1;
    }
    proof {
        assert(tasks@.take(tasks@.len() as int) =~= tasks@);
    }
    count
}

/// Tests whether a name has the extension of partial files.
pub fn is_partial_name(name: &str) -> (result: bool)
    ensures
        result == partial_name(name@),
{
    let small = to_ascii_lower(name);
    match strip_suffix(small.as_str(), ".part") {
        Some(stem) => {
            proof {
                if partial_name(name@) {
                    let other = choose|other: Seq<char>|
                        other.len() > 0 && lowered(name@) == #[trigger] (other + ".part"@);
                    assert(other.len() == stem@.len());
                }
            }
            !stem.is_empty()
        },
        None => {
            proof {
                if partial_name(name@) {
                    let other = choose|other: Seq<char>|
                        other.len() > 0 && lowered(name@) == #[trigger] (other + ".part"@);
                    assert(small@.subrange(
                        small@.len() - ".part"@.len(),
                        small@.len() as int,
                    ) =~= ".part"@);
                }
            }
            false
        },
    }
}

impl Storage {
    /// Ends a task that was under way when the application stopped; another one is left alone.
    pub fn interrupt_transfer_task(task: TransferTaskRecord, timestamp: i64) -> (result: Option<
        TransferTaskRecord,
    >)
        ensures
            match result {
                None => task.status.terminal(),
                Some(after) => !task.status.terminal() && task_interrupted(after, task, timestamp),
            },
    {
        if task.status.is_terminal() {
            return None;
        }
        let error_log = if task.error_log.as_str().is_empty() {
            "Application stopped before the task completed".to_owned()
        } else {
            task.error_log
        };
        Some(
            TransferTaskRecord {
                id: task.id,
                datasource_id: task.datasource_id,
                database_name: task.database_name,
                schema_name: task.schema_name,
                table_name: task.table_name,
                kind: task.kind,
                status: StoredTransferTaskStatus::Interrupted,
                task_name: task.task_name,
                progress_current: task.progress_current,
                progress_total: task.progress_total,
                progress_description: "Interrupted".to_owned(),
                info_log: task.info_log,
                error_log,
                cancel_requested: task.cancel_requested,
                created_at_ms: task.created_at_ms,
                updated_at_ms: timestamp,
                finished_at_ms: Some(timestamp),
                artifact_id: task.artifact_id,
            },
        )
    }

    /// Ends all tasks that were under way when the application stopped.
    pub fn recover_transfer_tasks(tasks: Vec<TransferTaskRecord>, timestamp: i64) -> (result: Vec<
        TransferTaskRecord,
    >)
        ensures
            tasks_interrupted(result@, tasks@, timestamp),
    {
        let ghost all = tasks@;
        let ghost wanted = |task: TransferTaskRecord| !task.status.terminal();
        let mut ended: Vec<TransferTaskRecord> = Vec::new();
        proof {
            reveal(Seq::filter);
            assert(all.take(0).filter(wanted).len() == 0);
        }
        for task in it: tasks
            invariant
                it.seq() == all,
                wanted == (|task: TransferTaskRecord| !task.status.terminal()),
                ended@.len() == all.take(it.index() as int).filter(wanted).len(),
                forall|i: int|
                    0 <= i < ended@.len() ==> task_interrupted(
                        #[trigger] ended@[i],
                        all.take(it.index() as int).filter(wanted)[i],
                        timestamp,
                    ),
        {
            proof {
                reveal(Seq::filter);
                assert(all.take(it.index() + 1).drop_last() =~= all.take(it.index() as int));
            }
            if let Some(after) = Storage::interrupt_transfer_task(task, timestamp) {
                ended.push(after);
            }
        }
        proof {
            assert(all.take(all.len() as int) =~= all);
        }
        ended
    }

    /// Tests whether an artifact belongs to no task and has expired.
    pub fn is_expired_artifact(row: &ArtifactExpiry, timestamp: i64) -> (result: bool)
        ensures
            result == artifact_expired(*row, timestamp),
    {
        match (row.task_id, row.expires_at_ms) {
            (None, Some(expiry)) => expiry <= timestamp,
            _ => false,
        }
    }

    /// Decides what recovery does with a file of the managed directory.
    pub fn transfer_file_fate(name: &str, expired: &Vec<String>, known: &Vec<String>) -> (result:
        FileFate)
        ensures
            result == file_fate(name@, expired@, known@),
    {
        if is_named(expired, name) && validate_storage_name(name).is_ok() {
            return FileFate::Expired;
        }
        if is_partial_name(name) {
            return FileFate::Partial;
        }
        if !is_named(known, name) {
            return FileFate::Orphan;
        }
        FileFate::Kept
    }

    /// Sums up a recovery.
    pub fn transfer_recovery_report(
        interrupted_tasks: usize,
        expired_artifacts: usize,
        fates: &Vec<FileFate>,
    ) -> (result: TransferRecoveryReport)
        ensures
            result.interrupted_tasks == interrupted_tasks,
            result.expired_artifacts == expired_artifacts,
            result.partial_files_removed == fated(fates@, FileFate::Partial),
            result.orphan_files_removed == fated(fates@, FileFate::Orphan),
    {
        let mut partial: usize = 0;
        let mut orphans: usize = 0;
        let mut i: usize = 0;
        proof {
            assert(fates@.take(0).len() == 0);
        }
        while i < fates.len()
            invariant
                i <= fates@.len(),
                partial <= i,
                orphans <= i,
                partial == fated(fates@.take(i as int), FileFate::Partial),
                orphans == fated(fates@.take(i as int), FileFate::Orphan),
            decreases fates@.len() - i,
        {
            proof {
                assert(fates@.take(i + 1).drop_last() =~= fates@.take(i as int));
            }
            match fates[i] {
                FileFate::Partial => {
                    partial = partial + 1;
                },
                FileFate::Orphan => {
                    orphans = orphans + 1;
                },
                FileFate::Expired | FileFate::Kept => {},
            }
            i = i + 1;
        }
        proof {
            assert(fates@.take(fates@.len() as int) =~= fates@);
        }
        TransferRecoveryReport {
            interrupted_tasks,
            expired_artifacts,
            partial_files_removed: partial,
            orphan_files_removed: orphans,
        }
    }

    /// Decides what recovery does to the transfers of a store: to its tasks, to its artifacts and to
    /// the files of the managed directory.
    pub fn recover_transfers_at(
        tasks: Vec<TransferTaskRecord>,
        artifacts: Vec<ArtifactExpiry>,
        files: &Vec<String>,
        timestamp: i64,
    ) -> (result: TransferRecovery)
        ensures
            transfers_recovered(result, tasks@, artifacts@, files@, timestamp),
    {
        let interrupted = Storage::recover_transfer_tasks(tasks, timestamp);
        let ghost rows = artifacts@;
        let mut expired: Vec<String> = Vec::new();
        let mut known: Vec<String> = Vec::new();
        proof {
            assert(rows.take(0).len() == 0);
            assert(expired@ =~= Seq::empty());
            assert(known@ =~= Seq::empty());
        }
        for row in it: artifacts
            invariant
                it.seq() == rows,
                expired@ == artifact_names(rows.take(it.index() as int), timestamp, true),
                known@ == artifact_names(rows.take(it.index() as int), timestamp, false),
        {
            proof {
                assert(rows.take(it.index() + 1).drop_last() =~= rows.take(it.index() as int));
            }
            if Storage::is_expired_artifact(&row, timestamp) {
                expired.push(row.storage_name);
            } else {
                known.push(row.storage_name);
            }
        }
        let ghost fate = |name: String| file_fate(name@, expired@, known@);
        let mut fates: Vec<FileFate> = Vec::new();
        let mut i: usize = 0;
        proof {
            assert(rows.take(rows.len() as int) =~= rows);
        }
        while i < files.len()
            invariant
                i <= files@.len(),
                fate == (|name: String| file_fate(name@, expired@, known@)),
                fates@.len() == i,
                forall|j: int| 0 <= j < i ==> #[trigger] fates@[j] == fate(files@[j]),
            decreases files@.len() - i,
        {
            fates.push(Storage::transfer_file_fate(files[i].as_str(), &expired, &known));
            i = i + 1;
        }
        proof {
            assert(fates@ =~= files@.map_values(fate));
        }
        let report = Storage::transfer_recovery_report(interrupted.len(), expired.len(), &fates);
        TransferRecovery { interrupted, expired, fates, report }
    }

    /// Finds the tasks that have ended and are not among the newest.
    pub fn prune_transfer_tasks(tasks: &Vec<TaskAge>) -> (result: Vec<i64>)
        ensures
            result@ == pruned(tasks@, tasks@.len()),
    {
        let mut removed: Vec<i64> = Vec::new();
        let mut i: usize = 0;
        proof {
            assert(removed@ =~= Seq::empty());
        }
        while i < tasks.len()
            invariant
                i <= tasks@.len(),
                removed@ == pruned(tasks@, i as nat),
            decreases tasks@.len() - i,
        {
            let ended = match StoredTransferTaskStatus::parse(tasks[i].status.as_str()) {
                Ok(status) => status.is_terminal(),
                Err(_) => false,
            };
            if ended && count_newer(tasks, i) >= MAX_RETAINED_TASKS {
                removed.push(tasks[i].id);
            }
            i = i + 1;
        }
        removed
    }
}

/// A task that waits or runs is never pruned, however old it is.
pub proof fn law_pruning_spares_live_tasks(tasks: Seq<TaskAge>, task: TaskAge)
    requires
        StoredTransferTaskStatus::persisted(task.status@) matches Ok(status) && !status.terminal(),
    ensures
        !prunable(tasks, task),
{
}

/// One of the newest tasks is never pruned.
pub proof fn law_pruning_spares_the_newest(tasks: Seq<TaskAge>, task: TaskAge)
    requires
        newer_count(tasks, task) < MAX_RETAINED_TASKS,
    ensures
        !prunable(tasks, task),
{
}

/// The tasks that recovery leaves: those that had ended, and the others as it ended them.
pub open spec fn tasks_left(
    after: Seq<TransferTaskRecord>,
    tasks: Seq<TransferTaskRecord>,
    timestamp: i64,
) -> bool {
    &&& after.len() == tasks.len()
    &&& forall|i: int|
        0 <= i < tasks.len() ==> if tasks[i].status.terminal() {
            #[trigger] after[i] == tasks[i]
        } else {
            task_interrupted(after[i], tasks[i], timestamp)
        }
}

/// The artifacts that recovery leaves.
pub open spec fn artifacts_left(rows: Seq<ArtifactExpiry>, timestamp: i64) -> Seq<
    ArtifactExpiry,
>
    decreases rows.len(),
{
    if rows.len() == 0 {
        Seq::empty()
    } else {
        let before = artifacts_left(rows.drop_last(), timestamp);
        if artifact_expired(rows.last(), timestamp) {
            before
        } else {
            before.push(rows.last())
        }
    }
}

/// The files that recovery leaves.
pub open spec fn files_left(
    after: Seq<String>,
    artifacts: Seq<ArtifactExpiry>,
    files: Seq<String>,
    timestamp: i64,
) -> bool {
    let expired = artifact_names(artifacts, timestamp, true);
    let known = artifact_names(artifacts, timestamp, false);
    forall|i: int|
        0 <= i < after.len() ==> files.contains(#[trigger] after[i]) && file_fate(
            after[i]@,
            expired,
            known,
        ) == FileFate::Kept
}

/// Recovery leaves no task under way, no expired artifact and no file without an artifact: a
/// second recovery finds nothing to do.
pub proof fn law_transfers_recover_once(
    second: TransferRecovery,
    tasks: Seq<TransferTaskRecord>,
    artifacts: Seq<ArtifactExpiry>,
    files: Seq<String>,
    timestamp: i64,
    tasks_after: Seq<TransferTaskRecord>,
    files_after: Seq<String>,
)
    requires
        tasks_left(tasks_after, tasks, timestamp),
        files_left(files_after, artifacts, files, timestamp),
        transfers_recovered(
            second,
            tasks_after,
            artifacts_left(artifacts, timestamp),
            files_after,
            timestamp,
        ),
    ensures
        second.interrupted@.len() == 0,
        second.expired@.len() == 0,
        forall|i: int| 0 <= i < second.fates@.len() ==> second.fates@[i] == FileFate::Kept,
        second.report == (TransferRecoveryReport {
            interrupted_tasks: 0,
            expired_artifacts: 0,
            partial_files_removed: 0,
            orphan_files_removed: 0,
        }),
{
    let wanted = |task: TransferTaskRecord| !task.status.terminal();
    assert forall|i: int| 0 <= i < tasks_after.len() implies !wanted(#[trigger] tasks_after[i]) by {
        assert(tasks_after[i] == tasks_after[i]);
    }
    lemma_nothing_filtered(tasks_after, wanted);
    lemma_artifacts_left(artifacts, timestamp);
    let known = artifact_names(artifacts, timestamp, false);
    assert forall|i: int| 0 <= i < second.fates@.len() implies second.fates@[i]
        == FileFate::Kept by {
        assert(files.contains(files_after[i]));
        assert(!listed(Seq::<String>::empty(), files_after[i]@));
    }
    lemma_nothing_fated(second.fates@, FileFate::Partial);
    lemma_nothing_fated(second.fates@, FileFate::Orphan);
}

proof fn lemma_nothing_filtered(
    tasks: Seq<TransferTaskRecord>,
    wanted: spec_fn(TransferTaskRecord) -> bool,
)
    requires
        forall|i: int| 0 <= i < tasks.len() ==> !wanted(#[trigger] tasks[i]),
    ensures
        tasks.filter(wanted).len() == 0,
    decreases tasks.len(),
{
    reveal(Seq::filter);
    if tasks.len() > 0 {
        assert forall|i: int| 0 <= i < tasks.drop_last().len() implies !wanted(
            #[trigger] tasks.drop_last()[i],
        ) by {
            assert(tasks.drop_last()[i] == tasks[i]);
        }
        lemma_nothing_filtered(tasks.drop_last(), wanted);
        assert(!wanted(tasks[tasks.len() - 1]));
    }
}

proof fn lemma_artifacts_left(rows: Seq<ArtifactExpiry>, timestamp: i64)
    ensures
        artifact_names(artifacts_left(rows, timestamp), timestamp, true) == Seq::<String>::empty(),
        artifact_names(artifacts_left(rows, timestamp), timestamp, false) == artifact_names(
            rows,
            timestamp,
            false,
        ),
    decreases rows.len(),
{
    if rows.len() > 0 {
        lemma_artifacts_left(rows.drop_last(), timestamp);
        let before = artifacts_left(rows.drop_last(), timestamp);
        assert(before.push(rows.last()).drop_last() =~= before);
    }
}

proof fn lemma_nothing_fated(fates: Seq<FileFate>, fate: FileFate)
    requires
        forall|i: int| 0 <= i < fates.len() ==> #[trigger] fates[i] != fate,
    ensures
        fated(fates, fate) == 0,
    decreases fates.len(),
{
    if fates.len() > 0 {
        assert forall|i: int| 0 <= i < fates.drop_last().len() implies #[trigger] fates.drop_last()[i]
            != fate by {
            assert(fates.drop_last()[i] == fates[i]);
        }
        lemma_nothing_fated(fates.drop_last(), fate);
        assert(fates[fates.len() - 1] != fate);
    }
}

/// The file of an artifact that has not expired survives recovery, unless it has the name of a
/// partial file or of an expired artifact.
pub proof fn law_known_file_survives(artifacts: Seq<ArtifactExpiry>, timestamp: i64, i: int)
    requires
        0 <= i < artifacts.len(),
        !artifact_expired(artifacts[i], timestamp),
        !partial_name(artifacts[i].storage_name@),
        !listed(artifact_names(artifacts, timestamp, true), artifacts[i].storage_name@),
    ensures
        file_fate(
            artifacts[i].storage_name@,
            artifact_names(artifacts, timestamp, true),
            artifact_names(artifacts, timestamp, false),
        ) == FileFate::Kept,
{
    lemma_artifact_is_known(artifacts, timestamp, i);
}

proof fn lemma_artifact_is_known(artifacts: Seq<ArtifactExpiry>, timestamp: i64, i: int)
    requires
        0 <= i < artifacts.len(),
        !artifact_expired(artifacts[i], timestamp),
    ensures
        listed(artifact_names(artifacts, timestamp, false), artifacts[i].storage_name@),
    decreases artifacts.len(),
{
    let names = artifact_names(artifacts, timestamp, false);
    if i == artifacts.len() - 1 {
        assert(names[names.len() - 1]@ == artifacts[i].storage_name@);
    } else {
        let before = artifact_names(artifacts.drop_last(), timestamp, false);
        assert(artifacts.drop_last()[i] == artifacts[i]);
        lemma_artifact_is_known(artifacts.drop_last(), timestamp, i);
        let j = choose|j: int|
            0 <= j < before.len() && (#[trigger] before[j])@ == artifacts[i].storage_name@;
        assert(names[j] == before[j]);
    }
}

} // verus!
