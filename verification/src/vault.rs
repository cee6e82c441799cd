use vstd::prelude::*;

use crate::error::StorageError;
use crate::secret::{is_same_reference, same_reference, SecretRef, SecretValue, SecretVaultError};
use crate::storage::Storage;
use crate::text::same_text;

verus! {

/// Requested secret mutation of an update.
pub enum SecretChange {
    /// Keep the existing immutable vault reference.
    Keep,
    /// Stage a new immutable vault reference and retire the old one.
    Replace(SecretValue),
    /// Remove the active vault reference.
    Clear,
}

impl SecretChange {
    /// Describes the change without the secret.
    pub fn debug_text(&self) -> (result: String)
        ensures
            result@ == (match *self {
                SecretChange::Keep => "Keep"@,
                SecretChange::Replace(_) => "Replace([REDACTED])"@,
                SecretChange::Clear => "Clear"@,
            }),
    {
        match self {
            SecretChange::Keep => "Keep".to_owned(),
            SecretChange::Replace(_) => "Replace([REDACTED])".to_owned(),
            SecretChange::Clear => "Clear".to_owned(),
        }
    }
}

/// A secret mutation once a new secret is in the vault.
pub enum StagedChange {
    /// Keep the existing reference.
    Keep,
    /// Install the reference of the staged secret.
    Replace(SecretRef),
    /// Remove the reference.
    Clear,
}

/// A record to write, and what becomes of the references in the cleanup queue.
pub struct SecretMutation<T> {
    /// The record.
    pub record: T,
    /// The staged reference, which leaves the queue because a record now holds it.
    pub installed: Option<SecretRef>,
    /// The reference that the record gave up, which enters the queue.
    pub retired: Option<SecretRef>,
}

/// How a mutation whose commit reported a failure is settled.
pub enum SecretCommit<T> {
    /// The commit took effect: the operation has succeeded after all.
    Applied(T),
    /// The commit had no effect: the staged secret is deleted, and the operation ends with the
    /// failure that was reported.
    NotApplied(Option<SecretRef>),
    /// Nothing can be said: the operation ends with this failure, and the staged secret stays.
    Unknown(StorageError),
}

/// The failure of a mutation whose staged secret had to be deleted.
pub enum Compensated<E> {
    /// The secret is gone, and its cleanup intent with it.
    Primary(E),
    /// The secret could not be deleted; its cleanup intent stays.
    Both(E, SecretVaultError),
}

/// Result of retrying deferred secret deletions.
#[derive(Debug, Clone, Copy, PartialEq, Eq, Structural)]
pub struct SecretCleanupReport {
    /// References successfully removed from the vault and queue.
    pub deleted: usize,
    /// References still awaiting vault deletion.
    pub pending: usize,
}

/// The reference after a change.
pub open spec fn next_reference(current: Option<SecretRef>, change: StagedChange) -> Option<
    SecretRef,
> {
    match change {
        StagedChange::Keep => current,
        StagedChange::Replace(reference) => Some(reference),
        StagedChange::Clear => None,
    }
}

/// The reference that a change installs.
pub open spec fn installed_reference(change: StagedChange) -> Option<SecretRef> {
    match change {
        StagedChange::Replace(reference) => Some(reference),
        _ => None,
    }
}

/// The reference that a change gives up.
pub open spec fn retired_reference(current: Option<SecretRef>, change: StagedChange) -> Option<
    SecretRef,
> {
    if same_reference(current, next_reference(current, change)) {
        None
    } else {
        current
    }
}

/// The references of a change: the next one, the one it installs and the one it gives up.
pub fn apply_change(current: Option<SecretRef>, change: StagedChange) -> (result: (
    Option<SecretRef>,
    Option<SecretRef>,
    Option<SecretRef>,
))
    ensures
        result == (
            next_reference(current, change),
            installed_reference(change),
            retired_reference(current, change),
        ),
{
    match change {
        StagedChange::Keep => {
            let kept = current.clone();
            assert(same_reference(current, current));
            (kept, None, None)
        },
        StagedChange::Replace(reference) => {
            let next = Some(reference.clone());
            let retired = if is_same_reference(&current, &next) {
                None
            } else {
                current
            };
            (next, Some(reference), retired)
        },
        StagedChange::Clear => (None, None, current),
    }
}

/// What a vault lookup of a referenced secret yields; a missing entry is a vault failure.
pub open spec fn looked_up(found: Result<Option<SecretValue>, SecretVaultError>) -> Result<
    SecretValue,
    StorageError,
> {
    match found {
        Err(source) => Err(StorageError::SecretVault { operation: "get", source }),
        Ok(None) => Err(
            StorageError::SecretVault { operation: "get", source: SecretVaultError::Backend },
        ),
        Ok(Some(value)) => Ok(value),
    }
}

/// Whether a text occurs in a list.
pub open spec fn lists(texts: Seq<String>, text: Seq<char>) -> bool {
    exists|i: int| 0 <= i < texts.len() && (#[trigger] texts[i])@ == text
}

/// The queued references that no record holds, in the order of the queue.
pub open spec fn unheld(queue: Seq<String>, held: Seq<String>) -> Seq<String>
    decreases queue.len(),
{
    if queue.len() == 0 {
        Seq::empty()
    } else if lists(held, queue.last()@) {
        unheld(queue.drop_last(), held)
    } else {
        unheld(queue.drop_last(), held).push(queue.last())
    }
}

/// What a cleanup does to the queue.
pub struct SecretCleanup {
    /// The references whose secrets were deleted, which leave the queue.
    pub deleted: Vec<String>,
    /// The references that stay queued.
    pub left: Vec<String>,
    /// How many of each.
    pub report: SecretCleanupReport,
}

/// Whether the last queued reference leaves the queue: no record holds it, and the vault has deleted
/// its secret. The answers of the vault are those to the references that no record holds, in order;
/// a reference that was not asked for stays.
pub open spec fn last_leaves(
    queue: Seq<String>,
    held: Seq<String>,
    answers: Seq<Result<(), SecretVaultError>>,
) -> bool {
    let earlier = unheld(queue.drop_last(), held).len();
    !lists(held, queue.last()@) && earlier < answers.len() && answers[earlier as int] is Ok
}

/// The references that leave the queue, in order.
pub open spec fn cleaned(
    queue: Seq<String>,
    held: Seq<String>,
    answers: Seq<Result<(), SecretVaultError>>,
) -> Seq<String>
    decreases queue.len(),
{
    if queue.len() == 0 {
        Seq::empty()
    } else if last_leaves(queue, held, answers) {
        cleaned(queue.drop_last(), held, answers).push(queue.last())
    } else {
        cleaned(queue.drop_last(), held, answers)
    }
}

/// The references that stay queued, in order.
pub open spec fn still_queued(
    queue: Seq<String>,
    held: Seq<String>,
    answers: Seq<Result<(), SecretVaultError>>,
) -> Seq<String>
    decreases queue.len(),
{
    if queue.len() == 0 {
        Seq::empty()
    } else if last_leaves(queue, held, answers) {
        still_queued(queue.drop_last(), held, answers)
    } else {
        still_queued(queue.drop_last(), held, answers).push(queue.last())
    }
}

/// Tests whether a text occurs in a list.
pub fn is_listed(texts: &Vec<String>, text: &str) -> (result: bool)
    ensures
        result == lists(texts@, text@),
{
    let mut i: usize = 0;
    while i < texts.len()
        invariant
            i <= texts.len(),
            forall|j: int| 0 <= j < i ==> (#[trigger] texts@[j])@ != text@,
        decreases texts.len() - i,
    {
        if same_text(texts[i].as_str(), text) {
            return true;
        }
        i = i + 1;
    }
    false
}

/// Takes the secret that a vault lookup yields.
pub fn take_secret(found: Result<Option<SecretValue>, SecretVaultError>) -> (result: Result<
    SecretValue,
    StorageError,
>)
    ensures
        result == looked_up(found),
{
    match found {
        Err(source) => Err(StorageError::SecretVault { operation: "get", source }),
        Ok(None) => Err(
            StorageError::SecretVault { operation: "get", source: SecretVaultError::Backend },
        ),
        Ok(Some(value)) => Ok(value),
    }
}

/// Takes the reference of a secret that was to be staged.
pub fn stage_secret(reference: SecretRef, created: Result<(), SecretVaultError>) -> (result: Result<
    SecretRef,
    StorageError,
>)
    ensures
        result == (match created {
            Ok(_) => Ok(reference),
            Err(source) => Err(StorageError::SecretVault { operation: "create", source }),
        }),
{
    match created {
        Ok(_) => Ok(reference),
        Err(source) => Err(StorageError::SecretVault { operation: "create", source }),
    }
}

/// Ends a mutation whose staged secret had to be deleted.
pub fn cleanup_staged_secret<E>(primary: E, deleted: Result<(), SecretVaultError>) -> (result:
    Compensated<E>)
    ensures
        result == (match deleted {
            Ok(_) => Compensated::Primary(primary),
            Err(compensation) => Compensated::Both(primary, compensation),
        }),
{
    match deleted {
        Ok(_) => Compensated::Primary(primary),
        Err(compensation) => Compensated::Both(primary, compensation),
    }
}

impl Storage {
    /// Selects the queued references whose secrets are to be deleted.
    pub fn reconcile_secrets(queue: Vec<String>, held: &Vec<String>) -> (result: Vec<String>)
        ensures
            result@ == unheld(queue@, held@),
    {
        let ghost whole = queue@;
        let mut candidates: Vec<String> = Vec::new();
        for reference in it: queue
            invariant
                it.seq() == whole,
                candidates@ == unheld(whole.take(it.index() as int), held@),
        {
            proof {
                let index = it.index() as int;
                assert(whole.take(index + 1).drop_last() =~= whole.take(index));
                assert(whole.take(index + 1).last() == whole[index]);
            }
            if !is_listed(held, reference.as_str()) {
                candidates.push(reference);
            }
        }
        assert(whole.take(whole.len() as int) =~= whole);
        candidates
    }

    /// Ends a cleanup with the answers of the vault to the references that it was asked to delete:
    /// a reference leaves the queue exactly if its secret was deleted. A failure of the vault is no
    /// failure of the cleanup.
    pub fn settle_secret_cleanup(
        queue: Vec<String>,
        held: &Vec<String>,
        answers: &Vec<Result<(), SecretVaultError>>,
    ) -> (result: SecretCleanup)
        ensures
            result.deleted@ == cleaned(queue@, held@, answers@),
            result.left@ == still_queued(queue@, held@, answers@),
            result.report.deleted == result.deleted@.len(),
            result.report.pending == result.left@.len(),
    {
        let ghost whole = queue@;
        let mut deleted: Vec<String> = Vec::new();
        let mut left: Vec<String> = Vec::new();
        let mut asked: usize = 0;
        for reference in it: queue
            invariant
                it.seq() == whole,
                asked <= answers.len(),
                asked == (if unheld(whole.take(it.index() as int), held@).len() < answers.len() {
                    unheld(whole.take(it.index() as int), held@).len()
                } else {
                    answers.len() as nat
                }),
                deleted@ == cleaned(whole.take(it.index() as int), held@, answers@),
                left@ == still_queued(whole.take(it.index() as int), held@, answers@),
        {
            proof {
                let index = it.index() as int;
                assert(whole.take(index + 1).drop_last() =~= whole.take(index));
                assert(whole.take(index + 1).last() == whole[index]);
            }
            if is_listed(held, reference.as_str()) || asked >= answers.len() {
                left.push(reference);
            } else {
                match answers[asked] {
                    Ok(_) => deleted.push(reference),
                    Err(_) => left.push(reference),
                }
                asked = asked + 1;
            }
        }
        assert(whole.take(whole.len() as int) =~= whole);
        let report = SecretCleanupReport { deleted: deleted.len(), pending: left.len() };
        SecretCleanup { deleted, left, report }
    }
}

/// The secret of a reference that a record holds is never deleted by a cleanup.
pub proof fn law_cleanup_spares_held_references(queue: Seq<String>, held: Seq<String>)
    ensures
        forall|i: int|
            0 <= i < unheld(queue, held).len() ==> !lists(
                held,
                (#[trigger] unheld(queue, held)[i])@,
            ),
    decreases queue.len(),
{
    if queue.len() > 0 {
        law_cleanup_spares_held_references(queue.drop_last(), held);
        let earlier = unheld(queue.drop_last(), held);
        assert forall|i: int| 0 <= i < unheld(queue, held).len() implies !lists(
            held,
            (#[trigger] unheld(queue, held)[i])@,
        ) by {
            if i < earlier.len() {
                assert(unheld(queue, held)[i] == earlier[i]);
            }
        }
    }
}

/// A cleanup neither forgets nor adds a reference: each one either leaves the queue or stays. A
/// reference that a record holds stays, whatever the vault answers, and so does everything if the
/// vault deletes nothing.
pub proof fn law_cleanup_accounts_for_every_reference(
    queue: Seq<String>,
    held: Seq<String>,
    answers: Seq<Result<(), SecretVaultError>>,
)
    ensures
        cleaned(queue, held, answers).len() + still_queued(queue, held, answers).len()
            == queue.len(),
        (forall|i: int| 0 <= i < queue.len() ==> lists(held, (#[trigger] queue[i])@)) ==> cleaned(
            queue,
            held,
            answers,
        ).len() == 0 && still_queued(queue, held, answers) == queue,
        (forall|i: int| 0 <= i < answers.len() ==> (#[trigger] answers[i]) is Err) ==> cleaned(
            queue,
            held,
            answers,
        ).len() == 0 && still_queued(queue, held, answers) == queue,
        forall|i: int|
            0 <= i < cleaned(queue, held, answers).len() ==> !lists(
                held,
                (#[trigger] cleaned(queue, held, answers)[i])@,
            ),
    decreases queue.len(),
{
    if queue.len() > 0 {
        let earlier = queue.drop_last();
        law_cleanup_accounts_for_every_reference(earlier, held, answers);
        assert forall|i: int| 0 <= i < earlier.len() implies #[trigger] earlier[i] == queue[i] by {}
        assert(earlier.push(queue.last()) =~= queue);
        let gone = cleaned(earlier, held, answers);
        assert forall|i: int| 0 <= i < cleaned(queue, held, answers).len() implies !lists(
            held,
            (#[trigger] cleaned(queue, held, answers)[i])@,
        ) by {
            if i < gone.len() {
                assert(cleaned(queue, held, answers)[i] == gone[i]);
            }
        }
    }
}

/// A change either keeps the reference and touches the queue with nothing, or every reference that
/// is given up enters the queue: no secret is forgotten.
pub proof fn law_change_forgets_no_secret(current: Option<SecretRef>, change: StagedChange)
    ensures
        ({
            let next = next_reference(current, change);
            let retired = retired_reference(current, change);
            &&& current matches Some(old) ==> (next matches Some(new) && new.key()@ == old.key()@)
                || retired == Some(old)
            &&& retired matches Some(old) ==> current == Some(old)
            &&& installed_reference(change) matches Some(new) ==> next == Some(new)
        }),
{
}

/// A change to another secret installs its reference and gives up the old one; a removal installs
/// nothing and gives up the old one; and without a change the reference stays and nothing is
/// installed or given up.
pub proof fn law_change_moves_references(current: Option<SecretRef>, change: StagedChange)
    ensures
        ({
            let next = next_reference(current, change);
            let installed = installed_reference(change);
            let retired = retired_reference(current, change);
            &&& change is Keep ==> next == current && installed is None && retired is None
            &&& change is Clear ==> next is None && installed is None && retired == current
            &&& change matches StagedChange::Replace(new) ==> {
                &&& next == Some(new)
                &&& installed == Some(new)
                &&& current is None ==> retired is None
                &&& current matches Some(old) ==> if old.key()@ == new.key()@ {
                    retired is None
                } else {
                    retired == Some(old)
                }
            }
        }),
{
}

/// A secret is read back from the vault as it was found there, and a reference whose secret is
/// missing is a failure of the vault.
pub proof fn law_lookup_needs_the_secret(found: Result<Option<SecretValue>, SecretVaultError>)
    ensures
        found matches Ok(Some(value)) ==> looked_up(found) == Ok::<SecretValue, StorageError>(value),
        found matches Ok(None) ==> looked_up(found) is Err,
        found is Err ==> looked_up(found) is Err,
        looked_up(found) matches Err(error) ==> (error matches StorageError::SecretVault {
            operation,
            source,
        } && operation == "get" && source == (match found {
            Err(failure) => failure,
            Ok(_) => SecretVaultError::Backend,
        })),
{
}

/// A cleanup asks for the deletion of every queued reference that no record holds, in the order of
/// the queue, and of no other.
pub proof fn law_cleanup_asks_for_unheld_references(
    queue: Seq<String>,
    held: Seq<String>,
    reference: String,
)
    ensures
        unheld(Seq::empty(), held).len() == 0,
        (exists|i: int| 0 <= i < held.len() && (#[trigger] held[i])@ == reference@) ==> unheld(
            queue.push(reference),
            held,
        ) == unheld(queue, held),
        (forall|i: int| 0 <= i < held.len() ==> (#[trigger] held[i])@ != reference@) ==> unheld(
            queue.push(reference),
            held,
        ) == unheld(queue, held).push(reference),
{
    assert(queue.push(reference).drop_last() =~= queue);
}

/// A queued reference leaves the queue exactly if no record holds it and the vault answered, in its
/// turn, that the secret is deleted; otherwise it stays, in its place.
pub proof fn law_cleanup_follows_the_answers(
    queue: Seq<String>,
    held: Seq<String>,
    answers: Seq<Result<(), SecretVaultError>>,
    reference: String,
)
    ensures
        cleaned(Seq::empty(), held, answers).len() == 0,
        still_queued(Seq::empty(), held, answers).len() == 0,
        ({
            let turn = unheld(queue, held).len();
            if (forall|i: int| 0 <= i < held.len() ==> (#[trigger] held[i])@ != reference@) && turn
                < answers.len() && answers[turn as int] is Ok {
                &&& cleaned(queue.push(reference), held, answers) == cleaned(
                    queue,
                    held,
                    answers,
                ).push(reference)
                &&& still_queued(queue.push(reference), held, answers) == still_queued(
                    queue,
                    held,
                    answers,
                )
            } else {
                &&& cleaned(queue.push(reference), held, answers) == cleaned(queue, held, answers)
                &&& still_queued(queue.push(reference), held, answers) == still_queued(
                    queue,
                    held,
                    answers,
                ).push(reference)
            }
        }),
{
    assert(queue.push(reference).drop_last() =~= queue);
}

} // verus!
