use vstd::prelude::*;

use crate::digest::{
    absorb, absorbed, finish_hash, same_digest, sha256_digest, start_hash, ByteHasher,
};
use crate::error::StorageError;
use crate::identity::hyphenated;
use crate::number::to_sql_i64;
use crate::storage::Storage;
use crate::text::{byte_len, contains_char, same_text, text_len};
use crate::transfer::model::{
    nonempty_text_check, validate_nonempty_text, StoredArtifactRow, TransferArtifactRecord,
    TransferTaskRecord, MAX_FILE_NAME_BYTES, MAX_MEDIA_TYPE_BYTES,
};
use crate::transfer::task::{cancellable, succeed, task_succeeded};

verus! {

/// What is asked of a new artifact.
pub struct NewTransferArtifact {
    /// Task that the artifact belongs to.
    pub task_id: Option<i64>,
    /// Name shown to the user.
    pub file_name: String,
    /// Media type.
    pub media_type: String,
    /// Format of the contents.
    pub format: String,
    /// Extension of the managed file.
    pub extension: String,
    /// Expiry time as Unix epoch milliseconds.
    pub expires_at_ms: Option<i64>,
}

/// An artifact whose file is being written.
pub struct PendingArtifact {
    /// Opaque artifact id.
    pub id: String,
    /// Task that the artifact belongs to.
    pub task_id: Option<i64>,
    /// Name of the file while it is written.
    pub part_name: String,
    /// Name of the file once it is published.
    pub storage_name: String,
    /// Name shown to the user.
    pub file_name: String,
    /// Media type.
    pub media_type: String,
    /// Format of the contents.
    pub format: String,
    /// Expiry time as Unix epoch milliseconds.
    pub expires_at_ms: Option<i64>,
}

/// An artifact as it is published, with its task.
pub struct PublishedArtifact {
    /// The artifact.
    pub artifact: TransferArtifactRecord,
    /// The task, ended with success.
    pub task: Option<TransferTaskRecord>,
}

/// The digest and the length of the contents of an artifact, while they are read.
pub struct ArtifactDigest {
    hasher: ByteHasher,
    byte_count: u64,
}

impl View for ArtifactDigest {
    type V = Seq<u8>;

    closed spec fn view(&self) -> Seq<u8> {
        absorbed(self.hasher)
    }
}

/// An ASCII letter.
pub open spec fn letter(c: char) -> bool {
    ('A' <= c && c <= 'Z') || ('a' <= c && c <= 'z')
}

/// An ASCII letter or digit.
pub open spec fn alphanumeric(c: char) -> bool {
    ('0' <= c && c <= '9') || letter(c)
}

/// A character that the name of a managed file may have.
pub open spec fn storage_char(c: char) -> bool {
    alphanumeric(c) || c == '-' || c == '_' || c == '.'
}

/// How a system writes the paths of its files.
#[derive(Debug, Clone, Copy, PartialEq, Eq, Structural)]
pub enum PathStyle {
    /// Components are separated by `/`.
    Unix,
    /// Components are separated by `/` or `\`, and a path may start with a drive.
    Windows,
}

/// A path that starts with a drive: a letter and a colon.
pub open spec fn names_drive(name: Seq<char>) -> bool {
    name.len() >= 2 && letter(name[0]) && name[1] == ':'
}

/// The name is a single component of a path.
pub open spec fn plain_file_name(style: PathStyle, name: Seq<char>) -> bool {
    &&& name.len() > 0
    &&& !name.contains('/')
    &&& name != "."@
    &&& name != ".."@
    &&& style is Windows ==> !name.contains('\\') && !names_drive(name)
}

/// An extension of at most sixteen ASCII letters and digits.
pub open spec fn extension_valid(extension: Seq<char>) -> bool {
    &&& extension.len() > 0
    &&& byte_len(extension) <= 16
    &&& forall|i: int| 0 <= i < extension.len() ==> alphanumeric(#[trigger] extension[i])
}

/// The name of a managed file.
pub open spec fn storage_name_valid(name: Seq<char>) -> bool {
    &&& name.len() > 0
    &&& byte_len(name) <= 128
    &&& name != "."@
    &&& name != ".."@
    &&& forall|i: int| 0 <= i < name.len() ==> storage_char(#[trigger] name[i])
}

/// The rules of a new artifact; the first one broken decides the failure.
pub open spec fn artifact_fields_check(
    style: PathStyle,
    file_name: Seq<char>,
    media_type: Seq<char>,
    format: Seq<char>,
    extension: Seq<char>,
) -> Result<(), StorageError> {
    if nonempty_text_check(file_name, MAX_FILE_NAME_BYTES, "artifact file name") is Err {
        Err(StorageError::InvalidTransfer("artifact file name"))
    } else if !plain_file_name(style, file_name) {
        Err(StorageError::InvalidTransfer("artifact file name must not contain a path"))
    } else if nonempty_text_check(media_type, MAX_MEDIA_TYPE_BYTES, "artifact media type") is Err {
        Err(StorageError::InvalidTransfer("artifact media type"))
    } else if nonempty_text_check(format, 32, "artifact format") is Err {
        Err(StorageError::InvalidTransfer("artifact format"))
    } else if !extension_valid(extension) {
        Err(StorageError::InvalidTransfer("artifact extension is invalid"))
    } else {
        Ok(())
    }
}

/// What a new artifact and its task have to meet.
pub open spec fn begin_artifact_check(
    style: PathStyle,
    input: NewTransferArtifact,
    task: Option<TransferTaskRecord>,
) -> Result<(), StorageError> {
    let fields = artifact_fields_check(
        style,
        input.file_name@,
        input.media_type@,
        input.format@,
        input.extension@,
    );
    if fields is Err {
        fields
    } else {
        match input.task_id {
            None => Ok(()),
            Some(task_id) => match task {
                None => Err(StorageError::TransferTaskNotFound(task_id)),
                Some(record) => if !cancellable(record) {
                    Err(
                        StorageError::InvalidTransfer(
                            "task cannot create an artifact in its current state",
                        ),
                    )
                } else {
                    Ok(())
                },
            },
        }
    }
}

/// A pending artifact is written under a partial name, and published under its id and extension.
pub open spec fn artifact_begun(
    pending: PendingArtifact,
    input: NewTransferArtifact,
    id: String,
) -> bool {
    &&& pending.part_name@ == id@ + ".part"@
    &&& pending.storage_name@ == id@ + "."@ + input.extension@
    &&& pending == (PendingArtifact {
        id,
        task_id: input.task_id,
        part_name: pending.part_name,
        storage_name: pending.storage_name,
        file_name: input.file_name,
        media_type: input.media_type,
        format: input.format,
        expires_at_ms: input.expires_at_ms,
    })
}

/// What an artifact and its task have to meet to be published.
pub open spec fn publish_check(
    pending: PendingArtifact,
    contents: Seq<u8>,
    task: Option<TransferTaskRecord>,
) -> Result<(), StorageError> {
    if contents.len() > i64::MAX {
        Err(StorageError::NumericRange("artifact byte count"))
    } else if pending.task_id is Some && !(task matches Some(record) && cancellable(record)) {
        Err(StorageError::InvalidTransfer("task cannot publish an artifact in its current state"))
    } else {
        Ok(())
    }
}

/// A published artifact, recorded with the length and the digest of its contents, and whose task has
/// succeeded with it.
pub open spec fn artifact_published(
    published: PublishedArtifact,
    pending: PendingArtifact,
    contents: Seq<u8>,
    task: Option<TransferTaskRecord>,
    timestamp: i64,
) -> bool {
    &&& published.artifact == (TransferArtifactRecord {
        id: pending.id,
        task_id: pending.task_id,
        file_name: pending.file_name,
        media_type: pending.media_type,
        format: pending.format,
        byte_count: published.artifact.byte_count,
        sha256: published.artifact.sha256,
        created_at_ms: timestamp,
        expires_at_ms: pending.expires_at_ms,
    })
    &&& published.artifact.byte_count == contents.len()
    &&& published.artifact.sha256@ == sha256_digest(contents)
    &&& match published.task {
        None => pending.task_id is None,
        Some(after) => {
            &&& pending.task_id is Some
            &&& after.artifact_id == Some(pending.id)
            &&& task_succeeded(
                TransferTaskRecord { artifact_id: task->0.artifact_id, ..after },
                task->0,
                Seq::empty(),
                timestamp,
            )
        },
    }
}

/// The artifact that may be resolved.
pub open spec fn artifact_found(
    id: String,
    row: Option<StoredArtifactRow>,
    timestamp: i64,
) -> Result<StoredArtifactRow, StorageError> {
    match row {
        None => Err(StorageError::TransferArtifactNotFound(id)),
        Some(stored) => if stored.record.expires_at_ms matches Some(expiry) && expiry
            <= timestamp {
            Err(StorageError::TransferArtifactNotFound(id))
        } else if !storage_name_valid(stored.storage_name@) {
            Err(StorageError::Integrity("transfer artifact storage name is invalid"))
        } else {
            Ok(stored)
        },
    }
}

/// What is found where the file of an artifact is expected.
#[derive(Debug, Clone, Copy, PartialEq, Eq, Structural)]
pub struct ArtifactPath {
    /// A regular file, and no link to one.
    pub regular: bool,
    /// Inside the managed directory once all links are followed.
    pub inside: bool,
}

/// The file of an artifact is a regular file of the managed directory.
pub open spec fn artifact_path_check(path: ArtifactPath) -> Result<(), StorageError> {
    if !path.regular {
        Err(StorageError::Integrity("transfer artifact is not a regular managed file"))
    } else if !path.inside {
        Err(StorageError::Integrity("transfer artifact escaped the managed directory"))
    } else {
        Ok(())
    }
}

/// The contents of an artifact are those that were published.
pub open spec fn artifact_content_check(record: TransferArtifactRecord, contents: Seq<u8>) -> Result<
    (),
    StorageError,
> {
    if contents.len() != record.byte_count {
        Err(StorageError::Integrity("transfer artifact size changed while it was verified"))
    } else if sha256_digest(contents) != record.sha256@ {
        Err(StorageError::Integrity("transfer artifact SHA-256 does not match durable metadata"))
    } else {
        Ok(())
    }
}

/// What is found of the file of an artifact: where it is, its length, and the bytes that are read
/// from it.
pub struct ArtifactFile {
    /// What is found at its path.
    pub path: ArtifactPath,
    /// Its length when it is opened.
    pub length: u64,
    /// Its contents.
    pub contents: ArtifactDigest,
}

/// The length of the file of an artifact is the one that was published.
pub open spec fn artifact_size_check(record: TransferArtifactRecord, file_length: u64) -> Result<
    (),
    StorageError,
> {
    if file_length == record.byte_count {
        Ok(())
    } else {
        Err(StorageError::Integrity("transfer artifact size does not match durable metadata"))
    }
}

/// The artifact that is resolved: a live one, whose file is a regular file of the managed directory
/// with the contents that were published.
pub open spec fn artifact_resolved(
    id: String,
    row: Option<StoredArtifactRow>,
    timestamp: i64,
    path: ArtifactPath,
    file_length: u64,
    contents: Seq<u8>,
) -> Result<TransferArtifactRecord, StorageError> {
    match artifact_found(id, row, timestamp) {
        Err(error) => Err(error),
        Ok(stored) => if artifact_path_check(path) is Err {
            Err(artifact_path_check(path)->Err_0)
        } else if artifact_size_check(stored.record, file_length) is Err {
            Err(artifact_size_check(stored.record, file_length)->Err_0)
        } else if artifact_content_check(stored.record, contents) is Err {
            Err(artifact_content_check(stored.record, contents)->Err_0)
        } else {
            Ok(stored.record)
        },
    }
}

fn is_alphanumeric(c: char) -> (result: bool)
    ensures
        result == alphanumeric(c),
{
    ('0' <= c && c <= '9') || ('A' <= c && c <= 'Z') || ('a' <= c && c <= 'z')
}

fn has_only_alphanumerics(text: &str) -> (result: bool)
    ensures
        result == (forall|i: int| 0 <= i < text@.len() ==> alphanumeric(#[trigger] text@[i])),
{
    for c in it: text.chars()
        invariant
            it.seq() == text@,
            forall|i: int| 0 <= i < it.index() ==> alphanumeric(#[trigger] text@[i]),
    {
        if !is_alphanumeric(c) {
            assert(!alphanumeric(text@[it.index() as int]));
            return false;
        }
    }
    true
}

fn has_only_storage_chars(text: &str) -> (result: bool)
    ensures
        result == (forall|i: int| 0 <= i < text@.len() ==> storage_char(#[trigger] text@[i])),
{
    for c in it: text.chars()
        invariant
            it.seq() == text@,
            forall|i: int| 0 <= i < it.index() ==> storage_char(#[trigger] text@[i]),
    {
        if !(is_alphanumeric(c) || c == '-' || c == '_' || c == '.') {
            assert(!storage_char(text@[it.index() as int]));
            return false;
        }
    }
    true
}

/// Checks the name of a managed file.
pub fn validate_storage_name(value: &str) -> (result: Result<(), StorageError>)
    ensures
        result == (if storage_name_valid(value@) {
            Ok::<(), StorageError>(())
        } else {
            Err(StorageError::Integrity("transfer artifact storage name is invalid"))
        }),
{
    if value.is_empty() || text_len(value) > 128 || same_text(value, ".") || same_text(value, "..")
        || !has_only_storage_chars(value) {
        return Err(StorageError::Integrity("transfer artifact storage name is invalid"));
    }
    Ok(())
}

/// Tests whether a path starts with a drive.
fn starts_with_drive(name: &str) -> (result: bool)
    ensures
        result == names_drive(name@),
{
    let mut first: Option<char> = None;
    for c in it: name.chars()
        invariant
            it.seq() == name@,
            it.index() <= 1,
            first == (if it.index() == 0 {
                None
            } else {
                Some(name@[0])
            }),
    {
        if let Some(drive) = first {
            return (('A' <= drive && drive <= 'Z') || ('a' <= drive && drive <= 'z')) && c == ':';
        }
        first = Some(c);
    }
    false
}

/// Tests whether a name is a single component of a path.
pub fn is_plain_file_name(style: PathStyle, name: &str) -> (result: bool)
    ensures
        result == plain_file_name(style, name@),
{
    if name.is_empty() || contains_char(name, '/') || same_text(name, ".") || same_text(
        name,
        "..",
    ) {
        return false;
    }
    match style {
        PathStyle::Unix => true,
        PathStyle::Windows => !contains_char(name, '\\') && !starts_with_drive(name),
    }
}

/// Checks a new artifact.
pub fn validate_artifact_fields(
    style: PathStyle,
    file_name: &str,
    media_type: &str,
    format: &str,
    extension: &str,
) -> (result: Result<(), StorageError>)
    ensures
        result == artifact_fields_check(style, file_name@, media_type@, format@, extension@),
{
    validate_nonempty_text(file_name, MAX_FILE_NAME_BYTES, "artifact file name")?;
    if !is_plain_file_name(style, file_name) {
        return Err(StorageError::InvalidTransfer("artifact file name must not contain a path"));
    }
    validate_nonempty_text(media_type, MAX_MEDIA_TYPE_BYTES, "artifact media type")?;
    validate_nonempty_text(format, 32, "artifact format")?;
    if extension.is_empty() || text_len(extension) > 16 || !has_only_alphanumerics(extension) {
        return Err(StorageError::InvalidTransfer("artifact extension is invalid"));
    }
    Ok(())
}

impl ArtifactDigest {
    #[verifier::type_invariant]
    spec fn counted(self) -> bool {
        absorbed(self.hasher).len() == self.byte_count
    }

    /// Starts before the first byte.
    pub fn new() -> (result: ArtifactDigest)
        ensures
            result@ == Seq::<u8>::empty(),
    {
        ArtifactDigest { hasher: start_hash(), byte_count: 0 }
    }

    /// Takes in the next bytes.
    pub fn update(self, bytes: &[u8]) -> (result: Result<ArtifactDigest, StorageError>)
        ensures
            match result {
                Ok(longer) => longer@ == self@ + bytes@,
                Err(error) => {
                    &&& self@.len() + bytes@.len() > u64::MAX
                    &&& error == StorageError::NumericRange("artifact byte count")
                },
            },
    {
        proof {
            use_type_invariant(&self);
        }
        let byte_count: u64 = match self.byte_count.checked_add(bytes.len() as u64) {
            Some(byte_count) => byte_count,
            None => return Err(StorageError::NumericRange("artifact byte count")),
        };
        let mut hasher = self.hasher;
        absorb(&mut hasher, bytes);
        Ok(ArtifactDigest { hasher, byte_count })
    }

    /// Returns the number of bytes taken in.
    pub fn byte_count(&self) -> (result: u64)
        ensures
            result == self@.len(),
    {
        proof {
            use_type_invariant(self);
        }
        self.byte_count
    }

    /// Returns the digest of the bytes taken in.
    pub fn finish(self) -> (result: [u8; 32])
        ensures
            result@ == sha256_digest(self@),
    {
        finish_hash(self.hasher)
    }
}

impl Storage {
    /// Begins a managed artifact.
    pub fn begin_transfer_artifact(
        style: PathStyle,
        input: NewTransferArtifact,
        task: &Option<TransferTaskRecord>,
        id: String,
    ) -> (result: Result<PendingArtifact, StorageError>)
        ensures
            match result {
                Ok(pending) => begin_artifact_check(style, input, *task) is Ok && artifact_begun(
                    pending,
                    input,
                    id,
                ),
                Err(error) => begin_artifact_check(style, input, *task) == Err::<(), StorageError>(
                    error,
                ),
            },
    {
        validate_artifact_fields(
            style,
            input.file_name.as_str(),
            input.media_type.as_str(),
            input.format.as_str(),
            input.extension.as_str(),
        )?;
        if let Some(task_id) = input.task_id {
            match task {
                None => return Err(StorageError::TransferTaskNotFound(task_id)),
                Some(record) => {
                    if record.status.is_terminal() || record.cancel_requested {
                        return Err(
                            StorageError::InvalidTransfer(
                                "task cannot create an artifact in its current state",
                            ),
                        );
                    }
                },
            }
        }
        let part_name = id.clone().concat(".part");
        let storage_name = id.clone().concat(".").concat(input.extension.as_str());
        Ok(
            PendingArtifact {
                id,
                task_id: input.task_id,
                part_name,
                storage_name,
                file_name: input.file_name,
                media_type: input.media_type,
                format: input.format,
                expires_at_ms: input.expires_at_ms,
            },
        )
    }

    /// Publishes an artifact whose file is complete, and ends its task with success.
    pub fn finish_transfer_artifact(
        pending: PendingArtifact,
        contents: ArtifactDigest,
        task: Option<TransferTaskRecord>,
        timestamp: i64,
    ) -> (result: Result<PublishedArtifact, StorageError>)
        ensures
            match result {
                Ok(published) => publish_check(pending, contents@, task) is Ok
                    && artifact_published(published, pending, contents@, task, timestamp),
                Err(error) => publish_check(pending, contents@, task) == Err::<(), StorageError>(
                    error,
                ),
            },
    {
        let byte_count: u64 = contents.byte_count();
        to_sql_i64(byte_count, "artifact byte count")?;
        let sha256 = contents.finish();
        let ended = match (pending.task_id, task) {
            (None, _) => None,
            (Some(_), Some(record)) => {
                if record.status.is_terminal() || record.cancel_requested {
                    return Err(
                        StorageError::InvalidTransfer(
                            "task cannot publish an artifact in its current state",
                        ),
                    );
                }
                let id = pending.id.clone();
                let after = succeed(record, "", timestamp);
                proof {
                    reveal_strlit("");
                    assert(""@ =~= Seq::<char>::empty());
                }
                Some(TransferTaskRecord { artifact_id: Some(id), ..after })
            },
            (Some(_), None) => {
                return Err(
                    StorageError::InvalidTransfer(
                        "task cannot publish an artifact in its current state",
                    ),
                );
            },
        };
        Ok(
            PublishedArtifact {
                artifact: TransferArtifactRecord {
                    id: pending.id,
                    task_id: pending.task_id,
                    file_name: pending.file_name,
                    media_type: pending.media_type,
                    format: pending.format,
                    byte_count,
                    sha256,
                    created_at_ms: timestamp,
                    expires_at_ms: pending.expires_at_ms,
                },
                task: ended,
            },
        )
    }

    /// Finds the artifact that may be resolved.
    pub fn find_transfer_artifact(id: &String, row: Option<StoredArtifactRow>, timestamp: i64) -> (
    result: Result<StoredArtifactRow, StorageError>)
        ensures
            result == artifact_found(*id, row, timestamp),
    {
        let stored = match row {
            Some(stored) => stored,
            None => return Err(StorageError::TransferArtifactNotFound(id.clone())),
        };
        if let Some(expiry) = stored.record.expires_at_ms {
            if expiry <= timestamp {
                return Err(StorageError::TransferArtifactNotFound(id.clone()));
            }
        }
        validate_storage_name(stored.storage_name.as_str())?;
        Ok(stored)
    }

    /// Checks that the file of an artifact is a regular file of the managed directory.
    pub fn check_artifact_path(path: ArtifactPath) -> (result: Result<(), StorageError>)
        ensures
            result == artifact_path_check(path),
    {
        if !path.regular {
            return Err(StorageError::Integrity("transfer artifact is not a regular managed file"));
        }
        if !path.inside {
            return Err(StorageError::Integrity("transfer artifact escaped the managed directory"));
        }
        Ok(())
    }

    /// Checks the length of the file of an artifact, before it is read.
    pub fn check_artifact_size(record: &TransferArtifactRecord, file_length: u64) -> (result: Result<
        (),
        StorageError,
    >)
        ensures
            result == artifact_size_check(*record, file_length),
    {
        if file_length != record.byte_count {
            return Err(
                StorageError::Integrity("transfer artifact size does not match durable metadata"),
            );
        }
        Ok(())
    }

    /// Checks the contents of an artifact, once all of them have been read.
    pub fn verify_transfer_artifact(record: &TransferArtifactRecord, contents: ArtifactDigest) -> (
    result: Result<(), StorageError>)
        ensures
            result == artifact_content_check(*record, contents@),
    {
        if contents.byte_count() != record.byte_count {
            return Err(
                StorageError::Integrity("transfer artifact size changed while it was verified"),
            );
        }
        let sha256 = contents.finish();
        if !same_digest(&sha256, &record.sha256) {
            return Err(
                StorageError::Integrity("transfer artifact SHA-256 does not match durable metadata"),
            );
        }
        Ok(())
    }

    /// Resolves an artifact from its row and its file.
    pub fn resolve_transfer_artifact(
        id: &String,
        row: Option<StoredArtifactRow>,
        timestamp: i64,
        file: ArtifactFile,
    ) -> (result: Result<TransferArtifactRecord, StorageError>)
        ensures
            result == artifact_resolved(
                *id,
                row,
                timestamp,
                file.path,
                file.length,
                file.contents@,
            ),
    {
        let stored = Storage::find_transfer_artifact(id, row, timestamp)?;
        Storage::check_artifact_path(file.path)?;
        Storage::check_artifact_size(&stored.record, file.length)?;
        Storage::verify_transfer_artifact(&stored.record, file.contents)?;
        Ok(stored.record)
    }

    /// Decides whether an artifact may be deleted before its time, and which file goes with it; an
    /// artifact of a task stays.
    pub fn delete_temporary_transfer_artifact(row: Option<StoredArtifactRow>) -> (result: Result<
        Option<String>,
        StorageError,
    >)
        ensures
            result == (match row {
                None => Ok::<Option<String>, StorageError>(None),
                Some(stored) => if stored.record.task_id is Some {
                    Ok(None)
                } else if !storage_name_valid(stored.storage_name@) {
                    Err(StorageError::Integrity("transfer artifact storage name is invalid"))
                } else {
                    Ok(Some(stored.storage_name))
                },
            }),
    {
        match row {
            None => Ok(None),
            Some(stored) => {
                if stored.record.task_id.is_some() {
                    return Ok(None);
                }
                validate_storage_name(stored.storage_name.as_str())?;
                Ok(Some(stored.storage_name))
            },
        }
    }
}

/// The name under which an artifact is published is the name of a managed file.
pub proof fn law_published_name_is_managed(
    pending: PendingArtifact,
    input: NewTransferArtifact,
    id: String,
)
    requires
        hyphenated(id@),
        extension_valid(input.extension@),
        artifact_begun(pending, input, id),
    ensures
        storage_name_valid(pending.storage_name@),
{
    let name = pending.storage_name@;
    let extension = input.extension@;
    reveal_strlit(".");
    reveal_strlit("..");
    assert forall|i: int| 0 <= i < name.len() implies storage_char(#[trigger] name[i]) by {
        if i < 36 {
            assert(name[i] == id@[i]);
        } else if i == 36 {
            assert(name[i] == '.');
        } else {
            assert(name[i] == extension[i - 37]);
        }
    }
    assert(vstd::utf8::is_ascii_chars(extension)) by {
        assert forall|i: int| 0 <= i < extension.len() implies extension[i] <= '\x7f' by {
            assert(alphanumeric(extension[i]));
        }
    }
    vstd::utf8::is_ascii_chars_encode_utf8(extension);
    assert(vstd::utf8::is_ascii_chars(name)) by {
        assert forall|i: int| 0 <= i < name.len() implies name[i] <= '\x7f' by {
            assert(storage_char(name[i]));
        }
    }
    vstd::utf8::is_ascii_chars_encode_utf8(name);
    assert(name.len() == 37 + extension.len());
    assert(byte_len(extension) == extension.len());
}

/// What was published is resolved until it expires, as long as its file holds the same bytes.
pub proof fn law_published_artifact_resolves(
    published: PublishedArtifact,
    pending: PendingArtifact,
    input: NewTransferArtifact,
    contents: Seq<u8>,
    task: Option<TransferTaskRecord>,
    timestamp: i64,
    later: i64,
)
    requires
        hyphenated(pending.id@),
        extension_valid(input.extension@),
        artifact_begun(pending, input, pending.id),
        artifact_published(published, pending, contents, task, timestamp),
        pending.expires_at_ms matches Some(expiry) ==> later < expiry,
    ensures
        artifact_resolved(
            pending.id,
            Some(
                StoredArtifactRow {
                    record: published.artifact,
                    storage_name: pending.storage_name,
                },
            ),
            later,
            ArtifactPath { regular: true, inside: true },
            contents.len() as u64,
            contents,
        ) == Ok::<TransferArtifactRecord, StorageError>(published.artifact),
{
    law_published_name_is_managed(pending, input, pending.id);
}

/// A file with another length or another digest is refused, whatever else is found.
pub proof fn law_changed_artifact_is_refused(
    id: String,
    stored: StoredArtifactRow,
    timestamp: i64,
    path: ArtifactPath,
    file_length: u64,
    contents: Seq<u8>,
)
    requires
        contents.len() != stored.record.byte_count || sha256_digest(contents)
            != stored.record.sha256@,
    ensures
        artifact_resolved(id, Some(stored), timestamp, path, file_length, contents) is Err,
{
}

/// An expired artifact is not found, whatever its file holds.
pub proof fn law_expired_artifact_is_not_found(
    id: String,
    stored: StoredArtifactRow,
    timestamp: i64,
    path: ArtifactPath,
    file_length: u64,
    contents: Seq<u8>,
)
    requires
        stored.record.expires_at_ms matches Some(expiry) && expiry <= timestamp,
    ensures
        artifact_resolved(id, Some(stored), timestamp, path, file_length, contents) == Err::<
            TransferArtifactRecord,
            StorageError,
        >(StorageError::TransferArtifactNotFound(id)),
{
}

/// A task that has ended, or is to be cancelled, neither begins nor publishes an artifact.
pub proof fn law_only_live_tasks_publish(
    style: PathStyle,
    input: NewTransferArtifact,
    pending: PendingArtifact,
    contents: Seq<u8>,
    task: TransferTaskRecord,
)
    requires
        task.status.terminal() || task.cancel_requested,
        input.task_id is Some,
        pending.task_id is Some,
    ensures
        begin_artifact_check(style, input, Some(task)) is Err,
        publish_check(pending, contents, Some(task)) is Err,
{
}

} // verus!
