use vstd::prelude::*;

use crate::error::StorageError;
use crate::identity::uuid_text;
use crate::result::naming::{file_stem, named, names_result, result_file_stem};
use crate::storage::Storage;
use crate::text::same_text;

verus! {

/// Bytes that the index records for a result.
pub struct IndexedBytes {
    /// Opaque result id.
    pub id: String,
    /// Length of the file that the index covers, as the database holds it.
    pub committed_length: i64,
}

/// A file of the results directory.
pub struct FileEntry {
    /// File name.
    pub name: String,
    /// Length in bytes.
    pub length: u64,
}

/// The first entry of a result in the index, or the length of the index.
pub open spec fn entry_of(index: Seq<IndexedBytes>, id: Seq<char>) -> int
    decreases index.len(),
{
    if index.len() == 0 {
        0
    } else if index[0].id@ == id {
        0
    } else {
        1 + entry_of(index.drop_first(), id)
    }
}

/// All bytes that the index records.
pub open spec fn indexed_bytes(index: Seq<IndexedBytes>) -> int
    decreases index.len(),
{
    if index.len() == 0 {
        0
    } else {
        index[0].committed_length + indexed_bytes(index.drop_first())
    }
}

/// All bytes of the files that belong to results.
pub open spec fn physical_bytes(files: Seq<FileEntry>) -> int
    decreases files.len(),
{
    if files.len() == 0 {
        0
    } else if !names_result(files[0].name@) {
        physical_bytes(files.drop_first())
    } else {
        files[0].length + physical_bytes(files.drop_first())
    }
}

/// Bytes that count toward the quota: of a result file that is indexed the larger of its length
/// and its indexed bytes, of any other result file its length, and the indexed bytes of results
/// without a file. Files under other names do not count.
pub open spec fn retained_bytes(index: Seq<IndexedBytes>, files: Seq<FileEntry>) -> int
    decreases files.len(),
{
    if files.len() == 0 {
        indexed_bytes(index)
    } else if !names_result(files[0].name@) {
        retained_bytes(index, files.drop_first())
    } else {
        let entry = entry_of(index, file_stem(files[0].name@));
        if entry == index.len() {
            files[0].length + retained_bytes(index, files.drop_first())
        } else if index[entry].committed_length > files[0].length {
            index[entry].committed_length + retained_bytes(index.remove(entry), files.drop_first())
        } else {
            files[0].length + retained_bytes(index.remove(entry), files.drop_first())
        }
    }
}

/// Every length that the index records is a length.
pub open spec fn lengths_valid(index: Seq<IndexedBytes>) -> bool {
    forall|i: int| 0 <= i < index.len() ==> (#[trigger] index[i]).committed_length >= 0
}

/// Whether further bytes fit the quota.
pub open spec fn quota_check(
    quota: u64,
    requested: u64,
    index: Seq<IndexedBytes>,
    files: Seq<FileEntry>,
) -> Result<(), StorageError> {
    let retained = retained_bytes(index, files);
    if !lengths_valid(index) {
        Err(StorageError::NumericRange("indexed result bytes"))
    } else if retained > u64::MAX {
        Err(StorageError::NumericRange("retained result bytes"))
    } else {
        let available = if retained < quota {
            (quota - retained) as u64
        } else {
            0
        };
        if requested > available {
            Err(StorageError::QuotaExceeded { requested, available })
        } else {
            Ok(())
        }
    }
}

proof fn lemma_entry_of(index: Seq<IndexedBytes>, id: Seq<char>, at: int)
    requires
        0 <= at <= index.len(),
        forall|j: int| 0 <= j < at ==> (#[trigger] index[j]).id@ != id,
        at < index.len() ==> index[at].id@ == id,
    ensures
        entry_of(index, id) == at,
    decreases index.len(),
{
    if index.len() > 0 && at > 0 {
        assert(index[0].id@ != id);
        assert forall|j: int| 0 <= j < at - 1 implies (#[trigger] index.drop_first()[j]).id@
            != id by {
            assert(index.drop_first()[j] == index[j + 1]);
        }
        lemma_entry_of(index.drop_first(), id, at - 1);
    }
}

proof fn lemma_entry_bounds(index: Seq<IndexedBytes>, id: Seq<char>)
    ensures
        0 <= entry_of(index, id) <= index.len(),
        entry_of(index, id) < index.len() ==> index[entry_of(index, id)].id@ == id,
    decreases index.len(),
{
    if index.len() > 0 && index[0].id@ != id {
        lemma_entry_bounds(index.drop_first(), id);
    }
}

proof fn lemma_bytes_are_counts(index: Seq<IndexedBytes>)
    requires
        lengths_valid(index),
    ensures
        indexed_bytes(index) >= 0,
    decreases index.len(),
{
    if index.len() > 0 {
        assert(index[0].committed_length >= 0);
        assert forall|i: int| 0 <= i < index.drop_first().len() implies (
        #[trigger] index.drop_first()[i]).committed_length >= 0 by {
            assert(index.drop_first()[i] == index[i + 1]);
        }
        lemma_bytes_are_counts(index.drop_first());
    }
}

proof fn lemma_removed(index: Seq<IndexedBytes>, entry: int)
    requires
        0 <= entry < index.len(),
    ensures
        indexed_bytes(index) == index[entry].committed_length + indexed_bytes(index.remove(entry)),
        lengths_valid(index) ==> lengths_valid(index.remove(entry)),
    decreases index.len(),
{
    if entry == 0 {
        assert(index.remove(0) =~= index.drop_first());
    } else {
        lemma_removed(index.drop_first(), entry - 1);
        assert(index.drop_first().remove(entry - 1) =~= index.remove(entry).drop_first());
        assert(index.remove(entry)[0] == index[0]);
    }
    if lengths_valid(index) {
        assert forall|i: int| 0 <= i < index.remove(entry).len() implies (#[trigger] index.remove(
            entry,
        )[i]).committed_length >= 0 by {
            if i < entry {
                assert(index.remove(entry)[i] == index[i]);
            } else {
                assert(index.remove(entry)[i] == index[i + 1]);
            }
        }
    }
}

/// No byte of a file and no indexed byte escapes the quota.
pub proof fn law_quota_counts_files_and_index(index: Seq<IndexedBytes>, files: Seq<FileEntry>)
    requires
        lengths_valid(index),
    ensures
        retained_bytes(index, files) >= physical_bytes(files),
        retained_bytes(index, files) >= indexed_bytes(index),
        retained_bytes(index, files) <= physical_bytes(files) + indexed_bytes(index),
    decreases files.len(),
{
    if files.len() == 0 {
        lemma_bytes_are_counts(index);
    } else if !names_result(files[0].name@) {
        law_quota_counts_files_and_index(index, files.drop_first());
    } else {
        let entry = entry_of(index, file_stem(files[0].name@));
        lemma_entry_bounds(index, file_stem(files[0].name@));
        if entry == index.len() {
            law_quota_counts_files_and_index(index, files.drop_first());
        } else {
            lemma_removed(index, entry);
            assert(index[entry].committed_length >= 0);
            law_quota_counts_files_and_index(index.remove(entry), files.drop_first());
        }
    }
}

fn sum_index(index: &Vec<IndexedBytes>, start: u64) -> (result: Option<u64>)
    requires
        lengths_valid(index@),
    ensures
        match result {
            Some(total) => total == start + indexed_bytes(index@),
            None => start + indexed_bytes(index@) > u64::MAX,
        },
{
    let mut total: u64 = start;
    let mut i: usize = 0;
    proof {
        assert(index@.skip(0) =~= index@);
    }
    while i < index.len()
        invariant
            i <= index@.len(),
            lengths_valid(index@),
            total + indexed_bytes(index@.skip(i as int)) == start + indexed_bytes(index@),
        decreases index@.len() - i,
    {
        proof {
            assert(index@.skip(i as int).drop_first() =~= index@.skip(i + 1));
            assert(index@[i as int].committed_length >= 0);
            assert(lengths_valid(index@.skip(i + 1))) by {
                assert forall|j: int| 0 <= j < index@.skip(i + 1).len() implies (
                #[trigger] index@.skip(i + 1)[j]).committed_length >= 0 by {
                    assert(index@.skip(i + 1)[j] == index@[i + 1 + j]);
                }
            }
            lemma_bytes_are_counts(index@.skip(i + 1));
        }
        total =
        match total.checked_add(index[i].committed_length as u64) {
            Some(next) => next,
            None => return None,
        };
        i = i + 1;
    }
    proof {
        assert(index@.skip(index@.len() as int).len() == 0);
    }
    Some(total)
}

fn take_entry(index: &mut Vec<IndexedBytes>, id: &str) -> (result: Option<u64>)
    requires
        lengths_valid(old(index)@),
    ensures
        ({
            let entry = entry_of(old(index)@, id@);
            match result {
                None => entry == old(index)@.len() && final(index)@ == old(index)@,
                Some(bytes) => {
                    &&& 0 <= entry < old(index)@.len()
                    &&& bytes == old(index)@[entry].committed_length
                    &&& final(index)@ == old(index)@.remove(entry)
                },
            }
        }),
        lengths_valid(final(index)@),
{
    let mut i: usize = 0;
    while i < index.len()
        invariant
            index@ == old(index)@,
            lengths_valid(index@),
            i <= index@.len(),
            forall|j: int| 0 <= j < i ==> (#[trigger] index@[j]).id@ != id@,
        decreases index@.len() - i,
    {
        if same_text(index[i].id.as_str(), id) {
            proof {
                lemma_entry_of(index@, id@, i as int);
                lemma_removed(index@, i as int);
                assert(index@[i as int].committed_length >= 0);
            }
            let found = index.remove(i);
            return Some(found.committed_length as u64);
        }
        i = i + 1;
    }
    proof {
        lemma_entry_of(index@, id@, index@.len() as int);
    }
    None
}

fn sum_retained(index: Vec<IndexedBytes>, files: &Vec<FileEntry>) -> (result: Option<u64>)
    requires
        lengths_valid(index@),
    ensures
        match result {
            Some(total) => total == retained_bytes(index@, files@),
            None => retained_bytes(index@, files@) > u64::MAX,
        },
{
    let ghost first = index@;
    let mut rest = index;
    let mut total: u64 = 0;
    let mut i: usize = 0;
    proof {
        assert(files@.skip(0) =~= files@);
    }
    while i < files.len()
        invariant
            i <= files@.len(),
            first == index@,
            lengths_valid(rest@),
            total + retained_bytes(rest@, files@.skip(i as int)) == retained_bytes(first, files@),
        decreases files@.len() - i,
    {
        let ghost left = files@.skip(i as int);
        proof {
            assert(left[0] == files@[i as int]);
            assert(left.drop_first() =~= files@.skip(i + 1));
        }
        match result_file_stem(files[i].name.as_str()) {
            None => {},
            Some(stem) => {
                let physical: u64 = files[i].length;
                let accounted: u64 = match take_entry(&mut rest, stem) {
                    None => physical,
                    Some(bytes) => if bytes > physical {
                        bytes
                    } else {
                        physical
                    },
                };
                proof {
                    law_quota_counts_files_and_index(rest@, files@.skip(i + 1));
                    lemma_bytes_are_counts(rest@);
                    assert(total + accounted <= retained_bytes(first, files@));
                }
                total =
                match total.checked_add(accounted) {
                    Some(next) => next,
                    None => return None,
                };
            },
        }
        i = i + 1;
    }
    proof {
        assert(files@.skip(files@.len() as int).len() == 0);
    }
    sum_index(&rest, total)
}

impl Storage {
    /// Checks whether further bytes fit the quota, given the indexed results and the files of the
    /// results directory.
    pub fn check_result_quota(
        &self,
        requested: u64,
        index: Vec<IndexedBytes>,
        files: &Vec<FileEntry>,
    ) -> (result: Result<(), StorageError>)
        ensures
            result == quota_check(self.max_retained_bytes, requested, index@, files@),
    {
        let mut i: usize = 0;
        while i < index.len()
            invariant
                i <= index@.len(),
                forall|j: int| 0 <= j < i ==> (#[trigger] index@[j]).committed_length >= 0,
            decreases index@.len() - i,
        {
            if index[i].committed_length < 0 {
                assert(index@[i as int].committed_length < 0);
                return Err(StorageError::NumericRange("indexed result bytes"));
            }
            i = i + 1;
        }
        let retained: u64 = match sum_retained(index, files) {
            Some(retained) => retained,
            None => return Err(StorageError::NumericRange("retained result bytes")),
        };
        let available: u64 = if retained < self.max_retained_bytes {
            self.max_retained_bytes - retained
        } else {
            0
        };
        if requested > available {
            return Err(StorageError::QuotaExceeded { requested, available });
        }
        Ok(())
    }
}

/// A write is accepted only if it leaves the retained bytes within the quota.
pub proof fn law_quota_bounds_retained_bytes(
    quota: u64,
    requested: u64,
    index: Seq<IndexedBytes>,
    files: Seq<FileEntry>,
)
    requires
        requested > 0,
        quota_check(quota, requested, index, files) is Ok,
    ensures
        retained_bytes(index, files) + requested <= quota,
{
}

/// The index records the length of the file.
pub open spec fn recorded(index: Seq<IndexedBytes>, file: FileEntry) -> bool {
    exists|e: int|
        0 <= e < index.len() && #[trigger] named(index[e].id@) == file.name@
            && index[e].committed_length == file.length
}

/// There is a file of the result.
pub open spec fn has_file(files: Seq<FileEntry>, id: Seq<char>) -> bool {
    exists|f: int| 0 <= f < files.len() && (#[trigger] files[f]).name@ == named(id)
}

/// Every result file has exactly one entry in the index, which records the length of the file, and
/// every entry has its file.
pub open spec fn mirrored(index: Seq<IndexedBytes>, files: Seq<FileEntry>) -> bool {
    &&& forall|i: int, j: int|
        0 <= i < j < index.len() ==> (#[trigger] index[i]).id@ != (#[trigger] index[j]).id@
    &&& forall|i: int, j: int|
        0 <= i < j < files.len() ==> (#[trigger] files[i]).name@ != (#[trigger] files[j]).name@
    &&& forall|f: int|
        0 <= f < files.len() && names_result((#[trigger] files[f]).name@) ==> recorded(
            index,
            files[f],
        )
    &&& forall|e: int|
        0 <= e < index.len() ==> uuid_text((#[trigger] index[e]).id@) is Some && has_file(
            files,
            index[e].id@,
        )
}

proof fn lemma_stem(id: Seq<char>)
    ensures
        file_stem(named(id)) == id,
        uuid_text(id) is Some ==> names_result(named(id)),
{
    assert(file_stem(named(id)) =~= id);
}

proof fn lemma_mirrored_rest(index: Seq<IndexedBytes>, files: Seq<FileEntry>)
    requires
        mirrored(index, files),
        files.len() > 0,
    ensures
        !names_result(files[0].name@) ==> mirrored(index, files.drop_first()),
        names_result(files[0].name@) ==> {
            let entry = entry_of(index, file_stem(files[0].name@));
            &&& 0 <= entry < index.len()
            &&& index[entry].committed_length == files[0].length
            &&& mirrored(index.remove(entry), files.drop_first())
        },
{
    let rest = files.drop_first();
    let first = files[0];
    assert forall|i: int, j: int| 0 <= i < j < rest.len() implies (#[trigger] rest[i]).name@ != (
    #[trigger] rest[j]).name@ by {
        assert(rest[i] == files[i + 1] && rest[j] == files[j + 1]);
    }
    if !names_result(first.name@) {
        assert forall|f: int| 0 <= f < rest.len() && names_result(
            (#[trigger] rest[f]).name@,
        ) implies recorded(index, rest[f]) by {
            assert(rest[f] == files[f + 1]);
        }
        assert forall|e: int| 0 <= e < index.len() implies uuid_text((#[trigger] index[e]).id@)
            is Some && has_file(rest, index[e].id@) by {
            let f = choose|f: int|
                0 <= f < files.len() && (#[trigger] files[f]).name@ == named(index[e].id@);
            lemma_stem(index[e].id@);
            assert(rest[f - 1] == files[f]);
        }
    } else {
        let e0 = choose|e: int|
            0 <= e < index.len() && #[trigger] named(index[e].id@) == first.name@
                && index[e].committed_length == first.length;
        lemma_stem(index[e0].id@);
        lemma_entry_of(index, file_stem(first.name@), e0);
        let left = index.remove(e0);
        assert forall|i: int, j: int| 0 <= i < j < left.len() implies (#[trigger] left[i]).id@ != (
        #[trigger] left[j]).id@ by {
            let a = if i < e0 { i } else { i + 1 };
            let b = if j < e0 { j } else { j + 1 };
            assert(left[i] == index[a] && left[j] == index[b]);
        }
        assert forall|f: int| 0 <= f < rest.len() && names_result(
            (#[trigger] rest[f]).name@,
        ) implies recorded(left, rest[f]) by {
            assert(rest[f] == files[f + 1]);
            assert(recorded(index, files[f + 1]));
            let e = choose|e: int|
                0 <= e < index.len() && #[trigger] named(index[e].id@) == rest[f].name@
                    && index[e].committed_length == rest[f].length;
            assert(files[0].name@ != files[f + 1].name@);
            assert(e != e0);
            let at = if e < e0 { e } else { e - 1 };
            assert(left[at] == index[e]);
            assert(named(left[at].id@) == rest[f].name@);
        }
        assert forall|e: int| 0 <= e < left.len() implies uuid_text((#[trigger] left[e]).id@)
            is Some && has_file(rest, left[e].id@) by {
            let at = if e < e0 { e } else { e + 1 };
            assert(left[e] == index[at]);
            let f = choose|f: int|
                0 <= f < files.len() && (#[trigger] files[f]).name@ == named(index[at].id@);
            lemma_stem(index[at].id@);
            lemma_stem(index[e0].id@);
            assert(index[at].id@ != index[e0].id@);
            assert(f != 0);
            assert(rest[f - 1] == files[f]);
        }
    }
}

/// Where the index records the length of every result file and nothing else, the bytes that count
/// are the lengths of the result files: none is counted twice.
pub proof fn law_recorded_files_count_once(index: Seq<IndexedBytes>, files: Seq<FileEntry>)
    requires
        mirrored(index, files),
    ensures
        retained_bytes(index, files) == physical_bytes(files),
    decreases files.len(),
{
    if files.len() == 0 {
        if index.len() > 0 {
            assert(has_file(files, index[0].id@));
        }
    } else {
        lemma_mirrored_rest(index, files);
        if !names_result(files[0].name@) {
            law_recorded_files_count_once(index, files.drop_first());
        } else {
            let entry = entry_of(index, file_stem(files[0].name@));
            law_recorded_files_count_once(index.remove(entry), files.drop_first());
        }
    }
}

/// The length of each result file is added, and that of no other file.
pub proof fn law_file_bytes_are_the_lengths_of_result_files(
    file: FileEntry,
    files: Seq<FileEntry>,
    id: Seq<char>,
)
    ensures
        physical_bytes(Seq::empty()) == 0,
        file.name@ == id + ".c2result"@ && uuid_text(id) is Some ==> physical_bytes(
            seq![file] + files,
        ) == file.length + physical_bytes(files),
        !(exists|stem: Seq<char>|
            file.name@ == #[trigger] named(stem) && uuid_text(stem) is Some) ==> physical_bytes(
            seq![file] + files,
        ) == physical_bytes(files),
{
    lemma_stem(id);
    assert((seq![file] + files).drop_first() =~= files);
}

/// One more file of a result, with one entry for that result in the index, adds the larger of its
/// length and of what the entry records, once. A result file without an entry adds its length, an
/// entry without a file adds what it records, and a file under another name adds nothing.
pub proof fn law_result_counts_its_larger_length(
    id: Seq<char>,
    file: FileEntry,
    entry: IndexedBytes,
    index: Seq<IndexedBytes>,
    files: Seq<FileEntry>,
)
    requires
        uuid_text(id) is Some,
        entry.id@ == id,
        forall|e: int| 0 <= e < index.len() ==> (#[trigger] index[e]).id@ != id,
    ensures
        file.name@ == id + ".c2result"@ && entry.committed_length >= file.length ==> retained_bytes(
            seq![entry] + index,
            seq![file] + files,
        ) == entry.committed_length + retained_bytes(index, files),
        file.name@ == id + ".c2result"@ && entry.committed_length < file.length ==> retained_bytes(
            seq![entry] + index,
            seq![file] + files,
        ) == file.length + retained_bytes(index, files),
        file.name@ == id + ".c2result"@ ==> retained_bytes(index, seq![file] + files) == file.length
            + retained_bytes(index, files),
        !(exists|stem: Seq<char>|
            file.name@ == #[trigger] named(stem) && uuid_text(stem) is Some) ==> retained_bytes(
            index,
            seq![file] + files,
        ) == retained_bytes(index, files),
        (forall|f: int| 0 <= f < files.len() ==> (#[trigger] files[f]).name@ != id + ".c2result"@)
            ==> retained_bytes(seq![entry] + index, files) == entry.committed_length
            + retained_bytes(index, files),
        retained_bytes(Seq::empty(), Seq::empty()) == 0,
{
    lemma_stem(id);
    let longer = seq![entry] + index;
    assert((seq![file] + files).drop_first() =~= files);
    lemma_entry_of(longer, id, 0);
    lemma_entry_of(index, id, index.len() as int);
    assert(longer.remove(0) =~= index);
    if forall|f: int| 0 <= f < files.len() ==> (#[trigger] files[f]).name@ != id + ".c2result"@ {
        lemma_entry_without_file(entry, index, files);
    }
}

proof fn lemma_entry_without_file(
    entry: IndexedBytes,
    index: Seq<IndexedBytes>,
    files: Seq<FileEntry>,
)
    requires
        forall|f: int| 0 <= f < files.len() ==> (#[trigger] files[f]).name@ != named(entry.id@),
    ensures
        retained_bytes(seq![entry] + index, files) == entry.committed_length + retained_bytes(
            index,
            files,
        ),
    decreases files.len(),
{
    let longer = seq![entry] + index;
    assert(longer.drop_first() =~= index);
    if files.len() > 0 {
        let rest = files.drop_first();
        assert forall|f: int| 0 <= f < rest.len() implies (#[trigger] rest[f]).name@ != named(
            entry.id@,
        ) by {
            assert(rest[f] == files[f + 1]);
        }
        lemma_entry_without_file(entry, index, rest);
        if names_result(files[0].name@) {
            let stem = choose|stem: Seq<char>|
                files[0].name@ == #[trigger] named(stem) && uuid_text(stem) is Some;
            lemma_stem(stem);
            assert(stem != entry.id@);
            lemma_entry_bounds(index, stem);
            let at = entry_of(index, stem);
            assert(entry_of(longer, stem) == at + 1);
            if at < index.len() {
                lemma_entry_without_file(entry, index.remove(at), rest);
                assert(longer.remove(at + 1) =~= seq![entry] + index.remove(at));
            }
        }
    }
}

/// A request is refused only for want of bytes: it is accepted exactly if nothing is asked for, or
/// if the bytes that count and those that are asked for stay within the quota together. The failure
/// says what was asked for and what is left.
pub proof fn law_request_within_the_quota_is_accepted(
    quota: u64,
    requested: u64,
    index: Seq<IndexedBytes>,
    files: Seq<FileEntry>,
)
    requires
        forall|e: int| 0 <= e < index.len() ==> (#[trigger] index[e]).committed_length >= 0,
        retained_bytes(index, files) <= u64::MAX,
    ensures
        quota_check(quota, requested, index, files) is Ok <==> requested == 0 || retained_bytes(
            index,
            files,
        ) + requested <= quota,
        quota_check(quota, requested, index, files) matches Err(error) ==> {
            &&& error matches StorageError::QuotaExceeded { requested: asked, available }
            &&& asked == requested
            &&& retained_bytes(index, files) <= quota ==> available == quota - retained_bytes(
                index,
                files,
            )
            &&& retained_bytes(index, files) > quota ==> available == 0
        },
{
    law_quota_counts_files_and_index(index, files);
    lemma_bytes_are_counts(index);
}

/// Where the index records the length of every result file and nothing else, a request is accepted
/// if it and the lengths of the result files stay within the quota together.
pub proof fn law_room_beside_the_files_is_free(
    quota: u64,
    requested: u64,
    index: Seq<IndexedBytes>,
    files: Seq<FileEntry>,
)
    requires
        mirrored(index, files),
        physical_bytes(files) + requested <= quota,
    ensures
        quota_check(quota, requested, index, files) is Ok,
{
    law_recorded_files_count_once(index, files);
    assert forall|e: int| 0 <= e < index.len() implies (#[trigger] index[e]).committed_length
        >= 0 by {
        let f = choose|f: int|
            0 <= f < files.len() && (#[trigger] files[f]).name@ == named(index[e].id@);
        lemma_stem(index[e].id@);
        assert(recorded(index, files[f]));
        let other = choose|other: int|
            0 <= other < index.len() && #[trigger] named(index[other].id@) == files[f].name@
                && index[other].committed_length == files[f].length;
        lemma_stem(index[other].id@);
        assert(index[other].id@ == index[e].id@);
        assert(other == e);
    }
    law_request_within_the_quota_is_accepted(quota, requested, index, files);
}

} // verus!
