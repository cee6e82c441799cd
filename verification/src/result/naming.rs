use vstd::prelude::*;

use crate::error::StorageError;
use crate::identity::{canonical_uuid, parse_uuid, uuid_text};
use crate::text::{same_text, strip_suffix};

verus! {

/// The file of a result: its id in canonical form and the extension of result files.
pub open spec fn named(id: Seq<char>) -> Seq<char> {
    id + ".c2result"@
}

/// The name belongs to the file of a result.
pub open spec fn names_result(name: Seq<char>) -> bool {
    exists|stem: Seq<char>| name == #[trigger] named(stem) && uuid_text(stem) is Some
}

/// The id part of the name of a result file.
pub open spec fn file_stem(name: Seq<char>) -> Seq<char> {
    name.take(name.len() - ".c2result"@.len())
}

/// Returns the name of the file of a result.
pub fn result_file_name(id: &str) -> (result: Result<String, StorageError>)
    ensures
        match result {
            Ok(name) => uuid_text(id@) is Some && name@ == named(uuid_text(id@)->0),
            Err(error) => {
                &&& uuid_text(id@) is None
                &&& error == StorageError::InvalidResult("result id is invalid")
            },
        },
{
    match parse_uuid(id) {
        Some(canonical) => Ok(canonical.concat(".c2result")),
        None => Err(StorageError::InvalidResult("result id is invalid")),
    }
}

/// Tests whether a name belongs to the file of a result.
pub fn is_result_file_name(name: &str) -> (result: bool)
    ensures
        result == names_result(name@),
{
    result_file_stem(name).is_some()
}

/// Returns the id part of the name of a result file.
pub fn result_file_stem(name: &str) -> (result: Option<&str>)
    ensures
        match result {
            Some(stem) => {
                &&& names_result(name@)
                &&& name@ == named(stem@)
                &&& stem@ == file_stem(name@)
            },
            None => !names_result(name@),
        },
{
    match strip_suffix(name, ".c2result") {
        None => {
            proof {
                if names_result(name@) {
                    let stem = choose|stem: Seq<char>|
                        name@ == #[trigger] named(stem) && uuid_text(stem) is Some;
                    assert(".c2result"@.is_suffix_of(name@)) by {
                        assert(name@.subrange(
                            name@.len() - ".c2result"@.len(),
                            name@.len() as int,
                        ) =~= ".c2result"@);
                    }
                }
            }
            None
        },
        Some(stem) => {
            assert(name@ == named(stem@));
            assert(file_stem(name@) =~= stem@);
            match parse_uuid(stem) {
                Some(_) => Some(stem),
                None => {
                    proof {
                        if names_result(name@) {
                            let other = choose|other: Seq<char>|
                                name@ == #[trigger] named(other) && uuid_text(other) is Some;
                            assert(file_stem(name@) =~= other);
                        }
                    }
                    None
                },
            }
        },
    }
}

/// Tests whether a name is among names.
pub fn is_named(names: &Vec<String>, name: &str) -> (result: bool)
    ensures
        result == exists|i: int| 0 <= i < names@.len() && (#[trigger] names@[i])@ == name@,
{
    let mut i: usize = 0;
    while i < names.len()
        invariant
            i <= names@.len(),
            forall|j: int| 0 <= j < i ==> (#[trigger] names@[j])@ != name@,
        decreases names@.len() - i,
    {
        if same_text(names[i].as_str(), name) {
            assert(names@[i as int]@ == name@);
            return true;
        }
        i = i + 1;
    }
    false
}

/// The file of a result has the name of a result file.
pub proof fn law_result_file_is_recognised(id: Seq<char>)
    requires
        canonical_uuid(id),
    ensures
        names_result(named(id)),
        file_stem(named(id)) == id,
{
    assert(file_stem(named(id)) =~= id);
}

} // verus!
