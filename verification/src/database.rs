use vstd::prelude::*;

verus! {

/// The saved state of a pulling task, as the database holds it: the task's name and
/// its state as JSON text.
#[derive(Debug, Clone)]
pub struct Task {
    pub identity: String,
    pub state: String,
}

/// The owner of a store, as the database lists it for pulling.
#[derive(Debug, Clone, Copy)]
pub struct StoreOwner {
    pub identity: u64,
}

/// The code the database answers with when an index of that name exists already
/// with other options.
pub const INDEX_OPTIONS_CONFLICT: i32 = 86;

/// The code the database answers with when a document with that key exists already.
pub const DUPLICATE_KEY: i32 = 11000;

/// Whether a command error with this code says that the index exists already.
pub fn is_conflict_index_code(code: i32) -> (r: bool)
    ensures
        r == (code == INDEX_OPTIONS_CONFLICT),
{
    code == INDEX_OPTIONS_CONFLICT
}

/// Whether a write error with this code says that the document exists already.
pub fn is_conflict_document_code(code: i32) -> (r: bool)
    ensures
        r == (code == DUPLICATE_KEY),
{
    code == DUPLICATE_KEY
}

/// Whether a bulk write failed only because documents existed already: it reported
/// write errors, and each of them is a duplicate key.
pub fn is_bulk_write_conflict_codes(codes: Option<&Vec<i32>>) -> (r: bool)
    ensures
        r == (codes is Some && forall|i: int|
            0 <= i < codes->0@.len() ==> #[trigger] codes->0@[i] == DUPLICATE_KEY),
{
    let write_errors = match codes {
        None => return false,
        Some(v) => v,
    };
    let mut i: usize = 0;
    while i < write_errors.len()
        invariant
            i <= write_errors@.len(),
            forall|j: int| 0 <= j < i ==> write_errors@[j] == DUPLICATE_KEY,
            codes == Some(write_errors),
        decreases write_errors@.len() - i,
    {
        if write_errors[i] != DUPLICATE_KEY {
            assert(!(write_errors@[i as int] == DUPLICATE_KEY));
            assert(codes->0@ == write_errors@);
            assert(!(codes->0@[i as int] == DUPLICATE_KEY));
            return false;
        }
        i = i + 1;
    }
    true
}

} // verus!
