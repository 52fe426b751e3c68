//! What the rules are handed for one attempted write.

use vstd::prelude::*;

verus! {

/// One attempted write of a record of type `T`.
///
/// `key` is the key under which the record is stored; it is empty while the
/// record is being created. `proposed` is the record as it would be written
/// and `current` the record as it stands, if there is one; each is `Err` with
/// the decoder's words where the stored bytes are no record of type `T`.
pub struct SetDocContext<T> {
    pub key: String,
    pub proposed: Result<T, String>,
    pub current: Option<Result<T, String>>,
}

/// What the store answered when asked for records: the keys of those found,
/// or the store's own failure.
pub type Answer = Result<Vec<String>, String>;

} // verus!
