//! Reads from the document store, and what an answer means for uniqueness and
//! for references to other records.
//!
//! The store is asked for the keys of the records of a collection whose key
//! or whose description matches a pattern. The store decides what matches;
//! the rules here decide what an answer means, and are verified for every
//! answer.

use vstd::prelude::*;
use junobuild_shared::types::state::UserId;
use crate::context::Answer;
use crate::verdict::outcome;
use crate::verdict::quote;
use crate::verdict::quoting;
use crate::verdict::reject_if;
use crate::verdict::Verdict;
use crate::text::chars_equal;
use crate::text::chars_of;

verus! {

/// The identity of a caller of the store, `candid::Principal`: carried from
/// `store_caller` to `list_keys` and never looked into.
#[verifier::external_type_specification]
#[verifier::external_body]
pub struct ExUserId(junobuild_shared::types::state::UserId);

/// `junobuild_satellite::caller`: the identity on whose behalf the current
/// write is attempted. Nothing is claimed of it.
#[verifier::external_body]
pub(crate) fn store_caller() -> (who: UserId) {
    junobuild_satellite::caller()
}

/// `junobuild_satellite::list_docs_store`, asked for the records of
/// `collection` that match the given patterns; of each record found the key
/// is handed out. The store reports a failure (an unknown collection, a
/// pattern it cannot read, a refusal) as `Err` with its own text. Nothing is
/// claimed of the answer: it depends on what the store holds.
#[verifier::external_body]
pub(crate) fn list_keys(
    who: &UserId,
    collection: &str,
    key: Option<&str>,
    description: Option<&str>,
) -> (answer: Answer) {
    let matcher = junobuild_shared::types::list::ListMatcher {
        key: key.map(|k| k.to_string()),
        description: description.map(|d| d.to_string()),
        ..Default::default()
    };
    let filter = junobuild_shared::types::list::ListParams {
        matcher: Some(matcher),
        ..Default::default()
    };
    junobuild_satellite::list_docs_store(*who, collection.to_string(), &filter)
        .map(|found| found.items.into_iter().map(|(key, _)| key).collect())
}

/// Asks the store for the keys of the records of `collection` whose
/// description matches `pattern`.
pub(crate) fn find_by_description(collection: &str, pattern: &str) -> (answer: Answer) {
    let who = store_caller();
    list_keys(&who, collection, None, Some(pattern))
}

/// Asks the store for the keys of the records of `collection` whose key
/// matches `key`.
pub(crate) fn find_by_key(collection: &str, key: &str) -> (answer: Answer) {
    let who = store_caller();
    list_keys(&who, collection, Some(key), None)
}

/// By what a question picks records: by their key, or by their description.
#[derive(Clone, Copy, Debug, PartialEq, Eq, Structural)]
pub enum MatchBy {
    Key,
    Description,
}

/// A question to the store: the collection that is asked, and the pattern
/// that the key or the description of a record must match.
#[derive(Clone, Debug)]
pub struct Query {
    pub collection: &'static str,
    pub by: MatchBy,
    pub pattern: String,
}

/// A question as texts.
pub struct QueryModel {
    pub collection: Seq<char>,
    pub by: MatchBy,
    pub pattern: Seq<char>,
}

impl View for Query {
    type V = QueryModel;

    open spec fn view(&self) -> QueryModel {
        QueryModel { collection: self.collection@, by: self.by, pattern: self.pattern@ }
    }
}

/// The question for the records of `collection` whose description matches
/// `pattern`.
pub open spec fn description_query(collection: Seq<char>, pattern: Seq<char>) -> QueryModel {
    QueryModel { collection, by: MatchBy::Description, pattern }
}

/// The question for the records of `collection` whose key matches `key`.
pub open spec fn key_query(collection: Seq<char>, key: Seq<char>) -> QueryModel {
    QueryModel { collection, by: MatchBy::Key, pattern: key }
}

/// Makes the question for the records of `collection` whose description
/// matches `pattern`.
pub fn query_by_description(collection: &'static str, pattern: String) -> (query: Query)
    ensures
        query@ == description_query(collection@, pattern@),
{
    Query { collection, by: MatchBy::Description, pattern }
}

/// Makes the question for the records of `collection` whose key matches
/// `key`.
pub fn query_by_key(collection: &'static str, key: &str) -> (query: Query)
    ensures
        query@ == key_query(collection@, key@),
{
    Query { collection, by: MatchBy::Key, pattern: key.to_string() }
}

/// Puts a question to the store.
pub(crate) fn ask(query: &Query) -> (answer: Answer) {
    match query.by {
        MatchBy::Key => find_by_key(query.collection, query.pattern.as_str()),
        MatchBy::Description => find_by_description(query.collection, query.pattern.as_str()),
    }
}

/// The pattern that looks for one field with one value: `field=value;`.
pub open spec fn field_pattern(field: Seq<char>, value: Seq<char>) -> Seq<char> {
    field + "="@ + value + ";"@
}

/// Builds the pattern `field=value;`.
pub fn pattern_for(field: &str, value: &str) -> (out: String)
    ensures
        out@ == field_pattern(field@, value@),
{
    let mut out = field.to_string();
    out.append("=");
    out.append(value);
    out.append(";");
    out
}

/// The keys that an answer lists, as texts.
pub open spec fn key_texts(found: Seq<String>) -> Seq<Seq<char>> {
    Seq::new(found.len(), |i: int| found[i]@)
}

/// A write with a key changes the record of that key; one with the empty key
/// creates a record.
pub open spec fn is_update(key: Seq<char>) -> bool {
    key.len() > 0
}

/// Whether the record found under `item` is another than the one written
/// under `key`: on an update the record of the same key is the same record.
pub open spec fn is_other(item: Seq<char>, key: Seq<char>) -> bool {
    !(is_update(key) && item == key)
}

/// Whether the records found hold one that is not the record being written.
pub open spec fn conflicts(found: Seq<Seq<char>>, key: Seq<char>) -> bool {
    exists|i: int| 0 <= i < found.len() && is_other(#[trigger] found[i], key)
}

/// Whether the records found hold one that is not the record being written.
pub fn has_conflict(found: &Vec<String>, key: &str) -> (r: bool)
    ensures
        r == conflicts(key_texts(found@), key@),
{
    let own = chars_of(key);
    let updating = own.len() > 0;
    let mut i: usize = 0;
    while i < found.len()
        invariant
            i <= found.len(),
            own@ == key@,
            updating == is_update(key@),
            forall|j: int| 0 <= j < i ==> !is_other(#[trigger] key_texts(found@)[j], key@),
        decreases found.len() - i,
    {
        let other = chars_of(found[i].as_str());
        proof {
            assert(key_texts(found@)[i as int] == found@[i as int]@);
        }
        if !(updating && chars_equal(&other, &own)) {
            return true;
        }
        i = i + 1;
    }
    proof {
        assert(key_texts(found@).len() == found@.len());
    }
    false
}

/// What an answer means where a value must be unique: the store's failure
/// is the rejection; else a record other than the one written rejects with
/// `taken`.
pub open spec fn unique_verdict(answer: Answer, key: Seq<char>, taken: Seq<char>) -> Verdict {
    match answer {
        Err(failure) => Err(failure@),
        Ok(found) => reject_if(conflicts(key_texts(found@), key), taken),
    }
}

/// What an answer means where a record must exist: the store's failure is
/// the rejection; else an empty answer rejects with `missing`.
pub open spec fn present_verdict(answer: Answer, missing: Seq<char>) -> Verdict {
    match answer {
        Err(failure) => Err(failure@),
        Ok(found) => reject_if(found@.len() == 0, missing),
    }
}

/// Applied one after the other, exactly one of two writes that propose the
/// same unique value is accepted. The first is judged by an answer that
/// lists no other record, and passes. Once it is committed under its key,
/// every answer that lists that key rejects a write under any other key.
pub proof fn lemma_second_writer_rejected(
    before: Vec<String>,
    after: Vec<String>,
    first_key: Seq<char>,
    second_key: Seq<char>,
    taken: Seq<char>,
)
    requires
        first_key != second_key,
        !conflicts(key_texts(before@), first_key),
        key_texts(after@).contains(first_key),
    ensures
        unique_verdict(Ok(before), first_key, taken) is Ok,
        unique_verdict(Ok(after), second_key, taken) == Err::<(), Seq<char>>(taken),
{
    let found = key_texts(after@);
    let i = choose|i: int| 0 <= i < found.len() && found[i] == first_key;
    assert(is_other(found[i], second_key));
}

/// Applied at once, two writes that propose the same unique value may both
/// be accepted: each is judged by an answer given before the other was
/// committed, and an answer that lists no record rejects neither.
pub proof fn lemma_concurrent_writers_pass(
    before: Vec<String>,
    first_key: Seq<char>,
    second_key: Seq<char>,
    taken: Seq<char>,
)
    requires
        before@.len() == 0,
    ensures
        unique_verdict(Ok(before), first_key, taken) is Ok,
        unique_verdict(Ok(before), second_key, taken) is Ok,
{
}

/// A record may be written again under its own key: an answer that lists
/// nothing but that key rejects no update of it.
pub proof fn lemma_own_record_no_conflict(found: Vec<String>, key: Seq<char>, taken: Seq<char>)
    requires
        is_update(key),
        forall|i: int| 0 <= i < found@.len() ==> (#[trigger] found@[i])@ == key,
    ensures
        unique_verdict(Ok(found), key, taken) is Ok,
{
    assert forall|i: int| 0 <= i < key_texts(found@).len() implies !is_other(
        #[trigger] key_texts(found@)[i],
        key,
    ) by {
        assert(key_texts(found@)[i] == found@[i]@);
    }
}

/// Reads an answer where a value must be unique; the rejection quotes the
/// value between `before` and `after`.
pub fn check_unique(
    answer: &Answer,
    key: &str,
    before: &str,
    value: &str,
    after: &str,
) -> (res: Result<(), String>)
    ensures
        outcome(res) == unique_verdict(*answer, key@, quoting(before@, value@, after@)),
{
    match answer {
        Err(failure) => Err(failure.clone()),
        Ok(found) => {
            if has_conflict(found, key) {
                return Err(quote(before, value, after));
            }
            Ok(())
        },
    }
}

/// Reads an answer where a record must exist; the rejection quotes the
/// value between `before` and `after`.
pub fn check_present(
    answer: &Answer,
    before: &str,
    value: &str,
    after: &str,
) -> (res: Result<(), String>)
    ensures
        outcome(res) == present_verdict(*answer, quoting(before@, value@, after@)),
{
    match answer {
        Err(failure) => Err(failure.clone()),
        Ok(found) => {
            if found.len() == 0 {
                return Err(quote(before, value, after));
            }
            Ok(())
        },
    }
}

} // verus!
