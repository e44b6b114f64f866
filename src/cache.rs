//! The two-level content-addressed cache.
//!
//! An input record maps a query's fingerprint to the fingerprint of its
//! output; an output record maps that to the serialized response. The store
//! itself is remote: this module decides which keys to read and write and
//! what the answers mean, and states it over a model of the store as a map
//! from keys to values.

use crate::sql::uid::{hex_of, lemma_hex_injective};
use crate::sql::{QueryResponse, UidGetter};
use redis::RedisError;
use vstd::prelude::*;
use vstd::string::*;

verus! {

/// Seconds that a record lives after it was last written or read.
pub const EXPIRE_SECONDS: u64 = 3600;

/// The namespace in front of every key of the service.
pub const DBRUNNER_CACHER_KEY: &'static str = "dbrunner:cacher";

/// The error of the Redis client.
#[verifier::external_type_specification]
#[verifier::external_body]
pub struct ExRedisError(RedisError);

/// The two kinds of record.
#[derive(Clone, Copy, Debug, PartialEq, Eq)]
pub enum Kind {
    Input,
    Output,
}

/// The text of a kind inside a key.
pub open spec fn kind_text(kind: Kind) -> Seq<char> {
    match kind {
        Kind::Input => seq!['i', 'n', 'p', 'u', 't'],
        Kind::Output => seq!['o', 'u', 't', 'p', 'u', 't'],
    }
}

/// The namespace's text.
pub open spec fn namespace_text() -> Seq<char> {
    seq!['d', 'b', 'r', 'u', 'n', 'n', 'e', 'r', ':', 'c', 'a', 'c', 'h', 'e', 'r']
}

/// The key `<namespace>:<kind>:<uid>`.
pub open spec fn key_of(kind: Kind, uid: Seq<char>) -> Seq<char> {
    namespace_text() + seq![':'] + kind_text(kind) + seq![':'] + uid
}

impl Kind {
    /// The kind's text: `input` or `output`.
    pub fn as_str(&self) -> (r: &'static str)
        ensures
            r@ == kind_text(*self),
    {
        match self {
            Kind::Input => {
                proof {
                    reveal_strlit("input");
                }
                "input"
            },
            Kind::Output => {
                proof {
                    reveal_strlit("output");
                }
                "output"
            },
        }
    }
}

/// The key under which a record of `kind` for `uid` is stored.
pub fn cache_key(kind: Kind, uid: &str) -> (r: String)
    ensures
        r@ == key_of(kind, uid@),
{
    let mut key = String::from_str(DBRUNNER_CACHER_KEY);
    key.append(":");
    key.append(kind.as_str());
    key.append(":");
    key.append(uid);
    proof {
        reveal_strlit("dbrunner:cacher");
        reveal_strlit(":");
        assert(key@ =~= key_of(kind, uid@));
    }
    key
}

/// Keys of different kinds never collide.
pub proof fn lemma_kinds_disjoint(a: Seq<char>, b: Seq<char>)
    ensures
        key_of(Kind::Input, a) != key_of(Kind::Output, b),
{
    assert(key_of(Kind::Input, a)[16] == 'i');
    assert(key_of(Kind::Output, b)[16] == 'o');
}

/// The state of the cache.
pub enum CacheState<T> {
    /// The cache hit, and the output is returned.
    Hit(T),
    /// The cache missed.
    Miss,
}

/// What can go wrong in the cache.
pub enum Error {
    /// The store could not be reached or answered with an error.
    Redis(RedisError),
    /// No input record holds the given query fingerprint.
    UnknownQuery,
}

/// One write to the store.
pub struct Record {
    pub key: String,
    pub value: String,
}

/// The store's contents: values by key.
pub type StoreModel = Map<Seq<char>, Seq<char>>;

/// The store after the records were written in order.
pub open spec fn apply_records(store: StoreModel, records: Seq<Record>) -> StoreModel
    decreases records.len(),
{
    if records.len() == 0 {
        store
    } else {
        apply_records(store, records.drop_last()).insert(
            records.last().key@,
            records.last().value@,
        )
    }
}

/// The output fingerprint that the input record of `query_uid` holds.
pub open spec fn output_uid_of(store: StoreModel, query_uid: Seq<char>) -> Option<Seq<char>> {
    if store.contains_key(key_of(Kind::Input, query_uid)) {
        Some(store[key_of(Kind::Input, query_uid)])
    } else {
        None
    }
}

/// The payload reached from `query_uid` over both records, or `None` where
/// either record is missing.
pub open spec fn lookup(store: StoreModel, query_uid: Seq<char>) -> Option<Seq<char>> {
    match output_uid_of(store, query_uid) {
        Some(out) => if store.contains_key(key_of(Kind::Output, out)) {
            Some(store[key_of(Kind::Output, out)])
        } else {
            None
        },
        None => None,
    }
}

/// Whether the two queries' input records name the same output, or `None`
/// where either is missing.
pub open spec fn same_output(store: StoreModel, left: Seq<char>, right: Seq<char>) -> Option<
    bool,
> {
    match (output_uid_of(store, left), output_uid_of(store, right)) {
        (Some(l), Some(r)) => Some(l == r),
        _ => None,
    }
}

/// The hex text of a response's fingerprint.
pub open spec fn output_uid_text(output: QueryResponse) -> Seq<char> {
    hex_of(output.uid_spec())
}

/// The store after `set`: the output record holds the payload under the
/// output's fingerprint, then the input record points at that fingerprint.
pub open spec fn stored_after_set(
    store: StoreModel,
    query_uid: Seq<char>,
    output: QueryResponse,
    payload: Seq<char>,
) -> StoreModel {
    store.insert(key_of(Kind::Output, output_uid_text(output)), payload).insert(
        key_of(Kind::Input, query_uid),
        output_uid_text(output),
    )
}

/// The writes that store `output`, serialized as `payload`, for the query
/// with fingerprint `query_uid`: first the output record, then the input
/// record that points at it.
pub fn set_records(query_uid: &str, output: &QueryResponse, payload: String) -> (r: Vec<Record>)
    ensures
        forall|store: StoreModel|
            #[trigger] apply_records(store, r@) == stored_after_set(
                store,
                query_uid@,
                *output,
                payload@,
            ),
        r@.len() == 2,
        r@[0].key@ == key_of(Kind::Output, output_uid_text(*output)),
        r@[0].value@ == payload@,
        r@[1].key@ == key_of(Kind::Input, query_uid@),
        r@[1].value@ == output_uid_text(*output),
{
    let output_uid = output.get_uid().to_hex();
    let output_key = cache_key(Kind::Output, output_uid.as_str());
    let input_key = cache_key(Kind::Input, query_uid);
    let mut records = Vec::new();
    records.push(Record { key: output_key, value: payload });
    records.push(Record { key: input_key, value: output_uid });
    proof {
        assert forall|store: StoreModel|
            #[trigger] apply_records(store, records@) == stored_after_set(
                store,
                query_uid@,
                *output,
                payload@,
            ) by {
            assert(records@.drop_last().drop_last() =~= Seq::<Record>::empty());
            assert(records@.drop_last().last() == records@[0]);
            reveal_with_fuel(apply_records, 3);
        }
    }
    records
}

/// The key of the output record that an input record names; `None` where
/// the input record is missing.
pub fn output_key_for(input_record: Option<String>) -> (r: Option<String>)
    ensures
        match input_record {
            Some(out) => r matches Some(k) && k@ == key_of(Kind::Output, out@),
            None => r is None,
        },
{
    match input_record {
        Some(out) => Some(cache_key(Kind::Output, out.as_str())),
        None => None,
    }
}

/// The outcome of a lookup from what the output record's read gave.
pub fn lookup_outcome(output_record: Option<String>) -> (r: CacheState<String>)
    ensures
        match output_record {
            Some(p) => r matches CacheState::Hit(q) && q@ == p@,
            None => r is Miss,
        },
{
    match output_record {
        Some(p) => CacheState::Hit(p),
        None => CacheState::Miss,
    }
}

/// Compare the output fingerprints that two input records hold. A missing
/// record is an error: nothing can be said of an unknown query.
pub fn compare_output_uids(left: Option<String>, right: Option<String>) -> (r: Result<bool, Error>)
    ensures
        match (left, right) {
            (Some(l), Some(x)) => r matches Ok(b) && b == (l@ == x@),
            _ => r matches Err(e) && e is UnknownQuery,
        },
{
    match (left, right) {
        (Some(l), Some(x)) => Ok(l == x),
        _ => Err(Error::UnknownQuery),
    }
}


/// A lookup right after `set` finds the payload that `set` wrote, whatever
/// the store held before.
pub proof fn lemma_set_then_get(
    store: StoreModel,
    query_uid: Seq<char>,
    output: QueryResponse,
    payload: Seq<char>,
)
    ensures
        lookup(stored_after_set(store, query_uid, output, payload), query_uid) == Some(payload),
{
    lemma_kinds_disjoint(query_uid, output_uid_text(output));
}

/// A lookup of a fingerprint that has no input record misses, and so does
/// the comparison that involves it; storing another query's result does not
/// change that.
pub proof fn lemma_miss_on_absence(
    store: StoreModel,
    query_uid: Seq<char>,
    other_uid: Seq<char>,
    output: QueryResponse,
    payload: Seq<char>,
)
    requires
        !store.contains_key(key_of(Kind::Input, query_uid)),
        other_uid != query_uid,
    ensures
        lookup(store, query_uid) is None,
        same_output(store, query_uid, other_uid) is None,
        same_output(store, other_uid, query_uid) is None,
        lookup(stored_after_set(store, other_uid, output, payload), query_uid) is None,
{
    let after = stored_after_set(store, other_uid, output, payload);
    lemma_kinds_disjoint(query_uid, output_uid_text(output));
    lemma_input_keys_distinct(query_uid, other_uid);
    assert(!after.contains_key(key_of(Kind::Input, query_uid)));
}

/// After two different queries were stored, comparing them says whether
/// their outputs have the same fingerprint: true where the outputs are
/// equal, false where their fingerprints differ. A query that was never
/// stored cannot be compared.
pub proof fn lemma_dedup(
    store: StoreModel,
    left_uid: Seq<char>,
    left: QueryResponse,
    left_payload: Seq<char>,
    right_uid: Seq<char>,
    right: QueryResponse,
    right_payload: Seq<char>,
    unknown_uid: Seq<char>,
)
    requires
        left_uid != right_uid,
        !store.contains_key(key_of(Kind::Input, unknown_uid)),
        unknown_uid != left_uid,
        unknown_uid != right_uid,
    ensures
        ({
            let after = stored_after_set(
                stored_after_set(store, left_uid, left, left_payload),
                right_uid,
                right,
                right_payload,
            );
            &&& same_output(after, left_uid, right_uid) == Some(left.uid_spec() == right.uid_spec())
            &&& (left.header.deep_view() == right.header.deep_view() && left.rows.deep_view()
                == right.rows.deep_view()) ==> same_output(after, left_uid, right_uid) == Some(true)
            &&& same_output(after, left_uid, unknown_uid) is None
        }),
{
    let mid = stored_after_set(store, left_uid, left, left_payload);
    let after = stored_after_set(mid, right_uid, right, right_payload);
    lemma_input_keys_distinct(left_uid, right_uid);
    lemma_input_keys_distinct(unknown_uid, left_uid);
    lemma_input_keys_distinct(unknown_uid, right_uid);
    lemma_kinds_disjoint(left_uid, output_uid_text(right));
    lemma_kinds_disjoint(unknown_uid, output_uid_text(right));
    lemma_kinds_disjoint(unknown_uid, output_uid_text(left));
    assert(output_uid_of(after, left_uid) == Some(output_uid_text(left)));
    assert(output_uid_of(after, right_uid) == Some(output_uid_text(right)));
    if output_uid_text(left) == output_uid_text(right) {
        lemma_hex_injective(left.uid_spec(), right.uid_spec());
    }
    assert(!after.contains_key(key_of(Kind::Input, unknown_uid)));
}

/// Input keys of different fingerprints differ.
pub proof fn lemma_input_keys_distinct(a: Seq<char>, b: Seq<char>)
    requires
        a != b,
    ensures
        key_of(Kind::Input, a) != key_of(Kind::Input, b),
{
    assert(key_of(Kind::Input, a).subrange(22, key_of(Kind::Input, a).len() as int) =~= a);
    assert(key_of(Kind::Input, b).subrange(22, key_of(Kind::Input, b).len() as int) =~= b);
}

} // verus!
