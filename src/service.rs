//! Decisions of the query service that do not touch the network.

use crate::sql::fmt::canonical_of;
use crate::sql::uid::{hex_of, query_uid_of};
use crate::sql::error::is_client;
use crate::sql::{Error, Query, QueryResponse, UidGetter};
use vstd::prelude::*;

verus! {

/// The handle of a query whose statement formats to `canonical`: the hex
/// text of the formatted query's fingerprint.
pub open spec fn handle_of(initial_sql: Seq<char>, canonical: Seq<char>) -> Seq<char> {
    hex_of(query_uid_of(initial_sql, canonical))
}

/// Format a submitted query and compute its handle. A statement that does
/// not parse is rejected here, before anything is looked up, run or stored.
pub fn prepare_submission(query: Query) -> (r: Result<(Query, String), Error>)
    ensures
        match canonical_of(query.query@) {
            Some(c) => r matches Ok((q, id)) && q.initial_sql@ == query.initial_sql@
                && q.query@ == c && id@ == handle_of(query.initial_sql@, c),
            None => r matches Err(e) && e is Format,
        },
{
    let formatted = query.format()?;
    let id = formatted.get_uid().to_hex();
    Ok((formatted, id))
}

/// What the service does next while answering a submitted query.
pub enum SubmitAction {
    /// Look the handle up in the cache.
    Lookup { id: String, query: Query },
    /// Run the formatted query.
    Execute { id: String, query: Query },
    /// Store the response under the handle, then answer with the handle.
    Store { id: String, response: QueryResponse },
    /// Answer with the handle.
    ReplyId(String),
    /// Answer with the client's error.
    ReplyError(Error),
    /// Fail the call: the service itself failed.
    Fail(Error),
}

/// The first step for a submitted query: a statement that parses is looked
/// up under its handle; one that does not is answered with the client's
/// `Format` error, and nothing is run or stored for it.
pub fn submit(query: Query) -> (r: SubmitAction)
    ensures
        match canonical_of(query.query@) {
            Some(c) => r matches SubmitAction::Lookup { id, query: q } && q.initial_sql@
                == query.initial_sql@ && q.query@ == c && id@ == handle_of(query.initial_sql@, c),
            None => r matches SubmitAction::ReplyError(e) && e is Format,
        },
{
    match prepare_submission(query) {
        Ok((query, id)) => SubmitAction::Lookup { id, query },
        Err(e) => SubmitAction::ReplyError(e),
    }
}

/// The step after the lookup: a hit is answered with the handle at once, a
/// miss runs the query.
pub fn after_lookup(id: String, query: Query, hit: bool) -> (r: SubmitAction)
    ensures
        hit ==> (r matches SubmitAction::ReplyId(x) && x == id),
        !hit ==> (r matches SubmitAction::Execute { id: x, query: q } && x == id && q == query),
{
    if hit {
        SubmitAction::ReplyId(id)
    } else {
        SubmitAction::Execute { id, query }
    }
}

/// The step after running the query: a response is stored under the handle;
/// the client's errors are answered; any other error fails the call.
pub fn after_execution(id: String, outcome: Result<QueryResponse, Error>) -> (r: SubmitAction)
    ensures
        match outcome {
            Ok(resp) => r matches SubmitAction::Store { id: x, response } && x == id && response
                == resp,
            Err(e) => if is_client(e) {
                r matches SubmitAction::ReplyError(x) && x == e
            } else {
                r matches SubmitAction::Fail(x) && x == e
            },
        },
{
    match outcome {
        Ok(response) => SubmitAction::Store { id, response },
        Err(e) => if e.is_client_error() {
            SubmitAction::ReplyError(e)
        } else {
            SubmitAction::Fail(e)
        },
    }
}

/// Queries with the same migration whose statements format to the same text
/// get the same handle, however they were written.
pub proof fn lemma_equivalent_queries_share_handle(a: Query, b: Query)
    requires
        a.initial_sql@ == b.initial_sql@,
        canonical_of(a.query@) is Some,
        canonical_of(a.query@) == canonical_of(b.query@),
    ensures
        handle_of(a.initial_sql@, canonical_of(a.query@)->Some_0) == handle_of(
            b.initial_sql@,
            canonical_of(b.query@)->Some_0,
        ),
{
}


/// One item of a retrieved result: the header, or one data row.
#[derive(Clone, Debug, PartialEq, Eq)]
pub enum RetrieveItem {
    Header(Vec<String>),
    Row(Vec<Option<String>>),
}

/// The items that a retrieval sends for `resp`: the header first, then each
/// row in order.
pub fn retrieve_items(resp: QueryResponse) -> (r: Vec<RetrieveItem>)
    ensures
        r@.len() == resp.rows@.len() + 1,
        r@[0] == RetrieveItem::Header(resp.header),
        forall|i: int|
            0 <= i < resp.rows@.len() ==> #[trigger] r@[i + 1] == RetrieveItem::Row(resp.rows@[i]),
{
    let QueryResponse { header, rows } = resp;
    let ghost all = rows@;
    let mut items: Vec<RetrieveItem> = Vec::new();
    items.push(RetrieveItem::Header(header));
    let mut rest = rows;
    while rest.len() > 0
        invariant
            rest@.len() <= all.len(),
            rest@ == all.subrange(all.len() - rest@.len(), all.len() as int),
            items@.len() == all.len() - rest@.len() + 1,
            items@[0] == RetrieveItem::Header(header),
            forall|i: int|
                0 <= i < all.len() - rest@.len() ==> #[trigger] items@[i + 1] == RetrieveItem::Row(
                    all[i],
                ),
        decreases rest.len(),
    {
        let ghost done = all.len() - rest@.len();
        let row = rest.remove(0);
        assert(row == all[done]);
        assert(rest@ =~= all.subrange(all.len() - rest@.len(), all.len() as int));
        items.push(RetrieveItem::Row(row));
    }
    items
}

} // verus!
