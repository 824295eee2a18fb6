//! The request handler: the single sequence both execution strategies run.
//!
//! Given a caller-supplied name, the handler initializes the schema,
//! generates a fresh identifier, writes the (identifier, name) row, reads
//! the name back under that identifier, and maps the outcome to a
//! transport response.  `handle_request` is that sequence verified for
//! every identifier value; `handle_fresh` draws the identifier from the
//! generator and states what holds whatever was drawn.

use vstd::prelude::*;
use crate::response::{HandlerError, Response, respond};
use crate::store::{Store, lookup};

verus! {

/// Relies on `uuid::Uuid::new_v4` and the hyphenated `Display` form of
/// `Uuid` for the identifier text: 36 characters (32 hexadecimal digits
/// and 4 hyphens), whatever was drawn.
#[verifier::external_body]
fn generate_identifier() -> (r: String)
    ensures
        r@.len() == 36,
{
    uuid::Uuid::new_v4().to_string()
}

/// The handling sequence from the schema step on, for a given identifier:
/// ensure the table exists, write the row, read the name back, and map
/// the outcome to a response.
///
/// For a fresh identifier this yields status 200 with body equal to the
/// stored name and appends exactly one row; an identifier already present
/// makes the write step fail with a constraint violation, which yields
/// the opaque status 500 with an empty body and leaves the table
/// unchanged.
pub fn handle_request(store: &mut Store, id: String, name: String) -> (resp: Response)
    requires
        old(store).wf(),
    ensures
        final(store).wf(),
        final(store)@.schema_ready,
        lookup(old(store)@.table, id@) is None ==> resp.is_ok_with(name@)
            && final(store)@.table == old(store)@.table.push((id@, name@)),
        lookup(old(store)@.table, id@) is Some ==> resp.is_internal_error()
            && final(store)@.table == old(store)@.table,
{
    store.create_table_if_absent();
    match store.insert_row(id.clone(), name) {
        Err(e) => respond(Err(e)),
        Ok(()) => match store.query_name(&id) {
            Some(found) => respond(Ok(found)),
            None => respond(Err(HandlerError::Read)),
        },
    }
}

/// The full handling sequence for one request: generate a fresh
/// identifier, then run `handle_request` with it.
///
/// The identifier is drawn at random, so the contract states what holds
/// whatever was drawn: the status is 200 or 500 and nothing else; on 200
/// the body equals the stored name and exactly one row — the new
/// identifier with that name — was appended; on 500 (the drawn identifier
/// collided with a stored row) the table is unchanged and the body is
/// empty.  Success is owed wherever no draw can collide: on an empty
/// table, and more generally on any table holding no 36-character
/// identifier, the status is 200.
pub fn handle_fresh(store: &mut Store, name: String) -> (resp: Response)
    requires
        old(store).wf(),
    ensures
        final(store).wf(),
        final(store)@.schema_ready,
        resp.status == 200 || resp.status == 500,
        old(store)@.table.len() == 0 ==> resp.status == 200,
        (forall|cand: Seq<char>| cand.len() == 36
            ==> lookup(old(store)@.table, cand) is None) ==> resp.status == 200,
        resp.status == 200 ==> resp.is_ok_with(name@)
            && (exists|id: Seq<char>| id.len() == 36
                && final(store)@.table == old(store)@.table.push((id, name@))),
        resp.status == 500 ==> resp.is_internal_error()
            && final(store)@.table == old(store)@.table,
{
    let id = generate_identifier();
    let ghost drawn = id@;
    let resp = handle_request(store, id, name);
    proof {
        if lookup(old(store)@.table, drawn) is None {
            assert(drawn.len() == 36
                && store@.table == old(store)@.table.push((drawn, name@)));
        }
    }
    resp
}

} // verus!
