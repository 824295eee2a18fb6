//! A model of the backing table (`id` primary key, `name` non-null text)
//! and of the three statements the handler issues against it: the
//! idempotent schema initialization, the row insert, and the read-back
//! by identifier.
//!
//! The table is modelled as the sequence of its rows in insertion order;
//! the primary-key constraint is the well-formedness invariant that all
//! identifiers are distinct.

use vstd::prelude::*;
use crate::response::HandlerError;

verus! {

/// One persisted row: an opaque unique identifier and the caller-supplied
/// name stored under it.
pub struct Row {
    pub id: String,
    pub name: String,
}

impl View for Row {
    type V = (Seq<char>, Seq<char>);

    open spec fn view(&self) -> (Seq<char>, Seq<char>) {
        (self.id@, self.name@)
    }
}

/// The mathematical model of a table: its rows, each an (identifier, name)
/// pair, in insertion order.
pub type TableModel = Seq<(Seq<char>, Seq<char>)>;

/// The primary-key constraint: no identifier occurs in two rows.
pub open spec fn distinct_ids(table: TableModel) -> bool {
    forall|i: int, j: int| 0 <= i < j < table.len() ==> table[i].0 != table[j].0
}

/// What a read-back by identifier returns: the name of the row with that
/// identifier, or nothing when no such row exists.  When several rows
/// share the identifier the latest wins, but under `distinct_ids` that
/// case never arises.
pub open spec fn lookup(table: TableModel, id: Seq<char>) -> Option<Seq<char>>
    decreases table.len(),
{
    if table.len() == 0 {
        None
    } else if table.last().0 == id {
        Some(table.last().1)
    } else {
        lookup(table.drop_last(), id)
    }
}

/// An identifier absent from every row is found by no read-back.
pub proof fn lemma_lookup_absent(table: TableModel, id: Seq<char>)
    requires
        forall|k: int| 0 <= k < table.len() ==> table[k].0 != id,
    ensures
        lookup(table, id) is None,
    decreases table.len(),
{
    if table.len() > 0 {
        lemma_lookup_absent(table.drop_last(), id);
    }
}

/// A read-back that finds nothing means the identifier is in no row.
pub proof fn lemma_lookup_none_means_absent(table: TableModel, id: Seq<char>)
    requires
        lookup(table, id) is None,
    ensures
        forall|k: int| 0 <= k < table.len() ==> table[k].0 != id,
    decreases table.len(),
{
    if table.len() > 0 {
        lemma_lookup_none_means_absent(table.drop_last(), id);
        assert(forall|k: int| 0 <= k < table.len() - 1 ==> table[k] == table.drop_last()[k]);
    }
}

/// Under the primary-key constraint a read-back of a stored row's
/// identifier returns exactly that row's name.
pub proof fn lemma_lookup_found(table: TableModel, k: int)
    requires
        distinct_ids(table),
        0 <= k < table.len(),
    ensures
        lookup(table, table[k].0) == Some(table[k].1),
    decreases table.len(),
{
    if k < table.len() - 1 {
        assert(table.last().0 != table[k].0);
        assert(distinct_ids(table.drop_last())) by {
            assert(forall|i: int, j: int|
                0 <= i < j < table.len() - 1 ==> table.drop_last()[i].0 != table.drop_last()[j].0);
        }
        lemma_lookup_found(table.drop_last(), k);
    }
}

/// Appending a row with one identifier does not change what a read-back of
/// any other identifier returns.
pub proof fn lemma_lookup_push_other(
    table: TableModel,
    id: Seq<char>,
    name: Seq<char>,
    other: Seq<char>,
)
    requires
        other != id,
    ensures
        lookup(table.push((id, name)), other) == lookup(table, other),
{
    assert(table.push((id, name)).drop_last() =~= table);
}

/// The table after a batch of inserts has been applied in order, one row
/// per request.
pub open spec fn insert_all(table: TableModel, reqs: TableModel) -> TableModel
    decreases reqs.len(),
{
    if reqs.len() == 0 {
        table
    } else {
        insert_all(table, reqs.drop_last()).push(reqs.last())
    }
}

/// Applying a batch of inserts in order appends exactly those rows.
pub proof fn lemma_insert_all_is_append(table: TableModel, reqs: TableModel)
    ensures
        insert_all(table, reqs) == table + reqs,
    decreases reqs.len(),
{
    if reqs.len() == 0 {
        assert(insert_all(table, reqs) =~= table + reqs);
    } else {
        lemma_insert_all_is_append(table, reqs.drop_last());
        assert((table + reqs.drop_last()).push(reqs.last()) =~= table + reqs);
    }
}

/// Uniqueness across concurrent requests.  When K requests — each with
/// its own fresh identifier, all identifiers distinct — run against one
/// table, in whatever order their writes land, the table gains exactly K
/// rows, one per request, the primary-key constraint still holds, and a
/// read-back of each request's identifier returns that request's own
/// name: no cross-talk between requests sharing the pool.
pub proof fn lemma_concurrent_requests(table: TableModel, reqs: TableModel)
    requires
        distinct_ids(table),
        distinct_ids(reqs),
        forall|k: int| 0 <= k < reqs.len() ==> lookup(table, reqs[k].0) is None,
    ensures
        insert_all(table, reqs) == table + reqs,
        (table + reqs).len() == table.len() + reqs.len(),
        distinct_ids(table + reqs),
        forall|k: int| 0 <= k < reqs.len()
            ==> lookup(table + reqs, reqs[k].0) == Some(reqs[k].1),
{
    lemma_insert_all_is_append(table, reqs);
    let whole = table + reqs;
    assert forall|i: int, j: int| 0 <= i < j < whole.len() implies whole[i].0 != whole[j].0 by {
        if i < table.len() && j >= table.len() {
            lemma_lookup_none_means_absent(table, reqs[j - table.len()].0);
        }
    }
    assert forall|k: int| 0 <= k < reqs.len()
        implies lookup(whole, reqs[k].0) == Some(reqs[k].1) by {
        lemma_lookup_found(whole, table.len() + k);
    }
}

/// The model of the storage engine's visible state: whether the table
/// exists yet, and its rows.
pub ghost struct StoreModel {
    pub schema_ready: bool,
    pub table: TableModel,
}

/// An in-memory store implementing the table semantics the handler relies
/// on.  The real service keeps this state in an embedded database; the
/// contracts here state what each statement does to the visible state.
pub struct Store {
    pub schema_ready: bool,
    pub rows: Vec<Row>,
}

impl View for Store {
    type V = StoreModel;

    open spec fn view(&self) -> StoreModel {
        StoreModel {
            schema_ready: self.schema_ready,
            table: self.rows@.map_values(|r: Row| r@),
        }
    }
}

/// What the idempotent schema initialization does to the visible state:
/// afterwards the table exists, and the rows are untouched.  It succeeds
/// from every starting state.
pub open spec fn schema_init_step(pre: StoreModel, post: StoreModel) -> bool {
    &&& post.schema_ready
    &&& post.table == pre.table
}

/// Idempotence of schema initialization: however many times the "create
/// table if absent" step runs, it never errors (`schema_init_step` holds
/// of every starting state) and never duplicates the table — a repeat
/// changes nothing the first run did not already establish, and the rows
/// stay exactly as they were.
pub proof fn lemma_schema_init_idempotent(s0: StoreModel, s1: StoreModel, s2: StoreModel)
    requires
        schema_init_step(s0, s1),
        schema_init_step(s1, s2),
    ensures
        s2.schema_ready == s1.schema_ready,
        s2.table == s1.table,
        schema_init_step(s0, s2),
{
}

/// Schema initialization commutes with a concurrent request's insert:
/// whether the initialization lands before or after the insert, the
/// visible state that results is the same.
pub proof fn lemma_schema_init_commutes_with_insert(
    s0: StoreModel,
    s1: StoreModel,
    s2: StoreModel,
    t1: StoreModel,
    t2: StoreModel,
    id: Seq<char>,
    name: Seq<char>,
)
    requires
        schema_init_step(s0, s1),
        s2.schema_ready == s1.schema_ready && s2.table == s1.table.push((id, name)),
        t1.schema_ready == s0.schema_ready && t1.table == s0.table.push((id, name)),
        schema_init_step(t1, t2),
    ensures
        s2.schema_ready == t2.schema_ready,
        s2.table == t2.table,
{
}

impl Store {
    /// The primary-key constraint on the underlying rows.
    pub open spec fn wf(self) -> bool {
        distinct_ids(self@.table)
    }

    /// An empty store: no table yet, no rows.
    pub fn new() -> (s: Store)
        ensures
            s.wf(),
            !s@.schema_ready,
            s@.table.len() == 0,
    {
        Store { schema_ready: false, rows: Vec::new() }
    }

    /// The "create table if absent" statement: marks the schema ready and
    /// never errors, whether or not the table already existed.
    pub fn create_table_if_absent(&mut self)
        ensures
            schema_init_step(old(self)@, final(self)@),
            final(self).wf() == old(self).wf(),
    {
        self.schema_ready = true;
    }

    /// The row insert.  It appends the row when the identifier is fresh
    /// and fails with a write error — leaving the table unchanged — when
    /// the identifier violates the primary-key constraint.
    pub fn insert_row(&mut self, id: String, name: String) -> (r: Result<(), HandlerError>)
        requires
            old(self).wf(),
        ensures
            final(self).wf(),
            final(self)@.schema_ready == old(self)@.schema_ready,
            r is Ok <==> lookup(old(self)@.table, id@) is None,
            r matches Err(e) ==> e == HandlerError::Write && final(self)@.table == old(self)@.table,
            r is Ok ==> final(self)@.table == old(self)@.table.push((id@, name@)),
    {
        let ghost table = self@.table;
        let n = self.rows.len();
        let mut i: usize = 0;
        while i < n
            invariant
                n == self.rows@.len(),
                0 <= i <= n,
                forall|k: int| 0 <= k < i ==> self.rows@[k].id@ != id@,
                self.wf(),
                self@.table == table,
            decreases n - i,
        {
            if self.rows[i].id == id {
                proof {
                    lemma_lookup_found(table, i as int);
                }
                return Err(HandlerError::Write);
            }
            i += 1;
        }
        proof {
            lemma_lookup_absent(table, id@);
        }
        self.rows.push(Row { id, name });
        proof {
            assert(self@.table =~= table.push((self.rows@.last().id@, self.rows@.last().name@)));
            lemma_lookup_none_means_absent(table, self.rows@.last().id@);
        }
        Ok(())
    }

    /// The read-back by identifier: returns the stored name of the row
    /// with that identifier, or nothing when no such row exists.
    pub fn query_name(&self, id: &String) -> (r: Option<String>)
        requires
            self.wf(),
        ensures
            r matches Some(found) ==> lookup(self@.table, id@) == Some(found@),
            r is None ==> lookup(self@.table, id@) is None,
    {
        let n = self.rows.len();
        let mut i: usize = 0;
        while i < n
            invariant
                n == self.rows@.len(),
                0 <= i <= n,
                forall|k: int| 0 <= k < i ==> self.rows@[k].id@ != id@,
                self.wf(),
            decreases n - i,
        {
            if self.rows[i].id == *id {
                let found = self.rows[i].name.clone();
                proof {
                    lemma_lookup_found(self@.table, i as int);
                }
                return Some(found);
            }
            i += 1;
        }
        proof {
            lemma_lookup_absent(self@.table, id@);
        }
        None
    }
}

} // verus!
