//! The routing table in force, replaced as a whole on each reload.

use std::sync::Arc;
use vstd::prelude::*;
use vstd::string::StringExecFns;
use crate::log::{custom_print, emitted, event_view, LogEvent, Output};
use crate::mapping::{table_view, Mapping, MappingView};
use crate::matcher::{matching_entries, matching_indices};
use crate::osc::OscMessageView;

verus! {

/// Holds the routing table that is in force. A reader takes a
/// snapshot and works on it; a reload puts a new table in place of the
/// old one and never changes a table that a reader holds.
pub struct MappingStore {
    table: Arc<Vec<Mapping>>,
}

/// Why a table could not be loaded; the text says what the loader
/// found.
#[derive(Debug)]
pub struct LoadError {
    pub reason: String,
}

/// `Arc::clone`: another handle to the same value.
#[verifier::external_body]
fn share(table: &Arc<Vec<Mapping>>) -> (r: Arc<Vec<Mapping>>)
    ensures
        *r == **table,
{
    Arc::clone(table)
}

impl View for MappingStore {
    type V = Seq<MappingView>;

    closed spec fn view(&self) -> Seq<MappingView> {
        table_view((*self.table)@)
    }
}

impl MappingStore {
    /// A store with an empty table.
    pub fn new() -> (store: Self)
        ensures
            store@ == Seq::<MappingView>::empty(),
    {
        let table: Vec<Mapping> = Vec::new();
        assert(table_view(table@) =~= Seq::<MappingView>::empty());
        MappingStore { table: Arc::new(table) }
    }

    /// The table in force. The snapshot is a value of its own: a later
    /// `replace` does not change it.
    pub fn snapshot(&self) -> (table: Arc<Vec<Mapping>>)
        ensures
            table_view((*table)@) == self@,
    {
        share(&self.table)
    }

    /// Puts `new_table` in force in place of the whole old table.
    pub fn replace(&mut self, new_table: Vec<Mapping>)
        ensures
            final(self)@ == table_view(new_table@),
    {
        self.table = Arc::new(new_table);
    }
}

/// The text of the event that tells of a reload.
pub open spec fn loaded_message() -> Seq<char> {
    "Mappings loaded!"@
}

/// Ends a reload. A table that was loaded is put in force as a whole
/// and the reload is logged; where loading failed the table in force
/// stays as it is and the error goes back to the caller.
pub fn load_and_log_mappings(
    store: &mut MappingStore,
    loaded: Result<Vec<Mapping>, LoadError>,
    debug_enabled: bool,
) -> (r: Result<Option<LogEvent>, LoadError>)
    ensures
        match loaded {
            Ok(table) => {
                &&& final(store)@ == table_view(table@)
                &&& r matches Ok(event)
                &&& event_view(event) == emitted(loaded_message(), Output::App, debug_enabled)
            },
            Err(e) => final(store)@ == old(store)@ && r == Err::<Option<LogEvent>, LoadError>(e),
        },
{
    match loaded {
        Ok(mappings) => {
            store.replace(mappings);
            Ok(custom_print(String::from_str("Mappings loaded!"), Output::App, debug_enabled))
        },
        Err(e) => Err(e),
    }
}

/// What is done to a store, seen from outside.
pub enum StoreOp {
    /// A reload that puts the given table in force.
    Replace(Seq<MappingView>),
    /// A reader that takes a snapshot.
    Snapshot,
}

/// The table in force after `ops` were done, in that order, to a store
/// that held `start`.
pub open spec fn table_after(start: Seq<MappingView>, ops: Seq<StoreOp>) -> Seq<MappingView>
    decreases ops.len(),
{
    if ops.len() == 0 {
        start
    } else {
        match ops.last() {
            StoreOp::Replace(table) => table,
            StoreOp::Snapshot => table_after(start, ops.drop_last()),
        }
    }
}

/// A reload never shows a reader a mixture. However reloads and
/// snapshots follow one another, the table that a snapshot finds in
/// force is one whole table: the one the store started with or one
/// that a reload put in force. The rules that a message triggers in
/// that snapshot are rules of that one table, at rising positions in
/// it.
pub proof fn lemma_reload_never_mixes(
    start: Seq<MappingView>,
    ops: Seq<StoreOp>,
    msg: OscMessageView,
)
    ensures
        table_after(start, ops) == start || exists|i: int|
            0 <= i < ops.len() && #[trigger] ops[i] == StoreOp::Replace(table_after(start, ops)),
        forall|k: int|
            0 <= k < matching_entries(table_after(start, ops), msg).len() ==> {
                &&& 0 <= matching_indices(table_after(start, ops), msg)[k] < table_after(
                    start,
                    ops,
                ).len()
                &&& #[trigger] matching_entries(table_after(start, ops), msg)[k] == table_after(
                    start,
                    ops,
                )[matching_indices(table_after(start, ops), msg)[k]]
            },
    decreases ops.len(),
{
    crate::matcher::lemma_matches_are_all_in_order(table_after(start, ops), msg);
    if ops.len() > 0 {
        match ops.last() {
            StoreOp::Replace(table) => {
                assert(ops[ops.len() - 1] == StoreOp::Replace(table_after(start, ops)));
            },
            StoreOp::Snapshot => {
                lemma_reload_never_mixes(start, ops.drop_last(), msg);
                if table_after(start, ops) != start {
                    let i = choose|i: int|
                        0 <= i < ops.drop_last().len() && #[trigger] ops.drop_last()[i]
                            == StoreOp::Replace(table_after(start, ops.drop_last()));
                    assert(ops[i] == StoreOp::Replace(table_after(start, ops)));
                }
            },
        }
    }
}

} // verus!
