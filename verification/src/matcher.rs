//! Selection of the rules that an inbound message triggers.

use vstd::prelude::*;
use crate::mapping::{table_view, Mapping, MappingView};
use crate::osc::{OscArg, OscArgView, OscMessage, OscMessageView};

verus! {

/// Whether the message carries what the rule expects: text that is
/// absent or empty expects nothing; any other text expects exactly one
/// argument, a string equal to it.
pub open spec fn args_match(expected: Option<Seq<char>>, args: Seq<OscArgView>) -> bool {
    match expected {
        None => true,
        Some(text) => text.len() == 0 || (args.len() == 1 && args[0] == OscArgView::Text(text)),
    }
}

/// Whether `msg` triggers `m`: the addresses are equal, character for
/// character, and the arguments are what the rule expects.
pub open spec fn mapping_matches(m: MappingView, msg: OscMessageView) -> bool {
    m.osc_in_address == msg.addr && args_match(m.osc_in_args, msg.args)
}

/// The rules of `table` that `msg` triggers, in table order.
pub open spec fn matching_entries(table: Seq<MappingView>, msg: OscMessageView) -> Seq<
    MappingView,
> {
    table.filter(|m: MappingView| mapping_matches(m, msg))
}

/// The positions in `table` of the rules that `msg` triggers, in
/// rising order.
pub open spec fn matching_indices(table: Seq<MappingView>, msg: OscMessageView) -> Seq<int>
    decreases table.len(),
{
    if table.len() == 0 {
        Seq::empty()
    } else {
        let rest = matching_indices(table.drop_last(), msg);
        if mapping_matches(table.last(), msg) {
            rest.push(table.len() - 1)
        } else {
            rest
        }
    }
}

/// The matcher returns all the rules that the message triggers, no
/// others, each once, in table order: the result is the table read at
/// the positions of the triggered rules, and those positions rise.
/// None, one or many rules may come back.
pub proof fn lemma_matches_are_all_in_order(table: Seq<MappingView>, msg: OscMessageView)
    ensures
        matching_entries(table, msg).len() == matching_indices(table, msg).len(),
        forall|k: int|
            0 <= k < matching_indices(table, msg).len() ==> {
                &&& 0 <= #[trigger] matching_indices(table, msg)[k] < table.len()
                &&& matching_entries(table, msg)[k] == table[matching_indices(table, msg)[k]]
                &&& mapping_matches(table[matching_indices(table, msg)[k]], msg)
            },
        forall|j: int, k: int|
            0 <= j < k < matching_indices(table, msg).len() ==> matching_indices(table, msg)[j]
                < matching_indices(table, msg)[k],
        forall|i: int|
            0 <= i < table.len() && mapping_matches(#[trigger] table[i], msg)
                ==> matching_indices(table, msg).contains(i),
    decreases table.len(),
{
    reveal(Seq::filter);
    let pred = |m: MappingView| mapping_matches(m, msg);
    if table.len() > 0 {
        let head = table.drop_last();
        lemma_matches_are_all_in_order(head, msg);
        let idx = matching_indices(table, msg);
        let rest = matching_indices(head, msg);
        assert(pred(table.last()) == mapping_matches(table.last(), msg));
        assert(matching_entries(table, msg) == if mapping_matches(table.last(), msg) {
            matching_entries(head, msg).push(table.last())
        } else {
            matching_entries(head, msg)
        });
        assert forall|k: int| 0 <= k < idx.len() implies {
            &&& 0 <= #[trigger] idx[k] < table.len()
            &&& matching_entries(table, msg)[k] == table[idx[k]]
            &&& mapping_matches(table[idx[k]], msg)
        } by {
            if k < rest.len() {
                assert(idx[k] == rest[k]);
                assert(table[rest[k]] == head[rest[k]]);
            }
        }
        assert forall|j: int, k: int| 0 <= j < k < idx.len() implies idx[j] < idx[k] by {
            assert(idx[j] == rest[j]);
            if k < rest.len() {
                assert(idx[k] == rest[k]);
            }
        }
        assert forall|i: int|
            0 <= i < table.len() && mapping_matches(#[trigger] table[i], msg) implies idx.contains(
            i,
        ) by {
            if i < head.len() {
                assert(head[i] == table[i]);
                assert(rest.contains(i));
                let k = choose|k: int| 0 <= k < rest.len() && rest[k] == i;
                assert(idx[k] == i);
            } else {
                assert(idx[idx.len() - 1] == i);
            }
        }
    }
}

fn args_fit(expected: &Option<String>, args: &Vec<OscArg>) -> (r: bool)
    ensures
        r == args_match(crate::mapping::text_of(*expected), crate::osc::args_view(args@)),
{
    match expected {
        None => true,
        Some(text) => {
            if text.as_str().is_empty() {
                return true;
            }
            if args.len() != 1 {
                return false;
            }
            match &args[0] {
                OscArg::Text(val) => *val == *text,
                _ => false,
            }
        },
    }
}

/// Whether `msg` triggers `m`.
pub fn is_match(m: &Mapping, msg: &OscMessage) -> (r: bool)
    ensures
        r == mapping_matches(m@, msg@),
{
    m.osc_in_address == msg.addr && args_fit(&m.osc_in_args, &msg.args)
}

/// Every rule of `mappings` that `msg` triggers, in table order. All of
/// them fire: there is no first match that wins.
pub fn match_mappings(mappings: &[Mapping], msg: &OscMessage) -> (found: Vec<Mapping>)
    ensures
        table_view(found@) == matching_entries(table_view(mappings@), msg@),
{
    let mut found: Vec<Mapping> = Vec::new();
    let ghost table = table_view(mappings@);
    let ghost pred = |m: MappingView| mapping_matches(m, msg@);
    let mut i: usize = 0;
    proof {
        reveal(Seq::filter);
        assert(table.take(0) =~= Seq::<MappingView>::empty());
        assert(table_view(found@) =~= Seq::<MappingView>::empty());
    }
    while i < mappings.len()
        invariant
            i <= mappings@.len(),
            table == table_view(mappings@),
            pred == (|m: MappingView| mapping_matches(m, msg@)),
            table_view(found@) == table.take(i as int).filter(pred),
        decreases mappings@.len() - i,
    {
        let m = &mappings[i];
        proof {
            reveal(Seq::filter);
            let next = table.take(i + 1);
            assert(next.drop_last() =~= table.take(i as int));
            assert(next.last() == m@);
            assert(pred(m@) == mapping_matches(m@, msg@));
            assert(next.filter(pred) == if pred(next.last()) {
                next.drop_last().filter(pred).push(next.last())
            } else {
                next.drop_last().filter(pred)
            });
        }
        if is_match(m, msg) {
            let copy = m.clone();
            assert(table_view(found@.push(copy)) =~= table_view(found@).push(copy@));
            found.push(copy);
        }
        i += 1;
    }
    assert(table.take(mappings@.len() as int) =~= table);
    found
}

} // verus!
