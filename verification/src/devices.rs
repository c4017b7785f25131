//! The MIDI output that a run writes to: which of the devices at hand
//! the configuration means.

use vstd::prelude::*;
use crate::mapping::{Config, ConfigView};
use crate::text::views_of;

verus! {

/// The device that a run uses: the configured one where it is at
/// hand, else the first at hand, else none, written as the empty name.
pub open spec fn usable_output(wanted: Seq<char>, at_hand: Seq<Seq<char>>) -> Seq<char> {
    if at_hand.contains(wanted) {
        wanted
    } else if at_hand.len() > 0 {
        at_hand[0]
    } else {
        Seq::empty()
    }
}

/// The names of the ports; a port whose name cannot be read has none.
pub open spec fn port_names(ports: Seq<Option<String>>) -> Seq<Option<Seq<char>>> {
    ports.map_values(|p: Option<String>| crate::mapping::text_of(p))
}

/// Whether `at` is the first port that bears the name `wanted`.
pub open spec fn is_first_port_named(
    names: Seq<Option<Seq<char>>>,
    wanted: Seq<char>,
    at: int,
) -> bool {
    &&& 0 <= at < names.len()
    &&& names[at] == Some(wanted)
    &&& forall|j: int| 0 <= j < at ==> names[j] != Some(wanted)
}

fn is_at_hand(name: &String, midi_outputs: &Vec<String>) -> (r: bool)
    ensures
        r == views_of(midi_outputs@).contains(name@),
{
    let mut i: usize = 0;
    while i < midi_outputs.len()
        invariant
            i <= midi_outputs@.len(),
            forall|j: int| 0 <= j < i ==> views_of(midi_outputs@)[j] != name@,
        decreases midi_outputs@.len() - i,
    {
        if midi_outputs[i] == *name {
            assert(views_of(midi_outputs@)[i as int] == name@);
            return true;
        }
        i += 1;
    }
    false
}

/// Settles the MIDI output of a configuration that was read, given
/// the names of the devices at hand. A configured device that is at
/// hand stays. One that is not is replaced by the first device at
/// hand, or by the empty name where there is none, and the second
/// result says that the configuration is to be written back.
pub fn read_config(config: Config, midi_outputs: Vec<String>) -> (r: (Config, bool))
    ensures
        r.0@ == (ConfigView {
            midi_output_name: usable_output(config@.midi_output_name, views_of(midi_outputs@)),
            ..config@
        }),
        r.1 == !views_of(midi_outputs@).contains(config@.midi_output_name),
{
    if is_at_hand(&config.midi_output_name, &midi_outputs) {
        return (config, false);
    }
    let mut new_config = config;
    if midi_outputs.len() > 0 {
        new_config.midi_output_name = midi_outputs[0].clone();
    } else {
        new_config.midi_output_name = String::new();
    }
    (new_config, true)
}

/// Picks the port to connect to: the first whose name is exactly
/// `port_name_to_find`. `None` says that no port bears the name.
pub fn connect_to_midi_port(ports: &Vec<Option<String>>, port_name_to_find: &String) -> (r: Option<
    usize,
>)
    ensures
        match r {
            Some(at) => is_first_port_named(port_names(ports@), port_name_to_find@, at as int),
            None => !port_names(ports@).contains(Some(port_name_to_find@)),
        },
{
    let mut i: usize = 0;
    while i < ports.len()
        invariant
            i <= ports@.len(),
            forall|j: int| 0 <= j < i ==> port_names(ports@)[j] != Some(port_name_to_find@),
        decreases ports@.len() - i,
    {
        let found = match &ports[i] {
            Some(name) => *name == *port_name_to_find,
            None => false,
        };
        if found {
            return Some(i);
        }
        i += 1;
    }
    None
}

} // verus!
