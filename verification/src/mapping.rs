//! The routing table: one `Mapping` per rule, the `Config` of a run, and
//! the store that holds the table in force.

use vstd::prelude::*;

verus! {

/// One rule of the routing table: the inbound message that triggers
/// it, and the outbound OSC message and MIDI messages it asks for.
#[derive(Debug)]
pub struct Mapping {
    pub osc_in_address: String,
    pub osc_in_args: Option<String>,
    pub osc_out_address: Option<String>,
    pub osc_out_args: Option<String>,
    pub midi_channel: Option<u32>,
    pub midi_type: Option<String>,
    pub midi_note: Option<u32>,
    pub midi_velocity: Option<u32>,
    pub midi_controller: Option<u32>,
    pub midi_value: Option<u32>,
    pub qc_preset_id: Option<String>,
    pub gt1000_preset_id: Option<String>,
    pub setlist: Option<u32>,
    pub _comment: Option<String>,
}

/// A `Mapping` as a mathematical value: texts are sequences of
/// characters.
pub struct MappingView {
    pub osc_in_address: Seq<char>,
    pub osc_in_args: Option<Seq<char>>,
    pub osc_out_address: Option<Seq<char>>,
    pub osc_out_args: Option<Seq<char>>,
    pub midi_channel: Option<u32>,
    pub midi_type: Option<Seq<char>>,
    pub midi_note: Option<u32>,
    pub midi_velocity: Option<u32>,
    pub midi_controller: Option<u32>,
    pub midi_value: Option<u32>,
    pub qc_preset_id: Option<Seq<char>>,
    pub gt1000_preset_id: Option<Seq<char>>,
    pub setlist: Option<u32>,
    pub comment: Option<Seq<char>>,
}

/// The characters of an optional text.
pub open spec fn text_of(t: Option<String>) -> Option<Seq<char>> {
    match t {
        Some(s) => Some(s@),
        None => None,
    }
}

impl View for Mapping {
    type V = MappingView;

    open spec fn view(&self) -> MappingView {
        MappingView {
            osc_in_address: self.osc_in_address@,
            osc_in_args: text_of(self.osc_in_args),
            osc_out_address: text_of(self.osc_out_address),
            osc_out_args: text_of(self.osc_out_args),
            midi_channel: self.midi_channel,
            midi_type: text_of(self.midi_type),
            midi_note: self.midi_note,
            midi_velocity: self.midi_velocity,
            midi_controller: self.midi_controller,
            midi_value: self.midi_value,
            qc_preset_id: text_of(self.qc_preset_id),
            gt1000_preset_id: text_of(self.gt1000_preset_id),
            setlist: self.setlist,
            comment: text_of(self._comment),
        }
    }
}

impl Clone for Mapping {
    fn clone(&self) -> (r: Self)
        ensures
            r == *self,
    {
        Mapping {
            osc_in_address: self.osc_in_address.clone(),
            osc_in_args: self.osc_in_args.clone(),
            osc_out_address: self.osc_out_address.clone(),
            osc_out_args: self.osc_out_args.clone(),
            midi_channel: self.midi_channel,
            midi_type: self.midi_type.clone(),
            midi_note: self.midi_note,
            midi_velocity: self.midi_velocity,
            midi_controller: self.midi_controller,
            midi_value: self.midi_value,
            qc_preset_id: self.qc_preset_id.clone(),
            gt1000_preset_id: self.gt1000_preset_id.clone(),
            setlist: self.setlist,
            _comment: self._comment.clone(),
        }
    }
}

/// The views of the rules of a table, in table order.
pub open spec fn table_view(table: Seq<Mapping>) -> Seq<MappingView> {
    table.map_values(|m: Mapping| m@)
}

/// The settings of one run.
#[derive(Debug)]
pub struct Config {
    pub osc_listen_port: u16,
    pub osc_send_host: String,
    pub osc_send_port: u16,
    pub midi_output_name: String,
    pub debug_logging: bool,
}

/// A `Config` as a mathematical value.
pub struct ConfigView {
    pub osc_listen_port: u16,
    pub osc_send_host: Seq<char>,
    pub osc_send_port: u16,
    pub midi_output_name: Seq<char>,
    pub debug_logging: bool,
}

impl View for Config {
    type V = ConfigView;

    open spec fn view(&self) -> ConfigView {
        ConfigView {
            osc_listen_port: self.osc_listen_port,
            osc_send_host: self.osc_send_host@,
            osc_send_port: self.osc_send_port,
            midi_output_name: self.midi_output_name@,
            debug_logging: self.debug_logging,
        }
    }
}

impl Clone for Config {
    fn clone(&self) -> (r: Self)
        ensures
            r == *self,
    {
        Config {
            osc_listen_port: self.osc_listen_port,
            osc_send_host: self.osc_send_host.clone(),
            osc_send_port: self.osc_send_port,
            midi_output_name: self.midi_output_name.clone(),
            debug_logging: self.debug_logging,
        }
    }
}

} // verus!
