//! The dispatch loop: its states, and what one received datagram
//! leads to.
//!
//! The loop itself waits for a datagram or for the shutdown signal,
//! whichever comes first. It hands each to the functions here, which
//! decide what is sent, and does the sending.

use vstd::prelude::*;
use vstd::string::StringExecFns;
use crate::log::{custom_print, emitted, event_view, LogEvent, LogEventView, Output};
use crate::mapping::{table_view, Config, ConfigView, Mapping, MappingView};
use crate::matcher::{match_mappings, matching_entries};
use crate::midi::{
    handle_midi_message, messages_view, midi_messages, preset_line, preset_note,
};
use crate::osc::{
    incoming_osc_handler, osc_decoded, osc_encoded, out_args, outgoing_osc_handler, send_port,
    Datagram, DatagramView, DecodeError, OscMessageView, OscPacket, OscPacketView, OutboundError,
    MAX_DATAGRAM,
};
use crate::text::{decimal_text, push_decimal};

verus! {

/// Where the loop stands between two cycles.
#[derive(Clone, Copy, Debug, PartialEq, Eq, Structural)]
pub enum LoopState {
    /// Not entered yet.
    Idle,
    /// Waiting for a datagram or for the shutdown signal.
    Listening,
    /// Left for good.
    Terminated,
}

/// What can happen to the loop.
#[derive(Clone, Copy, Debug, PartialEq, Eq, Structural)]
pub enum LoopEvent {
    /// The socket is bound and the MIDI output is connected.
    Entered,
    /// The socket could not be bound or the MIDI output could not be
    /// connected.
    EntryFailed,
    /// A datagram arrived and its cycle is done.
    Datagram,
    /// The shutdown signal arrived.
    Shutdown,
}

/// How far the cycle of one datagram got.
#[derive(Clone, Copy, Debug, PartialEq, Eq, Structural)]
pub enum CyclePhase {
    /// The datagram was received and held no message.
    Received,
    /// A message was matched against the table, and no rule fired.
    Matched,
    /// The rules that fired were dispatched.
    Dispatched,
}

/// The state that follows `state` on `event`. The loop is entered
/// once; while it listens a datagram leaves it listening, whatever the
/// datagram held, and the shutdown signal ends it; once ended it stays
/// so. An event that does not fit the state changes nothing.
pub open spec fn next_state(state: LoopState, event: LoopEvent) -> LoopState {
    match (state, event) {
        (LoopState::Idle, LoopEvent::Entered) => LoopState::Listening,
        (LoopState::Idle, LoopEvent::EntryFailed) => LoopState::Terminated,
        (LoopState::Listening, LoopEvent::Shutdown) => LoopState::Terminated,
        _ => state,
    }
}

/// The state after a run of events.
pub open spec fn state_after(state: LoopState, events: Seq<LoopEvent>) -> LoopState
    decreases events.len(),
{
    if events.len() == 0 {
        state
    } else {
        next_state(state_after(state, events.drop_last()), events.last())
    }
}

/// What is to be done for one rule that fired: first the outbound OSC
/// datagram, if there is one, then the MIDI messages in order. Where
/// one of these cannot be done, the rest of this plan is left out and
/// the next plan is taken up.
#[derive(Debug)]
pub struct MatchPlan {
    pub osc: Option<Datagram>,
    pub midi: Vec<Vec<u8>>,
    /// Set where the rule asks for an outbound message that cannot be
    /// made; the plan then holds nothing to do.
    pub fault: Option<OutboundError>,
    /// What there is to log about the plan.
    pub notes: Vec<LogEvent>,
}

/// A `MatchPlan` as a mathematical value.
pub struct MatchPlanView {
    pub osc: Option<DatagramView>,
    pub midi: Seq<Seq<u8>>,
    pub fault: Option<OutboundError>,
    pub notes: Seq<LogEventView>,
}

impl View for MatchPlan {
    type V = MatchPlanView;

    open spec fn view(&self) -> MatchPlanView {
        MatchPlanView {
            osc: match self.osc {
                Some(d) => Some(d@),
                None => None,
            },
            midi: messages_view(self.midi@),
            fault: self.fault,
            notes: events_view(self.notes@),
        }
    }
}

/// The views of a list of log events, in order.
pub open spec fn events_view(events: Seq<LogEvent>) -> Seq<LogEventView> {
    events.map_values(|e: LogEvent| e@)
}

/// The views of a list of plans, in order.
pub open spec fn plans_view(plans: Seq<MatchPlan>) -> Seq<MatchPlanView> {
    plans.map_values(|p: MatchPlan| p@)
}

/// One step of a plan.
#[derive(Debug)]
pub enum Action<'a> {
    SendOsc(&'a Datagram),
    WriteMidi(&'a Vec<u8>),
}

/// What became of one datagram.
#[derive(Debug)]
pub enum Cycle {
    /// It held no packet and was dropped.
    Dropped(DecodeError),
    /// It held a packet that is no message.
    Ignored,
    /// It held a message that triggers no rule.
    Unmatched,
    /// It held a message; one plan for each rule that it triggers, in
    /// table order.
    Dispatched(Vec<MatchPlan>),
}

/// A `Cycle` as a mathematical value; of a dropped datagram it keeps
/// whether the datagram was too long.
pub enum CycleView {
    Dropped { oversized: bool },
    Ignored,
    Unmatched,
    Dispatched(Seq<MatchPlanView>),
}

impl View for Cycle {
    type V = CycleView;

    open spec fn view(&self) -> CycleView {
        match self {
            Cycle::Dropped(e) => CycleView::Dropped { oversized: e is Oversized },
            Cycle::Ignored => CycleView::Ignored,
            Cycle::Unmatched => CycleView::Unmatched,
            Cycle::Dispatched(plans) => CycleView::Dispatched(plans_view(plans@)),
        }
    }
}

/// The line that tells of a cycle and the kind of message it is: an
/// error for a datagram that was dropped, a console message for a
/// packet that was ignored or a message that triggered nothing, and
/// nothing for a cycle that dispatched.
pub open spec fn cycle_line(cycle: Cycle) -> Option<(Seq<char>, Output)> {
    match cycle {
        Cycle::Dropped(DecodeError::Oversized) => Some(
            ("Dropped a datagram that is too long"@, Output::AppError),
        ),
        Cycle::Dropped(DecodeError::Malformed(text)) => Some(
            ("Dropped a datagram that is no OSC packet: "@ + text@, Output::AppError),
        ),
        Cycle::Ignored => Some(("Received a non-message packet"@, Output::Console)),
        Cycle::Unmatched => Some(("Mapping not found."@, Output::Console)),
        Cycle::Dispatched(_) => None,
    }
}

impl Cycle {
    /// How far this cycle got.
    pub fn phase(&self) -> (r: CyclePhase)
        ensures
            r == phase_of(self@),
    {
        match self {
            Cycle::Dropped(_) => CyclePhase::Received,
            Cycle::Ignored => CyclePhase::Received,
            Cycle::Unmatched => CyclePhase::Matched,
            Cycle::Dispatched(_) => CyclePhase::Dispatched,
        }
    }

    /// The log event that tells of this cycle, if it is to be logged.
    pub fn describe(&self, debug_enabled: bool) -> (r: Option<LogEvent>)
        ensures
            event_view(r) == match cycle_line(*self) {
                Some((line, output)) => emitted(line, output, debug_enabled),
                None => None,
            },
    {
        match self {
            Cycle::Dropped(DecodeError::Oversized) => custom_print(
                String::from_str("Dropped a datagram that is too long"),
                Output::AppError,
                debug_enabled,
            ),
            Cycle::Dropped(DecodeError::Malformed(text)) => custom_print(
                String::from_str("Dropped a datagram that is no OSC packet: ").concat(
                    text.as_str(),
                ),
                Output::AppError,
                debug_enabled,
            ),
            Cycle::Ignored => custom_print(
                String::from_str("Received a non-message packet"),
                Output::Console,
                debug_enabled,
            ),
            Cycle::Unmatched => custom_print(
                String::from_str("Mapping not found."),
                Output::Console,
                debug_enabled,
            ),
            Cycle::Dispatched(_) => None,
        }
    }
}

/// How far a cycle got.
pub open spec fn phase_of(cycle: CycleView) -> CyclePhase {
    match cycle {
        CycleView::Dropped { .. } => CyclePhase::Received,
        CycleView::Ignored => CyclePhase::Received,
        CycleView::Unmatched => CyclePhase::Matched,
        CycleView::Dispatched(_) => CyclePhase::Dispatched,
    }
}

/// Whether the rule asks for an outbound OSC message: it names an
/// address that is not empty.
pub open spec fn wants_osc(m: MappingView) -> bool {
    m.osc_out_address matches Some(address) && address.len() > 0
}

/// The text of the arguments of the outbound message of a rule.
pub open spec fn out_text(m: MappingView) -> Seq<char> {
    match m.osc_out_args {
        Some(text) => text,
        None => Seq::empty(),
    }
}

/// The line that tells of an outbound message for which there is no
/// port.
pub open spec fn no_port_text(address: Seq<char>, port: u16) -> Seq<char> {
    "Cannot send "@ + address + ": there is no port after "@ + decimal_text(port as nat)
}

/// Zero or one event as a list.
pub open spec fn as_notes(event: Option<LogEventView>) -> Seq<LogEventView> {
    match event {
        Some(e) => seq![e],
        None => Seq::empty(),
    }
}

/// What there is to log about the MIDI side of a rule: the line about
/// its preset, as an informational message.
pub open spec fn midi_notes(m: MappingView, config: ConfigView) -> Seq<LogEventView> {
    match preset_line(m) {
        Some(line) => as_notes(emitted(line, Output::App, config.debug_logging)),
        None => Seq::empty(),
    }
}

/// The plan for the rule `m` under `config`.
pub open spec fn plan_of(m: MappingView, config: ConfigView) -> MatchPlanView {
    if wants_osc(m) {
        let address = m.osc_out_address->0;
        if send_port(address, config.osc_send_port) > u16::MAX {
            MatchPlanView {
                osc: None,
                midi: Seq::empty(),
                fault: Some(OutboundError::NoSuchPort),
                notes: as_notes(
                    emitted(
                        no_port_text(address, config.osc_send_port),
                        Output::AppError,
                        config.debug_logging,
                    ),
                ),
            }
        } else {
            MatchPlanView {
                osc: Some(
                    DatagramView {
                        host: config.osc_send_host,
                        port: send_port(address, config.osc_send_port) as u16,
                        payload: osc_encoded(address, out_args(out_text(m))),
                    },
                ),
                midi: midi_messages(m),
                fault: None,
                notes: midi_notes(m, config),
            }
        }
    } else {
        MatchPlanView {
            osc: None,
            midi: midi_messages(m),
            fault: None,
            notes: midi_notes(m, config),
        }
    }
}

/// The plans for the rules that `msg` triggers, in table order.
pub open spec fn plans_for(table: Seq<MappingView>, msg: OscMessageView, config: ConfigView) -> Seq<
    MatchPlanView,
> {
    matching_entries(table, msg).map_values(|m: MappingView| plan_of(m, config))
}

/// What a decoded packet leads to.
pub open spec fn cycle_of(packet: OscPacketView, table: Seq<MappingView>, config: ConfigView) -> CycleView {
    match packet {
        OscPacketView::Bundle => CycleView::Ignored,
        OscPacketView::Message(msg) => if matching_entries(table, msg).len() == 0 {
            CycleView::Unmatched
        } else {
            CycleView::Dispatched(plans_for(table, msg, config))
        },
    }
}

/// What a datagram leads to.
pub open spec fn cycle_for(datagram: Seq<u8>, table: Seq<MappingView>, config: ConfigView) -> CycleView {
    if datagram.len() > MAX_DATAGRAM {
        CycleView::Dropped { oversized: true }
    } else {
        match osc_decoded(datagram) {
            Some(packet) => cycle_of(packet, table, config),
            None => CycleView::Dropped { oversized: false },
        }
    }
}

/// The number of steps of a plan.
pub open spec fn action_count(plan: MatchPlanView) -> int {
    (if plan.osc is Some { 1int } else { 0int }) + plan.midi.len()
}

impl MatchPlan {
    /// The step to take when `done` steps of this plan have been taken
    /// and `all_ok` says whether each of them succeeded. The outbound
    /// OSC datagram comes first, then the MIDI messages in order.
    /// After a step that failed, and at the end of the plan, there is
    /// none.
    pub fn action_after(&self, done: usize, all_ok: bool) -> (r: Option<Action<'_>>)
        ensures
            r is Some <==> all_ok && done < action_count(self@),
            r matches Some(action) ==> match action {
                Action::SendOsc(d) => self.osc == Some(*d) && done == 0,
                Action::WriteMidi(bytes) => {
                    let at = done - (action_count(self@) - self.midi@.len());
                    0 <= at < self.midi@.len() && self.midi@[at] == *bytes
                },
            },
    {
        if !all_ok {
            return None;
        }
        match &self.osc {
            Some(d) => {
                if done == 0 {
                    Some(Action::SendOsc(d))
                } else if done - 1 < self.midi.len() {
                    Some(Action::WriteMidi(&self.midi[done - 1]))
                } else {
                    None
                }
            },
            None => {
                if done < self.midi.len() {
                    Some(Action::WriteMidi(&self.midi[done]))
                } else {
                    None
                }
            },
        }
    }
}

fn notes_of(event: Option<LogEvent>) -> (r: Vec<LogEvent>)
    ensures
        events_view(r@) == as_notes(event_view(event)),
{
    let mut r: Vec<LogEvent> = Vec::new();
    match event {
        Some(e) => {
            r.push(e);
            assert(events_view(r@) =~= seq![e@]);
        },
        None => {
            assert(events_view(r@) =~= Seq::<LogEventView>::empty());
        },
    }
    r
}

fn midi_notes_of(found_map: &Mapping, config: &Config) -> (r: Vec<LogEvent>)
    ensures
        events_view(r@) == midi_notes(found_map@, config@),
{
    match preset_note(found_map) {
        Some(line) => notes_of(custom_print(line, Output::App, config.debug_logging)),
        None => notes_of(None),
    }
}

fn no_port_message(address: &str, port: u16) -> (r: String)
    ensures
        r@ == no_port_text(address@, port),
{
    let mut r = String::from_str("Cannot send ").concat(address).concat(
        ": there is no port after ",
    );
    push_decimal(&mut r, port as u32);
    r
}

/// Plans what is to be done for the rule `found_map` that fired.
pub fn plan_match(found_map: &Mapping, config: &Config) -> (plan: MatchPlan)
    ensures
        plan@ == plan_of(found_map@, config@),
{
    let wanted: Option<&String> = match &found_map.osc_out_address {
        Some(address) => if address.as_str().is_empty() {
            None
        } else {
            Some(address)
        },
        None => None,
    };
    match wanted {
        Some(address) => {
            let args: Option<&str> = match &found_map.osc_out_args {
                Some(text) => Some(text.as_str()),
                None => None,
            };
            match outgoing_osc_handler(
                address.as_str(),
                args,
                config.osc_send_host.as_str(),
                &config.osc_send_port,
            ) {
                Ok(datagram) => MatchPlan {
                    osc: Some(datagram),
                    midi: handle_midi_message(found_map),
                    fault: None,
                    notes: midi_notes_of(found_map, config),
                },
                Err(e) => {
                    let midi: Vec<Vec<u8>> = Vec::new();
                    assert(messages_view(midi@) =~= Seq::<Seq<u8>>::empty());
                    let line = no_port_message(address.as_str(), config.osc_send_port);
                    let notes = notes_of(
                        custom_print(line, Output::AppError, config.debug_logging),
                    );
                    MatchPlan { osc: None, midi, fault: Some(e), notes }
                },
            }
        },
        None => MatchPlan {
            osc: None,
            midi: handle_midi_message(found_map),
            fault: None,
            notes: midi_notes_of(found_map, config),
        },
    }
}

/// Decides what a decoded packet leads to: a packet that is no message
/// is ignored; a message is matched against the table, and each rule
/// that it triggers gets its plan, in table order.
pub fn dispatch_packet(packet: &OscPacket, table: &[Mapping], config: &Config) -> (cycle: Cycle)
    ensures
        cycle@ == cycle_of(packet@, table_view(table@), config@),
{
    match packet {
        OscPacket::Bundle => Cycle::Ignored,
        OscPacket::Message(msg) => {
            let found_maps = match_mappings(table, msg);
            if found_maps.len() == 0 {
                return Cycle::Unmatched;
            }
            let ghost found = table_view(found_maps@);
            let ghost f = |m: MappingView| plan_of(m, config@);
            let mut plans: Vec<MatchPlan> = Vec::new();
            let mut i: usize = 0;
            assert(plans_view(plans@) =~= found.take(0).map_values(f));
            while i < found_maps.len()
                invariant
                    i <= found_maps@.len(),
                    found == table_view(found_maps@),
                    f == (|m: MappingView| plan_of(m, config@)),
                    plans_view(plans@) == found.take(i as int).map_values(f),
                decreases found_maps@.len() - i,
            {
                let plan = plan_match(&found_maps[i], config);
                proof {
                    assert(plan@ == f(found[i as int]));
                    assert(plans_view(plans@.push(plan)) =~= plans_view(plans@).push(plan@));
                    assert(found.take(i + 1).map_values(f) =~= found.take(i as int).map_values(
                        f,
                    ).push(f(found[i as int])));
                }
                plans.push(plan);
                i += 1;
            }
            assert(found.take(found_maps@.len() as int) =~= found);
            Cycle::Dispatched(plans)
        },
    }
}

/// Runs the cycle of one datagram: decodes it and decides what the
/// packet leads to. A datagram that holds no packet is dropped, and
/// that is all that comes of it.
pub fn run_cycle(datagram: &[u8], table: &[Mapping], config: &Config) -> (cycle: Cycle)
    ensures
        cycle@ == cycle_for(datagram@, table_view(table@), config@),
{
    match incoming_osc_handler(datagram) {
        Ok(packet) => dispatch_packet(&packet, table, config),
        Err(e) => Cycle::Dropped(e),
    }
}

/// The dispatch loop as far as it decides: its state and its
/// configuration.
pub struct DispatchLoop {
    state: LoopState,
    config: Config,
}

impl DispatchLoop {
    /// The state of the loop.
    pub closed spec fn state(self) -> LoopState {
        self.state
    }

    /// The configuration of the loop.
    pub closed spec fn config(self) -> ConfigView {
        self.config@
    }

    /// A loop that has not been entered.
    pub fn new(config: Config) -> (r: Self)
        ensures
            r.state() == LoopState::Idle,
            r.config() == config@,
    {
        DispatchLoop { state: LoopState::Idle, config }
    }

    /// The state of the loop.
    pub fn current_state(&self) -> (r: LoopState)
        ensures
            r == self.state(),
    {
        self.state
    }

    /// Takes note of an event; the state moves as `next_state` says.
    pub fn on_event(&mut self, event: LoopEvent)
        ensures
            final(self).state() == next_state(old(self).state(), event),
            final(self).config() == old(self).config(),
    {
        let next = match (self.state, event) {
            (LoopState::Idle, LoopEvent::Entered) => LoopState::Listening,
            (LoopState::Idle, LoopEvent::EntryFailed) => LoopState::Terminated,
            (LoopState::Listening, LoopEvent::Shutdown) => LoopState::Terminated,
            _ => self.state,
        };
        self.state = next;
    }

    /// Takes a datagram that arrived and runs its cycle against
    /// `table`, the snapshot taken for this cycle. While the loop
    /// listens it goes on listening afterwards, whatever the datagram
    /// held. A loop that does not listen does nothing and gives
    /// `None`.
    pub fn on_datagram(&mut self, datagram: &[u8], table: &[Mapping]) -> (r: Option<Cycle>)
        ensures
            final(self).state() == old(self).state(),
            final(self).state() == next_state(old(self).state(), LoopEvent::Datagram),
            final(self).config() == old(self).config(),
            match r {
                Some(cycle) => old(self).state() == LoopState::Listening && cycle@ == cycle_for(
                    datagram@,
                    table_view(table@),
                    old(self).config(),
                ),
                None => old(self).state() != LoopState::Listening,
            },
    {
        match self.state {
            LoopState::Listening => Some(run_cycle(datagram, table, &self.config)),
            _ => None,
        }
    }
}

/// A loop that listens goes on listening through any run of datagrams,
/// malformed ones among them.
pub proof fn lemma_datagrams_keep_listening(events: Seq<LoopEvent>)
    requires
        forall|i: int| 0 <= i < events.len() ==> events[i] == LoopEvent::Datagram,
    ensures
        state_after(LoopState::Listening, events) == LoopState::Listening,
    decreases events.len(),
{
    if events.len() > 0 {
        lemma_datagrams_keep_listening(events.drop_last());
    }
}

/// The cycle of a datagram depends on that datagram, the table and the
/// configuration, and on no datagram before it: after one that holds
/// no packet, the next is dispatched as if it had come first. A
/// datagram that holds no packet leads to nothing but its being
/// dropped.
pub proof fn lemma_malformed_datagram_is_dropped(
    datagram: Seq<u8>,
    table: Seq<MappingView>,
    config: ConfigView,
)
    requires
        datagram.len() <= MAX_DATAGRAM,
        osc_decoded(datagram) is None,
    ensures
        cycle_for(datagram, table, config) == (CycleView::Dropped { oversized: false }),
        phase_of(cycle_for(datagram, table, config)) == CyclePhase::Received,
        next_state(LoopState::Listening, LoopEvent::Datagram) == LoopState::Listening,
{
}

/// Once the loop has ended, no event brings it back.
pub proof fn lemma_terminated_is_final(events: Seq<LoopEvent>)
    ensures
        state_after(LoopState::Terminated, events) == LoopState::Terminated,
    decreases events.len(),
{
    if events.len() > 0 {
        lemma_terminated_is_final(events.drop_last());
    }
}

} // verus!
