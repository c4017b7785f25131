//! OSC packets as the bridge holds them, and the codec that reads and
//! writes them.

use vstd::prelude::*;
use smallvec::SmallVec;
use crate::text::{contains, has_substring, split_tokens, tokens, views_of};

verus! {

/// `rosc::OscError`, carried from the decoder to where its text is
/// taken.
#[verifier::external_type_specification]
#[verifier::external_body]
pub struct ExOscError(rosc::OscError);

/// The longest datagram that is decoded: the size of the receive
/// buffer.
pub const MAX_DATAGRAM: usize = 2048;

/// One argument of an inbound message. A 32-bit float is held by its
/// IEEE 754 bit pattern. An argument of a type that no rule looks at
/// is `Other`.
#[derive(Debug)]
pub enum OscArg {
    Int(i32),
    Float(u32),
    Text(String),
    Other,
}

/// An `OscArg` as a mathematical value.
pub enum OscArgView {
    Int(i32),
    Float(u32),
    Text(Seq<char>),
    Other,
}

impl View for OscArg {
    type V = OscArgView;

    open spec fn view(&self) -> OscArgView {
        match self {
            OscArg::Int(v) => OscArgView::Int(*v),
            OscArg::Float(bits) => OscArgView::Float(*bits),
            OscArg::Text(s) => OscArgView::Text(s@),
            OscArg::Other => OscArgView::Other,
        }
    }
}

/// The views of a list of arguments, in order.
pub open spec fn args_view(args: Seq<OscArg>) -> Seq<OscArgView> {
    args.map_values(|a: OscArg| a@)
}

/// An inbound message: an address and its arguments in order.
#[derive(Debug)]
pub struct OscMessage {
    pub addr: String,
    pub args: Vec<OscArg>,
}

/// An `OscMessage` as a mathematical value.
pub struct OscMessageView {
    pub addr: Seq<char>,
    pub args: Seq<OscArgView>,
}

impl View for OscMessage {
    type V = OscMessageView;

    open spec fn view(&self) -> OscMessageView {
        OscMessageView { addr: self.addr@, args: args_view(self.args@) }
    }
}

/// A decoded packet. A bundle is recognised and not looked into.
#[derive(Debug)]
pub enum OscPacket {
    Message(OscMessage),
    Bundle,
}

/// An `OscPacket` as a mathematical value.
pub enum OscPacketView {
    Message(OscMessageView),
    Bundle,
}

impl View for OscPacket {
    type V = OscPacketView;

    open spec fn view(&self) -> OscPacketView {
        match self {
            OscPacket::Message(m) => OscPacketView::Message(m@),
            OscPacket::Bundle => OscPacketView::Bundle,
        }
    }
}

/// The arguments of an outbound message while they are gathered: a
/// `SmallVec` that keeps up to eight of them in place.
#[verifier::external_body]
pub struct ArgBuffer {
    items: SmallVec<[OutArg; 8]>,
}

/// Why a datagram gave no packet.
#[derive(Debug)]
pub enum DecodeError {
    /// The datagram is longer than `MAX_DATAGRAM`.
    Oversized,
    /// The bytes are no OSC packet; the text says what the decoder
    /// found.
    Malformed(String),
}

/// An argument of an outbound message, as the routing table words it:
/// a token that reads as a number goes out as a 32-bit float, any
/// other token as a string.
#[derive(Debug)]
pub enum OutArg {
    Number(String),
    Text(String),
}

/// An `OutArg` as a mathematical value.
pub enum OutArgView {
    Number(Seq<char>),
    Text(Seq<char>),
}

impl View for OutArg {
    type V = OutArgView;

    open spec fn view(&self) -> OutArgView {
        match self {
            OutArg::Number(t) => OutArgView::Number(t@),
            OutArg::Text(t) => OutArgView::Text(t@),
        }
    }
}

/// The views of a list of outbound arguments, in order.
pub open spec fn out_args_view(args: Seq<OutArg>) -> Seq<OutArgView> {
    args.map_values(|a: OutArg| a@)
}

/// Whether `token` as a whole reads as a 32-bit float.
pub uninterp spec fn parses_as_float(token: Seq<char>) -> bool;

/// The bytes of the OSC message with address `addr` and arguments
/// `args`.
pub uninterp spec fn osc_encoded(addr: Seq<char>, args: Seq<OutArgView>) -> Seq<u8>;

/// The packet that a datagram holds, or `None` where it holds none.
pub uninterp spec fn osc_decoded(datagram: Seq<u8>) -> Option<OscPacketView>;

/// The arguments that a buffer holds, first to last.
pub uninterp spec fn buffered_args(buffer: ArgBuffer) -> Seq<OutArgView>;

/// Whether every number among `args` reads as a 32-bit float.
pub open spec fn numbers_parse(args: Seq<OutArgView>) -> bool {
    forall|i: int|
        0 <= i < args.len() ==> (#[trigger] args[i] matches OutArgView::Number(t)
            ==> parses_as_float(t))
}

/// Calls `str::parse` for a 32-bit float and says whether it
/// succeeded. The answer depends on the characters of the token alone;
/// nothing is claimed about which tokens succeed.
#[verifier::external_body]
fn token_is_number(token: &str) -> (r: bool)
    ensures
        r == parses_as_float(token@),
{
    token.parse().map(rosc::OscType::Float).is_ok()
}

/// Calls `rosc::encoder::encode` on a message with the given address
/// and arguments, a number going in as the float that `str::parse`
/// reads from its text. The encoder writes to a vector and cannot
/// fail; the bytes depend on the address and the arguments alone.
#[verifier::external_body]
fn encode_message(address: &str, args: &Vec<OutArg>) -> (r: Result<Vec<u8>, rosc::OscError>)
    requires
        numbers_parse(out_args_view(args@)),
    ensures
        r is Ok,
        r->Ok_0@ == osc_encoded(address@, out_args_view(args@)),
{
    let args = args.iter().map(|a| match a {
        OutArg::Number(t) => rosc::OscType::Float(t.parse().unwrap()),
        OutArg::Text(t) => rosc::OscType::String(t.clone()),
    }).collect();
    let msg = rosc::OscMessage { addr: address.to_string(), args };
    rosc::encoder::encode(&rosc::OscPacket::Message(msg))
}

/// Calls `rosc::decoder::decode_udp` and drops the bytes that follow
/// the packet. Of a message it keeps the address and the arguments,
/// those that are no integer, float or string as `Other`; of a bundle
/// only that it is one. What comes back depends on the bytes alone.
/// The decoder goes down into nested bundles by recursion, so the
/// datagram is kept to the size of the receive buffer.
#[verifier::external_body]
fn decode_datagram(datagram: &[u8]) -> (r: Result<OscPacket, rosc::OscError>)
    requires
        datagram@.len() <= MAX_DATAGRAM,
    ensures
        match r {
            Ok(packet) => osc_decoded(datagram@) == Some(packet@),
            Err(_) => osc_decoded(datagram@) is None,
        },
{
    let (_, packet) = rosc::decoder::decode_udp(datagram)?;
    Ok(match packet {
        rosc::OscPacket::Message(m) => OscPacket::Message(OscMessage {
            addr: m.addr,
            args: m.args.into_iter().map(|a| match a {
                rosc::OscType::Int(v) => OscArg::Int(v),
                rosc::OscType::Float(v) => OscArg::Float(v.to_bits()),
                rosc::OscType::String(s) => OscArg::Text(s),
                _ => OscArg::Other,
            }).collect(),
        }),
        rosc::OscPacket::Bundle(_) => OscPacket::Bundle,
    })
}

/// Writes out a decoder error with its `Display` impl. Nothing is
/// claimed about the text.
#[verifier::external_body]
fn error_text(e: &rosc::OscError) -> String {
    format!("{}", e)
}

/// `SmallVec::new`: a buffer that holds nothing.
#[verifier::external_body]
fn buffer_new() -> (buffer: ArgBuffer)
    ensures
        buffered_args(buffer) == Seq::<OutArgView>::empty(),
{
    ArgBuffer { items: SmallVec::new() }
}

/// `SmallVec::push`: the argument is added behind the others.
#[verifier::external_body]
fn buffer_push(buffer: &mut ArgBuffer, arg: OutArg)
    ensures
        buffered_args(*final(buffer)) == buffered_args(*old(buffer)).push(arg@),
{
    buffer.items.push(arg)
}

/// `SmallVec::into_vec`: the same arguments in the same order.
#[verifier::external_body]
fn buffer_into_vec(buffer: ArgBuffer) -> (r: Vec<OutArg>)
    ensures
        out_args_view(r@) == buffered_args(buffer),
{
    buffer.items.into_vec()
}

/// What a datagram decodes to: the packet it holds, an error that
/// says it holds none, or `Oversized` without a look at its bytes.
pub open spec fn decoded(datagram: Seq<u8>, r: Result<OscPacket, DecodeError>) -> bool {
    if datagram.len() > MAX_DATAGRAM {
        r matches Err(DecodeError::Oversized)
    } else {
        match osc_decoded(datagram) {
            Some(packet) => r matches Ok(p) && p@ == packet,
            None => r matches Err(DecodeError::Malformed(_)),
        }
    }
}

/// Decodes one received datagram. Bytes that are no OSC packet give an
/// error and nothing else: the caller drops the datagram and goes on.
pub fn incoming_osc_handler(datagram: &[u8]) -> (r: Result<OscPacket, DecodeError>)
    ensures
        decoded(datagram@, r),
{
    if datagram.len() > MAX_DATAGRAM {
        return Err(DecodeError::Oversized);
    }
    match decode_datagram(datagram) {
        Ok(packet) => Ok(packet),
        Err(e) => Err(DecodeError::Malformed(error_text(&e))),
    }
}

/// The outbound argument that `token` stands for.
pub open spec fn out_arg(token: Seq<char>) -> OutArgView {
    if parses_as_float(token) {
        OutArgView::Number(token)
    } else {
        OutArgView::Text(token)
    }
}

/// The outbound arguments that the text `raw` words: one for each of
/// its tokens, in order.
pub open spec fn out_args(raw: Seq<char>) -> Seq<OutArgView> {
    tokens(raw).map_values(|t: Seq<char>| out_arg(t))
}

/// The text of an optional argument list; an absent one is empty.
pub open spec fn raw_args(osc_out_args: Option<&str>) -> Seq<char> {
    match osc_out_args {
        Some(text) => text@,
        None => Seq::empty(),
    }
}

/// The port that a message to `address` goes to: the one after
/// `port` where the address holds `synth/fx`, else `port` itself.
pub open spec fn send_port(address: Seq<char>, port: u16) -> int {
    if has_substring(address, "synth/fx"@) {
        port + 1
    } else {
        port as int
    }
}

/// An encoded message and where to send it.
#[derive(Debug)]
pub struct Datagram {
    pub host: String,
    pub port: u16,
    pub payload: Vec<u8>,
}

/// A `Datagram` as a mathematical value.
pub struct DatagramView {
    pub host: Seq<char>,
    pub port: u16,
    pub payload: Seq<u8>,
}

impl View for Datagram {
    type V = DatagramView;

    open spec fn view(&self) -> DatagramView {
        DatagramView { host: self.host@, port: self.port, payload: self.payload@ }
    }
}

/// Why no outbound datagram was made.
#[derive(Clone, Copy, Debug, PartialEq, Eq, Structural)]
pub enum OutboundError {
    /// The address asks for the port after the configured one, and
    /// the configured one is the last there is.
    NoSuchPort,
}

/// Makes an outbound argument of a token, given whether the token
/// reads as a number.
pub fn classify_token(token: String, is_number: bool) -> (r: OutArg)
    ensures
        r@ == if is_number {
            OutArgView::Number(token@)
        } else {
            OutArgView::Text(token@)
        },
{
    if is_number {
        OutArg::Number(token)
    } else {
        OutArg::Text(token)
    }
}

/// The outbound arguments that the configured text `raw` words: the
/// text is split on white space, and each token that reads as a number
/// becomes a number, any other a string. A text that is empty or all
/// white space words none.
pub fn parse_out_args(raw: &str) -> (r: Vec<OutArg>)
    ensures
        out_args_view(r@) == out_args(raw@),
        numbers_parse(out_args_view(r@)),
{
    let toks = split_tokens(raw);
    let ghost all = views_of(toks@);
    let ghost f = |t: Seq<char>| out_arg(t);
    let n = toks.len();
    let mut buffer = buffer_new();
    let mut i: usize = 0;
    assert(all.take(0).map_values(f) =~= Seq::<OutArgView>::empty());
    while i < n
        invariant
            i <= n,
            n == toks@.len(),
            all == views_of(toks@),
            f == (|t: Seq<char>| out_arg(t)),
            buffered_args(buffer) == all.take(i as int).map_values(f),
        decreases n - i,
    {
        let token = toks[i].clone();
        let is_number = token_is_number(token.as_str());
        let arg = classify_token(token, is_number);
        proof {
            assert(arg@ == out_arg(all[i as int]));
            assert(all.take(i + 1).map_values(f) =~= all.take(i as int).map_values(f).push(arg@));
        }
        buffer_push(&mut buffer, arg);
        i += 1;
    }
    let r = buffer_into_vec(buffer);
    proof {
        assert(all.take(n as int) =~= all);
        assert forall|k: int| 0 <= k < out_args_view(r@).len() implies (
        #[trigger] out_args_view(r@)[k] matches OutArgView::Number(t) ==> parses_as_float(t)) by {
            assert(out_args_view(r@)[k] == out_arg(all[k]));
        }
    }
    r
}

/// The port that a message to `address` is sent to, or `None` where
/// that would be the port after the last.
pub fn outbound_port(address: &str, port: u16) -> (r: Option<u16>)
    ensures
        match r {
            Some(p) => p == send_port(address@, port),
            None => send_port(address@, port) > u16::MAX,
        },
{
    if contains(address, "synth/fx") {
        port.checked_add(1)
    } else {
        Some(port)
    }
}

/// Addresses an encoded message: the datagram goes to `host` at the
/// port that `outbound_port` gives.
pub fn address_datagram(address: &str, host: &str, port: u16, payload: Vec<u8>) -> (r: Result<
    Datagram,
    OutboundError,
>)
    ensures
        match r {
            Ok(d) => d.host@ == host@ && d.port == send_port(address@, port) && d.payload
                == payload,
            Err(e) => e == OutboundError::NoSuchPort && send_port(address@, port) > u16::MAX,
        },
{
    match outbound_port(address, port) {
        Some(p) => Ok(Datagram { host: host.to_owned(), port: p, payload }),
        None => Err(OutboundError::NoSuchPort),
    }
}

/// The outbound message of a triggered rule, ready to be sent: the
/// message with address `osc_out_address` and the arguments that
/// `osc_out_args` words, encoded, for `osc_host` at `osc_port` or, for
/// an address that holds `synth/fx`, at the port after it.
pub fn outgoing_osc_handler(
    osc_out_address: &str,
    osc_out_args: Option<&str>,
    osc_host: &str,
    osc_port: &u16,
) -> (r: Result<Datagram, OutboundError>)
    ensures
        match r {
            Ok(d) => {
                &&& d.host@ == osc_host@
                &&& d.port == send_port(osc_out_address@, *osc_port)
                &&& d.payload@ == osc_encoded(osc_out_address@, out_args(raw_args(osc_out_args)))
            },
            Err(e) => e == OutboundError::NoSuchPort && send_port(osc_out_address@, *osc_port)
                > u16::MAX,
        },
{
    let final_args = match osc_out_args {
        Some(args) => parse_out_args(args),
        None => {
            proof {
                crate::text::lemma_blank_has_no_tokens(Seq::<char>::empty());
            }
            let none: Vec<OutArg> = Vec::new();
            assert(out_args_view(none@) =~= out_args(Seq::<char>::empty()));
            none
        },
    };
    let encoded = encode_message(osc_out_address, &final_args).unwrap();
    address_datagram(osc_out_address, osc_host, *osc_port, encoded)
}

} // verus!
