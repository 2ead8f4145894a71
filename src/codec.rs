//! Wire text of the signalling protocol: the literal control messages, the
//! classification of inbound text, and the JSON encoding of the negotiation
//! messages.
use vstd::prelude::*;

verus! {

/// Which half of the offer/answer handshake a session description is.
#[derive(Clone, Copy, Debug, PartialEq, Eq, Structural)]
pub enum SdpKind {
    Offer,
    Answer,
}

/// A negotiation payload carried over the signalling channel.
#[derive(Debug, PartialEq, Eq)]
pub enum NegotiationMessage {
    /// A connectivity candidate for the media line `sdp_mline_index`.
    Candidate { sdp_mline_index: u32, candidate: String },
    /// An offer or answer with its SDP text.
    SessionDescription { kind: SdpKind, sdp: String },
}

/// What an inbound text message is, judged by its literal content.
#[derive(Clone, Copy, Debug, PartialEq, Eq, Structural)]
pub enum Inbound {
    /// The server accepted the registration (`HELLO`).
    RegistrationAck,
    /// The server connected us with the peer (`SESSION_OK`).
    SessionAck,
    /// The server reported an error (text starting with `ERROR`).
    ServerError,
    /// Anything else: a JSON negotiation payload, to be decoded.
    Payload,
}

/// Lower-case hexadecimal digit of `d < 16`.
pub open spec fn hex_digit(d: nat) -> char {
    if d < 10 {
        digit(d)
    } else if d == 10 { 'a' }
    else if d == 11 { 'b' }
    else if d == 12 { 'c' }
    else if d == 13 { 'd' }
    else if d == 14 { 'e' }
    else { 'f' }
}

/// How a JSON string literal writes the character `c`: `"` and `\` and the
/// control characters below U+0020 escaped, the short forms where JSON has
/// one, `\u00xx` otherwise; every other character as it is.
pub open spec fn escaped_char(c: char) -> Seq<char> {
    let n = c as nat;
    if c == '"' { seq!['\\', '"'] }
    else if c == '\\' { seq!['\\', '\\'] }
    else if n == 8 { seq!['\\', 'b'] }
    else if n == 9 { seq!['\\', 't'] }
    else if n == 10 { seq!['\\', 'n'] }
    else if n == 12 { seq!['\\', 'f'] }
    else if n == 13 { seq!['\\', 'r'] }
    else if n < 32 { seq!['\\', 'u', '0', '0', hex_digit(n / 16), hex_digit(n % 16)] }
    else { seq![c] }
}

/// The characters of `s`, each escaped as in a JSON string literal.
pub open spec fn escaped(s: Seq<char>) -> Seq<char>
    decreases s.len(),
{
    if s.len() == 0 {
        Seq::empty()
    } else {
        escaped(s.drop_last()) + escaped_char(s.last())
    }
}

/// The JSON string literal of the text `s`: its escaped characters in quotes.
pub open spec fn json_text(s: Seq<char>) -> Seq<char> {
    seq!['"'] + escaped(s) + seq!['"']
}

/// Relies on serde_json::to_string on a `str`: it writes the JSON string
/// literal of the text (quotes, then each character through serde_json's
/// escape table, then quotes). Serialising a `str` cannot fail.
#[verifier::external_body]
fn json_string(s: &str) -> (r: String)
    ensures
        r@ == json_text(s@),
{
    serde_json::to_string(s).unwrap_or_default()
}

/// Decimal digit character of `d < 10`.
pub open spec fn digit(d: nat) -> char {
    if d == 0 { '0' }
    else if d == 1 { '1' }
    else if d == 2 { '2' }
    else if d == 3 { '3' }
    else if d == 4 { '4' }
    else if d == 5 { '5' }
    else if d == 6 { '6' }
    else if d == 7 { '7' }
    else if d == 8 { '8' }
    else { '9' }
}

/// Decimal notation of `n`, without sign or leading zeros.
pub open spec fn decimal(n: nat) -> Seq<char>
    decreases n,
{
    if n < 10 {
        seq![digit(n)]
    } else {
        decimal(n / 10).push(digit(n % 10))
    }
}

/// The one-character text of the decimal digit `d < 10`.
fn digit_str(d: u32) -> (r: &'static str)
    requires
        d < 10,
    ensures
        r@ == seq![digit(d as nat)],
{
    proof {
        reveal_strlit("0");
        reveal_strlit("1");
        reveal_strlit("2");
        reveal_strlit("3");
        reveal_strlit("4");
        reveal_strlit("5");
        reveal_strlit("6");
        reveal_strlit("7");
        reveal_strlit("8");
        reveal_strlit("9");
    }
    let r = if d == 0 { "0" } else if d == 1 { "1" } else if d == 2 { "2" } else if d == 3 { "3" }
    else if d == 4 { "4" } else if d == 5 { "5" } else if d == 6 { "6" } else if d == 7 { "7" }
    else if d == 8 { "8" } else { "9" };
    assert(r@ =~= seq![digit(d as nat)]);
    r
}

/// Appends the decimal notation of `n` to `out`.
fn append_decimal(out: &mut String, n: u32)
    ensures
        final(out)@ == old(out)@ + decimal(n as nat),
    decreases n,
{
    if n >= 10 {
        append_decimal(out, n / 10);
    }
    out.append(digit_str(n % 10));
    assert(out@ =~= old(out)@ + decimal(n as nat));
}

/// The decimal notation of `n`.
fn decimal_string(n: u32) -> (r: String)
    ensures
        r@ == decimal(n as nat),
{
    let mut r = String::new();
    append_decimal(&mut r, n);
    assert(r@ =~= decimal(n as nat));
    r
}

/// Whether `p` is a prefix of `t`.
pub open spec fn starts_with(t: Seq<char>, p: Seq<char>) -> bool {
    p.len() <= t.len() && t.subrange(0, p.len() as int) == p
}

/// Classification of an inbound text: literal acknowledgements first, then
/// the error prefix, and everything else as a negotiation payload.
pub open spec fn inbound_of(t: Seq<char>) -> Inbound {
    if t == "HELLO"@ {
        Inbound::RegistrationAck
    } else if t == "SESSION_OK"@ {
        Inbound::SessionAck
    } else if starts_with(t, "ERROR"@) {
        Inbound::ServerError
    } else {
        Inbound::Payload
    }
}

/// Wire text of a candidate message whose candidate is already written as
/// the JSON string literal `quoted`.
pub open spec fn ice_frame(sdp_mline_index: u32, quoted: Seq<char>) -> Seq<char> {
    "{\"ice\":{\"candidate\":"@ + quoted + ",\"sdpMLineIndex\":"@ + decimal(sdp_mline_index as nat)
        + "}}"@
}

/// Wire text of a session description whose SDP is already written as the
/// JSON string literal `quoted`.
pub open spec fn sdp_frame(kind: SdpKind, quoted: Seq<char>) -> Seq<char> {
    "{\"sdp\":{\"type\":"@ + kind_text(kind) + ",\"sdp\":"@ + quoted + "}}"@
}

/// Wire text of a candidate message.
pub open spec fn ice_text(sdp_mline_index: u32, candidate: Seq<char>) -> Seq<char> {
    ice_frame(sdp_mline_index, json_text(candidate))
}

/// Wire text of a session description message.
pub open spec fn sdp_text(kind: SdpKind, sdp: Seq<char>) -> Seq<char> {
    sdp_frame(kind, json_text(sdp))
}

/// Wire text of a negotiation message.
pub open spec fn encoded(m: NegotiationMessage) -> Seq<char> {
    match m {
        NegotiationMessage::Candidate { sdp_mline_index, candidate } => ice_text(sdp_mline_index, candidate@),
        NegotiationMessage::SessionDescription { kind, sdp } => sdp_text(kind, sdp@),
    }
}

/// The quoted `type` value of a session description.
pub open spec fn kind_text(k: SdpKind) -> Seq<char> {
    match k {
        SdpKind::Offer => "\"offer\""@,
        SdpKind::Answer => "\"answer\""@,
    }
}

/// Text of the registration request for identifier `id`.
pub open spec fn hello_text(id: u32) -> Seq<char> {
    "HELLO "@ + decimal(id as nat)
}

/// Text of the session request for peer `peer`.
pub open spec fn session_text(peer: Seq<char>) -> Seq<char> {
    "SESSION "@ + peer
}

/// Whether `t` begins with `p`.
pub fn has_prefix(t: &str, p: &str) -> (r: bool)
    ensures
        r == starts_with(t@, p@),
{
    let n = p.unicode_len();
    let m = t.unicode_len();
    if n > m {
        return false;
    }
    let mut i: usize = 0;
    while i < n
        invariant
            n == p@.len(),
            m == t@.len(),
            n <= m,
            i <= n,
            t@.subrange(0, i as int) == p@.subrange(0, i as int),
        decreases n - i,
    {
        if t.get_char(i) != p.get_char(i) {
            assert(t@.subrange(0, n as int)[i as int] != p@[i as int]);
            return false;
        }
        assert(t@.subrange(0, i + 1) == t@.subrange(0, i as int).push(t@[i as int]));
        assert(p@.subrange(0, i + 1) == p@.subrange(0, i as int).push(p@[i as int]));
        i = i + 1;
    }
    assert(p@.subrange(0, n as int) == p@);
    true
}

/// Whether `t` is exactly `p`.
pub fn same_text(t: &str, p: &str) -> (r: bool)
    ensures
        r == (t@ == p@),
{
    if t.unicode_len() != p.unicode_len() {
        return false;
    }
    let r = has_prefix(t, p);
    assert(t@.subrange(0, t@.len() as int) =~= t@);
    r
}

/// Classifies an inbound text message by its literal content.
pub fn classify(text: &str) -> (r: Inbound)
    ensures
        r == inbound_of(text@),
{
    if same_text(text, "HELLO") {
        Inbound::RegistrationAck
    } else if same_text(text, "SESSION_OK") {
        Inbound::SessionAck
    } else if has_prefix(text, "ERROR") {
        Inbound::ServerError
    } else {
        Inbound::Payload
    }
}

/// The quoted `type` value of a session description, as text.
fn kind_string(k: SdpKind) -> (r: String)
    ensures
        r@ == kind_text(k),
{
    match k {
        SdpKind::Offer => String::from_str("\"offer\""),
        SdpKind::Answer => String::from_str("\"answer\""),
    }
}

/// The candidate message for media line `sdp_mline_index`, around a
/// candidate already written as the JSON string literal `quoted`.
pub fn frame_candidate(sdp_mline_index: u32, quoted: &str) -> (r: String)
    ensures
        r@ == ice_frame(sdp_mline_index, quoted@),
{
    let mut r = String::from_str("{\"ice\":{\"candidate\":");
    r.append(quoted);
    r.append(",\"sdpMLineIndex\":");
    let d = decimal_string(sdp_mline_index);
    r.append(d.as_str());
    r.append("}}");
    r
}

/// The session description message of kind `kind`, around an SDP already
/// written as the JSON string literal `quoted`.
pub fn frame_description(kind: SdpKind, quoted: &str) -> (r: String)
    ensures
        r@ == sdp_frame(kind, quoted@),
{
    let mut r = String::from_str("{\"sdp\":{\"type\":");
    let k = kind_string(kind);
    r.append(k.as_str());
    r.append(",\"sdp\":");
    r.append(quoted);
    r.append("}}");
    r
}

/// Encodes a negotiation message as the JSON text sent on the channel:
/// `{"sdp":{"type":..,"sdp":..}}` or `{"ice":{"candidate":..,"sdpMLineIndex":..}}`.
pub fn encode(m: &NegotiationMessage) -> (r: String)
    ensures
        r@ == encoded(*m),
{
    match m {
        NegotiationMessage::Candidate { sdp_mline_index, candidate } => {
            let quoted = json_string(candidate.as_str());
            frame_candidate(*sdp_mline_index, quoted.as_str())
        },
        NegotiationMessage::SessionDescription { kind, sdp } => {
            let quoted = json_string(sdp.as_str());
            frame_description(*kind, quoted.as_str())
        },
    }
}

/// The registration request `HELLO <id>`.
pub fn hello_message(id: u32) -> (r: String)
    ensures
        r@ == hello_text(id),
{
    let mut r = String::from_str("HELLO ");
    let d = decimal_string(id);
    r.append(d.as_str());
    r
}

/// The session request `SESSION <peer>`.
pub fn session_message(peer: &str) -> (r: String)
    ensures
        r@ == session_text(peer@),
{
    let mut r = String::from_str("SESSION ");
    r.append(peer);
    r
}

/// Every encoded negotiation message is classified as a payload: it can be
/// taken for none of the literal control messages.
pub proof fn encoded_is_payload(m: NegotiationMessage)
    ensures
        inbound_of(encoded(m)) == Inbound::Payload,
{
    reveal_strlit("HELLO");
    reveal_strlit("SESSION_OK");
    reveal_strlit("ERROR");
    reveal_strlit("{\"ice\":{\"candidate\":");
    reveal_strlit("{\"sdp\":{\"type\":");
    let t = encoded(m);
    assert(t[0] == '{');
    assert("HELLO"@[0] == 'H');
    assert("SESSION_OK"@[0] == 'S');
    assert("ERROR"@.subrange(0, 5)[0] == 'E');
}

} // verus!
