//! Rules of the Klipper command path.
//!
//! A button command of the form `klipper:METHOD|<JSON_PARAMS>` is sent to
//! the Klipper API server as a JSON-RPC request over a Unix domain
//! socket.  The socket itself is driven outside the library; here stand
//! the pure rules: recognising and splitting such a command, assembling
//! the request body, interpreting the response text, and deciding the
//! button state that follows from a response.

use vstd::prelude::*;

use crate::text::contains_str;
use crate::text::decimal_chars;
use crate::text::find_char;
use crate::text::first_index_of;
use crate::text::has_substring;
use crate::text::is_prefix_of;
use crate::text::starts_with;
use crate::text::str_eq;
use crate::text::u32_to_decimal;

verus! {

/// Declares serde_json::Value so response bodies can carry it; the
/// library never looks inside such a value, it only hands it through.
#[verifier::external_type_specification]
#[verifier::external_body]
pub struct ExValue(serde_json::Value);

/// Whether `serde_json` accepts the text as JSON.  Parsing depends on
/// the characters alone.
pub uninterp spec fn json_parse_ok(s: Seq<char>) -> bool;

/// What `str::trim` leaves of the text: the characters with Unicode
/// whitespace removed from both ends.  The result depends on the
/// characters alone.
pub uninterp spec fn trim_of(s: Seq<char>) -> Seq<char>;

/// Relies on serde_json::from_str: whether the text parses is a function
/// of the text, and a failure is reported through the error's message.
#[verifier::external_body]
fn parse_json_text(s: &str) -> (r: Result<serde_json::Value, String>)
    ensures
        r is Ok <==> json_parse_ok(s@),
{
    serde_json::from_str(s).map_err(|e| e.to_string())
}

/// Relies on str::trim: Unicode whitespace is removed from both ends,
/// and the result depends on the characters alone.
#[verifier::external_body]
fn trim_text(s: &str) -> (r: &str)
    ensures
        r@ == trim_of(s@),
{
    s.trim()
}

/// Response pushed into the event queue when a Klipper command returns.
#[derive(Debug, Clone)]
pub struct EventResponse {
    /// The request this response answers.
    pub request_id: u32,
    /// The server answered and reported no error.
    pub success: bool,
    /// A short status: `"200"`, `"error"`, or a failure tag.
    pub status: Option<String>,
    /// The parsed response body, when one was received and parsed.
    pub body: Option<serde_json::Value>,
}

/// Event messages sent over the event channel.  `Issued` is sent when a
/// request is created, so the consumer can persist its metadata;
/// `Response` carries the answer from Klipper.
#[derive(Debug, Clone)]
pub enum EventMessage {
    /// A request was issued under this id, for the given trigger.
    Issued {
        /// The id the request was issued under.
        request_id: u32,
        /// Description of the trigger that issued it.
        trigger_info: String,
    },
    /// The answer that came back for an issued request.
    Response(EventResponse),
}

/// Where the socket conversation failed, for the status tag of the
/// failure response.
#[derive(Clone, Copy, Debug, PartialEq, Eq, Structural)]
pub enum TransportStage {
    /// Connecting to the Unix socket failed.
    Connect,
    /// Writing the request failed.
    Write,
    /// Reading the response failed.
    Read,
}

/// The lamp state a button is put into after its command ran.
#[derive(Clone, Copy, Debug, PartialEq, Eq, Structural)]
pub enum ButtonOutcome {
    /// The command went through: the button returns to off.
    Off,
    /// The command failed: the button flashes the error pattern.
    Flash2,
}

/// The command with a leading `klipper:` tag removed; a command without
/// the tag is taken whole.
pub open spec fn klipper_payload(s: Seq<char>) -> Seq<char> {
    if is_prefix_of("klipper:"@, s) {
        s.subrange("klipper:"@.len() as int, s.len() as int)
    } else {
        s
    }
}

/// The method part of a payload: everything before the first `|`, or
/// the whole payload when there is none.
pub open spec fn method_of(p: Seq<char>) -> Seq<char> {
    match first_index_of(p, '|') {
        Some(i) => p.subrange(0, i),
        None => p,
    }
}

/// The params part of a payload: everything after the first `|`, or
/// the empty JSON object when there is none.
pub open spec fn params_of(p: Seq<char>) -> Seq<char> {
    match first_index_of(p, '|') {
        Some(i) => p.subrange(i + 1, p.len() as int),
        None => "{}"@,
    }
}

/// How one character is written inside a JSON string literal.
pub open spec fn escape_char(c: char) -> Seq<char> {
    if c == '"' {
        seq!['\\', '"']
    } else if c == '\\' {
        seq!['\\', '\\']
    } else if (c as nat) < 32 {
        seq!['\\', 'u', '0', '0', hex_digit_char((c as nat) / 16), hex_digit_char((c as nat) % 16)]
    } else {
        seq![c]
    }
}

/// The character for one hexadecimal digit, lower case.
pub open spec fn hex_digit_char(d: nat) -> char {
    if d < 10 {
        ((48 + d) as u8) as char
    } else {
        ((87 + d) as u8) as char
    }
}

/// The text written inside a JSON string literal for the given
/// characters.
pub open spec fn json_escaped(s: Seq<char>) -> Seq<char>
    decreases s.len(),
{
    if s.len() == 0 {
        Seq::empty()
    } else {
        escape_char(s[0]) + json_escaped(s.subrange(1, s.len() as int))
    }
}

/// The JSON-RPC request body for a method, a params text and a request
/// id.  The params text is embedded as it was given, once it was
/// checked to parse.
pub open spec fn envelope_spec(method: Seq<char>, params: Seq<char>, id: nat) -> Seq<char> {
    "{\"jsonrpc\":\"2.0\",\"id\":"@ + decimal_chars(id) + ",\"method\":\""@
        + json_escaped(method) + "\",\"params\":"@ + params + "}"@
}

/// The status tag prefix for a failure at the given stage; the rest of
/// the tag carries the reported error.
pub open spec fn stage_prefix(stage: TransportStage) -> Seq<char> {
    match stage {
        TransportStage::Connect => "connection_error: "@,
        TransportStage::Write => "socket_write_error: "@,
        TransportStage::Read => "socket_read_error: "@,
    }
}

/// Escaping one more character appends its escape.
proof fn lemma_json_escaped_snoc(s: Seq<char>, c: char)
    ensures
        json_escaped(s.push(c)) == json_escaped(s) + escape_char(c),
    decreases s.len(),
{
    if s.len() == 0 {
        assert(s.push(c) =~= seq![c]);
        assert(seq![c][0] == c);
        assert(seq![c].subrange(1, 1) =~= Seq::<char>::empty());
        assert(json_escaped(Seq::<char>::empty()) == Seq::<char>::empty());
        assert(json_escaped(seq![c]) == escape_char(c) + json_escaped(seq![c].subrange(1, 1)));
        assert(json_escaped(s.push(c)) =~= escape_char(c));
        assert(json_escaped(s) + escape_char(c) =~= escape_char(c));
    } else {
        let tail = s.subrange(1, s.len() as int);
        lemma_json_escaped_snoc(tail, c);
        assert(s.push(c).subrange(1, s.push(c).len() as int) =~= tail.push(c));
        assert(s.push(c)[0] == s[0]);
        assert(escape_char(s[0]) + (json_escaped(tail) + escape_char(c)) =~= (escape_char(
            s[0],
        ) + json_escaped(tail)) + escape_char(c));
    }
}

/// The one-character string for a hexadecimal digit, lower case.
fn hex_digit_str(d: u8) -> (r: &'static str)
    requires
        d < 16,
    ensures
        r@ == seq![hex_digit_char(d as nat)],
{
    let r = match d {
        0 => "0",
        1 => "1",
        2 => "2",
        3 => "3",
        4 => "4",
        5 => "5",
        6 => "6",
        7 => "7",
        8 => "8",
        9 => "9",
        10 => "a",
        11 => "b",
        12 => "c",
        13 => "d",
        14 => "e",
        _ => "f",
    };
    proof {
        reveal_strlit("0");
        reveal_strlit("1");
        reveal_strlit("2");
        reveal_strlit("3");
        reveal_strlit("4");
        reveal_strlit("5");
        reveal_strlit("6");
        reveal_strlit("7");
        reveal_strlit("8");
        reveal_strlit("9");
        reveal_strlit("a");
        reveal_strlit("b");
        reveal_strlit("c");
        reveal_strlit("d");
        reveal_strlit("e");
        reveal_strlit("f");
        assert(r@ =~= seq![hex_digit_char(d as nat)]);
    }
    r
}

/// Write the characters as they stand inside a JSON string literal,
/// escaping the quote, the backslash and the control characters.
pub fn escape_json_string(s: &str) -> (r: String)
    ensures
        r@ == json_escaped(s@),
{
    let n = s.unicode_len();
    let mut out = String::new();
    proof {
        assert(s@.subrange(0, 0) =~= Seq::<char>::empty());
    }
    let mut i: usize = 0;
    while i < n
        invariant
            i <= n,
            n == s@.len(),
            out@ == json_escaped(s@.subrange(0, i as int)),
        decreases n - i,
    {
        let c = s.get_char(i);
        if c == '"' {
            out.append("\\\"");
            proof {
                reveal_strlit("\\\"");
                assert("\\\""@ =~= escape_char(c));
            }
        } else if c == '\\' {
            out.append("\\\\");
            proof {
                reveal_strlit("\\\\");
                assert("\\\\"@ =~= escape_char(c));
            }
        } else if (c as u32) < 32 {
            out.append("\\u00");
            let hi = hex_digit_str(((c as u32) / 16) as u8);
            out.append(hi);
            let lo = hex_digit_str(((c as u32) % 16) as u8);
            out.append(lo);
            proof {
                reveal_strlit("\\u00");
                assert("\\u00"@ + hi@ + lo@ =~= escape_char(c));
            }
        } else {
            let piece = s.substring_char(i, i + 1);
            out.append(piece);
            proof {
                assert(piece@ =~= seq![s@[i as int]]);
            }
        }
        proof {
            lemma_json_escaped_snoc(s@.subrange(0, i as int), s@[i as int]);
            assert(s@.subrange(0, i + 1) =~= s@.subrange(0, i as int).push(s@[i as int]));
        }
        i = i + 1;
    }
    proof {
        assert(s@.subrange(0, n as int) =~= s@);
    }
    out
}

/// Whether the trimmed command carries the `klipper:` tag and is
/// therefore dispatched to the Klipper API rather than to a shell.
pub fn is_klipper_command(cmd: &str) -> (r: bool)
    ensures
        r == is_prefix_of("klipper:"@, trim_of(cmd@)),
{
    starts_with(trim_text(cmd), "klipper:")
}

/// Split a command into its method and params texts: the leading
/// `klipper:` tag is dropped, the method is what stands before the
/// first `|`, and the params default to `{}` when none are given.
pub fn parse_klipper_command(cmd: &str) -> (r: (String, String))
    ensures
        r.0@ == method_of(klipper_payload(cmd@)),
        r.1@ == params_of(klipper_payload(cmd@)),
{
    let tagged = starts_with(cmd, "klipper:");
    let payload: &str = if tagged {
        let plen = "klipper:".unicode_len();
        cmd.substring_char(plen, cmd.unicode_len())
    } else {
        cmd
    };
    proof {
        assert(payload@ == klipper_payload(cmd@));
    }
    let n = payload.unicode_len();
    match find_char(payload, '|') {
        Some(i) => {
            let method = payload.substring_char(0, i).to_owned();
            let params = payload.substring_char(i + 1, n).to_owned();
            (method, params)
        },
        None => (payload.to_owned(), "{}".to_owned()),
    }
}

/// Assemble the JSON-RPC request for a parsed command, after checking
/// that the params text is JSON: a command whose params do not parse
/// yields nothing and is answered with an `invalid_params` response
/// instead.
pub fn prepare_klipper_request(cmd: &str, request_id: u32) -> (r: Option<String>)
    ensures
        r is Some <==> json_parse_ok(params_of(klipper_payload(cmd@))),
        r matches Some(t) ==> t@ == envelope_spec(
            method_of(klipper_payload(cmd@)),
            params_of(klipper_payload(cmd@)),
            request_id as nat,
        ),
{
    let (method, params) = parse_klipper_command(cmd);
    match parse_json_text(params.as_str()) {
        Ok(_) => {
            let mut out = "{\"jsonrpc\":\"2.0\",\"id\":".to_owned();
            let id_text = u32_to_decimal(request_id);
            out.append(id_text.as_str());
            out.append(",\"method\":\"");
            let escaped = escape_json_string(method.as_str());
            out.append(escaped.as_str());
            out.append("\",\"params\":");
            out.append(params.as_str());
            out.append("}");
            proof {
                assert(out@ =~= envelope_spec(
                    method_of(klipper_payload(cmd@)),
                    params_of(klipper_payload(cmd@)),
                    request_id as nat,
                ));
            }
            Some(out)
        },
        Err(_) => None,
    }
}

/// Interpret the response text read from the socket: a text that parses
/// as JSON succeeds exactly when it carries no `"error"` key, reported
/// as status `200` or `error`; a text that does not parse fails with a
/// `parse_error: ` status carrying the parser's message.
pub fn interpret_klipper_response(request_id: u32, text: &str) -> (r: EventResponse)
    ensures
        r.request_id == request_id,
        json_parse_ok(text@) ==> ({
            &&& r.success == !has_substring(text@, "\"error\""@)
            &&& r.body is Some
            &&& r.status matches Some(st) && st@ == (if has_substring(text@, "\"error\""@) {
                "error"@
            } else {
                "200"@
            })
        }),
        !json_parse_ok(text@) ==> ({
            &&& !r.success
            &&& r.body is None
            &&& r.status matches Some(st) && is_prefix_of("parse_error: "@, st@)
        }),
{
    match parse_json_text(text) {
        Ok(v) => {
            let has_err = contains_str(text, "\"error\"");
            let status = if has_err {
                "error".to_owned()
            } else {
                "200".to_owned()
            };
            EventResponse {
                request_id,
                success: !has_err,
                status: Some(status),
                body: Some(v),
            }
        },
        Err(e) => {
            let mut st = "parse_error: ".to_owned();
            st.append(e.as_str());
            proof {
                assert(st@.subrange(0, "parse_error: "@.len() as int) =~= "parse_error: "@);
            }
            EventResponse { request_id, success: false, status: Some(st), body: None }
        },
    }
}

/// The failure response for params that are not JSON.
pub fn invalid_params_response(request_id: u32) -> (r: EventResponse)
    ensures
        r.request_id == request_id,
        !r.success,
        r.body is None,
        r.status matches Some(st) && st@ == "invalid_params"@,
    {
    EventResponse {
        request_id,
        success: false,
        status: Some("invalid_params".to_owned()),
        body: None,
    }
}

/// The failure response for an empty read from the socket.
pub fn empty_response(request_id: u32) -> (r: EventResponse)
    ensures
        r.request_id == request_id,
        !r.success,
        r.body is None,
        r.status matches Some(st) && st@ == "empty_response"@,
    {
    EventResponse {
        request_id,
        success: false,
        status: Some("empty_response".to_owned()),
        body: None,
    }
}

/// The failure response for a socket conversation that failed at the
/// given stage, with the reported error appended to the stage's tag.
pub fn transport_failure_response(request_id: u32, stage: TransportStage, detail: &str) -> (r:
    EventResponse)
    ensures
        r.request_id == request_id,
        !r.success,
        r.body is None,
        r.status matches Some(st) && st@ == stage_prefix(stage) + detail@,
    {
    let mut st = match stage {
        TransportStage::Connect => "connection_error: ".to_owned(),
        TransportStage::Write => "socket_write_error: ".to_owned(),
        TransportStage::Read => "socket_read_error: ".to_owned(),
    };
    st.append(detail);
    EventResponse { request_id, success: false, status: Some(st), body: None }
}

/// The button state that follows from a Klipper response: a success and
/// the benign `empty_response` status return the button to off, every
/// other failure flashes the error pattern.
pub fn response_button_state(success: bool, status: &Option<String>) -> (r: ButtonOutcome)
    ensures
        success ==> r == ButtonOutcome::Off,
        !success ==> (status matches Some(st) ==> r == (if st@ == "empty_response"@ {
            ButtonOutcome::Off
        } else {
            ButtonOutcome::Flash2
        })),
        !success && status is None ==> r == ButtonOutcome::Flash2,
{
    if success {
        ButtonOutcome::Off
    } else {
        match status {
            Some(st) => {
                if str_eq(st.as_str(), "empty_response") {
                    ButtonOutcome::Off
                } else {
                    ButtonOutcome::Flash2
                }
            },
            None => ButtonOutcome::Flash2,
        }
    }
}

} // verus!
