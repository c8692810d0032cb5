//! The message codec: decodes inbound text frames into a [`ClientMessage`]
//! and encodes a [`ServerMessage`] into outbound text.
//!
//! The wire format is a fixed-shape JSON object, `{"type":<tag>,"data":
//! <object>}`, with the two keys in that order and JSON whitespace allowed
//! between tokens. The grammar accepted by [`decode`] is pinned down by
//! [`spec_decode`]; anything outside it is a [`DecodeError`].

use vstd::prelude::*;

use crate::message::{AckData, ClientMessage, ClientMessageView, CommandData, ErrorData,
    ParameterData, ServerMessage, ServerMessageView};

verus! {

/// JSON insignificant whitespace.
pub open spec fn is_json_ws(c: char) -> bool {
    c == ' ' || c == '\t' || c == '\n' || c == '\r'
}

/// ASCII decimal digit.
pub open spec fn is_digit(c: char) -> bool {
    '0' <= c && c <= '9'
}

/// First index at or after `i` holding no whitespace (or the end).
pub open spec fn spec_skip_ws(s: Seq<char>, i: int) -> int
    decreases s.len() - i,
{
    if 0 <= i && i < s.len() && is_json_ws(s[i]) {
        spec_skip_ws(s, i + 1)
    } else {
        i
    }
}

/// The literal `lit` occurs in `s` starting at `i`.
pub open spec fn spec_match_lit(s: Seq<char>, i: int, lit: Seq<char>) -> bool {
    &&& 0 <= i
    &&& i + lit.len() <= s.len()
    &&& forall|k: int| 0 <= k < lit.len() ==> s[i + k] == #[trigger] lit[k]
}

/// First index at or after `i` holding no digit (or the end).
pub open spec fn spec_scan_digits(s: Seq<char>, i: int) -> int
    decreases s.len() - i,
{
    if 0 <= i && i < s.len() && is_digit(s[i]) {
        spec_scan_digits(s, i + 1)
    } else {
        i
    }
}

/// Where the JSON number starting at `i` ends (exclusive), or `None` if no
/// well-formed number starts there. The grammar is JSON's: an optional
/// minus, an integer part without leading zeros, an optional fraction, an
/// optional exponent.
pub open spec fn spec_number_end(s: Seq<char>, i: int) -> Option<int> {
    let j0 = if 0 <= i && i < s.len() && s[i] == '-' {
        i + 1
    } else {
        i
    };
    if !(0 <= j0 && j0 < s.len() && is_digit(s[j0])) {
        Option::None
    } else {
        let j1 = if s[j0] == '0' {
            j0 + 1
        } else {
            spec_scan_digits(s, j0)
        };
        let frac = if j1 < s.len() && s[j1] == '.' {
            let k = spec_scan_digits(s, j1 + 1);
            if k == j1 + 1 {
                Option::None
            } else {
                Option::Some(k)
            }
        } else {
            Option::Some(j1)
        };
        match frac {
            Option::None => Option::None,
            Option::Some(j2) => {
                if j2 < s.len() && (s[j2] == 'e' || s[j2] == 'E') {
                    let j3 = if j2 + 1 < s.len() && (s[j2 + 1] == '+' || s[j2 + 1] == '-') {
                        j2 + 2
                    } else {
                        j2 + 1
                    };
                    let k = spec_scan_digits(s, j3);
                    if k == j3 {
                        Option::None
                    } else {
                        Option::Some(k)
                    }
                } else {
                    Option::Some(j2)
                }
            },
        }
    }
}

/// `t` is, in its entirety, one well-formed JSON number.
pub open spec fn is_number_token(t: Seq<char>) -> bool {
    t.len() > 0 && spec_number_end(t, 0) == Option::Some(t.len() as int)
}

fn skip_ws(s: &str, n: usize, i: usize) -> (r: usize)
    requires
        n == s@.len(),
        i <= n,
    ensures
        r == spec_skip_ws(s@, i as int),
        i <= r <= n,
    decreases n - i,
{
    if i < n {
        let c = s.get_char(i);
        if c == ' ' || c == '\t' || c == '\n' || c == '\r' {
            skip_ws(s, n, i + 1)
        } else {
            i
        }
    } else {
        i
    }
}

/// Matches `lit` at position `i`; on success returns the index just past it.
fn match_lit(s: &str, n: usize, i: usize, lit: &str) -> (r: Option<usize>)
    requires
        n == s@.len(),
        i <= n,
    ensures
        match r {
            Option::Some(j) => spec_match_lit(s@, i as int, lit@) && j == i + lit@.len()
                && i <= j <= n,
            Option::None => !spec_match_lit(s@, i as int, lit@),
        },
{
    let m = lit.unicode_len();
    if m > n - i {
        return Option::None;
    }
    let mut k: usize = 0;
    while k < m
        invariant
            n == s@.len(),
            m == lit@.len(),
            i + m <= n,
            k <= m,
            forall|l: int| 0 <= l < k ==> s@[i + l] == #[trigger] lit@[l],
        decreases m - k,
    {
        let c1 = s.get_char(i + k);
        let c2 = lit.get_char(k);
        if c1 != c2 {
            assert(s@[i + k] != lit@[k as int]);
            return Option::None;
        }
        k = k + 1;
    }
    Option::Some(i + m)
}

fn scan_digits(s: &str, n: usize, i: usize) -> (r: usize)
    requires
        n == s@.len(),
        i <= n,
    ensures
        r == spec_scan_digits(s@, i as int),
        i <= r <= n,
    decreases n - i,
{
    if i < n {
        let c = s.get_char(i);
        if '0' <= c && c <= '9' {
            scan_digits(s, n, i + 1)
        } else {
            i
        }
    } else {
        i
    }
}

fn number_end(s: &str, n: usize, i: usize) -> (r: Option<usize>)
    requires
        n == s@.len(),
        i <= n,
    ensures
        match r {
            Option::Some(j) => spec_number_end(s@, i as int) == Option::Some(j as int)
                && i <= j <= n,
            Option::None => spec_number_end(s@, i as int) is None,
        },
{
    let j0 = if i < n && s.get_char(i) == '-' {
        i + 1
    } else {
        i
    };
    if !(j0 < n) {
        return Option::None;
    }
    let c0 = s.get_char(j0);
    if !('0' <= c0 && c0 <= '9') {
        return Option::None;
    }
    let j1 = if c0 == '0' {
        j0 + 1
    } else {
        scan_digits(s, n, j0)
    };
    let j2 = if j1 < n && s.get_char(j1) == '.' {
        let k = scan_digits(s, n, j1 + 1);
        if k == j1 + 1 {
            return Option::None;
        }
        k
    } else {
        j1
    };
    if j2 < n && (s.get_char(j2) == 'e' || s.get_char(j2) == 'E') {
        let j3 = if j2 + 1 < n && (s.get_char(j2 + 1) == '+' || s.get_char(j2 + 1) == '-') {
            j2 + 2
        } else {
            j2 + 1
        };
        let k = scan_digits(s, n, j3);
        if k == j3 {
            Option::None
        } else {
            Option::Some(k)
        }
    } else {
        Option::Some(j2)
    }
}

/// `t` is, in its entirety, one well-formed JSON number.
pub fn is_valid_number(t: &str) -> (b: bool)
    ensures
        b == is_number_token(t@),
{
    let n = t.unicode_len();
    if n == 0 {
        return false;
    }
    match number_end(t, n, 0) {
        Option::Some(j) => j == n,
        Option::None => false,
    }
}

/// Parses `ws , ws "data" ws : ws` starting at `i`; on success the result
/// is the index where the data object must begin.
pub open spec fn spec_data_key(s: Seq<char>, i: int) -> Option<int> {
    let j1 = spec_skip_ws(s, i);
    if !spec_match_lit(s, j1, ","@) {
        Option::None
    } else {
        let j2 = spec_skip_ws(s, j1 + ","@.len());
        if !spec_match_lit(s, j2, "\"data\""@) {
            Option::None
        } else {
            let j3 = spec_skip_ws(s, j2 + "\"data\""@.len());
            if !spec_match_lit(s, j3, ":"@) {
                Option::None
            } else {
                Option::Some(spec_skip_ws(s, j3 + ":"@.len()))
            }
        }
    }
}

/// From `i` on, the outer object closes and only whitespace follows to the
/// end of the frame.
pub open spec fn spec_close(s: Seq<char>, i: int) -> bool {
    let j = spec_skip_ws(s, i);
    spec_match_lit(s, j, "}"@) && spec_skip_ws(s, j + "}"@.len()) == s.len()
}

/// Parses a command's `"data"` part, `{"rec":true|false}`, and the close
/// of the frame, starting right after the `"Command"` tag.
pub open spec fn spec_decode_command_data(s: Seq<char>, i: int) -> Option<ClientMessageView> {
    match spec_data_key(s, i) {
        Option::None => Option::None,
        Option::Some(j0) => {
            if !spec_match_lit(s, j0, "{"@) {
                Option::None
            } else {
                let j1 = spec_skip_ws(s, j0 + "{"@.len());
                if !spec_match_lit(s, j1, "\"rec\""@) {
                    Option::None
                } else {
                    let j2 = spec_skip_ws(s, j1 + "\"rec\""@.len());
                    if !spec_match_lit(s, j2, ":"@) {
                        Option::None
                    } else {
                        let j3 = spec_skip_ws(s, j2 + ":"@.len());
                        let val = if spec_match_lit(s, j3, "true"@) {
                            Option::Some((true, j3 + "true"@.len()))
                        } else if spec_match_lit(s, j3, "false"@) {
                            Option::Some((false, j3 + "false"@.len()))
                        } else {
                            Option::None
                        };
                        match val {
                            Option::None => Option::None,
                            Option::Some((rec, j4)) => {
                                let j5 = spec_skip_ws(s, j4);
                                if spec_match_lit(s, j5, "}"@) && spec_close(s, j5 + "}"@.len()) {
                                    Option::Some(ClientMessageView::Command { rec })
                                } else {
                                    Option::None
                                }
                            },
                        }
                    }
                }
            }
        },
    }
}

/// Parses a parameter's `"data"` part, `{}`, `{"amplitude":null}` or
/// `{"amplitude":<number>}`, and the close of the frame, starting right
/// after the `"Parameter"` tag. The amplitude token is also required to
/// re-parse, standalone, as one whole number: that states directly, in
/// both the grammar and the parser, what a shift argument about
/// [`spec_number_end`] would otherwise be needed for, and ties every
/// accepted token to [`is_number_token`].
pub open spec fn spec_decode_parameter_data(s: Seq<char>, i: int) -> Option<ClientMessageView> {
    match spec_data_key(s, i) {
        Option::None => Option::None,
        Option::Some(j0) => {
            if !spec_match_lit(s, j0, "{"@) {
                Option::None
            } else {
                let j1 = spec_skip_ws(s, j0 + "{"@.len());
                if spec_match_lit(s, j1, "}"@) {
                    if spec_close(s, j1 + "}"@.len()) {
                        Option::Some(ClientMessageView::Parameter { amplitude: Option::None })
                    } else {
                        Option::None
                    }
                } else if spec_match_lit(s, j1, "\"amplitude\""@) {
                    let j2 = spec_skip_ws(s, j1 + "\"amplitude\""@.len());
                    if !spec_match_lit(s, j2, ":"@) {
                        Option::None
                    } else {
                        let j3 = spec_skip_ws(s, j2 + ":"@.len());
                        if spec_match_lit(s, j3, "null"@) {
                            let j4 = spec_skip_ws(s, j3 + "null"@.len());
                            if spec_match_lit(s, j4, "}"@) && spec_close(s, j4 + "}"@.len()) {
                                Option::Some(
                                    ClientMessageView::Parameter { amplitude: Option::None },
                                )
                            } else {
                                Option::None
                            }
                        } else {
                            match spec_number_end(s, j3) {
                                Option::None => Option::None,
                                Option::Some(j4) => {
                                    let tok = s.subrange(j3, j4);
                                    if !is_number_token(tok) {
                                        Option::None
                                    } else {
                                        let j5 = spec_skip_ws(s, j4);
                                        if spec_match_lit(s, j5, "}"@)
                                            && spec_close(s, j5 + "}"@.len()) {
                                            Option::Some(
                                                ClientMessageView::Parameter {
                                                    amplitude: Option::Some(tok),
                                                },
                                            )
                                        } else {
                                            Option::None
                                        }
                                    }
                                },
                            }
                        }
                    }
                } else {
                    Option::None
                }
            }
        },
    }
}

/// The whole grammar accepted by [`decode`]: one frame is
/// `{"type":<tag>,"data":<object>}` with JSON whitespace allowed between
/// tokens, where the tag is `"Command"` or `"Parameter"` and the data
/// object has the shape that the tag demands. `None` is a decode error.
pub open spec fn spec_decode(s: Seq<char>) -> Option<ClientMessageView> {
    let i1 = spec_skip_ws(s, 0);
    if !spec_match_lit(s, i1, "{"@) {
        Option::None
    } else {
        let i2 = spec_skip_ws(s, i1 + "{"@.len());
        if !spec_match_lit(s, i2, "\"type\""@) {
            Option::None
        } else {
            let i3 = spec_skip_ws(s, i2 + "\"type\""@.len());
            if !spec_match_lit(s, i3, ":"@) {
                Option::None
            } else {
                let i4 = spec_skip_ws(s, i3 + ":"@.len());
                if spec_match_lit(s, i4, "\"Command\""@) {
                    spec_decode_command_data(s, i4 + "\"Command\""@.len())
                } else if spec_match_lit(s, i4, "\"Parameter\""@) {
                    spec_decode_parameter_data(s, i4 + "\"Parameter\""@.len())
                } else {
                    Option::None
                }
            }
        }
    }
}

/// The character that stands for the hex value `d`.
pub open spec fn spec_hex_digit(d: int) -> char {
    if d == 0 {
        '0'
    } else if d == 1 {
        '1'
    } else if d == 2 {
        '2'
    } else if d == 3 {
        '3'
    } else if d == 4 {
        '4'
    } else if d == 5 {
        '5'
    } else if d == 6 {
        '6'
    } else if d == 7 {
        '7'
    } else if d == 8 {
        '8'
    } else if d == 9 {
        '9'
    } else if d == 10 {
        'a'
    } else if d == 11 {
        'b'
    } else if d == 12 {
        'c'
    } else if d == 13 {
        'd'
    } else if d == 14 {
        'e'
    } else {
        'f'
    }
}

/// How one character appears inside a JSON string: quotes and backslashes
/// are escaped, control characters become `\u00XX`, everything else stands
/// as itself.
pub open spec fn spec_escape_char(c: char) -> Seq<char> {
    if c == '"' {
        seq!['\\', '"']
    } else if c == '\\' {
        seq!['\\', '\\']
    } else if (c as u32) < 32 {
        seq![
            '\\',
            'u',
            '0',
            '0',
            spec_hex_digit((c as u32) as int / 16),
            spec_hex_digit((c as u32) as int % 16),
        ]
    } else {
        seq![c]
    }
}

/// How a whole string appears inside a JSON string literal.
pub open spec fn spec_escape(s: Seq<char>) -> Seq<char>
    decreases s.len(),
{
    if s.len() == 0 {
        Seq::empty()
    } else {
        spec_escape(s.drop_last()) + spec_escape_char(s.last())
    }
}

/// The exact text of an encoded [`ServerMessage`].
pub open spec fn spec_encode(m: ServerMessageView) -> Seq<char> {
    match m {
        ServerMessageView::Ack { status } => "{\"type\":\"Ack\",\"data\":{\"status\":\""@
            + spec_escape(status) + "\"}}"@,
        ServerMessageView::Error { message } => "{\"type\":\"Error\",\"data\":{\"message\":\""@
            + spec_escape(message) + "\"}}"@,
    }
}

/// Relies on `String::push`: appends exactly the one character at the end.
#[verifier::external_body]
fn push_char(out: &mut String, c: char)
    ensures
        final(out)@ == old(out)@.push(c),
{
    out.push(c);
}

fn hex_digit(d: u32) -> (r: char)
    requires
        d < 16,
    ensures
        r == spec_hex_digit(d as int),
{
    if d == 0 {
        '0'
    } else if d == 1 {
        '1'
    } else if d == 2 {
        '2'
    } else if d == 3 {
        '3'
    } else if d == 4 {
        '4'
    } else if d == 5 {
        '5'
    } else if d == 6 {
        '6'
    } else if d == 7 {
        '7'
    } else if d == 8 {
        '8'
    } else if d == 9 {
        '9'
    } else if d == 10 {
        'a'
    } else if d == 11 {
        'b'
    } else if d == 12 {
        'c'
    } else if d == 13 {
        'd'
    } else if d == 14 {
        'e'
    } else {
        'f'
    }
}

/// Escapes a string for inclusion in a JSON string literal.
pub fn escape_json(s: &str) -> (r: String)
    ensures
        r@ == spec_escape(s@),
{
    let n = s.unicode_len();
    let mut out = String::new();
    let mut i: usize = 0;
    assert(s@.subrange(0, 0) =~= Seq::<char>::empty());
    while i < n
        invariant
            n == s@.len(),
            i <= n,
            out@ == spec_escape(s@.subrange(0, i as int)),
        decreases n - i,
    {
        let c = s.get_char(i);
        proof {
            assert(s@.subrange(0, i + 1).drop_last() =~= s@.subrange(0, i as int));
            assert(s@.subrange(0, i + 1).last() == s@[i as int]);
        }
        if c == '"' {
            out.append("\\\"");
            proof {
                reveal_strlit("\\\"");
                assert(out@ =~= spec_escape(s@.subrange(0, i + 1)));
            }
        } else if c == '\\' {
            out.append("\\\\");
            proof {
                reveal_strlit("\\\\");
                assert(out@ =~= spec_escape(s@.subrange(0, i + 1)));
            }
        } else if (c as u32) < 32 {
            out.append("\\u00");
            let v = c as u32;
            let h1 = hex_digit(v / 16);
            let h2 = hex_digit(v % 16);
            push_char(&mut out, h1);
            push_char(&mut out, h2);
            proof {
                reveal_strlit("\\u00");
                assert(out@ =~= spec_escape(s@.subrange(0, i + 1)));
            }
        } else {
            push_char(&mut out, c);
            proof {
                assert(out@ =~= spec_escape(s@.subrange(0, i + 1)));
            }
        }
        i = i + 1;
    }
    proof {
        assert(s@.subrange(0, n as int) =~= s@);
    }
    out
}

/// Encodes one outbound message. Total: every well-formed in-memory value
/// yields exactly the text of [`spec_encode`].
pub fn encode(m: &ServerMessage) -> (r: String)
    ensures
        r@ == spec_encode(m@),
{
    match m {
        ServerMessage::Ack(a) => {
            let mut out = String::from_str("{\"type\":\"Ack\",\"data\":{\"status\":\"");
            let esc = escape_json(a.status.as_str());
            out.append(esc.as_str());
            out.append("\"}}");
            out
        },
        ServerMessage::Error(e) => {
            let mut out = String::from_str("{\"type\":\"Error\",\"data\":{\"message\":\"");
            let esc = escape_json(e.message.as_str());
            out.append(esc.as_str());
            out.append("\"}}");
            out
        },
    }
}

/// A decoded message is well formed: a present amplitude is one
/// well-formed JSON number.
pub open spec fn msg_wf(m: ClientMessageView) -> bool {
    match m {
        ClientMessageView::Command { .. } => true,
        ClientMessageView::Parameter { amplitude } => match amplitude {
            Option::Some(t) => is_number_token(t),
            Option::None => true,
        },
    }
}

/// Whatever [`spec_decode`] accepts is well formed: the grammar only ever
/// hands out amplitude tokens that are whole JSON numbers.
pub proof fn lemma_decode_wf(s: Seq<char>)
    ensures
        spec_decode(s) matches Option::Some(m) ==> msg_wf(m),
{
}

/// A recoverable failure to interpret inbound text as a [`ClientMessage`].
#[derive(Debug)]
pub struct DecodeError {}

impl DecodeError {
    /// The human-readable description that the protocol sends back.
    pub fn message(&self) -> (r: String)
        ensures
            r@ == "Invalid message format"@,
    {
        "Invalid message format".to_owned()
    }
}

/// Parses `ws , ws "data" ws : ws`; on success returns where the data
/// object must begin.
fn data_key(s: &str, n: usize, i: usize) -> (r: Option<usize>)
    requires
        n == s@.len(),
        i <= n,
    ensures
        match r {
            Option::Some(j) => spec_data_key(s@, i as int) == Option::Some(j as int) && j <= n,
            Option::None => spec_data_key(s@, i as int) is None,
        },
{
    let j1 = skip_ws(s, n, i);
    match match_lit(s, n, j1, ",") {
        Option::None => Option::None,
        Option::Some(j1c) => {
            let j2 = skip_ws(s, n, j1c);
            match match_lit(s, n, j2, "\"data\"") {
                Option::None => Option::None,
                Option::Some(j2c) => {
                    let j3 = skip_ws(s, n, j2c);
                    match match_lit(s, n, j3, ":") {
                        Option::None => Option::None,
                        Option::Some(j3c) => Option::Some(skip_ws(s, n, j3c)),
                    }
                },
            }
        },
    }
}

/// Checks that the outer object closes and only whitespace follows.
fn close_frame(s: &str, n: usize, i: usize) -> (b: bool)
    requires
        n == s@.len(),
        i <= n,
    ensures
        b == spec_close(s@, i as int),
{
    let j = skip_ws(s, n, i);
    match match_lit(s, n, j, "}") {
        Option::None => false,
        Option::Some(jc) => {
            let e = skip_ws(s, n, jc);
            e == n
        },
    }
}

fn decode_command_data(s: &str, n: usize, i: usize) -> (r: Option<ClientMessage>)
    requires
        n == s@.len(),
        i <= n,
    ensures
        match r {
            Option::Some(m) => spec_decode_command_data(s@, i as int) == Option::Some(m@),
            Option::None => spec_decode_command_data(s@, i as int) is None,
        },
{
    let j0 = match data_key(s, n, i) {
        Option::None => {
            return Option::None;
        },
        Option::Some(j0) => j0,
    };
    let j0c = match match_lit(s, n, j0, "{") {
        Option::None => {
            return Option::None;
        },
        Option::Some(j) => j,
    };
    let j1 = skip_ws(s, n, j0c);
    let j1c = match match_lit(s, n, j1, "\"rec\"") {
        Option::None => {
            return Option::None;
        },
        Option::Some(j) => j,
    };
    let j2 = skip_ws(s, n, j1c);
    let j2c = match match_lit(s, n, j2, ":") {
        Option::None => {
            return Option::None;
        },
        Option::Some(j) => j,
    };
    let j3 = skip_ws(s, n, j2c);
    let (rec, j4) = match match_lit(s, n, j3, "true") {
        Option::Some(j) => (true, j),
        Option::None => match match_lit(s, n, j3, "false") {
            Option::Some(j) => (false, j),
            Option::None => {
                return Option::None;
            },
        },
    };
    let j5 = skip_ws(s, n, j4);
    let j5c = match match_lit(s, n, j5, "}") {
        Option::None => {
            return Option::None;
        },
        Option::Some(j) => j,
    };
    if close_frame(s, n, j5c) {
        Option::Some(ClientMessage::Command(CommandData { rec }))
    } else {
        Option::None
    }
}

fn decode_parameter_data(s: &str, n: usize, i: usize) -> (r: Option<ClientMessage>)
    requires
        n == s@.len(),
        i <= n,
    ensures
        match r {
            Option::Some(m) => spec_decode_parameter_data(s@, i as int) == Option::Some(m@),
            Option::None => spec_decode_parameter_data(s@, i as int) is None,
        },
{
    let j0 = match data_key(s, n, i) {
        Option::None => {
            return Option::None;
        },
        Option::Some(j0) => j0,
    };
    let j0c = match match_lit(s, n, j0, "{") {
        Option::None => {
            return Option::None;
        },
        Option::Some(j) => j,
    };
    let j1 = skip_ws(s, n, j0c);
    if let Option::Some(j1c) = match_lit(s, n, j1, "}") {
        if close_frame(s, n, j1c) {
            return Option::Some(ClientMessage::Parameter(ParameterData {
                amplitude: Option::None,
            }));
        } else {
            return Option::None;
        }
    }
    let j1c = match match_lit(s, n, j1, "\"amplitude\"") {
        Option::None => {
            return Option::None;
        },
        Option::Some(j) => j,
    };
    let j2 = skip_ws(s, n, j1c);
    let j2c = match match_lit(s, n, j2, ":") {
        Option::None => {
            return Option::None;
        },
        Option::Some(j) => j,
    };
    let j3 = skip_ws(s, n, j2c);
    if let Option::Some(j4) = match_lit(s, n, j3, "null") {
        let j5 = skip_ws(s, n, j4);
        let j5c = match match_lit(s, n, j5, "}") {
            Option::None => {
                return Option::None;
            },
            Option::Some(j) => j,
        };
        if close_frame(s, n, j5c) {
            return Option::Some(ClientMessage::Parameter(ParameterData {
                amplitude: Option::None,
            }));
        } else {
            return Option::None;
        }
    }
    let j4 = match number_end(s, n, j3) {
        Option::None => {
            return Option::None;
        },
        Option::Some(j) => j,
    };
    let tok = s.substring_char(j3, j4);
    if !is_valid_number(tok) {
        return Option::None;
    }
    let j5 = skip_ws(s, n, j4);
    let j5c = match match_lit(s, n, j5, "}") {
        Option::None => {
            return Option::None;
        },
        Option::Some(j) => j,
    };
    if close_frame(s, n, j5c) {
        Option::Some(ClientMessage::Parameter(ParameterData {
            amplitude: Option::Some(tok.to_owned()),
        }))
    } else {
        Option::None
    }
}

/// Decodes one inbound text frame. Succeeds exactly on the frames of the
/// grammar [`spec_decode`], and then returns the message that the grammar
/// assigns to the frame; every other input is a [`DecodeError`].
pub fn decode(s: &str) -> (r: Result<ClientMessage, DecodeError>)
    ensures
        match r {
            Result::Ok(m) => spec_decode(s@) == Option::Some(m@),
            Result::Err(_) => spec_decode(s@) is None,
        },
{
    let n = s.unicode_len();
    let i1 = skip_ws(s, n, 0);
    let i1c = match match_lit(s, n, i1, "{") {
        Option::None => {
            return Result::Err(DecodeError {});
        },
        Option::Some(j) => j,
    };
    let i2 = skip_ws(s, n, i1c);
    let i2c = match match_lit(s, n, i2, "\"type\"") {
        Option::None => {
            return Result::Err(DecodeError {});
        },
        Option::Some(j) => j,
    };
    let i3 = skip_ws(s, n, i2c);
    let i3c = match match_lit(s, n, i3, ":") {
        Option::None => {
            return Result::Err(DecodeError {});
        },
        Option::Some(j) => j,
    };
    let i4 = skip_ws(s, n, i3c);
    if let Option::Some(i5) = match_lit(s, n, i4, "\"Command\"") {
        match decode_command_data(s, n, i5) {
            Option::Some(m) => Result::Ok(m),
            Option::None => Result::Err(DecodeError {}),
        }
    } else if let Option::Some(i5) = match_lit(s, n, i4, "\"Parameter\"") {
        match decode_parameter_data(s, n, i5) {
            Option::Some(m) => Result::Ok(m),
            Option::None => Result::Err(DecodeError {}),
        }
    } else {
        Result::Err(DecodeError {})
    }
}

} // verus!
