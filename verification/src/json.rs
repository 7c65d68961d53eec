//! The JSON codec for the two message shapes.
//!
//! The wire grammar is small: an object of string members.  The writer emits
//! the canonical compact form that the host sends; the parser accepts an
//! object holding exactly the members `action` and `url` in either order,
//! with optional whitespace between tokens.  Inside strings the usual JSON
//! escapes are understood; a `\u` escape is accepted for code points below
//! 0x80 (the writer only ever emits them for control characters), larger
//! code points travel unescaped in UTF-8.

use crate::message::Response;
use crate::strings::string_to_chars;
use vstd::prelude::*;
use vstd::string::*;

verus! {

/// JSON insignificant whitespace.
pub open spec fn json_ws(c: char) -> bool {
    c == ' ' || c == '\t' || c == '\n' || c == '\r'
}

/// The first index at or after `i` holding a non-whitespace character, or
/// the length of `s`.
pub open spec fn spec_skip_ws(s: Seq<char>, i: int) -> int
    decreases s.len() - i,
{
    if 0 <= i < s.len() && json_ws(s[i]) {
        spec_skip_ws(s, i + 1)
    } else {
        i
    }
}

/// The value of a hexadecimal digit character, upper or lower case.
pub open spec fn spec_hex_val(c: char) -> Option<u32> {
    let v = c as u32;
    if 48 <= v <= 57 {
        Some((v - 48) as u32)
    } else if 97 <= v <= 102 {
        Some((v - 87) as u32)
    } else if 65 <= v <= 70 {
        Some((v - 55) as u32)
    } else {
        None
    }
}

/// The lower-case hexadecimal digit character for a value below 16.
pub open spec fn spec_hex_digit(v: u32) -> char {
    if v < 10 {
        ((48 + v) as u8) as char
    } else {
        ((87 + v) as u8) as char
    }
}

/// The character a single-letter escape `\x` stands for, if `x` is a
/// recognized escape letter.
pub open spec fn spec_simple_unescape(e: char) -> Option<char> {
    if e == '"' {
        Some('"')
    } else if e == '\\' {
        Some('\\')
    } else if e == '/' {
        Some('/')
    } else if e == 'b' {
        Some(8u8 as char)
    } else if e == 't' {
        Some('\t')
    } else if e == 'n' {
        Some('\n')
    } else if e == 'f' {
        Some(12u8 as char)
    } else if e == 'r' {
        Some('\r')
    } else {
        None
    }
}

/// How the writer renders one character inside a JSON string: quotes and
/// backslashes and the named control characters get a two-character escape,
/// the remaining control characters a `\u00xx` escape, everything else
/// stands for itself.
pub open spec fn escape_char(c: char) -> Seq<char> {
    let v = c as u32;
    if v == 34 {
        seq!['\\', '"']
    } else if v == 92 {
        seq!['\\', '\\']
    } else if v == 8 {
        seq!['\\', 'b']
    } else if v == 9 {
        seq!['\\', 't']
    } else if v == 10 {
        seq!['\\', 'n']
    } else if v == 12 {
        seq!['\\', 'f']
    } else if v == 13 {
        seq!['\\', 'r']
    } else if v < 32 {
        seq!['\\', 'u', '0', '0', spec_hex_digit(v / 16), spec_hex_digit(v % 16)]
    } else {
        seq![c]
    }
}

/// The writer's rendering of a whole string content, character by character.
pub open spec fn escape_string(s: Seq<char>) -> Seq<char>
    decreases s.len(),
{
    if s.len() == 0 {
        Seq::empty()
    } else {
        escape_char(s[0]) + escape_string(s.skip(1))
    }
}

/// Parses a JSON string content starting at `i`, just after the opening
/// quote; yields the unescaped content and the index just after the closing
/// quote.  Unescaped control characters, bad escapes, `\u` escapes at or
/// above 0x80 and a missing closing quote are all rejected.
pub open spec fn spec_parse_string_body(s: Seq<char>, i: int) -> Option<(Seq<char>, int)>
    decreases s.len() - i,
{
    if i < 0 || i >= s.len() {
        None
    } else if s[i] == '"' {
        Some((Seq::empty(), i + 1))
    } else if s[i] == '\\' {
        if i + 1 < s.len() {
            let e = s[i + 1];
            if e == 'u' {
                if i + 6 <= s.len() {
                    match (spec_hex_val(s[i + 2]), spec_hex_val(s[i + 3]), spec_hex_val(s[i + 4]), spec_hex_val(s[i + 5])) {
                        (Some(d0), Some(d1), Some(d2), Some(d3)) => {
                            let v = d0 * 4096 + d1 * 256 + d2 * 16 + d3;
                            if v < 128 {
                                match spec_parse_string_body(s, i + 6) {
                                    Some((rest, j)) => Some((seq![(v as u8) as char] + rest, j)),
                                    None => None,
                                }
                            } else {
                                None
                            }
                        },
                        _ => None,
                    }
                } else {
                    None
                }
            } else {
                match spec_simple_unescape(e) {
                    Some(c) => match spec_parse_string_body(s, i + 2) {
                        Some((rest, j)) => Some((seq![c] + rest, j)),
                        None => None,
                    },
                    None => None,
                }
            }
        } else {
            None
        }
    } else if (s[i] as u32) >= 32 {
        match spec_parse_string_body(s, i + 1) {
            Some((rest, j)) => Some((seq![s[i]] + rest, j)),
            None => None,
        }
    } else {
        None
    }
}

/// Parses one `"key" : "value"` member starting at `i`; yields key, value
/// and the index just after the value's closing quote.
pub open spec fn spec_parse_member(s: Seq<char>, i: int) -> Option<(Seq<char>, Seq<char>, int)> {
    let j = spec_skip_ws(s, i);
    if j < s.len() && s[j] == '"' {
        match spec_parse_string_body(s, j + 1) {
            Some((key, j2)) => {
                let j3 = spec_skip_ws(s, j2);
                if j3 < s.len() && s[j3] == ':' {
                    let j4 = spec_skip_ws(s, j3 + 1);
                    if j4 < s.len() && s[j4] == '"' {
                        match spec_parse_string_body(s, j4 + 1) {
                            Some((val, j5)) => Some((key, val, j5)),
                            None => None,
                        }
                    } else {
                        None
                    }
                } else {
                    None
                }
            },
            None => None,
        }
    } else {
        None
    }
}

/// Pairs the two parsed members up as `(action, url)` when their keys are
/// exactly `action` and `url` in either order.
pub open spec fn spec_request_fields(
    k1: Seq<char>,
    v1: Seq<char>,
    k2: Seq<char>,
    v2: Seq<char>,
) -> Option<(Seq<char>, Seq<char>)> {
    if k1 == "action"@ && k2 == "url"@ {
        Some((v1, v2))
    } else if k1 == "url"@ && k2 == "action"@ {
        Some((v2, v1))
    } else {
        None
    }
}

/// Parses a whole request payload: an object of exactly the members
/// `action` and `url`, in either order, with nothing but whitespace after
/// the closing brace.  Yields the action and URL strings.
pub open spec fn spec_parse_request(s: Seq<char>) -> Option<(Seq<char>, Seq<char>)> {
    let i0 = spec_skip_ws(s, 0);
    if i0 < s.len() && s[i0] == '{' {
        match spec_parse_member(s, i0 + 1) {
            Some((k1, v1, i1)) => {
                let j = spec_skip_ws(s, i1);
                if j < s.len() && s[j] == ',' {
                    match spec_parse_member(s, j + 1) {
                        Some((k2, v2, i2)) => {
                            let e = spec_skip_ws(s, i2);
                            if e < s.len() && s[e] == '}' && spec_skip_ws(s, e + 1) == s.len() {
                                spec_request_fields(k1, v1, k2, v2)
                            } else {
                                None
                            }
                        },
                        None => None,
                    }
                } else {
                    None
                }
            },
            None => None,
        }
    } else {
        None
    }
}

/// The scaffolding before the action value in the canonical request form:
/// `{"action":"`.
pub open spec fn request_json_open() -> Seq<char> {
    seq!['{', '"', 'a', 'c', 't', 'i', 'o', 'n', '"', ':', '"']
}

/// The scaffolding between the two values: `","url":"`.
pub open spec fn request_json_mid() -> Seq<char> {
    seq!['"', ',', '"', 'u', 'r', 'l', '"', ':', '"']
}

/// The scaffolding after the URL value: `"}`.
pub open spec fn request_json_close() -> Seq<char> {
    seq!['"', '}']
}

/// The canonical compact JSON form of a request, as the peer would write it:
/// `{"action":"...","url":"..."}` with both values escaped.
pub open spec fn spec_request_json(action: Seq<char>, url: Seq<char>) -> Seq<char> {
    request_json_open() + escape_string(action) + request_json_mid() + escape_string(url)
        + request_json_close()
}

/// The canonical compact JSON form of a response: `success` first, then
/// `method` and `error` only when present.
pub open spec fn spec_response_json(
    success: bool,
    method: Option<Seq<char>>,
    error: Option<Seq<char>>,
) -> Seq<char> {
    seq!['{', '"', 's', 'u', 'c', 'c', 'e', 's', 's', '"', ':'] + (if success {
        seq!['t', 'r', 'u', 'e']
    } else {
        seq!['f', 'a', 'l', 's', 'e']
    }) + (match method {
        Some(m) => seq![',', '"', 'm', 'e', 't', 'h', 'o', 'd', '"', ':', '"'] + escape_string(m)
            + seq!['"'],
        None => Seq::<char>::empty(),
    }) + (match error {
        Some(e) => seq![',', '"', 'e', 'r', 'r', 'o', 'r', '"', ':', '"'] + escape_string(e)
            + seq!['"'],
        None => Seq::<char>::empty(),
    }) + seq!['}']
}

/// The view of an optional string.
pub open spec fn view_opt(o: Option<String>) -> Option<Seq<char>> {
    match o {
        Some(s) => Some(s@),
        None => None,
    }
}

/// The lower-case hexadecimal digit character for a value below 16.
fn hex_digit(v: u32) -> (r: char)
    requires
        v < 16,
    ensures
        r == spec_hex_digit(v),
{
    if v < 10 {
        ((48 + v) as u8) as char
    } else {
        ((87 + v) as u8) as char
    }
}

/// Appends the writer's rendering of one string character to `out`.
fn push_escaped_char(out: &mut Vec<char>, c: char)
    ensures
        final(out)@ == old(out)@ + escape_char(c),
{
    let v = c as u32;
    if v == 34 {
        out.push('\\');
        out.push('"');
    } else if v == 92 {
        out.push('\\');
        out.push('\\');
    } else if v == 8 {
        out.push('\\');
        out.push('b');
    } else if v == 9 {
        out.push('\\');
        out.push('t');
    } else if v == 10 {
        out.push('\\');
        out.push('n');
    } else if v == 12 {
        out.push('\\');
        out.push('f');
    } else if v == 13 {
        out.push('\\');
        out.push('r');
    } else if v < 32 {
        out.push('\\');
        out.push('u');
        out.push('0');
        out.push('0');
        out.push(hex_digit(v / 16));
        out.push(hex_digit(v % 16));
    } else {
        out.push(c);
    }
    proof {
        assert(out@ =~= old(out)@ + escape_char(c));
    }
}

/// Appends the writer's rendering of a whole string content to `out`.
fn push_escaped(out: &mut Vec<char>, s: &Vec<char>)
    ensures
        final(out)@ == old(out)@ + escape_string(s@),
{
    let mut k: usize = 0;
    proof {
        assert(s@.skip(0) =~= s@);
    }
    while k < s.len()
        invariant
            k <= s.len(),
            out@ + escape_string(s@.skip(k as int)) == old(out)@ + escape_string(s@),
        decreases s.len() - k,
    {
        push_escaped_char(out, s[k]);
        k = k + 1;
        proof {
            let tail = s@.skip(k - 1);
            assert(tail[0] == s@[k - 1]);
            assert(tail.skip(1) =~= s@.skip(k as int));
            assert(escape_string(tail) == escape_char(s@[k - 1]) + escape_string(s@.skip(k as int)));
            assert(out@ + escape_string(s@.skip(k as int)) =~= old(out)@ + escape_string(s@));
        }
    }
    proof {
        assert(s@.skip(s@.len() as int) =~= Seq::<char>::empty());
        assert(out@ =~= out@ + escape_string(s@.skip(s@.len() as int)));
    }
}

/// Builds the canonical compact JSON of a request from its two field
/// contents.
pub fn request_json_chars(action: &Vec<char>, url: &Vec<char>) -> (out: Vec<char>)
    ensures
        out@ == spec_request_json(action@, url@),
{
    let mut out: Vec<char> = Vec::new();
    out.push('{');
    out.push('"');
    out.push('a');
    out.push('c');
    out.push('t');
    out.push('i');
    out.push('o');
    out.push('n');
    out.push('"');
    out.push(':');
    out.push('"');
    proof {
        assert(out@ =~= request_json_open());
    }
    push_escaped(&mut out, action);
    let ghost mid0 = out@;
    out.push('"');
    out.push(',');
    out.push('"');
    out.push('u');
    out.push('r');
    out.push('l');
    out.push('"');
    out.push(':');
    out.push('"');
    proof {
        assert(out@ =~= mid0 + request_json_mid());
    }
    push_escaped(&mut out, url);
    out.push('"');
    out.push('}');
    proof {
        assert(out@ =~= spec_request_json(action@, url@));
    }
    out
}

/// Builds the canonical compact JSON of a response, leaving absent optional
/// fields out entirely.
#[verifier::rlimit(50)]
pub fn response_json_chars(resp: &Response) -> (out: Vec<char>)
    ensures
        out@ == spec_response_json(resp.success, view_opt(resp.method), view_opt(resp.error)),
{
    let mut out: Vec<char> = Vec::new();
    out.push('{');
    out.push('"');
    out.push('s');
    out.push('u');
    out.push('c');
    out.push('c');
    out.push('e');
    out.push('s');
    out.push('s');
    out.push('"');
    out.push(':');
    if resp.success {
        out.push('t');
        out.push('r');
        out.push('u');
        out.push('e');
    } else {
        out.push('f');
        out.push('a');
        out.push('l');
        out.push('s');
        out.push('e');
    }
    proof {
        assert(out@ =~= seq!['{', '"', 's', 'u', 'c', 'c', 'e', 's', 's', '"', ':'] + (
        if resp.success {
            seq!['t', 'r', 'u', 'e']
        } else {
            seq!['f', 'a', 'l', 's', 'e']
        }));
    }
    let ghost head = out@;
    match &resp.method {
        Some(m) => {
            out.push(',');
            out.push('"');
            out.push('m');
            out.push('e');
            out.push('t');
            out.push('h');
            out.push('o');
            out.push('d');
            out.push('"');
            out.push(':');
            out.push('"');
            let ghost before_m = out@;
            proof {
                assert(before_m =~= head + seq![',', '"', 'm', 'e', 't', 'h', 'o', 'd', '"', ':', '"']);
            }
            let mc = string_to_chars(m.as_str());
            push_escaped(&mut out, &mc);
            out.push('"');
            proof {
                assert(out@ =~= head + (seq![',', '"', 'm', 'e', 't', 'h', 'o', 'd', '"', ':', '"']
                    + escape_string(m@) + seq!['"']));
            }
        },
        None => {},
    }
    let ghost with_method = out@;
    proof {
        assert(with_method =~= head + (match view_opt(resp.method) {
            Some(m) => seq![',', '"', 'm', 'e', 't', 'h', 'o', 'd', '"', ':', '"'] + escape_string(m)
                + seq!['"'],
            None => Seq::<char>::empty(),
        }));
    }
    match &resp.error {
        Some(e) => {
            out.push(',');
            out.push('"');
            out.push('e');
            out.push('r');
            out.push('r');
            out.push('o');
            out.push('r');
            out.push('"');
            out.push(':');
            out.push('"');
            let ghost before_e = out@;
            proof {
                assert(before_e =~= with_method + seq![',', '"', 'e', 'r', 'r', 'o', 'r', '"', ':', '"']);
            }
            let ec = string_to_chars(e.as_str());
            push_escaped(&mut out, &ec);
            out.push('"');
            proof {
                assert(out@ =~= with_method + (seq![',', '"', 'e', 'r', 'r', 'o', 'r', '"', ':', '"']
                    + escape_string(e@) + seq!['"']));
            }
        },
        None => {},
    }
    proof {
        assert(out@ =~= with_method + (match view_opt(resp.error) {
            Some(e) => seq![',', '"', 'e', 'r', 'r', 'o', 'r', '"', ':', '"'] + escape_string(e)
                + seq!['"'],
            None => Seq::<char>::empty(),
        }));
    }
    out.push('}');
    proof {
        assert(out@ =~= spec_response_json(resp.success, view_opt(resp.method), view_opt(resp.error)));
    }
    out
}


/// The result of prefixing a parsed string content with already-consumed
/// characters.
pub open spec fn prefixed(p: Seq<char>, r: Option<(Seq<char>, int)>) -> Option<(Seq<char>, int)> {
    match r {
        Some((t, j)) => Some((p + t, j)),
        None => None,
    }
}

proof fn lemma_prefixed_assoc(a: Seq<char>, b: Seq<char>, r: Option<(Seq<char>, int)>)
    ensures
        prefixed(a, prefixed(b, r)) == prefixed(a + b, r),
{
    match r {
        Some((t, j)) => {
            assert(a + (b + t) =~= (a + b) + t);
        },
        None => {},
    }
}

/// Advances over JSON whitespace.
fn skip_ws(s: &Vec<char>, i: usize) -> (r: usize)
    requires
        i <= s@.len(),
    ensures
        r as int == spec_skip_ws(s@, i as int),
        i <= r <= s@.len(),
{
    let mut j = i;
    while j < s.len() && (s[j] == ' ' || s[j] == '\t' || s[j] == '\n' || s[j] == '\r')
        invariant
            i <= j <= s@.len(),
            spec_skip_ws(s@, i as int) == spec_skip_ws(s@, j as int),
        decreases s@.len() - j,
    {
        j = j + 1;
    }
    j
}

/// The value of a hexadecimal digit character, upper or lower case.
fn hex_val(c: char) -> (r: Option<u32>)
    ensures
        r == spec_hex_val(c),
        r matches Some(d) ==> d < 16,
{
    let v = c as u32;
    if 48 <= v && v <= 57 {
        Some(v - 48)
    } else if 97 <= v && v <= 102 {
        Some(v - 87)
    } else if 65 <= v && v <= 70 {
        Some(v - 55)
    } else {
        None
    }
}

/// The character a single-letter escape stands for.
fn simple_unescape(e: char) -> (r: Option<char>)
    ensures
        r == spec_simple_unescape(e),
{
    if e == '"' {
        Some('"')
    } else if e == '\\' {
        Some('\\')
    } else if e == '/' {
        Some('/')
    } else if e == 'b' {
        Some(8u8 as char)
    } else if e == 't' {
        Some('\t')
    } else if e == 'n' {
        Some('\n')
    } else if e == 'f' {
        Some(12u8 as char)
    } else if e == 'r' {
        Some('\r')
    } else {
        None
    }
}

/// Parses a JSON string content starting just after its opening quote.
fn parse_string_body(s: &Vec<char>, i: usize) -> (r: Option<(Vec<char>, usize)>)
    requires
        i <= s@.len(),
    ensures
        match r {
            Some(p) => spec_parse_string_body(s@, i as int) == Some((p.0@, p.1 as int)) && i
                < p.1 <= s@.len(),
            None => spec_parse_string_body(s@, i as int) is None,
        },
{
    let mut out: Vec<char> = Vec::new();
    let mut j = i;
    proof {
        let ghost r0 = spec_parse_string_body(s@, i as int);
        match r0 {
            Some(p) => {
                assert(Seq::<char>::empty() + p.0 =~= p.0);
            },
            None => {},
        }
    }
    loop
        invariant
            i <= j <= s@.len(),
            spec_parse_string_body(s@, i as int) == prefixed(
                out@,
                spec_parse_string_body(s@, j as int),
            ),
        decreases s@.len() - j,
    {
        if j >= s.len() {
            return None;
        }
        let c = s[j];
        if c == '"' {
            proof {
                assert(out@ + Seq::<char>::empty() =~= out@);
            }
            return Some((out, j + 1));
        }
        if c == '\\' {
            if j + 1 >= s.len() {
                return None;
            }
            let e = s[j + 1];
            if e == 'u' {
                if s.len() - j < 6 {
                    return None;
                }
                let d0 = match hex_val(s[j + 2]) {
                    Some(d) => d,
                    None => {
                        return None;
                    },
                };
                let d1 = match hex_val(s[j + 3]) {
                    Some(d) => d,
                    None => {
                        return None;
                    },
                };
                let d2 = match hex_val(s[j + 4]) {
                    Some(d) => d,
                    None => {
                        return None;
                    },
                };
                let d3 = match hex_val(s[j + 5]) {
                    Some(d) => d,
                    None => {
                        return None;
                    },
                };
                let v = d0 * 4096 + d1 * 256 + d2 * 16 + d3;
                if v >= 128 {
                    return None;
                }
                proof {
                    lemma_prefixed_assoc(
                        out@,
                        seq![(v as u8) as char],
                        spec_parse_string_body(s@, j + 6),
                    );
                }
                out.push((v as u8) as char);
                j = j + 6;
            } else {
                let u = match simple_unescape(e) {
                    Some(c2) => c2,
                    None => {
                        return None;
                    },
                };
                proof {
                    lemma_prefixed_assoc(out@, seq![u], spec_parse_string_body(s@, j + 2));
                }
                out.push(u);
                j = j + 2;
            }
        } else if (c as u32) >= 32 {
            proof {
                lemma_prefixed_assoc(out@, seq![c], spec_parse_string_body(s@, j + 1));
            }
            out.push(c);
            j = j + 1;
        } else {
            return None;
        }
    }
}

/// Parses one `"key" : "value"` member starting at `i`.
fn parse_member(s: &Vec<char>, i: usize) -> (r: Option<(Vec<char>, Vec<char>, usize)>)
    requires
        i <= s@.len(),
    ensures
        match r {
            Some(m) => spec_parse_member(s@, i as int) == Some((m.0@, m.1@, m.2 as int)) && m.2
                <= s@.len(),
            None => spec_parse_member(s@, i as int) is None,
        },
{
    let j = skip_ws(s, i);
    if j >= s.len() {
        return None;
    }
    if s[j] != '"' {
        return None;
    }
    let (key, j2) = match parse_string_body(s, j + 1) {
        Some(p) => p,
        None => {
            return None;
        },
    };
    let j3 = skip_ws(s, j2);
    if j3 >= s.len() {
        return None;
    }
    if s[j3] != ':' {
        return None;
    }
    let j4 = skip_ws(s, j3 + 1);
    if j4 >= s.len() {
        return None;
    }
    if s[j4] != '"' {
        return None;
    }
    let (val, j5) = match parse_string_body(s, j4 + 1) {
        Some(p) => p,
        None => {
            return None;
        },
    };
    Some((key, val, j5))
}

/// Decides whether the parsed key is exactly `action`.
fn is_action_key(k: &Vec<char>) -> (r: bool)
    ensures
        r == (k@ == "action"@),
{
    proof {
        reveal_strlit("action");
    }
    if k.len() != 6 {
        return false;
    }
    let eq = k[0] == 'a' && k[1] == 'c' && k[2] == 't' && k[3] == 'i' && k[4] == 'o' && k[5] == 'n';
    proof {
        if eq {
            assert(k@ =~= "action"@);
        }
    }
    eq
}

/// Decides whether the parsed key is exactly `url`.
fn is_url_key(k: &Vec<char>) -> (r: bool)
    ensures
        r == (k@ == "url"@),
{
    proof {
        reveal_strlit("url");
    }
    if k.len() != 3 {
        return false;
    }
    let eq = k[0] == 'u' && k[1] == 'r' && k[2] == 'l';
    proof {
        if eq {
            assert(k@ =~= "url"@);
        }
    }
    eq
}

/// Parses a whole request payload into its action and URL contents.
pub fn parse_request(s: &Vec<char>) -> (r: Option<(Vec<char>, Vec<char>)>)
    ensures
        match r {
            Some(p) => spec_parse_request(s@) == Some((p.0@, p.1@)),
            None => spec_parse_request(s@) is None,
        },
{
    let i0 = skip_ws(s, 0);
    if i0 >= s.len() {
        return None;
    }
    if s[i0] != '{' {
        return None;
    }
    let (k1, v1, i1) = match parse_member(s, i0 + 1) {
        Some(m) => m,
        None => {
            return None;
        },
    };
    let j = skip_ws(s, i1);
    if j >= s.len() {
        return None;
    }
    if s[j] != ',' {
        return None;
    }
    let (k2, v2, i2) = match parse_member(s, j + 1) {
        Some(m) => m,
        None => {
            return None;
        },
    };
    let e = skip_ws(s, i2);
    if e >= s.len() {
        return None;
    }
    if s[e] != '}' {
        return None;
    }
    let tail = skip_ws(s, e + 1);
    if tail != s.len() {
        return None;
    }
    if is_action_key(&k1) && is_url_key(&k2) {
        Some((v1, v2))
    } else if is_url_key(&k1) && is_action_key(&k2) {
        Some((v2, v1))
    } else {
        None
    }
}

/// A character that the writer passes through unescaped.
pub open spec fn plain_char(c: char) -> bool {
    (c as u32) >= 32 && (c as u32) != 34 && (c as u32) != 92
}

/// Hex digits produced by the writer read back as their value.
proof fn lemma_hex_digit_val(v: u32)
    requires
        v < 16,
    ensures
        spec_hex_val(spec_hex_digit(v)) == Some(v),
{
}

/// A string of plain characters is its own escaped form.
proof fn lemma_escape_plain(k: Seq<char>)
    requires
        forall|t: int| 0 <= t < k.len() ==> plain_char(#[trigger] k[t]),
    ensures
        escape_string(k) == k,
    decreases k.len(),
{
    if k.len() == 0 {
        assert(escape_string(k) =~= k);
    } else {
        lemma_escape_plain(k.skip(1));
        assert(escape_char(k[0]) == seq![k[0]]);
        assert(escape_string(k) =~= k);
    }
}

/// Law: an escaped string followed by a closing quote parses back to exactly
/// the original content, ending just after the quote.
pub proof fn lemma_parse_escape_string(k: Seq<char>, s: Seq<char>, i: int)
    requires
        0 <= i,
        i + escape_string(k).len() + 1 <= s.len(),
        s.subrange(i, i + escape_string(k).len() as int) == escape_string(k),
        s[i + escape_string(k).len() as int] == '"',
    ensures
        spec_parse_string_body(s, i) == Some((k, i + escape_string(k).len() + 1)),
    decreases k.len(),
{
    let ek = escape_string(k);
    if k.len() == 0 {
        assert(s[i] == '"');
    } else {
        let c = k[0];
        let v = c as u32;
        vstd::utf8::char_u32_cast(c, v);
        let e0 = escape_char(c);
        let rest = escape_string(k.skip(1));
        assert(ek == e0 + rest);
        let i2 = i + e0.len();
        assert(forall|t: int| 0 <= t < ek.len() ==> s[i + t] == #[trigger] ek[t]) by {
            assert(forall|t: int| 0 <= t < ek.len() ==> #[trigger] s.subrange(
                i,
                i + ek.len() as int,
            )[t] == s[i + t]);
        }
        assert(e0.len() >= 1 && ek.len() == e0.len() + rest.len());
        assert(forall|t: int| 0 <= t < e0.len() ==> s[i + t] == #[trigger] e0[t]) by {
            assert(forall|t: int| 0 <= t < e0.len() ==> ek[t] == #[trigger] e0[t]);
        }
        assert forall|t: int| 0 <= t < rest.len() implies s[i2 + t] == rest[t] by {
            assert(ek[e0.len() + t] == rest[t]);
        }
        assert(s.subrange(i2, i2 + rest.len() as int) =~= rest);
        assert(s[i2 + rest.len()] == '"');
        lemma_parse_escape_string(k.skip(1), s, i2);
        assert(spec_parse_string_body(s, i2) == Some((k.skip(1), i2 + rest.len() + 1)));
        if v == 34 || v == 92 || v == 8 || v == 9 || v == 10 || v == 12 || v == 13 {
            assert(e0[0] == '\\' && e0.len() == 2);
            assert(s[i] == '\\' && s[i + 1] == e0[1]);
            assert(spec_simple_unescape(s[i + 1]) == Some(c));
            assert(spec_parse_string_body(s, i) == Some((seq![c] + k.skip(1), i2 + rest.len() + 1)));
        } else if v < 32 {
            assert(e0 == seq!['\\', 'u', '0', '0', spec_hex_digit(v / 16), spec_hex_digit(v % 16)]);
            assert(e0[0] == '\\' && e0[1] == 'u' && e0[2] == '0' && e0[3] == '0' && e0[4]
                == spec_hex_digit(v / 16) && e0[5] == spec_hex_digit(v % 16));
            assert(s[i] == '\\' && s[i + 1] == 'u' && s[i + 2] == '0' && s[i + 3] == '0');
            assert(s[i + 4] == spec_hex_digit(v / 16) && s[i + 5] == spec_hex_digit(v % 16));
            lemma_hex_digit_val(v / 16);
            lemma_hex_digit_val(v % 16);
            assert(spec_hex_val(s[i + 2]) == Some(0u32) && spec_hex_val(s[i + 3]) == Some(0u32));
            assert(0 * 4096 + 0 * 256 + (v / 16) * 16 + v % 16 == v);
            let b = v as u8;
            assert(b as u32 == v);
            vstd::utf8::char_u32_cast(b as char, b as u32);
            assert((v as u8) as char == c);
            assert(spec_parse_string_body(s, i) == Some((seq![c] + k.skip(1), i2 + rest.len() + 1)));
        } else {
            assert(e0 == seq![c] && e0[0] == c);
            assert(s[i] == c);
            assert(spec_parse_string_body(s, i) == Some((seq![c] + k.skip(1), i2 + rest.len() + 1)));
        }
        assert(seq![c] + k.skip(1) =~= k);
    }
}

/// Law: the canonical JSON of any request parses back to exactly its action
/// and URL.  Together with the framing codec's contracts this makes
/// write-then-read the identity on requests.
#[verifier::rlimit(100)]
pub proof fn lemma_request_json_round_trip(action: Seq<char>, url: Seq<char>)
    ensures
        spec_parse_request(spec_request_json(action, url)) == Some((action, url)),
{
    reveal_strlit("action");
    reveal_strlit("url");
    let s = spec_request_json(action, url);
    let ea = escape_string(action);
    let eu = escape_string(url);
    let la = ea.len() as int;
    let lu = eu.len() as int;
    let open = request_json_open();
    let mid = request_json_mid();
    let close = request_json_close();
    assert(s.len() == 22 + la + lu);
    assert(forall|t: int| 0 <= t < 11 ==> s[t] == #[trigger] open[t]);
    assert(forall|t: int| 0 <= t < la ==> s[11 + t] == #[trigger] ea[t]);
    assert(forall|t: int| 0 <= t < 9 ==> s[11 + la + t] == #[trigger] mid[t]);
    assert(forall|t: int| 0 <= t < lu ==> s[20 + la + t] == #[trigger] eu[t]);
    assert(forall|t: int| 0 <= t < 2 ==> s[20 + la + lu + t] == #[trigger] close[t]);
    assert(s[0] == '{' && s[1] == '"' && s[8] == '"' && s[9] == ':' && s[10] == '"');
    assert(s[11 + la] == '"' && s[12 + la] == ',' && s[13 + la] == '"');
    assert(s[17 + la] == '"' && s[18 + la] == ':' && s[19 + la] == '"');
    assert(s[20 + la + lu] == '"' && s[21 + la + lu] == '}');
    // the first member: key `action`, then the escaped action value
    assert(forall|t: int| 0 <= t < "action"@.len() ==> plain_char(#[trigger] "action"@[t]));
    lemma_escape_plain("action"@);
    assert(s.subrange(2, 8) =~= "action"@);
    lemma_parse_escape_string("action"@, s, 2);
    assert(spec_parse_string_body(s, 2) == Some(("action"@, 9int)));
    assert(s.subrange(11, 11 + la) =~= ea);
    lemma_parse_escape_string(action, s, 11);
    assert(spec_parse_string_body(s, 11) == Some((action, 12 + la)));
    assert(spec_skip_ws(s, 1) == 1 && spec_skip_ws(s, 9) == 9 && spec_skip_ws(s, 10) == 10);
    assert(spec_parse_member(s, 1) == Some(("action"@, action, 12 + la)));
    // the second member: key `url`, then the escaped url value
    assert(forall|t: int| 0 <= t < "url"@.len() ==> plain_char(#[trigger] "url"@[t]));
    lemma_escape_plain("url"@);
    assert(s.subrange(14 + la, 17 + la) =~= "url"@);
    lemma_parse_escape_string("url"@, s, 14 + la);
    assert(spec_parse_string_body(s, 14 + la) == Some(("url"@, (18 + la) as int)));
    assert(s.subrange(20 + la, 20 + la + lu) =~= eu);
    lemma_parse_escape_string(url, s, 20 + la);
    assert(spec_parse_string_body(s, 20 + la) == Some((url, 21 + la + lu)));
    assert(spec_skip_ws(s, 13 + la) == 13 + la && spec_skip_ws(s, 18 + la) == 18 + la
        && spec_skip_ws(s, 19 + la) == 19 + la);
    assert(spec_parse_member(s, 13 + la) == Some(("url"@, url, 21 + la + lu)));
    // the object around them
    assert(spec_skip_ws(s, 0) == 0 && spec_skip_ws(s, 12 + la) == 12 + la && spec_skip_ws(
        s,
        21 + la + lu,
    ) == 21 + la + lu);
    assert(spec_skip_ws(s, 22 + la + lu) == s.len());
    assert(spec_request_fields("action"@, action, "url"@, url) == Some((action, url)));
    assert(spec_parse_request(s) == Some((action, url)));
}

} // verus!
