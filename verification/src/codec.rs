//! Canonical JSON encoding of the sign-up payload, and the parser that
//! undoes it.  The payload is the single wire artifact this service emits:
//! `{"mint":M,"username":U,"relays":[R1,...]}` with JSON string escaping
//! as serde_json writes it: `\"` and `\\`, the five shorthand escapes
//! for backspace, tab, newline, form feed and carriage return, and
//! `\u00..` for the other control characters.  Everything else passes
//! through verbatim, and the round trip holds for every string.

use vstd::prelude::*;

use crate::app::UserSignUp;
use crate::app::UserSignUpV;

verus! {

/// True for the control characters, which JSON cannot hold raw.
pub open spec fn is_control(c: char) -> bool {
    (c as u32) < 0x20
}

/// True for the characters that the encoder must escape inside a JSON
/// string literal.
pub open spec fn needs_escape(c: char) -> bool {
    c == '"' || c == '\\' || is_control(c)
}

/// The five control characters with a two-character shorthand escape.
pub open spec fn has_short_escape(c: char) -> bool {
    c == '\u{8}' || c == '\t' || c == '\n' || c == '\u{c}' || c == '\r'
}

/// The code letter of a shorthand escape.
pub open spec fn short_code(c: char) -> char {
    if c == '\u{8}' {
        'b'
    } else if c == '\t' {
        't'
    } else if c == '\n' {
        'n'
    } else if c == '\u{c}' {
        'f'
    } else {
        'r'
    }
}

/// The control character a shorthand code letter stands for.
pub open spec fn short_char(code: char) -> char {
    if code == 'b' {
        '\u{8}'
    } else if code == 't' {
        '\t'
    } else if code == 'n' {
        '\n'
    } else if code == 'f' {
        '\u{c}'
    } else {
        '\r'
    }
}

/// The lowercase hex digit of a value below 16.
pub open spec fn hex_digit(n: int) -> char {
    if n == 0 {
        '0'
    } else if n == 1 {
        '1'
    } else if n == 2 {
        '2'
    } else if n == 3 {
        '3'
    } else if n == 4 {
        '4'
    } else if n == 5 {
        '5'
    } else if n == 6 {
        '6'
    } else if n == 7 {
        '7'
    } else if n == 8 {
        '8'
    } else if n == 9 {
        '9'
    } else if n == 10 {
        'a'
    } else if n == 11 {
        'b'
    } else if n == 12 {
        'c'
    } else if n == 13 {
        'd'
    } else if n == 14 {
        'e'
    } else {
        'f'
    }
}

/// The value of a lowercase hex digit; 16 for any other character.
pub open spec fn hex_val(c: char) -> int {
    if c == '0' {
        0
    } else if c == '1' {
        1
    } else if c == '2' {
        2
    } else if c == '3' {
        3
    } else if c == '4' {
        4
    } else if c == '5' {
        5
    } else if c == '6' {
        6
    } else if c == '7' {
        7
    } else if c == '8' {
        8
    } else if c == '9' {
        9
    } else if c == 'a' {
        10
    } else if c == 'b' {
        11
    } else if c == 'c' {
        12
    } else if c == 'd' {
        13
    } else if c == 'e' {
        14
    } else if c == 'f' {
        15
    } else {
        16
    }
}

/// The control character with the given code, for codes below `0x20`.
pub open spec fn control_char(n: int) -> char {
    if n == 0 {
        '\u{0}'
    } else if n == 1 {
        '\u{1}'
    } else if n == 2 {
        '\u{2}'
    } else if n == 3 {
        '\u{3}'
    } else if n == 4 {
        '\u{4}'
    } else if n == 5 {
        '\u{5}'
    } else if n == 6 {
        '\u{6}'
    } else if n == 7 {
        '\u{7}'
    } else if n == 8 {
        '\u{8}'
    } else if n == 9 {
        '\u{9}'
    } else if n == 10 {
        '\u{a}'
    } else if n == 11 {
        '\u{b}'
    } else if n == 12 {
        '\u{c}'
    } else if n == 13 {
        '\u{d}'
    } else if n == 14 {
        '\u{e}'
    } else if n == 15 {
        '\u{f}'
    } else if n == 16 {
        '\u{10}'
    } else if n == 17 {
        '\u{11}'
    } else if n == 18 {
        '\u{12}'
    } else if n == 19 {
        '\u{13}'
    } else if n == 20 {
        '\u{14}'
    } else if n == 21 {
        '\u{15}'
    } else if n == 22 {
        '\u{16}'
    } else if n == 23 {
        '\u{17}'
    } else if n == 24 {
        '\u{18}'
    } else if n == 25 {
        '\u{19}'
    } else if n == 26 {
        '\u{1a}'
    } else if n == 27 {
        '\u{1b}'
    } else if n == 28 {
        '\u{1c}'
    } else if n == 29 {
        '\u{1d}'
    } else if n == 30 {
        '\u{1e}'
    } else {
        '\u{1f}'
    }
}

/// The encoding of one character inside a JSON string literal: quote and
/// backslash are backslash-escaped, five control characters use their
/// shorthand, the other control characters the `\u00` form, and
/// everything else stands for itself.
pub open spec fn esc_char(c: char) -> Seq<char> {
    if c == '"' || c == '\\' {
        seq!['\\', c]
    } else if has_short_escape(c) {
        seq!['\\', short_code(c)]
    } else if is_control(c) {
        seq!['\\', 'u', '0', '0', hex_digit((c as u32) as int / 16), hex_digit((c as u32) as int % 16)]
    } else {
        seq![c]
    }
}

/// The encoding of a whole string body (without the surrounding quotes).
pub open spec fn esc_seq(s: Seq<char>) -> Seq<char>
    decreases s.len(),
{
    if s.len() == 0 {
        Seq::empty()
    } else {
        esc_char(s[0]) + esc_seq(s.drop_first())
    }
}

/// A quoted JSON string literal.
pub open spec fn jstr(s: Seq<char>) -> Seq<char> {
    seq!['"'] + esc_seq(s) + seq!['"']
}

/// The relay array elements after the first: `,"r1","r2",...`.
pub open spec fn ser_relays_rest(rs: Seq<Seq<char>>) -> Seq<char>
    decreases rs.len(),
{
    if rs.len() == 0 {
        Seq::empty()
    } else {
        seq![','] + jstr(rs[0]) + ser_relays_rest(rs.drop_first())
    }
}

/// The comma-separated relay array body (without the brackets).
pub open spec fn ser_relays(rs: Seq<Seq<char>>) -> Seq<char> {
    if rs.len() == 0 {
        Seq::empty()
    } else {
        jstr(rs[0]) + ser_relays_rest(rs.drop_first())
    }
}

/// `{"mint":"` — the object head up to and including the opening quote of
/// the mint value.
pub open spec fn lit_head() -> Seq<char> {
    seq!['{', '"', 'm', 'i', 'n', 't', '"', ':', '"']
}

/// `,"username":"` — between the mint value's closing quote and the
/// username value.
pub open spec fn lit_username() -> Seq<char> {
    seq![',', '"', 'u', 's', 'e', 'r', 'n', 'a', 'm', 'e', '"', ':', '"']
}

/// `,"relays":[` — between the username value's closing quote and the
/// relay array.
pub open spec fn lit_relays() -> Seq<char> {
    seq![',', '"', 'r', 'e', 'l', 'a', 'y', 's', '"', ':', '[']
}

/// `]}` — after the relay array body.
pub open spec fn lit_tail() -> Seq<char> {
    seq![']', '}']
}

/// The canonical serialization of a sign-up payload.
pub open spec fn spec_serialize(u: UserSignUpV) -> Seq<char> {
    lit_head() + esc_seq(u.mint) + seq!['"'] + lit_username() + esc_seq(u.username) + seq!['"']
        + lit_relays() + ser_relays(u.relays) + lit_tail()
}

/// Appending a character to a string appends its encoding to the string's
/// encoding.
pub proof fn lemma_esc_seq_push(s: Seq<char>, c: char)
    ensures
        esc_seq(s.push(c)) == esc_seq(s) + esc_char(c),
    decreases s.len(),
{
    if s.len() == 0 {
        assert(s.push(c)[0] == c);
        assert(s.push(c).drop_first() =~= Seq::<char>::empty());
        assert(esc_seq(Seq::<char>::empty()) =~= Seq::<char>::empty());
        assert(esc_seq(s.push(c)) =~= esc_char(c));
        assert(esc_seq(s) + esc_char(c) =~= esc_char(c));
    } else {
        assert(s.push(c)[0] == s[0]);
        assert(s.push(c).drop_first() =~= s.drop_first().push(c));
        lemma_esc_seq_push(s.drop_first(), c);
        assert(esc_seq(s.push(c)) =~= esc_seq(s) + esc_char(c));
    }
}

/// Appending a relay to the tail of the list appends `,"r"` to the tail's
/// encoding.
pub proof fn lemma_ser_relays_rest_push(rs: Seq<Seq<char>>, r: Seq<char>)
    ensures
        ser_relays_rest(rs.push(r)) == ser_relays_rest(rs) + seq![','] + jstr(r),
    decreases rs.len(),
{
    if rs.len() == 0 {
        assert(rs.push(r)[0] == r);
        assert(rs.push(r).drop_first() =~= Seq::<Seq<char>>::empty());
        assert(ser_relays_rest(Seq::<Seq<char>>::empty()) =~= Seq::<char>::empty());
        assert(ser_relays_rest(rs.push(r)) =~= ser_relays_rest(rs) + seq![','] + jstr(r));
    } else {
        assert(rs.push(r)[0] == rs[0]);
        assert(rs.push(r).drop_first() =~= rs.drop_first().push(r));
        lemma_ser_relays_rest_push(rs.drop_first(), r);
        assert(ser_relays_rest(rs.push(r)) =~= ser_relays_rest(rs) + seq![','] + jstr(r));
    }
}

/// Relies on `String::push`: appends the given character to the end of
/// the string.
#[verifier::external_body]
fn push_char(s: &mut String, c: char)
    ensures
        final(s)@ == old(s)@ + seq![c],
{
    s.push(c);
}

/// The characters of a string slice, in order.
pub fn str_to_chars(s: &str) -> (v: Vec<char>)
    ensures
        v@ == s@,
{
    broadcast use vstd::string::next_postcondition;
    broadcast use vstd::string::axiom_spec_iter;

    let mut it = s.chars();
    let mut v: Vec<char> = Vec::new();
    loop
        invariant
            vstd::std_specs::iter::IteratorSpec::remaining(&it) =~= s@.skip(v@.len() as int),
            v@.len() <= s@.len(),
            v@ =~= s@.take(v@.len() as int),
        ensures
            v@ == s@,
        decreases s@.len() - v@.len(),
    {
        match it.next() {
            Some(c) => {
                proof {
                    assert(s@.skip(v@.len() as int)[0] == s@[v@.len() as int]);
                }
                v.push(c);
                proof {
                    assert(s@.skip(v@.len() as int - 1).drop_first() =~= s@.skip(v@.len() as int));
                    assert(v@ =~= s@.take(v@.len() as int));
                }
            },
            None => {
                proof {
                    assert(s@.skip(v@.len() as int).len() == 0);
                    assert(v@.len() == s@.len());
                    assert(v@ =~= s@);
                }
                break ;
            },
        }
    }
    v
}

/// A `String` holding exactly the given characters.
pub fn chars_to_string(v: &Vec<char>) -> (s: String)
    ensures
        s@ == v@,
{
    let mut s = String::new();
    let mut i: usize = 0;
    while i < v.len()
        invariant
            i <= v@.len(),
            s@ =~= v@.take(i as int),
        decreases v@.len() - i,
    {
        push_char(&mut s, v[i]);
        i = i + 1;
        proof {
            assert(v@.take(i as int) =~= v@.take(i as int - 1).push(v@[i as int - 1]));
        }
    }
    proof {
        assert(v@.take(v@.len() as int) =~= v@);
    }
    s
}

/// Appends the characters of a literal to the output buffer.
fn append_str(out: &mut Vec<char>, lit: &str)
    ensures
        final(out)@ == old(out)@ + lit@,
{
    let chars = str_to_chars(lit);
    let mut i: usize = 0;
    while i < chars.len()
        invariant
            i <= chars@.len(),
            chars@ == lit@,
            out@ =~= old(out)@ + lit@.take(i as int),
        decreases chars@.len() - i,
    {
        out.push(chars[i]);
        i = i + 1;
        proof {
            assert(lit@.take(i as int) =~= lit@.take(i as int - 1).push(lit@[i as int - 1]));
            assert(out@ =~= old(out)@ + lit@.take(i as int));
        }
    }
    proof {
        assert(lit@.take(lit@.len() as int) =~= lit@);
    }
}

/// Exec mirror of `hex_digit`.
fn hex_digit_char(n: u32) -> (r: char)
    requires
        n < 16,
    ensures
        r == hex_digit(n as int),
{
    if n == 0 {
        '0'
    } else if n == 1 {
        '1'
    } else if n == 2 {
        '2'
    } else if n == 3 {
        '3'
    } else if n == 4 {
        '4'
    } else if n == 5 {
        '5'
    } else if n == 6 {
        '6'
    } else if n == 7 {
        '7'
    } else if n == 8 {
        '8'
    } else if n == 9 {
        '9'
    } else if n == 10 {
        'a'
    } else if n == 11 {
        'b'
    } else if n == 12 {
        'c'
    } else if n == 13 {
        'd'
    } else if n == 14 {
        'e'
    } else {
        'f'
    }
}

/// Exec mirror of `hex_val`.
fn hex_val_of(c: char) -> (r: u32)
    ensures
        r as int == hex_val(c),
{
    if c == '0' {
        0
    } else if c == '1' {
        1
    } else if c == '2' {
        2
    } else if c == '3' {
        3
    } else if c == '4' {
        4
    } else if c == '5' {
        5
    } else if c == '6' {
        6
    } else if c == '7' {
        7
    } else if c == '8' {
        8
    } else if c == '9' {
        9
    } else if c == 'a' {
        10
    } else if c == 'b' {
        11
    } else if c == 'c' {
        12
    } else if c == 'd' {
        13
    } else if c == 'e' {
        14
    } else if c == 'f' {
        15
    } else {
        16
    }
}

/// Exec mirror of `control_char`.
fn control_char_of(n: u32) -> (r: char)
    requires
        n < 32,
    ensures
        r == control_char(n as int),
{
    if n == 0 {
        '\u{0}'
    } else if n == 1 {
        '\u{1}'
    } else if n == 2 {
        '\u{2}'
    } else if n == 3 {
        '\u{3}'
    } else if n == 4 {
        '\u{4}'
    } else if n == 5 {
        '\u{5}'
    } else if n == 6 {
        '\u{6}'
    } else if n == 7 {
        '\u{7}'
    } else if n == 8 {
        '\u{8}'
    } else if n == 9 {
        '\u{9}'
    } else if n == 10 {
        '\u{a}'
    } else if n == 11 {
        '\u{b}'
    } else if n == 12 {
        '\u{c}'
    } else if n == 13 {
        '\u{d}'
    } else if n == 14 {
        '\u{e}'
    } else if n == 15 {
        '\u{f}'
    } else if n == 16 {
        '\u{10}'
    } else if n == 17 {
        '\u{11}'
    } else if n == 18 {
        '\u{12}'
    } else if n == 19 {
        '\u{13}'
    } else if n == 20 {
        '\u{14}'
    } else if n == 21 {
        '\u{15}'
    } else if n == 22 {
        '\u{16}'
    } else if n == 23 {
        '\u{17}'
    } else if n == 24 {
        '\u{18}'
    } else if n == 25 {
        '\u{19}'
    } else if n == 26 {
        '\u{1a}'
    } else if n == 27 {
        '\u{1b}'
    } else if n == 28 {
        '\u{1c}'
    } else if n == 29 {
        '\u{1d}'
    } else if n == 30 {
        '\u{1e}'
    } else {
        '\u{1f}'
    }
}

/// Appends the escaped body of a string value to the output buffer.
fn append_escaped(out: &mut Vec<char>, s: &str)
    ensures
        final(out)@ == old(out)@ + esc_seq(s@),
{
    let chars = str_to_chars(s);
    let mut i: usize = 0;
    proof {
        assert(esc_seq(s@.take(0)) =~= Seq::<char>::empty());
        assert(out@ =~= old(out)@ + esc_seq(s@.take(0)));
    }
    while i < chars.len()
        invariant
            i <= chars@.len(),
            chars@ == s@,
            out@ =~= old(out)@ + esc_seq(s@.take(i as int)),
        decreases chars@.len() - i,
    {
        let c = chars[i];
        if c == '"' || c == '\\' {
            out.push('\\');
            out.push(c);
        } else if c == '\u{8}' {
            out.push('\\');
            out.push('b');
        } else if c == '\t' {
            out.push('\\');
            out.push('t');
        } else if c == '\n' {
            out.push('\\');
            out.push('n');
        } else if c == '\u{c}' {
            out.push('\\');
            out.push('f');
        } else if c == '\r' {
            out.push('\\');
            out.push('r');
        } else if (c as u32) < 0x20 {
            out.push('\\');
            out.push('u');
            out.push('0');
            out.push('0');
            let code: u32 = c as u32;
            out.push(hex_digit_char(code / 16));
            out.push(hex_digit_char(code % 16));
            proof {
                assert(out@ =~= old(out)@ + esc_seq(s@.take(i as int)) + esc_char(c));
            }
        } else {
            out.push(c);
        }
        i = i + 1;
        proof {
            assert(s@.take(i as int) =~= s@.take(i as int - 1).push(s@[i as int - 1]));
            lemma_esc_seq_push(s@.take(i as int - 1), s@[i as int - 1]);
            assert(out@ =~= old(out)@ + esc_seq(s@.take(i as int)));
        }
    }
    proof {
        assert(s@.take(s@.len() as int) =~= s@);
    }
}

/// Exec mirror of `needs_escape`.
pub fn is_escape_char(c: char) -> (r: bool)
    ensures
        r == needs_escape(c),
{
    c == '"' || c == '\\' || (c as u32) < 0x20
}

/// Serializes a sign-up payload to its canonical JSON string.
pub fn serialize_user_signup(u: &UserSignUp) -> (r: String)
    ensures
        r@ == spec_serialize(u@),
{
    let mut out: Vec<char> = Vec::new();
    append_str(&mut out, "{\"mint\":\"");
    proof {
        reveal_strlit("{\"mint\":\"");
        assert(("{\"mint\":\"")@ =~= lit_head());
    }
    append_escaped(&mut out, u.mint.as_str());
    append_str(&mut out, "\",\"username\":\"");
    proof {
        reveal_strlit("\",\"username\":\"");
        assert(("\",\"username\":\"")@ =~= seq!['"'] + lit_username());
    }
    append_escaped(&mut out, u.username.as_str());
    append_str(&mut out, "\",\"relays\":[");
    proof {
        reveal_strlit("\",\"relays\":[");
        assert(("\",\"relays\":[")@ =~= seq!['"'] + lit_relays());
    }
    let ghost base: Seq<char> = out@;
    let mut i: usize = 0;
    while i < u.relays.len()
        invariant
            i <= u.relays@.len(),
            u.relays.deep_view() == u@.relays,
            i == 0 ==> out@ =~= base,
            i > 0 ==> out@ =~= base + jstr(u@.relays[0]) + ser_relays_rest(
                u@.relays.subrange(1, i as int),
            ),
        decreases u.relays@.len() - i,
    {
        if i > 0 {
            out.push(',');
        }
        out.push('"');
        append_escaped(&mut out, u.relays[i].as_str());
        out.push('"');
        proof {
            assert(u.relays[i as int]@ == u@.relays[i as int]);
        }
        i = i + 1;
        proof {
            if i == 1 {
                assert(out@ =~= base + jstr(u@.relays[0]) + ser_relays_rest(
                    u@.relays.subrange(1, 1),
                ));
            } else {
                assert(u@.relays.subrange(1, i as int) =~= u@.relays.subrange(
                    1,
                    i as int - 1,
                ).push(u@.relays[i as int - 1]));
                lemma_ser_relays_rest_push(
                    u@.relays.subrange(1, i as int - 1),
                    u@.relays[i as int - 1],
                );
                assert(out@ =~= base + jstr(u@.relays[0]) + ser_relays_rest(
                    u@.relays.subrange(1, i as int),
                ));
            }
        }
    }
    proof {
        if u@.relays.len() == 0 {
            assert(ser_relays(u@.relays) =~= Seq::<char>::empty());
            assert(out@ =~= base + ser_relays(u@.relays));
        } else {
            assert(u@.relays.subrange(1, u@.relays.len() as int) =~= u@.relays.drop_first());
            assert(out@ =~= base + ser_relays(u@.relays));
        }
    }
    append_str(&mut out, "]}");
    proof {
        reveal_strlit("]}");
        assert(("]}")@ =~= lit_tail());
        assert(out@ =~= spec_serialize(u@));
    }
    chars_to_string(&out)
}

/// Result of parsing one JSON string body: the decoded characters and the
/// index just past the closing quote.
pub ghost struct ParsedStr {
    /// The decoded string value.
    pub s: Seq<char>,
    /// Index of the first character after the closing quote.
    pub end: int,
}

/// Result of parsing the relay array: the decoded relay list and the index
/// just past the closing bracket.
pub ghost struct ParsedRelays {
    /// The decoded relay URLs, in order.
    pub rs: Seq<Seq<char>>,
    /// Index of the first character after `]`.
    pub end: int,
}

/// True for the control codes the encoder writes in `\u00..` form: below
/// `0x20` and without a shorthand escape.
pub open spec fn is_plain_u_code(n: int) -> bool {
    0 <= n < 32 && n != 8 && n != 9 && n != 10 && n != 12 && n != 13
}

/// Parses a JSON string body starting just after the opening quote;
/// understands exactly the escapes the encoder emits and rejects raw
/// control characters.
pub open spec fn spec_parse_jstring(v: Seq<char>, i: int) -> Option<ParsedStr>
    decreases v.len() - i,
{
    if i < 0 || i >= v.len() {
        None
    } else if v[i] == '"' {
        Some(ParsedStr { s: Seq::empty(), end: i + 1 })
    } else if v[i] == '\\' {
        if i + 1 < v.len() && (v[i + 1] == '"' || v[i + 1] == '\\') {
            match spec_parse_jstring(v, i + 2) {
                Some(p) => Some(ParsedStr { s: seq![v[i + 1]] + p.s, end: p.end }),
                None => None,
            }
        } else if i + 1 < v.len() && (v[i + 1] == 'b' || v[i + 1] == 't' || v[i + 1] == 'n' || v[i
            + 1] == 'f' || v[i + 1] == 'r') {
            match spec_parse_jstring(v, i + 2) {
                Some(p) => Some(ParsedStr { s: seq![short_char(v[i + 1])] + p.s, end: p.end }),
                None => None,
            }
        } else if i + 5 < v.len() && v[i + 1] == 'u' && v[i + 2] == '0' && v[i + 3] == '0'
            && hex_val(v[i + 4]) < 16 && hex_val(v[i + 5]) < 16 && is_plain_u_code(
            16 * hex_val(v[i + 4]) + hex_val(v[i + 5]),
        ) {
            match spec_parse_jstring(v, i + 6) {
                Some(p) => Some(
                    ParsedStr {
                        s: seq![control_char(16 * hex_val(v[i + 4]) + hex_val(v[i + 5]))] + p.s,
                        end: p.end,
                    },
                ),
                None => None,
            }
        } else {
            None
        }
    } else if !is_control(v[i]) {
        match spec_parse_jstring(v, i + 1) {
            Some(p) => Some(ParsedStr { s: seq![v[i]] + p.s, end: p.end }),
            None => None,
        }
    } else {
        None
    }
}

/// Parses the relay array after its first element: a `,`-led string or the
/// closing `]`.
pub open spec fn spec_parse_relays_rest(v: Seq<char>, i: int) -> Option<ParsedRelays>
    decreases v.len() - i,
{
    if i < 0 || i >= v.len() {
        None
    } else if v[i] == ']' {
        Some(ParsedRelays { rs: Seq::empty(), end: i + 1 })
    } else if i + 1 < v.len() && v[i] == ',' && v[i + 1] == '"' {
        match spec_parse_jstring(v, i + 2) {
            Some(p) => if i + 1 < p.end && p.end <= v.len() {
                match spec_parse_relays_rest(v, p.end) {
                    Some(q) => Some(ParsedRelays { rs: seq![p.s] + q.rs, end: q.end }),
                    None => None,
                }
            } else {
                None
            },
            None => None,
        }
    } else {
        None
    }
}

/// Parses the relay array body starting just after `[`.
pub open spec fn spec_parse_relays(v: Seq<char>, i: int) -> Option<ParsedRelays> {
    if i < 0 || i >= v.len() {
        None
    } else if v[i] == ']' {
        Some(ParsedRelays { rs: Seq::empty(), end: i + 1 })
    } else if v[i] == '"' {
        match spec_parse_jstring(v, i + 1) {
            Some(p) => if i < p.end && p.end <= v.len() {
                match spec_parse_relays_rest(v, p.end) {
                    Some(q) => Some(ParsedRelays { rs: seq![p.s] + q.rs, end: q.end }),
                    None => None,
                }
            } else {
                None
            },
            None => None,
        }
    } else {
        None
    }
}

/// Parses a whole serialized payload; accepts exactly the canonical
/// encoding.
pub open spec fn spec_parse_user(v: Seq<char>) -> Option<UserSignUpV> {
    if v.len() >= 9 && v.subrange(0, 9) == lit_head() {
        match spec_parse_jstring(v, 9) {
            Some(pm) => if pm.end + 13 <= v.len() && v.subrange(pm.end, pm.end + 13)
                == lit_username() {
                match spec_parse_jstring(v, pm.end + 13) {
                    Some(pu) => if pu.end + 11 <= v.len() && v.subrange(pu.end, pu.end + 11)
                        == lit_relays() {
                        match spec_parse_relays(v, pu.end + 11) {
                            Some(pr) => if pr.end + 1 == v.len() && v[pr.end] == '}' {
                                Some(
                                    UserSignUpV {
                                        mint: pm.s,
                                        username: pu.s,
                                        relays: pr.rs,
                                    },
                                )
                            } else {
                                None
                            },
                            None => None,
                        }
                    } else {
                        None
                    },
                    None => None,
                }
            } else {
                None
            },
            None => None,
        }
    } else {
        None
    }
}

/// True exactly when the literal occurs in `v` at position `i`.
fn lit_match(v: &Vec<char>, i: usize, lit: &str) -> (r: bool)
    requires
        i <= v@.len(),
    ensures
        r == (i as int + lit@.len() <= v@.len() && v@.subrange(i as int, i as int + lit@.len())
            == lit@),
{
    let l = str_to_chars(lit);
    if v.len() - i < l.len() {
        return false;
    }
    let mut k: usize = 0;
    while k < l.len()
        invariant
            k <= l@.len(),
            l@ == lit@,
            i as int + l@.len() <= v@.len(),
            forall|m: int| 0 <= m < k ==> v@[i as int + m] == l@[m],
        decreases l@.len() - k,
    {
        proof {
            assert(v.len() == v@.len());
            assert((i as int) + (k as int) < v@.len());
        }
        if v[i + k] != l[k] {
            proof {
                assert(v@[i as int + k as int] != lit@[k as int]);
                assert(v@.subrange(i as int, i as int + lit@.len()) != lit@);
            }
            return false;
        }
        k = k + 1;
    }
    proof {
        assert(v@.subrange(i as int, i as int + lit@.len()) =~= lit@);
    }
    true
}

/// Decodes a JSON string body starting just after the opening quote,
/// appending the decoded characters to `out`; returns the index just past
/// the closing quote.
pub fn parse_jstring(v: &Vec<char>, start: usize, out: &mut Vec<char>) -> (r: Option<usize>)
    requires
        start <= v@.len(),
    ensures
        (match spec_parse_jstring(v@, start as int) {
            Some(p) => r == Some(p.end as usize) && start as int + 1 <= p.end <= v@.len()
                && final(out)@ == old(out)@ + p.s,
            None => r is None,
        }),
{
    let mut j: usize = start;
    let ghost mut taken: Seq<char> = Seq::empty();
    proof {
        assert(out@ =~= old(out)@ + taken);
    }
    loop
        invariant
            start <= j <= v@.len(),
            out@ == old(out)@ + taken,
            spec_parse_jstring(v@, start as int) == (match spec_parse_jstring(v@, j as int) {
                Some(p) => Some(ParsedStr { s: taken + p.s, end: p.end }),
                None => None::<ParsedStr>,
            }),
        decreases v@.len() - j,
    {
        if j >= v.len() {
            return None;
        }
        let c = v[j];
        if c == '"' {
            proof {
                assert(taken + Seq::<char>::empty() =~= taken);
            }
            return Some(j + 1);
        }
        if c == '\\' {
            if j + 1 >= v.len() {
                return None;
            }
            let c2 = v[j + 1];
            if c2 == '"' || c2 == '\\' {
                out.push(c2);
                proof {
                    if spec_parse_jstring(v@, j as int + 2) is Some {
                        let p2 = spec_parse_jstring(v@, j as int + 2).unwrap();
                        assert(taken + (seq![c2] + p2.s) =~= (taken + seq![c2]) + p2.s);
                    }
                    taken = taken + seq![c2];
                }
                j = j + 2;
            } else if c2 == 'b' || c2 == 't' || c2 == 'n' || c2 == 'f' || c2 == 'r' {
                let dec: char = if c2 == 'b' {
                    '\u{8}'
                } else if c2 == 't' {
                    '\t'
                } else if c2 == 'n' {
                    '\n'
                } else if c2 == 'f' {
                    '\u{c}'
                } else {
                    '\r'
                };
                proof {
                    assert(dec == short_char(c2));
                }
                out.push(dec);
                proof {
                    if spec_parse_jstring(v@, j as int + 2) is Some {
                        let p2 = spec_parse_jstring(v@, j as int + 2).unwrap();
                        assert(taken + (seq![dec] + p2.s) =~= (taken + seq![dec]) + p2.s);
                    }
                    taken = taken + seq![dec];
                }
                j = j + 2;
            } else if c2 == 'u' {
                if v.len() - (j + 1) < 5 {
                    return None;
                }
                if v[j + 2] != '0' || v[j + 3] != '0' {
                    return None;
                }
                let h1 = hex_val_of(v[j + 4]);
                let h2 = hex_val_of(v[j + 5]);
                if h1 >= 16 || h2 >= 16 {
                    return None;
                }
                let n: u32 = 16 * h1 + h2;
                if n >= 32 || n == 8 || n == 9 || n == 10 || n == 12 || n == 13 {
                    return None;
                }
                let dec = control_char_of(n);
                proof {
                    assert(is_plain_u_code(
                        16 * hex_val(v@[j as int + 4]) + hex_val(v@[j as int + 5]),
                    ));
                    assert(dec == control_char(
                        16 * hex_val(v@[j as int + 4]) + hex_val(v@[j as int + 5]),
                    ));
                }
                out.push(dec);
                proof {
                    if spec_parse_jstring(v@, j as int + 6) is Some {
                        let p2 = spec_parse_jstring(v@, j as int + 6).unwrap();
                        assert(taken + (seq![dec] + p2.s) =~= (taken + seq![dec]) + p2.s);
                    }
                    taken = taken + seq![dec];
                }
                j = j + 6;
            } else {
                return None;
            }
        } else if (c as u32) < 0x20 {
            return None;
        } else {
            out.push(c);
            proof {
                if spec_parse_jstring(v@, j as int + 1) is Some {
                    let p2 = spec_parse_jstring(v@, j as int + 1).unwrap();
                    assert(taken + (seq![c] + p2.s) =~= (taken + seq![c]) + p2.s);
                }
                taken = taken + seq![c];
            }
            j = j + 1;
        }
    }
}

/// Decodes the relay array body starting just after `[`; returns the relay
/// list and the index just past `]`.
pub fn parse_relays(v: &Vec<char>, start: usize) -> (r: Option<(Vec<String>, usize)>)
    requires
        start <= v@.len(),
    ensures
        (match spec_parse_relays(v@, start as int) {
            Some(q) => r matches Some(pair) && pair.0.deep_view() == q.rs && pair.1 == q.end
                as usize && start as int <= q.end <= v@.len(),
            None => r is None,
        }),
{
    if start >= v.len() {
        return None;
    }
    if v[start] == ']' {
        let acc: Vec<String> = Vec::new();
        proof {
            assert(acc.deep_view() =~= Seq::<Seq<char>>::empty());
        }
        return Some((acc, start + 1));
    }
    if v[start] != '"' {
        return None;
    }
    let mut sbuf: Vec<char> = Vec::new();
    let first_end = match parse_jstring(v, start + 1, &mut sbuf) {
        Some(j) => j,
        None => {
            return None;
        },
    };
    let ghost p0 = spec_parse_jstring(v@, start as int + 1).unwrap();
    proof {
        assert(sbuf@ =~= p0.s);
    }
    let mut acc: Vec<String> = Vec::new();
    acc.push(chars_to_string(&sbuf));
    proof {
        assert(acc.deep_view() =~= seq![p0.s]);
    }
    let mut cur: usize = first_end;
    loop
        invariant
            start <= cur <= v@.len(),
            spec_parse_relays(v@, start as int) == (match spec_parse_relays_rest(
                v@,
                cur as int,
            ) {
                Some(qq) => Some(ParsedRelays { rs: acc.deep_view() + qq.rs, end: qq.end }),
                None => None::<ParsedRelays>,
            }),
        decreases v@.len() - cur,
    {
        if cur >= v.len() {
            return None;
        }
        if v[cur] == ']' {
            proof {
                assert(acc.deep_view() + Seq::<Seq<char>>::empty() =~= acc.deep_view());
            }
            return Some((acc, cur + 1));
        }
        if v[cur] != ',' {
            return None;
        }
        if cur + 1 >= v.len() {
            return None;
        }
        if v[cur + 1] != '"' {
            return None;
        }
        let mut sb: Vec<char> = Vec::new();
        match parse_jstring(v, cur + 2, &mut sb) {
            Some(j2) => {
                let ghost p2 = spec_parse_jstring(v@, cur as int + 2).unwrap();
                let ghost old_deep = acc.deep_view();
                acc.push(chars_to_string(&sb));
                proof {
                    assert(sb@ =~= p2.s);
                    assert(acc.deep_view() =~= old_deep.push(p2.s));
                    if spec_parse_relays_rest(v@, p2.end) is Some {
                        let qq2 = spec_parse_relays_rest(v@, p2.end).unwrap();
                        assert(old_deep + (seq![p2.s] + qq2.rs) =~= acc.deep_view() + qq2.rs);
                    }
                }
                cur = j2;
            },
            None => {
                return None;
            },
        }
    }
}

/// Parses a canonical payload string back into a [`UserSignUp`]; returns
/// `None` on anything but the canonical encoding.
pub fn parse_user_signup(s: &str) -> (r: Option<UserSignUp>)
    ensures
        (match spec_parse_user(s@) {
            Some(uv) => r matches Some(u) && u@ == uv,
            None => r is None,
        }),
{
    let v = str_to_chars(s);
    proof {
        reveal_strlit("{\"mint\":\"");
        assert(("{\"mint\":\"")@ =~= lit_head());
        reveal_strlit(",\"username\":\"");
        assert((",\"username\":\"")@ =~= lit_username());
        reveal_strlit(",\"relays\":[");
        assert((",\"relays\":[")@ =~= lit_relays());
    }
    if !lit_match(&v, 0, "{\"mint\":\"") {
        return None;
    }
    let mut mintb: Vec<char> = Vec::new();
    let j = match parse_jstring(&v, 9, &mut mintb) {
        Some(j) => j,
        None => {
            return None;
        },
    };
    if !lit_match(&v, j, ",\"username\":\"") {
        return None;
    }
    let mut userb: Vec<char> = Vec::new();
    let k = match parse_jstring(&v, j + 13, &mut userb) {
        Some(k) => k,
        None => {
            return None;
        },
    };
    if !lit_match(&v, k, ",\"relays\":[") {
        return None;
    }
    let rel = match parse_relays(&v, k + 11) {
        Some(p) => p,
        None => {
            return None;
        },
    };
    let relays = rel.0;
    let m = rel.1;
    if !(m < v.len() && m + 1 == v.len()) {
        return None;
    }
    if v[m] != '}' {
        return None;
    }
    let u = UserSignUp {
        mint: chars_to_string(&mintb),
        username: chars_to_string(&userb),
        relays,
    };
    proof {
        let uv = spec_parse_user(s@).unwrap();
        assert(u@.mint =~= uv.mint);
        assert(u@.username =~= uv.username);
        assert(u@.relays =~= uv.relays);
    }
    Some(u)
}

/// A character is determined by its code.
proof fn lemma_char_code(a: char, b: char)
    requires
        a as u32 == b as u32,
    ensures
        a == b,
{
}

/// Parsing the encoding of a string body followed by its closing quote
/// recovers the original string.
#[verifier::rlimit(60)]
pub proof fn lemma_parse_escaped(v: Seq<char>, i: int, s: Seq<char>)
    requires
        0 <= i,
        i + esc_seq(s).len() + 1 <= v.len(),
        v.subrange(i, i + esc_seq(s).len() + 1) == esc_seq(s) + seq!['"'],
    ensures
        spec_parse_jstring(v, i) == Some(ParsedStr { s, end: i + esc_seq(s).len() + 1 }),
    decreases s.len(),
{
    let e = esc_seq(s);
    let sub = v.subrange(i, i + e.len() + 1);
    if s.len() == 0 {
        assert(e =~= Seq::<char>::empty());
        assert(s =~= Seq::<char>::empty());
        assert(v[i] == sub[0]);
        assert(sub[0] == '"');
        assert(spec_parse_jstring(v, i) == Some(ParsedStr { s, end: i + 1 }));
    } else {
        let c = s[0];
        let s2 = s.drop_first();
        let e2 = esc_seq(s2);
        assert(e == esc_char(c) + e2);
        if c == '"' || c == '\\' {
            assert(esc_char(c) =~= seq!['\\', c]);
            assert(e.len() == 2 + e2.len());
            assert(v[i] == sub[0] && sub[0] == (e + seq!['"'])[0] && e[0] == '\\');
            assert(v[i + 1] == sub[1] && sub[1] == (e + seq!['"'])[1] && e[1] == c);
            assert(v.subrange(i + 2, i + 2 + e2.len() + 1) =~= e2 + seq!['"']) by {
                assert forall|m: int| 0 <= m < e2.len() + 1 implies v.subrange(
                    i + 2,
                    i + 2 + e2.len() + 1,
                )[m] == (e2 + seq!['"'])[m] by {
                    assert(v.subrange(i + 2, i + 2 + e2.len() + 1)[m] == v[i + 2 + m]);
                    assert(v[i + 2 + m] == sub[2 + m]);
                    assert(sub[2 + m] == (e + seq!['"'])[2 + m]);
                }
            }
            lemma_parse_escaped(v, i + 2, s2);
            assert(seq![v[i + 1]] + s2 =~= s);
            assert(spec_parse_jstring(v, i) == Some(ParsedStr { s, end: i + e.len() + 1 }));
        } else if has_short_escape(c) {
            let sc = short_code(c);
            assert(esc_char(c) =~= seq!['\\', sc]);
            assert(e.len() == 2 + e2.len());
            assert(v[i] == sub[0] && sub[0] == (e + seq!['"'])[0] && e[0] == '\\');
            assert(v[i + 1] == sub[1] && sub[1] == (e + seq!['"'])[1] && e[1] == sc);
            assert(sc == 'b' || sc == 't' || sc == 'n' || sc == 'f' || sc == 'r');
            assert(sc != '"' && sc != '\\');
            assert(short_char(sc) == c);
            assert(v.subrange(i + 2, i + 2 + e2.len() + 1) =~= e2 + seq!['"']) by {
                assert forall|m: int| 0 <= m < e2.len() + 1 implies v.subrange(
                    i + 2,
                    i + 2 + e2.len() + 1,
                )[m] == (e2 + seq!['"'])[m] by {
                    assert(v.subrange(i + 2, i + 2 + e2.len() + 1)[m] == v[i + 2 + m]);
                    assert(v[i + 2 + m] == sub[2 + m]);
                    assert(sub[2 + m] == (e + seq!['"'])[2 + m]);
                }
            }
            lemma_parse_escaped(v, i + 2, s2);
            assert(seq![short_char(v[i + 1])] + s2 =~= s);
            assert(spec_parse_jstring(v, i) == Some(ParsedStr { s, end: i + e.len() + 1 }));
        } else if is_control(c) {
            let n = (c as u32) as int;
            let q = n / 16;
            let rm = n % 16;
            assert(0 <= n < 32);
            assert(0 <= q < 2 && 0 <= rm < 16);
            assert(16 * q + rm == n);
            assert(esc_char(c) =~= seq!['\\', 'u', '0', '0', hex_digit(q), hex_digit(rm)]);
            assert(e.len() == 6 + e2.len());
            assert(v[i] == sub[0] && sub[0] == (e + seq!['"'])[0] && e[0] == '\\');
            assert(v[i + 1] == sub[1] && sub[1] == (e + seq!['"'])[1] && e[1] == 'u');
            assert(v[i + 2] == sub[2] && sub[2] == (e + seq!['"'])[2] && e[2] == '0');
            assert(v[i + 3] == sub[3] && sub[3] == (e + seq!['"'])[3] && e[3] == '0');
            assert(v[i + 4] == sub[4] && sub[4] == (e + seq!['"'])[4] && e[4] == hex_digit(q));
            assert(v[i + 5] == sub[5] && sub[5] == (e + seq!['"'])[5] && e[5] == hex_digit(rm));
            assert(hex_val(hex_digit(q)) == q);
            assert(hex_val(hex_digit(rm)) == rm);
            assert(!has_short_escape(c));
            assert(n != 8 && n != 9 && n != 10 && n != 12 && n != 13) by {
                if n == 8 {
                    lemma_char_code(c, '\u{8}');
                }
                if n == 9 {
                    lemma_char_code(c, '\t');
                }
                if n == 10 {
                    lemma_char_code(c, '\n');
                }
                if n == 12 {
                    lemma_char_code(c, '\u{c}');
                }
                if n == 13 {
                    lemma_char_code(c, '\r');
                }
            }
            assert(is_plain_u_code(16 * hex_val(v[i + 4]) + hex_val(v[i + 5])));
            assert(control_char(n) == c) by {
                if n == 0 {
                    lemma_char_code(c, '\u{0}');
                }
                if n == 1 {
                    lemma_char_code(c, '\u{1}');
                }
                if n == 2 {
                    lemma_char_code(c, '\u{2}');
                }
                if n == 3 {
                    lemma_char_code(c, '\u{3}');
                }
                if n == 4 {
                    lemma_char_code(c, '\u{4}');
                }
                if n == 5 {
                    lemma_char_code(c, '\u{5}');
                }
                if n == 6 {
                    lemma_char_code(c, '\u{6}');
                }
                if n == 7 {
                    lemma_char_code(c, '\u{7}');
                }
                if n == 8 {
                    lemma_char_code(c, '\u{8}');
                }
                if n == 9 {
                    lemma_char_code(c, '\u{9}');
                }
                if n == 10 {
                    lemma_char_code(c, '\u{a}');
                }
                if n == 11 {
                    lemma_char_code(c, '\u{b}');
                }
                if n == 12 {
                    lemma_char_code(c, '\u{c}');
                }
                if n == 13 {
                    lemma_char_code(c, '\u{d}');
                }
                if n == 14 {
                    lemma_char_code(c, '\u{e}');
                }
                if n == 15 {
                    lemma_char_code(c, '\u{f}');
                }
                if n == 16 {
                    lemma_char_code(c, '\u{10}');
                }
                if n == 17 {
                    lemma_char_code(c, '\u{11}');
                }
                if n == 18 {
                    lemma_char_code(c, '\u{12}');
                }
                if n == 19 {
                    lemma_char_code(c, '\u{13}');
                }
                if n == 20 {
                    lemma_char_code(c, '\u{14}');
                }
                if n == 21 {
                    lemma_char_code(c, '\u{15}');
                }
                if n == 22 {
                    lemma_char_code(c, '\u{16}');
                }
                if n == 23 {
                    lemma_char_code(c, '\u{17}');
                }
                if n == 24 {
                    lemma_char_code(c, '\u{18}');
                }
                if n == 25 {
                    lemma_char_code(c, '\u{19}');
                }
                if n == 26 {
                    lemma_char_code(c, '\u{1a}');
                }
                if n == 27 {
                    lemma_char_code(c, '\u{1b}');
                }
                if n == 28 {
                    lemma_char_code(c, '\u{1c}');
                }
                if n == 29 {
                    lemma_char_code(c, '\u{1d}');
                }
                if n == 30 {
                    lemma_char_code(c, '\u{1e}');
                }
                if n == 31 {
                    lemma_char_code(c, '\u{1f}');
                }
            }
            assert(v.subrange(i + 6, i + 6 + e2.len() + 1) =~= e2 + seq!['"']) by {
                assert forall|m: int| 0 <= m < e2.len() + 1 implies v.subrange(
                    i + 6,
                    i + 6 + e2.len() + 1,
                )[m] == (e2 + seq!['"'])[m] by {
                    assert(v.subrange(i + 6, i + 6 + e2.len() + 1)[m] == v[i + 6 + m]);
                    assert(v[i + 6 + m] == sub[6 + m]);
                    assert(sub[6 + m] == (e + seq!['"'])[6 + m]);
                }
            }
            lemma_parse_escaped(v, i + 6, s2);
            assert(seq![control_char(16 * hex_val(v[i + 4]) + hex_val(v[i + 5]))] + s2 =~= s);
            assert(spec_parse_jstring(v, i) == Some(ParsedStr { s, end: i + e.len() + 1 }));
        } else {
            assert(esc_char(c) =~= seq![c]);
            assert(e.len() == 1 + e2.len());
            assert(v[i] == sub[0] && sub[0] == (e + seq!['"'])[0] && e[0] == c);
            assert(c != '"' && c != '\\' && !is_control(c));
            assert(v.subrange(i + 1, i + 1 + e2.len() + 1) =~= e2 + seq!['"']) by {
                assert forall|m: int| 0 <= m < e2.len() + 1 implies v.subrange(
                    i + 1,
                    i + 1 + e2.len() + 1,
                )[m] == (e2 + seq!['"'])[m] by {
                    assert(v.subrange(i + 1, i + 1 + e2.len() + 1)[m] == v[i + 1 + m]);
                    assert(v[i + 1 + m] == sub[1 + m]);
                    assert(sub[1 + m] == (e + seq!['"'])[1 + m]);
                }
            }
            lemma_parse_escaped(v, i + 1, s2);
            assert(seq![v[i]] + s2 =~= s);
            assert(spec_parse_jstring(v, i) == Some(ParsedStr { s, end: i + e.len() + 1 }));
        }
    }
}

/// Parsing the encoding of the relay-array tail followed by `]` recovers
/// the tail.
pub proof fn lemma_parse_ser_relays_rest(v: Seq<char>, i: int, rs: Seq<Seq<char>>)
    requires
        0 <= i,
        i + ser_relays_rest(rs).len() + 1 <= v.len(),
        v.subrange(i, i + ser_relays_rest(rs).len() + 1) == ser_relays_rest(rs) + seq![']'],
    ensures
        spec_parse_relays_rest(v, i) == Some(
            ParsedRelays { rs, end: i + ser_relays_rest(rs).len() + 1 },
        ),
    decreases rs.len(),
{
    let t = ser_relays_rest(rs);
    let sub = v.subrange(i, i + t.len() + 1);
    if rs.len() == 0 {
        assert(t =~= Seq::<char>::empty());
        assert(rs =~= Seq::<Seq<char>>::empty());
        assert(v[i] == sub[0]);
        assert(sub[0] == ']');
        assert(spec_parse_relays_rest(v, i) == Some(ParsedRelays { rs, end: i + 1 }));
    } else {
        let r0 = rs[0];
        let rs2 = rs.drop_first();
        let e0 = esc_seq(r0);
        let t2 = ser_relays_rest(rs2);
        assert(t == seq![','] + jstr(r0) + t2);
        assert(jstr(r0) == seq!['"'] + e0 + seq!['"']);
        assert(t.len() == 3 + e0.len() + t2.len());
        assert(v[i] == sub[0] && sub[0] == (t + seq![']'])[0] && t[0] == ',');
        assert(v[i + 1] == sub[1] && sub[1] == (t + seq![']'])[1] && t[1] == '"');
        assert(v.subrange(i + 2, i + 2 + e0.len() + 1) =~= e0 + seq!['"']) by {
            assert forall|m: int| 0 <= m < e0.len() + 1 implies v.subrange(
                i + 2,
                i + 2 + e0.len() + 1,
            )[m] == (e0 + seq!['"'])[m] by {
                assert(v.subrange(i + 2, i + 2 + e0.len() + 1)[m] == v[i + 2 + m]);
                assert(v[i + 2 + m] == sub[2 + m]);
                assert(sub[2 + m] == (t + seq![']'])[2 + m]);
                assert((t + seq![']'])[2 + m] == t[2 + m]);
                assert(t[2 + m] == (seq![','] + jstr(r0))[2 + m]);
                assert((seq![','] + jstr(r0))[2 + m] == jstr(r0)[1 + m]);
                assert(jstr(r0)[1 + m] == (e0 + seq!['"'])[m]);
            }
        }
        lemma_parse_escaped(v, i + 2, r0);
        let pend = i + 3 + e0.len();
        assert(spec_parse_jstring(v, i + 2) == Some(ParsedStr { s: r0, end: pend }));
        assert(v.subrange(pend, pend + t2.len() + 1) =~= t2 + seq![']']) by {
            assert forall|m: int| 0 <= m < t2.len() + 1 implies v.subrange(
                pend,
                pend + t2.len() + 1,
            )[m] == (t2 + seq![']'])[m] by {
                assert(v.subrange(pend, pend + t2.len() + 1)[m] == v[pend + m]);
                assert(v[pend + m] == sub[3 + e0.len() + m]);
                assert(sub[3 + e0.len() + m] == (t + seq![']'])[3 + e0.len() + m]);
            }
        }
        lemma_parse_ser_relays_rest(v, pend, rs2);
        assert(seq![r0] + rs2 =~= rs);
        assert(spec_parse_relays_rest(v, i) == Some(
            ParsedRelays { rs, end: i + t.len() + 1 },
        ));
    }
}

/// Parsing the encoding of a relay array followed by `]` recovers the
/// array.
pub proof fn lemma_parse_ser_relays(v: Seq<char>, i: int, rs: Seq<Seq<char>>)
    requires
        0 <= i,
        i + ser_relays(rs).len() + 1 <= v.len(),
        v.subrange(i, i + ser_relays(rs).len() + 1) == ser_relays(rs) + seq![']'],
    ensures
        spec_parse_relays(v, i) == Some(ParsedRelays { rs, end: i + ser_relays(rs).len() + 1 }),
{
    let t = ser_relays(rs);
    let sub = v.subrange(i, i + t.len() + 1);
    if rs.len() == 0 {
        assert(t =~= Seq::<char>::empty());
        assert(rs =~= Seq::<Seq<char>>::empty());
        assert(v[i] == sub[0]);
        assert(sub[0] == ']');
        assert(spec_parse_relays(v, i) == Some(ParsedRelays { rs, end: i + 1 }));
    } else {
        let r0 = rs[0];
        let rs2 = rs.drop_first();
        let e0 = esc_seq(r0);
        let t2 = ser_relays_rest(rs2);
        assert(t == jstr(r0) + t2);
        assert(jstr(r0) == seq!['"'] + e0 + seq!['"']);
        assert(t.len() == 2 + e0.len() + t2.len());
        assert(v[i] == sub[0] && sub[0] == (t + seq![']'])[0] && t[0] == '"');
        assert(v.subrange(i + 1, i + 1 + e0.len() + 1) =~= e0 + seq!['"']) by {
            assert forall|m: int| 0 <= m < e0.len() + 1 implies v.subrange(
                i + 1,
                i + 1 + e0.len() + 1,
            )[m] == (e0 + seq!['"'])[m] by {
                assert(v.subrange(i + 1, i + 1 + e0.len() + 1)[m] == v[i + 1 + m]);
                assert(v[i + 1 + m] == sub[1 + m]);
                assert(sub[1 + m] == (t + seq![']'])[1 + m]);
                assert((t + seq![']'])[1 + m] == t[1 + m]);
                assert(t[1 + m] == jstr(r0)[1 + m]);
                assert(jstr(r0)[1 + m] == (e0 + seq!['"'])[m]);
            }
        }
        lemma_parse_escaped(v, i + 1, r0);
        let pend = i + 2 + e0.len();
        assert(spec_parse_jstring(v, i + 1) == Some(ParsedStr { s: r0, end: pend }));
        assert(v.subrange(pend, pend + t2.len() + 1) =~= t2 + seq![']']) by {
            assert forall|m: int| 0 <= m < t2.len() + 1 implies v.subrange(
                pend,
                pend + t2.len() + 1,
            )[m] == (t2 + seq![']'])[m] by {
                assert(v.subrange(pend, pend + t2.len() + 1)[m] == v[pend + m]);
                assert(v[pend + m] == sub[2 + e0.len() + m]);
                assert(sub[2 + e0.len() + m] == (t + seq![']'])[2 + e0.len() + m]);
            }
        }
        lemma_parse_ser_relays_rest(v, pend, rs2);
        assert(seq![r0] + rs2 =~= rs);
        assert(spec_parse_relays(v, i) == Some(ParsedRelays { rs, end: i + t.len() + 1 }));
    }
}

/// Round trip: parsing the canonical serialization of any payload yields
/// that payload, field for field.
#[verifier::rlimit(100)]
#[verifier::spinoff_prover]
pub proof fn lemma_round_trip(u: UserSignUpV)
    ensures
        spec_parse_user(spec_serialize(u)) == Some(u),
{
    let v = spec_serialize(u);
    let em = esc_seq(u.mint);
    let eu = esc_seq(u.username);
    let sr = ser_relays(u.relays);
    let j: int = 9 + (em.len() as int) + 1;
    let ju: int = j + 13;
    let k: int = ju + (eu.len() as int) + 1;
    let kr: int = k + 11;
    let m: int = kr + (sr.len() as int) + 1;
    assert(v.len() == m + 1);
    assert(v.subrange(0, 9) =~= lit_head());
    assert(v.subrange(9, 9 + (em.len() as int) + 1) =~= em + seq!['"']);
    lemma_parse_escaped(v, 9, u.mint);
    assert(spec_parse_jstring(v, 9) == Some(ParsedStr { s: u.mint, end: j }));
    assert(v.subrange(j, j + 13) =~= lit_username());
    assert(v.subrange(ju, ju + eu.len() + 1) =~= eu + seq!['"']);
    lemma_parse_escaped(v, ju, u.username);
    assert(spec_parse_jstring(v, ju) == Some(ParsedStr { s: u.username, end: k }));
    assert(v.subrange(k, k + 11) =~= lit_relays());
    assert(v.subrange(kr, kr + sr.len() + 1) =~= sr + seq![']']);
    lemma_parse_ser_relays(v, kr, u.relays);
    assert(spec_parse_relays(v, kr) == Some(ParsedRelays { rs: u.relays, end: m }));
    assert(v[m] == '}');
    assert(spec_parse_user(v) == Some(UserSignUpV { mint: u.mint, username: u.username, relays: u.relays }));
    assert(UserSignUpV { mint: u.mint, username: u.username, relays: u.relays } == u);
}

} // verus!
