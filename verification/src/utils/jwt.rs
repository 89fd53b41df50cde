//! Signed access and refresh tokens (HS256 JSON Web Tokens).
//!
//! The claims are written here as JSON text, in the exact form a serializer
//! of the claim structs produces: fields in declaration order, no spaces,
//! strings escaped as JSON requires. Signing and checking signatures and
//! expiry is left to `jsonwebtoken`.
use vstd::prelude::*;
use vstd::string::StringSliceAdditionalSpecFns;
use crate::clock::{add_minutes, in_range, now_micros, plus_minutes, seconds, seconds_of};
use crate::errors::{AppError, AppResult, ErrorKind};
use crate::text::{
    chars_of, format_i64, push_all, push_str, signed_decimal, string_from_chars, suffix_from,
    starts_with, chars_eq, parse_i64,
};

verus! {

/// Claims of an access token.
#[derive(Debug, Clone)]
pub struct AccessClaims {
    pub sub: String,
    pub is_root: bool,
    pub exp: i64,
    pub iat: i64,
}

/// Claims of a refresh token.
#[derive(Debug, Clone)]
pub struct RefreshClaims {
    pub sub: String,
    pub exp: i64,
    pub iat: i64,
}

/// The mathematical content of access claims.
pub struct AccessClaimsView {
    pub sub: Seq<char>,
    pub is_root: bool,
    pub exp: i64,
    pub iat: i64,
}

impl View for AccessClaims {
    type V = AccessClaimsView;

    open spec fn view(&self) -> AccessClaimsView {
        AccessClaimsView { sub: self.sub@, is_root: self.is_root, exp: self.exp, iat: self.iat }
    }
}

// ---------------------------------------------------------------------
// JSON text of the claims
// ---------------------------------------------------------------------

/// The lower-case hexadecimal digit for `d`, where `0 <= d < 16`.
pub open spec fn hex_char(d: int) -> char {
    if d < 10 {
        crate::text::digit_char(d)
    } else if d == 10 {
        'a'
    } else if d == 11 {
        'b'
    } else if d == 12 {
        'c'
    } else if d == 13 {
        'd'
    } else if d == 14 {
        'e'
    } else {
        'f'
    }
}

/// How one character is written inside a JSON string: quote and backslash
/// are escaped, the five control characters with short escapes use them, the
/// other control characters use `\u00XX`, and every other character is kept.
pub open spec fn escape_char(c: char) -> Seq<char> {
    if c == '"' {
        seq!['\\', '"']
    } else if c == '\\' {
        seq!['\\', '\\']
    } else if c == '\u{8}' {
        seq!['\\', 'b']
    } else if c == '\t' {
        seq!['\\', 't']
    } else if c == '\n' {
        seq!['\\', 'n']
    } else if c == '\u{c}' {
        seq!['\\', 'f']
    } else if c == '\r' {
        seq!['\\', 'r']
    } else if (c as int) < 0x20 {
        seq!['\\', 'u', '0', '0', hex_char((c as int) / 16), hex_char((c as int) % 16)]
    } else {
        seq![c]
    }
}

/// The escaped contents of a JSON string holding `s`.
pub open spec fn escape(s: Seq<char>) -> Seq<char>
    decreases s.len(),
{
    if s.len() == 0 {
        Seq::empty()
    } else {
        escape(s.drop_last()) + escape_char(s.last())
    }
}

/// The JSON string literal holding `s`.
pub open spec fn json_string(s: Seq<char>) -> Seq<char> {
    seq!['"'] + escape(s) + seq!['"']
}

/// The JSON literal of a boolean.
pub open spec fn json_bool(b: bool) -> Seq<char> {
    if b {
        seq!['t', 'r', 'u', 'e']
    } else {
        seq!['f', 'a', 'l', 's', 'e']
    }
}

/// The JSON text of access claims.
pub open spec fn access_claims_json(c: AccessClaimsView) -> Seq<char> {
    "{\"sub\":"@ + json_string(c.sub) + ",\"is_root\":"@ + json_bool(c.is_root) + ",\"exp\":"@
        + signed_decimal(c.exp as int) + ",\"iat\":"@ + signed_decimal(c.iat as int) + "}"@
}

/// The JSON text of refresh claims.
pub open spec fn refresh_claims_json(sub: Seq<char>, exp: i64, iat: i64) -> Seq<char> {
    "{\"sub\":"@ + json_string(sub) + ",\"exp\":"@ + signed_decimal(exp as int) + ",\"iat\":"@
        + signed_decimal(iat as int) + "}"@
}

fn hex_of(d: u32) -> (c: char)
    requires
        d < 16,
    ensures
        c == hex_char(d as int),
{
    if d < 10 {
        if d == 0 { '0' }
        else if d == 1 { '1' }
        else if d == 2 { '2' }
        else if d == 3 { '3' }
        else if d == 4 { '4' }
        else if d == 5 { '5' }
        else if d == 6 { '6' }
        else if d == 7 { '7' }
        else if d == 8 { '8' }
        else { '9' }
    } else if d == 10 { 'a' }
    else if d == 11 { 'b' }
    else if d == 12 { 'c' }
    else if d == 13 { 'd' }
    else if d == 14 { 'e' }
    else { 'f' }
}

fn push_escaped_char(out: &mut Vec<char>, c: char)
    ensures
        final(out)@ == old(out)@ + escape_char(c),
{
    if c == '"' {
        out.push('\\');
        out.push('"');
    } else if c == '\\' {
        out.push('\\');
        out.push('\\');
    } else if c == '\u{8}' {
        out.push('\\');
        out.push('b');
    } else if c == '\t' {
        out.push('\\');
        out.push('t');
    } else if c == '\n' {
        out.push('\\');
        out.push('n');
    } else if c == '\u{c}' {
        out.push('\\');
        out.push('f');
    } else if c == '\r' {
        out.push('\\');
        out.push('r');
    } else if (c as u32) < 0x20 {
        let code = c as u32;
        out.push('\\');
        out.push('u');
        out.push('0');
        out.push('0');
        out.push(hex_of(code / 16));
        out.push(hex_of(code % 16));
    } else {
        out.push(c);
    }
    assert(final(out)@ =~= old(out)@ + escape_char(c));
}

/// Appends the JSON string literal holding `s`.
fn push_json_string(out: &mut Vec<char>, s: &str)
    ensures
        final(out)@ == old(out)@ + json_string(s@),
{
    let cs = chars_of(s);
    let ghost start = out@;
    out.push('"');
    let mut i: usize = 0;
    while i < cs.len()
        invariant
            cs@ == s@,
            i <= cs@.len(),
            out@ == start + seq!['"'] + escape(cs@.take(i as int)),
        decreases cs@.len() - i,
    {
        push_escaped_char(out, cs[i]);
        assert(cs@.take(i + 1).drop_last() =~= cs@.take(i as int));
        i = i + 1;
    }
    assert(cs@.take(cs@.len() as int) =~= cs@);
    out.push('"');
    assert(out@ =~= start + json_string(s@));
}

/// The JSON text of the access claims `c`.
pub fn access_claims_to_json(c: &AccessClaims) -> (json: String)
    ensures
        json@ == access_claims_json(c@),
{
    let mut out = chars_of("{\"sub\":");
    push_json_string(&mut out, c.sub.as_str());
    push_str(&mut out, ",\"is_root\":");
    if c.is_root {
        let t = chars_of("true");
        proof {
            reveal_strlit("true");
        }
        assert(t@ =~= json_bool(true));
        push_all(&mut out, &t);
    } else {
        let f = chars_of("false");
        proof {
            reveal_strlit("false");
        }
        assert(f@ =~= json_bool(false));
        push_all(&mut out, &f);
    }
    push_str(&mut out, ",\"exp\":");
    let exp = format_i64(c.exp);
    push_all(&mut out, &exp);
    push_str(&mut out, ",\"iat\":");
    let iat = format_i64(c.iat);
    push_all(&mut out, &iat);
    push_str(&mut out, "}");
    string_from_chars(&out)
}

/// The JSON text of the refresh claims `c`.
pub fn refresh_claims_to_json(c: &RefreshClaims) -> (json: String)
    ensures
        json@ == refresh_claims_json(c.sub@, c.exp, c.iat),
{
    let mut out = chars_of("{\"sub\":");
    push_json_string(&mut out, c.sub.as_str());
    push_str(&mut out, ",\"exp\":");
    let exp = format_i64(c.exp);
    push_all(&mut out, &exp);
    push_str(&mut out, ",\"iat\":");
    let iat = format_i64(c.iat);
    push_all(&mut out, &iat);
    push_str(&mut out, "}");
    string_from_chars(&out)
}

// ---------------------------------------------------------------------
// Reading the JSON text of claims back
// ---------------------------------------------------------------------

/// The value of a lower-case hexadecimal digit, or `None`.
pub open spec fn hex_value(c: char) -> Option<int> {
    if '0' <= c <= '9' {
        Some(c as int - '0' as int)
    } else if 'a' <= c <= 'f' {
        Some(c as int - 'a' as int + 10)
    } else {
        None
    }
}

/// Decodes one escape sequence at the start of `s` (just after its
/// backslash): the character it stands for and the number of characters
/// read after the backslash. Only the escapes that `escape_char` writes
/// are recognised.
pub open spec fn unescape_at(s: Seq<char>) -> Option<(char, int)> {
    if s.len() == 0 {
        None
    } else if s[0] == '"' {
        Some(('"', 1))
    } else if s[0] == '\\' {
        Some(('\\', 1))
    } else if s[0] == 'b' {
        Some(('\u{8}', 1))
    } else if s[0] == 't' {
        Some(('\t', 1))
    } else if s[0] == 'n' {
        Some(('\n', 1))
    } else if s[0] == 'f' {
        Some(('\u{c}', 1))
    } else if s[0] == 'r' {
        Some(('\r', 1))
    } else if s[0] == 'u' && s.len() >= 5 && s[1] == '0' && s[2] == '0' && (s[3] == '0' || s[3]
        == '1') && hex_value(s[4]) is Some {
        Some(((((s[3] as int - '0' as int) * 16 + hex_value(s[4])->0)) as char, 5))
    } else {
        None
    }
}

/// Reads the contents of a JSON string from the start of `s` (just after
/// its opening quote) up to the closing quote: the characters read and how
/// many characters were consumed, closing quote included.
pub open spec fn scan_string(s: Seq<char>) -> Option<(Seq<char>, int)>
    decreases s.len(),
{
    if s.len() == 0 {
        None
    } else if s[0] == '"' {
        Some((Seq::empty(), 1))
    } else if s[0] == '\\' {
        match unescape_at(s.drop_first()) {
            Some((c, k)) => if 1 <= k && k + 1 <= s.len() {
                match scan_string(s.skip(k + 1)) {
                    Some((rest, n)) => Some((seq![c] + rest, n + k + 1)),
                    None => None,
                }
            } else {
                None
            },
            None => None,
        }
    } else {
        match scan_string(s.drop_first()) {
            Some((rest, n)) => Some((seq![s[0]] + rest, n + 1)),
            None => None,
        }
    }
}

proof fn lemma_escape_first(x: Seq<char>)
    requires
        x.len() > 0,
    ensures
        escape(x) == escape_char(x[0]) + escape(x.drop_first()),
    decreases x.len(),
{
    if x.len() == 1 {
        let e = x.drop_last();
        assert(e.len() == 0);
        assert(escape(e) == Seq::<char>::empty());
        let f = x.drop_first();
        assert(f.len() == 0);
        assert(escape(f) == Seq::<char>::empty());
        assert(x.last() == x[0]);
        assert(escape(x) =~= escape_char(x[0]) + escape(x.drop_first()));
    } else {
        lemma_escape_first(x.drop_last());
        assert(x.drop_last().drop_first() =~= x.drop_first().drop_last());
        assert(x.drop_first().last() == x.last());
        assert(x.drop_last()[0] == x[0]);
        assert(escape(x) =~= escape_char(x[0]) + escape(x.drop_first()));
    }
}

proof fn lemma_hex_roundtrip(d: int)
    requires
        0 <= d < 16,
    ensures
        hex_value(hex_char(d)) == Some(d),
{
}

proof fn lemma_unescape_char(c: char, rest: Seq<char>)
    ensures
        escape_char(c).len() >= 1,
        escape_char(c)[0] == '\\' ==> escape_char(c).len() >= 2 && unescape_at(
            (escape_char(c) + rest).drop_first(),
        ) == Some((c, escape_char(c).len() - 1)),
        escape_char(c)[0] != '\\' ==> escape_char(c) == seq![c] && c != '"',
{
    let e = escape_char(c);
    let t = (e + rest).drop_first();
    if (c as int) < 0x20 && c != '\u{8}' && c != '\t' && c != '\n' && c != '\u{c}' && c != '\r' {
        let hi = (c as int) / 16;
        let lo = (c as int) % 16;
        lemma_hex_roundtrip(lo);
        assert(t[0] == 'u' && t[1] == '0' && t[2] == '0');
        assert(t[3] == hex_char(hi));
        assert(t[4] == hex_char(lo));
        assert(hi == 0 || hi == 1);
        assert((t[3] as int - '0' as int) == hi);
        assert(hi * 16 + lo == c as int);
        assert(((hi * 16 + lo) as char) == c);
    }
}

proof fn lemma_scan_escaped(x: Seq<char>, rest: Seq<char>)
    ensures
        scan_string(escape(x) + seq!['"'] + rest) == Some((x, escape(x).len() + 1 as int)),
    decreases x.len(),
{
    let s = escape(x) + seq!['"'] + rest;
    if x.len() == 0 {
        assert(escape(x) =~= Seq::<char>::empty());
        assert(s[0] == '"');
        assert(x =~= Seq::<char>::empty());
    } else {
        lemma_escape_first(x);
        let c = x[0];
        let e = escape_char(c);
        let tail = escape(x.drop_first()) + seq!['"'] + rest;
        assert(s =~= e + tail);
        lemma_scan_escaped(x.drop_first(), rest);
        lemma_unescape_char(c, tail);
        if e[0] == '\\' {
            assert((e + tail).drop_first() == (e + tail).drop_first());
            assert(s.skip(e.len() as int) =~= tail);
            assert(x =~= seq![c] + x.drop_first());
        } else {
            assert(s.drop_first() =~= tail);
            assert(x =~= seq![c] + x.drop_first());
        }
    }
}


/// Whether `s` starts with `p`.
pub open spec fn has_prefix(s: Seq<char>, p: Seq<char>) -> bool {
    p.len() <= s.len() && s.take(p.len() as int) == p
}

/// The length of the leading run of digits and minus signs of `s`.
pub open spec fn number_run(s: Seq<char>) -> nat
    decreases s.len(),
{
    if s.len() > 0 && (crate::text::is_digit(s[0]) || s[0] == '-') {
        1 + number_run(s.drop_first())
    } else {
        0
    }
}

/// Reads `,"iat":` and the issue time after the expiry time.
pub open spec fn parse_times(sub: Seq<char>, is_root: bool, s: Seq<char>) -> Option<
    AccessClaimsView,
> {
    let k = number_run(s);
    let r = s.skip(k as int);
    let m = ",\"iat\":"@;
    match crate::text::parse_i64_spec(s.take(k as int)) {
        Some(exp) => if has_prefix(r, m) {
            let r2 = r.skip(m.len() as int);
            let k2 = number_run(r2);
            match crate::text::parse_i64_spec(r2.take(k2 as int)) {
                Some(iat) => if r2.skip(k2 as int) == "}"@ {
                    Some(AccessClaimsView { sub, is_root, exp, iat })
                } else {
                    None
                },
                None => None,
            }
        } else {
            None
        },
        None => None,
    }
}

/// Reads the root flag and the times after the subject.
pub open spec fn parse_after_subject(sub: Seq<char>, s: Seq<char>) -> Option<AccessClaimsView> {
    let t = ",\"is_root\":true,\"exp\":"@;
    let f = ",\"is_root\":false,\"exp\":"@;
    if has_prefix(s, t) {
        parse_times(sub, true, s.skip(t.len() as int))
    } else if has_prefix(s, f) {
        parse_times(sub, false, s.skip(f.len() as int))
    } else {
        None
    }
}

/// Reads access claims laid out as `access_claims_json` writes them.
pub open spec fn parse_access_claims(s: Seq<char>) -> Option<AccessClaimsView> {
    let h = "{\"sub\":\""@;
    if has_prefix(s, h) {
        match scan_string(s.skip(h.len() as int)) {
            Some((sub, n)) => parse_after_subject(sub, s.skip(h.len() + n)),
            None => None,
        }
    } else {
        None
    }
}

proof fn lemma_number_run(x: i64, rest: Seq<char>)
    requires
        rest.len() > 0,
        rest[0] == ',' || rest[0] == '}',
    ensures
        number_run(signed_decimal(x as int) + rest) == signed_decimal(x as int).len(),
{
    crate::text::lemma_parse_signed_decimal(x);
    lemma_number_run_of(signed_decimal(x as int), rest);
}

proof fn lemma_number_run_of(d: Seq<char>, rest: Seq<char>)
    requires
        rest.len() > 0,
        rest[0] == ',' || rest[0] == '}',
        forall|i: int| 0 <= i < d.len() ==> crate::text::is_digit(#[trigger] d[i]) || d[i] == '-',
    ensures
        number_run(d + rest) == d.len(),
    decreases d.len(),
{
    if d.len() == 0 {
        assert(d + rest =~= rest);
    } else {
        assert((d + rest).drop_first() =~= d.drop_first() + rest);
        assert forall|i: int| 0 <= i < d.drop_first().len() implies crate::text::is_digit(
            #[trigger] d.drop_first()[i],
        ) || d.drop_first()[i] == '-' by {
            assert(d.drop_first()[i] == d[i + 1]);
        }
        lemma_number_run_of(d.drop_first(), rest);
    }
}

proof fn lemma_parse_times(sub: Seq<char>, is_root: bool, exp: i64, iat: i64)
    ensures
        parse_times(
            sub,
            is_root,
            signed_decimal(exp as int) + ",\"iat\":"@ + signed_decimal(iat as int) + "}"@,
        ) == Some(AccessClaimsView { sub, is_root, exp, iat }),
{
    reveal_strlit(",\"iat\":");
    reveal_strlit("}");
    let dexp = signed_decimal(exp as int);
    let diat = signed_decimal(iat as int);
    let r = dexp + ",\"iat\":"@ + diat + "}"@;
    lemma_number_run(exp, ",\"iat\":"@ + diat + "}"@);
    assert(r =~= dexp + (",\"iat\":"@ + diat + "}"@));
    assert(r.take(dexp.len() as int) =~= dexp);
    crate::text::lemma_parse_signed_decimal(exp);
    crate::text::lemma_parse_signed_decimal(iat);
    let r1 = r.skip(dexp.len() as int);
    assert(r1 =~= ",\"iat\":"@ + diat + "}"@);
    assert(r1.take(7) =~= ",\"iat\":"@);
    let r2 = r1.skip(7);
    assert(r2 =~= diat + "}"@);
    lemma_number_run(iat, "}"@);
    assert(r2.take(diat.len() as int) =~= diat);
    assert(r2.skip(diat.len() as int) =~= "}"@);
}

proof fn lemma_parse_after_subject(c: AccessClaimsView)
    ensures
        parse_after_subject(
            c.sub,
            ",\"is_root\":"@ + json_bool(c.is_root) + ",\"exp\":"@ + signed_decimal(c.exp as int)
                + ",\"iat\":"@ + signed_decimal(c.iat as int) + "}"@,
        ) == Some(c),
{
    reveal_strlit(",\"is_root\":");
    reveal_strlit(",\"is_root\":true,\"exp\":");
    reveal_strlit(",\"is_root\":false,\"exp\":");
    reveal_strlit(",\"exp\":");
    let flag = if c.is_root {
        ",\"is_root\":true,\"exp\":"@
    } else {
        ",\"is_root\":false,\"exp\":"@
    };
    let r = signed_decimal(c.exp as int) + ",\"iat\":"@ + signed_decimal(c.iat as int) + "}"@;
    let tail = ",\"is_root\":"@ + json_bool(c.is_root) + ",\"exp\":"@ + signed_decimal(c.exp as int)
        + ",\"iat\":"@ + signed_decimal(c.iat as int) + "}"@;
    assert(",\"is_root\":"@ + json_bool(c.is_root) + ",\"exp\":"@ =~= flag);
    assert(tail =~= flag + r);
    assert(tail.take(flag.len() as int) =~= flag);
    assert(tail.skip(flag.len() as int) =~= r);
    if !c.is_root {
        let t = ",\"is_root\":true,\"exp\":"@;
        assert(tail[11] == 'f');
        assert(t[11] == 't');
        assert(!has_prefix(tail, t));
    }
    lemma_parse_times(c.sub, c.is_root, c.exp, c.iat);
}

/// Access claims read back from their JSON text are the claims written.
pub proof fn lemma_access_claims_roundtrip(c: AccessClaimsView)
    ensures
        parse_access_claims(access_claims_json(c)) == Some(c),
{
    reveal_strlit("{\"sub\":");
    reveal_strlit("{\"sub\":\"");
    let s = access_claims_json(c);
    let h = "{\"sub\":\""@;
    let e = escape(c.sub);
    let tail = ",\"is_root\":"@ + json_bool(c.is_root) + ",\"exp\":"@ + signed_decimal(c.exp as int)
        + ",\"iat\":"@ + signed_decimal(c.iat as int) + "}"@;
    assert(s =~= h + e + seq!['"'] + tail);
    assert(s.take(h.len() as int) =~= h);
    assert(s.skip(h.len() as int) =~= e + seq!['"'] + tail);
    lemma_scan_escaped(c.sub, tail);
    let n: int = e.len() as int + 1;
    assert(s.skip(h.len() as int + n) =~= tail);
    lemma_parse_after_subject(c);
}


fn hex_value_of(c: char) -> (res: Option<u32>)
    ensures
        match hex_value(c) {
            Some(v) => res == Some(v as u32),
            None => res is None,
        },
{
    if '0' <= c && c <= '9' {
        Some((c as u32) - ('0' as u32))
    } else if 'a' <= c && c <= 'f' {
        Some((c as u32) - ('a' as u32) + 10)
    } else {
        None
    }
}

fn unescape_from(cs: &Vec<char>, j: usize) -> (res: Option<(char, usize)>)
    requires
        j <= cs@.len(),
    ensures
        match unescape_at(cs@.skip(j as int)) {
            Some((c, k)) => res == Some((c, k as usize)),
            None => res is None,
        },
{
    let ghost s = cs@.skip(j as int);
    if j >= cs.len() {
        return None;
    }
    let c = cs[j];
    assert(s[0] == c);
    if c == '"' {
        Some(('"', 1))
    } else if c == '\\' {
        Some(('\\', 1))
    } else if c == 'b' {
        Some(('\u{8}', 1))
    } else if c == 't' {
        Some(('\t', 1))
    } else if c == 'n' {
        Some(('\n', 1))
    } else if c == 'f' {
        Some(('\u{c}', 1))
    } else if c == 'r' {
        Some(('\r', 1))
    } else if c == 'u' && cs.len() - j >= 5 && cs[j + 1] == '0' && cs[j + 2] == '0' && (cs[j + 3]
        == '0' || cs[j + 3] == '1') {
        assert(s[1] == cs[j + 1] && s[2] == cs[j + 2] && s[3] == cs[j + 3] && s[4] == cs[j + 4]);
        match hex_value_of(cs[j + 4]) {
            Some(lo) => {
                let hi: u32 = if cs[j + 3] == '1' { 1 } else { 0 };
                let code: u8 = (hi * 16 + lo) as u8;
                Some((code as char, 5))
            },
            None => None,
        }
    } else {
        None
    }
}

/// Reads the contents of a JSON string from index `j` of `cs` (just after
/// the opening quote): the characters and the index just after the closing quote.
fn read_json_string(cs: &Vec<char>, j: usize) -> (res: Option<(Vec<char>, usize)>)
    requires
        j <= cs@.len(),
    ensures
        match scan_string(cs@.skip(j as int)) {
            Some((x, n)) => res matches Some((v, e)) && v@ == x && e == j + n,
            None => res is None,
        },
        res matches Some((_, e)) ==> e <= cs@.len(),
{
    let mut acc: Vec<char> = Vec::new();
    let mut i: usize = j;
    while i < cs.len()
        invariant
            j <= i <= cs@.len(),
            scan_string(cs@.skip(j as int)) == match scan_string(cs@.skip(i as int)) {
                Some((x, n)) => Some((acc@ + x, n + (i - j))),
                None => None,
            },
        decreases cs@.len() - i,
    {
        let ghost s = cs@.skip(i as int);
        let c = cs[i];
        assert(s[0] == c);
        if c == '"' {
            assert(scan_string(s) == Some((Seq::<char>::empty(), 1int)));
            assert(acc@ + Seq::<char>::empty() =~= acc@);
            return Some((acc, i + 1));
        } else if c == '\\' {
            assert(s.drop_first() =~= cs@.skip(i + 1));
            match unescape_from(cs, i + 1) {
                Some((d, k)) => {
                    if k + 1 > cs.len() - i {
                        return None;
                    }
                    assert(s.skip(k + 1) =~= cs@.skip(i + k + 1));
                    proof {
                        let ghost prev = acc@;
                        assert(prev + (seq![d] + Seq::<char>::empty()) =~= prev.push(d) + Seq::<char>::empty());
                        assert(forall|x: Seq<char>| #![auto] prev + (seq![d] + x) =~= prev.push(d) + x);
                    }
                    acc.push(d);
                    i = i + k + 1;
                },
                None => {
                    return None;
                },
            }
        } else {
            assert(s.drop_first() =~= cs@.skip(i + 1));
            proof {
                let ghost prev = acc@;
                assert(forall|x: Seq<char>| #![auto] prev + (seq![c] + x) =~= prev.push(c) + x);
            }
            acc.push(c);
            i = i + 1;
        }
    }
    assert(cs@.skip(i as int).len() == 0);
    None
}

/// Whether `cs` holds the characters of `lit` from index `j` on.
fn has_prefix_at(cs: &Vec<char>, j: usize, lit: &str) -> (res: bool)
    requires
        j <= cs@.len(),
    ensures
        res == has_prefix(cs@.skip(j as int), lit@),
{
    let p = chars_of(lit);
    let rest = suffix_from(cs, j);
    assert(rest@ =~= cs@.skip(j as int));
    starts_with(&rest, &p)
}

/// The length of the run of digits and minus signs at index `j` of `cs`.
fn number_run_at(cs: &Vec<char>, j: usize) -> (k: usize)
    requires
        j <= cs@.len(),
    ensures
        k == number_run(cs@.skip(j as int)),
        j + k <= cs@.len(),
{
    let mut i: usize = j;
    while i < cs.len() && (('0' <= cs[i] && cs[i] <= '9') || cs[i] == '-')
        invariant
            j <= i <= cs@.len(),
            number_run(cs@.skip(j as int)) == (i - j) + number_run(cs@.skip(i as int)),
        decreases cs@.len() - i,
    {
        assert(cs@.skip(i as int).drop_first() =~= cs@.skip(i + 1));
        assert(cs@.skip(i as int)[0] == cs@[i as int]);
        i = i + 1;
    }
    proof {
        let s = cs@.skip(i as int);
        if s.len() > 0 {
            assert(s[0] == cs@[i as int]);
        }
    }
    i - j
}

/// The characters of `cs` from index `a` up to index `b`.
fn slice_chars(cs: &Vec<char>, a: usize, b: usize) -> (out: Vec<char>)
    requires
        a <= b <= cs@.len(),
    ensures
        out@ == cs@.subrange(a as int, b as int),
{
    let mut out: Vec<char> = Vec::new();
    let mut i: usize = a;
    while i < b
        invariant
            a <= i <= b,
            b <= cs@.len(),
            out@ == cs@.subrange(a as int, i as int),
        decreases b - i,
    {
        out.push(cs[i]);
        i = i + 1;
        assert(out@ =~= cs@.subrange(a as int, i as int));
    }
    out
}

fn parse_times_at(cs: &Vec<char>, j: usize, sub: Vec<char>, is_root: bool) -> (res: Option<
    AccessClaims,
>)
    requires
        j <= cs@.len(),
    ensures
        match parse_times(sub@, is_root, cs@.skip(j as int)) {
            Some(v) => res matches Some(c) && c@ == v,
            None => res is None,
        },
{
    let ghost s = cs@.skip(j as int);
    let len = cs.len();
    let k = number_run_at(cs, j);
    let digits = slice_chars(cs, j, j + k);
    assert(digits@ =~= s.take(k as int));
    let exp = match crate::text::parse_i64_chars(&digits) {
        Some(v) => v,
        None => {
            return None;
        },
    };
    assert(cs@.skip((j + k) as int) =~= s.skip(k as int));
    if !has_prefix_at(cs, j + k, ",\"iat\":") {
        return None;
    }
    assert(j + k + 7 <= len) by {
        reveal_strlit(",\"iat\":");
    }
    proof {
        reveal_strlit(",\"iat\":");
    }
    let j2 = j + k + 7;
    assert(cs@.skip(j2 as int) =~= s.skip(k as int).skip(7));
    let k2 = number_run_at(cs, j2);
    let digits2 = slice_chars(cs, j2, j2 + k2);
    assert(digits2@ =~= cs@.skip(j2 as int).take(k2 as int));
    let iat = match crate::text::parse_i64_chars(&digits2) {
        Some(v) => v,
        None => {
            return None;
        },
    };
    let end = j2 + k2;
    assert(cs@.skip(end as int) =~= cs@.skip(j2 as int).skip(k2 as int));
    proof {
        reveal_strlit("}");
    }
    if end < cs.len() && end + 1 == cs.len() && cs[end] == '}' {
        assert(cs@.skip(end as int) =~= "}"@);
        Some(AccessClaims { sub: string_from_chars(&sub), is_root, exp, iat })
    } else {
        proof {
            if cs@.skip(end as int) == "}"@ {
                assert(cs@.skip(end as int)[0] == cs@[end as int]);
            }
        }
        None
    }
}

/// Reads access claims laid out as `access_claims_json` writes them.
fn parse_access_claims_chars(cs: &Vec<char>) -> (res: Option<AccessClaims>)
    ensures
        match parse_access_claims(cs@) {
            Some(v) => res matches Some(c) && c@ == v,
            None => res is None,
        },
{
    proof {
        reveal_strlit("{\"sub\":\"");
        reveal_strlit(",\"is_root\":true,\"exp\":");
        reveal_strlit(",\"is_root\":false,\"exp\":");
    }
    if !has_prefix_at(cs, 0, "{\"sub\":\"") {
        assert(cs@.skip(0) =~= cs@);
        return None;
    }
    assert(cs@.skip(0) =~= cs@);
    let (sub, e) = match read_json_string(cs, 8) {
        Some(r) => r,
        None => {
            return None;
        },
    };
    let ghost r = cs@.skip(e as int);
    let len = cs.len();
    if has_prefix_at(cs, e, ",\"is_root\":true,\"exp\":") {
        assert(e + 22 <= len);
        assert(cs@.skip(e + 22) =~= r.skip(22));
        parse_times_at(cs, e + 22, sub, true)
    } else if has_prefix_at(cs, e, ",\"is_root\":false,\"exp\":") {
        assert(e + 23 <= len);
        assert(cs@.skip(e + 23) =~= r.skip(23));
        parse_times_at(cs, e + 23, sub, false)
    } else {
        None
    }
}

/// Reads access claims from their JSON text. Only the exact text that
/// `access_claims_to_json` writes is accepted.
pub fn access_claims_from_json(json: &str) -> (res: Option<AccessClaims>)
    ensures
        res matches Some(c) ==> access_claims_json(c@) == json@,
        forall|v: AccessClaimsView|
            #![trigger access_claims_json(v)]
            access_claims_json(v) == json@ ==> (res matches Some(c) && c@ == v),
{
    let cs = chars_of(json);
    match parse_access_claims_chars(&cs) {
        Some(c) => {
            let text = access_claims_to_json(&c);
            let back = chars_of(text.as_str());
            if chars_eq(&back, &cs) {
                assert forall|v: AccessClaimsView|
                    #![trigger access_claims_json(v)]
                    access_claims_json(v) == json@ implies c@ == v by {
                    lemma_access_claims_roundtrip(v);
                }
                Some(c)
            } else {
                assert forall|v: AccessClaimsView|
                    #![trigger access_claims_json(v)]
                    access_claims_json(v) == json@ implies false by {
                    lemma_access_claims_roundtrip(v);
                }
                None
            }
        },
        None => {
            assert forall|v: AccessClaimsView|
                #![trigger access_claims_json(v)]
                access_claims_json(v) == json@ implies false by {
                lemma_access_claims_roundtrip(v);
            }
            None
        },
    }
}

// ---------------------------------------------------------------------
// Keys, signing and checking
// ---------------------------------------------------------------------

/// The signing key made from the UTF-8 bytes of a secret: kept as it is when
/// it has at least 32 bytes, otherwise padded with ASCII `0` up to 32 bytes.
pub open spec fn padded_secret(bytes: Seq<u8>) -> Seq<u8> {
    if bytes.len() >= 32 {
        bytes
    } else {
        bytes + Seq::new((32 - bytes.len()) as nat, |i: int| 48u8)
    }
}

/// The signing key for `secret`.
pub fn pad_secret(secret: &str) -> (key: Vec<u8>)
    ensures
        key@ == padded_secret(secret.spec_bytes()),
{
    let bytes = secret.as_bytes();
    let mut key = vstd::slice::slice_to_vec(bytes);
    if key.len() >= 32 {
        return key;
    }
    let ghost start = key@;
    while key.len() < 32
        invariant
            start.len() < 32,
            start.len() <= key@.len() <= 32,
            key@ == start + Seq::new((key@.len() - start.len()) as nat, |i: int| 48u8),
        decreases 32 - key@.len(),
    {
        key.push(48u8);
        assert(key@ =~= start + Seq::new((key@.len() - start.len()) as nat, |i: int| 48u8));
    }
    assert(key@ =~= padded_secret(start));
    key
}

/// The token that `jsonwebtoken::encode` produces, with the default header
/// (HS256), for the claims given as JSON text and the HMAC key `key`;
/// `None` when it fails.
pub uninterp spec fn hs256_token(claims_json: Seq<char>, key: Seq<u8>) -> Option<Seq<char>>;

/// The claims text that `jsonwebtoken::decode` reads from `token`: its
/// payload part, base64url-decoded and read as one JSON value (white space
/// around it left out); `None` when that fails. It depends on the token text
/// alone; the signature and the clock decide whether `decode` accepts.
pub uninterp spec fn jwt_claims_text(token: Seq<char>) -> Option<Seq<char>>;

/// Signs the claims given as JSON text.
/// Trusted: `serde_json::value::RawValue::from_string` keeps the JSON text
/// as it is, and `jsonwebtoken::encode` (default header, HMAC secret `key`)
/// is a function of that text and the key, named `hs256_token`. The token's
/// payload part is the base64url form of that text, so a token made from a
/// text without surrounding white space carries exactly that claims text.
#[verifier::external_body]
fn encode_hs256(claims_json: String, key: &Vec<u8>) -> (res: Result<String, jsonwebtoken::errors::Error>)
    ensures
        match res {
            Ok(t) => hs256_token(claims_json@, key@) == Some(t@),
            Err(_) => hs256_token(claims_json@, key@) is None,
        },
        res matches Ok(t) ==> (json_trimmed(claims_json@) ==> jwt_claims_text(t@) == Some(
            claims_json@,
        )),
{
    let raw = serde_json::value::RawValue::from_string(claims_json)?;
    jsonwebtoken::encode(&jsonwebtoken::Header::default(), &raw, &jsonwebtoken::EncodingKey::from_secret(key))
}

/// Whether `c` is white space in the sense of JSON.
pub open spec fn is_json_space(c: char) -> bool {
    c == ' ' || c == '\t' || c == '\n' || c == '\r'
}

/// Whether a JSON text neither starts nor ends with white space.
pub open spec fn json_trimmed(s: Seq<char>) -> bool {
    s.len() > 0 && !is_json_space(s[0]) && !is_json_space(s.last())
}

/// Checks an HS256 token and gives its claims as JSON text.
/// Trusted: `jsonwebtoken::decode` with `Validation::new(HS256)` and expiry
/// checking on. Whether it accepts depends on the current time, and that is
/// not stated. What is stated: a token that `jsonwebtoken::encode` made from
/// a JSON text (without surrounding white space) and the same key carries
/// that text as its base64 payload, and decoding into a `RawValue` gives the
/// payload text back unchanged, so an accepted token gives that text. Any
/// accepted token gives its claims text, `jwt_claims_text`.
#[verifier::external_body]
fn decode_hs256(token: &str, key: &Vec<u8>) -> (res: Result<String, jsonwebtoken::errors::Error>)
    ensures
        forall|json: Seq<char>|
            #![trigger hs256_token(json, key@)]
            json_trimmed(json) && hs256_token(json, key@) == Some(token@) ==> (res matches Ok(j) ==> j@
                == json),
        res matches Ok(j) ==> jwt_claims_text(token@) == Some(j@),
{
    let mut validation = jsonwebtoken::Validation::new(jsonwebtoken::Algorithm::HS256);
    validation.validate_exp = true;
    let data = jsonwebtoken::decode::<Box<serde_json::value::RawValue>>(
        token,
        &jsonwebtoken::DecodingKey::from_secret(key),
        &validation,
    )?;
    Ok(data.claims.get().to_string())
}

#[verifier::external_type_specification]
#[verifier::external_body]
pub struct ExJwtError(jsonwebtoken::errors::Error);

/// The access claims for `user_id` issued at `now` and valid for `minutes`
/// minutes, or `None` when the expiry instant is not representable.
pub open spec fn access_claims_at(user_id: Seq<char>, is_root: bool, now: int, minutes: int) -> Option<
    AccessClaimsView,
> {
    match plus_minutes(now, minutes) {
        Some(exp) => Some(
            AccessClaimsView {
                sub: user_id,
                is_root,
                exp: seconds_of(exp) as i64,
                iat: seconds_of(now) as i64,
            },
        ),
        None => None,
    }
}

/// The access token for `user_id` issued at instant `now` (micro-seconds)
/// and valid for `expire_minutes` minutes, signed with `secret`.
pub fn access_token_at(user_id: &str, is_root: bool, secret: &str, expire_minutes: i64, now: i64) -> (res:
    AppResult<String>)
    requires
        in_range(now as int),
    ensures
        match access_claims_at(user_id@, is_root, now as int, expire_minutes as int) {
            None => res matches Err(e) && e.is(ErrorKind::Internal, "Token expiry out of range"@),
            Some(c) => match hs256_token(access_claims_json(c), padded_secret(secret.spec_bytes())) {
                Some(t) => res matches Ok(r) && r@ == t,
                None => res matches Err(e) && e.is(ErrorKind::Internal, "Failed to sign token"@),
            },
        },
        res matches Ok(r) ==> (access_claims_at(user_id@, is_root, now as int, expire_minutes as int) matches Some(c)
            && jwt_claims_text(r@) == Some(access_claims_json(c))),
{
    let exp_at = match add_minutes(now, expire_minutes) {
        Some(t) => t,
        None => {
            return Err(AppError::new(ErrorKind::Internal, "Token expiry out of range"));
        },
    };
    let claims = AccessClaims {
        sub: crate::text::owned(user_id),
        is_root,
        exp: seconds(exp_at),
        iat: seconds(now),
    };
    let json = access_claims_to_json(&claims);
    proof {
        lemma_access_claims_json_trimmed(claims@);
    }
    let key = pad_secret(secret);
    match encode_hs256(json, &key) {
        Ok(t) => Ok(t),
        Err(_) => Err(AppError::new(ErrorKind::Internal, "Failed to sign token")),
    }
}

/// The refresh token for `user_id` issued at instant `now` and valid for
/// `expire_minutes` minutes, signed with `secret`.
pub fn refresh_token_at(user_id: &str, secret: &str, expire_minutes: i64, now: i64) -> (res: AppResult<
    String,
>)
    requires
        in_range(now as int),
    ensures
        match plus_minutes(now as int, expire_minutes as int) {
            None => res matches Err(e) && e.is(ErrorKind::Internal, "Token expiry out of range"@),
            Some(exp) => match hs256_token(
                refresh_claims_json(user_id@, seconds_of(exp) as i64, seconds_of(now as int) as i64),
                padded_secret(secret.spec_bytes()),
            ) {
                Some(t) => res matches Ok(r) && r@ == t,
                None => res matches Err(e) && e.is(ErrorKind::Internal, "Failed to sign token"@),
            },
        },
        res matches Ok(r) ==> (plus_minutes(now as int, expire_minutes as int) matches Some(exp)
            && jwt_claims_text(r@) == Some(
            refresh_claims_json(user_id@, seconds_of(exp) as i64, seconds_of(now as int) as i64),
        )),
{
    let exp_at = match add_minutes(now, expire_minutes) {
        Some(t) => t,
        None => {
            return Err(AppError::new(ErrorKind::Internal, "Token expiry out of range"));
        },
    };
    let claims = RefreshClaims { sub: crate::text::owned(user_id), exp: seconds(exp_at), iat: seconds(now) };
    let json = refresh_claims_to_json(&claims);
    proof {
        lemma_refresh_claims_json_trimmed(claims.sub@, claims.exp, claims.iat);
    }
    let key = pad_secret(secret);
    match encode_hs256(json, &key) {
        Ok(t) => Ok(t),
        Err(_) => Err(AppError::new(ErrorKind::Internal, "Failed to sign token")),
    }
}

/// An access token for `user_id`, issued now and valid for `expire_minutes` minutes.
pub fn generate_access_token(user_id: &str, is_root: bool, secret: &str, expire_minutes: i64) -> (res:
    AppResult<String>)
    ensures
        res matches Err(e) ==> e.is(ErrorKind::Internal, "Token expiry out of range"@) || e.is(
            ErrorKind::Internal,
            "Failed to sign token"@,
        ),
        res matches Ok(t) ==> exists|now: int|
            #![trigger access_claims_at(user_id@, is_root, now, expire_minutes as int)]
            {
                &&& in_range(now)
                &&& access_claims_at(user_id@, is_root, now, expire_minutes as int) matches Some(c)
                &&& hs256_token(access_claims_json(c), padded_secret(secret.spec_bytes())) == Some(t@)
                &&& jwt_claims_text(t@) == Some(access_claims_json(c))
            },
{
    let now = now_micros();
    access_token_at(user_id, is_root, secret, expire_minutes, now)
}

/// A refresh token for `user_id`, issued now and valid for `expire_minutes` minutes.
pub fn generate_refresh_token(user_id: &str, secret: &str, expire_minutes: i64) -> (res: AppResult<
    String,
>)
    ensures
        res matches Err(e) ==> e.is(ErrorKind::Internal, "Token expiry out of range"@) || e.is(
            ErrorKind::Internal,
            "Failed to sign token"@,
        ),
        res matches Ok(t) ==> exists|now: int|
            #![trigger plus_minutes(now, expire_minutes as int)]
            {
                &&& in_range(now)
                &&& plus_minutes(now, expire_minutes as int) matches Some(exp)
                &&& hs256_token(
                    refresh_claims_json(user_id@, seconds_of(exp) as i64, seconds_of(now) as i64),
                    padded_secret(secret.spec_bytes()),
                ) == Some(t@)
                &&& jwt_claims_text(t@) == Some(
                    refresh_claims_json(user_id@, seconds_of(exp) as i64, seconds_of(now) as i64),
                )
            },
{
    let now = now_micros();
    refresh_token_at(user_id, secret, expire_minutes, now)
}

/// The access claims in the JSON text of a checked token.
pub fn claims_from_checked_json(json: &str) -> (res: AppResult<AccessClaims>)
    ensures
        res matches Ok(c) ==> access_claims_json(c@) == json@,
        res matches Err(e) ==> e.is(ErrorKind::Unauthorized, "Invalid token"@),
        forall|v: AccessClaimsView|
            #![trigger access_claims_json(v)]
            access_claims_json(v) == json@ ==> (res matches Ok(c) && c@ == v),
{
    match access_claims_from_json(json) {
        Some(c) => Ok(c),
        None => Err(AppError::new(ErrorKind::Unauthorized, "Invalid token")),
    }
}

/// The claims of an access token signed with `secret` and not expired.
/// Any failure is answered as an invalid token.
pub fn parse_access_token(token: &str, secret: &str) -> (res: AppResult<AccessClaims>)
    ensures
        res matches Err(e) ==> e.is(ErrorKind::Unauthorized, "Invalid token"@),
        forall|c: AccessClaimsView|
            #![trigger hs256_token(access_claims_json(c), padded_secret(secret.spec_bytes()))]
            hs256_token(access_claims_json(c), padded_secret(secret.spec_bytes())) == Some(token@) ==> (
            res matches Ok(r) ==> r@ == c),
        res matches Ok(r) ==> jwt_claims_text(token@) == Some(access_claims_json(r@)),
{
    let key = pad_secret(secret);
    match decode_hs256(token, &key) {
        Ok(json) => {
            proof {
                assert forall|c: AccessClaimsView|
                    hs256_token(access_claims_json(c), key@) == Some(token@) implies json@
                    == access_claims_json(c) by {
                    lemma_access_claims_json_trimmed(c);
                }
            }
            claims_from_checked_json(json.as_str())
        },
        Err(_) => Err(AppError::new(ErrorKind::Unauthorized, "Invalid token")),
    }
}

/// Different access claims have different JSON texts, so the claims text
/// of a token names one set of claims at most.
pub proof fn lemma_access_claims_json_injective(a: AccessClaimsView, b: AccessClaimsView)
    requires
        access_claims_json(a) == access_claims_json(b),
    ensures
        a == b,
{
    lemma_access_claims_roundtrip(a);
    lemma_access_claims_roundtrip(b);
}

/// The JSON text of refresh claims is framed by braces.
proof fn lemma_refresh_claims_json_trimmed(sub: Seq<char>, exp: i64, iat: i64)
    ensures
        json_trimmed(refresh_claims_json(sub, exp, iat)),
{
    reveal_strlit("}");
    reveal_strlit("{\"sub\":");
    let s = refresh_claims_json(sub, exp, iat);
    assert(s[0] == '{');
    assert(s.last() == '}');
}

/// The claims text of a refresh token is never the claims text of an
/// access token: after the subject it has no root flag.
pub proof fn lemma_refresh_claims_not_access(sub: Seq<char>, exp: i64, iat: i64, c: AccessClaimsView)
    ensures
        refresh_claims_json(sub, exp, iat) != access_claims_json(c),
{
    reveal_strlit("{\"sub\":");
    reveal_strlit("{\"sub\":\"");
    reveal_strlit(",\"exp\":");
    reveal_strlit(",\"is_root\":true,\"exp\":");
    reveal_strlit(",\"is_root\":false,\"exp\":");
    let r = refresh_claims_json(sub, exp, iat);
    let h = "{\"sub\":\""@;
    let e = escape(sub);
    let tail = ",\"exp\":"@ + signed_decimal(exp as int) + ",\"iat\":"@ + signed_decimal(iat as int) + "}"@;
    assert(r =~= h + e + seq!['"'] + tail);
    assert(r.take(h.len() as int) =~= h);
    assert(r.skip(h.len() as int) =~= e + seq!['"'] + tail);
    lemma_scan_escaped(sub, tail);
    let n: int = e.len() as int + 1;
    assert(r.skip(h.len() as int + n) =~= tail);
    let t = ",\"is_root\":true,\"exp\":"@;
    let f = ",\"is_root\":false,\"exp\":"@;
    assert(tail[2] == 'e');
    assert(t[2] == 'i' && f[2] == 'i');
    assert(!has_prefix(tail, t)) by {
        if has_prefix(tail, t) {
            assert(tail.take(t.len() as int)[2] == tail[2]);
        }
    }
    assert(!has_prefix(tail, f)) by {
        if has_prefix(tail, f) {
            assert(tail.take(f.len() as int)[2] == tail[2]);
        }
    }
    assert(parse_access_claims(r) is None);
    lemma_access_claims_roundtrip(c);
}

/// The JSON text of access claims is framed by braces.
proof fn lemma_access_claims_json_trimmed(c: AccessClaimsView)
    ensures
        json_trimmed(access_claims_json(c)),
{
    reveal_strlit("}");
    reveal_strlit("{\"sub\":");
    let s = access_claims_json(c);
    assert(s[0] == '{');
    assert(s.last() == '}');
}
} // verus!
