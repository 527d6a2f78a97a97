//! Wire codec for the command/report channel.
//!
//! Inbound messages are JSON objects with a `"command"` tag naming the
//! door command and, for a timed unlock, a `"duration"` member in
//! seconds. The decoder accepts one flat object: members in any order,
//! unknown members tolerated, JSON whitespace allowed; string escapes and
//! nested values do not occur in the schema and such payloads are
//! dropped, as is anything else malformed — a bad payload never produces
//! a command and never stops the channel.
//!
//! Outbound reports are serialized to the schema's canonical form.

use vstd::prelude::*;
use vstd::string::StringExecFns;

use crate::manage_command::MANAGECommand;
use crate::manage_command::MANAGEReport;

verus! {

/// JSON whitespace.
pub open spec fn is_ws(c: char) -> bool {
    c == ' ' || c == '\t' || c == '\n' || c == '\r'
}

pub open spec fn is_digit(c: char) -> bool {
    48 <= c as u32 <= 57
}

/// The index of the first non-whitespace character at or after `i`.
pub open spec fn ws_end(s: Seq<char>, i: int) -> int
    decreases s.len() - i when 0 <= i <= s.len()
{
    if i < 0 || i >= s.len() {
        i
    } else if is_ws(s[i]) {
        ws_end(s, i + 1)
    } else {
        i
    }
}

/// The index of the closing quote of a string token whose content starts
/// at `j`, or `None` if the string is unterminated or uses characters the
/// schema has no business containing (escapes, raw quotes).
pub open spec fn string_content_end(s: Seq<char>, j: int) -> Option<int>
    decreases s.len() - j when 0 <= j <= s.len()
{
    if j < 0 || j >= s.len() {
        None
    } else if s[j] == '"' {
        Some(j)
    } else if s[j] == '\\' {
        None
    } else {
        string_content_end(s, j + 1)
    }
}

/// The index just past the last digit of the digit run starting at `i`.
pub open spec fn digits_end(s: Seq<char>, i: int) -> int
    decreases s.len() - i when 0 <= i <= s.len()
{
    if i < 0 || i >= s.len() {
        i
    } else if is_digit(s[i]) {
        digits_end(s, i + 1)
    } else {
        i
    }
}

/// The value of the digit run `s[i..e)`.
pub open spec fn digits_val(s: Seq<char>, i: int, e: int) -> nat
    decreases e - i when i <= e
{
    if i >= e {
        0
    } else {
        (digits_val(s, i, e - 1) * 10 + (s[e - 1] as u32 - 48)) as nat
    }
}

/// One member value of the schema's flat objects.
pub enum JsonVal {
    VStr(Seq<char>),
    VNum(nat),
    VBool(bool),
    VNull,
}

/// Parses one scalar value at `i`: a string, an unsigned integer, or one
/// of the literals `true`, `false`, `null`. Returns the value and the
/// index just past it.
pub open spec fn parse_value(s: Seq<char>, i: int) -> Option<(JsonVal, int)> {
    if i < 0 || i >= s.len() {
        None
    } else if s[i] == '"' {
        match string_content_end(s, i + 1) {
            Some(e) => Some((JsonVal::VStr(s.subrange(i + 1, e)), e + 1)),
            None => None,
        }
    } else if is_digit(s[i]) {
        Some((JsonVal::VNum(digits_val(s, i, digits_end(s, i))), digits_end(s, i)))
    } else if i + 4 <= s.len() && s.subrange(i, i + 4) == "true"@ {
        Some((JsonVal::VBool(true), i + 4))
    } else if i + 5 <= s.len() && s.subrange(i, i + 5) == "false"@ {
        Some((JsonVal::VBool(false), i + 5))
    } else if i + 4 <= s.len() && s.subrange(i, i + 4) == "null"@ {
        Some((JsonVal::VNull, i + 4))
    } else {
        None
    }
}

/// Parses one `"key" : value` member at `i` (no leading whitespace).
/// Returns the key, the value and the index just past the value.
pub open spec fn parse_member(s: Seq<char>, i: int) -> Option<(Seq<char>, JsonVal, int)> {
    if 0 <= i < s.len() && s[i] == '"' {
        match string_content_end(s, i + 1) {
            Some(e) => {
                let colon = ws_end(s, e + 1);
                if colon < s.len() && s[colon] == ':' {
                    match parse_value(s, ws_end(s, colon + 1)) {
                        Some((v, j)) => Some((s.subrange(i + 1, e), v, j)),
                        None => None,
                    }
                } else {
                    None
                }
            },
            None => None,
        }
    } else {
        None
    }
}

/// Parses a comma-separated member list starting at `i` (no leading
/// whitespace). Returns the members and the index just past the last
/// value.
pub open spec fn parse_members(s: Seq<char>, i: int) -> Option<(Seq<(Seq<char>, JsonVal)>, int)>
    decreases s.len() - i when 0 <= i <= s.len()
{
    match parse_member(s, i) {
        Some((k, v, j)) => {
            let after = ws_end(s, j);
            if after < s.len() && s[after] == ',' {
                let next = ws_end(s, after + 1);
                if i < next <= s.len() {
                    match parse_members(s, next) {
                        Some((ms, e)) => Some((seq![(k, v)].add(ms), e)),
                        None => None,
                    }
                } else {
                    None
                }
            } else {
                Some((seq![(k, v)], j))
            }
        },
        None => None,
    }
}

/// Parses a whole inbound message: one flat JSON object, nothing but
/// whitespace around it. Returns its members in order.
pub open spec fn parse_msg(s: Seq<char>) -> Option<Seq<(Seq<char>, JsonVal)>> {
    let open = ws_end(s, 0);
    if open < s.len() && s[open] == '{' {
        let first = ws_end(s, open + 1);
        if first < s.len() && s[first] == '}' {
            if ws_end(s, first + 1) == s.len() {
                Some(Seq::empty())
            } else {
                None
            }
        } else {
            match parse_members(s, first) {
                Some((ms, e)) => {
                    let close = ws_end(s, e);
                    if close < s.len() && s[close] == '}' && ws_end(s, close + 1) == s.len() {
                        Some(ms)
                    } else {
                        None
                    }
                },
                None => None,
            }
        }
    } else {
        None
    }
}

/// The value of the first member with key `k`, if any.
pub open spec fn lookup(ms: Seq<(Seq<char>, JsonVal)>, k: Seq<char>) -> Option<JsonVal>
    decreases ms.len(),
{
    if ms.len() == 0 {
        None
    } else if ms[0].0 == k {
        Some(ms[0].1)
    } else {
        lookup(ms.skip(1), k)
    }
}

/// What an inbound payload decodes to: the command it carries, or `None`
/// for anything malformed — not a flat object of the schema, missing or
/// non-string `"command"` tag, unknown tag, or a `door.unlock` without a
/// usable `"duration"`.
pub open spec fn spec_decode(s: Seq<char>) -> Option<MANAGECommand> {
    match parse_msg(s) {
        Some(ms) => match lookup(ms, "command"@) {
            Some(JsonVal::VStr(tag)) => if tag == "door.open"@ {
                Some(MANAGECommand::DoorOpen)
            } else if tag == "door.close"@ {
                Some(MANAGECommand::DoorClose)
            } else if tag == "door.stop"@ {
                Some(MANAGECommand::DoorStop)
            } else if tag == "door.unlock"@ {
                match lookup(ms, "duration"@) {
                    Some(JsonVal::VNum(n)) => if n <= u32::MAX {
                        Some(MANAGECommand::DoorUnlock { duration: n as u32 })
                    } else {
                        None
                    },
                    _ => None,
                }
            } else {
                None
            },
            _ => None,
        },
        None => None,
    }
}

/// Malformed-command law: a payload that does not carry the required
/// `"command"` tag as a string member decodes to no command at all.
pub proof fn lemma_missing_tag_dropped(s: Seq<char>)
    requires
        match parse_msg(s) {
            Some(ms) => !(lookup(ms, "command"@) matches Some(JsonVal::VStr(_))),
            None => true,
        },
    ensures
        spec_decode(s) is None,
{
}

/// A scalar value as the executable parser holds it: string and number
/// values as index ranges into the input, so nothing is copied while
/// parsing.
#[derive(Clone, Copy, Debug)]
pub enum ExVal {
    VStr { start: usize, end: usize },
    VNum { start: usize, end: usize },
    VBool { val: bool },
    VNull,
}

/// The member value an executable value range stands for.
pub open spec fn abs_val(s: Seq<char>, v: ExVal) -> JsonVal {
    match v {
        ExVal::VStr { start, end } => JsonVal::VStr(s.subrange(start as int, end as int)),
        ExVal::VNum { start, end } => JsonVal::VNum(digits_val(s, start as int, end as int)),
        ExVal::VBool { val } => JsonVal::VBool(val),
        ExVal::VNull => JsonVal::VNull,
    }
}

/// The ranges of an executable value lie inside the input, and a number
/// range holds digits only.
pub open spec fn val_wf(s: Seq<char>, v: ExVal) -> bool {
    match v {
        ExVal::VStr { start, end } => start <= end && end as int <= s.len(),
        ExVal::VNum { start, end } => start < end && end as int <= s.len() && forall|t: int|
            start <= t < end ==> is_digit(s[t]),
        ExVal::VBool { .. } => true,
        ExVal::VNull => true,
    }
}

/// One parsed member: the key as an index range, and the value.
#[derive(Clone, Copy, Debug)]
pub struct Member {
    pub key_start: usize,
    pub key_end: usize,
    pub val: ExVal,
}

pub open spec fn member_wf(s: Seq<char>, m: Member) -> bool {
    &&& m.key_start <= m.key_end
    &&& m.key_end as int <= s.len()
    &&& val_wf(s, m.val)
}

pub open spec fn abs_member(s: Seq<char>, m: Member) -> (Seq<char>, JsonVal) {
    (s.subrange(m.key_start as int, m.key_end as int), abs_val(s, m.val))
}

pub open spec fn abs_members(s: Seq<char>, ms: Seq<Member>) -> Seq<(Seq<char>, JsonVal)> {
    ms.map_values(|m: Member| abs_member(s, m))
}

fn is_ws_char(c: char) -> (b: bool)
    ensures
        b == is_ws(c),
{
    c == ' ' || c == '\t' || c == '\n' || c == '\r'
}

fn is_digit_char(c: char) -> (b: bool)
    ensures
        b == is_digit(c),
{
    let d = c as u32;
    48 <= d && d <= 57
}

/// Advances past JSON whitespace.
fn skip_ws(s: &str, i: usize) -> (j: usize)
    requires
        i as int <= s@.len(),
    ensures
        j as int == ws_end(s@, i as int),
        i <= j,
        j as int <= s@.len(),
{
    let n = s.unicode_len();
    let mut j = i;
    loop
        invariant_except_break
            n == s@.len(),
            i <= j <= n,
            ws_end(s@, i as int) == ws_end(s@, j as int),
        ensures
            j as int == ws_end(s@, i as int),
            i <= j <= n,
        decreases n - j,
    {
        if j >= n {
            break ;
        }
        let c = s.get_char(j);
        if !is_ws_char(c) {
            break ;
        }
        j = j + 1;
    }
    j
}

/// Scans a string token's content for its closing quote.
fn find_string_end(s: &str, j0: usize) -> (r: Option<usize>)
    requires
        j0 as int <= s@.len(),
    ensures
        match r {
            Some(e) => {
                &&& string_content_end(s@, j0 as int) == Some(e as int)
                &&& j0 <= e
                &&& (e as int) < s@.len()
            },
            None => string_content_end(s@, j0 as int) is None,
        },
{
    let n = s.unicode_len();
    let mut j = j0;
    loop
        invariant
            n == s@.len(),
            j0 <= j <= n,
            string_content_end(s@, j0 as int) == string_content_end(s@, j as int),
        decreases n - j,
    {
        if j >= n {
            return None;
        }
        let c = s.get_char(j);
        if c == '"' {
            return Some(j);
        }
        if c == '\\' {
            return None;
        }
        j = j + 1;
    }
}

/// Scans past a run of digits.
fn scan_digits(s: &str, i: usize) -> (e: usize)
    requires
        i as int <= s@.len(),
    ensures
        e as int == digits_end(s@, i as int),
        i <= e,
        e as int <= s@.len(),
        forall|t: int| i <= t < e ==> is_digit(s@[t]),
{
    let n = s.unicode_len();
    let mut j = i;
    loop
        invariant_except_break
            n == s@.len(),
            i <= j <= n,
            digits_end(s@, i as int) == digits_end(s@, j as int),
            forall|t: int| i <= t < j ==> is_digit(s@[t]),
        ensures
            j as int == digits_end(s@, i as int),
            i <= j <= n,
            forall|t: int| i <= t < j ==> is_digit(s@[t]),
        decreases n - j,
    {
        if j >= n {
            break ;
        }
        let c = s.get_char(j);
        if !is_digit_char(c) {
            break ;
        }
        j = j + 1;
    }
    j
}

/// Compares the input range `[a, b)` with a literal, character by
/// character.
fn range_eq_lit(s: &str, a: usize, b: usize, lit: &str) -> (r: bool)
    requires
        a <= b,
        b as int <= s@.len(),
    ensures
        r == (s@.subrange(a as int, b as int) == lit@),
{
    let llen = lit.unicode_len();
    if b - a != llen {
        proof {
            assert(s@.subrange(a as int, b as int).len() != lit@.len());
        }
        return false;
    }
    let mut t: usize = 0;
    loop
        invariant_except_break
            t <= llen,
            llen == lit@.len(),
            b - a == llen,
            a <= b,
            b as int <= s@.len(),
            forall|u: int| 0 <= u < t ==> s@[a + u] == lit@[u],
        ensures
            t <= llen,
            llen == lit@.len(),
            b - a == llen,
            a <= b,
            b as int <= s@.len(),
            t == llen ==> forall|u: int| 0 <= u < t ==> s@[a + u] == lit@[u],
            t < llen ==> s@.subrange(a as int, b as int) != lit@,
        decreases llen - t,
    {
        if t >= llen {
            break ;
        }
        if s.get_char(a + t) != lit.get_char(t) {
            proof {
                assert(s@.subrange(a as int, b as int)[t as int] != lit@[t as int]);
            }
            break ;
        }
        t = t + 1;
    }
    if t == llen {
        proof {
            assert(s@.subrange(a as int, b as int) =~= lit@);
        }
        true
    } else {
        false
    }
}

/// Evaluates the digit run `[start, end)` as a `u32`, or reports that it
/// does not fit.
fn parse_u32_range(s: &str, start: usize, end: usize) -> (r: Option<u32>)
    requires
        start <= end,
        end as int <= s@.len(),
        forall|t: int| start <= t < end ==> is_digit(s@[t]),
    ensures
        match r {
            Some(v) => v == digits_val(s@, start as int, end as int),
            None => digits_val(s@, start as int, end as int) > u32::MAX,
        },
{
    let mut acc: u64 = 0;
    let mut j = start;
    while j < end
        invariant
            start <= j <= end,
            end as int <= s@.len(),
            forall|t: int| start <= t < end ==> is_digit(s@[t]),
            acc == digits_val(s@, start as int, j as int),
            acc <= u32::MAX,
        decreases end - j,
    {
        let c = s.get_char(j);
        let d = (c as u32) - 48;
        let next = acc * 10 + (d as u64);
        proof {
            assert(digits_val(s@, start as int, j as int + 1) == next);
        }
        if next > u32::MAX as u64 {
            proof {
                lemma_digits_val_monotone(s@, start as int, j as int + 1, end as int);
            }
            return None;
        }
        acc = next;
        j = j + 1;
    }
    Some(acc as u32)
}

/// A digit run never ends before it starts.
proof fn lemma_digits_end_ge(s: Seq<char>, i: int)
    requires
        0 <= i <= s.len(),
    ensures
        digits_end(s, i) >= i,
    decreases s.len() - i,
{
    if i < s.len() && is_digit(s[i]) {
        lemma_digits_end_ge(s, i + 1);
    }
}

/// Extending a digit run never shrinks its value.
proof fn lemma_digits_val_monotone(s: Seq<char>, i: int, m: int, e: int)
    requires
        i <= m <= e,
        forall|t: int| i <= t < e ==> is_digit(s[t]),
    ensures
        digits_val(s, i, e) >= digits_val(s, i, m),
    decreases e - m,
{
    if m < e {
        lemma_digits_val_monotone(s, i, m, e - 1);
    }
}

/// Parses one scalar value at `i`, mirroring [`parse_value`].
fn parse_value_at(s: &str, i: usize) -> (r: Option<(ExVal, usize)>)
    requires
        i as int <= s@.len(),
    ensures
        match r {
            Some(v) => {
                &&& parse_value(s@, i as int) == Some((abs_val(s@, v.0), v.1 as int))
                &&& val_wf(s@, v.0)
                &&& (i as int) < v.1 as int <= s@.len()
            },
            None => parse_value(s@, i as int) is None,
        },
{
    let n = s.unicode_len();
    if i >= n {
        return None;
    }
    let c = s.get_char(i);
    if c == '"' {
        match find_string_end(s, i + 1) {
            Some(e) => Some((ExVal::VStr { start: i + 1, end: e }, e + 1)),
            None => None,
        }
    } else if is_digit_char(c) {
        let e = scan_digits(s, i);
        proof {
            assert(digits_end(s@, i as int) == digits_end(s@, i as int + 1));
            lemma_digits_end_ge(s@, i as int + 1);
        }
        Some((ExVal::VNum { start: i, end: e }, e))
    } else if n - i >= 4 && range_eq_lit(s, i, i + 4, "true") {
        Some((ExVal::VBool { val: true }, i + 4))
    } else if n - i >= 5 && range_eq_lit(s, i, i + 5, "false") {
        Some((ExVal::VBool { val: false }, i + 5))
    } else if n - i >= 4 && range_eq_lit(s, i, i + 4, "null") {
        Some((ExVal::VNull, i + 4))
    } else {
        None
    }
}

/// Parses one `"key" : value` member at `i`, mirroring [`parse_member`].
fn parse_member_at(s: &str, i: usize) -> (r: Option<(Member, usize)>)
    requires
        i as int <= s@.len(),
    ensures
        match r {
            Some(p) => {
                &&& parse_member(s@, i as int) == Some(
                    (abs_member(s@, p.0).0, abs_member(s@, p.0).1, p.1 as int),
                )
                &&& member_wf(s@, p.0)
                &&& (i as int) < p.1 as int <= s@.len()
            },
            None => parse_member(s@, i as int) is None,
        },
{
    let n = s.unicode_len();
    if i >= n {
        return None;
    }
    if s.get_char(i) != '"' {
        return None;
    }
    let e = match find_string_end(s, i + 1) {
        Some(e) => e,
        None => {
            return None;
        },
    };
    let colon = skip_ws(s, e + 1);
    if colon >= n {
        return None;
    }
    if s.get_char(colon) != ':' {
        return None;
    }
    let vstart = skip_ws(s, colon + 1);
    match parse_value_at(s, vstart) {
        Some((v, j)) => Some((Member { key_start: i + 1, key_end: e, val: v }, j)),
        None => None,
    }
}

/// Finds the first member whose key equals `key`, mirroring [`lookup`].
fn lookup_key(s: &str, members: &Vec<Member>, key: &str) -> (r: Option<ExVal>)
    requires
        forall|t: int| 0 <= t < members@.len() ==> member_wf(s@, #[trigger] members@[t]),
    ensures
        match r {
            Some(v) => {
                &&& lookup(abs_members(s@, members@), key@) == Some(abs_val(s@, v))
                &&& val_wf(s@, v)
            },
            None => lookup(abs_members(s@, members@), key@) is None,
        },
{
    let ghost ms = abs_members(s@, members@);
    proof {
        assert(ms.skip(0) =~= ms);
    }
    let mut idx: usize = 0;
    while idx < members.len()
        invariant
            idx <= members@.len(),
            ms == abs_members(s@, members@),
            forall|t: int| 0 <= t < members@.len() ==> member_wf(s@, #[trigger] members@[t]),
            lookup(ms, key@) == lookup(ms.skip(idx as int), key@),
        decreases members@.len() - idx,
    {
        let m = members[idx];
        proof {
            assert(ms.skip(idx as int)[0] == abs_member(s@, members@[idx as int]));
        }
        if range_eq_lit(s, m.key_start, m.key_end, key) {
            return Some(m.val);
        }
        proof {
            assert(ms.skip(idx as int).skip(1) =~= ms.skip(idx as int + 1));
        }
        idx = idx + 1;
    }
    proof {
        assert(ms.skip(idx as int) =~= Seq::<(Seq<char>, JsonVal)>::empty());
    }
    None
}

/// Decodes one inbound payload into the command it carries, or `None`
/// for anything malformed; a malformed payload is dropped without any
/// further effect.
pub fn decode_command(s: &str) -> (r: Option<MANAGECommand>)
    ensures
        r == spec_decode(s@),
{
    let n = s.unicode_len();
    let open = skip_ws(s, 0);
    if open >= n {
        return None;
    }
    if s.get_char(open) != '{' {
        return None;
    }
    let first = skip_ws(s, open + 1);
    let mut members: Vec<Member> = Vec::new();
    if first < n && s.get_char(first) == '}' {
        // Empty object: well-formed, but it carries no command.
        if skip_ws(s, first + 1) != n {
            return None;
        }
        proof {
            assert(parse_msg(s@) == Some(Seq::<(Seq<char>, JsonVal)>::empty()));
            assert(lookup(Seq::<(Seq<char>, JsonVal)>::empty(), "command"@) is None);
        }
        return None;
    }
    let mut cur = first;
    let mut last_end: usize = 0;
    proof {
        assert(abs_members(s@, members@) =~= Seq::<(Seq<char>, JsonVal)>::empty());
        if parse_members(s@, first as int) is Some {
            let p = parse_members(s@, first as int)->Some_0;
            assert(abs_members(s@, members@) + p.0 =~= p.0);
        }
    }
    loop
        invariant_except_break
            n == s@.len(),
            cur <= n,
            open as int == ws_end(s@, 0),
            open < n,
            s@[open as int] == '{',
            first as int == ws_end(s@, open as int + 1),
            first <= n,
            !(first < n && s@[first as int] == '}'),
            forall|t: int| 0 <= t < members@.len() ==> member_wf(s@, #[trigger] members@[t]),
            parse_members(s@, first as int) == (match parse_members(s@, cur as int) {
                Some((rest, ee)) => Some((abs_members(s@, members@) + rest, ee)),
                None => None,
            }),
        ensures
            n == s@.len(),
            open as int == ws_end(s@, 0),
            open < n,
            s@[open as int] == '{',
            first as int == ws_end(s@, open as int + 1),
            first <= n,
            !(first < n && s@[first as int] == '}'),
            forall|t: int| 0 <= t < members@.len() ==> member_wf(s@, #[trigger] members@[t]),
            parse_members(s@, first as int) == Some(
                (abs_members(s@, members@), last_end as int),
            ),
            last_end <= n,
        decreases n - cur,
    {
        let (m, j) = match parse_member_at(s, cur) {
            Some(p) => p,
            None => {
                proof {
                    assert(parse_members(s@, cur as int) is None);
                    assert(parse_msg(s@) is None);
                }
                return None;
            },
        };
        let after = skip_ws(s, j);
        proof {
            assert(abs_members(s@, members@.push(m)) =~= abs_members(s@, members@).push(
                abs_member(s@, m),
            ));
        }
        if after < n && s.get_char(after) == ',' {
            let next = skip_ws(s, after + 1);
            proof {
                assert(cur < next);
                if parse_members(s@, next as int) is Some {
                    let (rest2, ee) = parse_members(s@, next as int)->Some_0;
                    assert(abs_members(s@, members@) + (seq![abs_member(s@, m)].add(rest2))
                        =~= abs_members(s@, members@.push(m)) + rest2);
                }
            }
            members.push(m);
            cur = next;
        } else {
            proof {
                assert(abs_members(s@, members@) + seq![abs_member(s@, m)] =~= abs_members(
                    s@,
                    members@.push(m),
                ));
            }
            members.push(m);
            last_end = j;
            break ;
        }
    }
    let close = skip_ws(s, last_end);
    if !(close < n && s.get_char(close) == '}') {
        return None;
    }
    if skip_ws(s, close + 1) != n {
        return None;
    }
    proof {
        assert(parse_msg(s@) == Some(abs_members(s@, members@)));
    }
    let tag = match lookup_key(s, &members, "command") {
        Some(ExVal::VStr { start, end }) => (start, end),
        Some(_) => {
            return None;
        },
        None => {
            return None;
        },
    };
    if range_eq_lit(s, tag.0, tag.1, "door.open") {
        Some(MANAGECommand::DoorOpen)
    } else if range_eq_lit(s, tag.0, tag.1, "door.close") {
        Some(MANAGECommand::DoorClose)
    } else if range_eq_lit(s, tag.0, tag.1, "door.stop") {
        Some(MANAGECommand::DoorStop)
    } else if range_eq_lit(s, tag.0, tag.1, "door.unlock") {
        match lookup_key(s, &members, "duration") {
            Some(ExVal::VNum { start, end }) => match parse_u32_range(s, start, end) {
                Some(d) => Some(MANAGECommand::DoorUnlock { duration: d }),
                None => None,
            },
            Some(_) => None,
            None => None,
        }
    } else {
        None
    }
}

/// The canonical wire form of one outbound report.
pub open spec fn spec_encode_report(r: MANAGEReport) -> Seq<char> {
    match r {
        MANAGEReport::Heartbeat { is_healthy } => if is_healthy {
            "{\"command\":\"heartbeat\",\"is_healthy\":true}"@
        } else {
            "{\"command\":\"heartbeat\",\"is_healthy\":false}"@
        },
        MANAGEReport::OsdpCardRead { event } => "{\"command\":\"osdp.card_read\",\"event\":"@
            + event@ + "}"@,
    }
}

/// Serializes one outbound report to the wire schema's canonical JSON
/// form. A card-read report embeds the protocol engine's event record,
/// already serialized, as the `"event"` value.
pub fn encode_report(report: &MANAGEReport) -> (r: String)
    ensures
        r@ == spec_encode_report(*report),
{
    match report {
        MANAGEReport::Heartbeat { is_healthy } => {
            if *is_healthy {
                String::from_str("{\"command\":\"heartbeat\",\"is_healthy\":true}")
            } else {
                String::from_str("{\"command\":\"heartbeat\",\"is_healthy\":false}")
            }
        },
        MANAGEReport::OsdpCardRead { event } => {
            let mut out = String::from_str("{\"command\":\"osdp.card_read\",\"event\":");
            out.append(event.as_str());
            out.concat("}")
        },
    }
}

} // verus!
