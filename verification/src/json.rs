//! JSON text, built and read by verified code.
//!
//! The adapter's wire format is its own logic: the serializer below renders
//! exactly the fragments its spec functions describe, and the parsing
//! primitives read the compact encoding a vendor responds with. The grammar
//! is the one these spec functions state: strings escape `"` `\` and the
//! three common control characters, numbers are unsigned decimal runs whose
//! value fits in `u32`, and decimals carried in thousandths render with
//! three fractional digits.

use vstd::prelude::*;
use vstd::string::StringExecFns;
use vstd::string::StrSliceExecFns;

verus! {

/// Relies on std's String::push: it appends exactly one character.
#[verifier::external_body]
pub fn push_char(out: &mut String, c: char)
    ensures
        final(out)@ == old(out)@ + seq![c],
{
    out.push(c);
}

/// How one character appears inside a JSON string literal.
pub open spec fn escape_char(c: char) -> Seq<char> {
    if c == '"' {
        seq!['\\', '"']
    } else if c == '\\' {
        seq!['\\', '\\']
    } else if c == '\n' {
        seq!['\\', 'n']
    } else if c == '\r' {
        seq!['\\', 'r']
    } else if c == '\t' {
        seq!['\\', 't']
    } else {
        seq![c]
    }
}

/// The body of a JSON string literal holding exactly the characters of `s`.
pub open spec fn json_escaped(s: Seq<char>) -> Seq<char>
    decreases s.len(),
{
    if s.len() == 0 {
        Seq::<char>::empty()
    } else {
        escape_char(s[0]) + json_escaped(s.drop_first())
    }
}

pub proof fn lemma_json_escaped_push(s: Seq<char>, c: char)
    ensures
        json_escaped(s.push(c)) == json_escaped(s) + escape_char(c),
    decreases s.len(),
{
    if s.len() == 0 {
        assert(s.push(c)[0] == c);
        assert(s.push(c).drop_first() =~= Seq::<char>::empty());
        assert(json_escaped(s.push(c)) == escape_char(c) + json_escaped(Seq::<char>::empty()));
        assert(escape_char(c) + Seq::<char>::empty() =~= escape_char(c));
        assert(json_escaped(s) + escape_char(c) =~= escape_char(c));
    } else {
        assert(s.push(c)[0] == s[0]);
        assert(s.push(c).drop_first() =~= s.drop_first().push(c));
        lemma_json_escaped_push(s.drop_first(), c);
        assert(json_escaped(s.push(c)) == escape_char(s[0]) + (json_escaped(s.drop_first())
            + escape_char(c)));
        assert(escape_char(s[0]) + (json_escaped(s.drop_first()) + escape_char(c)) =~= (
        escape_char(s[0]) + json_escaped(s.drop_first())) + escape_char(c));
    }
}

/// Appends the escaped characters of `s` to `out`.
pub fn append_escaped(out: &mut String, s: &str)
    ensures
        final(out)@ == old(out)@ + json_escaped(s@),
{
    let n = s.unicode_len();
    let mut i: usize = 0;
    proof {
        assert(s@.subrange(0, 0) =~= Seq::<char>::empty());
        assert(old(out)@ + json_escaped(s@.subrange(0, 0)) =~= old(out)@);
    }
    while i < n
        invariant
            n == s@.len(),
            i <= n,
            out@ == old(out)@ + json_escaped(s@.subrange(0, i as int)),
        decreases n - i,
    {
        let c = s.get_char(i);
        if c == '"' {
            out.append("\\\"");
            proof {
                reveal_strlit("\\\"");
                assert("\\\""@ =~= escape_char(c));
            }
        } else if c == '\\' {
            out.append("\\\\");
            proof {
                reveal_strlit("\\\\");
                assert("\\\\"@ =~= escape_char(c));
            }
        } else if c == '\n' {
            out.append("\\n");
            proof {
                reveal_strlit("\\n");
                assert("\\n"@ =~= escape_char(c));
            }
        } else if c == '\r' {
            out.append("\\r");
            proof {
                reveal_strlit("\\r");
                assert("\\r"@ =~= escape_char(c));
            }
        } else if c == '\t' {
            out.append("\\t");
            proof {
                reveal_strlit("\\t");
                assert("\\t"@ =~= escape_char(c));
            }
        } else {
            push_char(out, c);
            proof {
                assert(seq![c] =~= escape_char(c));
            }
        }
        proof {
            lemma_json_escaped_push(s@.subrange(0, i as int), c);
            assert(s@.subrange(0, i as int).push(c) =~= s@.subrange(0, i as int + 1));
        }
        i = i + 1;
    }
    proof {
        assert(s@.subrange(0, n as int) =~= s@);
    }
}

/// The decimal digit character for `d`, which must lie under ten.
pub open spec fn dec_digit(d: int) -> char {
    if d == 0 {
        '0'
    } else if d == 1 {
        '1'
    } else if d == 2 {
        '2'
    } else if d == 3 {
        '3'
    } else if d == 4 {
        '4'
    } else if d == 5 {
        '5'
    } else if d == 6 {
        '6'
    } else if d == 7 {
        '7'
    } else if d == 8 {
        '8'
    } else {
        '9'
    }
}

/// The decimal rendering of a non-negative number, without leading zeros
/// (except for zero itself).
pub open spec fn dec_chars(n: int) -> Seq<char>
    decreases n,
{
    if n < 10 {
        seq![dec_digit(n)]
    } else {
        dec_chars(n / 10) + seq![dec_digit(n % 10)]
    }
}

fn push_digit(out: &mut String, d: u64)
    requires
        d < 10,
    ensures
        final(out)@ == old(out)@ + seq![dec_digit(d as int)],
{
    if d == 0 {
        push_char(out, '0');
    } else if d == 1 {
        push_char(out, '1');
    } else if d == 2 {
        push_char(out, '2');
    } else if d == 3 {
        push_char(out, '3');
    } else if d == 4 {
        push_char(out, '4');
    } else if d == 5 {
        push_char(out, '5');
    } else if d == 6 {
        push_char(out, '6');
    } else if d == 7 {
        push_char(out, '7');
    } else if d == 8 {
        push_char(out, '8');
    } else {
        push_char(out, '9');
    }
}

/// Appends the decimal rendering of `n` to `out`.
pub fn append_u64(out: &mut String, n: u64)
    ensures
        final(out)@ == old(out)@ + dec_chars(n as int),
    decreases n,
{
    if n < 10 {
        push_digit(out, n);
    } else {
        append_u64(out, n / 10);
        push_digit(out, n % 10);
    }
}

/// The rendering of a signed count of thousandths as a decimal number with
/// three fractional digits: 500 is `0.500`, -1250 is `-1.250`.
pub open spec fn millis_chars(v: int) -> Seq<char> {
    let m = if v < 0 {
        -v
    } else {
        v
    };
    let sign = if v < 0 {
        seq!['-']
    } else {
        Seq::<char>::empty()
    };
    sign + dec_chars(m / 1000) + seq!['.'] + seq![
        dec_digit((m % 1000) / 100),
        dec_digit((m % 1000) / 10 % 10),
        dec_digit(m % 10),
    ]
}

/// Appends the decimal rendering of `v` thousandths to `out`.
pub fn append_millis(out: &mut String, v: i64)
    ensures
        final(out)@ == old(out)@ + millis_chars(v as int),
{
    let m: u64 = if v < 0 {
        push_char(out, '-');
        (-(v as i128)) as u64
    } else {
        v as u64
    };
    append_u64(out, m / 1000);
    push_char(out, '.');
    push_digit(out, (m % 1000) / 100);
    push_digit(out, (m % 1000) / 10 % 10);
    push_digit(out, m % 10);
}

/// The rendering of a boolean.
pub open spec fn bool_chars(b: bool) -> Seq<char> {
    if b {
        "true"@
    } else {
        "false"@
    }
}

/// Appends `true` or `false` to `out`.
pub fn append_bool(out: &mut String, b: bool)
    ensures
        final(out)@ == old(out)@ + bool_chars(b),
{
    if b {
        out.append("true");
    } else {
        out.append("false");
    }
}

/// The position just past `lit` (read from its position `k` on) if it
/// stands in `s` at position `i`.
pub open spec fn sp_match(s: Seq<char>, i: int, lit: Seq<char>, k: int) -> Option<int>
    decreases lit.len() - k,
{
    if k >= lit.len() {
        Option::Some(i)
    } else if i < 0 || i >= s.len() {
        Option::None
    } else if s[i] == lit[k] {
        sp_match(s, i + 1, lit, k + 1)
    } else {
        Option::None
    }
}

fn match_from(s: &str, i: usize, lit: &str, k: usize) -> (r: Option<usize>)
    requires
        i <= s@.len(),
        k <= lit@.len(),
    ensures
        match r {
            Option::Some(j) => sp_match(s@, i as int, lit@, k as int)
                == Option::Some(j as int) && i <= j <= s@.len(),
            Option::None => sp_match(s@, i as int, lit@, k as int) is None,
        },
    decreases lit@.len() - k,
{
    if k == lit.unicode_len() {
        Some(i)
    } else if i == s.unicode_len() {
        None
    } else if s.get_char(i) == lit.get_char(k) {
        match_from(s, i + 1, lit, k + 1)
    } else {
        None
    }
}

/// Reads the fixed token `lit` at position `i` of `s`, returning the
/// position just past it.
pub fn match_lit(s: &str, i: usize, lit: &str) -> (r: Option<usize>)
    requires
        i <= s@.len(),
    ensures
        match r {
            Option::Some(j) => sp_match(s@, i as int, lit@, 0)
                == Option::Some(j as int) && i <= j <= s@.len(),
            Option::None => sp_match(s@, i as int, lit@, 0) is None,
        },
{
    match_from(s, i, lit, 0)
}

/// What a backslash escape stands for, if it is one this grammar accepts.
pub open spec fn sp_unescape(c: char) -> Option<char> {
    if c == '"' {
        Option::Some('"')
    } else if c == '\\' {
        Option::Some('\\')
    } else if c == '/' {
        Option::Some('/')
    } else if c == 'n' {
        Option::Some('\n')
    } else if c == 'r' {
        Option::Some('\r')
    } else if c == 't' {
        Option::Some('\t')
    } else {
        Option::None
    }
}

fn unescape(c: char) -> (r: Option<char>)
    ensures
        r == sp_unescape(c),
{
    if c == '"' {
        Some('"')
    } else if c == '\\' {
        Some('\\')
    } else if c == '/' {
        Some('/')
    } else if c == 'n' {
        Some('\n')
    } else if c == 'r' {
        Some('\r')
    } else if c == 't' {
        Some('\t')
    } else {
        None
    }
}

/// The decoded remainder of a JSON string literal read from position `i`,
/// up to and past its closing quote, with the position that follows it.
pub open spec fn sp_str_body(s: Seq<char>, i: int) -> Option<(Seq<char>, int)>
    decreases s.len() - i,
{
    if i < 0 || i >= s.len() {
        Option::None
    } else if s[i] == '"' {
        Option::Some((Seq::<char>::empty(), i + 1))
    } else if s[i] == '\\' {
        if i + 1 < s.len() {
            match sp_unescape(s[i + 1]) {
                Option::Some(u) => match sp_str_body(s, i + 2) {
                    Option::Some((t, j)) => Option::Some((seq![u] + t, j)),
                    Option::None => Option::None,
                },
                Option::None => Option::None,
            }
        } else {
            Option::None
        }
    } else {
        match sp_str_body(s, i + 1) {
            Option::Some((t, j)) => Option::Some((seq![s[i]] + t, j)),
            Option::None => Option::None,
        }
    }
}

/// A JSON string literal at position `i`: an opening quote, then its body.
pub open spec fn sp_parse_string(s: Seq<char>, i: int) -> Option<(Seq<char>, int)> {
    if 0 <= i < s.len() && s[i] == '"' {
        sp_str_body(s, i + 1)
    } else {
        Option::None
    }
}

fn str_body(s: &str, i: usize) -> (r: Option<(String, usize)>)
    requires
        i <= s@.len(),
    ensures
        match r {
            Option::Some((t, j)) => sp_str_body(s@, i as int) == Option::Some((t@, j as int))
                && i < j <= s@.len(),
            Option::None => sp_str_body(s@, i as int) is None,
        },
    decreases s@.len() - i,
{
    if i == s.unicode_len() {
        return None;
    }
    let c = s.get_char(i);
    if c == '"' {
        Some((String::new(), i + 1))
    } else if c == '\\' {
        if i + 1 < s.unicode_len() {
            match unescape(s.get_char(i + 1)) {
                Some(u) => match str_body(s, i + 2) {
                    Some((t, j)) => {
                        let mut head = String::new();
                        push_char(&mut head, u);
                        let out = head.concat(t.as_str());
                        proof {
                            assert(out@ =~= seq![u] + t@);
                        }
                        Some((out, j))
                    },
                    None => None,
                },
                None => None,
            }
        } else {
            None
        }
    } else {
        match str_body(s, i + 1) {
            Some((t, j)) => {
                let mut head = String::new();
                push_char(&mut head, c);
                let out = head.concat(t.as_str());
                proof {
                    assert(out@ =~= seq![c] + t@);
                }
                Some((out, j))
            },
            None => None,
        }
    }
}

/// Reads a JSON string literal at position `i` of `s`, decoding escapes.
pub fn parse_string(s: &str, i: usize) -> (r: Option<(String, usize)>)
    requires
        i <= s@.len(),
    ensures
        match r {
            Option::Some((t, j)) => sp_parse_string(s@, i as int) == Option::Some((t@, j as int))
                && i < j <= s@.len(),
            Option::None => sp_parse_string(s@, i as int) is None,
        },
{
    if i < s.unicode_len() && s.get_char(i) == '"' {
        str_body(s, i + 1)
    } else {
        None
    }
}

/// Whether `c` is a decimal digit.
pub open spec fn sp_is_digit(c: char) -> bool {
    '0' <= c && c <= '9'
}

/// The value of a decimal digit character.
pub open spec fn sp_digit_val(c: char) -> int {
    c as int - '0' as int
}

/// The continuation of a decimal number read left to right: `acc` is the
/// value of the digits already read; the run ends at the first non-digit,
/// and fails if the value would pass the largest 32-bit count.
pub open spec fn sp_num_cont(s: Seq<char>, i: int, acc: int) -> Option<(u32, int)>
    decreases s.len() - i,
{
    if 0 <= i < s.len() && sp_is_digit(s[i]) {
        let a2 = acc * 10 + sp_digit_val(s[i]);
        if a2 > 0xFFFF_FFFF {
            Option::None
        } else {
            sp_num_cont(s, i + 1, a2)
        }
    } else {
        if 0 <= acc <= 0xFFFF_FFFF {
            Option::Some((acc as u32, i))
        } else {
            Option::None
        }
    }
}

/// A decimal number at position `i`: one digit at least, value within `u32`.
pub open spec fn sp_parse_u32(s: Seq<char>, i: int) -> Option<(u32, int)> {
    if 0 <= i < s.len() && sp_is_digit(s[i]) {
        sp_num_cont(s, i, 0)
    } else {
        Option::None
    }
}

fn is_digit(c: char) -> (r: bool)
    ensures
        r == sp_is_digit(c),
{
    '0' <= c && c <= '9'
}

fn num_cont(s: &str, i: usize, acc: u32) -> (r: Option<(u32, usize)>)
    requires
        i <= s@.len(),
    ensures
        match r {
            Option::Some((v, j)) => sp_num_cont(s@, i as int, acc as int)
                == Option::Some((v, j as int)) && i <= j <= s@.len(),
            Option::None => sp_num_cont(s@, i as int, acc as int) is None,
        },
    decreases s@.len() - i,
{
    if i < s.unicode_len() && is_digit(s.get_char(i)) {
        let c = s.get_char(i);
        let d: u64 = (c as u32 - '0' as u32) as u64;
        let a2: u64 = acc as u64 * 10 + d;
        if a2 > 0xFFFF_FFFF {
            None
        } else {
            num_cont(s, i + 1, a2 as u32)
        }
    } else {
        Some((acc, i))
    }
}

/// Reads a decimal `u32` at position `i` of `s`.
pub fn parse_u32(s: &str, i: usize) -> (r: Option<(u32, usize)>)
    requires
        i <= s@.len(),
    ensures
        match r {
            Option::Some((v, j)) => sp_parse_u32(s@, i as int) == Option::Some((v, j as int))
                && i <= j <= s@.len(),
            Option::None => sp_parse_u32(s@, i as int) is None,
        },
{
    if i < s.unicode_len() && is_digit(s.get_char(i)) {
        num_cont(s, i, 0)
    } else {
        None
    }
}

} // verus!
