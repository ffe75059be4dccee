//! Plain text helpers: decimal formatting and parsing, string comparison,
//! whitespace trimming and building argument lists.
use vstd::prelude::*;

verus! {

/// The character of a decimal digit.
pub open spec fn digit_char(d: int) -> char {
    (d + 48) as char
}

/// Whether `c` is an ASCII decimal digit.
pub open spec fn is_digit(c: char) -> bool {
    '0' <= c && c <= '9'
}

/// The value of an ASCII decimal digit.
pub open spec fn digit_value(c: char) -> int {
    c as int - 48
}

/// The shortest decimal text of a natural number (what `to_string` prints).
pub open spec fn dec(n: nat) -> Seq<char>
    decreases n,
{
    if n < 10 {
        seq![digit_char(n as int)]
    } else {
        dec(n / 10).push(digit_char((n % 10) as int))
    }
}

/// The decimal text of an integer, with a leading '-' for negative numbers.
pub open spec fn int_text(n: int) -> Seq<char> {
    if n < 0 {
        seq!['-'] + dec((-n) as nat)
    } else {
        dec(n as nat)
    }
}

/// Whether every character of `s` is a decimal digit.
pub open spec fn all_digits(s: Seq<char>) -> bool {
    forall|i: int| 0 <= i < s.len() ==> is_digit(#[trigger] s[i])
}

/// The number that a string of decimal digits denotes.
pub open spec fn digits_value(s: Seq<char>) -> nat
    decreases s.len(),
{
    if s.len() == 0 {
        0
    } else {
        (digits_value(s.drop_last()) * 10 + digit_value(s.last())) as nat
    }
}

/// What `str::parse::<u64>` accepts and returns: an optional '+', then at least
/// one decimal digit, with a value that fits in 64 bits.
pub open spec fn parse_u64_spec(s: Seq<char>) -> Option<u64> {
    let body = if s.len() > 0 && s[0] == '+' { s.drop_first() } else { s };
    if body.len() > 0 && all_digits(body) && digits_value(body) <= u64::MAX {
        Some(digits_value(body) as u64)
    } else {
        None
    }
}

/// The Unicode `White_Space` characters, which `str::trim` removes.
pub open spec fn is_white_space(c: char) -> bool {
    ||| c == '\t'
    ||| c == '\n'
    ||| c == '\x0B'
    ||| c == '\x0C'
    ||| c == '\r'
    ||| c == ' '
    ||| c == '\u{85}'
    ||| c == '\u{A0}'
    ||| c == '\u{1680}'
    ||| ('\u{2000}' <= c && c <= '\u{200A}')
    ||| c == '\u{2028}'
    ||| c == '\u{2029}'
    ||| c == '\u{202F}'
    ||| c == '\u{205F}'
    ||| c == '\u{3000}'
}

/// Number of leading white space characters of `s`.
pub open spec fn leading_ws(s: Seq<char>) -> nat
    decreases s.len(),
{
    if s.len() > 0 && is_white_space(s[0]) {
        1 + leading_ws(s.drop_first())
    } else {
        0
    }
}

/// Number of trailing white space characters of `s`.
pub open spec fn trailing_ws(s: Seq<char>) -> nat
    decreases s.len(),
{
    if s.len() > 0 && is_white_space(s.last()) {
        1 + trailing_ws(s.drop_last())
    } else {
        0
    }
}

/// `s` without leading and trailing white space (what `str::trim` returns).
pub open spec fn trim_spec(s: Seq<char>) -> Seq<char> {
    let t = s.skip(leading_ws(s) as int);
    t.take(t.len() - trailing_ws(t))
}

proof fn lemma_dec_facts(n: nat)
    ensures
        dec(n).len() > 0,
        all_digits(dec(n)),
        digits_value(dec(n)) == n,
        dec(n)[0] != '+',
        dec(n)[0] != '-',
    decreases n,
{
    if n < 10 {
        let e = dec(n);
        assert(e.drop_last() =~= Seq::<char>::empty());
        assert(digits_value(e.drop_last()) == 0);
    } else {
        lemma_dec_facts(n / 10);
        let d = dec(n / 10);
        let e = d.push(digit_char((n % 10) as int));
        assert(e.drop_last() =~= d);
        assert(digit_value(e.last()) == n % 10);
        assert(digits_value(e) == digits_value(d) * 10 + n % 10);
        assert forall|i: int| 0 <= i < e.len() implies is_digit(#[trigger] e[i]) by {
            if i < d.len() {
                assert(e[i] == d[i]);
            }
        }
    }
}

/// Reading back the decimal text of a number gives the number.
pub proof fn lemma_parse_dec(n: u64)
    ensures
        parse_u64_spec(dec(n as nat)) == Some(n),
{
    lemma_dec_facts(n as nat);
}

/// The text of one decimal digit.
fn digit_str(d: u64) -> (r: &'static str)
    requires
        d < 10,
    ensures
        r@ == seq![digit_char(d as int)],
{
    if d == 0 {
        proof { reveal_strlit("0"); }
        "0"
    } else if d == 1 {
        proof { reveal_strlit("1"); }
        "1"
    } else if d == 2 {
        proof { reveal_strlit("2"); }
        "2"
    } else if d == 3 {
        proof { reveal_strlit("3"); }
        "3"
    } else if d == 4 {
        proof { reveal_strlit("4"); }
        "4"
    } else if d == 5 {
        proof { reveal_strlit("5"); }
        "5"
    } else if d == 6 {
        proof { reveal_strlit("6"); }
        "6"
    } else if d == 7 {
        proof { reveal_strlit("7"); }
        "7"
    } else if d == 8 {
        proof { reveal_strlit("8"); }
        "8"
    } else {
        proof { reveal_strlit("9"); }
        "9"
    }
}

/// Formats an unsigned number in decimal, as `to_string` does.
pub fn u64_to_text(n: u64) -> (r: String)
    ensures
        r@ == dec(n as nat),
    decreases n,
{
    if n < 10 {
        String::from_str(digit_str(n))
    } else {
        let mut s = u64_to_text(n / 10);
        s.append(digit_str(n % 10));
        s
    }
}

/// Formats a signed number in decimal, as `to_string` does.
pub fn i64_to_text(n: i64) -> (r: String)
    ensures
        r@ == int_text(n as int),
{
    if n < 0 {
        let m: u64 = ((-(n + 1)) as u64) + 1;
        let digits = u64_to_text(m);
        let mut s = String::new();
        proof { reveal_strlit("-"); }
        s.append("-");
        s.append(digits.as_str());
        s
    } else {
        u64_to_text(n as u64)
    }
}

/// Parses a decimal number the way `str::parse::<u64>` does.
pub fn parse_u64(s: &str) -> (r: Option<u64>)
    ensures
        r == parse_u64_spec(s@),
{
    let len = s.unicode_len();
    let mut start: usize = 0;
    if len > 0 && s.get_char(0) == '+' {
        start = 1;
    }
    let ghost body = if s@.len() > 0 && s@[0] == '+' { s@.drop_first() } else { s@ };
    assert(body =~= s@.skip(start as int));
    if start >= len {
        return None;
    }
    let mut acc: u64 = 0;
    let mut i: usize = start;
    while i < len
        invariant
            start <= i <= len,
            len == s@.len(),
            body =~= s@.skip(start as int),
            body == (if s@.len() > 0 && s@[0] == '+' { s@.drop_first() } else { s@ }),
            all_digits(s@.subrange(start as int, i as int)),
            acc == digits_value(s@.subrange(start as int, i as int)),
        decreases len - i,
    {
        let c = s.get_char(i);
        let ghost prev = s@.subrange(start as int, i as int);
        let ghost next = s@.subrange(start as int, i + 1);
        assert(next.drop_last() =~= prev);
        assert(next.last() == c);
        if !('0' <= c && c <= '9') {
            proof {
                assert(body[i - start] == s@[i as int]);
                assert(!is_digit(body[i - start]));
                assert(!all_digits(body));
                lemma_parse_none(s@);
            }
            return None;
        }
        let d: u64 = (c as u64) - 48;
        if acc > (u64::MAX - d) / 10 {
            proof {
                assert(digits_value(next) > u64::MAX);
                lemma_digits_value_prefix_mono(body, (i + 1 - start) as int);
                assert(body.take((i + 1 - start) as int) =~= next);
            }
            return None;
        }
        acc = acc * 10 + d;
        proof {
            assert forall|k: int| 0 <= k < next.len() implies is_digit(#[trigger] next[k]) by {
                if k < prev.len() {
                    assert(next[k] == prev[k]);
                }
            }
        }
        i = i + 1;
    }
    assert(s@.subrange(start as int, len as int) =~= body);
    Some(acc)
}

proof fn lemma_parse_none(s: Seq<char>)
    requires
        !all_digits(if s.len() > 0 && s[0] == '+' { s.drop_first() } else { s }),
    ensures
        parse_u64_spec(s) is None,
{
}

/// A prefix of a digit string never denotes more than the whole string.
proof fn lemma_digits_value_prefix_mono(s: Seq<char>, k: int)
    requires
        0 <= k <= s.len(),
        all_digits(s.take(k)),
    ensures
        all_digits(s) ==> digits_value(s.take(k)) <= digits_value(s),
    decreases s.len() - k,
{
    if k < s.len() && all_digits(s) {
        let t = s.take(k + 1);
        assert(t.drop_last() =~= s.take(k));
        assert(is_digit(s[k]));
        assert(is_digit(t.last()));
        lemma_digits_value_prefix_mono(s, k + 1);
    }
    if k == s.len() {
        assert(s.take(k) =~= s);
    }
}

/// Compares two strings character by character.
pub fn str_eq(a: &str, b: &str) -> (r: bool)
    ensures
        r == (a@ == b@),
{
    let la = a.unicode_len();
    let lb = b.unicode_len();
    if la != lb {
        return false;
    }
    let mut i: usize = 0;
    while i < la
        invariant
            la == a@.len(),
            lb == b@.len(),
            la == lb,
            i <= la,
            forall|k: int| 0 <= k < i ==> a@[k] == b@[k],
        decreases la - i,
    {
        if a.get_char(i) != b.get_char(i) {
            return false;
        }
        i = i + 1;
    }
    assert(a@ =~= b@);
    true
}

/// Appends a copy of `s` to a list of arguments.
pub fn push_text(v: &mut Vec<String>, s: &str)
    ensures
        final(v).deep_view() == old(v).deep_view().push(s@),
{
    v.push(String::from_str(s));
    assert(v.deep_view() =~= old(v).deep_view().push(s@));
}

/// Appends `s` to a list of arguments.
pub fn push_string(v: &mut Vec<String>, s: String)
    ensures
        final(v).deep_view() == old(v).deep_view().push(s@),
{
    let ghost sv = s@;
    v.push(s);
    assert(v.deep_view() =~= old(v).deep_view().push(sv));
}

/// Appends a list of arguments to another.
pub fn append_args(v: &mut Vec<String>, w: Vec<String>)
    ensures
        final(v).deep_view() == old(v).deep_view() + w.deep_view(),
{
    let ghost wv = w.deep_view();
    let mut w = w;
    v.append(&mut w);
    assert(v.deep_view() =~= old(v).deep_view() + wv);
}

/// Joins two pieces of text.
pub fn concat2(a: &str, b: &str) -> (r: String)
    ensures
        r@ == a@ + b@,
{
    let mut s = String::from_str(a);
    s.append(b);
    s
}

/// Joins three pieces of text.
pub fn concat3(a: &str, b: &str, c: &str) -> (r: String)
    ensures
        r@ == a@ + b@ + c@,
{
    let mut s = String::from_str(a);
    s.append(b);
    s.append(c);
    s
}

} // verus!
