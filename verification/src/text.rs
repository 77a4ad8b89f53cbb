use vstd::prelude::*;
use vstd::string::StringExecFns;

verus! {

/// Whether `c` is one of the ten ASCII digits.
pub open spec fn is_digit(c: char) -> bool {
    '0' <= c <= '9'
}

/// The number that the ASCII digit `c` stands for.
pub open spec fn digit_value(c: char) -> nat {
    (c as int - '0' as int) as nat
}

/// Whether every character of `s` is an ASCII digit.
pub open spec fn all_digits(s: Seq<char>) -> bool {
    forall|i: int| 0 <= i < s.len() ==> is_digit(#[trigger] s[i])
}

/// The number that a run of ASCII digits denotes in base ten; the empty run
/// denotes zero.
pub open spec fn decimal_value(s: Seq<char>) -> nat
    decreases s.len(),
{
    if s.len() == 0 {
        0
    } else {
        10 * decimal_value(s.drop_last()) + digit_value(s.last())
    }
}

/// What is left of an unsigned literal once an optional leading `+` is gone.
pub open spec fn unsigned_digits(s: Seq<char>) -> Seq<char> {
    if s.len() > 0 && s[0] == '+' {
        s.drop_first()
    } else {
        s
    }
}

/// Reading of `s` as an unsigned 32-bit literal: an optional `+`, then one or
/// more ASCII digits and nothing else, denoting a number that fits.
pub open spec fn parse_unsigned(s: Seq<char>) -> Option<u32> {
    let digits = unsigned_digits(s);
    if digits.len() > 0 && all_digits(digits) && decimal_value(digits) <= u32::MAX {
        Some(decimal_value(digits) as u32)
    } else {
        None
    }
}

/// `s` with every thousands separator taken out.
pub open spec fn without_commas(s: Seq<char>) -> Seq<char> {
    s.filter(|c: char| c != ',')
}

/// The count that a text such as `12,345` stands for.
pub open spec fn parse_count(s: Seq<char>) -> Option<u32> {
    parse_unsigned(without_commas(s))
}

/// A run of digits denotes at least what any of its prefixes denotes.
pub proof fn lemma_decimal_value_grows(s: Seq<char>, k: int)
    requires
        0 <= k <= s.len(),
    ensures
        decimal_value(s.take(k)) <= decimal_value(s),
    decreases s.len(),
{
    if k == s.len() {
        assert(s.take(k) == s);
    } else {
        lemma_decimal_value_grows(s.drop_last(), k);
        assert(s.drop_last().take(k) == s.take(k));
    }
}

/// The characters of `text` that are not commas, in order.
pub fn strip_commas(text: &str) -> (kept: Vec<char>)
    ensures
        kept@ == without_commas(text@),
{
    let mut kept: Vec<char> = Vec::new();
    for c in it: text.chars()
        invariant
            it.seq() == text@,
            kept@ == without_commas(text@.take(it.index())),
    {
        proof {
            let i = it.index();
            reveal(Seq::filter);
            assert(text@.take(i + 1).drop_last() == text@.take(i));
        }
        if c != ',' {
            kept.push(c);
        }
    }
    proof {
        assert(text@.take(text@.len() as int) == text@);
    }
    kept
}

/// Reads `chars` as an unsigned 32-bit literal.
pub fn read_unsigned(chars: &[char]) -> (value: Option<u32>)
    ensures
        value == parse_unsigned(chars@),
{
    let n: usize = chars.len();
    let start: usize = if n > 0 && chars[0] == '+' {
        1
    } else {
        0
    };
    let ghost digits = unsigned_digits(chars@);
    if start == n {
        return None;
    }
    let mut acc: u64 = 0;
    let mut i: usize = start;
    while i < n
        invariant
            start <= i <= n,
            n == chars@.len(),
            digits == unsigned_digits(chars@),
            digits == chars@.skip(start as int),
            all_digits(digits.take(i - start)),
            acc == decimal_value(digits.take(i - start)),
            acc <= u32::MAX,
        decreases n - i,
    {
        let c = chars[i];
        let ghost seen = digits.take(i - start);
        let ghost next = digits.take(i + 1 - start);
        proof {
            assert(next.drop_last() == seen);
        }
        if !('0' <= c && c <= '9') {
            proof {
                assert(!is_digit(digits[i - start]));
            }
            return None;
        }
        let d: u64 = (c as u32 - '0' as u32) as u64;
        acc = acc * 10 + d;
        if acc > u32::MAX as u64 {
            proof {
                lemma_decimal_value_grows(digits, i + 1 - start);
            }
            return None;
        }
        proof {
            assert forall|k: int| 0 <= k < next.len() implies is_digit(#[trigger] next[k]) by {}
        }
        i = i + 1;
    }
    proof {
        assert(digits.take(n - start) == digits);
    }
    Some(acc as u32)
}

/// Reads a comment count: the commas are dropped and what is left is read as
/// an unsigned 32-bit literal.
pub fn read_count(text: &str) -> (count: Option<u32>)
    ensures
        count == parse_count(text@),
{
    let kept = strip_commas(text);
    read_unsigned(kept.as_slice())
}

/// The ASCII digit that stands for `d`, a number below ten.
pub open spec fn digit_char(d: nat) -> char {
    ('0' as int + d) as char
}

/// The shortest base-ten numeral of `n`.
pub open spec fn decimal(n: nat) -> Seq<char>
    decreases n,
{
    if n < 10 {
        seq![digit_char(n)]
    } else {
        decimal(n / 10).push(digit_char(n % 10))
    }
}

/// The first `n` characters of `s`, or all of `s` where it has fewer.
pub open spec fn leading(s: Seq<char>, n: nat) -> Seq<char> {
    if s.len() <= n {
        s
    } else {
        s.take(n as int)
    }
}

/// Whether `c` separates the tokens of a class attribute: a space, a tab, a
/// line feed, a form feed or a carriage return.
pub open spec fn is_space(c: char) -> bool {
    c == ' ' || c == '\t' || c == '\n' || c == '\x0C' || c == '\r'
}

/// Whether `s[from..to]` is a token of `s`: a run of characters that are not
/// separators, and one that cannot be made longer at either end.
pub open spec fn is_token_at(s: Seq<char>, from: int, to: int) -> bool {
    &&& 0 <= from < to <= s.len()
    &&& (from == 0 || is_space(s[from - 1]))
    &&& (to == s.len() || is_space(s[to]))
    &&& forall|k: int| from <= k < to ==> !is_space(#[trigger] s[k])
}

/// Whether `part` stands in `s` from position `at` on.
pub open spec fn starts_at(s: Seq<char>, at: int, part: Seq<char>) -> bool {
    0 <= at && at + part.len() <= s.len() && s.subrange(at, at + part.len()) == part
}

/// Whether `token` is one of the tokens of `s`.
pub open spec fn has_token(s: Seq<char>, token: Seq<char>) -> bool {
    exists|from: int, to: int| is_token_at(s, from, to) && #[trigger] s.subrange(from, to) == token
}

/// The one-character text of a digit.
fn digit_text(d: u32) -> (text: &'static str)
    requires
        d < 10,
    ensures
        text@ == seq![digit_char(d as nat)],
{
    proof {
        reveal_strlit("0");
        reveal_strlit("1");
        reveal_strlit("2");
        reveal_strlit("3");
        reveal_strlit("4");
        reveal_strlit("5");
        reveal_strlit("6");
        reveal_strlit("7");
        reveal_strlit("8");
        reveal_strlit("9");
    }
    let text: &'static str = match d {
        0 => "0",
        1 => "1",
        2 => "2",
        3 => "3",
        4 => "4",
        5 => "5",
        6 => "6",
        7 => "7",
        8 => "8",
        _ => "9",
    };
    text
}

/// Writes `n` in base ten, without sign or leading zeros.
pub fn decimal_text(n: u32) -> (text: String)
    ensures
        text@ == decimal(n as nat),
    decreases n,
{
    if n < 10 {
        String::from_str(digit_text(n))
    } else {
        let mut text = decimal_text(n / 10);
        let last: &'static str = digit_text(n % 10);
        text.append(last);
        text
    }
}

/// Cuts `text` down to its first `n` characters; a shorter text is kept whole.
pub fn first_chars(text: &str, n: usize) -> (head: String)
    ensures
        head@ == leading(text@, n as nat),
        text@.len() >= n ==> head@ == text@.subrange(0, n as int),
        text@.len() < n ==> head@ == text@,
{
    let len: usize = text.unicode_len();
    if len <= n {
        String::from_str(text)
    } else {
        String::from_str(text.substring_char(0, n))
    }
}

/// The characters of `text`, in order.
pub fn chars_of(text: &str) -> (chars: Vec<char>)
    ensures
        chars@ == text@,
{
    let mut chars: Vec<char> = Vec::new();
    for c in it: text.chars()
        invariant
            it.seq() == text@,
            chars@ == text@.take(it.index()),
    {
        chars.push(c);
    }
    chars
}

/// Tells whether `c` separates tokens.
pub fn is_space_char(c: char) -> (space: bool)
    ensures
        space == is_space(c),
{
    c == ' ' || c == '\t' || c == '\n' || c == '\x0C' || c == '\r'
}

/// Compares `s[from..to]` with `token`.
fn slice_equals(s: &[char], from: usize, to: usize, token: &[char]) -> (same: bool)
    requires
        from <= to <= s.len(),
    ensures
        same == (s@.subrange(from as int, to as int) == token@),
{
    let ghost part = s@.subrange(from as int, to as int);
    if to - from != token.len() {
        return false;
    }
    let mut k: usize = 0;
    while k < token.len()
        invariant
            from <= to <= s.len(),
            to - from == token.len(),
            k <= token.len(),
            part == s@.subrange(from as int, to as int),
            forall|m: int| 0 <= m < k ==> part[m] == token@[m],
        decreases token.len() - k,
    {
        if s[from + k] != token[k] {
            return false;
        }
        k = k + 1;
    }
    assert(part =~= token@);
    true
}

/// Tells whether `part` stands in `text` from position `at` on.
pub fn has_part_at(text: &[char], at: usize, part: &[char]) -> (found: bool)
    ensures
        found == starts_at(text@, at as int, part@),
{
    if at > text.len() || part.len() > text.len() - at {
        return false;
    }
    slice_equals(text, at, at + part.len(), part)
}

/// Looks for `token` among the tokens of `text`, where a token is a longest
/// run of characters that holds no separator.
pub fn contains_token(text: &str, token: &str) -> (found: bool)
    ensures
        found == has_token(text@, token@),
{
    let s = chars_of(text);
    let t = chars_of(token);
    let n: usize = s.len();
    let mut i: usize = 0;
    while i < n
        invariant
            i <= n,
            n == s@.len(),
            s@ == text@,
            t@ == token@,
            i == 0 || i == n || is_space(s@[i - 1]) || is_space(s@[i as int]),
            forall|a: int, b: int|
                is_token_at(s@, a, b) && a < i ==> #[trigger] s@.subrange(a, b) != t@,
        decreases n - i,
    {
        if is_space_char(s[i]) {
            i = i + 1;
        } else {
            let mut j: usize = i + 1;
            while j < n && !is_space_char(s[j])
                invariant
                    i < j <= n,
                    n == s@.len(),
                    forall|k: int| i <= k < j ==> !is_space(#[trigger] s@[k]),
                decreases n - j,
            {
                j = j + 1;
            }
            if slice_equals(s.as_slice(), i, j, t.as_slice()) {
                return true;
            }
            assert forall|a: int, b: int| is_token_at(s@, a, b) && a < j implies #[trigger] s@.subrange(
                a,
                b,
            ) != t@ by {}
            i = j;
        }
    }
    assert forall|a: int, b: int| is_token_at(s@, a, b) implies #[trigger] s@.subrange(a, b)
        != t@ by {}
    false
}

} // verus!
