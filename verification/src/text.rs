//! Text as sequences of characters: searching, replacing, trimming, and the
//! decimal notation of integers.

use vstd::prelude::*;

verus! {

/// `String::push`: the character is added at the end of the string and
/// nothing else changes.
#[verifier::external_body]
fn push_char(s: &mut String, c: char)
    ensures
        final(s)@ == old(s)@.push(c),
{
    s.push(c)
}

/// The characters of a string, in order.
pub fn to_chars(s: &str) -> (v: Vec<char>)
    ensures
        v@ == s@,
{
    let mut v: Vec<char> = Vec::new();
    for c in it: s.chars()
        invariant
            it.seq() == s@,
            v@ == s@.take(it.index() as int),
    {
        v.push(c);
        assert(v@ =~= s@.take(it.index() + 1));
    }
    assert(s@.take(s@.len() as int) =~= s@);
    v
}

/// The string made of the given characters.
pub fn from_chars(v: &Vec<char>) -> (s: String)
    ensures
        s@ == v@,
{
    let mut s = String::new();
    let mut i: usize = 0;
    while i < v.len()
        invariant
            i <= v.len(),
            s@ == v@.take(i as int),
        decreases v.len() - i,
    {
        push_char(&mut s, v[i]);
        i += 1;
        assert(s@ =~= v@.take(i as int));
    }
    assert(v@.take(v.len() as int) =~= v@);
    s
}

/// Adds the characters of `more` at the end of `out`.
pub fn push_all(out: &mut Vec<char>, more: &Vec<char>)
    ensures
        final(out)@ == old(out)@ + more@,
{
    let mut i: usize = 0;
    while i < more.len()
        invariant
            i <= more.len(),
            out@ == old(out)@ + more@.take(i as int),
        decreases more.len() - i,
    {
        out.push(more[i]);
        i += 1;
        assert(out@ =~= old(out)@ + more@.take(i as int));
    }
    assert(more@.take(more.len() as int) =~= more@);
}

/// Adds the characters of a string at the end of `out`.
pub fn push_str(out: &mut Vec<char>, more: &str)
    ensures
        final(out)@ == old(out)@ + more@,
{
    let chars = to_chars(more);
    push_all(out, &chars);
}

/// `pat` stands in `text` at position `at`.
pub open spec fn occurs_at(text: Seq<char>, at: int, pat: Seq<char>) -> bool {
    0 <= at && at + pat.len() <= text.len() && text.subrange(at, at + pat.len()) == pat
}

/// Whether `pat` stands in `text` at position `at`.
pub fn matches_at(text: &Vec<char>, at: usize, pat: &Vec<char>) -> (b: bool)
    ensures
        b == occurs_at(text@, at as int, pat@),
{
    if at > text.len() || pat.len() > text.len() - at {
        return false;
    }
    let mut k: usize = 0;
    while k < pat.len()
        invariant
            k <= pat.len(),
            at + pat.len() <= text.len(),
            forall|j: int| 0 <= j < k ==> text@[at + j] == pat@[j],
        decreases pat.len() - k,
    {
        if text[at + k] != pat[k] {
            assert(text@.subrange(at as int, at + pat.len())[k as int] == text@[at + k]);
            return false;
        }
        k += 1;
    }
    assert(text@.subrange(at as int, at + pat.len()) =~= pat@);
    true
}

/// What is left of `text` from position `from` on when every occurrence of
/// `pat` is replaced by `with`, the occurrences taken from left to right and
/// never overlapping.
pub open spec fn replaced_from(text: Seq<char>, pat: Seq<char>, with: Seq<char>, from: int) -> Seq<
    char,
>
    decreases text.len() - from,
{
    if from < 0 || from >= text.len() {
        Seq::empty()
    } else if pat.len() > 0 && occurs_at(text, from, pat) {
        with + replaced_from(text, pat, with, from + pat.len())
    } else {
        seq![text[from]] + replaced_from(text, pat, with, from + 1)
    }
}

/// `text` with every occurrence of the pattern `pat` replaced by `with`. An
/// empty pattern occurs nowhere.
pub open spec fn replaced(text: Seq<char>, pat: Seq<char>, with: Seq<char>) -> Seq<char> {
    replaced_from(text, pat, with, 0)
}

/// Replaces every occurrence of `pat` in `text` by `with`.
pub fn replace_all(text: &Vec<char>, pat: &Vec<char>, with: &Vec<char>) -> (out: Vec<char>)
    ensures
        out@ == replaced(text@, pat@, with@),
{
    let mut out: Vec<char> = Vec::new();
    let mut i: usize = 0;
    while i < text.len()
        invariant
            i <= text.len(),
            replaced(text@, pat@, with@) == out@ + replaced_from(text@, pat@, with@, i as int),
        decreases text.len() - i,
    {
        let ghost before = out@;
        if pat.len() > 0 && matches_at(text, i, pat) {
            push_all(&mut out, with);
            i += pat.len();
            assert(out@ + replaced_from(text@, pat@, with@, i as int) =~= before + (with@
                + replaced_from(text@, pat@, with@, i as int)));
        } else {
            out.push(text[i]);
            i += 1;
            assert(out@ + replaced_from(text@, pat@, with@, i as int) =~= before + (seq![
                text@[i - 1],
            ] + replaced_from(text@, pat@, with@, i as int)));
        }
    }
    assert(out@ + Seq::<char>::empty() =~= out@);
    out
}

/// The first position at or after `from` where `text` holds `c`, or the
/// length of `text` where it holds none.
pub open spec fn index_of_from(text: Seq<char>, c: char, from: int) -> int
    decreases text.len() - from,
{
    if from < 0 || from >= text.len() {
        text.len() as int
    } else if text[from] == c {
        from
    } else {
        index_of_from(text, c, from + 1)
    }
}

/// Finds the first position at or after `from` where `text` holds `c`.
pub fn find_from(text: &Vec<char>, c: char, from: usize) -> (at: usize)
    ensures
        at == index_of_from(text@, c, from as int),
        at <= text.len(),
        from <= text.len() ==> from <= at,
{
    if from >= text.len() {
        return text.len();
    }
    let mut i: usize = from;
    while i < text.len()
        invariant
            from <= i <= text.len(),
            index_of_from(text@, c, from as int) == index_of_from(text@, c, i as int),
        decreases text.len() - i,
    {
        if text[i] == c {
            return i;
        }
        i += 1;
    }
    i
}

/// The character that writes the digit `d`.
pub open spec fn digit_char(d: nat) -> char {
    if d == 0 {
        '0'
    } else if d == 1 {
        '1'
    } else if d == 2 {
        '2'
    } else if d == 3 {
        '3'
    } else if d == 4 {
        '4'
    } else if d == 5 {
        '5'
    } else if d == 6 {
        '6'
    } else if d == 7 {
        '7'
    } else if d == 8 {
        '8'
    } else {
        '9'
    }
}

/// The digit that a character writes, if it is one of '0' to '9'.
pub open spec fn digit_value(c: char) -> Option<nat> {
    if c == '0' {
        Some(0)
    } else if c == '1' {
        Some(1)
    } else if c == '2' {
        Some(2)
    } else if c == '3' {
        Some(3)
    } else if c == '4' {
        Some(4)
    } else if c == '5' {
        Some(5)
    } else if c == '6' {
        Some(6)
    } else if c == '7' {
        Some(7)
    } else if c == '8' {
        Some(8)
    } else if c == '9' {
        Some(9)
    } else {
        None
    }
}

/// The character for a digit below ten.
pub fn digit_to_char(d: u64) -> (c: char)
    requires
        d < 10,
    ensures
        c == digit_char(d as nat),
        digit_value(c) == Some(d as nat),
{
    if d == 0 {
        '0'
    } else if d == 1 {
        '1'
    } else if d == 2 {
        '2'
    } else if d == 3 {
        '3'
    } else if d == 4 {
        '4'
    } else if d == 5 {
        '5'
    } else if d == 6 {
        '6'
    } else if d == 7 {
        '7'
    } else if d == 8 {
        '8'
    } else {
        '9'
    }
}

/// The digit written by a character, if it is a decimal digit.
pub fn char_to_digit(c: char) -> (d: Option<u64>)
    ensures
        match d {
            Some(v) => digit_value(c) == Some(v as nat) && v < 10,
            None => digit_value(c) is None,
        },
{
    if c == '0' {
        Some(0)
    } else if c == '1' {
        Some(1)
    } else if c == '2' {
        Some(2)
    } else if c == '3' {
        Some(3)
    } else if c == '4' {
        Some(4)
    } else if c == '5' {
        Some(5)
    } else if c == '6' {
        Some(6)
    } else if c == '7' {
        Some(7)
    } else if c == '8' {
        Some(8)
    } else if c == '9' {
        Some(9)
    } else {
        None
    }
}

/// The decimal notation of a natural number, without leading zeros.
pub open spec fn decimal(n: nat) -> Seq<char>
    decreases n,
{
    if n < 10 {
        seq![digit_char(n)]
    } else {
        decimal(n / 10).push(digit_char(n % 10))
    }
}

/// The decimal notation of an integer: a minus sign before a negative one.
pub open spec fn signed_decimal(n: int) -> Seq<char> {
    if n < 0 {
        seq!['-'] + decimal((-n) as nat)
    } else {
        decimal(n as nat)
    }
}

/// Adds the decimal notation of `n` at the end of `out`.
pub fn push_decimal(out: &mut Vec<char>, n: u64)
    ensures
        final(out)@ == old(out)@ + decimal(n as nat),
    decreases n,
{
    if n >= 10 {
        push_decimal(out, n / 10);
    }
    out.push(digit_to_char(n % 10));
    assert(out@ =~= old(out)@ + decimal(n as nat));
}

/// Adds the decimal notation of a signed integer at the end of `out`.
pub fn push_signed_decimal(out: &mut Vec<char>, n: i64)
    ensures
        final(out)@ == old(out)@ + signed_decimal(n as int),
{
    if n < 0 {
        out.push('-');
        let magnitude: u64 = (-(n + 1)) as u64 + 1;
        push_decimal(out, magnitude);
        assert(out@ =~= old(out)@ + signed_decimal(n as int));
    } else {
        push_decimal(out, n as u64);
    }
}

/// The number written by a run of decimal digits; nothing where a character
/// is no digit. The empty run writes zero.
pub open spec fn digits_value(s: Seq<char>) -> Option<nat>
    decreases s.len(),
{
    if s.len() == 0 {
        Some(0)
    } else {
        match (digits_value(s.drop_last()), digit_value(s.last())) {
            (Some(high), Some(low)) => Some(high * 10 + low),
            _ => None,
        }
    }
}

/// The unsigned 64-bit integer that a text writes: an optional plus sign and
/// then at least one decimal digit, the number no larger than `u64::MAX`.
pub open spec fn parsed_u64(s: Seq<char>) -> Option<u64> {
    let body = if s.len() > 0 && s[0] == '+' {
        s.skip(1)
    } else {
        s
    };
    digits_as_u64(body)
}

/// The unsigned 64-bit integer written by a run of at least one digit.
pub open spec fn digits_as_u64(body: Seq<char>) -> Option<u64> {
    if body.len() == 0 {
        None
    } else {
        match digits_value(body) {
            Some(v) => if v <= u64::MAX {
                Some(v as u64)
            } else {
                None
            },
            None => None,
        }
    }
}

/// The decimal notation of a number is a run of digits that writes the
/// number.
pub proof fn lemma_decimal_is_digits(n: nat)
    ensures
        decimal(n).len() > 0,
        forall|i: int| 0 <= i < decimal(n).len() ==> digit_value(#[trigger] decimal(n)[i]) is Some,
        digits_value(decimal(n)) == Some(n),
    decreases n,
{
    let s = decimal(n);
    if n < 10 {
        assert(s.drop_last() =~= Seq::<char>::empty());
        assert(digits_value(s.drop_last()) == Some(0nat));
    } else {
        lemma_decimal_is_digits(n / 10);
        assert(s.drop_last() =~= decimal(n / 10));
        assert(s.last() == digit_char(n % 10));
        assert forall|i: int| 0 <= i < s.len() implies digit_value(#[trigger] s[i]) is Some by {
            if i < s.len() - 1 {
                assert(s[i] == decimal(n / 10)[i]);
            }
        }
    }
}

/// Reading the decimal notation of an unsigned integer gives the integer.
pub proof fn lemma_decimal_parses(n: u64)
    ensures
        parsed_u64(decimal(n as nat)) == Some(n),
{
    lemma_decimal_is_digits(n as nat);
    assert(digit_value(decimal(n as nat)[0]) is Some);
}

/// Reading the decimal notation of a signed integer gives the integer.
pub proof fn lemma_signed_decimal_parses(n: i64)
    ensures
        parsed_i64(signed_decimal(n as int)) == Some(n),
{
    let s = signed_decimal(n as int);
    if n < 0 {
        let magnitude = (-(n as int)) as nat;
        lemma_decimal_is_digits(magnitude);
        assert(s[0] == '-');
        assert(s.skip(1) =~= decimal(magnitude));
    } else {
        lemma_decimal_parses(n as u64);
        lemma_decimal_is_digits(n as nat);
        assert(digit_value(decimal(n as nat)[0]) is Some);
    }
}

/// Where `text` holds `c` at `to` and not between `from` and `to`, the first
/// position of `c` from `from` on is `to`.
pub proof fn lemma_index_of_first(text: Seq<char>, c: char, from: int, to: int)
    requires
        0 <= from <= to < text.len(),
        text[to] == c,
        forall|j: int| from <= j < to ==> text[j] != c,
    ensures
        index_of_from(text, c, from) == to,
    decreases to - from,
{
    if from < to {
        lemma_index_of_first(text, c, from + 1, to);
    }
}

/// A run of digits is worth at least as much as any of its beginnings.
proof fn lemma_digits_grow(s: Seq<char>, k: int)
    requires
        0 <= k <= s.len(),
        digits_value(s) is Some,
    ensures
        digits_value(s.take(k)) is Some,
        digits_value(s.take(k))->0 <= digits_value(s)->0,
    decreases s.len() - k,
{
    if k == s.len() {
        assert(s.take(k) =~= s);
    } else {
        lemma_digits_grow(s.drop_last(), k);
        assert(s.drop_last().take(k) =~= s.take(k));
    }
}

/// Reads the run of digits in `text` between `from` and `to`.
pub fn parse_digits(text: &Vec<char>, from: usize, to: usize) -> (r: Option<u64>)
    requires
        from <= to <= text.len(),
    ensures
        r == digits_as_u64(text@.subrange(from as int, to as int)),
{
    let ghost body = text@.subrange(from as int, to as int);
    if from == to {
        return None;
    }
    assert(body.take(0) =~= Seq::<char>::empty());
    let mut acc: u64 = 0;
    let mut i: usize = from;
    while i < to
        invariant
            from <= i <= to <= text.len(),
            body == text@.subrange(from as int, to as int),
            digits_value(body.take(i - from)) == Some(acc as nat),
        decreases to - i,
    {
        let ghost prefix = body.take(i - from + 1);
        assert(prefix.drop_last() =~= body.take(i - from));
        assert(prefix.last() == text@[i as int]);
        match char_to_digit(text[i]) {
            None => {
                proof {
                    if digits_value(body) is Some {
                        lemma_digits_grow(body, i - from + 1);
                    }
                }
                return None;
            },
            Some(d) => {
                if acc > (u64::MAX - d) / 10 {
                    proof {
                        assert(digits_value(prefix) == Some((acc * 10 + d) as nat));
                        if digits_value(body) is Some {
                            lemma_digits_grow(body, i - from + 1);
                        }
                    }
                    return None;
                }
                acc = acc * 10 + d;
            },
        }
        i += 1;
    }
    assert(body.take(to - from) =~= body);
    Some(acc)
}

/// Reads the unsigned integer written in `text` between `from` and `to`.
pub fn parse_u64(text: &Vec<char>, from: usize, to: usize) -> (r: Option<u64>)
    requires
        from <= to <= text.len(),
    ensures
        r == parsed_u64(text@.subrange(from as int, to as int)),
{
    let ghost s = text@.subrange(from as int, to as int);
    let start: usize = if from < to && text[from] == '+' {
        from + 1
    } else {
        from
    };
    assert(text@.subrange(start as int, to as int) =~= if s.len() > 0 && s[0] == '+' {
        s.skip(1)
    } else {
        s
    });
    parse_digits(text, start, to)
}

/// The signed 64-bit integer that a text writes: an optional sign and then
/// at least one decimal digit, the number within the range of `i64`.
pub open spec fn parsed_i64(s: Seq<char>) -> Option<i64> {
    if s.len() > 0 && s[0] == '-' {
        match digits_as_u64(s.skip(1)) {
            Some(v) => if v <= 0x8000_0000_0000_0000 {
                Some((-(v as int)) as i64)
            } else {
                None
            },
            None => None,
        }
    } else {
        match parsed_u64(s) {
            Some(v) => if v <= i64::MAX {
                Some(v as i64)
            } else {
                None
            },
            None => None,
        }
    }
}

/// Reads the signed integer that a text writes.
pub fn parse_i64(text: &str) -> (r: Option<i64>)
    ensures
        r == parsed_i64(text@),
{
    let chars = to_chars(text);
    let n: usize = chars.len();
    if n > 0 && chars[0] == '-' {
        assert(chars@.subrange(1, n as int) =~= text@.skip(1));
        match parse_digits(&chars, 1, n) {
            Some(v) => {
                if v <= 0x7fff_ffff_ffff_ffff {
                    Some(-(v as i64))
                } else if v == 0x8000_0000_0000_0000 {
                    Some(i64::MIN)
                } else {
                    None
                }
            },
            None => None,
        }
    } else {
        assert(chars@.subrange(0, n as int) =~= text@);
        match parse_u64(&chars, 0, n) {
            Some(v) => {
                if v <= 0x7fff_ffff_ffff_ffff {
                    Some(v as i64)
                } else {
                    None
                }
            },
            None => None,
        }
    }
}

/// The truth value that a text writes: `true` or `false`, nothing else.
pub open spec fn parsed_bool(s: Seq<char>) -> Option<bool> {
    if s == "true"@ {
        Some(true)
    } else if s == "false"@ {
        Some(false)
    } else {
        None
    }
}

/// Reads the truth value that a text writes.
pub fn parse_bool(text: &str) -> (r: Option<bool>)
    ensures
        r == parsed_bool(text@),
{
    if same_text(text, "true") {
        Some(true)
    } else if same_text(text, "false") {
        Some(false)
    } else {
        None
    }
}

/// The character is white space: one of the code points that Unicode gives
/// the property White_Space.
pub open spec fn is_whitespace(c: char) -> bool {
    let u = c as u32;
    ||| 0x09 <= u <= 0x0D
    ||| u == 0x20
    ||| u == 0x85
    ||| u == 0xA0
    ||| u == 0x1680
    ||| 0x2000 <= u <= 0x200A
    ||| u == 0x2028
    ||| u == 0x2029
    ||| u == 0x202F
    ||| u == 0x205F
    ||| u == 0x3000
}

/// Whether the character is white space.
pub fn char_is_whitespace(c: char) -> (b: bool)
    ensures
        b == is_whitespace(c),
{
    let u: u32 = c as u32;
    (0x09 <= u && u <= 0x0D) || u == 0x20 || u == 0x85 || u == 0xA0 || u == 0x1680 || (0x2000 <= u
        && u <= 0x200A) || u == 0x2028 || u == 0x2029 || u == 0x202F || u == 0x205F || u == 0x3000
}

/// The text holds nothing but white space.
pub open spec fn blank(s: Seq<char>) -> bool {
    forall|i: int| 0 <= i < s.len() ==> is_whitespace(#[trigger] s[i])
}

/// Whether the text holds nothing but white space.
pub fn is_blank(s: &str) -> (b: bool)
    ensures
        b == blank(s@),
{
    let chars = to_chars(s);
    let mut i: usize = 0;
    while i < chars.len()
        invariant
            i <= chars.len(),
            chars@ == s@,
            forall|j: int| 0 <= j < i ==> is_whitespace(#[trigger] s@[j]),
        decreases chars.len() - i,
    {
        if !char_is_whitespace(chars[i]) {
            return false;
        }
        i += 1;
    }
    true
}

/// The first position at or after `from` that holds no white space, or the
/// length of the text.
pub open spec fn content_start(s: Seq<char>, from: int) -> int
    decreases s.len() - from,
{
    if from < 0 || from >= s.len() {
        s.len() as int
    } else if is_whitespace(s[from]) {
        content_start(s, from + 1)
    } else {
        from
    }
}

/// The end of the last run of characters before `to` that is no white
/// space: the position just after it, or zero.
pub open spec fn content_end(s: Seq<char>, to: int) -> int
    decreases to,
{
    if to <= 0 || to > s.len() {
        0
    } else if is_whitespace(s[to - 1]) {
        content_end(s, to - 1)
    } else {
        to
    }
}

/// The text without the white space at its two ends.
pub open spec fn trimmed(s: Seq<char>) -> Seq<char> {
    let start = content_start(s, 0);
    let end = content_end(s, s.len() as int);
    if start < end {
        s.subrange(start, end)
    } else {
        Seq::empty()
    }
}

/// Removes the white space at the two ends of a text.
pub fn trim(text: &Vec<char>) -> (out: Vec<char>)
    ensures
        out@ == trimmed(text@),
{
    let n: usize = text.len();
    let mut start: usize = 0;
    while start < n && char_is_whitespace(text[start])
        invariant
            start <= n,
            n == text.len(),
            content_start(text@, 0) == content_start(text@, start as int),
        decreases n - start,
    {
        start += 1;
    }
    let mut end: usize = n;
    while end > 0 && char_is_whitespace(text[end - 1])
        invariant
            end <= n,
            n == text.len(),
            content_end(text@, n as int) == content_end(text@, end as int),
        decreases end,
    {
        end -= 1;
    }
    let mut out: Vec<char> = Vec::new();
    if start < end {
        let mut i: usize = start;
        while i < end
            invariant
                start <= i <= end <= text.len(),
                out@ == text@.subrange(start as int, i as int),
            decreases end - i,
        {
            out.push(text[i]);
            i += 1;
            assert(out@ =~= text@.subrange(start as int, i as int));
        }
    }
    out
}

/// The text without the characters that are neither ASCII nor white space.
pub open spec fn without_symbols(s: Seq<char>) -> Seq<char>
    decreases s.len(),
{
    if s.len() == 0 {
        Seq::empty()
    } else if (s.last() as u32) < 128 || is_whitespace(s.last()) {
        without_symbols(s.drop_last()).push(s.last())
    } else {
        without_symbols(s.drop_last())
    }
}

/// Removes the characters that are neither ASCII nor white space.
pub fn strip_symbols(text: &Vec<char>) -> (out: Vec<char>)
    ensures
        out@ == without_symbols(text@),
{
    let mut out: Vec<char> = Vec::new();
    let mut i: usize = 0;
    while i < text.len()
        invariant
            i <= text.len(),
            out@ == without_symbols(text@.take(i as int)),
        decreases text.len() - i,
    {
        let c: char = text[i];
        assert(text@.take(i + 1).drop_last() =~= text@.take(i as int));
        if (c as u32) < 128 || char_is_whitespace(c) {
            out.push(c);
        }
        i += 1;
    }
    assert(text@.take(text.len() as int) =~= text@);
    out
}

/// The code point of a character, with the ASCII capitals moved to their
/// small letters.
pub open spec fn lower_code(c: char) -> u32 {
    let u = c as u32;
    if 65 <= u <= 90 {
        (u + 32) as u32
    } else {
        u
    }
}

/// Two texts are equal but for the case of their ASCII letters.
pub open spec fn same_ignoring_case(a: Seq<char>, b: Seq<char>) -> bool {
    a.len() == b.len() && forall|i: int| 0 <= i < a.len() ==> lower_code(#[trigger] a[i])
        == lower_code(b[i])
}

fn char_lower_code(c: char) -> (u: u32)
    ensures
        u == lower_code(c),
{
    let u: u32 = c as u32;
    if 65 <= u && u <= 90 {
        u + 32
    } else {
        u
    }
}

/// Whether two texts are equal but for the case of their ASCII letters.
pub fn eq_ignoring_case(a: &str, b: &str) -> (same: bool)
    ensures
        same == same_ignoring_case(a@, b@),
{
    let x = to_chars(a);
    let y = to_chars(b);
    if x.len() != y.len() {
        return false;
    }
    let mut i: usize = 0;
    while i < x.len()
        invariant
            i <= x.len(),
            x.len() == y.len(),
            x@ == a@,
            y@ == b@,
            forall|j: int| 0 <= j < i ==> lower_code(#[trigger] a@[j]) == lower_code(b@[j]),
        decreases x.len() - i,
    {
        if char_lower_code(x[i]) != char_lower_code(y[i]) {
            return false;
        }
        i += 1;
    }
    true
}

/// Whether two texts hold the same characters.
pub fn same_text(a: &str, b: &str) -> (same: bool)
    ensures
        same == (a@ == b@),
{
    let x = to_chars(a);
    let y = to_chars(b);
    if x.len() != y.len() {
        return false;
    }
    let mut i: usize = 0;
    while i < x.len()
        invariant
            i <= x.len(),
            x.len() == y.len(),
            x@ == a@,
            y@ == b@,
            forall|j: int| 0 <= j < i ==> a@[j] == b@[j],
        decreases x.len() - i,
    {
        if x[i] != y[i] {
            return false;
        }
        i += 1;
    }
    assert(a@ =~= b@);
    true
}

} // verus!
