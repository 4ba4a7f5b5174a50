//! Character-level helpers on strings: comparison, affixes, runs of decimal
//! digits, and signed integers written in decimal.

use vstd::prelude::*;
use vstd::string::StringExecFns;

verus! {

/// `String::push`: appends one character.
pub assume_specification[ String::push ](s: &mut String, c: char)
    ensures
        final(s)@ == old(s)@.push(c),
;

/// Whether `c` is a decimal digit.
pub open spec fn is_digit(c: char) -> bool {
    '0' <= c && c <= '9'
}

/// The value of a decimal digit.
pub open spec fn digit_value(c: char) -> nat {
    (c as nat - '0' as nat) as nat
}

/// The number that a sequence of decimal digits denotes; 0 for the empty
/// sequence.
pub open spec fn digits_value(s: Seq<char>) -> nat
    decreases s.len(),
{
    if s.len() == 0 {
        0
    } else {
        10 * digits_value(s.drop_last()) + digit_value(s.last())
    }
}

/// Whether every character is a decimal digit.
pub open spec fn all_digits(s: Seq<char>) -> bool {
    forall|i: int| 0 <= i < s.len() ==> is_digit(#[trigger] s[i])
}

/// The position just past the longest run of digits that starts at `from`.
pub open spec fn digit_run_end(s: Seq<char>, from: int) -> int
    decreases s.len() - from,
{
    if 0 <= from < s.len() && is_digit(s[from]) {
        digit_run_end(s, from + 1)
    } else {
        from
    }
}

/// The smaller of two numbers.
pub open spec fn min_nat(a: nat, b: nat) -> nat {
    if a <= b {
        a
    } else {
        b
    }
}

/// The integer that `s` denotes when it is an optional sign followed by one
/// or more decimal digits.
pub open spec fn int_text_value(s: Seq<char>) -> Option<int> {
    let signed = s.len() > 0 && (s[0] == '-' || s[0] == '+');
    let body = if signed {
        s.subrange(1, s.len() as int)
    } else {
        s
    };
    if body.len() > 0 && all_digits(body) {
        if signed && s[0] == '-' {
            Some(-(digits_value(body) as int))
        } else {
            Some(digits_value(body) as int)
        }
    } else {
        None
    }
}

/// What `parse_i64` returns: the value of the text when it fits in an `i64`.
pub open spec fn i64_text_value(s: Seq<char>) -> Option<i64> {
    match int_text_value(s) {
        Some(v) => if i64::MIN <= v <= i64::MAX {
            Some(v as i64)
        } else {
            None
        },
        None => None,
    }
}

/// The decimal digits of a natural number, most significant first; `"0"` for
/// zero.
pub open spec fn nat_digits(n: nat) -> Seq<char>
    decreases n,
{
    if n < 10 {
        seq![digit_char(n)]
    } else {
        nat_digits(n / 10).push(digit_char(n % 10))
    }
}

/// The digit for a value below ten.
pub open spec fn digit_char(d: nat) -> char
    recommends
        d < 10,
{
    if d == 0 {
        '0'
    } else if d == 1 {
        '1'
    } else if d == 2 {
        '2'
    } else if d == 3 {
        '3'
    } else if d == 4 {
        '4'
    } else if d == 5 {
        '5'
    } else if d == 6 {
        '6'
    } else if d == 7 {
        '7'
    } else if d == 8 {
        '8'
    } else {
        '9'
    }
}

/// The canonical decimal text of an integer: a minus sign for negatives, no
/// leading zeros.
pub open spec fn int_text(n: int) -> Seq<char> {
    if n < 0 {
        seq!['-'] + nat_digits((-n) as nat)
    } else {
        nat_digits(n as nat)
    }
}

/// A run of digits ends inside the text, holds only digits, and stops at
/// the first character that is none.
pub proof fn lemma_run_end_bounds(s: Seq<char>, from: int)
    requires
        0 <= from <= s.len(),
    ensures
        from <= digit_run_end(s, from) <= s.len(),
        all_digits(s.subrange(from, digit_run_end(s, from))),
        digit_run_end(s, from) < s.len() ==> !is_digit(s[digit_run_end(s, from)]),
    decreases s.len() - from,
{
    if from < s.len() && is_digit(s[from]) {
        lemma_run_end_bounds(s, from + 1);
        let end = digit_run_end(s, from);
        assert forall|i: int| 0 <= i < end - from implies is_digit(
            #[trigger] s.subrange(from, end)[i],
        ) by {
            if i > 0 {
                assert(s.subrange(from + 1, end)[i - 1] == s[from + i]);
            }
        }
    }
}

/// A run of digits that reaches `end` from `from` also reaches it from every
/// position in between.
pub proof fn lemma_run_end_from_inside(s: Seq<char>, from: int, mid: int)
    requires
        0 <= from <= mid <= s.len(),
        forall|i: int| from <= i < mid ==> is_digit(#[trigger] s[i]),
    ensures
        digit_run_end(s, from) == digit_run_end(s, mid),
    decreases mid - from,
{
    if from < mid {
        lemma_run_end_from_inside(s, from + 1, mid);
    }
}

proof fn lemma_nat_digits(n: nat)
    ensures
        nat_digits(n).len() > 0,
        all_digits(nat_digits(n)),
        digits_value(nat_digits(n)) == n,
    decreases n,
{
    if n < 10 {
        let s = nat_digits(n);
        assert(s.drop_last() =~= Seq::<char>::empty());
        assert(digits_value(s.drop_last()) == 0);
    } else {
        lemma_nat_digits(n / 10);
        let front = nat_digits(n / 10);
        let s = nat_digits(n);
        assert(s.drop_last() =~= front);
        assert forall|i: int| 0 <= i < s.len() implies is_digit(#[trigger] s[i]) by {
            if i < front.len() {
                assert(s[i] == front[i]);
            }
        }
    }
}

/// An integer written in decimal reads back as itself.
pub proof fn written_integers_read_back(n: i64)
    ensures
        i64_text_value(int_text(n as int)) == Some(n),
{
    let s = int_text(n as int);
    if n < 0 {
        let digits = nat_digits((-n) as nat);
        lemma_nat_digits((-n) as nat);
        assert(s.subrange(1, s.len() as int) =~= digits);
    } else {
        lemma_nat_digits(n as nat);
        assert(is_digit(s[0]));
    }
}

/// The characters of a string, in order.
pub fn chars_of(s: &str) -> (r: Vec<char>)
    ensures
        r@ == s@,
{
    let mut out: Vec<char> = Vec::new();
    for c in it: s.chars()
        invariant
            out@ == it.seq().take(it.index()),
            it.seq() == s@,
    {
        out.push(c);
    }
    out
}

/// The string made of the given characters.
pub fn string_of(chars: &Vec<char>) -> (r: String)
    ensures
        r@ == chars@,
{
    let mut out = String::new();
    let mut i: usize = 0;
    while i < chars.len()
        invariant
            i <= chars.len(),
            out@ == chars@.subrange(0, i as int),
        decreases chars.len() - i,
    {
        out.push(chars[i]);
        i = i + 1;
    }
    assert(chars@.subrange(0, chars.len() as int) == chars@);
    out
}

/// Whether two strings hold the same characters.
pub fn same_text(a: &str, b: &str) -> (r: bool)
    ensures
        r == (a@ == b@),
{
    let x = chars_of(a);
    let y = chars_of(b);
    if x.len() != y.len() {
        return false;
    }
    let mut i: usize = 0;
    while i < x.len()
        invariant
            i <= x.len(),
            x.len() == y.len(),
            x@ == a@,
            y@ == b@,
            forall|j: int| 0 <= j < i ==> x@[j] == y@[j],
        decreases x.len() - i,
    {
        if x[i] != y[i] {
            return false;
        }
        i = i + 1;
    }
    assert(x@ =~= y@);
    true
}

/// Whether `text` begins with `prefix`.
pub fn starts_with(text: &str, prefix: &str) -> (r: bool)
    ensures
        r == prefix@.is_prefix_of(text@),
{
    let p = chars_of(prefix);
    let mut matched: usize = 0;
    for c in it: text.chars()
        invariant
            it.seq() == text@,
            p@ == prefix@,
            matched <= p.len(),
            matched <= it.index(),
            matched < p.len() ==> matched == it.index(),
            forall|j: int| 0 <= j < matched ==> p@[j] == text@[j],
    {
        if matched < p.len() {
            if p[matched] != c {
                return false;
            }
            matched = matched + 1;
        }
    }
    if matched == p.len() {
        assert(prefix@ =~= text@.subrange(0, prefix@.len() as int));
        true
    } else {
        false
    }
}

/// Whether `text` ends with `suffix`.
pub fn ends_with(text: &Vec<char>, suffix: &str) -> (r: bool)
    ensures
        r == suffix@.is_suffix_of(text@),
{
    let s = chars_of(suffix);
    if s.len() > text.len() {
        return false;
    }
    let base: usize = text.len() - s.len();
    let mut i: usize = 0;
    while i < s.len()
        invariant
            i <= s.len(),
            s@ == suffix@,
            base + s.len() == text.len(),
            forall|j: int| 0 <= j < i ==> s@[j] == text@[base + j],
        decreases s.len() - i,
    {
        if s[i] != text[base + i] {
            assert(suffix@[i as int] != text@.subrange(base as int, text@.len() as int)[i as int]);
            return false;
        }
        i = i + 1;
    }
    assert(suffix@ =~= text@.subrange(text@.len() - suffix@.len(), text@.len() as int));
    true
}

/// Whether `c` occurs in `text`.
pub fn contains_char(text: &Vec<char>, c: char) -> (r: bool)
    ensures
        r == text@.contains(c),
{
    let mut i: usize = 0;
    while i < text.len()
        invariant
            i <= text.len(),
            forall|j: int| 0 <= j < i ==> text@[j] != c,
        decreases text.len() - i,
    {
        if text[i] == c {
            return true;
        }
        i = i + 1;
    }
    false
}

/// The end of the run of digits that starts at `from`.
pub fn run_end(text: &Vec<char>, from: usize) -> (end: usize)
    requires
        from <= text.len(),
    ensures
        end == digit_run_end(text@, from as int),
        from <= end <= text.len(),
{
    let mut i: usize = from;
    while i < text.len() && '0' <= text[i] && text[i] <= '9'
        invariant
            from <= i <= text.len(),
            forall|j: int| from <= j < i ==> is_digit(#[trigger] text@[j]),
        decreases text.len() - i,
    {
        i = i + 1;
    }
    proof {
        lemma_run_end_from_inside(text@, from as int, i as int);
    }
    i
}

/// The value of the digits in `text[from..to]`, or `cap` if the value is
/// larger than `cap`.
pub fn digits_capped(text: &Vec<char>, from: usize, to: usize, cap: u128) -> (r: u128)
    requires
        from <= to <= text.len(),
        all_digits(text@.subrange(from as int, to as int)),
        cap <= 0x1000_0000_0000_0000_0000_0000_0000_0000,
    ensures
        r == min_nat(digits_value(text@.subrange(from as int, to as int)), cap as nat),
{
    let mut acc: u128 = 0;
    let mut i: usize = from;
    while i < to
        invariant
            from <= i <= to <= text.len(),
            all_digits(text@.subrange(from as int, to as int)),
            cap <= 0x1000_0000_0000_0000_0000_0000_0000_0000,
            acc == min_nat(digits_value(text@.subrange(from as int, i as int)), cap as nat),
        decreases to - i,
    {
        let c = text[i];
        proof {
            let run = text@.subrange(from as int, i + 1);
            assert(run.drop_last() == text@.subrange(from as int, i as int));
            assert(run.last() == c);
            assert(text@.subrange(from as int, to as int)[i - from] == c);
        }
        let d: u128 = (c as u128) - ('0' as u128);
        let wide: u128 = acc * 10 + d;
        if wide >= cap {
            acc = cap;
        } else {
            acc = wide;
        }
        i = i + 1;
    }
    acc
}

/// Reads a signed decimal integer: an optional `+` or `-`, then one or more
/// digits and nothing else. `None` when the text has another shape or the
/// value does not fit.
pub fn parse_i64(s: &str) -> (r: Option<i64>)
    ensures
        r == i64_text_value(s@),
{
    let text = chars_of(s);
    let signed = text.len() > 0 && (text[0] == '-' || text[0] == '+');
    let start: usize = if signed {
        1
    } else {
        0
    };
    let end = run_end(&text, start);
    proof {
        lemma_run_end_bounds(text@, start as int);
        let body = text@.subrange(start as int, text@.len() as int);
        if !signed {
            assert(body == text@);
        }
        if end < text.len() {
            assert(body[end - start] == text@[end as int]);
        }
    }
    if end != text.len() || end == start {
        return None;
    }
    let limit: u128 = 9223372036854775808;
    let magnitude = digits_capped(&text, start, end, 9223372036854775809);
    if magnitude > limit {
        None
    } else if signed && text[0] == '-' {
        if magnitude == limit {
            Some(i64::MIN)
        } else {
            Some(-(magnitude as i64))
        }
    } else if magnitude == limit {
        None
    } else {
        Some(magnitude as i64)
    }
}

fn digit_to_char(d: u64) -> (c: char)
    requires
        d < 10,
    ensures
        c == digit_char(d as nat),
{
    if d == 0 {
        '0'
    } else if d == 1 {
        '1'
    } else if d == 2 {
        '2'
    } else if d == 3 {
        '3'
    } else if d == 4 {
        '4'
    } else if d == 5 {
        '5'
    } else if d == 6 {
        '6'
    } else if d == 7 {
        '7'
    } else if d == 8 {
        '8'
    } else {
        '9'
    }
}

fn push_nat_digits(n: u64, out: &mut String)
    ensures
        final(out)@ == old(out)@ + nat_digits(n as nat),
    decreases n,
{
    if n >= 10 {
        push_nat_digits(n / 10, out);
    }
    out.push(digit_to_char(n % 10));
    assert(final(out)@ =~= old(out)@ + nat_digits(n as nat));
}

/// Writes an integer in decimal: a minus sign for negatives, no leading
/// zeros.
pub fn render_i64(n: i64) -> (r: String)
    ensures
        r@ == int_text(n as int),
{
    let mut out = String::new();
    if n < 0 {
        out.push('-');
        let magnitude: u64 = if n == i64::MIN {
            9223372036854775808
        } else {
            (-n) as u64
        };
        push_nat_digits(magnitude, &mut out);
    } else {
        push_nat_digits(n as u64, &mut out);
    }
    assert(out@ =~= int_text(n as int));
    out
}

/// Whether every character is ASCII.
pub open spec fn ascii_only(s: Seq<char>) -> bool {
    forall|i: int| 0 <= i < s.len() ==> (#[trigger] s[i] as u32) < 128
}

/// Whether every character of `text` is ASCII.
pub fn is_ascii_only(text: &Vec<char>) -> (r: bool)
    ensures
        r == ascii_only(text@),
{
    let mut i: usize = 0;
    while i < text.len()
        invariant
            i <= text.len(),
            forall|j: int| 0 <= j < i ==> (#[trigger] text@[j] as u32) < 128,
        decreases text.len() - i,
    {
        if text[i] as u32 >= 128 {
            return false;
        }
        i = i + 1;
    }
    true
}

/// Whether `needle` occurs in `hay` at position `at`.
pub open spec fn occurs_at(hay: Seq<char>, needle: Seq<char>, at: int) -> bool {
    0 <= at && at + needle.len() <= hay.len() && hay.subrange(at, at + needle.len()) == needle
}

/// Whether `needle` occurs somewhere in `hay`.
pub open spec fn has_sub(hay: Seq<char>, needle: Seq<char>) -> bool {
    exists|at: int| occurs_at(hay, needle, at)
}

fn matches_at(hay: &Vec<char>, needle: &Vec<char>, at: usize) -> (r: bool)
    requires
        at + needle.len() <= hay.len(),
    ensures
        r == occurs_at(hay@, needle@, at as int),
{
    let mut i: usize = 0;
    while i < needle.len()
        invariant
            i <= needle.len(),
            at + needle.len() <= hay.len(),
            forall|j: int| 0 <= j < i ==> needle@[j] == hay@[at + j],
        decreases needle.len() - i,
    {
        if needle[i] != hay[at + i] {
            assert(hay@.subrange(at as int, at + needle@.len())[i as int] != needle@[i as int]);
            return false;
        }
        i = i + 1;
    }
    assert(hay@.subrange(at as int, at + needle@.len()) =~= needle@);
    true
}

/// Whether `needle` occurs somewhere in `hay`.
pub fn contains_text(hay: &Vec<char>, needle: &str) -> (r: bool)
    ensures
        r == has_sub(hay@, needle@),
{
    let n = chars_of(needle);
    if n.len() > hay.len() {
        return false;
    }
    let last: usize = hay.len() - n.len();
    let mut at: usize = 0;
    loop
        invariant
            at <= last,
            last + n.len() == hay.len(),
            n@ == needle@,
            forall|k: int| 0 <= k < at ==> !occurs_at(hay@, needle@, k),
        decreases last - at,
    {
        if matches_at(hay, &n, at) {
            return true;
        }
        if at == last {
            return false;
        }
        at = at + 1;
    }
}

/// Whether `text` begins with `prefix`.
pub fn begins_with(text: &Vec<char>, prefix: &str) -> (r: bool)
    ensures
        r == prefix@.is_prefix_of(text@),
{
    let p = chars_of(prefix);
    if p.len() > text.len() {
        return false;
    }
    let r = matches_at(text, &p, 0);
    r
}

/// The position of the first `c` at or after `from`, or the length of `s`
/// when there is none.
pub open spec fn index_of(s: Seq<char>, c: char, from: int) -> int
    decreases s.len() - from,
{
    if from < 0 || from >= s.len() {
        s.len() as int
    } else if s[from] == c {
        from
    } else {
        index_of(s, c, from + 1)
    }
}

/// The position of the first `c` at or after `from`, or the length of
/// `text` when there is none.
pub fn find_char(text: &Vec<char>, c: char, from: usize) -> (r: usize)
    requires
        from <= text.len(),
    ensures
        r == index_of(text@, c, from as int),
        from <= r <= text.len(),
{
    let mut i: usize = from;
    while i < text.len() && text[i] != c
        invariant
            from <= i <= text.len(),
            index_of(text@, c, from as int) == index_of(text@, c, i as int),
        decreases text.len() - i,
    {
        i = i + 1;
    }
    i
}

/// The string made of `text[from..to]`.
pub fn string_of_range(text: &Vec<char>, from: usize, to: usize) -> (r: String)
    requires
        from <= to <= text.len(),
    ensures
        r@ == text@.subrange(from as int, to as int),
{
    let mut out = String::new();
    let mut i: usize = from;
    while i < to
        invariant
            from <= i <= to <= text.len(),
            out@ == text@.subrange(from as int, i as int),
        decreases to - i,
    {
        out.push(text[i]);
        i = i + 1;
    }
    out
}

/// The views of a list of strings.
pub open spec fn string_views(list: Seq<String>) -> Seq<Seq<char>> {
    Seq::new(list.len(), |i: int| list[i]@)
}

/// `a`, `sep` and `b` written one after another.
pub fn joined(a: &str, sep: &str, b: &str) -> (r: String)
    ensures
        r@ == a@ + sep@ + b@,
{
    let mut out = a.to_owned();
    out.append(sep);
    out.append(b);
    out
}

} // verus!
