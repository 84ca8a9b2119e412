//! Character-level helpers: whitespace-separated fields and unsigned decimal numbers.

use vstd::prelude::*;
use vstd::string::*;

verus! {

/// The characters that separate fields: space, tab, line feed, vertical tab,
/// form feed and carriage return.
pub open spec fn is_space(c: char) -> bool {
    c == ' ' || c == '\t' || c == '\n' || c == '\u{b}' || c == '\u{c}' || c == '\r'
}

/// Length of the longest prefix of `s` whose characters all are (`space == true`)
/// or all are not (`space == false`) separators.
pub open spec fn run_len(s: Seq<char>, space: bool) -> nat
    decreases s.len(),
{
    if s.len() > 0 && is_space(s[0]) == space {
        1 + run_len(s.drop_first(), space)
    } else {
        0
    }
}

/// A run is no longer than the text.
pub proof fn lemma_run_len_bound(s: Seq<char>, space: bool)
    ensures
        run_len(s, space) <= s.len(),
    decreases s.len(),
{
    if s.len() > 0 && is_space(s[0]) == space {
        lemma_run_len_bound(s.drop_first(), space);
    }
}

/// `n` is the run length of `s` when the first `n` characters are of the asked
/// kind and the run cannot be extended.
pub proof fn lemma_run_len_is(s: Seq<char>, space: bool, n: int)
    requires
        0 <= n <= s.len(),
        forall|i: int| 0 <= i < n ==> is_space(#[trigger] s[i]) == space,
        n == s.len() || is_space(s[n]) != space,
    ensures
        run_len(s, space) == n,
    decreases n,
{
    if n > 0 {
        let t = s.drop_first();
        assert forall|i: int| 0 <= i < n - 1 implies is_space(#[trigger] t[i]) == space by {
            assert(t[i] == s[i + 1]);
        }
        lemma_run_len_is(t, space, n - 1);
    }
}

/// The whitespace-separated fields of `s`, in order: its maximal runs of
/// characters that are not separators.
pub open spec fn fields(s: Seq<char>) -> Seq<Seq<char>>
    decreases s.len(),
{
    let rest = s.skip(run_len(s, true) as int);
    let n = run_len(rest, false);
    if n == 0 {
        Seq::empty()
    } else {
        proof {
            lemma_run_len_bound(s, true);
            lemma_run_len_bound(rest, false);
        }
        seq![rest.take(n as int)] + fields(rest.skip(n as int))
    }
}

/// One field found: after the separators `s[pos..start]` comes the field
/// `s[start..end]`, which ends at a separator or at the end of `s`.
pub proof fn lemma_fields_step(s: Seq<char>, pos: int, start: int, end: int)
    requires
        0 <= pos <= start < end <= s.len(),
        forall|i: int| pos <= i < start ==> is_space(#[trigger] s[i]),
        forall|i: int| start <= i < end ==> !is_space(#[trigger] s[i]),
        end == s.len() || is_space(s[end]),
    ensures
        fields(s.skip(pos)) == seq![s.subrange(start, end)] + fields(s.skip(end)),
{
    let t = s.skip(pos);
    assert forall|i: int| 0 <= i < start - pos implies is_space(#[trigger] t[i]) by {
        assert(t[i] == s[pos + i]);
    }
    assert(t[start - pos] == s[start]);
    lemma_run_len_is(t, true, start - pos);
    let rest = t.skip(start - pos);
    assert(rest =~= s.skip(start));
    assert forall|i: int| 0 <= i < end - start implies !is_space(#[trigger] rest[i]) by {
        assert(rest[i] == s[start + i]);
    }
    if end < s.len() {
        assert(rest[end - start] == s[end]);
    }
    lemma_run_len_is(rest, false, end - start);
    assert(rest.take(end - start) =~= s.subrange(start, end));
    assert(rest.skip(end - start) =~= s.skip(end));
}

/// No field is left: `s[pos..]` holds separators only.
pub proof fn lemma_fields_done(s: Seq<char>, pos: int)
    requires
        0 <= pos <= s.len(),
        forall|i: int| pos <= i < s.len() ==> is_space(#[trigger] s[i]),
    ensures
        fields(s.skip(pos)) == Seq::<Seq<char>>::empty(),
{
    let t = s.skip(pos);
    assert forall|i: int| 0 <= i < t.len() implies is_space(#[trigger] t[i]) by {
        assert(t[i] == s[pos + i]);
    }
    lemma_run_len_is(t, true, t.len() as int);
    let rest = t.skip(t.len() as int);
    assert(rest.len() == 0);
}

/// Every character of a run is of the run's kind.
pub proof fn lemma_run_len_kind(s: Seq<char>, space: bool)
    ensures
        forall|i: int| 0 <= i < run_len(s, space) ==> is_space(#[trigger] s[i]) == space,
    decreases s.len(),
{
    if s.len() > 0 && is_space(s[0]) == space {
        let t = s.drop_first();
        lemma_run_len_kind(t, space);
        lemma_run_len_bound(s, space);
        assert forall|i: int| 0 <= i < run_len(s, space) implies is_space(#[trigger] s[i])
            == space by {
            if i > 0 {
                assert(s[i] == t[i - 1]);
            }
        }
    }
}

/// A word: one character or more, none of them a separator.
pub open spec fn is_word(w: Seq<char>) -> bool {
    w.len() > 0 && forall|i: int| 0 <= i < w.len() ==> !is_space(#[trigger] w[i])
}

/// A gap: separators only, possibly none.
pub open spec fn is_gap(g: Seq<char>) -> bool {
    forall|i: int| 0 <= i < g.len() ==> is_space(#[trigger] g[i])
}

/// Every field is a word: it is not empty and holds no separator.
pub proof fn lemma_fields_are_words(s: Seq<char>)
    ensures
        forall|i: int| 0 <= i < fields(s).len() ==> is_word(#[trigger] fields(s)[i]),
    decreases s.len(),
{
    let rest = s.skip(run_len(s, true) as int);
    let n = run_len(rest, false);
    if n != 0 {
        lemma_run_len_bound(s, true);
        lemma_run_len_bound(rest, false);
        lemma_run_len_kind(rest, false);
        let head = rest.take(n as int);
        let tail = fields(rest.skip(n as int));
        lemma_fields_are_words(rest.skip(n as int));
        assert(is_word(head));
        assert forall|i: int| 0 <= i < fields(s).len() implies is_word(
            #[trigger] fields(s)[i],
        ) by {
            if i > 0 {
                assert(fields(s)[i] == tail[i - 1]);
            }
        }
    }
}

/// The text that starts with `gaps[0]` and then holds each word followed by
/// the next gap.
pub open spec fn joined(words: Seq<Seq<char>>, gaps: Seq<Seq<char>>) -> Seq<char>
    recommends
        gaps.len() == words.len() + 1,
    decreases words.len(),
{
    if words.len() == 0 {
        gaps[0]
    } else {
        gaps[0] + words[0] + joined(words.drop_first(), gaps.drop_first())
    }
}

/// Whether `gaps` can separate `words`: one gap before each word and one
/// after the last, and no empty gap between two words.
pub open spec fn well_spaced(words: Seq<Seq<char>>, gaps: Seq<Seq<char>>) -> bool {
    &&& gaps.len() == words.len() + 1
    &&& forall|i: int| 0 <= i < words.len() ==> is_word(#[trigger] words[i])
    &&& forall|j: int| 0 <= j < gaps.len() ==> is_gap(#[trigger] gaps[j])
    &&& forall|j: int| 0 < j < words.len() ==> (#[trigger] gaps[j]).len() > 0
}

/// Splitting undoes joining: the fields of words joined by gaps are those
/// words, whatever the gaps hold.
pub proof fn lemma_fields_of_joined(words: Seq<Seq<char>>, gaps: Seq<Seq<char>>)
    requires
        well_spaced(words, gaps),
    ensures
        fields(joined(words, gaps)) == words,
    decreases words.len(),
{
    let s = joined(words, gaps);
    assert(s.skip(0) =~= s);
    if words.len() == 0 {
        lemma_fields_done(s, 0);
        assert(words =~= Seq::<Seq<char>>::empty());
    } else {
        let more_words = words.drop_first();
        let more_gaps = gaps.drop_first();
        let rest = joined(more_words, more_gaps);
        let start = gaps[0].len() as int;
        let end = start + words[0].len();
        assert(is_gap(gaps[0]));
        assert(is_word(words[0]));
        assert(is_gap(more_gaps[0])) by {
            assert(more_gaps[0] == gaps[1]);
        }
        if end < s.len() {
            assert(s[end] == rest[0]);
            if more_words.len() == 0 {
                assert(rest[0] == more_gaps[0][0]);
            } else {
                assert(more_gaps[0] == gaps[1]);
                assert(rest[0] == more_gaps[0][0]);
            }
            assert(is_space(s[end]));
        }
        lemma_fields_step(s, 0, start, end);
        assert(s.subrange(start, end) =~= words[0]);
        assert(s.skip(end) =~= rest);
        assert(well_spaced(more_words, more_gaps)) by {
            assert forall|i: int| 0 <= i < more_words.len() implies is_word(
                #[trigger] more_words[i],
            ) by {
                assert(more_words[i] == words[i + 1]);
            }
            assert forall|j: int| 0 <= j < more_gaps.len() implies is_gap(
                #[trigger] more_gaps[j],
            ) by {
                assert(more_gaps[j] == gaps[j + 1]);
            }
            assert forall|j: int| 0 < j < more_words.len() implies (#[trigger] more_gaps[j]).len()
                > 0 by {
                assert(more_gaps[j] == gaps[j + 1]);
            }
        }
        lemma_fields_of_joined(more_words, more_gaps);
        assert(seq![words[0]] + more_words =~= words);
    }
}

/// The pieces that `ranges` cut out of `s`.
pub open spec fn cut(s: Seq<char>, ranges: Seq<(usize, usize)>) -> Seq<Seq<char>> {
    Seq::new(ranges.len(), |i: int| s.subrange(ranges[i].0 as int, ranges[i].1 as int))
}

/// Whether `c` separates fields.
pub fn is_space_char(c: char) -> (b: bool)
    ensures
        b == is_space(c),
{
    c == ' ' || c == '\t' || c == '\n' || c == '\u{b}' || c == '\u{c}' || c == '\r'
}

/// The characters of `s`, one element for each.
pub fn chars_of(s: &str) -> (v: Vec<char>)
    ensures
        v@ == s@,
{
    let mut v: Vec<char> = Vec::new();
    for c in it: s.chars()
        invariant
            v@ == it.seq().take(it.index() as int),
            it.seq() == s@,
    {
        v.push(c);
    }
    v
}

/// Where the gap before the range `i` begins: at the end of the range before
/// it, or at the start of the text.
pub open spec fn gap_start(ranges: Seq<(usize, usize)>, i: int) -> int {
    if i == 0 {
        0
    } else {
        ranges[i - 1].1 as int
    }
}

/// Whether `s[from..to]` holds separators only.
pub open spec fn spaces_between(s: Seq<char>, from: int, to: int) -> bool {
    forall|k: int| from <= k < to ==> is_space(#[trigger] s[k])
}

/// Whether `s[from..to]` is a word.
pub open spec fn word_between(s: Seq<char>, from: int, to: int) -> bool {
    &&& 0 <= from < to <= s.len()
    &&& forall|k: int| from <= k < to ==> !is_space(#[trigger] s[k])
}

/// Whether the range `i` marks a field of `s`: a word, with nothing but
/// separators between it and the range before.
pub open spec fn field_marked(s: Seq<char>, ranges: Seq<(usize, usize)>, i: int) -> bool {
    &&& 0 <= gap_start(ranges, i) <= ranges[i].0
    &&& spaces_between(s, gap_start(ranges, i), ranges[i].0 as int)
    &&& word_between(s, ranges[i].0 as int, ranges[i].1 as int)
}

/// Whether `ranges` mark the fields of `s`: each range is a word, the ranges
/// come in order, and every character outside them, before, between and
/// after, is a separator.
pub open spec fn marks_fields(s: Seq<char>, ranges: Seq<(usize, usize)>) -> bool {
    &&& forall|i: int| 0 <= i < ranges.len() ==> #[trigger] field_marked(s, ranges, i)
    &&& spaces_between(s, gap_start(ranges, ranges.len() as int), s.len() as int)
}

/// One more range marks a field where those before it do: after them come
/// the separators `s[pos..start]` and the word `s[start..end]`.
proof fn lemma_marks_push(
    s: Seq<char>,
    ranges: Seq<(usize, usize)>,
    pos: int,
    start: usize,
    end: usize,
)
    requires
        0 <= pos <= start < end <= s.len(),
        pos == gap_start(ranges, ranges.len() as int),
        forall|i: int| 0 <= i < ranges.len() ==> #[trigger] field_marked(s, ranges, i),
        spaces_between(s, pos, start as int),
        word_between(s, start as int, end as int),
    ensures
        forall|i: int|
            0 <= i < ranges.len() + 1 ==> #[trigger] field_marked(s, ranges.push((start, end)), i),
        end == gap_start(ranges.push((start, end)), ranges.len() as int + 1),
{
    let more = ranges.push((start, end));
    let n = ranges.len() as int;
    assert forall|i: int| 0 <= i < n + 1 implies #[trigger] field_marked(s, more, i) by {
        if i < n {
            assert(field_marked(s, ranges, i));
            assert(more[i] == ranges[i]);
            assert(gap_start(more, i) == gap_start(ranges, i));
        } else {
            assert(more[i] == (start, end));
            assert(gap_start(more, i) == pos);
        }
    }
}

/// Where the fields of `chars` begin and end: one pair of indices, first
/// character and one past the last, for each field in order.
pub fn field_ranges(chars: &Vec<char>) -> (ranges: Vec<(usize, usize)>)
    ensures
        marks_fields(chars@, ranges@),
        cut(chars@, ranges@) == fields(chars@),
{
    let n = chars.len();
    let mut ranges: Vec<(usize, usize)> = Vec::new();
    let mut pos: usize = 0;
    proof {
        assert(chars@.skip(0) =~= chars@);
        assert(cut(chars@, ranges@) =~= Seq::<Seq<char>>::empty());
    }
    loop
        invariant
            n == chars@.len(),
            pos <= n,
            fields(chars@) == cut(chars@, ranges@) + fields(chars@.skip(pos as int)),
            pos == gap_start(ranges@, ranges@.len() as int),
            forall|i: int| 0 <= i < ranges@.len() ==> #[trigger] field_marked(chars@, ranges@, i),
        ensures
            cut(chars@, ranges@) == fields(chars@),
            marks_fields(chars@, ranges@),
        decreases n - pos,
    {
        let mut start: usize = pos;
        while start < n && is_space_char(chars[start])
            invariant
                n == chars@.len(),
                pos <= start <= n,
                forall|i: int| pos <= i < start ==> is_space(#[trigger] chars@[i]),
            decreases n - start,
        {
            start += 1;
        }
        if start == n {
            proof {
                lemma_fields_done(chars@, pos as int);
                assert(cut(chars@, ranges@) + Seq::<Seq<char>>::empty() =~= cut(chars@, ranges@));
            }
            break ;
        }
        let mut end: usize = start + 1;
        while end < n && !is_space_char(chars[end])
            invariant
                n == chars@.len(),
                start < end <= n,
                forall|i: int| start <= i < end ==> !is_space(#[trigger] chars@[i]),
            decreases n - end,
        {
            end += 1;
        }
        proof {
            lemma_fields_step(chars@, pos as int, start as int, end as int);
            assert(cut(chars@, ranges@.push((start, end))) =~= cut(chars@, ranges@)
                + seq![chars@.subrange(start as int, end as int)]);
            lemma_marks_push(chars@, ranges@, pos as int, start, end);
        }
        ranges.push((start, end));
        pos = end;
    }
    ranges
}

/// Whether `c` is one of the ten decimal digits `0` to `9`.
pub open spec fn is_digit(c: char) -> bool {
    '0' as u32 <= c as u32 <= '9' as u32
}

/// The number that the digit `c` stands for.
pub open spec fn digit_value(c: char) -> nat {
    (c as u32 - '0' as u32) as nat
}

/// Whether `s` holds decimal digits only.
pub open spec fn all_digits(s: Seq<char>) -> bool {
    forall|i: int| 0 <= i < s.len() ==> is_digit(#[trigger] s[i])
}

/// The number written by the digits `s`, the first digit weighing most.
pub open spec fn digits_value(s: Seq<char>) -> nat
    decreases s.len(),
{
    if s.len() == 0 {
        0
    } else {
        10 * digits_value(s.drop_last()) + digit_value(s.last())
    }
}

/// `s` without the one `+` that may stand before the digits.
pub open spec fn unsigned_digits(s: Seq<char>) -> Seq<char> {
    if s.len() > 0 && s[0] == '+' {
        s.drop_first()
    } else {
        s
    }
}

/// The number that `s` writes in base ten: an optional `+`, then one digit or
/// more. Anything else writes no number.
pub open spec fn decimal_value(s: Seq<char>) -> Option<nat> {
    let digits = unsigned_digits(s);
    if digits.len() > 0 && all_digits(digits) {
        Some(digits_value(digits))
    } else {
        None
    }
}

/// The number that `s` writes, where it is at most `max`.
pub open spec fn bounded_decimal(s: Seq<char>, max: u64) -> Option<u64> {
    match decimal_value(s) {
        Some(v) if v <= max => Some(v as u64),
        _ => None,
    }
}

/// Reading more digits never gives a smaller number.
pub proof fn lemma_digits_value_grows(s: Seq<char>, k: int)
    requires
        0 <= k <= s.len(),
    ensures
        digits_value(s.take(k)) <= digits_value(s),
    decreases s.len() - k,
{
    if k < s.len() {
        lemma_digits_value_grows(s.drop_last(), k);
        assert(s.drop_last().take(k) =~= s.take(k));
    } else {
        assert(s.take(k) =~= s);
    }
}

/// Reads `text` as an unsigned decimal number no larger than `max`.
pub fn parse_decimal(text: &[char], max: u64) -> (value: Option<u64>)
    ensures
        value == bounded_decimal(text@, max),
{
    let n = text.len();
    let first: usize = if n > 0 && text[0] == '+' { 1 } else { 0 };
    let ghost digits = unsigned_digits(text@);
    proof {
        assert(digits =~= text@.skip(first as int));
    }
    if first == n {
        return None;
    }
    let mut acc: u64 = 0;
    let mut i: usize = first;
    proof {
        assert(digits.take(0).len() == 0);
    }
    while i < n
        invariant
            n == text@.len(),
            first <= i <= n,
            digits == text@.skip(first as int),
            digits == unsigned_digits(text@),
            acc == digits_value(digits.take(i - first)),
            acc <= max,
            forall|j: int| 0 <= j < i - first ==> is_digit(#[trigger] digits[j]),
        decreases n - i,
    {
        let c = text[i];
        let code: u32 = c as u32;
        assert(digits[i - first] == c);
        if code < 48 || code > 57 {
            assert(!is_digit(digits[i - first]));
            return None;
        }
        let d: u64 = (code - 48) as u64;
        proof {
            let next = digits.take(i - first + 1);
            assert(next.drop_last() =~= digits.take(i - first));
            assert(next.last() == c);
            assert(digits_value(next) == 10 * acc + d);
            lemma_digits_value_grows(digits, i - first + 1);
        }
        if d > max || acc > (max - d) / 10 {
            return None;
        }
        acc = acc * 10 + d;
        i += 1;
    }
    proof {
        assert(digits.take(i - first) =~= digits);
    }
    Some(acc)
}

/// Reads `text` as an unsigned decimal number no larger than `max`: an
/// optional `+`, then digits, as many leading zeros as there may be.
pub fn parse_unsigned(text: &str, max: u64) -> (value: Option<u64>)
    ensures
        value == bounded_decimal(text@, max),
{
    let chars = chars_of(text);
    parse_decimal(chars.as_slice(), max)
}

/// The character that writes the one-digit number `d`.
pub open spec fn digit_char(d: nat) -> char {
    ('0' as u32 + d) as char
}

/// `n` written in base ten, without sign or leading zeros.
pub open spec fn decimal_digits(n: nat) -> Seq<char>
    decreases n,
{
    if n < 10 {
        seq![digit_char(n)]
    } else {
        decimal_digits(n / 10).push(digit_char(n % 10))
    }
}

/// Reading undoes writing: the digits written for `n` hold no sign and no
/// other character, and read back as `n`.
pub proof fn lemma_decimal_round_trip(n: nat)
    ensures
        decimal_digits(n).len() > 0,
        all_digits(decimal_digits(n)),
        digits_value(decimal_digits(n)) == n,
        decimal_value(decimal_digits(n)) == Some(n),
    decreases n,
{
    let d = decimal_digits(n);
    if n < 10 {
        assert(d.drop_last() =~= Seq::<char>::empty());
        assert(digits_value(d.drop_last()) == 0);
        assert(d.last() == digit_char(n));
    } else {
        lemma_decimal_round_trip(n / 10);
        let head = decimal_digits(n / 10);
        assert(d.drop_last() =~= head);
        assert(d.last() == digit_char(n % 10));
        assert forall|i: int| 0 <= i < d.len() implies is_digit(#[trigger] d[i]) by {
            if i < head.len() {
                assert(d[i] == head[i]);
            }
        }
    }
    assert(is_digit(d[0]));
    assert(unsigned_digits(d) == d);
}

fn digit_str(d: u128) -> (text: &'static str)
    requires
        d < 10,
    ensures
        text@ == seq![digit_char(d as nat)],
{
    let text = if d == 0 {
        "0"
    } else if d == 1 {
        "1"
    } else if d == 2 {
        "2"
    } else if d == 3 {
        "3"
    } else if d == 4 {
        "4"
    } else if d == 5 {
        "5"
    } else if d == 6 {
        "6"
    } else if d == 7 {
        "7"
    } else if d == 8 {
        "8"
    } else {
        "9"
    };
    proof {
        reveal_strlit("0");
        reveal_strlit("1");
        reveal_strlit("2");
        reveal_strlit("3");
        reveal_strlit("4");
        reveal_strlit("5");
        reveal_strlit("6");
        reveal_strlit("7");
        reveal_strlit("8");
        reveal_strlit("9");
        assert(text@ =~= seq![digit_char(d as nat)]);
    }
    text
}

/// Writes `n` in base ten.
pub fn decimal_string(n: u128) -> (text: String)
    ensures
        text@ == decimal_digits(n as nat),
    decreases n,
{
    if n < 10 {
        String::from_str(digit_str(n))
    } else {
        let mut text = decimal_string(n / 10);
        text.append(digit_str(n % 10));
        assert(text@ =~= decimal_digits(n as nat));
        text
    }
}

/// Whether `a` and `b` hold the same characters.
pub fn same_text(a: &str, b: &str) -> (same: bool)
    ensures
        same == (a@ == b@),
{
    let x = chars_of(a);
    let y = chars_of(b);
    if x.len() != y.len() {
        return false;
    }
    let mut i: usize = 0;
    while i < x.len()
        invariant
            x@ == a@,
            y@ == b@,
            x@.len() == y@.len(),
            i <= x@.len(),
            forall|j: int| 0 <= j < i ==> x@[j] == y@[j],
        decreases x@.len() - i,
    {
        if x[i] != y[i] {
            return false;
        }
        i += 1;
    }
    assert(x@ =~= y@);
    true
}

} // verus!
