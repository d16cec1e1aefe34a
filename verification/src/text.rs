//! Text handling: trimming, splitting on a separator, joining lines, and
//! decimal numbers.

use vstd::prelude::*;
use vstd::string::*;

verus! {

/// Whether `c` has the Unicode property White_Space: the controls from
/// tab to carriage return, the space, next line, the no-break space, and
/// the spaces and separators of the general punctuation block and beyond.
pub open spec fn is_whitespace(c: char) -> bool {
    ||| '\u{9}' <= c <= '\u{d}'
    ||| c == ' '
    ||| c == '\u{85}'
    ||| c == '\u{a0}'
    ||| c == '\u{1680}'
    ||| '\u{2000}' <= c <= '\u{200a}'
    ||| c == '\u{2028}'
    ||| c == '\u{2029}'
    ||| c == '\u{202f}'
    ||| c == '\u{205f}'
    ||| c == '\u{3000}'
}

/// Whether `c` is whitespace.
pub fn is_whitespace_char(c: char) -> (b: bool)
    ensures
        b == is_whitespace(c),
{
    (c >= '\u{9}' && c <= '\u{d}') || c == ' ' || c == '\u{85}' || c == '\u{a0}' || c == '\u{1680}'
        || (c >= '\u{2000}' && c <= '\u{200a}') || c == '\u{2028}' || c == '\u{2029}'
        || c == '\u{202f}' || c == '\u{205f}' || c == '\u{3000}'
}

/// `s` without its leading whitespace.
pub open spec fn trim_start(s: Seq<char>) -> Seq<char>
    decreases s.len(),
{
    if s.len() > 0 && is_whitespace(s[0]) {
        trim_start(s.skip(1))
    } else {
        s
    }
}

/// `s` without its trailing whitespace.
pub open spec fn trim_end(s: Seq<char>) -> Seq<char>
    decreases s.len(),
{
    if s.len() > 0 && is_whitespace(s.last()) {
        trim_end(s.drop_last())
    } else {
        s
    }
}

/// `s` without leading and trailing whitespace.
pub open spec fn trimmed(s: Seq<char>) -> Seq<char> {
    trim_end(trim_start(s))
}

/// Removes leading and trailing whitespace.
pub fn trim(s: &str) -> (r: String)
    ensures
        r@ == trimmed(s@),
{
    let n: usize = s.unicode_len();
    let mut i: usize = 0;
    assert(s@.skip(0) =~= s@);
    while i < n && is_whitespace_char(s.get_char(i))
        invariant
            i <= n,
            n == s@.len(),
            trim_start(s@) == trim_start(s@.skip(i as int)),
        decreases n - i,
    {
        assert(s@.skip(i as int).skip(1) =~= s@.skip(i as int + 1));
        i += 1;
    }
    let mut j: usize = n;
    while j > i && is_whitespace_char(s.get_char(j - 1))
        invariant
            i <= j <= n,
            n == s@.len(),
            trim_end(s@.skip(i as int)) == trim_end(s@.subrange(i as int, j as int)),
        decreases j,
    {
        assert(s@.subrange(i as int, j as int).drop_last() =~= s@.subrange(i as int, j as int - 1));
        j -= 1;
    }
    String::from_str(s.substring_char(i, j))
}

/// Whether `sep` stands at the start of `s`.
pub open spec fn starts_with(s: Seq<char>, sep: Seq<char>) -> bool {
    sep.len() <= s.len() && s.subrange(0, sep.len() as int) == sep
}

/// `pieces` with `head` put in front of its first piece.
pub open spec fn prepend(head: Seq<char>, pieces: Seq<Seq<char>>) -> Seq<Seq<char>> {
    seq![head + pieces[0]] + pieces.skip(1)
}

/// The pieces of `s` between the occurrences of `sep`, taken from the left
/// and without overlap. There is always at least one piece.
pub open spec fn split(s: Seq<char>, sep: Seq<char>) -> Seq<Seq<char>>
    decreases s.len(),
{
    if sep.len() == 0 || s.len() < sep.len() {
        seq![s]
    } else if starts_with(s, sep) {
        seq![Seq::<char>::empty()] + split(s.skip(sep.len() as int), sep)
    } else {
        prepend(seq![s[0]], split(s.skip(1), sep))
    }
}

/// The strings as sequences of characters, in order.
pub open spec fn string_views(v: Seq<String>) -> Seq<Seq<char>> {
    Seq::new(v.len(), |i: int| v[i]@)
}

/// Whether `sep` stands in `s` at position `at`.
fn matches_at(s: &str, sep: &str, at: usize, n: usize, m: usize) -> (r: bool)
    requires
        n == s@.len(),
        m == sep@.len(),
        at <= n,
    ensures
        r == starts_with(s@.skip(at as int), sep@),
{
    if n - at < m {
        return false;
    }
    let mut k: usize = 0;
    while k < m
        invariant
            k <= m,
            n == s@.len(),
            m == sep@.len(),
            at + m <= n,
            forall|j: int| 0 <= j < k ==> s@[at + j] == sep@[j],
        decreases m - k,
    {
        if s.get_char(at + k) != sep.get_char(k) {
            return false;
        }
        k += 1;
    }
    assert(s@.skip(at as int).subrange(0, m as int) =~= sep@);
    true
}

/// One step of a split where no separator starts: the first character joins
/// the piece in progress.
proof fn lemma_prepend_step(piece: Seq<char>, rest: Seq<char>, sep: Seq<char>)
    requires
        sep.len() > 0,
        rest.len() > 0,
        !starts_with(rest, sep),
    ensures
        prepend(piece, split(rest, sep)) == prepend(piece.push(rest[0]), split(rest.skip(1), sep)),
{
    if rest.len() < sep.len() {
        // no separator fits in `rest`, nor in what follows its first character
        assert(piece + rest =~= piece.push(rest[0]) + rest.skip(1));
    } else {
        let tail = split(rest.skip(1), sep);
        assert(piece + (seq![rest[0]] + tail[0]) =~= piece.push(rest[0]) + tail[0]);
    }
}

/// Splits `s` at every occurrence of `sep`, from the left and without
/// overlap. An empty `sep` splits nowhere.
pub fn split_on(s: &str, sep: &str) -> (pieces: Vec<String>)
    ensures
        string_views(pieces@) == split(s@, sep@),
{
    let n: usize = s.unicode_len();
    let m: usize = sep.unicode_len();
    let mut pieces: Vec<String> = Vec::new();
    if m == 0 {
        pieces.push(String::from_str(s));
        return pieces;
    }
    let mut start: usize = 0;
    let mut i: usize = 0;
    assert(s@.skip(0) =~= s@);
    while i < n
        invariant
            start <= i <= n,
            n == s@.len(),
            m == sep@.len(),
            m > 0,
            split(s@, sep@) == string_views(pieces@) + prepend(
                s@.subrange(start as int, i as int),
                split(s@.skip(i as int), sep@),
            ),
        decreases n - i,
    {
        let ghost rest = s@.skip(i as int);
        let ghost piece = s@.subrange(start as int, i as int);
        if matches_at(s, sep, i, n, m) {
            pieces.push(String::from_str(s.substring_char(start, i)));
            i += m;
            start = i;
            proof {
                assert(rest.skip(m as int) =~= s@.skip(i as int));
            }
        } else {
            proof {
                lemma_prepend_step(piece, rest, sep@);
                assert(rest.skip(1) =~= s@.skip(i as int + 1));
                assert(piece.push(rest[0]) =~= s@.subrange(start as int, i as int + 1));
            }
            i += 1;
        }
    }
    pieces.push(String::from_str(s.substring_char(start, n)));
    pieces
}

/// The characters of a text.
pub fn chars_of(s: &str) -> (chars: Vec<char>)
    ensures
        chars@ == s@,
{
    let n: usize = s.unicode_len();
    let mut chars: Vec<char> = Vec::new();
    let mut i: usize = 0;
    while i < n
        invariant
            i <= n,
            n == s@.len(),
            chars@ == s@.take(i as int),
        decreases n - i,
    {
        chars.push(s.get_char(i));
        i += 1;
    }
    chars
}

/// How often `pattern` stands in `s`; occurrences that overlap count each.
/// An empty pattern stands nowhere.
pub open spec fn occurrences(s: Seq<char>, pattern: Seq<char>) -> nat
    decreases s.len(),
{
    if pattern.len() == 0 || s.len() < pattern.len() {
        0
    } else {
        occurrences(s.skip(1), pattern) + if starts_with(s, pattern) {
            1nat
        } else {
            0nat
        }
    }
}

/// Counts how often `pattern` stands in `text`.
pub fn count_in(text: &Vec<char>, pattern: &str) -> (count: usize)
    ensures
        count == occurrences(text@, pattern@),
        count <= text@.len(),
{
    let wanted = chars_of(pattern);
    let n: usize = text.len();
    let m: usize = wanted.len();
    let mut count: usize = 0;
    if m == 0 {
        return 0;
    }
    let mut i: usize = 0;
    assert(text@.skip(0) =~= text@);
    while n - i >= m
        invariant
            i <= n,
            n == text@.len(),
            m == wanted@.len(),
            m > 0,
            wanted@ == pattern@,
            count <= i,
            occurrences(text@, pattern@) == count + occurrences(text@.skip(i as int), pattern@),
        decreases n - i,
    {
        let mut k: usize = 0;
        while k < m && text[i + k] == wanted[k]
            invariant
                k <= m,
                i + m <= n,
                n == text@.len(),
                m == wanted@.len(),
                forall|j: int| 0 <= j < k ==> text@[i + j] == wanted@[j],
            decreases m - k,
        {
            k += 1;
        }
        let ghost rest = text@.skip(i as int);
        if k == m {
            assert(rest.subrange(0, m as int) =~= wanted@);
            count += 1;
        }
        assert(rest.skip(1) =~= text@.skip(i as int + 1));
        i += 1;
    }
    count
}

/// `lines` with `sep` between each two neighbours.
pub open spec fn joined(lines: Seq<Seq<char>>, sep: Seq<char>) -> Seq<char>
    decreases lines.len(),
{
    if lines.len() == 0 {
        Seq::<char>::empty()
    } else if lines.len() == 1 {
        lines[0]
    } else {
        joined(lines.drop_last(), sep) + sep + lines.last()
    }
}

/// Joins the lines, with `sep` between each two neighbours.
pub fn join(lines: &Vec<String>, sep: &str) -> (r: String)
    ensures
        r@ == joined(string_views(lines@), sep@),
{
    let mut r = String::new();
    let mut i: usize = 0;
    while i < lines.len()
        invariant
            i <= lines.len(),
            r@ == joined(string_views(lines@).take(i as int), sep@),
        decreases lines.len() - i,
    {
        assert(string_views(lines@).take(i as int + 1).drop_last() =~= string_views(lines@).take(
            i as int,
        ));
        if i > 0 {
            r.append(sep);
        }
        r.append(lines[i].as_str());
        i += 1;
    }
    assert(string_views(lines@).take(i as int) =~= string_views(lines@));
    r
}

/// A text without the separating character is one piece.
pub proof fn lemma_split_without_separator(s: Seq<char>, c: char)
    requires
        !s.contains(c),
    ensures
        split(s, seq![c]) == seq![s],
    decreases s.len(),
{
    let sep = seq![c];
    if s.len() >= 1 {
        assert(s.subrange(0, 1)[0] == s[0]);
        let rest = s.skip(1);
        assert forall|i: int| 0 <= i < rest.len() implies rest[i] != c by {}
        lemma_split_without_separator(rest, c);
        assert(seq![s[0]] + rest =~= s);
    }
}

/// A text is split behind its first piece: where `head` is free of the
/// separating character, `head`, the character and `tail` split into `head`
/// and the pieces of `tail`.
pub proof fn lemma_split_first_piece(head: Seq<char>, c: char, tail: Seq<char>)
    requires
        !head.contains(c),
    ensures
        split(head + seq![c] + tail, seq![c]) == seq![head] + split(tail, seq![c]),
    decreases head.len(),
{
    let sep = seq![c];
    let s = head + sep + tail;
    if head.len() == 0 {
        assert(s.subrange(0, 1) =~= sep);
        assert(s.skip(1) =~= tail);
        assert(head =~= Seq::<char>::empty());
    } else {
        assert(s.subrange(0, 1)[0] == s[0]);
        let rest = head.skip(1);
        assert forall|i: int| 0 <= i < rest.len() implies rest[i] != c by {}
        lemma_split_first_piece(rest, c, tail);
        assert(s.skip(1) =~= rest + sep + tail);
        let pieces = seq![rest] + split(tail, sep);
        assert(seq![s[0]] + pieces[0] =~= head);
    }
}

/// Joined lines begin with the first line, then the separator, then the
/// other lines joined.
pub proof fn lemma_joined_first_line(lines: Seq<Seq<char>>, sep: Seq<char>)
    requires
        lines.len() >= 2,
    ensures
        joined(lines, sep) == lines[0] + sep + joined(lines.skip(1), sep),
    decreases lines.len(),
{
    let front = lines.drop_last();
    let others = lines.skip(1);
    if lines.len() == 2 {
        assert(joined(front, sep) == lines[0]);
    } else {
        lemma_joined_first_line(front, sep);
        assert(front.skip(1) =~= others.drop_last());
    }
}

/// Lines that are free of the separating character, joined by it and split
/// at it, are the lines again.
pub proof fn lemma_split_joined(lines: Seq<Seq<char>>, c: char)
    requires
        lines.len() >= 1,
        forall|i: int| 0 <= i < lines.len() ==> !(#[trigger] lines[i]).contains(c),
    ensures
        split(joined(lines, seq![c]), seq![c]) == lines,
    decreases lines.len(),
{
    let sep = seq![c];
    if lines.len() == 1 {
        lemma_split_without_separator(lines[0], c);
    } else {
        let others = lines.skip(1);
        assert forall|i: int| 0 <= i < others.len() implies !(#[trigger] others[i]).contains(
            c,
        ) by {}
        lemma_joined_first_line(lines, sep);
        lemma_split_joined(others, c);
        lemma_split_first_piece(lines[0], c, joined(others, sep));
    }
}

/// Whether `c` is one of the ten decimal digits.
pub open spec fn is_digit(c: char) -> bool {
    '0' <= c <= '9'
}

/// The number that the digit `c` stands for.
pub open spec fn digit_value(c: char) -> nat {
    (c as int - '0' as int) as nat
}

/// Whether `s` holds decimal digits only.
pub open spec fn all_digits(s: Seq<char>) -> bool {
    forall|i: int| 0 <= i < s.len() ==> is_digit(#[trigger] s[i])
}

/// The number that a sequence of decimal digits denotes.
pub open spec fn decimal_value(digits: Seq<char>) -> nat
    decreases digits.len(),
{
    if digits.len() == 0 {
        0
    } else {
        decimal_value(digits.drop_last()) * 10 + digit_value(digits.last())
    }
}

/// `s` without a plus sign in front.
pub open spec fn without_sign(s: Seq<char>) -> Seq<char> {
    if s.len() > 0 && s[0] == '+' {
        s.skip(1)
    } else {
        s
    }
}

/// The index that `s` denotes: an optional plus sign, then one or more
/// decimal digits and nothing else, with a value that fits.
pub open spec fn parsed_index(s: Seq<char>) -> Option<usize> {
    let digits = without_sign(s);
    if digits.len() > 0 && all_digits(digits) && decimal_value(digits) <= usize::MAX {
        Some(decimal_value(digits) as usize)
    } else {
        None
    }
}

/// A prefix of a digit sequence denotes no more than the whole.
proof fn lemma_decimal_value_prefix(digits: Seq<char>, k: int)
    requires
        0 <= k <= digits.len(),
    ensures
        decimal_value(digits.take(k)) <= decimal_value(digits),
    decreases digits.len(),
{
    if k == digits.len() {
        assert(digits.take(k) =~= digits);
    } else {
        lemma_decimal_value_prefix(digits.drop_last(), k);
        assert(digits.drop_last().take(k) =~= digits.take(k));
    }
}

/// Reads a decimal index. `None` where the text is not one, or does not fit.
pub fn parse_index(s: &str) -> (r: Option<usize>)
    ensures
        r == parsed_index(s@),
{
    let n: usize = s.unicode_len();
    let first: usize = if n > 0 && s.get_char(0) == '+' {
        1
    } else {
        0
    };
    let ghost digits = without_sign(s@);
    if first == n {
        return None;
    }
    let mut value: usize = 0;
    let mut i: usize = first;
    while i < n
        invariant
            first <= i <= n,
            n == s@.len(),
            digits == s@.skip(first as int),
            digits == without_sign(s@),
            all_digits(digits.take(i - first)),
            value == decimal_value(digits.take(i - first)),
        decreases n - i,
    {
        let c = s.get_char(i);
        let ghost next = digits.take(i - first + 1);
        assert(next.drop_last() =~= digits.take(i - first));
        assert(next.last() == c);
        if !(c >= '0' && c <= '9') {
            return None;
        }
        let d: usize = (c as u32 - '0' as u32) as usize;
        proof {
            lemma_decimal_value_prefix(digits, i - first + 1);
        }
        if value > (usize::MAX - d) / 10 {
            return None;
        }
        value = value * 10 + d;
        i += 1;
    }
    assert(digits.take(n - first) =~= digits);
    Some(value)
}

/// The decimal digit for a number below ten.
pub open spec fn digit_char(d: nat) -> char {
    if d == 0 {
        '0'
    } else if d == 1 {
        '1'
    } else if d == 2 {
        '2'
    } else if d == 3 {
        '3'
    } else if d == 4 {
        '4'
    } else if d == 5 {
        '5'
    } else if d == 6 {
        '6'
    } else if d == 7 {
        '7'
    } else if d == 8 {
        '8'
    } else {
        '9'
    }
}

/// The decimal digits of `n`, without leading zeros.
pub open spec fn decimal(n: nat) -> Seq<char>
    decreases n,
{
    if n < 10 {
        seq![digit_char(n)]
    } else {
        decimal(n / 10).push(digit_char(n % 10))
    }
}

/// The text of one decimal digit.
fn digit_text(d: usize) -> (r: &'static str)
    requires
        d < 10,
    ensures
        r@ == seq![digit_char(d as nat)],
{
    proof {
        reveal_strlit("0");
        reveal_strlit("1");
        reveal_strlit("2");
        reveal_strlit("3");
        reveal_strlit("4");
        reveal_strlit("5");
        reveal_strlit("6");
        reveal_strlit("7");
        reveal_strlit("8");
        reveal_strlit("9");
    }
    let r = if d == 0 {
        "0"
    } else if d == 1 {
        "1"
    } else if d == 2 {
        "2"
    } else if d == 3 {
        "3"
    } else if d == 4 {
        "4"
    } else if d == 5 {
        "5"
    } else if d == 6 {
        "6"
    } else if d == 7 {
        "7"
    } else if d == 8 {
        "8"
    } else {
        "9"
    };
    r
}

/// Writes `n` in decimal digits, without leading zeros.
pub fn format_number(n: u64) -> (r: String)
    ensures
        r@ == decimal(n as nat),
    decreases n,
{
    if n < 10 {
        String::from_str(digit_text(n as usize))
    } else {
        let mut r = format_number(n / 10);
        r.append(digit_text((n % 10) as usize));
        r
    }
}

/// Writes an index in decimal digits, without leading zeros.
pub fn format_index(n: usize) -> (r: String)
    ensures
        r@ == decimal(n as nat),
{
    format_number(n as u64)
}

/// The decimal digits of `n`, after a minus sign where `n` is negative.
pub open spec fn signed_decimal(n: int) -> Seq<char> {
    if n < 0 {
        seq!['-'] + decimal((-n) as nat)
    } else {
        decimal(n as nat)
    }
}

/// Writes an exit status in decimal digits, after a minus sign where it is
/// negative.
pub fn format_status(n: i32) -> (r: String)
    ensures
        r@ == signed_decimal(n as int),
{
    if n < 0 {
        proof {
            reveal_strlit("-");
        }
        let mut r = String::from_str("-");
        let magnitude: u64 = (-(n as i64)) as u64;
        r.append(format_number(magnitude).as_str());
        r
    } else {
        format_number(n as u64)
    }
}

/// What `decimal` writes is made of digits and denotes the number written.
pub proof fn lemma_decimal_digits(n: nat)
    ensures
        decimal(n).len() > 0,
        all_digits(decimal(n)),
        decimal_value(decimal(n)) == n,
    decreases n,
{
    if n < 10 {
        assert(decimal_value(decimal(n).drop_last()) == 0);
    } else {
        lemma_decimal_digits(n / 10);
        assert(decimal(n).drop_last() =~= decimal(n / 10));
    }
}

/// An index that was written in decimal is read back unchanged.
pub proof fn lemma_parse_format_roundtrip(n: usize)
    ensures
        parsed_index(decimal(n as nat)) == Some(n),
{
    lemma_decimal_digits(n as nat);
}

} // verus!
