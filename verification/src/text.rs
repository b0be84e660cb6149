//! Text as sequences of characters: decimal numbers, lines and white space.

use vstd::prelude::*;
use vstd::string::*;

verus! {

/// Whether two texts hold the same characters.
pub fn same_text(a: &str, b: &str) -> (r: bool)
    ensures
        r == (a@ == b@),
{
    a.to_owned() == b.to_owned()
}

/// The characters of a text.
pub fn chars_of(text: &str) -> (r: Vec<char>)
    ensures
        r@ == text@,
{
    let mut out: Vec<char> = Vec::new();
    for c in it: text.chars()
        invariant
            it.seq() == text@,
            out@ == text@.take(it.index()),
    {
        out.push(c);
    }
    out
}

/// The character of the decimal digit `d`.
pub open spec fn digit_char(d: int) -> char {
    (48 + d) as char
}

/// The decimal digits of a natural number, without leading zeros.
pub open spec fn decimal(n: nat) -> Seq<char>
    decreases n,
{
    if n < 10 {
        seq![digit_char(n as int)]
    } else {
        decimal(n / 10).push(digit_char((n % 10) as int))
    }
}

/// An integer in decimal, with a minus sign if it is negative.
pub open spec fn signed_decimal(n: int) -> Seq<char> {
    if n < 0 {
        seq!['-'] + decimal((-n) as nat)
    } else {
        decimal(n as nat)
    }
}

fn digit_text(d: u64) -> (r: &'static str)
    requires
        d < 10,
    ensures
        r@ == seq![digit_char(d as int)],
{
    proof {
        reveal_strlit("0");
        reveal_strlit("1");
        reveal_strlit("2");
        reveal_strlit("3");
        reveal_strlit("4");
        reveal_strlit("5");
        reveal_strlit("6");
        reveal_strlit("7");
        reveal_strlit("8");
        reveal_strlit("9");
    }
    match d {
        0 => "0",
        1 => "1",
        2 => "2",
        3 => "3",
        4 => "4",
        5 => "5",
        6 => "6",
        7 => "7",
        8 => "8",
        _ => "9",
    }
}

/// Writes a number in decimal.
pub fn decimal_text(n: u64) -> (r: String)
    ensures
        r@ == decimal(n as nat),
    decreases n,
{
    if n < 10 {
        digit_text(n).to_owned()
    } else {
        let mut head = decimal_text(n / 10);
        head.append(digit_text(n % 10));
        head
    }
}

/// Writes an integer in decimal.
pub fn signed_decimal_text(n: i32) -> (r: String)
    ensures
        r@ == signed_decimal(n as int),
{
    if n < 0 {
        proof {
            reveal_strlit("-");
        }
        let mut text = "-".to_owned();
        let magnitude: u64 = (-(n as i64)) as u64;
        text.append(decimal_text(magnitude).as_str());
        assert(text@ == seq!['-'] + decimal(magnitude as nat));
        text
    } else {
        decimal_text(n as u64)
    }
}

/// Whether a character is one of the ten ASCII digits.
pub open spec fn is_digit(c: char) -> bool {
    '0' <= c <= '9'
}

/// Whether a text consists of digits.
pub open spec fn all_digits(text: Seq<char>) -> bool {
    forall|i: int| 0 <= i < text.len() ==> is_digit(#[trigger] text[i])
}

/// The number that a row of digits writes.
pub open spec fn digits_value(digits: Seq<char>) -> nat
    decreases digits.len(),
{
    if digits.len() == 0 {
        0
    } else {
        10 * digits_value(digits.drop_last()) + ((digits.last() as int - 48) as nat)
    }
}

/// The integer that a text writes: an optional sign and at least one digit,
/// nothing else.
pub open spec fn written_int(text: Seq<char>) -> Option<int> {
    let signed = text.len() > 0 && (text[0] == '-' || text[0] == '+');
    let digits = if signed {
        text.drop_first()
    } else {
        text
    };
    if digits.len() > 0 && all_digits(digits) {
        if text[0] == '-' {
            Some(-(digits_value(digits) as int))
        } else {
            Some(digits_value(digits) as int)
        }
    } else {
        None
    }
}

/// The integer that a text writes, if a 32-bit signed integer can hold it.
pub open spec fn written_i32(text: Seq<char>) -> Option<i32> {
    match written_int(text) {
        Some(n) => if i32::MIN <= n <= i32::MAX {
            Some(n as i32)
        } else {
            None
        },
        None => None,
    }
}

proof fn lemma_digits_value_grows(digits: Seq<char>, k: int)
    requires
        0 <= k <= digits.len(),
    ensures
        digits_value(digits.take(k)) <= digits_value(digits),
    decreases digits.len(),
{
    if k == digits.len() {
        assert(digits.take(k) == digits);
    } else {
        lemma_digits_value_grows(digits.drop_last(), k);
        assert(digits.drop_last().take(k) == digits.take(k));
    }
}

/// Reads a 32-bit signed integer.
pub fn parse_i32(text: &str) -> (r: Option<i32>)
    ensures
        r == written_i32(text@),
{
    let chars = chars_of(text);
    if chars.len() == 0 {
        return None;
    }
    let negative: bool = chars[0] == '-';
    let start: usize = if negative || chars[0] == '+' { 1 } else { 0 };
    let ghost digits = text@.skip(start as int);
    assert(start == 1 ==> digits == text@.drop_first());
    assert(start == 0 ==> digits == text@);
    if chars.len() == start {
        return None;
    }
    let mut total: i64 = 0;
    let mut i: usize = start;
    assert(digits.take(0) == Seq::<char>::empty());
    while i < chars.len()
        invariant
            start <= i <= chars@.len(),
            start <= 1,
            chars@ == text@,
            digits == text@.skip(start as int),
            digits.len() == chars@.len() - start,
            digits.len() > 0,
            start == 1 ==> digits == text@.drop_first(),
            start == 0 ==> digits == text@,
            start == 1 <==> (text@[0] == '-' || text@[0] == '+'),
            0 <= total <= 2147483648,
            total == digits_value(digits.take(i - start)),
            forall|j: int| 0 <= j < i - start ==> is_digit(#[trigger] digits[j]),
        decreases chars@.len() - i,
    {
        let c = chars[i];
        assert(digits[i - start] == c);
        if !('0' <= c && c <= '9') {
            return None;
        }
        let ghost next = digits.take(i - start + 1);
        assert(next.drop_last() == digits.take(i - start));
        let value: i64 = (c as u32 - 48) as i64;
        total = total * 10 + value;
        assert(total == digits_value(next));
        if total > 2147483648 {
            proof {
                lemma_digits_value_grows(digits, i - start + 1);
            }
            return None;
        }
        i += 1;
    }
    assert(digits.take(digits.len() as int) == digits);
    if negative {
        Some((-total) as i32)
    } else if total <= 2147483647 {
        Some(total as i32)
    } else {
        None
    }
}

/// Whether a character is white space: the characters to which Unicode gives
/// the property `White_Space`.
pub open spec fn is_white_space(c: char) -> bool {
    ||| '\u{9}' <= c <= '\u{d}'
    ||| c == ' '
    ||| c == '\u{85}'
    ||| c == '\u{a0}'
    ||| c == '\u{1680}'
    ||| '\u{2000}' <= c <= '\u{200a}'
    ||| c == '\u{2028}'
    ||| c == '\u{2029}'
    ||| c == '\u{202f}'
    ||| c == '\u{205f}'
    ||| c == '\u{3000}'
}

/// Tells white space from other characters.
pub fn white_space(c: char) -> (r: bool)
    ensures
        r == is_white_space(c),
{
    ('\u{9}' <= c && c <= '\u{d}') || c == ' ' || c == '\u{85}' || c == '\u{a0}' || c == '\u{1680}'
        || ('\u{2000}' <= c && c <= '\u{200a}') || c == '\u{2028}' || c == '\u{2029}' || c == '\u{202f}'
        || c == '\u{205f}' || c == '\u{3000}'
}

/// A text without the white space it begins with.
pub open spec fn trim_start(text: Seq<char>) -> Seq<char>
    decreases text.len(),
{
    if text.len() > 0 && is_white_space(text[0]) {
        trim_start(text.drop_first())
    } else {
        text
    }
}

/// A text without the white space it ends with.
pub open spec fn trim_end(text: Seq<char>) -> Seq<char>
    decreases text.len(),
{
    if text.len() > 0 && is_white_space(text.last()) {
        trim_end(text.drop_last())
    } else {
        text
    }
}

/// A text without the white space around it.
pub open spec fn trim(text: Seq<char>) -> Seq<char> {
    trim_end(trim_start(text))
}

/// How many characters stand before the first line feed.
pub open spec fn first_line_feed(text: Seq<char>) -> nat
    decreases text.len(),
{
    if text.len() == 0 || text[0] == '\n' {
        0
    } else {
        1 + first_line_feed(text.drop_first())
    }
}

/// A line without the carriage return that belongs to its line feed.
pub open spec fn without_carriage_return(line: Seq<char>) -> Seq<char> {
    if line.len() > 0 && line.last() == '\r' {
        line.drop_last()
    } else {
        line
    }
}

/// The lines of a text. A line feed, with a carriage return before it or not,
/// ends a line and is no part of it; the last line may do without.
pub open spec fn lines(text: Seq<char>) -> Seq<Seq<char>>
    decreases text.len(),
{
    let n = first_line_feed(text);
    if text.len() == 0 {
        Seq::empty()
    } else if n >= text.len() {
        seq![text]
    } else {
        seq![without_carriage_return(text.take(n as int))] + lines(text.skip(n as int + 1))
    }
}

/// Finds the borders of what is left of `text[from..to]` when the white space
/// around it is taken away.
pub fn trimmed(text: &Vec<char>, from: usize, to: usize) -> (r: (usize, usize))
    requires
        from <= to <= text@.len(),
    ensures
        from <= r.0 <= r.1 <= to,
        text@.subrange(r.0 as int, r.1 as int) == trim(text@.subrange(from as int, to as int)),
{
    let mut start: usize = from;
    while start < to && white_space(text[start])
        invariant
            from <= start <= to <= text@.len(),
            trim_start(text@.subrange(start as int, to as int)) == trim_start(
                text@.subrange(from as int, to as int),
            ),
        ensures
            from <= start <= to <= text@.len(),
            text@.subrange(start as int, to as int) == trim_start(
                text@.subrange(from as int, to as int),
            ),
        decreases to - start,
    {
        assert(text@.subrange(start as int, to as int).drop_first() == text@.subrange(
            start + 1,
            to as int,
        ));
        start += 1;
    }
    let mut end: usize = to;
    while end > start && white_space(text[end - 1])
        invariant
            start <= end <= to <= text@.len(),
            trim_end(text@.subrange(start as int, end as int)) == trim_end(
                text@.subrange(start as int, to as int),
            ),
        ensures
            start <= end <= to <= text@.len(),
            text@.subrange(start as int, end as int) == trim_end(
                text@.subrange(start as int, to as int),
            ),
        decreases end - start,
    {
        assert(text@.subrange(start as int, end as int).drop_last() == text@.subrange(
            start as int,
            end - 1,
        ));
        end -= 1;
    }
    (start, end)
}

/// Finds the first line feed of a text from a given place on, or the end of
/// the text.
pub fn find_line_feed(text: &Vec<char>, from: usize) -> (r: usize)
    requires
        from <= text@.len(),
    ensures
        from <= r <= text@.len(),
        r - from == first_line_feed(text@.skip(from as int)),
{
    let mut i: usize = from;
    while i < text.len() && text[i] != '\n'
        invariant
            from <= i <= text@.len(),
            first_line_feed(text@.skip(from as int)) == i - from + first_line_feed(
                text@.skip(i as int),
            ),
        ensures
            from <= i <= text@.len(),
            first_line_feed(text@.skip(from as int)) == i - from,
        decreases text@.len() - i,
    {
        assert(text@.skip(i as int).drop_first() == text@.skip(i + 1));
        i += 1;
    }
    i
}

proof fn lemma_decimal_digits(n: nat)
    ensures
        decimal(n).len() > 0,
        all_digits(decimal(n)),
        digits_value(decimal(n)) == n,
    decreases n,
{
    if n < 10 {
        assert(decimal(n).drop_last() == Seq::<char>::empty());
        reveal_with_fuel(digits_value, 2);
    } else {
        lemma_decimal_digits(n / 10);
        assert(decimal(n).drop_last() == decimal(n / 10));
    }
}

/// An integer that is written in decimal reads as itself.
pub proof fn law_decimal_reads_back(n: i32)
    ensures
        written_i32(signed_decimal(n as int)) == Some(n),
{
    if n < 0 {
        let digits = decimal((-(n as int)) as nat);
        lemma_decimal_digits((-(n as int)) as nat);
        assert(signed_decimal(n as int).drop_first() == digits);
    } else {
        let digits = decimal(n as nat);
        lemma_decimal_digits(n as nat);
        assert(is_digit(digits[0]));
    }
}

/// No two numbers are written alike.
pub proof fn law_decimal_is_unambiguous(a: nat, b: nat)
    requires
        decimal(a) == decimal(b),
    ensures
        a == b,
{
    lemma_decimal_digits(a);
    lemma_decimal_digits(b);
}

/// A number in decimal is a row of digits without a leading zero, the last of
/// which is what a division by ten leaves and the others of which write the
/// quotient.
pub proof fn law_decimal_digits(n: nat)
    ensures
        n < 10 ==> decimal(n) == seq![(48 + n) as char],
        n >= 10 ==> decimal(n) == decimal(n / 10).push((48 + n % 10) as char),
        n > 0 ==> decimal(n)[0] != '0',
    decreases n,
{
    if n >= 10 {
        law_decimal_digits(n / 10);
        lemma_decimal_digits(n / 10);
    }
}

/// Whatever integer is written in decimal, with a minus sign if it is
/// negative, reads as itself, but as nothing if 32 bits cannot hold it.
pub proof fn law_written_integers_are_read(n: int)
    ensures
        -2147483648 <= n <= 2147483647 ==> written_i32(signed_decimal(n)) == Some(n as i32),
        !(-2147483648 <= n <= 2147483647) ==> written_i32(signed_decimal(n)) is None,
        n >= 0 ==> signed_decimal(n) == decimal(n as nat),
        n < 0 ==> signed_decimal(n) == seq!['-'] + decimal((-n) as nat),
{
    if n < 0 {
        let digits = decimal((-n) as nat);
        lemma_decimal_digits((-n) as nat);
        assert(signed_decimal(n).drop_first() == digits);
    } else {
        lemma_decimal_digits(n as nat);
        assert(is_digit(decimal(n as nat)[0]));
    }
}

/// A row of digits writes a number; one more digit at its end makes it ten
/// times that and the digit; a sign before it negates it or not.
pub proof fn law_digits_count_by_their_places(digits: Seq<char>, c: char)
    requires
        digits.len() > 0,
        forall|i: int| 0 <= i < digits.len() ==> '0' <= #[trigger] digits[i] <= '9',
        '0' <= c <= '9',
    ensures
        written_int(seq![c]) == Some(c as int - 48),
        written_int(digits) matches Some(n) && {
            &&& n >= 0
            &&& written_int(digits.push(c)) == Some(10 * n + (c as int - 48))
            &&& written_int(seq!['-'] + digits) == Some(-n)
            &&& written_int(seq!['+'] + digits) == Some(n)
        },
{
    let longer = digits.push(c);
    let minus = seq!['-'] + digits;
    let plus = seq!['+'] + digits;
    let alone = seq![c];
    assert forall|i: int| 0 <= i < digits.len() implies is_digit(#[trigger] digits[i]) by {}
    assert(all_digits(digits));
    assert(digits[0] != '-' && digits[0] != '+');
    assert(written_int(digits) == Some(digits_value(digits) as int));
    assert forall|i: int| 0 <= i < longer.len() implies is_digit(#[trigger] longer[i]) by {
        if i < digits.len() {
            assert(longer[i] == digits[i]);
        }
    }
    assert(all_digits(longer));
    assert(longer[0] == digits[0]);
    assert(longer.drop_last() =~= digits);
    assert(digits_value(longer) == 10 * digits_value(digits) + (c as int - 48) as nat);
    assert(written_int(longer) == Some(digits_value(longer) as int));
    assert(minus[0] == '-');
    assert(minus.drop_first() =~= digits);
    assert(written_int(minus) == Some(-(digits_value(digits) as int)));
    assert(plus[0] == '+');
    assert(plus.drop_first() =~= digits);
    assert(written_int(plus) == Some(digits_value(digits) as int));
    assert(all_digits(alone));
    assert(alone[0] == c && c != '-' && c != '+');
    assert(alone.drop_last() =~= Seq::<char>::empty());
    assert(digits_value(Seq::<char>::empty()) == 0);
    assert(digits_value(alone) == c as int - 48);
}

/// Nothing but digits, with one sign before them at most, writes an integer;
/// and 32 bits are the only limit to what is read.
pub proof fn law_only_digits_write_integers(text: Seq<char>, n: i32)
    ensures
        written_int(text) is Some ==> {
            let from: int = if text[0] == '-' || text[0] == '+' {
                1
            } else {
                0
            };
            &&& from < text.len()
            &&& forall|i: int| from <= i < text.len() ==> '0' <= #[trigger] text[i] <= '9'
        },
        written_i32(text) == Some(n) <==> written_int(text) == Some(n as int),
{
    if written_int(text) is Some {
        if text[0] == '-' || text[0] == '+' {
            let digits = text.drop_first();
            assert forall|i: int| 1 <= i < text.len() implies '0' <= #[trigger] text[i] <= '9' by {
                assert(is_digit(digits[i - 1]));
            }
        } else {
            assert forall|i: int| 0 <= i < text.len() implies '0' <= #[trigger] text[i] <= '9' by {
                assert(is_digit(text[i]));
            }
        }
    }
}

proof fn lemma_trim_start_place(text: Seq<char>) -> (k: int)
    ensures
        0 <= k <= text.len(),
        trim_start(text) == text.skip(k),
        forall|i: int| 0 <= i < k ==> is_white_space(#[trigger] text[i]),
        k < text.len() ==> !is_white_space(text[k]),
    decreases text.len(),
{
    if text.len() > 0 && is_white_space(text[0]) {
        let rest = text.drop_first();
        let k = lemma_trim_start_place(rest);
        assert(rest.skip(k) == text.skip(k + 1));
        assert forall|i: int| 0 <= i < k + 1 implies is_white_space(#[trigger] text[i]) by {
            if i > 0 {
                assert(rest[i - 1] == text[i]);
            }
        }
        k + 1
    } else {
        assert(text.skip(0) == text);
        0
    }
}

proof fn lemma_trim_end_place(text: Seq<char>) -> (k: int)
    ensures
        0 <= k <= text.len(),
        trim_end(text) == text.take(k),
        forall|i: int| k <= i < text.len() ==> is_white_space(#[trigger] text[i]),
        k > 0 ==> !is_white_space(text[k - 1]),
    decreases text.len(),
{
    if text.len() > 0 && is_white_space(text.last()) {
        let rest = text.drop_last();
        let k = lemma_trim_end_place(rest);
        assert(rest.take(k) == text.take(k));
        assert forall|i: int| k <= i < text.len() implies is_white_space(#[trigger] text[i]) by {
            if i < rest.len() {
                assert(rest[i] == text[i]);
            }
        }
        k
    } else {
        assert(text.take(text.len() as int) == text);
        text.len() as int
    }
}

/// Trimming takes white space away at both ends, and nothing else; what is
/// left neither begins nor ends with it.
pub proof fn law_trim_takes_white_space_away(text: Seq<char>) -> (r: (int, int))
    ensures
        0 <= r.0 <= r.1 <= text.len(),
        trim(text) == text.subrange(r.0, r.1),
        forall|i: int| 0 <= i < r.0 ==> is_white_space(#[trigger] text[i]),
        forall|i: int| r.1 <= i < text.len() ==> is_white_space(#[trigger] text[i]),
        r.0 < r.1 ==> !is_white_space(text[r.0]) && !is_white_space(text[r.1 - 1]),
        r.0 < text.len() ==> !is_white_space(text[r.0]),
{
    let a = lemma_trim_start_place(text);
    let rest = text.skip(a);
    let n = lemma_trim_end_place(rest);
    assert(rest.take(n) == text.subrange(a, a + n));
    assert forall|i: int| a + n <= i < text.len() implies is_white_space(#[trigger] text[i]) by {
        assert(rest[i - a] == text[i]);
    }
    (a, a + n)
}

/// The first line feed stands where the search for it ends.
pub proof fn lemma_first_line_feed_place(text: Seq<char>)
    ensures
        first_line_feed(text) <= text.len(),
        forall|i: int| 0 <= i < first_line_feed(text) ==> #[trigger] text[i] != '\n',
        first_line_feed(text) < text.len() ==> text[first_line_feed(text) as int] == '\n',
    decreases text.len(),
{
    if text.len() > 0 && text[0] != '\n' {
        let rest = text.drop_first();
        lemma_first_line_feed_place(rest);
        assert forall|i: int| 0 <= i < first_line_feed(text) implies #[trigger] text[i] != '\n' by {
            if i > 0 {
                assert(rest[i - 1] == text[i]);
            }
        }
    }
}

/// A line feed ends a line: what stands before the first one is the first
/// line, less a carriage return at its end, and the rest is cut up alike. A
/// text without one is a line, unless it is empty.
pub proof fn law_lines_end_at_line_feeds(line: Seq<char>, rest: Seq<char>)
    requires
        forall|i: int| 0 <= i < line.len() ==> #[trigger] line[i] != '\n',
    ensures
        lines(line) == (if line.len() == 0 {
            Seq::empty()
        } else {
            seq![line]
        }),
        lines(line + seq!['\n'] + rest) == seq![
            if line.len() > 0 && line[line.len() - 1] == '\r' {
                line.take(line.len() - 1)
            } else {
                line
            },
        ] + lines(rest),
{
    let whole = line + seq!['\n'] + rest;
    lemma_first_line_feed_place(line);
    lemma_first_line_feed_place(whole);
    let n = first_line_feed(whole) as int;
    assert(n == line.len()) by {
        assert(whole[line.len() as int] == '\n');
        if n < line.len() {
            assert(whole[n] == line[n]);
        }
    }
    assert(whole.take(n) == line);
    assert(whole.skip(n + 1) == rest);
    if first_line_feed(line) < line.len() {
        assert(line[first_line_feed(line) as int] != '\n');
    }
}

/// What is written of a number reads back as the number, and two texts are the
/// same exactly if their characters are.
pub proof fn law_written_numbers_read_back(
    n: i32,
    written: String,
    text: &str,
    read: Option<i32>,
    u: u64,
    digits: String,
    other: &str,
    same: bool,
)
    requires
        call_ensures(signed_decimal_text, (n,), written),
        text@ == written@,
        call_ensures(parse_i32, (text,), read),
        call_ensures(decimal_text, (u,), digits),
        call_ensures(same_text, (text, other), same),
    ensures
        read == Some(n),
        written_int(digits@) == Some(u as int),
        digits@ == decimal(u as nat),
        written@ == signed_decimal(n as int),
        same <==> text@ == other@,
{
    law_written_integers_are_read(n as int);
    lemma_decimal_digits(u as nat);
    assert(is_digit(decimal(u as nat)[0]));
}

/// White space is what Unicode calls so, by code points.
pub proof fn law_white_space_by_code_points(c: char, r: bool)
    requires
        call_ensures(white_space, (c,), r),
    ensures
        r <==> {
            let code = c as int;
            ||| 9 <= code <= 13
            ||| code == 32
            ||| code == 133
            ||| code == 160
            ||| code == 5760
            ||| 8192 <= code <= 8202
            ||| code == 8232
            ||| code == 8233
            ||| code == 8239
            ||| code == 8287
            ||| code == 12288
        },
{
}

/// The characters of a text are all its characters, in order.
pub proof fn law_characters_are_those_of_the_text(text: &str, r: Vec<char>)
    requires
        call_ensures(chars_of, (text,), r),
    ensures
        r@ == text@,
{
}

} // verus!
