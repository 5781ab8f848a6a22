//! Text helpers: joining, rendering unsigned numbers and reading signed ones.

use vstd::prelude::*;
use vstd::string::*;

verus! {

/// The texts of a sequence of strings.
pub open spec fn texts(items: Seq<String>) -> Seq<Seq<char>> {
    Seq::new(items.len(), |i: int| items[i]@)
}

/// The items with `separator` between each two neighbours, as one text.
pub open spec fn joined(items: Seq<Seq<char>>, separator: Seq<char>) -> Seq<char>
    decreases items.len(),
{
    if items.len() == 0 {
        Seq::empty()
    } else if items.len() == 1 {
        items[0]
    } else {
        joined(items.drop_last(), separator) + separator + items.last()
    }
}

/// Joins the items with `separator` between each two neighbours.
///
/// Trusted: the body hands the items to `itertools::intersperse`, which
/// yields the items in order with a clone of the separator between each two,
/// and collects what it yields into one string.
#[verifier::external_body]
pub(crate) fn join(items: &Vec<String>, separator: &str) -> (r: String)
    ensures
        r@ == joined(texts(items@), separator@),
{
    itertools::intersperse(items.iter().cloned(), separator.to_string()).collect::<String>()
}

/// The character that stands for a single decimal digit.
pub open spec fn digit_char(d: nat) -> char {
    if d == 0 {
        '0'
    } else if d == 1 {
        '1'
    } else if d == 2 {
        '2'
    } else if d == 3 {
        '3'
    } else if d == 4 {
        '4'
    } else if d == 5 {
        '5'
    } else if d == 6 {
        '6'
    } else if d == 7 {
        '7'
    } else if d == 8 {
        '8'
    } else {
        '9'
    }
}

/// The decimal numeral of `n`: most significant digit first, no leading
/// zeros, `"0"` for zero.
pub open spec fn decimal(n: nat) -> Seq<char>
    decreases n,
{
    if n < 10 {
        seq![digit_char(n)]
    } else {
        decimal(n / 10).push(digit_char(n % 10))
    }
}

/// Whether `c` is one of `'0'..='9'`.
pub open spec fn is_digit(c: char) -> bool {
    '0' <= c && c <= '9'
}

/// The number a decimal digit character stands for.
pub open spec fn digit_value(c: char) -> int {
    c as int - '0' as int
}

/// Whether every character of `s` is a decimal digit.
pub open spec fn all_digits(s: Seq<char>) -> bool {
    forall|i: int| 0 <= i < s.len() ==> is_digit(#[trigger] s[i])
}

/// The number that a run of decimal digits denotes; zero for the empty run.
pub open spec fn digits_value(s: Seq<char>) -> int
    decreases s.len(),
{
    if s.len() == 0 {
        0
    } else {
        10 * digits_value(s.drop_last()) + digit_value(s.last())
    }
}

/// The integer written by `s`, if `s` is a signed decimal numeral: an
/// optional single `+` or `-`, then at least one digit, and nothing else.
pub open spec fn parse_decimal(s: Seq<char>) -> Option<int> {
    if s.len() == 0 {
        None
    } else {
        let signed = s[0] == '-' || s[0] == '+';
        let digits = if signed {
            s.subrange(1, s.len() as int)
        } else {
            s
        };
        if digits.len() == 0 || !all_digits(digits) {
            None
        } else if s[0] == '-' {
            Some(-digits_value(digits))
        } else {
            Some(digits_value(digits))
        }
    }
}

/// The integer that `s` denotes as an `isize`, or `None` where `s` is no
/// numeral or its value does not fit.
pub open spec fn parse_isize(s: Seq<char>) -> Option<isize> {
    match parse_decimal(s) {
        Some(v) => if isize::MIN <= v <= isize::MAX {
            Some(v as isize)
        } else {
            None
        },
        None => None,
    }
}

/// A run of digits denotes a number that is not negative.
pub proof fn lemma_digits_value_nonnegative(s: Seq<char>)
    requires
        all_digits(s),
    ensures
        0 <= digits_value(s),
    decreases s.len(),
{
    if s.len() > 0 {
        let front = s.drop_last();
        assert forall|i: int| 0 <= i < front.len() implies is_digit(#[trigger] front[i]) by {
            assert(front[i] == s[i]);
        }
        lemma_digits_value_nonnegative(front);
        assert(is_digit(s[s.len() - 1]));
    }
}

/// A longer run of digits denotes at least what each of its prefixes does.
pub proof fn lemma_digits_value_prefix(s: Seq<char>, k: int)
    requires
        all_digits(s),
        0 <= k <= s.len(),
    ensures
        digits_value(s.subrange(0, k)) <= digits_value(s),
    decreases s.len() - k,
{
    if k == s.len() {
        assert(s.subrange(0, k) =~= s);
    } else {
        lemma_digits_value_prefix(s, k + 1);
        let longer = s.subrange(0, k + 1);
        assert(longer.drop_last() =~= s.subrange(0, k));
        assert(longer.last() == s[k]);
        assert(is_digit(s[k]));
        assert forall|i: int| 0 <= i < k implies is_digit(#[trigger] s.subrange(0, k)[i]) by {
            assert(s.subrange(0, k)[i] == s[i]);
        }
        lemma_digits_value_nonnegative(s.subrange(0, k));
    }
}

/// The text of one decimal digit.
fn digit_str(d: u64) -> (r: &'static str)
    requires
        d < 10,
    ensures
        r@ == seq![digit_char(d as nat)],
{
    proof {
        reveal_strlit("0");
        reveal_strlit("1");
        reveal_strlit("2");
        reveal_strlit("3");
        reveal_strlit("4");
        reveal_strlit("5");
        reveal_strlit("6");
        reveal_strlit("7");
        reveal_strlit("8");
        reveal_strlit("9");
    }
    let r = if d == 0 {
        "0"
    } else if d == 1 {
        "1"
    } else if d == 2 {
        "2"
    } else if d == 3 {
        "3"
    } else if d == 4 {
        "4"
    } else if d == 5 {
        "5"
    } else if d == 6 {
        "6"
    } else if d == 7 {
        "7"
    } else if d == 8 {
        "8"
    } else {
        "9"
    };
    assert(r@ =~= seq![digit_char(d as nat)]);
    r
}

/// Renders `n` in decimal.
pub fn decimal_string(n: u64) -> (r: String)
    ensures
        r@ == decimal(n as nat),
    decreases n,
{
    if n < 10 {
        String::from_str(digit_str(n))
    } else {
        let mut s = decimal_string(n / 10);
        s.append(digit_str(n % 10));
        assert(s@ =~= decimal((n / 10) as nat).push(digit_char((n % 10) as nat)));
        s
    }
}

/// Reads a signed decimal numeral: an optional `+` or `-`, then digits.
/// `None` where the text is no such numeral or its value is out of range.
pub fn read_isize(s: &str) -> (r: Option<isize>)
    ensures
        r == parse_isize(s@),
{
    let n = s.unicode_len();
    if n == 0 {
        return None;
    }
    let first = s.get_char(0);
    let negative = first == '-';
    let start: usize = if first == '-' || first == '+' {
        1
    } else {
        0
    };
    if start == n {
        return None;
    }
    let ghost digits = s@.subrange(start as int, n as int);
    assert(digits =~= if start == 1 {
        s@.subrange(1, s@.len() as int)
    } else {
        s@
    });
    // Accumulated with the sign applied, so that the most negative value is reached.
    let mut acc: isize = 0;
    let mut i: usize = start;
    while i < n
        invariant
            start <= i <= n,
            n == s@.len(),
            digits == s@.subrange(start as int, n as int),
            parse_decimal(s@) == if !all_digits(digits) {
                None
            } else if negative {
                Some(-digits_value(digits))
            } else {
                Some(digits_value(digits))
            },
            all_digits(digits.subrange(0, i - start)),
            acc == if negative {
                -digits_value(digits.subrange(0, i - start))
            } else {
                digits_value(digits.subrange(0, i - start))
            },
        decreases n - i,
    {
        let c = s.get_char(i);
        let ghost seen = digits.subrange(0, i - start);
        let ghost next = digits.subrange(0, i - start + 1);
        proof {
            assert(next.drop_last() =~= seen);
            assert(next.last() == c);
            assert(digits[i - start] == c);
        }
        if !(c >= '0' && c <= '9') {
            proof {
                assert(!is_digit(digits[i - start]));
            }
            return None;
        }
        let d: isize = (c as u32 - '0' as u32) as isize;
        proof {
            assert(d == digit_value(c));
            assert forall|j: int| 0 <= j < next.len() implies is_digit(#[trigger] next[j]) by {
                if j < seen.len() {
                    assert(next[j] == seen[j]);
                }
            }
        }
        let scaled = acc.checked_mul(10);
        let stepped = match scaled {
            Some(m) => if negative {
                m.checked_sub(d)
            } else {
                m.checked_add(d)
            },
            None => None,
        };
        match stepped {
            Some(v) => {
                acc = v;
            },
            None => {
                proof {
                    // The value of the digits read so far is already out of
                    // range, and reading more digits only moves it further.
                    if all_digits(digits) {
                        lemma_digits_value_prefix(digits, i - start + 1);
                        lemma_digits_value_nonnegative(seen);
                    }
                }
                return None;
            },
        }
        i = i + 1;
    }
    proof {
        assert(digits.subrange(0, n - start) =~= digits);
    }
    Some(acc)
}

/// The pieces of `s` between occurrences of `sep`, in order. There is one
/// piece more than there are occurrences; a piece may be empty.
pub open spec fn split_on(s: Seq<char>, sep: char) -> Seq<Seq<char>>
    decreases s.len(),
{
    if s.len() == 0 {
        seq![Seq::empty()]
    } else {
        let front = split_on(s.drop_last(), sep);
        if s.last() == sep {
            front.push(Seq::empty())
        } else {
            front.drop_last().push(front.last().push(s.last()))
        }
    }
}

/// `line` less one final carriage return.
pub open spec fn strip_cr(line: Seq<char>) -> Seq<char> {
    if line.len() > 0 && line.last() == '\r' {
        line.drop_last()
    } else {
        line
    }
}

/// The lines of `s`. A line ends at a line feed, or at a carriage return
/// directly followed by one; neither belongs to the line. What follows the
/// last line feed is a line of its own unless it is empty.
pub open spec fn lines_of(s: Seq<char>) -> Seq<Seq<char>> {
    let pieces = split_on(s, '\n');
    let ended = Seq::new((pieces.len() - 1) as nat, |i: int| strip_cr(pieces[i]));
    if pieces.last().len() == 0 {
        ended
    } else {
        ended.push(pieces.last())
    }
}

/// Splitting yields at least one piece.
pub proof fn lemma_split_on_nonempty(s: Seq<char>, sep: char)
    ensures
        split_on(s, sep).len() >= 1,
    decreases s.len(),
{
    if s.len() > 0 {
        lemma_split_on_nonempty(s.drop_last(), sep);
    }
}

/// No piece holds the separator, and the pieces joined by the separator are
/// the text that was split.
pub proof fn law_split_then_join(s: Seq<char>, sep: char)
    ensures
        forall|i: int, j: int|
            0 <= i < split_on(s, sep).len() && 0 <= j < split_on(s, sep)[i].len() ==> split_on(
                s,
                sep,
            )[i][j] != sep,
        joined(split_on(s, sep), seq![sep]) == s,
    decreases s.len(),
{
    lemma_split_on_nonempty(s, sep);
    if s.len() == 0 {
        assert(joined(split_on(s, sep), seq![sep]) =~= s);
    } else {
        let front = split_on(s.drop_last(), sep);
        let all = split_on(s, sep);
        law_split_then_join(s.drop_last(), sep);
        lemma_split_on_nonempty(s.drop_last(), sep);
        if s.last() == sep {
            assert(all.drop_last() =~= front);
            assert(joined(all, seq![sep]) =~= s.drop_last() + seq![sep] + Seq::<char>::empty());
            assert(joined(all, seq![sep]) =~= s);
        } else {
            let grown = front.last().push(s.last());
            assert(all.drop_last() =~= front.drop_last());
            assert(all.last() == grown);
            if front.len() == 1 {
                assert(joined(front, seq![sep]) == front[0]);
                assert(all.len() == 1);
                assert(all[0] == grown);
                assert(grown =~= s);
            } else {
                assert(joined(front, seq![sep]) == joined(front.drop_last(), seq![sep]) + seq![sep]
                    + front.last());
                let head = joined(front.drop_last(), seq![sep]) + seq![sep];
                assert(joined(all, seq![sep]) =~= head + grown);
                assert(head + grown =~= (head + front.last()).push(s.last()));
                assert(s =~= s.drop_last().push(s.last()));
            }
            assert forall|i: int, j: int|
                0 <= i < all.len() && 0 <= j < all[i].len() implies all[i][j] != sep by {
                if i < all.len() - 1 {
                    assert(all[i] == front[i]);
                } else if j < front.last().len() {
                    assert(all[i][j] == front.last()[j]);
                }
            }
        }
    }
}

/// Splits `s` at each occurrence of `sep`.
pub fn split(s: &str, sep: char) -> (r: Vec<String>)
    ensures
        texts(r@) == split_on(s@, sep),
{
    let n = s.unicode_len();
    let mut pieces: Vec<String> = Vec::new();
    let mut start: usize = 0;
    let mut i: usize = 0;
    proof {
        assert(s@.subrange(0, 0) =~= Seq::<char>::empty());
        assert(texts(pieces@).push(s@.subrange(0, 0)) =~= seq![Seq::<char>::empty()]);
    }
    while i < n
        invariant
            start <= i <= n,
            n == s@.len(),
            split_on(s@.subrange(0, i as int), sep) == texts(pieces@).push(
                s@.subrange(start as int, i as int),
            ),
        decreases n - i,
    {
        let c = s.get_char(i);
        let ghost before = s@.subrange(0, i as int);
        let ghost after = s@.subrange(0, i + 1);
        let ghost front = split_on(before, sep);
        proof {
            assert(after.drop_last() =~= before);
            assert(after.last() == c);
        }
        if c == sep {
            let piece = s.substring_char(start, i);
            pieces.push(piece.to_string());
            start = i + 1;
            proof {
                assert(texts(pieces@) =~= front);
                assert(s@.subrange(start as int, i + 1) =~= Seq::<char>::empty());
            }
        } else {
            proof {
                assert(front.drop_last() =~= texts(pieces@));
                assert(front.last().push(c) =~= s@.subrange(start as int, i + 1));
            }
        }
        i = i + 1;
    }
    let piece = s.substring_char(start, n);
    pieces.push(piece.to_string());
    proof {
        assert(s@.subrange(0, n as int) =~= s@);
        assert(texts(pieces@) =~= split_on(s@, sep));
    }
    pieces
}

/// `line` less one final carriage return.
pub fn trim_cr(line: &str) -> (r: &str)
    ensures
        r@ == strip_cr(line@),
{
    let n = line.unicode_len();
    if n > 0 && line.get_char(n - 1) == '\r' {
        let r = line.substring_char(0, n - 1);
        assert(r@ =~= line@.drop_last());
        r
    } else {
        line
    }
}

/// The lines of `s`, without their line endings.
pub fn lines(s: &str) -> (r: Vec<String>)
    ensures
        texts(r@) == lines_of(s@),
{
    let pieces = split(s, '\n');
    proof {
        lemma_split_on_nonempty(s@, '\n');
    }
    let ghost all = split_on(s@, '\n');
    let ended = pieces.len() - 1;
    let mut out: Vec<String> = Vec::new();
    let mut i: usize = 0;
    while i < ended
        invariant
            i <= ended,
            ended == pieces@.len() - 1,
            all == texts(pieces@),
            texts(out@) == Seq::new(i as nat, |k: int| strip_cr(all[k])),
        decreases ended - i,
    {
        let ghost before = texts(out@);
        let line = trim_cr(pieces[i].as_str());
        assert(line@ == strip_cr(all[i as int]));
        out.push(line.to_string());
        assert(texts(out@) =~= before.push(strip_cr(all[i as int])));
        i = i + 1;
        assert(texts(out@) =~= Seq::new(i as nat, |k: int| strip_cr(all[k])));
    }
    if pieces[ended].as_str().unicode_len() != 0 {
        out.push(pieces[ended].clone());
        assert(texts(out@) =~= lines_of(s@));
    }
    out
}

} // verus!
