//! Text as it comes out of a request body: quotes are dropped, and an id is
//! read as a decimal 64-bit signed integer.

use vstd::prelude::*;

verus! {

/// The double quote.
pub open spec fn is_quote(c: char) -> bool {
    c == '"'
}

/// `text` with every double quote taken out; all else stays, in order.
pub open spec fn without_quotes(text: Seq<char>) -> Seq<char> {
    text.filter(|c: char| !is_quote(c))
}

/// `String::push` of std: the character is appended at the end of the
/// string, and nothing else changes.
#[verifier::external_body]
fn push_char(text: &mut String, c: char)
    ensures
        final(text)@ == old(text)@.push(c),
{
    text.push(c)
}

/// What one more character adds to the text without quotes.
proof fn lemma_without_quotes_step(text: Seq<char>, i: int)
    requires
        0 <= i < text.len(),
    ensures
        without_quotes(text.take(i + 1)) == if is_quote(text[i]) {
            without_quotes(text.take(i))
        } else {
            without_quotes(text.take(i)).push(text[i])
        },
{
    reveal(Seq::filter);
    assert(text.take(i + 1).drop_last() == text.take(i));
}

/// Copies `text` without its double quotes.
pub fn strip_quotes(text: &str) -> (stripped: String)
    ensures
        stripped@ == without_quotes(text@),
{
    let mut stripped = String::new();
    for c in it: text.chars()
        invariant
            it.seq() == text@,
            stripped@ == without_quotes(text@.take(it.index() as int)),
    {
        proof {
            lemma_without_quotes_step(text@, it.index() as int);
        }
        if c != '"' {
            push_char(&mut stripped, c);
        }
    }
    assert(text@.take(text@.len() as int) == text@);
    stripped
}

/// `text` between two double quotes.
pub open spec fn quoted(text: Seq<char>) -> Seq<char> {
    seq!['"'] + text + seq!['"']
}

/// A text in double quotes reads as the text does: the quotes around it are
/// dropped with those inside it.
pub proof fn lemma_quotes_around_are_dropped(text: Seq<char>)
    ensures
        without_quotes(quoted(text)) == without_quotes(text),
{
    let quote = seq!['"'];
    let keep = |c: char| !is_quote(c);
    assert(quote.filter(keep) == Seq::<char>::empty()) by {
        reveal_with_fuel(Seq::filter, 2);
        assert(quote.drop_last().len() == 0);
    }
    Seq::filter_distributes_over_add(quote, text, keep);
    Seq::filter_distributes_over_add(quote + text, quote, keep);
}

/// A decimal digit.
pub open spec fn is_digit(c: char) -> bool {
    '0' <= c <= '9'
}

/// The number that the decimal digit `c` stands for.
pub open spec fn digit_value(c: char) -> int {
    c as int - '0' as int
}

/// Every character of `text` is a decimal digit.
pub open spec fn all_digits(text: Seq<char>) -> bool {
    forall|i: int| 0 <= i < text.len() ==> is_digit(#[trigger] text[i])
}

/// The number that a string of decimal digits writes; 0 for the empty string.
pub open spec fn decimal_value(digits: Seq<char>) -> int
    decreases digits.len(),
{
    if digits.len() == 0 {
        0
    } else {
        10 * decimal_value(digits.drop_last()) + digit_value(digits.last())
    }
}

/// `text` begins with a sign, `+` or `-`.
pub open spec fn has_sign(text: Seq<char>) -> bool {
    text.len() > 0 && (text[0] == '-' || text[0] == '+')
}

/// `text` begins with `-`.
pub open spec fn is_negative(text: Seq<char>) -> bool {
    text.len() > 0 && text[0] == '-'
}

/// `text` after its sign, if it has one.
pub open spec fn digits_of(text: Seq<char>) -> Seq<char> {
    if has_sign(text) {
        text.drop_first()
    } else {
        text
    }
}

/// `text` is a decimal integer: an optional sign, then one digit or more, and
/// nothing else.
pub open spec fn is_integer(text: Seq<char>) -> bool {
    digits_of(text).len() > 0 && all_digits(digits_of(text))
}

/// The number that a decimal integer writes.
pub open spec fn integer_value(text: Seq<char>) -> int {
    if is_negative(text) {
        -decimal_value(digits_of(text))
    } else {
        decimal_value(digits_of(text))
    }
}

/// The 64-bit signed integer that `text` writes in decimal, if it writes one:
/// `text` is a decimal integer and its number fits.
pub open spec fn decimal_i64(text: Seq<char>) -> Option<i64> {
    if is_integer(text) && i64::MIN <= integer_value(text) <= i64::MAX {
        Some(integer_value(text) as i64)
    } else {
        None
    }
}

/// One more digit multiplies the number by ten and adds the digit.
proof fn lemma_decimal_value_push(digits: Seq<char>, c: char)
    ensures
        decimal_value(digits.push(c)) == 10 * decimal_value(digits) + digit_value(c),
{
    assert(digits.push(c).drop_last() == digits);
}

/// The number that digits write is not negative, and no smaller than the
/// number that their first `k` write.
proof fn lemma_decimal_value_grows(digits: Seq<char>, k: int)
    requires
        all_digits(digits),
        0 <= k <= digits.len(),
    ensures
        0 <= decimal_value(digits.take(k)) <= decimal_value(digits),
    decreases digits.len(),
{
    if k == digits.len() {
        assert(digits.take(k) == digits);
        if digits.len() > 0 {
            lemma_decimal_value_grows(digits.drop_last(), k - 1);
        }
    } else {
        lemma_decimal_value_grows(digits.drop_last(), k);
        assert(digits.drop_last().take(k) == digits.take(k));
    }
}

/// The digits of the first `k` characters of `text` are the first digits of
/// `text`, and the sign is that of `text`.
proof fn lemma_digits_of_take(text: Seq<char>, k: int)
    requires
        1 <= k <= text.len(),
    ensures
        has_sign(text.take(k)) == has_sign(text),
        is_negative(text.take(k)) == is_negative(text),
        digits_of(text.take(k)) == digits_of(text).take(
            if has_sign(text) {
                k - 1
            } else {
                k
            },
        ),
{
}

/// Reads `text` as a decimal 64-bit signed integer: an optional sign `+` or
/// `-`, then decimal digits, at least one. Any other text gives `None`, and so
/// does a number outside the 64-bit signed range.
pub fn parse_id(text: &str) -> (id: Option<i64>)
    ensures
        id == decimal_i64(text@),
{
    let mut value: i64 = 0;
    let mut negative = false;
    let mut first = true;
    let mut any_digit = false;
    for c in it: text.chars()
        invariant
            it.seq() == text@,
            first == (it.index() == 0),
            negative == is_negative(text@.take(it.index() as int)),
            any_digit == (digits_of(text@.take(it.index() as int)).len() > 0),
            all_digits(digits_of(text@.take(it.index() as int))),
            value == integer_value(text@.take(it.index() as int)),
    {
        let ghost k = it.index() as int;
        let ghost before = text@.take(k);
        let ghost after = text@.take(k + 1);
        proof {
            lemma_digits_of_take(text@, k + 1);
            if k > 0 {
                lemma_digits_of_take(text@, k);
            }
        }
        if first && (c == '-' || c == '+') {
            negative = c == '-';
        } else if '0' <= c && c <= '9' {
            let digit: i64 = (c as u8 - '0' as u8) as i64;
            proof {
                assert(digits_of(after) == digits_of(before).push(c));
                lemma_decimal_value_push(digits_of(before), c);
                if is_integer(text@) {
                    lemma_decimal_value_grows(digits_of(text@), digits_of(after).len() as int);
                }
            }
            let scaled: i64 = match value.checked_mul(10) {
                Some(scaled) => scaled,
                None => {
                    return None;
                },
            };
            let next = if negative {
                scaled.checked_sub(digit)
            } else {
                scaled.checked_add(digit)
            };
            match next {
                Some(next) => {
                    value = next;
                },
                None => {
                    return None;
                },
            }
            any_digit = true;
        } else {
            assert(!is_digit(digits_of(text@)[digits_of(after).len() - 1]));
            return None;
        }
        first = false;
    }
    assert(text@.take(text@.len() as int) == text@);
    if any_digit {
        Some(value)
    } else {
        None
    }
}

} // verus!
