//! What holds of numerals, of joined lists and of the texts of identifiers.

use vstd::arithmetic::div_mod::lemma_div_denominator;
use vstd::arithmetic::power::{lemma_pow0, lemma_pow_positive, pow};
use vstd::prelude::*;

verus! {

use crate::ids::{hex_char, hyphenated, hyphens_before, is_hyphen_place, nibble, Uuid};
use crate::text::{decimal_text, digits_value, joined, parsed_usize, texts, unsigned_digits};

/// Ten to a power is ten times the power before it.
proof fn lemma_next_power(e: nat)
    ensures
        pow(10, e + 1) == 10 * pow(10, e),
        pow(10, e) > 0,
{
    reveal(pow);
    lemma_pow_positive(10, e);
}

/// Each place of a numeral holds the digit that the number has there: the last place the ones,
/// the one before it the tens, and so on.
pub proof fn numeral_places(n: nat, i: int)
    requires
        0 <= i < decimal_text(n).len(),
    ensures
        decimal_text(n)[i] as int == '0' as int + (n as int / pow(
            10,
            (decimal_text(n).len() - 1 - i) as nat,
        )) % 10,
    decreases n,
{
    let len = decimal_text(n).len();
    lemma_pow0(10);
    if n >= 10 {
        assert(len == decimal_text(n / 10).len() + 1);
        if i < len - 1 {
            numeral_places(n / 10, i);
            let e = (len - 2 - i) as nat;
            lemma_next_power(e);
            lemma_div_denominator(n as int, 10, pow(10, e));
        }
    }
}

/// A numeral is as long as its number asks for: nothing has a single place, and any other number
/// has no zero in front.
pub proof fn numeral_length(n: nat)
    ensures
        n == 0 ==> decimal_text(n).len() == 1,
        n > 0 ==> decimal_text(n).len() > 0 && pow(10, (decimal_text(n).len() - 1) as nat) <= n
            < pow(10, decimal_text(n).len()),
    decreases n,
{
    lemma_pow0(10);
    lemma_next_power(0);
    if n >= 10 {
        numeral_length(n / 10);
        let len = decimal_text(n / 10).len();
        lemma_next_power((len - 1) as nat);
        lemma_next_power(len);
        assert(decimal_text(n).len() == len + 1);
    }
}

/// A single digit is read as the number that it stands for.
pub proof fn digit_is_read(c: char)
    requires
        '0' <= c <= '9',
    ensures
        parsed_usize(seq![c]) == Some((c as int - '0' as int) as usize),
{
    let s = seq![c];
    assert(s.drop_last() =~= Seq::<char>::empty());
    assert(digits_value(s.drop_last()) == 0);
}

/// A further digit makes ten times the number that was read, and the digit, of it, as far as a
/// `usize` can hold that; what was no number stays none.
pub proof fn further_digit_is_read(numeral: Seq<char>, c: char)
    requires
        numeral.len() > 0,
        numeral != seq!['+'],
        '0' <= c <= '9',
    ensures
        parsed_usize(numeral.push(c)) == (match parsed_usize(numeral) {
            Some(n) => if 10 * n + (c as int - '0' as int) <= usize::MAX {
                Some((10 * n + (c as int - '0' as int)) as usize)
            } else {
                None
            },
            None => None,
        }),
{
    let before = unsigned_digits(numeral);
    let after = unsigned_digits(numeral.push(c));
    assert(after =~= before.push(c));
    assert(after.drop_last() =~= before);
    if before.len() == 0 {
        assert(numeral =~= seq!['+']);
    }
    assert forall|i: int| 0 <= i < before.len() implies after[i] == before[i] by {}
    assert(after[before.len() as int] == c);
    if forall|i: int| 0 <= i < after.len() ==> '0' <= #[trigger] after[i] <= '9' {
        assert forall|i: int| 0 <= i < before.len() implies '0' <= #[trigger] before[i] <= '9' by {
            assert(after[i] == before[i]);
        }
    }
}

/// A sign in front of a numeral that has none changes nothing.
pub proof fn sign_is_skipped(numeral: Seq<char>)
    requires
        numeral.len() > 0,
        numeral[0] != '+',
    ensures
        parsed_usize(seq!['+'] + numeral) == parsed_usize(numeral),
{
    assert((seq!['+'] + numeral).skip(1) =~= numeral);
}

/// Nothing, and a sign alone, are no numbers; nor is anything with a character that is no digit,
/// other than one sign in front.
pub proof fn other_texts_are_no_numbers(text: Seq<char>, i: int)
    ensures
        text.len() == 0 ==> parsed_usize(text) is None,
        text == seq!['+'] ==> parsed_usize(text) is None,
        0 <= i < text.len() && !('0' <= text[i] <= '9') && (i > 0 || text[i] != '+')
            ==> parsed_usize(text) is None,
{
    if 0 <= i < text.len() && !('0' <= text[i] <= '9') && (i > 0 || text[i] != '+') {
        let digits = unsigned_digits(text);
        if text[0] == '+' {
            assert(digits[i - 1] == text[i]);
        } else {
            assert(digits[i] == text[i]);
        }
    }
}

/// Nothing joins to nothing, a single part to itself, and two lists to what each joins to, with
/// the separator between.
pub proof fn joining(a: Seq<Seq<char>>, b: Seq<Seq<char>>, part: Seq<char>, separator: Seq<char>)
    ensures
        joined(Seq::empty(), separator) == Seq::<char>::empty(),
        joined(seq![part], separator) == part,
        a.len() > 0 && b.len() > 0 ==> joined(a + b, separator) == joined(a, separator) + separator
            + joined(b, separator),
    decreases b.len(),
{
    if a.len() > 0 && b.len() > 0 {
        let all = a + b;
        assert(all.last() == b.last());
        if b.len() == 1 {
            assert(all.drop_last() =~= a);
        } else {
            assert(all.drop_last() =~= a + b.drop_last());
            joining(a, b.drop_last(), part, separator);
            assert(joined(all, separator) =~= joined(a, separator) + separator + joined(
                b,
                separator,
            ));
        }
    }
}

/// The texts of a list are those of its items, one for one.
pub proof fn texts_of_items(items: Seq<&'static str>)
    ensures
        texts(items).len() == items.len(),
        forall|i: int| 0 <= i < items.len() ==> #[trigger] texts(items)[i] == items[i]@,
{
}

/// The number that the text of an identifier spells: the digits before place `end`, read in base
/// 16, with the hyphens passed over.
pub open spec fn spelled(text: Seq<char>, end: int) -> int
    decreases end,
{
    if end <= 0 {
        0
    } else if text[end - 1] == '-' {
        spelled(text, end - 1)
    } else if '0' <= text[end - 1] <= '9' {
        16 * spelled(text, end - 1) + (text[end - 1] as int - '0' as int)
    } else {
        16 * spelled(text, end - 1) + 10 + (text[end - 1] as int - 'a' as int)
    }
}

/// The first places of the text of an identifier spell its leading bits.
proof fn lemma_spelled(id: Uuid, end: int)
    requires
        0 <= end <= 36,
    ensures
        ({
            let k = end - hyphens_before(end);
            &&& 0 <= k <= 32
            &&& k == 0 ==> spelled(hyphenated(id), end) == 0
            &&& k > 0 ==> spelled(hyphenated(id), end) == id.0 >> ((128 - 4 * k) as u128)
        }),
    decreases end,
{
    let text = hyphenated(id);
    let bits = id.0;
    if end > 0 {
        lemma_spelled(id, end - 1);
        let k = end - hyphens_before(end);
        if !is_hyphen_place(end - 1) {
            let s = (128 - 4 * k) as u128;
            assert(text[end - 1] == hex_char(nibble(bits, k - 1)));
            assert(nibble(bits, k - 1) == (bits >> s) & 0xf);
            assert((bits >> s) & 0xf < 16) by (bit_vector);
            if k == 1 {
                assert(bits >> 124u128 == (bits >> 124u128) & 0xf) by (bit_vector);
            } else {
                let t = (s + 4) as u128;
                assert(bits >> s == 16 * (bits >> t) + ((bits >> s) & 0xf)) by (bit_vector)
                    requires
                        s < 124,
                        t == s + 4,
                ;
            }
        }
    }
}

/// The text of an identifier has 36 places: hyphens after the 8th, 12th, 16th and 20th digit, and
/// otherwise digits in base 16, in lower case, that spell its bits.
pub proof fn text_spells_the_identifier(id: Uuid)
    ensures
        hyphenated(id).len() == 36,
        forall|i: int|
            0 <= i < 36 ==> if i == 8 || i == 13 || i == 18 || i == 23 {
                #[trigger] hyphenated(id)[i] == '-'
            } else {
                '0' <= hyphenated(id)[i] <= '9' || 'a' <= hyphenated(id)[i] <= 'f'
            },
        spelled(hyphenated(id), 36) == id.0,
{
    lemma_spelled(id, 36);
    let bits = id.0;
    assert(bits >> 0u128 == bits) by (bit_vector);
    assert forall|i: int| 0 <= i < 36 implies if i == 8 || i == 13 || i == 18 || i == 23 {
        #[trigger] hyphenated(id)[i] == '-'
    } else {
        '0' <= hyphenated(id)[i] <= '9' || 'a' <= hyphenated(id)[i] <= 'f'
    } by {
        let s = (124 - 4 * (i - hyphens_before(i))) as u128;
        assert((bits >> s) & 0xf < 16) by (bit_vector);
    }
}

} // verus!
