//! Identifiers of transactions, jobs and tenants.

use vstd::prelude::*;

verus! {

/// A universally unique identifier, held as its 128 bits.
#[derive(Clone, Copy, Debug, PartialEq, Eq, Structural)]
pub struct Uuid(pub u128);

/// The `k`-th hexadecimal digit of `bits`, counted from the most significant one.
pub open spec fn nibble(bits: u128, k: int) -> u128 {
    (bits >> ((124 - 4 * k) as u128)) & 0xf
}

/// The lower-case character of the hexadecimal digit `d`.
pub open spec fn hex_char(d: u128) -> char {
    if d < 10 {
        (48 + d) as char
    } else {
        (87 + d) as char
    }
}

/// Whether the hyphenated form has a hyphen at place `i`.
pub open spec fn is_hyphen_place(i: int) -> bool {
    i == 8 || i == 13 || i == 18 || i == 23
}

/// How many hyphens stand before place `i` of the hyphenated form.
pub open spec fn hyphens_before(i: int) -> int {
    if i <= 8 {
        0
    } else if i <= 13 {
        1
    } else if i <= 18 {
        2
    } else if i <= 23 {
        3
    } else {
        4
    }
}

/// The hyphenated form of an identifier: its 32 hexadecimal digits in lower case, in groups
/// of 8, 4, 4, 4 and 12 with hyphens between them.
pub open spec fn hyphenated(id: Uuid) -> Seq<char> {
    Seq::new(
        36,
        |i: int|
            if is_hyphen_place(i) {
                '-'
            } else {
                hex_char(nibble(id.0, i - hyphens_before(i)))
            },
    )
}

/// `uuid::Uuid::to_string`, on the `uuid::Uuid` that `from_u128` makes of `bits`.
///
/// Trusted: the text is the hyphenated form of the identifier, in lower case.
#[verifier::external_body]
fn uuid_to_string(bits: u128) -> (text: String)
    ensures
        text@ == hyphenated(Uuid(bits)),
{
    uuid::Uuid::from_u128(bits).to_string()
}

impl Uuid {
    /// Writes the identifier in its hyphenated form.
    pub fn to_text(&self) -> (text: String)
        ensures
            text@ == hyphenated(*self),
    {
        uuid_to_string(self.0)
    }
}

/// The place of the `k`-th hexadecimal digit in the hyphenated form.
spec fn digit_place(k: int) -> int {
    if k < 8 {
        k
    } else if k < 12 {
        k + 1
    } else if k < 16 {
        k + 2
    } else if k < 20 {
        k + 3
    } else {
        k + 4
    }
}

/// Equal texts have equal digits.
proof fn lemma_text_gives_nibble(a: Uuid, b: Uuid, k: int)
    requires
        hyphenated(a) == hyphenated(b),
        0 <= k < 32,
    ensures
        nibble(a.0, k) == nibble(b.0, k),
{
    let i = digit_place(k);
    assert(!is_hyphen_place(i) && i - hyphens_before(i) == k);
    assert(hyphenated(a)[i] == hex_char(nibble(a.0, k)));
    assert(hyphenated(b)[i] == hex_char(nibble(b.0, k)));
    let s = (124 - 4 * k) as u128;
    let (x, y) = (a.0, b.0);
    assert((x >> s) & 0xf < 16 && (y >> s) & 0xf < 16) by (bit_vector);
}

/// Two numbers that agree in every hexadecimal digit are equal.
proof fn lemma_nibbles_give_bits(x: u128, y: u128)
    requires
        forall|k: int| 0 <= k < 32 ==> #[trigger] nibble(x, k) == nibble(y, k),
    ensures
        x == y,
{
    let d = x ^ y;
    assert forall|k: int| 0 <= k < 32 implies #[trigger] nibble(d, k) == 0 by {
        let s = (124 - 4 * k) as u128;
        assert(nibble(x, k) == nibble(y, k));
        assert(((x ^ y) >> s) & 0xf == ((x >> s) & 0xf) ^ ((y >> s) & 0xf)) by (bit_vector);
        let n = (x >> s) & 0xf;
        assert(n ^ n == 0) by (bit_vector);
    }
    lemma_zero_nibbles(d, 32);
    assert(d >> 0u128 == d) by (bit_vector);
    assert(x ^ y == 0 ==> x == y) by (bit_vector);
}

/// A number whose first `k` hexadecimal digits are zero has nothing above the others.
proof fn lemma_zero_nibbles(d: u128, k: int)
    requires
        0 <= k <= 32,
        forall|j: int| 0 <= j < k ==> #[trigger] nibble(d, j) == 0,
    ensures
        k > 0 ==> d >> ((128 - 4 * k) as u128) == 0,
    decreases k,
{
    if k > 0 {
        lemma_zero_nibbles(d, k - 1);
        let s = (128 - 4 * k) as u128;
        assert(nibble(d, k - 1) == 0);
        if k == 1 {
            assert(s == 124);
            assert((d >> 124u128) & 0xf == 0 ==> d >> 124u128 == 0) by (bit_vector);
        } else {
            let t = (s + 4) as u128;
            assert(t == 128 - 4 * (k - 1));
            assert((d >> s) & 0xf == 0 && d >> t == 0 ==> d >> s == 0) by (bit_vector)
                requires
                    s < 124,
                    t == s + 4,
            ;
        }
    }
}

/// Different identifiers have different texts.
pub proof fn distinct_ids_have_distinct_texts(a: Uuid, b: Uuid)
    requires
        a != b,
    ensures
        hyphenated(a) != hyphenated(b),
{
    if hyphenated(a) == hyphenated(b) {
        assert forall|k: int| 0 <= k < 32 implies #[trigger] nibble(a.0, k) == nibble(b.0, k) by {
            lemma_text_gives_nibble(a, b, k);
        }
        lemma_nibbles_give_bits(a.0, b.0);
    }
}

} // verus!
