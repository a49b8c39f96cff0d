use vstd::prelude::*;
use crate::error::PutawayError;

verus! {

/// Width to which a sequence number is padded with zeros in a document number.
pub const DOCUMENT_DIGITS: usize = 8;

/// The character of decimal digit `d`.
pub open spec fn digit_char(d: nat) -> char {
    "0123456789"@[d as int]
}

/// The decimal digits of `n`, most significant first, without leading zeros.
pub open spec fn digits_of(n: nat) -> Seq<char>
    decreases n,
{
    if n < 10 {
        seq![digit_char(n)]
    } else {
        digits_of(n / 10).push(digit_char(n % 10))
    }
}

/// `s` preceded by as many `'0'` as make it `width` long.
pub open spec fn pad_zeros(s: Seq<char>, width: nat) -> Seq<char>
    decreases width - s.len(),
{
    if s.len() >= width {
        s
    } else {
        pad_zeros(seq!['0'] + s, width)
    }
}

/// The document number that sequence number `n` gives: the prefix `BT-`
/// and `n` padded with zeros to eight digits.
pub open spec fn document_number_of(n: nat) -> Seq<char> {
    "BT-"@ + pad_zeros(digits_of(n), DOCUMENT_DIGITS as nat)
}

/// The number that the decimal digits `s` spell (leading zeros allowed).
pub open spec fn decimal_value(s: Seq<char>) -> int
    decreases s.len(),
{
    if s.len() == 0 {
        0
    } else {
        decimal_value(s.drop_last()) * 10 + digit_value(s.last())
    }
}

/// The value of a decimal digit character.
pub open spec fn digit_value(c: char) -> int {
    c as int - '0' as int
}

proof fn lemma_digit_char(d: nat)
    requires
        d < 10,
    ensures
        digit_value(digit_char(d)) == d,
{
    reveal_strlit("0123456789");
}

proof fn lemma_value_of_digits(n: nat)
    ensures
        decimal_value(digits_of(n)) == n,
    decreases n,
{
    if n < 10 {
        lemma_digit_char(n);
        assert(seq![digit_char(n)].drop_last() =~= Seq::<char>::empty());
        assert(decimal_value(Seq::<char>::empty()) == 0);
    } else {
        lemma_value_of_digits(n / 10);
        lemma_digit_char(n % 10);
        assert(digits_of(n).drop_last() =~= digits_of(n / 10));
        assert(digits_of(n).last() == digit_char(n % 10));
    }
}

proof fn lemma_leading_zero(s: Seq<char>)
    ensures
        decimal_value(seq!['0'] + s) == decimal_value(s),
    decreases s.len(),
{
    if s.len() == 0 {
        assert((seq!['0'] + s).drop_last() =~= Seq::<char>::empty());
        assert(decimal_value(Seq::<char>::empty()) == 0);
        assert(s =~= Seq::<char>::empty());
    } else {
        lemma_leading_zero(s.drop_last());
        assert((seq!['0'] + s).drop_last() =~= seq!['0'] + s.drop_last());
        assert((seq!['0'] + s).last() == s.last());
    }
}

proof fn lemma_value_of_padded(s: Seq<char>, width: nat)
    ensures
        decimal_value(pad_zeros(s, width)) == decimal_value(s),
    decreases width - s.len(),
{
    if s.len() < width {
        lemma_value_of_padded(seq!['0'] + s, width);
        lemma_leading_zero(s);
    }
}

/// Distinct sequence numbers give distinct document numbers.
pub proof fn lemma_document_numbers_distinct(a: nat, b: nat)
    requires
        a != b,
    ensures
        document_number_of(a) != document_number_of(b),
{
    let pa = pad_zeros(digits_of(a), DOCUMENT_DIGITS as nat);
    let pb = pad_zeros(digits_of(b), DOCUMENT_DIGITS as nat);
    lemma_value_of_padded(digits_of(a), DOCUMENT_DIGITS as nat);
    lemma_value_of_padded(digits_of(b), DOCUMENT_DIGITS as nat);
    lemma_value_of_digits(a);
    lemma_value_of_digits(b);
    reveal_strlit("BT-");
    if document_number_of(a) == document_number_of(b) {
        assert(pa =~= document_number_of(a).subrange(3, document_number_of(a).len() as int));
        assert(pb =~= document_number_of(b).subrange(3, document_number_of(b).len() as int));
    }
}

fn digit_text(d: u64) -> (r: &'static str)
    requires
        d < 10,
    ensures
        r@ == seq![digit_char(d as nat)],
{
    let digits = "0123456789";
    proof {
        reveal_strlit("0123456789");
    }
    digits.substring_char(d as usize, d as usize + 1)
}

/// The decimal digits of `n`.
pub fn decimal_text(n: u64) -> (r: String)
    ensures
        r@ == digits_of(n as nat),
    decreases n,
{
    if n < 10 {
        String::from_str(digit_text(n))
    } else {
        let mut s = decimal_text(n / 10);
        s.append(digit_text(n % 10));
        s
    }
}

/// `s` padded on the left with zeros to `width` characters.
pub fn pad_text(s: String, width: usize) -> (r: String)
    ensures
        r@ == pad_zeros(s@, width as nat),
{
    let mut s = s;
    let ghost unpadded = s@;
    while s.unicode_len() < width
        invariant
            pad_zeros(s@, width as nat) == pad_zeros(unpadded, width as nat),
        decreases width - s@.len(),
    {
        proof {
            reveal_strlit("0");
            assert("0"@ =~= seq!['0']);
        }
        s = String::from_str("0").concat(s.as_str());
    }
    s
}

/// The document number for sequence number `n`.
pub fn document_number(n: u32) -> (r: String)
    ensures
        r@ == document_number_of(n as nat),
{
    let s = pad_text(decimal_text(n as u64), DOCUMENT_DIGITS);
    String::from_str("BT-").concat(s.as_str())
}

pub open spec fn missing_sequence_message() -> Seq<char> {
    "BT sequence not found or update failed"@
}

pub open spec fn negative_sequence_message() -> Seq<char> {
    "BT sequence holds a negative value"@
}

/// The document number for what the store's atomic increment of the
/// transfer counter returned: the new counter value, or nothing when the
/// counter row is missing.
///
/// A missing row, or a negative value, is a `DatabaseError`: the counter
/// is damaged, and retrying would not help.
pub fn allocated_document_number(row: Option<i32>) -> (r: Result<String, PutawayError>)
    ensures
        row matches Some(n) ==> (n >= 0 ==> (r matches Ok(s) && s@ == document_number_of(n as nat))),
        row is None ==> (r matches Err(PutawayError::DatabaseError(m)) && m@ == missing_sequence_message()),
        row matches Some(n) ==> (n < 0 ==> (r matches Err(PutawayError::DatabaseError(m)) && m@
            == negative_sequence_message())),
{
    match row {
        Some(n) => {
            if n < 0 {
                Err(PutawayError::DatabaseError(String::from_str("BT sequence holds a negative value")))
            } else {
                Ok(document_number(n as u32))
            }
        },
        None => Err(PutawayError::DatabaseError(String::from_str("BT sequence not found or update failed"))),
    }
}

/// The store raises the transfer counter by one and returns the new value
/// in a single step, so the values it hands out, in the order the store
/// serialises the calls, each exceed the one before by one. Such values,
/// however many callers ask at once, never give the same document number
/// twice.
pub proof fn lemma_allocations_never_repeat(values: Seq<nat>)
    requires
        forall|k: int| 0 <= k < values.len() - 1 ==> #[trigger] values[k + 1] == values[k] + 1,
    ensures
        forall|i: int, j: int|
            0 <= i < j < values.len() ==> document_number_of(#[trigger] values[i]) != document_number_of(
                #[trigger] values[j],
            ),
{
    assert forall|i: int, j: int| 0 <= i < j < values.len() implies document_number_of(#[trigger] values[i])
        != document_number_of(#[trigger] values[j]) by {
        assert forall|k: int| i <= k < values.len() implies #[trigger] values[k] >= values[i] + (k - i) by {
            lemma_step_growth(values, i, k);
        }
        lemma_document_numbers_distinct(values[i], values[j]);
    }
}

proof fn lemma_step_growth(values: Seq<nat>, i: int, k: int)
    requires
        forall|m: int| 0 <= m < values.len() - 1 ==> #[trigger] values[m + 1] == values[m] + 1,
        0 <= i <= k < values.len(),
    ensures
        values[k] == values[i] + (k - i),
    decreases k - i,
{
    if k > i {
        lemma_step_growth(values, i, k - 1);
        assert(values[(k - 1) + 1] == values[k - 1] + 1);
    }
}

} // verus!
