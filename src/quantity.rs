use vstd::prelude::*;
use crate::sequence::{decimal_text, digits_of, pad_text, pad_zeros};

verus! {

/// Number of quantity units that make one stock unit: quantities are kept
/// as whole millionths of a unit.
pub const QUANTITY_SCALE: i64 = 1_000_000;

/// Slack that absorbs rounding noise from upstream numeric input
/// (a thousandth of a stock unit).
pub const QUANTITY_TOLERANCE: i64 = 1_000;

/// The larger of zero and `x`.
pub open spec fn clamp_at_zero(x: int) -> int {
    if x < 0 {
        0
    } else {
        x
    }
}

/// `s` without its trailing `'0'` characters.
pub open spec fn trim_zeros(s: Seq<char>) -> Seq<char>
    decreases s.len(),
{
    if s.len() > 0 && s.last() == '0' {
        trim_zeros(s.drop_last())
    } else {
        s
    }
}

/// The decimal text of quantity `q`: its sign, whole units, and the
/// fraction of a unit without trailing zeros (none when `q` is whole).
pub open spec fn quantity_text_of(q: int) -> Seq<char> {
    let a = if q < 0 {
        -q
    } else {
        q
    };
    let whole = a / QUANTITY_SCALE as int;
    let frac = a % QUANTITY_SCALE as int;
    let sign = if q < 0 {
        "-"@
    } else {
        Seq::<char>::empty()
    };
    let fraction = if frac == 0 {
        Seq::<char>::empty()
    } else {
        "."@ + trim_zeros(pad_zeros(digits_of(frac as nat), 6))
    };
    sign + digits_of(whole as nat) + fraction
}

/// Quantity `q` as decimal text, in stock units: `5002000` reads `5.002`.
pub fn quantity_text(q: i64) -> (r: String)
    ensures
        r@ == quantity_text_of(q as int),
{
    let a: i128 = if q < 0 {
        -(q as i128)
    } else {
        q as i128
    };
    let whole = (a / QUANTITY_SCALE as i128) as u64;
    let frac = (a % QUANTITY_SCALE as i128) as u64;
    let mut text = if q < 0 {
        String::from_str("-")
    } else {
        String::new()
    };
    text.append(decimal_text(whole).as_str());
    if frac != 0 {
        let mut f = pad_text(decimal_text(frac), 6);
        let ghost padded = f@;
        let mut n = f.unicode_len();
        while n > 0 && f.get_char(n - 1) == '0'
            invariant
                n == f@.len(),
                trim_zeros(f@) == trim_zeros(padded),
            decreases n,
        {
            f = String::from_str(f.substring_char(0, n - 1));
            n = n - 1;
        }
        assert(trim_zeros(f@) == f@);
        text.append(".");
        text.append(f.as_str());
    }
    text
}

} // verus!
