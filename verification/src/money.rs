//! Amounts of money.
//!
//! An amount is a whole number of hundredths of the currency unit, held in an
//! `i64`: 1500.00 is `150_000`. Two amounts agree within the tolerance where
//! they differ by one hundredth at most.

use vstd::prelude::*;
use crate::text::decimal_text;
use crate::text::digit_char;
use crate::text::push_decimal;

verus! {

/// The largest difference, in hundredths, that counts as agreement.
pub const TOLERANCE: i64 = 1;

/// Whether two amounts agree within the tolerance.
pub open spec fn agree(a: int, b: int) -> bool {
    -TOLERANCE <= a - b <= TOLERANCE
}

/// The sum of a list of amounts.
pub open spec fn sum_of(amounts: Seq<i64>) -> int
    decreases amounts.len(),
{
    if amounts.len() == 0 {
        0
    } else {
        sum_of(amounts.drop_last()) + amounts.last()
    }
}

/// A total that may lie outside the range of one amount: a sign and a size.
#[derive(Clone, Copy, Debug)]
pub struct Total {
    pub negative: bool,
    pub size: u128,
}

impl Total {
    /// The number that the total stands for.
    pub open spec fn value(self) -> int {
        if self.negative {
            -(self.size as int)
        } else {
            self.size as int
        }
    }
}

/// `base` plus the amounts of `plus` minus the amounts of `minus`, exactly,
/// however many amounts there are.
pub fn net_total(base: i64, plus: &Vec<i64>, minus: &Vec<i64>) -> (total: Total)
    ensures
        total.value() == base + sum_of(plus@) - sum_of(minus@),
        total.negative ==> total.size > 0,
{
    // Gains and losses are summed apart, so that neither sum can leave the
    // range of a `u128`.
    let mut gains: u128 = 0;
    let mut losses: u128 = 0;
    if base >= 0 {
        gains = base as u128;
    } else {
        losses = (-(base as i128)) as u128;
    }
    let mut i: usize = 0;
    while i < plus.len()
        invariant
            i <= plus.len(),
            gains - losses == base + sum_of(plus@.take(i as int)),
            gains <= (1 + i) * 0x8000_0000_0000_0000,
            losses <= (1 + i) * 0x8000_0000_0000_0000,
        decreases plus.len() - i,
    {
        let term = plus[i];
        proof {
            assert(plus@.take(i + 1).drop_last() =~= plus@.take(i as int));
        }
        if term >= 0 {
            gains = gains + term as u128;
        } else {
            losses = losses + (-(term as i128)) as u128;
        }
        i = i + 1;
    }
    proof {
        assert(plus@.take(plus.len() as int) =~= plus@);
    }
    let mut j: usize = 0;
    while j < minus.len()
        invariant
            j <= minus.len(),
            gains - losses == base + sum_of(plus@) - sum_of(minus@.take(j as int)),
            gains <= (1 + plus.len() + j) * 0x8000_0000_0000_0000,
            losses <= (1 + plus.len() + j) * 0x8000_0000_0000_0000,
        decreases minus.len() - j,
    {
        let term = minus[j];
        proof {
            assert(minus@.take(j + 1).drop_last() =~= minus@.take(j as int));
        }
        if term >= 0 {
            losses = losses + term as u128;
        } else {
            gains = gains + (-(term as i128)) as u128;
        }
        j = j + 1;
    }
    proof {
        assert(minus@.take(minus.len() as int) =~= minus@);
    }
    if gains >= losses {
        Total { negative: false, size: gains - losses }
    } else {
        Total { negative: true, size: losses - gains }
    }
}

/// Whether `amount` agrees with `total` within the tolerance.
pub fn agrees_with(amount: i64, total: &Total) -> (r: bool)
    ensures
        r == agree(amount as int, total.value()),
{
    if total.size > 0x1_0000_0000_0000_0000 {
        return false;
    }
    let value: i128 = if total.negative {
        -(total.size as i128)
    } else {
        total.size as i128
    };
    let d: i128 = amount as i128 - value;
    d >= -1 && d <= 1
}

/// The size of an amount without its sign.
pub open spec fn magnitude(amount: int) -> nat {
    if amount < 0 {
        (-amount) as nat
    } else {
        amount as nat
    }
}

/// The sign that is written before an amount.
pub open spec fn sign_text(amount: int) -> Seq<char> {
    if amount < 0 {
        seq!['-']
    } else {
        Seq::<char>::empty()
    }
}

/// An amount with two decimal places: `150000` is written `1500.00`.
pub open spec fn fixed_text(amount: int) -> Seq<char> {
    sign_text(amount) + decimal_text(magnitude(amount) / 100) + seq!['.'] + seq![
        digit_char((magnitude(amount) % 100) / 10),
    ] + seq![digit_char(magnitude(amount) % 10)]
}

/// The decimal places of an amount as the shortest text that says them:
/// none for a whole number, one where the second is zero.
pub open spec fn short_fraction(hundredths: nat) -> Seq<char> {
    if hundredths % 100 == 0 {
        Seq::<char>::empty()
    } else if hundredths % 10 == 0 {
        seq!['.'] + seq![digit_char((hundredths % 100) / 10)]
    } else {
        seq!['.'] + seq![digit_char((hundredths % 100) / 10)] + seq![digit_char(hundredths % 10)]
    }
}

/// An amount in its shortest form: `150000` is written `1500`, `150050` is
/// written `1500.5`.
pub open spec fn short_text(amount: int) -> Seq<char> {
    sign_text(amount) + decimal_text(magnitude(amount) / 100) + short_fraction(magnitude(amount))
}

fn push_sign(out: &mut String, negative: bool)
    ensures
        final(out)@ == old(out)@ + (if negative {
            seq!['-']
        } else {
            Seq::<char>::empty()
        }),
{
    if negative {
        proof {
            reveal_strlit("-");
            assert("-"@ =~= seq!['-']);
        }
        out.append("-");
    } else {
        proof {
            assert(old(out)@ + Seq::<char>::empty() =~= old(out)@);
        }
    }
}

fn push_digit(out: &mut String, d: u128)
    requires
        d < 10,
    ensures
        final(out)@ == old(out)@ + seq![digit_char(d as nat)],
{
    push_decimal(out, d);
    proof {
        assert(decimal_text(d as nat) =~= seq![digit_char(d as nat)]);
    }
}

fn push_point(out: &mut String)
    ensures
        final(out)@ == old(out)@ + seq!['.'],
{
    proof {
        reveal_strlit(".");
        assert("."@ =~= seq!['.']);
    }
    out.append(".");
}

/// Appends `total` with two decimal places.
pub fn push_fixed_total(out: &mut String, total: &Total)
    ensures
        final(out)@ == old(out)@ + fixed_text(total.value()),
{
    push_sign(out, total.negative && total.size > 0);
    push_decimal(out, total.size / 100);
    push_point(out);
    push_digit(out, (total.size % 100) / 10);
    push_digit(out, total.size % 10);
    proof {
        assert(final(out)@ =~= old(out)@ + fixed_text(total.value()));
    }
}

/// `amount` as a total.
pub fn total_of_amount(amount: i64) -> (total: Total)
    ensures
        total.value() == amount,
        total.negative ==> total.size > 0,
{
    if amount < 0 {
        Total { negative: true, size: (-(amount as i128)) as u128 }
    } else {
        Total { negative: false, size: amount as u128 }
    }
}

/// Appends `amount` with two decimal places.
pub fn push_fixed(out: &mut String, amount: i64)
    ensures
        final(out)@ == old(out)@ + fixed_text(amount as int),
{
    let total = total_of_amount(amount);
    push_fixed_total(out, &total);
}

/// Appends `amount` in its shortest form.
pub fn push_short(out: &mut String, amount: i64)
    ensures
        final(out)@ == old(out)@ + short_text(amount as int),
{
    let total = total_of_amount(amount);
    let size = total.size;
    push_sign(out, total.negative);
    push_decimal(out, size / 100);
    if size % 100 != 0 {
        push_point(out);
        push_digit(out, (size % 100) / 10);
        if size % 10 != 0 {
            push_digit(out, size % 10);
        }
    }
    proof {
        assert(final(out)@ =~= old(out)@ + short_text(amount as int));
    }
}

} // verus!
