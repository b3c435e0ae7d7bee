//! What one completion of a chore earns.
//!
//! A chore pays either its full amount for every completion, or one weekly
//! amount split evenly over the weekdays on which it is expected and rounded
//! to the nearest 25 cents. Every path that needs the amount of a completion
//! takes it from [`PaymentType::calculate_completion_amount`].

use vstd::arithmetic::div_mod::lemma_fundamental_div_mod;
use vstd::arithmetic::div_mod::lemma_fundamental_div_mod_converse;
use vstd::prelude::*;
use vstd::std_specs::convert::FromSpecImpl;
use vstd::string::StringExecFns;

verus! {

/// How a chore pays: its full amount for every completion, or one weekly
/// amount split over the days on which the chore is expected.
#[derive(Clone, Copy, Debug, PartialEq, Eq, Structural)]
pub enum PaymentType {
    Daily,
    Weekly,
}

/// The place value of a weekday in a day mask: Monday is day 0 and weighs 1,
/// Sunday is day 6 and weighs 64.
pub open spec fn day_weight(day: int) -> int {
    if day == 0 {
        1
    } else if day == 1 {
        2
    } else if day == 2 {
        4
    } else if day == 3 {
        8
    } else if day == 4 {
        16
    } else if day == 5 {
        32
    } else {
        64
    }
}

/// 1 if the mask expects the chore on `day`, else 0.
pub open spec fn day_bit(required_days: int, day: int) -> int {
    (required_days / day_weight(day)) % 2
}

/// The number of weekdays, Monday to Sunday, that a day mask expects. Bits
/// above Sunday's do not count.
pub open spec fn assigned_days(required_days: int) -> int {
    day_bit(required_days, 0) + day_bit(required_days, 1) + day_bit(required_days, 2) + day_bit(
        required_days,
        3,
    ) + day_bit(required_days, 4) + day_bit(required_days, 5) + day_bit(required_days, 6)
}

/// The multiple of 25 nearest to `numerator / denominator`; a value halfway
/// between two multiples goes to the upper one.
#[verifier::opaque]
pub open spec fn nearest_quarter(numerator: int, denominator: int) -> int
    recommends
        denominator > 0,
{
    25 * ((2 * numerator + 25 * denominator) / (50 * denominator))
}

/// `value` where it fits in an `i32`, else the bound of `i32` on its side.
pub open spec fn saturated(value: int) -> int {
    if value > i32::MAX {
        i32::MAX as int
    } else if value < i32::MIN {
        i32::MIN as int
    } else {
        value
    }
}

/// `numerator / denominator` in cents, rounded to the nearest quarter and
/// held within `i32`.
pub open spec fn rounded_quarter(numerator: int, denominator: int) -> int
    recommends
        denominator > 0,
{
    saturated(nearest_quarter(numerator, denominator))
}

/// The cents that one completion earns under a payment policy.
pub open spec fn completion_amount(
    payment_type: PaymentType,
    chore_amount_cents: int,
    required_days: int,
) -> int {
    match payment_type {
        PaymentType::Daily => chore_amount_cents,
        PaymentType::Weekly => if assigned_days(required_days) == 0 {
            chore_amount_cents
        } else {
            rounded_quarter(chore_amount_cents, assigned_days(required_days))
        },
    }
}

/// The text that the store holds for the weekly payment type.
pub open spec fn weekly_text() -> Seq<char> {
    seq!['w', 'e', 'e', 'k', 'l', 'y']
}

/// The text that the store holds for the daily payment type.
pub open spec fn daily_text() -> Seq<char> {
    seq!['d', 'a', 'i', 'l', 'y']
}

/// The payment type that a stored text stands for: weekly for the weekly
/// text, daily for every other text.
pub open spec fn payment_type_of(text: Seq<char>) -> PaymentType {
    if text == weekly_text() {
        PaymentType::Weekly
    } else {
        PaymentType::Daily
    }
}

/// The days below `day` that a mask expects.
spec fn days_before(required_days: int, day: int) -> int
    decreases day,
{
    if day <= 0 {
        0
    } else {
        days_before(required_days, day - 1) + day_bit(required_days, day - 1)
    }
}

proof fn lemma_day_bit(required_days: i32, day: u32)
    requires
        day < 7,
    ensures
        (required_days >> day) & 1 == day_bit(required_days as int, day as int),
        0 <= day_bit(required_days as int, day as int) <= 1,
{
    let x = required_days;
    if day == 0 {
        assert((x >> 0u32) & 1 == (x / 1) % 2 && 0 <= (x / 1) % 2 <= 1) by (bit_vector);
    } else if day == 1 {
        assert((x >> 1u32) & 1 == (x / 2) % 2 && 0 <= (x / 2) % 2 <= 1) by (bit_vector);
    } else if day == 2 {
        assert((x >> 2u32) & 1 == (x / 4) % 2 && 0 <= (x / 4) % 2 <= 1) by (bit_vector);
    } else if day == 3 {
        assert((x >> 3u32) & 1 == (x / 8) % 2 && 0 <= (x / 8) % 2 <= 1) by (bit_vector);
    } else if day == 4 {
        assert((x >> 4u32) & 1 == (x / 16) % 2 && 0 <= (x / 16) % 2 <= 1) by (bit_vector);
    } else if day == 5 {
        assert((x >> 5u32) & 1 == (x / 32) % 2 && 0 <= (x / 32) % 2 <= 1) by (bit_vector);
    } else {
        assert((x >> 6u32) & 1 == (x / 64) % 2 && 0 <= (x / 64) % 2 <= 1) by (bit_vector);
    }
}

/// `floor(dividend / divisor)` for a positive divisor.
fn floor_div(dividend: i64, divisor: i64) -> (quotient: i64)
    requires
        0 < divisor <= 0x4000_0000_0000_0000,
        -0x4000_0000_0000_0000 <= dividend,
    ensures
        quotient == dividend as int / divisor as int,
{
    if dividend >= 0 {
        dividend / divisor
    } else {
        let shifted: i64 = -dividend + (divisor - 1);
        let up: i64 = shifted / divisor;
        proof {
            let rest = shifted as int % divisor as int;
            lemma_fundamental_div_mod(shifted as int, divisor as int);
            assert(divisor * up == up * divisor) by (nonlinear_arith);
            assert((-up) * divisor == -(up * divisor)) by (nonlinear_arith);
            lemma_fundamental_div_mod_converse(
                dividend as int,
                divisor as int,
                -up,
                divisor - 1 - rest,
            );
        }
        -up
    }
}

impl PaymentType {
    /// Counts the weekdays that a day mask expects.
    pub fn get_assigned_days_count(required_days: i32) -> (count: i32)
        ensures
            count == assigned_days(required_days as int),
            0 <= count <= 7,
    {
        let mut count: i32 = 0;
        let mut day: u32 = 0;
        while day < 7
            invariant
                day <= 7,
                0 <= count <= day,
                count == days_before(required_days as int, day as int),
            decreases 7 - day,
        {
            proof {
                lemma_day_bit(required_days, day);
            }
            if (required_days >> day) & 1 == 1 {
                count = count + 1;
            }
            day = day + 1;
        }
        proof {
            reveal_with_fuel(days_before, 8);
        }
        count
    }

    /// Rounds the value `numerator / denominator` to the nearest multiple of
    /// 25; a value halfway between two multiples goes up. A result beyond
    /// `i32` is held at the bound.
    pub fn round_to_nearest_quarter(numerator: i32, denominator: i32) -> (cents: i32)
        requires
            denominator > 0,
        ensures
            cents == rounded_quarter(numerator as int, denominator as int),
    {
        let n: i64 = numerator as i64;
        let d: i64 = denominator as i64;
        let quarters: i64 = floor_div(2 * n + 25 * d, 50 * d);
        proof {
            reveal(nearest_quarter);
            let a: int = 2 * n + 25 * d;
            let b: int = 50 * d;
            let rest: int = a % b;
            lemma_fundamental_div_mod(a, b);
            assert(-1_200_000_000 <= quarters <= 1_200_000_000) by (nonlinear_arith)
                requires
                    a == b * quarters + rest,
                    0 <= rest < b,
                    50 <= b <= 50 * 0x8000_0000,
                    -2 * 0x8000_0000 <= a <= 27 * 0x8000_0000,
            ;
        }
        let rounded: i64 = 25 * quarters;
        if rounded > i32::MAX as i64 {
            i32::MAX
        } else if rounded < i32::MIN as i64 {
            i32::MIN
        } else {
            rounded as i32
        }
    }

    /// The cents that one completion earns: the full amount of a daily chore;
    /// for a weekly chore the amount divided by the number of expected days
    /// and rounded to the nearest quarter, or the full amount where no day is
    /// expected.
    pub fn calculate_completion_amount(
        &self,
        chore_amount_cents: i32,
        required_days: i32,
    ) -> (cents: i32)
        ensures
            cents == completion_amount(*self, chore_amount_cents as int, required_days as int),
            *self == PaymentType::Daily ==> cents == chore_amount_cents,
            *self == PaymentType::Weekly && assigned_days(required_days as int) == 0 ==> cents
                == chore_amount_cents,
            *self == PaymentType::Weekly && assigned_days(required_days as int) > 0 ==> cents
                == rounded_quarter(chore_amount_cents as int, assigned_days(required_days as int)),
    {
        match self {
            PaymentType::Daily => chore_amount_cents,
            PaymentType::Weekly => {
                let day_count = Self::get_assigned_days_count(required_days);
                if day_count == 0 {
                    chore_amount_cents
                } else {
                    Self::round_to_nearest_quarter(chore_amount_cents, day_count)
                }
            },
        }
    }

    /// The text under which the store holds this payment type.
    pub fn as_str(&self) -> (text: &'static str)
        ensures
            text@ == match *self {
                PaymentType::Daily => daily_text(),
                PaymentType::Weekly => weekly_text(),
            },
            payment_type_of(text@) == *self,
    {
        proof {
            reveal_strlit("daily");
            reveal_strlit("weekly");
            assert("daily"@ =~= daily_text());
            assert("weekly"@ =~= weekly_text());
            assert(daily_text().len() != weekly_text().len());
        }
        match self {
            PaymentType::Daily => "daily",
            PaymentType::Weekly => "weekly",
        }
    }
}

impl From<String> for PaymentType {
    /// Reads a stored payment type. Every text but the weekly one is daily.
    fn from(text: String) -> (payment_type: PaymentType) {
        let weekly = String::from_str("weekly");
        proof {
            reveal_strlit("weekly");
            assert("weekly"@ =~= weekly_text());
        }
        if text == weekly {
            PaymentType::Weekly
        } else {
            PaymentType::Daily
        }
    }
}

impl FromSpecImpl<String> for PaymentType {
    open spec fn obeys_from_spec() -> bool {
        true
    }

    open spec fn from_spec(text: String) -> PaymentType {
        payment_type_of(text@)
    }
}

/// A weekly chore that is expected on at least one day pays, for each
/// completion, the rounded quarter of its amount divided by the number of
/// expected days.
pub proof fn lemma_weekly_amount_is_rounded_share(chore_amount_cents: int, required_days: int)
    requires
        assigned_days(required_days) > 0,
    ensures
        completion_amount(PaymentType::Weekly, chore_amount_cents, required_days)
            == rounded_quarter(chore_amount_cents, assigned_days(required_days)),
{
}

/// The rounded value is a multiple of 25, lies at most twelve and a half
/// cents from `numerator / denominator`, and lies above it where the two are
/// exactly that far apart.
pub proof fn lemma_nearest_quarter_is_nearest(numerator: int, denominator: int)
    requires
        denominator > 0,
    ensures
        nearest_quarter(numerator, denominator) % 25 == 0,
        2 * (nearest_quarter(numerator, denominator) * denominator - numerator) <= 25
            * denominator,
        2 * (numerator - nearest_quarter(numerator, denominator) * denominator) < 25
            * denominator,
{
    reveal(nearest_quarter);
    let a = 2 * numerator + 25 * denominator;
    let b = 50 * denominator;
    let k = a / b;
    lemma_fundamental_div_mod(a, b);
    assert(a == b * k + a % b);
    assert(0 <= a % b < b);
    assert((25 * k) % 25 == 0) by (nonlinear_arith);
    assert(b * k == 2 * ((25 * k) * denominator)) by (nonlinear_arith)
        requires
            b == 50 * denominator,
    ;
}

} // verus!
