//! Day masks for the weekdays on which a chore is expected.
//!
//! Days are numbered from 1, Monday, to 7, Sunday. In a mask Monday weighs
//! 1, Tuesday 2, Wednesday 4, and so on up to Sunday's 64.

use crate::payment::assigned_days;
use crate::payment::day_bit;
use crate::payment::day_weight;
use vstd::prelude::*;

verus! {

/// The weight of `day` where the days hold it, else 0.
pub open spec fn weight_if_named(days: Seq<u8>, day: u8) -> int {
    if days.contains(day) {
        day_weight(day - 1)
    } else {
        0
    }
}

/// The mask that expects a chore on exactly the given days.
pub open spec fn mask_of(days: Seq<u8>) -> int {
    weight_if_named(days, 1) + weight_if_named(days, 2) + weight_if_named(days, 3)
        + weight_if_named(days, 4) + weight_if_named(days, 5) + weight_if_named(days, 6)
        + weight_if_named(days, 7)
}

/// The number of the days from 1 to 7 that the days hold.
pub open spec fn named_days(days: Seq<u8>) -> int {
    let one = |day: u8| if days.contains(day) { 1int } else { 0int };
    one(1) + one(2) + one(3) + one(4) + one(5) + one(6) + one(7)
}

proof fn lemma_bits_of_sum(mask: i32, b1: i32, b2: i32, b3: i32, b4: i32, b5: i32, b6: i32, b7: i32)
    requires
        0 <= b1 <= 1,
        0 <= b2 <= 1,
        0 <= b3 <= 1,
        0 <= b4 <= 1,
        0 <= b5 <= 1,
        0 <= b6 <= 1,
        0 <= b7 <= 1,
        mask == b1 + 2 * b2 + 4 * b3 + 8 * b4 + 16 * b5 + 32 * b6 + 64 * b7,
    ensures
        day_bit(mask as int, 0) == b1,
        day_bit(mask as int, 1) == b2,
        day_bit(mask as int, 2) == b3,
        day_bit(mask as int, 3) == b4,
        day_bit(mask as int, 4) == b5,
        day_bit(mask as int, 5) == b6,
        day_bit(mask as int, 6) == b7,
{
    assert((mask / 1) % 2 == b1 && (mask / 2) % 2 == b2 && (mask / 4) % 2 == b3 && (mask / 8) % 2
        == b4 && (mask / 16) % 2 == b5 && (mask / 32) % 2 == b6 && (mask / 64) % 2 == b7)
        by (bit_vector)
        requires
            0 <= b1 <= 1,
            0 <= b2 <= 1,
            0 <= b3 <= 1,
            0 <= b4 <= 1,
            0 <= b5 <= 1,
            0 <= b6 <= 1,
            0 <= b7 <= 1,
            mask == b1 + 2 * b2 + 4 * b3 + 8 * b4 + 16 * b5 + 32 * b6 + 64 * b7,
    ;
}

/// A mask built from days expects the chore on exactly those days, and the
/// number of days that it expects is the number of days named.
pub proof fn lemma_mask_expects_named_days(days: Seq<u8>)
    ensures
        0 <= mask_of(days) <= 127,
        forall|day: u8|
            1 <= day <= 7 ==> (#[trigger] days.contains(day) <==> day_bit(mask_of(days), day - 1)
                == 1),
        assigned_days(mask_of(days)) == named_days(days),
{
    let bit = |day: u8| if days.contains(day) { 1i32 } else { 0i32 };
    lemma_bits_of_sum(
        mask_of(days) as i32,
        bit(1),
        bit(2),
        bit(3),
        bit(4),
        bit(5),
        bit(6),
        bit(7),
    );
}

proof fn lemma_day_added(mask: i32, day: u8)
    requires
        0 <= mask <= 127,
        1 <= day <= 7,
    ensures
        (mask | (1i32 << ((day - 1) as u8))) == mask + if day_bit(mask as int, day - 1) == 1 {
            0
        } else {
            day_weight(day - 1)
        },
{
    let s: u8 = (day - 1) as u8;
    let m = mask | (1i32 << s);
    assert(m == mask + if s == 0 {
        if (mask / 1) % 2 == 1 { 0i32 } else { 1i32 }
    } else if s == 1 {
        if (mask / 2) % 2 == 1 { 0i32 } else { 2i32 }
    } else if s == 2 {
        if (mask / 4) % 2 == 1 { 0i32 } else { 4i32 }
    } else if s == 3 {
        if (mask / 8) % 2 == 1 { 0i32 } else { 8i32 }
    } else if s == 4 {
        if (mask / 16) % 2 == 1 { 0i32 } else { 16i32 }
    } else if s == 5 {
        if (mask / 32) % 2 == 1 { 0i32 } else { 32i32 }
    } else {
        if (mask / 64) % 2 == 1 { 0i32 } else { 64i32 }
    }) by (bit_vector)
        requires
            0 <= mask <= 127,
            s < 7,
            m == mask | (1i32 << s),
    ;
}

/// The mask of the days with one more day: the day's weight comes on top
/// unless the days hold it already.
proof fn lemma_mask_with_day(days: Seq<u8>, day: u8)
    requires
        1 <= day <= 7,
    ensures
        mask_of(days.push(day)) == mask_of(days) + if days.contains(day) {
            0
        } else {
            day_weight(day - 1)
        },
{
    let longer = days.push(day);
    assert forall|other: u8| #[trigger] longer.contains(other) <==> days.contains(other) || other
        == day by {
        if days.contains(other) {
            let k = choose|k: int| 0 <= k < days.len() && days[k] == other;
            assert(longer[k] == other);
        }
        if other == day {
            assert(longer[days.len() as int] == day);
        }
    }
    assert(longer.contains(1u8) <==> days.contains(1u8) || 1u8 == day);
    assert(longer.contains(2u8) <==> days.contains(2u8) || 2u8 == day);
    assert(longer.contains(3u8) <==> days.contains(3u8) || 3u8 == day);
    assert(longer.contains(4u8) <==> days.contains(4u8) || 4u8 == day);
    assert(longer.contains(5u8) <==> days.contains(5u8) || 5u8 == day);
    assert(longer.contains(6u8) <==> days.contains(6u8) || 6u8 == day);
    assert(longer.contains(7u8) <==> days.contains(7u8) || 7u8 == day);
}

/// Builds the mask that expects a chore on the given days, each a number
/// from 1, Monday, to 7, Sunday. A day named twice counts once.
pub fn days_bitmask(days: &[u8]) -> (mask: i32)
    requires
        forall|i: int| 0 <= i < days@.len() ==> 1 <= #[trigger] days@[i] <= 7,
    ensures
        mask == mask_of(days@),
        0 <= mask <= 127,
{
    let mut mask: i32 = 0;
    let mut index: usize = 0;
    while index < days.len()
        invariant
            index <= days@.len(),
            forall|i: int| 0 <= i < days@.len() ==> 1 <= #[trigger] days@[i] <= 7,
            mask == mask_of(days@.take(index as int)),
        decreases days@.len() - index,
    {
        let day = days[index];
        proof {
            let seen = days@.take(index as int);
            assert(days@.take(index + 1) =~= seen.push(day));
            lemma_mask_expects_named_days(seen);
            lemma_day_added(mask, day);
            lemma_mask_with_day(seen, day);
            assert(seen.contains(day) <==> day_bit(mask as int, day - 1) == 1);
        }
        mask = mask | (1i32 << (day - 1));
        index = index + 1;
    }
    proof {
        assert(days@.take(days@.len() as int) =~= days@);
        lemma_mask_expects_named_days(days@);
    }
    mask
}

/// Monday, Wednesday and Friday.
pub fn mon_wed_fri() -> (mask: i32)
    ensures
        mask == 21,
{
    let days: [u8; 3] = [1, 3, 5];
    let mask = days_bitmask(days.as_slice());
    proof {
        assert(days@[0] == 1 && days@[1] == 3 && days@[2] == 5);
    }
    mask
}

/// Monday to Friday.
pub fn weekdays() -> (mask: i32)
    ensures
        mask == 31,
{
    let days: [u8; 5] = [1, 2, 3, 4, 5];
    let mask = days_bitmask(days.as_slice());
    proof {
        assert(days@[0] == 1 && days@[1] == 2 && days@[2] == 3 && days@[3] == 4 && days@[4] == 5);
    }
    mask
}

/// Every day of the week.
pub fn every_day() -> (mask: i32)
    ensures
        mask == 127,
{
    let days: [u8; 7] = [1, 2, 3, 4, 5, 6, 7];
    let mask = days_bitmask(days.as_slice());
    proof {
        assert(days@[0] == 1 && days@[1] == 2 && days@[2] == 3 && days@[3] == 4 && days@[4] == 5
            && days@[5] == 6 && days@[6] == 7);
    }
    mask
}

/// Monday alone.
pub fn monday_only() -> (mask: i32)
    ensures
        mask == 1,
{
    let days: [u8; 1] = [1];
    let mask = days_bitmask(days.as_slice());
    proof {
        assert(days@[0] == 1);
    }
    mask
}

} // verus!
