use chore_tracker::day_patterns::{every_day, mon_wed_fri, monday_only, weekdays};
use chore_tracker::payment::PaymentType;

#[test]
fn test_payment_type_calculations() {
    // Test daily payment calculation
    let daily_amount =
        PaymentType::calculate_completion_amount(&PaymentType::Daily, 200, every_day());
    assert_eq!(daily_amount, 200, "Daily chores should pay full amount");

    // Test weekly payment calculation with 3 days
    let weekly_amount_3_days =
        PaymentType::calculate_completion_amount(&PaymentType::Weekly, 150, mon_wed_fri());
    assert_eq!(
        weekly_amount_3_days, 50,
        "Weekly chore with 3 days should pay 50 cents each"
    );

    // Test weekly payment calculation with 5 days (rounding case)
    let weekly_amount_5_days =
        PaymentType::calculate_completion_amount(&PaymentType::Weekly, 150, weekdays());
    assert_eq!(
        weekly_amount_5_days, 25,
        "Weekly chore with 5 days should round 30 to 25 cents"
    );

    // Test edge case: no assigned days
    let no_days_amount = PaymentType::calculate_completion_amount(&PaymentType::Weekly, 100, 0);
    assert_eq!(
        no_days_amount, 100,
        "No assigned days should fallback to full amount"
    );
}

#[test]
fn test_rounding_to_nearest_quarter() {
    // Test various rounding scenarios
    assert_eq!(PaymentType::round_to_nearest_quarter(23, 1), 25);
    assert_eq!(PaymentType::round_to_nearest_quarter(27, 1), 25);
    assert_eq!(PaymentType::round_to_nearest_quarter(37, 1), 25);
    assert_eq!(PaymentType::round_to_nearest_quarter(38, 1), 50);
    assert_eq!(PaymentType::round_to_nearest_quarter(12, 1), 0);
    assert_eq!(PaymentType::round_to_nearest_quarter(13, 1), 25);
    assert_eq!(PaymentType::round_to_nearest_quarter(87, 1), 75);
    assert_eq!(PaymentType::round_to_nearest_quarter(88, 1), 100);
}

#[test]
fn test_get_assigned_days_count() {
    assert_eq!(PaymentType::get_assigned_days_count(mon_wed_fri()), 3);
    assert_eq!(PaymentType::get_assigned_days_count(weekdays()), 5);
    assert_eq!(PaymentType::get_assigned_days_count(every_day()), 7);
    assert_eq!(PaymentType::get_assigned_days_count(monday_only()), 1);
    assert_eq!(PaymentType::get_assigned_days_count(0), 0);
}

#[test]
fn rounding_keeps_multiples_of_a_quarter() {
    assert_eq!(PaymentType::round_to_nearest_quarter(0, 1), 0);
    assert_eq!(PaymentType::round_to_nearest_quarter(25, 1), 25);
    assert_eq!(PaymentType::round_to_nearest_quarter(50, 1), 50);
    assert_eq!(PaymentType::round_to_nearest_quarter(300, 4), 75);
}

#[test]
fn rounding_sends_a_value_halfway_up() {
    // 12.5, 37.5 and 62.5 lie halfway between two quarters.
    assert_eq!(PaymentType::round_to_nearest_quarter(25, 2), 25);
    assert_eq!(PaymentType::round_to_nearest_quarter(75, 2), 50);
    assert_eq!(PaymentType::round_to_nearest_quarter(125, 2), 75);
    // Just below and just above 12.5.
    assert_eq!(PaymentType::round_to_nearest_quarter(87, 7), 0);
    assert_eq!(PaymentType::round_to_nearest_quarter(88, 7), 25);
    // -12.5 goes up to 0, anything below it down to -25.
    assert_eq!(PaymentType::round_to_nearest_quarter(-25, 2), 0);
    assert_eq!(PaymentType::round_to_nearest_quarter(-26, 2), -25);
}

#[test]
fn rounding_works_on_fractions() {
    // 100 / 3 = 33.33
    assert_eq!(PaymentType::round_to_nearest_quarter(100, 3), 25);
    // 150 / 7 = 21.43
    assert_eq!(PaymentType::round_to_nearest_quarter(150, 7), 25);
    // 80 / 7 = 11.43
    assert_eq!(PaymentType::round_to_nearest_quarter(80, 7), 0);
    // 1000 / 6 = 166.67
    assert_eq!(PaymentType::round_to_nearest_quarter(1000, 6), 175);
    // -100 / 3 = -33.33
    assert_eq!(PaymentType::round_to_nearest_quarter(-100, 3), -25);
}

#[test]
fn rounding_stays_within_the_integer_range() {
    assert_eq!(PaymentType::round_to_nearest_quarter(i32::MAX, 1), i32::MAX);
    assert_eq!(PaymentType::round_to_nearest_quarter(i32::MIN, 1), i32::MIN);
    assert_eq!(
        PaymentType::round_to_nearest_quarter(i32::MAX - 11, 1),
        2_147_483_625
    );
    assert_eq!(
        PaymentType::round_to_nearest_quarter(i32::MAX, i32::MAX),
        0
    );
    assert_eq!(PaymentType::round_to_nearest_quarter(i32::MAX, 2), 1_073_741_825);
}

#[test]
fn days_count_ignores_bits_above_sunday() {
    assert_eq!(PaymentType::get_assigned_days_count(128), 0);
    assert_eq!(PaymentType::get_assigned_days_count(128 + 21), 3);
    assert_eq!(PaymentType::get_assigned_days_count(-1), 7);
    assert_eq!(PaymentType::get_assigned_days_count(i32::MIN), 0);
    assert_eq!(PaymentType::get_assigned_days_count(64), 1);
    assert_eq!(PaymentType::get_assigned_days_count(0b101_0101), 4);
}

#[test]
fn daily_amount_does_not_depend_on_days() {
    for days in [0, 1, 21, 31, 127, 128, -1] {
        for amount in [0, 1, 30, 150, 999, -40, i32::MAX, i32::MIN] {
            assert_eq!(
                PaymentType::Daily.calculate_completion_amount(amount, days),
                amount
            );
        }
    }
}

#[test]
fn weekly_amount_is_the_rounded_share() {
    for days in 1..=127 {
        let count = PaymentType::get_assigned_days_count(days);
        assert!(count > 0);
        for amount in [0, 1, 24, 25, 99, 150, 175, 700, 1234, 100_000] {
            assert_eq!(
                PaymentType::Weekly.calculate_completion_amount(amount, days),
                PaymentType::round_to_nearest_quarter(amount, count)
            );
        }
    }
}

#[test]
fn weekly_amount_without_days_is_the_full_amount() {
    for amount in [0, 1, 30, 150, 999, -40, i32::MAX, i32::MIN] {
        assert_eq!(
            PaymentType::Weekly.calculate_completion_amount(amount, 0),
            amount
        );
        assert_eq!(
            PaymentType::Weekly.calculate_completion_amount(amount, 128),
            amount
        );
    }
}

#[test]
fn weekly_amounts_by_number_of_days() {
    // 700 cents over one to seven days.
    let expected = [700, 350, 225, 175, 150, 125, 100];
    let masks = [1, 3, 7, 15, 31, 63, 127];
    for (mask, want) in masks.iter().zip(expected.iter()) {
        assert_eq!(
            PaymentType::Weekly.calculate_completion_amount(700, *mask),
            *want
        );
    }
}

#[test]
fn payment_type_reads_stored_text() {
    assert_eq!(PaymentType::from("weekly".to_string()), PaymentType::Weekly);
    assert_eq!(PaymentType::from("daily".to_string()), PaymentType::Daily);
    assert_eq!(PaymentType::from("".to_string()), PaymentType::Daily);
    assert_eq!(PaymentType::from("Weekly".to_string()), PaymentType::Daily);
    assert_eq!(PaymentType::from("weekly ".to_string()), PaymentType::Daily);
    assert_eq!(PaymentType::from("monthly".to_string()), PaymentType::Daily);
}

#[test]
fn payment_type_text_round_trips() {
    assert_eq!(PaymentType::Daily.as_str(), "daily");
    assert_eq!(PaymentType::Weekly.as_str(), "weekly");
    for payment_type in [PaymentType::Daily, PaymentType::Weekly] {
        assert_eq!(
            PaymentType::from(payment_type.as_str().to_string()),
            payment_type
        );
    }
}

fn rounded_in_floating_point(amount: i32, days: i32) -> i32 {
    let share = amount as f64 / days as f64;
    ((share / 25.0).round() * 25.0) as i32
}

#[test]
fn rounding_agrees_with_floating_point_division() {
    for days in 1..=7 {
        for amount in 0..=6000 {
            assert_eq!(
                PaymentType::round_to_nearest_quarter(amount, days),
                rounded_in_floating_point(amount, days),
                "{} cents over {} days",
                amount,
                days
            );
        }
        for amount in (i32::MAX - 2000)..=i32::MAX {
            assert_eq!(
                PaymentType::round_to_nearest_quarter(amount, days),
                rounded_in_floating_point(amount, days),
                "{} cents over {} days",
                amount,
                days
            );
        }
    }
}

#[test]
fn rounded_value_is_the_nearest_quarter() {
    for days in 1..=7i64 {
        for amount in -3000..=3000i64 {
            let cents = PaymentType::round_to_nearest_quarter(amount as i32, days as i32) as i64;
            assert_eq!(cents % 25, 0);
            // At most twelve and a half cents above the share, and less than that below it.
            assert!(2 * (cents * days - amount) <= 25 * days);
            assert!(2 * (amount - cents * days) < 25 * days);
        }
    }
}
