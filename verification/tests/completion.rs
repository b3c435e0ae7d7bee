use chore_tracker::day_patterns::{every_day, mon_wed_fri, monday_only, weekdays};
use chore_tracker::models::{Chore, ChoreCompletion, ChoreCompletionInput, User};
use chore_tracker::payment::PaymentType;
use chore_tracker::svc::ChoreCompletionSvc;
use chrono::NaiveDate;

fn create_test_date(year: i32, month: u32, day: u32) -> NaiveDate {
    NaiveDate::from_ymd_opt(year, month, day).expect("Invalid test date")
}

fn create_test_chore(
    id: i32,
    name: &str,
    payment_type: PaymentType,
    amount_cents: i32,
    required_days: i32,
    admin_id: i32,
) -> Chore {
    Chore {
        id: Some(id),
        uuid: format!("chore-{}", id),
        name: name.to_string(),
        description: Some(format!("Test description for {}", name)),
        payment_type: payment_type.as_str().to_string(),
        amount_cents,
        required_days,
        active: true,
        created_by_admin_id: admin_id,
        created_at: None,
        updated_at: None,
    }
}

fn create_test_user(id: i32, name: &str) -> User {
    User {
        id: Some(id),
        uuid: format!("user-{}", id),
        name: name.to_string(),
        image_path: None,
        created_at: None,
        updated_at: None,
        image_id: None,
    }
}

fn approve(completion: &mut ChoreCompletion, admin_id: i32) {
    completion.approved = true;
    completion.approved_by_admin_id = Some(admin_id);
}

fn mark_as_paid(completions: &mut [ChoreCompletion], user_id: i32) {
    for completion in completions.iter_mut() {
        if completion.approved && !completion.paid_out && completion.user_id == user_id {
            completion.paid_out = true;
        }
    }
}

fn unpaid_totals_of(users: &[(i32, &str)], completions: &Vec<ChoreCompletion>) -> Vec<(User, i32)> {
    let users = users
        .iter()
        .map(|(id, name)| create_test_user(*id, name))
        .collect();
    ChoreCompletionSvc::get_unpaid_totals(users, completions)
}

#[test]
fn test_weekly_chore_payout_should_pay_fraction_per_day() {
    let admin_id = 1;
    let user_id = 7;

    // Create a weekly chore with Monday+Wednesday+Friday (3 days), paying 150 cents
    let chore = create_test_chore(
        1,
        "Weekly Chore",
        PaymentType::Weekly,
        150,           // 150 cents total
        mon_wed_fri(), // 3 days
        admin_id,
    );

    // Create completion for Monday
    let monday_input = ChoreCompletionInput {
        uuid: None,
        chore_id: chore.id.unwrap(),
        user_id,
        completed_date: create_test_date(2024, 10, 21), // A Monday
    };

    let mut monday_completion = ChoreCompletionSvc::create(&chore, &monday_input);

    // Expected: 150 / 3 = 50 cents per day
    assert_eq!(
        monday_completion.amount_cents, 50,
        "Weekly chore should pay fraction of total amount per day"
    );

    // Create completion for Wednesday
    let wednesday_input = ChoreCompletionInput {
        uuid: None,
        chore_id: chore.id.unwrap(),
        user_id,
        completed_date: create_test_date(2024, 10, 23), // A Wednesday
    };

    let mut wednesday_completion = ChoreCompletionSvc::create(&chore, &wednesday_input);
    assert_eq!(wednesday_completion.amount_cents, 50);

    // Create completion for Friday
    let friday_input = ChoreCompletionInput {
        uuid: None,
        chore_id: chore.id.unwrap(),
        user_id,
        completed_date: create_test_date(2024, 10, 25), // A Friday
    };

    let mut friday_completion = ChoreCompletionSvc::create(&chore, &friday_input);
    assert_eq!(friday_completion.amount_cents, 50);

    // Approve all completions to test unpaid totals
    approve(&mut monday_completion, admin_id);
    approve(&mut wednesday_completion, admin_id);
    approve(&mut friday_completion, admin_id);

    // Check unpaid totals - should be 150 total (50 + 50 + 50)
    let completions = vec![monday_completion, wednesday_completion, friday_completion];
    let unpaid_totals = unpaid_totals_of(&[(user_id, "Test User")], &completions);
    let user_total = unpaid_totals
        .iter()
        .find(|(u, _)| u.id == Some(user_id))
        .unwrap();
    assert_eq!(user_total.1, 150, "Total unpaid should be 150 cents");
}

#[test]
fn test_weekly_chore_payout_with_rounding() {
    // Create a weekly chore with weekdays (5 days), paying 150 cents
    // 150 / 5 = 30, which should round to 25 (nearest quarter)
    let chore = create_test_chore(
        2,
        "Weekly Rounding Chore",
        PaymentType::Weekly,
        150,        // 150 cents total
        weekdays(), // 5 days (Mon-Fri)
        1,
    );

    let monday_input = ChoreCompletionInput {
        uuid: None,
        chore_id: chore.id.unwrap(),
        user_id: 7,
        completed_date: create_test_date(2024, 10, 21), // A Monday
    };

    let completion = ChoreCompletionSvc::create(&chore, &monday_input);

    // Expected: 150 / 5 = 30, rounded to nearest quarter = 25
    assert_eq!(
        completion.amount_cents, 25,
        "Amount should be rounded to nearest quarter (25 cents)"
    );
}

#[test]
fn test_daily_chore_payout_should_pay_for_each_completion() {
    let user_id = 7;

    // Create a daily chore paying 200 cents per completion
    let chore = create_test_chore(
        3,
        "Daily Chore",
        PaymentType::Daily,
        200,         // 200 cents per completion
        every_day(), // Can be done every day
        1,
    );

    // Create multiple completions
    let dates = [
        create_test_date(2024, 10, 21), // Monday
        create_test_date(2024, 10, 22), // Tuesday
        create_test_date(2024, 10, 23), // Wednesday
    ];

    let mut completions = Vec::new();
    for date in dates {
        let input = ChoreCompletionInput {
            uuid: None,
            chore_id: chore.id.unwrap(),
            user_id,
            completed_date: date,
        };

        let mut completion = ChoreCompletionSvc::create(&chore, &input);
        assert_eq!(
            completion.amount_cents, 200,
            "Daily chore should pay full amount for each completion"
        );

        // Approve the completion
        approve(&mut completion, 1);
        completions.push(completion);
    }

    // Check unpaid totals - should be 600 total (200 * 3)
    let unpaid_totals = unpaid_totals_of(&[(user_id, "Test User")], &completions);
    let user_total = unpaid_totals
        .iter()
        .find(|(u, _)| u.id == Some(user_id))
        .unwrap();
    assert_eq!(user_total.1, 600, "Total unpaid should be 600 cents");
}

#[test]
fn new_completion_is_neither_approved_nor_paid() {
    let chore = create_test_chore(4, "Test Chore", PaymentType::Daily, 100, monday_only(), 1);
    let input = ChoreCompletionInput {
        uuid: None,
        chore_id: chore.id.unwrap(),
        user_id: 9,
        completed_date: create_test_date(2024, 10, 21),
    };

    let completion = ChoreCompletionSvc::create(&chore, &input);
    assert_eq!(completion.id, None);
    assert_eq!(completion.chore_id, 4);
    assert_eq!(completion.user_id, 9);
    assert_eq!(completion.completed_date, create_test_date(2024, 10, 21));
    assert_eq!(completion.amount_cents, 100);
    assert!(!completion.approved);
    assert_eq!(completion.approved_by_admin_id, None);
    assert_eq!(completion.approved_at, None);
    assert!(!completion.paid_out);
    assert_eq!(completion.paid_out_at, None);
    assert_eq!(completion.created_at, None);
    assert_eq!(completion.updated_at, None);
}

#[test]
fn new_completion_keeps_a_given_identifier() {
    let chore = create_test_chore(5, "Test Chore", PaymentType::Daily, 100, monday_only(), 1);
    let input = ChoreCompletionInput {
        uuid: Some("0192b2c4-7d1e-7c3a-9f00-aabbccddeeff".to_string()),
        chore_id: 5,
        user_id: 9,
        completed_date: create_test_date(2024, 10, 21),
    };
    let completion = ChoreCompletionSvc::create(&chore, &input);
    assert_eq!(completion.uuid, "0192b2c4-7d1e-7c3a-9f00-aabbccddeeff");
}

#[test]
fn new_completion_gets_a_fresh_identifier() {
    let chore = create_test_chore(6, "Test Chore", PaymentType::Daily, 100, monday_only(), 1);
    let input = ChoreCompletionInput {
        uuid: None,
        chore_id: 6,
        user_id: 9,
        completed_date: create_test_date(2024, 10, 21),
    };
    let first = ChoreCompletionSvc::create(&chore, &input);
    let second = ChoreCompletionSvc::create(&chore, &input);
    assert_eq!(first.uuid.len(), 36);
    assert_eq!(second.uuid.len(), 36);
    assert_ne!(first.uuid, second.uuid);
    // The version of a time-ordered identifier.
    assert_eq!(first.uuid.as_bytes()[14], b'7');
}

#[test]
fn new_completion_under_a_given_identifier() {
    let chore = create_test_chore(8, "Weekly", PaymentType::Weekly, 700, every_day(), 1);
    let input = ChoreCompletionInput {
        uuid: Some("ignored".to_string()),
        chore_id: 8,
        user_id: 2,
        completed_date: create_test_date(2025, 1, 6),
    };
    let completion = ChoreCompletionSvc::with_uuid(&chore, &input, "chosen".to_string());
    assert_eq!(completion.uuid, "chosen");
    assert_eq!(completion.amount_cents, 100);
    assert_eq!(completion.chore_id, 8);
    assert_eq!(completion.user_id, 2);
}

#[test]
fn unknown_payment_type_pays_as_daily() {
    let mut chore = create_test_chore(9, "Odd", PaymentType::Weekly, 150, mon_wed_fri(), 1);
    chore.payment_type = "monthly".to_string();
    let input = ChoreCompletionInput {
        uuid: None,
        chore_id: 9,
        user_id: 2,
        completed_date: create_test_date(2025, 1, 6),
    };
    assert_eq!(ChoreCompletionSvc::create(&chore, &input).amount_cents, 150);
}

#[test]
fn unpaid_total_of_nothing_is_zero() {
    assert_eq!(ChoreCompletionSvc::unpaid_total(None), 0);
}

#[test]
fn unpaid_total_is_the_sum() {
    assert_eq!(ChoreCompletionSvc::unpaid_total(Some(0)), 0);
    assert_eq!(ChoreCompletionSvc::unpaid_total(Some(150)), 150);
    assert_eq!(ChoreCompletionSvc::unpaid_total(Some(-75)), -75);
    assert_eq!(
        ChoreCompletionSvc::unpaid_total(Some(i32::MAX as i64)),
        i32::MAX
    );
}

#[test]
fn unpaid_total_is_cut_to_32_bits() {
    assert_eq!(
        ChoreCompletionSvc::unpaid_total(Some(i32::MAX as i64 + 1)),
        i32::MIN
    );
    assert_eq!(ChoreCompletionSvc::unpaid_total(Some(1 << 32)), 0);
    assert_eq!(ChoreCompletionSvc::unpaid_total(Some((1 << 32) + 5)), 5);
}

#[test]
fn test_unpaid_totals_calculation() {
    let admin_id = 1;
    let users = [(1, "User 1"), (2, "User 2")];
    let (user1, user2) = (1, 2);

    let chore = create_test_chore(1, "Test Chore", PaymentType::Daily, 100, every_day(), admin_id);
    let complete = |user_id: i32, day: u32| {
        ChoreCompletionSvc::create(
            &chore,
            &ChoreCompletionInput {
                uuid: None,
                chore_id: chore.id.unwrap(),
                user_id,
                completed_date: create_test_date(2024, 10, day),
            },
        )
    };

    // Create and approve completions for user1
    let mut user1_completion1 = complete(user1, 21);
    approve(&mut user1_completion1, admin_id);
    let mut user1_completion2 = complete(user1, 22);
    approve(&mut user1_completion2, admin_id);

    // Create unapproved completion for user1 (should not count)
    let user1_completion3 = complete(user1, 23); // Not approved

    // Create and approve one completion for user2
    let mut user2_completion = complete(user2, 21);
    approve(&mut user2_completion, admin_id);

    let mut completions = vec![
        user1_completion1,
        user1_completion2,
        user1_completion3,
        user2_completion,
    ];

    // Get unpaid totals before marking any as paid
    let unpaid_totals_before = unpaid_totals_of(&users, &completions);

    // Find totals for users who have completions
    let user1_total_before = unpaid_totals_before
        .iter()
        .find(|(u, _)| u.id == Some(user1))
        .map(|(_, total)| *total);
    let user2_total_before = unpaid_totals_before
        .iter()
        .find(|(u, _)| u.id == Some(user2))
        .map(|(_, total)| *total);

    // User1 should have 200 (two approved completions)
    assert_eq!(
        user1_total_before,
        Some(200),
        "User1 should have 200 unpaid before marking as paid"
    );

    // User2 should have 100 (one approved completion)
    assert_eq!(
        user2_total_before,
        Some(100),
        "User2 should have 100 unpaid"
    );

    // Mark user1's completions as paid
    mark_as_paid(&mut completions, user1);

    let unpaid_totals_after = unpaid_totals_of(&users, &completions);

    // Find totals for each user after marking as paid
    let user1_total_after = unpaid_totals_after
        .iter()
        .find(|(u, _)| u.id == Some(user1))
        .map(|(_, total)| *total);
    let user2_total_after = unpaid_totals_after
        .iter()
        .find(|(u, _)| u.id == Some(user2))
        .map(|(_, total)| *total);

    // A user whose completions are all paid or not approved is not listed.
    if let Some(total) = user1_total_after {
        assert_eq!(total, 0, "User1 should have 0 unpaid (marked as paid)");
    }

    // User2 should still have 100 (one approved, unpaid completion)
    assert_eq!(
        user2_total_after,
        Some(100),
        "User2 should still have 100 unpaid"
    );
}

#[test]
fn unpaid_totals_list_users_without_completions() {
    let completions: Vec<ChoreCompletion> = Vec::new();
    let totals = unpaid_totals_of(&[(3, "C"), (1, "A"), (2, "B")], &completions);
    let listed: Vec<(Option<i32>, i32)> = totals.iter().map(|(u, t)| (u.id, *t)).collect();
    assert_eq!(listed, vec![(Some(3), 0), (Some(1), 0), (Some(2), 0)]);
}

#[test]
fn unpaid_totals_leave_out_users_with_nothing_open() {
    let chore = create_test_chore(1, "Test Chore", PaymentType::Daily, 100, every_day(), 1);
    let complete = |user_id: i32| {
        ChoreCompletionSvc::create(
            &chore,
            &ChoreCompletionInput {
                uuid: None,
                chore_id: 1,
                user_id,
                completed_date: create_test_date(2024, 10, 21),
            },
        )
    };
    // User 1: one completion that is not approved.
    let pending = complete(1);
    // User 2: one completion that is approved and paid.
    let mut paid = complete(2);
    approve(&mut paid, 1);
    paid.paid_out = true;
    // User 3: one of each kind, and two that are owed.
    let mut owed_a = complete(3);
    approve(&mut owed_a, 1);
    let mut owed_b = complete(3);
    approve(&mut owed_b, 1);
    let mut paid_c = complete(3);
    approve(&mut paid_c, 1);
    paid_c.paid_out = true;
    let pending_d = complete(3);
    // User 4 has no completion.
    let completions = vec![pending, owed_a, paid, paid_c, owed_b, pending_d];

    let totals = unpaid_totals_of(&[(1, "A"), (2, "B"), (3, "C"), (4, "D")], &completions);
    let listed: Vec<(Option<i32>, i32)> = totals.iter().map(|(u, t)| (u.id, *t)).collect();
    assert_eq!(listed, vec![(Some(3), 200), (Some(4), 0)]);
}

#[test]
fn unpaid_totals_keep_the_users_as_they_are() {
    let completions: Vec<ChoreCompletion> = Vec::new();
    let totals = unpaid_totals_of(&[(5, "Eve")], &completions);
    assert_eq!(totals.len(), 1);
    assert_eq!(totals[0].0.uuid, "user-5");
    assert_eq!(totals[0].0.name, "Eve");

    let unsaved = User {
        id: None,
        uuid: "new".to_string(),
        name: "New".to_string(),
        image_path: None,
        created_at: None,
        updated_at: None,
        image_id: None,
    };
    let totals = ChoreCompletionSvc::get_unpaid_totals(vec![unsaved], &completions);
    assert_eq!(totals.len(), 1);
    assert_eq!(totals[0].1, 0);
}
