use soulboard_core::booking::{add_location, get_device};
use soulboard_core::campaign::{
    add_budget, complete_campaign, create_campaign, find_row_of_device,
    update_campaign_performance,
};
use soulboard_core::errors::ErrorCode;
use soulboard_core::events::{BudgetAdded, CampaignCompleted, CampaignCreated, PerformanceUpdated};
use soulboard_core::fees::calculate_and_distribute_fees;
use soulboard_core::oracle::DeviceFeed;
use soulboard_core::principal::Principal;
use soulboard_core::registry::{initialize_registry, register_provider};
use soulboard_core::settlement::withdraw_earnings;
use soulboard_core::states::{Campaign, CampaignStatus, ProviderPerformance};

fn key(n: u8) -> Principal {
    Principal::new([n; 32])
}

fn open_campaign() -> Campaign {
    create_campaign(key(1), 7, String::from("spring"), String::from("two boards"), 2, 1, 100)
        .unwrap()
        .0
}

fn feed(channel_id: u32, views: u64, taps: u64) -> DeviceFeed {
    DeviceFeed {
        channel_id,
        last_entry_id: 3,
        total_views: views,
        total_taps: taps,
        last_update_ts: 1_700_000_000,
        authority: key(50),
        bump: 254,
    }
}

fn row(provider: u8, device_id: u32) -> ProviderPerformance {
    ProviderPerformance {
        provider: key(provider),
        device_id,
        total_views: 1,
        total_taps: 2,
        calculated_earnings: 3,
        base_fee_earned: 4,
        performance_fee_earned: 5,
    }
}

#[test]
fn new_campaign_is_active_and_empty() {
    let (c, event) = create_campaign(
        key(1),
        7,
        String::from("spring"),
        String::from("two boards"),
        30,
        12,
        100,
    )
    .unwrap();
    assert_eq!(event, CampaignCreated { authority: key(1) });
    assert_eq!(c.authority, key(1));
    assert_eq!(c.campaign_id, 7);
    assert_eq!(c.campaign_name, "spring");
    assert_eq!(c.campaign_description, "two boards");
    assert_eq!(c.campaign_budget, 0);
    assert_eq!(c.campaign_status, CampaignStatus::Active);
    assert!(c.campaign_providers.is_empty());
    assert!(c.campaign_locations.is_empty());
    assert!(c.campaign_performance.is_empty());
    assert_eq!(c.running_days, 30);
    assert_eq!(c.hours_per_day, 12);
    assert_eq!(c.base_fee_per_hour, 100);
    assert_eq!(c.platform_fee, 0);
    assert_eq!(c.total_distributed, 0);
}

#[test]
fn campaign_texts_have_their_limits() {
    assert!(create_campaign(key(1), 7, "x".repeat(20), "y".repeat(100), 1, 1, 1).is_ok());
    let r = create_campaign(key(1), 7, "x".repeat(21), "y".repeat(100), 1, 1, 1);
    assert_eq!(r.err(), Some(ErrorCode::CapacityExceeded));
    let r = create_campaign(key(1), 7, "x".repeat(20), "y".repeat(101), 1, 1, 1);
    assert_eq!(r.err(), Some(ErrorCode::CapacityExceeded));
}

#[test]
fn funding_takes_two_percent_of_the_whole_budget() {
    let mut c = open_campaign();
    assert_eq!(add_budget(&mut c, key(1), 10_000), Ok(BudgetAdded { authority: key(1) }));
    assert_eq!(c.campaign_budget, 10_000);
    assert_eq!(c.platform_fee, 200);
    add_budget(&mut c, key(1), 149).unwrap();
    assert_eq!(c.campaign_budget, 10_149);
    assert_eq!(c.platform_fee, 202);
    add_budget(&mut c, key(1), 1).unwrap();
    assert_eq!(c.platform_fee, 203);
}

#[test]
fn funding_in_parts_equals_funding_at_once() {
    let mut parts = open_campaign();
    add_budget(&mut parts, key(1), 49).unwrap();
    add_budget(&mut parts, key(1), 49).unwrap();
    add_budget(&mut parts, key(1), 52).unwrap();
    let mut once = open_campaign();
    add_budget(&mut once, key(1), 150).unwrap();
    assert_eq!(parts, once);
    assert_eq!(once.platform_fee, 3);
}

#[test]
fn funding_with_nothing_changes_nothing() {
    let mut c = open_campaign();
    add_budget(&mut c, key(1), 77).unwrap();
    let before = c.clone();
    add_budget(&mut c, key(1), 0).unwrap();
    assert_eq!(c, before);
}

#[test]
fn funding_refused_when_the_fee_would_overflow() {
    let mut c = open_campaign();
    add_budget(&mut c, key(1), u64::MAX / 2).unwrap();
    assert_eq!(c.platform_fee, (u64::MAX / 2) / 50);
    let before = c.clone();
    assert_eq!(add_budget(&mut c, key(1), 1), Err(ErrorCode::CalculationError));
    assert_eq!(c, before);
    assert_eq!(add_budget(&mut c, key(1), u64::MAX), Err(ErrorCode::CalculationError));
    assert_eq!(c, before);
}

#[test]
fn funding_refused_to_a_stranger() {
    let mut c = open_campaign();
    let before = c.clone();
    assert_eq!(add_budget(&mut c, key(2), 10), Err(ErrorCode::Unauthorized));
    assert_eq!(c, before);
}

#[test]
fn completing_is_one_way() {
    let mut c = open_campaign();
    assert_eq!(
        complete_campaign(&mut c, key(1)),
        Ok(CampaignCompleted { campaign_id: 7, authority: key(1) })
    );
    assert_eq!(c.campaign_status, CampaignStatus::Completed);
    let before = c.clone();
    assert_eq!(complete_campaign(&mut c, key(1)), Err(ErrorCode::CampaignNotActive));
    assert_eq!(c, before);
}

#[test]
fn completing_a_paused_campaign_is_refused() {
    let mut c = open_campaign();
    c.campaign_status = CampaignStatus::Paused;
    assert_eq!(complete_campaign(&mut c, key(1)), Err(ErrorCode::CampaignNotActive));
    assert_eq!(c.campaign_status, CampaignStatus::Paused);
}

#[test]
fn completing_refused_to_a_stranger() {
    let mut c = open_campaign();
    assert_eq!(complete_campaign(&mut c, key(2)), Err(ErrorCode::Unauthorized));
    assert_eq!(c.campaign_status, CampaignStatus::Active);
}

#[test]
fn performance_takes_over_the_totals_of_the_feed() {
    let mut c = open_campaign();
    c.campaign_performance = vec![row(2, 41), row(3, 42), row(4, 42)];
    let event = update_campaign_performance(&mut c, key(1), &feed(42, 900, 90), 42).unwrap();
    assert_eq!(
        event,
        PerformanceUpdated { campaign_id: 7, device_id: 42, total_views: 900, total_taps: 90 }
    );
    assert_eq!(c.campaign_performance[0], row(2, 41));
    assert_eq!(c.campaign_performance[2], row(4, 42));
    let updated = c.campaign_performance[1];
    assert_eq!(updated.total_views, 900);
    assert_eq!(updated.total_taps, 90);
    assert_eq!(updated.provider, key(3));
    assert_eq!(updated.calculated_earnings, 3);
    assert_eq!(updated.base_fee_earned, 4);
    assert_eq!(updated.performance_fee_earned, 5);
}

#[test]
fn performance_is_replaced_and_no_difference_taken() {
    let mut c = open_campaign();
    c.campaign_performance = vec![row(2, 41)];
    update_campaign_performance(&mut c, key(1), &feed(41, 900, 90), 41).unwrap();
    update_campaign_performance(&mut c, key(1), &feed(41, 800, 80), 41).unwrap();
    assert_eq!(c.campaign_performance[0].total_views, 800);
    assert_eq!(c.campaign_performance[0].total_taps, 80);
}

#[test]
fn performance_of_an_unbooked_device_is_refused() {
    let mut c = open_campaign();
    c.campaign_performance = vec![row(2, 41)];
    let before = c.clone();
    assert_eq!(
        update_campaign_performance(&mut c, key(1), &feed(42, 900, 90), 42),
        Err(ErrorCode::DeviceNotFound)
    );
    assert_eq!(c, before);
}

#[test]
fn performance_from_the_feed_of_another_device_is_refused() {
    let mut c = open_campaign();
    c.campaign_performance = vec![row(2, 41)];
    let before = c.clone();
    assert_eq!(
        update_campaign_performance(&mut c, key(1), &feed(42, 900, 90), 41),
        Err(ErrorCode::DeviceNotFound)
    );
    assert_eq!(c, before);
}

#[test]
fn performance_refused_to_a_stranger() {
    let mut c = open_campaign();
    c.campaign_performance = vec![row(2, 41)];
    let before = c.clone();
    assert_eq!(
        update_campaign_performance(&mut c, key(2), &feed(41, 900, 90), 41),
        Err(ErrorCode::Unauthorized)
    );
    assert_eq!(c, before);
}

#[test]
fn find_row_of_device_gives_the_first_place() {
    let rows = vec![row(2, 41), row(3, 42), row(4, 42)];
    assert_eq!(find_row_of_device(&rows, 42), Some(1));
    assert_eq!(find_row_of_device(&rows, 41), Some(0));
    assert_eq!(find_row_of_device(&rows, 43), None);
}

#[test]
fn a_campaign_from_opening_to_payout() {
    let (mut registry, _) = initialize_registry(key(200));
    let (mut pa, mut ma, _) = register_provider(
        &mut registry,
        key(2),
        key(102),
        String::from("a"),
        String::from("north"),
        String::from("a@x"),
    )
    .unwrap();
    let (mut pb, mut mb, _) = register_provider(
        &mut registry,
        key(3),
        key(103),
        String::from("b"),
        String::from("south"),
        String::from("b@x"),
    )
    .unwrap();
    get_device(&mut pa, &mut ma, key(2), 41).unwrap();
    get_device(&mut pb, &mut mb, key(3), 42).unwrap();
    let mut c = open_campaign();
    add_budget(&mut c, key(1), 10_000).unwrap();
    add_location(&mut c, &mut pa, &mut ma, key(1), key(2), 41).unwrap();
    add_location(&mut c, &mut pb, &mut mb, key(1), key(3), 42).unwrap();
    update_campaign_performance(&mut c, key(1), &feed(41, 300, 30), 41).unwrap();
    update_campaign_performance(&mut c, key(1), &feed(42, 700, 70), 42).unwrap();
    assert_eq!(calculate_and_distribute_fees(&mut c, key(1)), Err(ErrorCode::CampaignNotCompleted));
    complete_campaign(&mut c, key(1)).unwrap();
    let event = calculate_and_distribute_fees(&mut c, key(1)).unwrap();
    assert_eq!(event.total_distributed, 9605);
    assert_eq!(withdraw_earnings(&c, &mut pa, key(2)).unwrap().amount, 2960);
    assert_eq!(withdraw_earnings(&c, &mut pb, key(3)).unwrap().amount, 6645);
    assert_eq!(pa.total_earnings, 2960);
    assert_eq!(pb.total_earnings, 6645);
}
