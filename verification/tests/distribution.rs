use soulboard_core::errors::ErrorCode;
use soulboard_core::events::FeesCalculated;
use soulboard_core::fees::{
    calculate_and_distribute_fees, plan_distribution, settle_row, sum_earnings, sum_views,
};
use soulboard_core::principal::Principal;
use soulboard_core::states::{Campaign, CampaignStatus, ProviderPerformance};

fn key(n: u8) -> Principal {
    Principal::new([n; 32])
}

fn row(provider: u8, device_id: u32, views: u64) -> ProviderPerformance {
    ProviderPerformance {
        provider: key(provider),
        device_id,
        total_views: views,
        total_taps: 0,
        calculated_earnings: 0,
        base_fee_earned: 0,
        performance_fee_earned: 0,
    }
}

fn campaign(budget: u64, fee: u64, status: CampaignStatus, views: &[u64]) -> Campaign {
    let mut providers = Vec::new();
    let mut rows = Vec::new();
    for (i, v) in views.iter().enumerate() {
        providers.push(key(10 + i as u8));
        rows.push(row(10 + i as u8, 100 + i as u32, *v));
    }
    Campaign {
        authority: key(1),
        campaign_id: 7,
        campaign_name: String::from("spring"),
        campaign_description: String::from("two boards"),
        campaign_budget: budget,
        campaign_status: status,
        campaign_providers: providers.clone(),
        campaign_locations: providers,
        running_days: 2,
        hours_per_day: 1,
        base_fee_per_hour: 100,
        platform_fee: fee,
        total_distributed: 0,
        campaign_performance: rows,
    }
}

#[test]
fn distribution_of_the_worked_example() {
    let mut c = campaign(10_000, 200, CampaignStatus::Completed, &[300, 700]);
    let event = calculate_and_distribute_fees(&mut c, key(1)).unwrap();
    let a = c.campaign_performance[0];
    let b = c.campaign_performance[1];
    assert_eq!(a.base_fee_earned, 200);
    assert_eq!(a.performance_fee_earned, 2820);
    assert_eq!(a.calculated_earnings, 2960);
    assert_eq!(b.base_fee_earned, 200);
    assert_eq!(b.performance_fee_earned, 6580);
    assert_eq!(b.calculated_earnings, 6645);
    assert_eq!(c.total_distributed, 9605);
    assert_eq!(event, FeesCalculated { campaign_id: 7, total_distributed: 9605 });
    assert_eq!(a.total_views, 300);
    assert_eq!(b.total_views, 700);
    assert_eq!(a.provider, key(10));
    assert_eq!(b.device_id, 101);
}

#[test]
fn distribution_total_is_sum_of_rows() {
    let mut c = campaign(1_000_003, 20_000, CampaignStatus::Completed, &[1, 2, 3, 5, 7]);
    calculate_and_distribute_fees(&mut c, key(1)).unwrap();
    let sum: u64 = c.campaign_performance.iter().map(|r| r.calculated_earnings).sum();
    assert_eq!(sum, c.total_distributed);
    assert_eq!(sum_earnings(&c.campaign_performance), Some(c.total_distributed));
}

#[test]
fn distribution_refused_on_active_campaign() {
    let mut c = campaign(10_000, 200, CampaignStatus::Active, &[300, 700]);
    let before = c.clone();
    assert_eq!(calculate_and_distribute_fees(&mut c, key(1)), Err(ErrorCode::CampaignNotCompleted));
    assert_eq!(c, before);
}

#[test]
fn distribution_refused_on_active_campaign_for_a_stranger_too() {
    let mut c = campaign(10_000, 200, CampaignStatus::Active, &[300, 700]);
    assert_eq!(calculate_and_distribute_fees(&mut c, key(9)), Err(ErrorCode::CampaignNotCompleted));
}

#[test]
fn distribution_refused_on_paused_campaign() {
    let mut c = campaign(10_000, 200, CampaignStatus::Paused, &[300, 700]);
    assert_eq!(calculate_and_distribute_fees(&mut c, key(1)), Err(ErrorCode::CampaignNotCompleted));
}

#[test]
fn distribution_refused_without_views() {
    let mut c = campaign(10_000, 200, CampaignStatus::Completed, &[0, 0]);
    let before = c.clone();
    assert_eq!(calculate_and_distribute_fees(&mut c, key(1)), Err(ErrorCode::NoViews));
    assert_eq!(c, before);
}

#[test]
fn distribution_refused_without_rows() {
    let mut c = campaign(10_000, 200, CampaignStatus::Completed, &[]);
    assert_eq!(calculate_and_distribute_fees(&mut c, key(1)), Err(ErrorCode::NoViews));
}

#[test]
fn distribution_refused_when_budget_misses_base_fees() {
    let mut c = campaign(399, 0, CampaignStatus::Completed, &[300, 700]);
    assert_eq!(calculate_and_distribute_fees(&mut c, key(1)), Err(ErrorCode::InsufficientBudget));
}

#[test]
fn distribution_refused_when_budget_misses_platform_fee() {
    let mut c = campaign(500, 101, CampaignStatus::Completed, &[300, 700]);
    let before = c.clone();
    assert_eq!(calculate_and_distribute_fees(&mut c, key(1)), Err(ErrorCode::InsufficientBudget));
    assert_eq!(c, before);
}

#[test]
fn distribution_with_nothing_left_pays_base_fees_only() {
    let mut c = campaign(500, 100, CampaignStatus::Completed, &[300, 700]);
    calculate_and_distribute_fees(&mut c, key(1)).unwrap();
    assert_eq!(c.campaign_performance[0].performance_fee_earned, 0);
    assert_eq!(c.campaign_performance[0].calculated_earnings, 196);
    assert_eq!(c.campaign_performance[1].calculated_earnings, 196);
    assert_eq!(c.total_distributed, 392);
}

#[test]
fn distribution_refused_when_hours_overflow() {
    let mut c = campaign(10_000, 200, CampaignStatus::Completed, &[300, 700]);
    c.running_days = 65_536;
    c.hours_per_day = 65_536;
    assert_eq!(calculate_and_distribute_fees(&mut c, key(1)), Err(ErrorCode::CalculationError));
}

#[test]
fn distribution_refused_when_base_fee_overflows() {
    let mut c = campaign(10_000, 200, CampaignStatus::Completed, &[300, 700]);
    c.base_fee_per_hour = u64::MAX;
    assert_eq!(calculate_and_distribute_fees(&mut c, key(1)), Err(ErrorCode::CalculationError));
}

#[test]
fn distribution_refused_when_all_base_fees_overflow() {
    let mut c = campaign(u64::MAX, 0, CampaignStatus::Completed, &[300, 700]);
    c.base_fee_per_hour = u64::MAX / 2 + 1;
    c.running_days = 1;
    assert_eq!(calculate_and_distribute_fees(&mut c, key(1)), Err(ErrorCode::CalculationError));
}

#[test]
fn distribution_refused_when_views_overflow() {
    let mut c = campaign(10_000, 200, CampaignStatus::Completed, &[u64::MAX, 1]);
    assert_eq!(calculate_and_distribute_fees(&mut c, key(1)), Err(ErrorCode::CalculationError));
}

#[test]
fn distribution_refused_when_share_product_overflows() {
    let mut c = campaign(u64::MAX / 2, 0, CampaignStatus::Completed, &[3, 1]);
    c.base_fee_per_hour = 0;
    let before = c.clone();
    assert_eq!(calculate_and_distribute_fees(&mut c, key(1)), Err(ErrorCode::CalculationError));
    assert_eq!(c, before);
}

#[test]
fn distribution_refused_to_a_stranger() {
    let mut c = campaign(10_000, 200, CampaignStatus::Completed, &[300, 700]);
    let before = c.clone();
    assert_eq!(calculate_and_distribute_fees(&mut c, key(2)), Err(ErrorCode::Unauthorized));
    assert_eq!(c, before);
}

#[test]
fn distribution_run_twice_gives_the_same() {
    let mut c = campaign(10_000, 200, CampaignStatus::Completed, &[300, 700]);
    let first = calculate_and_distribute_fees(&mut c, key(1)).unwrap();
    let after_first = c.clone();
    let second = calculate_and_distribute_fees(&mut c, key(1)).unwrap();
    assert_eq!(first, second);
    assert_eq!(c, after_first);
}

#[test]
fn distribution_counts_providers_not_rows_for_base_fees() {
    let mut c = campaign(10_000, 200, CampaignStatus::Completed, &[300, 700]);
    c.campaign_providers.pop();
    calculate_and_distribute_fees(&mut c, key(1)).unwrap();
    // one base fee of 200 set aside: 10_000 - 200 - 200 = 9_600 to share
    assert_eq!(c.campaign_performance[0].performance_fee_earned, 2880);
    assert_eq!(c.campaign_performance[1].performance_fee_earned, 6720);
}

#[test]
fn plan_leaves_campaign_alone_and_matches_distribution() {
    let c = campaign(10_000, 200, CampaignStatus::Completed, &[300, 700]);
    let (rows, total) = plan_distribution(&c, key(1)).unwrap();
    assert_eq!(total, 9605);
    assert_eq!(rows.len(), 2);
    assert_eq!(rows[0].calculated_earnings, 2960);
    assert_eq!(rows[1].calculated_earnings, 6645);
    assert_eq!(c.campaign_performance[0].calculated_earnings, 0);
}

#[test]
fn settle_row_rounds_share_and_cut_down() {
    let done = settle_row(&row(3, 4, 1), 10, 100, 3).unwrap();
    assert_eq!(done.base_fee_earned, 10);
    assert_eq!(done.performance_fee_earned, 33);
    // gross 43, cut floor(86 / 100) = 0
    assert_eq!(done.calculated_earnings, 43);
    let done = settle_row(&row(3, 4, 2), 10, 100, 3).unwrap();
    assert_eq!(done.performance_fee_earned, 66);
    // gross 76, cut floor(152 / 100) = 1
    assert_eq!(done.calculated_earnings, 75);
    assert_eq!(done.provider, key(3));
    assert_eq!(done.device_id, 4);
    assert_eq!(done.total_views, 2);
}

#[test]
fn settle_row_refuses_zero_views_in_all() {
    assert_eq!(settle_row(&row(3, 4, 0), 10, 100, 0), Err(ErrorCode::CalculationError));
}

#[test]
fn settle_row_refuses_overflowing_gross() {
    assert_eq!(settle_row(&row(3, 4, 1), u64::MAX, 1, 1), Err(ErrorCode::CalculationError));
    assert_eq!(settle_row(&row(3, 4, 1), u64::MAX / 2 + 1, 0, 1), Err(ErrorCode::CalculationError));
    assert!(settle_row(&row(3, 4, 1), u64::MAX / 2, 0, 1).is_ok());
}

#[test]
fn sums_of_views_and_earnings() {
    let mut rows = vec![row(1, 1, 5), row(2, 2, 7)];
    rows[0].calculated_earnings = 11;
    rows[1].calculated_earnings = 13;
    assert_eq!(sum_views(&rows), Some(12));
    assert_eq!(sum_earnings(&rows), Some(24));
    assert_eq!(sum_views(&Vec::new()), Some(0));
    rows[0].total_views = u64::MAX;
    assert_eq!(sum_views(&rows), None);
    rows[1].calculated_earnings = u64::MAX;
    assert_eq!(sum_earnings(&rows), None);
}
