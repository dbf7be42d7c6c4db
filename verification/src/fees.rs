use crate::constants::PLATFORM_FEE_PERCENTAGE;
use crate::errors::ErrorCode;
use crate::events::FeesCalculated;
use crate::principal::Principal;
use crate::states::{Campaign, CampaignStatus, CampaignView, ProviderPerformance};
use vstd::prelude::*;

verus! {

/// The hours a campaign is scheduled to run.
pub open spec fn campaign_hours(c: CampaignView) -> int {
    c.running_days * c.hours_per_day
}

/// What one booking earns for the whole schedule, whatever its views.
pub open spec fn base_fee(c: CampaignView) -> int {
    campaign_hours(c) * c.base_fee_per_hour
}

/// The base fees of all booked providers together.
pub open spec fn total_base_fees(c: CampaignView) -> int {
    base_fee(c) * c.campaign_providers.len()
}

/// What is left of the budget for the shares by performance, once the base
/// fees and the campaign's platform fee are set aside. Negative where the
/// budget does not cover them.
pub open spec fn available_for_distribution(c: CampaignView) -> int {
    c.campaign_budget - total_base_fees(c) - c.platform_fee
}

/// The views of all rows together.
pub open spec fn total_views(rows: Seq<ProviderPerformance>) -> int
    decreases rows.len(),
{
    if rows.len() == 0 {
        0
    } else {
        total_views(rows.drop_last()) + rows.last().total_views
    }
}

/// The computed earnings of all rows together.
pub open spec fn total_earnings(rows: Seq<ProviderPerformance>) -> int
    decreases rows.len(),
{
    if rows.len() == 0 {
        0
    } else {
        total_earnings(rows.drop_last()) + rows.last().calculated_earnings
    }
}

/// The part of `available` that falls to `views` out of `all_views`, rounded
/// down.
pub open spec fn performance_share(available: int, views: int, all_views: int) -> int {
    available * views / all_views
}

/// What the platform withholds from a provider's gross payout, rounded down.
pub open spec fn platform_cut(gross: int) -> int {
    gross * PLATFORM_FEE_PERCENTAGE / 100
}

/// Whether a step on the way to a row's earnings leaves the range of `u64`:
/// the product that the share is divided out of, or the gross payout scaled
/// for the platform's percentage.
pub open spec fn row_out_of_range(base: int, available: int, views: int, all_views: int) -> bool {
    ||| available * views > u64::MAX
    ||| (base + performance_share(available, views, all_views)) * PLATFORM_FEE_PERCENTAGE
        > u64::MAX
}

/// The row with its three amounts computed: the base fee, the share by
/// performance, and their sum less the platform's cut.
pub open spec fn settled(row: ProviderPerformance, base: int, available: int, all_views: int)
    -> ProviderPerformance {
    let share = performance_share(available, row.total_views as int, all_views);
    let gross = base + share;
    ProviderPerformance {
        calculated_earnings: (gross - platform_cut(gross)) as u64,
        base_fee_earned: base as u64,
        performance_fee_earned: share as u64,
        ..row
    }
}

/// Every row of the campaign, settled against the campaign's own figures.
pub open spec fn settled_rows(c: CampaignView) -> Seq<ProviderPerformance> {
    c.campaign_performance.map_values(
        |row: ProviderPerformance|
            settled(
                row,
                base_fee(c),
                available_for_distribution(c),
                total_views(c.campaign_performance),
            ),
    )
}

/// Whether the schedule's figures leave the range of their types: the hours
/// that of `u32`, the base fee of one or of all bookings that of `u64`.
pub open spec fn schedule_out_of_range(c: CampaignView) -> bool {
    ||| campaign_hours(c) > u32::MAX
    ||| base_fee(c) > u64::MAX
    ||| total_base_fees(c) > u64::MAX
}

/// Whether some row of the campaign cannot be settled within `u64`.
pub open spec fn some_row_out_of_range(c: CampaignView) -> bool {
    exists|i: int|
        0 <= i < c.campaign_performance.len() && row_out_of_range(
            base_fee(c),
            available_for_distribution(c),
            (#[trigger] c.campaign_performance[i]).total_views as int,
            total_views(c.campaign_performance),
        )
}

/// Why the fees of the campaign cannot be distributed at the request of
/// `caller`, or `None` where they can. The reasons are tried in this order,
/// and the caller's authority last: a request that nobody could have granted
/// is refused for its own reason.
pub open spec fn distribution_refusal(c: CampaignView, caller: Principal) -> Option<ErrorCode> {
    if c.campaign_status != CampaignStatus::Completed {
        Some(ErrorCode::CampaignNotCompleted)
    } else if schedule_out_of_range(c) {
        Some(ErrorCode::CalculationError)
    } else if available_for_distribution(c) < 0 {
        Some(ErrorCode::InsufficientBudget)
    } else if total_views(c.campaign_performance) > u64::MAX {
        Some(ErrorCode::CalculationError)
    } else if total_views(c.campaign_performance) == 0 {
        Some(ErrorCode::NoViews)
    } else if some_row_out_of_range(c) {
        Some(ErrorCode::CalculationError)
    } else if total_earnings(settled_rows(c)) > u64::MAX {
        Some(ErrorCode::CalculationError)
    } else if c.authority != caller {
        Some(ErrorCode::Unauthorized)
    } else {
        None
    }
}

/// The campaign after its fees were distributed: every row settled, and the
/// sum of the rows' earnings recorded.
pub open spec fn distributed(c: CampaignView) -> CampaignView {
    CampaignView {
        campaign_performance: settled_rows(c),
        total_distributed: total_earnings(settled_rows(c)) as u64,
        ..c
    }
}

/// Whether no row has recorded a view.
pub open spec fn no_row_viewed(rows: Seq<ProviderPerformance>) -> bool {
    forall|i: int| 0 <= i < rows.len() ==> (#[trigger] rows[i]).total_views == 0
}

/// The views of the first `k` rows are at most those of all rows.
pub proof fn lemma_total_views_prefix(rows: Seq<ProviderPerformance>, k: int)
    requires
        0 <= k <= rows.len(),
    ensures
        0 <= total_views(rows.take(k)) <= total_views(rows),
    decreases rows.len(),
{
    if k == rows.len() {
        assert(rows.take(k) =~= rows);
        if rows.len() > 0 {
            lemma_total_views_prefix(rows.drop_last(), k - 1);
            assert(rows.drop_last().take(k - 1) =~= rows.drop_last());
        }
    } else {
        lemma_total_views_prefix(rows.drop_last(), k);
        assert(rows.drop_last().take(k) =~= rows.take(k));
    }
}

/// The earnings of the first `k` rows are at most those of all rows.
pub proof fn lemma_total_earnings_prefix(rows: Seq<ProviderPerformance>, k: int)
    requires
        0 <= k <= rows.len(),
    ensures
        0 <= total_earnings(rows.take(k)) <= total_earnings(rows),
    decreases rows.len(),
{
    if k == rows.len() {
        assert(rows.take(k) =~= rows);
        if rows.len() > 0 {
            lemma_total_earnings_prefix(rows.drop_last(), k - 1);
            assert(rows.drop_last().take(k - 1) =~= rows.drop_last());
        }
    } else {
        lemma_total_earnings_prefix(rows.drop_last(), k);
        assert(rows.drop_last().take(k) =~= rows.take(k));
    }
}

/// Rows without views have no views together.
pub proof fn lemma_no_views_in_total(rows: Seq<ProviderPerformance>)
    requires
        no_row_viewed(rows),
    ensures
        total_views(rows) == 0,
    decreases rows.len(),
{
    if rows.len() > 0 {
        lemma_no_views_in_total(rows.drop_last());
    }
}

/// The views of all rows together, or `None` where they do not fit `u64`.
pub fn sum_views(rows: &Vec<ProviderPerformance>) -> (r: Option<u64>)
    ensures
        match r {
            Some(sum) => sum == total_views(rows@),
            None => total_views(rows@) > u64::MAX,
        },
{
    let mut sum: u64 = 0;
    let mut i: usize = 0;
    while i < rows.len()
        invariant
            i <= rows.len(),
            sum == total_views(rows@.take(i as int)),
        decreases rows.len() - i,
    {
        proof {
            assert(rows@.take(i + 1).drop_last() =~= rows@.take(i as int));
            lemma_total_views_prefix(rows@, i + 1);
        }
        match sum.checked_add(rows[i].total_views) {
            Some(next) => {
                sum = next;
            },
            None => {
                return None;
            },
        }
        i += 1;
    }
    assert(rows@.take(i as int) =~= rows@);
    Some(sum)
}

/// The computed earnings of all rows together, or `None` where they do not
/// fit `u64`.
pub fn sum_earnings(rows: &Vec<ProviderPerformance>) -> (r: Option<u64>)
    ensures
        match r {
            Some(sum) => sum == total_earnings(rows@),
            None => total_earnings(rows@) > u64::MAX,
        },
{
    let mut sum: u64 = 0;
    let mut i: usize = 0;
    while i < rows.len()
        invariant
            i <= rows.len(),
            sum == total_earnings(rows@.take(i as int)),
        decreases rows.len() - i,
    {
        proof {
            assert(rows@.take(i + 1).drop_last() =~= rows@.take(i as int));
            lemma_total_earnings_prefix(rows@, i + 1);
        }
        match sum.checked_add(rows[i].calculated_earnings) {
            Some(next) => {
                sum = next;
            },
            None => {
                return None;
            },
        }
        i += 1;
    }
    assert(rows@.take(i as int) =~= rows@);
    Some(sum)
}

/// Settles one row: the base fee in full, the share of `available` that its
/// views earn out of `all_views`, and the platform's cut from their sum.
/// Refused with `CalculationError` where there are no views to divide by or a
/// step leaves the range of `u64`.
pub fn settle_row(row: &ProviderPerformance, base: u64, available: u64, all_views: u64) -> (r:
    Result<ProviderPerformance, ErrorCode>)
    ensures
        match r {
            Ok(done) => {
                &&& all_views > 0
                &&& !row_out_of_range(
                    base as int,
                    available as int,
                    row.total_views as int,
                    all_views as int,
                )
                &&& done == settled(*row, base as int, available as int, all_views as int)
                &&& done.base_fee_earned == base
                &&& done.performance_fee_earned == performance_share(
                    available as int,
                    row.total_views as int,
                    all_views as int,
                )
                &&& done.calculated_earnings == base + done.performance_fee_earned - platform_cut(
                    base + done.performance_fee_earned,
                )
            },
            Err(e) => {
                &&& e == ErrorCode::CalculationError
                &&& all_views == 0 || row_out_of_range(
                    base as int,
                    available as int,
                    row.total_views as int,
                    all_views as int,
                )
            },
        },
{
    if all_views == 0 {
        return Err(ErrorCode::CalculationError);
    }
    let product: u64 = match available.checked_mul(row.total_views) {
        Some(p) => p,
        None => {
            return Err(ErrorCode::CalculationError);
        },
    };
    let share: u64 = product / all_views;
    let gross: u64 = match base.checked_add(share) {
        Some(g) => g,
        None => {
            assert((base + share) * PLATFORM_FEE_PERCENTAGE > u64::MAX) by (nonlinear_arith)
                requires
                    base + share > u64::MAX,
                    PLATFORM_FEE_PERCENTAGE == 2,
            ;
            return Err(ErrorCode::CalculationError);
        },
    };
    let scaled: u64 = match gross.checked_mul(PLATFORM_FEE_PERCENTAGE) {
        Some(s) => s,
        None => {
            return Err(ErrorCode::CalculationError);
        },
    };
    let cut: u64 = scaled / 100;
    let earnings: u64 = gross - cut;
    Ok(
        ProviderPerformance {
            provider: row.provider,
            device_id: row.device_id,
            total_views: row.total_views,
            total_taps: row.total_taps,
            calculated_earnings: earnings,
            base_fee_earned: base,
            performance_fee_earned: share,
        },
    )
}

/// Works out the distribution of a campaign's fees without touching the
/// campaign: the settled rows and their total, or the reason why the request
/// of `caller` is refused.
pub fn plan_distribution(campaign: &Campaign, caller: Principal) -> (r: Result<
    (Vec<ProviderPerformance>, u64),
    ErrorCode,
>)
    ensures
        match r {
            Ok((rows, total)) => {
                &&& distribution_refusal(campaign@, caller) is None
                &&& rows@ == settled_rows(campaign@)
                &&& total == total_earnings(rows@)
            },
            Err(e) => distribution_refusal(campaign@, caller) == Some(e),
        },
{
    if campaign.campaign_status != CampaignStatus::Completed {
        return Err(ErrorCode::CampaignNotCompleted);
    }
    let hours: u32 = match campaign.running_days.checked_mul(campaign.hours_per_day) {
        Some(h) => h,
        None => {
            return Err(ErrorCode::CalculationError);
        },
    };
    let base: u64 = match (hours as u64).checked_mul(campaign.base_fee_per_hour) {
        Some(b) => b,
        None => {
            return Err(ErrorCode::CalculationError);
        },
    };
    let bookings: u64 = campaign.campaign_providers.len() as u64;
    let all_base: u64 = match base.checked_mul(bookings) {
        Some(b) => b,
        None => {
            return Err(ErrorCode::CalculationError);
        },
    };
    let after_base: u64 = match campaign.campaign_budget.checked_sub(all_base) {
        Some(left) => left,
        None => {
            return Err(ErrorCode::InsufficientBudget);
        },
    };
    let available: u64 = match after_base.checked_sub(campaign.platform_fee) {
        Some(left) => left,
        None => {
            return Err(ErrorCode::InsufficientBudget);
        },
    };
    let all_views: u64 = match sum_views(&campaign.campaign_performance) {
        Some(sum) => sum,
        None => {
            return Err(ErrorCode::CalculationError);
        },
    };
    if all_views == 0 {
        return Err(ErrorCode::NoViews);
    }
    let ghost c = campaign@;
    let mut rows: Vec<ProviderPerformance> = Vec::new();
    let mut i: usize = 0;
    while i < campaign.campaign_performance.len()
        invariant
            i <= campaign.campaign_performance.len(),
            c == campaign@,
            c.campaign_status == CampaignStatus::Completed,
            !schedule_out_of_range(c),
            base == base_fee(c),
            available == available_for_distribution(c),
            all_views == total_views(c.campaign_performance),
            all_views > 0,
            rows@.len() == i,
            forall|j: int| 0 <= j < i ==> rows@[j] == settled_rows(c)[j],
            forall|j: int|
                0 <= j < i ==> !row_out_of_range(
                    base_fee(c),
                    available_for_distribution(c),
                    (#[trigger] c.campaign_performance[j]).total_views as int,
                    total_views(c.campaign_performance),
                ),
        decreases campaign.campaign_performance.len() - i,
    {
        match settle_row(&campaign.campaign_performance[i], base, available, all_views) {
            Ok(done) => {
                rows.push(done);
            },
            Err(e) => {
                assert(some_row_out_of_range(c)) by {
                    assert(row_out_of_range(
                        base_fee(c),
                        available_for_distribution(c),
                        c.campaign_performance[i as int].total_views as int,
                        total_views(c.campaign_performance),
                    ));
                }
                return Err(ErrorCode::CalculationError);
            },
        }
        i += 1;
    }
    assert(rows@ =~= settled_rows(c));
    let total: u64 = match sum_earnings(&rows) {
        Some(sum) => sum,
        None => {
            return Err(ErrorCode::CalculationError);
        },
    };
    if campaign.authority != caller {
        return Err(ErrorCode::Unauthorized);
    }
    Ok((rows, total))
}

/// Computes what every booked provider of a completed campaign earns and
/// records it: in each row the base fee, the share by performance and the
/// earnings after the platform's cut, and in the campaign their total.
///
/// The request is refused, and the campaign left as it was, for the reason
/// that `distribution_refusal` gives. It can be made again: nothing marks a
/// campaign as distributed, and a second run computes the same figures.
pub fn calculate_and_distribute_fees(campaign: &mut Campaign, authority: Principal) -> (r: Result<
    FeesCalculated,
    ErrorCode,
>)
    ensures
        match r {
            Ok(event) => {
                &&& distribution_refusal(old(campaign)@, authority) is None
                &&& final(campaign)@ == distributed(old(campaign)@)
                &&& event == (FeesCalculated {
                    campaign_id: old(campaign).campaign_id,
                    total_distributed: final(campaign).total_distributed,
                })
            },
            Err(e) => {
                &&& distribution_refusal(old(campaign)@, authority) == Some(e)
                &&& *final(campaign) == *old(campaign)
            },
        },
        old(campaign).campaign_status != CampaignStatus::Completed ==> r == Err::<
            FeesCalculated,
            ErrorCode,
        >(ErrorCode::CampaignNotCompleted),
        r is Ok ==> final(campaign).total_distributed == total_earnings(
            final(campaign).campaign_performance@,
        ),
        no_row_viewed(old(campaign).campaign_performance@) ==> r is Err,
        old(campaign)@.wf() ==> final(campaign)@.wf(),
        no_row_viewed(old(campaign).campaign_performance@) && old(campaign).campaign_status
            == CampaignStatus::Completed && !schedule_out_of_range(old(campaign)@)
            && available_for_distribution(old(campaign)@) >= 0 ==> r == Err::<
            FeesCalculated,
            ErrorCode,
        >(ErrorCode::NoViews),
{
    proof {
        if no_row_viewed(campaign.campaign_performance@) {
            lemma_no_views_in_total(campaign.campaign_performance@);
        }
    }
    match plan_distribution(campaign, authority) {
        Ok((rows, total)) => {
            campaign.campaign_performance = rows;
            campaign.total_distributed = total;
            Ok(
                FeesCalculated {
                    campaign_id: campaign.campaign_id,
                    total_distributed: campaign.total_distributed,
                },
            )
        },
        Err(e) => Err(e),
    }
}

} // verus!
