use crate::constants::{
    MAX_CAMPAIGN_DESCRIPTION_LENGTH, MAX_CAMPAIGN_NAME_LENGTH, PLATFORM_FEE_PERCENTAGE,
};
use crate::errors::ErrorCode;
use crate::events::{BudgetAdded, CampaignCompleted, CampaignCreated, PerformanceUpdated};
use crate::oracle::DeviceFeed;
use crate::principal::Principal;
use crate::registry::fits;
use crate::search::{first_match, is_first_match, lemma_first_match_is, lemma_first_match_none};
use crate::states::{Campaign, CampaignStatus, CampaignView, ProviderPerformance};
use vstd::prelude::*;

verus! {

/// A campaign as it is when it is opened: active, without budget, bookings or
/// earnings.
pub open spec fn new_campaign(
    authority: Principal,
    campaign_id: u32,
    name: Seq<char>,
    description: Seq<char>,
    running_days: u32,
    hours_per_day: u32,
    base_fee_per_hour: u64,
) -> CampaignView {
    CampaignView {
        authority,
        campaign_id,
        campaign_name: name,
        campaign_description: description,
        campaign_budget: 0,
        campaign_status: CampaignStatus::Active,
        campaign_providers: Seq::empty(),
        campaign_locations: Seq::empty(),
        running_days,
        hours_per_day,
        base_fee_per_hour,
        platform_fee: 0,
        total_distributed: 0,
        campaign_performance: Seq::empty(),
    }
}

/// Whether the name or the description of a campaign is longer than it may
/// be.
pub open spec fn campaign_texts_too_long(name: Seq<char>, description: Seq<char>) -> bool {
    ||| name.len() > MAX_CAMPAIGN_NAME_LENGTH
    ||| description.len() > MAX_CAMPAIGN_DESCRIPTION_LENGTH
}

/// Opens a campaign of the advertiser `authority`. That no other campaign of
/// the advertiser bears the same id is for the store to see to.
///
/// Refused with `CapacityExceeded` where, and only where, the name or the
/// description is too long.
pub fn create_campaign(
    authority: Principal,
    campaign_id: u32,
    campaign_name: String,
    campaign_description: String,
    running_days: u32,
    hours_per_day: u32,
    base_fee_per_hour: u64,
) -> (r: Result<(Campaign, CampaignCreated), ErrorCode>)
    ensures
        match r {
            Ok((campaign, event)) => {
                &&& !campaign_texts_too_long(campaign_name@, campaign_description@)
                &&& campaign@ == new_campaign(
                    authority,
                    campaign_id,
                    campaign_name@,
                    campaign_description@,
                    running_days,
                    hours_per_day,
                    base_fee_per_hour,
                )
                &&& campaign@.wf()
                &&& event == (CampaignCreated { authority })
            },
            Err(e) => {
                &&& e == ErrorCode::CapacityExceeded
                &&& campaign_texts_too_long(campaign_name@, campaign_description@)
            },
        },
{
    if !fits(&campaign_name, MAX_CAMPAIGN_NAME_LENGTH) || !fits(
        &campaign_description,
        MAX_CAMPAIGN_DESCRIPTION_LENGTH,
    ) {
        return Err(ErrorCode::CapacityExceeded);
    }
    let campaign = Campaign {
        authority,
        campaign_id,
        campaign_name,
        campaign_description,
        campaign_budget: 0,
        campaign_status: CampaignStatus::Active,
        campaign_providers: Vec::new(),
        campaign_locations: Vec::new(),
        running_days,
        hours_per_day,
        base_fee_per_hour,
        platform_fee: 0,
        total_distributed: 0,
        campaign_performance: Vec::new(),
    };
    Ok((campaign, CampaignCreated { authority }))
}

/// The platform's fee on a budget: its percentage of the whole, rounded down.
pub open spec fn platform_fee_on(budget: int) -> int {
    budget * PLATFORM_FEE_PERCENTAGE / 100
}

/// Why the budget cannot be raised by `amount`, or `None` where it can. The
/// new budget, scaled for the platform's percentage, has to fit `u64`.
pub open spec fn funding_refusal(c: CampaignView, caller: Principal, amount: u64) -> Option<
    ErrorCode,
> {
    if (c.campaign_budget + amount) * PLATFORM_FEE_PERCENTAGE > u64::MAX {
        Some(ErrorCode::CalculationError)
    } else if c.authority != caller {
        Some(ErrorCode::Unauthorized)
    } else {
        None
    }
}

/// The campaign with its budget raised by `amount` and the platform's fee
/// taken anew from the whole budget.
pub open spec fn funded(c: CampaignView, amount: u64) -> CampaignView {
    CampaignView {
        campaign_budget: (c.campaign_budget + amount) as u64,
        platform_fee: platform_fee_on(c.campaign_budget + amount) as u64,
        ..c
    }
}

/// Raises the budget of a campaign by `amount`, which the advertiser has paid
/// into the campaign's escrow, and sets the platform's fee to its percentage
/// of the whole budget so far.
///
/// Refused, with the campaign left as it was, for the reason that
/// `funding_refusal` gives.
pub fn add_budget(campaign: &mut Campaign, authority: Principal, amount: u64) -> (r: Result<
    BudgetAdded,
    ErrorCode,
>)
    ensures
        match r {
            Ok(event) => {
                &&& funding_refusal(old(campaign)@, authority, amount) is None
                &&& final(campaign)@ == funded(old(campaign)@, amount)
                &&& final(campaign).campaign_budget == old(campaign).campaign_budget + amount
                &&& final(campaign).platform_fee == platform_fee_on(
                    final(campaign).campaign_budget as int,
                )
                &&& event == (BudgetAdded { authority })
            },
            Err(e) => {
                &&& funding_refusal(old(campaign)@, authority, amount) == Some(e)
                &&& *final(campaign) == *old(campaign)
            },
        },
        old(campaign)@.wf() ==> final(campaign)@.wf(),
{
    let budget: u64 = match campaign.campaign_budget.checked_add(amount) {
        Some(sum) => sum,
        None => {
            assert((campaign.campaign_budget + amount) * PLATFORM_FEE_PERCENTAGE > u64::MAX)
                by (nonlinear_arith)
                requires
                    campaign.campaign_budget + amount > u64::MAX,
                    PLATFORM_FEE_PERCENTAGE == 2,
            ;
            return Err(ErrorCode::CalculationError);
        },
    };
    let scaled: u64 = match budget.checked_mul(PLATFORM_FEE_PERCENTAGE) {
        Some(product) => product,
        None => {
            return Err(ErrorCode::CalculationError);
        },
    };
    if campaign.authority != authority {
        return Err(ErrorCode::Unauthorized);
    }
    campaign.campaign_budget = budget;
    campaign.platform_fee = scaled / 100;
    Ok(BudgetAdded { authority })
}

/// Paying in two amounts one after the other leaves the campaign as paying in
/// their sum at once does: the platform's fee is taken from the budget as a
/// whole, not deposit by deposit.
pub proof fn lemma_funding_adds_up(c: CampaignView, caller: Principal, first: u64, second: u64)
    requires
        funding_refusal(c, caller, first) is None,
        funding_refusal(funded(c, first), caller, second) is None,
    ensures
        first + second <= u64::MAX,
        funding_refusal(c, caller, (first + second) as u64) is None,
        funded(funded(c, first), second) == funded(c, (first + second) as u64),
{
}

/// Why the campaign cannot be completed, or `None` where it can.
pub open spec fn completion_refusal(c: CampaignView, caller: Principal) -> Option<ErrorCode> {
    if c.campaign_status != CampaignStatus::Active {
        Some(ErrorCode::CampaignNotActive)
    } else if c.authority != caller {
        Some(ErrorCode::Unauthorized)
    } else {
        None
    }
}

/// Closes an active campaign, which opens it for the distribution of fees.
/// There is no way back.
///
/// Refused, with the campaign left as it was, for the reason that
/// `completion_refusal` gives.
pub fn complete_campaign(campaign: &mut Campaign, authority: Principal) -> (r: Result<
    CampaignCompleted,
    ErrorCode,
>)
    ensures
        match r {
            Ok(event) => {
                &&& completion_refusal(old(campaign)@, authority) is None
                &&& final(campaign)@ == (CampaignView {
                    campaign_status: CampaignStatus::Completed,
                    ..old(campaign)@
                })
                &&& event == (CampaignCompleted {
                    campaign_id: old(campaign).campaign_id,
                    authority,
                })
            },
            Err(e) => {
                &&& completion_refusal(old(campaign)@, authority) == Some(e)
                &&& *final(campaign) == *old(campaign)
            },
        },
        old(campaign)@.wf() ==> final(campaign)@.wf(),
{
    if campaign.campaign_status != CampaignStatus::Active {
        return Err(ErrorCode::CampaignNotActive);
    }
    if campaign.authority != authority {
        return Err(ErrorCode::Unauthorized);
    }
    campaign.campaign_status = CampaignStatus::Completed;
    Ok(CampaignCompleted { campaign_id: campaign.campaign_id, authority })
}

/// Accepts the rows of the given device.
pub open spec fn of_device(device_id: u32) -> spec_fn(ProviderPerformance) -> bool {
    |row: ProviderPerformance| row.device_id == device_id
}

/// The place of the first row of the given device.
pub fn find_row_of_device(rows: &Vec<ProviderPerformance>, device_id: u32) -> (r: Option<usize>)
    ensures
        match r {
            Some(i) => first_match(rows@, of_device(device_id)) == Some(i as int),
            None => first_match(rows@, of_device(device_id)) is None,
        },
{
    let mut i: usize = 0;
    while i < rows.len()
        invariant
            i <= rows.len(),
            forall|j: int| 0 <= j < i ==> !of_device(device_id)(#[trigger] rows@[j]),
        decreases rows.len() - i,
    {
        if rows[i].device_id == device_id {
            proof {
                assert(is_first_match(rows@, of_device(device_id), i as int));
                lemma_first_match_is(rows@, of_device(device_id), i as int);
            }
            return Some(i);
        }
        i += 1;
    }
    proof {
        lemma_first_match_none(rows@, of_device(device_id));
    }
    None
}

/// Why the campaign cannot take over the totals of the feed for the device,
/// or `None` where it can: the feed has to be that of the device, and the
/// campaign has to hold a row of the device.
pub open spec fn performance_refusal(
    c: CampaignView,
    caller: Principal,
    feed: DeviceFeed,
    device_id: u32,
) -> Option<ErrorCode> {
    if feed.channel_id != device_id {
        Some(ErrorCode::DeviceNotFound)
    } else if first_match(c.campaign_performance, of_device(device_id)) is None {
        Some(ErrorCode::DeviceNotFound)
    } else if c.authority != caller {
        Some(ErrorCode::Unauthorized)
    } else {
        None
    }
}

/// The row with the running totals of the feed in place of its own.
pub open spec fn row_with_totals(row: ProviderPerformance, feed: DeviceFeed)
    -> ProviderPerformance {
    ProviderPerformance { total_views: feed.total_views, total_taps: feed.total_taps, ..row }
}

/// Brings the first row of the device up to its feed: the row's views and
/// taps become the feed's running totals, whatever they were. No difference
/// is taken, so it is for the feed that the totals never fall.
///
/// Refused, with the campaign left as it was, for the reason that
/// `performance_refusal` gives.
pub fn update_campaign_performance(
    campaign: &mut Campaign,
    authority: Principal,
    device_feed: &DeviceFeed,
    device_id: u32,
) -> (r: Result<PerformanceUpdated, ErrorCode>)
    ensures
        match r {
            Ok(event) => {
                &&& performance_refusal(old(campaign)@, authority, *device_feed, device_id) is None
                &&& final(campaign)@ == (CampaignView {
                    campaign_performance: old(campaign)@.campaign_performance.update(
                        first_match(old(campaign)@.campaign_performance, of_device(device_id))->0,
                        row_with_totals(
                            old(campaign)@.campaign_performance[first_match(
                                old(campaign)@.campaign_performance,
                                of_device(device_id),
                            )->0],
                            *device_feed,
                        ),
                    ),
                    ..old(campaign)@
                })
                &&& event == (PerformanceUpdated {
                    campaign_id: old(campaign).campaign_id,
                    device_id,
                    total_views: device_feed.total_views,
                    total_taps: device_feed.total_taps,
                })
            },
            Err(e) => {
                &&& performance_refusal(old(campaign)@, authority, *device_feed, device_id) == Some(
                    e,
                )
                &&& *final(campaign) == *old(campaign)
            },
        },
        old(campaign)@.wf() ==> final(campaign)@.wf(),
{
    if device_feed.channel_id != device_id {
        return Err(ErrorCode::DeviceNotFound);
    }
    let i: usize = match find_row_of_device(&campaign.campaign_performance, device_id) {
        Some(i) => i,
        None => {
            return Err(ErrorCode::DeviceNotFound);
        },
    };
    proof {
        crate::search::lemma_first_match_means(campaign.campaign_performance@, of_device(device_id));
    }
    if campaign.authority != authority {
        return Err(ErrorCode::Unauthorized);
    }
    let row = campaign.campaign_performance[i];
    campaign.campaign_performance.set(
        i,
        ProviderPerformance {
            provider: row.provider,
            device_id: row.device_id,
            total_views: device_feed.total_views,
            total_taps: device_feed.total_taps,
            calculated_earnings: row.calculated_earnings,
            base_fee_earned: row.base_fee_earned,
            performance_fee_earned: row.performance_fee_earned,
        },
    );
    Ok(
        PerformanceUpdated {
            campaign_id: campaign.campaign_id,
            device_id,
            total_views: device_feed.total_views,
            total_taps: device_feed.total_taps,
        },
    )
}

} // verus!
