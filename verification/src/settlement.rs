use crate::errors::ErrorCode;
use crate::events::EarningsWithdrawn;
use crate::principal::Principal;
use crate::search::{first_match, is_first_match, lemma_first_match_is, lemma_first_match_none};
use crate::states::{AdProvider, AdProviderView, Campaign, CampaignView, ProviderPerformance};
use vstd::prelude::*;

verus! {

/// Accepts the rows of the given provider.
pub open spec fn of_provider(who: Principal) -> spec_fn(ProviderPerformance) -> bool {
    |row: ProviderPerformance| row.provider == who
}

/// The place of the first row of the given provider.
pub fn find_row_of_provider(rows: &Vec<ProviderPerformance>, who: Principal) -> (r: Option<usize>)
    ensures
        match r {
            Some(i) => first_match(rows@, of_provider(who)) == Some(i as int),
            None => first_match(rows@, of_provider(who)) is None,
        },
{
    let mut i: usize = 0;
    while i < rows.len()
        invariant
            i <= rows.len(),
            forall|j: int| 0 <= j < i ==> !of_provider(who)(#[trigger] rows@[j]),
        decreases rows.len() - i,
    {
        if rows[i].provider == who {
            proof {
                assert(is_first_match(rows@, of_provider(who), i as int));
                lemma_first_match_is(rows@, of_provider(who), i as int);
            }
            return Some(i);
        }
        i += 1;
    }
    proof {
        lemma_first_match_none(rows@, of_provider(who));
    }
    None
}

/// What the campaign owes the provider: the earnings of the provider's first
/// row. Meaningful where the provider has a row.
pub open spec fn owed(c: CampaignView, who: Principal) -> u64 {
    c.campaign_performance[first_match(c.campaign_performance, of_provider(who))->0].calculated_earnings
}

/// Why the provider cannot take out its earnings from the campaign, or `None`
/// where it can. The reasons are tried in this order.
pub open spec fn withdrawal_refusal(c: CampaignView, p: AdProviderView, caller: Principal)
    -> Option<ErrorCode> {
    if first_match(c.campaign_performance, of_provider(p.authority)) is None {
        Some(ErrorCode::ProviderNotInCampaign)
    } else if owed(c, p.authority) == 0 {
        Some(ErrorCode::NoEarningsToWithdraw)
    } else if p.total_earnings + owed(c, p.authority) > u64::MAX {
        Some(ErrorCode::CalculationError)
    } else if p.authority != caller {
        Some(ErrorCode::Unauthorized)
    } else {
        None
    }
}

/// The provider with `amount` added to what it has earned in all.
pub open spec fn paid(p: AdProviderView, amount: u64) -> AdProviderView {
    AdProviderView { total_earnings: (p.total_earnings + amount) as u64, ..p }
}

/// Pays out what the campaign owes the provider: the earnings of the
/// provider's first row are added to what the provider has earned in all, and
/// the event names the amount that is to move from the campaign's escrow to
/// the provider.
///
/// The campaign is not touched and the row not cleared: a second withdrawal
/// pays the same amount again.
///
/// Refused, with the provider left as it was, for the reason that
/// `withdrawal_refusal` gives.
pub fn withdraw_earnings(campaign: &Campaign, ad_provider: &mut AdProvider, authority: Principal)
    -> (r: Result<EarningsWithdrawn, ErrorCode>)
    ensures
        match r {
            Ok(event) => {
                &&& withdrawal_refusal(campaign@, old(ad_provider)@, authority) is None
                &&& final(ad_provider)@ == paid(
                    old(ad_provider)@,
                    owed(campaign@, old(ad_provider).authority),
                )
                &&& event == (EarningsWithdrawn {
                    provider: old(ad_provider).authority,
                    campaign_id: campaign.campaign_id,
                    amount: owed(campaign@, old(ad_provider).authority),
                })
                &&& event.amount > 0
            },
            Err(e) => {
                &&& withdrawal_refusal(campaign@, old(ad_provider)@, authority) == Some(e)
                &&& *final(ad_provider) == *old(ad_provider)
            },
        },
        old(ad_provider)@.wf() ==> final(ad_provider)@.wf(),
{
    let i: usize = match find_row_of_provider(
        &campaign.campaign_performance,
        ad_provider.authority,
    ) {
        Some(i) => i,
        None => {
            return Err(ErrorCode::ProviderNotInCampaign);
        },
    };
    let earnings: u64 = campaign.campaign_performance[i].calculated_earnings;
    if earnings == 0 {
        return Err(ErrorCode::NoEarningsToWithdraw);
    }
    let total: u64 = match ad_provider.total_earnings.checked_add(earnings) {
        Some(sum) => sum,
        None => {
            return Err(ErrorCode::CalculationError);
        },
    };
    if ad_provider.authority != authority {
        return Err(ErrorCode::Unauthorized);
    }
    ad_provider.total_earnings = total;
    Ok(
        EarningsWithdrawn {
            provider: ad_provider.authority,
            campaign_id: campaign.campaign_id,
            amount: earnings,
        },
    )
}

/// A withdrawal that was granted is granted again, for the same amount, as
/// long as the provider's total still fits `u64`: nothing records that the
/// earnings were paid out.
pub proof fn lemma_withdrawal_repeats(c: CampaignView, p: AdProviderView, caller: Principal)
    requires
        withdrawal_refusal(c, p, caller) is None,
        p.total_earnings + 2 * owed(c, p.authority) <= u64::MAX,
    ensures
        withdrawal_refusal(c, paid(p, owed(c, p.authority)), caller) is None,
        owed(c, paid(p, owed(c, p.authority)).authority) == owed(c, p.authority),
        paid(paid(p, owed(c, p.authority)), owed(c, p.authority)).total_earnings
            == p.total_earnings + 2 * owed(c, p.authority),
{
}

} // verus!
