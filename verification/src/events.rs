use crate::principal::Principal;
use crate::states::DeviceState;
use vstd::prelude::*;

verus! {

/// A provider acquired a device.
#[derive(Clone, Copy, Debug, PartialEq, Eq)]
pub struct DeviceOrdered {
    pub device_id: u32,
    pub device_state: DeviceState,
}

/// A provider joined the registry.
#[derive(Clone, Debug, PartialEq, Eq)]
pub struct ProviderRegistered {
    pub authority: Principal,
    pub name: String,
    pub location: String,
}

/// An advertiser opened a campaign.
#[derive(Clone, Copy, Debug, PartialEq, Eq)]
pub struct CampaignCreated {
    pub authority: Principal,
}

/// A campaign was closed, which opens it for the distribution of fees.
#[derive(Clone, Copy, Debug, PartialEq, Eq)]
pub struct CampaignCompleted {
    pub campaign_id: u32,
    pub authority: Principal,
}

/// An advertiser added to the budget of a campaign.
#[derive(Clone, Copy, Debug, PartialEq, Eq)]
pub struct BudgetAdded {
    pub authority: Principal,
}

/// A device was booked into a campaign.
#[derive(Clone, Copy, Debug, PartialEq, Eq)]
pub struct LocationAdded {
    pub campaign_id: u32,
    pub location: Principal,
}

/// A booking was taken out of a campaign.
#[derive(Clone, Copy, Debug, PartialEq, Eq)]
pub struct LocationRemoved {
    pub campaign_id: u32,
    pub location: Principal,
}

/// The provider registry was set up.
#[derive(Clone, Copy, Debug, PartialEq, Eq)]
pub struct RegistryInitialized {
    pub registry: Principal,
}

/// The number of free devices of a provider changed.
#[derive(Clone, Copy, Debug, PartialEq, Eq)]
pub struct ProviderMetadataUpdated {
    pub authority: Principal,
    pub available_devices: u32,
}

/// A performance row took over the totals of its device's feed.
#[derive(Clone, Copy, Debug, PartialEq, Eq)]
pub struct PerformanceUpdated {
    pub campaign_id: u32,
    pub device_id: u32,
    pub total_views: u64,
    pub total_taps: u64,
}

/// The earnings of every booked provider of a campaign were computed.
#[derive(Clone, Copy, Debug, PartialEq, Eq)]
pub struct FeesCalculated {
    pub campaign_id: u32,
    pub total_distributed: u64,
}

/// A provider took out what a campaign owes it.
#[derive(Clone, Copy, Debug, PartialEq, Eq)]
pub struct EarningsWithdrawn {
    pub provider: Principal,
    pub campaign_id: u32,
    pub amount: u64,
}

} // verus!
