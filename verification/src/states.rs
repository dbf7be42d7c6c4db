use crate::constants::{
    MAX_CAMPAIGN_DESCRIPTION_LENGTH, MAX_CAMPAIGN_NAME_LENGTH, MAX_DEVICES_PER_PROVIDER,
    MAX_EMAIL_LENGTH, MAX_LOCATIONS_PER_CAMPAIGN, MAX_LOCATION_LENGTH, MAX_NAME_LENGTH,
    MAX_PROVIDERS_IN_REGISTRY, MAX_PROVIDERS_PER_CAMPAIGN, MAX_RATING,
};
use crate::principal::Principal;
use vstd::prelude::*;

verus! {

/// What a device is doing. Booking moves a device between `Available` and
/// `Booked`; the other two states are set by administration only.
#[derive(Clone, Copy, Debug, PartialEq, Eq, Structural)]
pub enum DeviceState {
    Available,
    Booked,
    Ordered,
    Paused,
}

/// One display device of a provider. The id is the device's channel id.
#[derive(Clone, Copy, Debug, PartialEq, Eq, Structural)]
pub struct Soulboard {
    pub device_id: u32,
    pub device_state: DeviceState,
}

/// A party that rents out display devices.
#[derive(Clone, Debug, PartialEq, Eq)]
pub struct AdProvider {
    pub authority: Principal,
    pub devices: Vec<Soulboard>,
    pub name: String,
    pub location: String,
    pub contact_email: String,
    pub rating: u8,
    pub total_campaigns: u32,
    pub is_active: bool,
    pub total_earnings: u64,
    pub pending_payments: u64,
}

/// The mathematical content of an [`AdProvider`].
pub struct AdProviderView {
    pub authority: Principal,
    pub devices: Seq<Soulboard>,
    pub name: Seq<char>,
    pub location: Seq<char>,
    pub contact_email: Seq<char>,
    pub rating: u8,
    pub total_campaigns: u32,
    pub is_active: bool,
    pub total_earnings: u64,
    pub pending_payments: u64,
}

impl View for AdProvider {
    type V = AdProviderView;

    open spec fn view(&self) -> AdProviderView {
        AdProviderView {
            authority: self.authority,
            devices: self.devices@,
            name: self.name@,
            location: self.location@,
            contact_email: self.contact_email@,
            rating: self.rating,
            total_campaigns: self.total_campaigns,
            is_active: self.is_active,
            total_earnings: self.total_earnings,
            pending_payments: self.pending_payments,
        }
    }
}

impl AdProviderView {
    /// The bounds every stored provider keeps.
    pub open spec fn wf(self) -> bool {
        &&& self.devices.len() <= MAX_DEVICES_PER_PROVIDER
        &&& self.name.len() <= MAX_NAME_LENGTH
        &&& self.location.len() <= MAX_LOCATION_LENGTH
        &&& self.contact_email.len() <= MAX_EMAIL_LENGTH
        &&& self.rating <= MAX_RATING
    }
}

/// The list of every registered provider.
#[derive(Clone, Debug, PartialEq, Eq)]
pub struct ProviderRegistry {
    pub total_providers: u32,
    pub providers: Vec<Principal>,
}

/// The mathematical content of a [`ProviderRegistry`].
pub struct ProviderRegistryView {
    pub total_providers: u32,
    pub providers: Seq<Principal>,
}

impl View for ProviderRegistry {
    type V = ProviderRegistryView;

    open spec fn view(&self) -> ProviderRegistryView {
        ProviderRegistryView { total_providers: self.total_providers, providers: self.providers@ }
    }
}

impl ProviderRegistryView {
    /// The counter counts the list, and the list is within its capacity.
    pub open spec fn wf(self) -> bool {
        &&& self.providers.len() <= MAX_PROVIDERS_IN_REGISTRY
        &&& self.total_providers == self.providers.len()
    }
}

/// A short record of a provider, kept beside it for lookups.
#[derive(Clone, Debug, PartialEq, Eq)]
pub struct ProviderMetadata {
    pub authority: Principal,
    pub provider_pda: Principal,
    pub name: String,
    pub location: String,
    pub device_count: u32,
    pub available_devices: u32,
    pub rating: u8,
    pub is_active: bool,
}

/// The mathematical content of a [`ProviderMetadata`].
pub struct ProviderMetadataView {
    pub authority: Principal,
    pub provider_pda: Principal,
    pub name: Seq<char>,
    pub location: Seq<char>,
    pub device_count: u32,
    pub available_devices: u32,
    pub rating: u8,
    pub is_active: bool,
}

impl View for ProviderMetadata {
    type V = ProviderMetadataView;

    open spec fn view(&self) -> ProviderMetadataView {
        ProviderMetadataView {
            authority: self.authority,
            provider_pda: self.provider_pda,
            name: self.name@,
            location: self.location@,
            device_count: self.device_count,
            available_devices: self.available_devices,
            rating: self.rating,
            is_active: self.is_active,
        }
    }
}

impl ProviderMetadataView {
    /// The bounds every stored metadata record keeps.
    pub open spec fn wf(self) -> bool {
        &&& self.name.len() <= MAX_NAME_LENGTH
        &&& self.location.len() <= MAX_LOCATION_LENGTH
        &&& self.rating <= MAX_RATING
    }
}

/// Where a campaign stands. Fees are distributed for a completed campaign
/// only, and a completed campaign never becomes active again.
#[derive(Clone, Copy, Debug, PartialEq, Eq, Structural)]
pub enum CampaignStatus {
    Active,
    Paused,
    Completed,
}

/// What one booked device of one provider did within a campaign, and what the
/// provider earns for it.
#[derive(Clone, Copy, Debug, PartialEq, Eq)]
pub struct ProviderPerformance {
    pub provider: Principal,
    pub device_id: u32,
    pub total_views: u64,
    pub total_taps: u64,
    pub calculated_earnings: u64,
    pub base_fee_earned: u64,
    pub performance_fee_earned: u64,
}

/// An advertiser's funded booking of devices.
#[derive(Clone, Debug, PartialEq, Eq)]
pub struct Campaign {
    pub authority: Principal,
    pub campaign_id: u32,
    pub campaign_name: String,
    pub campaign_description: String,
    pub campaign_budget: u64,
    pub campaign_status: CampaignStatus,
    pub campaign_providers: Vec<Principal>,
    pub campaign_locations: Vec<Principal>,
    pub running_days: u32,
    pub hours_per_day: u32,
    pub base_fee_per_hour: u64,
    pub platform_fee: u64,
    pub total_distributed: u64,
    pub campaign_performance: Vec<ProviderPerformance>,
}

/// The mathematical content of a [`Campaign`].
pub struct CampaignView {
    pub authority: Principal,
    pub campaign_id: u32,
    pub campaign_name: Seq<char>,
    pub campaign_description: Seq<char>,
    pub campaign_budget: u64,
    pub campaign_status: CampaignStatus,
    pub campaign_providers: Seq<Principal>,
    pub campaign_locations: Seq<Principal>,
    pub running_days: u32,
    pub hours_per_day: u32,
    pub base_fee_per_hour: u64,
    pub platform_fee: u64,
    pub total_distributed: u64,
    pub campaign_performance: Seq<ProviderPerformance>,
}

impl View for Campaign {
    type V = CampaignView;

    open spec fn view(&self) -> CampaignView {
        CampaignView {
            authority: self.authority,
            campaign_id: self.campaign_id,
            campaign_name: self.campaign_name@,
            campaign_description: self.campaign_description@,
            campaign_budget: self.campaign_budget,
            campaign_status: self.campaign_status,
            campaign_providers: self.campaign_providers@,
            campaign_locations: self.campaign_locations@,
            running_days: self.running_days,
            hours_per_day: self.hours_per_day,
            base_fee_per_hour: self.base_fee_per_hour,
            platform_fee: self.platform_fee,
            total_distributed: self.total_distributed,
            campaign_performance: self.campaign_performance@,
        }
    }
}

impl CampaignView {
    /// The three booking lists run in step: entry `i` of each belongs to the
    /// same booking, made for a provider at the location that bears its name.
    pub open spec fn aligned(self) -> bool {
        &&& self.campaign_providers.len() == self.campaign_performance.len()
        &&& self.campaign_locations.len() == self.campaign_performance.len()
        &&& forall|i: int|
            0 <= i < self.campaign_performance.len() ==> {
                &&& self.campaign_providers[i] == (#[trigger] self.campaign_performance[i]).provider
                &&& self.campaign_locations[i] == self.campaign_performance[i].provider
            }
    }

    /// The bounds every stored campaign keeps, and the alignment of its lists.
    pub open spec fn wf(self) -> bool {
        &&& self.campaign_name.len() <= MAX_CAMPAIGN_NAME_LENGTH
        &&& self.campaign_description.len() <= MAX_CAMPAIGN_DESCRIPTION_LENGTH
        &&& self.campaign_providers.len() <= MAX_PROVIDERS_PER_CAMPAIGN
        &&& self.campaign_locations.len() <= MAX_LOCATIONS_PER_CAMPAIGN
        &&& self.campaign_performance.len() <= MAX_PROVIDERS_PER_CAMPAIGN
        &&& self.aligned()
    }
}

/// How far the order of a device has come.
#[derive(Clone, Copy, Debug, PartialEq, Eq, Structural)]
pub enum OrderStatus {
    Ordered,
    Delivered,
    Cancelled,
}

/// The order of one device, kept until it is delivered or cancelled.
#[derive(Clone, Copy, Debug, PartialEq, Eq)]
pub struct DeviceOrder {
    pub authority: Principal,
    pub device_id: u32,
    pub order_status: OrderStatus,
}

} // verus!
