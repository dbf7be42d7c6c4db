use crate::constants::{
    MAX_DEVICES_PER_PROVIDER, MAX_LOCATIONS_PER_CAMPAIGN, MAX_PROVIDERS_PER_CAMPAIGN,
};
use crate::errors::ErrorCode;
use crate::events::{DeviceOrdered, LocationAdded, LocationRemoved, ProviderMetadataUpdated};
use crate::principal::Principal;
use crate::search::{
    first_match, is_first_match, lemma_first_match_is, lemma_first_match_means,
    lemma_first_match_none,
};
use crate::states::{
    AdProvider, AdProviderView, Campaign, CampaignView, DeviceState, ProviderMetadata,
    ProviderMetadataView, ProviderPerformance, Soulboard,
};
use vstd::prelude::*;

verus! {

/// Accepts the devices that bear the given id.
pub open spec fn with_device_id(device_id: u32) -> spec_fn(Soulboard) -> bool {
    |device: Soulboard| device.device_id == device_id
}

/// Accepts every principal but the given one.
pub open spec fn other_than(who: Principal) -> spec_fn(Principal) -> bool {
    |p: Principal| p != who
}

/// Accepts the rows of every provider but the given one.
pub open spec fn not_of(who: Principal) -> spec_fn(ProviderPerformance) -> bool {
    |row: ProviderPerformance| row.provider != who
}

/// The row that a booking starts with: nothing seen, nothing earned.
pub open spec fn fresh_row(provider: Principal, device_id: u32) -> ProviderPerformance {
    ProviderPerformance {
        provider,
        device_id,
        total_views: 0,
        total_taps: 0,
        calculated_earnings: 0,
        base_fee_earned: 0,
        performance_fee_earned: 0,
    }
}

/// The provider with its device at place `i` put into `state`.
pub open spec fn provider_with_state(p: AdProviderView, i: int, state: DeviceState)
    -> AdProviderView {
    AdProviderView {
        devices: p.devices.update(i, Soulboard { device_state: state, ..p.devices[i] }),
        ..p
    }
}

/// The provider after its first device with the id was booked: the device
/// is `Booked`, and the provider has served one campaign more.
pub open spec fn provider_booked(p: AdProviderView, device_id: u32) -> AdProviderView {
    AdProviderView {
        total_campaigns: (p.total_campaigns + 1) as u32,
        ..provider_with_state(
            p,
            first_match(p.devices, with_device_id(device_id))->0,
            DeviceState::Booked,
        )
    }
}

/// The provider after its first device with the id was released: the device
/// is `Available`.
pub open spec fn provider_released(p: AdProviderView, device_id: u32) -> AdProviderView {
    provider_with_state(
        p,
        first_match(p.devices, with_device_id(device_id))->0,
        DeviceState::Available,
    )
}

/// The metadata with `free` as the number of devices free to be booked.
pub open spec fn metadata_with_free(m: ProviderMetadataView, free: int) -> ProviderMetadataView {
    ProviderMetadataView { available_devices: free as u32, ..m }
}

/// The campaign with one more booking at the end of each of its lists.
pub open spec fn campaign_with_booking(
    c: CampaignView,
    provider: Principal,
    location: Principal,
    device_id: u32,
) -> CampaignView {
    CampaignView {
        campaign_providers: c.campaign_providers.push(provider),
        campaign_locations: c.campaign_locations.push(location),
        campaign_performance: c.campaign_performance.push(fresh_row(provider, device_id)),
        ..c
    }
}

/// The campaign without the provider, the location and the provider's rows:
/// each list loses every entry that bears the name, not one booking alone.
pub open spec fn campaign_without(c: CampaignView, provider: Principal, location: Principal)
    -> CampaignView {
    CampaignView {
        campaign_providers: c.campaign_providers.filter(other_than(provider)),
        campaign_locations: c.campaign_locations.filter(other_than(location)),
        campaign_performance: c.campaign_performance.filter(not_of(provider)),
        ..c
    }
}

/// Whether one of the campaign's three lists is full.
pub open spec fn campaign_full(c: CampaignView) -> bool {
    ||| c.campaign_providers.len() >= MAX_PROVIDERS_PER_CAMPAIGN
    ||| c.campaign_locations.len() >= MAX_LOCATIONS_PER_CAMPAIGN
    ||| c.campaign_performance.len() >= MAX_PROVIDERS_PER_CAMPAIGN
}

/// Whether the three principals presented for a booking are those that the
/// campaign, the provider and its metadata record: the caller for the
/// campaign, the location for the provider and its metadata.
pub open spec fn booking_authorized(
    c: CampaignView,
    p: AdProviderView,
    m: ProviderMetadataView,
    caller: Principal,
    location: Principal,
) -> bool {
    &&& c.authority == caller
    &&& p.authority == location
    &&& m.authority == location
}

/// Why the device cannot be booked into the campaign, or `None` where it can.
/// The reasons are tried in this order.
pub open spec fn booking_refusal(
    c: CampaignView,
    p: AdProviderView,
    m: ProviderMetadataView,
    caller: Principal,
    location: Principal,
    device_id: u32,
) -> Option<ErrorCode> {
    match first_match(p.devices, with_device_id(device_id)) {
        None => Some(ErrorCode::DeviceNotFound),
        Some(i) => if p.devices[i].device_state != DeviceState::Available {
            Some(ErrorCode::DeviceNotAvailable)
        } else if campaign_full(c) {
            Some(ErrorCode::CapacityExceeded)
        } else if m.available_devices == 0 || p.total_campaigns == u32::MAX {
            Some(ErrorCode::CalculationError)
        } else if !booking_authorized(c, p, m, caller, location) {
            Some(ErrorCode::Unauthorized)
        } else {
            None
        },
    }
}

/// Why the device cannot be released from the campaign, or `None` where it
/// can. The reasons are tried in this order.
pub open spec fn unbooking_refusal(
    c: CampaignView,
    p: AdProviderView,
    m: ProviderMetadataView,
    caller: Principal,
    location: Principal,
    device_id: u32,
) -> Option<ErrorCode> {
    match first_match(p.devices, with_device_id(device_id)) {
        None => Some(ErrorCode::DeviceNotFound),
        Some(i) => if p.devices[i].device_state != DeviceState::Booked {
            Some(ErrorCode::DeviceNotBooked)
        } else if m.available_devices == u32::MAX {
            Some(ErrorCode::CalculationError)
        } else if !booking_authorized(c, p, m, caller, location) {
            Some(ErrorCode::Unauthorized)
        } else {
            None
        },
    }
}

/// The place of the provider's first device with the given id.
pub fn find_device(devices: &Vec<Soulboard>, device_id: u32) -> (r: Option<usize>)
    ensures
        match r {
            Some(i) => first_match(devices@, with_device_id(device_id)) == Some(i as int),
            None => first_match(devices@, with_device_id(device_id)) is None,
        },
{
    let mut i: usize = 0;
    while i < devices.len()
        invariant
            i <= devices.len(),
            forall|j: int| 0 <= j < i ==> !with_device_id(device_id)(#[trigger] devices@[j]),
        decreases devices.len() - i,
    {
        if devices[i].device_id == device_id {
            proof {
                assert(is_first_match(devices@, with_device_id(device_id), i as int));
                lemma_first_match_is(devices@, with_device_id(device_id), i as int);
            }
            return Some(i);
        }
        i += 1;
    }
    proof {
        lemma_first_match_none(devices@, with_device_id(device_id));
    }
    None
}

/// The principals of the list that are not `who`, in their order.
pub fn principals_other_than(list: &Vec<Principal>, who: Principal) -> (r: Vec<Principal>)
    ensures
        r@ == list@.filter(other_than(who)),
{
    let mut kept: Vec<Principal> = Vec::new();
    let mut i: usize = 0;
    proof {
        reveal(Seq::filter);
    }
    while i < list.len()
        invariant
            i <= list.len(),
            kept@ == list@.take(i as int).filter(other_than(who)),
        decreases list.len() - i,
    {
        proof {
            assert(list@.take(i + 1) =~= list@.take(i as int).push(list@[i as int]));
            list@.take(i as int).lemma_filter_push(list@[i as int], other_than(who));
        }
        if list[i] != who {
            kept.push(list[i]);
        }
        i += 1;
    }
    assert(list@.take(i as int) =~= list@);
    kept
}

/// The rows of the list that are not of provider `who`, in their order.
pub fn rows_not_of(rows: &Vec<ProviderPerformance>, who: Principal) -> (r: Vec<
    ProviderPerformance,
>)
    ensures
        r@ == rows@.filter(not_of(who)),
{
    let mut kept: Vec<ProviderPerformance> = Vec::new();
    let mut i: usize = 0;
    proof {
        reveal(Seq::filter);
    }
    while i < rows.len()
        invariant
            i <= rows.len(),
            kept@ == rows@.take(i as int).filter(not_of(who)),
        decreases rows.len() - i,
    {
        proof {
            assert(rows@.take(i + 1) =~= rows@.take(i as int).push(rows@[i as int]));
            rows@.take(i as int).lemma_filter_push(rows@[i as int], not_of(who));
        }
        if rows[i].provider != who {
            kept.push(rows[i]);
        }
        i += 1;
    }
    assert(rows@.take(i as int) =~= rows@);
    kept
}

/// Lists that run in step still do once the entries of one principal are
/// taken out of each.
pub proof fn lemma_filter_keeps_step(
    providers: Seq<Principal>,
    locations: Seq<Principal>,
    rows: Seq<ProviderPerformance>,
    who: Principal,
)
    requires
        providers.len() == rows.len(),
        locations.len() == rows.len(),
        forall|i: int|
            0 <= i < rows.len() ==> providers[i] == (#[trigger] rows[i]).provider && locations[i]
                == rows[i].provider,
    ensures
        providers.filter(other_than(who)).len() == rows.filter(not_of(who)).len(),
        locations.filter(other_than(who)).len() == rows.filter(not_of(who)).len(),
        rows.filter(not_of(who)).len() <= rows.len(),
        forall|i: int|
            0 <= i < rows.filter(not_of(who)).len() ==> providers.filter(other_than(who))[i] == (
            #[trigger] rows.filter(not_of(who))[i]).provider && locations.filter(
                other_than(who),
            )[i] == rows.filter(not_of(who))[i].provider,
    decreases rows.len(),
{
    reveal(Seq::filter);
    if rows.len() > 0 {
        assert(providers.last() == providers[rows.len() - 1]);
        assert(locations.last() == locations[rows.len() - 1]);
        assert(providers.last() == rows.last().provider);
        assert forall|i: int| 0 <= i < rows.drop_last().len() implies providers.drop_last()[i] == (
        #[trigger] rows.drop_last()[i]).provider && locations.drop_last()[i]
            == rows.drop_last()[i].provider by {
            assert(providers[i] == rows[i].provider);
        }
        lemma_filter_keeps_step(
            providers.drop_last(),
            locations.drop_last(),
            rows.drop_last(),
            who,
        );
    }
}

/// A campaign within its bounds has as many providers as locations as
/// performance rows. Every operation on a campaign keeps it within its
/// bounds, so this holds after any run of bookings and releases.
pub proof fn lemma_lists_agree(c: CampaignView)
    requires
        c.wf(),
    ensures
        c.campaign_providers.len() == c.campaign_locations.len(),
        c.campaign_locations.len() == c.campaign_performance.len(),
{
}

/// Books a device of a provider into a campaign: the device goes from
/// `Available` to `Booked`, the campaign gets the provider, the location and a
/// fresh performance row at the end of its lists, and the provider counts one
/// free device less and one campaign more.
///
/// The advertiser presents itself for the campaign and the location for the
/// provider, whose name the location bears. Refused, with everything left as
/// it was, for the reason that `booking_refusal` gives.
pub fn add_location(
    campaign: &mut Campaign,
    ad_provider: &mut AdProvider,
    metadata: &mut ProviderMetadata,
    authority: Principal,
    location: Principal,
    device_id: u32,
) -> (r: Result<(LocationAdded, ProviderMetadataUpdated), ErrorCode>)
    ensures
        match r {
            Ok((added, updated)) => {
                &&& booking_refusal(
                    old(campaign)@,
                    old(ad_provider)@,
                    old(metadata)@,
                    authority,
                    location,
                    device_id,
                ) is None
                &&& final(campaign)@ == campaign_with_booking(
                    old(campaign)@,
                    old(ad_provider).authority,
                    location,
                    device_id,
                )
                &&& final(ad_provider)@ == provider_booked(old(ad_provider)@, device_id)
                &&& final(metadata)@ == metadata_with_free(
                    old(metadata)@,
                    old(metadata).available_devices - 1,
                )
                &&& added == (LocationAdded { campaign_id: old(campaign).campaign_id, location })
                &&& updated == (ProviderMetadataUpdated {
                    authority: location,
                    available_devices: final(metadata).available_devices,
                })
            },
            Err(e) => {
                &&& booking_refusal(
                    old(campaign)@,
                    old(ad_provider)@,
                    old(metadata)@,
                    authority,
                    location,
                    device_id,
                ) == Some(e)
                &&& *final(campaign) == *old(campaign)
                &&& *final(ad_provider) == *old(ad_provider)
                &&& *final(metadata) == *old(metadata)
            },
        },
        old(campaign)@.wf() ==> final(campaign)@.wf(),
        old(ad_provider)@.wf() ==> final(ad_provider)@.wf(),
        old(metadata)@.wf() ==> final(metadata)@.wf(),
{
    let i: usize = match find_device(&ad_provider.devices, device_id) {
        Some(i) => i,
        None => {
            return Err(ErrorCode::DeviceNotFound);
        },
    };
    proof {
        lemma_first_match_means(ad_provider.devices@, with_device_id(device_id));
    }
    if ad_provider.devices[i].device_state != DeviceState::Available {
        return Err(ErrorCode::DeviceNotAvailable);
    }
    if campaign.campaign_providers.len() >= MAX_PROVIDERS_PER_CAMPAIGN
        || campaign.campaign_locations.len() >= MAX_LOCATIONS_PER_CAMPAIGN
        || campaign.campaign_performance.len() >= MAX_PROVIDERS_PER_CAMPAIGN {
        return Err(ErrorCode::CapacityExceeded);
    }
    let free: u32 = match metadata.available_devices.checked_sub(1) {
        Some(n) => n,
        None => {
            return Err(ErrorCode::CalculationError);
        },
    };
    let served: u32 = match ad_provider.total_campaigns.checked_add(1) {
        Some(n) => n,
        None => {
            return Err(ErrorCode::CalculationError);
        },
    };
    if campaign.authority != authority || ad_provider.authority != location || metadata.authority
        != location {
        return Err(ErrorCode::Unauthorized);
    }
    ad_provider.devices.set(i, Soulboard { device_id, device_state: DeviceState::Booked });
    ad_provider.total_campaigns = served;
    campaign.campaign_providers.push(ad_provider.authority);
    campaign.campaign_locations.push(location);
    campaign.campaign_performance.push(
        ProviderPerformance {
            provider: ad_provider.authority,
            device_id,
            total_views: 0,
            total_taps: 0,
            calculated_earnings: 0,
            base_fee_earned: 0,
            performance_fee_earned: 0,
        },
    );
    metadata.available_devices = free;
    Ok(
        (
            LocationAdded { campaign_id: campaign.campaign_id, location },
            ProviderMetadataUpdated { authority: location, available_devices: free },
        ),
    )
}

/// Releases a device of a provider from a campaign: the device goes from
/// `Booked` to `Available`, the provider counts one free device more, and the
/// campaign loses every entry of the provider and of the location, together
/// with the views and taps that the provider's rows had gathered. Entries are
/// matched by name and not by the device: where the provider has two devices
/// in the campaign, releasing one takes out the rows of both.
///
/// Refused, with everything left as it was, for the reason that
/// `unbooking_refusal` gives.
pub fn remove_location(
    campaign: &mut Campaign,
    ad_provider: &mut AdProvider,
    metadata: &mut ProviderMetadata,
    authority: Principal,
    location: Principal,
    device_id: u32,
) -> (r: Result<(LocationRemoved, ProviderMetadataUpdated), ErrorCode>)
    ensures
        match r {
            Ok((removed, updated)) => {
                &&& unbooking_refusal(
                    old(campaign)@,
                    old(ad_provider)@,
                    old(metadata)@,
                    authority,
                    location,
                    device_id,
                ) is None
                &&& final(campaign)@ == campaign_without(
                    old(campaign)@,
                    old(ad_provider).authority,
                    location,
                )
                &&& final(ad_provider)@ == provider_released(old(ad_provider)@, device_id)
                &&& final(metadata)@ == metadata_with_free(
                    old(metadata)@,
                    old(metadata).available_devices + 1,
                )
                &&& removed == (LocationRemoved {
                    campaign_id: old(campaign).campaign_id,
                    location,
                })
                &&& updated == (ProviderMetadataUpdated {
                    authority: location,
                    available_devices: final(metadata).available_devices,
                })
            },
            Err(e) => {
                &&& unbooking_refusal(
                    old(campaign)@,
                    old(ad_provider)@,
                    old(metadata)@,
                    authority,
                    location,
                    device_id,
                ) == Some(e)
                &&& *final(campaign) == *old(campaign)
                &&& *final(ad_provider) == *old(ad_provider)
                &&& *final(metadata) == *old(metadata)
            },
        },
        old(campaign)@.wf() ==> final(campaign)@.wf(),
        old(ad_provider)@.wf() ==> final(ad_provider)@.wf(),
        old(metadata)@.wf() ==> final(metadata)@.wf(),
{
    let i: usize = match find_device(&ad_provider.devices, device_id) {
        Some(i) => i,
        None => {
            return Err(ErrorCode::DeviceNotFound);
        },
    };
    proof {
        lemma_first_match_means(ad_provider.devices@, with_device_id(device_id));
    }
    if ad_provider.devices[i].device_state != DeviceState::Booked {
        return Err(ErrorCode::DeviceNotBooked);
    }
    let free: u32 = match metadata.available_devices.checked_add(1) {
        Some(n) => n,
        None => {
            return Err(ErrorCode::CalculationError);
        },
    };
    if campaign.authority != authority || ad_provider.authority != location || metadata.authority
        != location {
        return Err(ErrorCode::Unauthorized);
    }
    proof {
        let c = campaign@;
        if c.wf() {
            lemma_filter_keeps_step(
                c.campaign_providers,
                c.campaign_locations,
                c.campaign_performance,
                location,
            );
        }
    }
    let providers = principals_other_than(&campaign.campaign_providers, ad_provider.authority);
    let locations = principals_other_than(&campaign.campaign_locations, location);
    let rows = rows_not_of(&campaign.campaign_performance, ad_provider.authority);
    ad_provider.devices.set(i, Soulboard { device_id, device_state: DeviceState::Available });
    campaign.campaign_providers = providers;
    campaign.campaign_locations = locations;
    campaign.campaign_performance = rows;
    metadata.available_devices = free;
    Ok(
        (
            LocationRemoved { campaign_id: campaign.campaign_id, location },
            ProviderMetadataUpdated { authority: location, available_devices: free },
        ),
    )
}

/// Why the provider cannot take on another device, or `None` where it can.
/// The reasons are tried in this order.
pub open spec fn acquisition_refusal(p: AdProviderView, m: ProviderMetadataView, caller: Principal)
    -> Option<ErrorCode> {
    if p.devices.len() >= MAX_DEVICES_PER_PROVIDER {
        Some(ErrorCode::CapacityExceeded)
    } else if m.device_count == u32::MAX || m.available_devices == u32::MAX {
        Some(ErrorCode::CalculationError)
    } else if p.authority != caller || m.authority != caller {
        Some(ErrorCode::Unauthorized)
    } else {
        None
    }
}

/// Gives the provider a new device, free to be booked, at the end of its
/// list, and counts it. Whether the provider already holds a device with this
/// id is not looked into.
///
/// Refused, with the provider and its metadata left as they were, for the
/// reason that `acquisition_refusal` gives.
pub fn get_device(
    ad_provider: &mut AdProvider,
    metadata: &mut ProviderMetadata,
    authority: Principal,
    device_id: u32,
) -> (r: Result<(DeviceOrdered, ProviderMetadataUpdated), ErrorCode>)
    ensures
        match r {
            Ok((ordered, updated)) => {
                &&& acquisition_refusal(old(ad_provider)@, old(metadata)@, authority) is None
                &&& final(ad_provider)@ == (AdProviderView {
                    devices: old(ad_provider)@.devices.push(
                        Soulboard { device_id, device_state: DeviceState::Available },
                    ),
                    ..old(ad_provider)@
                })
                &&& final(metadata)@ == (ProviderMetadataView {
                    device_count: (old(metadata).device_count + 1) as u32,
                    available_devices: (old(metadata).available_devices + 1) as u32,
                    ..old(metadata)@
                })
                &&& ordered == (DeviceOrdered { device_id, device_state: DeviceState::Available })
                &&& updated == (ProviderMetadataUpdated {
                    authority,
                    available_devices: final(metadata).available_devices,
                })
            },
            Err(e) => {
                &&& acquisition_refusal(old(ad_provider)@, old(metadata)@, authority) == Some(e)
                &&& *final(ad_provider) == *old(ad_provider)
                &&& *final(metadata) == *old(metadata)
            },
        },
        old(ad_provider)@.wf() ==> final(ad_provider)@.wf(),
        old(metadata)@.wf() ==> final(metadata)@.wf(),
{
    if ad_provider.devices.len() >= MAX_DEVICES_PER_PROVIDER {
        return Err(ErrorCode::CapacityExceeded);
    }
    let count: u32 = match metadata.device_count.checked_add(1) {
        Some(n) => n,
        None => {
            return Err(ErrorCode::CalculationError);
        },
    };
    let free: u32 = match metadata.available_devices.checked_add(1) {
        Some(n) => n,
        None => {
            return Err(ErrorCode::CalculationError);
        },
    };
    if ad_provider.authority != authority || metadata.authority != authority {
        return Err(ErrorCode::Unauthorized);
    }
    ad_provider.devices.push(Soulboard { device_id, device_state: DeviceState::Available });
    metadata.device_count = count;
    metadata.available_devices = free;
    Ok(
        (
            DeviceOrdered { device_id, device_state: DeviceState::Available },
            ProviderMetadataUpdated { authority, available_devices: free },
        ),
    )
}

/// Booking a device and releasing it again succeeds, and brings the device
/// back to `Available`, the provider's devices and the metadata to what they
/// were, and leaves no row of the provider in the campaign. Of the booking
/// there remains that the provider has served one campaign more.
pub proof fn lemma_book_then_unbook(
    c: CampaignView,
    p: AdProviderView,
    m: ProviderMetadataView,
    caller: Principal,
    location: Principal,
    device_id: u32,
)
    requires
        booking_refusal(c, p, m, caller, location, device_id) is None,
    ensures
        ({
            let i = first_match(p.devices, with_device_id(device_id))->0;
            let booked_c = campaign_with_booking(c, p.authority, location, device_id);
            let booked_p = provider_booked(p, device_id);
            let booked_m = metadata_with_free(m, m.available_devices - 1);
            let freed_c = campaign_without(booked_c, booked_p.authority, location);
            let freed_p = provider_released(booked_p, device_id);
            let freed_m = metadata_with_free(booked_m, booked_m.available_devices + 1);
            &&& unbooking_refusal(booked_c, booked_p, booked_m, caller, location, device_id) is None
            &&& booked_p.devices[i].device_state == DeviceState::Booked
            &&& freed_p.devices[i].device_state == DeviceState::Available
            &&& freed_p.devices == p.devices
            &&& freed_p == (AdProviderView {
                total_campaigns: (p.total_campaigns + 1) as u32,
                ..p
            })
            &&& freed_m == m
            &&& freed_c == campaign_without(c, p.authority, location)
            &&& forall|k: int|
                0 <= k < freed_c.campaign_performance.len() ==> (
                #[trigger] freed_c.campaign_performance[k]).provider != p.authority
        }),
{
    lemma_first_match_means(p.devices, with_device_id(device_id));
    let i = first_match(p.devices, with_device_id(device_id))->0;
    let booked_p = provider_booked(p, device_id);
    assert(is_first_match(booked_p.devices, with_device_id(device_id), i)) by {
        assert forall|j: int| 0 <= j < i implies !with_device_id(device_id)(
            #[trigger] booked_p.devices[j],
        ) by {
            assert(booked_p.devices[j] == p.devices[j]);
        }
    }
    lemma_first_match_is(booked_p.devices, with_device_id(device_id), i);
    assert(provider_released(booked_p, device_id).devices =~= p.devices);
    let who = p.authority;
    c.campaign_providers.lemma_filter_push(who, other_than(who));
    c.campaign_locations.lemma_filter_push(location, other_than(location));
    c.campaign_performance.lemma_filter_push(fresh_row(who, device_id), not_of(who));
    let booked_c = campaign_with_booking(c, who, location, device_id);
    let freed_c = campaign_without(booked_c, who, location);
    assert forall|k: int| 0 <= k < freed_c.campaign_performance.len() implies (
    #[trigger] freed_c.campaign_performance[k]).provider != who by {
        booked_c.campaign_performance.lemma_filter_pred(not_of(who), k);
    }
}

} // verus!
