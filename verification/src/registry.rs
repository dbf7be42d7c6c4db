use crate::constants::{
    DEFAULT_RATING, MAX_EMAIL_LENGTH, MAX_LOCATION_LENGTH, MAX_NAME_LENGTH,
    MAX_PROVIDERS_IN_REGISTRY,
};
use crate::errors::ErrorCode;
use crate::events::{ProviderRegistered, RegistryInitialized};
use crate::principal::Principal;
use crate::states::{
    AdProvider, AdProviderView, ProviderMetadata, ProviderMetadataView, ProviderRegistry,
    ProviderRegistryView,
};
use vstd::prelude::*;
use vstd::string::StrSliceExecFns;

verus! {

/// Sets up the registry, stored under the key `registry`, with no provider in
/// it.
pub fn initialize_registry(registry: Principal) -> (r: (ProviderRegistry, RegistryInitialized))
    ensures
        r.0@ == (ProviderRegistryView { total_providers: 0, providers: Seq::empty() }),
        r.0@.wf(),
        r.1 == (RegistryInitialized { registry }),
{
    (ProviderRegistry { total_providers: 0, providers: Vec::new() }, RegistryInitialized { registry })
}

/// Whether one of the three texts of a provider is longer than it may be.
pub open spec fn provider_texts_too_long(
    name: Seq<char>,
    location: Seq<char>,
    contact_email: Seq<char>,
) -> bool {
    ||| name.len() > MAX_NAME_LENGTH
    ||| location.len() > MAX_LOCATION_LENGTH
    ||| contact_email.len() > MAX_EMAIL_LENGTH
}

/// Why a provider cannot be registered, or `None` where it can. The reasons
/// are tried in this order.
pub open spec fn registration_refusal(
    registry: ProviderRegistryView,
    name: Seq<char>,
    location: Seq<char>,
    contact_email: Seq<char>,
) -> Option<ErrorCode> {
    if registry.providers.len() >= MAX_PROVIDERS_IN_REGISTRY {
        Some(ErrorCode::RegistryFull)
    } else if provider_texts_too_long(name, location, contact_email) {
        Some(ErrorCode::CapacityExceeded)
    } else if registry.total_providers == u32::MAX {
        Some(ErrorCode::CalculationError)
    } else {
        None
    }
}

/// A provider as it is on registration: no device, no campaign, no earnings,
/// active, with the rating every provider starts from.
pub open spec fn new_provider(
    authority: Principal,
    name: Seq<char>,
    location: Seq<char>,
    contact_email: Seq<char>,
) -> AdProviderView {
    AdProviderView {
        authority,
        devices: Seq::empty(),
        name,
        location,
        contact_email,
        rating: DEFAULT_RATING,
        total_campaigns: 0,
        is_active: true,
        total_earnings: 0,
        pending_payments: 0,
    }
}

/// The metadata of a provider as it is on registration.
pub open spec fn new_metadata(
    authority: Principal,
    provider_pda: Principal,
    name: Seq<char>,
    location: Seq<char>,
) -> ProviderMetadataView {
    ProviderMetadataView {
        authority,
        provider_pda,
        name,
        location,
        device_count: 0,
        available_devices: 0,
        rating: DEFAULT_RATING,
        is_active: true,
    }
}

/// Whether a text has at most `limit` characters.
pub fn fits(text: &String, limit: usize) -> (r: bool)
    ensures
        r == (text@.len() <= limit),
{
    text.as_str().unicode_len() <= limit
}

/// Registers a provider: makes the provider's record and its metadata, and
/// enters the provider at the end of the registry. `provider_pda` is the key
/// under which the provider's record is stored.
///
/// Refused, with the registry left as it was, for the reason that
/// `registration_refusal` gives: first of all where the registry is full.
pub fn register_provider(
    registry: &mut ProviderRegistry,
    authority: Principal,
    provider_pda: Principal,
    name: String,
    location: String,
    contact_email: String,
) -> (r: Result<(AdProvider, ProviderMetadata, ProviderRegistered), ErrorCode>)
    ensures
        match r {
            Ok((provider, metadata, event)) => {
                &&& registration_refusal(old(registry)@, name@, location@, contact_email@) is None
                &&& final(registry)@ == (ProviderRegistryView {
                    total_providers: (old(registry).total_providers + 1) as u32,
                    providers: old(registry)@.providers.push(authority),
                })
                &&& provider@ == new_provider(authority, name@, location@, contact_email@)
                &&& metadata@ == new_metadata(authority, provider_pda, name@, location@)
                &&& provider@.wf()
                &&& metadata@.wf()
                &&& event.authority == authority
                &&& event.name@ == name@
                &&& event.location@ == location@
            },
            Err(e) => {
                &&& registration_refusal(old(registry)@, name@, location@, contact_email@) == Some(
                    e,
                )
                &&& *final(registry) == *old(registry)
            },
        },
        old(registry)@.providers.len() >= MAX_PROVIDERS_IN_REGISTRY ==> r is Err && r->Err_0
            == ErrorCode::RegistryFull,
        old(registry)@.wf() ==> final(registry)@.wf(),
{
    if registry.providers.len() >= MAX_PROVIDERS_IN_REGISTRY {
        return Err(ErrorCode::RegistryFull);
    }
    if !fits(&name, MAX_NAME_LENGTH) || !fits(&location, MAX_LOCATION_LENGTH) || !fits(
        &contact_email,
        MAX_EMAIL_LENGTH,
    ) {
        return Err(ErrorCode::CapacityExceeded);
    }
    let count: u32 = match registry.total_providers.checked_add(1) {
        Some(n) => n,
        None => {
            return Err(ErrorCode::CalculationError);
        },
    };
    let provider = AdProvider {
        authority,
        devices: Vec::new(),
        name: name.clone(),
        location: location.clone(),
        contact_email,
        rating: DEFAULT_RATING,
        total_campaigns: 0,
        is_active: true,
        total_earnings: 0,
        pending_payments: 0,
    };
    let metadata = ProviderMetadata {
        authority,
        provider_pda,
        name: name.clone(),
        location: location.clone(),
        device_count: 0,
        available_devices: 0,
        rating: DEFAULT_RATING,
        is_active: true,
    };
    registry.providers.push(authority);
    registry.total_providers = count;
    Ok((provider, metadata, ProviderRegistered { authority, name, location }))
}

/// The text that stands after an update: the new one where one was given.
pub open spec fn updated_text(current: Seq<char>, new: Option<String>) -> Seq<char> {
    match new {
        Some(text) => text@,
        None => current,
    }
}

/// Whether a text is given and longer than `limit`.
pub open spec fn given_too_long(new: Option<String>, limit: usize) -> bool {
    match new {
        Some(text) => text@.len() > limit,
        None => false,
    }
}

/// Whether a text, if one is given, has at most `limit` characters.
pub fn given_fits(new: &Option<String>, limit: usize) -> (r: bool)
    ensures
        r == !given_too_long(*new, limit),
{
    match new {
        Some(text) => fits(text, limit),
        None => true,
    }
}

/// Why the provider cannot be updated, or `None` where it can. The reasons
/// are tried in this order.
pub open spec fn update_refusal(
    p: AdProviderView,
    m: ProviderMetadataView,
    caller: Principal,
    name: Option<String>,
    location: Option<String>,
    contact_email: Option<String>,
) -> Option<ErrorCode> {
    if given_too_long(name, MAX_NAME_LENGTH) || given_too_long(location, MAX_LOCATION_LENGTH)
        || given_too_long(contact_email, MAX_EMAIL_LENGTH) {
        Some(ErrorCode::CapacityExceeded)
    } else if p.authority != caller || m.authority != caller {
        Some(ErrorCode::Unauthorized)
    } else {
        None
    }
}

/// Changes what is given of a provider's name, location, contact and active
/// flag, in the provider's record and, but for the contact, in its metadata.
/// What is not given stays.
///
/// Refused, with both records left as they were, for the reason that
/// `update_refusal` gives.
pub fn update_provider(
    ad_provider: &mut AdProvider,
    metadata: &mut ProviderMetadata,
    authority: Principal,
    name: Option<String>,
    location: Option<String>,
    contact_email: Option<String>,
    is_active: Option<bool>,
) -> (r: Result<(), ErrorCode>)
    ensures
        match r {
            Ok(_) => {
                &&& update_refusal(
                    old(ad_provider)@,
                    old(metadata)@,
                    authority,
                    name,
                    location,
                    contact_email,
                ) is None
                &&& final(ad_provider)@ == (AdProviderView {
                    name: updated_text(old(ad_provider)@.name, name),
                    location: updated_text(old(ad_provider)@.location, location),
                    contact_email: updated_text(old(ad_provider)@.contact_email, contact_email),
                    is_active: if is_active is Some {
                        is_active->0
                    } else {
                        old(ad_provider).is_active
                    },
                    ..old(ad_provider)@
                })
                &&& final(metadata)@ == (ProviderMetadataView {
                    name: updated_text(old(metadata)@.name, name),
                    location: updated_text(old(metadata)@.location, location),
                    is_active: if is_active is Some {
                        is_active->0
                    } else {
                        old(metadata).is_active
                    },
                    ..old(metadata)@
                })
            },
            Err(e) => {
                &&& update_refusal(
                    old(ad_provider)@,
                    old(metadata)@,
                    authority,
                    name,
                    location,
                    contact_email,
                ) == Some(e)
                &&& *final(ad_provider) == *old(ad_provider)
                &&& *final(metadata) == *old(metadata)
            },
        },
        old(ad_provider)@.wf() ==> final(ad_provider)@.wf(),
        old(metadata)@.wf() ==> final(metadata)@.wf(),
{
    if !given_fits(&name, MAX_NAME_LENGTH) || !given_fits(&location, MAX_LOCATION_LENGTH)
        || !given_fits(&contact_email, MAX_EMAIL_LENGTH) {
        return Err(ErrorCode::CapacityExceeded);
    }
    if ad_provider.authority != authority || metadata.authority != authority {
        return Err(ErrorCode::Unauthorized);
    }
    match name {
        Some(text) => {
            ad_provider.name = text.clone();
            metadata.name = text;
        },
        None => {},
    }
    match location {
        Some(text) => {
            ad_provider.location = text.clone();
            metadata.location = text;
        },
        None => {},
    }
    match contact_email {
        Some(text) => {
            ad_provider.contact_email = text;
        },
        None => {},
    }
    match is_active {
        Some(active) => {
            ad_provider.is_active = active;
            metadata.is_active = active;
        },
        None => {},
    }
    Ok(())
}

/// Every registered provider, in the order of registration.
pub fn get_all_providers(registry: &ProviderRegistry) -> (r: Vec<Principal>)
    ensures
        r@ == registry@.providers,
{
    let mut all: Vec<Principal> = Vec::new();
    let mut i: usize = 0;
    while i < registry.providers.len()
        invariant
            i <= registry.providers.len(),
            all@ == registry.providers@.take(i as int),
        decreases registry.providers.len() - i,
    {
        all.push(registry.providers[i]);
        assert(registry.providers@.take(i + 1) =~= registry.providers@.take(i as int).push(
            registry.providers@[i as int],
        ));
        i += 1;
    }
    assert(registry.providers@.take(i as int) =~= registry.providers@);
    all
}

} // verus!
