use vstd::prelude::*;

verus! {

/// Most providers the global registry can list.
pub const MAX_PROVIDERS_IN_REGISTRY: usize = 50;

/// Most devices one provider can hold.
pub const MAX_DEVICES_PER_PROVIDER: usize = 10;

/// Most booked providers (and performance rows) one campaign can hold.
pub const MAX_PROVIDERS_PER_CAMPAIGN: usize = 20;

/// Most booked locations one campaign can hold.
pub const MAX_LOCATIONS_PER_CAMPAIGN: usize = 20;

/// Share of an amount, in percent, that the platform withholds.
pub const PLATFORM_FEE_PERCENTAGE: u64 = 2;

/// Longest provider name, in characters.
pub const MAX_NAME_LENGTH: usize = 32;

/// Longest provider location description, in characters.
pub const MAX_LOCATION_LENGTH: usize = 64;

/// Longest provider contact address, in characters.
pub const MAX_EMAIL_LENGTH: usize = 32;

/// Longest campaign name, in characters.
pub const MAX_CAMPAIGN_NAME_LENGTH: usize = 20;

/// Longest campaign description, in characters.
pub const MAX_CAMPAIGN_DESCRIPTION_LENGTH: usize = 100;

/// Best rating a provider can have; a new provider starts at half of it.
pub const MAX_RATING: u8 = 100;

/// Rating given to a provider on registration.
pub const DEFAULT_RATING: u8 = 50;

} // verus!
