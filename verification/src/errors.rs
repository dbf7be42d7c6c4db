use vstd::prelude::*;

verus! {

/// Why an operation of the marketplace was refused. A refused operation
/// leaves every entity it was given as it found it.
#[derive(Clone, Copy, Debug, PartialEq, Eq, Structural)]
pub enum ErrorCode {
    /// The provider holds no device with the given id, or the campaign no
    /// performance row for it.
    DeviceNotFound,
    /// The device is not free to be booked.
    DeviceNotAvailable,
    /// The device is not booked, so it cannot be released.
    DeviceNotBooked,
    /// The provider registry has not been set up.
    RegistryNotInitialized,
    /// The provider is not listed in the registry.
    ProviderNotInRegistry,
    /// The registry already lists as many providers as it can hold.
    RegistryFull,
    /// A number left the range of its type.
    CalculationError,
    /// The budget does not cover the base fees and the platform fee.
    InsufficientBudget,
    /// No device of the campaign recorded a single view.
    NoViews,
    /// Fees are only distributed once the campaign is completed.
    CampaignNotCompleted,
    /// Only an active campaign can be completed.
    CampaignNotActive,
    /// The campaign holds no performance row of the provider.
    ProviderNotInCampaign,
    /// The provider's row holds nothing to pay out.
    NoEarningsToWithdraw,
    /// The principal presented for an entity is not the one it records.
    Unauthorized,
    /// A bounded list or text would grow past its limit.
    CapacityExceeded,
}

/// What the error says to a reader.
pub open spec fn error_text(e: ErrorCode) -> Seq<char> {
    match e {
        ErrorCode::DeviceNotFound => "Device not found"@,
        ErrorCode::DeviceNotAvailable => "Device not available"@,
        ErrorCode::DeviceNotBooked => "Device not booked"@,
        ErrorCode::RegistryNotInitialized => "Provider registry not initialized"@,
        ErrorCode::ProviderNotInRegistry => "Provider not found in registry"@,
        ErrorCode::RegistryFull => "Registry is full, cannot add more providers"@,
        ErrorCode::CalculationError => "Calculation error"@,
        ErrorCode::InsufficientBudget => "Insufficient budget"@,
        ErrorCode::NoViews => "No views recorded"@,
        ErrorCode::CampaignNotCompleted => "Campaign not completed"@,
        ErrorCode::CampaignNotActive => "Campaign not active"@,
        ErrorCode::ProviderNotInCampaign => "Provider not in campaign"@,
        ErrorCode::NoEarningsToWithdraw => "No earnings to withdraw"@,
        ErrorCode::Unauthorized => "Presented principal is not the recorded authority"@,
        ErrorCode::CapacityExceeded => "List or text is at its limit"@,
    }
}

impl ErrorCode {
    /// The error's message.
    pub fn message(&self) -> (r: String)
        ensures
            r@ == error_text(*self),
    {
        match self {
            ErrorCode::DeviceNotFound => "Device not found".to_owned(),
            ErrorCode::DeviceNotAvailable => "Device not available".to_owned(),
            ErrorCode::DeviceNotBooked => "Device not booked".to_owned(),
            ErrorCode::RegistryNotInitialized => "Provider registry not initialized".to_owned(),
            ErrorCode::ProviderNotInRegistry => "Provider not found in registry".to_owned(),
            ErrorCode::RegistryFull => "Registry is full, cannot add more providers".to_owned(),
            ErrorCode::CalculationError => "Calculation error".to_owned(),
            ErrorCode::InsufficientBudget => "Insufficient budget".to_owned(),
            ErrorCode::NoViews => "No views recorded".to_owned(),
            ErrorCode::CampaignNotCompleted => "Campaign not completed".to_owned(),
            ErrorCode::CampaignNotActive => "Campaign not active".to_owned(),
            ErrorCode::ProviderNotInCampaign => "Provider not in campaign".to_owned(),
            ErrorCode::NoEarningsToWithdraw => "No earnings to withdraw".to_owned(),
            ErrorCode::Unauthorized => "Presented principal is not the recorded authority".to_owned(),
            ErrorCode::CapacityExceeded => "List or text is at its limit".to_owned(),
        }
    }
}

} // verus!
