//! The settlement core of a marketplace for display devices: providers
//! register and acquire devices, advertisers open and fund campaigns and book
//! devices into them, a feed reports what each device was seen and tapped,
//! and a completed campaign's budget is split among its providers by what
//! their devices did.
//!
//! Every operation takes the entities it works on and the principal that
//! asks for it, and either changes them as its contract says or refuses and
//! leaves them as they were. Each contract names, as a function of the
//! inputs alone, the one reason for which a request is refused.

pub mod booking;
pub mod campaign;
pub mod constants;
pub mod errors;
pub mod events;
pub mod fees;
pub mod oracle;
pub mod principal;
pub mod registry;
pub mod search;
pub mod settlement;
pub mod states;
