use crate::principal::Principal;
use anchor_lang::prelude::{Clock, ProgramError, SolanaSysvar};
use vstd::prelude::*;

verus! {

/// The running totals of one device, as its keeper reports them.
#[derive(Clone, Copy, Debug, PartialEq, Eq)]
pub struct DeviceFeed {
    pub channel_id: u32,
    pub last_entry_id: u32,
    pub total_views: u64,
    pub total_taps: u64,
    pub last_update_ts: i64,
    pub authority: Principal,
    pub bump: u8,
}

/// Why a feed was not opened or an update of a feed was not taken.
#[derive(Clone, Copy, Debug, PartialEq, Eq, Structural)]
pub enum OracleErr {
    /// The signer is not the keeper that the feed records.
    BadAuthority,
    /// The update brings no entry newer than the last one taken.
    NoNewData,
    /// A running total would leave the range of its type.
    Overflow,
    /// The time could not be read.
    ClockUnavailable,
}

/// What the error says to a reader.
pub open spec fn oracle_error_text(e: OracleErr) -> Seq<char> {
    match e {
        OracleErr::BadAuthority => "Caller not authorised"@,
        OracleErr::NoNewData => "Nothing new to record"@,
        OracleErr::Overflow => "Math overflow"@,
        OracleErr::ClockUnavailable => "Time could not be read"@,
    }
}

impl OracleErr {
    /// The error's message.
    pub fn message(&self) -> (r: String)
        ensures
            r@ == oracle_error_text(*self),
    {
        match self {
            OracleErr::BadAuthority => "Caller not authorised".to_owned(),
            OracleErr::NoNewData => "Nothing new to record".to_owned(),
            OracleErr::Overflow => "Math overflow".to_owned(),
            OracleErr::ClockUnavailable => "Time could not be read".to_owned(),
        }
    }
}

/// A feed was opened.
#[derive(Clone, Copy, Debug, PartialEq, Eq)]
pub struct DeviceFeedInitialized {
    pub channel_id: u32,
    pub authority: Principal,
    pub ts: i64,
}

/// A feed took an update.
#[derive(Clone, Copy, Debug, PartialEq, Eq)]
pub struct DeviceFeedUpdated {
    pub channel_id: u32,
    pub new_entry_id: u32,
    pub delta_views: u64,
    pub delta_taps: u64,
    pub total_views: u64,
    pub total_taps: u64,
    pub ts: i64,
}

/// The error of the ledger's runtime, as `anchor_lang` hands it on. Nothing in
/// here looks into it.
#[verifier::external_type_specification]
#[verifier::external_body]
pub struct ExProgramError(ProgramError);

/// Reads the time of the ledger, in seconds since the Unix epoch, with
/// `Clock::get` of `anchor_lang`. Nothing is claimed of what comes back: the
/// time differs from one reading to the next, and where no ledger runs the
/// reading fails.
#[verifier::external_body]
fn unix_timestamp() -> (r: Result<i64, ProgramError>) {
    Clock::get().map(|clock| clock.unix_timestamp)
}

/// A feed as it is when it is opened: nothing counted, no entry taken, never
/// updated.
pub open spec fn new_feed(authority: Principal, channel_id: u32, bump: u8) -> DeviceFeed {
    DeviceFeed {
        channel_id,
        last_entry_id: 0,
        total_views: 0,
        total_taps: 0,
        last_update_ts: 0,
        authority,
        bump,
    }
}

/// Opens the feed of the device `channel_id`, to be kept by `authority`, at
/// the time `now`.
pub fn initialize_device_feed_at(authority: Principal, channel_id: u32, bump: u8, now: i64) -> (r: (
    DeviceFeed,
    DeviceFeedInitialized,
))
    ensures
        r.0 == new_feed(authority, channel_id, bump),
        r.1 == (DeviceFeedInitialized { channel_id, authority, ts: now }),
{
    (
        DeviceFeed {
            channel_id,
            last_entry_id: 0,
            total_views: 0,
            total_taps: 0,
            last_update_ts: 0,
            authority,
            bump,
        },
        DeviceFeedInitialized { channel_id, authority, ts: now },
    )
}

/// Opens the feed of the device `channel_id`, to be kept by `authority`, at
/// the time that the ledger gives. Refused with `ClockUnavailable`, and for
/// no other reason, where the time cannot be read.
pub fn initialize_device_feed(authority: Principal, channel_id: u32, bump: u8) -> (r: Result<
    (DeviceFeed, DeviceFeedInitialized),
    OracleErr,
>)
    ensures
        match r {
            Ok((feed, event)) => {
                &&& feed == new_feed(authority, channel_id, bump)
                &&& event == (DeviceFeedInitialized { channel_id, authority, ts: event.ts })
            },
            Err(e) => e == OracleErr::ClockUnavailable,
        },
{
    match unix_timestamp() {
        Ok(now) => Ok(initialize_device_feed_at(authority, channel_id, bump, now)),
        Err(_) => Err(OracleErr::ClockUnavailable),
    }
}

/// Why the feed does not take an update, or `None` where it does. The reasons
/// are tried in this order.
pub open spec fn feed_update_refusal(
    feed: DeviceFeed,
    signer: Principal,
    newest_entry_id: u32,
    delta_views: u64,
    delta_taps: u64,
) -> Option<OracleErr> {
    if newest_entry_id <= feed.last_entry_id {
        Some(OracleErr::NoNewData)
    } else if signer != feed.authority {
        Some(OracleErr::BadAuthority)
    } else if feed.total_views + delta_views > u64::MAX {
        Some(OracleErr::Overflow)
    } else if feed.total_taps + delta_taps > u64::MAX {
        Some(OracleErr::Overflow)
    } else {
        None
    }
}

/// The feed after it took an update at the time `now`.
pub open spec fn updated_feed(
    feed: DeviceFeed,
    newest_entry_id: u32,
    delta_views: u64,
    delta_taps: u64,
    now: i64,
) -> DeviceFeed {
    DeviceFeed {
        last_entry_id: newest_entry_id,
        total_views: (feed.total_views + delta_views) as u64,
        total_taps: (feed.total_taps + delta_taps) as u64,
        last_update_ts: now,
        ..feed
    }
}

/// Takes what the keeper counted since the last entry into the running totals
/// of the feed, at the time `now`. The totals never fall, and the mark of the
/// last entry only rises.
///
/// Refused, with the feed left as it was, for the reason that
/// `feed_update_refusal` gives.
pub fn update_device_feed_at(
    feed: &mut DeviceFeed,
    signer: Principal,
    newest_entry_id: u32,
    delta_views: u64,
    delta_taps: u64,
    now: i64,
) -> (r: Result<DeviceFeedUpdated, OracleErr>)
    ensures
        match r {
            Ok(event) => {
                &&& feed_update_refusal(
                    *old(feed),
                    signer,
                    newest_entry_id,
                    delta_views,
                    delta_taps,
                ) is None
                &&& *final(feed) == updated_feed(
                    *old(feed),
                    newest_entry_id,
                    delta_views,
                    delta_taps,
                    now,
                )
                &&& event == (DeviceFeedUpdated {
                    channel_id: old(feed).channel_id,
                    new_entry_id: newest_entry_id,
                    delta_views,
                    delta_taps,
                    total_views: final(feed).total_views,
                    total_taps: final(feed).total_taps,
                    ts: now,
                })
            },
            Err(e) => {
                &&& feed_update_refusal(
                    *old(feed),
                    signer,
                    newest_entry_id,
                    delta_views,
                    delta_taps,
                ) == Some(e)
                &&& *final(feed) == *old(feed)
            },
        },
        final(feed).total_views >= old(feed).total_views,
        final(feed).total_taps >= old(feed).total_taps,
        final(feed).last_entry_id >= old(feed).last_entry_id,
{
    if newest_entry_id <= feed.last_entry_id {
        return Err(OracleErr::NoNewData);
    }
    if signer != feed.authority {
        return Err(OracleErr::BadAuthority);
    }
    let views: u64 = match feed.total_views.checked_add(delta_views) {
        Some(sum) => sum,
        None => {
            return Err(OracleErr::Overflow);
        },
    };
    let taps: u64 = match feed.total_taps.checked_add(delta_taps) {
        Some(sum) => sum,
        None => {
            return Err(OracleErr::Overflow);
        },
    };
    feed.total_views = views;
    feed.total_taps = taps;
    feed.last_entry_id = newest_entry_id;
    feed.last_update_ts = now;
    Ok(
        DeviceFeedUpdated {
            channel_id: feed.channel_id,
            new_entry_id: newest_entry_id,
            delta_views,
            delta_taps,
            total_views: views,
            total_taps: taps,
            ts: now,
        },
    )
}

/// Takes an update into the feed at the time that the ledger gives: as
/// `update_device_feed_at` does with that time. Where the time cannot be read,
/// the update is refused with `ClockUnavailable` before anything else is
/// looked at.
pub fn update_device_feed(
    feed: &mut DeviceFeed,
    signer: Principal,
    newest_entry_id: u32,
    delta_views: u64,
    delta_taps: u64,
) -> (r: Result<DeviceFeedUpdated, OracleErr>)
    ensures
        match r {
            Ok(event) => {
                &&& feed_update_refusal(
                    *old(feed),
                    signer,
                    newest_entry_id,
                    delta_views,
                    delta_taps,
                ) is None
                &&& *final(feed) == updated_feed(
                    *old(feed),
                    newest_entry_id,
                    delta_views,
                    delta_taps,
                    event.ts,
                )
                &&& event == (DeviceFeedUpdated {
                    channel_id: old(feed).channel_id,
                    new_entry_id: newest_entry_id,
                    delta_views,
                    delta_taps,
                    total_views: final(feed).total_views,
                    total_taps: final(feed).total_taps,
                    ts: event.ts,
                })
            },
            Err(e) => {
                &&& *final(feed) == *old(feed)
                &&& e == OracleErr::ClockUnavailable || feed_update_refusal(
                    *old(feed),
                    signer,
                    newest_entry_id,
                    delta_views,
                    delta_taps,
                ) == Some(e)
            },
        },
        final(feed).total_views >= old(feed).total_views,
        final(feed).total_taps >= old(feed).total_taps,
        final(feed).last_entry_id >= old(feed).last_entry_id,
{
    match unix_timestamp() {
        Ok(now) => update_device_feed_at(
            feed,
            signer,
            newest_entry_id,
            delta_views,
            delta_taps,
            now,
        ),
        Err(_) => Err(OracleErr::ClockUnavailable),
    }
}

} // verus!
