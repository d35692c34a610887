//! The rules of the bidding desk: who may bid, who may end an auction, and
//! what the desk reports of a running one.
//!
//! The auction itself does not know about balances or about who opened it for
//! what purpose; these rules stand between a request and the registry.

use crate::auction::Auction;
use crate::clock::{unix_now, valid_timestamp, MAX_TIMESTAMP};
use crate::ledger::{LedgerReply, LedgerRequest, LedgerRequestView, Step, StepView};
use crate::manager::{registry_wf, AuctionManager};
use crate::model::{is_ranking_of, opened, AuctionView};
use crate::proposal::{AuctionBid, AuctionMode};
use vstd::prelude::*;

verus! {

/// Seconds an auction of the desk runs, unless it is extended.
pub const BASE_DURATION_SECONDS: i64 = 120;

/// A bid that arrives with fewer seconds than this left extends the auction.
pub const EXTENSION_WINDOW_SECONDS: i64 = 30;

/// Seconds an extended auction runs from the bid that extended it.
pub const EXTENSION_SECONDS: i64 = 15;

/// Why a request did not come from a place where an auction can be.
#[derive(Clone, Copy, Debug, PartialEq, Eq, Structural)]
pub enum Misplaced {
    /// The request was made outside a server.
    OutsideServer,
    /// The requester is in no voice channel.
    NotInVoiceChannel,
}

/// The voice channel a request is about: the one its maker is in, on a
/// server.
pub fn requested_channel(server_id: Option<u64>, voice_channel_id: Option<u64>) -> (channel: Result<
    u64,
    Misplaced,
>)
    ensures
        channel == (match (server_id, voice_channel_id) {
            (None, _) => Err::<u64, Misplaced>(Misplaced::OutsideServer),
            (Some(_), None) => Err::<u64, Misplaced>(Misplaced::NotInVoiceChannel),
            (Some(_), Some(id)) => Ok::<u64, Misplaced>(id),
        }),
{
    match server_id {
        None => Err(Misplaced::OutsideServer),
        Some(_) => match voice_channel_id {
            None => Err(Misplaced::NotInVoiceChannel),
            Some(id) => Ok(id),
        },
    }
}

/// Where a member of the server is: the member, and the voice channel they
/// are in, if any.
#[derive(Clone, Copy, Debug, PartialEq, Eq, Structural)]
pub struct VoiceState {
    pub user_id: u64,
    pub channel_id: Option<u64>,
}

/// The member that `state` tells of, if they are in `channel`.
pub open spec fn member_in(channel: u64) -> spec_fn(VoiceState) -> Option<u64> {
    |state: VoiceState|
        if state.channel_id == Some(channel) {
            Some(state.user_id)
        } else {
            None
        }
}

/// The members among `states` who are in `channel`, in the order of `states`.
pub open spec fn members_of(states: Seq<VoiceState>, channel: u64) -> Seq<u64> {
    states.filter_map(member_in(channel))
}

/// The members who are in `voice_channel_id`: the ones an auction there is
/// announced to.
pub fn members_in_channel(states: &Vec<VoiceState>, voice_channel_id: u64) -> (members: Vec<u64>)
    ensures
        members@ == members_of(states@, voice_channel_id),
{
    let mut members: Vec<u64> = Vec::new();
    let mut i: usize = 0;
    while i < states.len()
        invariant
            0 <= i <= states@.len(),
            members@ == members_of(states@.take(i as int), voice_channel_id),
        decreases states@.len() - i,
    {
        proof {
            states@.lemma_filter_map_take_succ(member_in(voice_channel_id), i as int);
        }
        let state = states[i];
        match state.channel_id {
            Some(channel) => {
                if channel == voice_channel_id {
                    members.push(state.user_id);
                }
            },
            None => {},
        }
        i += 1;
    }
    proof {
        assert(states@.take(states@.len() as int) =~= states@);
    }
    members
}

/// Why the desk did not pass a bid on to the auction.
#[derive(Clone, Copy, Debug, PartialEq, Eq, Structural)]
pub enum BidRefusal {
    /// The bid did not come from a voice channel of a server.
    Misplaced(Misplaced),
    /// The amount is zero or less.
    NotPositive,
    /// The bidder has no account.
    NotRegistered,
    /// The ledger failed when asked for the bidder.
    LookupFailed,
    /// The ledger failed when asked for the bidder's balance.
    BalanceFailed,
    /// The bidder's balance does not cover the amount.
    InsufficientFunds { balance: i64, amount: i64 },
}

/// What the screening of a bid is waiting for.
#[derive(Clone, Copy, Debug, PartialEq, Eq, Structural)]
pub enum ScreeningState {
    AwaitingUser { voice_channel_id: u64, user_id: u64, amount: i64 },
    AwaitingBalance { voice_channel_id: u64, user_id: u64, amount: i64 },
}

/// What the screening of a bid came to.
#[derive(Clone, Copy, Debug, PartialEq, Eq, Structural)]
pub enum Screening {
    /// The bid goes no further.
    Refused(BidRefusal),
    /// The bid may be placed in the auction of the channel.
    Cleared { voice_channel_id: u64, user_id: u64, amount: i64 },
}

/// The first step of screening a bid of `amount` by `user_id`: the bid has
/// to come from a voice channel and to be for more than nothing, before the
/// ledger is asked for the bidder.
pub open spec fn screening_first_step(
    server_id: Option<u64>,
    voice_channel_id: Option<u64>,
    user_id: u64,
    amount: i64,
) -> StepView<ScreeningState, Screening> {
    match (server_id, voice_channel_id) {
        (None, _) => StepView::Done(
            Screening::Refused(BidRefusal::Misplaced(Misplaced::OutsideServer)),
        ),
        (Some(_), None) => StepView::Done(
            Screening::Refused(BidRefusal::Misplaced(Misplaced::NotInVoiceChannel)),
        ),
        (Some(_), Some(channel)) => if amount <= 0 {
            StepView::Done(Screening::Refused(BidRefusal::NotPositive))
        } else {
            StepView::Ask {
                state: ScreeningState::AwaitingUser { voice_channel_id: channel, user_id, amount },
                request: LedgerRequestView::FindUser { user_id },
            }
        },
    }
}

/// The step that follows `state` once the ledger has answered `reply`: the
/// bidder has to have an account, and in it at least what they bid.
pub open spec fn screening_step(state: ScreeningState, reply: LedgerReply) -> StepView<
    ScreeningState,
    Screening,
> {
    match (state, reply) {
        (
            ScreeningState::AwaitingUser { voice_channel_id, user_id, amount },
            LedgerReply::UserFound,
        ) => StepView::Ask {
            state: ScreeningState::AwaitingBalance { voice_channel_id, user_id, amount },
            request: LedgerRequestView::GetBalance { user_id },
        },
        (ScreeningState::AwaitingUser { .. }, LedgerReply::UserMissing) => StepView::Done(
            Screening::Refused(BidRefusal::NotRegistered),
        ),
        (ScreeningState::AwaitingUser { .. }, _) => StepView::Done(
            Screening::Refused(BidRefusal::LookupFailed),
        ),
        (
            ScreeningState::AwaitingBalance { voice_channel_id, user_id, amount },
            LedgerReply::Balance(balance),
        ) => if balance < amount {
            StepView::Done(Screening::Refused(BidRefusal::InsufficientFunds { balance, amount }))
        } else {
            StepView::Done(Screening::Cleared { voice_channel_id, user_id, amount })
        },
        (ScreeningState::AwaitingBalance { .. }, _) => StepView::Done(
            Screening::Refused(BidRefusal::BalanceFailed),
        ),
    }
}

/// Starts screening a bid of `amount` by `user_id`, made on the server
/// `server_id` from the voice channel `voice_channel_id`, as far as the
/// bidder is on a server and in a voice channel.
pub fn screen_bid(
    server_id: Option<u64>,
    voice_channel_id: Option<u64>,
    user_id: u64,
    amount: i64,
) -> (step: Step<ScreeningState, Screening>)
    ensures
        step@ == screening_first_step(server_id, voice_channel_id, user_id, amount),
{
    match requested_channel(server_id, voice_channel_id) {
        Err(misplaced) => Step::Done(Screening::Refused(BidRefusal::Misplaced(misplaced))),
        Ok(channel) => {
            if amount <= 0 {
                Step::Done(Screening::Refused(BidRefusal::NotPositive))
            } else {
                Step::Ask {
                    state: ScreeningState::AwaitingUser { voice_channel_id: channel, user_id, amount },
                    request: LedgerRequest::FindUser { user_id },
                }
            }
        },
    }
}

/// Takes the screening of a bid one step further, given the ledger's `reply`.
pub fn continue_screening(state: ScreeningState, reply: LedgerReply) -> (step: Step<
    ScreeningState,
    Screening,
>)
    ensures
        step@ == screening_step(state, reply),
{
    match state {
        ScreeningState::AwaitingUser { voice_channel_id, user_id, amount } => match reply {
            LedgerReply::UserFound => Step::Ask {
                state: ScreeningState::AwaitingBalance { voice_channel_id, user_id, amount },
                request: LedgerRequest::GetBalance { user_id },
            },
            LedgerReply::UserMissing => Step::Done(Screening::Refused(BidRefusal::NotRegistered)),
            _ => Step::Done(Screening::Refused(BidRefusal::LookupFailed)),
        },
        ScreeningState::AwaitingBalance { voice_channel_id, user_id, amount } => match reply {
            LedgerReply::Balance(balance) => {
                if balance < amount {
                    Step::Done(Screening::Refused(BidRefusal::InsufficientFunds { balance, amount }))
                } else {
                    Step::Done(Screening::Cleared { voice_channel_id, user_id, amount })
                }
            },
            _ => Step::Done(Screening::Refused(BidRefusal::BalanceFailed)),
        },
    }
}

/// Why the desk did not open an auction.
#[derive(Clone, Copy, Debug, PartialEq, Eq, Structural)]
pub enum StartRefusal {
    /// The request did not come from a voice channel of a server.
    Misplaced(Misplaced),
    /// The channel holds an auction already.
    AlreadyRunning,
}

/// How a request to open an auction is answered: with the channel the auction
/// is for, or with the reason why there will be none.
pub open spec fn desk_start_verdict(
    registry: Map<u64, AuctionView>,
    server_id: Option<u64>,
    voice_channel_id: Option<u64>,
) -> Result<u64, StartRefusal> {
    match (server_id, voice_channel_id) {
        (None, _) => Err(StartRefusal::Misplaced(Misplaced::OutsideServer)),
        (Some(_), None) => Err(StartRefusal::Misplaced(Misplaced::NotInVoiceChannel)),
        (Some(_), Some(channel)) => if registry.contains_key(channel) {
            Err(StartRefusal::AlreadyRunning)
        } else {
            Ok(channel)
        },
    }
}

/// The auction that the desk opens in `channel` for `creator_id` at `now`: a
/// bidding auction with the desk's durations.
pub open spec fn desk_auction(channel: u64, creator_id: u64, now: i64) -> AuctionView {
    opened(
        channel,
        creator_id,
        AuctionMode::NumericBid,
        BASE_DURATION_SECONDS,
        EXTENSION_WINDOW_SECONDS,
        EXTENSION_SECONDS,
        now,
    )
}

/// The registry once the desk has answered a request to open an auction
/// with `started`.
pub open spec fn after_desk_start(
    registry: Map<u64, AuctionView>,
    started: Result<u64, StartRefusal>,
    creator_id: u64,
    now: i64,
) -> Map<u64, AuctionView> {
    match started {
        Ok(channel) => registry.insert(channel, desk_auction(channel, creator_id, now)),
        Err(_) => registry,
    }
}

/// Opens a bidding auction at `now` in the voice channel that `creator_id`
/// is in, and says which channel that is.
pub fn start_on_request_at(
    manager: &mut AuctionManager,
    server_id: Option<u64>,
    voice_channel_id: Option<u64>,
    creator_id: u64,
    now: i64,
) -> (started: Result<u64, StartRefusal>)
    requires
        valid_timestamp(now),
    ensures
        started == desk_start_verdict(old(manager)@, server_id, voice_channel_id),
        final(manager)@ == after_desk_start(old(manager)@, started, creator_id, now),
        registry_wf(old(manager)@) ==> registry_wf(final(manager)@),
{
    match requested_channel(server_id, voice_channel_id) {
        Err(misplaced) => Err(StartRefusal::Misplaced(misplaced)),
        Ok(channel) => match manager.start_auction_at(
            channel,
            creator_id,
            AuctionMode::NumericBid,
            BASE_DURATION_SECONDS,
            EXTENSION_WINDOW_SECONDS,
            EXTENSION_SECONDS,
            now,
        ) {
            Ok(_) => Ok(channel),
            Err(_) => Err(StartRefusal::AlreadyRunning),
        },
    }
}

/// Opens a bidding auction that starts at the time the system clock shows.
pub fn start_on_request(
    manager: &mut AuctionManager,
    server_id: Option<u64>,
    voice_channel_id: Option<u64>,
    creator_id: u64,
) -> (started: Result<u64, StartRefusal>)
    ensures
        started == desk_start_verdict(old(manager)@, server_id, voice_channel_id),
        exists|now: i64|
            0 <= now <= MAX_TIMESTAMP && final(manager)@ == #[trigger] after_desk_start(
                old(manager)@,
                started,
                creator_id,
                now,
            ),
        registry_wf(old(manager)@) ==> registry_wf(final(manager)@),
{
    let now = unix_now();
    start_on_request_at(manager, server_id, voice_channel_id, creator_id, now)
}

/// Why the desk did not end an auction.
#[derive(Clone, Copy, Debug, PartialEq, Eq, Structural)]
pub enum EndRefusal {
    /// The request did not come from a voice channel of a server.
    Misplaced(Misplaced),
    /// The channel holds no auction.
    NoActiveAuction,
    /// Somebody other than the creator asked.
    NotCreator,
}

/// How a request by `requester` to end an auction is answered: with the
/// channel whose auction ends, or with the reason why none does.
pub open spec fn end_verdict(
    registry: Map<u64, AuctionView>,
    server_id: Option<u64>,
    voice_channel_id: Option<u64>,
    requester: u64,
) -> Result<u64, EndRefusal> {
    match (server_id, voice_channel_id) {
        (None, _) => Err(EndRefusal::Misplaced(Misplaced::OutsideServer)),
        (Some(_), None) => Err(EndRefusal::Misplaced(Misplaced::NotInVoiceChannel)),
        (Some(_), Some(channel)) => if !registry.contains_key(channel) {
            Err(EndRefusal::NoActiveAuction)
        } else if registry[channel].creator_id != requester {
            Err(EndRefusal::NotCreator)
        } else {
            Ok(channel)
        },
    }
}

/// Ends the auction of the voice channel that `requester` is in before its
/// time. Only the user who opened the auction may do so; for anybody else
/// the registry stays as it is.
pub fn end_on_request(
    manager: &mut AuctionManager,
    server_id: Option<u64>,
    voice_channel_id: Option<u64>,
    requester: u64,
) -> (ended: Result<Auction, EndRefusal>)
    ensures
        match ended {
            Ok(auction) => {
                &&& end_verdict(old(manager)@, server_id, voice_channel_id, requester) matches Ok(
                    channel,
                )
                &&& auction@ == old(manager)@[channel]
                &&& final(manager)@ == old(manager)@.remove(channel)
            },
            Err(refusal) => {
                &&& end_verdict(old(manager)@, server_id, voice_channel_id, requester) == Err::<
                    u64,
                    EndRefusal,
                >(refusal)
                &&& final(manager)@ == old(manager)@
            },
        },
        registry_wf(old(manager)@) ==> registry_wf(final(manager)@),
{
    let channel = match requested_channel(server_id, voice_channel_id) {
        Err(misplaced) => {
            return Err(EndRefusal::Misplaced(misplaced));
        },
        Ok(channel) => channel,
    };
    match manager.creator_of(channel) {
        None => Err(EndRefusal::NoActiveAuction),
        Some(creator) => {
            if creator != requester {
                Err(EndRefusal::NotCreator)
            } else {
                match manager.end_auction(channel) {
                    Some(ended) => Ok(ended),
                    None => Err(EndRefusal::NoActiveAuction),
                }
            }
        },
    }
}

/// What the desk reports of an auction.
#[derive(Clone, Debug, PartialEq, Eq)]
pub enum AuctionStatus {
    /// The deadline has passed.
    Ended,
    /// The auction is open.
    Running {
        /// Seconds until the deadline.
        seconds_left: i64,
        /// The highest bidder and their bid, once somebody has bid.
        leader: Option<(u64, i64)>,
        /// Every bid, highest first.
        bids: Vec<AuctionBid>,
    },
}

/// Whether `status` is what there is to report of `auction` at `now`.
pub open spec fn is_status_of(status: AuctionStatus, auction: AuctionView, now: i64) -> bool {
    match status {
        AuctionStatus::Ended => auction.is_expired_at(now),
        AuctionStatus::Running { seconds_left, leader, bids } => {
            &&& !auction.is_expired_at(now)
            &&& seconds_left == auction.time_remaining_at(now)
            &&& leader == auction.top_bidder()
            &&& is_ranking_of(bids@, auction.bids())
            &&& bids@.len() == auction.bids().len()
        },
    }
}

/// What the desk reports of `auction` at `now`.
pub fn status_at(auction: &Auction, now: i64) -> (status: AuctionStatus)
    requires
        auction@.wf(),
        valid_timestamp(now),
    ensures
        is_status_of(status, auction@, now),
{
    if auction.is_expired_at(now) {
        AuctionStatus::Ended
    } else {
        AuctionStatus::Running {
            seconds_left: auction.time_remaining_at(now),
            leader: auction.get_winner(),
            bids: auction.ranked_bids(),
        }
    }
}

/// What the desk reports of `auction` by the system clock.
pub fn status(auction: &Auction) -> (status: AuctionStatus)
    requires
        auction@.wf(),
    ensures
        exists|now: i64| 0 <= now <= MAX_TIMESTAMP && #[trigger] is_status_of(status, auction@, now),
{
    let now = unix_now();
    status_at(auction, now)
}

/// Why the desk has nothing to report.
#[derive(Clone, Copy, Debug, PartialEq, Eq, Structural)]
pub enum StatusRefusal {
    /// The request did not come from a voice channel of a server.
    Misplaced(Misplaced),
    /// The channel holds no auction.
    NoActiveAuction,
}

/// Which auction a request for a report is about: that of the channel the
/// request comes from.
pub open spec fn reported_channel(
    registry: Map<u64, AuctionView>,
    server_id: Option<u64>,
    voice_channel_id: Option<u64>,
) -> Result<u64, StatusRefusal> {
    match (server_id, voice_channel_id) {
        (None, _) => Err(StatusRefusal::Misplaced(Misplaced::OutsideServer)),
        (Some(_), None) => Err(StatusRefusal::Misplaced(Misplaced::NotInVoiceChannel)),
        (Some(_), Some(channel)) => if registry.contains_key(channel) {
            Ok(channel)
        } else {
            Err(StatusRefusal::NoActiveAuction)
        },
    }
}

/// What the desk reports at `now` of the auction in the voice channel the
/// request comes from.
pub fn report_at(
    manager: &AuctionManager,
    server_id: Option<u64>,
    voice_channel_id: Option<u64>,
    now: i64,
) -> (report: Result<AuctionStatus, StatusRefusal>)
    requires
        registry_wf(manager@),
        valid_timestamp(now),
    ensures
        match report {
            Ok(status) => reported_channel(manager@, server_id, voice_channel_id) matches Ok(channel)
                && is_status_of(status, manager@[channel], now),
            Err(refusal) => reported_channel(manager@, server_id, voice_channel_id) == Err::<
                u64,
                StatusRefusal,
            >(refusal),
        },
{
    match requested_channel(server_id, voice_channel_id) {
        Err(misplaced) => Err(StatusRefusal::Misplaced(misplaced)),
        Ok(channel) => match manager.get_auction(channel) {
            Some(auction) => Ok(status_at(&auction, now)),
            None => Err(StatusRefusal::NoActiveAuction),
        },
    }
}

/// What the desk reports by the system clock of the auction in the voice
/// channel the request comes from.
pub fn report(manager: &AuctionManager, server_id: Option<u64>, voice_channel_id: Option<u64>) -> (report:
    Result<AuctionStatus, StatusRefusal>)
    requires
        registry_wf(manager@),
    ensures
        match report {
            Ok(status) => reported_channel(manager@, server_id, voice_channel_id) matches Ok(channel)
                && exists|now: i64|
                0 <= now <= MAX_TIMESTAMP && #[trigger] is_status_of(status, manager@[channel], now),
            Err(refusal) => reported_channel(manager@, server_id, voice_channel_id) == Err::<
                u64,
                StatusRefusal,
            >(refusal),
        },
{
    let now = unix_now();
    report_at(manager, server_id, voice_channel_id, now)
}

} // verus!
