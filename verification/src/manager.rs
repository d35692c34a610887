//! The registry of running auctions, one per voice channel at most.
//!
//! The registry is a plain value: whoever shares it puts it behind a lock of
//! their own and calls these operations while holding it. What changes the
//! registry takes it by exclusive reference and so needs the writing side of
//! a reader/writer lock; the queries take it by shared reference and get by
//! with the reading side. A query hands out copies, never a way into the
//! registry.

use crate::auction::Auction;
use crate::clock::{unix_now, valid_duration, valid_timestamp, MAX_TIMESTAMP};
use crate::error::AuctionError;
use crate::model::{opened, AuctionView};
use crate::proposal::{AuctionMode, ProposalValue, ProposalValueView};
use crate::tally::key_list;
use std::collections::HashMap;
use vstd::prelude::*;

verus! {

/// The auctions of `auctions`, each by its view.
pub open spec fn auction_views(auctions: Map<u64, Auction>) -> Map<u64, AuctionView> {
    Map::new(|channel: u64| auctions.contains_key(channel), |channel: u64| auctions[channel]@)
}

/// Every auction is well formed and filed under its own channel.
pub open spec fn registry_wf(registry: Map<u64, AuctionView>) -> bool {
    &&& registry.dom().finite()
    &&& forall|channel: u64|
        registry.contains_key(channel) ==> {
            &&& (#[trigger] registry[channel]).wf()
            &&& registry[channel].voice_channel_id == channel
        }
}

/// How a request to start an auction in `channel` is answered.
pub open spec fn start_verdict(registry: Map<u64, AuctionView>, channel: u64) -> Result<
    (),
    AuctionError,
> {
    if registry.contains_key(channel) {
        Err(AuctionError::AlreadyRunning)
    } else {
        Ok(())
    }
}

/// The registry once `channel` has been asked to start an auction.
pub open spec fn after_start(
    registry: Map<u64, AuctionView>,
    channel: u64,
    auction: AuctionView,
) -> Map<u64, AuctionView> {
    if registry.contains_key(channel) {
        registry
    } else {
        registry.insert(channel, auction)
    }
}

/// How a proposal to `channel` is answered at `now`: a channel without an
/// auction takes none, an auction past its deadline takes none of any kind,
/// and an open auction answers for itself.
pub open spec fn submit_verdict(
    registry: Map<u64, AuctionView>,
    channel: u64,
    value: ProposalValueView,
    now: i64,
) -> Result<(), AuctionError> {
    if !registry.contains_key(channel) {
        Err(AuctionError::NoActiveAuction)
    } else if registry[channel].is_expired_at(now) {
        Err(AuctionError::AuctionExpired)
    } else {
        registry[channel].proposal_verdict(value, now)
    }
}

/// The registry once `actor` has proposed `value` to `channel` at `now`.
pub open spec fn after_submit(
    registry: Map<u64, AuctionView>,
    channel: u64,
    actor: u64,
    value: ProposalValueView,
    now: i64,
) -> Map<u64, AuctionView> {
    if submit_verdict(registry, channel, value, now) is Ok {
        registry.insert(channel, registry[channel].with_proposal(actor, value, now))
    } else {
        registry
    }
}

/// Whether `channel` holds an auction whose deadline has passed at `now`.
pub open spec fn holds_expired(registry: Map<u64, AuctionView>, channel: u64, now: i64) -> bool {
    registry.contains_key(channel) && registry[channel].is_expired_at(now)
}

/// The auctions of `registry` whose deadline has not passed at `now`.
pub open spec fn unexpired(registry: Map<u64, AuctionView>, now: i64) -> Map<u64, AuctionView> {
    Map::new(
        |channel: u64| registry.contains_key(channel) && !registry[channel].is_expired_at(now),
        |channel: u64| registry[channel],
    )
}

/// Whether `swept` holds exactly the auctions of `registry` whose deadline
/// has passed at `now`, each once and under its channel.
pub open spec fn is_sweep_of(
    swept: Seq<(u64, AuctionView)>,
    registry: Map<u64, AuctionView>,
    now: i64,
) -> bool {
    &&& forall|i: int|
        0 <= i < swept.len() ==> {
            &&& registry.contains_key((#[trigger] swept[i]).0)
            &&& registry[swept[i].0] == swept[i].1
            &&& swept[i].1.is_expired_at(now)
        }
    &&& forall|i: int, j: int|
        0 <= i < j < swept.len() ==> (#[trigger] swept[i]).0 != (#[trigger] swept[j]).0
    &&& forall|channel: u64|
        registry.contains_key(channel) && (#[trigger] registry[channel]).is_expired_at(now)
            ==> exists|i: int| 0 <= i < swept.len() && (#[trigger] swept[i]).0 == channel
}

/// The pairs of `swept`, each auction by its view.
pub open spec fn swept_views(swept: Seq<(u64, Auction)>) -> Seq<(u64, AuctionView)> {
    Seq::new(swept.len(), |i: int| (swept[i].0, swept[i].1@))
}

/// The running auctions, by voice channel.
pub struct AuctionManager {
    auctions: HashMap<u64, Auction>,
}

impl View for AuctionManager {
    type V = Map<u64, AuctionView>;

    closed spec fn view(&self) -> Map<u64, AuctionView> {
        auction_views(self.auctions@)
    }
}

/// The channels of `auctions` whose auction is past its deadline at `now`,
/// each once.
fn expired_channels(auctions: &HashMap<u64, Auction>, now: i64) -> (doomed: Vec<u64>)
    ensures
        doomed@.no_duplicates(),
        forall|channel: u64|
            doomed@.contains(channel) <==> auctions@.contains_key(channel)
                && auctions@[channel]@.is_expired_at(now),
{
    broadcast use vstd::std_specs::hash::group_hash_axioms;

    let channels = key_list(auctions);
    let mut doomed: Vec<u64> = Vec::new();
    let mut i: usize = 0;
    while i < channels.len()
        invariant
            0 <= i <= channels@.len(),
            channels@.no_duplicates(),
            channels@.to_set() == auctions@.dom(),
            doomed@.no_duplicates(),
            forall|k: int|
                0 <= k < doomed@.len() ==> {
                    &&& auctions@.contains_key(#[trigger] doomed@[k])
                    &&& auctions@[doomed@[k]]@.is_expired_at(now)
                    &&& exists|j: int| 0 <= j < i && channels@[j] == doomed@[k]
                },
            forall|j: int|
                0 <= j < i && auctions@[channels@[j]]@.is_expired_at(now) ==> doomed@.contains(
                    #[trigger] channels@[j],
                ),
        decreases channels@.len() - i,
    {
        let channel = channels[i];
        match auctions.get(&channel) {
            Some(auction) => {
                if auction.is_expired_at(now) {
                    let ghost before = doomed@;
                    doomed.push(channel);
                    proof {
                        assert forall|a: int, b: int|
                            0 <= a < doomed@.len() && 0 <= b < doomed@.len() && a != b implies doomed@[a]
                            != doomed@[b] by {
                            if a == before.len() {
                                let j = choose|j: int| 0 <= j < i && channels@[j] == before[b];
                                assert(channels@[j] != channels@[i as int]);
                            } else if b == before.len() {
                                let j = choose|j: int| 0 <= j < i && channels@[j] == before[a];
                                assert(channels@[j] != channels@[i as int]);
                            }
                        }
                        assert forall|j: int|
                            0 <= j < i + 1 && auctions@[channels@[j]]@.is_expired_at(
                                now,
                            ) implies doomed@.contains(#[trigger] channels@[j]) by {
                            if j < i {
                                let k = choose|k: int|
                                    0 <= k < before.len() && before[k] == channels@[j];
                                assert(doomed@[k] == channels@[j]);
                            } else {
                                assert(doomed@[before.len() as int] == channels@[j]);
                            }
                        }
                    }
                }
            },
            None => {},
        }
        i += 1;
    }
    proof {
        assert forall|channel: u64|
            doomed@.contains(channel) <==> auctions@.contains_key(channel)
                && auctions@[channel]@.is_expired_at(now) by {
            if doomed@.contains(channel) {
                let k = choose|k: int| 0 <= k < doomed@.len() && doomed@[k] == channel;
                assert(auctions@.contains_key(doomed@[k]));
            }
            if auctions@.contains_key(channel) && auctions@[channel]@.is_expired_at(now) {
                let j = choose|j: int| 0 <= j < channels@.len() && channels@[j] == channel;
                assert(doomed@.contains(channels@[j]));
            }
        }
    }
    doomed
}

impl AuctionManager {
    /// A registry without auctions.
    pub fn new() -> (manager: AuctionManager)
        ensures
            manager@ == Map::<u64, AuctionView>::empty(),
            registry_wf(manager@),
    {
        let manager = AuctionManager { auctions: HashMap::new() };
        proof {
            assert(manager@ =~= Map::<u64, AuctionView>::empty());
        }
        manager
    }

    /// Number of auctions held, expired ones included.
    pub fn auction_count(&self) -> (count: usize)
        ensures
            count == self@.len(),
    {
        broadcast use vstd::std_specs::hash::group_hash_axioms;

        proof {
            assert(self@.dom() =~= self.auctions@.dom());
        }
        self.auctions.len()
    }

    /// Opens an auction in `voice_channel_id` at `now`, unless the channel
    /// holds one already. An auction past its deadline still holds its channel
    /// until it is ended or swept.
    pub fn start_auction_at(
        &mut self,
        voice_channel_id: u64,
        creator_id: u64,
        mode: AuctionMode,
        base_duration_seconds: i64,
        extension_window_seconds: i64,
        extension_seconds: i64,
        now: i64,
    ) -> (verdict: Result<(), AuctionError>)
        requires
            valid_duration(base_duration_seconds),
            valid_duration(extension_window_seconds),
            valid_duration(extension_seconds),
            valid_timestamp(now),
        ensures
            verdict == start_verdict(old(self)@, voice_channel_id),
            final(self)@ == after_start(
                old(self)@,
                voice_channel_id,
                opened(
                    voice_channel_id,
                    creator_id,
                    mode,
                    base_duration_seconds,
                    extension_window_seconds,
                    extension_seconds,
                    now,
                ),
            ),
            registry_wf(old(self)@) ==> registry_wf(final(self)@),
    {
        broadcast use vstd::std_specs::hash::group_hash_axioms;

        if self.auctions.contains_key(&voice_channel_id) {
            return Err(AuctionError::AlreadyRunning);
        }
        let auction = Auction::new_at(
            voice_channel_id,
            creator_id,
            mode,
            base_duration_seconds,
            extension_window_seconds,
            extension_seconds,
            now,
        );
        self.auctions.insert(voice_channel_id, auction);
        Ok(())
    }

    /// Opens an auction that starts at the time the system clock shows.
    pub fn start_auction(
        &mut self,
        voice_channel_id: u64,
        creator_id: u64,
        mode: AuctionMode,
        base_duration_seconds: i64,
        extension_window_seconds: i64,
        extension_seconds: i64,
    ) -> (verdict: Result<(), AuctionError>)
        requires
            valid_duration(base_duration_seconds),
            valid_duration(extension_window_seconds),
            valid_duration(extension_seconds),
        ensures
            verdict == start_verdict(old(self)@, voice_channel_id),
            exists|now: i64|
                0 <= now <= MAX_TIMESTAMP && final(self)@ == after_start(
                    old(self)@,
                    voice_channel_id,
                    #[trigger] opened(
                        voice_channel_id,
                        creator_id,
                        mode,
                        base_duration_seconds,
                        extension_window_seconds,
                        extension_seconds,
                        now,
                    ),
                ),
            registry_wf(old(self)@) ==> registry_wf(final(self)@),
    {
        let now = unix_now();
        self.start_auction_at(
            voice_channel_id,
            creator_id,
            mode,
            base_duration_seconds,
            extension_window_seconds,
            extension_seconds,
            now,
        )
    }

    /// Hands a proposal of either kind to the auction of `voice_channel_id`.
    ///
    /// The registry looks at the deadline before the auction does: a vote,
    /// which the auction itself would take at any time, is turned down here
    /// once the deadline has passed.
    pub fn submit_at(&mut self, voice_channel_id: u64, actor: u64, value: ProposalValue, now: i64) -> (verdict:
        Result<(), AuctionError>)
        requires
            registry_wf(old(self)@),
            valid_timestamp(now),
        ensures
            verdict == submit_verdict(old(self)@, voice_channel_id, value@, now),
            final(self)@ == after_submit(old(self)@, voice_channel_id, actor, value@, now),
            registry_wf(final(self)@),
    {
        broadcast use vstd::std_specs::hash::group_hash_axioms;

        let expired = match self.auctions.get(&voice_channel_id) {
            Some(auction) => auction.is_expired_at(now),
            None => {
                return Err(AuctionError::NoActiveAuction);
            },
        };
        if expired {
            return Err(AuctionError::AuctionExpired);
        }
        match self.auctions.remove(&voice_channel_id) {
            Some(auction) => {
                let mut auction = auction;
                let verdict = auction.accept_at(actor, value, now);
                self.auctions.insert(voice_channel_id, auction);
                proof {
                    assert(self@ =~= old(self)@.insert(voice_channel_id, auction@));
                    if verdict is Err {
                        assert(self@ =~= old(self)@);
                    }
                }
                verdict
            },
            None => Err(AuctionError::NoActiveAuction),
        }
    }

    /// Hands a proposal to the auction of `voice_channel_id` at the time the
    /// system clock shows.
    pub fn submit(&mut self, voice_channel_id: u64, actor: u64, value: ProposalValue) -> (verdict: Result<
        (),
        AuctionError,
    >)
        requires
            registry_wf(old(self)@),
        ensures
            exists|now: i64|
                {
                    &&& 0 <= now <= MAX_TIMESTAMP
                    &&& verdict == #[trigger] submit_verdict(old(self)@, voice_channel_id, value@, now)
                    &&& final(self)@ == after_submit(old(self)@, voice_channel_id, actor, value@, now)
                },
            registry_wf(final(self)@),
    {
        let now = unix_now();
        self.submit_at(voice_channel_id, actor, value, now)
    }

    /// Places a bid of `amount` in the auction of `voice_channel_id` at `now`.
    pub fn place_bid_at(&mut self, voice_channel_id: u64, user_id: u64, amount: i64, now: i64) -> (verdict:
        Result<(), AuctionError>)
        requires
            registry_wf(old(self)@),
            valid_timestamp(now),
        ensures
            verdict == submit_verdict(
                old(self)@,
                voice_channel_id,
                ProposalValueView::Amount(amount),
                now,
            ),
            final(self)@ == after_submit(
                old(self)@,
                voice_channel_id,
                user_id,
                ProposalValueView::Amount(amount),
                now,
            ),
            registry_wf(final(self)@),
    {
        self.submit_at(voice_channel_id, user_id, ProposalValue::Amount(amount), now)
    }

    /// Places a bid at the time the system clock shows.
    pub fn place_bid(&mut self, voice_channel_id: u64, user_id: u64, amount: i64) -> (verdict: Result<
        (),
        AuctionError,
    >)
        requires
            registry_wf(old(self)@),
        ensures
            exists|now: i64|
                {
                    &&& 0 <= now <= MAX_TIMESTAMP
                    &&& verdict == #[trigger] submit_verdict(
                        old(self)@,
                        voice_channel_id,
                        ProposalValueView::Amount(amount),
                        now,
                    )
                    &&& final(self)@ == after_submit(
                        old(self)@,
                        voice_channel_id,
                        user_id,
                        ProposalValueView::Amount(amount),
                        now,
                    )
                },
            registry_wf(final(self)@),
    {
        let now = unix_now();
        self.place_bid_at(voice_channel_id, user_id, amount, now)
    }

    /// The user who opened the auction of `voice_channel_id`, if there is one.
    pub fn creator_of(&self, voice_channel_id: u64) -> (creator: Option<u64>)
        ensures
            creator == (if self@.contains_key(voice_channel_id) {
                Some(self@[voice_channel_id].creator_id)
            } else {
                None::<u64>
            }),
    {
        broadcast use vstd::std_specs::hash::group_hash_axioms;

        match self.auctions.get(&voice_channel_id) {
            Some(auction) => Some(auction.creator_id()),
            None => None,
        }
    }

    /// A copy of the auction of `voice_channel_id`, if there is one. The copy
    /// is the caller's: nothing done to it reaches the registry.
    pub fn get_auction(&self, voice_channel_id: u64) -> (auction: Option<Auction>)
        ensures
            match auction {
                Some(auction) => self@.contains_key(voice_channel_id) && auction@
                    == self@[voice_channel_id],
                None => !self@.contains_key(voice_channel_id),
            },
    {
        broadcast use vstd::std_specs::hash::group_hash_axioms;

        match self.auctions.get(&voice_channel_id) {
            Some(auction) => Some(auction.clone()),
            None => None,
        }
    }

    /// Takes the auction of `voice_channel_id` out of the registry, whether or
    /// not its deadline has passed, and hands it over.
    pub fn end_auction(&mut self, voice_channel_id: u64) -> (auction: Option<Auction>)
        ensures
            match auction {
                Some(auction) => old(self)@.contains_key(voice_channel_id) && auction@ == old(
                    self,
                )@[voice_channel_id],
                None => !old(self)@.contains_key(voice_channel_id),
            },
            final(self)@ == old(self)@.remove(voice_channel_id),
            registry_wf(old(self)@) ==> registry_wf(final(self)@),
    {
        broadcast use vstd::std_specs::hash::group_hash_axioms;

        let auction = self.auctions.remove(&voice_channel_id);
        auction
    }

    /// Places a vote for `label` in the auction of `voice_channel_id` at `now`.
    pub fn place_vote_at(&mut self, voice_channel_id: u64, user_id: u64, label: String, now: i64) -> (verdict:
        Result<(), AuctionError>)
        requires
            registry_wf(old(self)@),
            valid_timestamp(now),
        ensures
            verdict == submit_verdict(
                old(self)@,
                voice_channel_id,
                ProposalValueView::Label(label@),
                now,
            ),
            final(self)@ == after_submit(
                old(self)@,
                voice_channel_id,
                user_id,
                ProposalValueView::Label(label@),
                now,
            ),
            registry_wf(final(self)@),
    {
        self.submit_at(voice_channel_id, user_id, ProposalValue::Label(label), now)
    }

    /// Places a vote at the time the system clock shows.
    pub fn place_vote(&mut self, voice_channel_id: u64, user_id: u64, label: String) -> (verdict: Result<
        (),
        AuctionError,
    >)
        requires
            registry_wf(old(self)@),
        ensures
            exists|now: i64|
                {
                    &&& 0 <= now <= MAX_TIMESTAMP
                    &&& verdict == #[trigger] submit_verdict(
                        old(self)@,
                        voice_channel_id,
                        ProposalValueView::Label(label@),
                        now,
                    )
                    &&& final(self)@ == after_submit(
                        old(self)@,
                        voice_channel_id,
                        user_id,
                        ProposalValueView::Label(label@),
                        now,
                    )
                },
            registry_wf(final(self)@),
    {
        let now = unix_now();
        self.place_vote_at(voice_channel_id, user_id, label, now)
    }

    /// Takes every auction whose deadline has passed at `now` out of the
    /// registry and hands them over, each with its channel. Auctions still
    /// open stay as they are.
    pub fn cleanup_expired_auctions_at(&mut self, now: i64) -> (expired: Vec<(u64, Auction)>)
        ensures
            final(self)@ == unexpired(old(self)@, now),
            is_sweep_of(swept_views(expired@), old(self)@, now),
            registry_wf(old(self)@) ==> registry_wf(final(self)@),
    {
        broadcast use vstd::std_specs::hash::group_hash_axioms;

        let doomed = expired_channels(&self.auctions, now);
        let ghost start = self.auctions@;
        proof {
            assert forall|k: int| 0 <= k < doomed@.len() implies start.contains_key(
                #[trigger] doomed@[k],
            ) by {
                assert(doomed@.contains(doomed@[k]));
            }
        }
        let mut expired: Vec<(u64, Auction)> = Vec::new();
        let mut i: usize = 0;
        while i < doomed.len()
            invariant
                0 <= i <= doomed@.len(),
                doomed@.no_duplicates(),
                forall|k: int| 0 <= k < doomed@.len() ==> start.contains_key(#[trigger] doomed@[k]),
                self.auctions@ == start.remove_keys(doomed@.take(i as int).to_set()),
                expired@.len() == i,
                forall|k: int|
                    0 <= k < i ==> (#[trigger] expired@[k]).0 == doomed@[k] && expired@[k].1
                        == start[doomed@[k]],
            decreases doomed@.len() - i,
        {
            let channel = doomed[i];
            proof {
                let gone = doomed@.take(i as int).to_set();
                assert(!gone.contains(channel)) by {
                    if gone.contains(channel) {
                        let j = choose|j: int|
                            0 <= j < doomed@.take(i as int).len() && doomed@.take(i as int)[j]
                                == channel;
                        assert(doomed@[j] == doomed@[i as int]);
                    }
                }
                assert(doomed@.take(i + 1) =~= doomed@.take(i as int).push(channel));
                doomed@.take(i as int).lemma_push_to_set_commute(channel);
                assert(start.remove_keys(gone).remove(channel) =~= start.remove_keys(
                    gone.insert(channel),
                ));
            }
            match self.auctions.remove(&channel) {
                Some(auction) => {
                    expired.push((channel, auction));
                },
                None => {},
            }
            i += 1;
        }
        proof {
            let before = old(self)@;
            let views = swept_views(expired@);
            assert(doomed@.take(doomed@.len() as int) =~= doomed@);
            assert(self@.dom() =~= self.auctions@.dom());
            assert(self@ =~= unexpired(before, now)) by {
                assert forall|channel: u64| self@.contains_key(channel) <==> unexpired(
                    before,
                    now,
                ).contains_key(channel) by {
                    assert(doomed@.to_set().contains(channel) <==> doomed@.contains(channel));
                }
            }
            assert forall|k: int| 0 <= k < views.len() implies {
                &&& before.contains_key((#[trigger] views[k]).0)
                &&& before[views[k].0] == views[k].1
                &&& views[k].1.is_expired_at(now)
            } by {
                assert(doomed@.contains(doomed@[k]));
            }
            assert forall|a: int, b: int| 0 <= a < b < views.len() implies (#[trigger] views[a]).0 != (
            #[trigger] views[b]).0 by {
                assert(expired@[b].0 == doomed@[b]);
            }
            assert forall|channel: u64|
                before.contains_key(channel) && (#[trigger] before[channel]).is_expired_at(
                    now,
                ) implies exists|k: int|
                0 <= k < views.len() && (#[trigger] views[k]).0 == channel by {
                assert(doomed@.contains(channel));
                let k = choose|k: int| 0 <= k < doomed@.len() && doomed@[k] == channel;
                assert(expired@[k].0 == channel);
                assert(views[k].0 == channel);
            }
        }
        expired
    }

    /// Takes out every auction whose deadline has passed by the system clock.
    pub fn cleanup_expired_auctions(&mut self) -> (expired: Vec<(u64, Auction)>)
        ensures
            exists|now: i64|
                {
                    &&& 0 <= now <= MAX_TIMESTAMP
                    &&& final(self)@ == #[trigger] unexpired(old(self)@, now)
                    &&& is_sweep_of(swept_views(expired@), old(self)@, now)
                },
            registry_wf(old(self)@) ==> registry_wf(final(self)@),
    {
        let now = unix_now();
        self.cleanup_expired_auctions_at(now)
    }

    /// Takes the auction of `voice_channel_id` out of the registry and hands
    /// it over if its deadline has passed at `now`. An auction that is still
    /// open stays, and so does everything else.
    pub fn end_auction_if_expired_at(&mut self, voice_channel_id: u64, now: i64) -> (auction: Option<
        Auction,
    >)
        ensures
            match auction {
                Some(auction) => holds_expired(old(self)@, voice_channel_id, now) && auction@ == old(
                    self,
                )@[voice_channel_id],
                None => !holds_expired(old(self)@, voice_channel_id, now),
            },
            final(self)@ == (if holds_expired(old(self)@, voice_channel_id, now) {
                old(self)@.remove(voice_channel_id)
            } else {
                old(self)@
            }),
            registry_wf(old(self)@) ==> registry_wf(final(self)@),
    {
        broadcast use vstd::std_specs::hash::group_hash_axioms;

        let expired = match self.auctions.get(&voice_channel_id) {
            Some(auction) => auction.is_expired_at(now),
            None => false,
        };
        if expired {
            self.end_auction(voice_channel_id)
        } else {
            None
        }
    }

    /// Takes the auction of `voice_channel_id` out of the registry if its
    /// deadline has passed by the system clock.
    pub fn end_auction_if_expired(&mut self, voice_channel_id: u64) -> (auction: Option<Auction>)
        ensures
            exists|now: i64|
                {
                    &&& 0 <= now <= MAX_TIMESTAMP
                    &&& match auction {
                        Some(auction) => #[trigger] holds_expired(old(self)@, voice_channel_id, now)
                            && auction@ == old(self)@[voice_channel_id],
                        None => !holds_expired(old(self)@, voice_channel_id, now),
                    }
                    &&& final(self)@ == (if holds_expired(old(self)@, voice_channel_id, now) {
                        old(self)@.remove(voice_channel_id)
                    } else {
                        old(self)@
                    })
                },
            registry_wf(old(self)@) ==> registry_wf(final(self)@),
    {
        let now = unix_now();
        self.end_auction_if_expired_at(voice_channel_id, now)
    }
}

impl Default for AuctionManager {
    /// A registry without auctions.
    fn default() -> (manager: AuctionManager)
        ensures
            manager@ == Map::<u64, AuctionView>::empty(),
            registry_wf(manager@),
    {
        AuctionManager::new()
    }
}

} // verus!
