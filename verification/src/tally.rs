//! Walking the proposals of an auction: the highest bid, the ranking of the
//! bids, and the count of the votes.

use crate::model::{is_held_by, is_ranking_of, is_top_amount, supporters};
use crate::proposal::{vote_views, AuctionBid, AuctionVote};
use std::collections::HashMap;
use vstd::prelude::*;
use vstd::std_specs::iter::IteratorSpec;

verus! {

/// The keys of `m`, each once, in the order the map hands them out.
pub(crate) fn key_list<V>(m: &HashMap<u64, V>) -> (keys: Vec<u64>)
    ensures
        keys@.no_duplicates(),
        keys@.to_set() == m@.dom(),
        forall|i: int| 0 <= i < keys@.len() ==> m@.contains_key(#[trigger] keys@[i]),
{
    broadcast use vstd::std_specs::hash::group_hash_axioms;

    let mut keys: Vec<u64> = Vec::new();
    for key in it: m.keys()
        invariant
            keys@.len() == it.index(),
            forall|j: int| 0 <= j < keys@.len() ==> keys@[j] == *it.seq()[j],
    {
        keys.push(*key);
    }
    proof {
        assert(keys@ =~= m.keys().remaining().unref());
        assert forall|i: int| 0 <= i < keys@.len() implies m@.contains_key(
            #[trigger] keys@[i],
        ) by {
            assert(keys@.to_set().contains(keys@[i]));
        }
    }
    keys
}

/// The bidder with the largest amount, if anyone has bid.
pub(crate) fn top_bid(bids: &HashMap<u64, AuctionBid>) -> (top: Option<(u64, i64)>)
    ensures
        match top {
            Some((user_id, amount)) => {
                &&& bids@.contains_key(user_id)
                &&& bids@[user_id].amount == amount
                &&& is_top_amount(bids@, amount as int)
            },
            None => bids@.dom() =~= Set::<u64>::empty(),
        },
{
    broadcast use vstd::std_specs::hash::group_hash_axioms;

    let keys = key_list(bids);
    let mut top: Option<(u64, i64)> = None;
    let mut i: usize = 0;
    while i < keys.len()
        invariant
            0 <= i <= keys@.len(),
            forall|j: int| 0 <= j < keys@.len() ==> bids@.contains_key(#[trigger] keys@[j]),
            match top {
                Some((user_id, amount)) => {
                    &&& bids@.contains_key(user_id)
                    &&& bids@[user_id].amount == amount
                    &&& forall|j: int|
                        0 <= j < i ==> (#[trigger] bids@[keys@[j]]).amount <= amount
                },
                None => i == 0,
            },
        decreases keys@.len() - i,
    {
        let user_id = keys[i];
        match bids.get(&user_id) {
            Some(bid) => {
                let better = match top {
                    Some((_, amount)) => bid.amount > amount,
                    None => true,
                };
                if better {
                    top = Some((user_id, bid.amount));
                }
            },
            None => {},
        }
        i += 1;
    }
    proof {
        match top {
            Some((user_id, amount)) => {
                assert forall|user: u64| bids@.contains_key(user) implies (#[trigger] bids@[user]).amount
                    <= amount by {
                    let j = choose|j: int| 0 <= j < keys@.len() && keys@[j] == user;
                    assert(bids@[keys@[j]].amount <= amount);
                }
            },
            None => {},
        }
    }
    top
}

/// The bids of `bids`, highest first.
pub(crate) fn ranked(bids: &HashMap<u64, AuctionBid>) -> (ranking: Vec<AuctionBid>)
    ensures
        is_ranking_of(ranking@, bids@),
{
    broadcast use vstd::std_specs::hash::group_hash_axioms;

    let keys = key_list(bids);
    let mut ranking: Vec<AuctionBid> = Vec::new();
    let ghost mut holders: Seq<u64> = Seq::empty();
    let mut i: usize = 0;
    while i < keys.len()
        invariant
            0 <= i <= keys@.len(),
            keys@.no_duplicates(),
            keys@.to_set() == bids@.dom(),
            ranking@.len() == i,
            holders.len() == i,
            holders.no_duplicates(),
            forall|k: int|
                0 <= k < i ==> {
                    &&& bids@.contains_key(#[trigger] holders[k])
                    &&& ranking@[k] == bids@[holders[k]]
                    &&& exists|j: int| 0 <= j < i && keys@[j] == holders[k]
                },
            forall|j: int| 0 <= j < i ==> holders.contains(#[trigger] keys@[j]),
            forall|a: int, b: int|
                0 <= a < b < i ==> (#[trigger] ranking@[a]).amount >= (#[trigger] ranking@[b]).amount,
        decreases keys@.len() - i,
    {
        let user_id = keys[i];
        match bids.get(&user_id) {
            Some(bid) => {
                let mut at: usize = 0;
                while at < ranking.len() && ranking[at].amount >= bid.amount
                    invariant
                        0 <= at <= ranking@.len(),
                        forall|k: int| 0 <= k < at ==> (#[trigger] ranking@[k]).amount >= bid.amount,
                    decreases ranking@.len() - at,
                {
                    at += 1;
                }
                let ghost before = ranking@;
                let ghost holders_before = holders;
                ranking.insert(at, *bid);
                proof {
                    holders = holders_before.insert(at as int, user_id);
                    assert forall|a: int, b: int|
                        0 <= a < holders.len() && 0 <= b < holders.len() && a != b implies holders[a]
                        != holders[b] by {
                        let other = if a == at {
                            b
                        } else {
                            a
                        };
                        if a == at || b == at {
                            let was = if other < at {
                                other
                            } else {
                                other - 1
                            };
                            let j = choose|j: int| 0 <= j < i && keys@[j] == holders_before[was];
                            assert(keys@[j] != keys@[i as int]);
                        }
                    }
                    assert forall|k: int| 0 <= k < i + 1 implies {
                        &&& bids@.contains_key(#[trigger] holders[k])
                        &&& ranking@[k] == bids@[holders[k]]
                        &&& exists|j: int| 0 <= j < i + 1 && keys@[j] == holders[k]
                    } by {
                        if k != at {
                            let was = if k < at {
                                k
                            } else {
                                k - 1
                            };
                            let j = choose|j: int| 0 <= j < i && keys@[j] == holders_before[was];
                            assert(keys@[j] == holders[k]);
                        }
                    }
                    assert forall|j: int| 0 <= j < i + 1 implies holders.contains(
                        #[trigger] keys@[j],
                    ) by {
                        if j < i {
                            let k = choose|k: int|
                                0 <= k < holders_before.len() && holders_before[k] == keys@[j];
                            let now_at = if k < at {
                                k
                            } else {
                                k + 1
                            };
                            assert(holders[now_at] == keys@[j]);
                        } else {
                            assert(holders[at as int] == keys@[j]);
                        }
                    }
                    assert forall|a: int, b: int| 0 <= a < b < i + 1 implies (
                    #[trigger] ranking@[a]).amount >= (#[trigger] ranking@[b]).amount by {}
                }
            },
            None => {},
        }
        i += 1;
    }
    proof {
        assert(holders.to_set() =~= bids@.dom()) by {
            assert forall|user: u64| holders.to_set().contains(user) <==> bids@.dom().contains(
                user,
            ) by {
                if holders.to_set().contains(user) {
                    let k = choose|k: int| 0 <= k < holders.len() && holders[k] == user;
                    assert(bids@.contains_key(holders[k]));
                }
                if bids@.dom().contains(user) {
                    let j = choose|j: int| 0 <= j < keys@.len() && keys@[j] == user;
                    assert(holders.contains(keys@[j]));
                }
            }
        }
        assert(is_ranking_of(ranking@, bids@)) by {
            assert(is_held_by(ranking@, bids@, holders));
        }
    }
    ranking
}

/// The actors who voted for `label`, each once.
pub(crate) fn supporters_of(votes: &HashMap<u64, AuctionVote>, keys: &Vec<u64>, label: &String) -> (backers:
    Vec<u64>)
    requires
        keys@.no_duplicates(),
        keys@.to_set() == votes@.dom(),
    ensures
        backers@.no_duplicates(),
        backers@.to_set() == supporters(vote_views(votes@), label@),
        backers@.len() == supporters(vote_views(votes@), label@).len(),
{
    broadcast use vstd::std_specs::hash::group_hash_axioms;

    let mut backers: Vec<u64> = Vec::new();
    let mut i: usize = 0;
    while i < keys.len()
        invariant
            0 <= i <= keys@.len(),
            keys@.no_duplicates(),
            keys@.to_set() == votes@.dom(),
            backers@.no_duplicates(),
            forall|k: int|
                0 <= k < backers@.len() ==> {
                    &&& votes@.contains_key(#[trigger] backers@[k])
                    &&& votes@[backers@[k]].label@ == label@
                    &&& exists|j: int| 0 <= j < i && keys@[j] == backers@[k]
                },
            forall|j: int|
                0 <= j < i && votes@[keys@[j]].label@ == label@ ==> backers@.contains(
                    #[trigger] keys@[j],
                ),
        decreases keys@.len() - i,
    {
        let user_id = keys[i];
        match votes.get(&user_id) {
            Some(vote) => {
                if vote.label == *label {
                    let ghost before = backers@;
                    backers.push(user_id);
                    proof {
                        assert forall|a: int, b: int|
                            0 <= a < backers@.len() && 0 <= b < backers@.len() && a != b implies backers@[a]
                            != backers@[b] by {
                            if a == before.len() {
                                let j = choose|j: int| 0 <= j < i && keys@[j] == before[b];
                                assert(keys@[j] != keys@[i as int]);
                            } else if b == before.len() {
                                let j = choose|j: int| 0 <= j < i && keys@[j] == before[a];
                                assert(keys@[j] != keys@[i as int]);
                            }
                        }
                        assert forall|j: int|
                            0 <= j < i + 1 && votes@[keys@[j]].label@ == label@ implies backers@.contains(
                            #[trigger] keys@[j],
                        ) by {
                            if j < i {
                                let k = choose|k: int| 0 <= k < before.len() && before[k] == keys@[j];
                                assert(backers@[k] == keys@[j]);
                            } else {
                                assert(backers@[before.len() as int] == keys@[j]);
                            }
                        }
                    }
                }
            },
            None => {},
        }
        i += 1;
    }
    proof {
        let wanted = supporters(vote_views(votes@), label@);
        assert forall|user: u64| backers@.to_set().contains(user) <==> wanted.contains(user) by {
            if backers@.to_set().contains(user) {
                let k = choose|k: int| 0 <= k < backers@.len() && backers@[k] == user;
                assert(votes@.contains_key(backers@[k]));
            }
            if wanted.contains(user) {
                let j = choose|j: int| 0 <= j < keys@.len() && keys@[j] == user;
                assert(backers@.contains(keys@[j]));
            }
        }
        backers@.unique_seq_to_set();
    }
    backers
}

/// The label with the most votes, with the actors who voted for it; `None`
/// where nobody has voted. Where several labels share the lead, the map's
/// order decides between them.
pub(crate) fn leading_candidate(votes: &HashMap<u64, AuctionVote>) -> (lead: Option<(String, Vec<u64>)>)
    ensures
        match lead {
            Some((candidate, backers)) => {
                &&& backers@.no_duplicates()
                &&& backers@.to_set() == supporters(vote_views(votes@), candidate@)
                &&& backers@.len() > 0
                &&& forall|other: Seq<char>|
                    (#[trigger] supporters(vote_views(votes@), other)).len() <= backers@.len()
            },
            None => votes@.dom() =~= Set::<u64>::empty(),
        },
{
    broadcast use vstd::std_specs::hash::group_hash_axioms;

    let keys = key_list(votes);
    let mut lead: Option<(String, Vec<u64>)> = None;
    let mut i: usize = 0;
    while i < keys.len()
        invariant
            0 <= i <= keys@.len(),
            keys@.no_duplicates(),
            keys@.to_set() == votes@.dom(),
            match lead {
                Some((candidate, backers)) => {
                    &&& backers@.no_duplicates()
                    &&& backers@.to_set() == supporters(vote_views(votes@), candidate@)
                    &&& backers@.len() == supporters(vote_views(votes@), candidate@).len()
                    &&& backers@.len() > 0
                    &&& forall|j: int|
                        0 <= j < i ==> (#[trigger] supporters(
                            vote_views(votes@),
                            votes@[keys@[j]].label@,
                        )).len() <= backers@.len()
                },
                None => i == 0,
            },
        decreases keys@.len() - i,
    {
        let user_id = keys[i];
        match votes.get(&user_id) {
            Some(vote) => {
                let backers = supporters_of(votes, &keys, &vote.label);
                proof {
                    assert(backers@.to_set().contains(user_id));
                }
                let better = match &lead {
                    Some((_, best)) => backers.len() > best.len(),
                    None => true,
                };
                if better {
                    lead = Some((vote.label.clone(), backers));
                }
            },
            None => {},
        }
        i += 1;
    }
    proof {
        match &lead {
            Some((candidate, backers)) => {
                assert forall|other: Seq<char>|
                    (#[trigger] supporters(vote_views(votes@), other)).len() <= backers@.len() by {
                    let backing = supporters(vote_views(votes@), other);
                    if exists|user: u64| backing.contains(user) {
                        let user = choose|user: u64| backing.contains(user);
                        assert(keys@.to_set().contains(user));
                        let j = choose|j: int| 0 <= j < keys@.len() && keys@[j] == user;
                        assert(votes@[keys@[j]].label@ == other);
                    } else {
                        assert(backing =~= Set::<u64>::empty());
                    }
                }
            },
            None => {},
        }
    }
    lead
}

} // verus!
