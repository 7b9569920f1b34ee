//! What holds of the auction contract across its endpoints.
use vstd::prelude::*;

use crate::address::zero_address_view;
use crate::auction::{
    after_bid, auction_at, bid_error, cancel_error, closed, create_error, created_auction,
    finalizable, finalize_error, finalize_transfer, has_standing_bid, house_bid_error,
    house_cancel_error, house_finalize_error, is_open, open_ids, refund_of, sale_succeeds,
    listing_token, time_remaining, AuctionError, AuctionInfoView, TransferView,
};
use crate::token::egld_view;

verus! {

// ---------------------------------------------------------------------------------------------
// Escrow
// ---------------------------------------------------------------------------------------------

/// What the contract holds for auction `a`: the standing bid while the auction is active.
pub open spec fn escrow(a: AuctionInfoView) -> nat {
    if a.is_active && has_standing_bid(a) {
        a.current_highest_bid
    } else {
        0
    }
}

/// What the contract holds of token `t` over all auctions.
pub open spec fn escrow_in(s: Seq<AuctionInfoView>, t: Seq<u8>) -> nat
    decreases s.len(),
{
    if s.len() == 0 {
        0
    } else {
        escrow_in(s.drop_last(), t) + if s.last().token_id == t {
            escrow(s.last())
        } else {
            0
        }
    }
}

/// The amount of token `t` that a payment carries.
pub open spec fn paid(p: Option<TransferView>, t: Seq<u8>) -> nat {
    match p {
        Some(x) => if x.token == t {
            x.amount
        } else {
            0
        },
        None => 0,
    }
}

proof fn lemma_escrow_in_update(s: Seq<AuctionInfoView>, i: int, x: AuctionInfoView, t: Seq<u8>)
    requires
        0 <= i < s.len(),
    ensures
        escrow_in(s.update(i, x), t) + (if s[i].token_id == t {
            escrow(s[i])
        } else {
            0
        }) == escrow_in(s, t) + (if x.token_id == t {
            escrow(x)
        } else {
            0
        }),
    decreases s.len(),
{
    let u = s.update(i, x);
    if i == s.len() - 1 {
        assert(u.drop_last() =~= s.drop_last());
    } else {
        lemma_escrow_in_update(s.drop_last(), i, x, t);
        assert(u.drop_last() =~= s.drop_last().update(i, x));
    }
}

/// Listing an item moves no money: the contract holds the same amount of every token.
pub proof fn law_create_keeps_escrow(
    s: Seq<AuctionInfoView>,
    owner: Seq<u8>,
    item_name: Seq<u8>,
    item_description: Seq<u8>,
    minimum_bid: nat,
    end_timestamp: u64,
    token_id: Seq<u8>,
    t: Seq<u8>,
)
    ensures
        escrow_in(
            s.push(
                created_auction(
                    owner,
                    item_name,
                    item_description,
                    minimum_bid,
                    end_timestamp,
                    token_id,
                ),
            ),
            t,
        ) == escrow_in(s, t),
{
    let a = created_auction(owner, item_name, item_description, minimum_bid, end_timestamp, token_id);
    assert(s.push(a).drop_last() =~= s);
}

/// An accepted bid from a bidder other than the zero address keeps the books balanced:
/// for every token, what the contract held plus the payment it received equals
/// what it holds afterwards plus the refund it sent.
pub proof fn law_bid_keeps_escrow(
    s: Seq<AuctionInfoView>,
    id: u64,
    caller: Seq<u8>,
    now: u64,
    token: Seq<u8>,
    amount: nat,
    t: Seq<u8>,
)
    requires
        house_bid_error(s, id, caller, now, token, amount) is None,
        caller != zero_address_view(),
    ensures
        escrow_in(s.update(id as int, after_bid(s[id as int], caller, amount)), t) + paid(
            refund_of(s[id as int]),
            t,
        ) == escrow_in(s, t) + (if token == t {
            amount
        } else {
            0
        }),
{
    let a = s[id as int];
    lemma_escrow_in_update(s, id as int, after_bid(a, caller, amount), t);
}

/// Finalizing pays out exactly what the contract held for the auction.
pub proof fn law_finalize_keeps_escrow(s: Seq<AuctionInfoView>, id: u64, now: u64, t: Seq<u8>)
    requires
        house_finalize_error(s, id, now) is None,
    ensures
        escrow_in(s.update(id as int, closed(s[id as int])), t) + paid(
            finalize_transfer(s[id as int]),
            t,
        ) == escrow_in(s, t),
{
    let a = s[id as int];
    lemma_escrow_in_update(s, id as int, closed(a), t);
}

/// Cancelling pays out exactly what the contract held for the auction.
pub proof fn law_cancel_keeps_escrow(
    s: Seq<AuctionInfoView>,
    id: u64,
    caller: Seq<u8>,
    now: u64,
    t: Seq<u8>,
)
    requires
        house_cancel_error(s, id, caller, now) is None,
    ensures
        escrow_in(s.update(id as int, closed(s[id as int])), t) + paid(refund_of(s[id as int]), t)
            == escrow_in(s, t),
{
    let a = s[id as int];
    lemma_escrow_in_update(s, id as int, closed(a), t);
}

// ---------------------------------------------------------------------------------------------
// Bids, closing and the fixed terms of an auction
// ---------------------------------------------------------------------------------------------

/// An accepted bid is above the previous highest bid and at least the minimum bid.
pub proof fn law_bid_raises_highest_bid(
    s: Seq<AuctionInfoView>,
    id: u64,
    caller: Seq<u8>,
    now: u64,
    token: Seq<u8>,
    amount: nat,
)
    requires
        house_bid_error(s, id, caller, now, token, amount) is None,
    ensures
        after_bid(s[id as int], caller, amount).current_highest_bid > s[id as int].current_highest_bid,
        after_bid(s[id as int], caller, amount).current_highest_bid >= s[id as int].minimum_bid,
        after_bid(s[id as int], caller, amount).highest_bidder == caller,
        caller != s[id as int].owner,
        token == s[id as int].token_id,
        now < s[id as int].end_timestamp,
{
}

/// Whether two auctions agree on what the seller fixed at listing time.
pub open spec fn same_terms(a: AuctionInfoView, b: AuctionInfoView) -> bool {
    &&& a.owner == b.owner
    &&& a.item_name == b.item_name
    &&& a.item_description == b.item_description
    &&& a.minimum_bid == b.minimum_bid
    &&& a.end_timestamp == b.end_timestamp
    &&& a.token_id == b.token_id
}

/// Bidding and closing never change the owner, item, minimum bid, deadline or token.
pub proof fn law_terms_are_fixed(a: AuctionInfoView, bidder: Seq<u8>, amount: nat)
    ensures
        same_terms(a, after_bid(a, bidder, amount)),
        same_terms(a, closed(a)),
        !closed(a).is_active,
{
}

/// A closed auction refuses every further bid, finalization and cancellation,
/// so it never changes again.
pub proof fn law_closed_is_final(
    a: AuctionInfoView,
    caller: Seq<u8>,
    now: u64,
    token: Seq<u8>,
    amount: nat,
)
    requires
        !a.is_active,
    ensures
        bid_error(a, caller, now, token, amount) == Some(AuctionError::NotActive),
        finalize_error(a, now) == Some(AuctionError::AlreadyFinalized),
        cancel_error(a, caller, now) == Some(AuctionError::AlreadyFinalized),
{
}

/// On a sale the seller receives the whole highest bid; otherwise the bidder, if any, gets it back.
pub proof fn law_finalize_pays_seller_or_bidder(a: AuctionInfoView)
    ensures
        sale_succeeds(a) ==> finalize_transfer(a) == Some(
            TransferView { to: a.owner, token: a.token_id, amount: a.current_highest_bid },
        ),
        !sale_succeeds(a) && has_standing_bid(a) ==> finalize_transfer(a) == Some(
            TransferView {
                to: a.highest_bidder,
                token: a.token_id,
                amount: a.current_highest_bid,
            },
        ),
        !sale_succeeds(a) && !has_standing_bid(a) ==> finalize_transfer(a) is None,
{
}

// ---------------------------------------------------------------------------------------------
// Views against endpoints
// ---------------------------------------------------------------------------------------------

/// `can_finalize` answers true exactly when `finalize_auction` would succeed.
pub proof fn law_can_finalize_iff_finalize_succeeds(s: Seq<AuctionInfoView>, id: u64, now: u64)
    ensures
        finalizable(s, id, now) <==> house_finalize_error(s, id, now) is None,
{
}

/// An auction has time left exactly while it takes bids; while it takes bids its deadline is
/// `now` plus the time left; an active auction with no time left can be finalized.
pub proof fn law_time_remaining(a: AuctionInfoView, now: u64)
    ensures
        time_remaining(a, now) > 0 <==> is_open(a, now),
        is_open(a, now) ==> a.end_timestamp == now + time_remaining(a, now),
        a.is_active ==> (time_remaining(a, now) == 0 <==> finalize_error(a, now) is None),
{
}

/// The active-auction listing holds exactly the ids of the auctions that take bids,
/// each once, in increasing order.
pub proof fn law_active_auctions_listing(s: Seq<AuctionInfoView>, now: u64, n: nat)
    requires
        n <= s.len(),
        s.len() <= u64::MAX,
    ensures
        forall|id: u64| #[trigger]
            open_ids(s, now, n).contains(id) <==> (id < n && is_open(s[id as int], now)),
        forall|i: int, j: int|
            0 <= i < j < open_ids(s, now, n).len() ==> open_ids(s, now, n)[i] < open_ids(
                s,
                now,
                n,
            )[j],
        forall|i: int| 0 <= i < open_ids(s, now, n).len() ==> open_ids(s, now, n)[i] < n,
    decreases n,
{
    if n > 0 {
        law_active_auctions_listing(s, now, (n - 1) as nat);
        let prev = open_ids(s, now, (n - 1) as nat);
        if is_open(s[n - 1], now) {
            let cur = open_ids(s, now, n);
            assert(cur == prev.push((n - 1) as u64));
            assert forall|id: u64| #[trigger]
                cur.contains(id) <==> (id < n && is_open(s[id as int], now)) by {
                if id < n && is_open(s[id as int], now) {
                    if id == n - 1 {
                        assert(cur[prev.len() as int] == id);
                    } else {
                        assert(prev.contains(id));
                        let k = choose|k: int| 0 <= k < prev.len() && prev[k] == id;
                        assert(cur[k] == id);
                    }
                }
                if cur.contains(id) {
                    let k = choose|k: int| 0 <= k < cur.len() && cur[k] == id;
                    if k < prev.len() {
                        assert(prev[k] == id);
                        assert(prev.contains(id));
                    }
                }
            }
        }
    }
}

/// A new listing is stored under an id that held nothing before (the next one), reads back with
/// its terms, no bid, active, its deadline `now + duration` and its token (EGLD when none is given),
/// and leaves every other id as it was; a second listing right after gets the following id.
pub proof fn law_create_then_get(
    s: Seq<AuctionInfoView>,
    owner: Seq<u8>,
    item_name: Seq<u8>,
    item_description: Seq<u8>,
    minimum_bid: nat,
    now: u64,
    duration: u64,
    opt_token_id: Option<Seq<u8>>,
    other: u64,
    next: AuctionInfoView,
)
    requires
        s.len() + 1 < u64::MAX,
        now + duration <= u64::MAX,
        other != s.len(),
    ensures
        ({
            let a = created_auction(
                owner,
                item_name,
                item_description,
                minimum_bid,
                (now + duration) as u64,
                listing_token(opt_token_id),
            );
            &&& auction_at(s, s.len() as u64) is None
            &&& auction_at(s.push(a), s.len() as u64) == Some(a)
            &&& a.owner == owner
            &&& a.item_name == item_name
            &&& a.item_description == item_description
            &&& a.minimum_bid == minimum_bid
            &&& a.current_highest_bid == 0
            &&& a.highest_bidder == zero_address_view()
            &&& a.end_timestamp == now + duration
            &&& a.is_active
            &&& a.token_id == (match opt_token_id {
                Some(t) => t,
                None => egld_view(),
            })
            &&& auction_at(s.push(a), other) == auction_at(s, other)
            &&& s.push(a).len() == s.len() + 1
            &&& auction_at(s.push(a).push(next), (s.len() + 1) as u64) == Some(next)
            &&& auction_at(s.push(a).push(next), s.len() as u64) == Some(a)
        }),
{
}

/// Once its deadline has passed, an active auction can no longer be cancelled, so its highest
/// bid stays in escrow for `finalize_auction`; a successful cancellation happens before the deadline.
pub proof fn law_no_cancel_after_deadline(a: AuctionInfoView, caller: Seq<u8>, now: u64)
    ensures
        a.is_active && caller == a.owner && now >= a.end_timestamp ==> cancel_error(a, caller, now)
            == Some(AuctionError::AuctionEnded),
        cancel_error(a, caller, now) is None ==> a.is_active && caller == a.owner && now
            < a.end_timestamp,
{
}

// ---------------------------------------------------------------------------------------------
// The life of one auction
// ---------------------------------------------------------------------------------------------

/// A bid: who places it, when, and how much.
pub ghost struct BidView {
    pub bidder: Seq<u8>,
    pub time: u64,
    pub amount: nat,
}

/// The auction after the bids `bids`, taken in order.
pub open spec fn after_bids(a: AuctionInfoView, bids: Seq<BidView>) -> AuctionInfoView
    decreases bids.len(),
{
    if bids.len() == 0 {
        a
    } else {
        after_bid(after_bids(a, bids.drop_last()), bids.last().bidder, bids.last().amount)
    }
}

/// The refunds that the bids `bids` trigger, in order.
pub open spec fn refunds_of_bids(a: AuctionInfoView, bids: Seq<BidView>) -> Seq<TransferView>
    decreases bids.len(),
{
    if bids.len() == 0 {
        Seq::empty()
    } else {
        let prev = after_bids(a, bids.drop_last());
        refunds_of_bids(a, bids.drop_last()) + match refund_of(prev) {
            Some(t) => seq![t],
            None => Seq::empty(),
        }
    }
}

/// Every bid of `bids` is accepted in turn, paid in the auction's token.
pub open spec fn all_accepted(a: AuctionInfoView, bids: Seq<BidView>) -> bool {
    forall|i: int|
        0 <= i < bids.len() ==> bid_error(
            after_bids(a, bids.take(i)),
            (#[trigger] bids[i]).bidder,
            bids[i].time,
            a.token_id,
            bids[i].amount,
        ) is None
}

proof fn lemma_bids_run(a: AuctionInfoView, bids: Seq<BidView>)
    requires
        a.current_highest_bid == 0,
        a.highest_bidder == zero_address_view(),
        all_accepted(a, bids),
        forall|i: int| 0 <= i < bids.len() ==> (#[trigger] bids[i]).bidder != zero_address_view(),
    ensures
        same_terms(a, after_bids(a, bids)),
        after_bids(a, bids).is_active == a.is_active,
        bids.len() == 0 ==> after_bids(a, bids) == a,
        bids.len() > 0 ==> after_bids(a, bids).current_highest_bid == bids.last().amount,
        bids.len() > 0 ==> after_bids(a, bids).highest_bidder == bids.last().bidder,
        bids.len() > 0 ==> bids.last().amount > 0,
        bids.len() > 0 ==> bids.last().amount >= a.minimum_bid,
        refunds_of_bids(a, bids).len() == if bids.len() == 0 {
            0
        } else {
            bids.len() - 1
        },
        forall|i: int|
            0 <= i < refunds_of_bids(a, bids).len() ==> #[trigger] refunds_of_bids(a, bids)[i]
                == (TransferView { to: bids[i].bidder, token: a.token_id, amount: bids[i].amount }),
    decreases bids.len(),
{
    if bids.len() > 0 {
        let prev_bids = bids.drop_last();
        let n = bids.len() - 1;
        assert forall|i: int| 0 <= i < prev_bids.len() implies bid_error(
            after_bids(a, prev_bids.take(i)),
            (#[trigger] prev_bids[i]).bidder,
            prev_bids[i].time,
            a.token_id,
            prev_bids[i].amount,
        ) is None by {
            assert(prev_bids.take(i) =~= bids.take(i));
            assert(bids[i] == prev_bids[i]);
        }
        assert forall|i: int| 0 <= i < prev_bids.len() implies (#[trigger] prev_bids[i]).bidder
            != zero_address_view() by {
            assert(bids[i] == prev_bids[i]);
        }
        lemma_bids_run(a, prev_bids);
        assert(bids.take(n) =~= prev_bids);
        assert(bids[n] == bids.last());
        let prev = after_bids(a, prev_bids);
        assert(bid_error(prev, bids[n].bidder, bids[n].time, a.token_id, bids[n].amount) is None);
        let r = refunds_of_bids(a, bids);
        if n > 0 {
            assert(prev_bids.last() == bids[n - 1]);
            assert(has_standing_bid(prev));
            assert forall|i: int| 0 <= i < r.len() implies #[trigger] r[i] == (TransferView {
                to: bids[i].bidder,
                token: a.token_id,
                amount: bids[i].amount,
            }) by {
                if i < n - 1 {
                    assert(r[i] == refunds_of_bids(a, prev_bids)[i]);
                    assert(prev_bids[i] == bids[i]);
                }
            }
        } else {
            assert(prev == a);
            assert(!has_standing_bid(prev));
        }
    }
}

/// Over the whole life of an auction that is listed, takes accepted bids from bidders other than the
/// zero address, and is then finalized: every outbid bid is refunded once, to its bidder and in
/// order, and the last bid goes to the seller; with no bid, nothing is paid.
pub proof fn law_auction_lifetime_payouts(a: AuctionInfoView, bids: Seq<BidView>, now: u64)
    requires
        a.current_highest_bid == 0,
        a.highest_bidder == zero_address_view(),
        all_accepted(a, bids),
        forall|i: int| 0 <= i < bids.len() ==> (#[trigger] bids[i]).bidder != zero_address_view(),
        finalize_error(after_bids(a, bids), now) is None,
    ensures
        refunds_of_bids(a, bids).len() == if bids.len() == 0 {
            0
        } else {
            bids.len() - 1
        },
        forall|i: int|
            0 <= i < refunds_of_bids(a, bids).len() ==> #[trigger] refunds_of_bids(a, bids)[i]
                == (TransferView { to: bids[i].bidder, token: a.token_id, amount: bids[i].amount }),
        bids.len() > 0 ==> finalize_transfer(after_bids(a, bids)) == Some(
            TransferView { to: a.owner, token: a.token_id, amount: bids.last().amount },
        ),
        bids.len() == 0 ==> finalize_transfer(after_bids(a, bids)) is None,
{
    lemma_bids_run(a, bids);
}

// ---------------------------------------------------------------------------------------------
// Well-formed storage
// ---------------------------------------------------------------------------------------------

/// What every stored auction satisfies: a named item, a positive minimum bid,
/// a highest bid that is zero or at least the minimum, and a standing bidder other than the owner.
pub open spec fn auction_wf(a: AuctionInfoView) -> bool {
    &&& a.item_name.len() > 0
    &&& a.minimum_bid > 0
    &&& (a.current_highest_bid == 0 || a.current_highest_bid >= a.minimum_bid)
    &&& (has_standing_bid(a) ==> a.highest_bidder != a.owner)
}

pub open spec fn storage_wf(s: Seq<AuctionInfoView>) -> bool {
    forall|i: int| 0 <= i < s.len() ==> auction_wf(#[trigger] s[i])
}

/// Every accepted listing, bid, finalization and cancellation keeps storage well formed.
pub proof fn law_endpoints_keep_storage_wf(
    s: Seq<AuctionInfoView>,
    id: u64,
    caller: Seq<u8>,
    now: u64,
    token: Seq<u8>,
    amount: nat,
    item_name: Seq<u8>,
    item_description: Seq<u8>,
    minimum_bid: nat,
    duration: u64,
)
    requires
        storage_wf(s),
    ensures
        create_error(item_name, minimum_bid, duration) is None && now + duration <= u64::MAX
            ==> storage_wf(
            s.push(
                created_auction(
                    caller,
                    item_name,
                    item_description,
                    minimum_bid,
                    (now + duration) as u64,
                    token,
                ),
            ),
        ),
        house_bid_error(s, id, caller, now, token, amount) is None ==> storage_wf(
            s.update(id as int, after_bid(s[id as int], caller, amount)),
        ),
        house_finalize_error(s, id, now) is None ==> storage_wf(
            s.update(id as int, closed(s[id as int])),
        ),
        house_cancel_error(s, id, caller, now) is None ==> storage_wf(
            s.update(id as int, closed(s[id as int])),
        ),
{
    let a = created_auction(caller, item_name, item_description, minimum_bid, (now + duration) as u64, token);
    if create_error(item_name, minimum_bid, duration) is None {
        assert(!has_standing_bid(a));
        assert forall|i: int| 0 <= i < s.push(a).len() implies auction_wf(#[trigger] s.push(a)[i]) by {
            if i < s.len() {
                assert(s.push(a)[i] == s[i]);
            }
        }
    }
    if id < s.len() {
        assert(auction_wf(s[id as int]));
    }
}

/// What every stored auction satisfies while no one bids from the zero address: a zero bidder
/// goes with a zero bid, and a real bidder's bid reaches the minimum and is not the owner's.
pub open spec fn bid_consistent(a: AuctionInfoView) -> bool {
    &&& (a.highest_bidder == zero_address_view() <==> a.current_highest_bid == 0)
    &&& (a.highest_bidder != zero_address_view() ==> a.current_highest_bid >= a.minimum_bid
        && a.highest_bidder != a.owner)
}

pub open spec fn bids_consistent(s: Seq<AuctionInfoView>) -> bool {
    forall|i: int| 0 <= i < s.len() ==> bid_consistent(#[trigger] s[i])
}

/// As long as no caller is the zero address, every endpoint keeps all auctions bid-consistent;
/// a refused call leaves storage as it was, so it keeps them too.
pub proof fn law_endpoints_keep_bids_consistent(
    s: Seq<AuctionInfoView>,
    id: u64,
    caller: Seq<u8>,
    now: u64,
    token: Seq<u8>,
    amount: nat,
    item_name: Seq<u8>,
    item_description: Seq<u8>,
    minimum_bid: nat,
    end_timestamp: u64,
)
    requires
        bids_consistent(s),
        caller != zero_address_view(),
    ensures
        bids_consistent(
            s.push(
                created_auction(
                    caller,
                    item_name,
                    item_description,
                    minimum_bid,
                    end_timestamp,
                    token,
                ),
            ),
        ),
        house_bid_error(s, id, caller, now, token, amount) is None ==> bids_consistent(
            s.update(id as int, after_bid(s[id as int], caller, amount)),
        ),
        house_finalize_error(s, id, now) is None ==> bids_consistent(
            s.update(id as int, closed(s[id as int])),
        ),
        house_cancel_error(s, id, caller, now) is None ==> bids_consistent(
            s.update(id as int, closed(s[id as int])),
        ),
{
    let a = created_auction(caller, item_name, item_description, minimum_bid, end_timestamp, token);
    assert forall|i: int| 0 <= i < s.push(a).len() implies bid_consistent(#[trigger] s.push(a)[i]) by {
        if i < s.len() {
            assert(s.push(a)[i] == s[i]);
        }
    }
    if id < s.len() {
        assert(bid_consistent(s[id as int]));
    }
}

// ---------------------------------------------------------------------------------------------
// When an endpoint is owed success, and what closing leaves behind
// ---------------------------------------------------------------------------------------------

/// Closing an auction (finalizing or cancelling) only marks it inactive: the winner, the winning
/// bid and every term stay recorded as they were.
pub proof fn law_closing_keeps_the_record(a: AuctionInfoView)
    ensures
        !closed(a).is_active,
        closed(a).highest_bidder == a.highest_bidder,
        closed(a).current_highest_bid == a.current_highest_bid,
        closed(a).owner == a.owner,
        closed(a).item_name == a.item_name,
        closed(a).item_description == a.item_description,
        closed(a).minimum_bid == a.minimum_bid,
        closed(a).end_timestamp == a.end_timestamp,
        closed(a).token_id == a.token_id,
{
}

/// A bid is accepted whenever the auction exists and is active, the deadline is ahead, the bidder
/// is not the owner, the payment is in the auction's own token (EGLD or any ESDT), and the amount
/// reaches the minimum and exceeds the highest bid; the new highest bid is then this one.
pub proof fn law_valid_bid_is_accepted(
    s: Seq<AuctionInfoView>,
    id: u64,
    caller: Seq<u8>,
    now: u64,
    token: Seq<u8>,
    amount: nat,
)
    requires
        id < s.len(),
        s[id as int].is_active,
        now < s[id as int].end_timestamp,
        caller != s[id as int].owner,
        token == s[id as int].token_id,
        amount >= s[id as int].minimum_bid,
        amount > s[id as int].current_highest_bid,
    ensures
        house_bid_error(s, id, caller, now, token, amount) is None,
        after_bid(s[id as int], caller, amount).current_highest_bid == amount,
        after_bid(s[id as int], caller, amount).highest_bidder == caller,
        after_bid(s[id as int], caller, amount).is_active,
{
}

/// The owner of an existing, active auction can always cancel it before its deadline,
/// whatever its token and whether or not a bid stands.
pub proof fn law_owner_can_cancel_before_deadline(
    s: Seq<AuctionInfoView>,
    id: u64,
    caller: Seq<u8>,
    now: u64,
)
    requires
        id < s.len(),
        s[id as int].is_active,
        caller == s[id as int].owner,
        now < s[id as int].end_timestamp,
    ensures
        house_cancel_error(s, id, caller, now) is None,
{
}

/// An existing, active auction can always be finalized once its deadline is reached.
pub proof fn law_finalize_after_deadline_succeeds(s: Seq<AuctionInfoView>, id: u64, now: u64)
    requires
        id < s.len(),
        s[id as int].is_active,
        now >= s[id as int].end_timestamp,
    ensures
        house_finalize_error(s, id, now) is None,
{
}

/// A listing with a named item, a positive minimum bid of any size and a positive duration
/// is accepted.
pub proof fn law_valid_listing_is_accepted(item_name: Seq<u8>, minimum_bid: nat, duration: u64)
    requires
        item_name.len() > 0,
        minimum_bid > 0,
        duration > 0,
    ensures
        create_error(item_name, minimum_bid, duration) is None,
{
}

/// Only active auctions take bids: a closed auction has no time left and is never listed among
/// the active ones, whatever bid stood on it; an active one before its deadline is listed and has
/// exactly the seconds up to its deadline left.
pub proof fn law_only_active_auctions_are_open(s: Seq<AuctionInfoView>, now: u64, id: u64)
    requires
        id < s.len(),
        s.len() <= u64::MAX,
    ensures
        is_open(s[id as int], now) ==> s[id as int].is_active && now < s[id as int].end_timestamp,
        !s[id as int].is_active ==> time_remaining(s[id as int], now) == 0 && !open_ids(
            s,
            now,
            s.len(),
        ).contains(id),
        s[id as int].is_active && now < s[id as int].end_timestamp ==> open_ids(
            s,
            now,
            s.len(),
        ).contains(id) && time_remaining(s[id as int], now) == s[id as int].end_timestamp - now,
{
    law_active_auctions_listing(s, now, s.len());
}

} // verus!
