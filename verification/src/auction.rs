//! The auction contract: sellers list an item with a minimum bid and a deadline,
//! others outbid each other, and the highest bid is paid to the seller once the deadline passes.
use vstd::prelude::*;

use crate::address::{zero_address_view, Address};
use crate::amount::Amount;
use crate::token::{copy_bytes, TokenId};

verus! {

// ---------------------------------------------------------------------------------------------
// Data
// ---------------------------------------------------------------------------------------------

/// Why an endpoint refused a request; the transaction then changes nothing.
#[derive(Clone, Copy, Debug, PartialEq, Eq, Structural)]
pub enum AuctionError {
    ItemNameEmpty,
    MinimumBidZero,
    DurationZero,
    AuctionNotFound,
    NotActive,
    AuctionEnded,
    OwnerCannotBid,
    InvalidPaymentToken,
    BidBelowMinimum,
    BidNotHigher,
    AlreadyFinalized,
    NotEndedYet,
    OnlyOwnerCanCancel,
}

impl AuctionError {
    /// The message with which the contract signals the error.
    pub fn message(&self) -> (r: &'static str)
        ensures
            r@ == error_message(*self),
    {
        match self {
            AuctionError::ItemNameEmpty => "Item name cannot be empty",
            AuctionError::MinimumBidZero => "Minimum bid must be greater than zero",
            AuctionError::DurationZero => "Duration must be greater than zero",
            AuctionError::AuctionNotFound => "Auction does not exist",
            AuctionError::NotActive => "Auction is not active",
            AuctionError::AuctionEnded => "Auction has ended",
            AuctionError::OwnerCannotBid => "Owner cannot bid on their own auction",
            AuctionError::InvalidPaymentToken => "Invalid payment token",
            AuctionError::BidBelowMinimum => "Bid must be at least the minimum bid amount",
            AuctionError::BidNotHigher => "Bid must be higher than current highest bid",
            AuctionError::AlreadyFinalized => "Auction is already finalized",
            AuctionError::NotEndedYet => "Auction has not ended yet",
            AuctionError::OnlyOwnerCanCancel => "Only auction owner can cancel",
        }
    }
}

/// The text of each error.
pub open spec fn error_message(e: AuctionError) -> Seq<char> {
    match e {
        AuctionError::ItemNameEmpty => "Item name cannot be empty"@,
        AuctionError::MinimumBidZero => "Minimum bid must be greater than zero"@,
        AuctionError::DurationZero => "Duration must be greater than zero"@,
        AuctionError::AuctionNotFound => "Auction does not exist"@,
        AuctionError::NotActive => "Auction is not active"@,
        AuctionError::AuctionEnded => "Auction has ended"@,
        AuctionError::OwnerCannotBid => "Owner cannot bid on their own auction"@,
        AuctionError::InvalidPaymentToken => "Invalid payment token"@,
        AuctionError::BidBelowMinimum => "Bid must be at least the minimum bid amount"@,
        AuctionError::BidNotHigher => "Bid must be higher than current highest bid"@,
        AuctionError::AlreadyFinalized => "Auction is already finalized"@,
        AuctionError::NotEndedYet => "Auction has not ended yet"@,
        AuctionError::OnlyOwnerCanCancel => "Only auction owner can cancel"@,
    }
}

/// One auction, as the contract stores it.
#[derive(Debug, PartialEq, Eq)]
pub struct AuctionInfo {
    pub owner: Address,
    pub item_name: Vec<u8>,
    pub item_description: Vec<u8>,
    pub minimum_bid: Amount,
    pub current_highest_bid: Amount,
    pub highest_bidder: Address,
    pub end_timestamp: u64,
    pub is_active: bool,
    pub token_id: TokenId,
}

/// The mathematical content of an auction.
pub ghost struct AuctionInfoView {
    pub owner: Seq<u8>,
    pub item_name: Seq<u8>,
    pub item_description: Seq<u8>,
    pub minimum_bid: nat,
    pub current_highest_bid: nat,
    pub highest_bidder: Seq<u8>,
    pub end_timestamp: u64,
    pub is_active: bool,
    pub token_id: Seq<u8>,
}

impl View for AuctionInfo {
    type V = AuctionInfoView;

    open spec fn view(&self) -> AuctionInfoView {
        AuctionInfoView {
            owner: self.owner@,
            item_name: self.item_name@,
            item_description: self.item_description@,
            minimum_bid: self.minimum_bid@,
            current_highest_bid: self.current_highest_bid@,
            highest_bidder: self.highest_bidder@,
            end_timestamp: self.end_timestamp,
            is_active: self.is_active,
            token_id: self.token_id@,
        }
    }
}

/// A payment that the contract sends out.
#[derive(Debug, PartialEq, Eq)]
pub struct Transfer {
    pub to: Address,
    pub token: TokenId,
    pub amount: Amount,
}

pub ghost struct TransferView {
    pub to: Seq<u8>,
    pub token: Seq<u8>,
    pub amount: nat,
}

impl View for Transfer {
    type V = TransferView;

    open spec fn view(&self) -> TransferView {
        TransferView { to: self.to@, token: self.token@, amount: self.amount@ }
    }
}

/// A log entry that the contract emits.
#[derive(Debug, PartialEq, Eq)]
pub enum AuctionEvent {
    AuctionCreated {
        auction_id: u64,
        owner: Address,
        item_name: Vec<u8>,
        minimum_bid: Amount,
        end_timestamp: u64,
        token_id: TokenId,
    },
    BidPlaced { auction_id: u64, bidder: Address, bid_amount: Amount },
    AuctionFinalized { auction_id: u64, winner: Address, winning_bid: Amount, successful: bool },
    AuctionCancelled { auction_id: u64 },
}

pub ghost enum AuctionEventView {
    AuctionCreated {
        auction_id: u64,
        owner: Seq<u8>,
        item_name: Seq<u8>,
        minimum_bid: nat,
        end_timestamp: u64,
        token_id: Seq<u8>,
    },
    BidPlaced { auction_id: u64, bidder: Seq<u8>, bid_amount: nat },
    AuctionFinalized { auction_id: u64, winner: Seq<u8>, winning_bid: nat, successful: bool },
    AuctionCancelled { auction_id: u64 },
}

impl View for AuctionEvent {
    type V = AuctionEventView;

    open spec fn view(&self) -> AuctionEventView {
        match self {
            AuctionEvent::AuctionCreated {
                auction_id,
                owner,
                item_name,
                minimum_bid,
                end_timestamp,
                token_id,
            } => AuctionEventView::AuctionCreated {
                auction_id: *auction_id,
                owner: owner@,
                item_name: item_name@,
                minimum_bid: minimum_bid@,
                end_timestamp: *end_timestamp,
                token_id: token_id@,
            },
            AuctionEvent::BidPlaced { auction_id, bidder, bid_amount } =>
                AuctionEventView::BidPlaced {
                auction_id: *auction_id,
                bidder: bidder@,
                bid_amount: bid_amount@,
            },
            AuctionEvent::AuctionFinalized { auction_id, winner, winning_bid, successful } =>
                AuctionEventView::AuctionFinalized {
                auction_id: *auction_id,
                winner: winner@,
                winning_bid: winning_bid@,
                successful: *successful,
            },
            AuctionEvent::AuctionCancelled { auction_id } => AuctionEventView::AuctionCancelled {
                auction_id: *auction_id,
            },
        }
    }
}

/// What a successful state-changing endpoint does besides updating storage:
/// at most one payment out of the contract, and one event.
#[derive(Debug, PartialEq, Eq)]
pub struct Effects {
    pub transfer: Option<Transfer>,
    pub event: AuctionEvent,
}

pub ghost struct EffectsView {
    pub transfer: Option<TransferView>,
    pub event: AuctionEventView,
}

impl View for Effects {
    type V = EffectsView;

    open spec fn view(&self) -> EffectsView {
        EffectsView {
            transfer: match self.transfer {
                Some(t) => Some(t@),
                None => None,
            },
            event: self.event@,
        }
    }
}

// ---------------------------------------------------------------------------------------------
// The rules, over the mathematical model
// ---------------------------------------------------------------------------------------------

/// Whether a bid stands on the auction that must be paid back or out.
pub open spec fn has_standing_bid(a: AuctionInfoView) -> bool {
    a.current_highest_bid > 0 && a.highest_bidder != zero_address_view()
}

/// The auction that a new listing creates.
pub open spec fn created_auction(
    owner: Seq<u8>,
    item_name: Seq<u8>,
    item_description: Seq<u8>,
    minimum_bid: nat,
    end_timestamp: u64,
    token_id: Seq<u8>,
) -> AuctionInfoView {
    AuctionInfoView {
        owner,
        item_name,
        item_description,
        minimum_bid,
        current_highest_bid: 0,
        highest_bidder: zero_address_view(),
        end_timestamp,
        is_active: true,
        token_id,
    }
}

/// Why a new listing is refused, if it is.
pub open spec fn create_error(item_name: Seq<u8>, minimum_bid: nat, duration: u64) -> Option<
    AuctionError,
> {
    if item_name.len() == 0 {
        Some(AuctionError::ItemNameEmpty)
    } else if minimum_bid == 0 {
        Some(AuctionError::MinimumBidZero)
    } else if duration == 0 {
        Some(AuctionError::DurationZero)
    } else {
        None
    }
}

/// Why a bid on auction `a` is refused, if it is.
pub open spec fn bid_error(
    a: AuctionInfoView,
    caller: Seq<u8>,
    now: u64,
    token: Seq<u8>,
    amount: nat,
) -> Option<AuctionError> {
    if !a.is_active {
        Some(AuctionError::NotActive)
    } else if now >= a.end_timestamp {
        Some(AuctionError::AuctionEnded)
    } else if caller == a.owner {
        Some(AuctionError::OwnerCannotBid)
    } else if token != a.token_id {
        Some(AuctionError::InvalidPaymentToken)
    } else if amount < a.minimum_bid {
        Some(AuctionError::BidBelowMinimum)
    } else if amount <= a.current_highest_bid {
        Some(AuctionError::BidNotHigher)
    } else {
        None
    }
}

/// The auction after an accepted bid.
pub open spec fn after_bid(a: AuctionInfoView, bidder: Seq<u8>, amount: nat) -> AuctionInfoView {
    AuctionInfoView { current_highest_bid: amount, highest_bidder: bidder, ..a }
}

/// The refund of the standing bid, if there is one.
pub open spec fn refund_of(a: AuctionInfoView) -> Option<TransferView> {
    if has_standing_bid(a) {
        Some(
            TransferView {
                to: a.highest_bidder,
                token: a.token_id,
                amount: a.current_highest_bid,
            },
        )
    } else {
        None
    }
}

/// Why finalizing auction `a` at time `now` is refused, if it is.
pub open spec fn finalize_error(a: AuctionInfoView, now: u64) -> Option<AuctionError> {
    if !a.is_active {
        Some(AuctionError::AlreadyFinalized)
    } else if now < a.end_timestamp {
        Some(AuctionError::NotEndedYet)
    } else {
        None
    }
}

/// Whether finalizing sells the item: a bidder stands and the bid reaches the minimum.
pub open spec fn sale_succeeds(a: AuctionInfoView) -> bool {
    a.current_highest_bid >= a.minimum_bid && a.highest_bidder != zero_address_view()
}

/// The auction once it is closed.
pub open spec fn closed(a: AuctionInfoView) -> AuctionInfoView {
    AuctionInfoView { is_active: false, ..a }
}

/// The payment that finalizing sends: the bid to the seller on a sale, else the refund.
pub open spec fn finalize_transfer(a: AuctionInfoView) -> Option<TransferView> {
    if sale_succeeds(a) {
        Some(TransferView { to: a.owner, token: a.token_id, amount: a.current_highest_bid })
    } else {
        refund_of(a)
    }
}

/// The event that finalizing auction `id` emits.
pub open spec fn finalize_event(id: u64, a: AuctionInfoView) -> AuctionEventView {
    if sale_succeeds(a) {
        AuctionEventView::AuctionFinalized {
            auction_id: id,
            winner: a.highest_bidder,
            winning_bid: a.current_highest_bid,
            successful: true,
        }
    } else {
        AuctionEventView::AuctionFinalized {
            auction_id: id,
            winner: zero_address_view(),
            winning_bid: 0,
            successful: false,
        }
    }
}

/// Why cancelling auction `a` on behalf of `caller` at time `now` is refused, if it is:
/// only the owner may cancel, and only before the deadline.
pub open spec fn cancel_error(a: AuctionInfoView, caller: Seq<u8>, now: u64) -> Option<AuctionError> {
    if !a.is_active {
        Some(AuctionError::AlreadyFinalized)
    } else if caller != a.owner {
        Some(AuctionError::OnlyOwnerCanCancel)
    } else if now >= a.end_timestamp {
        Some(AuctionError::AuctionEnded)
    } else {
        None
    }
}

/// Whether the auction takes bids at time `now`.
pub open spec fn is_open(a: AuctionInfoView, now: u64) -> bool {
    a.is_active && now < a.end_timestamp
}

/// The seconds left before the auction ends, zero once it is closed or over.
pub open spec fn time_remaining(a: AuctionInfoView, now: u64) -> u64 {
    if !a.is_active || now >= a.end_timestamp {
        0
    } else {
        (a.end_timestamp - now) as u64
    }
}

// ---------------------------------------------------------------------------------------------
// One auction
// ---------------------------------------------------------------------------------------------

impl AuctionInfo {
    /// A copy of this auction.
    pub fn duplicate(&self) -> (r: AuctionInfo)
        ensures
            r@ == self@,
    {
        AuctionInfo {
            owner: self.owner,
            item_name: copy_bytes(&self.item_name),
            item_description: copy_bytes(&self.item_description),
            minimum_bid: self.minimum_bid.duplicate(),
            current_highest_bid: self.current_highest_bid.duplicate(),
            highest_bidder: self.highest_bidder,
            end_timestamp: self.end_timestamp,
            is_active: self.is_active,
            token_id: self.token_id.duplicate(),
        }
    }

    /// The payment that returns the standing bid to its bidder, if a bid stands.
    fn refund(&self) -> (r: Option<Transfer>)
        ensures
            transfer_view_of(r) == refund_of(self@),
    {
        if !self.current_highest_bid.is_zero() && !self.highest_bidder.is_zero() {
            Some(
                Transfer {
                    to: self.highest_bidder,
                    token: self.token_id.duplicate(),
                    amount: self.current_highest_bid.duplicate(),
                },
            )
        } else {
            None
        }
    }

    /// Takes a bid of `amount` of `token` from `caller` at time `now`.
    /// On success the bid becomes the highest one and the previous standing bid is refunded.
    pub fn place_bid(&mut self, caller: Address, now: u64, token: &TokenId, amount: Amount) -> (r:
        Result<Option<Transfer>, AuctionError>)
        ensures
            old(self).is_active && now < old(self).end_timestamp && caller@ != old(self).owner@
                && token@ == old(self).token_id@ && amount@ >= old(self).minimum_bid@ && amount@
                > old(self).current_highest_bid@ ==> r is Ok,
            r is Ok ==> final(self).highest_bidder@ == caller@ && final(self).current_highest_bid@
                == amount@ && final(self).is_active,
            match r {
                Ok(refund) => {
                    &&& bid_error(old(self)@, caller@, now, token@, amount@) is None
                    &&& final(self)@ == after_bid(old(self)@, caller@, amount@)
                    &&& transfer_view_of(refund) == refund_of(old(self)@)
                },
                Err(e) => {
                    &&& bid_error(old(self)@, caller@, now, token@, amount@) == Some(e)
                    &&& final(self)@ == old(self)@
                },
            },
    {
        if !self.is_active {
            return Err(AuctionError::NotActive);
        }
        if now >= self.end_timestamp {
            return Err(AuctionError::AuctionEnded);
        }
        if caller.same_as(&self.owner) {
            return Err(AuctionError::OwnerCannotBid);
        }
        if !token.same_as(&self.token_id) {
            return Err(AuctionError::InvalidPaymentToken);
        }
        if amount.is_less_than(&self.minimum_bid) {
            return Err(AuctionError::BidBelowMinimum);
        }
        if !amount.is_greater_than(&self.current_highest_bid) {
            return Err(AuctionError::BidNotHigher);
        }
        let refund = self.refund();
        self.current_highest_bid = amount;
        self.highest_bidder = caller;
        Ok(refund)
    }

    /// Closes the auction once its deadline has passed, paying the seller on a sale
    /// and refunding the standing bid otherwise. Returns the payment and whether the sale went through.
    pub fn finalize(&mut self, now: u64) -> (r: Result<(Option<Transfer>, bool), AuctionError>)
        ensures
            old(self).is_active && now >= old(self).end_timestamp ==> r is Ok,
            r is Ok ==> !final(self).is_active && final(self).highest_bidder@ == old(
                self,
            ).highest_bidder@ && final(self).current_highest_bid@ == old(self).current_highest_bid@,
            match r {
                Ok((payment, sold)) => {
                    &&& finalize_error(old(self)@, now) is None
                    &&& final(self)@ == closed(old(self)@)
                    &&& sold == sale_succeeds(old(self)@)
                    &&& transfer_view_of(payment) == finalize_transfer(old(self)@)
                },
                Err(e) => {
                    &&& finalize_error(old(self)@, now) == Some(e)
                    &&& final(self)@ == old(self)@
                },
            },
    {
        if !self.is_active {
            return Err(AuctionError::AlreadyFinalized);
        }
        if now < self.end_timestamp {
            return Err(AuctionError::NotEndedYet);
        }
        self.is_active = false;
        if self.current_highest_bid.is_at_least(&self.minimum_bid)
            && !self.highest_bidder.is_zero() {
            let payment = Transfer {
                to: self.owner,
                token: self.token_id.duplicate(),
                amount: self.current_highest_bid.duplicate(),
            };
            Ok((Some(payment), true))
        } else {
            Ok((self.refund(), false))
        }
    }

    /// Closes the auction before its end on behalf of its owner, refunding the standing bid.
    pub fn cancel(&mut self, caller: Address, now: u64) -> (r: Result<Option<Transfer>, AuctionError>)
        ensures
            old(self).is_active && caller@ == old(self).owner@ && now < old(self).end_timestamp
                ==> r is Ok,
            r is Ok ==> !final(self).is_active && final(self).highest_bidder@ == old(
                self,
            ).highest_bidder@ && final(self).current_highest_bid@ == old(self).current_highest_bid@,
            match r {
                Ok(refund) => {
                    &&& cancel_error(old(self)@, caller@, now) is None
                    &&& final(self)@ == closed(old(self)@)
                    &&& transfer_view_of(refund) == refund_of(old(self)@)
                },
                Err(e) => {
                    &&& cancel_error(old(self)@, caller@, now) == Some(e)
                    &&& final(self)@ == old(self)@
                },
            },
    {
        if !self.is_active {
            return Err(AuctionError::AlreadyFinalized);
        }
        if !caller.same_as(&self.owner) {
            return Err(AuctionError::OnlyOwnerCanCancel);
        }
        if now >= self.end_timestamp {
            return Err(AuctionError::AuctionEnded);
        }
        self.is_active = false;
        Ok(self.refund())
    }

    /// Whether the auction takes bids at time `now`.
    pub fn is_open_at(&self, now: u64) -> (r: bool)
        ensures
            r ==> self.is_active && now < self.end_timestamp,
            r == is_open(self@, now),
    {
        self.is_active && now < self.end_timestamp
    }

    /// The seconds left before the auction ends.
    pub fn time_remaining_at(&self, now: u64) -> (r: u64)
        ensures
            !self.is_active ==> r == 0,
            r == time_remaining(self@, now),
    {
        if !self.is_active || now >= self.end_timestamp {
            0
        } else {
            self.end_timestamp - now
        }
    }
}

// ---------------------------------------------------------------------------------------------
// All auctions
// ---------------------------------------------------------------------------------------------

/// The auction stored under `id`, if any.
pub open spec fn auction_at(s: Seq<AuctionInfoView>, id: u64) -> Option<AuctionInfoView> {
    if id < s.len() {
        Some(s[id as int])
    } else {
        None
    }
}

/// The token of a new listing: the one given, else EGLD.
pub open spec fn listing_token(opt_token_id: Option<Seq<u8>>) -> Seq<u8> {
    match opt_token_id {
        Some(t) => t,
        None => crate::token::egld_view(),
    }
}

/// Why a bid on auction `id` is refused, if it is.
pub open spec fn house_bid_error(
    s: Seq<AuctionInfoView>,
    id: u64,
    caller: Seq<u8>,
    now: u64,
    token: Seq<u8>,
    amount: nat,
) -> Option<AuctionError> {
    match auction_at(s, id) {
        None => Some(AuctionError::AuctionNotFound),
        Some(a) => bid_error(a, caller, now, token, amount),
    }
}

/// Why finalizing auction `id` is refused, if it is.
pub open spec fn house_finalize_error(s: Seq<AuctionInfoView>, id: u64, now: u64) -> Option<
    AuctionError,
> {
    match auction_at(s, id) {
        None => Some(AuctionError::AuctionNotFound),
        Some(a) => finalize_error(a, now),
    }
}

/// Why cancelling auction `id` at time `now` is refused, if it is.
pub open spec fn house_cancel_error(
    s: Seq<AuctionInfoView>,
    id: u64,
    caller: Seq<u8>,
    now: u64,
) -> Option<AuctionError> {
    match auction_at(s, id) {
        None => Some(AuctionError::AuctionNotFound),
        Some(a) => cancel_error(a, caller, now),
    }
}

/// The ids below `n` of the auctions that take bids at time `now`, in increasing order.
pub open spec fn open_ids(s: Seq<AuctionInfoView>, now: u64, n: nat) -> Seq<u64>
    decreases n,
{
    if n == 0 {
        Seq::empty()
    } else {
        let prev = open_ids(s, now, (n - 1) as nat);
        if (n - 1) < s.len() && is_open(s[n - 1], now) {
            prev.push((n - 1) as u64)
        } else {
            prev
        }
    }
}

/// Whether auction `id` exists, is still active and has reached its deadline at `now`.
pub open spec fn finalizable(s: Seq<AuctionInfoView>, id: u64, now: u64) -> bool {
    match auction_at(s, id) {
        Some(a) => a.is_active && now >= a.end_timestamp,
        None => false,
    }
}

pub open spec fn transfer_view_of(t: Option<Transfer>) -> Option<TransferView> {
    match t {
        Some(t) => Some(t@),
        None => None,
    }
}

pub open spec fn auction_view_of(a: Option<AuctionInfo>) -> Option<AuctionInfoView> {
    match a {
        Some(a) => Some(a@),
        None => None,
    }
}

pub open spec fn token_view_of(t: Option<TokenId>) -> Option<Seq<u8>> {
    match t {
        Some(t) => Some(t@),
        None => None,
    }
}

/// Checks a new listing: a named item, a positive minimum bid and a positive duration,
/// in that order.
pub fn validate_listing(item_name: &Vec<u8>, minimum_bid: &Amount, duration_in_seconds: u64) -> (r:
    Result<(), AuctionError>)
    ensures
        item_name@.len() > 0 && minimum_bid@ > 0 && duration_in_seconds > 0 ==> r is Ok,
        match r {
            Ok(()) => create_error(item_name@, minimum_bid@, duration_in_seconds) is None,
            Err(e) => create_error(item_name@, minimum_bid@, duration_in_seconds) == Some(e),
        },
{
    if item_name.len() == 0 {
        Err(AuctionError::ItemNameEmpty)
    } else if minimum_bid.is_zero() {
        Err(AuctionError::MinimumBidZero)
    } else if duration_in_seconds == 0 {
        Err(AuctionError::DurationZero)
    } else {
        Ok(())
    }
}

/// The contract's storage: auction `id` is stored at position `id`, and the next id is the count.
pub struct Auction {
    auctions: Vec<AuctionInfo>,
}

impl View for Auction {
    type V = Seq<AuctionInfoView>;

    closed spec fn view(&self) -> Seq<AuctionInfoView> {
        self.auctions@.map_values(|a: AuctionInfo| a@)
    }
}

impl Auction {
    /// The storage of a freshly deployed contract: no auction, next id 0.
    pub fn init() -> (r: Auction)
        ensures
            r@ == Seq::<AuctionInfoView>::empty(),
    {
        let r = Auction { auctions: Vec::new() };
        proof {
            assert(r@ =~= Seq::<AuctionInfoView>::empty());
        }
        r
    }

    /// Storage that holds the given auctions under ids `0, 1, ...`.
    pub fn from_auctions(auctions: Vec<AuctionInfo>) -> (r: Auction)
        ensures
            r@ == auctions@.map_values(|a: AuctionInfo| a@),
    {
        Auction { auctions }
    }

    /// The id that the next listing gets.
    pub fn next_auction_id(&self) -> (r: u64)
        ensures
            r == self@.len(),
    {
        self.auctions.len() as u64
    }

    /// Lists an item for auction on behalf of `caller` at time `now`.
    /// The auction runs for `duration_in_seconds`, in the given token or else EGLD;
    /// it gets the next id, which is returned with the creation event.
    pub fn create_auction(
        &mut self,
        caller: Address,
        now: u64,
        item_name: Vec<u8>,
        item_description: Vec<u8>,
        minimum_bid: Amount,
        duration_in_seconds: u64,
        opt_token_id: Option<TokenId>,
    ) -> (r: Result<(u64, AuctionEvent), AuctionError>)
        requires
            create_error(item_name@, minimum_bid@, duration_in_seconds) is None ==> {
                &&& now + duration_in_seconds <= u64::MAX
                &&& old(self)@.len() < u64::MAX
            },
        ensures
            item_name@.len() > 0 && minimum_bid@ > 0 && duration_in_seconds > 0 ==> r is Ok,
            match r {
                Ok((id, event)) => {
                    let a = created_auction(
                        caller@,
                        item_name@,
                        item_description@,
                        minimum_bid@,
                        (now + duration_in_seconds) as u64,
                        listing_token(token_view_of(opt_token_id)),
                    );
                    &&& create_error(item_name@, minimum_bid@, duration_in_seconds) is None
                    &&& id == old(self)@.len()
                    &&& final(self)@ == old(self)@.push(a)
                    &&& event@ == AuctionEventView::AuctionCreated {
                        auction_id: id,
                        owner: caller@,
                        item_name: item_name@,
                        minimum_bid: minimum_bid@,
                        end_timestamp: a.end_timestamp,
                        token_id: a.token_id,
                    }
                },
                Err(e) => {
                    &&& create_error(item_name@, minimum_bid@, duration_in_seconds) == Some(e)
                    &&& final(self)@ == old(self)@
                },
            },
    {
        match validate_listing(&item_name, &minimum_bid, duration_in_seconds) {
            Err(e) => {
                return Err(e);
            },
            Ok(()) => {},
        }
        let end_timestamp = now + duration_in_seconds;
        let token_id = match opt_token_id {
            Some(t) => t,
            None => TokenId::egld(),
        };
        let auction_id = self.auctions.len() as u64;
        let event = AuctionEvent::AuctionCreated {
            auction_id,
            owner: caller,
            item_name: copy_bytes(&item_name),
            minimum_bid: minimum_bid.duplicate(),
            end_timestamp,
            token_id: token_id.duplicate(),
        };
        let info = AuctionInfo {
            owner: caller,
            item_name,
            item_description,
            minimum_bid,
            current_highest_bid: Amount::zero(),
            highest_bidder: Address::zero(),
            end_timestamp,
            is_active: true,
            token_id,
        };
        let ghost old_auctions = self.auctions@;
        self.auctions.push(info);
        proof {
            assert(self.auctions@.map_values(|a: AuctionInfo| a@) =~= old_auctions.map_values(
                |a: AuctionInfo| a@,
            ).push(info@));
        }
        Ok((auction_id, event))
    }

    /// Takes a bid on auction `auction_id` from `caller` at time `now`, paid with
    /// `payment_amount` of `payment_token`; the previous standing bid is refunded.
    pub fn place_bid(
        &mut self,
        auction_id: u64,
        caller: Address,
        now: u64,
        payment_token: &TokenId,
        payment_amount: Amount,
    ) -> (r: Result<Effects, AuctionError>)
        ensures
            match r {
                Ok(effects) => {
                    &&& house_bid_error(
                        old(self)@,
                        auction_id,
                        caller@,
                        now,
                        payment_token@,
                        payment_amount@,
                    ) is None
                    &&& final(self)@ == old(self)@.update(
                        auction_id as int,
                        after_bid(old(self)@[auction_id as int], caller@, payment_amount@),
                    )
                    &&& effects@ == EffectsView {
                        transfer: refund_of(old(self)@[auction_id as int]),
                        event: AuctionEventView::BidPlaced {
                            auction_id,
                            bidder: caller@,
                            bid_amount: payment_amount@,
                        },
                    }
                },
                Err(e) => {
                    &&& house_bid_error(
                        old(self)@,
                        auction_id,
                        caller@,
                        now,
                        payment_token@,
                        payment_amount@,
                    ) == Some(e)
                    &&& final(self)@ == old(self)@
                },
            },
    {
        if auction_id >= self.auctions.len() as u64 {
            return Err(AuctionError::AuctionNotFound);
        }
        let idx = auction_id as usize;
        let bid_amount = payment_amount.duplicate();
        let ghost old_auctions = self.auctions@;
        let result = self.auctions[idx].place_bid(caller, now, payment_token, payment_amount);
        proof {
            assert(self.auctions@.map_values(|a: AuctionInfo| a@) =~= old_auctions.map_values(
                |a: AuctionInfo| a@,
            ).update(idx as int, self.auctions@[idx as int]@));
        }
        match result {
            Ok(refund) => Ok(
                Effects {
                    transfer: refund,
                    event: AuctionEvent::BidPlaced { auction_id, bidder: caller, bid_amount },
                },
            ),
            Err(e) => {
                proof {
                    assert(self.auctions@.map_values(|a: AuctionInfo| a@) =~= old_auctions.map_values(
                        |a: AuctionInfo| a@,
                    ));
                }
                Err(e)
            },
        }
    }

    /// Closes auction `auction_id` at time `now`, once its deadline has passed: on a sale the
    /// highest bid goes to the seller, otherwise the standing bid, if any, goes back to its bidder.
    pub fn finalize_auction(&mut self, auction_id: u64, now: u64) -> (r: Result<Effects, AuctionError>)
        ensures
            match r {
                Ok(effects) => {
                    &&& house_finalize_error(old(self)@, auction_id, now) is None
                    &&& final(self)@ == old(self)@.update(
                        auction_id as int,
                        closed(old(self)@[auction_id as int]),
                    )
                    &&& effects@ == EffectsView {
                        transfer: finalize_transfer(old(self)@[auction_id as int]),
                        event: finalize_event(auction_id, old(self)@[auction_id as int]),
                    }
                },
                Err(e) => {
                    &&& house_finalize_error(old(self)@, auction_id, now) == Some(e)
                    &&& final(self)@ == old(self)@
                },
            },
    {
        if auction_id >= self.auctions.len() as u64 {
            return Err(AuctionError::AuctionNotFound);
        }
        let idx = auction_id as usize;
        let winner = self.auctions[idx].highest_bidder;
        let winning_bid = self.auctions[idx].current_highest_bid.duplicate();
        let ghost old_auctions = self.auctions@;
        let result = self.auctions[idx].finalize(now);
        proof {
            assert(self.auctions@.map_values(|a: AuctionInfo| a@) =~= old_auctions.map_values(
                |a: AuctionInfo| a@,
            ).update(idx as int, self.auctions@[idx as int]@));
        }
        match result {
            Ok((payment, sold)) => {
                let event = if sold {
                    AuctionEvent::AuctionFinalized {
                        auction_id,
                        winner,
                        winning_bid,
                        successful: true,
                    }
                } else {
                    AuctionEvent::AuctionFinalized {
                        auction_id,
                        winner: Address::zero(),
                        winning_bid: Amount::zero(),
                        successful: false,
                    }
                };
                Ok(Effects { transfer: payment, event })
            },
            Err(e) => {
                proof {
                    assert(self.auctions@.map_values(|a: AuctionInfo| a@) =~= old_auctions.map_values(
                        |a: AuctionInfo| a@,
                    ));
                }
                Err(e)
            },
        }
    }

    /// Cancels auction `auction_id` on behalf of `caller` at time `now`: only its owner may,
    /// and only before its deadline; the standing bid, if any, goes back to its bidder.
    pub fn cancel_auction(&mut self, auction_id: u64, caller: Address, now: u64) -> (r: Result<
        Effects,
        AuctionError,
    >)
        ensures
            match r {
                Ok(effects) => {
                    &&& house_cancel_error(old(self)@, auction_id, caller@, now) is None
                    &&& final(self)@ == old(self)@.update(
                        auction_id as int,
                        closed(old(self)@[auction_id as int]),
                    )
                    &&& effects@ == EffectsView {
                        transfer: refund_of(old(self)@[auction_id as int]),
                        event: AuctionEventView::AuctionCancelled { auction_id },
                    }
                },
                Err(e) => {
                    &&& house_cancel_error(old(self)@, auction_id, caller@, now) == Some(e)
                    &&& final(self)@ == old(self)@
                },
            },
    {
        if auction_id >= self.auctions.len() as u64 {
            return Err(AuctionError::AuctionNotFound);
        }
        let idx = auction_id as usize;
        let ghost old_auctions = self.auctions@;
        let result = self.auctions[idx].cancel(caller, now);
        proof {
            assert(self.auctions@.map_values(|a: AuctionInfo| a@) =~= old_auctions.map_values(
                |a: AuctionInfo| a@,
            ).update(idx as int, self.auctions@[idx as int]@));
        }
        match result {
            Ok(refund) => Ok(
                Effects { transfer: refund, event: AuctionEvent::AuctionCancelled { auction_id } },
            ),
            Err(e) => {
                proof {
                    assert(self.auctions@.map_values(|a: AuctionInfo| a@) =~= old_auctions.map_values(
                        |a: AuctionInfo| a@,
                    ));
                }
                Err(e)
            },
        }
    }

    /// A copy of auction `auction_id`, if it exists.
    pub fn get_auction_info(&self, auction_id: u64) -> (r: Option<AuctionInfo>)
        ensures
            auction_view_of(r) == auction_at(self@, auction_id),
    {
        if auction_id >= self.auctions.len() as u64 {
            None
        } else {
            Some(self.auctions[auction_id as usize].duplicate())
        }
    }

    /// The ids of the auctions that take bids at time `now`, in increasing order.
    pub fn get_active_auctions(&self, now: u64) -> (r: Vec<u64>)
        ensures
            forall|id: u64|
                #[trigger] r@.contains(id) <==> id < self@.len() && self@[id as int].is_active
                    && now < self@[id as int].end_timestamp,
            r@ == open_ids(self@, now, self@.len()),
    {
        let mut r: Vec<u64> = Vec::new();
        let n = self.auctions.len();
        let mut i: usize = 0;
        while i < n
            invariant
                i <= n,
                n == self@.len(),
                r@ == open_ids(self@, now, i as nat),
            decreases n - i,
        {
            if self.auctions[i].is_open_at(now) {
                r.push(i as u64);
            }
            i = i + 1;
        }
        proof {
            crate::auction_laws::law_active_auctions_listing(self@, now, self@.len());
        }
        r
    }

    /// The seconds left on auction `auction_id` at time `now`, if it exists:
    /// zero once it is closed or its deadline has passed.
    pub fn get_time_remaining(&self, auction_id: u64, now: u64) -> (r: Option<u64>)
        ensures
            auction_id < self@.len() && !self@[auction_id as int].is_active ==> r == Some(0u64),
            r == (match auction_at(self@, auction_id) {
                Some(a) => Some(time_remaining(a, now)),
                None => None,
            }),
    {
        if auction_id >= self.auctions.len() as u64 {
            None
        } else {
            Some(self.auctions[auction_id as usize].time_remaining_at(now))
        }
    }

    /// Whether auction `auction_id` exists, is still active and has reached its deadline at `now`.
    pub fn can_finalize(&self, auction_id: u64, now: u64) -> (r: bool)
        ensures
            r == finalizable(self@, auction_id, now),
    {
        if auction_id >= self.auctions.len() as u64 {
            return false;
        }
        let a = &self.auctions[auction_id as usize];
        a.is_active && now >= a.end_timestamp
    }
}

} // verus!
