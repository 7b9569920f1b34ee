use mvx_contracts::address::Address;
use mvx_contracts::amount::Amount;
use mvx_contracts::auction::{Auction, AuctionError, AuctionEvent, Transfer};
use mvx_contracts::token::TokenId;

fn addr(b: u8) -> Address {
    Address::new([b; 32])
}

fn amt(n: u64) -> Amount {
    Amount::from_bytes_be(&n.to_be_bytes())
}

fn usdc() -> TokenId {
    TokenId::new(b"USDC-c76f1f".to_vec())
}

/// A house with one EGLD auction by owner 1: minimum 100, created at 1000, running 500 seconds.
fn house_with_auction() -> Auction {
    let mut h = Auction::init();
    let r = h.create_auction(addr(1), 1000, b"Painting".to_vec(), b"Oil on canvas".to_vec(), amt(100), 500, None);
    assert_eq!(r.as_ref().map(|(id, _)| *id), Ok(0));
    h
}

#[test]
fn create_auction_assigns_sequential_ids_and_stores_terms() {
    let mut h = Auction::init();
    assert_eq!(h.next_auction_id(), 0);
    let (id0, ev) = h
        .create_auction(addr(1), 1000, b"Painting".to_vec(), b"Oil".to_vec(), amt(100), 500, None)
        .unwrap();
    assert_eq!(id0, 0);
    assert_eq!(
        ev,
        AuctionEvent::AuctionCreated {
            auction_id: 0,
            owner: addr(1),
            item_name: b"Painting".to_vec(),
            minimum_bid: amt(100),
            end_timestamp: 1500,
            token_id: TokenId::egld(),
        }
    );
    let (id1, _) = h
        .create_auction(addr(2), 2000, b"Vase".to_vec(), Vec::new(), amt(7), 10, Some(usdc()))
        .unwrap();
    assert_eq!(id1, 1);
    assert_eq!(h.next_auction_id(), 2);
    let info = h.get_auction_info(0).unwrap();
    assert_eq!(info.owner, addr(1));
    assert_eq!(info.item_name, b"Painting".to_vec());
    assert_eq!(info.item_description, b"Oil".to_vec());
    assert_eq!(info.minimum_bid, amt(100));
    assert_eq!(info.current_highest_bid, Amount::zero());
    assert_eq!(info.highest_bidder, Address::zero());
    assert_eq!(info.end_timestamp, 1500);
    assert!(info.is_active);
    assert_eq!(info.token_id.bytes, b"EGLD-000000".to_vec());
    let info1 = h.get_auction_info(1).unwrap();
    assert_eq!(info1.token_id, usdc());
    assert_eq!(info1.end_timestamp, 2010);
    assert!(h.get_auction_info(2).is_none());
}

#[test]
fn create_auction_rejects_bad_listings() {
    let mut h = Auction::init();
    assert_eq!(
        h.create_auction(addr(1), 0, Vec::new(), Vec::new(), amt(1), 1, None).unwrap_err(),
        AuctionError::ItemNameEmpty
    );
    assert_eq!(
        h.create_auction(addr(1), 0, b"x".to_vec(), Vec::new(), Amount::zero(), 1, None).unwrap_err(),
        AuctionError::MinimumBidZero
    );
    assert_eq!(
        h.create_auction(addr(1), 0, b"x".to_vec(), Vec::new(), amt(1), 0, None).unwrap_err(),
        AuctionError::DurationZero
    );
    assert_eq!(h.next_auction_id(), 0);
}

#[test]
fn bids_are_checked_in_order() {
    let mut h = house_with_auction();
    let egld = TokenId::egld();
    assert_eq!(h.place_bid(5, addr(2), 1100, &egld, amt(200)).unwrap_err(), AuctionError::AuctionNotFound);
    assert_eq!(h.place_bid(0, addr(2), 1500, &egld, amt(200)).unwrap_err(), AuctionError::AuctionEnded);
    assert_eq!(h.place_bid(0, addr(1), 1100, &egld, amt(200)).unwrap_err(), AuctionError::OwnerCannotBid);
    assert_eq!(h.place_bid(0, addr(2), 1100, &usdc(), amt(200)).unwrap_err(), AuctionError::InvalidPaymentToken);
    assert_eq!(h.place_bid(0, addr(2), 1100, &egld, amt(99)).unwrap_err(), AuctionError::BidBelowMinimum);
    let e = h.place_bid(0, addr(2), 1100, &egld, amt(100)).unwrap();
    assert_eq!(e.transfer, None);
    assert_eq!(e.event, AuctionEvent::BidPlaced { auction_id: 0, bidder: addr(2), bid_amount: amt(100) });
    assert_eq!(h.place_bid(0, addr(3), 1200, &egld, amt(100)).unwrap_err(), AuctionError::BidNotHigher);
    let info = h.get_auction_info(0).unwrap();
    assert_eq!(info.current_highest_bid, amt(100));
    assert_eq!(info.highest_bidder, addr(2));
}

#[test]
fn outbidding_refunds_the_previous_bidder() {
    let mut h = house_with_auction();
    let egld = TokenId::egld();
    h.place_bid(0, addr(2), 1100, &egld, amt(150)).unwrap();
    let e = h.place_bid(0, addr(3), 1200, &egld, amt(300)).unwrap();
    assert_eq!(e.transfer, Some(Transfer { to: addr(2), token: TokenId::egld(), amount: amt(150) }));
    let info = h.get_auction_info(0).unwrap();
    assert_eq!(info.current_highest_bid, amt(300));
    assert_eq!(info.highest_bidder, addr(3));
}

#[test]
fn finalize_pays_the_seller_after_the_deadline() {
    let mut h = house_with_auction();
    let egld = TokenId::egld();
    h.place_bid(0, addr(2), 1100, &egld, amt(150)).unwrap();
    assert!(!h.can_finalize(0, 1499));
    assert_eq!(h.finalize_auction(0, 1499).unwrap_err(), AuctionError::NotEndedYet);
    assert!(h.can_finalize(0, 1500));
    let e = h.finalize_auction(0, 1500).unwrap();
    assert_eq!(e.transfer, Some(Transfer { to: addr(1), token: TokenId::egld(), amount: amt(150) }));
    assert_eq!(
        e.event,
        AuctionEvent::AuctionFinalized { auction_id: 0, winner: addr(2), winning_bid: amt(150), successful: true }
    );
    assert!(!h.get_auction_info(0).unwrap().is_active);
    assert!(!h.can_finalize(0, 2000));
    assert_eq!(h.finalize_auction(0, 2000).unwrap_err(), AuctionError::AlreadyFinalized);
    assert_eq!(h.place_bid(0, addr(3), 1200, &egld, amt(500)).unwrap_err(), AuctionError::NotActive);
    assert_eq!(h.cancel_auction(0, addr(1), 1200).unwrap_err(), AuctionError::AlreadyFinalized);
    assert_eq!(h.finalize_auction(9, 2000).unwrap_err(), AuctionError::AuctionNotFound);
}

#[test]
fn finalize_without_bids_is_unsuccessful() {
    let mut h = house_with_auction();
    let e = h.finalize_auction(0, 1600).unwrap();
    assert_eq!(e.transfer, None);
    assert_eq!(
        e.event,
        AuctionEvent::AuctionFinalized { auction_id: 0, winner: Address::zero(), winning_bid: Amount::zero(), successful: false }
    );
}

#[test]
fn a_bid_from_the_zero_address_is_never_paid_out() {
    // The zero address stands for "nobody", so a bid it places is neither paid to the seller nor refunded.
    let mut h = house_with_auction();
    let egld = TokenId::egld();
    h.place_bid(0, Address::zero(), 1100, &egld, amt(150)).unwrap();
    let e = h.finalize_auction(0, 1500).unwrap();
    assert_eq!(e.transfer, None);
}

#[test]
fn cancel_refunds_and_only_the_owner_may_cancel() {
    let mut h = house_with_auction();
    let egld = TokenId::egld();
    h.place_bid(0, addr(2), 1100, &egld, amt(120)).unwrap();
    assert_eq!(h.cancel_auction(0, addr(2), 1200).unwrap_err(), AuctionError::OnlyOwnerCanCancel);
    assert_eq!(h.cancel_auction(3, addr(1), 1200).unwrap_err(), AuctionError::AuctionNotFound);
    let e = h.cancel_auction(0, addr(1), 1200).unwrap();
    assert_eq!(e.transfer, Some(Transfer { to: addr(2), token: TokenId::egld(), amount: amt(120) }));
    assert_eq!(e.event, AuctionEvent::AuctionCancelled { auction_id: 0 });
    assert!(!h.get_auction_info(0).unwrap().is_active);
    assert_eq!(h.cancel_auction(0, addr(1), 1200).unwrap_err(), AuctionError::AlreadyFinalized);
}

#[test]
fn views_report_active_auctions_and_time_left() {
    let mut h = Auction::init();
    h.create_auction(addr(1), 1000, b"a".to_vec(), Vec::new(), amt(1), 100, None).unwrap();
    h.create_auction(addr(1), 1000, b"b".to_vec(), Vec::new(), amt(1), 300, None).unwrap();
    h.create_auction(addr(1), 1000, b"c".to_vec(), Vec::new(), amt(1), 500, None).unwrap();
    h.cancel_auction(2, addr(1), 1000).unwrap();
    assert_eq!(h.get_active_auctions(1050), vec![0, 1]);
    assert_eq!(h.get_active_auctions(1100), vec![1]);
    assert_eq!(h.get_active_auctions(1300), Vec::<u64>::new());
    assert_eq!(h.get_time_remaining(0, 1050), Some(50));
    assert_eq!(h.get_time_remaining(0, 1100), Some(0));
    assert_eq!(h.get_time_remaining(2, 1050), Some(0));
    assert_eq!(h.get_time_remaining(3, 1050), None);
    assert!(!h.can_finalize(2, 2000));
    assert!(!h.can_finalize(3, 2000));
    assert!(h.can_finalize(1, 1300));
}

#[test]
fn error_messages_match_the_contract() {
    assert_eq!(AuctionError::ItemNameEmpty.message(), "Item name cannot be empty");
    assert_eq!(AuctionError::AuctionNotFound.message(), "Auction does not exist");
    assert_eq!(AuctionError::BidNotHigher.message(), "Bid must be higher than current highest bid");
    assert_eq!(AuctionError::OnlyOwnerCanCancel.message(), "Only auction owner can cancel");
}

#[test]
fn amounts_compare_as_numbers() {
    let a = Amount::from_bytes_be(&[0, 0, 1, 0]);
    let b = Amount::from_bytes_be(&[255]);
    assert!(b.is_less_than(&a));
    assert!(a.is_greater_than(&b));
    assert!(a.is_at_least(&amt(256)));
    assert!(a.same_as(&amt(256)));
    assert_eq!(a, amt(256));
    assert_eq!(a.to_bytes_be(), vec![1, 0]);
    assert!(Amount::from_bytes_be(&[0, 0]).is_zero());
    assert!(!amt(1).is_zero());
    let big = Amount::from_bytes_be(&[1; 40]);
    assert!(amt(u64::MAX).is_less_than(&big));
    assert!(!big.is_less_than(&big.duplicate()));
}

#[test]
fn egld_identifier_is_egld_000000() {
    assert_eq!(TokenId::egld().bytes, b"EGLD-000000".to_vec());
    assert!(TokenId::egld().is_egld());
    assert!(!usdc().is_egld());
    assert!(usdc().same_as(&usdc()));
    assert!(!usdc().same_as(&TokenId::egld()));
}

#[test]
fn addresses_compare_bytewise() {
    assert!(Address::zero().is_zero());
    assert!(!addr(1).is_zero());
    assert!(addr(1).same_as(&addr(1)));
    let mut b = [1u8; 32];
    b[31] = 2;
    assert!(!addr(1).same_as(&Address::new(b)));
}

#[test]
fn terms_stay_fixed_through_bids_and_closing() {
    let mut h = house_with_auction();
    let before = h.get_auction_info(0).unwrap();
    h.place_bid(0, addr(2), 1100, &TokenId::egld(), amt(150)).unwrap();
    h.finalize_auction(0, 1600).unwrap();
    let after = h.get_auction_info(0).unwrap();
    assert_eq!(after.owner, before.owner);
    assert_eq!(after.item_name, before.item_name);
    assert_eq!(after.item_description, before.item_description);
    assert_eq!(after.minimum_bid, before.minimum_bid);
    assert_eq!(after.end_timestamp, before.end_timestamp);
    assert_eq!(after.token_id, before.token_id);
}

#[test]
fn money_in_equals_money_held_plus_money_out() {
    // Three bids of 150, 200 and 260 come in; 150 and 200 are refunded, 260 goes to the seller.
    let mut h = house_with_auction();
    let egld = TokenId::egld();
    let mut paid_out: Vec<Transfer> = Vec::new();
    for (bidder, bid) in [(2u8, 150u64), (3, 200), (4, 260)] {
        if let Some(t) = h.place_bid(0, addr(bidder), 1100, &egld, amt(bid)).unwrap().transfer {
            paid_out.push(t);
        }
    }
    assert_eq!(
        paid_out,
        vec![
            Transfer { to: addr(2), token: TokenId::egld(), amount: amt(150) },
            Transfer { to: addr(3), token: TokenId::egld(), amount: amt(200) },
        ]
    );
    assert_eq!(h.get_auction_info(0).unwrap().current_highest_bid, amt(260));
    let e = h.finalize_auction(0, 1500).unwrap();
    assert_eq!(e.transfer, Some(Transfer { to: addr(1), token: TokenId::egld(), amount: amt(260) }));
}

#[test]
fn the_owner_cannot_cancel_after_the_deadline() {
    let mut h = house_with_auction();
    h.place_bid(0, addr(2), 1100, &TokenId::egld(), amt(150)).unwrap();
    assert_eq!(h.cancel_auction(0, addr(2), 1500).unwrap_err(), AuctionError::OnlyOwnerCanCancel);
    assert_eq!(h.cancel_auction(0, addr(1), 1500).unwrap_err(), AuctionError::AuctionEnded);
    assert_eq!(h.cancel_auction(0, addr(1), 9999).unwrap_err(), AuctionError::AuctionEnded);
    assert!(h.get_auction_info(0).unwrap().is_active);
    let e = h.finalize_auction(0, 1500).unwrap();
    assert_eq!(e.transfer, Some(Transfer { to: addr(1), token: TokenId::egld(), amount: amt(150) }));
}
