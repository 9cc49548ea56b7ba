use vstd::prelude::*;

use crate::error::ContractError;
use crate::settlement::{
    escrow_inflow, lemma_flows_of_pair, net_received, Holder, ItemTransfer, Payment, Settlement,
};
use crate::storage::{
    validate_input_params, Address, Auction, AuctionStatus, Config, HighestBid, ItemInfo,
    DEFAULT_INDEX, DEFAULT_LIMIT,
};
use crate::utils::{check_auction_can_be_finalized, min_price_met, minimum_price_reached};

verus! {

/// The abstract state of the marketplace.
///
/// `auctions[i]` is the auction with identifier `i + 1`; `bids[i]` is its
/// leading bid, if one was ever accepted.
pub struct MarketView {
    pub admin: Option<Address>,
    pub config: Option<Config>,
    pub auctions: Seq<Auction>,
    pub bids: Seq<Option<HighestBid>>,
}

pub open spec fn bid_amount(b: Option<HighestBid>) -> Option<u64> {
    match b {
        Some(h) => Some(h.bid),
        None => None,
    }
}

/// While `a` is open, its leading bid, if any, is not the seller's own.
pub open spec fn leader_is_not_seller(a: Auction, b: Option<HighestBid>) -> bool {
    is_open(a) && b is Some ==> b.unwrap().bidder != a.seller
}

/// The amount that a new bid on `a` must exceed.
pub open spec fn bid_floor(a: Auction) -> u64 {
    match a.highest_bid {
        Some(b) => b,
        None => 0,
    }
}

/// Whether `a` still runs: not settled, whether or not paused.
pub open spec fn is_open(a: Auction) -> bool {
    a.status == AuctionStatus::Active || a.status == AuctionStatus::Paused
}

/// What the marketplace holds in custody on behalf of `a`.
pub open spec fn escrow_held(a: Auction) -> int {
    if is_open(a) {
        bid_floor(a) as int
    } else {
        0
    }
}

/// Custody held for auction `id` moves by exactly what `payments` bring into escrow.
pub open spec fn conserves_escrow(before: MarketView, after: MarketView, id: u64, payments: Seq<Payment>) -> bool {
    escrow_held(after.auction(id)) == escrow_held(before.auction(id)) + escrow_inflow(payments)
}

/// Auction `id` has ended, and no operation may change it any more.
pub open spec fn is_settled(v: MarketView, id: u64) -> bool {
    v.has(id) && v.auction(id).status == AuctionStatus::Ended
}

/// Every numeric input of a new listing is at least one, and its end time fits.
pub open spec fn creation_inputs_valid(item_info: ItemInfo, duration: u64, now: u64) -> bool {
    &&& duration >= 1
    &&& item_info.item_id >= 1
    &&& item_info.amount >= 1
    &&& item_info.minimum_price != Some(0u64)
    &&& item_info.buy_now_price != Some(0u64)
    &&& now + duration <= u64::MAX
}

pub open spec fn refund_payment(a: Auction, h: HighestBid) -> Payment {
    Payment { asset: a.auction_token, from: Holder::Escrow, to: Holder::Account(h.bidder), amount: h.bid }
}

pub open spec fn deposit_payment(a: Auction, bidder: Address, amount: u64) -> Payment {
    Payment { asset: a.auction_token, from: Holder::Account(bidder), to: Holder::Escrow, amount: amount }
}

pub open spec fn payout_payment(a: Auction, h: HighestBid) -> Payment {
    Payment { asset: a.auction_token, from: Holder::Escrow, to: Holder::Account(a.seller), amount: h.bid }
}

pub open spec fn item_delivery(a: Auction, to: Address) -> ItemTransfer {
    ItemTransfer {
        collection_addr: a.item_info.collection_addr,
        item_id: a.item_info.item_id,
        from: a.seller,
        to: to,
        amount: a.item_info.amount,
    }
}

impl MarketView {
    pub open spec fn wf(self) -> bool {
        &&& self.auctions.len() == self.bids.len()
        &&& self.admin.is_some() == self.config.is_some()
        &&& forall|i: int| 0 <= i < self.auctions.len() ==> self.auctions[i].id == i + 1
        &&& forall|i: int|
            0 <= i < self.auctions.len() ==> self.auctions[i].highest_bid == bid_amount(
                #[trigger] self.bids[i],
            )
        &&& forall|i: int|
            0 <= i < self.auctions.len() ==> leader_is_not_seller(self.auctions[i], #[trigger] self.bids[i])
    }

    pub open spec fn has(self, id: u64) -> bool {
        1 <= id && id <= self.auctions.len()
    }

    pub open spec fn auction(self, id: u64) -> Auction {
        self.auctions[id - 1]
    }

    pub open spec fn bid(self, id: u64) -> Option<HighestBid> {
        self.bids[id - 1]
    }

    /// The state with auction `id` replaced by `a` and its leading bid by `b`.
    pub open spec fn with(self, id: u64, a: Auction, b: Option<HighestBid>) -> MarketView {
        MarketView {
            auctions: self.auctions.update(id - 1, a),
            bids: self.bids.update(id - 1, b),
            ..self
        }
    }

    /// The auctions whose identifiers lie in `[lo, hi]`, in order.
    pub open spec fn in_range(self, lo: int, hi: int) -> Seq<Auction> {
        let from = if lo < 1 { 0int } else { lo - 1 };
        let to = if hi > self.auctions.len() { self.auctions.len() as int } else { hi };
        if from < to {
            self.auctions.subrange(from, to)
        } else {
            Seq::empty()
        }
    }
}

pub open spec fn active_only(s: Seq<Auction>) -> Seq<Auction> {
    s.filter(|a: Auction| a.status == AuctionStatus::Active)
}

pub open spec fn listed_by(s: Seq<Auction>, seller: Address) -> Seq<Auction> {
    s.filter(|a: Auction| a.seller == seller)
}

/// The first identifier and the width of a listing request, defaults applied.
pub open spec fn listing_window(start_index: Option<u64>, limit: Option<u64>) -> (int, int) {
    let lo = match start_index { Some(s) => s, None => DEFAULT_INDEX };
    let width = match limit { Some(l) => l, None => DEFAULT_LIMIT };
    (lo as int, lo + width)
}

/// The auction marketplace: configuration, auction records and leading bids.
pub struct MarketplaceContract {
    admin: Option<Address>,
    config: Option<Config>,
    auctions: Vec<Auction>,
    highest_bids: Vec<Option<HighestBid>>,
}

impl View for MarketplaceContract {
    type V = MarketView;

    closed spec fn view(&self) -> MarketView {
        MarketView {
            admin: self.admin,
            config: self.config,
            auctions: self.auctions@,
            bids: self.highest_bids@,
        }
    }
}

impl MarketplaceContract {
    pub open spec fn wf(&self) -> bool {
        self@.wf()
    }

    /// An uninitialized marketplace with no auctions.
    pub fn new() -> (r: Self)
        ensures
            r.wf(),
            r@.admin is None,
            r@.config is None,
            r@.auctions.len() == 0,
    {
        MarketplaceContract { admin: None, config: None, auctions: Vec::new(), highest_bids: Vec::new() }
    }

    /// The position of auction `auction_id` in the registry, if it exists.
    fn index_of(&self, auction_id: u64) -> (r: Option<usize>)
        requires
            self.wf(),
        ensures
            self@.has(auction_id) <==> r is Some,
            r matches Some(i) ==> i as int == auction_id - 1,
    {
        if auction_id >= 1 && auction_id <= self.auctions.len() as u64 {
            Some((auction_id - 1) as usize)
        } else {
            None
        }
    }

    /// Replaces the record of auction `auction.id` and its leading bid.
    fn save_auction(&mut self, auction: Auction, bid: Option<HighestBid>)
        requires
            old(self).wf(),
            old(self)@.has(auction.id),
            auction.highest_bid == bid_amount(bid),
            leader_is_not_seller(auction, bid),
        ensures
            final(self).wf(),
            final(self)@ == old(self)@.with(auction.id, auction, bid),
    {
        let i = match self.index_of(auction.id) {
            Some(i) => i,
            None => { return; },
        };
        self.auctions.set(i, auction);
        self.highest_bids.set(i, bid);
        assert(self@.wf()) by {
            assert forall|j: int| 0 <= j < self@.auctions.len() implies self@.auctions[j].id == j
                + 1 by {
                if j != i as int {
                    assert(self@.auctions[j] == old(self)@.auctions[j]);
                }
            }
            assert forall|j: int| 0 <= j < self@.auctions.len() implies self@.auctions[j].highest_bid
                == bid_amount(#[trigger] self@.bids[j]) by {
                if j != i as int {
                    assert(self@.auctions[j] == old(self)@.auctions[j]);
                    assert(self@.bids[j] == old(self)@.bids[j]);
                }
            }
            assert forall|j: int| 0 <= j < self@.auctions.len() implies leader_is_not_seller(
                self@.auctions[j],
                #[trigger] self@.bids[j],
            ) by {
                if j != i as int {
                    assert(self@.auctions[j] == old(self)@.auctions[j]);
                    assert(self@.bids[j] == old(self)@.bids[j]);
                }
            }
        }
    }

    /// Rebuilds a marketplace from stored records, checking that auction
    /// `i + 1` sits at position `i`, that each record agrees with its
    /// leading bid, and that no open auction is led by its own seller.
    pub fn restore(
        admin: Option<Address>,
        config: Option<Config>,
        auctions: Vec<Auction>,
        highest_bids: Vec<Option<HighestBid>>,
    ) -> (r: Result<Self, ContractError>)
        ensures
            ({
                let v = MarketView { admin, config, auctions: auctions@, bids: highest_bids@ };
                &&& v.wf() ==> (r matches Ok(m) && m@ == v && m.wf())
                &&& !v.wf() ==> r == Err::<Self, ContractError>(ContractError::IDMissmatch)
            }),
    {
        if auctions.len() != highest_bids.len() || admin.is_some() != config.is_some() {
            return Err(ContractError::IDMissmatch);
        }
        let mut i: usize = 0;
        while i < auctions.len()
            invariant
                0 <= i <= auctions@.len() == highest_bids@.len(),
                forall|j: int| 0 <= j < i ==> auctions@[j].id == j + 1,
                forall|j: int|
                    0 <= j < i ==> auctions@[j].highest_bid == bid_amount(#[trigger] highest_bids@[j]),
                forall|j: int|
                    0 <= j < i ==> leader_is_not_seller(auctions@[j], #[trigger] highest_bids@[j]),
            decreases auctions@.len() - i,
        {
            let a = auctions[i];
            let (expected_bid, seller_leads) = match highest_bids[i] {
                Some(h) => (Some(h.bid), h.bidder == a.seller),
                None => (None, false),
            };
            let open = a.status == AuctionStatus::Active || a.status == AuctionStatus::Paused;
            if a.id == 0 || a.id - 1 != i as u64 || a.highest_bid != expected_bid || (open && seller_leads) {
                assert(!(auctions@[i as int].highest_bid == bid_amount(highest_bids@[i as int]))
                    || auctions@[i as int].id != i + 1
                    || !leader_is_not_seller(auctions@[i as int], highest_bids@[i as int]));
                return Err(ContractError::IDMissmatch);
            }
            i += 1;
        }
        Ok(MarketplaceContract { admin, config, auctions, highest_bids })
    }

    /// How many auctions have been listed; they carry identifiers `1..=count`.
    pub fn auction_count(&self) -> (r: u64)
        requires
            self.wf(),
        ensures
            r == self@.auctions.len(),
    {
        proof {
            if self@.auctions.len() > 0 {
                assert(self@.auctions[self@.auctions.len() - 1].id == self@.auctions.len());
            }
        }
        self.auctions.len() as u64
    }

    pub fn is_initialized(&self) -> (r: bool)
        requires
            self.wf(),
        ensures
            r == self@.config is Some,
    {
        self.config.is_some()
    }

    /// Sets the administrator, the settlement asset and the creation fee, once.
    pub fn initialize(&mut self, admin: Address, auction_token: Address, auction_creation_fee: u128) -> (r:
        Result<(), ContractError>)
        requires
            old(self).wf(),
        ensures
            final(self).wf(),
            old(self)@.config is Some ==> r == Err::<(), ContractError>(ContractError::AlreadyInitialized)
                && final(self)@ == old(self)@,
            old(self)@.config is None ==> r is Ok && final(self)@ == (MarketView {
                admin: Some(admin),
                config: Some(Config { auction_token, auction_creation_fee }),
                ..old(self)@
            }),
    {
        if self.config.is_some() {
            return Err(ContractError::AlreadyInitialized);
        }
        self.admin = Some(admin);
        self.config = Some(Config { auction_token, auction_creation_fee });
        Ok(())
    }

    pub fn get_admin(&self) -> (r: Result<Address, ContractError>)
        requires
            self.wf(),
        ensures
            self@.admin matches Some(a) ==> r == Ok::<Address, ContractError>(a),
            self@.admin is None ==> r == Err::<Address, ContractError>(ContractError::AdminNotFound),
    {
        match self.admin {
            Some(a) => Ok(a),
            None => Err(ContractError::AdminNotFound),
        }
    }

    pub fn get_config(&self) -> (r: Result<Config, ContractError>)
        requires
            self.wf(),
        ensures
            self@.config matches Some(c) ==> r == Ok::<Config, ContractError>(c),
            self@.config is None ==> r == Err::<Config, ContractError>(ContractError::ConfigNotFound),
    {
        match self.config {
            Some(c) => Ok(c),
            None => Err(ContractError::ConfigNotFound),
        }
    }

    /// Hands the administrator role to `new_admin`; the caller has checked
    /// that the current administrator authorized it.
    pub fn update_admin(&mut self, new_admin: Address) -> (r: Result<Address, ContractError>)
        requires
            old(self).wf(),
        ensures
            final(self).wf(),
            old(self)@.admin is None ==> r == Err::<Address, ContractError>(ContractError::AdminNotFound)
                && final(self)@ == old(self)@,
            old(self)@.admin is Some ==> r == Ok::<Address, ContractError>(new_admin) && final(self)@
                == (MarketView { admin: Some(new_admin), ..old(self)@ }),
    {
        if self.admin.is_none() {
            return Err(ContractError::AdminNotFound);
        }
        self.admin = Some(new_admin);
        Ok(new_admin)
    }

    /// The identifier that the next auction receives.
    fn generate_auction_id(&self) -> (r: u64)
        requires
            self.wf(),
            self@.auctions.len() < u64::MAX,
        ensures
            r == self@.auctions.len() + 1,
    {
        self.auctions.len() as u64 + 1
    }

    /// Lists `item_info` for `duration` seconds from `now`.
    ///
    /// `seller_item_balance` is what the item registry reports the seller to
    /// hold of the item; the caller has checked the seller's authorization.
    pub fn create_auction(
        &mut self,
        item_info: ItemInfo,
        seller: Address,
        duration: u64,
        seller_item_balance: u64,
        now: u64,
    ) -> (r: Result<Auction, ContractError>)
        requires
            old(self).wf(),
            old(self)@.auctions.len() < u64::MAX,
        ensures
            final(self).wf(),
            r is Err ==> final(self)@ == old(self)@,
            !creation_inputs_valid(item_info, duration, now) ==> r == Err::<Auction, ContractError>(
                ContractError::InvalidInputs,
            ),
            creation_inputs_valid(item_info, duration, now) && old(self)@.config is None ==> r == Err::<
                Auction,
                ContractError,
            >(ContractError::ConfigNotFound),
            creation_inputs_valid(item_info, duration, now) && old(self)@.config is Some
                && seller_item_balance < item_info.amount ==> r == Err::<Auction, ContractError>(
                ContractError::NotEnoughBalance,
            ),
            creation_inputs_valid(item_info, duration, now) && old(self)@.config is Some
                && seller_item_balance >= item_info.amount ==> {
                let a = Auction {
                    id: (old(self)@.auctions.len() + 1) as u64,
                    item_info,
                    seller,
                    highest_bid: None,
                    end_time: (now + duration) as u64,
                    status: AuctionStatus::Active,
                    auction_token: old(self)@.config.unwrap().auction_token,
                };
                &&& r == Ok::<Auction, ContractError>(a)
                &&& final(self)@ == (MarketView {
                    auctions: old(self)@.auctions.push(a),
                    bids: old(self)@.bids.push(None),
                    ..old(self)@
                })
            },
    {
        let values: Vec<u64> = vec![
            duration,
            item_info.item_id,
            match item_info.buy_now_price { Some(p) => p, None => 1 },
            match item_info.minimum_price { Some(p) => p, None => 1 },
            item_info.amount,
        ];
        let checked = validate_input_params(values.as_slice());
        assert(values@[0] == duration && values@[1] == item_info.item_id && values@[4] == item_info.amount);
        if checked.is_err() {
            assert(!crate::storage::all_positive(values@));
            return Err(ContractError::InvalidInputs);
        }
        assert(values@[2] >= 1 && values@[3] >= 1);
        if duration > u64::MAX - now {
            return Err(ContractError::InvalidInputs);
        }
        let config = match self.config {
            Some(c) => c,
            None => { return Err(ContractError::ConfigNotFound); },
        };
        if seller_item_balance < item_info.amount {
            return Err(ContractError::NotEnoughBalance);
        }
        let id = self.generate_auction_id();
        let auction = Auction {
            id,
            item_info,
            seller,
            highest_bid: None,
            end_time: now + duration,
            status: AuctionStatus::Active,
            auction_token: config.auction_token,
        };
        self.auctions.push(auction);
        self.highest_bids.push(None);
        assert(self@.wf()) by {
            assert forall|j: int| 0 <= j < self@.auctions.len() implies self@.auctions[j].highest_bid
                == bid_amount(#[trigger] self@.bids[j]) by {
                if j < old(self)@.auctions.len() {
                    assert(self@.auctions[j] == old(self)@.auctions[j]);
                    assert(self@.bids[j] == old(self)@.bids[j]);
                }
            }
            assert forall|j: int| 0 <= j < self@.auctions.len() implies leader_is_not_seller(
                self@.auctions[j],
                #[trigger] self@.bids[j],
            ) by {
                if j < old(self)@.auctions.len() {
                    assert(self@.auctions[j] == old(self)@.auctions[j]);
                    assert(self@.bids[j] == old(self)@.bids[j]);
                }
            }
        }
        Ok(auction)
    }

    /// Settles auction `auction_id` once its end time has come.
    ///
    /// With no bid the auction just ends. A leading bid below the minimum
    /// price goes back to its bidder. Otherwise the bid goes to the seller
    /// and the item to the bidder.
    pub fn finalize_auction(&mut self, auction_id: u64, now: u64) -> (r: Result<Settlement, ContractError>)
        requires
            old(self).wf(),
        ensures
            final(self).wf(),
            r is Err ==> final(self)@ == old(self)@,
            is_settled(old(self)@, auction_id) ==> r is Err && final(self)@ == old(self)@,
            !old(self)@.has(auction_id) ==> r == Err::<Settlement, ContractError>(
                ContractError::AuctionNotFound,
            ),
            old(self)@.has(auction_id) ==> {
                let a = old(self)@.auction(auction_id);
                let b = old(self)@.bid(auction_id);
                let ended = Auction { status: AuctionStatus::Ended, ..a };
                &&& a.status != AuctionStatus::Active ==> r == Err::<Settlement, ContractError>(
                    ContractError::AuctionNotActive,
                )
                &&& a.status == AuctionStatus::Active && now < a.end_time ==> r == Err::<
                    Settlement,
                    ContractError,
                >(ContractError::AuctionNotFinished)
                &&& a.status == AuctionStatus::Active && now >= a.end_time ==> {
                    &&& r matches Ok(s)
                    &&& final(self)@ == old(self)@.with(auction_id, ended, b)
                    &&& conserves_escrow(old(self)@, final(self)@, auction_id, s.payments@)
                    &&& b is None ==> s.payments@ == Seq::<Payment>::empty() && s.items@ == Seq::<
                        ItemTransfer,
                    >::empty()
                    &&& b is Some && !min_price_met(a) ==> s.payments@ == seq![
                        refund_payment(a, b.unwrap()),
                    ] && s.items@ == Seq::<ItemTransfer>::empty()
                        && net_received(s.payments@, b.unwrap().bidder) == b.unwrap().bid
                        && net_received(s.payments@, a.seller) == 0
                    &&& b is Some && min_price_met(a) ==> s.payments@ == seq![
                        payout_payment(a, b.unwrap()),
                    ] && s.items@ == seq![item_delivery(a, b.unwrap().bidder)]
                        && net_received(s.payments@, a.seller) == b.unwrap().bid
                        && net_received(s.payments@, b.unwrap().bidder) == 0
                }
            },
    {
        let i = match self.index_of(auction_id) {
            Some(i) => i,
            None => { return Err(ContractError::AuctionNotFound); },
        };
        let mut auction = self.auctions[i];
        let bid = self.highest_bids[i];
        check_auction_can_be_finalized(&auction, now)?;
        let mut settlement = Settlement::empty();
        match bid {
            None => {},
            Some(h) => {
                if minimum_price_reached(&auction) {
                    settlement.payments.push(Payment {
                        asset: auction.auction_token,
                        from: Holder::Escrow,
                        to: Holder::Account(auction.seller),
                        amount: h.bid,
                    });
                    settlement.items.push(ItemTransfer {
                        collection_addr: auction.item_info.collection_addr,
                        item_id: auction.item_info.item_id,
                        from: auction.seller,
                        to: h.bidder,
                        amount: auction.item_info.amount,
                    });
                } else {
                    settlement.payments.push(Payment {
                        asset: auction.auction_token,
                        from: Holder::Escrow,
                        to: Holder::Account(h.bidder),
                        amount: h.bid,
                    });
                }
                proof {
                    let p = settlement.payments@[0];
                    assert(settlement.payments@ =~= seq![p]);
                    lemma_flows_of_pair(p, p, h.bidder);
                    lemma_flows_of_pair(p, p, auction.seller);
                }
            },
        }
        auction.status = AuctionStatus::Ended;
        self.save_auction(auction, bid);
        Ok(settlement)
    }

    /// Places a bid of `bid_amount` by `bidder` on auction `auction_id` at time `now`.
    ///
    /// The bid must exceed the leading one, or zero if there is none. The
    /// leading bid goes back to its bidder and the new one into escrow; the
    /// caller has checked the bidder's authorization.
    pub fn place_bid(&mut self, auction_id: u64, bidder: Address, bid_amount: u64, now: u64) -> (r: Result<
        Settlement,
        ContractError,
    >)
        requires
            old(self).wf(),
        ensures
            final(self).wf(),
            r is Err ==> final(self)@ == old(self)@,
            is_settled(old(self)@, auction_id) ==> r is Err && final(self)@ == old(self)@,
            !old(self)@.has(auction_id) ==> r == Err::<Settlement, ContractError>(
                ContractError::AuctionNotFound,
            ),
            old(self)@.has(auction_id) ==> {
                let a = old(self)@.auction(auction_id);
                let b = old(self)@.bid(auction_id);
                let raised = Auction { highest_bid: Some(bid_amount), ..a };
                let lead = HighestBid { bid: bid_amount, bidder };
                &&& r is Ok ==> bid_amount > bid_floor(a)
                &&& now > a.end_time || a.status != AuctionStatus::Active ==> r == Err::<
                    Settlement,
                    ContractError,
                >(ContractError::AuctionNotActive)
                &&& now <= a.end_time && a.status == AuctionStatus::Active && bidder == a.seller ==> r
                    == Err::<Settlement, ContractError>(ContractError::InvalidBidder)
                &&& now <= a.end_time && a.status == AuctionStatus::Active && bidder != a.seller
                    && bid_amount <= bid_floor(a) ==> r == Err::<Settlement, ContractError>(
                    ContractError::BidNotEnough,
                )
                &&& now <= a.end_time && a.status == AuctionStatus::Active && bidder != a.seller
                    && bid_amount > bid_floor(a) ==> {
                    &&& r matches Ok(s)
                    &&& final(self)@ == old(self)@.with(auction_id, raised, Some(lead))
                    &&& conserves_escrow(old(self)@, final(self)@, auction_id, s.payments@)
                    &&& b is Some && b.unwrap().bidder != bidder ==> net_received(
                        s.payments@,
                        b.unwrap().bidder,
                    ) == b.unwrap().bid
                    &&& s.items@ == Seq::<ItemTransfer>::empty()
                    &&& b is None ==> s.payments@ == seq![deposit_payment(a, bidder, bid_amount)]
                    &&& b is Some ==> s.payments@ == seq![
                        refund_payment(a, b.unwrap()),
                        deposit_payment(a, bidder, bid_amount),
                    ]
                }
            },
    {
        let i = match self.index_of(auction_id) {
            Some(i) => i,
            None => { return Err(ContractError::AuctionNotFound); },
        };
        let mut auction = self.auctions[i];
        if now > auction.end_time || auction.status != AuctionStatus::Active {
            return Err(ContractError::AuctionNotActive);
        }
        if bidder == auction.seller {
            return Err(ContractError::InvalidBidder);
        }
        let mut settlement = Settlement::empty();
        match self.highest_bids[i] {
            Some(previous) => {
                if bid_amount <= previous.bid {
                    return Err(ContractError::BidNotEnough);
                }
                settlement.payments.push(Payment {
                    asset: auction.auction_token,
                    from: Holder::Escrow,
                    to: Holder::Account(previous.bidder),
                    amount: previous.bid,
                });
            },
            None => {
                if bid_amount == 0 {
                    return Err(ContractError::BidNotEnough);
                }
            },
        }
        settlement.payments.push(Payment {
            asset: auction.auction_token,
            from: Holder::Account(bidder),
            to: Holder::Escrow,
            amount: bid_amount,
        });
        proof {
            let first = settlement.payments@[0];
            let last = settlement.payments@.last();
            match self.highest_bids@[i as int] {
                Some(previous) => {
                    assert(settlement.payments@ =~= seq![first, last]);
                    lemma_flows_of_pair(first, last, previous.bidder);
                },
                None => {
                    assert(settlement.payments@ =~= seq![first]);
                    lemma_flows_of_pair(first, first, bidder);
                },
            }
        }
        auction.highest_bid = Some(bid_amount);
        self.save_auction(auction, Some(HighestBid { bid: bid_amount, bidder }));
        Ok(settlement)
    }

    /// Sells the item of auction `auction_id` to `buyer` at its buy-now price.
    ///
    /// Any leading bid goes back to its bidder, the buyer pays the seller
    /// directly, and the auction ends whatever its minimum price.
    pub fn buy_now(&mut self, auction_id: u64, buyer: Address, now: u64) -> (r: Result<
        Settlement,
        ContractError,
    >)
        requires
            old(self).wf(),
        ensures
            final(self).wf(),
            r is Err ==> final(self)@ == old(self)@,
            is_settled(old(self)@, auction_id) ==> r is Err && final(self)@ == old(self)@,
            !old(self)@.has(auction_id) ==> r == Err::<Settlement, ContractError>(
                ContractError::AuctionNotFound,
            ),
            old(self)@.has(auction_id) ==> {
                let a = old(self)@.auction(auction_id);
                let b = old(self)@.bid(auction_id);
                let price = a.item_info.buy_now_price;
                let sold = Auction { status: AuctionStatus::Ended, highest_bid: price, ..a };
                let purchase = Payment {
                    asset: a.auction_token,
                    from: Holder::Account(buyer),
                    to: Holder::Account(a.seller),
                    amount: price.unwrap(),
                };
                &&& now > a.end_time || a.status != AuctionStatus::Active ==> r == Err::<
                    Settlement,
                    ContractError,
                >(ContractError::AuctionNotActive)
                &&& now <= a.end_time && a.status == AuctionStatus::Active && price is None ==> r
                    == Err::<Settlement, ContractError>(ContractError::NoBuyNowOption)
                &&& now <= a.end_time && a.status == AuctionStatus::Active && price is Some ==> {
                    &&& r matches Ok(s)
                    &&& conserves_escrow(old(self)@, final(self)@, auction_id, s.payments@)
                    &&& b is Some && b.unwrap().bidder != buyer ==> net_received(
                        s.payments@,
                        b.unwrap().bidder,
                    ) == b.unwrap().bid
                    &&& buyer != a.seller && (b is None || b.unwrap().bidder != buyer) ==> net_received(
                        s.payments@,
                        buyer,
                    ) == -(price.unwrap() as int) && net_received(s.payments@, a.seller) == price.unwrap()
                    &&& final(self)@ == old(self)@.with(
                        auction_id,
                        sold,
                        Some(HighestBid { bid: price.unwrap(), bidder: buyer }),
                    )
                    &&& s.items@ == seq![item_delivery(a, buyer)]
                    &&& b is None ==> s.payments@ == seq![purchase]
                    &&& b is Some ==> s.payments@ == seq![refund_payment(a, b.unwrap()), purchase]
                }
            },
    {
        let i = match self.index_of(auction_id) {
            Some(i) => i,
            None => { return Err(ContractError::AuctionNotFound); },
        };
        let mut auction = self.auctions[i];
        if now > auction.end_time || auction.status != AuctionStatus::Active {
            return Err(ContractError::AuctionNotActive);
        }
        let price = match auction.item_info.buy_now_price {
            Some(p) => p,
            None => { return Err(ContractError::NoBuyNowOption); },
        };
        let mut settlement = Settlement::empty();
        match self.highest_bids[i] {
            Some(previous) => {
                settlement.payments.push(Payment {
                    asset: auction.auction_token,
                    from: Holder::Escrow,
                    to: Holder::Account(previous.bidder),
                    amount: previous.bid,
                });
            },
            None => {},
        }
        settlement.payments.push(Payment {
            asset: auction.auction_token,
            from: Holder::Account(buyer),
            to: Holder::Account(auction.seller),
            amount: price,
        });
        proof {
            let first = settlement.payments@[0];
            let last = settlement.payments@.last();
            match self.highest_bids@[i as int] {
                Some(previous) => {
                    assert(settlement.payments@ =~= seq![first, last]);
                    lemma_flows_of_pair(first, last, previous.bidder);
                    lemma_flows_of_pair(first, last, buyer);
                    lemma_flows_of_pair(first, last, auction.seller);
                },
                None => {
                    assert(settlement.payments@ =~= seq![first]);
                    lemma_flows_of_pair(first, first, buyer);
                    lemma_flows_of_pair(first, first, auction.seller);
                },
            }
        }
        settlement.items.push(ItemTransfer {
            collection_addr: auction.item_info.collection_addr,
            item_id: auction.item_info.item_id,
            from: auction.seller,
            to: buyer,
            amount: auction.item_info.amount,
        });
        auction.status = AuctionStatus::Ended;
        auction.highest_bid = Some(price);
        self.save_auction(auction, Some(HighestBid { bid: price, bidder: buyer }));
        Ok(settlement)
    }

    pub fn get_auction(&self, auction_id: u64) -> (r: Result<Auction, ContractError>)
        requires
            self.wf(),
        ensures
            self@.has(auction_id) ==> r == Ok::<Auction, ContractError>(self@.auction(auction_id)),
            !self@.has(auction_id) ==> r == Err::<Auction, ContractError>(ContractError::AuctionNotFound),
    {
        self.get_auction_by_id(auction_id)
    }

    /// The leading bid of auction `auction_id`.
    pub fn get_highest_bid(&self, auction_id: u64) -> (r: Result<HighestBid, ContractError>)
        requires
            self.wf(),
        ensures
            !self@.has(auction_id) ==> r == Err::<HighestBid, ContractError>(ContractError::AuctionNotFound),
            self@.has(auction_id) && self@.bid(auction_id) is None ==> r == Err::<HighestBid, ContractError>(
                ContractError::MissingHighestBid,
            ),
            self@.has(auction_id) && self@.bid(auction_id) is Some ==> r == Ok::<HighestBid, ContractError>(
                self@.bid(auction_id).unwrap(),
            ),
    {
        match self.index_of(auction_id) {
            Some(i) => match self.highest_bids[i] {
                Some(h) => Ok(h),
                None => Err(ContractError::MissingHighestBid),
            },
            None => Err(ContractError::AuctionNotFound),
        }
    }

    /// The auctions with identifiers from `start_index` (default 1) to
    /// `start_index + limit` (default limit 10), both included, that exist.
    pub fn get_auctions(&self, start_index: Option<u64>, limit: Option<u64>) -> (r: Result<
        Vec<Auction>,
        ContractError,
    >)
        requires
            self.wf(),
        ensures
            r matches Ok(v) && v@ == self@.in_range(
                listing_window(start_index, limit).0,
                listing_window(start_index, limit).1,
            ),
    {
        let start = match start_index {
            Some(s) => s,
            None => DEFAULT_INDEX,
        };
        let width = match limit {
            Some(l) => l,
            None => DEFAULT_LIMIT,
        };
        let count = self.auctions.len();
        let from: usize = if start < 1 {
            0
        } else if start - 1 >= count as u64 {
            count
        } else {
            (start - 1) as usize
        };
        let to: usize = if width >= count as u64 || start > count as u64 - width {
            count
        } else {
            (start + width) as usize
        };
        let mut result: Vec<Auction> = Vec::new();
        let mut i: usize = from;
        while i < to
            invariant
                from <= i <= to || (to < from && i == from),
                to <= count == self.auctions@.len(),
                from <= count,
                result@ == self.auctions@.subrange(from as int, i as int),
            decreases to - i,
        {
            result.push(self.auctions[i]);
            assert(self.auctions@.subrange(from as int, i + 1) =~= self.auctions@.subrange(
                from as int,
                i as int,
            ).push(self.auctions@[i as int]));
            i += 1;
        }
        assert(result@ =~= self@.in_range(start as int, start + width));
        Ok(result)
    }

    /// The active auctions among those that `get_auctions` lists.
    pub fn get_active_auctions(&self, start_index: Option<u64>, limit: Option<u64>) -> (r: Result<
        Vec<Auction>,
        ContractError,
    >)
        requires
            self.wf(),
        ensures
            r matches Ok(v) && v@ == active_only(
                self@.in_range(listing_window(start_index, limit).0, listing_window(start_index, limit).1),
            ),
    {
        let all = self.get_auctions(start_index, limit)?;
        let mut result: Vec<Auction> = Vec::new();
        let mut i: usize = 0;
        while i < all.len()
            invariant
                0 <= i <= all@.len(),
                result@ == active_only(all@.subrange(0, i as int)),
            decreases all@.len() - i,
        {
            let a = all[i];
            proof {
                let pred = |a: Auction| a.status == AuctionStatus::Active;
                assert(all@.subrange(0, i + 1) =~= all@.subrange(0, i as int).push(a));
                all@.subrange(0, i as int).lemma_filter_push(a, pred);
            }
            if a.status == AuctionStatus::Active {
                result.push(a);
            }
            i += 1;
        }
        assert(all@.subrange(0, i as int) =~= all@);
        Ok(result)
    }

    /// Every auction that `seller` listed, in the order of listing.
    pub fn get_auctions_by_seller(&self, seller: Address) -> (r: Result<Vec<Auction>, ContractError>)
        requires
            self.wf(),
        ensures
            listed_by(self@.auctions, seller).len() == 0 ==> r == Err::<Vec<Auction>, ContractError>(
                ContractError::AuctionNotFound,
            ),
            listed_by(self@.auctions, seller).len() > 0 ==> (r matches Ok(v) && v@ == listed_by(
                self@.auctions,
                seller,
            )),
    {
        let mut result: Vec<Auction> = Vec::new();
        let mut i: usize = 0;
        while i < self.auctions.len()
            invariant
                0 <= i <= self.auctions@.len(),
                result@ == listed_by(self.auctions@.subrange(0, i as int), seller),
            decreases self.auctions@.len() - i,
        {
            let a = self.auctions[i];
            proof {
                let pred = |a: Auction| a.seller == seller;
                assert(self.auctions@.subrange(0, i + 1) =~= self.auctions@.subrange(0, i as int).push(a));
                self.auctions@.subrange(0, i as int).lemma_filter_push(a, pred);
            }
            if a.seller == seller {
                result.push(a);
            }
            i += 1;
        }
        assert(self.auctions@.subrange(0, i as int) =~= self.auctions@);
        if result.len() == 0 {
            return Err(ContractError::AuctionNotFound);
        }
        Ok(result)
    }

    /// Suspends bidding on auction `auction_id`; its clock keeps running.
    /// The caller has checked the seller's authorization.
    pub fn pause(&mut self, auction_id: u64, now: u64) -> (r: Result<(), ContractError>)
        requires
            old(self).wf(),
        ensures
            final(self).wf(),
            r is Err ==> final(self)@ == old(self)@,
            is_settled(old(self)@, auction_id) ==> r is Err && final(self)@ == old(self)@,
            !old(self)@.has(auction_id) ==> r == Err::<(), ContractError>(ContractError::AuctionNotFound),
            old(self)@.has(auction_id) ==> {
                let a = old(self)@.auction(auction_id);
                &&& now > a.end_time || a.status != AuctionStatus::Active ==> r == Err::<(), ContractError>(
                    ContractError::AuctionNotActive,
                )
                &&& now <= a.end_time && a.status == AuctionStatus::Active ==> r is Ok && final(self)@
                    == old(self)@.with(
                    auction_id,
                    Auction { status: AuctionStatus::Paused, ..a },
                    old(self)@.bid(auction_id),
                )
                    && conserves_escrow(old(self)@, final(self)@, auction_id, Seq::<Payment>::empty())
            },
    {
        let i = match self.index_of(auction_id) {
            Some(i) => i,
            None => { return Err(ContractError::AuctionNotFound); },
        };
        let mut auction = self.auctions[i];
        if auction.status != AuctionStatus::Active {
            return Err(ContractError::AuctionNotActive);
        }
        if now > auction.end_time {
            return Err(ContractError::AuctionNotActive);
        }
        auction.status = AuctionStatus::Paused;
        let bid = self.highest_bids[i];
        self.save_auction(auction, bid);
        Ok(())
    }

    /// Resumes bidding on a paused auction `auction_id` that has not expired.
    /// The caller has checked the seller's authorization.
    pub fn unpause(&mut self, auction_id: u64, now: u64) -> (r: Result<(), ContractError>)
        requires
            old(self).wf(),
        ensures
            final(self).wf(),
            r is Err ==> final(self)@ == old(self)@,
            is_settled(old(self)@, auction_id) ==> r is Err && final(self)@ == old(self)@,
            !old(self)@.has(auction_id) ==> r == Err::<(), ContractError>(ContractError::AuctionNotFound),
            old(self)@.has(auction_id) ==> {
                let a = old(self)@.auction(auction_id);
                &&& now > a.end_time ==> r == Err::<(), ContractError>(ContractError::AuctionNotActive)
                &&& now <= a.end_time && a.status != AuctionStatus::Paused ==> r == Err::<(), ContractError>(
                    ContractError::AuctionNotPaused,
                )
                &&& now <= a.end_time && a.status == AuctionStatus::Paused ==> r is Ok && final(self)@
                    == old(self)@.with(
                    auction_id,
                    Auction { status: AuctionStatus::Active, ..a },
                    old(self)@.bid(auction_id),
                )
                    && conserves_escrow(old(self)@, final(self)@, auction_id, Seq::<Payment>::empty())
            },
    {
        let i = match self.index_of(auction_id) {
            Some(i) => i,
            None => { return Err(ContractError::AuctionNotFound); },
        };
        let mut auction = self.auctions[i];
        if now > auction.end_time {
            return Err(ContractError::AuctionNotActive);
        }
        if auction.status != AuctionStatus::Paused {
            return Err(ContractError::AuctionNotPaused);
        }
        auction.status = AuctionStatus::Active;
        let bid = self.highest_bids[i];
        self.save_auction(auction, bid);
        Ok(())
    }

    pub fn get_auction_by_id(&self, auction_id: u64) -> (r: Result<Auction, ContractError>)
        requires
            self.wf(),
        ensures
            self@.has(auction_id) ==> r == Ok::<Auction, ContractError>(self@.auction(auction_id)),
            !self@.has(auction_id) ==> r == Err::<Auction, ContractError>(ContractError::AuctionNotFound),
    {
        match self.index_of(auction_id) {
            Some(i) => Ok(self.auctions[i]),
            None => Err(ContractError::AuctionNotFound),
        }
    }
}

} // verus!
