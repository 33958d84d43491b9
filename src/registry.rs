use crate::dna::{crossover, crossover_spec, gender_of};
use crate::dna::Kitty;
use crate::randomness::{random_spec, random_value};
use std::collections::HashMap;
use vstd::prelude::*;

verus! {

broadcast use vstd::std_specs::hash::group_hash_axioms;

/// Identity of an account.
pub type AccountId = u64;

/// Amount of currency.
pub type Balance = u64;

/// Why a registry operation failed; a failed operation changes nothing.
#[derive(Clone, Copy, Debug, PartialEq, Eq, Structural)]
pub enum Error {
    /// The id counter is exhausted.
    KittiesIdOverflow,
    /// The two parents have the same gender.
    SameGenderBreed,
    /// The kitty does not exist or is not owned by the acting account.
    KittenNotFound,
    /// The kitty has no listing.
    NotForSale,
    /// The offered maximum is below the asking price.
    PriceTooLow,
    /// The buyer already owns the kitty.
    BuyFromSelf,
    /// The currency transfer of a purchase failed.
    Payment(PaymentError),
}

/// Failure reported by a currency service.
#[derive(Clone, Copy, Debug, PartialEq, Eq, Structural)]
pub enum PaymentError {
    InsufficientFunds,
    Other,
}

/// Whether a payer must keep its minimum balance after a transfer.
#[derive(Clone, Copy, Debug, PartialEq, Eq, Structural)]
pub enum ExistenceRequirement {
    KeepAlive,
    AllowDeath,
}

/// One transfer that a currency service was asked to make, with its outcome.
#[derive(Clone, Copy, Debug, PartialEq, Eq)]
pub struct PaymentAttempt {
    pub source: AccountId,
    pub dest: AccountId,
    pub value: Balance,
    pub existence: ExistenceRequirement,
    pub outcome: Result<(), PaymentError>,
}

/// A currency service that moves balances between accounts. Whether a transfer
/// succeeds is the service's own decision.
pub trait Currency {
    fn transfer(
        &mut self,
        source: AccountId,
        dest: AccountId,
        value: Balance,
        existence: ExistenceRequirement,
    ) -> Result<(), PaymentError>;
}

/// A currency service together with the record of every transfer requested
/// through it and what the service returned.
pub struct PaymentRecorder<C> {
    currency: C,
    attempts: Vec<PaymentAttempt>,
}

impl<C: Currency> PaymentRecorder<C> {
    /// The transfers requested so far, oldest first.
    pub closed spec fn history(&self) -> Seq<PaymentAttempt> {
        self.attempts@
    }

    /// Wraps `currency` with an empty record.
    pub fn new(currency: C) -> (r: PaymentRecorder<C>)
        ensures
            r.history() == Seq::<PaymentAttempt>::empty(),
    {
        PaymentRecorder { currency, attempts: Vec::new() }
    }

    /// Asks the service for one transfer and records it with its outcome.
    pub fn transfer(
        &mut self,
        source: AccountId,
        dest: AccountId,
        value: Balance,
        existence: ExistenceRequirement,
    ) -> (r: Result<(), PaymentError>)
        ensures
            final(self).history() == old(self).history().push(
                (PaymentAttempt { source, dest, value, existence, outcome: r }),
            ),
    {
        let outcome = self.currency.transfer(source, dest, value, existence);
        self.attempts.push(PaymentAttempt { source, dest, value, existence, outcome });
        outcome
    }

    /// The transfers requested so far, oldest first.
    pub fn attempts(&self) -> (r: &Vec<PaymentAttempt>)
        ensures
            r@ == self.history(),
    {
        &self.attempts
    }

    /// The wrapped currency service.
    pub fn currency(&self) -> (r: &C) {
        &self.currency
    }
}

/// Notifications, appended to the registry's log in commit order.
#[derive(Clone, Copy, Debug, PartialEq, Eq)]
pub enum Event {
    /// owner / kitty id / kitty
    KittyCreated(AccountId, u32, Kitty),
    /// owner / first parent / second parent / child
    KittyBreed(AccountId, Kitty, Kitty, Kitty),
    /// old owner / new owner / kitty
    KittyTransferred(AccountId, AccountId, Kitty),
    /// owner / kitty id / new price
    KittyPriceUpdated(AccountId, u32, Option<Balance>),
    /// seller / buyer / kitty id / price
    KittySold(AccountId, AccountId, u32, Balance),
}

/// The ownership ledger, the id counter, the listings and the event log.
pub struct Kitties {
    kitties: HashMap<u32, (AccountId, Kitty)>,
    next_kitty_id: u32,
    kitty_prices: HashMap<u32, Balance>,
    events: Vec<Event>,
}

impl Kitties {
    /// Each existing kitty id, with its owner and DNA.
    pub closed spec fn records(&self) -> Map<u32, (AccountId, Kitty)> {
        self.kitties@
    }

    /// The asking price of each listed kitty.
    pub closed spec fn prices(&self) -> Map<u32, Balance> {
        self.kitty_prices@
    }

    /// The next id that a mint hands out.
    pub closed spec fn next_id(&self) -> u32 {
        self.next_kitty_id
    }

    /// The notifications emitted so far, oldest first.
    pub closed spec fn log(&self) -> Seq<Event> {
        self.events@
    }

    /// Every id in use lies below the counter, and only existing kitties are listed.
    pub open spec fn wf(&self) -> bool {
        &&& forall|id: u32| #[trigger] self.records().contains_key(id) ==> id < self.next_id()
        &&& forall|id: u32| #[trigger] self.prices().contains_key(id) ==> self.records().contains_key(id)
    }

    pub open spec fn owns(&self, owner: AccountId, id: u32) -> bool {
        self.records().contains_key(id) && self.records()[id].0 == owner
    }

    pub open spec fn kitty_of(&self, id: u32) -> Kitty {
        self.records()[id].1
    }

    /// `post` holds exactly the same state as `pre`.
    pub open spec fn unchanged(pre: Kitties, post: Kitties) -> bool {
        &&& post.records() == pre.records()
        &&& post.prices() == pre.prices()
        &&& post.next_id() == pre.next_id()
        &&& post.log() == pre.log()
    }

    /// Outcome of allocating an id.
    pub open spec fn next_id_spec(pre: Kitties, post: Kitties, r: Result<u32, Error>) -> bool {
        if pre.next_id() == u32::MAX {
            r == Err::<u32, Error>(Error::KittiesIdOverflow) && Kitties::unchanged(pre, post)
        } else {
            &&& r == Ok::<u32, Error>(pre.next_id())
            &&& !pre.records().contains_key(pre.next_id())
            &&& post.next_id() == pre.next_id() + 1
            &&& post.records() == pre.records()
            &&& post.prices() == pre.prices()
            &&& post.log() == pre.log()
        }
    }

    /// Outcome of minting `kitty` for `owner`.
    pub open spec fn mint_spec(
        pre: Kitties,
        post: Kitties,
        owner: AccountId,
        kitty: Kitty,
        r: Result<u32, Error>,
    ) -> bool {
        if pre.next_id() == u32::MAX {
            r == Err::<u32, Error>(Error::KittiesIdOverflow) && Kitties::unchanged(pre, post)
        } else {
            let id = pre.next_id();
            &&& r == Ok::<u32, Error>(id)
            &&& !pre.records().contains_key(id)
            &&& post.next_id() == id + 1
            &&& post.records() == pre.records().insert(id, (owner, kitty))
            &&& post.prices() == pre.prices()
            &&& post.log() == pre.log().push(Event::KittyCreated(owner, id, kitty))
        }
    }

    /// Outcome of `sender` breeding kitties `first` and `second` under `selector`.
    pub open spec fn breed_spec(
        pre: Kitties,
        post: Kitties,
        sender: AccountId,
        first: u32,
        second: u32,
        selector: Seq<u8>,
        r: Result<u32, Error>,
    ) -> bool {
        if !pre.owns(sender, first) || !pre.owns(sender, second) {
            r == Err::<u32, Error>(Error::KittenNotFound) && Kitties::unchanged(pre, post)
        } else if gender_of(pre.kitty_of(first)@) == gender_of(pre.kitty_of(second)@) {
            r == Err::<u32, Error>(Error::SameGenderBreed) && Kitties::unchanged(pre, post)
        } else if pre.next_id() == u32::MAX {
            r == Err::<u32, Error>(Error::KittiesIdOverflow) && Kitties::unchanged(pre, post)
        } else {
            let id = pre.next_id();
            let child = post.kitty_of(id);
            &&& r == Ok::<u32, Error>(id)
            &&& !pre.records().contains_key(id)
            &&& child@ == crossover_spec(pre.kitty_of(first)@, pre.kitty_of(second)@, selector)
            &&& post.next_id() == id + 1
            &&& post.records() == pre.records().insert(id, (sender, child))
            &&& post.prices() == pre.prices()
            &&& post.log() == pre.log().push(
                Event::KittyBreed(sender, pre.kitty_of(first), pre.kitty_of(second), child),
            )
        }
    }

    /// Outcome of `sender` transferring kitty `id` to `dest`.
    pub open spec fn transfer_spec(
        pre: Kitties,
        post: Kitties,
        sender: AccountId,
        id: u32,
        dest: AccountId,
        r: Result<(), Error>,
    ) -> bool {
        if !pre.owns(sender, id) {
            r == Err::<(), Error>(Error::KittenNotFound) && Kitties::unchanged(pre, post)
        } else if sender == dest {
            r == Ok::<(), Error>(()) && Kitties::unchanged(pre, post)
        } else {
            &&& r == Ok::<(), Error>(())
            &&& post.records() == pre.records().insert(id, (dest, pre.kitty_of(id)))
            &&& post.prices() == pre.prices().remove(id)
            &&& post.next_id() == pre.next_id()
            &&& post.log() == pre.log().push(Event::KittyTransferred(sender, dest, pre.kitty_of(id)))
        }
    }

    /// Outcome of `sender` setting or clearing the price of kitty `id`.
    pub open spec fn set_price_spec(
        pre: Kitties,
        post: Kitties,
        sender: AccountId,
        id: u32,
        price: Option<Balance>,
        r: Result<(), Error>,
    ) -> bool {
        if !pre.owns(sender, id) {
            r == Err::<(), Error>(Error::KittenNotFound) && Kitties::unchanged(pre, post)
        } else {
            &&& r == Ok::<(), Error>(())
            &&& post.records() == pre.records()
            &&& post.prices() == match price {
                Some(p) => pre.prices().insert(id, p),
                None => pre.prices().remove(id),
            }
            &&& post.next_id() == pre.next_id()
            &&& post.log() == pre.log().push(Event::KittyPriceUpdated(sender, id, price))
        }
    }

    /// What `buyer` must pay to buy kitty `id` from `owner` for at most `max_price`,
    /// or why the purchase is refused.
    pub open spec fn quote_spec(
        self,
        buyer: AccountId,
        owner: AccountId,
        id: u32,
        max_price: Balance,
    ) -> Result<Balance, Error> {
        if buyer == owner {
            Err(Error::BuyFromSelf)
        } else if !self.owns(owner, id) {
            Err(Error::KittenNotFound)
        } else if !self.prices().contains_key(id) {
            Err(Error::NotForSale)
        } else if max_price < self.prices()[id] {
            Err(Error::PriceTooLow)
        } else {
            Ok(self.prices()[id])
        }
    }

    /// The state after `buyer` has bought kitty `id` from `owner` at its listed price.
    pub open spec fn sold_spec(pre: Kitties, post: Kitties, buyer: AccountId, owner: AccountId, id: u32) -> bool {
        &&& post.records() == pre.records().insert(id, (buyer, pre.kitty_of(id)))
        &&& post.prices() == pre.prices().remove(id)
        &&& post.next_id() == pre.next_id()
        &&& post.log() == pre.log().push(Event::KittySold(owner, buyer, id, pre.prices()[id]))
    }

    /// Outcome of a purchase: a refused one, and one whose payment failed,
    /// change nothing; a paid one hands the kitty over.
    pub open spec fn buy_spec(
        pre: Kitties,
        post: Kitties,
        buyer: AccountId,
        owner: AccountId,
        id: u32,
        max_price: Balance,
        r: Result<(), Error>,
    ) -> bool {
        match pre.quote_spec(buyer, owner, id, max_price) {
            Err(e) => r == Err::<(), Error>(e) && Kitties::unchanged(pre, post),
            Ok(_) => match r {
                Ok(()) => Kitties::sold_spec(pre, post, buyer, owner, id),
                Err(e) => (e is Payment) && Kitties::unchanged(pre, post),
            },
        }
    }

    /// The payments a purchase requests: none when it is refused; otherwise
    /// exactly one, from the buyer to the owner, of the listed price, keeping the
    /// buyer alive, and the purchase succeeds exactly when that payment does.
    pub open spec fn payment_spec(
        pre: Kitties,
        buyer: AccountId,
        owner: AccountId,
        id: u32,
        max_price: Balance,
        before: Seq<PaymentAttempt>,
        after: Seq<PaymentAttempt>,
        r: Result<(), Error>,
    ) -> bool {
        match pre.quote_spec(buyer, owner, id, max_price) {
            Err(_) => after == before,
            Ok(price) => {
                let outcome = after.last().outcome;
                &&& after == before.push(
                    (PaymentAttempt {
                        source: buyer,
                        dest: owner,
                        value: price,
                        existence: ExistenceRequirement::KeepAlive,
                        outcome,
                    }),
                )
                &&& r == match outcome {
                    Ok(()) => Ok::<(), Error>(()),
                    Err(e) => Err::<(), Error>(Error::Payment(e)),
                }
            },
        }
    }

    /// An empty registry.
    pub fn new() -> (r: Kitties)
        ensures
            r.wf(),
            r.records() == Map::<u32, (AccountId, Kitty)>::empty(),
            r.prices() == Map::<u32, Balance>::empty(),
            r.next_id() == 0,
            r.log() == Seq::<Event>::empty(),
    {
        Kitties {
            kitties: HashMap::new(),
            next_kitty_id: 0,
            kitty_prices: HashMap::new(),
            events: Vec::new(),
        }
    }

    /// The id that the next mint will hand out.
    pub fn next_kitty_id(&self) -> (r: u32)
        ensures
            r == self.next_id(),
    {
        self.next_kitty_id
    }

    /// The kitty `id` if `owner` owns it; an id owned by someone else reads as absent.
    pub fn kitties(&self, owner: AccountId, id: u32) -> (r: Option<Kitty>)
        ensures
            r == (if self.owns(owner, id) { Some(self.kitty_of(id)) } else { None::<Kitty> }),
    {
        match self.kitties.get(&id) {
            Some(record) => {
                if record.0 == owner {
                    Some(record.1)
                } else {
                    None
                }
            },
            None => None,
        }
    }

    /// Whether `owner` owns kitty `id`.
    pub fn exists_for_owner(&self, owner: AccountId, id: u32) -> (r: bool)
        ensures
            r == self.owns(owner, id),
    {
        self.kitties(owner, id).is_some()
    }

    /// The asking price of kitty `id`, if listed.
    pub fn kitty_prices(&self, id: u32) -> (r: Option<Balance>)
        ensures
            r == (if self.prices().contains_key(id) { Some(self.prices()[id]) } else { None::<Balance> }),
    {
        match self.kitty_prices.get(&id) {
            Some(p) => Some(*p),
            None => None,
        }
    }

    /// The notifications emitted so far, oldest first.
    pub fn events(&self) -> (r: &Vec<Event>)
        ensures
            r@ == self.log(),
    {
        &self.events
    }
}

impl Kitties {
    /// Hands out the next unused id; on overflow nothing changes.
    pub fn get_next_kitty_id(&mut self) -> (r: Result<u32, Error>)
        requires
            old(self).wf(),
        ensures
            Kitties::next_id_spec(*old(self), *final(self), r),
            final(self).wf(),
    {
        if self.next_kitty_id == u32::MAX {
            return Err(Error::KittiesIdOverflow);
        }
        let id = self.next_kitty_id;
        self.next_kitty_id = id + 1;
        Ok(id)
    }

    /// Stores `kitty` under a fresh id owned by `owner` and records its creation.
    pub fn mint(&mut self, owner: AccountId, kitty: Kitty) -> (r: Result<u32, Error>)
        requires
            old(self).wf(),
        ensures
            Kitties::mint_spec(*old(self), *final(self), owner, kitty, r),
            final(self).wf(),
    {
        let id = match self.get_next_kitty_id() {
            Ok(id) => id,
            Err(e) => return Err(e),
        };
        self.kitties.insert(id, (owner, kitty));
        self.events.push(Event::KittyCreated(owner, id, kitty));
        Ok(id)
    }

    /// Creates a kitty for `sender` whose DNA is derived from `seed` and the
    /// current extrinsic index.
    pub fn create(&mut self, sender: AccountId, seed: &[u8; 32], extrinsic_index: Option<u32>) -> (r:
        Result<u32, Error>)
        requires
            old(self).wf(),
        ensures
            final(self).wf(),
            Kitties::mint_spec(
                *old(self),
                *final(self),
                sender,
                final(self).kitty_of(old(self).next_id()),
                r,
            ),
            r is Ok ==> final(self).kitty_of(old(self).next_id())@ == random_spec(
                seed@,
                sender,
                extrinsic_index,
            ),
    {
        let kitty = Kitty(random_value(seed, sender, extrinsic_index));
        self.mint(sender, kitty)
    }

    /// Breeds two kitties of `sender` into a new one whose DNA is their crossover
    /// under `selector`.
    pub fn breed_with_selector(
        &mut self,
        sender: AccountId,
        first_kitty_id: u32,
        second_kitty_id: u32,
        selector: &[u8; 16],
    ) -> (r: Result<u32, Error>)
        requires
            old(self).wf(),
        ensures
            Kitties::breed_spec(*old(self), *final(self), sender, first_kitty_id, second_kitty_id, selector@, r),
            final(self).wf(),
    {
        let first = match self.kitties(sender, first_kitty_id) {
            Some(k) => k,
            None => return Err(Error::KittenNotFound),
        };
        let second = match self.kitties(sender, second_kitty_id) {
            Some(k) => k,
            None => return Err(Error::KittenNotFound),
        };
        if first.gender() == second.gender() {
            return Err(Error::SameGenderBreed);
        }
        let child = Kitty(crossover(&first.0, &second.0, selector));
        let id = match self.get_next_kitty_id() {
            Ok(id) => id,
            Err(e) => return Err(e),
        };
        self.kitties.insert(id, (sender, child));
        self.events.push(Event::KittyBreed(sender, first, second, child));
        Ok(id)
    }

    /// Breeds two kitties of `sender`, with a selector derived from `seed` and the
    /// current extrinsic index.
    pub fn breed(
        &mut self,
        sender: AccountId,
        first_kitty_id: u32,
        second_kitty_id: u32,
        seed: &[u8; 32],
        extrinsic_index: Option<u32>,
    ) -> (r: Result<u32, Error>)
        requires
            old(self).wf(),
        ensures
            Kitties::breed_spec(
                *old(self),
                *final(self),
                sender,
                first_kitty_id,
                second_kitty_id,
                random_spec(seed@, sender, extrinsic_index),
                r,
            ),
            final(self).wf(),
    {
        let selector = random_value(seed, sender, extrinsic_index);
        self.breed_with_selector(sender, first_kitty_id, second_kitty_id, &selector)
    }

    /// Moves kitty `kitty_id` from `sender` to `new_owner` and clears its listing;
    /// a transfer to oneself only checks ownership.
    pub fn transfer(&mut self, sender: AccountId, kitty_id: u32, new_owner: AccountId) -> (r: Result<(), Error>)
        requires
            old(self).wf(),
        ensures
            Kitties::transfer_spec(*old(self), *final(self), sender, kitty_id, new_owner, r),
            final(self).wf(),
    {
        let kitty = match self.kitties(sender, kitty_id) {
            Some(k) => k,
            None => return Err(Error::KittenNotFound),
        };
        if sender == new_owner {
            return Ok(());
        }
        self.kitties.insert(kitty_id, (new_owner, kitty));
        self.kitty_prices.remove(&kitty_id);
        self.events.push(Event::KittyTransferred(sender, new_owner, kitty));
        Ok(())
    }

    /// Lists kitty `kitty_id` at `new_price`, or withdraws it when `None`.
    pub fn set_price(&mut self, sender: AccountId, kitty_id: u32, new_price: Option<Balance>) -> (r: Result<(), Error>)
        requires
            old(self).wf(),
        ensures
            Kitties::set_price_spec(*old(self), *final(self), sender, kitty_id, new_price, r),
            final(self).wf(),
    {
        if !self.exists_for_owner(sender, kitty_id) {
            return Err(Error::KittenNotFound);
        }
        match new_price {
            Some(p) => {
                self.kitty_prices.insert(kitty_id, p);
            },
            None => {
                self.kitty_prices.remove(&kitty_id);
            },
        }
        self.events.push(Event::KittyPriceUpdated(sender, kitty_id, new_price));
        Ok(())
    }

    /// The price that `buyer` pays for kitty `kitty_id` of `owner`, offering at
    /// most `max_price`, or why the purchase is refused.
    pub fn purchase_price(&self, buyer: AccountId, owner: AccountId, kitty_id: u32, max_price: Balance) -> (r:
        Result<Balance, Error>)
        ensures
            r == self.quote_spec(buyer, owner, kitty_id, max_price),
    {
        if buyer == owner {
            return Err(Error::BuyFromSelf);
        }
        if !self.exists_for_owner(owner, kitty_id) {
            return Err(Error::KittenNotFound);
        }
        let price = match self.kitty_prices(kitty_id) {
            Some(p) => p,
            None => return Err(Error::NotForSale),
        };
        if max_price < price {
            return Err(Error::PriceTooLow);
        }
        Ok(price)
    }

    /// Completes an accepted purchase once the payment has been attempted: on
    /// success the kitty goes to `buyer` and its listing is cleared; on a failed
    /// payment nothing changes.
    pub fn settle_purchase(
        &mut self,
        buyer: AccountId,
        owner: AccountId,
        kitty_id: u32,
        payment: Result<(), PaymentError>,
    ) -> (r: Result<(), Error>)
        requires
            old(self).wf(),
            old(self).owns(owner, kitty_id),
            old(self).prices().contains_key(kitty_id),
        ensures
            final(self).wf(),
            match payment {
                Ok(()) => r == Ok::<(), Error>(()) && Kitties::sold_spec(*old(self), *final(self), buyer, owner, kitty_id),
                Err(e) => r == Err::<(), Error>(Error::Payment(e)) && Kitties::unchanged(*old(self), *final(self)),
            },
    {
        if let Err(e) = payment {
            return Err(Error::Payment(e));
        }
        let kitty = match self.kitties(owner, kitty_id) {
            Some(k) => k,
            None => return Err(Error::KittenNotFound),
        };
        let price = match self.kitty_prices(kitty_id) {
            Some(p) => p,
            None => return Err(Error::NotForSale),
        };
        self.kitties.insert(kitty_id, (buyer, kitty));
        self.kitty_prices.remove(&kitty_id);
        self.events.push(Event::KittySold(owner, buyer, kitty_id, price));
        Ok(())
    }

    /// Buys kitty `kitty_id` from `owner` for `buyer`, paying the listed price
    /// through `currency` with the payer kept alive. Ownership changes only if
    /// the payment succeeds, and a refused purchase requests no payment.
    pub fn buy<C: Currency>(
        &mut self,
        currency: &mut PaymentRecorder<C>,
        buyer: AccountId,
        owner: AccountId,
        kitty_id: u32,
        max_price: Balance,
    ) -> (r: Result<(), Error>)
        requires
            old(self).wf(),
        ensures
            final(self).wf(),
            Kitties::buy_spec(*old(self), *final(self), buyer, owner, kitty_id, max_price, r),
            Kitties::payment_spec(
                *old(self),
                buyer,
                owner,
                kitty_id,
                max_price,
                old(currency).history(),
                final(currency).history(),
                r,
            ),
    {
        let price = match self.purchase_price(buyer, owner, kitty_id, max_price) {
            Ok(p) => p,
            Err(e) => return Err(e),
        };
        let payment = currency.transfer(buyer, owner, price, ExistenceRequirement::KeepAlive);
        self.settle_purchase(buyer, owner, kitty_id, payment)
    }
}

} // verus!
