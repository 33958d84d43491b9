use kitties::{
    combine_dna, crossover, random_value, AccountId, Balance, Currency, Error, Event,
    ExistenceRequirement, Kitties, Kitty, KittyGender, PaymentAttempt, PaymentError,
    PaymentRecorder,
};
use std::collections::HashMap;

const ALICE: AccountId = 1;
const BOB: AccountId = 2;

fn male() -> Kitty {
    Kitty([0; 16])
}

fn female() -> Kitty {
    Kitty([1, 2, 3, 4, 5, 6, 7, 8, 9, 10, 11, 12, 13, 14, 15, 16])
}

struct Ledger {
    balances: HashMap<AccountId, Balance>,
    minimum: Balance,
    transfers: Vec<(AccountId, AccountId, Balance, ExistenceRequirement)>,
}

impl Ledger {
    fn new(alice: Balance, bob: Balance) -> Ledger {
        let mut balances = HashMap::new();
        balances.insert(ALICE, alice);
        balances.insert(BOB, bob);
        Ledger { balances, minimum: 1, transfers: Vec::new() }
    }

    fn balance(&self, who: AccountId) -> Balance {
        *self.balances.get(&who).unwrap_or(&0)
    }
}

impl Currency for Ledger {
    fn transfer(
        &mut self,
        source: AccountId,
        dest: AccountId,
        value: Balance,
        existence: ExistenceRequirement,
    ) -> Result<(), PaymentError> {
        self.transfers.push((source, dest, value, existence));
        let available = self.balance(source);
        let reserve = match existence {
            ExistenceRequirement::KeepAlive => self.minimum,
            ExistenceRequirement::AllowDeath => 0,
        };
        if available < value + reserve {
            return Err(PaymentError::InsufficientFunds);
        }
        self.balances.insert(source, available - value);
        let credited = self.balance(dest) + value;
        self.balances.insert(dest, credited);
        Ok(())
    }
}

#[test]
fn combine_selector_extremes() {
    for a in [0u8, 1, 0x5A, 0xA5, 0xFF] {
        for b in [0u8, 3, 0x0F, 0xF0, 0xFF] {
            assert_eq!(combine_dna(a, b, 0x00), a);
            assert_eq!(combine_dna(a, b, 0xFF), b);
        }
    }
}

#[test]
fn crossover_takes_bits_by_selector() {
    let first = [0xFFu8; 16];
    let second = [0u8; 16];
    let mut selector = [0u8; 16];
    selector[0] = 0x0F;
    selector[15] = 0xFF;
    let child = crossover(&first, &second, &selector);
    assert_eq!(child[0], 0xF0);
    assert_eq!(child[1], 0xFF);
    assert_eq!(child[15], 0x00);
}

#[test]
fn gender_by_parity_of_first_byte() {
    assert_eq!(Kitty([0; 16]).gender(), KittyGender::Male);
    assert_eq!(Kitty([1, 0, 0, 0, 0, 0, 0, 0, 0, 0, 0, 0, 0, 0, 0, 0]).gender(), KittyGender::Female);
    assert_eq!(Kitty([6, 1, 1, 1, 1, 1, 1, 1, 1, 1, 1, 1, 1, 1, 1, 1]).gender(), KittyGender::Male);
    assert_eq!(Kitty([255; 16]).gender(), KittyGender::Female);
    assert_eq!(female().dna(), [1, 2, 3, 4, 5, 6, 7, 8, 9, 10, 11, 12, 13, 14, 15, 16]);
}

#[test]
fn random_value_hashes_encoded_payload() {
    assert_eq!(
        random_value(&[7; 32], 42, None),
        [7, 72, 252, 214, 193, 57, 44, 152, 58, 46, 159, 4, 168, 64, 169, 204]
    );
    assert_eq!(
        random_value(&[0; 32], 100, Some(1)),
        [58, 36, 211, 58, 117, 234, 190, 85, 254, 225, 241, 247, 216, 199, 247, 142]
    );
}

#[test]
fn mint_ids_increase_by_one() {
    let mut reg = Kitties::new();
    assert_eq!(reg.next_kitty_id(), 0);
    assert_eq!(reg.mint(ALICE, male()), Ok(0));
    assert_eq!(reg.next_kitty_id(), 1);
    assert_eq!(reg.mint(BOB, female()), Ok(1));
    assert_eq!(reg.next_kitty_id(), 2);
    assert_eq!(reg.transfer(ALICE, 0, BOB), Ok(()));
    assert_eq!(reg.mint(ALICE, male()), Ok(2));
    assert_eq!(reg.kitties(ALICE, 2), Some(male()));
    assert_eq!(reg.kitties(BOB, 1), Some(female()));
    assert_eq!(reg.events()[1], Event::KittyCreated(BOB, 1, female()));
}

#[test]
fn allocation_hands_out_fresh_ids() {
    let mut reg = Kitties::new();
    assert_eq!(reg.get_next_kitty_id(), Ok(0));
    assert_eq!(reg.get_next_kitty_id(), Ok(1));
    assert_eq!(reg.next_kitty_id(), 2);
    assert_eq!(reg.mint(ALICE, male()), Ok(2));
    assert_eq!(reg.kitties(ALICE, 0), None);
    assert!(reg.events().len() == 1);
}

#[test]
fn lookup_is_scoped_to_owner() {
    let mut reg = Kitties::new();
    assert_eq!(reg.mint(ALICE, male()), Ok(0));
    assert_eq!(reg.kitties(ALICE, 0), Some(male()));
    assert_eq!(reg.kitties(BOB, 0), None);
    assert_eq!(reg.kitties(ALICE, 1), None);
    assert!(reg.exists_for_owner(ALICE, 0));
    assert!(!reg.exists_for_owner(BOB, 0));
}

#[test]
fn self_transfer_is_noop() {
    let mut reg = Kitties::new();
    assert_eq!(reg.mint(ALICE, male()), Ok(0));
    assert_eq!(reg.set_price(ALICE, 0, Some(50)), Ok(()));
    let events = reg.events().len();
    assert_eq!(reg.transfer(ALICE, 0, ALICE), Ok(()));
    assert_eq!(reg.kitties(ALICE, 0), Some(male()));
    assert_eq!(reg.kitty_prices(0), Some(50));
    assert_eq!(reg.events().len(), events);
}

#[test]
fn self_transfer_of_unowned_fails() {
    let mut reg = Kitties::new();
    assert_eq!(reg.mint(ALICE, male()), Ok(0));
    assert_eq!(reg.transfer(BOB, 0, BOB), Err(Error::KittenNotFound));
    assert_eq!(reg.transfer(ALICE, 7, ALICE), Err(Error::KittenNotFound));
}

#[test]
fn transfer_moves_kitty_and_clears_listing() {
    let mut reg = Kitties::new();
    assert_eq!(reg.mint(ALICE, male()), Ok(0));
    assert_eq!(reg.set_price(ALICE, 0, Some(50)), Ok(()));
    assert_eq!(reg.transfer(ALICE, 0, BOB), Ok(()));
    assert_eq!(reg.kitties(ALICE, 0), None);
    assert_eq!(reg.kitties(BOB, 0), Some(male()));
    assert_eq!(reg.kitty_prices(0), None);
    assert_eq!(reg.events().last(), Some(&Event::KittyTransferred(ALICE, BOB, male())));
    assert_eq!(reg.transfer(ALICE, 0, BOB), Err(Error::KittenNotFound));
}

#[test]
fn transfer_of_unlisted_kitty_leaves_no_listing() {
    let mut reg = Kitties::new();
    assert_eq!(reg.mint(ALICE, male()), Ok(0));
    assert_eq!(reg.transfer(ALICE, 0, BOB), Ok(()));
    assert_eq!(reg.kitty_prices(0), None);
}

#[test]
fn set_price_requires_ownership() {
    let mut reg = Kitties::new();
    assert_eq!(reg.mint(ALICE, male()), Ok(0));
    assert_eq!(reg.set_price(BOB, 0, Some(10)), Err(Error::KittenNotFound));
    assert_eq!(reg.kitty_prices(0), None);
    assert_eq!(reg.set_price(ALICE, 0, None), Ok(()));
    assert_eq!(reg.set_price(ALICE, 0, Some(10)), Ok(()));
    assert_eq!(reg.kitty_prices(0), Some(10));
    assert_eq!(reg.events().last(), Some(&Event::KittyPriceUpdated(ALICE, 0, Some(10))));
}

#[test]
fn delisting_makes_buy_fail() {
    let mut reg = Kitties::new();
    let mut pay = PaymentRecorder::new(Ledger::new(0, 1000));
    assert_eq!(reg.mint(ALICE, male()), Ok(0));
    assert_eq!(reg.set_price(ALICE, 0, Some(10)), Ok(()));
    assert_eq!(reg.set_price(ALICE, 0, None), Ok(()));
    assert_eq!(reg.kitty_prices(0), None);
    assert_eq!(reg.buy(&mut pay, BOB, ALICE, 0, 100), Err(Error::NotForSale));
    assert!(pay.currency().transfers.is_empty());
    assert!(pay.attempts().is_empty());
    assert_eq!(reg.kitties(ALICE, 0), Some(male()));
}

#[test]
fn buy_pays_listed_price() {
    let mut reg = Kitties::new();
    let mut pay = PaymentRecorder::new(Ledger::new(0, 1000));
    assert_eq!(reg.mint(ALICE, male()), Ok(0));
    assert_eq!(reg.set_price(ALICE, 0, Some(40)), Ok(()));
    assert_eq!(reg.purchase_price(BOB, ALICE, 0, 100), Ok(40));
    assert_eq!(reg.buy(&mut pay, BOB, ALICE, 0, 100), Ok(()));
    assert_eq!(pay.currency().transfers, vec![(BOB, ALICE, 40, ExistenceRequirement::KeepAlive)]);
    assert_eq!(
        pay.attempts(),
        &vec![PaymentAttempt {
            source: BOB,
            dest: ALICE,
            value: 40,
            existence: ExistenceRequirement::KeepAlive,
            outcome: Ok(()),
        }]
    );
    assert_eq!(pay.currency().balance(BOB), 960);
    assert_eq!(pay.currency().balance(ALICE), 40);
    assert_eq!(reg.kitties(BOB, 0), Some(male()));
    assert_eq!(reg.kitties(ALICE, 0), None);
    assert_eq!(reg.kitty_prices(0), None);
    assert_eq!(reg.events().last(), Some(&Event::KittySold(ALICE, BOB, 0, 40)));
}

#[test]
fn failed_payment_rolls_back_buy() {
    let mut reg = Kitties::new();
    let mut pay = PaymentRecorder::new(Ledger::new(0, 40));
    assert_eq!(reg.mint(ALICE, male()), Ok(0));
    assert_eq!(reg.set_price(ALICE, 0, Some(40)), Ok(()));
    let events = reg.events().len();
    assert_eq!(
        reg.buy(&mut pay, BOB, ALICE, 0, 100),
        Err(Error::Payment(PaymentError::InsufficientFunds))
    );
    assert_eq!(reg.kitties(ALICE, 0), Some(male()));
    assert_eq!(reg.kitties(BOB, 0), None);
    assert_eq!(reg.kitty_prices(0), Some(40));
    assert_eq!(reg.events().len(), events);
    assert_eq!(pay.currency().balance(BOB), 40);
    assert_eq!(pay.attempts().len(), 1);
    assert_eq!(pay.attempts()[0].value, 40);
    assert_eq!(pay.attempts()[0].outcome, Err(PaymentError::InsufficientFunds));
}

#[test]
fn settle_purchase_reports_payment_failure() {
    let mut reg = Kitties::new();
    assert_eq!(reg.mint(ALICE, male()), Ok(0));
    assert_eq!(reg.set_price(ALICE, 0, Some(5)), Ok(()));
    assert_eq!(
        reg.settle_purchase(BOB, ALICE, 0, Err(PaymentError::Other)),
        Err(Error::Payment(PaymentError::Other))
    );
    assert_eq!(reg.kitties(ALICE, 0), Some(male()));
    assert_eq!(reg.settle_purchase(BOB, ALICE, 0, Ok(())), Ok(()));
    assert_eq!(reg.kitties(BOB, 0), Some(male()));
    assert_eq!(reg.kitty_prices(0), None);
}

#[test]
fn buy_refusals() {
    let mut reg = Kitties::new();
    let mut pay = PaymentRecorder::new(Ledger::new(1000, 1000));
    assert_eq!(reg.mint(ALICE, male()), Ok(0));
    assert_eq!(reg.buy(&mut pay, ALICE, ALICE, 0, 100), Err(Error::BuyFromSelf));
    assert_eq!(reg.buy(&mut pay, BOB, ALICE, 0, 100), Err(Error::NotForSale));
    assert_eq!(reg.buy(&mut pay, ALICE, BOB, 0, 100), Err(Error::KittenNotFound));
    assert_eq!(reg.set_price(ALICE, 0, Some(100)), Ok(()));
    assert_eq!(reg.buy(&mut pay, BOB, ALICE, 0, 99), Err(Error::PriceTooLow));
    assert_eq!(reg.purchase_price(BOB, ALICE, 0, 99), Err(Error::PriceTooLow));
    assert!(pay.currency().transfers.is_empty());
    assert_eq!(reg.buy(&mut pay, BOB, ALICE, 0, 100), Ok(()));
}

#[test]
fn breeding_same_gender_fails() {
    let mut reg = Kitties::new();
    assert_eq!(reg.mint(ALICE, male()), Ok(0));
    assert_eq!(reg.mint(ALICE, Kitty([2; 16])), Ok(1));
    assert_eq!(reg.breed_with_selector(ALICE, 0, 1, &[0; 16]), Err(Error::SameGenderBreed));
    assert_eq!(reg.next_kitty_id(), 2);
}

#[test]
fn breeding_different_genders_yields_crossover() {
    let mut reg = Kitties::new();
    assert_eq!(reg.mint(ALICE, male()), Ok(0));
    assert_eq!(reg.mint(ALICE, female()), Ok(1));
    assert_eq!(reg.mint(BOB, female()), Ok(2));
    assert_eq!(reg.breed_with_selector(ALICE, 0, 2, &[0; 16]), Err(Error::KittenNotFound));
    let id = reg.breed_with_selector(ALICE, 0, 1, &[0xFF; 16]).unwrap();
    assert_eq!(id, 3);
    assert_eq!(reg.kitties(ALICE, 3), Some(female()));
    let id = reg.breed_with_selector(ALICE, 1, 0, &[0x0F; 16]).unwrap();
    assert_eq!(id, 4);
    assert_eq!(reg.kitties(ALICE, 4).unwrap().dna()[15], 0x10);
    assert_eq!(reg.events().last(), Some(&Event::KittyBreed(ALICE, female(), male(), reg.kitties(ALICE, 4).unwrap())));
}
