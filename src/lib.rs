//! A registry of uniquely owned collectibles ("kitties"): minting, breeding by
//! genetic crossover, transfer, and a marketplace with an atomic purchase.

pub mod dna;
pub mod laws;
pub mod randomness;
pub mod registry;

pub use dna::{combine_dna, crossover, Kitty, KittyGender};
pub use randomness::random_value;
pub use registry::{
    AccountId, Balance, Currency, Error, Event, ExistenceRequirement, Kitties, PaymentAttempt,
    PaymentError, PaymentRecorder,
};
