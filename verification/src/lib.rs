//! Verified booking, wallet, payment and payout rules for the Turfzone marketplace.
use vstd::prelude::*;

pub mod text;
pub mod time;
pub mod ids;
pub mod keyed;
pub mod hexcode;
pub mod services;
pub mod paystack;
pub mod models;
pub mod authz;
pub mod mailer;
pub mod settings;
pub mod api;

pub use settings::TurfzoneSettings;

verus! {

} // verus!
