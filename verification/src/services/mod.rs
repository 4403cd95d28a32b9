//! The booking, wallet, payment, payout and notification rules.
pub mod availability;
pub mod booking;
pub mod wallet;
pub mod payment;
pub mod payout;
pub mod notification;
