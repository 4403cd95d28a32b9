//! The choices stored on the marketplace's records.
use vstd::prelude::*;

verus! {

/// A user's role on the platform.
#[derive(Clone, Copy, Debug, PartialEq, Eq, Structural)]
pub enum UserRole {
    Player,
    Manager,
    ManagerStaff,
    Admin,
}

/// Where a manager's verification stands.
#[derive(Clone, Copy, Debug, PartialEq, Eq, Structural)]
pub enum VerificationStatus {
    Pending,
    Verified,
    Rejected,
    Suspended,
}

/// Where a manager is paid.
#[derive(Clone, Copy, Debug, PartialEq, Eq, Structural)]
pub enum SettlementDestinationType {
    BankAccount,
    MpesaWallet,
}

/// A staff member's role at a venue.
#[derive(Clone, Copy, Debug, PartialEq, Eq, Structural)]
pub enum StaffRole {
    Owner,
    Operations,
    Finance,
    CheckIn,
}

/// The sport a field is for.
#[derive(Clone, Copy, Debug, PartialEq, Eq, Structural)]
pub enum SportType {
    Football,
    Basketball,
    Futsal,
    Tennis,
    Padel,
    MultiSport,
}

/// Where a booking stands.
#[derive(Clone, Copy, Debug, PartialEq, Eq, Structural)]
pub enum BookingStatus {
    PendingPayment,
    Confirmed,
    Cancelled,
    Completed,
    NoShow,
    Expired,
}

/// Who processed a payment.
#[derive(Clone, Copy, Debug, PartialEq, Eq, Structural)]
pub enum PaymentProvider {
    Paystack,
    Wallet,
}

/// How a payment was made.
#[derive(Clone, Copy, Debug, PartialEq, Eq, Structural)]
pub enum PaymentChannel {
    Mpesa,
    Card,
    ApplePay,
    Wallet,
}

/// Where a payment stands.
#[derive(Clone, Copy, Debug, PartialEq, Eq, Structural)]
pub enum PaymentStatus {
    Pending,
    Succeeded,
    Failed,
    Abandoned,
}

/// Where a refund stands.
#[derive(Clone, Copy, Debug, PartialEq, Eq, Structural)]
pub enum RefundStatus {
    Pending,
    Succeeded,
    Failed,
    ManualRequired,
}

/// What a stored wallet transaction records.
#[derive(Clone, Copy, Debug, PartialEq, Eq, Structural)]
pub enum WalletTransactionKind {
    TopUp,
    BookingDebit,
    RefundCredit,
    AdminAdjustment,
}

/// Where a stored payout stands.
#[derive(Clone, Copy, Debug, PartialEq, Eq, Structural)]
pub enum PayoutStatus {
    Pending,
    Processing,
    Paid,
    Failed,
}

/// How a stored notification reaches the user.
#[derive(Clone, Copy, Debug, PartialEq, Eq, Structural)]
pub enum NotificationChannel {
    Email,
    Sms,
    Whatsapp,
    InApp,
}

/// Where a stored notification's delivery stands.
#[derive(Clone, Copy, Debug, PartialEq, Eq, Structural)]
pub enum NotificationStatus {
    Queued,
    Sent,
    Failed,
}

} // verus!
