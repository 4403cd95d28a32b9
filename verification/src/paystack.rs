//! Paystack requests and webhooks: the checks made before a payload goes to the
//! provider, the payloads' contents, phone normalization, and webhook signatures.
use vstd::prelude::*;
use vstd::string::StringSliceAdditionalSpecFns;
use hmac::Mac;

use crate::hexcode::{decode_hex, hex_decoded};
use crate::text::{
    concat, trim_start_char, trim_start_char_seq,
    lemma_utf8_len_ascii_char, lemma_utf8_len_concat, lemma_without_white_space_clean,
    lemma_without_white_space_noop, push_char, starts_with_chars, string_from_chars,
    strip_white_space, utf8_len, without_white_space,
};

verus! {

/// A JSON value handed through to the provider untouched.
#[verifier::external_type_specification]
#[verifier::external_body]
pub struct ExJsonValue(serde_json::Value);

/// Why a phone number was refused.
#[derive(Clone, Copy, Debug, PartialEq, Eq, Structural)]
pub enum PhoneError {
    InvalidKenyanMobile,
}

impl PhoneError {
    /// The message shown for this error.
    pub open spec fn spec_message(&self) -> Seq<char> {
        "expected Kenyan mobile number in +2547... format"@
    }

    /// The message shown for this error.
    pub fn message(&self) -> (r: String)
        ensures
            r@ == self.spec_message(),
    {
        "expected Kenyan mobile number in +2547... format".to_string()
    }
}

/// The Kenyan mobile number `phone` stands for, in `+2547XXXXXXXX` form: white
/// space removed, then accepted as `+2547…` of 13 bytes, `2547…` of 12 bytes
/// (a `+` is added), or `07…` of 10 bytes (the `0` becomes `+254`).
pub open spec fn normalized_phone(phone: Seq<char>) -> Option<Seq<char>> {
    let t = without_white_space(phone);
    if t.len() >= 5 && t.take(5) == seq!['+', '2', '5', '4', '7'] && utf8_len(t) == 13 {
        Some(t)
    } else if t.len() >= 4 && t.take(4) == seq!['2', '5', '4', '7'] && utf8_len(t) == 12 {
        Some(seq!['+'] + t)
    } else if t.len() >= 2 && t.take(2) == seq!['0', '7'] && utf8_len(t) == 10 {
        Some(seq!['+', '2', '5', '4'] + t.skip(1))
    } else {
        None
    }
}

/// Normalizes a Kenyan mobile number to `+2547XXXXXXXX` form, as
/// `normalized_phone` describes; refused when it is not one.
pub fn normalize_kenyan_phone(phone: &str) -> (r: Result<String, PhoneError>)
    ensures
        match normalized_phone(phone@) {
            Some(n) => r matches Ok(s) && s@ == n,
            None => r == Err::<String, PhoneError>(PhoneError::InvalidKenyanMobile),
        },
{
    let chars = strip_white_space(phone);
    let stripped = string_from_chars(&chars, 0);
    proof {
        assert(chars@.subrange(0, chars@.len() as int) =~= chars@);
    }
    let byte_len = stripped.as_str().as_bytes().len();
    let plus_prefix: [char; 5] = ['+', '2', '5', '4', '7'];
    if starts_with_chars(&chars, &plus_prefix) && byte_len == 13 {
        proof {
            assert(plus_prefix@ =~= seq!['+', '2', '5', '4', '7']);
            assert(chars@.take(5) =~= chars@.subrange(0, 5));
        }
        return Ok(stripped);
    }
    proof {
        assert(plus_prefix@ =~= seq!['+', '2', '5', '4', '7']);
        assert(chars@.len() >= 5 ==> chars@.take(5) =~= chars@.subrange(0, 5));
    }
    let country_prefix: [char; 4] = ['2', '5', '4', '7'];
    if starts_with_chars(&chars, &country_prefix) && byte_len == 12 {
        let mut out = String::new();
        push_char(&mut out, '+');
        let rest = string_from_chars(&chars, 0);
        out.append(rest.as_str());
        proof {
            assert(country_prefix@ =~= seq!['2', '5', '4', '7']);
            assert(chars@.take(4) =~= chars@.subrange(0, 4));
            assert(out@ =~= seq!['+'] + chars@);
        }
        return Ok(out);
    }
    proof {
        assert(country_prefix@ =~= seq!['2', '5', '4', '7']);
        assert(chars@.len() >= 4 ==> chars@.take(4) =~= chars@.subrange(0, 4));
    }
    let local_prefix: [char; 2] = ['0', '7'];
    if starts_with_chars(&chars, &local_prefix) && byte_len == 10 {
        let mut out = String::new();
        push_char(&mut out, '+');
        push_char(&mut out, '2');
        push_char(&mut out, '5');
        push_char(&mut out, '4');
        let rest = string_from_chars(&chars, 1);
        out.append(rest.as_str());
        proof {
            assert(local_prefix@ =~= seq!['0', '7']);
            assert(chars@.take(2) =~= chars@.subrange(0, 2));
            assert(out@ =~= seq!['+', '2', '5', '4'] + chars@.skip(1));
        }
        return Ok(out);
    }
    proof {
        assert(local_prefix@ =~= seq!['0', '7']);
        assert(chars@.len() >= 2 ==> chars@.take(2) =~= chars@.subrange(0, 2));
    }
    Err(PhoneError::InvalidKenyanMobile)
}

/// A number in the third accepted form, `07…` of 10 bytes, becomes `+2547…` of
/// 13 bytes without white space.
proof fn lemma_local_form_normalizes(t: Seq<char>)
    requires
        t.len() >= 2,
        t.take(2) == seq!['0', '7'],
        utf8_len(t) == 10,
        forall|i: int| 0 <= i < t.len() ==> !crate::text::is_white_space(#[trigger] t[i]),
    ensures
        ({
            let n = seq!['+', '2', '5', '4'] + t.skip(1);
            &&& n.len() >= 5
            &&& n.take(5) == seq!['+', '2', '5', '4', '7']
            &&& utf8_len(n) == 13
            &&& forall|i: int| 0 <= i < n.len() ==> !crate::text::is_white_space(#[trigger] n[i])
        }),
{
    let code = seq!['+', '2', '5', '4'];
    let rest = t.skip(1);
    let n = code + rest;
    assert(t =~= seq![t[0]] + rest);
    lemma_utf8_len_concat(seq![t[0]], rest);
    assert(t[0] == '0') by {
        assert(t.take(2)[0] == t[0]);
    }
    assert(t[1] == '7') by {
        assert(t.take(2)[1] == t[1]);
    }
    lemma_utf8_len_ascii_char('0');
    lemma_utf8_len_concat(code, rest);
    assert(code =~= seq!['+', '2'] + seq!['5', '4']);
    assert(seq!['+', '2'] =~= seq!['+'] + seq!['2']);
    assert(seq!['5', '4'] =~= seq!['5'] + seq!['4']);
    lemma_utf8_len_concat(seq!['+', '2'], seq!['5', '4']);
    lemma_utf8_len_concat(seq!['+'], seq!['2']);
    lemma_utf8_len_concat(seq!['5'], seq!['4']);
    lemma_utf8_len_ascii_char('+');
    lemma_utf8_len_ascii_char('2');
    lemma_utf8_len_ascii_char('5');
    lemma_utf8_len_ascii_char('4');
    assert(n[4] == t[1]);
    assert(n.take(5) =~= seq!['+', '2', '5', '4', '7']);
    assert forall|i: int| 0 <= i < n.len() implies !crate::text::is_white_space(#[trigger] n[i]) by {
        if i >= 4 {
            assert(n[i] == t[i - 3]);
        }
    }
}

/// A number in the second accepted form, `2547…` of 12 bytes, becomes `+2547…` of
/// 13 bytes without white space.
proof fn lemma_country_form_normalizes(t: Seq<char>)
    requires
        t.len() >= 4,
        t.take(4) == seq!['2', '5', '4', '7'],
        utf8_len(t) == 12,
        forall|i: int| 0 <= i < t.len() ==> !crate::text::is_white_space(#[trigger] t[i]),
    ensures
        ({
            let n = seq!['+'] + t;
            &&& n.len() >= 5
            &&& n.take(5) == seq!['+', '2', '5', '4', '7']
            &&& utf8_len(n) == 13
            &&& forall|i: int| 0 <= i < n.len() ==> !crate::text::is_white_space(#[trigger] n[i])
        }),
{
    let n = seq!['+'] + t;
    lemma_utf8_len_concat(seq!['+'], t);
    lemma_utf8_len_ascii_char('+');
    assert(t.take(4)[0] == t[0]);
    assert(t.take(4)[1] == t[1]);
    assert(t.take(4)[2] == t[2]);
    assert(t.take(4)[3] == t[3]);
    assert(n.take(5) =~= seq!['+', '2', '5', '4', '7']);
    assert forall|i: int| 0 <= i < n.len() implies !crate::text::is_white_space(#[trigger] n[i]) by {
        if i > 0 {
            assert(n[i] == t[i - 1]);
        }
    }
}

/// A normalized number is its own normal form: normalizing it again gives it
/// back, and it always begins `+2547` and takes 13 bytes.
pub proof fn lemma_normalized_phone_is_fixed_point(phone: Seq<char>)
    requires
        normalized_phone(phone) is Some,
    ensures
        ({
            let n = normalized_phone(phone)->0;
            &&& normalized_phone(n) == Some(n)
            &&& n.len() >= 5
            &&& n.take(5) == seq!['+', '2', '5', '4', '7']
            &&& utf8_len(n) == 13
        }),
{
    let t = without_white_space(phone);
    lemma_without_white_space_clean(phone);
    let n = normalized_phone(phone)->0;
    if t.len() >= 5 && t.take(5) == seq!['+', '2', '5', '4', '7'] && utf8_len(t) == 13 {
        assert(n == t);
    } else if t.len() >= 4 && t.take(4) == seq!['2', '5', '4', '7'] && utf8_len(t) == 12 {
        lemma_country_form_normalizes(t);
    } else {
        lemma_local_form_normalizes(t);
    }
    lemma_without_white_space_noop(n);
}


/// Why a provider request was not built.
#[derive(Clone, Copy, Debug, PartialEq, Eq, Structural)]
pub enum PaystackRequestError {
    UnsupportedCurrency,
    InvalidAmount,
    InvalidCommissionRate,
    InvalidSettlementDestination,
    Phone(PhoneError),
}

impl PaystackRequestError {
    /// The message shown for this error.
    pub open spec fn spec_message(&self) -> Seq<char> {
        match self {
            PaystackRequestError::UnsupportedCurrency => "only KES is supported at launch"@,
            PaystackRequestError::InvalidAmount => "paystack amount must be positive"@,
            PaystackRequestError::InvalidCommissionRate => "commission basis points must be between 0 and 10000"@,
            PaystackRequestError::InvalidSettlementDestination => "manager must configure exactly one settlement destination"@,
            PaystackRequestError::Phone(e) => e.spec_message(),
        }
    }

    /// The message shown for this error.
    pub fn message(&self) -> (r: String)
        ensures
            r@ == self.spec_message(),
    {
        match self {
            PaystackRequestError::UnsupportedCurrency => "only KES is supported at launch".to_string(),
            PaystackRequestError::InvalidAmount => "paystack amount must be positive".to_string(),
            PaystackRequestError::InvalidCommissionRate => "commission basis points must be between 0 and 10000".to_string(),
            PaystackRequestError::InvalidSettlementDestination => "manager must configure exactly one settlement destination".to_string(),
            PaystackRequestError::Phone(e) => e.message(),
        }
    }
}

/// Whether `currency` is the launch currency, `KES`.
pub fn is_launch_currency(currency: &String) -> (r: bool)
    ensures
        r == (currency@ == "KES"@),
{
    let kes = "KES".to_string();
    *currency == kes
}

/// Whether a basis-point rate is between 0 and 10000.
pub open spec fn rate_in_range(bps: int) -> bool {
    0 <= bps <= 10_000
}

/// An M-Pesa charge to request from Paystack.
#[derive(Debug)]
pub struct PaystackChargeRequest {
    pub email: Option<String>,
    pub phone: String,
    pub amount_minor: i64,
    pub currency: String,
    pub reference: String,
    pub split_code: Option<String>,
    pub metadata: serde_json::Value,
}

/// The body of a Paystack M-Pesa charge: `email`, `amount`, `currency`,
/// `reference`, `mobile_money: {phone, provider}`, `channels`, `split_code` and
/// `metadata`.
#[derive(Debug)]
pub struct MpesaChargePayload {
    pub email: String,
    pub amount: i64,
    pub currency: String,
    pub reference: String,
    pub phone: String,
    pub provider: String,
    pub channels: Vec<String>,
    pub split_code: Option<String>,
    pub metadata: serde_json::Value,
}

/// The optional string's characters.
pub open spec fn opt_view(s: Option<String>) -> Option<Seq<char>> {
    match s {
        Some(v) => Some(v@),
        None => None,
    }
}

/// The e-mail a charge is sent with when the payer gave none: the normalized phone
/// without its leading `+`, at `turfzone.local`.
pub open spec fn placeholder_email(phone: Seq<char>) -> Seq<char> {
    trim_start_char_seq(phone, '+') + "@turfzone.local"@
}

fn copy_opt(s: &Option<String>) -> (r: Option<String>)
    ensures
        opt_view(r) == opt_view(*s),
{
    match s {
        Some(v) => Some(v.clone()),
        None => None,
    }
}

/// The Paystack M-Pesa charge for `request`: refused for a currency other than
/// KES, then a non-positive amount, then a phone that is not a Kenyan mobile
/// number. The payload carries the normalized phone, provider `mpesa`, the single
/// channel `mobile_money`, and the given e-mail or else `placeholder_email`.
pub fn mpesa_charge_payload(request: PaystackChargeRequest) -> (r: Result<MpesaChargePayload, PaystackRequestError>)
    ensures
        request.currency@ != "KES"@ ==> r == Err::<MpesaChargePayload, PaystackRequestError>(PaystackRequestError::UnsupportedCurrency),
        request.currency@ == "KES"@ && request.amount_minor <= 0
            ==> r == Err::<MpesaChargePayload, PaystackRequestError>(PaystackRequestError::InvalidAmount),
        request.currency@ == "KES"@ && request.amount_minor > 0 && normalized_phone(request.phone@) is None
            ==> r == Err::<MpesaChargePayload, PaystackRequestError>(PaystackRequestError::Phone(PhoneError::InvalidKenyanMobile)),
        request.currency@ == "KES"@ && request.amount_minor > 0 && normalized_phone(request.phone@) is Some ==> (r matches Ok(p) && {
            let phone = normalized_phone(request.phone@)->0;
            &&& p.email@ == match request.email { Some(e) => e@, None => placeholder_email(phone) }
            &&& p.amount == request.amount_minor
            &&& p.currency@ == request.currency@
            &&& p.reference@ == request.reference@
            &&& p.phone@ == phone
            &&& p.provider@ == "mpesa"@
            &&& p.channels@.len() == 1 && p.channels@[0]@ == "mobile_money"@
            &&& opt_view(p.split_code) == opt_view(request.split_code)
            &&& p.metadata == request.metadata
        }),
{
    if !is_launch_currency(&request.currency) {
        return Err(PaystackRequestError::UnsupportedCurrency);
    }
    if request.amount_minor <= 0 {
        return Err(PaystackRequestError::InvalidAmount);
    }
    let phone = match normalize_kenyan_phone(request.phone.as_str()) {
        Ok(p) => p,
        Err(e) => return Err(PaystackRequestError::Phone(e)),
    };
    let email = match request.email {
        Some(e) => e,
        None => {
            let local = trim_start_char(phone.as_str(), '+');
            concat(local.as_str(), "@turfzone.local")
        },
    };
    Ok(MpesaChargePayload {
        email,
        amount: request.amount_minor,
        currency: request.currency,
        reference: request.reference,
        phone,
        provider: "mpesa".to_string(),
        channels: vec!["mobile_money".to_string()],
        split_code: request.split_code,
        metadata: request.metadata,
    })
}

/// A card payment to initialize with Paystack.
#[derive(Debug)]
pub struct PaystackCardInitializeRequest {
    pub email: String,
    pub amount_minor: i64,
    pub currency: String,
    pub reference: String,
    pub split_code: Option<String>,
    pub metadata: serde_json::Value,
}

/// The body of a Paystack card initialization: `email`, `amount`, `currency`,
/// `reference`, `channels`, `split_code` and `metadata`.
#[derive(Debug)]
pub struct CardInitializePayload {
    pub email: String,
    pub amount: i64,
    pub currency: String,
    pub reference: String,
    pub channels: Vec<String>,
    pub split_code: Option<String>,
    pub metadata: serde_json::Value,
}

/// The Paystack card initialization for `request`, with the single channel
/// `card`: refused for a currency other than KES, then a non-positive amount.
pub fn card_initialize_payload(request: PaystackCardInitializeRequest) -> (r: Result<CardInitializePayload, PaystackRequestError>)
    ensures
        request.currency@ != "KES"@ ==> r == Err::<CardInitializePayload, PaystackRequestError>(PaystackRequestError::UnsupportedCurrency),
        request.currency@ == "KES"@ && request.amount_minor <= 0
            ==> r == Err::<CardInitializePayload, PaystackRequestError>(PaystackRequestError::InvalidAmount),
        request.currency@ == "KES"@ && request.amount_minor > 0 ==> (r matches Ok(p) && {
            &&& p.email@ == request.email@
            &&& p.amount == request.amount_minor
            &&& p.currency@ == request.currency@
            &&& p.reference@ == request.reference@
            &&& p.channels@.len() == 1 && p.channels@[0]@ == "card"@
            &&& opt_view(p.split_code) == opt_view(request.split_code)
            &&& p.metadata == request.metadata
        }),
{
    if !is_launch_currency(&request.currency) {
        return Err(PaystackRequestError::UnsupportedCurrency);
    }
    if request.amount_minor <= 0 {
        return Err(PaystackRequestError::InvalidAmount);
    }
    Ok(CardInitializePayload {
        email: request.email,
        amount: request.amount_minor,
        currency: request.currency,
        reference: request.reference,
        channels: vec!["card".to_string()],
        split_code: request.split_code,
        metadata: request.metadata,
    })
}

/// A refund to request from Paystack.
#[derive(Debug, Clone, PartialEq, Eq)]
pub struct PaystackRefundRequest {
    pub transaction_reference: String,
    pub amount_minor: i64,
    pub currency: String,
    pub merchant_note: String,
}

/// The body of a Paystack refund: `transaction`, `amount` and `merchant_note`.
#[derive(Debug, Clone, PartialEq, Eq)]
pub struct RefundPayload {
    pub transaction: String,
    pub amount: i64,
    pub merchant_note: String,
}

/// The Paystack refund for `request`: refused for a non-positive amount, then a
/// currency other than KES.
pub fn refund_payload(request: PaystackRefundRequest) -> (r: Result<RefundPayload, PaystackRequestError>)
    ensures
        request.amount_minor <= 0 ==> r == Err::<RefundPayload, PaystackRequestError>(PaystackRequestError::InvalidAmount),
        request.amount_minor > 0 && request.currency@ != "KES"@
            ==> r == Err::<RefundPayload, PaystackRequestError>(PaystackRequestError::UnsupportedCurrency),
        request.amount_minor > 0 && request.currency@ == "KES"@ ==> (r matches Ok(p) && {
            &&& p.transaction@ == request.transaction_reference@
            &&& p.amount == request.amount_minor
            &&& p.merchant_note@ == request.merchant_note@
        }),
{
    if request.amount_minor <= 0 {
        return Err(PaystackRequestError::InvalidAmount);
    }
    if !is_launch_currency(&request.currency) {
        return Err(PaystackRequestError::UnsupportedCurrency);
    }
    Ok(RefundPayload {
        transaction: request.transaction_reference,
        amount: request.amount_minor,
        merchant_note: request.merchant_note,
    })
}

/// A manager's Paystack subaccount to create.
#[derive(Debug, Clone, PartialEq, Eq)]
pub struct PaystackSubaccountRequest {
    pub business_name: String,
    pub settlement_bank: Option<String>,
    pub account_number: Option<String>,
    pub mobile_money_number: Option<String>,
    pub percentage_charge_bps: i64,
}

/// The body of a Paystack subaccount, settling to a bank account or to an M-Pesa
/// number; the `percentage_charge` sent is `percentage_charge_bps / 100`.
#[derive(Debug, Clone, PartialEq, Eq)]
pub enum SubaccountPayload {
    BankAccount {
        business_name: String,
        settlement_bank: Option<String>,
        account_number: String,
        percentage_charge_bps: i64,
    },
    MobileMoney {
        business_name: String,
        mobile_money_number: String,
        percentage_charge_bps: i64,
    },
}

/// The Paystack subaccount for `request`: refused for a rate outside 0 to 10000
/// basis points, then unless exactly one of a bank account and an M-Pesa number is
/// given, then for an M-Pesa number that is not a Kenyan mobile number.
pub fn subaccount_payload(request: PaystackSubaccountRequest) -> (r: Result<SubaccountPayload, PaystackRequestError>)
    ensures
        !rate_in_range(request.percentage_charge_bps as int)
            ==> r == Err::<SubaccountPayload, PaystackRequestError>(PaystackRequestError::InvalidCommissionRate),
        rate_in_range(request.percentage_charge_bps as int) && (request.account_number is Some == request.mobile_money_number is Some)
            ==> r == Err::<SubaccountPayload, PaystackRequestError>(PaystackRequestError::InvalidSettlementDestination),
        rate_in_range(request.percentage_charge_bps as int) && request.account_number is Some && request.mobile_money_number is None
            ==> (r matches Ok(SubaccountPayload::BankAccount { business_name, settlement_bank, account_number, percentage_charge_bps }) && {
                &&& business_name@ == request.business_name@
                &&& opt_view(settlement_bank) == opt_view(request.settlement_bank)
                &&& Some(account_number@) == opt_view(request.account_number)
                &&& percentage_charge_bps == request.percentage_charge_bps
            }),
        rate_in_range(request.percentage_charge_bps as int) && request.account_number is None && request.mobile_money_number is Some
            ==> match normalized_phone(request.mobile_money_number->0@) {
                None => r == Err::<SubaccountPayload, PaystackRequestError>(PaystackRequestError::Phone(PhoneError::InvalidKenyanMobile)),
                Some(n) => r matches Ok(SubaccountPayload::MobileMoney { business_name, mobile_money_number, percentage_charge_bps })
                    && business_name@ == request.business_name@
                    && mobile_money_number@ == n
                    && percentage_charge_bps == request.percentage_charge_bps,
            },
{
    if request.percentage_charge_bps < 0 || request.percentage_charge_bps > 10_000 {
        return Err(PaystackRequestError::InvalidCommissionRate);
    }
    match (request.account_number, request.mobile_money_number) {
        (Some(account_number), None) => Ok(SubaccountPayload::BankAccount {
            business_name: request.business_name,
            settlement_bank: request.settlement_bank,
            account_number,
            percentage_charge_bps: request.percentage_charge_bps,
        }),
        (None, Some(mobile_money_number)) => match normalize_kenyan_phone(mobile_money_number.as_str()) {
            Ok(number) => Ok(SubaccountPayload::MobileMoney {
                business_name: request.business_name,
                mobile_money_number: number,
                percentage_charge_bps: request.percentage_charge_bps,
            }),
            Err(e) => Err(PaystackRequestError::Phone(e)),
        },
        _ => Err(PaystackRequestError::InvalidSettlementDestination),
    }
}

/// A Paystack split between the platform and a manager's subaccount.
#[derive(Debug, Clone, PartialEq, Eq)]
pub struct PaystackSplitRequest {
    pub name: String,
    pub currency: String,
    pub subaccount_code: String,
    pub platform_commission_bps: i64,
}

/// The body of a Paystack percentage split: `name`, `type`, `currency`, one
/// subaccount whose `share` is `100 - platform_commission_bps / 100`, and
/// `bearer_type`.
#[derive(Debug, Clone, PartialEq, Eq)]
pub struct SplitPayload {
    pub name: String,
    pub split_type: String,
    pub currency: String,
    pub subaccount: String,
    pub platform_commission_bps: i64,
    pub bearer_type: String,
}

/// The Paystack split for `request`, of type `percentage` with bearer `account`:
/// refused for a currency other than KES, then a rate outside 0 to 10000 basis
/// points.
pub fn split_payload(request: PaystackSplitRequest) -> (r: Result<SplitPayload, PaystackRequestError>)
    ensures
        request.currency@ != "KES"@ ==> r == Err::<SplitPayload, PaystackRequestError>(PaystackRequestError::UnsupportedCurrency),
        request.currency@ == "KES"@ && !rate_in_range(request.platform_commission_bps as int)
            ==> r == Err::<SplitPayload, PaystackRequestError>(PaystackRequestError::InvalidCommissionRate),
        request.currency@ == "KES"@ && rate_in_range(request.platform_commission_bps as int) ==> (r matches Ok(p) && {
            &&& p.name@ == request.name@
            &&& p.split_type@ == "percentage"@
            &&& p.currency@ == request.currency@
            &&& p.subaccount@ == request.subaccount_code@
            &&& p.platform_commission_bps == request.platform_commission_bps
            &&& p.bearer_type@ == "account"@
        }),
{
    if !is_launch_currency(&request.currency) {
        return Err(PaystackRequestError::UnsupportedCurrency);
    }
    if request.platform_commission_bps < 0 || request.platform_commission_bps > 10_000 {
        return Err(PaystackRequestError::InvalidCommissionRate);
    }
    Ok(SplitPayload {
        name: request.name,
        split_type: "percentage".to_string(),
        currency: request.currency,
        subaccount: request.subaccount_code,
        platform_commission_bps: request.platform_commission_bps,
        bearer_type: "account".to_string(),
    })
}


/// A Paystack webhook: its event name and the fields of its `data` that the
/// platform reads. Each field holds the `data` member of that name when it has
/// the expected JSON type (a string, or an integer that fits an `i64` for
/// `amount`), and `None` otherwise.
#[derive(Debug, Clone, PartialEq, Eq)]
pub struct PaystackWebhookEnvelope {
    pub event: String,
    pub data: PaystackWebhookData,
}

/// The members of a webhook's `data` object that the platform reads.
#[derive(Debug, Clone, PartialEq, Eq)]
pub struct PaystackWebhookData {
    pub reference: Option<String>,
    pub amount: Option<i64>,
    pub currency: Option<String>,
    pub channel: Option<String>,
    pub paid_at: Option<String>,
}

/// A successful charge reported by a webhook.
#[derive(Debug, Clone, PartialEq, Eq)]
pub struct PaystackChargeSuccess {
    pub reference: String,
    pub amount_minor: i64,
    pub currency: String,
    pub channel: String,
    pub paid_at: Option<String>,
}

/// Why a webhook was not read as a successful charge.
#[derive(Debug, Clone, PartialEq, Eq)]
pub enum PaystackWebhookError {
    UnsupportedEvent(String),
    MissingField(&'static str),
}

impl PaystackWebhookError {
    /// The message shown for this error.
    pub open spec fn spec_message(&self) -> Seq<char> {
        match self {
            PaystackWebhookError::UnsupportedEvent(event) => "unsupported paystack webhook event: "@ + event@,
            PaystackWebhookError::MissingField(field) => "paystack webhook missing field: "@ + field@,
        }
    }

    /// The message shown for this error.
    pub fn message(&self) -> (r: String)
        ensures
            r@ == self.spec_message(),
    {
        match self {
            PaystackWebhookError::UnsupportedEvent(event) => concat("unsupported paystack webhook event: ", event.as_str()),
            PaystackWebhookError::MissingField(field) => concat("paystack webhook missing field: ", field),
        }
    }
}

/// The successful charge a `charge.success` webhook reports: refused for any
/// other event, then for a missing `reference`, `amount` or `currency`, in that
/// order; a missing `channel` reads as `unknown`.
pub fn parse_charge_success(envelope: &PaystackWebhookEnvelope) -> (r: Result<PaystackChargeSuccess, PaystackWebhookError>)
    ensures
        envelope.event@ != "charge.success"@ ==> (r matches Err(PaystackWebhookError::UnsupportedEvent(e)) && e@ == envelope.event@),
        envelope.event@ == "charge.success"@ ==> match (envelope.data.reference, envelope.data.amount, envelope.data.currency) {
            (None, _, _) => (r matches Err(PaystackWebhookError::MissingField(f)) && f@ == "reference"@),
            (Some(_), None, _) => (r matches Err(PaystackWebhookError::MissingField(f)) && f@ == "amount"@),
            (Some(_), Some(_), None) => (r matches Err(PaystackWebhookError::MissingField(f)) && f@ == "currency"@),
            (Some(reference), Some(amount), Some(currency)) => (r matches Ok(c) && {
                &&& c.reference@ == reference@
                &&& c.amount_minor == amount
                &&& c.currency@ == currency@
                &&& c.channel@ == match envelope.data.channel { Some(ch) => ch@, None => "unknown"@ }
                &&& opt_view(c.paid_at) == opt_view(envelope.data.paid_at)
            }),
        },
{
    let expected = "charge.success".to_string();
    if envelope.event != expected {
        return Err(PaystackWebhookError::UnsupportedEvent(envelope.event.clone()));
    }
    let reference = match &envelope.data.reference {
        Some(v) => v.clone(),
        None => return Err(PaystackWebhookError::MissingField("reference")),
    };
    let amount_minor = match envelope.data.amount {
        Some(v) => v,
        None => return Err(PaystackWebhookError::MissingField("amount")),
    };
    let currency = match &envelope.data.currency {
        Some(v) => v.clone(),
        None => return Err(PaystackWebhookError::MissingField("currency")),
    };
    let channel = match &envelope.data.channel {
        Some(v) => v.clone(),
        None => "unknown".to_string(),
    };
    Ok(PaystackChargeSuccess { reference, amount_minor, currency, channel, paid_at: copy_opt(&envelope.data.paid_at) })
}

/// Why a webhook signature was not accepted.
#[derive(Clone, Copy, Debug, PartialEq, Eq, Structural)]
pub enum PaystackSignatureError {
    Malformed,
    InvalidKey,
    Mismatch,
}

impl PaystackSignatureError {
    /// The message shown for this error.
    pub open spec fn spec_message(&self) -> Seq<char> {
        match self {
            PaystackSignatureError::Malformed => "paystack signature is malformed"@,
            PaystackSignatureError::InvalidKey => "paystack secret key is invalid"@,
            PaystackSignatureError::Mismatch => "paystack signature mismatch"@,
        }
    }

    /// The message shown for this error.
    pub fn message(&self) -> (r: String)
        ensures
            r@ == self.spec_message(),
    {
        match self {
            PaystackSignatureError::Malformed => "paystack signature is malformed".to_string(),
            PaystackSignatureError::InvalidKey => "paystack secret key is invalid".to_string(),
            PaystackSignatureError::Mismatch => "paystack signature mismatch".to_string(),
        }
    }
}

/// The HMAC-SHA512 tag of `message` under the UTF-8 bytes of the key text `key`.
pub uninterp spec fn hmac_sha512_tag(key: Seq<char>, message: Seq<u8>) -> Seq<u8>;

/// `Hmac::<Sha512>::new_from_slice` on the key's bytes, `update` with the message,
/// then `verify_slice` against `tag`: whether `tag` is the message's tag under
/// the key. In hmac 0.12 `new_from_slice` accepts a key of any length, so the
/// answer is always given.
#[verifier::external_body]
fn hmac_sha512_matches(key: &str, message: &[u8], tag: &[u8]) -> (r: Option<bool>)
    ensures
        r == Some(tag@ == hmac_sha512_tag(key@, message@)),
{
    match hmac::Hmac::<sha2::Sha512>::new_from_slice(key.as_bytes()) {
        Ok(mut mac) => {
            mac.update(message);
            Some(mac.verify_slice(tag).is_ok())
        },
        Err(_) => None,
    }
}

/// The verdict on a signature given the HMAC check's answer: a key the MAC
/// refused, a tag that does not match, or acceptance.
pub fn signature_outcome(tag_matches: Option<bool>) -> (r: Result<(), PaystackSignatureError>)
    ensures
        r == match tag_matches {
            None => Err::<(), PaystackSignatureError>(PaystackSignatureError::InvalidKey),
            Some(false) => Err::<(), PaystackSignatureError>(PaystackSignatureError::Mismatch),
            Some(true) => Ok::<(), PaystackSignatureError>(()),
        },
{
    match tag_matches {
        None => Err(PaystackSignatureError::InvalidKey),
        Some(false) => Err(PaystackSignatureError::Mismatch),
        Some(true) => Ok(()),
    }
}

/// Checks a Paystack webhook signature: the hex text `signature_hex` must decode
/// (else `Malformed`) to the HMAC-SHA512 tag of `raw_body` under `secret_key`
/// (else `Mismatch`).
pub fn verify_webhook_signature(raw_body: &[u8], signature_hex: &str, secret_key: &str) -> (r: Result<(), PaystackSignatureError>)
    ensures
        r == match hex_decoded(signature_hex.spec_bytes()) {
            None => Err::<(), PaystackSignatureError>(PaystackSignatureError::Malformed),
            Some(tag) => if tag == hmac_sha512_tag(secret_key@, raw_body@) {
                Ok::<(), PaystackSignatureError>(())
            } else {
                Err::<(), PaystackSignatureError>(PaystackSignatureError::Mismatch)
            },
        },
{
    let expected = match decode_hex(signature_hex) {
        Some(t) => t,
        None => return Err(PaystackSignatureError::Malformed),
    };
    signature_outcome(hmac_sha512_matches(secret_key, raw_body, expected.as_slice()))
}

} // verus!
