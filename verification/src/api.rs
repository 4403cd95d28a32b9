//! The workflow endpoints' request handling, apart from transport and identity:
//! what each endpoint computes from its request and how it answers.
use vstd::prelude::*;

use crate::services::wallet::{
    amounts_sum, has_reference, lemma_ledger_matches_balance, WalletAccount, WalletError, WalletLedgerKind,
};
use crate::paystack::{
    card_initialize_payload, mpesa_charge_payload, normalize_kenyan_phone, normalized_phone,
    opt_view, placeholder_email, refund_payload, subaccount_payload, verify_webhook_signature,
    CardInitializePayload, MpesaChargePayload, PaystackCardInitializeRequest, PaystackChargeRequest,
    PaystackRefundRequest, PaystackRequestError, PaystackSignatureError, PaystackSubaccountRequest, PhoneError, RefundPayload,
    rate_in_range,
    SubaccountPayload, hmac_sha512_tag,
};
use crate::hexcode::hex_decoded;
use crate::ids::is_random_uuid;
use crate::services::availability::{
    availability_for_date, day_slots, resolved_window, window_for_weekday, ActiveBooking, AvailabilityExceptionInput,
    OpeningWindow, SlotState,
};
use crate::services::booking::{commission_of, hold_decision, BookingEngine, BookingError, CancellationPolicy, refund_of};
use crate::settings::TurfzoneSettings;
use crate::text::{trim, trim_seq};
use crate::time::{current_instant, delta_in_range, CalendarDate, TimeOfDay, UtcInstant};
use vstd::utf8::encode_utf8;

verus! {

/// The answer envelope of the workflow endpoints: `ok` with data, or an error message.
#[derive(Clone, Debug, PartialEq, Eq)]
pub struct ApiResponse<T> {
    pub ok: bool,
    pub data: Option<T>,
    pub error: Option<String>,
}

impl<T> ApiResponse<T> {
    /// A successful answer carrying `data`.
    pub fn ok(data: T) -> (r: Self)
        ensures
            r.ok,
            r.data == Some(data),
            r.error is None,
    {
        ApiResponse { ok: true, data: Some(data), error: None }
    }

    /// A failed answer carrying the message `error`.
    pub fn error(error: String) -> (r: Self)
        ensures
            !r.ok,
            r.data is None,
            r.error matches Some(e) && e@ == error@,
    {
        ApiResponse { ok: false, data: None, error: Some(error) }
    }
}

/// What a simulated wallet operation does.
#[derive(Clone, Copy, Debug, PartialEq, Eq, Structural)]
pub enum WalletOperationKind {
    TopUp,
    BookingDebit,
    RefundCredit,
}

/// One operation of a wallet simulation.
#[derive(Clone, Debug, PartialEq, Eq)]
pub struct WalletOperationRequest {
    pub kind: WalletOperationKind,
    pub amount_minor: i64,
    pub reference: String,
    pub now: UtcInstant,
}

/// A wallet simulation: a starting balance and the operations to apply in order.
#[derive(Clone, Debug, PartialEq, Eq)]
pub struct WalletSimulationRequest {
    pub user_id: i64,
    pub starting_balance_minor: i64,
    pub operations: Vec<WalletOperationRequest>,
}

/// The wallet after a simulation: its balance and the sum of its ledger.
#[derive(Clone, Copy, Debug, PartialEq, Eq, Structural)]
pub struct WalletSimulationResponse {
    pub balance_minor: i64,
    pub ledger_sum_minor: i64,
}

/// The reference of the credit that funds a simulation's starting balance.
pub open spec fn starting_reference() -> Seq<char> {
    "starting-balance"@
}

/// The balance and references a simulation starts from.
pub open spec fn simulation_start(starting_balance_minor: i64) -> (int, Set<Seq<char>>) {
    if starting_balance_minor > 0 {
        (starting_balance_minor as int, Set::empty().insert(starting_reference()))
    } else {
        (0, Set::empty())
    }
}

/// One wallet operation on a balance and the references used so far: the new
/// balance and references, or why the wallet refuses it.
pub open spec fn wallet_step(balance: int, references: Set<Seq<char>>, op: WalletOperationRequest)
    -> Result<(int, Set<Seq<char>>), WalletError>
{
    if op.amount_minor <= 0 {
        Err(WalletError::InvalidAmount)
    } else if op.kind == WalletOperationKind::BookingDebit && balance < op.amount_minor {
        Err(WalletError::InsufficientFunds)
    } else if references.contains(op.reference@) {
        Err(WalletError::DuplicateReference)
    } else if op.kind == WalletOperationKind::BookingDebit {
        Ok((balance - op.amount_minor, references.insert(op.reference@)))
    } else {
        Ok((balance + op.amount_minor, references.insert(op.reference@)))
    }
}

/// The final balance after the operations, or the first refusal.
pub open spec fn wallet_run(balance: int, references: Set<Seq<char>>, ops: Seq<WalletOperationRequest>) -> Result<int, WalletError>
    decreases ops.len(),
{
    if ops.len() == 0 {
        Ok(balance)
    } else {
        match wallet_step(balance, references, ops[0]) {
            Err(e) => Err(e),
            Ok((b, refs)) => wallet_run(b, refs, ops.drop_first()),
        }
    }
}

/// No balance reached while applying the operations exceeds `i64::MAX`.
pub open spec fn wallet_run_fits(balance: int, references: Set<Seq<char>>, ops: Seq<WalletOperationRequest>) -> bool
    decreases ops.len(),
{
    ops.len() > 0 ==> match wallet_step(balance, references, ops[0]) {
        Err(_) => true,
        Ok((b, refs)) => b <= i64::MAX && wallet_run_fits(b, refs, ops.drop_first()),
    }
}

/// A booking debit of a positive amount no larger than the balance, under a
/// reference not used before, is accepted and lowers the balance by exactly the
/// amount, in one step as at the end of a run; debiting the whole balance leaves
/// zero.
pub proof fn lemma_debit_up_to_balance_is_accepted(balance: int, references: Set<Seq<char>>, op: WalletOperationRequest)
    requires
        op.kind == WalletOperationKind::BookingDebit,
        0 < op.amount_minor <= balance,
        !references.contains(op.reference@),
    ensures
        wallet_step(balance, references, op) == Ok::<(int, Set<Seq<char>>), WalletError>((balance - op.amount_minor, references.insert(op.reference@))),
        wallet_run(balance, references, seq![op]) == Ok::<int, WalletError>(balance - op.amount_minor),
        op.amount_minor == balance ==> wallet_run(balance, references, seq![op]) == Ok::<int, WalletError>(0),
{
    let ops = seq![op];
    assert(ops[0] == op);
    assert(ops.drop_first() =~= Seq::<WalletOperationRequest>::empty());
    assert(wallet_run(balance - op.amount_minor, references.insert(op.reference@), ops.drop_first())
        == Ok::<int, WalletError>(balance - op.amount_minor));
}

/// A booking debit of a positive amount is refused for insufficient funds exactly
/// when the balance is below the amount.
pub proof fn lemma_insufficient_funds_exactly_below_amount(balance: int, references: Set<Seq<char>>, op: WalletOperationRequest)
    requires
        op.kind == WalletOperationKind::BookingDebit,
        op.amount_minor > 0,
    ensures
        (wallet_step(balance, references, op) == Err::<(int, Set<Seq<char>>), WalletError>(WalletError::InsufficientFunds))
            <==> balance < op.amount_minor,
{
}

/// The references in a wallet's ledger.
pub open spec fn ledger_references(wallet: WalletAccount) -> Set<Seq<char>> {
    Set::new(|r: Seq<char>| has_reference(wallet.entries@, r))
}

/// The texts of `refs`, as a set.
pub open spec fn text_set(refs: Seq<String>) -> Set<Seq<char>> {
    Set::new(|r: Seq<char>| exists|j: int| 0 <= j < refs.len() && (#[trigger] refs[j])@ == r)
}

fn contains_text(refs: &Vec<String>, s: &String) -> (r: bool)
    ensures
        r == text_set(refs@).contains(s@),
{
    let mut i: usize = 0;
    while i < refs.len()
        invariant
            i <= refs@.len(),
            forall|j: int| 0 <= j < i ==> (#[trigger] refs@[j])@ != s@,
        decreases refs@.len() - i,
    {
        if refs[i] == *s {
            assert(refs@[i as int]@ == s@);
            return true;
        }
        i = i + 1;
    }
    false
}

/// Whether a simulation never takes the balance above `i64::MAX`: `false` exactly
/// when some top-up or refund credit that the wallet would accept overflows it.
pub fn simulation_fits(request: &WalletSimulationRequest) -> (r: bool)
    ensures
        r == wallet_run_fits(simulation_start(request.starting_balance_minor).0, simulation_start(request.starting_balance_minor).1, request.operations@),
{
    let ghost start = simulation_start(request.starting_balance_minor);
    let mut balance: i64 = 0;
    let mut refs: Vec<String> = Vec::new();
    if request.starting_balance_minor > 0 {
        balance = request.starting_balance_minor;
        let starting = "starting-balance".to_string();
        refs.push(starting);
        assert(refs@[0]@ == starting_reference());
    }
    assert(text_set(refs@) =~= start.1);
    let ops = &request.operations;
    let mut i: usize = 0;
    assert(ops@.skip(0) =~= ops@);
    while i < ops.len()
        invariant
            i <= ops@.len(),
            ops@ == request.operations@,
            start == simulation_start(request.starting_balance_minor),
            wallet_run_fits(start.0, start.1, ops@) == wallet_run_fits(balance as int, text_set(refs@), ops@.skip(i as int)),
        decreases ops@.len() - i,
    {
        let op = &ops[i];
        let ghost rest = ops@.skip(i as int);
        assert(rest[0] == ops@[i as int]);
        assert(rest.drop_first() =~= ops@.skip(i + 1));
        if op.amount_minor <= 0 {
            return true;
        }
        let debit = match op.kind {
            WalletOperationKind::BookingDebit => true,
            _ => false,
        };
        if debit && balance < op.amount_minor {
            return true;
        }
        if contains_text(&refs, &op.reference) {
            return true;
        }
        if debit {
            balance = balance - op.amount_minor;
        } else {
            if balance > i64::MAX - op.amount_minor {
                return false;
            }
            balance = balance + op.amount_minor;
        }
        let ghost before = refs@;
        refs.push(op.reference.clone());
        proof {
            assert forall|t: Seq<char>| text_set(refs@).contains(t) == text_set(before).insert(op.reference@).contains(t) by {
                if text_set(before).contains(t) {
                    let j = choose|j: int| 0 <= j < before.len() && (#[trigger] before[j])@ == t;
                    assert(refs@[j] == before[j]);
                }
                if t == op.reference@ {
                    assert(refs@[before.len() as int]@ == t);
                }
                if text_set(refs@).contains(t) {
                    let j = choose|j: int| 0 <= j < refs@.len() && (#[trigger] refs@[j])@ == t;
                    if j < before.len() {
                        assert(refs@[j] == before[j]);
                    }
                }
            }
            assert(text_set(refs@) =~= text_set(before).insert(op.reference@));
        }
        i = i + 1;
    }
    true
}

/// Runs the operations on a fresh KES wallet (credited first with the starting
/// balance, when positive) and reports its balance and ledger sum; the first
/// refused operation ends the run with that refusal's message.
pub fn simulate_wallet(request: WalletSimulationRequest) -> (r: Result<WalletSimulationResponse, String>)
    requires
        wallet_run_fits(simulation_start(request.starting_balance_minor).0, simulation_start(request.starting_balance_minor).1, request.operations@),
    ensures
        match wallet_run(simulation_start(request.starting_balance_minor).0, simulation_start(request.starting_balance_minor).1, request.operations@) {
            Ok(balance) => r matches Ok(response) && response.balance_minor == balance && response.ledger_sum_minor == balance,
            Err(e) => r matches Err(message) && message@ == e.spec_message(),
        },
{
    let mut wallet = WalletAccount::new(request.user_id, "KES".to_string());
    if request.starting_balance_minor > 0 {
        let credited = wallet.credit(
            WalletLedgerKind::AdminAdjustment,
            request.starting_balance_minor,
            "starting-balance".to_string(),
            current_instant(),
        );
        if let Err(e) = credited {
            return Err(e.message());
        }
    }
    proof {
        assert(ledger_references(wallet) =~= simulation_start(request.starting_balance_minor).1) by {
            if request.starting_balance_minor > 0 {
                assert(wallet.entries@.len() == 1);
                assert(wallet.entries@[0].reference@ == starting_reference());
            }
        }
    }
    let ghost start = simulation_start(request.starting_balance_minor);
    let ops = &request.operations;
    let mut i: usize = 0;
    assert(ops@.skip(0) =~= ops@);
    while i < ops.len()
        invariant
            i <= ops@.len(),
            ops@ == request.operations@,
            start == simulation_start(request.starting_balance_minor),
            wallet.wf(),
            wallet_run(start.0, start.1, ops@) == wallet_run(wallet.balance_minor as int, ledger_references(wallet), ops@.skip(i as int)),
            wallet_run_fits(wallet.balance_minor as int, ledger_references(wallet), ops@.skip(i as int)),
        decreases ops@.len() - i,
    {
        let op = &ops[i];
        let ghost before = wallet;
        let ghost rest = ops@.skip(i as int);
        assert(rest[0] == ops@[i as int]);
        assert(rest.drop_first() =~= ops@.skip(i + 1));
        assert(ledger_references(before).contains(op.reference@) == has_reference(before.entries@, op.reference@));
        let outcome: Result<(), WalletError> = match op.kind {
            WalletOperationKind::TopUp => match wallet.credit(WalletLedgerKind::TopUp, op.amount_minor, op.reference.clone(), op.now) {
                Ok(_) => Ok(()),
                Err(e) => Err(e),
            },
            WalletOperationKind::BookingDebit => match wallet.debit(op.amount_minor, op.reference.clone(), op.now) {
                Ok(_) => Ok(()),
                Err(e) => Err(e),
            },
            WalletOperationKind::RefundCredit => match wallet.credit(WalletLedgerKind::RefundCredit, op.amount_minor, op.reference.clone(), op.now) {
                Ok(_) => Ok(()),
                Err(e) => Err(e),
            },
        };
        match outcome {
            Err(e) => {
                proof {
                    assert(wallet_step(before.balance_minor as int, ledger_references(before), *op) == Err::<(int, Set<Seq<char>>), WalletError>(e));
                    assert(wallet_run(before.balance_minor as int, ledger_references(before), rest) == Err::<int, WalletError>(e));
                }
                return Err(e.message());
            },
            Ok(()) => {},
        }
        proof {
            assert forall|r: Seq<char>| ledger_references(wallet).contains(r) == ledger_references(before).insert(op.reference@).contains(r) by {
                if has_reference(wallet.entries@, r) {
                    let j = choose|j: int| 0 <= j < wallet.entries@.len() && (#[trigger] wallet.entries@[j]).reference@ == r;
                    if j < before.entries@.len() {
                        assert(wallet.entries@[j] == wallet.entries@.drop_last()[j]);
                    }
                }
                if has_reference(before.entries@, r) {
                    let j = choose|j: int| 0 <= j < before.entries@.len() && (#[trigger] before.entries@[j]).reference@ == r;
                    assert(wallet.entries@.drop_last()[j] == wallet.entries@[j]);
                }
                if r == op.reference@ {
                    assert(wallet.entries@[wallet.entries@.len() - 1].reference@ == r);
                }
            }
            assert(ledger_references(wallet) =~= ledger_references(before).insert(op.reference@));
        }
        i = i + 1;
    }
    proof {
        lemma_ledger_matches_balance(wallet);
    }
    let ledger_sum_minor = wallet.ledger_sum();
    Ok(WalletSimulationResponse { balance_minor: wallet.balance_minor, ledger_sum_minor })
}


/// The platform defaults the metadata endpoint reports.
#[derive(Clone, Copy, Debug, PartialEq, Eq)]
pub struct ApiMetaResponse {
    pub app: &'static str,
    pub launch_country: &'static str,
    pub currency: &'static str,
    pub wallet_in_mvp: bool,
    pub hold_minutes: i64,
    pub cancellation_cutoff_bounds_hours: (i64, i64),
}

/// The metadata for the given settings: the app `turfzone`, launched in `KE` in
/// `KES` with the wallet, and the settings' hold length and cutoff bounds.
pub fn meta_response(settings: &TurfzoneSettings) -> (r: ApiMetaResponse)
    ensures
        r.app@ == "turfzone"@,
        r.launch_country@ == "KE"@,
        r.currency@ == "KES"@,
        r.wallet_in_mvp,
        r.hold_minutes == settings.hold_minutes,
        r.cancellation_cutoff_bounds_hours == (settings.min_cancellation_cutoff_hours, settings.max_cancellation_cutoff_hours),
{
    ApiMetaResponse {
        app: "turfzone",
        launch_country: "KE",
        currency: "KES",
        wallet_in_mvp: true,
        hold_minutes: settings.hold_minutes,
        cancellation_cutoff_bounds_hours: (settings.min_cancellation_cutoff_hours, settings.max_cancellation_cutoff_hours),
    }
}

/// Which of a search's location values were given, and whether the radius is
/// positive when it was.
#[derive(Clone, Copy, Debug, PartialEq, Eq, Structural)]
pub struct GeoPresence {
    pub latitude: bool,
    pub longitude: bool,
    pub radius_positive: Option<bool>,
}

/// A search's filters other than the location's coordinates.
#[derive(Clone, Debug, PartialEq, Eq)]
pub struct DiscoveryFilters {
    pub city: Option<String>,
    pub sport: Option<String>,
    pub date: Option<CalendarDate>,
    pub price_filter: Option<(i64, i64)>,
    pub geo_filter: bool,
    pub currency: String,
}

/// The optional text trimmed of surrounding white space.
pub open spec fn trimmed_opt(s: Option<String>) -> Option<Seq<char>> {
    match s {
        Some(v) => Some(trim_seq(v@)),
        None => None,
    }
}

fn trim_opt(s: Option<String>) -> (r: Option<String>)
    ensures
        opt_view(r) == trimmed_opt(s),
{
    match s {
        Some(v) => Some(trim(v.as_str()).to_string()),
        None => None,
    }
}

/// The validated filters of a search: both price bounds or neither, with
/// `0 <= min <= max` (else `invalid price filter`); all three location values or
/// none, with a positive radius (else the coordinates error); city and sport
/// trimmed; the currency `KES`.
pub fn discovery_filters(
    city: Option<String>,
    sport: Option<String>,
    date: Option<CalendarDate>,
    min_price_minor: Option<i64>,
    max_price_minor: Option<i64>,
    geo: GeoPresence,
) -> (r: Result<DiscoveryFilters, &'static str>)
    ensures
        !(match (min_price_minor, max_price_minor) {
            (Some(min), Some(max)) => min <= max && min >= 0,
            (None, None) => true,
            _ => false,
        }) ==> (r matches Err(m) && m@ == "invalid price filter"@),
        (match (min_price_minor, max_price_minor) {
            (Some(min), Some(max)) => min <= max && min >= 0,
            (None, None) => true,
            _ => false,
        }) && !((geo.latitude && geo.longitude && geo.radius_positive == Some(true))
            || (!geo.latitude && !geo.longitude && geo.radius_positive is None))
            ==> (r matches Err(m) && m@ == "latitude, longitude, and radius_km must be supplied together"@),
        r matches Ok(f) ==> {
            &&& opt_view(f.city) == trimmed_opt(city)
            &&& opt_view(f.sport) == trimmed_opt(sport)
            &&& f.date == date
            &&& f.price_filter == match (min_price_minor, max_price_minor) {
                (Some(min), Some(max)) => Some((min, max)),
                _ => None,
            }
            &&& f.geo_filter == geo.latitude
            &&& f.currency@ == "KES"@
        },
        (match (min_price_minor, max_price_minor) {
            (Some(min), Some(max)) => min <= max && min >= 0,
            (None, None) => true,
            _ => false,
        }) && ((geo.latitude && geo.longitude && geo.radius_positive == Some(true))
            || (!geo.latitude && !geo.longitude && geo.radius_positive is None)) ==> r is Ok,
{
    let price_filter = match (min_price_minor, max_price_minor) {
        (Some(min), Some(max)) => {
            if min <= max && min >= 0 {
                Some((min, max))
            } else {
                return Err("invalid price filter");
            }
        },
        (None, None) => None,
        _ => return Err("invalid price filter"),
    };
    let geo_filter = if geo.latitude && geo.longitude && geo.radius_positive == Some(true) {
        true
    } else if !geo.latitude && !geo.longitude && geo.radius_positive.is_none() {
        false
    } else {
        return Err("latitude, longitude, and radius_km must be supplied together");
    };
    Ok(DiscoveryFilters {
        city: trim_opt(city),
        sport: trim_opt(sport),
        date,
        price_filter,
        geo_filter,
        currency: "KES".to_string(),
    })
}

/// The slots requested for a field on a day.
#[derive(Clone, Debug, PartialEq, Eq)]
pub struct AvailabilityRequest {
    pub date: CalendarDate,
    pub slot_minutes: i64,
    pub opening_windows: Vec<OpeningWindow>,
    pub exception: Option<AvailabilityExceptionInput>,
    pub active_bookings: Vec<ActiveBooking>,
    pub now: UtcInstant,
}

/// The slots of a field on a day.
#[derive(Clone, Debug, PartialEq, Eq)]
pub struct AvailabilityResponse {
    pub slots: Vec<SlotState>,
}

/// The answer to an availability request: always `ok`, with the day's slots.
pub fn field_availability_response(request: AvailabilityRequest) -> (r: ApiResponse<AvailabilityResponse>)
    requires
        request.date.valid(),
        request.slot_minutes > 0 && resolved_window(
            window_for_weekday(request.opening_windows@, request.date.weekday_index()),
            request.exception,
        ) is Some ==> delta_in_range(60 * request.slot_minutes),
        forall|i: int| 0 <= i < request.opening_windows@.len() ==> (#[trigger] request.opening_windows@[i]).opens_at.valid(),
        request.exception matches Some(e) ==> (e.opens_at matches Some(o) ==> o.valid()),
    ensures
        r.ok && r.error is None,
        r.data matches Some(d) && d.slots@ == day_slots(
            request.date,
            request.slot_minutes as int,
            request.opening_windows@,
            request.exception,
            request.active_bookings@,
            request.now,
        ),
{
    let exception = match &request.exception {
        Some(e) => Some(e),
        None => None,
    };
    let slots = availability_for_date(
        request.date,
        request.slot_minutes,
        request.opening_windows.as_slice(),
        exception,
        request.active_bookings.as_slice(),
        request.now,
    );
    ApiResponse::ok(AvailabilityResponse { slots })
}

/// A player's request to hold a slot.
#[derive(Clone, Debug, PartialEq, Eq)]
pub struct CreateBookingHoldRequest {
    pub field_id: i64,
    pub player_id: i64,
    pub date: CalendarDate,
    pub start_time: TimeOfDay,
    pub end_time: TimeOfDay,
    pub amount_minor: i64,
    pub active_bookings: Vec<ActiveBooking>,
    pub now: UtcInstant,
}

/// The hold made for a player.
#[derive(Clone, Debug, PartialEq, Eq)]
pub struct CreateBookingHoldResponse {
    pub booking_id: u128,
    pub amount_minor: i64,
    pub commission_minor: i64,
    pub manager_share_minor: i64,
    pub hold_expires_at: UtcInstant,
    pub currency: String,
}

/// The answer to a hold request under the settings' hold length, commission and
/// currency: the hold's random id, amounts, expiry and currency, or the refusal's
/// message.
pub fn create_booking_hold_response(settings: &TurfzoneSettings, request: CreateBookingHoldRequest) -> (r: ApiResponse<CreateBookingHoldResponse>)
    requires
        request.now.valid(),
        hold_decision(settings.platform_commission_bps as int, request.start_time, request.end_time, request.amount_minor as int, request.active_bookings@, request.now) is Ok ==> {
            &&& request.amount_minor * settings.platform_commission_bps <= i64::MAX
            &&& request.now.can_shift(60 * settings.hold_minutes)
        },
    ensures
        match hold_decision(settings.platform_commission_bps as int, request.start_time, request.end_time, request.amount_minor as int, request.active_bookings@, request.now) {
            Err(e) => !r.ok && r.data is None && (r.error matches Some(m) && m@ == e.spec_message()),
            Ok(_) => r.ok && r.error is None && (r.data matches Some(h) && {
                &&& is_random_uuid(h.booking_id)
                &&& h.amount_minor == request.amount_minor
                &&& h.commission_minor == commission_of(request.amount_minor as int, settings.platform_commission_bps as int)
                &&& h.manager_share_minor == request.amount_minor - h.commission_minor
                &&& h.hold_expires_at == request.now.shifted(60 * settings.hold_minutes)
                &&& h.currency@ == settings.default_currency@
            }),
        },
{
    let engine = BookingEngine::new(settings.hold_minutes, settings.platform_commission_bps, settings.default_currency.clone());
    match engine.create_hold(
        request.field_id,
        request.player_id,
        request.date,
        request.start_time,
        request.end_time,
        request.amount_minor,
        request.active_bookings.as_slice(),
        request.now,
    ) {
        Ok(hold) => ApiResponse::ok(CreateBookingHoldResponse {
            booking_id: hold.id,
            amount_minor: hold.amount_minor,
            commission_minor: hold.commission_minor,
            manager_share_minor: hold.manager_share_minor,
            hold_expires_at: hold.hold_expires_at,
            currency: hold.currency,
        }),
        Err(e) => ApiResponse::error(e.message()),
    }
}

/// A request to quote the cancellation of a booking.
#[derive(Clone, Copy, Debug, PartialEq, Eq, Structural)]
pub struct CancellationQuoteRequest {
    pub booking_start: UtcInstant,
    pub now: UtcInstant,
    pub amount_minor: i64,
    pub cutoff_hours: i64,
    pub refund_percent: i64,
}

/// Whether the booking may be cancelled and what goes back to the wallet.
#[derive(Clone, Copy, Debug, PartialEq, Eq, Structural)]
pub struct CancellationQuoteResponse {
    pub allowed: bool,
    pub refund_to_wallet_minor: i64,
}

/// The answer to a cancellation quote: the policy in the request, validated
/// against the settings' cutoff bounds, decides the quote; a refused policy or a
/// negative amount answers with the refusal's message.
pub fn cancellation_quote_response(settings: &TurfzoneSettings, request: CancellationQuoteRequest) -> (r: ApiResponse<CancellationQuoteResponse>)
    requires
        request.booking_start.valid(),
        ({
            let policy = CancellationPolicy { cutoff_hours: request.cutoff_hours, refund_percent: request.refund_percent };
            policy.within(settings.min_cancellation_cutoff_hours as int, settings.max_cancellation_cutoff_hours as int)
                && request.amount_minor >= 0 ==> {
                    &&& request.booking_start.can_shift(-3600 * request.cutoff_hours)
                    &&& request.now.not_after(policy.cutoff(request.booking_start))
                        ==> request.amount_minor * request.refund_percent <= i64::MAX
                }
        }),
    ensures
        ({
            let policy = CancellationPolicy { cutoff_hours: request.cutoff_hours, refund_percent: request.refund_percent };
            if request.cutoff_hours < settings.min_cancellation_cutoff_hours || request.cutoff_hours > settings.max_cancellation_cutoff_hours {
                !r.ok && r.data is None && (r.error matches Some(m) && m@ == BookingError::CancellationPolicyOutOfBounds.spec_message())
            } else if !(0 <= request.refund_percent <= 100) {
                !r.ok && r.data is None && (r.error matches Some(m) && m@ == BookingError::InvalidRefundPercent.spec_message())
            } else if request.amount_minor < 0 {
                !r.ok && r.data is None && (r.error matches Some(m) && m@ == BookingError::InvalidAmount.spec_message())
            } else {
                r.ok && r.error is None && r.data == Some(CancellationQuoteResponse {
                    allowed: request.now.earlier(request.booking_start),
                    refund_to_wallet_minor: if request.now.not_after(policy.cutoff(request.booking_start)) {
                        refund_of(request.amount_minor as int, request.refund_percent as int) as i64
                    } else {
                        0
                    },
                })
            }
        }),
{
    let policy = CancellationPolicy { cutoff_hours: request.cutoff_hours, refund_percent: request.refund_percent };
    let validated = match policy.validate(settings.min_cancellation_cutoff_hours, settings.max_cancellation_cutoff_hours) {
        Ok(p) => p,
        Err(e) => return ApiResponse::error(e.message()),
    };
    proof {
        if request.amount_minor >= 0 {
            assert(0 <= request.amount_minor * request.refund_percent) by (nonlinear_arith)
                requires
                    request.amount_minor >= 0,
                    0 <= request.refund_percent;
        }
    }
    match validated.decide(request.booking_start, request.now, request.amount_minor) {
        Ok(decision) => ApiResponse::ok(CancellationQuoteResponse {
            allowed: decision.allowed,
            refund_to_wallet_minor: decision.refund_to_wallet_minor,
        }),
        Err(e) => ApiResponse::error(e.message()),
    }
}

/// How a payment is made.
#[derive(Clone, Copy, Debug, PartialEq, Eq, Structural)]
pub enum PaymentInitChannel {
    Mpesa,
    Card,
}

/// A request to start paying for a booking.
#[derive(Debug)]
pub struct PaymentInitRequest {
    pub channel: PaymentInitChannel,
    pub email: Option<String>,
    pub phone: Option<String>,
    pub amount_minor: i64,
    pub reference: String,
    pub split_code: Option<String>,
    pub metadata: serde_json::Value,
}

/// The provider request that starts a payment.
#[derive(Debug)]
pub enum PaymentPayload {
    Mpesa(MpesaChargePayload),
    Card(CardInitializePayload),
}

/// The provider, channel and request body that start a payment.
#[derive(Debug)]
pub struct PaymentInitResponse {
    pub provider: String,
    pub channel: PaymentInitChannel,
    pub payload: PaymentPayload,
}

/// The Paystack request that starts a payment in KES: an M-Pesa charge, which
/// needs a phone number, or a card initialization, which needs an e-mail; a
/// missing value or a refused payload answers with its message.
pub fn build_payment_init_payload(request: PaymentInitRequest) -> (r: Result<PaymentInitResponse, String>)
    ensures
        request.channel == PaymentInitChannel::Mpesa && request.phone is None
            ==> (r matches Err(m) && m@ == "phone is required for M-Pesa"@),
        request.channel == PaymentInitChannel::Card && request.email is None
            ==> (r matches Err(m) && m@ == "email is required for card payment"@),
        request.channel == PaymentInitChannel::Mpesa && request.phone is Some && request.amount_minor <= 0
            ==> (r matches Err(m) && m@ == "paystack amount must be positive"@),
        request.channel == PaymentInitChannel::Card && request.email is Some && request.amount_minor <= 0
            ==> (r matches Err(m) && m@ == "paystack amount must be positive"@),
        request.channel == PaymentInitChannel::Mpesa && request.phone is Some && request.amount_minor > 0
            && normalized_phone(request.phone->0@) is None
            ==> (r matches Err(m) && m@ == PhoneError::InvalidKenyanMobile.spec_message()),
        request.channel == PaymentInitChannel::Mpesa && request.phone is Some && request.amount_minor > 0
            && normalized_phone(request.phone->0@) is Some ==> (r matches Ok(resp) && {
                let phone = normalized_phone(request.phone->0@)->0;
                &&& resp.provider@ == "paystack"@
                &&& resp.channel == PaymentInitChannel::Mpesa
                &&& resp.payload matches PaymentPayload::Mpesa(p) && {
                    &&& p.email@ == match request.email { Some(e) => e@, None => placeholder_email(phone) }
                    &&& p.amount == request.amount_minor
                    &&& p.currency@ == "KES"@
                    &&& p.reference@ == request.reference@
                    &&& p.phone@ == phone
                    &&& p.provider@ == "mpesa"@
                    &&& p.channels@.len() == 1 && p.channels@[0]@ == "mobile_money"@
                    &&& opt_view(p.split_code) == opt_view(request.split_code)
                    &&& p.metadata == request.metadata
                }
            }),
        request.channel == PaymentInitChannel::Card && request.email is Some && request.amount_minor > 0 ==> (r matches Ok(resp) && {
            &&& resp.provider@ == "paystack"@
            &&& resp.channel == PaymentInitChannel::Card
            &&& resp.payload matches PaymentPayload::Card(p) && {
                &&& p.email@ == request.email->0@
                &&& p.amount == request.amount_minor
                &&& p.currency@ == "KES"@
                &&& p.reference@ == request.reference@
                &&& p.channels@.len() == 1 && p.channels@[0]@ == "card"@
                &&& opt_view(p.split_code) == opt_view(request.split_code)
                &&& p.metadata == request.metadata
            }
        }),
{
    let kes = "KES".to_string();
    proof { reveal_strlit("KES"); }
    let payload = match request.channel {
        PaymentInitChannel::Mpesa => {
            let phone = match request.phone {
                Some(p) => p,
                None => return Err("phone is required for M-Pesa".to_string()),
            };
            match mpesa_charge_payload(PaystackChargeRequest {
                email: request.email,
                phone,
                amount_minor: request.amount_minor,
                currency: kes,
                reference: request.reference,
                split_code: request.split_code,
                metadata: request.metadata,
            }) {
                Ok(p) => PaymentPayload::Mpesa(p),
                Err(e) => return Err(e.message()),
            }
        },
        PaymentInitChannel::Card => {
            let email = match request.email {
                Some(e) => e,
                None => return Err("email is required for card payment".to_string()),
            };
            match card_initialize_payload(PaystackCardInitializeRequest {
                email,
                amount_minor: request.amount_minor,
                currency: kes,
                reference: request.reference,
                split_code: request.split_code,
                metadata: request.metadata,
            }) {
                Ok(p) => PaymentPayload::Card(p),
                Err(e) => return Err(e.message()),
            }
        },
    };
    Ok(PaymentInitResponse { provider: "paystack".to_string(), channel: request.channel, payload })
}

/// A webhook body and the signature it came with.
#[derive(Clone, Debug, PartialEq, Eq)]
pub struct PaystackWebhookVerifyRequest {
    pub raw_body: String,
    pub signature: String,
}

/// The signature check of a webhook: refused when no Paystack secret key is
/// configured, or with the signature error's message.
pub fn check_webhook_signature(secret_key: &Option<String>, request: &PaystackWebhookVerifyRequest) -> (r: Result<(), String>)
    ensures
        match secret_key {
            None => r matches Err(m) && m@ == "PAYSTACK_SECRET_KEY is not configured"@,
            Some(key) => match hex_decoded(encode_utf8(request.signature@)) {
                None => r matches Err(m) && m@ == PaystackSignatureError::Malformed.spec_message(),
                Some(tag) => if tag == hmac_sha512_tag(key@, encode_utf8(request.raw_body@)) {
                    r is Ok
                } else {
                    r matches Err(m) && m@ == PaystackSignatureError::Mismatch.spec_message()
                },
            },
        },
{
    let key = match secret_key {
        Some(k) => k,
        None => return Err("PAYSTACK_SECRET_KEY is not configured".to_string()),
    };
    match verify_webhook_signature(request.raw_body.as_str().as_bytes(), request.signature.as_str(), key.as_str()) {
        Ok(()) => Ok(()),
        Err(e) => Err(e.message()),
    }
}

/// A manager's request to create their Paystack subaccount.
#[derive(Clone, Debug, PartialEq, Eq)]
pub struct ManagerSubaccountPayloadRequest {
    pub business_name: String,
    pub settlement_bank: Option<String>,
    pub account_number: Option<String>,
    pub mobile_money_number: Option<String>,
    pub platform_commission_bps: i64,
}

/// The answer to a subaccount request: the subaccount payload, with the platform
/// commission as its percentage charge, or the refusal's message.
pub fn manager_subaccount_response(request: ManagerSubaccountPayloadRequest) -> (r: ApiResponse<SubaccountPayload>)
    ensures
        r.ok == r.data is Some,
        r.ok == r.error is None,
        !rate_in_range(request.platform_commission_bps as int)
            ==> (r.error matches Some(m) && m@ == PaystackRequestError::InvalidCommissionRate.spec_message()),
        rate_in_range(request.platform_commission_bps as int) && (request.account_number is Some == request.mobile_money_number is Some)
            ==> (r.error matches Some(m) && m@ == PaystackRequestError::InvalidSettlementDestination.spec_message()),
        rate_in_range(request.platform_commission_bps as int) && request.account_number is Some && request.mobile_money_number is None
            ==> (r.data matches Some(SubaccountPayload::BankAccount { business_name, settlement_bank, account_number, percentage_charge_bps }) && {
                &&& business_name@ == request.business_name@
                &&& opt_view(settlement_bank) == opt_view(request.settlement_bank)
                &&& Some(account_number@) == opt_view(request.account_number)
                &&& percentage_charge_bps == request.platform_commission_bps
            }),
        rate_in_range(request.platform_commission_bps as int) && request.account_number is None && request.mobile_money_number is Some
            ==> match normalized_phone(request.mobile_money_number->0@) {
                None => (r.error matches Some(m) && m@ == PhoneError::InvalidKenyanMobile.spec_message()),
                Some(n) => (r.data matches Some(SubaccountPayload::MobileMoney { business_name, mobile_money_number, percentage_charge_bps })
                    && business_name@ == request.business_name@
                    && mobile_money_number@ == n
                    && percentage_charge_bps == request.platform_commission_bps),
            },
{
    match subaccount_payload(PaystackSubaccountRequest {
        business_name: request.business_name,
        settlement_bank: request.settlement_bank,
        account_number: request.account_number,
        mobile_money_number: request.mobile_money_number,
        percentage_charge_bps: request.platform_commission_bps,
    }) {
        Ok(p) => ApiResponse::ok(p),
        Err(e) => ApiResponse::error(e.message()),
    }
}

/// An admin's request for a refund payload.
#[derive(Clone, Debug, PartialEq, Eq)]
pub struct RefundPayloadRequest {
    pub transaction_reference: String,
    pub amount_minor: i64,
    pub merchant_note: String,
}

/// The answer to a refund request: the KES refund payload, or the refusal's message.
pub fn refund_request_response(request: RefundPayloadRequest) -> (r: ApiResponse<RefundPayload>)
    ensures
        request.amount_minor <= 0 ==> !r.ok && r.data is None && (r.error matches Some(m) && m@ == "paystack amount must be positive"@),
        request.amount_minor > 0 ==> r.ok && r.error is None && (r.data matches Some(p) && {
            &&& p.transaction@ == request.transaction_reference@
            &&& p.amount == request.amount_minor
            &&& p.merchant_note@ == request.merchant_note@
        }),
{
    let kes = "KES".to_string();
    proof { reveal_strlit("KES"); }
    match refund_payload(PaystackRefundRequest {
        transaction_reference: request.transaction_reference,
        amount_minor: request.amount_minor,
        currency: kes,
        merchant_note: request.merchant_note,
    }) {
        Ok(p) => ApiResponse::ok(p),
        Err(e) => ApiResponse::error(e.message()),
    }
}

/// An admin's verification decision on a manager.
#[derive(Clone, Debug, PartialEq, Eq)]
pub struct AdminVerifyManagerRequest {
    pub manager_id: i64,
    pub verified: bool,
    pub settlement_phone: Option<String>,
}

/// The recorded verification and the manager's normalized settlement phone.
#[derive(Clone, Debug, PartialEq, Eq)]
pub struct AdminVerifyManagerResponse {
    pub manager_id: i64,
    pub verification_status: String,
    pub normalized_settlement_phone: Option<String>,
}

/// The verification answer: `Verified` or `Rejected`, with the settlement phone,
/// when given, normalized; a phone that is not a Kenyan mobile number answers with
/// the phone error's message.
pub fn build_admin_verify_manager_response(request: AdminVerifyManagerRequest) -> (r: Result<AdminVerifyManagerResponse, String>)
    ensures
        match request.settlement_phone {
            Some(p) if normalized_phone(p@) is None => r matches Err(m) && m@ == PhoneError::InvalidKenyanMobile.spec_message(),
            _ => r matches Ok(resp) && {
                &&& resp.manager_id == request.manager_id
                &&& resp.verification_status@ == if request.verified { "Verified"@ } else { "Rejected"@ }
                &&& opt_view(resp.normalized_settlement_phone) == match request.settlement_phone {
                    Some(p) => normalized_phone(p@),
                    None => None,
                }
            },
        },
{
    let normalized_settlement_phone = match &request.settlement_phone {
        Some(p) => match normalize_kenyan_phone(p.as_str()) {
            Ok(n) => Some(n),
            Err(e) => return Err(e.message()),
        },
        None => None,
    };
    let verification_status = if request.verified { "Verified".to_string() } else { "Rejected".to_string() };
    Ok(AdminVerifyManagerResponse { manager_id: request.manager_id, verification_status, normalized_settlement_phone })
}

} // verus!
