//! Platform settings and their defaults.
use vstd::prelude::*;

use crate::text::{parse_i64, parsed_i64};

verus! {

/// The platform's settings.
#[derive(Clone, Debug, PartialEq, Eq)]
pub struct TurfzoneSettings {
    pub default_currency: String,
    pub hold_minutes: i64,
    pub default_cancellation_cutoff_hours: i64,
    pub min_cancellation_cutoff_hours: i64,
    pub max_cancellation_cutoff_hours: i64,
    pub platform_commission_bps: i64,
    pub paystack_secret_key: Option<String>,
}

/// The raw value of each setting, as found in the environment (`None` when unset).
#[derive(Clone, Debug, PartialEq, Eq)]
pub struct SettingsSource {
    pub default_currency: Option<String>,
    pub hold_minutes: Option<String>,
    pub default_cancellation_cutoff_hours: Option<String>,
    pub min_cancellation_cutoff_hours: Option<String>,
    pub max_cancellation_cutoff_hours: Option<String>,
    pub platform_commission_bps: Option<String>,
    pub paystack_secret_key: Option<String>,
}

/// A numeric setting: its value when it parses as an integer, else `default`.
pub open spec fn numeric_setting(raw: Option<String>, default: i64) -> i64 {
    match raw {
        Some(v) => match parsed_i64(v@) {
            Some(n) => n,
            None => default,
        },
        None => default,
    }
}

/// A numeric setting: its value when it parses as an integer, else `default`.
pub fn setting_i64(raw: &Option<String>, default: i64) -> (r: i64)
    ensures
        r == numeric_setting(*raw, default),
{
    match raw {
        Some(v) => match parse_i64(v.as_str()) {
            Some(n) => n,
            None => default,
        },
        None => default,
    }
}

/// A text setting: its value when set, else `default`.
pub fn setting_string(raw: &Option<String>, default: &str) -> (r: String)
    ensures
        r@ == match *raw { Some(v) => v@, None => default@ },
{
    match raw {
        Some(v) => v.clone(),
        None => default.to_string(),
    }
}

impl TurfzoneSettings {
    /// The settings from their raw values, with these defaults: currency `KES`, a
    /// 7-minute hold, a 6-hour cancellation cutoff bounded to 2..24 hours, and a
    /// 1000-basis-point commission; the Paystack secret key has no default.
    pub fn from_source(source: &SettingsSource) -> (r: Self)
        ensures
            r.default_currency@ == match source.default_currency { Some(v) => v@, None => "KES"@ },
            r.hold_minutes == numeric_setting(source.hold_minutes, 7),
            r.default_cancellation_cutoff_hours == numeric_setting(source.default_cancellation_cutoff_hours, 6),
            r.min_cancellation_cutoff_hours == numeric_setting(source.min_cancellation_cutoff_hours, 2),
            r.max_cancellation_cutoff_hours == numeric_setting(source.max_cancellation_cutoff_hours, 24),
            r.platform_commission_bps == numeric_setting(source.platform_commission_bps, 1000),
            match (r.paystack_secret_key, source.paystack_secret_key) {
                (Some(a), Some(b)) => a@ == b@,
                (None, None) => true,
                _ => false,
            },
    {
        TurfzoneSettings {
            default_currency: setting_string(&source.default_currency, "KES"),
            hold_minutes: setting_i64(&source.hold_minutes, 7),
            default_cancellation_cutoff_hours: setting_i64(&source.default_cancellation_cutoff_hours, 6),
            min_cancellation_cutoff_hours: setting_i64(&source.min_cancellation_cutoff_hours, 2),
            max_cancellation_cutoff_hours: setting_i64(&source.max_cancellation_cutoff_hours, 24),
            platform_commission_bps: setting_i64(&source.platform_commission_bps, 1000),
            paystack_secret_key: match &source.paystack_secret_key {
                Some(k) => Some(k.clone()),
                None => None,
            },
        }
    }
}

} // verus!
