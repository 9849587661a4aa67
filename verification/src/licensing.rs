//! Licensing rules: verifying an entitlement against the clock and the
//! device, building the stored license record, and the activation and
//! refresh decisions.  Instants are milliseconds since the Unix epoch and
//! are handed in by the caller; persistence and any network call stay
//! outside the crate.

use vstd::prelude::*;
use vstd::string::*;
use crate::text;

verus! {

/// Tolerated clock skew for the issued-at check: five minutes.
pub const CLOCK_SKEW_MS: i64 = 300000;

/// Validity window granted to a monthly plan: thirty days.
pub const MONTHLY_VALIDITY_MS: i64 = 2592000000;

/// An entitlement as the activation service reports it.
pub struct Entitlement {
    pub plan: String,
    pub exp_ms: Option<i64>,
    pub iat_ms: Option<i64>,
    pub device_fingerprint: Option<String>,
    pub grace_days: Option<i64>,
    pub raw_jws: Option<String>,
}

/// Why an entitlement was refused.
#[derive(Clone, Copy, PartialEq, Eq, Structural, Debug)]
pub enum VerifyError {
    ClockSkew,
    Expired,
    DeviceMismatch,
    InvalidFormat,
}

/// An entitlement issued further in the future than the tolerated skew.
pub open spec fn skewed(ent: Entitlement, now_ms: i64) -> bool {
    ent.iat_ms matches Some(iat) && iat > now_ms + CLOCK_SKEW_MS
}

/// A monthly entitlement past its expiry.
pub open spec fn expired_monthly(ent: Entitlement, now_ms: i64) -> bool {
    ent.plan@ == "monthly"@ && (ent.exp_ms matches Some(e) && e < now_ms)
}

/// An entitlement pinned to some other device.
pub open spec fn device_mismatch(ent: Entitlement, local_fp: Option<String>) -> bool {
    ent.device_fingerprint matches Some(required) && (local_fp matches Some(local) && required@
        != local@)
}

/// Verifies an entitlement: refuses clock skew, then a lapsed monthly plan,
/// then a device mismatch, and otherwise passes the entitlement through
/// unchanged.
pub fn verify_entitlement(ent: Entitlement, now_ms: i64, local_fp: Option<String>) -> (r: Result<
    Entitlement,
    VerifyError,
>)
    requires
        now_ms + CLOCK_SKEW_MS <= i64::MAX,
    ensures
        skewed(ent, now_ms) ==> r == Err::<Entitlement, VerifyError>(VerifyError::ClockSkew),
        !skewed(ent, now_ms) && expired_monthly(ent, now_ms) ==> r == Err::<
            Entitlement,
            VerifyError,
        >(VerifyError::Expired),
        !skewed(ent, now_ms) && !expired_monthly(ent, now_ms) && device_mismatch(ent, local_fp)
            ==> r == Err::<Entitlement, VerifyError>(VerifyError::DeviceMismatch),
        !skewed(ent, now_ms) && !expired_monthly(ent, now_ms) && !device_mismatch(ent, local_fp)
            ==> r == Ok::<Entitlement, VerifyError>(ent),
{
    if let Some(iat) = ent.iat_ms {
        if iat > now_ms + CLOCK_SKEW_MS {
            return Err(VerifyError::ClockSkew);
        }
    }
    if let Some(e) = ent.exp_ms {
        let monthly = "monthly".to_owned();
        if e < now_ms && ent.plan == monthly {
            return Err(VerifyError::Expired);
        }
    }
    match (&ent.device_fingerprint, &local_fp) {
        (Some(required), Some(local)) => {
            if !(*required == *local) {
                return Err(VerifyError::DeviceMismatch);
            }
        },
        _ => {},
    }
    Ok(ent)
}

/// The stored snapshot of the license state.
#[derive(Clone, Debug)]
pub struct LicenseRecord {
    pub plan: String,
    pub state: String,
    pub entitlement_jws: Option<String>,
    pub last_verified_at_ms: Option<i64>,
    pub expires_at_ms: Option<i64>,
    pub grace_days: Option<i64>,
    pub device_fingerprint: Option<String>,
    pub error: Option<String>,
}

impl Default for LicenseRecord {
    /// The record of an unlicensed installation: the free plan.
    fn default() -> (r: LicenseRecord)
        ensures
            r.plan@ == "free"@,
            r.state@ == "free"@,
            r.entitlement_jws is None,
            r.last_verified_at_ms is None,
            r.expires_at_ms is None,
            r.grace_days is None,
            r.device_fingerprint is None,
            r.error is None,
    {
        LicenseRecord {
            plan: "free".to_owned(),
            state: "free".to_owned(),
            entitlement_jws: None,
            last_verified_at_ms: None,
            expires_at_ms: None,
            grace_days: None,
            device_fingerprint: None,
            error: None,
        }
    }
}

/// The state a verified entitlement maps to: a monthly plan past its expiry
/// is expired, everything else is active.
pub open spec fn record_state(ent: Entitlement, now_ms: i64) -> Seq<char> {
    if ent.plan@ == "monthly"@ && (ent.exp_ms matches Some(e) && e < now_ms) {
        "expired"@
    } else {
        "active"@
    }
}

/// Builds the license record for a verified entitlement.
pub fn build_license_record(ent: Entitlement, now_ms: i64) -> (r: LicenseRecord)
    ensures
        r.plan@ == ent.plan@,
        r.state@ == record_state(ent, now_ms),
        r.entitlement_jws == ent.raw_jws,
        r.last_verified_at_ms == Some(now_ms),
        r.expires_at_ms == ent.exp_ms,
        r.grace_days == ent.grace_days,
        r.device_fingerprint == ent.device_fingerprint,
        r.error is None,
{
    let monthly = "monthly".to_owned();
    let state: String = if ent.plan == monthly {
        match ent.exp_ms {
            Some(e) => if e < now_ms {
                "expired".to_owned()
            } else {
                "active".to_owned()
            },
            None => "active".to_owned(),
        }
    } else {
        "active".to_owned()
    };
    LicenseRecord {
        plan: ent.plan,
        state,
        entitlement_jws: ent.raw_jws,
        last_verified_at_ms: Some(now_ms),
        expires_at_ms: ent.exp_ms,
        grace_days: ent.grace_days,
        device_fingerprint: ent.device_fingerprint,
        error: None,
    }
}

/// This machine's lightweight fingerprint.
pub fn fingerprint() -> (r: Option<String>)
    ensures
        r matches Some(s) && s@ == "linux-dev-fingerprint"@,
{
    Some("linux-dev-fingerprint".to_owned())
}

/// The Unicode uppercasing of a string; the result depends on the
/// characters alone.
pub uninterp spec fn upper_of(s: Seq<char>) -> Seq<char>;

/// Relies on str::to_uppercase.
#[verifier::external_body]
fn uppercase(s: &str) -> (r: String)
    ensures
        r@ == upper_of(s@),
        s@.len() == 0 ==> r@.len() == 0,
{
    s.to_uppercase()
}

/// The activation decision for a license key: a blank key is refused; a key
/// whose uppercased form contains "LIFE" buys the lifetime plan, any other
/// key the monthly plan with a thirty-day window.
pub fn activation_entitlement(key: &str, now_ms: i64, local_fp: Option<String>) -> (r: Result<
    Entitlement,
    String,
>)
    requires
        now_ms + MONTHLY_VALIDITY_MS <= i64::MAX,
    ensures
        text::trimmed_of(key@).len() == 0 ==> (r matches Err(e) && e@ == "missing_license_key"@),
        text::trimmed_of(key@).len() > 0 ==> (r matches Ok(ent) && ({
            let lifetime = text::contains_seq(upper_of(key@), "LIFE"@);
            &&& ent.plan@ == (if lifetime {
                "pro_lifetime"@
            } else {
                "pro_monthly"@
            })
            &&& ent.exp_ms == (if lifetime {
                Option::<i64>::None
            } else {
                Option::<i64>::Some((now_ms + MONTHLY_VALIDITY_MS) as i64)
            })
            &&& ent.iat_ms == Some(now_ms)
            &&& ent.device_fingerprint == local_fp
            &&& ent.grace_days == Some(10i64)
            &&& ent.raw_jws matches Some(j) && j@ == "mock-jws-"@ + key@
        })),
{
    let trimmed = text::trim_str(key);
    if trimmed.as_str().unicode_len() == 0 {
        return Err("missing_license_key".to_owned());
    }
    let upper = uppercase(key);
    let lifetime = text::str_contains(upper.as_str(), "LIFE");
    let exp_ms: Option<i64> = if lifetime {
        None
    } else {
        Some(now_ms + MONTHLY_VALIDITY_MS)
    };
    let plan: String = if lifetime {
        "pro_lifetime".to_owned()
    } else {
        "pro_monthly".to_owned()
    };
    let mut jws = "mock-jws-".to_owned();
    jws.append(key);
    Ok(
        Entitlement {
            plan,
            exp_ms,
            iat_ms: Some(now_ms),
            device_fingerprint: local_fp,
            grace_days: Some(10),
            raw_jws: Some(jws),
        },
    )
}

/// The refresh decision: a monthly plan with a known expiry flips between
/// active and expired by the clock; a monthly plan that somehow lost its
/// expiry gets a fresh thirty-day window; and every refresh stamps the
/// verification instant.
pub fn refresh_record(rec: LicenseRecord, now_ms: i64) -> (r: LicenseRecord)
    requires
        now_ms + MONTHLY_VALIDITY_MS <= i64::MAX,
    ensures
        r.plan@ == rec.plan@,
        r.last_verified_at_ms == Some(now_ms),
        r.entitlement_jws == rec.entitlement_jws,
        r.grace_days == rec.grace_days,
        r.device_fingerprint == rec.device_fingerprint,
        r.error == rec.error,
        rec.plan@ == "pro_monthly"@ ==> ({
            &&& rec.expires_at_ms matches Some(e) ==> r.state@ == (if e < now_ms {
                "expired"@
            } else {
                "active"@
            }) && r.expires_at_ms == Some(e)
            &&& rec.expires_at_ms is None ==> r.state@ == rec.state@ && r.expires_at_ms == Some(
                (now_ms + MONTHLY_VALIDITY_MS) as i64,
            )
        }),
        rec.plan@ != "pro_monthly"@ ==> r.state@ == rec.state@ && r.expires_at_ms
            == rec.expires_at_ms,
{
    let monthly = "pro_monthly".to_owned();
    let mut state = rec.state;
    let mut expires_at_ms = rec.expires_at_ms;
    if rec.plan == monthly {
        match expires_at_ms {
            Some(e) => {
                state = if e < now_ms {
                    "expired".to_owned()
                } else {
                    "active".to_owned()
                };
            },
            None => {
                expires_at_ms = Some(now_ms + MONTHLY_VALIDITY_MS);
            },
        }
    }
    LicenseRecord {
        plan: rec.plan,
        state,
        entitlement_jws: rec.entitlement_jws,
        last_verified_at_ms: Some(now_ms),
        expires_at_ms,
        grace_days: rec.grace_days,
        device_fingerprint: rec.device_fingerprint,
        error: rec.error,
    }
}

} // verus!
