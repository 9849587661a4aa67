use horizon_core::licensing::{
    activation_entitlement, build_license_record, fingerprint, refresh_record, verify_entitlement,
    Entitlement, LicenseRecord, VerifyError, CLOCK_SKEW_MS, MONTHLY_VALIDITY_MS,
};

fn entitlement(plan: &str) -> Entitlement {
    Entitlement {
        plan: plan.to_string(),
        exp_ms: None,
        iat_ms: None,
        device_fingerprint: None,
        grace_days: None,
        raw_jws: None,
    }
}

#[test]
fn skewed_clock_is_refused() {
    let now = 1_000_000;
    let mut ent = entitlement("monthly");
    ent.iat_ms = Some(now + CLOCK_SKEW_MS + 1);
    match verify_entitlement(ent, now, None) {
        Err(VerifyError::ClockSkew) => {}
        _ => panic!("an entitlement from the future must be refused"),
    }
    // exactly at the skew bound it still passes
    let mut ent = entitlement("monthly");
    ent.iat_ms = Some(now + CLOCK_SKEW_MS);
    assert!(verify_entitlement(ent, now, None).is_ok());
}

#[test]
fn lapsed_monthly_plan_is_refused() {
    let now = 1_000_000;
    let mut ent = entitlement("monthly");
    ent.exp_ms = Some(now - 1);
    match verify_entitlement(ent, now, None) {
        Err(VerifyError::Expired) => {}
        _ => panic!("a lapsed monthly entitlement must be refused"),
    }
    // a lapsed expiry on another plan passes
    let mut ent = entitlement("lifetime");
    ent.exp_ms = Some(now - 1);
    assert!(verify_entitlement(ent, now, None).is_ok());
}

#[test]
fn wrong_device_is_refused() {
    let now = 0;
    let mut ent = entitlement("monthly");
    ent.device_fingerprint = Some("other-device".to_string());
    match verify_entitlement(ent, now, fingerprint()) {
        Err(VerifyError::DeviceMismatch) => {}
        _ => panic!("a foreign fingerprint must be refused"),
    }
    let mut ent = entitlement("monthly");
    ent.device_fingerprint = fingerprint();
    assert!(verify_entitlement(ent, now, fingerprint()).is_ok());
}

#[test]
fn record_reflects_expiry() {
    let now = 5_000;
    let mut ent = entitlement("monthly");
    ent.exp_ms = Some(now - 1);
    ent.raw_jws = Some("jws".to_string());
    let rec = build_license_record(ent, now);
    assert_eq!(rec.plan, "monthly");
    assert_eq!(rec.state, "expired");
    assert_eq!(rec.entitlement_jws.as_deref(), Some("jws"));
    assert_eq!(rec.last_verified_at_ms, Some(now));
    assert_eq!(rec.expires_at_ms, Some(now - 1));
    assert!(rec.error.is_none());

    let mut ent = entitlement("monthly");
    ent.exp_ms = Some(now + 1);
    assert_eq!(build_license_record(ent, now).state, "active");
    assert_eq!(build_license_record(entitlement("pro_lifetime"), now).state, "active");
}

#[test]
fn blank_key_is_refused() {
    match activation_entitlement("   ", 0, None) {
        Err(e) => assert_eq!(e, "missing_license_key"),
        Ok(_) => panic!("a blank key must be refused"),
    }
}

#[test]
fn lowercase_life_key_buys_lifetime() {
    // the match is case-insensitive, so the uppercasing really ran
    let ent = activation_entitlement("key-life-42", 1000, None).unwrap();
    assert_eq!(ent.plan, "pro_lifetime");
    assert!(ent.exp_ms.is_none());
    assert_eq!(ent.iat_ms, Some(1000));
    assert_eq!(ent.grace_days, Some(10));
    assert_eq!(ent.raw_jws.as_deref(), Some("mock-jws-key-life-42"));
}

#[test]
fn ordinary_key_buys_a_monthly_window() {
    let now = 1000;
    let ent = activation_entitlement("ABC-123", now, fingerprint()).unwrap();
    assert_eq!(ent.plan, "pro_monthly");
    assert_eq!(ent.exp_ms, Some(now + MONTHLY_VALIDITY_MS));
    assert_eq!(ent.device_fingerprint, fingerprint());
    assert_eq!(MONTHLY_VALIDITY_MS, 30 * 24 * 60 * 60 * 1000);
}

#[test]
fn refresh_flips_monthly_state_by_the_clock() {
    let now = 10_000;
    let mut rec = LicenseRecord::default();
    rec.plan = "pro_monthly".to_string();
    rec.state = "active".to_string();
    rec.expires_at_ms = Some(now - 1);
    let refreshed = refresh_record(rec, now);
    assert_eq!(refreshed.state, "expired");
    assert_eq!(refreshed.expires_at_ms, Some(now - 1));
    assert_eq!(refreshed.last_verified_at_ms, Some(now));

    let mut rec = LicenseRecord::default();
    rec.plan = "pro_monthly".to_string();
    rec.state = "grace".to_string();
    let refreshed = refresh_record(rec, now);
    // a monthly plan without an expiry gets a fresh window, state untouched
    assert_eq!(refreshed.state, "grace");
    assert_eq!(refreshed.expires_at_ms, Some(now + MONTHLY_VALIDITY_MS));
}

#[test]
fn refresh_leaves_other_plans_alone() {
    let now = 10_000;
    let rec = LicenseRecord::default();
    let refreshed = refresh_record(rec, now);
    assert_eq!(refreshed.plan, "free");
    assert_eq!(refreshed.state, "free");
    assert!(refreshed.expires_at_ms.is_none());
    assert_eq!(refreshed.last_verified_at_ms, Some(now));
}

#[test]
fn default_record_is_the_free_plan() {
    let rec = LicenseRecord::default();
    assert_eq!(rec.plan, "free");
    assert_eq!(rec.state, "free");
    assert!(rec.entitlement_jws.is_none());
    assert!(rec.device_fingerprint.is_none());
}
