use std::cell::Cell;
use storage_billing::error::AppError;
use storage_billing::entitlement::ensure_subscription;
use storage_billing::ledger::{Ledger, PaymentProvider, PaymentStatus};
use storage_billing::payment::{
    check_payment_status, derive_reference_id, is_valid_msisdn, map_provider_status, next_status,
    prepare_payment, record_transfer, replay_entitlement, request_payment, status_query, Currency,
    GatewayError, TransferRequest,
};
use storage_billing::plan::{Plan, PlanThresholds};

fn gateway_down(message: &str) -> Result<String, GatewayError> {
    Err(GatewayError { message: message.to_string() })
}

fn valid_request() -> TransferRequest {
    prepare_payment("12.50", "237612345678", "for storage", "thanks", Currency::Xaf).unwrap()
}

#[test]
fn msisdn_prefix_and_length() {
    assert!(is_valid_msisdn("237612345678"));
    assert!(!is_valid_msisdn("238612345678"));
    assert!(!is_valid_msisdn("23761234567"));
    assert!(!is_valid_msisdn("2376123456789"));
    assert!(!is_valid_msisdn(""));
}

#[test]
fn prepare_reads_the_decimal_amount() {
    let t = valid_request();
    assert_eq!(t.amount.mantissa, 1250);
    assert_eq!(t.amount.scale, 2);
    assert_eq!(t.amount_text, "12.50");
    assert_eq!(t.currency, Currency::Xaf);
    assert_eq!(t.payer_msisdn, "237612345678");
    assert_eq!(t.payer_message, "for storage");
    assert_eq!(t.payee_note, "thanks");
}

#[test]
fn prepare_rejects_bad_amounts() {
    for bad in ["abc", "", "0", "-5", "0.00", "12,50"] {
        let r = prepare_payment(bad, "237612345678", "m", "n", Currency::Eur);
        assert!(matches!(r, Err(AppError::InvalidInput(_))), "amount {:?}", bad);
    }
}

#[test]
fn invalid_phone_is_rejected_before_the_gateway_is_called() {
    let calls = Cell::new(0u32);
    let mut ledger = Ledger::new();
    for phone in ["238612345678", "23761234567", "2376123456789", "612345678237"] {
        let r = request_payment(
            &mut ledger,
            |_t: &TransferRequest| {
                calls.set(calls.get() + 1);
                Ok("mtn-ref".to_string())
            },
            1,
            "12.50",
            phone,
            "m",
            "n",
            Currency::Xaf,
            1_700_000_000_000,
        );
        assert!(matches!(r, Err(AppError::InvalidInput(_))));
    }
    assert_eq!(calls.get(), 0);
    assert_eq!(ledger.payment_count(), 0);
}

#[test]
fn valid_request_calls_the_gateway_once() {
    let calls = Cell::new(0u32);
    let mut ledger = Ledger::new();
    let p = request_payment(
        &mut ledger,
        |t: &TransferRequest| {
            calls.set(calls.get() + 1);
            assert_eq!(t.payer_msisdn, "237612345678");
            Ok("mtn-ref".to_string())
        },
        9,
        "12.50",
        "237612345678",
        "m",
        "n",
        Currency::Xaf,
        42,
    )
    .unwrap();
    assert_eq!(calls.get(), 1);
    assert_eq!(p.reference_id, "mtn-ref_42");
    assert_eq!(p.user_id, 9);
    assert_eq!(p.status, PaymentStatus::Pending);
    assert_eq!(ledger.payment_count(), 1);
}

#[test]
fn reference_id_joins_provider_reference_and_stamp() {
    assert_eq!(derive_reference_id("abc", 1_700_000_000_123), "abc_1700000000123");
    assert_eq!(derive_reference_id("x", 0), "x_0");
    assert_eq!(derive_reference_id("x", -15), "x_-15");
    assert_eq!(derive_reference_id("", i64::MIN), "_-9223372036854775808");
}

#[test]
fn accepted_request_records_one_pending_payment() {
    let mut ledger = Ledger::new();
    let t = valid_request();
    let p = record_transfer(&mut ledger, 7, &t, Ok("mtn-1".to_string()), 1000).unwrap();
    assert_eq!(ledger.payment_count(), 1);
    assert_eq!(p.id, 0);
    assert_eq!(p.user_id, 7);
    assert_eq!(p.reference_id, "mtn-1_1000");
    assert_eq!(p.provider_reference_id, "mtn-1");
    assert_eq!(p.status, PaymentStatus::Pending);
    assert_eq!(p.currency, "XAF");
    assert_eq!(p.phone_number, "237612345678");
    assert!(p.error_message.is_none());
    let snap = p.provider_response.as_ref().unwrap();
    assert_eq!(snap.reference_id, "mtn-1_1000");
    assert_eq!(snap.provider_reference_id, "mtn-1");
    assert_eq!(snap.status, "PENDING");
    assert_eq!(ledger.payment_at(0).reference_id, "mtn-1_1000");
}

#[test]
fn duplicate_reference_is_rejected_without_a_second_row() {
    let mut ledger = Ledger::new();
    let t = valid_request();
    assert!(record_transfer(&mut ledger, 7, &t, Ok("mtn-1".to_string()), 1000).is_ok());
    let second = record_transfer(&mut ledger, 7, &t, Ok("mtn-1".to_string()), 1000);
    assert!(matches!(second, Err(AppError::DuplicateRequest(_))));
    assert_eq!(ledger.payment_count(), 1);
    let other_stamp = record_transfer(&mut ledger, 7, &t, Ok("mtn-1".to_string()), 1001);
    assert!(other_stamp.is_ok());
    assert_eq!(ledger.payment_count(), 2);
}

#[test]
fn gateway_failure_on_request_records_nothing() {
    let mut ledger = Ledger::new();
    let t = valid_request();
    let r = record_transfer(&mut ledger, 7, &t, gateway_down("timeout"), 1000);
    match r {
        Err(AppError::GatewayUnavailable(m)) => assert_eq!(m, "Payment request failed: timeout"),
        other => panic!("unexpected {:?}", other),
    }
    assert_eq!(ledger.payment_count(), 0);
}

#[test]
fn provider_status_words_map_exactly() {
    assert_eq!(map_provider_status("SUCCESSFUL"), PaymentStatus::Successful);
    assert_eq!(map_provider_status("FAILED"), PaymentStatus::Failed);
    assert_eq!(map_provider_status("CANCELLED"), PaymentStatus::Cancelled);
    assert_eq!(map_provider_status("PENDING"), PaymentStatus::Pending);
    assert_eq!(map_provider_status("successful"), PaymentStatus::Pending);
    assert_eq!(map_provider_status("REJECTED"), PaymentStatus::Pending);
    assert_eq!(map_provider_status(""), PaymentStatus::Pending);
}

#[test]
fn terminal_statuses_are_final() {
    for cur in [PaymentStatus::Successful, PaymentStatus::Failed, PaymentStatus::Cancelled] {
        for obs in [
            Some(PaymentStatus::Pending),
            Some(PaymentStatus::Successful),
            Some(PaymentStatus::Failed),
            None,
        ] {
            assert_eq!(next_status(cur, obs), cur);
        }
    }
    assert_eq!(next_status(PaymentStatus::Pending, None), PaymentStatus::Failed);
    assert_eq!(next_status(PaymentStatus::Pending, Some(PaymentStatus::Cancelled)), PaymentStatus::Cancelled);
}

#[test]
fn status_check_of_unknown_reference_is_not_found() {
    let mut ledger = Ledger::new();
    let r = check_payment_status(&mut ledger, &PlanThresholds::standard(), "nope", Ok("SUCCESSFUL".to_string()));
    assert!(matches!(r, Err(AppError::NotFound(_))));
}

#[test]
fn unrecognised_status_keeps_payment_pending() {
    let mut ledger = Ledger::new();
    let t = valid_request();
    record_transfer(&mut ledger, 7, &t, Ok("mtn-1".to_string()), 5).unwrap();
    let p = check_payment_status(&mut ledger, &PlanThresholds::standard(), "mtn-1_5", Ok("ONGOING".to_string()))
        .unwrap();
    assert_eq!(p.status, PaymentStatus::Pending);
    assert_eq!(p.provider_response.as_ref().unwrap().status, "ONGOING");
    assert_eq!(ledger.subscription_count(), 0);
}

#[test]
fn failed_status_check_marks_pending_payment_failed() {
    let mut ledger = Ledger::new();
    let t = valid_request();
    record_transfer(&mut ledger, 7, &t, Ok("mtn-1".to_string()), 5).unwrap();
    let r = check_payment_status(&mut ledger, &PlanThresholds::standard(), "mtn-1_5", gateway_down("503"));
    match r {
        Err(AppError::GatewayUnavailable(m)) => assert_eq!(m, "Status check failed: 503"),
        other => panic!("unexpected {:?}", other),
    }
    let stored = ledger.payment_at(0);
    assert_eq!(stored.status, PaymentStatus::Failed);
    assert_eq!(stored.error_message.as_deref(), Some("Status check failed: 503"));
}

#[test]
fn repeated_checks_preserve_terminal_status() {
    let mut ledger = Ledger::new();
    let t = valid_request();
    record_transfer(&mut ledger, 7, &t, Ok("mtn-1".to_string()), 5).unwrap();
    let th = PlanThresholds::standard();
    let first = check_payment_status(&mut ledger, &th, "mtn-1_5", Ok("CANCELLED".to_string())).unwrap();
    assert_eq!(first.status, PaymentStatus::Cancelled);
    for word in ["PENDING", "SUCCESSFUL", "whatever"] {
        let p = check_payment_status(&mut ledger, &th, "mtn-1_5", Ok(word.to_string())).unwrap();
        assert_eq!(p.status, PaymentStatus::Cancelled);
    }
    let r = check_payment_status(&mut ledger, &th, "mtn-1_5", gateway_down("down"));
    assert!(matches!(r, Err(AppError::GatewayUnavailable(_))));
    assert_eq!(ledger.payment_at(0).status, PaymentStatus::Cancelled);
    assert!(ledger.payment_at(0).error_message.is_none());
    assert_eq!(ledger.subscription_count(), 0);
}

#[test]
fn end_to_end_payment_grants_premium() {
    let mut ledger = Ledger::new();
    let thresholds = PlanThresholds::new(10, 100).unwrap();
    let p = request_payment(
        &mut ledger,
        |_t: &TransferRequest| Ok("8f2c-mtn".to_string()),
        21,
        "12.50",
        "237612345678",
        "storage",
        "premium",
        Currency::from_code("XAF"),
        1_700_000_000_000,
    )
    .unwrap();
    assert_eq!(p.status, PaymentStatus::Pending);
    assert_eq!(p.currency, "XAF");
    assert_eq!(p.reference_id, "8f2c-mtn_1700000000000");
    let checked =
        check_payment_status(&mut ledger, &thresholds, "8f2c-mtn_1700000000000", Ok("SUCCESSFUL".to_string()))
            .unwrap();
    assert_eq!(checked.status, PaymentStatus::Successful);
    let sub = ensure_subscription(&mut ledger, 21);
    assert_eq!(sub.plan, Plan::Premium);
    assert_eq!(sub.storage_limit_bytes, 5_368_709_120);
    assert_eq!(ledger.subscription_count(), 1);
}

#[test]
fn rechecking_a_successful_payment_repairs_the_entitlement() {
    let mut ledger = Ledger::new();
    let th = PlanThresholds::standard();
    let t = prepare_payment("750", "237612345678", "m", "n", Currency::Eur).unwrap();
    record_transfer(&mut ledger, 3, &t, Ok("r".to_string()), 1).unwrap();
    check_payment_status(&mut ledger, &th, "r_1", Ok("SUCCESSFUL".to_string())).unwrap();
    storage_billing::entitlement::apply_plan(&mut ledger, 3, Plan::Free);
    check_payment_status(&mut ledger, &th, "r_1", Ok("SUCCESSFUL".to_string())).unwrap();
    let sub = ensure_subscription(&mut ledger, 3);
    assert_eq!(sub.plan, Plan::Premium);
}

#[test]
fn currency_codes() {
    assert_eq!(Currency::from_code("XAF"), Currency::Xaf);
    assert_eq!(Currency::from_code("XOF"), Currency::Xof);
    assert_eq!(Currency::from_code("EUR"), Currency::Eur);
    assert_eq!(Currency::from_code("USD"), Currency::Eur);
    assert_eq!(Currency::Xof.code(), "XOF");
}

#[test]
fn replaying_an_entitlement_restores_the_paid_plan() {
    let mut ledger = Ledger::new();
    let th = PlanThresholds::standard();
    let t = prepare_payment("1200.00", "237612345678", "m", "n", Currency::Eur).unwrap();
    record_transfer(&mut ledger, 6, &t, Ok("e".to_string()), 2).unwrap();
    let r = replay_entitlement(&mut ledger, &th, "e_2");
    assert!(matches!(r, Err(AppError::InvalidInput(_))));
    assert_eq!(ledger.subscription_count(), 0);
    assert!(matches!(replay_entitlement(&mut ledger, &th, "missing"), Err(AppError::NotFound(_))));
    check_payment_status(&mut ledger, &th, "e_2", Ok("SUCCESSFUL".to_string())).unwrap();
    storage_billing::entitlement::apply_plan(&mut ledger, 6, Plan::Basic);
    let s = replay_entitlement(&mut ledger, &th, "e_2").unwrap();
    assert_eq!(s.plan, Plan::Enterprise);
    assert_eq!(s.storage_limit_bytes, 10_737_418_240);
    let again = replay_entitlement(&mut ledger, &th, "e_2").unwrap();
    assert_eq!(again.plan, Plan::Enterprise);
    assert_eq!(again.id, s.id);
    assert_eq!(ledger.subscription_count(), 1);
}

#[test]
fn invalid_amount_is_rejected_before_the_gateway_is_called() {
    let calls = Cell::new(0u32);
    let mut ledger = Ledger::new();
    for amount in ["abc", "0", "-3.5", ""] {
        let r = request_payment(
            &mut ledger,
            |_t: &TransferRequest| {
                calls.set(calls.get() + 1);
                Ok("mtn-ref".to_string())
            },
            1,
            amount,
            "237612345678",
            "m",
            "n",
            Currency::Eur,
            7,
        );
        assert!(matches!(r, Err(AppError::InvalidInput(_))));
    }
    assert_eq!(calls.get(), 0);
    assert_eq!(ledger.payment_count(), 0);
}

#[test]
fn gateway_receives_the_prepared_request() {
    let mut ledger = Ledger::new();
    let p = request_payment(
        &mut ledger,
        |t: &TransferRequest| {
            assert_eq!(t.amount_text, "12.50");
            assert_eq!(t.amount.mantissa, 1250);
            assert_eq!(t.amount.scale, 2);
            assert_eq!(t.currency, Currency::Xof);
            assert_eq!(t.payer_msisdn, "237612345678");
            assert_eq!(t.payer_message, "pay");
            assert_eq!(t.payee_note, "note");
            Ok("g".to_string())
        },
        2,
        "12.50",
        "237612345678",
        "pay",
        "note",
        Currency::Xof,
        11,
    )
    .unwrap();
    assert_eq!(p.provider, PaymentProvider::MtnMomo);
    assert_eq!(p.currency, "XOF");
    assert_eq!(p.payer_message, "pay");
    assert_eq!(p.payee_note, "note");
}

#[test]
fn request_reports_gateway_failure_and_duplicates() {
    let mut ledger = Ledger::new();
    let down = request_payment(&mut ledger, |_t: &TransferRequest| gateway_down("x"), 1, "5", "237612345678", "m", "n", Currency::Eur, 1);
    assert!(matches!(down, Err(AppError::GatewayUnavailable(_))));
    let first = request_payment(&mut ledger, |_t: &TransferRequest| Ok("d".to_string()), 1, "5", "237612345678", "m", "n", Currency::Eur, 1);
    assert!(first.is_ok());
    let again = request_payment(&mut ledger, |_t: &TransferRequest| Ok("d".to_string()), 1, "5", "237612345678", "m", "n", Currency::Eur, 1);
    assert!(matches!(again, Err(AppError::DuplicateRequest(_))));
    assert_eq!(ledger.payment_count(), 1);
}

#[test]
fn status_query_names_the_providers_transaction() {
    let mut ledger = Ledger::new();
    assert!(matches!(status_query(&ledger, "q_1"), Err(AppError::NotFound(_))));
    let t = valid_request();
    record_transfer(&mut ledger, 7, &t, Ok("q".to_string()), 1).unwrap();
    assert_eq!(status_query(&ledger, "q_1").unwrap(), "q");
    assert!(matches!(status_query(&ledger, "q"), Err(AppError::NotFound(_))));
}
