use pi_rust::amount::Amount;
use pi_rust::errors::PiError;
use pi_rust::models::PaymentDto;
use pi_rust::models::PaymentStatus;
use std::time::Duration;

fn transport_error() -> reqwest::Error {
    reqwest::Client::new().get("no scheme, no url").build().unwrap_err()
}

fn codec_error() -> serde_json::Error {
    serde_json::from_str::<serde_json::Value>("{").unwrap_err()
}

#[test]
fn a_transport_error_keeps_its_message() {
    let shown = transport_error().to_string();
    assert!(!shown.is_empty());
    let wrapped = PiError::from(transport_error());
    assert!(matches!(wrapped, PiError::Http(_)));
    assert_eq!(wrapped.to_string(), format!("HTTP request failed: {}", shown));
}

#[test]
fn a_codec_error_keeps_its_message() {
    let wrapped = PiError::from(codec_error());
    assert!(matches!(wrapped, PiError::Json(_)));
    assert_eq!(
        wrapped.to_string(),
        "JSON serialization failed: EOF while parsing an object at line 1 column 1"
    );
    assert_eq!(wrapped.to_string(), format!("JSON serialization failed: {}", codec_error()));
}

#[test]
fn a_wrapped_error_is_carried_as_it_came() {
    match PiError::from(codec_error()) {
        PiError::Json(cause) => {
            assert_eq!(cause.line(), 1);
            assert_eq!(cause.column(), 1);
            assert!(cause.is_eof());
        }
        other => panic!("unexpected variant: {:?}", other),
    }
    match PiError::from(transport_error()) {
        PiError::Http(cause) => assert!(cause.is_builder()),
        other => panic!("unexpected variant: {:?}", other),
    }
}

#[test]
fn a_service_error_shows_name_and_message() {
    let error = PiError::PiNetwork {
        error_name: "A_PAYMENT_ALREADY_COMPLETED".to_string(),
        error_message: "Payment already completed".to_string(),
        payment: None,
    };
    assert_eq!(
        error.to_string(),
        "Pi Network API error: A_PAYMENT_ALREADY_COMPLETED - Payment already completed"
    );
}

#[test]
fn a_service_error_carries_the_payment_but_does_not_show_it() {
    let payment = PaymentDto {
        identifier: "pay-1".to_string(),
        user_uid: "user-1".to_string(),
        amount: Amount { units: 31_400_000 },
        memo: "coffee".to_string(),
        status: PaymentStatus {
            developer_approved: true,
            transaction_verified: false,
            developer_completed: false,
            cancelled: false,
            user_cancelled: false,
        },
    };
    let error = PiError::PiNetwork {
        error_name: "payment_not_found".to_string(),
        error_message: "".to_string(),
        payment: Some(payment),
    };
    assert_eq!(error.to_string(), "Pi Network API error: payment_not_found - ");
    match error {
        PiError::PiNetwork { payment: Some(payment), .. } => {
            assert_eq!(payment.identifier, "pay-1");
            assert_eq!(payment.amount, Amount { units: 31_400_000 });
            assert!(payment.status.developer_approved);
        }
        other => panic!("unexpected variant: {:?}", other),
    }
}

#[test]
fn messages_of_the_plain_variants() {
    assert_eq!(
        PiError::Authentication("bad key".to_string()).to_string(),
        "Authentication failed: bad key"
    );
    assert_eq!(
        PiError::Configuration("API key cannot be empty".to_string()).to_string(),
        "Invalid configuration: API key cannot be empty"
    );
    assert_eq!(
        PiError::Stellar("tx_bad_seq".to_string()).to_string(),
        "Stellar operation failed: tx_bad_seq"
    );
    assert_eq!(PiError::Authentication(String::new()).to_string(), "Authentication failed: ");
}

#[test]
fn insufficient_balance_shows_both_amounts() {
    let error = PiError::InsufficientBalance {
        available: Amount::from_whole(5),
        required: Amount::from_whole(10),
    };
    let message = error.to_string();
    assert!(message.contains("5"));
    assert!(message.contains("10"));
    assert_eq!(message, "Insufficient balance: available 5, required 10");
}

#[test]
fn insufficient_balance_shows_fractions() {
    let error = PiError::InsufficientBalance {
        available: Amount { units: 1 },
        required: Amount { units: 125_000_000 },
    };
    assert_eq!(error.to_string(), "Insufficient balance: available 0.0000001, required 12.5");
}

#[test]
fn timeout_shows_the_duration() {
    let error = PiError::Timeout { duration: Duration::from_secs(30) };
    assert_eq!(error.to_string(), "Timeout occurred after 30s");
    let error = PiError::Timeout { duration: Duration::from_millis(1500) };
    assert_eq!(error.to_string(), "Timeout occurred after 1.5s");
    let error = PiError::Timeout { duration: Duration::from_millis(100) };
    assert_eq!(error.to_string(), "Timeout occurred after 100ms");
    let error = PiError::Timeout { duration: Duration::ZERO };
    assert_eq!(error.to_string(), "Timeout occurred after 0ns");
}
