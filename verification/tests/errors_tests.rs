use wit_poller::errors::{ClassifiedError, ConsensusErrorKind, RadError};

#[test]
fn http_status_is_consensus_visible_with_fixed_width_payload() {
    let error = RadError::HttpStatus { status_code: 404 };
    match error.classify() {
        ClassifiedError::ConsensusVisible { kind, payload, original } => {
            assert_eq!(kind, ConsensusErrorKind::HttpError);
            // 404 truncated to its low byte
            assert_eq!(payload, vec![148u8]);
            assert_eq!(original, RadError::HttpStatus { status_code: 404 });
        }
        ClassifiedError::Diagnostic { .. } => panic!("expected a consensus-visible error"),
    }
}

#[test]
fn free_text_failure_classifies_to_diagnostic_fallback() {
    let error = RadError::from_http_failure(None, "connection reset by peer".to_string());
    assert_eq!(
        error,
        RadError::HttpOther { message: "connection reset by peer".to_string() }
    );
    match error.classify() {
        ClassifiedError::Diagnostic { original } => {
            assert_eq!(
                original,
                RadError::HttpOther { message: "connection reset by peer".to_string() }
            );
        }
        ClassifiedError::ConsensusVisible { .. } => {
            panic!("free-text failures must stay diagnostic")
        }
    }
}

#[test]
fn http_failure_with_status_keeps_the_typed_code() {
    let error = RadError::from_http_failure(Some(500), "ignored".to_string());
    assert_eq!(error, RadError::HttpStatus { status_code: 500 });
    match error.classify() {
        ClassifiedError::ConsensusVisible { payload, .. } => {
            assert_eq!(payload, vec![244u8]);
        }
        ClassifiedError::Diagnostic { .. } => panic!("expected a consensus-visible error"),
    }
}

#[test]
fn classification_is_deterministic_across_equal_values() {
    let first = RadError::HttpStatus { status_code: 404 }.classify();
    let second = RadError::HttpStatus { status_code: 404 }.classify();
    assert_eq!(first, second);
}

#[test]
fn unknown_kinds_map_to_diagnostic_wrapping() {
    let cases = vec![
        RadError::Unknown,
        RadError::Hash,
        RadError::Overflow,
        RadError::ModeEmpty,
        RadError::ArrayIndexNotFound { index: 3 },
        RadError::UnknownOperator { code: 255 },
    ];
    for error in cases {
        match error.classify() {
            ClassifiedError::Diagnostic { .. } => {}
            ClassifiedError::ConsensusVisible { .. } => {
                panic!("kind without an explicit rule must stay diagnostic")
            }
        }
    }
}

#[test]
fn intercept_passes_successes_through() {
    let input: Result<u32, RadError> = Ok(42);
    assert_eq!(RadError::intercept(input), Ok(42));
}

#[test]
fn intercept_classifies_failures() {
    let input: Result<u32, RadError> = Err(RadError::HttpStatus { status_code: 404 });
    match RadError::intercept(input) {
        Err(ClassifiedError::ConsensusVisible { kind, payload, .. }) => {
            assert_eq!(kind, ConsensusErrorKind::HttpError);
            assert_eq!(payload, vec![148u8]);
        }
        other => panic!("expected a consensus-visible error, got {:?}", other),
    }
}

#[test]
fn default_error_is_unknown() {
    assert_eq!(RadError::default(), RadError::Unknown);
}

#[test]
fn parse_failures_keep_their_message() {
    assert_eq!(
        RadError::from_parse_float_failure("bad float".to_string()),
        RadError::ParseFloat { message: "bad float".to_string() }
    );
    assert_eq!(
        RadError::from_parse_int_failure("bad int".to_string()),
        RadError::ParseInt { message: "bad int".to_string() }
    );
    assert_eq!(
        RadError::from_parse_bool_failure("bad bool".to_string()),
        RadError::ParseBool { message: "bad bool".to_string() }
    );
}

#[test]
fn codec_failures_name_both_sides() {
    assert_eq!(
        RadError::from_encode_failure(),
        RadError::Encode { from: "RadonTypes".to_string(), to: "CBOR".to_string() }
    );
    assert_eq!(
        RadError::from_decode_failure(),
        RadError::Decode { from: "CBOR".to_string(), to: "RadonTypes".to_string() }
    );
}
