use qr_codec::decode::{collect_payloads, collect_payloads_logged, CandidateOutcome};
use qr_codec::errors::ErrorKind;
use qr_codec::text::{aggregate, QrOutput};

#[test]
fn no_payloads_aggregate_to_empty_text() {
    assert_eq!(
        aggregate(&Vec::new()),
        QrOutput::Text {
            text: String::new()
        }
    );
}

#[test]
fn single_utf8_payload_aggregates_to_its_text() {
    let out = aggregate(&vec![b"hello!".to_vec()]);
    assert_eq!(
        out,
        QrOutput::Text {
            text: "hello!".to_string()
        }
    );
}

#[test]
fn two_utf8_payloads_join_with_one_newline() {
    let out = aggregate(&vec![b"first".to_vec(), b"second".to_vec()]);
    assert_eq!(
        out,
        QrOutput::Text {
            text: "first\nsecond".to_string()
        }
    );
}

#[test]
fn mixed_payloads_concatenate_as_binary() {
    let out = aggregate(&vec![b"text".to_vec(), vec![0xC3, 0x28]]);
    assert_eq!(
        out,
        QrOutput::Binary {
            bytes: vec![b't', b'e', b'x', b't', 0xC3, 0x28]
        }
    );
}

#[test]
fn single_invalid_payload_is_binary() {
    let out = aggregate(&vec![vec![0xFF, 0xFE]]);
    assert_eq!(
        out,
        QrOutput::Binary {
            bytes: vec![0xFF, 0xFE]
        }
    );
}

#[test]
fn fail_fast_aborts_on_a_decode_failure() {
    let outcomes = vec![
        CandidateOutcome::Decoded {
            payload: b"good".to_vec(),
        },
        CandidateOutcome::DecodeFailed {
            detail: "checksum error".to_string(),
        },
    ];
    let err = collect_payloads(&outcomes, false).unwrap_err();
    assert_eq!(err.kind, ErrorKind::IncorrectData);
    assert_eq!(err.label, "input contains incorrect data");
    assert_eq!(err.msg, "identified data can not be decoded: checksum error");
}

#[test]
fn fail_fast_aborts_on_an_identification_failure() {
    let outcomes = vec![CandidateOutcome::IdentifyFailed {
        detail: "invalid grid size".to_string(),
    }];
    let err = collect_payloads(&outcomes, false).unwrap_err();
    assert_eq!(err.kind, ErrorKind::IncorrectData);
    assert_eq!(err.msg, "part of data can not be identified: invalid grid size");
}

#[test]
fn ignoring_errors_keeps_the_decoded_payloads_in_order() {
    let outcomes = vec![
        CandidateOutcome::Decoded {
            payload: b"one".to_vec(),
        },
        CandidateOutcome::IdentifyFailed {
            detail: "noise".to_string(),
        },
        CandidateOutcome::Decoded {
            payload: b"two".to_vec(),
        },
    ];
    let payloads = collect_payloads(&outcomes, true).unwrap();
    assert_eq!(payloads, vec![b"one".to_vec(), b"two".to_vec()]);
}

#[test]
fn ignoring_errors_logs_each_skipped_diagnostic_in_order() {
    let outcomes = vec![
        CandidateOutcome::IdentifyFailed {
            detail: "noise".to_string(),
        },
        CandidateOutcome::Decoded {
            payload: b"kept".to_vec(),
        },
        CandidateOutcome::DecodeFailed {
            detail: "damaged".to_string(),
        },
    ];
    let (collected, diagnostics) = collect_payloads_logged(&outcomes, true);
    assert_eq!(collected.unwrap(), vec![b"kept".to_vec()]);
    assert_eq!(
        diagnostics,
        vec![
            "part of data can not be identified: noise".to_string(),
            "identified data can not be decoded: damaged".to_string(),
        ]
    );
}

#[test]
fn fail_fast_returns_no_diagnostics() {
    let outcomes = vec![CandidateOutcome::DecodeFailed {
        detail: "damaged".to_string(),
    }];
    let (collected, diagnostics) = collect_payloads_logged(&outcomes, false);
    assert!(collected.is_err());
    assert!(diagnostics.is_empty());
}

#[test]
fn all_candidates_failing_with_ignore_yields_no_payloads() {
    let outcomes = vec![CandidateOutcome::DecodeFailed {
        detail: "damaged".to_string(),
    }];
    let payloads = collect_payloads(&outcomes, true).unwrap();
    assert!(payloads.is_empty());
    assert_eq!(
        aggregate(&payloads),
        QrOutput::Text {
            text: String::new()
        }
    );
}
