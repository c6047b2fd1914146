//! The security gate: token issuance, the header wire form, verification,
//! and the request filters.

use liveboard::gate::{
    csrf_provider, csrf_verifier, encode_token, integrity_service, parse_token, CsrfToken,
    GateError, Method, RequestContext, SecurityGate,
};

fn mutation_with_header(header: Option<String>) -> RequestContext {
    RequestContext {
        method: Method::Post,
        hx_request: true,
        csrf_header: header,
        session: Some(0),
    }
}

#[test]
fn issued_token_round_trips_through_the_header_form() {
    let gate = SecurityGate::new(7);
    let token = gate.issue(9);
    let header = encode_token(&token);
    assert_eq!(header, "7.9");
    let parsed = parse_token(&header).expect("a printed token parses");
    assert_eq!(parsed, token);
    assert!(gate.verify(&parsed));
}

#[test]
fn encode_uses_decimal_window_dot_nonce() {
    let s = encode_token(&CsrfToken { window: 123, nonce: 45 });
    assert_eq!(s, "123.45");
    let s = encode_token(&CsrfToken { window: 0, nonce: 0 });
    assert_eq!(s, "0.0");
    let s = encode_token(&CsrfToken {
        window: u64::MAX,
        nonce: 1,
    });
    assert_eq!(s, "18446744073709551615.1");
}

#[test]
fn parse_rejects_malformed_headers() {
    assert!(parse_token("").is_none());
    assert!(parse_token("123").is_none());
    assert!(parse_token("123.").is_none());
    assert!(parse_token(".45").is_none());
    assert!(parse_token("12a.45").is_none());
    assert!(parse_token("123.4.5").is_none());
    assert!(parse_token("18446744073709551616.1").is_none());
    assert_eq!(
        parse_token("18446744073709551615.2"),
        Some(CsrfToken {
            window: u64::MAX,
            nonce: 2
        })
    );
}

#[test]
fn verifier_rejects_a_missing_token() {
    let gate = SecurityGate::new(1);
    let request = mutation_with_header(None);
    assert_eq!(csrf_verifier(&gate, &request), Err(GateError::MissingToken));
}

#[test]
fn verifier_rejects_an_unparseable_token() {
    let gate = SecurityGate::new(1);
    let request = mutation_with_header(Some("not a token".to_string()));
    assert_eq!(csrf_verifier(&gate, &request), Err(GateError::InvalidToken));
}

#[test]
fn verifier_rejects_a_token_from_another_window() {
    let gate = SecurityGate::new(1);
    let stale = encode_token(&CsrfToken { window: 2, nonce: 0 });
    let request = mutation_with_header(Some(stale));
    assert_eq!(csrf_verifier(&gate, &request), Err(GateError::InvalidToken));
}

#[test]
fn verifier_passes_a_current_token_and_safe_methods() {
    let gate = SecurityGate::new(5);
    let header = encode_token(&gate.issue(77));
    let request = mutation_with_header(Some(header));
    assert_eq!(csrf_verifier(&gate, &request), Ok(()));
    let safe = RequestContext {
        method: Method::Get,
        hx_request: false,
        csrf_header: None,
        session: None,
    };
    assert_eq!(csrf_verifier(&gate, &safe), Ok(()));
}

#[test]
fn concurrent_tabs_keep_working_within_one_window() {
    let gate = SecurityGate::new(11);
    let first = gate.issue(1);
    let second = gate.issue(2);
    assert!(gate.verify(&first));
    assert!(gate.verify(&second));
}

#[test]
fn rotation_invalidates_earlier_tokens() {
    let mut gate = SecurityGate::new(11);
    let old_token = gate.issue(1);
    gate.rotate(12);
    assert!(!gate.verify(&old_token));
    assert!(gate.verify(&gate.issue(3)));
}

#[test]
fn provider_issues_exactly_on_safe_requests() {
    let gate = SecurityGate::new(4);
    let safe = RequestContext {
        method: Method::Get,
        hx_request: false,
        csrf_header: None,
        session: None,
    };
    let issued = csrf_provider(&gate, &safe, 8);
    assert_eq!(issued, Some(CsrfToken { window: 4, nonce: 8 }));
    let mutating = mutation_with_header(None);
    assert_eq!(csrf_provider(&gate, &mutating, 8), None);
}

#[test]
fn integrity_requires_the_expected_source() {
    let gate = SecurityGate::new(4);
    let header = encode_token(&gate.issue(1));
    let mut request = mutation_with_header(Some(header));
    request.hx_request = false;
    assert_eq!(
        integrity_service(&gate, &request, 2),
        Err(GateError::MissingSource)
    );
    request.hx_request = true;
    assert_eq!(
        integrity_service(&gate, &request, 2),
        Ok(CsrfToken { window: 4, nonce: 2 })
    );
}

#[test]
fn each_rejection_has_its_caller_facing_message() {
    assert_eq!(GateError::MissingSource.message(), "Invalid Source.");
    assert_eq!(GateError::MissingToken.message(), "Missing Token.");
    assert_eq!(GateError::InvalidToken.message(), "Invalid Token.");
    assert_eq!(GateError::Unauthorized.message(), "Unauthorized.");
}
