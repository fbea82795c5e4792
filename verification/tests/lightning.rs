use server::domain::Error;
use server::lightning::models::{
    domain_error, ledger_status_for, Currency, LightningError, Network, Payment, PaymentDirection,
    PaymentKind, PaymentStatus,
};
use server::lightning::service::{CallBody, HttpReply, LightningService, WaitStep};

fn service() -> LightningService {
    LightningService::new(
        "https://api.example/v1/".to_string(),
        "SECRET-KEY".to_string(),
        "org1".to_string(),
        "env1".to_string(),
        "wallet1".to_string(),
    )
}

fn reply(status: u16, body: &str) -> Result<HttpReply, String> {
    Ok(HttpReply { status, body: body.to_string() })
}

const RECEIVE: &str = r#"{"id":"p-1","status":"receiving","type":"bolt11","direction":"receive","data":{"payment_request":"lnbc500n1xyz","amount_msats":500000}}"#;

#[test]
fn payment_is_read_from_json() {
    let p = Payment::from_json(RECEIVE).unwrap();
    assert_eq!(p.id.as_deref(), Some("p-1"));
    assert_eq!(p.status.as_deref(), Some("receiving"));
    assert_eq!(p.payment_type.as_deref(), Some("bolt11"));
    assert_eq!(p.direction.as_deref(), Some("receive"));
    assert_eq!(p.payment_request.as_deref(), Some("lnbc500n1xyz"));
    let q = Payment::from_json(r#"{"id":5,"status":null,"data":["payment_request"]}"#).unwrap();
    assert!(q.id.is_none());
    assert!(q.status.is_none());
    assert!(q.payment_type.is_none());
    assert!(q.direction.is_none());
    assert!(q.payment_request.is_none());
    let r = Payment::from_json("[1,2]").unwrap();
    assert!(r.id.is_none());
    let copy = p.clone();
    assert_eq!(copy.id, p.id);
    let fault = Payment::from_json("{not json").unwrap_err();
    assert!(fault.contains("line 1"));
    assert!(Payment::from_json("").is_err());
}

#[test]
fn addresses_are_built_from_the_account() {
    let s = service();
    assert_eq!(s.payments_url(), "https://api.example/v1/organizations/org1/environments/env1/payments");
    assert_eq!(s.payment_url("p-9"), "https://api.example/v1/organizations/org1/environments/env1/payments/p-9");
}

#[test]
fn invoice_call_asks_for_msats() {
    let s = service();
    let call = s.create_game_invoice_as("p-1", 500, Some("Entry"));
    assert_eq!(call.url, s.payments_url());
    assert_eq!(call.api_key, "SECRET-KEY");
    match call.body {
        CallBody::Receive(r) => {
            assert_eq!(r.id, "p-1");
            assert_eq!(r.wallet_id, "wallet1");
            assert_eq!(r.currency, Currency::Btc);
            assert_eq!(r.amount_msats, Some(500_000));
            assert_eq!(r.payment_kind, PaymentKind::Bolt11);
            assert_eq!(r.description.as_deref(), Some("Entry"));
        }
        other => panic!("{:?}", other),
    }
    let plain = s.create_game_invoice_as("p-2", 1, None);
    match plain.body {
        CallBody::Receive(r) => assert_eq!(r.description.as_deref(), Some("Asteroids Game Entry Fee")),
        other => panic!("{:?}", other),
    }
    let (id, call) = s.create_game_invoice(500, None).unwrap();
    assert_eq!(id.len(), 36);
    assert_eq!(LightningService::new_payment_id().unwrap().len(), 36);
    match call.body {
        CallBody::Receive(r) => assert_eq!(r.id, id),
        other => panic!("{:?}", other),
    }
}

#[test]
fn invoice_request_succeeds_on_any_2xx() {
    assert_eq!(LightningService::game_invoice_created("p".to_string(), reply(200, "")).unwrap(), "p");
    assert_eq!(LightningService::game_invoice_created("p".to_string(), reply(202, "later")).unwrap(), "p");
    assert_eq!(LightningService::game_invoice_created("p".to_string(), reply(299, "")).unwrap(), "p");
    match LightningService::game_invoice_created("p".to_string(), reply(300, "moved")) {
        Err(LightningError::ApiError(m)) => assert_eq!(m, "Failed to create invoice: moved"),
        other => panic!("{:?}", other),
    }
    match LightningService::game_invoice_created("p".to_string(), reply(199, "x")) {
        Err(LightningError::ApiError(_)) => {}
        other => panic!("{:?}", other),
    }
    match LightningService::game_invoice_created("p".to_string(), Err("connection refused".to_string())) {
        Err(LightningError::RequestError(m)) => assert_eq!(m, "connection refused"),
        other => panic!("{:?}", other),
    }
}

#[test]
fn status_lookup_reads_the_reply() {
    let s = service();
    let call = s.get_payment_status("p-1");
    assert_eq!(call.url, s.payment_url("p-1"));
    assert!(matches!(call.body, CallBody::Nothing));
    assert!(LightningService::payment_status_from(reply(404, "nope")).unwrap().is_none());
    let p = LightningService::payment_status_from(reply(200, RECEIVE)).unwrap().unwrap();
    assert_eq!(p.status.as_deref(), Some("receiving"));
    match LightningService::payment_status_from(reply(500, "boom")) {
        Err(LightningError::ApiError(m)) => {
            assert_eq!(m, "Failed to get payment status: 500 Internal Server Error - boom")
        }
        other => panic!("{:?}", other),
    }
    match LightningService::payment_status_from(reply(401, "Unknown error")) {
        Err(LightningError::ApiError(m)) => {
            assert_eq!(m, "Failed to get payment status: 401 Unauthorized - Unknown error")
        }
        other => panic!("{:?}", other),
    }
    match LightningService::payment_status_from(reply(200, "<html>")) {
        Err(LightningError::InvalidResponse(m)) => {
            assert!(m.starts_with("Failed to parse payment status response: "))
        }
        other => panic!("{:?}", other),
    }
    match LightningService::payment_status_from(Err("timeout".to_string())) {
        Err(LightningError::RequestError(m)) => assert_eq!(m, "timeout"),
        other => panic!("{:?}", other),
    }
}

#[test]
fn invoice_lookup_waits_for_the_invoice() {
    let s = service();
    assert_eq!(s.get_payment_invoice("p-1").url, s.payment_url("p-1"));
    assert_eq!(
        LightningService::payment_invoice_from(reply(200, RECEIVE)).unwrap().as_deref(),
        Some("lnbc500n1xyz")
    );
    assert!(LightningService::payment_invoice_from(reply(404, "")).unwrap().is_none());
    let not_yet = r#"{"id":"p-1","status":"receiving","type":"bolt11","direction":"receive","data":{}}"#;
    assert!(LightningService::payment_invoice_from(reply(200, not_yet)).unwrap().is_none());
    let null_yet = r#"{"type":"bolt11","direction":"receive","data":{"payment_request":null}}"#;
    assert!(LightningService::payment_invoice_from(reply(200, null_yet)).unwrap().is_none());
    let bare = r#"{"type":"bolt11","direction":"receive"}"#;
    assert!(LightningService::payment_invoice_from(reply(200, bare)).unwrap().is_none());
    // An answer that describes no BOLT11 payment to the wallet is a fault of
    // the provider, not an invoice that is still to come.
    for (body, why) in [
        (
            r#"{"type":"bolt11","direction":"send","data":{"payment_request":"lnbc1"}}"#,
            "No invoice found in payment data",
        ),
        (
            r#"{"type":"onchain","direction":"receive","data":{"payment_request":"lnbc1"}}"#,
            "No invoice found in payment data",
        ),
        (r#"{"direction":"receive","data":{"payment_request":"lnbc1"}}"#, "Payment type not found or not a string"),
        (r#"{"type":7,"direction":"receive"}"#, "Payment type not found or not a string"),
        (r#"{"type":"bolt11","data":{"payment_request":"lnbc1"}}"#, "Payment direction not found or not a string"),
        (r#"{"type":"bolt11","direction":["receive"]}"#, "Payment direction not found or not a string"),
        ("{}", "Payment type not found or not a string"),
        ("[]", "Payment type not found or not a string"),
    ] {
        match LightningService::payment_invoice_from(reply(200, body)) {
            Err(LightningError::PaymentError(m)) => assert_eq!(m, why),
            other => panic!("{}: {:?}", body, other),
        }
    }
    match LightningService::payment_invoice_from(reply(503, "busy")) {
        Err(LightningError::ApiError(m)) => assert_eq!(m, "Failed to get payment details: busy"),
        other => panic!("{:?}", other),
    }
    match LightningService::payment_invoice_from(reply(200, "{")) {
        Err(LightningError::InvalidResponse(m)) => assert!(m.starts_with("Failed to parse payment response: ")),
        other => panic!("{:?}", other),
    }
    match LightningService::payment_invoice_from(Err("dns".to_string())) {
        Err(LightningError::RequestError(m)) => assert_eq!(m, "dns"),
        other => panic!("{:?}", other),
    }
}

#[test]
fn invoice_is_taken_only_from_bolt11_receive() {
    let base = Payment::from_json(RECEIVE).unwrap();
    assert_eq!(LightningService::extract_invoice_from_payment(&base).unwrap(), "lnbc500n1xyz");
    let mut p = base.clone();
    p.payment_type = None;
    match LightningService::extract_invoice_from_payment(&p) {
        Err(LightningError::PaymentError(m)) => assert_eq!(m, "Payment type not found or not a string"),
        other => panic!("{:?}", other),
    }
    let mut p = base.clone();
    p.direction = None;
    match LightningService::extract_invoice_from_payment(&p) {
        Err(LightningError::PaymentError(m)) => assert_eq!(m, "Payment direction not found or not a string"),
        other => panic!("{:?}", other),
    }
    for (kind, direction, request) in [
        ("onchain", "receive", Some("lnbc1")),
        ("bolt11", "send", Some("lnbc1")),
        ("bolt11", "receive", None),
        ("BOLT11", "receive", Some("lnbc1")),
    ] {
        let mut p = base.clone();
        p.payment_type = Some(kind.to_string());
        p.direction = Some(direction.to_string());
        p.payment_request = request.map(|r| r.to_string());
        match LightningService::extract_invoice_from_payment(&p) {
            Err(LightningError::PaymentError(m)) => assert_eq!(m, "No invoice found in payment data"),
            other => panic!("{:?}", other),
        }
    }
}

#[test]
fn receive_payments_are_told_apart() {
    let base = Payment::from_json(RECEIVE).unwrap();
    assert!(LightningService::is_receive_payment(&base));
    let mut p = base.clone();
    p.payment_request = None;
    assert!(LightningService::is_receive_payment(&p));
    let mut p = base.clone();
    p.direction = Some("send".to_string());
    assert!(!LightningService::is_receive_payment(&p));
    let mut p = base.clone();
    p.payment_type = Some("bip21".to_string());
    assert!(!LightningService::is_receive_payment(&p));
    let mut p = base.clone();
    p.payment_type = None;
    assert!(!LightningService::is_receive_payment(&p));
    let mut p = base.clone();
    p.direction = None;
    assert!(!LightningService::is_receive_payment(&p));
}

#[test]
fn wait_polls_until_done_or_out_of_time() {
    let wait = LightningService::wait_for_payment("p-1", 60);
    assert_eq!(wait.payment_id, "p-1");
    assert_eq!(wait.timeout_secs, 60);
    assert!(matches!(wait.begin_round(0), WaitStep::Poll));
    assert!(matches!(wait.begin_round(59), WaitStep::Poll));
    match wait.begin_round(60) {
        WaitStep::Failed(LightningError::PaymentTimeout(m)) => assert_eq!(m, "Timeout waiting for payment p-1"),
        other => panic!("{:?}", other),
    }
    assert!(matches!(wait.begin_round(61), WaitStep::Failed(LightningError::PaymentTimeout(_))));
    let with_status = |s: Option<&str>| {
        let mut p = Payment::from_json(RECEIVE).unwrap();
        p.status = s.map(|x| x.to_string());
        p
    };
    match wait.end_round(Ok(Some(with_status(Some("completed"))))) {
        WaitStep::Completed(p) => assert_eq!(p.id.as_deref(), Some("p-1")),
        other => panic!("{:?}", other),
    }
    match wait.end_round(Ok(Some(with_status(Some("failed"))))) {
        WaitStep::Failed(LightningError::PaymentError(m)) => assert_eq!(m, "Payment p-1 failed"),
        other => panic!("{:?}", other),
    }
    assert!(matches!(wait.end_round(Ok(Some(with_status(Some("sending"))))), WaitStep::Sleep(3)));
    assert!(matches!(wait.end_round(Ok(Some(with_status(None)))), WaitStep::Sleep(3)));
    assert!(matches!(wait.end_round(Ok(None)), WaitStep::Sleep(3)));
    assert!(matches!(
        wait.end_round(Err(LightningError::ApiError("x".to_string()))),
        WaitStep::Sleep(3)
    ));
    let none = LightningService::wait_for_payment("p", 0);
    assert!(matches!(none.begin_round(0), WaitStep::Failed(_)));
}

#[test]
fn payout_call_caps_the_fee_at_a_hundredth() {
    let s = service();
    let call = s.pay_winner_invoice_as("out-1", "lnbc1350", 1_350_000);
    assert_eq!(call.url, s.payments_url());
    assert_eq!(call.api_key, "SECRET-KEY");
    match call.body {
        CallBody::Send(r) => {
            assert_eq!(r.id, "out-1");
            assert_eq!(r.wallet_id, "wallet1");
            assert_eq!(r.currency, Currency::Btc);
            assert_eq!(r.payment_type, PaymentKind::Bolt11);
            assert_eq!(r.data.payment_request, "lnbc1350");
            assert_eq!(r.data.amount_msats, None);
            assert_eq!(r.data.max_fee_msats, 13_500);
        }
        other => panic!("{:?}", other),
    }
    let fee = |amount: i64| match s.pay_winner_invoice_as("o", "i", amount).body {
        CallBody::Send(r) => r.data.max_fee_msats,
        other => panic!("{:?}", other),
    };
    assert_eq!(fee(199), 1);
    assert_eq!(fee(99), 0);
    assert_eq!(fee(0), 0);
    assert_eq!(fee(-199), -199 / 100);
    assert_eq!(fee(i64::MAX), i64::MAX / 100);
    assert_eq!(fee(i64::MIN), i64::MIN / 100);
    let (id, call) = s.pay_winner_invoice("lnbc1", 1000).unwrap();
    assert_eq!(id.as_bytes()[14], b'7');
    match call.body {
        CallBody::Send(r) => assert_eq!(r.id, id),
        other => panic!("{:?}", other),
    }
}

#[test]
fn payout_waits_for_the_payment_that_the_provider_names() {
    let w = LightningService::winner_payment_started("mine", reply(200, r#"{"id":"theirs"}"#)).unwrap();
    assert_eq!(w.payment_id, "theirs");
    assert_eq!(w.timeout_secs, 60);
    let w = LightningService::winner_payment_started("mine", reply(201, r#"{"status":"sending"}"#)).unwrap();
    assert_eq!(w.payment_id, "mine");
    match LightningService::winner_payment_started("mine", reply(422, "bad invoice")) {
        Err(LightningError::ApiError(m)) => {
            assert_eq!(m, "Failed to send payment: 422 Unprocessable Entity - bad invoice")
        }
        other => panic!("{:?}", other),
    }
    match LightningService::winner_payment_started("mine", reply(404, "x")) {
        Err(LightningError::ApiError(m)) => assert_eq!(m, "Failed to send payment: 404 Not Found - x"),
        other => panic!("{:?}", other),
    }
    match LightningService::winner_payment_started("mine", reply(599, "x")) {
        Err(LightningError::ApiError(m)) => {
            assert_eq!(m, "Failed to send payment: 599 <unknown status code> - x")
        }
        other => panic!("{:?}", other),
    }
    match LightningService::winner_payment_started("mine", reply(200, "oops")) {
        Err(LightningError::InvalidResponse(m)) => assert!(m.starts_with("Failed to parse payment response: ")),
        other => panic!("{:?}", other),
    }
    match LightningService::winner_payment_started("mine", Err("reset".to_string())) {
        Err(LightningError::RequestError(m)) => assert_eq!(m, "reset"),
        other => panic!("{:?}", other),
    }
}

#[test]
fn provider_status_maps_to_ledger_status() {
    assert_eq!(ledger_status_for(&Some("completed".to_string())), "paid");
    assert_eq!(ledger_status_for(&Some("failed".to_string())), "failed");
    assert_eq!(ledger_status_for(&Some("receiving".to_string())), "pending");
    assert_eq!(ledger_status_for(&Some("sending".to_string())), "pending");
    assert_eq!(ledger_status_for(&Some("Completed".to_string())), "pending");
    assert_eq!(ledger_status_for(&None), "pending");
}

#[test]
fn wire_names() {
    assert_eq!(Network::Mainnet.as_str(), "mainnet");
    assert_eq!(Network::Testnet.as_str(), "testnet");
    assert_eq!(Network::Signet.as_str(), "signet");
    assert_eq!(Network::Mutinynet.as_str(), "mutinynet");
    assert_eq!(Currency::Btc.as_str(), "btc");
    assert_eq!(Currency::Usd.as_str(), "usd");
    assert_eq!(PaymentDirection::Send.as_str(), "send");
    assert_eq!(PaymentDirection::Receive.as_str(), "receive");
    assert_eq!(PaymentKind::Bolt11.as_str(), "bolt11");
    assert_eq!(PaymentKind::Onchain.as_str(), "onchain");
    assert_eq!(PaymentKind::Bip21.as_str(), "bip21");
    for s in [PaymentStatus::Sending, PaymentStatus::Receiving, PaymentStatus::Completed, PaymentStatus::Failed] {
        assert_eq!(PaymentStatus::parse(s.as_str()), Some(s));
    }
    assert_eq!(PaymentStatus::Completed.as_str(), "completed");
    assert_eq!(PaymentStatus::parse("done"), None);
}

#[test]
fn provider_errors_in_words_and_as_domain_errors() {
    let all = [
        (LightningError::RequestError("x".to_string()), "HTTP request error: x"),
        (LightningError::ApiError("x".to_string()), "API error: x"),
        (LightningError::PaymentError("x".to_string()), "Payment error: x"),
        (LightningError::InvalidResponse("x".to_string()), "Invalid response: x"),
        (LightningError::PaymentNotFound("x".to_string()), "Payment not found: x"),
        (LightningError::InvalidPaymentState("x".to_string()), "Payment in invalid state: x"),
        (LightningError::PaymentTimeout("x".to_string()), "Timeout waiting for payment: x"),
    ];
    for (e, text) in all {
        assert_eq!(e.message(), text);
    }
    match domain_error(LightningError::PaymentNotFound("p".to_string())) {
        Error::NotFound(m) => assert_eq!(m, "p"),
        other => panic!("{:?}", other),
    }
    match domain_error(LightningError::InvalidPaymentState("p".to_string())) {
        Error::InvalidInput(m) => assert_eq!(m, "p"),
        other => panic!("{:?}", other),
    }
    match domain_error(LightningError::PaymentTimeout("p".to_string())) {
        Error::InvalidInput(m) => assert_eq!(m, "p"),
        other => panic!("{:?}", other),
    }
    match domain_error(LightningError::ApiError("p".to_string())) {
        Error::Authentication(m) => assert_eq!(m, "API error: p"),
        other => panic!("{:?}", other),
    }
    match domain_error(LightningError::RequestError("p".to_string())) {
        Error::Authentication(m) => assert_eq!(m, "HTTP request error: p"),
        other => panic!("{:?}", other),
    }
}
