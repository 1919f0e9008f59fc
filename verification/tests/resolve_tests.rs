use invoice_detective::{
    lnurl_invoice_from_response, lnurl_pay_callback, offer_to_canonical, ChannelEnd, OfferAmount,
    OfferParts, RawBlindedPath, RawIntroduction, ResolveError, ResolveStage,
};

fn bare_offer() -> OfferParts {
    OfferParts {
        id: vec![0u8; 32],
        chains: Vec::new(),
        amount: None,
        quantity: invoice_detective::RawQuantity::One,
        description: None,
        issuer: None,
        absolute_expiry_secs: None,
        metadata: None,
        signing_pubkey: None,
        paths: Vec::new(),
    }
}

#[test]
fn pay_response_yields_the_callback_url() {
    let body = r#"{"tag":"payRequest","callback":"https://pay.example/cb","maxSendable":100000,"minSendable":1000,"metadata":"[]"}"#;
    let url = lnurl_pay_callback(body).unwrap();
    assert_eq!(url, "https://pay.example/cb?amount=1000");
}

#[test]
fn pay_response_with_query_string_joins_with_ampersand() {
    let body = r#"{"tag":"payRequest","callback":"https://pay.example/cb?u=3","maxSendable":100000,"minSendable":21,"metadata":"[]"}"#;
    let url = lnurl_pay_callback(body).unwrap();
    assert_eq!(url, "https://pay.example/cb?u=3&amount=21");
}

#[test]
fn withdraw_response_is_rejected_before_any_second_call() {
    let body = r#"{"tag":"withdrawRequest","defaultDescription":"d","callback":"https://w.example/cb","k1":"s","maxWithdrawable":1000,"minWithdrawable":1}"#;
    match lnurl_pay_callback(body) {
        Err(ResolveError::UnsupportedLnurlFlow) => {}
        other => panic!("expected UnsupportedLnurlFlow, got {other:?}"),
    }
}

#[test]
fn channel_response_is_rejected() {
    let body = r#"{"tag":"channelRequest","uri":"02aa@h:9735","callback":"https://c.example/cb","k1":"s"}"#;
    match lnurl_pay_callback(body) {
        Err(ResolveError::UnsupportedLnurlFlow) => {}
        other => panic!("expected UnsupportedLnurlFlow, got {other:?}"),
    }
}

#[test]
fn unreadable_first_response_fails_the_first_stage() {
    match lnurl_pay_callback("not json") {
        Err(ResolveError::NetworkResolutionFailed { stage: ResolveStage::PayRequest, .. }) => {}
        other => panic!("expected a first-stage failure, got {other:?}"),
    }
}

#[test]
fn invoice_response_hands_back_the_invoice() {
    let body = r#"{"pr":"lntb1examplepayload"}"#;
    // The field is handed back verbatim; its decoding is the caller's next step.
    let pr = lnurl_invoice_from_response(body).unwrap();
    assert_eq!(pr, "lntb1examplepayload");
}

#[test]
fn unreadable_second_response_fails_the_second_stage() {
    match lnurl_invoice_from_response(r#"{"nope":1}"#) {
        Err(ResolveError::NetworkResolutionFailed { stage: ResolveStage::InvoiceRequest, .. }) => {}
        other => panic!("expected a second-stage failure, got {other:?}"),
    }
}

#[test]
fn offer_with_signing_key_resolves_to_it() {
    let mut offer = bare_offer();
    offer.signing_pubkey = Some(vec![0x02, 0xaa]);
    offer.description = Some("gift".to_string());
    offer.amount = Some(OfferAmount::Bitcoin { amount_msats: 5000 });
    let canonical = offer_to_canonical(offer).unwrap();
    assert_eq!(canonical.payee_key, vec![0x02, 0xaa]);
    assert_eq!(canonical.description, "gift");
    assert_eq!(canonical.amount_msat, Some(5000));
    assert!(canonical.route_hints.is_empty());
}

#[test]
fn offer_chains_decide_the_network() {
    let testnet_genesis: Vec<u8> = vec![
        67, 73, 127, 215, 248, 38, 149, 113, 8, 244, 163, 15, 217, 206, 195, 174, 186, 121, 151,
        32, 132, 233, 14, 173, 1, 234, 51, 9, 0, 0, 0, 0,
    ];
    let mut offer = bare_offer();
    offer.signing_pubkey = Some(vec![0x02, 0xaa]);
    offer.chains = vec![testnet_genesis];
    let canonical = offer_to_canonical(offer).unwrap();
    assert_eq!(canonical.network, invoice_detective::BitcoinNetwork::Testnet);

    let mut no_chains = bare_offer();
    no_chains.signing_pubkey = Some(vec![0x02, 0xaa]);
    let canonical = offer_to_canonical(no_chains).unwrap();
    assert_eq!(canonical.network, invoice_detective::BitcoinNetwork::Mainnet);
}

#[test]
fn offer_without_key_falls_back_to_the_first_path() {
    let mut offer = bare_offer();
    offer.paths = vec![RawBlindedPath {
        introduction: RawIntroduction::NodeId(vec![0x03, 0xbb]),
        blinding_point: vec![0x02; 33],
        hops: Vec::new(),
    }];
    let canonical = offer_to_canonical(offer).unwrap();
    assert_eq!(canonical.payee_key, vec![0x03, 0xbb]);
}

#[test]
fn offer_with_no_destination_is_rejected() {
    match offer_to_canonical(bare_offer()) {
        Err(ResolveError::NoDestination) => {}
        other => panic!("expected NoDestination, got {other:?}"),
    }
    let mut offer = bare_offer();
    offer.paths = vec![RawBlindedPath {
        introduction: RawIntroduction::Channel(ChannelEnd::Left, 7),
        blinding_point: vec![0x02; 33],
        hops: Vec::new(),
    }];
    match offer_to_canonical(offer) {
        Err(ResolveError::NoDestination) => {}
        other => panic!("expected NoDestination, got {other:?}"),
    }
}
