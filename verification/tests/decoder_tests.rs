use invoice_detective::{decode, DecodeError, DecodedData, RequestKind};

const TESTNET_INVOICE: &str = "lntb10u1pjkvq6mpp5zszjfrehd5y8sq4w47jegjy5xglw3smcfelfkqud56vtq9c48kmsdqqcqzzsxqyz5vqsp5kgjy259sn4t24er4hawcsr9zl9u7vrkdk7a9kcs9ffury0kf50cq9qyyssqept74lw02kkng3cpzqhyrwt542ct6dtfcz7mtesfggt57r5j7djyz7z5de4cyaupehhwyv7ql6yatqe3e4hvnp2lvpvdwxstpy2rnwqq89p90d";

#[test]
fn test_decode() {
    let d = decode("satoshi@bitcoin.org").unwrap();
    println!("{d:?}");

    let d = decode("LNURL1DP68GURN8GHJ7MRWW4EXCTNXD9SHG6NPVCHXXMMD9AKXUATJDSKHQCTE8AEK2UMND9HKU0FJ89JXXCT989JRGVE3XVMK2ERZXPJX2DECXP3KXV33XQCKVE3C8QMXXD3CVVUXXEPNV3NRWE3HXVUKZWP3XSEX2V3CXEJXGCNRXGUKGUQ0868").unwrap();
    println!("{d:?}");

    let d = decode(TESTNET_INVOICE).unwrap();
    println!("{d:?}");
}

#[test]
fn decode_address_resolves_well_known_url() {
    match decode("satoshi@bitcoin.org").unwrap() {
        DecodedData::LightningAddress(url) => {
            assert_eq!(url, "https://bitcoin.org/.well-known/lnurlp/satoshi");
        }
        other => panic!("expected a lightning address, got {other:?}"),
    }
}

#[test]
fn decode_lnurl_unwraps_the_url() {
    // Bech32 test vector: wraps the service URL below.
    let input = "LNURL1DP68GURN8GHJ7UM9WFMXJCM99E3K7MF0V9CXJ0M385EKVCENXC6R2C35XVUKXEFCV5MKVV34X5EKZD3EV56NYD3HXQURZEPEXEJXXEPNXSCRVWFNV9NXZCN9XQ6XYEFHVGCXXCMYXYMNSERXFQ5FNS";
    match decode(input).unwrap() {
        DecodedData::LnUrl(url) => {
            assert_eq!(
                url,
                "https://service.com/api?q=3fc3645b439ce8e7f2553a69e5267081d96dcd340693afabe04be7b0ccd178df"
            );
        }
        other => panic!("expected an lnurl, got {other:?}"),
    }
}

#[test]
fn decode_strips_scheme_whitespace_and_case() {
    let spaced = format!("  lightning:{}  ", TESTNET_INVOICE.to_uppercase());
    let a = match decode(&spaced).unwrap() {
        DecodedData::Invoice(invoice) => invoice,
        other => panic!("expected an invoice, got {other:?}"),
    };
    let b = match decode(TESTNET_INVOICE).unwrap() {
        DecodedData::Invoice(invoice) => invoice,
        other => panic!("expected an invoice, got {other:?}"),
    };
    assert_eq!(a.payee_key, b.payee_key);
    assert_eq!(a.amount_msat, b.amount_msat);
    assert_eq!(a.description, b.description);
}

#[test]
fn decode_rejects_unrecognized_input() {
    match decode("hello world") {
        Err(DecodeError::UnrecognizedFormat) => {}
        other => panic!("expected UnrecognizedFormat, got {other:?}"),
    }
    match decode("") {
        Err(DecodeError::UnrecognizedFormat) => {}
        other => panic!("expected UnrecognizedFormat, got {other:?}"),
    }
}

#[test]
fn decode_reports_malformed_payloads_with_their_kind() {
    match decode("lnbc1notaninvoice") {
        Err(DecodeError::MalformedPayload { kind: RequestKind::Invoice, .. }) => {}
        other => panic!("expected a malformed invoice, got {other:?}"),
    }
    match decode("lnurl1notbech32checksummed") {
        Err(DecodeError::MalformedPayload { kind: RequestKind::LnUrl, .. }) => {}
        other => panic!("expected a malformed lnurl, got {other:?}"),
    }
    match decode("not@") {
        Err(DecodeError::MalformedPayload { kind: RequestKind::LightningAddress, .. }) => {}
        other => panic!("expected a malformed address, got {other:?}"),
    }
    match decode("lno1garbage") {
        Err(DecodeError::MalformedPayload { kind: RequestKind::Offer, .. }) => {}
        other => panic!("expected a malformed offer, got {other:?}"),
    }
    match decode("lnr1garbage") {
        Err(DecodeError::MalformedPayload { kind: RequestKind::Refund, .. }) => {}
        other => panic!("expected a malformed refund, got {other:?}"),
    }
}

#[test]
fn decode_offer_extracts_its_payload() {
    // Minimal offer: a signing key and nothing else.
    match decode("lno1zcss9mk8y3wkklfvevcrszlmu23kfrxh49px20665dqwmn4p72pksese").unwrap() {
        DecodedData::Offer(offer) => {
            let key = offer.signing_pubkey.expect("minimal offer names a signing key");
            assert_eq!(key.len(), 33);
            assert!(offer.description.is_none());
            assert!(offer.paths.is_empty());
        }
        other => panic!("expected an offer, got {other:?}"),
    }
    // The same offer with a description.
    match decode("lno1pgx9getnwss8vetrw3hhyuckyypwa3eyt44h6txtxquqh7lz5djge4afgfjn7k4rgrkuag0jsd5xvxg")
        .unwrap()
    {
        DecodedData::Offer(offer) => {
            let description = offer.description.expect("this offer carries a description");
            assert!(!description.is_empty());
        }
        other => panic!("expected an offer, got {other:?}"),
    }
}

#[test]
fn decode_offer_is_invariant_under_equivalent_forms() {
    let plain = "lno1zcss9mk8y3wkklfvevcrszlmu23kfrxh49px20665dqwmn4p72pksese";
    let dressed = format!("  lightning:{}  ", plain.to_uppercase());
    let a = match decode(plain).unwrap() {
        DecodedData::Offer(offer) => offer,
        other => panic!("expected an offer, got {other:?}"),
    };
    let b = match decode(&dressed).unwrap() {
        DecodedData::Offer(offer) => offer,
        other => panic!("expected an offer, got {other:?}"),
    };
    assert_eq!(a.id, b.id);
    assert_eq!(a.signing_pubkey, b.signing_pubkey);
    assert_eq!(a.chains, b.chains);
}

#[test]
fn decode_recognizes_a_refund() {
    let secp = bitcoin::secp256k1::Secp256k1::new();
    let secret = bitcoin::secp256k1::SecretKey::from_slice(&[42u8; 32]).unwrap();
    let payer = bitcoin::secp256k1::PublicKey::from_secret_key(&secp, &secret);
    let refund = lightning::offers::refund::RefundBuilder::new(vec![1; 16], payer, 1000)
        .unwrap()
        .build()
        .unwrap()
        .to_string();
    match decode(&refund).unwrap() {
        DecodedData::Refund(kept) => assert_eq!(kept, refund),
        other => panic!("expected a refund, got {other:?}"),
    }
}

#[test]
fn decode_bolt11_extracts_canonical_fields() {
    match decode(TESTNET_INVOICE).unwrap() {
        DecodedData::Invoice(invoice) => {
            assert_eq!(invoice.amount_msat, Some(1_000_000));
            assert_eq!(invoice.payee_key.len(), 33);
            assert_eq!(invoice.network, invoice_detective::BitcoinNetwork::Testnet);
            assert_eq!(invoice.description, "");
        }
        other => panic!("expected an invoice, got {other:?}"),
    }
}
