use invoice_detective::{
    node_from_row, CanonicalInvoice, BitcoinNetwork, DirectoryError, GraphDatabase, HintHop,
    InvoiceDetective, Provider, RawHint, RawHop, RecipientDecoder, RecipientNode, ServiceKind,
};

fn snapshot(rows: &[(&str, &str)]) -> GraphDatabase {
    let connection = rusqlite::Connection::open_in_memory().unwrap();
    connection
        .execute_batch("CREATE TABLE nodes (id INTEGER PRIMARY KEY, pubkey TEXT NOT NULL, alias TEXT NOT NULL, capacity INTEGER NOT NULL DEFAULT 0);")
        .unwrap();
    for (pubkey, alias) in rows {
        connection
            .execute("INSERT INTO nodes(pubkey, alias, capacity) VALUES (?1, ?2, 0)", [pubkey, alias])
            .unwrap();
    }
    GraphDatabase::from_connection(connection)
}

#[test]
fn lookup_returns_the_three_identity_shapes() {
    let db = snapshot(&[("02aa", "Alice"), ("02bb", "")]);

    let named = db.query("02aa".to_string()).unwrap();
    assert_eq!(named.pubkey, "02aa");
    assert!(named.is_announced);
    assert_eq!(named.alias.as_deref(), Some("Alice"));

    let unnamed = db.query("02bb".to_string()).unwrap();
    assert_eq!(unnamed.pubkey, "02bb");
    assert!(unnamed.is_announced);
    assert!(unnamed.alias.is_none());

    let absent = db.query("02cc".to_string()).unwrap();
    assert_eq!(absent.pubkey, "02cc");
    assert!(!absent.is_announced);
    assert!(absent.alias.is_none());
}

#[test]
fn lookup_fails_only_when_the_store_is_unusable() {
    let empty = GraphDatabase::from_connection(rusqlite::Connection::open_in_memory().unwrap());
    match empty.query("02aa".to_string()) {
        Err(DirectoryError::StoreUnavailable { .. }) => {}
        other => panic!("expected StoreUnavailable, got {other:?}"),
    }
}

#[test]
fn opening_an_empty_store_succeeds_but_queries_fail() {
    let db = GraphDatabase::open(":memory:").unwrap();
    match db.query("02aa".to_string()) {
        Err(DirectoryError::StoreUnavailable { .. }) => {}
        other => panic!("expected StoreUnavailable, got {other:?}"),
    }
}

#[test]
fn investigating_an_offer_with_a_signing_key() {
    let db = snapshot(&[]);
    let detective = InvoiceDetective::with_parts(db, RecipientDecoder::new());
    let decoded = invoice_detective::decode(
        "lno1zcss9mk8y3wkklfvevcrszlmu23kfrxh49px20665dqwmn4p72pksese",
    )
    .unwrap();
    let offer = match decoded {
        invoice_detective::DecodedData::Offer(offer) => offer,
        other => panic!("expected an offer, got {other:?}"),
    };
    let findings = detective.investigate_bolt12(offer).unwrap();
    assert_eq!(findings.payee.pubkey.len(), 66);
    assert!(!findings.payee.is_announced);
    assert!(findings.route_hints.is_empty());
    assert_eq!(findings.details.network, "Mainnet");
    assert_eq!(invoice_detective::format_msat(findings.details.amount_msat), "no amount");
    assert!(matches!(findings.recipient, RecipientNode::Unknown));
}

#[test]
fn investigating_a_testnet_offer_names_its_network() {
    let db = snapshot(&[]);
    let detective = InvoiceDetective::with_parts(db, RecipientDecoder::new());
    let decoded = invoice_detective::decode(
        "lno1qgsyxjtl6luzd9t3pr62xr7eemp6awnejusgf6gw45q75vcfqqqqqqq2p32x2um5ypmx2cm5dae8x93pqthvwfzadd7jejes8q9lhc4rvjxd022zv5l44g6qah82ru5rdpnpj",
    )
    .unwrap();
    let offer = match decoded {
        invoice_detective::DecodedData::Offer(offer) => offer,
        other => panic!("expected an offer, got {other:?}"),
    };
    let findings = detective.investigate_bolt12(offer).unwrap();
    assert_eq!(findings.details.network, "Testnet");
}

#[test]
fn node_from_row_covers_the_three_shapes() {
    let named = node_from_row("02aa".to_string(), Some("Alice".to_string()));
    assert!(named.is_announced && named.alias.as_deref() == Some("Alice"));
    let unnamed = node_from_row("02aa".to_string(), Some(String::new()));
    assert!(unnamed.is_announced && unnamed.alias.is_none());
    let absent = node_from_row("02aa".to_string(), None);
    assert!(!absent.is_announced && absent.alias.is_none());
}

fn lsp_registry() -> RecipientDecoder {
    RecipientDecoder::with_providers(vec![Provider {
        name: "FastLSP".to_string(),
        service: ServiceKind::Lsp,
        keys: vec!["02bb".to_string()],
    }])
}

#[test]
fn canonical_investigation_resolves_hints_and_classifies() {
    // The payee's serialized key, rendered in hex, is absent from the
    // snapshot; the hint's first hop is the registered LSP.
    let db = snapshot(&[("02bb", "FastLSP")]);
    let detective = InvoiceDetective::with_parts(db, lsp_registry());
    let invoice = CanonicalInvoice {
        payee_key: vec![0x02, 0xdd],
        description: "coffee".to_string(),
        amount_msat: Some(1500),
        network: BitcoinNetwork::Mainnet,
        route_hints: vec![RawHint {
            hops: vec![RawHop { src_node_id: vec![0x02, 0xbb], short_channel_id: 77 }],
        }],
    };
    let findings = detective.investigate_bolt11(invoice).unwrap();
    assert_eq!(findings.payee.pubkey, "02dd");
    assert!(!findings.payee.is_announced);
    assert_eq!(findings.details.amount_msat, Some(1500));
    assert_eq!(invoice_detective::format_msat(findings.details.amount_msat), "1.500 sats");
    assert_eq!(findings.details.description, "coffee");
    assert_eq!(findings.details.network, "Mainnet");
    assert_eq!(findings.route_hints.len(), 1);
    assert_eq!(findings.route_hints[0].len(), 1);
    assert_eq!(findings.route_hints[0][0].pubkey, "02bb");
    assert_eq!(findings.route_hints[0][0].alias.as_deref(), Some("FastLSP"));
    match findings.recipient {
        RecipientNode::NonCustodial { id, lsp } => {
            assert_eq!(lsp.name, "FastLSP");
            assert_eq!(id, "77");
        }
        other => panic!("expected non-custodial, got {other:?}"),
    }
}

const TESTNET_INVOICE: &str = "lntb10u1pjkvq6mpp5zszjfrehd5y8sq4w47jegjy5xglw3smcfelfkqud56vtq9c48kmsdqqcqzzsxqyz5vqsp5kgjy259sn4t24er4hawcsr9zl9u7vrkdk7a9kcs9ffury0kf50cq9qyyssqept74lw02kkng3cpzqhyrwt542ct6dtfcz7mtesfggt57r5j7djyz7z5de4cyaupehhwyv7ql6yatqe3e4hvnp2lvpvdwxstpy2rnwqq89p90d";

#[test]
fn investigating_an_invoice_reproduces_amount_and_payee() {
    let db = snapshot(&[]);
    let detective = InvoiceDetective::with_parts(db, RecipientDecoder::new());
    let findings = detective.investigate(TESTNET_INVOICE).unwrap();
    assert_eq!(findings.details.amount_msat, Some(1_000_000));
    assert_eq!(findings.details.network, "Testnet");
    assert_eq!(findings.payee.pubkey.len(), 66);
    assert!(findings.payee.pubkey.chars().all(|c| c.is_ascii_hexdigit()));

    // Decoding the same text again reproduces the same payee key and amount.
    let db2 = snapshot(&[]);
    let detective2 = InvoiceDetective::with_parts(db2, RecipientDecoder::new());
    let again = detective2.investigate(&format!(" {TESTNET_INVOICE} ")).unwrap();
    assert_eq!(again.payee.pubkey, findings.payee.pubkey);
    assert_eq!(again.details.amount_msat, findings.details.amount_msat);
}

#[test]
fn investigating_garbage_reports_a_malformed_invoice() {
    let db = snapshot(&[]);
    let detective = InvoiceDetective::with_parts(db, RecipientDecoder::new());
    match detective.investigate("lntb-not-an-invoice") {
        Err(invoice_detective::InvestigationError::Decode(_)) => {}
        other => panic!("expected a decode error, got {other:?}"),
    }
}

#[test]
fn a_broken_store_fails_the_whole_investigation() {
    let broken = GraphDatabase::from_connection(rusqlite::Connection::open_in_memory().unwrap());
    let detective = InvoiceDetective::with_parts(broken, RecipientDecoder::new());
    match detective.investigate(TESTNET_INVOICE) {
        Err(invoice_detective::InvestigationError::Directory(
            DirectoryError::StoreUnavailable { .. },
        )) => {}
        other => panic!("expected a directory failure, got {other:?}"),
    }
}

#[test]
fn query_name_keeps_the_key() {
    let db = snapshot(&[("02aa", "Alice")]);
    let name = db.query_name("02aa".to_string()).unwrap();
    assert_eq!(name.get_alias().as_str(), "02aa");
}
