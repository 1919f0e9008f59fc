use invoice_detective::{
    format_introduction_node, format_msat, format_node_name, format_recipient_node,
    format_route_hints, format_service_kind, u64_to_decimal, Amount, IntroductionNode, Node,
    NodeName, OfferAmount, Provider, RecipientNode, ServiceKind, ShortChannelId,
};

#[test]
fn msat_formatting_covers_all_shapes() {
    assert_eq!(format_msat(None), "no amount");
    assert_eq!(format_msat(Some(1000)), "1 sat");
    assert_eq!(format_msat(Some(2000)), "2 sats");
    assert_eq!(format_msat(Some(1_234_567_000)), "1,234,567 sats");
    assert_eq!(format_msat(Some(1234)), "1.234 sats");
    assert_eq!(format_msat(Some(1001)), "1.001 sats");
    assert_eq!(format_msat(Some(12)), "0.012 sats");
    assert_eq!(format_msat(Some(999)), "0.999 sats");
    assert_eq!(format_msat(Some(1_000_000)), "1,000 sats");
}

#[test]
fn hex_rendering_is_exact() {
    assert_eq!(invoice_detective::bytes_to_hex(&vec![]), "");
    assert_eq!(invoice_detective::bytes_to_hex(&vec![0x00, 0xff, 0x5a]), "00ff5a");
}

#[test]
fn decimal_rendering_is_exact() {
    assert_eq!(u64_to_decimal(0), "0");
    assert_eq!(u64_to_decimal(7), "7");
    assert_eq!(u64_to_decimal(1050), "1050");
    assert_eq!(u64_to_decimal(u64::MAX), "18446744073709551615");
}

#[test]
fn service_kind_labels() {
    assert_eq!(format_service_kind(&ServiceKind::BusinessWallet), "Payment processor");
    assert_eq!(format_service_kind(&ServiceKind::ConsumerWallet), "Consumer wallet");
    assert_eq!(format_service_kind(&ServiceKind::Exchange), "Exchange");
    assert_eq!(format_service_kind(&ServiceKind::Lsp), "LSP");
}

fn lsp() -> Provider {
    Provider { name: "FastLSP".to_string(), service: ServiceKind::Lsp, keys: vec![] }
}

#[test]
fn recipient_lines() {
    let custodian =
        Provider { name: "BigExchange".to_string(), service: ServiceKind::Exchange, keys: vec![] };
    assert_eq!(
        format_recipient_node(&RecipientNode::Custodial { custodian }),
        "Custodial Exchange BigExchange"
    );
    assert_eq!(
        format_recipient_node(&RecipientNode::NonCustodial { id: "42".to_string(), lsp: lsp() }),
        "Non-custodial LSP FastLSP with id:42"
    );
    assert_eq!(
        format_recipient_node(&RecipientNode::NonCustodialWrapped { lsp: lsp() }),
        "Non-custodial LSP FastLSP"
    );
    assert_eq!(format_recipient_node(&RecipientNode::Unknown), "Unknown");
}

#[test]
fn node_name_lines() {
    let named = Node {
        pubkey: "02aa".to_string(),
        alias: Some("Alice".to_string()),
        is_announced: true,
    };
    assert_eq!(format_node_name(&named), "public node alias:Alice");
    let unnamed = Node { pubkey: "02bb".to_string(), alias: None, is_announced: true };
    assert_eq!(format_node_name(&unnamed), "public node id:02bb");
    let private = Node { pubkey: "02cc".to_string(), alias: None, is_announced: false };
    assert_eq!(format_node_name(&private), "private node id:02cc");
}

#[test]
fn route_hint_rows_use_alias_or_key() {
    let rows = format_route_hints(&vec![vec![
        Node { pubkey: "02aa".to_string(), alias: Some("Alice".to_string()), is_announced: true },
        Node { pubkey: "02bb".to_string(), alias: None, is_announced: false },
    ]]);
    assert_eq!(rows, vec![vec!["Alice".to_string(), "02bb".to_string()]]);
}

#[test]
fn short_channel_id_splits_and_renders() {
    let channel = ShortChannelId::from((500_000u64 << 40) | (1234u64 << 16) | 7);
    assert_eq!(channel.block_height, 500_000);
    assert_eq!(channel.transaction_index, 1234);
    assert_eq!(channel.output_index, 7);
    assert_eq!(channel.to_display_string(), "500000x1234x7");
}

#[test]
fn introduction_node_lines() {
    assert_eq!(
        format_introduction_node(&IntroductionNode::NodeId("02aa".to_string())),
        "Node 02aa"
    );
    assert_eq!(
        format_introduction_node(&IntroductionNode::LeftEnd(ShortChannelId::from(7u64 << 40))),
        "Left end of 7x0x0"
    );
    assert_eq!(
        format_introduction_node(&IntroductionNode::RightEnd(ShortChannelId::from(1u64))),
        "Right end of 0x0x1"
    );
}

#[test]
fn node_name_get_alias_returns_the_key() {
    let name = NodeName::PublicNodeAlias("Alice".to_string(), "02aa".to_string());
    assert_eq!(name.get_alias().as_str(), "02aa");
    let name = NodeName::PrivateNodePubkey("02bb".to_string());
    assert_eq!(name.get_alias().as_str(), "02bb");
}

#[test]
fn amounts_render_with_their_exponent() {
    let sat = Amount::from(OfferAmount::Bitcoin { amount_msats: 123_456 });
    assert_eq!(sat.to_display_string(), "123.456 SAT");
    let round = Amount::from(OfferAmount::Bitcoin { amount_msats: 5_000 });
    assert_eq!(round.to_display_string(), "5 SAT");
    let small = Amount::from(OfferAmount::Bitcoin { amount_msats: 12 });
    assert_eq!(small.to_display_string(), "0.012 SAT");

    let usd = Amount::from(OfferAmount::Currency { iso4217_code: b"USD".to_vec(), amount: 1234 });
    assert_eq!(usd.to_display_string(), "12.34 USD");
    let yen = Amount::from(OfferAmount::Currency { iso4217_code: b"JPY".to_vec(), amount: 500 });
    assert_eq!(yen.to_display_string(), "500 JPY");
    let unknown =
        Amount::from(OfferAmount::Currency { iso4217_code: b"ZZZ".to_vec(), amount: 9 });
    assert_eq!(unknown.to_display_string(), "9 5a5a5a");
}
