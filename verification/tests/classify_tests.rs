use invoice_detective::{
    format_recipient_node, HintHop, Node, Provider, RecipientDecoder, RecipientNode,
    RouteHintPath, ServiceKind,
};

fn provider(name: &str, service: ServiceKind, keys: &[&str]) -> Provider {
    Provider {
        name: name.to_string(),
        service,
        keys: keys.iter().map(|k| k.to_string()).collect(),
    }
}

fn registry() -> RecipientDecoder {
    RecipientDecoder::with_providers(vec![
        provider("BigExchange", ServiceKind::Exchange, &["02aa", "BigExchange"]),
        provider("FastLSP", ServiceKind::Lsp, &["02bb"]),
        provider("WrapLSP", ServiceKind::Lsp, &["02cc"]),
    ])
}

fn announced(pubkey: &str, alias: Option<&str>) -> Node {
    Node {
        pubkey: pubkey.to_string(),
        alias: alias.map(|a| a.to_string()),
        is_announced: true,
    }
}

fn unannounced(pubkey: &str) -> Node {
    Node { pubkey: pubkey.to_string(), alias: None, is_announced: false }
}

fn hint(first_hop: Node, channel_id: u64) -> RouteHintPath {
    RouteHintPath { hops: vec![HintHop { node: first_hop, short_channel_id: channel_id }] }
}

#[test]
fn custodial_when_payee_key_is_a_known_exchange() {
    let verdict = registry().decode(&announced("02aa", Some("SomeAlias")), &Vec::new());
    match verdict {
        RecipientNode::Custodial { custodian } => {
            assert_eq!(custodian.name, "BigExchange");
            assert!(matches!(custodian.service, ServiceKind::Exchange));
        }
        other => panic!("expected custodial, got {other:?}"),
    }
}

#[test]
fn custodial_when_payee_alias_is_a_known_exchange() {
    let verdict = registry().decode(&announced("02ff", Some("BigExchange")), &Vec::new());
    match verdict {
        RecipientNode::Custodial { custodian } => assert_eq!(custodian.name, "BigExchange"),
        other => panic!("expected custodial, got {other:?}"),
    }
}

#[test]
fn non_custodial_when_private_payee_sits_behind_a_known_lsp() {
    let hints = vec![hint(announced("02bb", Some("FastLSP")), 123_456_789)];
    let verdict = registry().decode(&unannounced("02dd"), &hints);
    match verdict {
        RecipientNode::NonCustodial { id, lsp } => {
            assert_eq!(lsp.name, "FastLSP");
            assert!(matches!(lsp.service, ServiceKind::Lsp));
            assert_eq!(id, "123456789");
        }
        other => panic!("expected non-custodial, got {other:?}"),
    }
}

#[test]
fn first_qualifying_hint_wins() {
    let hints = vec![
        RouteHintPath { hops: Vec::new() },
        hint(announced("02ee", None), 1),
        hint(announced("02bb", None), 42),
        hint(announced("02cc", None), 7),
    ];
    let verdict = registry().decode(&unannounced("02dd"), &hints);
    match verdict {
        RecipientNode::NonCustodial { id, lsp } => {
            assert_eq!(lsp.name, "FastLSP");
            assert_eq!(id, "42");
        }
        other => panic!("expected non-custodial, got {other:?}"),
    }
}

#[test]
fn wrapped_when_payee_is_a_known_lsp_with_no_route_hints() {
    let verdict = registry().decode(&announced("02cc", Some("WrapLSP")), &Vec::new());
    match verdict {
        RecipientNode::NonCustodialWrapped { lsp } => assert_eq!(lsp.name, "WrapLSP"),
        other => panic!("expected wrapped, got {other:?}"),
    }
}

#[test]
fn unknown_when_nothing_matches() {
    let verdict = registry().decode(&unannounced("02dd"), &Vec::new());
    assert!(matches!(verdict, RecipientNode::Unknown));
}

#[test]
fn classification_is_idempotent() {
    let decoder = registry();
    let payee = unannounced("02dd");
    let hints = vec![hint(announced("02bb", None), 99)];
    let first = decoder.decode(&payee, &hints);
    let second = decoder.decode(&payee, &hints);
    assert_eq!(format_recipient_node(&first), format_recipient_node(&second));
}

#[test]
fn an_lsp_payee_with_usable_hints_is_not_wrapped() {
    let hints = vec![hint(announced("02ee", None), 5)];
    let verdict = registry().decode(&announced("02cc", None), &hints);
    assert!(matches!(verdict, RecipientNode::Unknown));
}
