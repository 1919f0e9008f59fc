//! The recipient classifier: combines the payee's resolved identity, the
//! route-hint evidence and a curated registry of known service providers into
//! a verdict about who actually receives the funds.

use vstd::prelude::*;

use crate::node::{Node, NodeView};
use crate::text::{decimal_of, u64_to_decimal};

verus! {

/// What kind of service a registered provider runs.
#[derive(Clone, Copy, Debug, PartialEq, Eq, Structural)]
pub enum ServiceKind {
    BusinessWallet,
    ConsumerWallet,
    Exchange,
    Lsp,
}

/// One entry of the provider registry: a display name, the kind of service,
/// and the public keys and aliases it is recognized by.
#[derive(Debug)]
pub struct Provider {
    pub name: String,
    pub service: ServiceKind,
    pub keys: Vec<String>,
}

/// The mathematical content of a [`Provider`].
pub struct ProviderView {
    pub name: Seq<char>,
    pub service: ServiceKind,
    pub keys: Seq<Seq<char>>,
}

impl View for Provider {
    type V = ProviderView;

    open spec fn view(&self) -> ProviderView {
        ProviderView { name: self.name@, service: self.service, keys: self.keys.deep_view() }
    }
}

impl DeepView for Provider {
    type V = ProviderView;

    open spec fn deep_view(&self) -> ProviderView {
        self.view()
    }
}

impl Clone for Provider {
    fn clone(&self) -> (r: Self)
        ensures
            r@ == self@,
    {
        let keys = self.keys.clone();
        proof {
            assert forall|i: int| 0 <= i < keys@.len() implies keys@[i] == self.keys@[i] by {
            }
            assert(keys@ =~= self.keys@);
            assert(keys.deep_view() =~= self.keys.deep_view());
        }
        let r = Provider { name: self.name.clone(), service: self.service, keys };
        proof {
            assert(r@ =~= self@);
        }
        r
    }
}

/// One resolved hop of a route hint: the identity of the node offering the
/// channel and the channel's short identifier.
#[derive(Debug)]
pub struct HintHop {
    pub node: Node,
    pub short_channel_id: u64,
}

/// The mathematical content of a [`HintHop`].
pub struct HopView {
    pub node: NodeView,
    pub short_channel_id: u64,
}

impl View for HintHop {
    type V = HopView;

    open spec fn view(&self) -> HopView {
        HopView { node: self.node@, short_channel_id: self.short_channel_id }
    }
}

impl DeepView for HintHop {
    type V = HopView;

    open spec fn deep_view(&self) -> HopView {
        self.view()
    }
}

/// One route hint, resolved: its hops in protocol order. The first hop is the
/// peer offering inbound liquidity; the payee itself is not listed.
#[derive(Debug)]
pub struct RouteHintPath {
    pub hops: Vec<HintHop>,
}

impl View for RouteHintPath {
    type V = Seq<HopView>;

    open spec fn view(&self) -> Seq<HopView> {
        self.hops.deep_view()
    }
}

impl DeepView for RouteHintPath {
    type V = Seq<HopView>;

    open spec fn deep_view(&self) -> Seq<HopView> {
        self.view()
    }
}

/// The classifier's verdict about the recipient of a payment request.
#[derive(Debug)]
pub enum RecipientNode {
    /// The payee itself is a known custodial or business provider.
    Custodial { custodian: Provider },
    /// The payee is a private node reached only through a recognized LSP's
    /// channel; `id` is that channel's short identifier, in decimal.
    NonCustodial { id: String, lsp: Provider },
    /// The payee field is a known LSP's key with no usable route hints: the
    /// LSP rewrote the invoice and proxies the payment to an undisclosed
    /// client.
    NonCustodialWrapped { lsp: Provider },
    /// None of the rules apply.
    Unknown,
}

/// What the classification rules decide: which rule fired and with which
/// provider, the channel identifier still a number.
pub enum Classification {
    Custodial { provider: ProviderView },
    ViaLsp { short_channel_id: u64, lsp: ProviderView },
    Wrapped { lsp: ProviderView },
    Unknown,
}

/// Whether `key` is one of the provider's match keys.
pub open spec fn key_match(p: ProviderView, key: Seq<char>) -> bool {
    exists|i: int| 0 <= i < p.keys.len() && p.keys[i] == key
}

/// The first registry entry (in registry order) that lists `key`.
pub open spec fn spec_find(ps: Seq<ProviderView>, key: Seq<char>) -> Option<ProviderView>
    decreases ps.len(),
{
    if ps.len() == 0 {
        None
    } else if key_match(ps[0], key) {
        Some(ps[0])
    } else {
        spec_find(ps.drop_first(), key)
    }
}

/// The registry entry matching a node: by its public key first, and failing
/// that by its alias, when it has one.
pub open spec fn spec_find_node(ps: Seq<ProviderView>, n: NodeView) -> Option<ProviderView> {
    match spec_find(ps, n.pubkey) {
        Some(p) => Some(p),
        None => match n.alias {
            Some(a) => spec_find(ps, a),
            None => None,
        },
    }
}

/// A route hint is usable only when it exposes at least one hop.
pub open spec fn usable_hint(h: Seq<HopView>) -> bool {
    h.len() > 0
}

/// No hint of the request exposes any hop.
pub open spec fn no_usable_hints(hints: Seq<Seq<HopView>>) -> bool {
    forall|i: int| 0 <= i < hints.len() ==> !usable_hint(hints[i])
}

/// The first hint (in encounter order) whose first hop matches a registered
/// LSP, together with that hop's channel identifier. When several hints
/// qualify with different LSPs, the first hint wins.
pub open spec fn spec_first_lsp_gate(ps: Seq<ProviderView>, hints: Seq<Seq<HopView>>) -> Option<(ProviderView, u64)>
    decreases hints.len(),
{
    if hints.len() == 0 {
        None
    } else {
        let h = hints[0];
        let here = if h.len() > 0 {
            match spec_find_node(ps, h[0].node) {
                Some(p) => if p.service == ServiceKind::Lsp {
                    Some((p, h[0].short_channel_id))
                } else {
                    None
                },
                None => None,
            }
        } else {
            None
        };
        match here {
            Some(x) => Some(x),
            None => spec_first_lsp_gate(ps, hints.drop_first()),
        }
    }
}

/// The third rule: an LSP as literal payee with no usable route hints is the
/// signature of a wrapped invoice.
pub open spec fn spec_classify_wrapped(ps: Seq<ProviderView>, payee: NodeView, hints: Seq<Seq<HopView>>) -> Classification {
    match spec_find(ps, payee.pubkey) {
        Some(p) => if p.service == ServiceKind::Lsp && no_usable_hints(hints) {
            Classification::Wrapped { lsp: p }
        } else {
            Classification::Unknown
        },
        None => Classification::Unknown,
    }
}

/// The second rule: an unannounced payee reached through a recognized LSP's
/// channel is that LSP's non-custodial client.
pub open spec fn spec_classify_via_lsp(ps: Seq<ProviderView>, payee: NodeView, hints: Seq<Seq<HopView>>) -> Classification {
    if !payee.is_announced {
        match spec_first_lsp_gate(ps, hints) {
            Some(pair) => Classification::ViaLsp { short_channel_id: pair.1, lsp: pair.0 },
            None => spec_classify_wrapped(ps, payee, hints),
        }
    } else {
        spec_classify_wrapped(ps, payee, hints)
    }
}

/// The whole decision procedure, first rule first: a payee matching a
/// non-LSP registry entry (by key, or alias) is custodial; otherwise the
/// route-hint rule, then the wrapped-invoice rule, then `Unknown`.
pub open spec fn spec_classify(ps: Seq<ProviderView>, payee: NodeView, hints: Seq<Seq<HopView>>) -> Classification {
    match spec_find_node(ps, payee) {
        Some(p) => if p.service != ServiceKind::Lsp {
            Classification::Custodial { provider: p }
        } else {
            spec_classify_via_lsp(ps, payee, hints)
        },
        None => spec_classify_via_lsp(ps, payee, hints),
    }
}

/// The returned verdict presents the abstract classification: same rule,
/// same provider, and the channel identifier rendered in decimal.
pub open spec fn classification_shown(r: RecipientNode, c: Classification) -> bool {
    match c {
        Classification::Custodial { provider } => {
            r matches RecipientNode::Custodial { custodian } && custodian@ == provider
        },
        Classification::ViaLsp { short_channel_id, lsp } => {
            r matches RecipientNode::NonCustodial { id, lsp: l } && l@ == lsp && id@
                == decimal_of(short_channel_id as nat)
        },
        Classification::Wrapped { lsp } => {
            r matches RecipientNode::NonCustodialWrapped { lsp: l } && l@ == lsp
        },
        Classification::Unknown => r is Unknown,
    }
}

/// The decision engine: a provider registry fixed at construction.
pub struct RecipientDecoder {
    providers: Vec<Provider>,
}

impl View for RecipientDecoder {
    type V = Seq<ProviderView>;

    closed spec fn view(&self) -> Seq<ProviderView> {
        self.providers.deep_view()
    }
}

/// If no entry among the first `i` matches, the search result over the whole
/// registry is the result over the rest.
proof fn lemma_find_skip(ps: Seq<ProviderView>, key: Seq<char>, i: int)
    requires
        0 <= i <= ps.len(),
        forall|k: int| 0 <= k < i ==> !key_match(ps[k], key),
    ensures
        spec_find(ps, key) == spec_find(ps.skip(i), key),
    decreases i,
{
    if i > 0 {
        assert(ps.skip(0) =~= ps);
        lemma_find_skip(ps.drop_first(), key, i - 1);
        assert(ps.drop_first().skip(i - 1) =~= ps.skip(i));
    } else {
        assert(ps.skip(0) =~= ps);
    }
}

/// The same prefix argument for the route-hint gate search.
proof fn lemma_gate_skip(ps: Seq<ProviderView>, hints: Seq<Seq<HopView>>, i: int)
    requires
        0 <= i <= hints.len(),
        forall|k: int| 0 <= k < i ==> !gate_at(ps, hints, k),
    ensures
        spec_first_lsp_gate(ps, hints) == spec_first_lsp_gate(ps, hints.skip(i)),
    decreases i,
{
    if i > 0 {
        assert(!gate_at(ps, hints, 0));
        assert forall|k: int| 0 <= k < i - 1 implies !gate_at(ps, hints.drop_first(), k) by {
            assert(!gate_at(ps, hints, k + 1));
        }
        lemma_gate_skip(ps, hints.drop_first(), i - 1);
        assert(hints.drop_first().skip(i - 1) =~= hints.skip(i));
    } else {
        assert(hints.skip(0) =~= hints);
    }
}

/// Whether the hint at position `k` opens with a recognized LSP's channel.
pub open spec fn gate_at(ps: Seq<ProviderView>, hints: Seq<Seq<HopView>>, k: int) -> bool {
    hints[k].len() > 0 && match spec_find_node(ps, hints[k][0].node) {
        Some(p) => p.service == ServiceKind::Lsp,
        None => false,
    }
}

impl RecipientDecoder {
    /// The curated registry shipped with the library: a handful of well-known
    /// providers, recognized by public key or announced alias — one LSP, one
    /// consumer wallet, one exchange and one payment processor, exactly as
    /// pinned below.
    pub fn new() -> (r: Self)
        ensures
            r@.len() == 4,
            r@[0] == (ProviderView {
                name: "ACINQ"@,
                service: ServiceKind::Lsp,
                keys: seq![
                    "03864ef025fde8fb587d989186ce6a4a186895ee44a926bfc370e2c366597a3f8f"@,
                    "ACINQ"@,
                ],
            }),
            r@[1] == (ProviderView {
                name: "Wallet of Satoshi"@,
                service: ServiceKind::ConsumerWallet,
                keys: seq!["WalletOfSatoshi.com"@],
            }),
            r@[2] == (ProviderView {
                name: "Kraken"@,
                service: ServiceKind::Exchange,
                keys: seq!["Kraken"@],
            }),
            r@[3] == (ProviderView {
                name: "OpenNode"@,
                service: ServiceKind::BusinessWallet,
                keys: seq!["OpenNode.com"@],
            }),
    {
        let mut providers: Vec<Provider> = Vec::new();
        providers.push(Provider {
            name: String::from_str("ACINQ"),
            service: ServiceKind::Lsp,
            keys: vec![
                String::from_str("03864ef025fde8fb587d989186ce6a4a186895ee44a926bfc370e2c366597a3f8f"),
                String::from_str("ACINQ"),
            ],
        });
        providers.push(Provider {
            name: String::from_str("Wallet of Satoshi"),
            service: ServiceKind::ConsumerWallet,
            keys: vec![String::from_str("WalletOfSatoshi.com")],
        });
        providers.push(Provider {
            name: String::from_str("Kraken"),
            service: ServiceKind::Exchange,
            keys: vec![String::from_str("Kraken")],
        });
        providers.push(Provider {
            name: String::from_str("OpenNode"),
            service: ServiceKind::BusinessWallet,
            keys: vec![String::from_str("OpenNode.com")],
        });
        let r = RecipientDecoder { providers };
        proof {
            assert(r@[0].keys =~= seq![
                "03864ef025fde8fb587d989186ce6a4a186895ee44a926bfc370e2c366597a3f8f"@,
                "ACINQ"@,
            ]);
            assert(r@[1].keys =~= seq!["WalletOfSatoshi.com"@]);
            assert(r@[2].keys =~= seq!["Kraken"@]);
            assert(r@[3].keys =~= seq!["OpenNode.com"@]);
        }
        r
    }

    /// A decoder over a caller-supplied registry.
    pub fn with_providers(providers: Vec<Provider>) -> (r: Self)
        ensures
            r@ == providers.deep_view(),
    {
        RecipientDecoder { providers }
    }

    /// Whether `key` is among the provider's match keys.
    fn key_in(p: &Provider, key: &String) -> (r: bool)
        ensures
            r == key_match(p@, key@),
    {
        let n = p.keys.len();
        let mut j: usize = 0;
        while j < n
            invariant
                n == p.keys.len(),
                j <= n,
                forall|k: int| 0 <= k < j ==> p@.keys[k] != key@,
            decreases n - j,
        {
            if p.keys[j] == *key {
                assert(p@.keys[j as int] == key@);
                return true;
            }
            j += 1;
        }
        false
    }

    /// The first provider listing `key`, as an index into the registry.
    fn find(&self, key: &String) -> (r: Option<usize>)
        ensures
            match r {
                Some(i) => i < self.providers@.len() && spec_find(self@, key@) == Some(
                    self.providers@[i as int]@,
                ),
                None => spec_find(self@, key@) is None,
            },
    {
        let n = self.providers.len();
        let mut i: usize = 0;
        while i < n
            invariant
                n == self.providers.len(),
                i <= n,
                forall|k: int| 0 <= k < i ==> !key_match(self@[k], key@),
            decreases n - i,
        {
            if Self::key_in(&self.providers[i], key) {
                proof {
                    lemma_find_skip(self@, key@, i as int);
                    assert(self@.skip(i as int)[0] == self@[i as int]);
                }
                return Some(i);
            }
            i += 1;
        }
        proof {
            lemma_find_skip(self@, key@, n as int);
        }
        None
    }

    /// The first provider matching a node: by public key, else by alias.
    fn find_node(&self, node: &Node) -> (r: Option<usize>)
        ensures
            match r {
                Some(i) => i < self.providers@.len() && spec_find_node(self@, node@) == Some(
                    self.providers@[i as int]@,
                ),
                None => spec_find_node(self@, node@) is None,
            },
    {
        match self.find(&node.pubkey) {
            Some(i) => Some(i),
            None => match &node.alias {
                Some(a) => self.find(a),
                None => None,
            },
        }
    }

    /// The first hint opening with a recognized LSP's channel: the provider's
    /// index and the channel identifier.
    fn first_lsp_gate(&self, hints: &Vec<RouteHintPath>) -> (r: Option<(usize, u64)>)
        ensures
            match r {
                Some(pair) => pair.0 < self.providers@.len() && spec_first_lsp_gate(
                    self@,
                    hints.deep_view(),
                ) == Some((self.providers@[pair.0 as int]@, pair.1)),
                None => spec_first_lsp_gate(self@, hints.deep_view()) is None,
            },
    {
        let n = hints.len();
        let mut h: usize = 0;
        while h < n
            invariant
                n == hints.len(),
                h <= n,
                forall|k: int| 0 <= k < h ==> !gate_at(self@, hints.deep_view(), k),
            decreases n - h,
        {
            let hint = &hints[h];
            if hint.hops.len() > 0 {
                match self.find_node(&hint.hops[0].node) {
                    Some(i) => {
                        if matches!(self.providers[i].service, ServiceKind::Lsp) {
                            let scid = hint.hops[0].short_channel_id;
                            proof {
                                let hv = hints.deep_view();
                                lemma_gate_skip(self@, hv, h as int);
                                assert(hv.skip(h as int)[0] == hv[h as int]);
                                assert(hv[h as int][0] == hint.hops@[0]@);
                            }
                            return Some((i, scid));
                        }
                        proof {
                            assert(hints.deep_view()[h as int][0] == hint.hops@[0]@);
                        }
                    },
                    None => {
                        proof {
                            assert(hints.deep_view()[h as int][0] == hint.hops@[0]@);
                        }
                    },
                }
            }
            h += 1;
        }
        proof {
            lemma_gate_skip(self@, hints.deep_view(), n as int);
        }
        None
    }

    /// Whether no hint exposes a hop.
    fn hints_unusable(hints: &Vec<RouteHintPath>) -> (r: bool)
        ensures
            r == no_usable_hints(hints.deep_view()),
    {
        let n = hints.len();
        let mut i: usize = 0;
        while i < n
            invariant
                n == hints.len(),
                i <= n,
                forall|k: int| 0 <= k < i ==> !usable_hint(hints.deep_view()[k]),
            decreases n - i,
        {
            if hints[i].hops.len() > 0 {
                assert(usable_hint(hints.deep_view()[i as int]));
                return false;
            }
            i += 1;
        }
        true
    }

    /// Classifies the recipient of a request from the payee's identity and
    /// the resolved route hints. Never fails: unmatched input is `Unknown`.
    pub fn decode(&self, payee: &Node, route_hints: &Vec<RouteHintPath>) -> (r: RecipientNode)
        ensures
            classification_shown(r, spec_classify(self@, payee@, route_hints.deep_view())),
    {
        if let Some(i) = self.find_node(payee) {
            if !matches!(self.providers[i].service, ServiceKind::Lsp) {
                return RecipientNode::Custodial { custodian: self.providers[i].clone() };
            }
        }
        if !payee.is_announced {
            if let Some((i, scid)) = self.first_lsp_gate(route_hints) {
                return RecipientNode::NonCustodial {
                    id: u64_to_decimal(scid),
                    lsp: self.providers[i].clone(),
                };
            }
        }
        if let Some(i) = self.find(&payee.pubkey) {
            if matches!(self.providers[i].service, ServiceKind::Lsp) && Self::hints_unusable(
                route_hints,
            ) {
                return RecipientNode::NonCustodialWrapped { lsp: self.providers[i].clone() };
            }
        }
        RecipientNode::Unknown
    }
}

/// Two verdicts agree: same rule, same provider content, same identifier.
pub open spec fn verdicts_agree(r1: RecipientNode, r2: RecipientNode) -> bool {
    match (r1, r2) {
        (RecipientNode::Custodial { custodian: a }, RecipientNode::Custodial { custodian: b }) => a@ == b@,
        (
            RecipientNode::NonCustodial { id: i1, lsp: a },
            RecipientNode::NonCustodial { id: i2, lsp: b },
        ) => i1@ == i2@ && a@ == b@,
        (
            RecipientNode::NonCustodialWrapped { lsp: a },
            RecipientNode::NonCustodialWrapped { lsp: b },
        ) => a@ == b@,
        (RecipientNode::Unknown, RecipientNode::Unknown) => true,
        _ => false,
    }
}

/// Classification is a pure function of the payee, the route hints and the
/// registry: two classifications of the same pair agree.
pub proof fn lemma_classify_idempotent(
    ps: Seq<ProviderView>,
    payee: NodeView,
    hints: Seq<Seq<HopView>>,
    r1: RecipientNode,
    r2: RecipientNode,
)
    requires
        classification_shown(r1, spec_classify(ps, payee, hints)),
        classification_shown(r2, spec_classify(ps, payee, hints)),
    ensures
        verdicts_agree(r1, r2),
{
}

} // verus!
