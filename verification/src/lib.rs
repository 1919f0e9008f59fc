//! Investigates Lightning Network payment requests: decodes the request,
//! resolves the nodes it references against a channel-graph snapshot, and
//! classifies who actually receives the funds.

mod decoder;
mod format;
mod graph_database;
mod invoice;
mod node;
mod offer_details;
mod recipient;
mod resolve;
mod text;

pub use decoder::{
    DecodeError, DecodedData, RequestKind, address_url_of, decode, lnurl_url_of, refund_valid,
    spec_kind, spec_payload_ok, spec_sanitize,
};
pub use format::{
    format_introduction_node, format_msat, format_node_name, format_recipient_node,
    format_route_hints, format_service_kind, spec_format_introduction, spec_format_msat,
    spec_format_node_name, spec_format_recipient, spec_format_service_kind, spec_group_commas,
    spec_hop_label, spec_pad3,
};
pub use graph_database::{DirectoryError, GraphDatabase};
pub use invoice::{
    BitcoinNetwork, CanonicalInvoice, RawHint, RawHop, RawHopView, bolt11_amount_of,
    bolt11_description_of, bolt11_explicit_payee_of, bolt11_hints_of, bolt11_network_of,
    bolt11_payee_of, bolt11_recovered_payee_of, bolt11_valid, canonical_matches_text,
    network_name, spec_network_name,
};
pub use offer_details::{
    Amount, BlindedHop, BlindedPath, ChannelEnd, IntroductionNode, OfferAmount, OfferAmountView,
    OfferDetails, OfferParts, OfferPartsView, RawBlindedHop, RawBlindedHopView, RawBlindedPath,
    RawBlindedPathView, RawIntroduction, RawIntroductionView, RawQuantity, ShortChannelId,
    currency_info_of, intro_shown, offer_amount_of, offer_chains_of, offer_description_of,
    offer_expiry_of, offer_id_of, offer_issuer_of, offer_metadata_of, offer_parts_of,
    offer_path_blinding_of, offer_path_hops_of, offer_path_intro_of, offer_paths_len_of,
    offer_paths_of, offer_quantity_of, offer_signing_pubkey_of, offer_valid, path_shown,
    spec_amount_display, spec_amount_fields, spec_quantity_text, spec_scid_display,
    spec_scid_split,
};

pub use node::{
    Node, NodeName, NodeView, lemma_lookup_total, name_from_row, name_presents, node_from_row,
    node_wf, spec_node_from_row,
};
pub use recipient::{
    Classification, HintHop, HopView, Provider, ProviderView, RecipientDecoder, RecipientNode,
    RouteHintPath, ServiceKind, classification_shown, lemma_classify_idempotent, spec_classify,
    verdicts_agree,
};
pub use resolve::{
    LnurlFlow, LnurlResponseKind, PayParams, ResolveError, ResolveStage, lnurl_flow_of,
    lnurl_invoice_from_response, lnurl_pay_callback, offer_to_canonical, pay_invoice_pr_of,
    regtest_chain_hex, signet_chain_hex, spec_callback_url, spec_chain_network,
    spec_offer_amount, spec_offer_network, spec_offer_payee, testnet_chain_hex,
};
pub use text::{
    bytes_to_hex, chars_of, contains_char, decimal_of, digit_char, digits_of, extend_chars,
    has_prefix, hex_digit, hex_of, is_space, lemma_hex_len, lemma_hex_of_injective, lower_char,
    lower_chars, spec_lower,
    spec_squeeze, spec_trim, squeeze_chars, starts_with_chars, string_of_chars, trim_chars,
    u64_dec_chars, u64_to_decimal,
};

use vstd::prelude::*;

use crate::invoice::{bolt11_check, canonical_from_bolt11};

verus! {

/// The human-relevant details of an investigated request.
#[derive(Debug)]
pub struct InvoiceDetails {
    pub network: String,
    pub description: String,
    pub amount_msat: Option<u64>,
}

/// What an investigation establishes: the recipient verdict, the payee's
/// resolved identity, the resolved route-hint evidence, and the request's
/// details.
#[derive(Debug)]
pub struct InvestigativeFindings {
    pub recipient: RecipientNode,
    pub payee: Node,
    pub route_hints: Vec<Vec<Node>>,
    pub details: InvoiceDetails,
}

/// Why an investigation failed, tagged with the stage that failed.
#[derive(Debug)]
pub enum InvestigationError {
    Decode(DecodeError),
    Resolve(crate::resolve::ResolveError),
    Directory(DirectoryError),
}

/// The resolved route hints induced by raw hints and the identities their
/// hops resolved to.
pub open spec fn spec_hint_trails(raw: Seq<Seq<RawHopView>>, nodes: Seq<Seq<NodeView>>) -> Seq<
    Seq<HopView>,
> {
    Seq::new(
        raw.len(),
        |i: int|
            Seq::new(
                raw[i].len(),
                |j: int|
                    HopView {
                        node: nodes[i][j],
                        short_channel_id: raw[i][j].short_channel_id,
                    },
            ),
    )
}

/// The resolved trails present the raw hints: same shape, each hop's key
/// rendered in hex and resolved to a well-formed identity, each channel
/// identifier kept.
pub open spec fn trails_resolve(raw: Seq<Seq<RawHopView>>, trails: Seq<Seq<HopView>>) -> bool {
    &&& trails.len() == raw.len()
    &&& forall|i: int| 0 <= i < raw.len() ==> (#[trigger] trails[i]).len() == raw[i].len()
    &&& forall|i: int, j: int|
        0 <= i < raw.len() && 0 <= j < raw[i].len() ==> {
            let h = #[trigger] trails[i][j];
            &&& h.short_channel_id == raw[i][j].short_channel_id
            &&& h.node.pubkey == hex_of(raw[i][j].src_node_id)
            &&& node_wf(h.node)
        }
}

/// The investigation orchestrator: the node directory and the recipient
/// classifier, composed into one end-to-end call.
pub struct InvoiceDetective {
    graph_database: GraphDatabase,
    recipient_decoder: RecipientDecoder,
}

impl InvoiceDetective {
    /// The registry the classifier runs on.
    pub closed spec fn registry(&self) -> Seq<crate::recipient::ProviderView> {
        self.recipient_decoder@
    }

    /// Opens the snapshot at its conventional path and loads the curated
    /// registry.
    pub fn new() -> (r: Result<InvoiceDetective, DirectoryError>) {
        match GraphDatabase::open("./graph.db3") {
            Ok(graph_database) => Ok(
                InvoiceDetective { graph_database, recipient_decoder: RecipientDecoder::new() },
            ),
            Err(e) => Err(e),
        }
    }

    /// An orchestrator over caller-supplied stores.
    pub fn with_parts(graph_database: GraphDatabase, recipient_decoder: RecipientDecoder) -> (r: InvoiceDetective)
        ensures
            r.registry() == recipient_decoder@,
    {
        InvoiceDetective { graph_database, recipient_decoder }
    }

    /// Investigates a raw BOLT 11 invoice string: trims it, parses it, and
    /// investigates the canonical request. Unparseable text is rejected as a
    /// malformed invoice before the store is touched; parseable text fails
    /// only when the store does.
    pub fn investigate(&self, invoice: &str) -> (r: Result<
        InvestigativeFindings,
        InvestigationError,
    >)
        ensures
            ({
                let s = spec_trim(invoice@);
                match r {
                    Ok(f) => {
                        &&& bolt11_valid(s)
                        &&& f.payee@.pubkey == hex_of(bolt11_payee_of(s))
                        &&& node_wf(f.payee@)
                        &&& f.details.amount_msat == bolt11_amount_of(s)
                        &&& f.details.description@ == bolt11_description_of(s)
                        &&& f.details.network@ == spec_network_name(bolt11_network_of(s))
                        &&& trails_resolve(
                            bolt11_hints_of(s),
                            spec_hint_trails(bolt11_hints_of(s), f.route_hints.deep_view()),
                        )
                        &&& f.route_hints.deep_view().len() == bolt11_hints_of(s).len()
                        &&& classification_shown(
                            f.recipient,
                            spec_classify(
                                self.registry(),
                                f.payee@,
                                spec_hint_trails(bolt11_hints_of(s), f.route_hints.deep_view()),
                            ),
                        )
                    },
                    Err(InvestigationError::Decode(e)) => e matches DecodeError::MalformedPayload {
                        kind: crate::decoder::RequestKind::Invoice,
                        ..
                    } && !bolt11_valid(s),
                    Err(InvestigationError::Directory(e)) => e
                        matches DirectoryError::StoreUnavailable { .. } && bolt11_valid(s),
                    Err(InvestigationError::Resolve(_)) => false,
                }
            }),
    {
        let chars = chars_of(invoice);
        let trimmed = trim_chars(&chars);
        let text = string_of_chars(&trimmed);
        match bolt11_check(text.as_str()) {
            Ok(()) => {
                let canonical = canonical_from_bolt11(text.as_str());
                proof {
                    lemma_hex_len(canonical.payee_key@);
                }
                self.investigate_bolt11(canonical)
            },
            Err(cause) => Err(
                InvestigationError::Decode(
                    DecodeError::MalformedPayload {
                        kind: crate::decoder::RequestKind::Invoice,
                        cause,
                    },
                ),
            ),
        }
    }

    /// Investigates a canonical request: resolves the payee and every hinted
    /// hop through the directory, classifies the recipient, and assembles
    /// the findings. Fails only when the snapshot store cannot be queried.
    pub fn investigate_bolt11(&self, invoice: CanonicalInvoice) -> (r: Result<
        InvestigativeFindings,
        InvestigationError,
    >)
        ensures
            match r {
                Ok(f) => {
                    &&& f.payee@.pubkey == hex_of(invoice.payee_key@)
                    &&& node_wf(f.payee@)
                    &&& f.details.amount_msat == invoice.amount_msat
                    &&& f.details.description@ == invoice.description@
                    &&& f.details.network@ == spec_network_name(invoice.network)
                    &&& trails_resolve(
                        invoice.route_hints.deep_view(),
                        spec_hint_trails(
                            invoice.route_hints.deep_view(),
                            f.route_hints.deep_view(),
                        ),
                    )
                    &&& f.route_hints.deep_view().len() == invoice.route_hints.deep_view().len()
                    &&& classification_shown(
                        f.recipient,
                        spec_classify(
                            self.registry(),
                            f.payee@,
                            spec_hint_trails(
                                invoice.route_hints.deep_view(),
                                f.route_hints.deep_view(),
                            ),
                        ),
                    )
                },
                Err(InvestigationError::Directory(e)) => e matches DirectoryError::StoreUnavailable { .. },
                Err(_) => false,
            },
    {
        let payee_hex = bytes_to_hex(&invoice.payee_key);
        let payee = match self.graph_database.query(payee_hex) {
            Ok(n) => n,
            Err(e) => {
                return Err(InvestigationError::Directory(e));
            },
        };
        let trails = match self.process_route_hints(&invoice.route_hints) {
            Ok(t) => t,
            Err(e) => {
                return Err(InvestigationError::Directory(e));
            },
        };
        let recipient = self.recipient_decoder.decode(&payee, &trails);
        let mut hint_nodes: Vec<Vec<Node>> = Vec::new();
        let n = trails.len();
        let mut i: usize = 0;
        while i < n
            invariant
                n == trails@.len(),
                i <= n,
                hint_nodes@.len() == i,
                forall|x: int| 0 <= x < i ==> (#[trigger] hint_nodes@[x])@.len()
                    == trails@[x].hops@.len(),
                forall|x: int, y: int| 0 <= x < i && 0 <= y < trails@[x].hops@.len()
                    ==> (#[trigger] hint_nodes@[x]@[y])@ == trails@[x].hops@[y].node@,
            decreases n - i,
        {
            let hops = &trails[i].hops;
            let m = hops.len();
            let mut nodes: Vec<Node> = Vec::new();
            let mut j: usize = 0;
            while j < m
                invariant
                    m == hops@.len(),
                    j <= m,
                    nodes@.len() == j,
                    forall|y: int| 0 <= y < j ==> (#[trigger] nodes@[y])@ == hops@[y].node@,
                decreases m - j,
            {
                nodes.push(hops[j].node.clone());
                j += 1;
            }
            hint_nodes.push(nodes);
            i += 1;
        }
        let details = InvoiceDetails {
            network: network_name(invoice.network),
            description: invoice.description,
            amount_msat: invoice.amount_msat,
        };
        proof {
            let rawv = invoice.route_hints.deep_view();
            let nodesv = hint_nodes.deep_view();
            let tv = trails.deep_view();
            assert forall|x: int| 0 <= x < rawv.len() implies spec_hint_trails(rawv, nodesv)[x]
                =~= tv[x] by {
                assert(tv[x] == trails@[x].deep_view());
                assert(nodesv[x] == hint_nodes@[x].deep_view());
                assert forall|y: int| 0 <= y < rawv[x].len() implies spec_hint_trails(
                    rawv,
                    nodesv,
                )[x][y] == tv[x][y] by {
                    assert(tv[x][y] == trails@[x].hops@[y]@);
                    assert(nodesv[x][y] == (hint_nodes@[x]@[y])@);
                    assert(rawv[x] == invoice.route_hints@[x].deep_view());
                    assert(rawv[x][y] == invoice.route_hints@[x].hops@[y]@);
                }
            }
            assert(spec_hint_trails(rawv, nodesv) =~= tv);
        }
        Ok(InvestigativeFindings { recipient, payee, route_hints: hint_nodes, details })
    }

    /// Investigates an offer: maps it into the canonical request — the
    /// documented approximation of who receives funds — and investigates
    /// that. An offer with no destination is rejected before the store is
    /// touched; one with a destination fails only when the store does.
    pub fn investigate_bolt12(&self, offer: OfferParts) -> (r: Result<
        InvestigativeFindings,
        InvestigationError,
    >)
        ensures
            match r {
                Ok(f) => {
                    &&& spec_offer_payee(offer) matches Some(key) && f.payee@.pubkey == hex_of(key)
                    &&& node_wf(f.payee@)
                    &&& f.details.amount_msat == spec_offer_amount(offer)
                    &&& f.details.description@ == match offer.description {
                        Some(d) => d@,
                        None => Seq::<char>::empty(),
                    }
                    &&& f.details.network@ == spec_network_name(
                        spec_offer_network(offer.chains.deep_view()),
                    )
                    &&& f.route_hints.deep_view().len() == 0
                    &&& classification_shown(
                        f.recipient,
                        spec_classify(
                            self.registry(),
                            f.payee@,
                            spec_hint_trails(Seq::empty(), f.route_hints.deep_view()),
                        ),
                    )
                },
                Err(InvestigationError::Resolve(e)) => e is NoDestination && spec_offer_payee(
                    offer,
                ) is None,
                Err(InvestigationError::Directory(e)) => e
                    matches DirectoryError::StoreUnavailable { .. } && spec_offer_payee(offer) is Some,
                Err(InvestigationError::Decode(_)) => false,
            },
    {
        match offer_to_canonical(offer) {
            Ok(canonical) => {
                let ghost raw_hints = canonical.route_hints.deep_view();
                let r = self.investigate_bolt11(canonical);
                proof {
                    assert(raw_hints =~= Seq::<Seq<RawHopView>>::empty());
                }
                r
            },
            Err(e) => Err(InvestigationError::Resolve(e)),
        }
    }

    /// Resolves every hop of every hint through the directory, preserving
    /// hint order and hop order; a single failure aborts the whole
    /// extraction.
    fn process_route_hints(&self, route_hints: &Vec<RawHint>) -> (r: Result<
        Vec<RouteHintPath>,
        DirectoryError,
    >)
        ensures
            match r {
                Ok(trails) => trails_resolve(route_hints.deep_view(), trails.deep_view()),
                Err(e) => e matches DirectoryError::StoreUnavailable { .. },
            },
    {
        let mut trails: Vec<RouteHintPath> = Vec::new();
        let n = route_hints.len();
        let mut i: usize = 0;
        while i < n
            invariant
                n == route_hints@.len(),
                i <= n,
                trails@.len() == i,
                forall|x: int| 0 <= x < i ==> (#[trigger] trails@[x]).hops@.len()
                    == route_hints@[x].hops@.len(),
                forall|x: int, y: int|
                    0 <= x < i && 0 <= y < route_hints@[x].hops@.len() ==> {
                        let h = (#[trigger] trails@[x].hops@[y])@;
                        &&& h.short_channel_id == route_hints@[x].hops@[y].short_channel_id
                        &&& h.node.pubkey == hex_of(route_hints@[x].hops@[y].src_node_id@)
                        &&& node_wf(h.node)
                    },
            decreases n - i,
        {
            let hint = &route_hints[i];
            let m = hint.hops.len();
            let mut hops: Vec<HintHop> = Vec::new();
            let mut j: usize = 0;
            while j < m
                invariant
                    m == hint.hops@.len(),
                    j <= m,
                    hops@.len() == j,
                    forall|y: int| 0 <= y < j ==> {
                        let h = (#[trigger] hops@[y])@;
                        &&& h.short_channel_id == hint.hops@[y].short_channel_id
                        &&& h.node.pubkey == hex_of(hint.hops@[y].src_node_id@)
                        &&& node_wf(h.node)
                    },
                decreases m - j,
            {
                let hop = &hint.hops[j];
                let hex = bytes_to_hex(&hop.src_node_id);
                let node = match self.graph_database.query(hex) {
                    Ok(node) => node,
                    Err(e) => {
                        return Err(e);
                    },
                };
                hops.push(HintHop { node, short_channel_id: hop.short_channel_id });
                j += 1;
            }
            trails.push(RouteHintPath { hops });
            i += 1;
        }
        proof {
            let rawv = route_hints.deep_view();
            let tv = trails.deep_view();
            assert forall|x: int| 0 <= x < rawv.len() implies (#[trigger] tv[x]).len()
                == rawv[x].len() by {
                assert(tv[x] == trails@[x].deep_view());
                assert(rawv[x] == route_hints@[x].deep_view());
            }
            assert forall|x: int, y: int|
                0 <= x < rawv.len() && 0 <= y < rawv[x].len() implies {
                let h = #[trigger] tv[x][y];
                &&& h.short_channel_id == rawv[x][y].short_channel_id
                &&& h.node.pubkey == hex_of(rawv[x][y].src_node_id)
                &&& node_wf(h.node)
            } by {
                assert(tv[x] == trails@[x].deep_view());
                assert(rawv[x] == route_hints@[x].deep_view());
                assert(tv[x][y] == trails@[x].hops@[y]@);
                assert(rawv[x][y] == route_hints@[x].hops@[y]@);
            }
        }
        Ok(trails)
    }
}

} // verus!
