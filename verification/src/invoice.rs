//! The canonical payment request: the plain-value form every recognized
//! encoding is resolved to before classification, and the trusted boundary to
//! the BOLT 11 protocol decoder.
//!
//! Every field a parsed invoice contributes is a fixed function of the
//! invoice text, named below as an uninterpreted function and applied by the
//! wrapper that reads it. Each wrapper therefore parses the text itself: an
//! opaque parsed value could not be tied back to the text it came from.

use vstd::prelude::*;

use lightning_invoice::Bolt11Invoice;

verus! {

/// The network a request was issued for.
#[derive(Clone, Copy, Debug, PartialEq, Eq, Structural)]
pub enum BitcoinNetwork {
    Mainnet,
    Testnet,
    Signet,
    Regtest,
    Simnet,
}

/// The name the presentation layer shows for a network.
pub open spec fn spec_network_name(n: BitcoinNetwork) -> Seq<char> {
    match n {
        BitcoinNetwork::Mainnet => "Mainnet"@,
        BitcoinNetwork::Testnet => "Testnet"@,
        BitcoinNetwork::Signet => "Signet"@,
        BitcoinNetwork::Regtest => "Regtest"@,
        BitcoinNetwork::Simnet => "Simnet"@,
    }
}

/// Renders the network name.
pub fn network_name(n: BitcoinNetwork) -> (r: String)
    ensures
        r@ == spec_network_name(n),
{
    match n {
        BitcoinNetwork::Mainnet => "Mainnet".to_owned(),
        BitcoinNetwork::Testnet => "Testnet".to_owned(),
        BitcoinNetwork::Signet => "Signet".to_owned(),
        BitcoinNetwork::Regtest => "Regtest".to_owned(),
        BitcoinNetwork::Simnet => "Simnet".to_owned(),
    }
}

/// One hop of a route hint in protocol form: the source node's serialized
/// public key (33 bytes) and the channel's short identifier.
#[derive(Debug)]
pub struct RawHop {
    pub src_node_id: Vec<u8>,
    pub short_channel_id: u64,
}

/// The mathematical content of a [`RawHop`].
pub struct RawHopView {
    pub src_node_id: Seq<u8>,
    pub short_channel_id: u64,
}

impl View for RawHop {
    type V = RawHopView;

    open spec fn view(&self) -> RawHopView {
        RawHopView { src_node_id: self.src_node_id@, short_channel_id: self.short_channel_id }
    }
}

impl DeepView for RawHop {
    type V = RawHopView;

    open spec fn deep_view(&self) -> RawHopView {
        self.view()
    }
}

/// One route hint in protocol form: its hops, in order.
#[derive(Debug)]
pub struct RawHint {
    pub hops: Vec<RawHop>,
}

impl View for RawHint {
    type V = Seq<RawHopView>;

    open spec fn view(&self) -> Seq<RawHopView> {
        self.hops.deep_view()
    }
}

impl DeepView for RawHint {
    type V = Seq<RawHopView>;

    open spec fn deep_view(&self) -> Seq<RawHopView> {
        self.view()
    }
}

/// The canonical payment request: what classification works on, whatever
/// encoding it came from.
#[derive(Debug)]
pub struct CanonicalInvoice {
    /// The payee's serialized public key: the explicitly included key when
    /// the invoice carries one, otherwise the key recovered from the
    /// signature.
    pub payee_key: Vec<u8>,
    pub description: String,
    pub amount_msat: Option<u64>,
    pub network: BitcoinNetwork,
    pub route_hints: Vec<RawHint>,
}

/// Whether a BOLT 11 string parses: signature recovery and checksum included.
/// The outcome is a fixed function of the text.
pub uninterp spec fn bolt11_valid(s: Seq<char>) -> bool;

/// The explicitly included payee key of a well-formed BOLT 11 string,
/// compressed-serialized, when the invoice carries one.
pub uninterp spec fn bolt11_explicit_payee_of(s: Seq<char>) -> Option<Seq<u8>>;

/// The payee key recovered from a well-formed BOLT 11 string's signature,
/// compressed-serialized.
pub uninterp spec fn bolt11_recovered_payee_of(s: Seq<char>) -> Seq<u8>;

/// The description text of a well-formed BOLT 11 string, or the hash
/// standing in for a longer one, rendered as text.
pub uninterp spec fn bolt11_description_of(s: Seq<char>) -> Seq<char>;

/// The amount of a well-formed BOLT 11 string, in millisatoshis, when one is
/// named.
pub uninterp spec fn bolt11_amount_of(s: Seq<char>) -> Option<u64>;

/// The network a well-formed BOLT 11 string was issued for.
pub uninterp spec fn bolt11_network_of(s: Seq<char>) -> BitcoinNetwork;

/// The route hints of a well-formed BOLT 11 string: every hint in invoice
/// order, every hop in hint order, each hop as its source node key and short
/// channel id.
pub uninterp spec fn bolt11_hints_of(s: Seq<char>) -> Seq<Seq<RawHopView>>;

/// The payee a well-formed BOLT 11 string resolves to: the explicitly
/// included key when there is one, the recovered key otherwise.
pub open spec fn bolt11_payee_of(s: Seq<char>) -> Seq<u8> {
    match bolt11_explicit_payee_of(s) {
        Some(key) => key,
        None => bolt11_recovered_payee_of(s),
    }
}

/// A canonical request holds exactly the fields the BOLT 11 decoder reads
/// out of the text.
pub open spec fn canonical_matches_text(ci: CanonicalInvoice, s: Seq<char>) -> bool {
    &&& ci.payee_key@ == bolt11_payee_of(s)
    &&& ci.description@ == bolt11_description_of(s)
    &&& ci.amount_msat == bolt11_amount_of(s)
    &&& ci.network == bolt11_network_of(s)
    &&& ci.route_hints.deep_view() == bolt11_hints_of(s)
}

/// Relies on Bolt11Invoice::from_str: parsing succeeds exactly on well-formed
/// BOLT 11 text; the error describes the defect.
#[verifier::external_body]
pub(crate) fn bolt11_check(s: &str) -> (r: Result<(), String>)
    ensures
        (r is Ok) == bolt11_valid(s@),
{
    match s.parse::<Bolt11Invoice>() {
        Ok(_) => Ok(()),
        Err(e) => Err(format!("{e}")),
    }
}

/// Relies on Bolt11Invoice::{from_str, payee_pub_key}: the explicitly
/// included payee key, compressed-serialized (33 bytes). Callable only on
/// text that parses.
#[verifier::external_body]
fn invoice_explicit_payee(s: &str) -> (r: Option<Vec<u8>>)
    requires
        bolt11_valid(s@),
    ensures
        r.deep_view() == bolt11_explicit_payee_of(s@),
        r matches Some(k) ==> k@.len() == 33,
{
    let invoice = s.parse::<Bolt11Invoice>().unwrap();
    invoice.payee_pub_key().map(|k| k.serialize().to_vec())
}

/// Relies on Bolt11Invoice::{from_str, recover_payee_pub_key}: the payee key
/// recovered from the signature, compressed-serialized (33 bytes). Callable
/// only on text that parses.
#[verifier::external_body]
fn invoice_recovered_payee(s: &str) -> (r: Vec<u8>)
    requires
        bolt11_valid(s@),
    ensures
        r@ == bolt11_recovered_payee_of(s@),
        r@.len() == 33,
{
    let invoice = s.parse::<Bolt11Invoice>().unwrap();
    invoice.recover_payee_pub_key().serialize().to_vec()
}

/// Relies on Bolt11Invoice::{from_str, description}: the description text,
/// or the hash standing in for a longer one. Callable only on text that
/// parses.
#[verifier::external_body]
fn invoice_description(s: &str) -> (r: String)
    requires
        bolt11_valid(s@),
    ensures
        r@ == bolt11_description_of(s@),
{
    let invoice = s.parse::<Bolt11Invoice>().unwrap();
    format!("{}", invoice.description())
}

/// Relies on Bolt11Invoice::{from_str, amount_milli_satoshis}. Callable only
/// on text that parses.
#[verifier::external_body]
fn invoice_amount_msat(s: &str) -> (r: Option<u64>)
    requires
        bolt11_valid(s@),
    ensures
        r == bolt11_amount_of(s@),
{
    let invoice = s.parse::<Bolt11Invoice>().unwrap();
    invoice.amount_milli_satoshis()
}

/// Relies on Bolt11Invoice::{from_str, currency}: which network the invoice
/// was issued for, one variant each. Callable only on text that parses.
#[verifier::external_body]
fn invoice_network(s: &str) -> (r: BitcoinNetwork)
    requires
        bolt11_valid(s@),
    ensures
        r == bolt11_network_of(s@),
{
    match s.parse::<Bolt11Invoice>().unwrap().currency() {
        lightning_invoice::Currency::Bitcoin => BitcoinNetwork::Mainnet,
        lightning_invoice::Currency::BitcoinTestnet => BitcoinNetwork::Testnet,
        lightning_invoice::Currency::Regtest => BitcoinNetwork::Regtest,
        lightning_invoice::Currency::Simnet => BitcoinNetwork::Simnet,
        lightning_invoice::Currency::Signet => BitcoinNetwork::Signet,
    }
}

/// Relies on Bolt11Invoice::{from_str, route_hints}: every hint in invoice
/// order, every hop in hint order, each hop's source node key
/// (compressed-serialized) and short channel id. Callable only on text that
/// parses.
#[verifier::external_body]
fn invoice_route_hints(s: &str) -> (r: Vec<RawHint>)
    requires
        bolt11_valid(s@),
    ensures
        r.deep_view() == bolt11_hints_of(s@),
{
    let invoice = s.parse::<Bolt11Invoice>().unwrap();
    invoice
        .route_hints()
        .iter()
        .map(|hint| RawHint {
            hops: hint.0.iter().map(|hop| RawHop {
                src_node_id: hop.src_node_id.serialize().to_vec(),
                short_channel_id: hop.short_channel_id,
            }).collect(),
        })
        .collect()
}

/// Extracts the canonical request from well-formed invoice text: the
/// explicitly included payee key when present, the recovered one otherwise,
/// and the details and route hints as the protocol decoder reports them.
pub(crate) fn canonical_from_bolt11(s: &str) -> (r: CanonicalInvoice)
    requires
        bolt11_valid(s@),
    ensures
        canonical_matches_text(r, s@),
        r.payee_key@.len() == 33,
{
    let payee_key = match invoice_explicit_payee(s) {
        Some(key) => key,
        None => invoice_recovered_payee(s),
    };
    proof {
        assert(payee_key@ == bolt11_payee_of(s@));
        assert(payee_key@.len() == 33);
    }
    let r = CanonicalInvoice {
        payee_key,
        description: invoice_description(s),
        amount_msat: invoice_amount_msat(s),
        network: invoice_network(s),
        route_hints: invoice_route_hints(s),
    };
    proof {
        assert(r.payee_key@ == bolt11_payee_of(s@));
        assert(r.description@ == bolt11_description_of(s@));
        assert(r.amount_msat == bolt11_amount_of(s@));
        assert(r.network == bolt11_network_of(s@));
        assert(r.route_hints.deep_view() == bolt11_hints_of(s@));
    }
    r
}

} // verus!
