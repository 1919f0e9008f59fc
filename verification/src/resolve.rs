//! Indirection resolution: mapping offers into the canonical request, and
//! the two decision steps of the LNURL pay flow. The network calls
//! themselves are the caller's: this module decides what each response
//! means and what to fetch next.

use vstd::prelude::*;

use crate::invoice::{BitcoinNetwork, CanonicalInvoice};
use crate::offer_details::{OfferAmount, OfferParts, RawIntroduction};
use crate::text::{
    bytes_to_hex, chars_of, contains_char, decimal_of, extend_chars, hex_of, string_of_chars,
    u64_dec_chars,
};

verus! {

/// Which of the two LNURL round trips failed.
#[derive(Clone, Copy, Debug, PartialEq, Eq, Structural)]
pub enum ResolveStage {
    PayRequest,
    InvoiceRequest,
}

/// Why resolution to a canonical request failed.
#[derive(Debug)]
pub enum ResolveError {
    /// An offer names neither a signing key nor a usable blinded path.
    NoDestination,
    /// The endpoint answered with a withdraw or channel flow; only pay
    /// flows are supported.
    UnsupportedLnurlFlow,
    /// An HTTP failure or a JSON body of the wrong shape, tagged with the
    /// stage it happened in.
    NetworkResolutionFailed { stage: ResolveStage, cause: String },
}

/// The payee an offer resolves to: its signing key when it names one, else
/// the first blinded path's introduction node — the documented
/// approximation of who receives funds — when that path names a node key.
pub open spec fn spec_offer_payee(o: OfferParts) -> Option<Seq<u8>> {
    match o.signing_pubkey {
        Some(k) => Some(k@),
        None => if o.paths@.len() > 0 {
            match o.paths@[0].introduction {
                RawIntroduction::NodeId(k) => Some(k@),
                RawIntroduction::Channel(..) => None,
            }
        } else {
            None
        },
    }
}

/// The testnet3 genesis block hash, in serialized byte order, rendered in
/// hex: how the protocol names the testnet chain.
pub open spec fn testnet_chain_hex() -> Seq<char> {
    "43497fd7f826957108f4a30fd9cec3aeba79972084e90ead01ea330900000000"@
}

/// The signet genesis block hash, rendered in hex.
pub open spec fn signet_chain_hex() -> Seq<char> {
    "f61eee3b63a380a477a063af32b2bbc97c9ff9f01f2c4225e973988108000000"@
}

/// The regtest genesis block hash, rendered in hex.
pub open spec fn regtest_chain_hex() -> Seq<char> {
    "06226e46111a0b59caaf126043eb5bbf28c34f3a5e332a1fc7b2b73cf188910f"@
}

/// The network a chain hash names: one of the three known non-mainnet
/// genesis hashes, anything else — the mainnet hash included — reads as
/// mainnet.
pub open spec fn spec_chain_network(chain: Seq<u8>) -> BitcoinNetwork {
    if hex_of(chain) == testnet_chain_hex() {
        BitcoinNetwork::Testnet
    } else if hex_of(chain) == signet_chain_hex() {
        BitcoinNetwork::Signet
    } else if hex_of(chain) == regtest_chain_hex() {
        BitcoinNetwork::Regtest
    } else {
        BitcoinNetwork::Mainnet
    }
}

/// The network an offer's chain list names: the first listed chain decides;
/// an empty list means mainnet, the protocol's default chain.
pub open spec fn spec_offer_network(chains: Seq<Seq<u8>>) -> BitcoinNetwork {
    if chains.len() == 0 {
        BitcoinNetwork::Mainnet
    } else {
        spec_chain_network(chains[0])
    }
}

/// Names the network a chain hash belongs to.
fn chain_network(chain: &Vec<u8>) -> (r: BitcoinNetwork)
    ensures
        r == spec_chain_network(chain@),
{
    let h = bytes_to_hex(chain);
    if h == "43497fd7f826957108f4a30fd9cec3aeba79972084e90ead01ea330900000000".to_owned() {
        BitcoinNetwork::Testnet
    } else if h == "f61eee3b63a380a477a063af32b2bbc97c9ff9f01f2c4225e973988108000000".to_owned() {
        BitcoinNetwork::Signet
    } else if h == "06226e46111a0b59caaf126043eb5bbf28c34f3a5e332a1fc7b2b73cf188910f".to_owned() {
        BitcoinNetwork::Regtest
    } else {
        BitcoinNetwork::Mainnet
    }
}

/// The amount an offer resolves to: only a bitcoin-denominated amount maps
/// to millisatoshis.
pub open spec fn spec_offer_amount(o: OfferParts) -> Option<u64> {
    match o.amount {
        Some(OfferAmount::Bitcoin { amount_msats }) => Some(amount_msats),
        Some(OfferAmount::Currency { .. }) => None,
        None => None,
    }
}

/// Maps an offer into the canonical request: payee from the signing key or
/// the first blinded path, description kept, bitcoin amounts kept, the
/// network named by the offer's first chain (mainnet when none is listed),
/// and no route hints — blinded paths are not route hints.
pub fn offer_to_canonical(offer: OfferParts) -> (r: Result<CanonicalInvoice, ResolveError>)
    ensures
        match r {
            Ok(ci) => {
                &&& spec_offer_payee(offer) == Some(ci.payee_key@)
                &&& ci.description@ == match offer.description {
                    Some(d) => d@,
                    None => Seq::<char>::empty(),
                }
                &&& ci.amount_msat == spec_offer_amount(offer)
                &&& ci.network == spec_offer_network(offer.chains.deep_view())
                &&& ci.route_hints@.len() == 0
            },
            Err(e) => e is NoDestination && spec_offer_payee(offer) is None,
        },
{
    let OfferParts { chains, amount, description, signing_pubkey, paths, .. } = offer;
    let payee_key = match signing_pubkey {
        Some(k) => k,
        None => {
            if paths.len() > 0 {
                match &paths[0].introduction {
                    RawIntroduction::NodeId(k) => {
                        let mut key: Vec<u8> = Vec::new();
                        let n = k.len();
                        let mut i: usize = 0;
                        while i < n
                            invariant
                                n == k@.len(),
                                i <= n,
                                key@ =~= k@.take(i as int),
                            decreases n - i,
                        {
                            key.push(k[i]);
                            i += 1;
                            proof {
                                assert(key@ =~= k@.take(i as int));
                            }
                        }
                        proof {
                            assert(key@ =~= k@);
                        }
                        key
                    },
                    RawIntroduction::Channel(..) => {
                        return Err(ResolveError::NoDestination);
                    },
                }
            } else {
                return Err(ResolveError::NoDestination);
            }
        },
    };
    let description = match description {
        Some(d) => d,
        None => String::new(),
    };
    let amount_msat = match amount {
        Some(OfferAmount::Bitcoin { amount_msats }) => Some(amount_msats),
        Some(OfferAmount::Currency { .. }) => None,
        None => None,
    };
    let network = if chains.len() > 0 {
        let r = chain_network(&chains[0]);
        proof {
            assert(chains.deep_view()[0] == chains@[0]@);
        }
        r
    } else {
        BitcoinNetwork::Mainnet
    };
    Ok(CanonicalInvoice {
        payee_key,
        description,
        amount_msat,
        network,
        route_hints: Vec::new(),
    })
}

/// A pay response's fields the flow goes on with.
#[derive(Debug)]
pub struct PayParams {
    pub callback: String,
    pub min_sendable: u64,
}

/// What an endpoint's first response was classified as.
#[derive(Debug)]
pub enum LnurlResponseKind {
    Pay(PayParams),
    Withdraw,
    Channel,
    Invalid(String),
}

/// The abstract classification of a response body: a fixed function of the
/// text.
pub enum LnurlFlow {
    Pay { callback: Seq<char>, min_sendable: u64 },
    Withdraw,
    Channel,
    Invalid,
}

/// How the endpoint's first response reads as an LNURL response.
pub uninterp spec fn lnurl_flow_of(text: Seq<char>) -> LnurlFlow;

/// The `pr` field of a pay-invoice response body, when the body parses as
/// one. A fixed function of the text.
pub uninterp spec fn pay_invoice_pr_of(text: Seq<char>) -> Option<Seq<char>>;

/// Relies on lnurl::decode_ln_url_response: classifies the JSON body as a
/// pay, withdraw or channel response, one arm each; a pay response carries
/// its callback URL and minimum sendable amount.
#[verifier::external_body]
fn classify_lnurl_response(text: &str) -> (r: LnurlResponseKind)
    ensures
        match r {
            LnurlResponseKind::Pay(p) => lnurl_flow_of(text@) == (LnurlFlow::Pay {
                callback: p.callback@,
                min_sendable: p.min_sendable,
            }),
            LnurlResponseKind::Withdraw => lnurl_flow_of(text@) == LnurlFlow::Withdraw,
            LnurlResponseKind::Channel => lnurl_flow_of(text@) == LnurlFlow::Channel,
            LnurlResponseKind::Invalid(_) => lnurl_flow_of(text@) == LnurlFlow::Invalid,
        },
{
    match lnurl::decode_ln_url_response(text) {
        Ok(lnurl::LnUrlResponse::LnUrlPayResponse(p)) => LnurlResponseKind::Pay(PayParams {
            callback: p.callback,
            min_sendable: p.min_sendable,
        }),
        Ok(lnurl::LnUrlResponse::LnUrlWithdrawResponse(_)) => LnurlResponseKind::Withdraw,
        Ok(lnurl::LnUrlResponse::LnUrlChannelResponse(_)) => LnurlResponseKind::Channel,
        Err(e) => LnurlResponseKind::Invalid(format!("{e}")),
    }
}

/// Relies on serde_json::from_str for lnurl::pay::LnURLPayInvoice: the `pr`
/// field of the JSON body, when the body parses as a pay-invoice response.
#[verifier::external_body]
fn parse_pay_invoice(text: &str) -> (r: Result<String, String>)
    ensures
        match r {
            Ok(pr) => pay_invoice_pr_of(text@) == Some(pr@),
            Err(_) => pay_invoice_pr_of(text@) is None,
        },
{
    match serde_json::from_str::<lnurl::pay::LnURLPayInvoice>(text) {
        Ok(response) => Ok(response.pr),
        Err(e) => Err(format!("{e}")),
    }
}

/// The callback URL the flow fetches next: the pay response's callback with
/// `amount=<min_sendable>` appended, `&`-joined when the callback already
/// has a query string, `?`-joined otherwise.
pub open spec fn spec_callback_url(callback: Seq<char>, min_sendable: u64) -> Seq<char> {
    let sep = if callback.contains('?') {
        seq!['&']
    } else {
        seq!['?']
    };
    callback + sep + seq!['a', 'm', 'o', 'u', 'n', 't', '='] + decimal_of(min_sendable as nat)
}

/// Decides the first LNURL stage: a pay response yields the callback URL to
/// fetch, a withdraw or channel response is rejected as unsupported before
/// any second request, and an unreadable body fails the stage.
pub fn lnurl_pay_callback(text: &str) -> (r: Result<String, ResolveError>)
    ensures
        match r {
            Ok(url) => lnurl_flow_of(text@) matches LnurlFlow::Pay { callback, min_sendable }
                && url@ == spec_callback_url(callback, min_sendable),
            Err(ResolveError::UnsupportedLnurlFlow) => lnurl_flow_of(text@) == LnurlFlow::Withdraw
                || lnurl_flow_of(text@) == LnurlFlow::Channel,
            Err(ResolveError::NetworkResolutionFailed { stage, .. }) => stage
                == ResolveStage::PayRequest && lnurl_flow_of(text@) == LnurlFlow::Invalid,
            Err(ResolveError::NoDestination) => false,
        },
{
    match classify_lnurl_response(text) {
        LnurlResponseKind::Pay(pay) => {
            let callback = chars_of(pay.callback.as_str());
            let mut url: Vec<char> = Vec::new();
            extend_chars(&mut url, &callback);
            if contains_char(&callback, '?') {
                url.push('&');
            } else {
                url.push('?');
            }
            url.push('a');
            url.push('m');
            url.push('o');
            url.push('u');
            url.push('n');
            url.push('t');
            url.push('=');
            let digits = u64_dec_chars(pay.min_sendable);
            extend_chars(&mut url, &digits);
            let r = string_of_chars(&url);
            proof {
                assert(r@ =~= spec_callback_url(pay.callback@, pay.min_sendable));
            }
            Ok(r)
        },
        LnurlResponseKind::Withdraw => Err(ResolveError::UnsupportedLnurlFlow),
        LnurlResponseKind::Channel => Err(ResolveError::UnsupportedLnurlFlow),
        LnurlResponseKind::Invalid(cause) => Err(ResolveError::NetworkResolutionFailed {
            stage: ResolveStage::PayRequest,
            cause,
        }),
    }
}

/// Decides the second LNURL stage: the callback's JSON body must carry the
/// invoice string, which the caller then decodes as a direct invoice.
pub fn lnurl_invoice_from_response(text: &str) -> (r: Result<String, ResolveError>)
    ensures
        match r {
            Ok(pr) => pay_invoice_pr_of(text@) == Some(pr@),
            Err(ResolveError::NetworkResolutionFailed { stage, .. }) => stage
                == ResolveStage::InvoiceRequest && pay_invoice_pr_of(text@) is None,
            Err(_) => false,
        },
{
    match parse_pay_invoice(text) {
        Ok(pr) => Ok(pr),
        Err(cause) => Err(ResolveError::NetworkResolutionFailed {
            stage: ResolveStage::InvoiceRequest,
            cause,
        }),
    }
}

} // verus!
