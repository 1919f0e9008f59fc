//! The decoded payload of a static offer, modeled as plain values, and the
//! trusted boundary to the BOLT 12 protocol decoder.

use vstd::prelude::*;

use core::str::FromStr;
use lightning::blinded_path::Direction;
use lightning::blinded_path::IntroductionNode as LdkIntroduction;
use lightning::offers::offer::Offer;

use crate::text::{
    decimal_of, extend_chars, hex_of, bytes_to_hex, chars_of, string_of_chars, u64_dec_chars,
    u64_to_decimal,
};

verus! {

/// An offer's amount as the protocol encodes it: millisatoshis, or a unit
/// count in an ISO 4217 currency named by a three-byte code.
#[derive(Clone, Debug)]
pub enum OfferAmount {
    Bitcoin { amount_msats: u64 },
    Currency { iso4217_code: Vec<u8>, amount: u64 },
}

/// How many items an offer supports per payment.
#[derive(Clone, Copy, Debug, PartialEq, Eq, Structural)]
pub enum RawQuantity {
    One,
    Unbounded,
    Bounded(u64),
}

/// Which end of the named channel is the introduction node.
#[derive(Clone, Copy, Debug, PartialEq, Eq, Structural)]
pub enum ChannelEnd {
    Left,
    Right,
}

/// A blinded path's entry point, in protocol form: a node key (serialized),
/// or one end of a short channel.
#[derive(Clone, Debug)]
pub enum RawIntroduction {
    NodeId(Vec<u8>),
    Channel(ChannelEnd, u64),
}

/// One blinded hop in protocol form.
#[derive(Clone, Debug)]
pub struct RawBlindedHop {
    pub node_id: Vec<u8>,
    pub encrypted_payload: Vec<u8>,
}

/// One blinded path in protocol form.
#[derive(Clone, Debug)]
pub struct RawBlindedPath {
    pub introduction: RawIntroduction,
    pub blinding_point: Vec<u8>,
    pub hops: Vec<RawBlindedHop>,
}

/// Everything the investigation reads from a parsed offer, as plain values.
#[derive(Clone, Debug)]
pub struct OfferParts {
    pub id: Vec<u8>,
    pub chains: Vec<Vec<u8>>,
    pub amount: Option<OfferAmount>,
    pub quantity: RawQuantity,
    pub description: Option<String>,
    pub issuer: Option<String>,
    pub absolute_expiry_secs: Option<u64>,
    pub metadata: Option<Vec<u8>>,
    pub signing_pubkey: Option<Vec<u8>>,
    pub paths: Vec<RawBlindedPath>,
}

/// Whether a BOLT 12 offer string parses. The outcome is a fixed function of
/// the text, as is every field read below: each is named as an uninterpreted
/// function of the text and applied by the wrapper that reads it. Each
/// wrapper therefore parses the text itself: an opaque parsed value could not
/// be tied back to the text it came from.
pub uninterp spec fn offer_valid(s: Seq<char>) -> bool;

/// The mathematical content of an [`OfferAmount`].
pub enum OfferAmountView {
    Bitcoin { amount_msats: u64 },
    Currency { iso4217_code: Seq<u8>, amount: u64 },
}

impl View for OfferAmount {
    type V = OfferAmountView;

    open spec fn view(&self) -> OfferAmountView {
        match self {
            OfferAmount::Bitcoin { amount_msats } => OfferAmountView::Bitcoin {
                amount_msats: *amount_msats,
            },
            OfferAmount::Currency { iso4217_code, amount } => OfferAmountView::Currency {
                iso4217_code: iso4217_code@,
                amount: *amount,
            },
        }
    }
}

impl DeepView for OfferAmount {
    type V = OfferAmountView;

    open spec fn deep_view(&self) -> OfferAmountView {
        self.view()
    }
}

/// The mathematical content of a [`RawIntroduction`].
pub enum RawIntroductionView {
    NodeId(Seq<u8>),
    Channel(ChannelEnd, u64),
}

impl View for RawIntroduction {
    type V = RawIntroductionView;

    open spec fn view(&self) -> RawIntroductionView {
        match self {
            RawIntroduction::NodeId(key) => RawIntroductionView::NodeId(key@),
            RawIntroduction::Channel(end, scid) => RawIntroductionView::Channel(*end, *scid),
        }
    }
}

/// The mathematical content of a [`RawBlindedHop`].
pub struct RawBlindedHopView {
    pub node_id: Seq<u8>,
    pub encrypted_payload: Seq<u8>,
}

impl View for RawBlindedHop {
    type V = RawBlindedHopView;

    open spec fn view(&self) -> RawBlindedHopView {
        RawBlindedHopView {
            node_id: self.node_id@,
            encrypted_payload: self.encrypted_payload@,
        }
    }
}

impl DeepView for RawBlindedHop {
    type V = RawBlindedHopView;

    open spec fn deep_view(&self) -> RawBlindedHopView {
        self.view()
    }
}

/// The mathematical content of a [`RawBlindedPath`].
pub struct RawBlindedPathView {
    pub introduction: RawIntroductionView,
    pub blinding_point: Seq<u8>,
    pub hops: Seq<RawBlindedHopView>,
}

impl View for RawBlindedPath {
    type V = RawBlindedPathView;

    open spec fn view(&self) -> RawBlindedPathView {
        RawBlindedPathView {
            introduction: self.introduction@,
            blinding_point: self.blinding_point@,
            hops: self.hops.deep_view(),
        }
    }
}

impl DeepView for RawBlindedPath {
    type V = RawBlindedPathView;

    open spec fn deep_view(&self) -> RawBlindedPathView {
        self.view()
    }
}

/// The mathematical content of an [`OfferParts`].
pub struct OfferPartsView {
    pub id: Seq<u8>,
    pub chains: Seq<Seq<u8>>,
    pub amount: Option<OfferAmountView>,
    pub quantity: RawQuantity,
    pub description: Option<Seq<char>>,
    pub issuer: Option<Seq<char>>,
    pub absolute_expiry_secs: Option<u64>,
    pub metadata: Option<Seq<u8>>,
    pub signing_pubkey: Option<Seq<u8>>,
    pub paths: Seq<RawBlindedPathView>,
}

impl View for OfferParts {
    type V = OfferPartsView;

    open spec fn view(&self) -> OfferPartsView {
        OfferPartsView {
            id: self.id@,
            chains: self.chains.deep_view(),
            amount: self.amount.deep_view(),
            quantity: self.quantity,
            description: self.description.deep_view(),
            issuer: self.issuer.deep_view(),
            absolute_expiry_secs: self.absolute_expiry_secs,
            metadata: self.metadata.deep_view(),
            signing_pubkey: self.signing_pubkey.deep_view(),
            paths: self.paths.deep_view(),
        }
    }
}

/// The 32-byte identifier of a well-formed offer.
pub uninterp spec fn offer_id_of(s: Seq<char>) -> Seq<u8>;

/// The chain hashes a well-formed offer is valid for.
pub uninterp spec fn offer_chains_of(s: Seq<char>) -> Seq<Seq<u8>>;

/// The amount of a well-formed offer, when it names one.
pub uninterp spec fn offer_amount_of(s: Seq<char>) -> Option<OfferAmountView>;

/// The supported quantity of a well-formed offer.
pub uninterp spec fn offer_quantity_of(s: Seq<char>) -> RawQuantity;

/// The description of a well-formed offer, when it carries one.
pub uninterp spec fn offer_description_of(s: Seq<char>) -> Option<Seq<char>>;

/// The issuer of a well-formed offer, when it carries one.
pub uninterp spec fn offer_issuer_of(s: Seq<char>) -> Option<Seq<char>>;

/// The expiry of a well-formed offer as seconds since the epoch, when set.
pub uninterp spec fn offer_expiry_of(s: Seq<char>) -> Option<u64>;

/// The issuer metadata of a well-formed offer, when present.
pub uninterp spec fn offer_metadata_of(s: Seq<char>) -> Option<Seq<u8>>;

/// The signing key of a well-formed offer, compressed-serialized, when the
/// offer carries one.
pub uninterp spec fn offer_signing_pubkey_of(s: Seq<char>) -> Option<Seq<u8>>;

/// How many blinded paths a well-formed offer carries.
pub uninterp spec fn offer_paths_len_of(s: Seq<char>) -> nat;

/// The entry point of a well-formed offer's path `i`.
pub uninterp spec fn offer_path_intro_of(s: Seq<char>, i: int) -> RawIntroductionView;

/// The blinding point of a well-formed offer's path `i`.
pub uninterp spec fn offer_path_blinding_of(s: Seq<char>, i: int) -> Seq<u8>;

/// The blinded hops of a well-formed offer's path `i`.
pub uninterp spec fn offer_path_hops_of(s: Seq<char>, i: int) -> Seq<RawBlindedHopView>;

/// What the ISO 4217 registry says of a currency code: its canonical code
/// and, when defined, its exponent. A fixed lookup table.
pub uninterp spec fn currency_info_of(code: Seq<char>) -> Option<(Seq<char>, Option<u16>)>;

/// The blinded paths of a well-formed offer, in order.
pub open spec fn offer_paths_of(s: Seq<char>) -> Seq<RawBlindedPathView> {
    Seq::new(
        offer_paths_len_of(s),
        |i: int|
            RawBlindedPathView {
                introduction: offer_path_intro_of(s, i),
                blinding_point: offer_path_blinding_of(s, i),
                hops: offer_path_hops_of(s, i),
            },
    )
}

/// Everything the BOLT 12 decoder reads out of well-formed offer text.
pub open spec fn offer_parts_of(s: Seq<char>) -> OfferPartsView {
    OfferPartsView {
        id: offer_id_of(s),
        chains: offer_chains_of(s),
        amount: offer_amount_of(s),
        quantity: offer_quantity_of(s),
        description: offer_description_of(s),
        issuer: offer_issuer_of(s),
        absolute_expiry_secs: offer_expiry_of(s),
        metadata: offer_metadata_of(s),
        signing_pubkey: offer_signing_pubkey_of(s),
        paths: offer_paths_of(s),
    }
}

/// Relies on Offer::from_str: parsing succeeds exactly on well-formed BOLT 12
/// offer text; the error describes the defect.
#[verifier::external_body]
pub(crate) fn offer_check(s: &str) -> (r: Result<(), String>)
    ensures
        (r is Ok) == offer_valid(s@),
{
    match Offer::from_str(s) {
        Ok(_) => Ok(()),
        Err(e) => Err(format!("{e:?}")),
    }
}

/// Relies on iso_currency::Currency::{from_code, code, exponent}: the
/// registry entry for a currency code, when there is one.
#[verifier::external_body]
fn currency_info(code: &str) -> (r: Option<(String, Option<u16>)>)
    ensures
        match r {
            Some(p) => currency_info_of(code@) == Some((p.0@, p.1)),
            None => currency_info_of(code@) is None,
        },
{
    iso_currency::Currency::from_code(code).map(|c| (c.code().to_string(), c.exponent()))
}

/// Relies on Offer::{from_str, id}: the offer's 32-byte identifier. Callable
/// only on text that parses.
#[verifier::external_body]
fn offer_id(s: &str) -> (r: Vec<u8>)
    requires
        offer_valid(s@),
    ensures
        r@ == offer_id_of(s@),
{
    Offer::from_str(s).unwrap().id().0.to_vec()
}

/// Relies on Offer::{from_str, chains}: the chain hashes the offer is valid
/// for. Callable only on text that parses.
#[verifier::external_body]
fn offer_chains(s: &str) -> (r: Vec<Vec<u8>>)
    requires
        offer_valid(s@),
    ensures
        r.deep_view() == offer_chains_of(s@),
{
    Offer::from_str(s).unwrap().chains().iter().map(|c| c.to_bytes().to_vec()).collect()
}

/// Relies on Offer::{from_str, amount}: the offered amount, one variant
/// each. Callable only on text that parses.
#[verifier::external_body]
fn offer_amount(s: &str) -> (r: Option<OfferAmount>)
    requires
        offer_valid(s@),
    ensures
        r.deep_view() == offer_amount_of(s@),
{
    Offer::from_str(s).unwrap().amount().map(|a| match a {
        lightning::offers::offer::Amount::Bitcoin { amount_msats } => OfferAmount::Bitcoin {
            amount_msats,
        },
        lightning::offers::offer::Amount::Currency { iso4217_code, amount } => {
            OfferAmount::Currency { iso4217_code: iso4217_code.as_bytes().to_vec(), amount }
        },
    })
}

/// Relies on Offer::{from_str, supported_quantity}, one variant each.
/// Callable only on text that parses.
#[verifier::external_body]
fn offer_quantity(s: &str) -> (r: RawQuantity)
    requires
        offer_valid(s@),
    ensures
        r == offer_quantity_of(s@),
{
    match Offer::from_str(s).unwrap().supported_quantity() {
        lightning::offers::offer::Quantity::One => RawQuantity::One,
        lightning::offers::offer::Quantity::Unbounded => RawQuantity::Unbounded,
        lightning::offers::offer::Quantity::Bounded(n) => RawQuantity::Bounded(n.get()),
    }
}

/// Relies on Offer::{from_str, description}: the description text, when
/// present. Callable only on text that parses.
#[verifier::external_body]
fn offer_description(s: &str) -> (r: Option<String>)
    requires
        offer_valid(s@),
    ensures
        r.deep_view() == offer_description_of(s@),
{
    Offer::from_str(s).unwrap().description().map(|d| format!("{d}"))
}

/// Relies on Offer::{from_str, issuer}: the issuer text, when present.
/// Callable only on text that parses.
#[verifier::external_body]
fn offer_issuer(s: &str) -> (r: Option<String>)
    requires
        offer_valid(s@),
    ensures
        r.deep_view() == offer_issuer_of(s@),
{
    Offer::from_str(s).unwrap().issuer().map(|d| format!("{d}"))
}

/// Relies on Offer::{from_str, absolute_expiry}: the expiry as seconds since
/// the epoch. Callable only on text that parses.
#[verifier::external_body]
fn offer_expiry_secs(s: &str) -> (r: Option<u64>)
    requires
        offer_valid(s@),
    ensures
        r == offer_expiry_of(s@),
{
    Offer::from_str(s).unwrap().absolute_expiry().map(|d| d.as_secs())
}

/// Relies on Offer::{from_str, metadata}: the issuer's metadata bytes, when
/// present. Callable only on text that parses.
#[verifier::external_body]
fn offer_metadata(s: &str) -> (r: Option<Vec<u8>>)
    requires
        offer_valid(s@),
    ensures
        r.deep_view() == offer_metadata_of(s@),
{
    Offer::from_str(s).unwrap().metadata().cloned()
}

/// Relies on Offer::{from_str, issuer_signing_pubkey}: the offer's signing
/// key, compressed-serialized (33 bytes), when the offer carries one.
/// Callable only on text that parses.
#[verifier::external_body]
fn offer_signing_pubkey(s: &str) -> (r: Option<Vec<u8>>)
    requires
        offer_valid(s@),
    ensures
        r.deep_view() == offer_signing_pubkey_of(s@),
        r matches Some(k) ==> k@.len() == 33,
{
    Offer::from_str(s).unwrap().issuer_signing_pubkey().map(|k| k.serialize().to_vec())
}

/// Relies on Offer::{from_str, paths}: how many blinded paths the offer
/// carries. Callable only on text that parses.
#[verifier::external_body]
fn offer_paths_len(s: &str) -> (r: usize)
    requires
        offer_valid(s@),
    ensures
        r as nat == offer_paths_len_of(s@),
{
    Offer::from_str(s).unwrap().paths().len()
}

/// Relies on Offer::{from_str, paths} and
/// BlindedMessagePath::introduction_node, one variant each; node keys
/// compressed-serialized (33 bytes). Callable only on text that parses and
/// an index below the path count.
#[verifier::external_body]
fn offer_path_intro(s: &str, i: usize) -> (r: RawIntroduction)
    requires
        offer_valid(s@),
        (i as nat) < offer_paths_len_of(s@),
    ensures
        r@ == offer_path_intro_of(s@, i as int),
        r matches RawIntroduction::NodeId(k) ==> k@.len() == 33,
{
    match Offer::from_str(s).unwrap().paths()[i].introduction_node() {
        LdkIntroduction::NodeId(key) => RawIntroduction::NodeId(key.serialize().to_vec()),
        LdkIntroduction::DirectedShortChannelId(Direction::NodeOne, scid) => {
            RawIntroduction::Channel(ChannelEnd::Left, *scid)
        },
        LdkIntroduction::DirectedShortChannelId(Direction::NodeTwo, scid) => {
            RawIntroduction::Channel(ChannelEnd::Right, *scid)
        },
    }
}

/// Relies on Offer::{from_str, paths} and
/// BlindedMessagePath::blinding_point, compressed-serialized. Callable only
/// on text that parses and an index below the path count.
#[verifier::external_body]
fn offer_path_blinding(s: &str, i: usize) -> (r: Vec<u8>)
    requires
        offer_valid(s@),
        (i as nat) < offer_paths_len_of(s@),
    ensures
        r@ == offer_path_blinding_of(s@, i as int),
        r@.len() == 33,
{
    Offer::from_str(s).unwrap().paths()[i].blinding_point().serialize().to_vec()
}

/// Relies on Offer::{from_str, paths} and BlindedMessagePath::blinded_hops:
/// each hop's blinded node key (compressed-serialized) and encrypted
/// payload, in order. Callable only on text that parses and an index below
/// the path count.
#[verifier::external_body]
fn offer_path_hops(s: &str, i: usize) -> (r: Vec<RawBlindedHop>)
    requires
        offer_valid(s@),
        (i as nat) < offer_paths_len_of(s@),
    ensures
        r.deep_view() == offer_path_hops_of(s@, i as int),
{
    Offer::from_str(s).unwrap().paths()[i]
        .blinded_hops()
        .iter()
        .map(|hop| RawBlindedHop {
            node_id: hop.blinded_node_id.serialize().to_vec(),
            encrypted_payload: hop.encrypted_payload.clone(),
        })
        .collect()
}

/// Extracts everything the investigation reads from well-formed offer text.
pub(crate) fn offer_parts(s: &str) -> (r: OfferParts)
    requires
        offer_valid(s@),
    ensures
        r@ == offer_parts_of(s@),
        r.signing_pubkey matches Some(k) ==> k@.len() == 33,
        forall|i: int| 0 <= i < r.paths@.len() ==> match (#[trigger] r.paths@[i]).introduction {
            RawIntroduction::NodeId(k) => k@.len() == 33,
            RawIntroduction::Channel(..) => true,
        },
{
    let n = offer_paths_len(s);
    let mut paths: Vec<RawBlindedPath> = Vec::new();
    let mut i: usize = 0;
    while i < n
        invariant
            offer_valid(s@),
            n as nat == offer_paths_len_of(s@),
            i <= n,
            paths@.len() == i,
            forall|k: int| 0 <= k < i ==> (#[trigger] paths@[k])@ == offer_paths_of(s@)[k],
            forall|k: int| 0 <= k < i ==> match (#[trigger] paths@[k]).introduction {
                RawIntroduction::NodeId(key) => key@.len() == 33,
                RawIntroduction::Channel(..) => true,
            },
        decreases n - i,
    {
        let path = RawBlindedPath {
            introduction: offer_path_intro(s, i),
            blinding_point: offer_path_blinding(s, i),
            hops: offer_path_hops(s, i),
        };
        proof {
            assert(path@ == offer_paths_of(s@)[i as int]);
        }
        paths.push(path);
        i += 1;
    }
    let r = OfferParts {
        id: offer_id(s),
        chains: offer_chains(s),
        amount: offer_amount(s),
        quantity: offer_quantity(s),
        description: offer_description(s),
        issuer: offer_issuer(s),
        absolute_expiry_secs: offer_expiry_secs(s),
        metadata: offer_metadata(s),
        signing_pubkey: offer_signing_pubkey(s),
        paths,
    };
    proof {
        assert(r.paths.deep_view() =~= offer_paths_of(s@));
        assert(r@ =~= offer_parts_of(s@));
    }
    r
}


/// An offer amount ready for display: the unit count, the currency code, and
/// the ISO 4217 exponent placing the decimal point.
#[derive(Debug)]
pub struct Amount {
    amount: u64,
    iso4217_code: String,
    exponent: u16,
}

/// A run of `n` zero characters.
pub open spec fn zeros(n: nat) -> Seq<char> {
    Seq::new(n, |i: int| '0')
}

/// Whether every byte is ASCII.
pub open spec fn all_ascii(bytes: Seq<u8>) -> bool {
    forall|i: int| 0 <= i < bytes.len() ==> bytes[i] < 128
}

/// ASCII bytes read as characters.
pub open spec fn ascii_chars(bytes: Seq<u8>) -> Seq<char> {
    bytes.map_values(|b: u8| b as char)
}

/// The three fields of [`Amount`], derived from the protocol amount:
/// millisatoshi amounts count satoshis with exponent three; currency amounts
/// use the registry's code and exponent when the code is known, and fall back
/// to the code bytes rendered in hex with exponent zero.
pub open spec fn spec_amount_fields(a: OfferAmount) -> (u64, Seq<char>, u16) {
    match a {
        OfferAmount::Bitcoin { amount_msats } => (amount_msats, seq!['S', 'A', 'T'], 3u16),
        OfferAmount::Currency { iso4217_code, amount } => {
            if all_ascii(iso4217_code@) {
                match currency_info_of(ascii_chars(iso4217_code@)) {
                    Some(info) => (
                        amount,
                        info.0,
                        match info.1 {
                            Some(e) => e,
                            None => 0u16,
                        },
                    ),
                    None => (amount, hex_of(iso4217_code@), 0u16),
                }
            } else {
                (amount, hex_of(iso4217_code@), 0u16)
            }
        },
    }
}

impl Amount {
    /// The unit count.
    pub closed spec fn spec_amount(&self) -> u64 {
        self.amount
    }

    /// The currency code text.
    pub closed spec fn spec_code(&self) -> Seq<char> {
        self.iso4217_code@
    }

    /// The exponent.
    pub closed spec fn spec_exponent(&self) -> u16 {
        self.exponent
    }

    /// Derives the display amount from a protocol amount: a known ISO 4217
    /// code keeps its registry form, an unknown or non-textual one is shown
    /// as hex with no decimal point.
    pub fn from(a: OfferAmount) -> (r: Amount)
        ensures
            (r.spec_amount(), r.spec_code(), r.spec_exponent()) == spec_amount_fields(a),
    {
        match a {
            OfferAmount::Bitcoin { amount_msats } => Amount {
                amount: amount_msats,
                iso4217_code: {
                    let mut v: Vec<char> = Vec::new();
                    v.push('S');
                    v.push('A');
                    v.push('T');
                    proof {
                        assert(v@ =~= seq!['S', 'A', 'T']);
                    }
                    string_of_chars(&v)
                },
                exponent: 3,
            },
            OfferAmount::Currency { iso4217_code, amount } => {
                let mut ascii = true;
                let n = iso4217_code.len();
                let mut i: usize = 0;
                let mut code_chars: Vec<char> = Vec::new();
                while i < n
                    invariant
                        n == iso4217_code@.len(),
                        i <= n,
                        code_chars@ =~= ascii_chars(iso4217_code@.take(i as int)),
                        ascii == all_ascii(iso4217_code@.take(i as int)),
                    decreases n - i,
                {
                    let b = iso4217_code[i];
                    if b >= 128 {
                        ascii = false;
                    }
                    let ghost prev = iso4217_code@.take(i as int);
                    let ghost was_ascii = ascii;
                    code_chars.push(b as char);
                    i += 1;
                    proof {
                        assert(code_chars@ =~= ascii_chars(iso4217_code@.take(i as int)));
                        let t = iso4217_code@.take(i as int);
                        assert(t.drop_last() =~= prev);
                        assert(t[t.len() - 1] == b);
                        if b >= 128 {
                            assert(!all_ascii(t));
                        } else if !was_ascii {
                            let k = choose|k: int| 0 <= k < prev.len() && prev[k] >= 128;
                            assert(t[k] >= 128);
                            assert(!all_ascii(t));
                        } else {
                            assert forall|k: int| 0 <= k < t.len() implies t[k] < 128 by {
                                if k < t.len() - 1 {
                                    assert(t[k] == prev[k]);
                                }
                            }
                        }
                    }
                }
                proof {
                    assert(iso4217_code@.take(n as int) =~= iso4217_code@);
                }
                if ascii {
                    let code = string_of_chars(&code_chars);
                    match currency_info(code.as_str()) {
                        Some((canonical, exponent_or)) => {
                            let exponent = match exponent_or {
                                Some(e) => e,
                                None => 0,
                            };
                            return Amount { amount, iso4217_code: canonical, exponent };
                        },
                        None => {
                            return Amount {
                                amount,
                                iso4217_code: bytes_to_hex(&iso4217_code),
                                exponent: 0,
                            };
                        },
                    }
                }
                Amount { amount, iso4217_code: bytes_to_hex(&iso4217_code), exponent: 0 }
            },
        }
    }

    /// Renders the amount: the decimal point placed `exponent` digits from
    /// the right, an all-zero fraction dropped, and the code appended.
    pub fn to_display_string(&self) -> (r: String)
        ensures
            r@ == spec_amount_display(self.spec_amount(), self.spec_code(), self.spec_exponent()),
    {
        let digits = u64_dec_chars(self.amount);
        let e = self.exponent as usize;
        let mut out: Vec<char> = Vec::new();
        if e == 0 {
            extend_chars(&mut out, &digits);
        } else if digits.len() <= e {
            out.push('0');
            out.push('.');
            let pad = e - digits.len();
            let mut z: usize = 0;
            while z < pad
                invariant
                    out@ =~= seq!['0', '.'] + zeros(z as nat),
                    z <= pad,
                decreases pad - z,
            {
                out.push('0');
                z += 1;
                proof {
                    assert(out@ =~= seq!['0', '.'] + zeros(z as nat));
                }
            }
            extend_chars(&mut out, &digits);
        } else {
            let il = digits.len() - e;
            let mut nonzero = false;
            let mut j: usize = il;
            while j < digits.len()
                invariant
                    il <= j <= digits@.len(),
                    nonzero == exists|k: int| il <= k < j && digits@[k] != '0',
                decreases digits@.len() - j,
            {
                if digits[j] != '0' {
                    nonzero = true;
                }
                j += 1;
            }
            proof {
                let frac = digits@.skip(il as int);
                if nonzero {
                    let k = choose|k: int| il <= k < digits@.len() && digits@[k] != '0';
                    assert(frac[k - il] != '0');
                }
                if exists|k: int| 0 <= k < frac.len() && frac[k] != '0' {
                    let k = choose|k: int| 0 <= k < frac.len() && frac[k] != '0';
                    assert(digits@[k + il] != '0');
                }
                assert(nonzero == exists|k: int| 0 <= k < frac.len() && frac[k] != '0');
            }
            let mut i: usize = 0;
            while i < il
                invariant
                    i <= il <= digits@.len(),
                    out@ =~= digits@.take(i as int),
                decreases il - i,
            {
                out.push(digits[i]);
                i += 1;
                proof {
                    assert(out@ =~= digits@.take(i as int));
                }
            }
            if nonzero {
                out.push('.');
                let mut k: usize = il;
                while k < digits.len()
                    invariant
                        il <= k <= digits@.len(),
                        out@ =~= digits@.take(il as int) + seq!['.'] + digits@.subrange(
                            il as int,
                            k as int,
                        ),
                    decreases digits@.len() - k,
                {
                    out.push(digits[k]);
                    k += 1;
                    proof {
                        assert(out@ =~= digits@.take(il as int) + seq!['.'] + digits@.subrange(
                            il as int,
                            k as int,
                        ));
                    }
                }
                proof {
                    assert(digits@.subrange(il as int, digits@.len() as int) =~= digits@.skip(
                        il as int,
                    ));
                }
            }
        }
        out.push(' ');
        let code = chars_of(self.iso4217_code.as_str());
        extend_chars(&mut out, &code);
        let r = string_of_chars(&out);
        proof {
            assert(r@ =~= spec_amount_display(
                self.spec_amount(),
                self.spec_code(),
                self.spec_exponent(),
            ));
        }
        r
    }
}

/// A short channel identifier split into its three coordinates.
#[derive(Debug, PartialEq, Eq, Structural)]
pub struct ShortChannelId {
    pub block_height: u32,
    pub transaction_index: u32,
    pub output_index: u16,
}

/// The coordinates packed into a short channel identifier: the block height
/// in the top 24 bits, the transaction index in the middle 24, the output
/// index in the bottom 16.
pub open spec fn spec_scid_split(scid: u64) -> ShortChannelId {
    ShortChannelId {
        block_height: (scid >> 40) as u32,
        transaction_index: ((scid >> 16) & 0xffffff) as u32,
        output_index: (scid & 0xffff) as u16,
    }
}

impl From<u64> for ShortChannelId {
    fn from(scid: u64) -> (r: Self) {
        proof {
            assert((scid >> 40) <= 0xffffff && ((scid >> 16) & 0xffffff) <= 0xffffff && (scid
                & 0xffff) <= 0xffff) by (bit_vector);
        }
        ShortChannelId {
            block_height: (scid >> 40) as u32,
            transaction_index: ((scid >> 16) & 0xffffff) as u32,
            output_index: (scid & 0xffff) as u16,
        }
    }
}

impl vstd::std_specs::convert::FromSpecImpl<u64> for ShortChannelId {
    open spec fn obeys_from_spec() -> bool {
        true
    }

    open spec fn from_spec(scid: u64) -> Self {
        spec_scid_split(scid)
    }
}

/// The rendering [`ShortChannelId::to_display_string`] produces:
/// `block x transaction x output`.
pub open spec fn spec_scid_display(c: ShortChannelId) -> Seq<char> {
    decimal_of(c.block_height as nat) + seq!['x'] + decimal_of(c.transaction_index as nat)
        + seq!['x'] + decimal_of(c.output_index as nat)
}

impl ShortChannelId {
    /// Renders the three coordinates separated by `x`.
    pub fn to_display_string(&self) -> (r: String)
        ensures
            r@ == spec_scid_display(*self),
    {
        let mut out: Vec<char> = Vec::new();
        let block = u64_dec_chars(self.block_height as u64);
        let tx = u64_dec_chars(self.transaction_index as u64);
        let vout = u64_dec_chars(self.output_index as u64);
        extend_chars(&mut out, &block);
        out.push('x');
        extend_chars(&mut out, &tx);
        out.push('x');
        extend_chars(&mut out, &vout);
        let r = string_of_chars(&out);
        proof {
            assert(r@ =~= spec_scid_display(*self));
        }
        r
    }
}

/// A blinded path's entry point, ready for display.
#[derive(Debug)]
pub enum IntroductionNode {
    /// A node named by its public key, in hex.
    NodeId(String),
    /// The lesser-keyed end of the channel.
    LeftEnd(ShortChannelId),
    /// The greater-keyed end of the channel.
    RightEnd(ShortChannelId),
}

/// The display entry point presents the protocol one: keys in hex, channel
/// ends with the identifier split into coordinates.
pub open spec fn intro_shown(raw: RawIntroduction, n: IntroductionNode) -> bool {
    match raw {
        RawIntroduction::NodeId(k) => n matches IntroductionNode::NodeId(s) && s@ == hex_of(k@),
        RawIntroduction::Channel(ChannelEnd::Left, scid) => n matches IntroductionNode::LeftEnd(c)
            && c == spec_scid_split(scid),
        RawIntroduction::Channel(ChannelEnd::Right, scid) => n matches IntroductionNode::RightEnd(
            c,
        ) && c == spec_scid_split(scid),
    }
}

impl IntroductionNode {
    /// Derives the display entry point from the protocol one.
    pub fn from(raw: &RawIntroduction) -> (r: Self)
        ensures
            intro_shown(*raw, r),
    {
        match raw {
            RawIntroduction::NodeId(k) => IntroductionNode::NodeId(bytes_to_hex(k)),
            RawIntroduction::Channel(ChannelEnd::Left, scid) => IntroductionNode::LeftEnd(
                ShortChannelId::from(*scid),
            ),
            RawIntroduction::Channel(ChannelEnd::Right, scid) => IntroductionNode::RightEnd(
                ShortChannelId::from(*scid),
            ),
        }
    }
}

/// One blinded hop, ready for display: both fields in hex.
#[derive(Debug)]
pub struct BlindedHop {
    pub node_id: String,
    pub encrypted_payload: String,
}

impl BlindedHop {
    /// Renders a protocol hop for display.
    pub fn from(raw: &RawBlindedHop) -> (r: Self)
        ensures
            r.node_id@ == hex_of(raw.node_id@),
            r.encrypted_payload@ == hex_of(raw.encrypted_payload@),
    {
        BlindedHop {
            node_id: bytes_to_hex(&raw.node_id),
            encrypted_payload: bytes_to_hex(&raw.encrypted_payload),
        }
    }
}

/// One blinded path, ready for display.
#[derive(Debug)]
pub struct BlindedPath {
    pub introduction_node: IntroductionNode,
    pub blinding_point: String,
    pub hops: Vec<BlindedHop>,
}

/// The display path presents the protocol one, hop by hop.
pub open spec fn path_shown(raw: RawBlindedPath, p: BlindedPath) -> bool {
    &&& intro_shown(raw.introduction, p.introduction_node)
    &&& p.blinding_point@ == hex_of(raw.blinding_point@)
    &&& p.hops@.len() == raw.hops@.len()
    &&& forall|i: int| 0 <= i < raw.hops@.len() ==> (#[trigger] p.hops@[i]).node_id@ == hex_of(
        raw.hops@[i].node_id@,
    ) && p.hops@[i].encrypted_payload@ == hex_of(raw.hops@[i].encrypted_payload@)
}

impl BlindedPath {
    /// Renders a protocol path for display.
    pub fn from(raw: &RawBlindedPath) -> (r: Self)
        ensures
            path_shown(*raw, r),
    {
        let mut hops: Vec<BlindedHop> = Vec::new();
        let n = raw.hops.len();
        let mut i: usize = 0;
        while i < n
            invariant
                n == raw.hops@.len(),
                i <= n,
                hops@.len() == i,
                forall|k: int| 0 <= k < i ==> (#[trigger] hops@[k]).node_id@ == hex_of(
                    raw.hops@[k].node_id@,
                ) && hops@[k].encrypted_payload@ == hex_of(raw.hops@[k].encrypted_payload@),
            decreases n - i,
        {
            hops.push(BlindedHop::from(&raw.hops[i]));
            i += 1;
        }
        BlindedPath {
            introduction_node: IntroductionNode::from(&raw.introduction),
            blinding_point: bytes_to_hex(&raw.blinding_point),
            hops,
        }
    }
}

/// The quantity text: `Any`, `One`, or a bound.
pub open spec fn spec_quantity_text(q: RawQuantity) -> Seq<char> {
    match q {
        RawQuantity::Unbounded => "Any"@,
        RawQuantity::One => "One"@,
        RawQuantity::Bounded(n) => "No more than "@ + decimal_of(n as nat),
    }
}

/// Everything an offer shows a human, derived from the protocol payload.
#[derive(Debug)]
pub struct OfferDetails {
    /// The offer identifier, in hex.
    pub id: String,
    /// The raw chain hashes the offer is valid for; naming the networks they
    /// belong to is the presentation layer's concern.
    pub chains: Vec<Vec<u8>>,
    pub amount: Option<Amount>,
    pub supported_quantity: String,
    pub description: Option<String>,
    pub issuer: Option<String>,
    /// Expiry as seconds since the epoch; calendar rendering is the
    /// presentation layer's concern.
    pub expires_at_secs: Option<u64>,
    /// The issuer metadata, in hex.
    pub metadata: Option<String>,
    /// The signing key, in hex.
    pub signing_pubkey: Option<String>,
    pub paths: Vec<BlindedPath>,
}

impl OfferDetails {
    /// Assembles the display form of an offer from its protocol payload.
    pub fn from(parts: OfferParts) -> (r: OfferDetails)
        ensures
            r.id@ == hex_of(parts.id@),
            r.chains == parts.chains,
            match parts.amount {
                Some(a) => r.amount matches Some(am) && (
                    am.spec_amount(),
                    am.spec_code(),
                    am.spec_exponent(),
                ) == spec_amount_fields(a),
                None => r.amount is None,
            },
            r.supported_quantity@ == spec_quantity_text(parts.quantity),
            r.description == parts.description,
            r.issuer == parts.issuer,
            r.expires_at_secs == parts.absolute_expiry_secs,
            match parts.metadata {
                Some(m) => r.metadata matches Some(s) && s@ == hex_of(m@),
                None => r.metadata is None,
            },
            match parts.signing_pubkey {
                Some(k) => r.signing_pubkey matches Some(s) && s@ == hex_of(k@),
                None => r.signing_pubkey is None,
            },
            r.paths@.len() == parts.paths@.len(),
            forall|i: int| 0 <= i < parts.paths@.len() ==> path_shown(
                parts.paths@[i],
                #[trigger] r.paths@[i],
            ),
    {
        let supported_quantity = match parts.quantity {
            RawQuantity::Unbounded => "Any".to_owned(),
            RawQuantity::One => "One".to_owned(),
            RawQuantity::Bounded(n) => "No more than ".to_owned().concat(
                u64_to_decimal(n).as_str(),
            ),
        };
        let amount = match parts.amount {
            Some(a) => Some(Amount::from(a)),
            None => None,
        };
        let metadata = match &parts.metadata {
            Some(m) => Some(bytes_to_hex(m)),
            None => None,
        };
        let signing_pubkey = match &parts.signing_pubkey {
            Some(k) => Some(bytes_to_hex(k)),
            None => None,
        };
        let mut paths: Vec<BlindedPath> = Vec::new();
        let n = parts.paths.len();
        let mut i: usize = 0;
        while i < n
            invariant
                n == parts.paths@.len(),
                i <= n,
                paths@.len() == i,
                forall|k: int| 0 <= k < i ==> path_shown(parts.paths@[k], #[trigger] paths@[k]),
            decreases n - i,
        {
            paths.push(BlindedPath::from(&parts.paths[i]));
            i += 1;
        }
        OfferDetails {
            id: bytes_to_hex(&parts.id),
            chains: parts.chains,
            amount,
            supported_quantity,
            description: parts.description,
            issuer: parts.issuer,
            expires_at_secs: parts.absolute_expiry_secs,
            metadata,
            signing_pubkey,
            paths,
        }
    }
}

/// The rendering [`Amount::to_display_string`] produces.
pub open spec fn spec_amount_display(amount: u64, code: Seq<char>, exponent: u16) -> Seq<char> {
    let digits = decimal_of(amount as nat);
    let body = if exponent == 0 {
        digits
    } else if digits.len() <= exponent {
        seq!['0', '.'] + zeros((exponent - digits.len()) as nat) + digits
    } else {
        let il = digits.len() - exponent;
        let frac = digits.skip(il as int);
        if exists|k: int| 0 <= k < frac.len() && frac[k] != '0' {
            digits.take(il as int) + seq!['.'] + frac
        } else {
            digits.take(il as int)
        }
    };
    body + seq![' '] + code
}

} // verus!
