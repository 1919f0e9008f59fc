//! The format decoder: normalizes heterogeneous input text and classifies it
//! into one of the recognized payment-request encodings, delegating each
//! payload's internal structure to the established protocol decoders.

use vstd::prelude::*;

use core::str::FromStr;
use lnurl::lightning_address::LightningAddress;
use lnurl::lnurl::LnUrl;

use crate::invoice::{CanonicalInvoice, bolt11_check, bolt11_valid, canonical_from_bolt11, canonical_matches_text};
use crate::offer_details::{OfferParts, offer_check, offer_parts, offer_parts_of, offer_valid};
use crate::text::{
    chars_of, contains_char, has_prefix, lower_chars, spec_lower, spec_squeeze, spec_trim,
    squeeze_chars, starts_with_chars, string_of_chars, trim_chars,
};

verus! {

/// The recognized payment-request encodings, as bare tags.
#[derive(Clone, Copy, Debug, PartialEq, Eq, Structural)]
pub enum RequestKind {
    LightningAddress,
    LnUrl,
    Offer,
    Refund,
    Invoice,
}

/// Why decoding failed.
#[derive(Debug)]
pub enum DecodeError {
    /// The input matches no recognized scheme.
    UnrecognizedFormat,
    /// The scheme was recognized but the payload fails protocol-level
    /// decoding; `cause` is the protocol decoder's account of the defect.
    MalformedPayload { kind: RequestKind, cause: String },
}

/// A classified and parsed payment request.
#[derive(Debug)]
pub enum DecodedData {
    /// A BOLT 11 invoice, in canonical form.
    Invoice(CanonicalInvoice),
    /// A BOLT 12 offer's decoded payload.
    Offer(OfferParts),
    /// A BOLT 12 refund; the sanitized text is kept as decoded.
    Refund(String),
    /// A lightning address, resolved to its pay endpoint URL.
    LightningAddress(String),
    /// An LNURL, decoded to the URL it wraps.
    LnUrl(String),
}

/// Whether a BOLT 12 refund string parses. The outcome is a fixed function of
/// the text.
pub uninterp spec fn refund_valid(s: Seq<char>) -> bool;

/// The URL a bech32 LNURL string decodes to, when it decodes. A fixed
/// function of the text.
pub uninterp spec fn lnurl_url_of(s: Seq<char>) -> Option<Seq<char>>;

/// The pay-endpoint URL a lightning address resolves to, when the text is a
/// well-formed address. A fixed function of the text.
pub uninterp spec fn address_url_of(s: Seq<char>) -> Option<Seq<char>>;

/// Relies on Refund::from_str: parsing succeeds exactly on well-formed BOLT
/// 12 refund text; the error describes the defect.
#[verifier::external_body]
fn refund_check(s: &str) -> (r: Result<(), String>)
    ensures
        (r is Ok) == refund_valid(s@),
{
    match lightning::offers::refund::Refund::from_str(s) {
        Ok(_) => Ok(()),
        Err(e) => Err(format!("{e:?}")),
    }
}

/// Relies on LnUrl::from_str: bech32-decodes an `lnurl...` string to the URL
/// it wraps; the error describes the defect.
#[verifier::external_body]
fn lnurl_decode(s: &str) -> (r: Result<String, String>)
    ensures
        match r {
            Ok(url) => lnurl_url_of(s@) == Some(url@),
            Err(_) => lnurl_url_of(s@) is None,
        },
{
    match LnUrl::from_str(s) {
        Ok(lnurl) => Ok(lnurl.url),
        Err(e) => Err(format!("{e:?}")),
    }
}

/// Relies on LightningAddress::from_str and LightningAddress::lnurlp_url:
/// validates a `user@domain` address and builds its well-known pay endpoint
/// URL; the error describes the defect.
#[verifier::external_body]
fn address_decode(s: &str) -> (r: Result<String, String>)
    ensures
        match r {
            Ok(url) => address_url_of(s@) == Some(url@),
            Err(_) => address_url_of(s@) is None,
        },
{
    match LightningAddress::from_str(s) {
        Ok(address) => Ok(address.lnurlp_url()),
        Err(e) => Err(format!("{e:?}")),
    }
}

/// The scheme prefix the decoder strips.
pub open spec fn scheme_prefix() -> Seq<char> {
    seq!['l', 'i', 'g', 'h', 't', 'n', 'i', 'n', 'g', ':']
}

/// The LNURL bech32 prefix.
pub open spec fn lnurl_prefix() -> Seq<char> {
    seq!['l', 'n', 'u', 'r', 'l']
}

/// The offer human-readable prefix.
pub open spec fn offer_prefix() -> Seq<char> {
    seq!['l', 'n', 'o']
}

/// The refund human-readable prefix.
pub open spec fn refund_prefix() -> Seq<char> {
    seq!['l', 'n', 'r']
}

/// The generic invoice prefix.
pub open spec fn invoice_prefix() -> Seq<char> {
    seq!['l', 'n']
}

/// The normalized input: trimmed, ASCII case-folded, and with one leading
/// `lightning:` scheme removed.
pub open spec fn spec_sanitize(raw: Seq<char>) -> Seq<char> {
    let folded = spec_lower(spec_trim(raw));
    if has_prefix(folded, scheme_prefix()) {
        folded.skip(10)
    } else {
        folded
    }
}

/// The encoding a normalized input is classified as, in dispatch order:
/// address form first, then the LNURL prefix, then the offer and refund
/// prefixes on the separator-stripped variant, then the generic invoice
/// prefix.
pub open spec fn spec_kind(s: Seq<char>) -> Option<RequestKind> {
    if s.contains('@') {
        Some(RequestKind::LightningAddress)
    } else if has_prefix(s, lnurl_prefix()) {
        Some(RequestKind::LnUrl)
    } else if has_prefix(spec_squeeze(s), offer_prefix()) {
        Some(RequestKind::Offer)
    } else if has_prefix(spec_squeeze(s), refund_prefix()) {
        Some(RequestKind::Refund)
    } else if has_prefix(s, invoice_prefix()) {
        Some(RequestKind::Invoice)
    } else {
        None
    }
}

/// Whether the payload of a recognized kind parses, as a fixed function of
/// the normalized text.
pub open spec fn spec_payload_ok(kind: RequestKind, s: Seq<char>) -> bool {
    match kind {
        RequestKind::LightningAddress => address_url_of(s) is Some,
        RequestKind::LnUrl => lnurl_url_of(s) is Some,
        RequestKind::Offer => offer_valid(s),
        RequestKind::Refund => refund_valid(s),
        RequestKind::Invoice => bolt11_valid(s),
    }
}

/// Normalizes the raw input: trim, fold case, strip the scheme.
fn sanitize(raw: &str) -> (r: Vec<char>)
    ensures
        r@ == spec_sanitize(raw@),
{
    let chars = chars_of(raw);
    let trimmed = trim_chars(&chars);
    let folded = lower_chars(&trimmed);
    let mut scheme: Vec<char> = Vec::new();
    scheme.push('l');
    scheme.push('i');
    scheme.push('g');
    scheme.push('h');
    scheme.push('t');
    scheme.push('n');
    scheme.push('i');
    scheme.push('n');
    scheme.push('g');
    scheme.push(':');
    proof {
        assert(scheme@ =~= scheme_prefix());
    }
    if starts_with_chars(&folded, &scheme) {
        let mut rest: Vec<char> = Vec::new();
        let len = folded.len();
        let mut i: usize = 10;
        while i < len
            invariant
                10 <= i <= len,
                len == folded@.len(),
                rest@ =~= folded@.subrange(10, i as int),
            decreases len - i,
        {
            rest.push(folded[i]);
            i += 1;
            proof {
                assert(rest@ =~= folded@.subrange(10, i as int));
            }
        }
        proof {
            assert(rest@ =~= folded@.skip(10));
        }
        rest
    } else {
        folded
    }
}

/// Classifies raw input text into a recognized encoding and parses its
/// payload. Every recognized prefix yields its documented kind; anything
/// else is `UnrecognizedFormat`; a recognized payload that the protocol
/// decoder rejects is `MalformedPayload` naming the kind.
pub fn decode(raw: &str) -> (r: Result<DecodedData, DecodeError>)
    ensures
        ({
            let s = spec_sanitize(raw@);
            match r {
                Ok(d) => match d {
                    DecodedData::Invoice(invoice) => spec_kind(s) == Some(RequestKind::Invoice)
                        && bolt11_valid(s) && canonical_matches_text(invoice, s)
                        && invoice.payee_key@.len() == 33,
                    DecodedData::Offer(offer) => spec_kind(s) == Some(RequestKind::Offer)
                        && offer_valid(s) && offer@ == offer_parts_of(s),
                    DecodedData::Refund(kept) => spec_kind(s) == Some(RequestKind::Refund)
                        && refund_valid(s) && kept@ == s,
                    DecodedData::LightningAddress(url) => spec_kind(s) == Some(
                        RequestKind::LightningAddress,
                    ) && address_url_of(s) == Some(url@),
                    DecodedData::LnUrl(url) => spec_kind(s) == Some(RequestKind::LnUrl)
                        && lnurl_url_of(s) == Some(url@),
                },
                Err(DecodeError::UnrecognizedFormat) => spec_kind(s) is None,
                Err(DecodeError::MalformedPayload { kind, .. }) => spec_kind(s) == Some(kind)
                    && !spec_payload_ok(kind, s),
            }
        }),
{
    let sanitized = sanitize(raw);
    let text = string_of_chars(&sanitized);
    let squeezed = squeeze_chars(&sanitized);

    let mut lnurl_p: Vec<char> = Vec::new();
    lnurl_p.push('l');
    lnurl_p.push('n');
    lnurl_p.push('u');
    lnurl_p.push('r');
    lnurl_p.push('l');
    proof {
        assert(lnurl_p@ =~= lnurl_prefix());
    }
    let mut offer_p: Vec<char> = Vec::new();
    offer_p.push('l');
    offer_p.push('n');
    offer_p.push('o');
    proof {
        assert(offer_p@ =~= offer_prefix());
    }
    let mut refund_p: Vec<char> = Vec::new();
    refund_p.push('l');
    refund_p.push('n');
    refund_p.push('r');
    proof {
        assert(refund_p@ =~= refund_prefix());
    }
    let mut invoice_p: Vec<char> = Vec::new();
    invoice_p.push('l');
    invoice_p.push('n');
    proof {
        assert(invoice_p@ =~= invoice_prefix());
    }

    if contains_char(&sanitized, '@') {
        match address_decode(text.as_str()) {
            Ok(url) => Ok(DecodedData::LightningAddress(url)),
            Err(cause) => Err(DecodeError::MalformedPayload {
                kind: RequestKind::LightningAddress,
                cause,
            }),
        }
    } else if starts_with_chars(&sanitized, &lnurl_p) {
        match lnurl_decode(text.as_str()) {
            Ok(url) => Ok(DecodedData::LnUrl(url)),
            Err(cause) => Err(DecodeError::MalformedPayload { kind: RequestKind::LnUrl, cause }),
        }
    } else if starts_with_chars(&squeezed, &offer_p) {
        match offer_check(text.as_str()) {
            Ok(()) => Ok(DecodedData::Offer(offer_parts(text.as_str()))),
            Err(cause) => Err(DecodeError::MalformedPayload { kind: RequestKind::Offer, cause }),
        }
    } else if starts_with_chars(&squeezed, &refund_p) {
        match refund_check(text.as_str()) {
            Ok(()) => Ok(DecodedData::Refund(text)),
            Err(cause) => Err(DecodeError::MalformedPayload { kind: RequestKind::Refund, cause }),
        }
    } else if starts_with_chars(&sanitized, &invoice_p) {
        match bolt11_check(text.as_str()) {
            Ok(()) => Ok(DecodedData::Invoice(canonical_from_bolt11(text.as_str()))),
            Err(cause) => Err(DecodeError::MalformedPayload { kind: RequestKind::Invoice, cause }),
        }
    } else {
        Err(DecodeError::UnrecognizedFormat)
    }
}

} // verus!
