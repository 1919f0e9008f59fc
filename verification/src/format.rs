//! Verified presentation helpers: the exact strings the library reports its
//! findings with.

use vstd::prelude::*;

use crate::node::Node;
use crate::offer_details::{IntroductionNode, spec_scid_display};
use crate::recipient::{RecipientNode, ServiceKind};
use crate::text::{decimal_of, extend_chars, string_of_chars, u64_dec_chars};

verus! {

/// Decimal digits grouped in threes from the right, comma-separated.
pub open spec fn spec_group_commas(digits: Seq<char>) -> Seq<char>
    decreases digits.len(),
{
    if digits.len() <= 3 {
        digits
    } else {
        spec_group_commas(digits.take(digits.len() - 3)) + seq![','] + digits.skip(
            digits.len() - 3,
        )
    }
}

/// Groups digit characters in threes from the right.
fn group_commas(digits: &Vec<char>) -> (r: Vec<char>)
    ensures
        r@ == spec_group_commas(digits@),
    decreases digits@.len(),
{
    let n = digits.len();
    if n <= 3 {
        let mut r: Vec<char> = Vec::new();
        extend_chars(&mut r, digits);
        proof {
            assert(r@ =~= digits@);
        }
        r
    } else {
        let mut head: Vec<char> = Vec::new();
        let mut i: usize = 0;
        while i < n - 3
            invariant
                3 < n == digits@.len(),
                i <= n - 3,
                head@ =~= digits@.take(i as int),
            decreases n - 3 - i,
        {
            head.push(digits[i]);
            i += 1;
            proof {
                assert(head@ =~= digits@.take(i as int));
            }
        }
        let mut r = group_commas(&head);
        r.push(',');
        let mut k: usize = n - 3;
        while k < n
            invariant
                3 < n == digits@.len(),
                n - 3 <= k <= n,
                r@ =~= spec_group_commas(digits@.take(n - 3)) + seq![','] + digits@.subrange(
                    n - 3,
                    k as int,
                ),
            decreases n - k,
        {
            r.push(digits[k]);
            k += 1;
            proof {
                assert(r@ =~= spec_group_commas(digits@.take(n - 3)) + seq![',']
                    + digits@.subrange(n - 3, k as int));
            }
        }
        proof {
            assert(digits@.subrange(n - 3, n as int) =~= digits@.skip(n - 3));
            assert(r@ =~= spec_group_commas(digits@));
        }
        r
    }
}

/// A remainder below one thousand, zero-padded to three digits.
pub open spec fn spec_pad3(n: nat) -> Seq<char>
    recommends
        n < 1000,
{
    if n < 10 {
        seq!['0', '0'] + decimal_of(n)
    } else if n < 100 {
        seq!['0'] + decimal_of(n)
    } else {
        decimal_of(n)
    }
}

/// The amount report: absent amounts read "no amount", exactly one thousand
/// millisatoshis reads as the singular unit, round thousands count satoshis
/// with digit grouping, and anything else carries its three-digit fractional
/// remainder.
pub open spec fn spec_format_msat(msat: Option<u64>) -> Seq<char> {
    match msat {
        None => "no amount"@,
        Some(m) => if m == 1000 {
            "1 sat"@
        } else if m % 1000 == 0 {
            spec_group_commas(decimal_of((m / 1000) as nat)) + " sats"@
        } else {
            spec_group_commas(decimal_of((m / 1000) as nat)) + seq!['.'] + spec_pad3(
                (m % 1000) as nat,
            ) + " sats"@
        },
    }
}

/// Renders an optional millisatoshi amount for presentation.
pub fn format_msat(msat: Option<u64>) -> (r: String)
    ensures
        r@ == spec_format_msat(msat),
{
    match msat {
        None => "no amount".to_owned(),
        Some(m) => {
            if m == 1000 {
                "1 sat".to_owned()
            } else {
                let sat_digits = u64_dec_chars(m / 1000);
                let grouped = group_commas(&sat_digits);
                let whole = string_of_chars(&grouped);
                if m % 1000 == 0 {
                    whole.concat(" sats")
                } else {
                    let rem = m % 1000;
                    let mut frac: Vec<char> = Vec::new();
                    frac.push('.');
                    if rem < 10 {
                        frac.push('0');
                        frac.push('0');
                    } else if rem < 100 {
                        frac.push('0');
                    }
                    let rem_digits = u64_dec_chars(rem);
                    extend_chars(&mut frac, &rem_digits);
                    proof {
                        assert(frac@ =~= seq!['.'] + spec_pad3((m % 1000) as nat));
                    }
                    let frac_s = string_of_chars(&frac);
                    let r = whole.concat(frac_s.as_str()).concat(" sats");
                    proof {
                        assert(r@ =~= spec_format_msat(msat));
                    }
                    r
                }
            }
        },
    }
}

/// The label of a service kind.
pub open spec fn spec_format_service_kind(service: ServiceKind) -> Seq<char> {
    match service {
        ServiceKind::BusinessWallet => "Payment processor"@,
        ServiceKind::ConsumerWallet => "Consumer wallet"@,
        ServiceKind::Exchange => "Exchange"@,
        ServiceKind::Lsp => "LSP"@,
    }
}

/// Renders a service kind's label.
pub fn format_service_kind(service: &ServiceKind) -> (r: &str)
    ensures
        r@ == spec_format_service_kind(*service),
{
    match service {
        ServiceKind::BusinessWallet => "Payment processor",
        ServiceKind::ConsumerWallet => "Consumer wallet",
        ServiceKind::Exchange => "Exchange",
        ServiceKind::Lsp => "LSP",
    }
}

/// The one-line account of a verdict.
pub open spec fn spec_format_recipient(node: RecipientNode) -> Seq<char> {
    match node {
        RecipientNode::Custodial { custodian } => "Custodial "@ + spec_format_service_kind(
            custodian.service,
        ) + " "@ + custodian.name@,
        RecipientNode::NonCustodial { id, lsp } => "Non-custodial "@ + spec_format_service_kind(
            lsp.service,
        ) + " "@ + lsp.name@ + " with id:"@ + id@,
        RecipientNode::NonCustodialWrapped { lsp } => "Non-custodial "@
            + spec_format_service_kind(lsp.service) + " "@ + lsp.name@,
        RecipientNode::Unknown => "Unknown"@,
    }
}

/// Renders a verdict on one line.
pub fn format_recipient_node(node: &RecipientNode) -> (r: String)
    ensures
        r@ == spec_format_recipient(*node),
{
    match node {
        RecipientNode::Custodial { custodian } => "Custodial ".to_owned().concat(
            format_service_kind(&custodian.service),
        ).concat(" ").concat(custodian.name.as_str()),
        RecipientNode::NonCustodial { id, lsp } => "Non-custodial ".to_owned().concat(
            format_service_kind(&lsp.service),
        ).concat(" ").concat(lsp.name.as_str()).concat(" with id:").concat(id.as_str()),
        RecipientNode::NonCustodialWrapped { lsp } => "Non-custodial ".to_owned().concat(
            format_service_kind(&lsp.service),
        ).concat(" ").concat(lsp.name.as_str()),
        RecipientNode::Unknown => "Unknown".to_owned(),
    }
}

/// The one-line account of a node: its announcement status, then its alias
/// when it has one, its key otherwise.
pub open spec fn spec_format_node_name(node: Node) -> Seq<char> {
    (if node.is_announced {
        "public"@
    } else {
        "private"@
    }) + match node.alias {
        Some(a) => " node alias:"@ + a@,
        None => " node id:"@ + node.pubkey@,
    }
}

/// Renders a node's name on one line.
pub fn format_node_name(node: &Node) -> (r: String)
    ensures
        r@ == spec_format_node_name(*node),
{
    let visibility = if node.is_announced {
        "public"
    } else {
        "private"
    };
    match &node.alias {
        Some(alias) => visibility.to_owned().concat(" node alias:").concat(alias.as_str()),
        None => visibility.to_owned().concat(" node id:").concat(node.pubkey.as_str()),
    }
}

/// What a hop is shown as in a rendered route: its alias when it has one,
/// its key otherwise.
pub open spec fn spec_hop_label(node: Node) -> Seq<char> {
    match node.alias {
        Some(a) => a@,
        None => node.pubkey@,
    }
}

/// Renders route hints as rows of hop labels, preserving both orders.
pub fn format_route_hints(route_hints: &Vec<Vec<Node>>) -> (r: Vec<Vec<String>>)
    ensures
        r@.len() == route_hints@.len(),
        forall|i: int| 0 <= i < route_hints@.len() ==> (#[trigger] r@[i])@.len()
            == route_hints@[i]@.len(),
        forall|i: int, j: int|
            0 <= i < route_hints@.len() && 0 <= j < route_hints@[i]@.len()
                ==> (#[trigger] r@[i]@[j])@ == spec_hop_label(route_hints@[i]@[j]),
{
    let mut r: Vec<Vec<String>> = Vec::new();
    let n = route_hints.len();
    let mut i: usize = 0;
    while i < n
        invariant
            n == route_hints@.len(),
            i <= n,
            r@.len() == i,
            forall|x: int| 0 <= x < i ==> (#[trigger] r@[x])@.len() == route_hints@[x]@.len(),
            forall|x: int, y: int|
                0 <= x < i && 0 <= y < route_hints@[x]@.len() ==> (#[trigger] r@[x]@[y])@
                    == spec_hop_label(route_hints@[x]@[y]),
        decreases n - i,
    {
        let hint = &route_hints[i];
        let m = hint.len();
        let mut row: Vec<String> = Vec::new();
        let mut j: usize = 0;
        while j < m
            invariant
                m == hint@.len(),
                j <= m,
                row@.len() == j,
                forall|y: int| 0 <= y < j ==> (#[trigger] row@[y])@ == spec_hop_label(hint@[y]),
            decreases m - j,
        {
            let node = &hint[j];
            let label = match &node.alias {
                Some(a) => a.clone(),
                None => node.pubkey.clone(),
            };
            row.push(label);
            j += 1;
        }
        r.push(row);
        i += 1;
    }
    r
}

/// The one-line account of a blinded path's entry point.
pub open spec fn spec_format_introduction(node: IntroductionNode) -> Seq<char> {
    match node {
        IntroductionNode::NodeId(pubkey) => "Node "@ + pubkey@,
        IntroductionNode::LeftEnd(channel) => "Left end of "@ + spec_scid_display(channel),
        IntroductionNode::RightEnd(channel) => "Right end of "@ + spec_scid_display(channel),
    }
}

/// Renders a blinded path's entry point.
pub fn format_introduction_node(node: &IntroductionNode) -> (r: String)
    ensures
        r@ == spec_format_introduction(*node),
{
    match node {
        IntroductionNode::NodeId(pubkey) => "Node ".to_owned().concat(pubkey.as_str()),
        IntroductionNode::LeftEnd(channel) => "Left end of ".to_owned().concat(
            channel.to_display_string().as_str(),
        ),
        IntroductionNode::RightEnd(channel) => "Right end of ".to_owned().concat(
            channel.to_display_string().as_str(),
        ),
    }
}

} // verus!
