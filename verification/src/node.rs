//! Node identities resolved against the channel-graph snapshot.

use vstd::prelude::*;

verus! {

/// A node of the Lightning graph as the snapshot knows it: its public key
/// (hex text), its announced alias if it has a non-empty one, and whether the
/// snapshot knows the key at all.
#[derive(Debug)]
pub struct Node {
    pub pubkey: String,
    pub alias: Option<String>,
    pub is_announced: bool,
}

/// The mathematical content of a [`Node`].
pub struct NodeView {
    pub pubkey: Seq<char>,
    pub alias: Option<Seq<char>>,
    pub is_announced: bool,
}

impl View for Node {
    type V = NodeView;

    open spec fn view(&self) -> NodeView {
        NodeView {
            pubkey: self.pubkey@,
            alias: self.alias.deep_view(),
            is_announced: self.is_announced,
        }
    }
}

impl DeepView for Node {
    type V = NodeView;

    open spec fn deep_view(&self) -> NodeView {
        self.view()
    }
}

impl Clone for Node {
    fn clone(&self) -> (r: Self)
        ensures
            r@ == self@,
    {
        Node {
            pubkey: self.pubkey.clone(),
            alias: match &self.alias {
                Some(a) => Some(a.clone()),
                None => None,
            },
            is_announced: self.is_announced,
        }
    }
}

/// A well-formed identity: a key the snapshot does not know carries no alias,
/// and an alias, when present, is non-empty.
pub open spec fn node_wf(n: NodeView) -> bool {
    &&& !n.is_announced ==> n.alias is None
    &&& (n.alias matches Some(a) ==> a.len() > 0)
}

/// The identity derived from one snapshot row: `row` is the alias column of
/// the node's row, or `None` when the key has no row.
pub open spec fn spec_node_from_row(pubkey: Seq<char>, row: Option<Seq<char>>) -> NodeView {
    match row {
        Some(alias) => if alias.len() > 0 {
            NodeView { pubkey, alias: Some(alias), is_announced: true }
        } else {
            NodeView { pubkey, alias: None, is_announced: true }
        },
        None => NodeView { pubkey, alias: None, is_announced: false },
    }
}

/// Builds the identity for `pubkey` from its alias row.
pub fn node_from_row(pubkey: String, row: Option<String>) -> (n: Node)
    ensures
        n@ == spec_node_from_row(pubkey@, row.deep_view()),
        node_wf(n@),
{
    match row {
        Some(alias) => {
            if !alias.as_str().is_empty() {
                Node { pubkey, alias: Some(alias), is_announced: true }
            } else {
                Node { pubkey, alias: None, is_announced: true }
            }
        },
        None => Node { pubkey, alias: None, is_announced: false },
    }
}

/// Lookups are total: whatever the row says, the derived identity takes
/// exactly one of three shapes — unknown key, known key without alias, or
/// known key with a non-empty alias.
pub proof fn lemma_lookup_total(pubkey: Seq<char>, row: Option<Seq<char>>)
    ensures
        ({
            let n = spec_node_from_row(pubkey, row);
            let absent = !n.is_announced && n.alias is None;
            let unnamed = n.is_announced && n.alias is None;
            let named = n.is_announced && (n.alias matches Some(a) && a.len() > 0);
            (absent || unnamed || named)
            && !(absent && unnamed) && !(absent && named) && !(unnamed && named)
        }),
{
}

/// A node name as the command line presents it: an announced node with an
/// alias, an announced node without one, or a key absent from the snapshot.
/// Each variant keeps the public key; the first also keeps the alias.
pub enum NodeName {
    PublicNodeAlias(String, String),
    PublicNodePubkey(String),
    PrivateNodePubkey(String),
}

impl NodeName {
    /// The public key the name keeps.
    pub open spec fn get_alias_spec(&self) -> Seq<char> {
        match self {
            NodeName::PublicNodeAlias(_, pubkey) => pubkey@,
            NodeName::PublicNodePubkey(pubkey) => pubkey@,
            NodeName::PrivateNodePubkey(pubkey) => pubkey@,
        }
    }

    /// The public key kept in the name.
    pub fn get_alias(&self) -> (r: &String)
        ensures
            r@ == self.get_alias_spec(),
    {
        match self {
            NodeName::PublicNodeAlias(_alias, pubkey) => pubkey,
            NodeName::PublicNodePubkey(pubkey) => pubkey,
            NodeName::PrivateNodePubkey(pubkey) => pubkey,
        }
    }
}

/// The presentation name takes the shape the identity induces: alias form
/// for an announced node with an alias, key forms otherwise, the key kept in
/// every shape.
pub open spec fn name_presents(r: NodeName, n: NodeView) -> bool {
    match r {
        NodeName::PublicNodeAlias(alias, key) => n.is_announced && n.alias == Some(alias@) && key@
            == n.pubkey,
        NodeName::PublicNodePubkey(key) => n.is_announced && n.alias is None && key@ == n.pubkey,
        NodeName::PrivateNodePubkey(key) => !n.is_announced && key@ == n.pubkey,
    }
}

/// Builds the presentation name for `pubkey` from its alias row, taking the
/// shape that [`spec_node_from_row`] gives the same row.
pub fn name_from_row(pubkey: String, row: Option<String>) -> (r: NodeName)
    ensures
        name_presents(r, spec_node_from_row(pubkey@, row.deep_view())),
{
    match row {
        Some(alias) => {
            if !alias.as_str().is_empty() {
                NodeName::PublicNodeAlias(alias, pubkey)
            } else {
                NodeName::PublicNodePubkey(pubkey)
            }
        },
        None => NodeName::PrivateNodePubkey(pubkey),
    }
}

} // verus!
