//! What a node knows of itself.

use vstd::prelude::*;

use crate::proto::io::NodeIdentity;
use crate::text::{signed_decimal, signed_decimal_text};

verus! {

/// The group and the identity of a node, and what of them goes into its log.
pub struct Context {
    s2c_group_id: String,
    port_str: String,
    log_node_identity: bool,
    node_identity: NodeIdentity,
}

/// The contents of a [`Context`].
pub struct ContextView {
    pub s2c_group_id: Seq<char>,
    pub log_node_identity: bool,
    pub node_identity: NodeIdentity,
}

impl View for Context {
    type V = ContextView;

    closed spec fn view(&self) -> ContextView {
        ContextView {
            s2c_group_id: self.s2c_group_id@,
            log_node_identity: self.log_node_identity,
            node_identity: self.node_identity,
        }
    }
}

impl ContextView {
    /// The names and values that label a log line: the group, and the node where it is wanted.
    pub open spec fn labels(self) -> Seq<(Seq<char>, Seq<char>)> {
        if self.log_node_identity {
            seq![
                ("s2c_group_id"@, self.s2c_group_id),
                ("node_id"@, self.node_identity.id@),
                ("node_address"@, self.node_identity.address@),
                ("node_port"@, signed_decimal(self.node_identity.port as int)),
            ]
        } else {
            seq![("s2c_group_id"@, self.s2c_group_id)]
        }
    }
}

/// What a list of labels says.
pub open spec fn label_texts(labels: Seq<(&'static str, &str)>) -> Seq<(Seq<char>, Seq<char>)> {
    labels.map_values(|label: (&'static str, &str)| (label.0@, label.1@))
}

impl Context {
    #[verifier::type_invariant]
    spec fn well_formed(self) -> bool {
        self.port_str@ == signed_decimal(self.node_identity.port as int)
    }

    /// The context of a node of a group.
    pub fn new(s2c_group_id: String, node_identity: NodeIdentity, log_node_identity: bool) -> (context:
        Self)
        ensures
            context@ == (ContextView {
                s2c_group_id: s2c_group_id@,
                log_node_identity,
                node_identity,
            }),
    {
        let port_str = signed_decimal_text(node_identity.port);
        Context { s2c_group_id, port_str, log_node_identity, node_identity }
    }

    /// The group.
    pub fn s2c_group_id(&self) -> (group_id: &str)
        ensures
            group_id@ == self@.s2c_group_id,
    {
        self.s2c_group_id.as_str()
    }

    /// The node.
    pub fn node_identity(&self) -> (node_identity: &NodeIdentity)
        ensures
            *node_identity == self@.node_identity,
    {
        &self.node_identity
    }

    /// Whether log lines name the node.
    pub fn log_node_identity(&self) -> (log: bool)
        ensures
            log == self@.log_node_identity,
    {
        self.log_node_identity
    }

    /// The labels of a log line.
    pub fn as_vec(&self) -> (labels: Vec<(&'static str, &str)>)
        ensures
            label_texts(labels@) == self@.labels(),
    {
        proof {
            use_type_invariant(self);
        }
        let mut labels: Vec<(&'static str, &str)> = Vec::new();
        labels.push(("s2c_group_id", self.s2c_group_id.as_str()));
        if self.log_node_identity {
            labels.push(("node_id", self.node_identity.id.as_str()));
            labels.push(("node_address", self.node_identity.address.as_str()));
            labels.push(("node_port", self.port_str.as_str()));
        }
        assert(label_texts(labels@) =~= self@.labels());
        labels
    }
}

/// A log line always names the group, under its label and first; it names the node, by id, address
/// and port, exactly where that is wanted.
pub proof fn law_labels_name_the_node_where_wanted(context: ContextView)
    ensures
        context.labels().len() == if context.log_node_identity { 4nat } else { 1nat },
        context.labels()[0] == ("s2c_group_id"@, context.s2c_group_id),
        context.log_node_identity ==> {
            &&& context.labels()[1] == ("node_id"@, context.node_identity.id@)
            &&& context.labels()[2] == ("node_address"@, context.node_identity.address@)
            &&& context.labels()[3] == ("node_port"@, signed_decimal(
                context.node_identity.port as int,
            ))
        },
{
}

/// The texts of labels are those of the labels, one by one and in their order.
pub proof fn law_label_texts_keep_the_order(labels: Seq<(&'static str, &str)>)
    ensures
        label_texts(labels).len() == labels.len(),
        forall|i: int|
            0 <= i < labels.len() ==> #[trigger] label_texts(labels)[i] == (
                labels[i].0@,
                labels[i].1@,
            ),
{
}

} // verus!
