//! The messages that nodes exchange over a connection.

use vstd::prelude::*;

use crate::registry::Key;

verus! {

/// Who a node is and where it listens.
#[derive(Debug, PartialEq, Eq, Hash)]
pub struct NodeIdentity {
    pub id: String,
    pub address: String,
    pub port: i32,
}

/// The contents of a [`NodeIdentity`].
pub struct NodeIdentityView {
    pub id: Seq<char>,
    pub address: Seq<char>,
    pub port: i32,
}

impl View for NodeIdentity {
    type V = NodeIdentityView;

    open spec fn view(&self) -> NodeIdentityView {
        NodeIdentityView { id: self.id@, address: self.address@, port: self.port }
    }
}

impl Clone for NodeIdentity {
    fn clone(&self) -> (copy: Self)
        ensures
            copy == *self,
    {
        NodeIdentity { id: self.id.clone(), address: self.address.clone(), port: self.port }
    }
}

impl Key for NodeIdentity {
    fn same_key(&self, other: &Self) -> (same: bool) {
        self.id == other.id && self.address == other.address && self.port == other.port
    }
}

/// What opens a connection: the group that a node wants to reach, and the node.
#[derive(Debug, PartialEq, Eq)]
pub struct Handshake {
    pub group_id: String,
    pub node_identity: Option<NodeIdentity>,
}

impl Clone for Handshake {
    fn clone(&self) -> (copy: Self)
        ensures
            copy == *self,
    {
        let node_identity = match &self.node_identity {
            Some(node_identity) => Some(node_identity.clone()),
            None => None,
        };
        Handshake { group_id: self.group_id.clone(), node_identity }
    }
}

/// The content of a message. What a request says is carried as it was encoded: the network
/// passes it on unread.
#[derive(Debug, PartialEq, Eq)]
pub enum Body {
    Handshake(Handshake),
    Follow(Vec<u8>),
    SynchronizeRequest(Vec<u8>),
    StateRequest(Vec<u8>),
    /// Any other content, such as a response.
    Other(Vec<u8>),
}

/// A failure that a message reports.
#[derive(Debug, PartialEq, Eq)]
pub enum Error {
    /// The receiver cannot keep up with the requests.
    SlowDownError(Vec<u8>),
    /// Any other failure.
    Other(Vec<u8>),
}

/// One message; a response carries the correlation id of its request.
#[derive(Debug, PartialEq, Eq)]
pub struct S2cMessage {
    pub correlation_id: String,
    pub body: Option<Body>,
    pub error: Option<Error>,
}

} // verus!
