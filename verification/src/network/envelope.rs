//! Messages on their way through a server.

use vstd::prelude::*;

use crate::proto::io::{NodeIdentity, S2cMessage};
use std::sync::Arc;

verus! {

/// A message with the node that it came from, or goes to.
#[derive(Debug, PartialEq, Eq)]
pub struct S2cMessageEnvelope {
    pub s2c_message: S2cMessage,
    pub node_identity: Arc<NodeIdentity>,
}

} // verus!
