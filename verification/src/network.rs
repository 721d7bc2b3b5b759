//! Nodes and source routes.

use vstd::prelude::*;

verus! {

/// The name of a node of the network.
pub type NodeId = u8;

/// The route of a packet, and how far along it the packet has come.
#[derive(Debug, PartialEq, Eq)]
pub struct SourceRoutingHeader {
    /// The place in `hops` of the node that the packet is at, or is being sent to.
    pub hop_index: usize,
    /// The nodes from the source to the destination.
    pub hops: Vec<NodeId>,
}

/// What a [`SourceRoutingHeader`] says.
#[verifier::ext_equal]
pub struct HeaderView {
    pub hop_index: int,
    pub hops: Seq<NodeId>,
}

impl View for SourceRoutingHeader {
    type V = HeaderView;

    open spec fn view(&self) -> HeaderView {
        HeaderView { hop_index: self.hop_index as int, hops: self.hops@ }
    }
}

impl Clone for SourceRoutingHeader {
    fn clone(&self) -> (r: Self)
        ensures
            r@ == self@,
    {
        let hops = self.hops.clone();
        assert(hops@ =~= self.hops@);
        SourceRoutingHeader { hop_index: self.hop_index, hops }
    }
}

} // verus!
