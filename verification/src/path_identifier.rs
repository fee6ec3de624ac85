use vstd::prelude::*;

verus! {

/// One direction of one relay path: the chain, channel and port under which
/// pending packets are tracked. Equality is structural over the three fields.
#[derive(Clone, Debug, PartialEq, Eq, Hash)]
pub struct PathIdentifier {
    pub chain_id: String,
    pub channel_id: String,
    pub port_id: String,
}

impl View for PathIdentifier {
    type V = (Seq<char>, Seq<char>, Seq<char>);

    open spec fn view(&self) -> Self::V {
        (self.chain_id@, self.channel_id@, self.port_id@)
    }
}

impl PathIdentifier {
    pub fn new(chain_id: String, channel_id: String, port_id: String) -> (r: Self)
        ensures
            r@ == (chain_id@, channel_id@, port_id@),
    {
        PathIdentifier { chain_id, channel_id, port_id }
    }
}

} // verus!
