use vstd::prelude::*;

verus! {

/// State of one end of a channel.
#[derive(Clone, Copy, Debug, PartialEq, Eq, Structural)]
pub enum ChannelState {
    Uninitialized,
    Init,
    TryOpen,
    Open,
    Closed,
}

/// Delivery discipline of a channel.
#[derive(Clone, Copy, Debug, PartialEq, Eq, Structural)]
pub enum Order {
    Unordered,
    Ordered,
}

/// The port and (once known) channel identifier of the remote end.
#[derive(Clone, Debug)]
pub struct ChannelCounterparty {
    pub port_id: String,
    pub channel_id: Option<String>,
}

/// One end of a channel, as kept in the store.
#[derive(Clone, Debug)]
pub struct ChannelEnd {
    pub state: ChannelState,
    pub ordering: Order,
    pub remote: ChannelCounterparty,
    pub connection_hops: Vec<String>,
    pub version: String,
}

/// What a channel end holds, as plain values.
pub struct ChannelEndView {
    pub state: ChannelState,
    pub ordering: Order,
    pub remote_port: Seq<char>,
    pub remote_channel: Option<Seq<char>>,
    pub hops: Seq<Seq<char>>,
    pub version: Seq<char>,
}

impl View for ChannelEnd {
    type V = ChannelEndView;

    open spec fn view(&self) -> ChannelEndView {
        ChannelEndView {
            state: self.state,
            ordering: self.ordering,
            remote_port: self.remote.port_id@,
            remote_channel: match self.remote.channel_id {
                Some(c) => Some(c@),
                None => None,
            },
            hops: crate::connection::string_views(self.connection_hops@),
            version: self.version@,
        }
    }
}

impl ChannelEnd {
    /// A copy with the same view.
    pub fn copy(&self) -> (r: ChannelEnd)
        ensures
            r@ == self@,
    {
        let channel_id = match &self.remote.channel_id {
            Some(c) => Some(c.clone()),
            None => None,
        };
        let hops = self.connection_hops.clone();
        assert(crate::connection::string_views(hops@) =~= crate::connection::string_views(self.connection_hops@));
        ChannelEnd {
            state: self.state,
            ordering: self.ordering,
            remote: ChannelCounterparty { port_id: self.remote.port_id.clone(), channel_id },
            connection_hops: hops,
            version: self.version.clone(),
        }
    }

    pub fn state(&self) -> (r: ChannelState)
        ensures
            r == self.state,
    {
        self.state
    }

    pub fn ordering(&self) -> (r: Order)
        ensures
            r == self.ordering,
    {
        self.ordering
    }

    pub fn connection_hops(&self) -> (r: &Vec<String>)
        ensures
            r == &self.connection_hops,
    {
        &self.connection_hops
    }
}

/// Whether a handler allocated a fresh channel identifier or reused one.
#[derive(Clone, Copy, Debug, PartialEq, Eq, Structural)]
pub enum ChannelIdState {
    Generated,
    Reused,
}

/// What a channel handshake handler hands to the keeper.
#[derive(Clone, Debug)]
pub struct ChannelResult {
    pub port_id: String,
    pub channel_id: String,
    pub channel_id_state: ChannelIdState,
    pub channel_end: ChannelEnd,
}

/// Errors of the channel layer.
#[derive(Clone, Debug)]
pub enum ChannelError {
    ChannelNotFound { port_id: String, channel_id: String },
    ConnectionNotFound { connection_id: String },
    ClientNotFound { client_id: String },
    ConsensusStateNotFound { client_id: String },
    InvalidState { expected: ChannelState, actual: ChannelState },
    InvalidConnectionHops,
    ConnectionNotOpen,
    ProofVerificationFailure,
    Store,
}

} // verus!
