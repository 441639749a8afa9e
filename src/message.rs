use vstd::prelude::*;

verus! {

/// An addressed message: who sent it, who it is for, and its body.
#[derive(Debug, Clone)]
pub struct GlommerMessage<Payload> {
    /// The node this message came from.
    pub src: String,
    /// The node this message is for.
    pub dest: String,
    pub body: GlommerBody<Payload>,
}

/// The body of a message: its correlation ids and its payload.
#[derive(Debug, Clone)]
pub struct GlommerBody<Payload> {
    /// The id the sender gave this message (`msg_id` on the wire).
    pub id: Option<usize>,
    /// On a reply, the id of the request it answers.
    pub in_reply_to: Option<usize>,
    pub payload: Payload,
}

/// A message split into its envelope, with no payload, and its payload.
#[derive(Debug, Clone)]
pub struct ActorMessage<Payload> {
    pub message: GlommerMessage<()>,
    pub payload: Payload,
}

/// The adjacency map that a `topology` request carries: for each node, the
/// nodes it should gossip to.
pub type TopologyMap = Vec<(String, Vec<String>)>;

/// Every kind of payload the protocol knows; the variant is the `type` tag on
/// the wire.
#[derive(Debug, Clone)]
pub enum GlommerPayload {
    Init { node_id: String, node_ids: Vec<String> },
    InitOk,
    Echo { echo: String },
    EchoOk { echo: String },
    Generate,
    GenerateOk { id: String },
    Broadcast { message: i64 },
    BroadcastOk,
    Read,
    ReadOk { messages: Vec<i64> },
    Topology { topology: TopologyMap },
    TopologyOk,
    Gossip { messages: Vec<i64> },
    GossipOk,
}

impl GlommerPayload {
    /// The payload's `type` tag.
    pub fn tag(&self) -> (r: &'static str)
        ensures
            r@ == self.spec_tag(),
    {
        match self {
            GlommerPayload::Init { .. } => {
                proof { reveal_strlit("init"); }
                "init"
            },
            GlommerPayload::InitOk => {
                proof { reveal_strlit("init_ok"); }
                "init_ok"
            },
            GlommerPayload::Echo { .. } => {
                proof { reveal_strlit("echo"); }
                "echo"
            },
            GlommerPayload::EchoOk { .. } => {
                proof { reveal_strlit("echo_ok"); }
                "echo_ok"
            },
            GlommerPayload::Generate => {
                proof { reveal_strlit("generate"); }
                "generate"
            },
            GlommerPayload::GenerateOk { .. } => {
                proof { reveal_strlit("generate_ok"); }
                "generate_ok"
            },
            GlommerPayload::Broadcast { .. } => {
                proof { reveal_strlit("broadcast"); }
                "broadcast"
            },
            GlommerPayload::BroadcastOk => {
                proof { reveal_strlit("broadcast_ok"); }
                "broadcast_ok"
            },
            GlommerPayload::Read => {
                proof { reveal_strlit("read"); }
                "read"
            },
            GlommerPayload::ReadOk { .. } => {
                proof { reveal_strlit("read_ok"); }
                "read_ok"
            },
            GlommerPayload::Topology { .. } => {
                proof { reveal_strlit("topology"); }
                "topology"
            },
            GlommerPayload::TopologyOk => {
                proof { reveal_strlit("topology_ok"); }
                "topology_ok"
            },
            GlommerPayload::Gossip { .. } => {
                proof { reveal_strlit("gossip"); }
                "gossip"
            },
            GlommerPayload::GossipOk => {
                proof { reveal_strlit("gossip_ok"); }
                "gossip_ok"
            },
        }
    }

    pub open spec fn spec_tag(&self) -> Seq<char> {
        match self {
            GlommerPayload::Init { .. } => "init"@,
            GlommerPayload::InitOk => "init_ok"@,
            GlommerPayload::Echo { .. } => "echo"@,
            GlommerPayload::EchoOk { .. } => "echo_ok"@,
            GlommerPayload::Generate => "generate"@,
            GlommerPayload::GenerateOk { .. } => "generate_ok"@,
            GlommerPayload::Broadcast { .. } => "broadcast"@,
            GlommerPayload::BroadcastOk => "broadcast_ok"@,
            GlommerPayload::Read => "read"@,
            GlommerPayload::ReadOk { .. } => "read_ok"@,
            GlommerPayload::Topology { .. } => "topology"@,
            GlommerPayload::TopologyOk => "topology_ok"@,
            GlommerPayload::Gossip { .. } => "gossip"@,
            GlommerPayload::GossipOk => "gossip_ok"@,
        }
    }

    /// Whether this payload answers a request (its tag ends in `_ok`).
    pub open spec fn is_reply(&self) -> bool {
        match self {
            GlommerPayload::InitOk | GlommerPayload::EchoOk { .. }
            | GlommerPayload::GenerateOk { .. } | GlommerPayload::BroadcastOk
            | GlommerPayload::ReadOk { .. } | GlommerPayload::TopologyOk
            | GlommerPayload::GossipOk => true,
            _ => false,
        }
    }
}

/// The neighbors that `topology` gives `node`: the list of the first entry
/// keyed by `node`, or none.
pub open spec fn lookup_neighbors(topology: Seq<(String, Vec<String>)>, node: Seq<char>) -> Seq<String>
    decreases topology.len(),
{
    if topology.len() == 0 {
        Seq::empty()
    } else if topology[0].0@ == node {
        topology[0].1@
    } else {
        lookup_neighbors(topology.drop_first(), node)
    }
}

/// A copy of a list of node names.
pub fn clone_names(v: &Vec<String>) -> (r: Vec<String>)
    ensures
        r@ == v@,
{
    let mut r: Vec<String> = Vec::new();
    let mut i: usize = 0;
    while i < v.len()
        invariant
            i <= v@.len(),
            r@ == v@.subrange(0, i as int),
        decreases v@.len() - i,
    {
        r.push(v[i].clone());
        i = i + 1;
    }
    assert(r@ =~= v@);
    r
}

/// The neighbors that `topology` assigns to `node`, or none where it has no
/// entry for `node`.
pub fn neighbors_in(topology: &TopologyMap, node: &String) -> (r: Vec<String>)
    ensures
        r@ == lookup_neighbors(topology@, node@),
{
    let mut i: usize = 0;
    assert(topology@.subrange(0, topology@.len() as int) =~= topology@);
    while i < topology.len()
        invariant
            i <= topology@.len(),
            lookup_neighbors(topology@.subrange(i as int, topology@.len() as int), node@)
                == lookup_neighbors(topology@, node@),
        decreases topology@.len() - i,
    {
        let ghost rest = topology@.subrange(i as int, topology@.len() as int);
        proof {
            assert(rest.drop_first() =~= topology@.subrange(i + 1, topology@.len() as int));
            assert(rest[0] == topology@[i as int]);
        }
        if topology[i].0 == *node {
            return clone_names(&topology[i].1);
        }
        i = i + 1;
    }
    proof {
        assert(topology@.subrange(i as int, topology@.len() as int).len() == 0);
    }
    Vec::new()
}

} // verus!
