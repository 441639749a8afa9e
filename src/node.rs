use vstd::prelude::*;

use crate::ids::{generated_id, make_id};
use crate::message::{
    clone_names, lookup_neighbors, neighbors_in, ActorMessage, GlommerBody, GlommerMessage, GlommerPayload,
};
use crate::values::ValueSet;

verus! {

/// One node of the cluster: its identity, the values it has learned, the
/// peers it gossips to, and the counter from which its message ids come.
/// Every change happens in one call at a time on `&mut self`.
pub struct MyActor {
    node_id: String,
    node_ids: Vec<String>,
    ready: bool,
    id: usize,
    values: ValueSet,
    neighbors: Vec<String>,
}

/// `rep` answers `req`: addresses swapped, `in_reply_to` echoing the
/// request's id, and `id` as its own id.
pub open spec fn answers(req: GlommerMessage<()>, rep: GlommerMessage<GlommerPayload>, id: usize) -> bool {
    &&& rep.src@ == req.dest@
    &&& rep.dest@ == req.src@
    &&& rep.body.id == Some(id)
    &&& rep.body.in_reply_to == req.body.id
}

/// The message split into envelope and payload.
pub open spec fn split_spec(m: GlommerMessage<GlommerPayload>) -> ActorMessage<GlommerPayload> {
    ActorMessage {
        message: GlommerMessage {
            src: m.src,
            dest: m.dest,
            body: GlommerBody { id: m.body.id, in_reply_to: m.body.in_reply_to, payload: () },
        },
        payload: m.body.payload,
    }
}

impl MyActor {
    pub closed spec fn node_name(&self) -> Seq<char> {
        self.node_id@
    }

    pub closed spec fn roster(&self) -> Seq<String> {
        self.node_ids@
    }

    /// Whether an `init` has been received.
    pub closed spec fn is_ready(&self) -> bool {
        self.ready
    }

    /// The id the next message this node sends will carry.
    pub closed spec fn next_id(&self) -> usize {
        self.id
    }

    /// The values this node has learned.
    pub closed spec fn known(&self) -> Set<i64> {
        self.values@
    }

    pub closed spec fn neighbors(&self) -> Seq<String> {
        self.neighbors@
    }

    pub closed spec fn wf(&self) -> bool {
        self.values.wf()
    }

    /// Everything but the counter is as in `s0`.
    pub open spec fn same_state(s0: MyActor, s1: MyActor) -> bool {
        &&& s1.node_name() == s0.node_name()
        &&& s1.roster() == s0.roster()
        &&& s1.is_ready() == s0.is_ready()
        &&& s1.known() == s0.known()
        &&& s1.neighbors() == s0.neighbors()
    }

    /// What handling `m` in state `s0` does: the next state `s1` and the
    /// reply `r`. Replies from peers, and anything but `init` before the
    /// node is ready, are dropped without effect. Every other request is
    /// answered with the matching `_ok` payload, under the next message id.
    pub open spec fn handled(
        s0: MyActor,
        s1: MyActor,
        m: ActorMessage<GlommerPayload>,
        r: Option<GlommerMessage<GlommerPayload>>,
    ) -> bool {
        if m.payload.is_reply() || (!s0.is_ready() && !(m.payload is Init)) {
            r is None && s1 == s0
        } else {
            &&& r is Some
            &&& answers(m.message, r->0, s0.next_id())
            &&& s1.next_id() == s0.next_id() + 1
            &&& s1.is_ready()
            &&& match m.payload {
                GlommerPayload::Init { node_id, node_ids } => {
                    &&& s1.node_name() == node_id@
                    &&& s1.roster() == node_ids@
                    &&& s1.known() == s0.known()
                    &&& s1.neighbors() == s0.neighbors()
                    &&& r->0.body.payload is InitOk
                },
                GlommerPayload::Echo { echo } => {
                    &&& Self::same_state(s0, s1)
                    &&& r->0.body.payload matches GlommerPayload::EchoOk { echo: e } && e@ == echo@
                },
                GlommerPayload::Generate => {
                    &&& Self::same_state(s0, s1)
                    &&& r->0.body.payload matches GlommerPayload::GenerateOk { id }
                        && id@ == generated_id(s0.node_name(), s0.next_id() as nat)
                },
                GlommerPayload::Broadcast { message } => {
                    &&& s1.node_name() == s0.node_name()
                    &&& s1.roster() == s0.roster()
                    &&& s1.neighbors() == s0.neighbors()
                    &&& s1.known() == s0.known().insert(message)
                    &&& r->0.body.payload is BroadcastOk
                },
                GlommerPayload::Read => {
                    &&& Self::same_state(s0, s1)
                    &&& r->0.body.payload matches GlommerPayload::ReadOk { messages }
                        && messages@.to_set() == s0.known() && messages@.no_duplicates()
                },
                GlommerPayload::Topology { topology } => {
                    &&& s1.node_name() == s0.node_name()
                    &&& s1.roster() == s0.roster()
                    &&& s1.known() == s0.known()
                    &&& s1.neighbors() == lookup_neighbors(topology@, s0.node_name())
                    &&& r->0.body.payload is TopologyOk
                },
                GlommerPayload::Gossip { messages } => {
                    &&& s1.node_name() == s0.node_name()
                    &&& s1.roster() == s0.roster()
                    &&& s1.neighbors() == s0.neighbors()
                    &&& s1.known() == s0.known().union(messages@.to_set())
                    &&& r->0.body.payload is GossipOk
                },
                _ => false,
            }
        }
    }

    /// This node's name; empty before `init`.
    pub fn node_id(&self) -> (r: &String)
        ensures
            r@ == self.node_name(),
    {
        &self.node_id
    }

    /// Whether an `init` has been received.
    pub fn is_initialized(&self) -> (r: bool)
        ensures
            r == self.is_ready(),
    {
        self.ready
    }

    /// The id the next message will carry.
    pub fn next_msg_id(&self) -> (r: usize)
        ensures
            r == self.next_id(),
    {
        self.id
    }

    /// The neighbors this node gossips to.
    pub fn neighbor_ids(&self) -> (r: Vec<String>)
        ensures
            r@ == self.neighbors(),
    {
        clone_names(&self.neighbors)
    }

    /// The values this node knows, each once.
    pub fn known_values(&self) -> (r: Vec<i64>)
        requires
            self.wf(),
        ensures
            r@.to_set() == self.known(),
            r@.no_duplicates(),
    {
        self.values.to_vec()
    }

    /// A node that has not yet been initialised: no identity, no values, no
    /// neighbors, counter at zero.
    pub fn new() -> (r: MyActor)
        ensures
            r.wf(),
            !r.is_ready(),
            r.next_id() == 0,
            r.node_name() == Seq::<char>::empty(),
            r.roster() == Seq::<String>::empty(),
            r.known() == Set::<i64>::empty(),
            r.neighbors() == Seq::<String>::empty(),
    {
        MyActor {
            node_id: String::new(),
            node_ids: Vec::new(),
            ready: false,
            id: 0,
            values: ValueSet::new(),
            neighbors: Vec::new(),
        }
    }

    /// A new request from this node to `dest`, under the next message id.
    pub fn send(&mut self, dest: String, in_reply_to: Option<usize>, payload: GlommerPayload) -> (r:
        GlommerMessage<GlommerPayload>)
        requires
            old(self).next_id() < usize::MAX,
        ensures
            r.src@ == old(self).node_name(),
            r.dest == dest,
            r.body.id == Some(old(self).next_id()),
            r.body.in_reply_to == in_reply_to,
            r.body.payload == payload,
            final(self).next_id() == old(self).next_id() + 1,
            Self::same_state(*old(self), *final(self)),
            final(self).wf() == old(self).wf(),
    {
        let mid = self.id;
        self.id = self.id + 1;
        GlommerMessage {
            src: self.node_id.clone(),
            dest,
            body: GlommerBody { id: Some(mid), in_reply_to, payload },
        }
    }

    /// The reply to `message`, under the next message id.
    pub fn reply(&mut self, message: &GlommerMessage<()>, payload: GlommerPayload) -> (r: GlommerMessage<
        GlommerPayload,
    >)
        requires
            old(self).next_id() < usize::MAX,
        ensures
            answers(*message, r, old(self).next_id()),
            r.body.payload == payload,
            final(self).next_id() == old(self).next_id() + 1,
            Self::same_state(*old(self), *final(self)),
            final(self).wf() == old(self).wf(),
    {
        let mid = self.id;
        self.id = self.id + 1;
        GlommerMessage {
            src: message.dest.clone(),
            dest: message.src.clone(),
            body: GlommerBody { id: Some(mid), in_reply_to: message.body.id, payload },
        }
    }

    /// Handles one message already split into envelope and payload, and
    /// returns the reply to send, if any.
    pub fn handle(&mut self, m: ActorMessage<GlommerPayload>) -> (r: Option<GlommerMessage<GlommerPayload>>)
        requires
            old(self).wf(),
            old(self).next_id() < usize::MAX,
        ensures
            final(self).wf(),
            Self::handled(*old(self), *final(self), m, r),
    {
        let ActorMessage { message, payload } = m;
        if !self.ready {
            if !matches!(payload, GlommerPayload::Init { .. }) {
                return None;
            }
        }
        match payload {
            GlommerPayload::Init { node_id, node_ids } => {
                self.node_id = node_id;
                self.node_ids = node_ids;
                self.ready = true;
                Some(self.reply(&message, GlommerPayload::InitOk))
            },
            GlommerPayload::Echo { echo } => {
                Some(self.reply(&message, GlommerPayload::EchoOk { echo }))
            },
            GlommerPayload::Generate => {
                let id = make_id(&self.node_id, self.id as u64);
                Some(self.reply(&message, GlommerPayload::GenerateOk { id }))
            },
            GlommerPayload::Broadcast { message: value } => {
                self.values.insert(value);
                Some(self.reply(&message, GlommerPayload::BroadcastOk))
            },
            GlommerPayload::Read => {
                let messages = self.values.to_vec();
                Some(self.reply(&message, GlommerPayload::ReadOk { messages }))
            },
            GlommerPayload::Topology { topology } => {
                self.neighbors = neighbors_in(&topology, &self.node_id);
                Some(self.reply(&message, GlommerPayload::TopologyOk))
            },
            GlommerPayload::Gossip { messages } => {
                self.values.insert_all(&messages);
                Some(self.reply(&message, GlommerPayload::GossipOk))
            },
            _ => None,
        }
    }

    /// Handles one incoming message: splits it into envelope and payload and
    /// hands both to `handle`.
    pub fn send_glommer_message(&mut self, glommer_message: GlommerMessage<GlommerPayload>) -> (r:
        Option<GlommerMessage<GlommerPayload>>)
        requires
            old(self).wf(),
            old(self).next_id() < usize::MAX,
        ensures
            final(self).wf(),
            Self::handled(*old(self), *final(self), split_spec(glommer_message), r),
    {
        let GlommerMessage { src, dest, body } = glommer_message;
        let GlommerBody { id, in_reply_to, payload } = body;
        let message = GlommerMessage {
            src,
            dest,
            body: GlommerBody { id, in_reply_to, payload: () },
        };
        self.handle(ActorMessage { message, payload })
    }

    /// One gossip round: a `gossip` request carrying every known value to
    /// each neighbor, in neighbor order, under consecutive message ids.
    pub fn gossip_round(&mut self) -> (r: Vec<GlommerMessage<GlommerPayload>>)
        requires
            old(self).wf(),
            old(self).next_id() + old(self).neighbors().len() <= usize::MAX,
        ensures
            final(self).wf(),
            Self::same_state(*old(self), *final(self)),
            final(self).next_id() == old(self).next_id() + old(self).neighbors().len(),
            r@.len() == old(self).neighbors().len(),
            forall|i: int|
                0 <= i < r@.len() ==> {
                    &&& (#[trigger] r@[i]).src@ == old(self).node_name()
                    &&& r@[i].dest@ == old(self).neighbors()[i]@
                    &&& r@[i].body.id == Some((old(self).next_id() + i) as usize)
                    &&& r@[i].body.in_reply_to is None
                    &&& r@[i].body.payload matches GlommerPayload::Gossip { messages }
                        && messages@.to_set() == old(self).known()
                        && messages@.no_duplicates()
                },
    {
        let mut r: Vec<GlommerMessage<GlommerPayload>> = Vec::new();
        let ghost s0 = *self;
        let mut i: usize = 0;
        while i < self.neighbors.len()
            invariant
                s0.wf(),
                self.wf(),
                Self::same_state(s0, *self),
                self.neighbors@ == s0.neighbors@,
                s0.next_id() + s0.neighbors().len() <= usize::MAX,
                i <= self.neighbors@.len(),
                self.id == s0.id + i,
                r@.len() == i,
                forall|j: int|
                    0 <= j < i ==> {
                        &&& (#[trigger] r@[j]).src@ == s0.node_name()
                        &&& r@[j].dest@ == s0.neighbors()[j]@
                        &&& r@[j].body.id == Some((s0.next_id() + j) as usize)
                        &&& r@[j].body.in_reply_to is None
                        &&& r@[j].body.payload matches GlommerPayload::Gossip { messages }
                            && messages@.to_set() == s0.known()
                            && messages@.no_duplicates()
                    },
            decreases s0.neighbors@.len() - i,
        {
            let messages = self.values.to_vec();
            let dest = self.neighbors[i].clone();
            let m = self.send(dest, None, GlommerPayload::Gossip { messages });
            r.push(m);
            i = i + 1;
        }
        r
    }
}

} // verus!
