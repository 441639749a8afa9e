use vstd::prelude::*;

use crate::ids::{generated_id, lemma_generated_ids_unique};
use crate::message::{ActorMessage, GlommerMessage, GlommerPayload};
use crate::node::MyActor;

verus! {

/// The value a `broadcast` payload carries (zero for any other payload).
pub open spec fn broadcast_value(p: GlommerPayload) -> i64 {
    match p {
        GlommerPayload::Broadcast { message } => message,
        _ => 0,
    }
}

/// The values carried by a sequence of `broadcast` messages.
pub open spec fn broadcast_values(msgs: Seq<ActorMessage<GlommerPayload>>) -> Seq<i64> {
    Seq::new(msgs.len(), |i: int| broadcast_value(msgs[i].payload))
}

/// `states` is a run of a ready node through `msgs`: each state comes from
/// the one before it by handling the next message, with the given reply.
pub open spec fn is_run(
    states: Seq<MyActor>,
    msgs: Seq<ActorMessage<GlommerPayload>>,
    replies: Seq<Option<GlommerMessage<GlommerPayload>>>,
) -> bool {
    &&& states.len() == msgs.len() + 1
    &&& replies.len() == msgs.len()
    &&& states[0].is_ready()
    &&& forall|i: int|
        0 <= i < msgs.len() ==> MyActor::handled(
            #[trigger] states[i],
            states[i + 1],
            msgs[i],
            replies[i],
        )
}

/// A node only ever learns values: whatever it handles, no known value is
/// lost and it stays ready once it is.
pub proof fn lemma_known_grows(
    s0: MyActor,
    s1: MyActor,
    m: ActorMessage<GlommerPayload>,
    r: Option<GlommerMessage<GlommerPayload>>,
)
    requires
        MyActor::handled(s0, s1, m, r),
    ensures
        s0.known().subset_of(s1.known()),
        s0.is_ready() ==> s1.is_ready(),
{
}

/// However a sequence of `broadcast` messages is ordered or duplicated, the
/// values a ready node knows afterwards are exactly those it knew before
/// together with the distinct values broadcast.
pub proof fn lemma_broadcast_run(
    states: Seq<MyActor>,
    msgs: Seq<ActorMessage<GlommerPayload>>,
    replies: Seq<Option<GlommerMessage<GlommerPayload>>>,
)
    requires
        is_run(states, msgs, replies),
        forall|i: int| 0 <= i < msgs.len() ==> (#[trigger] msgs[i]).payload is Broadcast,
    ensures
        states.last().known() == states[0].known().union(broadcast_values(msgs).to_set()),
    decreases msgs.len(),
{
    let n = msgs.len();
    if n == 0 {
        assert(broadcast_values(msgs).to_set() =~= Set::<i64>::empty());
        assert(states[0].known().union(Set::<i64>::empty()) =~= states[0].known());
    } else {
        let ps = states.drop_last();
        let pm = msgs.drop_last();
        let pr = replies.drop_last();
        assert forall|i: int| 0 <= i < pm.len() implies MyActor::handled(
            #[trigger] ps[i],
            ps[i + 1],
            pm[i],
            pr[i],
        ) by {
            assert(MyActor::handled(states[i], states[i + 1], msgs[i], replies[i]));
        };
        assert forall|i: int| 0 <= i < pm.len() implies (#[trigger] pm[i]).payload is Broadcast by {
            assert(msgs[i].payload is Broadcast);
        };
        lemma_broadcast_run(ps, pm, pr);
        let k = n - 1;
        assert(MyActor::handled(states[k], states[k + 1], msgs[k], replies[k]));
        lemma_ready_along(states, msgs, replies, k);
        let v = broadcast_value(msgs[k].payload);
        assert(states[k + 1].known() == states[k].known().insert(v));
        let bv = broadcast_values(msgs);
        let pv = broadcast_values(pm);
        assert(bv =~= pv.push(v));
        assert forall|x: i64| bv.contains(x) <==> (pv.contains(x) || x == v) by {
            if bv.contains(x) {
                let j = choose|j: int| 0 <= j < bv.len() && bv[j] == x;
                if j < pv.len() {
                    assert(pv[j] == x);
                }
            }
            if pv.contains(x) {
                let j = choose|j: int| 0 <= j < pv.len() && pv[j] == x;
                assert(bv[j] == x);
            }
            if x == v {
                assert(bv[k] == x);
            }
        };
        assert(states.last().known() =~= states[0].known().union(bv.to_set()));
    }
}

/// Every state of a run is ready.
proof fn lemma_ready_along(
    states: Seq<MyActor>,
    msgs: Seq<ActorMessage<GlommerPayload>>,
    replies: Seq<Option<GlommerMessage<GlommerPayload>>>,
    k: int,
)
    requires
        is_run(states, msgs, replies),
        0 <= k < states.len(),
    ensures
        states[k].is_ready(),
    decreases k,
{
    if k > 0 {
        lemma_ready_along(states, msgs, replies, k - 1);
        assert(MyActor::handled(states[k - 1], states[k], msgs[k - 1], replies[k - 1]));
    }
}

/// Broadcasting one value any positive number of times leaves a ready node
/// knowing what it would after broadcasting it once.
pub proof fn lemma_broadcast_idempotent(
    states: Seq<MyActor>,
    msgs: Seq<ActorMessage<GlommerPayload>>,
    replies: Seq<Option<GlommerMessage<GlommerPayload>>>,
    v: i64,
)
    requires
        is_run(states, msgs, replies),
        msgs.len() >= 1,
        forall|i: int|
            0 <= i < msgs.len() ==> (#[trigger] msgs[i]).payload == (GlommerPayload::Broadcast {
                message: v,
            }),
    ensures
        states.last().known() == states[0].known().insert(v),
{
    assert forall|i: int| 0 <= i < msgs.len() implies (#[trigger] msgs[i]).payload is Broadcast by {
        assert(msgs[i].payload == (GlommerPayload::Broadcast { message: v }));
    };
    lemma_broadcast_run(states, msgs, replies);
    let bv = broadcast_values(msgs);
    assert forall|x: i64| bv.contains(x) <==> x == v by {
        if x == v {
            assert(msgs[0].payload == (GlommerPayload::Broadcast { message: v }));
            assert(bv[0] == v);
        }
        if bv.contains(x) {
            let j = choose|j: int| 0 <= j < bv.len() && bv[j] == x;
            assert(msgs[j].payload == (GlommerPayload::Broadcast { message: v }));
        }
    };
    assert(states.last().known() =~= states[0].known().insert(v));
}

/// A `gossip` that brings only known values changes nothing a node knows:
/// delivering the same gossip again, or any number of times, is harmless.
pub proof fn lemma_gossip_idempotent(
    s0: MyActor,
    s1: MyActor,
    m: ActorMessage<GlommerPayload>,
    r: Option<GlommerMessage<GlommerPayload>>,
)
    requires
        s0.is_ready(),
        m.payload is Gossip,
        MyActor::handled(s0, s1, m, r),
    ensures
        match m.payload {
            GlommerPayload::Gossip { messages } => messages@.to_set().subset_of(s0.known())
                ==> s1.known() == s0.known(),
            _ => true,
        },
{
    match m.payload {
        GlommerPayload::Gossip { messages } => {
            if messages@.to_set().subset_of(s0.known()) {
                assert(s1.known() =~= s0.known());
            }
        },
        _ => {},
    }
}

/// A ready node that handles a `gossip` knows every value it carried: this is
/// the merge that each round of `gossip_step` assumes.
pub proof fn lemma_gossip_delivers(
    s0: MyActor,
    s1: MyActor,
    m: ActorMessage<GlommerPayload>,
    r: Option<GlommerMessage<GlommerPayload>>,
)
    requires
        s0.is_ready(),
        MyActor::handled(s0, s1, m, r),
    ensures
        match m.payload {
            GlommerPayload::Gossip { messages } => s1.known() == s0.known().union(
                messages@.to_set(),
            ),
            _ => true,
        },
{
}

/// The id a `generate_ok` reply carries (empty for any other reply).
pub open spec fn generated(r: Option<GlommerMessage<GlommerPayload>>) -> Seq<char> {
    match r {
        Some(m) => match m.body.payload {
            GlommerPayload::GenerateOk { id } => id@,
            _ => Seq::empty(),
        },
        None => Seq::empty(),
    }
}

/// Along a run of `generate` requests the node keeps its name and its
/// counter goes up by one per request, and the `k`-th reply carries the id
/// for the counter value at that point.
proof fn lemma_generate_along(
    states: Seq<MyActor>,
    msgs: Seq<ActorMessage<GlommerPayload>>,
    replies: Seq<Option<GlommerMessage<GlommerPayload>>>,
    k: int,
)
    requires
        is_run(states, msgs, replies),
        forall|i: int| 0 <= i < msgs.len() ==> (#[trigger] msgs[i]).payload is Generate,
        0 <= k < states.len(),
    ensures
        states[k].is_ready(),
        states[k].node_name() == states[0].node_name(),
        states[k].next_id() == states[0].next_id() + k,
        k < msgs.len() ==> generated(replies[k]) == generated_id(
            states[0].node_name(),
            (states[0].next_id() + k) as nat,
        ),
    decreases k,
{
    if k > 0 {
        lemma_generate_along(states, msgs, replies, k - 1);
        assert(msgs[k - 1].payload is Generate);
        assert(MyActor::handled(states[k - 1], states[k], msgs[k - 1], replies[k - 1]));
    }
    if k < msgs.len() {
        assert(msgs[k].payload is Generate);
        assert(MyActor::handled(states[k], states[k + 1], msgs[k], replies[k]));
    }
}

/// Any number of consecutive `generate` requests to one ready node are
/// answered with pairwise distinct ids.
pub proof fn lemma_generate_run_unique(
    states: Seq<MyActor>,
    msgs: Seq<ActorMessage<GlommerPayload>>,
    replies: Seq<Option<GlommerMessage<GlommerPayload>>>,
)
    requires
        is_run(states, msgs, replies),
        forall|i: int| 0 <= i < msgs.len() ==> (#[trigger] msgs[i]).payload is Generate,
    ensures
        forall|i: int, j: int|
            0 <= i < j < msgs.len() ==> #[trigger] generated(replies[i]) != #[trigger] generated(
                replies[j],
            ),
{
    assert forall|i: int, j: int| 0 <= i < j < msgs.len() implies #[trigger] generated(replies[i])
        != #[trigger] generated(replies[j]) by {
        lemma_generate_along(states, msgs, replies, i);
        lemma_generate_along(states, msgs, replies, j);
        lemma_generated_ids_unique(
            states[0].node_name(),
            (states[0].next_id() + i) as nat,
            states[0].node_name(),
            (states[0].next_id() + j) as nat,
        );
    };
}

/// Every locally originated message gets a larger id than all before it: the
/// counter never goes down, and goes up with each reply sent.
pub proof fn lemma_ids_increase(
    s0: MyActor,
    s1: MyActor,
    m: ActorMessage<GlommerPayload>,
    r: Option<GlommerMessage<GlommerPayload>>,
)
    requires
        MyActor::handled(s0, s1, m, r),
    ensures
        s0.next_id() <= s1.next_id(),
        r matches Some(rep) ==> rep.body.id == Some(s0.next_id()) && rep.body.in_reply_to
            == m.message.body.id && s0.next_id() < s1.next_id(),
{
}

} // verus!
