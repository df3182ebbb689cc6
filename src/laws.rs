use vstd::prelude::*;
use crate::message::{MessageView, NodeError, PayloadView};
use crate::node::{
    already_initialized_text, destination_mismatch_text, error_reply, initial_state, ok_reply,
    step, NodeView, ALREADY_INITIALIZED, DESTINATION_MISMATCH,
};

verus! {

/// The state after `n` handles each message of `ms` in order.
pub open spec fn run(n: NodeView, ms: Seq<MessageView>) -> NodeView
    decreases ms.len(),
{
    if ms.len() == 0 {
        n
    } else {
        step(run(n, ms.drop_last()), ms.last(), Seq::empty()).0
    }
}

/// The sum of the deltas of the `Add` messages in `ms`.
pub open spec fn sum_of_adds(ms: Seq<MessageView>) -> int
    decreases ms.len(),
{
    if ms.len() == 0 {
        0
    } else {
        sum_of_adds(ms.drop_last()) + match ms.last().body.payload {
            PayloadView::Add { delta } => delta as int,
            _ => 0,
        }
    }
}

/// An `Init` that reaches an initialized node is refused with the
/// already-initialized error, and the node keeps its id, peers, counter and
/// broadcast values.
pub proof fn lemma_second_init_refused(n: NodeView, m: MessageView, fresh: Seq<char>)
    requires
        m.dst == n.id,
        m.body.payload is Init,
    ensures
        step(n, m, fresh) == (n, Ok::<MessageView, NodeError>(
            error_reply(n, m, ALREADY_INITIALIZED, already_initialized_text()),
        )),
{
}

/// Echo hands back the very string it received, and changes nothing.
pub proof fn lemma_echo_round_trip(n: NodeView, m: MessageView, fresh: Seq<char>, s: Seq<char>)
    requires
        m.dst == n.id,
        m.body.payload == (PayloadView::Echo { echo: s }),
    ensures
        step(n, m, fresh).0 == n,
        step(n, m, fresh).1 is Ok,
        step(n, m, fresh).1->Ok_0.body.payload == (PayloadView::EchoOk { echo: s }),
{
}

/// Broadcasting one value twice leaves the same set of values, of the same
/// size, as broadcasting it once, and both calls are acknowledged.
pub proof fn lemma_broadcast_idempotent(
    n: NodeView,
    m1: MessageView,
    m2: MessageView,
    f1: Seq<char>,
    f2: Seq<char>,
    v: usize,
)
    requires
        m1.dst == n.id,
        m2.dst == n.id,
        m1.body.payload == (PayloadView::Broadcast { message: v }),
        m2.body.payload == (PayloadView::Broadcast { message: v }),
    ensures
        ({
            let (once, r1) = step(n, m1, f1);
            let (twice, r2) = step(once, m2, f2);
            &&& twice.messages == once.messages
            &&& twice.messages.len() == once.messages.len()
            &&& once.messages == n.messages.insert(v)
            &&& r1 is Ok && r1->Ok_0.body.payload == PayloadView::BroadcastOk
            &&& r2 is Ok && r2->Ok_0.body.payload == PayloadView::BroadcastOk
        }),
{
}

/// After a node is initialized, a run of `Add` messages addressed to it
/// leaves the counter at the sum of their deltas, and a `Read` then reports
/// that sum (zero when there were no `Add` messages). This holds while the sum
/// fits in a `usize`; beyond it the counter wraps.
pub proof fn lemma_add_then_read(
    node_id: Seq<char>,
    node_ids: Seq<Seq<char>>,
    ms: Seq<MessageView>,
    read: MessageView,
    fresh: Seq<char>,
)
    requires
        forall|i: int| 0 <= i < ms.len() ==> (#[trigger] ms[i]).dst == node_id && ms[i].body.payload is Add,
        sum_of_adds(ms) <= usize::MAX,
        read.dst == node_id,
        read.body.payload is Read,
    ensures
        run(initial_state(node_id, node_ids), ms).counter == sum_of_adds(ms),
        ({
            let n = run(initial_state(node_id, node_ids), ms);
            step(n, read, fresh) == (n, Ok::<MessageView, NodeError>(
                ok_reply(n, read, PayloadView::ReadOk { value: sum_of_adds(ms) as usize }),
            ))
        }),
{
    lemma_adds_accumulate(initial_state(node_id, node_ids), ms);
}

/// A run of `Add` messages addressed to `n` keeps its id and adds the sum of
/// the deltas to its counter, while that fits in a `usize`.
pub proof fn lemma_adds_accumulate(n: NodeView, ms: Seq<MessageView>)
    requires
        forall|i: int| 0 <= i < ms.len() ==> (#[trigger] ms[i]).dst == n.id && ms[i].body.payload is Add,
        n.counter + sum_of_adds(ms) <= usize::MAX,
    ensures
        run(n, ms).id == n.id,
        run(n, ms).counter == n.counter + sum_of_adds(ms),
    decreases ms.len(),
{
    if ms.len() > 0 {
        let init = ms.drop_last();
        assert forall|i: int| 0 <= i < init.len() implies (#[trigger] init[i]).dst == n.id
            && init[i].body.payload is Add by {
            assert(init[i] == ms[i]);
        }
        assert(ms.last() == ms[ms.len() - 1]);
        lemma_adds_accumulate(n, init);
    }
}

/// A message addressed to another node gets the destination-mismatch error
/// and changes nothing, whatever its payload.
pub proof fn lemma_destination_mismatch(n: NodeView, m: MessageView, fresh: Seq<char>)
    requires
        m.dst != n.id,
    ensures
        step(n, m, fresh) == (n, Ok::<MessageView, NodeError>(
            error_reply(n, m, DESTINATION_MISMATCH, destination_mismatch_text()),
        )),
{
}

/// A topology is acknowledged and forgotten: the state is unchanged, so every
/// later message is handled exactly as it would have been without it.
pub proof fn lemma_topology_ignored(
    n: NodeView,
    m: MessageView,
    later: MessageView,
    f1: Seq<char>,
    f2: Seq<char>,
)
    requires
        m.dst == n.id,
        m.body.payload is Topology,
    ensures
        step(n, m, f1) == (n, Ok::<MessageView, NodeError>(ok_reply(n, m, PayloadView::TopologyOk))),
        step(step(n, m, f1).0, later, f2) == step(n, later, f2),
{
}

} // verus!
