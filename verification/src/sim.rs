//! A simulated shared bus medium for tests and demos.
//!
//! [`SimMedium`] holds one bounded receive queue per attached node. A transmit
//! from one node is broadcast to every other node; a queue that already holds
//! [`SIM_RX_QUEUE_LEN`] frames silently drops the new one. While the medium is
//! faulted (bus-off, link down) transmits are refused and nothing is
//! delivered. The same medium serves CAN, LIN and SOME/IP simulations.
use vstd::prelude::*;
use std::collections::VecDeque;
use crate::bus::BusError;

verus! {

/// Depth of each simulated node's receive queue.
pub const SIM_RX_QUEUE_LEN: usize = 16;

/// The receive queues after `frame` is broadcast by node `sender`: every other
/// queue with room gains the frame at its back.
pub open spec fn broadcast<F>(queues: Seq<Seq<F>>, sender: int, frame: F) -> Seq<Seq<F>> {
    Seq::new(
        queues.len(),
        |i: int|
            if i != sender && queues[i].len() < SIM_RX_QUEUE_LEN {
                queues[i].push(frame)
            } else {
                queues[i]
            },
    )
}

/// A shared simulated medium connecting a set of nodes.
pub struct SimMedium<F> {
    inboxes: Vec<VecDeque<F>>,
    fault: bool,
}

impl<F: Copy> SimMedium<F> {
    /// The receive queue of each attached node, oldest frame first.
    pub closed spec fn queues(&self) -> Seq<Seq<F>> {
        Seq::new(self.inboxes@.len(), |i: int| self.inboxes@[i]@)
    }

    /// Whether the medium is in a fault state.
    pub closed spec fn faulted(&self) -> bool {
        self.fault
    }

    /// Creates a medium with no nodes and no fault.
    pub fn new() -> (r: Self)
        ensures
            r.queues() == Seq::<Seq<F>>::empty(),
            !r.faulted(),
    {
        let r = SimMedium { inboxes: Vec::new(), fault: false };
        assert(r.queues() =~= Seq::<Seq<F>>::empty());
        r
    }

    /// Attaches a node with an empty receive queue and returns its index.
    pub fn attach(&mut self) -> (node: usize)
        ensures
            node == old(self).queues().len(),
            final(self).queues() == old(self).queues().push(Seq::<F>::empty()),
            final(self).faulted() == old(self).faulted(),
    {
        let node = self.inboxes.len();
        self.inboxes.push(VecDeque::new());
        assert(self.queues() =~= old(self).queues().push(Seq::<F>::empty()));
        node
    }

    /// Sets or clears the fault state.
    pub fn set_fault(&mut self, on: bool)
        ensures
            final(self).faulted() == on,
            final(self).queues() == old(self).queues(),
    {
        self.fault = on;
    }

    /// Returns `true` while the medium is faulted.
    pub fn is_faulted(&self) -> (r: bool)
        ensures
            r == self.faulted(),
    {
        self.fault
    }

    /// Broadcasts `frame` from node `sender`; refused with
    /// [`BusError::BusOff`] while faulted.
    pub fn transmit(&mut self, sender: usize, frame: F) -> (r: Result<(), BusError>)
        ensures
            old(self).faulted() ==> r == Err::<(), BusError>(BusError::BusOff) && final(self).queues()
                == old(self).queues(),
            !old(self).faulted() ==> r == Ok::<(), BusError>(()) && final(self).queues() == broadcast(
                old(self).queues(),
                sender as int,
                frame,
            ),
            final(self).faulted() == old(self).faulted(),
    {
        if self.fault {
            return Err(BusError::BusOff);
        }
        let ghost start = self.queues();
        let n = self.inboxes.len();
        let mut i: usize = 0;
        while i < n
            invariant
                n == self.inboxes@.len(),
                n == start.len(),
                i <= n,
                !self.fault,
                forall|k: int|
                    0 <= k < i ==> #[trigger] self.inboxes@[k]@ == broadcast(start, sender as int, frame)[k],
                forall|k: int| i <= k < n ==> #[trigger] self.inboxes@[k]@ == start[k],
            decreases n - i,
        {
            let ghost before = self.inboxes@;
            if i != sender && self.inboxes[i].len() < SIM_RX_QUEUE_LEN {
                self.inboxes[i].push_back(frame);
                assert(self.inboxes@ =~= before.update(i as int, self.inboxes@[i as int]));
            }
            assert(self.inboxes@[i as int]@ == broadcast(start, sender as int, frame)[i as int]);
            i = i + 1;
        }
        assert(self.queues() =~= broadcast(start, sender as int, frame));
        Ok(())
    }

    /// Takes the oldest frame queued for `node`.
    pub fn receive(&mut self, node: usize) -> (r: Result<F, BusError>)
        requires
            node < old(self).queues().len(),
        ensures
            old(self).queues()[node as int].len() == 0 ==> r == Err::<F, BusError>(
                BusError::RxQueueEmpty,
            ) && final(self).queues() == old(self).queues(),
            old(self).queues()[node as int].len() > 0 ==> r == Ok::<F, BusError>(
                old(self).queues()[node as int][0],
            ) && final(self).queues() == old(self).queues().update(
                node as int,
                old(self).queues()[node as int].drop_first(),
            ),
            final(self).faulted() == old(self).faulted(),
    {
        let r = match self.inboxes[node].pop_front() {
            Some(frame) => Ok(frame),
            None => Err(BusError::RxQueueEmpty),
        };
        proof {
            let q = old(self).queues()[node as int];
            if q.len() == 0 {
                assert(self.queues() =~= old(self).queues());
            } else {
                assert(self.queues() =~= old(self).queues().update(node as int, q.drop_first()));
            }
        }
        r
    }

    /// Returns `true` if a frame is queued for `node`.
    pub fn pending(&self, node: usize) -> (r: bool)
        requires
            node < self.queues().len(),
        ensures
            r == (self.queues()[node as int].len() > 0),
    {
        self.inboxes[node].len() > 0
    }
}

/// A broadcast never delivers to its sender, and every other node with
/// room receives the frame behind what it already held.
pub proof fn lemma_broadcast_reaches_others<F>(queues: Seq<Seq<F>>, sender: int, frame: F, node: int)
    requires
        0 <= node < queues.len(),
    ensures
        node == sender ==> broadcast(queues, sender, frame)[node] == queues[node],
        node != sender && queues[node].len() < SIM_RX_QUEUE_LEN ==> broadcast(
            queues,
            sender,
            frame,
        )[node] == queues[node].push(frame),
        node != sender && queues[node].len() >= SIM_RX_QUEUE_LEN ==> broadcast(
            queues,
            sender,
            frame,
        )[node] == queues[node],
        broadcast(queues, sender, frame)[node].len() <= SIM_RX_QUEUE_LEN || broadcast(
            queues,
            sender,
            frame,
        )[node] == queues[node],
{
}

} // verus!
