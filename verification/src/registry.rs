//! The connection registry: the outbound queues of the connected peers, and
//! the fan-out of one text to all of them.

use crate::channel::{text_message, Outbound};
use vstd::prelude::*;

verus! {

/// One registered peer: its handle and the sending half of its queue.
struct Peer {
    handle: u64,
    sender: Outbound,
}

/// What became of one text at one peer: whether the peer's queue took it.
#[derive(Clone, Copy, Debug, PartialEq, Eq, Structural)]
pub struct Delivery {
    pub handle: u64,
    pub accepted: bool,
}

/// The peers that a report speaks of, in its order.
pub open spec fn recipients(report: Seq<Delivery>) -> Seq<u64> {
    Seq::new(report.len(), |i: int| report[i].handle)
}

/// The handles without one of them. The others keep their order.
pub open spec fn without(handles: Seq<u64>, handle: u64) -> Seq<u64> {
    if handles.contains(handle) {
        handles.remove(handles.index_of(handle))
    } else {
        handles
    }
}

/// The entry that a send to a peer leaves in the report, for either
/// outcome of the send.
pub fn delivery(handle: u64, accepted: bool) -> (entry: Delivery)
    ensures
        entry == (Delivery { handle, accepted }),
{
    Delivery { handle, accepted }
}

/// The registered peers, in the order in which they registered.
pub struct Registry {
    peers: Vec<Peer>,
    next: u64,
}

impl Registry {
    #[verifier::type_invariant]
    spec fn well_formed(self) -> bool {
        &&& forall|i: int| 0 <= i < self.peers@.len() ==> (#[trigger] self.peers@[i]).handle < self.next
        &&& forall|i: int, j: int|
            0 <= i < j < self.peers@.len() ==> (#[trigger] self.peers@[i]).handle < (
            #[trigger] self.peers@[j]).handle
    }

    /// The handles of the registered peers, in the order of registration.
    pub closed spec fn handles(&self) -> Seq<u64> {
        Seq::new(self.peers@.len(), |i: int| self.peers@[i].handle)
    }

    /// The handle that the next peer to register gets.
    pub closed spec fn next_handle(&self) -> u64 {
        self.next
    }

    /// A registry without peers.
    pub fn new() -> (registry: Registry)
        ensures
            registry.handles() == Seq::<u64>::empty(),
            registry.next_handle() == 0,
    {
        Registry { peers: Vec::new(), next: 0 }
    }

    /// The number of registered peers.
    pub fn len(&self) -> (n: usize)
        ensures
            n == self.handles().len(),
    {
        self.peers.len()
    }

    /// Whether no peer is registered.
    pub fn is_empty(&self) -> (empty: bool)
        ensures
            empty == (self.handles().len() == 0),
    {
        self.peers.len() == 0
    }

    /// Whether a peer with this handle is registered.
    pub fn contains(&self, handle: u64) -> (found: bool)
        ensures
            found == self.handles().contains(handle),
    {
        self.position(handle).is_some()
    }

    /// The handles of the registered peers, in the order of registration.
    /// No handle occurs twice, and each is below the next one to be given.
    pub fn handle_list(&self) -> (list: Vec<u64>)
        ensures
            list@ == self.handles(),
            self.handles().no_duplicates(),
            forall|i: int| 0 <= i < list@.len() ==> list@[i] < self.next_handle(),
    {
        proof {
            use_type_invariant(self);
        }
        let mut list: Vec<u64> = Vec::new();
        let mut i: usize = 0;
        while i < self.peers.len()
            invariant
                i <= self.peers@.len(),
                list@ == self.handles().take(i as int),
            decreases self.peers@.len() - i,
        {
            list.push(self.peers[i].handle);
            i += 1;
            assert(list@ == self.handles().take(i as int));
        }
        assert(self.handles().take(self.peers@.len() as int) == self.handles());
        list
    }

    fn position(&self, handle: u64) -> (found: Option<usize>)
        ensures
            match found {
                Some(at) => at < self.handles().len() && self.handles()[at as int] == handle,
                None => !self.handles().contains(handle),
            },
    {
        let mut i: usize = 0;
        while i < self.peers.len()
            invariant
                i <= self.peers@.len(),
                forall|j: int| 0 <= j < i ==> self.handles()[j] != handle,
            decreases self.peers@.len() - i,
        {
            if self.peers[i].handle == handle {
                return Some(i);
            }
            i += 1;
        }
        None
    }

    /// Registers the sending half of a peer's queue and gives the peer a
    /// handle that no peer had before. The peer comes last. Only a registry
    /// that has given out every handle refuses, and then stays as it was.
    pub fn register(&mut self, channel: Outbound) -> (handle: Option<u64>)
        ensures
            match handle {
                Some(h) => {
                    &&& h == old(self).next_handle()
                    &&& h < u64::MAX
                    &&& final(self).next_handle() == h + 1
                    &&& final(self).handles() == old(self).handles().push(h)
                    &&& !old(self).handles().contains(h)
                },
                None => {
                    &&& old(self).next_handle() == u64::MAX
                    &&& final(self).next_handle() == old(self).next_handle()
                    &&& final(self).handles() == old(self).handles()
                },
            },
    {
        proof {
            use_type_invariant(&*self);
        }
        if self.next == u64::MAX {
            return None;
        }
        let handle = self.next;
        let mut taken = Registry::new();
        core::mem::swap(self, &mut taken);
        let Registry { mut peers, next } = taken;
        peers.push(Peer { handle, sender: channel });
        *self = Registry { peers, next: handle + 1 };
        assert(self.handles() == old(self).handles().push(handle));
        Some(handle)
    }

    /// Takes the peer with this handle out, if it is registered, and says
    /// whether it was. The other peers keep their order.
    pub fn unregister(&mut self, handle: u64) -> (removed: bool)
        ensures
            removed == old(self).handles().contains(handle),
            final(self).next_handle() == old(self).next_handle(),
            final(self).handles() == without(old(self).handles(), handle),
    {
        proof {
            use_type_invariant(&*self);
        }
        match self.position(handle) {
            None => false,
            Some(at) => {
                let ghost before = self.handles();
                let mut taken = Registry::new();
                core::mem::swap(self, &mut taken);
                let Registry { mut peers, next } = taken;
                peers.remove(at);
                *self = Registry { peers, next };
                proof {
                    assert(self.handles() == before.remove(at as int));
                    assert(before.contains(handle));
                    let first = before.index_of(handle);
                    assert(0 <= first < before.len() && before[first] == handle);
                    assert(first == at) by {
                        if first < at {
                            assert(old(self).peers@[first].handle < old(self).peers@[at as int].handle);
                        } else if at < first {
                            assert(old(self).peers@[at as int].handle < old(self).peers@[first].handle);
                        }
                    }
                }
                true
            },
        }
    }

    /// Offers the text to the queue of every registered peer, in the order
    /// of registration, and reports for each peer whether its queue took it.
    /// A queue that refuses, because its peer is gone, changes nothing for
    /// the peers after it: every registered peer is offered the text once.
    pub fn broadcast(&self, text: &str) -> (report: Vec<Delivery>)
        ensures
            recipients(report@) == self.handles(),
            self.handles().no_duplicates(),
    {
        proof {
            use_type_invariant(self);
        }
        let mut report: Vec<Delivery> = Vec::new();
        let mut i: usize = 0;
        while i < self.peers.len()
            invariant
                i <= self.peers@.len(),
                report@.len() == i,
                self.handles().len() == self.peers@.len(),
                recipients(report@) == self.handles().take(i as int),
            decreases self.peers@.len() - i,
        {
            let ghost before = report@;
            let peer = &self.peers[i];
            let accepted = match peer.sender.send(text_message(text)) {
                Ok(_) => true,
                Err(_) => false,
            };
            report.push(delivery(peer.handle, accepted));
            i += 1;
            proof {
                let now = recipients(report@);
                let expected = self.handles().take(i as int);
                assert(now.len() == expected.len());
                assert forall|k: int| 0 <= k < now.len() implies now[k] == expected[k] by {
                    if k < i - 1 {
                        assert(report@[k] == before[k]);
                        assert(recipients(before)[k] == self.handles().take(i - 1)[k]);
                    }
                }
                assert(now == expected);
            }
        }
        assert(self.handles().take(self.peers@.len() as int) == self.handles());
        report
    }
}

} // verus!
