//! Correlation of responses with the requests that wait for them.
//!
//! [`RequestBroker`] keeps the identifiers of the requests that wait for a
//! response.  A response names the request it answers in `reply_to`; it is
//! delivered when that request is still waiting, and the request stops
//! waiting.  The application keeps, beside each identifier, the channel on
//! which the waiting caller is woken.

use vstd::prelude::*;
use crate::message::CommunicationMessage;

verus! {

/// Manages pending requests and routes incoming responses to their waiters.
pub struct RequestBroker {
    pending: Vec<String>,
}

/// The identifiers waiting after `id` is registered.
pub open spec fn after_register(pending: Set<Seq<char>>, id: Seq<char>) -> Set<Seq<char>> {
    pending.insert(id)
}

/// Whether a response that replies to `reply_to` is delivered.
pub open spec fn is_delivered(pending: Set<Seq<char>>, reply_to: Option<Seq<char>>) -> bool {
    reply_to matches Some(r) && pending.contains(r)
}

/// The identifiers waiting after a response that replies to `reply_to` arrives.
pub open spec fn after_dispatch(pending: Set<Seq<char>>, reply_to: Option<Seq<char>>) -> Set<
    Seq<char>,
> {
    if is_delivered(pending, reply_to) {
        pending.remove(reply_to->Some_0)
    } else {
        pending
    }
}

/// The text of an optional string.
pub open spec fn opt_view(o: Option<String>) -> Option<Seq<char>> {
    match o {
        Some(s) => Some(s@),
        None => None,
    }
}

impl RequestBroker {
    /// The identifiers of the requests that wait for a response.
    pub closed spec fn pending_ids(&self) -> Set<Seq<char>> {
        Set::new(|k: Seq<char>| exists|i: int| 0 <= i < self.pending@.len() && #[trigger] self.pending@[i]@ == k)
    }

    /// No identifier is held twice.
    #[verifier::type_invariant]
    spec fn wf(&self) -> bool {
        forall|i: int, j: int|
            0 <= i < j < self.pending@.len() ==> #[trigger] self.pending@[i]@ != #[trigger] self.pending@[j]@
    }

    /// Create a new, empty `RequestBroker`.
    pub fn new() -> (b: Self)
        ensures
            b.pending_ids() == Set::<Seq<char>>::empty(),
    {
        let b = RequestBroker { pending: Vec::new() };
        assert(b.pending_ids() =~= Set::<Seq<char>>::empty());
        b
    }

    fn position(&self, id: &String) -> (r: Option<usize>)
        ensures
            r matches Some(i) ==> i < self.pending@.len() && self.pending@[i as int]@ == id@,
            r is None ==> forall|i: int| 0 <= i < self.pending@.len() ==> self.pending@[i]@ != id@,
    {
        let mut i: usize = 0;
        while i < self.pending.len()
            invariant
                i <= self.pending@.len(),
                forall|k: int| 0 <= k < i ==> self.pending@[k]@ != id@,
            decreases self.pending@.len() - i,
        {
            if self.pending[i].eq(id) {
                return Some(i);
            }
            i = i + 1;
        }
        None
    }

    /// Register a request by ID; it then waits for the matching response.
    /// Returns `true` when a request with the same ID was already waiting:
    /// the new request takes its place.
    pub fn register_request(&mut self, id: String) -> (replaced: bool)
        ensures
            final(self).pending_ids() == after_register(old(self).pending_ids(), id@),
            replaced == old(self).pending_ids().contains(id@),
    {
        proof {
            use_type_invariant(&*self);
        }
        match self.position(&id) {
            Some(i) => {
                proof {
                    assert(self.pending_ids().contains(id@));
                    assert(self.pending_ids().insert(id@) =~= self.pending_ids());
                }
                true
            },
            None => {
                let ghost old_ids = self.pending_ids();
                let ghost id_view = id@;
                assert(!old_ids.contains(id_view));
                let mut ids = self.pending.clone();
                assert(ids@ =~= self.pending@);
                ids.push(id);
                self.pending = ids;
                assert(self.pending_ids() =~= old_ids.insert(id_view)) by {
                    assert forall|k: Seq<char>| old_ids.insert(id_view).contains(k) implies self.pending_ids().contains(k) by {
                        if k == id_view {
                            assert(self.pending@[self.pending@.len() - 1]@ == k);
                        } else {
                            let i = choose|i: int| 0 <= i < old(self).pending@.len() && #[trigger] old(self).pending@[i]@ == k;
                            assert(self.pending@[i]@ == k);
                        }
                    }
                }
                false
            },
        }
    }

    /// Try to deliver a response to a waiting caller.
    ///
    /// Returns `true` if `message.reply_to` matched a pending request, which
    /// stops waiting; `false` otherwise (an unsolicited message).
    pub fn dispatch_response(&mut self, message: &CommunicationMessage) -> (delivered: bool)
        ensures
            delivered == is_delivered(old(self).pending_ids(), opt_view(message.reply_to)),
            final(self).pending_ids() == after_dispatch(old(self).pending_ids(), opt_view(message.reply_to)),
    {
        proof {
            use_type_invariant(&*self);
        }
        match &message.reply_to {
            Some(reply_to) => match self.position(reply_to) {
                Some(i) => {
                    let ghost old_ids = self.pending_ids();
                    let ghost old_pending = self.pending@;
                    let mut ids = self.pending.clone();
                    assert(ids@ =~= self.pending@);
                    ids.remove(i);
                    proof {
                        assert forall|a: int, b: int|
                            0 <= a < b < ids@.len() implies #[trigger] ids@[a]@ != #[trigger] ids@[b]@ by {
                            let a0 = if a < i { a } else { a + 1 };
                            let b0 = if b < i { b } else { b + 1 };
                            assert(ids@[a] == old_pending[a0]);
                            assert(ids@[b] == old_pending[b0]);
                        }
                    }
                    self.pending = ids;
                    assert(self.pending_ids() =~= old_ids.remove(reply_to@)) by {
                        assert forall|k: Seq<char>| self.pending_ids().contains(k) implies old_ids.remove(reply_to@).contains(k) by {
                            let j = choose|j: int| 0 <= j < self.pending@.len() && #[trigger] self.pending@[j]@ == k;
                            if j < i {
                                assert(old_pending[j]@ == k);
                            } else {
                                assert(old_pending[j + 1]@ == k);
                            }
                        }
                        assert forall|k: Seq<char>| old_ids.remove(reply_to@).contains(k) implies self.pending_ids().contains(k) by {
                            let j = choose|j: int| 0 <= j < old_pending.len() && #[trigger] old_pending[j]@ == k;
                            if j < i {
                                assert(self.pending@[j]@ == k);
                            } else {
                                assert(self.pending@[j - 1]@ == k);
                            }
                        }
                    }
                    true
                },
                None => false,
            },
            None => false,
        }
    }
}

/// A response reaches the request it answers exactly once: right after the
/// request is registered, a reply to it is delivered, and the same reply
/// arriving again is not.
pub proof fn lemma_reply_delivered_once(pending: Set<Seq<char>>, id: Seq<char>)
    ensures
        is_delivered(after_register(pending, id), Some(id)),
        !is_delivered(after_dispatch(after_register(pending, id), Some(id)), Some(id)),
{
}

/// A message that replies to no waiting request changes nothing.
pub proof fn lemma_unsolicited_ignored(pending: Set<Seq<char>>, reply_to: Option<Seq<char>>)
    requires
        !is_delivered(pending, reply_to),
    ensures
        after_dispatch(pending, reply_to) == pending,
{
}

/// Delivering a response leaves every other waiting request waiting.
pub proof fn lemma_dispatch_keeps_others(pending: Set<Seq<char>>, reply_to: Option<Seq<char>>, other: Seq<char>)
    requires
        pending.contains(other),
        reply_to != Some(other),
    ensures
        after_dispatch(pending, reply_to).contains(other),
{
}

} // verus!
