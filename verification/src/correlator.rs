//! Request correlation: pairing each outbound request id with a single-use
//! completion handle that resolves when the matching response arrives, or is
//! cancelled on timeout.

use vstd::prelude::*;
use crate::registry::Registry;

verus! {

/// The pending-request table. At most one waiter is parked per request id,
/// and an entry leaves the table exactly once: by resolution or by
/// cancellation, never both.
pub struct Correlator<W> {
    pending: Registry<W>,
}

impl<W> View for Correlator<W> {
    type V = Map<Seq<char>, W>;

    closed spec fn view(&self) -> Map<Seq<char>, W> {
        self.pending@
    }
}

impl<W> Correlator<W> {
    /// Well-formed; established by [`Correlator::new`] and preserved by
    /// every operation.
    pub closed spec fn wf(self) -> bool {
        self.pending.wf()
    }

    /// An empty table.
    pub fn new() -> (r: Self)
        ensures
            r.wf(),
            r@ == Map::<Seq<char>, W>::empty(),
    {
        Correlator { pending: Registry::new() }
    }

    /// Parks `waiter` under `request_id`. Request ids are caller-generated
    /// and unique per session; parking the same id twice is a caller error,
    /// so the id must not be pending.
    pub fn register(&mut self, request_id: String, waiter: W)
        requires
            old(self).wf(),
            !old(self)@.contains_key(request_id@),
        ensures
            final(self).wf(),
            final(self)@ == old(self)@.insert(request_id@, waiter),
    {
        self.pending.insert(request_id, waiter);
    }

    /// Takes the waiter parked under `request_id`, removing the entry. A
    /// late or duplicate response finds no entry and changes nothing — it
    /// must be ignored, not treated as a fault.
    pub fn resolve(&mut self, request_id: &str) -> (r: Option<W>)
        requires
            old(self).wf(),
        ensures
            final(self).wf(),
            match r {
                Some(w) => old(self)@.contains_key(request_id@) && w == old(self)@[request_id@]
                    && final(self)@ == old(self)@.remove(request_id@),
                None => !old(self)@.contains_key(request_id@) && final(self)@ == old(self)@,
            },
    {
        self.pending.remove(request_id)
    }

    /// Cancels the entry for `request_id` (the caller timed out or gave
    /// up), so that a response arriving later finds nothing and is safely
    /// ignored. Removal behaves exactly as [`Correlator::resolve`].
    pub fn cancel(&mut self, request_id: &str) -> (r: Option<W>)
        requires
            old(self).wf(),
        ensures
            final(self).wf(),
            match r {
                Some(w) => old(self)@.contains_key(request_id@) && w == old(self)@[request_id@]
                    && final(self)@ == old(self)@.remove(request_id@),
                None => !old(self)@.contains_key(request_id@) && final(self)@ == old(self)@,
            },
    {
        self.pending.remove(request_id)
    }

    /// Whether a waiter is parked under `request_id`.
    pub fn is_pending(&self, request_id: &str) -> (r: bool)
        requires
            self.wf(),
        ensures
            r == self@.contains_key(request_id@),
    {
        self.pending.contains_key(request_id)
    }

    /// How many requests are pending.
    pub fn len(&self) -> (r: usize)
        requires
            self.wf(),
        ensures
            r == self@.len(),
    {
        self.pending.len()
    }
}

/// Law (request correlation round trip). Parking a waiter under a fresh id
/// and then resolving that id yields exactly the parked waiter and removes
/// the entry, restoring the table; resolving once more — or resolving any id
/// with no pending entry — finds nothing and leaves the table as it is.
/// Together with the contracts of [`Correlator::register`] and
/// [`Correlator::resolve`], this pins the dispatch/response round trip.
pub proof fn lemma_correlation_round_trip<W>(m: Map<Seq<char>, W>, id: Seq<char>, w: W)
    requires
        !m.contains_key(id),
    ensures
        m.insert(id, w).contains_key(id),
        m.insert(id, w)[id] == w,
        m.insert(id, w).remove(id) == m,
        m.remove(id) == m,
{
    assert(m.insert(id, w).remove(id) =~= m);
    assert(m.remove(id) =~= m);
}

} // verus!
