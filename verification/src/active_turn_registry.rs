//! Active MCP requests, tracked both by request id and by (thread, turn).

use vstd::prelude::*;
use crate::assoc::{AssocList, ViewEq};
use crate::text::str_equal;

verus! {

/// Identifier of a JSON-RPC request: a number or a string.
#[derive(Debug)]
pub enum RequestId {
    Number(i64),
    String(String),
}

/// The content of a [`RequestId`].
pub enum RequestIdView {
    Number(i64),
    String(Seq<char>),
}

impl View for RequestId {
    type V = RequestIdView;

    open spec fn view(&self) -> RequestIdView {
        match self {
            RequestId::Number(n) => RequestIdView::Number(*n),
            RequestId::String(s) => RequestIdView::String(s@),
        }
    }
}

impl RequestId {
    /// A copy of this id.
    pub fn duplicate(&self) -> (r: RequestId)
        ensures
            r@ == self@,
    {
        match self {
            RequestId::Number(n) => RequestId::Number(*n),
            RequestId::String(s) => RequestId::String(s.clone()),
        }
    }
}

impl ViewEq for RequestId {
    fn view_eq(&self, other: &Self) -> (r: bool) {
        match (self, other) {
            (RequestId::Number(a), RequestId::Number(b)) => *a == *b,
            (RequestId::String(a), RequestId::String(b)) => str_equal(a.as_str(), b.as_str()),
            _ => false,
        }
    }
}

/// Identifier of a Codex thread (a UUID, by its 128 bits).
#[derive(Clone, Copy, Debug, PartialEq, Eq, Structural)]
pub struct ThreadId {
    pub uuid: u128,
}

/// A turn of a thread.
#[derive(Debug)]
pub struct TurnKey {
    pub thread_id: ThreadId,
    pub turn_id: String,
}

impl View for TurnKey {
    type V = (ThreadId, Seq<char>);

    open spec fn view(&self) -> (ThreadId, Seq<char>) {
        (self.thread_id, self.turn_id@)
    }
}

impl ViewEq for TurnKey {
    fn view_eq(&self, other: &Self) -> (r: bool) {
        self.thread_id == other.thread_id && str_equal(self.turn_id.as_str(), other.turn_id.as_str())
    }
}

/// The turn entries left once `request_id` is dropped: its turn's entry goes,
/// whichever request that entry points at.
pub open spec fn turns_without(
    requests: Map<RequestIdView, (ThreadId, Seq<char>)>,
    turns: Map<(ThreadId, Seq<char>), RequestIdView>,
    request_id: RequestIdView,
) -> Map<(ThreadId, Seq<char>), RequestIdView> {
    if requests.contains_key(request_id) {
        turns.remove(requests[request_id])
    } else {
        turns
    }
}

/// Tracks active MCP requests by both request id and Codex turn.
#[derive(Debug)]
pub struct ActiveTurnRegistry {
    by_request: AssocList<RequestId, TurnKey>,
    by_thread_and_turn: AssocList<TurnKey, RequestId>,
}

impl ActiveTurnRegistry {
    /// The turn that each active request belongs to.
    pub closed spec fn requests(&self) -> Map<RequestIdView, (ThreadId, Seq<char>)> {
        self.by_request.map()
    }

    /// The request registered for each turn.
    pub closed spec fn turns(&self) -> Map<(ThreadId, Seq<char>), RequestIdView> {
        self.by_thread_and_turn.map()
    }

    /// Every turn entry points at an active request that belongs to that turn.
    pub open spec fn turn_index_consistent(
        requests: Map<RequestIdView, (ThreadId, Seq<char>)>,
        turns: Map<(ThreadId, Seq<char>), RequestIdView>,
    ) -> bool {
        forall|k: (ThreadId, Seq<char>)| #[trigger] turns.contains_key(k) ==>
            requests.contains_key(turns[k]) && requests[turns[k]] == k
    }

    pub closed spec fn well_formed(&self) -> bool {
        &&& self.by_request.well_formed()
        &&& self.by_thread_and_turn.well_formed()
        &&& Self::turn_index_consistent(self.requests(), self.turns())
    }

    /// A registry with no active request.
    pub fn new() -> (r: ActiveTurnRegistry)
        ensures
            r.well_formed(),
            r.requests() == Map::<RequestIdView, (ThreadId, Seq<char>)>::empty(),
            r.turns() == Map::<(ThreadId, Seq<char>), RequestIdView>::empty(),
    {
        ActiveTurnRegistry { by_request: AssocList::new(), by_thread_and_turn: AssocList::new() }
    }

    /// Records `request_id` as the active request of `turn_id` in `thread_id`,
    /// dropping the turn entry of the turn it was registered with before.
    pub fn register(&mut self, request_id: RequestId, thread_id: ThreadId, turn_id: String)
        requires
            old(self).well_formed(),
        ensures
            final(self).well_formed(),
            final(self).requests() == old(self).requests().insert(request_id@, (thread_id, turn_id@)),
            final(self).turns() == turns_without(old(self).requests(), old(self).turns(), request_id@).insert((thread_id, turn_id@), request_id@),
    {
        let ghost old_requests = self.requests();
        let ghost old_turns = self.turns();
        let ghost key = (thread_id, turn_id@);
        let active_turn = TurnKey { thread_id, turn_id: turn_id.clone() };
        let previous = self.by_request.insert(request_id.duplicate(), active_turn);
        if let Some(previous_turn) = previous {
            let _ = self.by_thread_and_turn.remove(&previous_turn);
        }
        let ghost mid_turns = self.turns();
        let _ = self.by_thread_and_turn.insert(TurnKey { thread_id, turn_id }, request_id);
        proof {
            let requests = self.requests();
            let turns = self.turns();
            assert forall|k: (ThreadId, Seq<char>)| #[trigger] turns.contains_key(k) implies
                requests.contains_key(turns[k]) && requests[turns[k]] == k by {
                if k != key {
                    assert(mid_turns.contains_key(k));
                    assert(old_turns.contains_key(k));
                    let r = old_turns[k];
                    assert(old_requests[r] == k);
                    if r == request_id@ {
                        assert(old_requests.contains_key(request_id@));
                        assert(!mid_turns.contains_key(old_requests[request_id@]));
                    }
                }
            }
        }
    }

    /// The thread of the active request `request_id`.
    pub fn thread_id(&self, request_id: &RequestId) -> (r: Option<ThreadId>)
        requires
            self.well_formed(),
        ensures
            match r {
                Some(t) => self.requests().contains_key(request_id@) && self.requests()[request_id@].0 == t,
                None => !self.requests().contains_key(request_id@),
            },
    {
        match self.by_request.get(request_id) {
            Some(active_turn) => Some(active_turn.thread_id),
            None => None,
        }
    }

    /// The request registered for the turn `turn_id` of `thread_id`, if any.
    pub fn request_id_for(&self, thread_id: ThreadId, turn_id: &str) -> (r: Option<&RequestId>)
        requires
            self.well_formed(),
        ensures
            match r {
                Some(id) => self.turns().contains_key((thread_id, turn_id@)) && self.turns()[(thread_id, turn_id@)] == id@,
                None => !self.turns().contains_key((thread_id, turn_id@)),
            },
    {
        let key = TurnKey { thread_id, turn_id: crate::text::string_of(turn_id) };
        self.by_thread_and_turn.get(&key)
    }

    /// Calls `f` with the request registered for the turn, if there is one;
    /// returns whether there was.
    pub fn with_request_id<F: FnOnce(&RequestId)>(&self, thread_id: ThreadId, turn_id: &str, f: F) -> (r: bool)
        requires
            self.well_formed(),
            forall|id: &RequestId| f.requires((id,)),
        ensures
            r == self.turns().contains_key((thread_id, turn_id@)),
            r ==> exists|id: &RequestId| {
                &&& id@ == self.turns()[(thread_id, turn_id@)]
                &&& self.requests().contains_key(id@)
                &&& self.requests()[id@] == (thread_id, turn_id@)
                &&& #[trigger] f.ensures((id,), ())
            },
    {
        match self.request_id_for(thread_id, turn_id) {
            Some(request_id) => {
                f(request_id);
                assert(f.ensures((request_id,), ()));
                true
            },
            None => false,
        }
    }

    fn remove(&mut self, request_id: &RequestId)
        requires
            old(self).well_formed(),
        ensures
            final(self).well_formed(),
            final(self).requests() == old(self).requests().remove(request_id@),
            final(self).turns() == turns_without(old(self).requests(), old(self).turns(), request_id@),
    {
        let ghost old_requests = self.requests();
        let ghost old_turns = self.turns();
        if let Some(active_turn) = self.by_request.remove(request_id) {
            let _ = self.by_thread_and_turn.remove(&active_turn);
        }
        proof {
            let requests = self.requests();
            let turns = self.turns();
            assert forall|k: (ThreadId, Seq<char>)| #[trigger] turns.contains_key(k) implies
                requests.contains_key(turns[k]) && requests[turns[k]] == k by {
                assert(old_turns.contains_key(k));
                let r = old_turns[k];
                if r == request_id@ {
                    assert(old_requests[request_id@] == k);
                }
            }
        }
    }

    /// Drops the request `request_id` and its turn entry.
    pub fn unregister(&mut self, request_id: &RequestId)
        requires
            old(self).well_formed(),
        ensures
            final(self).well_formed(),
            final(self).requests() == old(self).requests().remove(request_id@),
            final(self).turns() == turns_without(old(self).requests(), old(self).turns(), request_id@),
    {
        self.remove(request_id);
    }

    /// Drops the request `request_id` and its turn entry, then calls `finish`.
    pub fn finish<F: FnOnce()>(&mut self, request_id: &RequestId, finish: F)
        requires
            old(self).well_formed(),
            finish.requires(()),
        ensures
            finish.ensures((), ()),
            final(self).well_formed(),
            final(self).requests() == old(self).requests().remove(request_id@),
            final(self).turns() == turns_without(old(self).requests(), old(self).turns(), request_id@),
    {
        self.remove(request_id);
        finish();
    }
}

/// Every turn route of a registry points at an active request, and that
/// request belongs to the route's thread and turn.
pub proof fn lemma_turn_routes_point_at_their_requests(registry: &ActiveTurnRegistry)
    requires
        registry.well_formed(),
    ensures
        ActiveTurnRegistry::turn_index_consistent(registry.requests(), registry.turns()),
{
}

/// After an unregister, no turn points at the dropped request.
pub proof fn lemma_unregistered_request_is_unreachable(
    requests: Map<RequestIdView, (ThreadId, Seq<char>)>,
    turns: Map<(ThreadId, Seq<char>), RequestIdView>,
    request_id: RequestIdView,
)
    requires
        ActiveTurnRegistry::turn_index_consistent(requests, turns),
    ensures
        forall|k: (ThreadId, Seq<char>)| #[trigger] turns_without(requests, turns, request_id).contains_key(k)
            ==> turns_without(requests, turns, request_id)[k] != request_id,
{
    assert forall|k: (ThreadId, Seq<char>)| #[trigger] turns_without(requests, turns, request_id).contains_key(k)
        implies turns_without(requests, turns, request_id)[k] != request_id by {
        assert(turns.contains_key(k));
        if turns[k] == request_id {
            assert(requests[request_id] == k);
        }
    }
}

/// After a register, the request is found both by id and by its turn.
pub proof fn lemma_registered_request_is_found(
    requests: Map<RequestIdView, (ThreadId, Seq<char>)>,
    turns: Map<(ThreadId, Seq<char>), RequestIdView>,
    request_id: RequestIdView,
    thread_id: ThreadId,
    turn_id: Seq<char>,
)
    ensures
        requests.insert(request_id, (thread_id, turn_id))[request_id] == (thread_id, turn_id),
        turns_without(requests, turns, request_id)
            .insert((thread_id, turn_id), request_id)[(thread_id, turn_id)] == request_id,
{
}

} // verus!
