//! The per-order coalescing that lets one cancel coordinator work on an order while
//! the other callers for the same order wait for its outcome.
use vstd::prelude::*;
use crate::types::{ids_model, lemma_ids_push, lemma_ids_remove, ClientOrderId};

verus! {

/// What a caller does on arriving.
#[derive(Clone, Copy, Debug, PartialEq, Eq, Structural)]
pub enum FlightRole {
    /// The caller does the work and publishes the outcome.
    Leader,
    /// Another caller does the work; this one waits for its outcome.
    Follower,
}

/// The role of a caller for `id` when `in_flight` holds the orders being worked on.
pub open spec fn role_for(in_flight: Set<Seq<char>>, id: Seq<char>) -> FlightRole {
    if in_flight.contains(id) {
        FlightRole::Follower
    } else {
        FlightRole::Leader
    }
}

/// The orders being worked on, each with the channel `V` on which its outcome is published.
pub struct SingleFlight<V> {
    ids: Vec<ClientOrderId>,
    channels: Vec<V>,
    model: Ghost<Set<Seq<char>>>,
}

impl<V> SingleFlight<V> {
    /// The orders being worked on.
    pub closed spec fn view(&self) -> Set<Seq<char>> {
        self.model@
    }

    pub closed spec fn wf(&self) -> bool {
        &&& self.ids@.len() == self.channels@.len()
        &&& ids_model(self.ids@, self.model@)
    }

    /// The channel kept for `id`, if it is in flight.
    pub closed spec fn channel_of(&self, id: Seq<char>) -> V
        recommends
            self@.contains(id),
    {
        let i = choose|i: int| 0 <= i < self.ids@.len() && self.ids@[i]@ == id;
        self.channels@[i]
    }

    pub fn new() -> (r: Self)
        ensures
            r.wf(),
            r@ == Set::<Seq<char>>::empty(),
    {
        SingleFlight { ids: Vec::new(), channels: Vec::new(), model: Ghost(Set::empty()) }
    }

    fn find(&self, id: &ClientOrderId) -> (r: Option<usize>)
        requires
            self.wf(),
        ensures
            match r {
                Some(i) => i < self.ids@.len() && self.ids@[i as int]@ == id@,
                None => !self@.contains(id@),
            },
    {
        let mut i: usize = 0;
        while i < self.ids.len()
            invariant
                self.wf(),
                i <= self.ids@.len(),
                forall|j: int| 0 <= j < i ==> self.ids@[j]@ != id@,
            decreases self.ids@.len() - i,
        {
            if self.ids[i] == *id {
                return Some(i);
            }
            i = i + 1;
        }
        None
    }

    /// The channel of the caller that works on `id`, if one does.
    pub fn channel(&self, id: &ClientOrderId) -> (r: Option<&V>)
        requires
            self.wf(),
        ensures
            r is Some <==> self@.contains(id@),
            r matches Some(c) ==> *c == self.channel_of(id@),
    {
        match self.find(id) {
            Some(i) => {
                let ghost j = choose|j: int| 0 <= j < self.ids@.len() && self.ids@[j]@ == id@;
                assert(i == j);
                Some(&self.channels[i])
            },
            None => None,
        }
    }

    /// Arrives for `id`: the first caller becomes the leader and
    /// leaves `channel` for the followers; a later caller is a follower and
    /// changes nothing.
    pub fn enter(&mut self, id: &ClientOrderId, channel: V) -> (r: FlightRole)
        requires
            old(self).wf(),
        ensures
            final(self).wf(),
            r == role_for(old(self)@, id@),
            final(self)@ == old(self)@.insert(id@),
            r == FlightRole::Leader ==> final(self).channel_of(id@) == channel,
    {
        match self.find(id) {
            Some(_) => {
                assert(self.model@.insert(id@) =~= self.model@);
                FlightRole::Follower
            },
            None => {
                let ghost k = id@;
                proof {
                    lemma_ids_push(self.ids@, self.model@, *id);
                }
                self.ids.push(id.clone());
                self.channels.push(channel);
                self.model = Ghost(self.model@.insert(k));
                let ghost n = self.ids@.len() - 1;
                assert(self.ids@[n]@ == k);
                let ghost j = choose|j: int| 0 <= j < self.ids@.len() && self.ids@[j]@ == k;
                assert(j == n);
                FlightRole::Leader
            },
        }
    }

    /// Takes `id` out of flight when its leader is done, returning the
    /// channel it had left.
    pub fn leave(&mut self, id: &ClientOrderId) -> (r: Option<V>)
        requires
            old(self).wf(),
        ensures
            final(self).wf(),
            final(self)@ == old(self)@.remove(id@),
            r is Some <==> old(self)@.contains(id@),
            r matches Some(c) ==> c == old(self).channel_of(id@),
    {
        match self.find(id) {
            Some(i) => {
                let ghost k = id@;
                let ghost before = self.ids@;
                let ghost j0 = choose|j: int| 0 <= j < before.len() && before[j]@ == k;
                assert(j0 == i);
                proof {
                    lemma_ids_remove(before, self.model@, i as int);
                }
                self.ids.remove(i);
                let c = self.channels.remove(i);
                self.model = Ghost(self.model@.remove(k));
                Some(c)
            },
            None => {
                assert(self.model@.remove(id@) =~= self.model@);
                None
            },
        }
    }
}

/// Of any number of callers that arrive for one order while it is in
/// flight, only the first leads: once a caller has entered, every later one
/// for the same order follows until the leader leaves; after it leaves, the
/// next caller leads again.
pub proof fn lemma_single_leader(in_flight: Set<Seq<char>>, id: Seq<char>, others: Seq<Seq<char>>)
    ensures
        ({
            let after = in_flight.insert(id);
            &&& role_for(after, id) == FlightRole::Follower
            &&& forall|i: int| 0 <= i <= others.len() ==> role_for(
                #[trigger] entered_all(after, others.take(i)),
                id,
            ) == FlightRole::Follower
            &&& role_for(after.remove(id), id) == FlightRole::Leader
        }),
{
    let after = in_flight.insert(id);
    assert forall|i: int| 0 <= i <= others.len() implies role_for(
        #[trigger] entered_all(after, others.take(i)),
        id,
    ) == FlightRole::Follower by {
        lemma_entered_all_keeps(after, others.take(i), id);
    }
}

/// The orders in flight after callers for each of `ids` have entered.
pub open spec fn entered_all(in_flight: Set<Seq<char>>, ids: Seq<Seq<char>>) -> Set<Seq<char>>
    decreases ids.len(),
{
    if ids.len() == 0 {
        in_flight
    } else {
        entered_all(in_flight, ids.drop_last()).insert(ids.last())
    }
}

proof fn lemma_entered_all_keeps(in_flight: Set<Seq<char>>, ids: Seq<Seq<char>>, id: Seq<char>)
    requires
        in_flight.contains(id),
    ensures
        entered_all(in_flight, ids).contains(id),
    decreases ids.len(),
{
    if ids.len() > 0 {
        lemma_entered_all_keeps(in_flight, ids.drop_last(), id);
    }
}

/// How many of the callers arriving for `ids`, in order, lead the work on `id`.
pub open spec fn leaders_for(in_flight: Set<Seq<char>>, ids: Seq<Seq<char>>, id: Seq<char>) -> nat
    decreases ids.len(),
{
    if ids.len() == 0 {
        0
    } else {
        leaders_for(in_flight, ids.drop_last(), id) + if ids.last() == id && role_for(
            entered_all(in_flight, ids.drop_last()),
            id,
        ) == FlightRole::Leader {
            1nat
        } else {
            0nat
        }
    }
}

/// Of any sequence of callers arriving while no leader has left, at most one
/// leads the work on a given order, and none does if the order was in flight
/// already.
pub proof fn lemma_at_most_one_leader(in_flight: Set<Seq<char>>, ids: Seq<Seq<char>>, id: Seq<char>)
    ensures
        leaders_for(in_flight, ids, id) <= 1,
        in_flight.contains(id) ==> leaders_for(in_flight, ids, id) == 0,
        leaders_for(in_flight, ids, id) == 1 ==> entered_all(in_flight, ids).contains(id),
    decreases ids.len(),
{
    if ids.len() > 0 {
        lemma_at_most_one_leader(in_flight, ids.drop_last(), id);
        if in_flight.contains(id) {
            lemma_entered_all_keeps(in_flight, ids.drop_last(), id);
        }
    }
}

} // verus!
