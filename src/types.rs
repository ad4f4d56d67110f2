//! Values shared by the order model, the cancel coordinator and the statistics.
use vstd::prelude::*;

verus! {

/// An amount (or price, or commission) in the smallest unit of its currency.
pub type Amount = i128;

/// Identifier of an order, generated locally before the venue sees the order.
pub type ClientOrderId = String;

/// Identifier assigned to an order by the venue.
pub type ExchangeOrderId = String;

/// Grouping key of the statistics: an exchange account and a currency pair.
#[derive(Clone, Debug)]
pub struct TradePlaceAccount {
    pub exchange_account_id: String,
    pub currency_pair: String,
}

impl TradePlaceAccount {
    pub open spec fn view(&self) -> (Seq<char>, Seq<char>) {
        (self.exchange_account_id@, self.currency_pair@)
    }

    pub fn new(exchange_account_id: String, currency_pair: String) -> (r: Self)
        ensures
            r.exchange_account_id == exchange_account_id,
            r.currency_pair == currency_pair,
    {
        TradePlaceAccount { exchange_account_id, currency_pair }
    }

    pub fn clone_key(&self) -> (r: Self)
        ensures
            r@ == self@,
    {
        TradePlaceAccount {
            exchange_account_id: self.exchange_account_id.clone(),
            currency_pair: self.currency_pair.clone(),
        }
    }

    /// Whether two keys name the same account and pair.
    pub fn same_as(&self, other: &TradePlaceAccount) -> (r: bool)
        ensures
            r == (self@ == other@),
    {
        self.exchange_account_id == other.exchange_account_id
            && self.currency_pair == other.currency_pair
    }
}

/// `ids` holds each member of `set` exactly once, and nothing else.
pub open spec fn ids_model(ids: Seq<ClientOrderId>, set: Set<Seq<char>>) -> bool {
    &&& forall|i: int| 0 <= i < ids.len() ==> set.contains(#[trigger] ids[i]@)
    &&& forall|x: Seq<char>| #[trigger] set.contains(x) ==> exists|i: int| 0 <= i < ids.len() && #[trigger] ids[i]@ == x
    &&& forall|i: int, j: int| 0 <= i < ids.len() && 0 <= j < ids.len() && i != j ==> #[trigger] ids[i]@ != #[trigger] ids[j]@
}

/// Adding an id that is not there yet keeps the list and the set in step.
pub proof fn lemma_ids_push(ids: Seq<ClientOrderId>, set: Set<Seq<char>>, id: ClientOrderId)
    requires
        ids_model(ids, set),
        !set.contains(id@),
    ensures
        ids_model(ids.push(id), set.insert(id@)),
{
    let after = ids.push(id);
    let n = ids.len() as int;
    assert(after[n]@ == id@);
    assert forall|x: Seq<char>| #[trigger] set.insert(id@).contains(x) implies exists|j: int|
        0 <= j < after.len() && #[trigger] after[j]@ == x by {
        if x != id@ {
            let j = choose|j: int| 0 <= j < ids.len() && #[trigger] ids[j]@ == x;
            assert(after[j] == ids[j]);
        } else {
            assert(after[n]@ == x);
        }
    }
    assert forall|i: int| 0 <= i < after.len() implies set.insert(id@).contains(#[trigger] after[i]@) by {
        if i < n {
            assert(after[i] == ids[i]);
        }
    }
    assert forall|a: int, b: int| 0 <= a < after.len() && 0 <= b < after.len() && a != b
        implies #[trigger] after[a]@ != #[trigger] after[b]@ by {
        if a < n {
            assert(after[a] == ids[a]);
            assert(set.contains(ids[a]@));
        }
        if b < n {
            assert(after[b] == ids[b]);
            assert(set.contains(ids[b]@));
        }
    }
}

/// Removing the id at `i` keeps the list and the set in step.
pub proof fn lemma_ids_remove(ids: Seq<ClientOrderId>, set: Set<Seq<char>>, i: int)
    requires
        ids_model(ids, set),
        0 <= i < ids.len(),
    ensures
        ids_model(ids.remove(i), set.remove(ids[i]@)),
{
    let after = ids.remove(i);
    let set2 = set.remove(ids[i]@);
    assert forall|a: int| 0 <= a < after.len() implies set2.contains(#[trigger] after[a]@) by {
        if a < i {
            assert(after[a] == ids[a]);
            assert(ids[a]@ != ids[i]@);
        } else {
            assert(after[a] == ids[a + 1]);
            assert(ids[a + 1]@ != ids[i]@);
        }
    }
    assert forall|x: Seq<char>| #[trigger] set2.contains(x) implies exists|j: int|
        0 <= j < after.len() && #[trigger] after[j]@ == x by {
        assert(set.contains(x));
        let j = choose|j: int| 0 <= j < ids.len() && #[trigger] ids[j]@ == x;
        assert(j != i);
        if j < i {
            assert(after[j] == ids[j]);
        } else {
            assert(after[j - 1] == ids[j]);
        }
    }
    assert forall|a: int, b: int| 0 <= a < after.len() && 0 <= b < after.len() && a != b
        implies #[trigger] after[a]@ != #[trigger] after[b]@ by {
        let a2 = if a < i { a } else { a + 1 };
        let b2 = if b < i { b } else { b + 1 };
        assert(after[a] == ids[a2]);
        assert(after[b] == ids[b2]);
    }
}

} // verus!
