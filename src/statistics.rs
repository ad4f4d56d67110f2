//! Per-(account, pair) order counters, and the aggregator that keeps them
//! from the stream of order lifecycle events.
use vstd::prelude::*;
use crate::order::{Order, OrderFill};
use crate::types::{ids_model, lemma_ids_push, lemma_ids_remove, Amount, ClientOrderId, TradePlaceAccount};

verus! {

/// Counters of one exchange account and currency pair.
#[derive(Clone, Copy, Debug, PartialEq, Eq, Structural)]
pub struct TradePlaceAccountStatistic {
    pub opened_orders_count: u64,
    pub canceled_orders_count: u64,
    pub partially_filled_orders_count: u64,
    pub fully_filled_orders_count: u64,
    /// Sum of the filled amounts of completely filled orders.
    pub summary_filled_amount: Amount,
    /// Sum of the commissions of completely filled orders.
    pub summary_commission: Amount,
}

pub open spec fn zero_statistic() -> TradePlaceAccountStatistic {
    TradePlaceAccountStatistic {
        opened_orders_count: 0,
        canceled_orders_count: 0,
        partially_filled_orders_count: 0,
        fully_filled_orders_count: 0,
        summary_filled_amount: 0,
        summary_commission: 0,
    }
}

pub open spec fn fits_amount(x: int) -> bool {
    i128::MIN <= x <= i128::MAX
}

impl TradePlaceAccountStatistic {
    pub fn zero() -> (r: Self)
        ensures
            r == zero_statistic(),
    {
        TradePlaceAccountStatistic {
            opened_orders_count: 0,
            canceled_orders_count: 0,
            partially_filled_orders_count: 0,
            fully_filled_orders_count: 0,
            summary_filled_amount: 0,
            summary_commission: 0,
        }
    }

    pub fn register_created_order(&mut self)
        requires
            old(self).opened_orders_count < u64::MAX,
        ensures
            *final(self) == (TradePlaceAccountStatistic {
                opened_orders_count: (old(self).opened_orders_count + 1) as u64,
                ..*old(self)
            }),
    {
        self.opened_orders_count = self.opened_orders_count + 1;
    }

    pub fn register_canceled_order(&mut self)
        requires
            old(self).canceled_orders_count < u64::MAX,
        ensures
            *final(self) == (TradePlaceAccountStatistic {
                canceled_orders_count: (old(self).canceled_orders_count + 1) as u64,
                ..*old(self)
            }),
    {
        self.canceled_orders_count = self.canceled_orders_count + 1;
    }

    pub fn increment_partially_filled_orders(&mut self)
        requires
            old(self).partially_filled_orders_count < u64::MAX,
        ensures
            *final(self) == (TradePlaceAccountStatistic {
                partially_filled_orders_count: (old(self).partially_filled_orders_count + 1) as u64,
                ..*old(self)
            }),
    {
        self.partially_filled_orders_count = self.partially_filled_orders_count + 1;
    }

    /// Decrements the partially filled counter; at zero it stays zero.
    pub fn decrement_partially_filled_orders(&mut self)
        ensures
            *final(self) == (TradePlaceAccountStatistic {
                partially_filled_orders_count: if old(self).partially_filled_orders_count == 0 {
                    0u64
                } else {
                    (old(self).partially_filled_orders_count - 1) as u64
                },
                ..*old(self)
            }),
    {
        if self.partially_filled_orders_count != 0 {
            self.partially_filled_orders_count = self.partially_filled_orders_count - 1;
        }
    }

    pub fn increment_completely_filled_orders(&mut self)
        requires
            old(self).fully_filled_orders_count < u64::MAX,
        ensures
            *final(self) == (TradePlaceAccountStatistic {
                fully_filled_orders_count: (old(self).fully_filled_orders_count + 1) as u64,
                ..*old(self)
            }),
    {
        self.fully_filled_orders_count = self.fully_filled_orders_count + 1;
    }

    pub fn add_summary_filled_amount(&mut self, filled_amount: Amount)
        requires
            fits_amount(old(self).summary_filled_amount + filled_amount),
        ensures
            *final(self) == (TradePlaceAccountStatistic {
                summary_filled_amount: (old(self).summary_filled_amount + filled_amount) as i128,
                ..*old(self)
            }),
    {
        self.summary_filled_amount = self.summary_filled_amount + filled_amount;
    }

    pub fn add_summary_commission(&mut self, commission: Amount)
        requires
            fits_amount(old(self).summary_commission + commission),
        ensures
            *final(self) == (TradePlaceAccountStatistic {
                summary_commission: (old(self).summary_commission + commission) as i128,
                ..*old(self)
            }),
    {
        self.summary_commission = self.summary_commission + commission;
    }
}

/// Counters of the disposition executor.
#[derive(Clone, Copy, Debug, PartialEq, Eq, Structural)]
pub struct DispositionExecutorStatistic {
    pub skipped_events_amount: u64,
}

impl DispositionExecutorStatistic {
    pub fn new(skipped_events_amount: u64) -> (r: Self)
        ensures
            r.skipped_events_amount == skipped_events_amount,
    {
        DispositionExecutorStatistic { skipped_events_amount }
    }
}


/// The statistics key as a mathematical value: account id and pair.
pub type TradePlaceKey = (Seq<char>, Seq<char>);

/// Counters of `k` in `m`; a key seen for the first time starts at zero.
pub open spec fn stat_of(m: Map<TradePlaceKey, TradePlaceAccountStatistic>, k: TradePlaceKey) -> TradePlaceAccountStatistic {
    if m.contains_key(k) {
        m[k]
    } else {
        zero_statistic()
    }
}

/// `keys` and `stats` hold, side by side, each entry of `model` exactly once.
pub closed spec fn keys_model(
    keys: Seq<TradePlaceAccount>,
    stats: Seq<TradePlaceAccountStatistic>,
    model: Map<TradePlaceKey, TradePlaceAccountStatistic>,
) -> bool {
    &&& keys.len() == stats.len()
    &&& forall|i: int| 0 <= i < keys.len() ==> model.contains_key(#[trigger] keys[i]@) && model[keys[i]@] == stats[i]
    &&& forall|k: TradePlaceKey| #[trigger] model.contains_key(k) ==> exists|i: int|
        0 <= i < keys.len() && #[trigger] keys[i]@ == k
    &&& forall|i: int, j: int| 0 <= i < keys.len() && 0 <= j < keys.len() && i != j
        ==> #[trigger] keys[i]@ != #[trigger] keys[j]@
}

/// Counters kept per trade place account, with the disposition executor's counters.
pub struct StatisticServiceState {
    keys: Vec<TradePlaceAccount>,
    stats: Vec<TradePlaceAccountStatistic>,
    disposition_executor_stats: DispositionExecutorStatistic,
    model: Ghost<Map<TradePlaceKey, TradePlaceAccountStatistic>>,
}

impl StatisticServiceState {
    /// The counters of every key seen so far.
    pub closed spec fn view(&self) -> Map<TradePlaceKey, TradePlaceAccountStatistic> {
        self.model@
    }

    pub closed spec fn skipped_events(&self) -> u64 {
        self.disposition_executor_stats.skipped_events_amount
    }

    pub closed spec fn wf(&self) -> bool {
        keys_model(self.keys@, self.stats@, self.model@)
    }

    pub fn new() -> (r: Self)
        ensures
            r.wf(),
            r@ == Map::<TradePlaceKey, TradePlaceAccountStatistic>::empty(),
            r.skipped_events() == 0,
    {
        StatisticServiceState {
            keys: Vec::new(),
            stats: Vec::new(),
            disposition_executor_stats: DispositionExecutorStatistic::new(0),
            model: Ghost(Map::empty()),
        }
    }

    /// The counters of `trade_place_account` (zero where none were kept yet).
    pub fn get(&self, trade_place_account: &TradePlaceAccount) -> (r: TradePlaceAccountStatistic)
        requires
            self.wf(),
        ensures
            r == stat_of(self@, trade_place_account@),
    {
        match self.find(trade_place_account) {
            Some(i) => self.stats[i],
            None => TradePlaceAccountStatistic::zero(),
        }
    }

    pub fn skipped_events_amount(&self) -> (r: u64)
        ensures
            r == self.skipped_events(),
    {
        self.disposition_executor_stats.skipped_events_amount
    }

    fn find(&self, trade_place_account: &TradePlaceAccount) -> (r: Option<usize>)
        requires
            self.wf(),
        ensures
            match r {
                Some(i) => i < self.keys@.len() && self.keys@[i as int]@ == trade_place_account@,
                None => !self@.contains_key(trade_place_account@),
            },
    {
        let mut i: usize = 0;
        while i < self.keys.len()
            invariant
                self.wf(),
                i <= self.keys@.len(),
                forall|j: int| 0 <= j < i ==> self.keys@[j]@ != trade_place_account@,
            decreases self.keys@.len() - i,
        {
            if self.keys[i].same_as(trade_place_account) {
                return Some(i);
            }
            i = i + 1;
        }
        None
    }

    /// Stores `s` as the counters of `trade_place_account`, adding the key if it is new.
    fn store(&mut self, trade_place_account: &TradePlaceAccount, s: TradePlaceAccountStatistic)
        requires
            old(self).wf(),
        ensures
            final(self).wf(),
            final(self)@ == old(self)@.insert(trade_place_account@, s),
            final(self).skipped_events() == old(self).skipped_events(),
    {
        let ghost k = trade_place_account@;
        match self.find(trade_place_account) {
            Some(i) => {
                self.stats[i] = s;
                self.model = Ghost(self.model@.insert(k, s));
                assert forall|k2: TradePlaceKey| #[trigger] self.model@.contains_key(k2) implies exists|j: int|
                    0 <= j < self.keys@.len() && #[trigger] self.keys@[j]@ == k2 by {
                    if k2 != k {
                        assert(old(self).model@.contains_key(k2));
                        let j = choose|j: int| 0 <= j < old(self).keys@.len() && #[trigger] old(self).keys@[j]@ == k2;
                        assert(self.keys@[j]@ == k2);
                    } else {
                        assert(self.keys@[i as int]@ == k2);
                    }
                }
            },
            None => {
                self.keys.push(trade_place_account.clone_key());
                self.stats.push(s);
                self.model = Ghost(self.model@.insert(k, s));
                let ghost n = self.keys@.len() - 1;
                assert(self.keys@[n]@ == k);
                assert forall|k2: TradePlaceKey| #[trigger] self.model@.contains_key(k2) implies exists|j: int|
                    0 <= j < self.keys@.len() && #[trigger] self.keys@[j]@ == k2 by {
                    if k2 != k {
                        assert(old(self).model@.contains_key(k2));
                        let j = choose|j: int| 0 <= j < old(self).keys@.len() && #[trigger] old(self).keys@[j]@ == k2;
                        assert(self.keys@[j]@ == k2);
                    } else {
                        assert(self.keys@[n]@ == k2);
                    }
                }
                assert forall|a: int| 0 <= a < n implies #[trigger] self.keys@[a]@ != k by {
                    assert(old(self).keys@[a] == self.keys@[a]);
                    assert(old(self).model@.contains_key(old(self).keys@[a]@));
                }
            },
        }
    }

    pub fn register_created_order(&mut self, trade_place_account: &TradePlaceAccount)
        requires
            old(self).wf(),
            stat_of(old(self)@, trade_place_account@).opened_orders_count < u64::MAX,
        ensures
            final(self).wf(),
            final(self).skipped_events() == old(self).skipped_events(),
            final(self)@ == old(self)@.insert(trade_place_account@, (TradePlaceAccountStatistic {
                opened_orders_count: (stat_of(old(self)@, trade_place_account@).opened_orders_count + 1) as u64,
                ..stat_of(old(self)@, trade_place_account@)
            })),
    {
        let mut s = self.get(trade_place_account);
        s.register_created_order();
        self.store(trade_place_account, s);
    }

    pub fn register_canceled_order(&mut self, trade_place_account: &TradePlaceAccount)
        requires
            old(self).wf(),
            stat_of(old(self)@, trade_place_account@).canceled_orders_count < u64::MAX,
        ensures
            final(self).wf(),
            final(self).skipped_events() == old(self).skipped_events(),
            final(self)@ == old(self)@.insert(trade_place_account@, (TradePlaceAccountStatistic {
                canceled_orders_count: (stat_of(old(self)@, trade_place_account@).canceled_orders_count + 1) as u64,
                ..stat_of(old(self)@, trade_place_account@)
            })),
    {
        let mut s = self.get(trade_place_account);
        s.register_canceled_order();
        self.store(trade_place_account, s);
    }

    pub fn register_partially_filled_order(&mut self, trade_place_account: &TradePlaceAccount)
        requires
            old(self).wf(),
            stat_of(old(self)@, trade_place_account@).partially_filled_orders_count < u64::MAX,
        ensures
            final(self).wf(),
            final(self).skipped_events() == old(self).skipped_events(),
            final(self)@ == old(self)@.insert(trade_place_account@, (TradePlaceAccountStatistic {
                partially_filled_orders_count: (stat_of(old(self)@, trade_place_account@).partially_filled_orders_count + 1) as u64,
                ..stat_of(old(self)@, trade_place_account@)
            })),
    {
        let mut s = self.get(trade_place_account);
        s.increment_partially_filled_orders();
        self.store(trade_place_account, s);
    }

    pub fn decrement_partially_filled_orders(&mut self, trade_place_account: &TradePlaceAccount)
        requires
            old(self).wf(),
        ensures
            final(self).wf(),
            final(self).skipped_events() == old(self).skipped_events(),
            final(self)@ == old(self)@.insert(trade_place_account@, decremented(stat_of(old(self)@, trade_place_account@))),
    {
        let mut s = self.get(trade_place_account);
        s.decrement_partially_filled_orders();
        self.store(trade_place_account, s);
    }

    pub fn register_completely_filled_order(&mut self, trade_place_account: &TradePlaceAccount)
        requires
            old(self).wf(),
            stat_of(old(self)@, trade_place_account@).fully_filled_orders_count < u64::MAX,
        ensures
            final(self).wf(),
            final(self).skipped_events() == old(self).skipped_events(),
            final(self)@ == old(self)@.insert(trade_place_account@, (TradePlaceAccountStatistic {
                fully_filled_orders_count: (stat_of(old(self)@, trade_place_account@).fully_filled_orders_count + 1) as u64,
                ..stat_of(old(self)@, trade_place_account@)
            })),
    {
        let mut s = self.get(trade_place_account);
        s.increment_completely_filled_orders();
        self.store(trade_place_account, s);
    }

    pub fn register_filled_amount(&mut self, trade_place_account: &TradePlaceAccount, filled_amount: Amount)
        requires
            old(self).wf(),
            fits_amount(stat_of(old(self)@, trade_place_account@).summary_filled_amount + filled_amount),
        ensures
            final(self).wf(),
            final(self).skipped_events() == old(self).skipped_events(),
            final(self)@ == old(self)@.insert(trade_place_account@, (TradePlaceAccountStatistic {
                summary_filled_amount: (stat_of(old(self)@, trade_place_account@).summary_filled_amount + filled_amount) as i128,
                ..stat_of(old(self)@, trade_place_account@)
            })),
    {
        let mut s = self.get(trade_place_account);
        s.add_summary_filled_amount(filled_amount);
        self.store(trade_place_account, s);
    }

    pub fn register_commission(&mut self, trade_place_account: &TradePlaceAccount, commission: Amount)
        requires
            old(self).wf(),
            fits_amount(stat_of(old(self)@, trade_place_account@).summary_commission + commission),
        ensures
            final(self).wf(),
            final(self).skipped_events() == old(self).skipped_events(),
            final(self)@ == old(self)@.insert(trade_place_account@, (TradePlaceAccountStatistic {
                summary_commission: (stat_of(old(self)@, trade_place_account@).summary_commission + commission) as i128,
                ..stat_of(old(self)@, trade_place_account@)
            })),
    {
        let mut s = self.get(trade_place_account);
        s.add_summary_commission(commission);
        self.store(trade_place_account, s);
    }

    pub fn register_skipped_event(&mut self)
        requires
            old(self).wf(),
            old(self).skipped_events() < u64::MAX,
        ensures
            final(self).wf(),
            final(self)@ == old(self)@,
            final(self).skipped_events() == old(self).skipped_events() + 1,
    {
        let next = self.disposition_executor_stats.skipped_events_amount + 1;
        self.disposition_executor_stats = DispositionExecutorStatistic::new(next);
    }
}

/// `s` with its partially filled counter lowered by one, or left at zero.
pub open spec fn decremented(s: TradePlaceAccountStatistic) -> TradePlaceAccountStatistic {
    TradePlaceAccountStatistic {
        partially_filled_orders_count: if s.partially_filled_orders_count == 0 {
            0u64
        } else {
            (s.partially_filled_orders_count - 1) as u64
        },
        ..s
    }
}

/// Sum of a sequence of amounts.
pub open spec fn sum_amounts(s: Seq<Amount>) -> int
    decreases s.len(),
{
    if s.len() == 0 {
        0
    } else {
        sum_amounts(s.drop_last()) + s.last()
    }
}

/// Every running total of `s`, from the left, fits in an `Amount`.
pub open spec fn prefix_sums_fit(s: Seq<Amount>) -> bool {
    forall|i: int| 0 <= i <= s.len() ==> fits_amount(#[trigger] sum_amounts(s.take(i)))
}

/// The commission of each fill, in order.
pub open spec fn commissions_of(fills: Seq<OrderFill>) -> Seq<Amount> {
    fills.map_values(|f: OrderFill| f.commission_amount)
}

/// Sum of the commissions of `fills`, or `None` where a running total leaves
/// the range of `Amount`.
pub fn sum_fill_commissions(fills: &Vec<OrderFill>) -> (r: Option<Amount>)
    ensures
        r is Some <==> prefix_sums_fit(commissions_of(fills@)),
        r matches Some(t) ==> t == sum_amounts(commissions_of(fills@)),
{
    let ghost v = commissions_of(fills@);
    let mut total: Amount = 0;
    let mut i: usize = 0;
    assert(v.take(0) =~= Seq::<Amount>::empty());
    while i < fills.len()
        invariant
            v == commissions_of(fills@),
            i <= fills@.len(),
            total == sum_amounts(v.take(i as int)),
            forall|j: int| 0 <= j <= i ==> fits_amount(#[trigger] sum_amounts(v.take(j))),
        decreases fills@.len() - i,
    {
        let c = fills[i].commission_amount;
        assert(v.take(i + 1).drop_last() =~= v.take(i as int));
        assert(v[i as int] == c);
        if (c > 0 && total > i128::MAX - c) || (c < 0 && total < i128::MIN - c) {
            assert(!fits_amount(sum_amounts(v.take(i + 1))));
            return None;
        }
        total = total + c;
        i = i + 1;
    }
    assert(v.take(v.len() as int) =~= v);
    Some(total)
}

/// What an order lifecycle event reports.
#[derive(Clone, Debug)]
pub enum OrderEventType {
    CreateOrderSucceeded,
    CancelOrderSucceeded,
    /// The order was filled in part; `cloned_order` is its state after the fill.
    OrderFilled { cloned_order: Order },
    /// The order is completely filled; `cloned_order` is its final state.
    OrderCompleted { cloned_order: Order },
    /// Any other lifecycle event; the statistics ignore it.
    Other,
}

/// An event about one order.
#[derive(Clone, Debug)]
pub struct OrderEvent {
    pub trade_place_account: TradePlaceAccount,
    /// The client order id of the order the event is about.
    pub client_order_id: ClientOrderId,
    pub event_type: OrderEventType,
}

/// An event of the exchange event stream.
#[derive(Clone, Debug)]
pub enum ExchangeEvent {
    OrderEvent(OrderEvent),
    /// An event that is not about an order.
    Other,
}

/// Why an event could not be counted.
#[derive(Clone, Copy, Debug, PartialEq, Eq, Structural)]
pub enum StatisticError {
    /// A counter or a sum would leave the range of its type.
    Overflow,
}

/// The counters of one key after event `e`, where `was_partial` tells whether
/// the order was counted as partially filled before.
pub open spec fn next_statistic(s: TradePlaceAccountStatistic, was_partial: bool, e: OrderEventType) -> TradePlaceAccountStatistic {
    match e {
        OrderEventType::CreateOrderSucceeded => TradePlaceAccountStatistic {
            opened_orders_count: (s.opened_orders_count + 1) as u64,
            ..s
        },
        OrderEventType::CancelOrderSucceeded => {
            let c = TradePlaceAccountStatistic { canceled_orders_count: (s.canceled_orders_count + 1) as u64, ..s };
            if was_partial { decremented(c) } else { c }
        },
        OrderEventType::OrderFilled { .. } => if was_partial {
            s
        } else {
            TradePlaceAccountStatistic {
                partially_filled_orders_count: (s.partially_filled_orders_count + 1) as u64,
                ..s
            }
        },
        OrderEventType::OrderCompleted { cloned_order } => {
            let c = TradePlaceAccountStatistic {
                fully_filled_orders_count: (s.fully_filled_orders_count + 1) as u64,
                ..s
            };
            let d = if was_partial { decremented(c) } else { c };
            TradePlaceAccountStatistic {
                summary_filled_amount: (d.summary_filled_amount + cloned_order.filled_amount) as i128,
                summary_commission: (d.summary_commission + sum_amounts(commissions_of(cloned_order.fills@))) as i128,
                ..d
            }
        },
        OrderEventType::Other => s,
    }
}

/// Event `e` can be counted on `s` without leaving any counter's range.
pub open spec fn event_fits(s: TradePlaceAccountStatistic, was_partial: bool, e: OrderEventType) -> bool {
    match e {
        OrderEventType::CreateOrderSucceeded => s.opened_orders_count < u64::MAX,
        OrderEventType::CancelOrderSucceeded => s.canceled_orders_count < u64::MAX,
        OrderEventType::OrderFilled { .. } => was_partial || s.partially_filled_orders_count < u64::MAX,
        OrderEventType::OrderCompleted { cloned_order } => {
            &&& s.fully_filled_orders_count < u64::MAX
            &&& fits_amount(s.summary_filled_amount + cloned_order.filled_amount)
            &&& prefix_sums_fit(commissions_of(cloned_order.fills@))
            &&& fits_amount(s.summary_commission + sum_amounts(commissions_of(cloned_order.fills@)))
        },
        OrderEventType::Other => true,
    }
}

/// The set of partially filled orders after event `e` on order `id`.
pub open spec fn next_partial(p: Set<Seq<char>>, id: Seq<char>, e: OrderEventType) -> Set<Seq<char>> {
    match e {
        OrderEventType::OrderFilled { .. } => p.insert(id),
        OrderEventType::CancelOrderSucceeded => p.remove(id),
        OrderEventType::OrderCompleted { .. } => p.remove(id),
        _ => p,
    }
}

/// The counters after event `e`.
pub open spec fn next_stats(
    m: Map<TradePlaceKey, TradePlaceAccountStatistic>,
    p: Set<Seq<char>>,
    e: OrderEvent,
) -> Map<TradePlaceKey, TradePlaceAccountStatistic> {
    if e.event_type is Other || (e.event_type is OrderFilled && p.contains(e.client_order_id@)) {
        m
    } else {
        m.insert(
            e.trade_place_account@,
            next_statistic(stat_of(m, e.trade_place_account@), p.contains(e.client_order_id@), e.event_type),
        )
    }
}

/// Event `e` can be counted without leaving any counter's range.
pub open spec fn order_event_fits(
    m: Map<TradePlaceKey, TradePlaceAccountStatistic>,
    p: Set<Seq<char>>,
    e: OrderEvent,
) -> bool {
    event_fits(stat_of(m, e.trade_place_account@), p.contains(e.client_order_id@), e.event_type)
}

/// The counters, with the set of orders currently counted as partially filled.
pub struct StatisticService {
    pub statistic_service_state: StatisticServiceState,
    partially_filled_orders: Vec<ClientOrderId>,
    partial_model: Ghost<Set<Seq<char>>>,
}

impl StatisticService {
    /// The orders currently counted as partially filled.
    pub closed spec fn partial(&self) -> Set<Seq<char>> {
        self.partial_model@
    }

    /// The counters of every key seen so far.
    pub closed spec fn stats(&self) -> Map<TradePlaceKey, TradePlaceAccountStatistic> {
        self.statistic_service_state@
    }

    pub closed spec fn skipped(&self) -> u64 {
        self.statistic_service_state.skipped_events()
    }

    pub closed spec fn wf(&self) -> bool {
        &&& self.statistic_service_state.wf()
        &&& ids_model(self.partially_filled_orders@, self.partial_model@)
    }

    pub fn new() -> (r: Self)
        ensures
            r.wf(),
            r.stats() == Map::<TradePlaceKey, TradePlaceAccountStatistic>::empty(),
            r.partial() == Set::<Seq<char>>::empty(),
            r.skipped() == 0,
    {
        StatisticService {
            statistic_service_state: StatisticServiceState::new(),
            partially_filled_orders: Vec::new(),
            partial_model: Ghost(Set::empty()),
        }
    }

    fn find_partial(&self, client_order_id: &ClientOrderId) -> (r: Option<usize>)
        requires
            self.wf(),
        ensures
            match r {
                Some(i) => i < self.partially_filled_orders@.len()
                    && self.partially_filled_orders@[i as int]@ == client_order_id@,
                None => !self.partial().contains(client_order_id@),
            },
    {
        let mut i: usize = 0;
        while i < self.partially_filled_orders.len()
            invariant
                self.wf(),
                i <= self.partially_filled_orders@.len(),
                forall|j: int| 0 <= j < i ==> self.partially_filled_orders@[j]@ != client_order_id@,
            decreases self.partially_filled_orders@.len() - i,
        {
            if self.partially_filled_orders[i] == *client_order_id {
                return Some(i);
            }
            i = i + 1;
        }
        None
    }

    /// Whether the order is currently counted as partially filled.
    pub fn is_partially_filled(&self, client_order_id: &ClientOrderId) -> (r: bool)
        requires
            self.wf(),
        ensures
            r == self.partial().contains(client_order_id@),
    {
        self.find_partial(client_order_id).is_some()
    }

    pub fn register_created_order(&mut self, trade_place_account: &TradePlaceAccount)
        requires
            old(self).wf(),
            stat_of(old(self).stats(), trade_place_account@).opened_orders_count < u64::MAX,
        ensures
            final(self).wf(),
            final(self).partial() == old(self).partial(),
            final(self).skipped() == old(self).skipped(),
            final(self).stats() == old(self).stats().insert(trade_place_account@, (TradePlaceAccountStatistic {
                opened_orders_count: (stat_of(old(self).stats(), trade_place_account@).opened_orders_count + 1) as u64,
                ..stat_of(old(self).stats(), trade_place_account@)
            })),
    {
        self.statistic_service_state.register_created_order(trade_place_account);
    }

    /// Counts a canceled order, and takes it out of the partially filled ones.
    pub fn register_canceled_order(&mut self, trade_place_account: &TradePlaceAccount, client_order_id: &ClientOrderId)
        requires
            old(self).wf(),
            stat_of(old(self).stats(), trade_place_account@).canceled_orders_count < u64::MAX,
        ensures
            final(self).wf(),
            final(self).partial() == old(self).partial().remove(client_order_id@),
            final(self).skipped() == old(self).skipped(),
            final(self).stats() == next_stats(old(self).stats(), old(self).partial(), OrderEvent {
                trade_place_account: *trade_place_account,
                client_order_id: *client_order_id,
                event_type: OrderEventType::CancelOrderSucceeded,
            }),
    {
        self.statistic_service_state.register_canceled_order(trade_place_account);
        self.remove_filled_order_if_exist(trade_place_account, client_order_id);
        assert(self.stats() =~= next_stats(old(self).stats(), old(self).partial(), OrderEvent {
            trade_place_account: *trade_place_account,
            client_order_id: *client_order_id,
            event_type: OrderEventType::CancelOrderSucceeded,
        }));
    }

    /// Counts the order as partially filled, unless it is counted already.
    pub fn register_partially_filled_order(&mut self, trade_place_account: &TradePlaceAccount, client_order_id: &ClientOrderId)
        requires
            old(self).wf(),
            old(self).partial().contains(client_order_id@)
                || stat_of(old(self).stats(), trade_place_account@).partially_filled_orders_count < u64::MAX,
        ensures
            final(self).wf(),
            final(self).partial() == old(self).partial().insert(client_order_id@),
            final(self).skipped() == old(self).skipped(),
            final(self).stats() == if old(self).partial().contains(client_order_id@) {
                old(self).stats()
            } else {
                old(self).stats().insert(trade_place_account@, (TradePlaceAccountStatistic {
                    partially_filled_orders_count: (stat_of(old(self).stats(), trade_place_account@).partially_filled_orders_count + 1) as u64,
                    ..stat_of(old(self).stats(), trade_place_account@)
                }))
            },
    {
        if self.find_partial(client_order_id).is_none() {
            self.statistic_service_state.register_partially_filled_order(trade_place_account);
            let ghost id = client_order_id@;
            proof {
                lemma_ids_push(self.partially_filled_orders@, self.partial_model@, *client_order_id);
            }
            self.partially_filled_orders.push(client_order_id.clone());
            self.partial_model = Ghost(self.partial_model@.insert(id));
        } else {
            assert(old(self).partial().insert(client_order_id@) =~= old(self).partial());
        }
    }

    /// Counts a completely filled order with its filled amount and commission.
    pub fn register_completely_filled_order(
        &mut self,
        trade_place_account: &TradePlaceAccount,
        client_order_id: &ClientOrderId,
        filled_amount: Amount,
        commission: Amount,
    )
        requires
            old(self).wf(),
            stat_of(old(self).stats(), trade_place_account@).fully_filled_orders_count < u64::MAX,
            fits_amount(stat_of(old(self).stats(), trade_place_account@).summary_filled_amount + filled_amount),
            fits_amount(stat_of(old(self).stats(), trade_place_account@).summary_commission + commission),
        ensures
            final(self).wf(),
            final(self).partial() == old(self).partial().remove(client_order_id@),
            final(self).skipped() == old(self).skipped(),
            final(self).stats() == old(self).stats().insert(trade_place_account@, completed_statistic(
                stat_of(old(self).stats(), trade_place_account@),
                old(self).partial().contains(client_order_id@),
                filled_amount,
                commission,
            )),
    {
        self.statistic_service_state.register_completely_filled_order(trade_place_account);
        self.remove_filled_order_if_exist(trade_place_account, client_order_id);
        self.statistic_service_state.register_filled_amount(trade_place_account, filled_amount);
        self.statistic_service_state.register_commission(trade_place_account, commission);
        assert(self.stats() =~= old(self).stats().insert(trade_place_account@, completed_statistic(
            stat_of(old(self).stats(), trade_place_account@),
            old(self).partial().contains(client_order_id@),
            filled_amount,
            commission,
        )));
    }

    /// Takes the order out of the partially filled ones, lowering the counter, if it is there.
    pub fn remove_filled_order_if_exist(&mut self, trade_place_account: &TradePlaceAccount, client_order_id: &ClientOrderId)
        requires
            old(self).wf(),
        ensures
            final(self).wf(),
            final(self).partial() == old(self).partial().remove(client_order_id@),
            final(self).skipped() == old(self).skipped(),
            final(self).stats() == if old(self).partial().contains(client_order_id@) {
                old(self).stats().insert(trade_place_account@, decremented(stat_of(old(self).stats(), trade_place_account@)))
            } else {
                old(self).stats()
            },
    {
        match self.find_partial(client_order_id) {
            Some(i) => {
                self.statistic_service_state.decrement_partially_filled_orders(trade_place_account);
                let ghost id = client_order_id@;
                proof {
                    lemma_ids_remove(self.partially_filled_orders@, self.partial_model@, i as int);
                }
                self.partially_filled_orders.remove(i);
                self.partial_model = Ghost(self.partial_model@.remove(id));
            },
            None => {
                assert(old(self).partial().remove(client_order_id@) =~= old(self).partial());
            },
        }
    }

    pub fn register_skipped_event(&mut self)
        requires
            old(self).wf(),
            old(self).skipped() < u64::MAX,
        ensures
            final(self).wf(),
            final(self).stats() == old(self).stats(),
            final(self).partial() == old(self).partial(),
            final(self).skipped() == old(self).skipped() + 1,
    {
        self.statistic_service_state.register_skipped_event();
    }
}

/// The counters of a key after a completed order with the given amounts.
pub open spec fn completed_statistic(
    s: TradePlaceAccountStatistic,
    was_partial: bool,
    filled_amount: Amount,
    commission: Amount,
) -> TradePlaceAccountStatistic {
    let c = TradePlaceAccountStatistic { fully_filled_orders_count: (s.fully_filled_orders_count + 1) as u64, ..s };
    let d = if was_partial { decremented(c) } else { c };
    TradePlaceAccountStatistic {
        summary_filled_amount: (d.summary_filled_amount + filled_amount) as i128,
        summary_commission: (d.summary_commission + commission) as i128,
        ..d
    }
}

/// The consumer of the exchange event stream that keeps the statistics.
pub struct StatisticEventHandler {
    pub stats: StatisticService,
}

impl StatisticEventHandler {
    pub fn new(stats: StatisticService) -> (r: Self)
        ensures
            r.stats == stats,
    {
        StatisticEventHandler { stats }
    }

    /// Counts one event. An event that would leave a counter's range is
    /// refused and changes nothing.
    pub fn handle_event(&mut self, event: &ExchangeEvent) -> (r: Result<(), StatisticError>)
        requires
            old(self).stats.wf(),
        ensures
            final(self).stats.wf(),
            final(self).stats.skipped() == old(self).stats.skipped(),
            match event {
                ExchangeEvent::Other => r is Ok && final(self).stats.stats() == old(self).stats.stats()
                    && final(self).stats.partial() == old(self).stats.partial(),
                ExchangeEvent::OrderEvent(e) => if order_event_fits(old(self).stats.stats(), old(self).stats.partial(), *e) {
                    &&& r is Ok
                    &&& final(self).stats.stats() == next_stats(old(self).stats.stats(), old(self).stats.partial(), *e)
                    &&& final(self).stats.partial() == next_partial(old(self).stats.partial(), e.client_order_id@, e.event_type)
                } else {
                    &&& r == Err::<(), StatisticError>(StatisticError::Overflow)
                    &&& final(self).stats.stats() == old(self).stats.stats()
                    &&& final(self).stats.partial() == old(self).stats.partial()
                },
            },
    {
        match event {
            ExchangeEvent::Other => Ok(()),
            ExchangeEvent::OrderEvent(e) => {
                let tpa = &e.trade_place_account;
                let id = &e.client_order_id;
                let current = self.stats.statistic_service_state.get(tpa);
                let was_partial = self.stats.is_partially_filled(id);
                match &e.event_type {
                    OrderEventType::CreateOrderSucceeded => {
                        if current.opened_orders_count == u64::MAX {
                            return Err(StatisticError::Overflow);
                        }
                        self.stats.register_created_order(tpa);
                        Ok(())
                    },
                    OrderEventType::CancelOrderSucceeded => {
                        if current.canceled_orders_count == u64::MAX {
                            return Err(StatisticError::Overflow);
                        }
                        self.stats.register_canceled_order(tpa, id);
                        Ok(())
                    },
                    OrderEventType::OrderFilled { .. } => {
                        if !was_partial && current.partially_filled_orders_count == u64::MAX {
                            return Err(StatisticError::Overflow);
                        }
                        self.stats.register_partially_filled_order(tpa, id);
                        Ok(())
                    },
                    OrderEventType::OrderCompleted { cloned_order } => {
                        let filled_amount = &cloned_order.filled_amount;
                        let commission = match sum_fill_commissions(&cloned_order.fills) {
                            Some(c) => c,
                            None => return Err(StatisticError::Overflow),
                        };
                        if current.fully_filled_orders_count == u64::MAX {
                            return Err(StatisticError::Overflow);
                        }
                        if (*filled_amount > 0 && current.summary_filled_amount > i128::MAX - *filled_amount)
                            || (*filled_amount < 0 && current.summary_filled_amount < i128::MIN - *filled_amount) {
                            return Err(StatisticError::Overflow);
                        }
                        if (commission > 0 && current.summary_commission > i128::MAX - commission)
                            || (commission < 0 && current.summary_commission < i128::MIN - commission) {
                            return Err(StatisticError::Overflow);
                        }
                        self.stats.register_completely_filled_order(tpa, id, *filled_amount, commission);
                        Ok(())
                    },
                    OrderEventType::Other => Ok(()),
                }
            },
        }
    }
}

/// The counters after the same fill event has been handled `k` times.
pub open spec fn stats_after_fills(
    m: Map<TradePlaceKey, TradePlaceAccountStatistic>,
    p: Set<Seq<char>>,
    fill: OrderEvent,
    k: nat,
) -> Map<TradePlaceKey, TradePlaceAccountStatistic>
    decreases k,
{
    if k == 0 {
        m
    } else {
        next_stats(stats_after_fills(m, p, fill, (k - 1) as nat), partial_after_fills(p, fill, (k - 1) as nat), fill)
    }
}

/// The partially filled orders after the same fill event has been handled `k` times.
pub open spec fn partial_after_fills(p: Set<Seq<char>>, fill: OrderEvent, k: nat) -> Set<Seq<char>>
    decreases k,
{
    if k == 0 {
        p
    } else {
        next_partial(partial_after_fills(p, fill, (k - 1) as nat), fill.client_order_id@, fill.event_type)
    }
}

proof fn lemma_fills_idempotent(
    m: Map<TradePlaceKey, TradePlaceAccountStatistic>,
    p: Set<Seq<char>>,
    fill: OrderEvent,
    k: nat,
)
    requires
        fill.event_type is OrderFilled,
        k >= 1,
    ensures
        stats_after_fills(m, p, fill, k) == next_stats(m, p, fill),
        partial_after_fills(p, fill, k) == next_partial(p, fill.client_order_id@, fill.event_type),
    decreases k,
{
    let p1 = next_partial(p, fill.client_order_id@, fill.event_type);
    if k > 1 {
        lemma_fills_idempotent(m, p, fill, (k - 1) as nat);
        assert(p1.insert(fill.client_order_id@) =~= p1);
        assert(next_stats(next_stats(m, p, fill), p1, fill) == next_stats(m, p, fill));
    } else {
        assert(stats_after_fills(m, p, fill, 0) == m);
        assert(partial_after_fills(p, fill, 0) == p);
    }
}

/// However many times an order is reported filled, it raises the partially
/// filled counter at most once (exactly once if it was not counted before),
/// and the later fills change nothing. Its completion then takes it out of
/// the partially filled orders and lowers the counter once, back to where it
/// was before the first fill; a second completion cannot lower it again.
pub proof fn lemma_partial_fill_counted_once(
    m: Map<TradePlaceKey, TradePlaceAccountStatistic>,
    p: Set<Seq<char>>,
    fill: OrderEvent,
    fills: nat,
    completion: OrderEvent,
)
    requires
        fill.event_type is OrderFilled,
        completion.event_type is OrderCompleted,
        fill.trade_place_account@ == completion.trade_place_account@,
        fill.client_order_id@ == completion.client_order_id@,
        order_event_fits(m, p, fill),
        fills >= 1,
    ensures
        ({
            let key = fill.trade_place_account@;
            let id = fill.client_order_id@;
            let mk = stats_after_fills(m, p, fill, fills);
            let pk = partial_after_fills(p, fill, fills);
            let mc = next_stats(mk, pk, completion);
            let pc = next_partial(pk, id, completion.event_type);
            &&& mk == next_stats(m, p, fill)
            &&& pk == p.insert(id)
            &&& !p.contains(id) ==> stat_of(mk, key).partially_filled_orders_count
                == stat_of(m, key).partially_filled_orders_count + 1
            &&& p.contains(id) ==> mk == m
            &&& !pc.contains(id)
            &&& !p.contains(id) ==> stat_of(mc, key).partially_filled_orders_count
                == stat_of(m, key).partially_filled_orders_count
            &&& stat_of(next_stats(mc, pc, completion), key).partially_filled_orders_count
                == stat_of(mc, key).partially_filled_orders_count
        }),
{
    lemma_fills_idempotent(m, p, fill, fills);
}

/// An order that is created and then canceled raises, for its account and
/// pair, the opened counter by exactly one and the canceled counter by exactly one.
pub proof fn lemma_created_then_canceled(
    m: Map<TradePlaceKey, TradePlaceAccountStatistic>,
    p: Set<Seq<char>>,
    created: OrderEvent,
    canceled: OrderEvent,
)
    requires
        created.event_type is CreateOrderSucceeded,
        canceled.event_type is CancelOrderSucceeded,
        created.trade_place_account@ == canceled.trade_place_account@,
        created.client_order_id@ == canceled.client_order_id@,
        order_event_fits(m, p, created),
        order_event_fits(
            next_stats(m, p, created),
            next_partial(p, created.client_order_id@, created.event_type),
            canceled,
        ),
    ensures
        ({
            let k = created.trade_place_account@;
            let m1 = next_stats(m, p, created);
            let p1 = next_partial(p, created.client_order_id@, created.event_type);
            let m2 = next_stats(m1, p1, canceled);
            &&& stat_of(m2, k).opened_orders_count == stat_of(m, k).opened_orders_count + 1
            &&& stat_of(m2, k).canceled_orders_count == stat_of(m, k).canceled_orders_count + 1
            &&& !next_partial(p1, canceled.client_order_id@, canceled.event_type).contains(canceled.client_order_id@)
        }),
{
}

} // verus!
