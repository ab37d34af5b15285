//! The state coordinator: the single owner of all trading state.
//!
//! Every write to orders, positions, the transaction ledger, the account
//! history and the activity log arrives as one message of a closed set and is
//! applied in the order received; each message is fully applied before the
//! next is taken, so two messages about one symbol never interleave.
use vstd::prelude::*;
use crate::error::TradeWebError;
use crate::model::{Account, Activity, Order, Position, Settings, Trade, TradeSide};
use crate::text::lower_of;
use crate::transaction::{
    after_buy,
    after_decrement,
    buy_answer,
    open_rows,
    BuyResult,
    TransactionTable,
};

verus! {

/// A broker ping older than this many milliseconds means the account stream
/// is down.
pub const PING_STALE_MILLIS: i64 = 60000;

/// The order lifecycle events of the account stream.
#[derive(Debug, Clone, Copy, PartialEq, Eq, Structural)]
pub enum OrderEvent {
    Accepted,
    New,
    PendingNew,
    Fill,
    PartialFill,
    Canceled,
    Expired,
    Rejected,
    DoneForDay,
    Replaced,
    Stopped,
    Suspended,
    OrderCancelRejected,
    OrderReplaceRejected,
    PendingCancel,
    PendingReplace,
    Calculated,
}

impl OrderEvent {
    /// The event's name on the account stream.
    pub fn as_str(&self) -> (r: &'static str)
        ensures
            *self == OrderEvent::Fill ==> r@ == "fill"@,
            *self == OrderEvent::PartialFill ==> r@ == "partial_fill"@,
            *self == OrderEvent::New ==> r@ == "new"@,
            *self == OrderEvent::Accepted ==> r@ == "accepted"@,
    {
        match self {
            OrderEvent::Accepted => "accepted",
            OrderEvent::New => "new",
            OrderEvent::PendingNew => "pending_new",
            OrderEvent::Fill => "fill",
            OrderEvent::PartialFill => "partial_fill",
            OrderEvent::Canceled => "canceled",
            OrderEvent::Expired => "expired",
            OrderEvent::Rejected => "rejected",
            OrderEvent::DoneForDay => "done_for_day",
            OrderEvent::Replaced => "replaced",
            OrderEvent::Stopped => "stopped",
            OrderEvent::Suspended => "suspended",
            OrderEvent::OrderCancelRejected => "order_cancel_rejected",
            OrderEvent::OrderReplaceRejected => "order_replace_rejected",
            OrderEvent::PendingCancel => "pending_cancel",
            OrderEvent::PendingReplace => "pending_replace",
            OrderEvent::Calculated => "calculated",
        }
    }
}

/// One order lifecycle event, with the order as it stood and, for a fill or
/// partial fill, the quantity of that fill.
#[derive(Debug, Clone, PartialEq, Eq)]
pub struct AlpacaOrderLogEvent {
    pub dtg: i64,
    pub event: OrderEvent,
    pub fill_qty: Option<i64>,
    pub order: Order,
}

/// The shares that a sell fill takes from the ledger: the fill's own
/// quantity, else the order's filled quantity.
pub open spec fn fill_decrement(e: AlpacaOrderLogEvent) -> Option<i64> {
    if e.order.side == TradeSide::Sell && (e.event == OrderEvent::Fill || e.event
        == OrderEvent::PartialFill) {
        match e.fill_qty {
            Some(q) => Some(q),
            None => e.order.filled_qty,
        }
    } else {
        None
    }
}

/// The closed set of messages through which trading state is read and written.
#[derive(Debug, Clone, PartialEq, Eq)]
pub enum DbMsg {
    PingDb,
    TradeAlpaca(Trade),
    TradeFinnhub(Trade),
    PingAlpaca { dtg: i64 },
    PingFinnhub { dtg: i64 },
    OrderLogEvent(AlpacaOrderLogEvent),
    SettingsWithSecret,
    SettingsNoSecret,
    SettingsSave { settings: Settings },
    TransactionStartBuy { symbol: String, now: i64 },
    TransactionDecrement { symbol: String, qty: i64 },
    TransactionClean,
    TransactionInsertPosition { position: Position },
    TransactionDeleteOne { symbol: String },
    TransactionDeleteAll,
    AccountGet,
    AccountSaveToDb { account: Account },
    ActivityLatestDtg,
    ActivitySaveToDb { activity: Activity },
    OrderSave { order: Order },
    OrderLocal,
    PositionDeleteAll,
    PositionSaveToDb { position: Position },
    PositionLocalGet,
    TradeLatest { symbol: String },
    WebsocketAlpacaAlive { now: i64 },
}

/// The coordinator's answer to a message.
#[derive(Debug, Clone, PartialEq, Eq)]
pub enum DbReply {
    Done,
    Buy(BuyResult),
    Settings(Settings),
    Account(Account),
    LatestDtg(i64),
    Orders(Vec<Order>),
    Positions(Vec<Position>),
    Trade(Trade),
    Alive(bool),
    Failed(TradeWebError),
}

/// The coordinator's state, as a model.
pub struct CoordinatorView {
    pub ledger: Map<Seq<char>, (i64, i64)>,
    pub trades_alpaca: Seq<Trade>,
    pub trades_finnhub: Seq<Trade>,
    pub last_ping_alpaca: Option<i64>,
    pub last_ping_finnhub: Option<i64>,
    pub order_log: Seq<AlpacaOrderLogEvent>,
    pub orders: Seq<Order>,
    pub positions: Seq<Position>,
    pub accounts: Seq<Account>,
    pub activities: Seq<Activity>,
    pub settings: Option<Settings>,
}

/// The later of a stored instant and a new one.
pub open spec fn later(old: Option<i64>, t: i64) -> Option<i64> {
    match old {
        Some(p) => if p >= t {
            Some(p)
        } else {
            Some(t)
        },
        None => Some(t),
    }
}

/// The most recent trade of symbol `sym` in `s`, the last one stored.
pub open spec fn latest_trade_of(s: Seq<Trade>, sym: Seq<char>) -> Option<Trade>
    decreases s.len(),
{
    if s.len() == 0 {
        None
    } else if s.last().symbol@ == sym {
        Some(s.last())
    } else {
        latest_trade_of(s.drop_last(), sym)
    }
}

/// The latest instant among the activities of `s`.
pub open spec fn latest_activity_dtg(s: Seq<Activity>) -> Option<i64>
    decreases s.len(),
{
    if s.len() == 0 {
        None
    } else {
        match latest_activity_dtg(s.drop_last()) {
            Some(d) => later(Some(d), s.last().dtg),
            None => Some(s.last().dtg),
        }
    }
}

/// The orders of `s` that have not filled, in the order stored.
pub open spec fn unfilled(s: Seq<Order>) -> Seq<Order>
    decreases s.len(),
{
    if s.len() == 0 {
        Seq::empty()
    } else if s.last().filled_at is None {
        unfilled(s.drop_last()).push(s.last())
    } else {
        unfilled(s.drop_last())
    }
}

/// Whether the account stream counts as alive at `now`: a ping has come and
/// the latest is no more than the stale limit old.
pub open spec fn alive_at(last: i64, now: i64) -> bool {
    now - last <= PING_STALE_MILLIS
}

/// The state after message `m`.
pub open spec fn next_view(v: CoordinatorView, m: DbMsg) -> CoordinatorView {
    match m {
        DbMsg::TradeAlpaca(t) => CoordinatorView { trades_alpaca: v.trades_alpaca.push(t), ..v },
        DbMsg::TradeFinnhub(t) => CoordinatorView { trades_finnhub: v.trades_finnhub.push(t), ..v },
        DbMsg::PingAlpaca { dtg } => CoordinatorView { last_ping_alpaca: later(v.last_ping_alpaca, dtg), ..v },
        DbMsg::PingFinnhub { dtg } => CoordinatorView { last_ping_finnhub: later(v.last_ping_finnhub, dtg), ..v },
        DbMsg::OrderLogEvent(e) => CoordinatorView {
            order_log: v.order_log.push(e),
            ledger: match fill_decrement(e) {
                Some(q) => open_rows(after_decrement(v.ledger, lower_of(e.order.symbol@), q)),
                None => v.ledger,
            },
            ..v
        },
        DbMsg::SettingsSave { settings } => CoordinatorView { settings: Some(settings), ..v },
        DbMsg::TransactionStartBuy { symbol, now } => CoordinatorView {
            ledger: after_buy(v.ledger, lower_of(symbol@), now),
            ..v
        },
        DbMsg::TransactionDecrement { symbol, qty } => CoordinatorView {
            ledger: after_decrement(v.ledger, lower_of(symbol@), qty),
            ..v
        },
        DbMsg::TransactionClean => CoordinatorView { ledger: open_rows(v.ledger), ..v },
        DbMsg::TransactionInsertPosition { position } => CoordinatorView {
            ledger: v.ledger.insert(lower_of(position.symbol@), (position.qty, position.dtg)),
            ..v
        },
        DbMsg::TransactionDeleteOne { symbol } => CoordinatorView { ledger: v.ledger.remove(lower_of(symbol@)), ..v },
        DbMsg::TransactionDeleteAll => CoordinatorView { ledger: Map::empty(), ..v },
        DbMsg::AccountSaveToDb { account } => CoordinatorView { accounts: v.accounts.push(account), ..v },
        DbMsg::ActivitySaveToDb { activity } => CoordinatorView { activities: v.activities.push(activity), ..v },
        DbMsg::OrderSave { order } => CoordinatorView { orders: v.orders.push(order), ..v },
        DbMsg::PositionDeleteAll => CoordinatorView { positions: Seq::empty(), ..v },
        DbMsg::PositionSaveToDb { position } => CoordinatorView { positions: v.positions.push(position), ..v },
        _ => v,
    }
}

/// Whether `r` is the answer to message `m` in state `v`.
pub open spec fn reply_ok(v: CoordinatorView, m: DbMsg, r: DbReply) -> bool {
    match m {
        DbMsg::TransactionStartBuy { symbol, now } => r == DbReply::Buy(buy_answer(v.ledger, lower_of(symbol@))),
        DbMsg::SettingsWithSecret => match v.settings {
            Some(s) => r == DbReply::Settings(s),
            None => r == DbReply::Failed(TradeWebError::SqlxError),
        },
        DbMsg::SettingsNoSecret => match v.settings {
            Some(s) => match r {
                DbReply::Settings(x) => x.dtg == s.dtg && x.trade_size == s.trade_size
                    && x.trade_enable_buy == s.trade_enable_buy && x.acct_min_cash_dollars
                    == s.acct_min_cash_dollars && x.alpaca_paper_id@.len() == 0
                    && x.alpaca_paper_secret@.len() == 0 && x.alpaca_live_id@.len() == 0
                    && x.alpaca_live_secret@.len() == 0 && x.finnhub_key@.len() == 0,
                _ => false,
            },
            None => r == DbReply::Failed(TradeWebError::SqlxError),
        },
        DbMsg::AccountGet => if v.accounts.len() > 0 {
            r == DbReply::Account(v.accounts.last())
        } else {
            r == DbReply::Failed(TradeWebError::SqlxError)
        },
        DbMsg::ActivityLatestDtg => match latest_activity_dtg(v.activities) {
            Some(d) => r == DbReply::LatestDtg(d),
            None => r == DbReply::Failed(TradeWebError::ReqwestError),
        },
        DbMsg::OrderLocal => match r {
            DbReply::Orders(os) => os@ == unfilled(v.orders),
            _ => false,
        },
        DbMsg::PositionLocalGet => match r {
            DbReply::Positions(ps) => ps@ == v.positions,
            _ => false,
        },
        DbMsg::TradeLatest { symbol } => match latest_trade_of(v.trades_alpaca, symbol@) {
            Some(t) => r == DbReply::Trade(t),
            None => r == DbReply::Failed(TradeWebError::SqlxError),
        },
        DbMsg::WebsocketAlpacaAlive { now } => match v.last_ping_alpaca {
            Some(p) => r == DbReply::Alive(alive_at(p, now)),
            None => r == DbReply::Failed(TradeWebError::SqlxError),
        },
        _ => r == DbReply::Done,
    }
}

/// The coordinator: all trading state, and the one place where it changes.
pub struct Coordinator {
    ledger: TransactionTable,
    trades_alpaca: Vec<Trade>,
    trades_finnhub: Vec<Trade>,
    last_ping_alpaca: Option<i64>,
    last_ping_finnhub: Option<i64>,
    order_log: Vec<AlpacaOrderLogEvent>,
    orders: Vec<Order>,
    positions: Vec<Position>,
    accounts: Vec<Account>,
    activities: Vec<Activity>,
    settings: Option<Settings>,
}

impl View for Coordinator {
    type V = CoordinatorView;

    closed spec fn view(&self) -> CoordinatorView {
        CoordinatorView {
            ledger: self.ledger@,
            trades_alpaca: self.trades_alpaca@,
            trades_finnhub: self.trades_finnhub@,
            last_ping_alpaca: self.last_ping_alpaca,
            last_ping_finnhub: self.last_ping_finnhub,
            order_log: self.order_log@,
            orders: self.orders@,
            positions: self.positions@,
            accounts: self.accounts@,
            activities: self.activities@,
            settings: self.settings,
        }
    }
}

fn later_of(old: Option<i64>, t: i64) -> (r: Option<i64>)
    ensures
        r == later(old, t),
{
    match old {
        Some(p) => if p >= t {
            Some(p)
        } else {
            Some(t)
        },
        None => Some(t),
    }
}

impl Coordinator {
    /// The coordinator's invariant: the ledger's own.
    pub closed spec fn wf(&self) -> bool {
        self.ledger.wf()
    }

    /// A coordinator with no state: a blank slate, as at process start.
    pub fn new() -> (r: Coordinator)
        ensures
            r.wf(),
            r@.ledger == Map::<Seq<char>, (i64, i64)>::empty(),
            r@.trades_alpaca == Seq::<Trade>::empty(),
            r@.trades_finnhub == Seq::<Trade>::empty(),
            r@.last_ping_alpaca is None,
            r@.last_ping_finnhub is None,
            r@.order_log == Seq::<AlpacaOrderLogEvent>::empty(),
            r@.orders == Seq::<Order>::empty(),
            r@.positions == Seq::<Position>::empty(),
            r@.accounts == Seq::<Account>::empty(),
            r@.activities == Seq::<Activity>::empty(),
            r@.settings is None,
    {
        Coordinator {
            ledger: TransactionTable::new(),
            trades_alpaca: Vec::new(),
            trades_finnhub: Vec::new(),
            last_ping_alpaca: None,
            last_ping_finnhub: None,
            order_log: Vec::new(),
            orders: Vec::new(),
            positions: Vec::new(),
            accounts: Vec::new(),
            activities: Vec::new(),
            settings: None,
        }
    }

    /// The most recent alpaca trade of `symbol`.
    fn latest_trade(&self, symbol: &String) -> (r: Option<Trade>)
        ensures
            r == latest_trade_of(self.trades_alpaca@, symbol@),
    {
        let mut i: usize = self.trades_alpaca.len();
        proof {
            assert(self.trades_alpaca@.take(i as int) =~= self.trades_alpaca@);
        }
        while i > 0
            invariant
                i <= self.trades_alpaca@.len(),
                latest_trade_of(self.trades_alpaca@, symbol@) == latest_trade_of(
                    self.trades_alpaca@.take(i as int),
                    symbol@,
                ),
            decreases i,
        {
            proof {
                assert(self.trades_alpaca@.take(i as int).drop_last() =~= self.trades_alpaca@.take(
                    i - 1,
                ));
            }
            if self.trades_alpaca[i - 1].symbol == *symbol {
                return Some(self.trades_alpaca[i - 1].copy());
            }
            i = i - 1;
        }
        None
    }

    /// The latest instant among the stored activities.
    fn latest_dtg(&self) -> (r: Option<i64>)
        ensures
            r == latest_activity_dtg(self.activities@),
    {
        let mut best: Option<i64> = None;
        let mut i: usize = 0;
        while i < self.activities.len()
            invariant
                i <= self.activities@.len(),
                best == latest_activity_dtg(self.activities@.take(i as int)),
            decreases self.activities@.len() - i,
        {
            proof {
                assert(self.activities@.take(i as int + 1).drop_last() =~= self.activities@.take(
                    i as int,
                ));
            }
            let d = self.activities[i].dtg;
            best = match best {
                Some(b) => later_of(Some(b), d),
                None => Some(d),
            };
            i = i + 1;
        }
        proof {
            assert(self.activities@.take(i as int) =~= self.activities@);
        }
        best
    }

    /// The orders that have not filled, in the order stored.
    fn unfilled_orders(&self) -> (r: Vec<Order>)
        ensures
            r@ == unfilled(self.orders@),
    {
        let mut out: Vec<Order> = Vec::new();
        let mut i: usize = 0;
        while i < self.orders.len()
            invariant
                i <= self.orders@.len(),
                out@ == unfilled(self.orders@.take(i as int)),
            decreases self.orders@.len() - i,
        {
            proof {
                assert(self.orders@.take(i as int + 1).drop_last() =~= self.orders@.take(i as int));
            }
            if self.orders[i].filled_at.is_none() {
                out.push(self.orders[i].copy());
            }
            i = i + 1;
        }
        proof {
            assert(self.orders@.take(i as int) =~= self.orders@);
        }
        out
    }

    /// The current position snapshot.
    fn position_snapshot(&self) -> (r: Vec<Position>)
        ensures
            r@ == self.positions@,
    {
        let mut out: Vec<Position> = Vec::new();
        let mut i: usize = 0;
        while i < self.positions.len()
            invariant
                i <= self.positions@.len(),
                out@ == self.positions@.take(i as int),
            decreases self.positions@.len() - i,
        {
            out.push(self.positions[i].copy());
            proof {
                assert(out@ =~= self.positions@.take(i as int + 1));
            }
            i = i + 1;
        }
        proof {
            assert(self.positions@.take(i as int) =~= self.positions@);
        }
        out
    }

    /// Applies message `msg` in full and answers it: the state becomes
    /// `next_view` of the old state and the answer meets `reply_ok`.
    pub fn process(&mut self, msg: DbMsg) -> (r: DbReply)
        requires
            old(self).wf(),
        ensures
            final(self).wf(),
            final(self)@ == next_view(old(self)@, msg),
            reply_ok(old(self)@, msg, r),
    {
        match msg {
            DbMsg::PingDb => DbReply::Done,
            DbMsg::TradeAlpaca(t) => {
                self.trades_alpaca.push(t);
                DbReply::Done
            },
            DbMsg::TradeFinnhub(t) => {
                self.trades_finnhub.push(t);
                DbReply::Done
            },
            DbMsg::PingAlpaca { dtg } => {
                self.last_ping_alpaca = later_of(self.last_ping_alpaca, dtg);
                DbReply::Done
            },
            DbMsg::PingFinnhub { dtg } => {
                self.last_ping_finnhub = later_of(self.last_ping_finnhub, dtg);
                DbReply::Done
            },
            DbMsg::OrderLogEvent(e) => {
                let is_sell_fill = matches!(e.order.side, TradeSide::Sell) && (matches!(e.event, OrderEvent::Fill)
                    || matches!(e.event, OrderEvent::PartialFill));
                if is_sell_fill {
                    let q = match e.fill_qty {
                        Some(q) => Some(q),
                        None => e.order.filled_qty,
                    };
                    if let Some(q) = q {
                        self.ledger.decrement(e.order.symbol.as_str(), q);
                        self.ledger.clean();
                    }
                }
                self.order_log.push(e);
                DbReply::Done
            },
            DbMsg::SettingsWithSecret => match &self.settings {
                Some(s) => DbReply::Settings(s.copy()),
                None => DbReply::Failed(TradeWebError::SqlxError),
            },
            DbMsg::SettingsNoSecret => match &self.settings {
                Some(s) => DbReply::Settings(s.without_secrets()),
                None => DbReply::Failed(TradeWebError::SqlxError),
            },
            DbMsg::SettingsSave { settings } => {
                self.settings = Some(settings);
                DbReply::Done
            },
            DbMsg::TransactionStartBuy { symbol, now } => {
                let b = self.ledger.buy_check(symbol.as_str(), now);
                DbReply::Buy(b)
            },
            DbMsg::TransactionDecrement { symbol, qty } => {
                self.ledger.decrement(symbol.as_str(), qty);
                DbReply::Done
            },
            DbMsg::TransactionClean => {
                self.ledger.clean();
                DbReply::Done
            },
            DbMsg::TransactionInsertPosition { position } => {
                self.ledger.insert_existing_position(&position);
                DbReply::Done
            },
            DbMsg::TransactionDeleteOne { symbol } => {
                self.ledger.delete_one(symbol.as_str());
                DbReply::Done
            },
            DbMsg::TransactionDeleteAll => {
                self.ledger.delete_all();
                DbReply::Done
            },
            DbMsg::AccountGet => {
                let n = self.accounts.len();
                if n > 0 {
                    DbReply::Account(self.accounts[n - 1].copy())
                } else {
                    DbReply::Failed(TradeWebError::SqlxError)
                }
            },
            DbMsg::AccountSaveToDb { account } => {
                self.accounts.push(account);
                DbReply::Done
            },
            DbMsg::ActivityLatestDtg => match self.latest_dtg() {
                Some(d) => DbReply::LatestDtg(d),
                None => DbReply::Failed(TradeWebError::ReqwestError),
            },
            DbMsg::ActivitySaveToDb { activity } => {
                self.activities.push(activity);
                DbReply::Done
            },
            DbMsg::OrderSave { order } => {
                self.orders.push(order);
                DbReply::Done
            },
            DbMsg::OrderLocal => DbReply::Orders(self.unfilled_orders()),
            DbMsg::PositionDeleteAll => {
                self.positions = Vec::new();
                DbReply::Done
            },
            DbMsg::PositionSaveToDb { position } => {
                self.positions.push(position);
                DbReply::Done
            },
            DbMsg::PositionLocalGet => DbReply::Positions(self.position_snapshot()),
            DbMsg::TradeLatest { symbol } => match self.latest_trade(&symbol) {
                Some(t) => DbReply::Trade(t),
                None => DbReply::Failed(TradeWebError::SqlxError),
            },
            DbMsg::WebsocketAlpacaAlive { now } => match self.last_ping_alpaca {
                Some(p) => {
                    let age: i128 = now as i128 - p as i128;
                    DbReply::Alive(age <= PING_STALE_MILLIS as i128)
                },
                None => DbReply::Failed(TradeWebError::SqlxError),
            },
        }
    }
}


/// Round trip: a trade tick that the coordinator stores, read back as the
/// latest trade of its symbol, comes back with the same symbol, price, size
/// and time.
pub proof fn lemma_trade_round_trip(v: CoordinatorView, t: Trade, r: DbReply)
    requires
        reply_ok(next_view(v, DbMsg::TradeAlpaca(t)), DbMsg::TradeLatest { symbol: t.symbol }, r),
    ensures
        latest_trade_of(next_view(v, DbMsg::TradeAlpaca(t)).trades_alpaca, t.symbol@) == Some(t),
        r == DbReply::Trade(t),
{
}

/// Through the coordinator too, a buy check of a symbol right after an
/// allowed one is refused with `PositionExists`, whatever the two times.
pub proof fn lemma_coordinator_second_buy_refused(
    v: CoordinatorView,
    symbol: String,
    now1: i64,
    now2: i64,
    r1: DbReply,
    r2: DbReply,
)
    requires
        reply_ok(v, DbMsg::TransactionStartBuy { symbol: symbol, now: now1 }, r1),
        r1 == DbReply::Buy(BuyResult::Allowed),
        reply_ok(
            next_view(v, DbMsg::TransactionStartBuy { symbol: symbol, now: now1 }),
            DbMsg::TransactionStartBuy { symbol: symbol, now: now2 },
            r2,
        ),
    ensures
        r2 == DbReply::Buy(BuyResult::NotAllowed { error: TradeWebError::PositionExists }),
{
}


/// The coordinator's state after `msgs`, applied in order from `v`.
pub open spec fn after_all(v: CoordinatorView, msgs: Seq<DbMsg>) -> CoordinatorView
    decreases msgs.len(),
{
    if msgs.len() == 0 {
        v
    } else {
        next_view(after_all(v, msgs.drop_last()), msgs.last())
    }
}

/// Whether message `m` is one that can take the ledger row of key `k` away:
/// a delete of it, a delete of every row, a clean-up, or a sell fill (which
/// decrements and then cleans up).
pub open spec fn may_remove_row(m: DbMsg, k: Seq<char>) -> bool {
    match m {
        DbMsg::TransactionDeleteOne { symbol } => lower_of(symbol@) == k,
        DbMsg::TransactionDeleteAll => true,
        DbMsg::TransactionClean => true,
        DbMsg::OrderLogEvent(e) => fill_decrement(e) is Some,
        _ => false,
    }
}

/// Whether message `m` is a buy check of key `k`.
pub open spec fn is_buy_check_of(m: DbMsg, k: Seq<char>) -> bool {
    match m {
        DbMsg::TransactionStartBuy { symbol, now } => lower_of(symbol@) == k,
        _ => false,
    }
}

proof fn lemma_row_kept(v: CoordinatorView, msgs: Seq<DbMsg>, k: Seq<char>, a: nat, b: nat)
    requires
        a <= b <= msgs.len(),
        after_all(v, msgs.take(a as int)).ledger.contains_key(k),
        forall|n: int| a <= n < b ==> !may_remove_row(#[trigger] msgs[n], k),
    ensures
        after_all(v, msgs.take(b as int)).ledger.contains_key(k),
    decreases b - a,
{
    if b > a {
        lemma_row_kept(v, msgs, k, a, (b - 1) as nat);
        assert(msgs.take(b as int).drop_last() =~= msgs.take(b - 1));
        assert(msgs.take(b as int).last() == msgs[b - 1]);
        assert(!may_remove_row(msgs[b - 1], k));
    }
}

/// At most one buy per symbol, through the coordinator: between two buy
/// checks of one symbol that are both allowed stands a message that can take
/// that symbol's ledger row away (a delete of it, a delete of every row, a
/// clean-up, or a sell fill).
pub proof fn lemma_coordinator_one_buy_per_symbol(
    v: CoordinatorView,
    msgs: Seq<DbMsg>,
    k: Seq<char>,
    i: int,
    j: int,
    ri: DbReply,
    rj: DbReply,
)
    requires
        0 <= i < j < msgs.len(),
        is_buy_check_of(msgs[i], k),
        is_buy_check_of(msgs[j], k),
        reply_ok(after_all(v, msgs.take(i)), msgs[i], ri),
        reply_ok(after_all(v, msgs.take(j)), msgs[j], rj),
        ri == DbReply::Buy(BuyResult::Allowed),
        rj == DbReply::Buy(BuyResult::Allowed),
    ensures
        exists|n: int| i < n < j && may_remove_row(#[trigger] msgs[n], k),
{
    if !(exists|n: int| i < n < j && may_remove_row(#[trigger] msgs[n], k)) {
        assert(msgs.take(i + 1).drop_last() =~= msgs.take(i));
        assert(msgs.take(i + 1).last() == msgs[i]);
        lemma_row_kept(v, msgs, k, (i + 1) as nat, j as nat);
    }
}

} // verus!
