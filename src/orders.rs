//! The decisions that gate and shape orders.
//!
//! A buy is admitted by the ledger's buy check, sized by the configured trade
//! size and the cash available, and posted; if the post fails, the row the
//! buy check inserted is deleted again so that later buys of the symbol are
//! not blocked forever. A sell is posted directly.
use vstd::prelude::*;
use crate::error::TradeWebError;
use crate::market_hours::{BUY_EXTENDED_HOURS, SELL_EXTENDED_HOURS};
use crate::model::{Order, OrderType, Symbol, TimeInForce, TradeSide, PRICE_SCALE};
use crate::text::{lower_of, lowercase, upper_of, uppercase};
use crate::transaction::{BuyResult, TransactionNextStep};

verus! {

/// The largest number of shares a single buy may ask for.
pub const QTY_SIZE_SAFETY_LIMIT: i64 = 1001;

/// The largest price magnitude, in ten-thousandths of a dollar, that price
/// rounding accepts.
pub const MAX_ROUNDABLE_PRICE: i64 = 9_000_000_000_000_000_000;

/// An order request as the broker's order endpoint takes it.
#[derive(Debug, Clone, PartialEq, Eq)]
pub struct JsonTrade {
    pub symbol: String,
    pub side: TradeSide,
    pub time_in_force: TimeInForce,
    pub qty: i64,
    pub order_type: OrderType,
    pub limit_price: Option<i64>,
    pub extended_hours: Option<bool>,
    pub client_order_id: String,
}

/// A record of an order about to be submitted.
#[derive(Debug, Clone, PartialEq, Eq)]
pub struct OrderLogEntry {
    pub id: String,
    pub id_group: String,
    pub dtg: i64,
    pub symbol: String,
    pub side: TradeSide,
    pub qty: i64,
}

/// The latest quote of a symbol and what the available cash buys of it.
#[derive(Debug, Clone, Copy, PartialEq, Eq, Structural)]
pub struct MaxBuyPossible {
    pub price: i64,
    pub size: i64,
    pub cash_available: i64,
    pub qty_possible: i64,
}

/// What a buy does once the ledger has answered.
#[derive(Debug, Clone, PartialEq, Eq)]
pub enum BuyPlan {
    /// The ledger refused the buy.
    NotAllowed(TradeWebError),
    /// No share can be bought; the ledger row stays until a clean-up.
    NothingToBuy,
    /// The computed quantity exceeds the safety limit; nothing is posted.
    OverSafetyLimit { qty: i64 },
    /// Save the entry and post the order.
    Post { entry: OrderLogEntry, trade: JsonTrade },
}

/// Rounds a price, in ten-thousandths of a dollar, to whole cents: the
/// digits below a cent are dropped and one cent is added, away from zero,
/// where the first dropped digit is five or more.
pub open spec fn round_to_cents(p: int) -> int {
    let a = if p < 0 { -p } else { p };
    let r = if (a / 10) % 10 >= 5 { (a / 100 + 1) * 100 } else { (a / 100) * 100 };
    if p < 0 { -r } else { r }
}

/// A price fit for the broker: four decimals below one dollar, two from one
/// dollar up.
pub open spec fn broker_price(p: int) -> int {
    if p < PRICE_SCALE { p } else { round_to_cents(p) }
}

/// The shares a buy asks for, given what the cash allows and the symbol's
/// trade size: the smaller of the two, or none where the cash could not be
/// worked out.
pub open spec fn buy_qty(max_buy: Result<MaxBuyPossible, TradeWebError>, trade_size: i64) -> i64 {
    match max_buy {
        Ok(m) => if m.qty_possible <= trade_size { m.qty_possible } else { trade_size },
        Err(_) => 0,
    }
}

/// Rounds `price` as the broker wants prices written.
pub fn fix_alpaca_price_rounding(price: i64) -> (r: i64)
    requires
        -MAX_ROUNDABLE_PRICE <= price <= MAX_ROUNDABLE_PRICE,
    ensures
        r == broker_price(price as int),
{
    if price < PRICE_SCALE {
        return price;
    }
    let a: i64 = price;
    let whole: i64 = a / 100;
    let digit: i64 = (a / 10) % 10;
    if digit >= 5 {
        (whole + 1) * 100
    } else {
        whole * 100
    }
}

impl MaxBuyPossible {
    /// What `cash_available` buys at `price`: whole shares, none where there
    /// is no cash. A price of zero or below gives no usable quote.
    pub fn from_quote(price: i64, size: i64, cash_available: i64) -> (r: Result<MaxBuyPossible, TradeWebError>)
        ensures
            cash_available > 0 && price <= 0 ==> r == Err::<MaxBuyPossible, TradeWebError>(TradeWebError::SqlxError),
            !(cash_available > 0 && price <= 0) ==> r == Ok::<MaxBuyPossible, TradeWebError>(MaxBuyPossible {
                price,
                size,
                cash_available,
                qty_possible: if cash_available > 0 { (cash_available / price) as i64 } else { 0 },
            }),
    {
        if cash_available > 0 {
            if price <= 0 {
                return Err(TradeWebError::SqlxError);
            }
            Ok(MaxBuyPossible { price, size, cash_available, qty_possible: cash_available / price })
        } else {
            Ok(MaxBuyPossible { price, size, cash_available, qty_possible: 0 })
        }
    }
}

impl OrderLogEntry {
    /// A new entry with the given identifiers and time; the symbol is stored
    /// lower-cased.
    pub fn new(symbol: &str, side: TradeSide, qty: i64, id: String, id_group: String, dtg: i64) -> (r: OrderLogEntry)
        ensures
            r.symbol@ == lower_of(symbol@),
            r.side == side,
            r.qty == qty,
            r.id == id,
            r.id_group == id_group,
            r.dtg == dtg,
    {
        OrderLogEntry { id, id_group, dtg, symbol: lowercase(symbol), side, qty }
    }

    /// The client order id: the group and the id joined by `---`.
    pub fn id_client(&self) -> (r: String)
        ensures
            r@ == self.id_group@ + "---"@ + self.id@,
    {
        let mut r = self.id_group.clone();
        r.append("---");
        r.append(self.id.as_str());
        r
    }

    /// The symbol upper-cased, as orders name it.
    pub fn symbol(&self) -> (r: String)
        ensures
            r@ == upper_of(self.symbol@),
    {
        uppercase(self.symbol.as_str())
    }
}

/// The order request of a buy of `qty` shares, for the entry `entry`.
fn buy_request(entry: &OrderLogEntry, qty: i64, price: i64) -> (r: JsonTrade)
    ensures
        r.symbol@ == upper_of(entry.symbol@),
        r.side == TradeSide::Buy,
        r.time_in_force == TimeInForce::Day,
        r.qty == qty,
        r.order_type == OrderType::Market,
        r.limit_price is None,
        r.extended_hours == Some(false),
        r.client_order_id@ == entry.id_group@ + "---"@ + entry.id@,
{
    let (limit_price, order_type) = if BUY_EXTENDED_HOURS && -MAX_ROUNDABLE_PRICE <= price && price
        <= MAX_ROUNDABLE_PRICE {
        (Some(fix_alpaca_price_rounding(price)), OrderType::Limit)
    } else {
        (None, OrderType::Market)
    };
    JsonTrade {
        symbol: entry.symbol(),
        side: TradeSide::Buy,
        time_in_force: TimeInForce::Day,
        qty,
        order_type,
        limit_price,
        extended_hours: Some(BUY_EXTENDED_HOURS),
        client_order_id: entry.id_client(),
    }
}

/// Buy: what to do for `stock_symbol` once the ledger answered `check` and
/// the cash check gave `max_buy`. The quantity is the smaller of what the
/// cash allows and the symbol's trade size; a market order for it is posted
/// when it is positive and within the safety limit.
pub fn buy(
    stock_symbol: &Symbol,
    check: BuyResult,
    max_buy: Result<MaxBuyPossible, TradeWebError>,
    id: String,
    id_group: String,
    now: i64,
) -> (r: BuyPlan)
    ensures
        check is NotAllowed ==> r == BuyPlan::NotAllowed(check->error),
        check == BuyResult::Allowed && buy_qty(max_buy, stock_symbol.trade_size) <= 0 ==> r
            == BuyPlan::NothingToBuy,
        check == BuyResult::Allowed && buy_qty(max_buy, stock_symbol.trade_size) > QTY_SIZE_SAFETY_LIMIT
            ==> r == (BuyPlan::OverSafetyLimit { qty: buy_qty(max_buy, stock_symbol.trade_size) }),
        check == BuyResult::Allowed && 0 < buy_qty(max_buy, stock_symbol.trade_size)
            <= QTY_SIZE_SAFETY_LIMIT ==> match r {
            BuyPlan::Post { entry, trade } => {
                &&& entry.symbol@ == lower_of(stock_symbol.symbol@)
                &&& entry.side == TradeSide::Buy
                &&& entry.qty == buy_qty(max_buy, stock_symbol.trade_size)
                &&& entry.id == id && entry.id_group == id_group && entry.dtg == now
                &&& trade.symbol@ == upper_of(lower_of(stock_symbol.symbol@))
                &&& trade.side == TradeSide::Buy
                &&& trade.time_in_force == TimeInForce::Day
                &&& trade.qty == buy_qty(max_buy, stock_symbol.trade_size)
                &&& trade.order_type == OrderType::Market
                &&& trade.limit_price is None
                &&& trade.extended_hours == Some(false)
                &&& trade.client_order_id@ == id_group@ + "---"@ + id@
            },
            _ => false,
        },
{
    match check {
        BuyResult::NotAllowed { error } => BuyPlan::NotAllowed(error),
        BuyResult::Allowed => {
            let (qty, price) = match max_buy {
                Ok(m) => (if m.qty_possible <= stock_symbol.trade_size {
                    m.qty_possible
                } else {
                    stock_symbol.trade_size
                }, m.price),
                Err(_) => (0, 0),
            };
            if qty <= 0 {
                BuyPlan::NothingToBuy
            } else if qty > QTY_SIZE_SAFETY_LIMIT {
                BuyPlan::OverSafetyLimit { qty }
            } else {
                let entry = OrderLogEntry::new(stock_symbol.symbol.as_str(), TradeSide::Buy, qty, id, id_group, now);
                let trade = buy_request(&entry, qty, price);
                BuyPlan::Post { entry, trade }
            }
        },
    }
}

/// After a buy's post: carry on when the order was accepted, else delete the
/// ledger row that the buy check inserted.
pub fn next_step_after_post(posted: &Result<Order, TradeWebError>) -> (r: TransactionNextStep)
    ensures
        posted is Ok ==> r == TransactionNextStep::Continue,
        posted is Err ==> r == TransactionNextStep::DeleteTransaction,
{
    match posted {
        Ok(_) => TransactionNextStep::Continue,
        Err(_) => TransactionNextStep::DeleteTransaction,
    }
}

/// Sell: the entry and order request of a sale of `qty_to_sell` shares of
/// `symbol`, and the client order id to follow it by. With a limit price it
/// is a day limit order whose id comes back; without, a day market order,
/// and no id comes back.
pub fn sell(
    symbol: &str,
    qty_to_sell: i64,
    limit_price: Option<i64>,
    id: String,
    id_group: String,
    now: i64,
) -> (r: (OrderLogEntry, JsonTrade, Option<String>))
    ensures
        r.0.symbol@ == lower_of(upper_of(symbol@)),
        r.0.side == TradeSide::Sell,
        r.0.qty == qty_to_sell,
        r.0.id == id && r.0.id_group == id_group && r.0.dtg == now,
        r.1.symbol@ == upper_of(r.0.symbol@),
        r.1.side == TradeSide::Sell,
        r.1.time_in_force == TimeInForce::Day,
        r.1.qty == qty_to_sell,
        r.1.client_order_id@ == id_group@ + "---"@ + id@,
        r.1.limit_price == limit_price,
        limit_price is Some ==> r.1.order_type == OrderType::Limit && r.1.extended_hours == Some(
            SELL_EXTENDED_HOURS,
        ) && r.2 is Some && r.2.unwrap()@ == id_group@ + "---"@ + id@,
        limit_price is None ==> r.1.order_type == OrderType::Market && r.1.extended_hours is None
            && r.2 is None,
{
    let upper = uppercase(symbol);
    let entry = OrderLogEntry::new(upper.as_str(), TradeSide::Sell, qty_to_sell, id, id_group, now);
    match limit_price {
        Some(p) => {
            let trade = JsonTrade {
                symbol: entry.symbol(),
                side: TradeSide::Sell,
                time_in_force: TimeInForce::Day,
                qty: qty_to_sell,
                order_type: OrderType::Limit,
                limit_price: Some(p),
                extended_hours: Some(SELL_EXTENDED_HOURS),
                client_order_id: entry.id_client(),
            };
            let c = entry.id_client();
            (entry, trade, Some(c))
        },
        None => {
            let trade = JsonTrade {
                symbol: entry.symbol(),
                side: TradeSide::Sell,
                time_in_force: TimeInForce::Day,
                qty: qty_to_sell,
                order_type: OrderType::Market,
                limit_price: None,
                extended_hours: None,
                client_order_id: entry.id_client(),
            };
            (entry, trade, None)
        },
    }
}

/// The outcome of posting an order, from the broker's reply: its HTTP
/// status (none where the request itself failed) and, on 200, the order the
/// body decoded to (none where it did not decode).
pub fn rest_post_order(status: Option<u16>, body: Option<Order>) -> (r: Result<Order, TradeWebError>)
    ensures
        status == Some(200u16) && body is Some ==> r == Ok::<Order, TradeWebError>(body.unwrap()),
        status == Some(200u16) && body is None ==> r == Err::<Order, TradeWebError>(TradeWebError::JsonError),
        status == Some(403u16) ==> r == Err::<Order, TradeWebError>(TradeWebError::Alpaca403),
        status == Some(422u16) ==> r == Err::<Order, TradeWebError>(TradeWebError::Alpaca422),
        !(status == Some(200u16) || status == Some(403u16) || status == Some(422u16)) ==> r == Err::<
            Order,
            TradeWebError,
        >(TradeWebError::ReqwestError),
{
    match status {
        Some(200) => match body {
            Some(o) => Ok(o),
            None => Err(TradeWebError::JsonError),
        },
        Some(403) => Err(TradeWebError::Alpaca403),
        Some(422) => Err(TradeWebError::Alpaca422),
        _ => Err(TradeWebError::ReqwestError),
    }
}

} // verus!
