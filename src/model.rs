//! The records that trading state is made of.
//!
//! Money and prices are counted in ten-thousandths of a dollar, share
//! quantities in whole shares, and instants in milliseconds after the Unix
//! epoch.
use vstd::prelude::*;

verus! {

/// Ten-thousandths of a dollar in one dollar.
pub const PRICE_SCALE: i64 = 10000;

/// Which way an order trades.
#[derive(Debug, Clone, Copy, PartialEq, Eq, Structural)]
pub enum TradeSide {
    Buy,
    Sell,
    SellShort,
}

/// How long an order stays working.
#[derive(Debug, Clone, Copy, PartialEq, Eq, Structural)]
pub enum TimeInForce {
    Gtc,
    Day,
    Ioc,
}

/// How an order is priced.
#[derive(Debug, Clone, Copy, PartialEq, Eq, Structural)]
pub enum OrderType {
    Market,
    Limit,
}

/// Whether a position is long or short.
#[derive(Debug, Clone, Copy, PartialEq, Eq, Structural)]
pub enum PositionSide {
    Long,
    Short,
}

/// The kind of an account activity.
#[derive(Debug, Clone, Copy, PartialEq, Eq, Structural)]
pub enum ActivityType {
    Fill,
}

/// Whether an activity filled its order wholly or in part.
#[derive(Debug, Clone, Copy, PartialEq, Eq, Structural)]
pub enum ActivitySubtype {
    Fill,
    PartialFill,
}

/// Where the process finds its configuration.
#[derive(Debug, Clone, Copy, PartialEq, Eq, Structural)]
pub enum ConfigLocation {
    Docker,
    NotDocker,
}

/// The direction of a moving-average crossover.
#[derive(Debug, Clone, Copy, PartialEq, Eq, Structural)]
pub enum CrossStatus {
    Up,
    Down,
    NoCross,
}

/// A named set of trading parameters that the operator can switch to.
#[derive(Debug, Clone, Copy, PartialEq, Eq, Structural)]
pub enum TradeSettingsProfile {
    Buy,
    BuyTwo,
    Close,
    CloseWithLoss,
}

impl TradeSide {
    /// The broker's name for the side.
    pub fn as_str(&self) -> (r: &'static str)
        ensures
            *self == TradeSide::Buy ==> r@ == "buy"@,
            *self == TradeSide::Sell ==> r@ == "sell"@,
            *self == TradeSide::SellShort ==> r@ == "sell_short"@,
    {
        match self {
            TradeSide::Buy => "buy",
            TradeSide::Sell => "sell",
            TradeSide::SellShort => "sell_short",
        }
    }
}

impl TimeInForce {
    /// The broker's name for the time in force.
    pub fn as_str(&self) -> (r: &'static str)
        ensures
            *self == TimeInForce::Gtc ==> r@ == "gtc"@,
            *self == TimeInForce::Day ==> r@ == "day"@,
            *self == TimeInForce::Ioc ==> r@ == "ioc"@,
    {
        match self {
            TimeInForce::Gtc => "gtc",
            TimeInForce::Day => "day",
            TimeInForce::Ioc => "ioc",
        }
    }
}

impl OrderType {
    /// The broker's name for the order type.
    pub fn as_str(&self) -> (r: &'static str)
        ensures
            *self == OrderType::Market ==> r@ == "market"@,
            *self == OrderType::Limit ==> r@ == "limit"@,
    {
        match self {
            OrderType::Market => "market",
            OrderType::Limit => "limit",
        }
    }
}

impl PositionSide {
    /// The side's name as records show it.
    pub fn as_str(&self) -> (r: &'static str)
        ensures
            *self == PositionSide::Long ==> r@ == "Long"@,
            *self == PositionSide::Short ==> r@ == "Short"@,
    {
        match self {
            PositionSide::Long => "Long",
            PositionSide::Short => "Short",
        }
    }
}

impl ActivityType {
    /// The type's name as records show it.
    pub fn as_str(&self) -> (r: &'static str)
        ensures
            r@ == "Fill"@,
    {
        "Fill"
    }
}

impl ActivitySubtype {
    /// The subtype's name as records show it.
    pub fn as_str(&self) -> (r: &'static str)
        ensures
            *self == ActivitySubtype::Fill ==> r@ == "Fill"@,
            *self == ActivitySubtype::PartialFill ==> r@ == "PartialFill"@,
    {
        match self {
            ActivitySubtype::Fill => "Fill",
            ActivitySubtype::PartialFill => "PartialFill",
        }
    }
}

impl ConfigLocation {
    /// The location's name.
    pub fn as_str(&self) -> (r: &'static str)
        ensures
            *self == ConfigLocation::Docker ==> r@ == "docker"@,
            *self == ConfigLocation::NotDocker ==> r@ == "not_docker"@,
    {
        match self {
            ConfigLocation::Docker => "docker",
            ConfigLocation::NotDocker => "not_docker",
        }
    }
}

impl CrossStatus {
    /// The direction's name.
    pub fn as_str(&self) -> (r: &'static str)
        ensures
            *self == CrossStatus::Up ==> r@ == "Up"@,
            *self == CrossStatus::Down ==> r@ == "Down"@,
            *self == CrossStatus::NoCross ==> r@ == "None"@,
    {
        match self {
            CrossStatus::Up => "Up",
            CrossStatus::Down => "Down",
            CrossStatus::NoCross => "None",
        }
    }
}

impl TradeSettingsProfile {
    /// The profile's name, as the settings page's paths spell it.
    pub fn as_str(&self) -> (r: &'static str)
        ensures
            *self == TradeSettingsProfile::Buy ==> r@ == "buy"@,
            *self == TradeSettingsProfile::BuyTwo ==> r@ == "buy_two"@,
            *self == TradeSettingsProfile::Close ==> r@ == "close"@,
            *self == TradeSettingsProfile::CloseWithLoss ==> r@ == "close_with_loss"@,
    {
        match self {
            TradeSettingsProfile::Buy => "buy",
            TradeSettingsProfile::BuyTwo => "buy_two",
            TradeSettingsProfile::Close => "close",
            TradeSettingsProfile::CloseWithLoss => "close_with_loss",
        }
    }
}

/// A trade tick from a market-data feed.
#[derive(Debug, Clone, PartialEq, Eq)]
pub struct Trade {
    pub dtg: i64,
    pub symbol: String,
    pub price: i64,
    pub size: i64,
}

/// A broker position, as of the poll that reported it.
#[derive(Debug, Clone, PartialEq, Eq)]
pub struct Position {
    pub dtg: i64,
    pub symbol: String,
    pub side: PositionSide,
    pub avg_entry_price: i64,
    pub qty: i64,
    pub qty_available: i64,
    pub market_value: i64,
    pub unrealized_pl: i64,
}

/// A broker-reported fill.
#[derive(Debug, Clone, PartialEq, Eq)]
pub struct Activity {
    pub id: String,
    pub activity_type: ActivityType,
    pub activity_subtype: ActivitySubtype,
    pub dtg: i64,
    pub symbol: String,
    pub side: TradeSide,
    pub qty: i64,
    pub price: i64,
    pub cum_qty: i64,
    pub leaves_qty: i64,
    pub order_id: String,
}

/// A snapshot of the account's economics.
#[derive(Debug, Clone, PartialEq, Eq)]
pub struct Account {
    pub dtg: i64,
    pub cash: i64,
    pub buying_power: i64,
    pub equity: i64,
    pub daytrade_count: i64,
    pub position_market_value: i64,
}

/// A broker order.
#[derive(Debug, Clone, PartialEq, Eq)]
pub struct Order {
    pub id: String,
    pub client_order_id: String,
    pub symbol: String,
    pub side: TradeSide,
    pub order_type: OrderType,
    pub time_in_force: TimeInForce,
    pub qty: i64,
    pub filled_qty: Option<i64>,
    pub limit_price: Option<i64>,
    pub status: String,
    pub created_at: i64,
    pub filled_at: Option<i64>,
}

/// A tradable symbol and the number of shares a buy of it takes at most.
#[derive(Debug, Clone, PartialEq, Eq)]
pub struct Symbol {
    pub symbol: String,
    pub active: bool,
    pub trade_size: i64,
}

/// Operator-configured trading parameters.
#[derive(Debug, Clone, PartialEq, Eq)]
pub struct Settings {
    pub dtg: i64,
    pub alpaca_paper_id: String,
    pub alpaca_paper_secret: String,
    pub alpaca_live_id: String,
    pub alpaca_live_secret: String,
    pub trade_size: i64,
    pub trade_enable_buy: bool,
    pub finnhub_key: String,
    pub acct_min_cash_dollars: i64,
}

impl Trade {
    /// A field-for-field copy.
    pub fn copy(&self) -> (r: Trade)
        ensures
            r == *self,
    {
        Trade { dtg: self.dtg, symbol: self.symbol.clone(), price: self.price, size: self.size }
    }
}

impl Position {
    /// A field-for-field copy.
    pub fn copy(&self) -> (r: Position)
        ensures
            r == *self,
    {
        Position {
            dtg: self.dtg,
            symbol: self.symbol.clone(),
            side: self.side,
            avg_entry_price: self.avg_entry_price,
            qty: self.qty,
            qty_available: self.qty_available,
            market_value: self.market_value,
            unrealized_pl: self.unrealized_pl,
        }
    }
}

impl Activity {
    /// A field-for-field copy.
    pub fn copy(&self) -> (r: Activity)
        ensures
            r == *self,
    {
        Activity {
            id: self.id.clone(),
            activity_type: self.activity_type,
            activity_subtype: self.activity_subtype,
            dtg: self.dtg,
            symbol: self.symbol.clone(),
            side: self.side,
            qty: self.qty,
            price: self.price,
            cum_qty: self.cum_qty,
            leaves_qty: self.leaves_qty,
            order_id: self.order_id.clone(),
        }
    }
}

impl Account {
    /// An account snapshot with every amount zero, stamped `dtg`.
    pub fn blank(dtg: i64) -> (r: Account)
        ensures
            r == (Account {
                dtg,
                cash: 0,
                buying_power: 0,
                equity: 0,
                daytrade_count: 0,
                position_market_value: 0,
            }),
    {
        Account { dtg, cash: 0, buying_power: 0, equity: 0, daytrade_count: 0, position_market_value: 0 }
    }

    /// A field-for-field copy.
    pub fn copy(&self) -> (r: Account)
        ensures
            r == *self,
    {
        Account {
            dtg: self.dtg,
            cash: self.cash,
            buying_power: self.buying_power,
            equity: self.equity,
            daytrade_count: self.daytrade_count,
            position_market_value: self.position_market_value,
        }
    }
}

impl Order {
    /// A field-for-field copy.
    pub fn copy(&self) -> (r: Order)
        ensures
            r == *self,
    {
        Order {
            id: self.id.clone(),
            client_order_id: self.client_order_id.clone(),
            symbol: self.symbol.clone(),
            side: self.side,
            order_type: self.order_type,
            time_in_force: self.time_in_force,
            qty: self.qty,
            filled_qty: self.filled_qty,
            limit_price: self.limit_price,
            status: self.status.clone(),
            created_at: self.created_at,
            filled_at: self.filled_at,
        }
    }
}

impl Settings {
    /// A field-for-field copy.
    pub fn copy(&self) -> (r: Settings)
        ensures
            r == *self,
    {
        Settings {
            dtg: self.dtg,
            alpaca_paper_id: self.alpaca_paper_id.clone(),
            alpaca_paper_secret: self.alpaca_paper_secret.clone(),
            alpaca_live_id: self.alpaca_live_id.clone(),
            alpaca_live_secret: self.alpaca_live_secret.clone(),
            trade_size: self.trade_size,
            trade_enable_buy: self.trade_enable_buy,
            finnhub_key: self.finnhub_key.clone(),
            acct_min_cash_dollars: self.acct_min_cash_dollars,
        }
    }

    /// The same settings with every credential blanked, for display.
    pub fn without_secrets(&self) -> (r: Settings)
        ensures
            r.alpaca_paper_id@.len() == 0,
            r.alpaca_paper_secret@.len() == 0,
            r.alpaca_live_id@.len() == 0,
            r.alpaca_live_secret@.len() == 0,
            r.finnhub_key@.len() == 0,
            r.dtg == self.dtg,
            r.trade_size == self.trade_size,
            r.trade_enable_buy == self.trade_enable_buy,
            r.acct_min_cash_dollars == self.acct_min_cash_dollars,
    {
        Settings {
            dtg: self.dtg,
            alpaca_paper_id: String::new(),
            alpaca_paper_secret: String::new(),
            alpaca_live_id: String::new(),
            alpaca_live_secret: String::new(),
            trade_size: self.trade_size,
            trade_enable_buy: self.trade_enable_buy,
            finnhub_key: String::new(),
            acct_min_cash_dollars: self.acct_min_cash_dollars,
        }
    }
}

} // verus!
