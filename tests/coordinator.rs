use trade_core::coordinator::{AlpacaOrderLogEvent, Coordinator, DbMsg, DbReply, OrderEvent};
use trade_core::error::TradeWebError;
use trade_core::model::{
    Account, Activity, ActivitySubtype, ActivityType, Order, OrderType, Position, PositionSide,
    Settings, TimeInForce, Trade, TradeSide,
};
use trade_core::transaction::BuyResult;

fn order(symbol: &str, side: TradeSide, qty: i64, filled: Option<i64>, filled_at: Option<i64>) -> Order {
    Order {
        id: "o-1".to_string(),
        client_order_id: "g---i".to_string(),
        symbol: symbol.to_string(),
        side,
        order_type: OrderType::Market,
        time_in_force: TimeInForce::Day,
        qty,
        filled_qty: filled,
        limit_price: None,
        status: "filled".to_string(),
        created_at: 1,
        filled_at,
    }
}

fn position(symbol: &str, qty: i64, dtg: i64) -> Position {
    Position {
        dtg,
        symbol: symbol.to_string(),
        side: PositionSide::Long,
        avg_entry_price: 100_000,
        qty,
        qty_available: qty,
        market_value: qty * 100_000,
        unrealized_pl: 0,
    }
}

fn buy(c: &mut Coordinator, symbol: &str, now: i64) -> DbReply {
    c.process(DbMsg::TransactionStartBuy { symbol: symbol.to_string(), now })
}

#[test]
fn trade_round_trip() {
    let mut c = Coordinator::new();
    let t = Trade { dtg: 1689606000000, symbol: "AAPL".to_string(), price: 1_923_400, size: 41 };
    assert_eq!(c.process(DbMsg::TradeAlpaca(t)), DbReply::Done);
    match c.process(DbMsg::TradeLatest { symbol: "AAPL".to_string() }) {
        DbReply::Trade(back) => {
            assert_eq!(back.symbol, "AAPL");
            assert_eq!(back.price, 1_923_400);
            assert_eq!(back.size, 41);
            assert_eq!(back.dtg, 1689606000000);
        }
        _ => panic!("trade not read back"),
    }
}

#[test]
fn latest_trade_is_the_last_stored() {
    let mut c = Coordinator::new();
    c.process(DbMsg::TradeAlpaca(Trade { dtg: 1, symbol: "T".to_string(), price: 10, size: 1 }));
    c.process(DbMsg::TradeAlpaca(Trade { dtg: 2, symbol: "T".to_string(), price: 20, size: 2 }));
    c.process(DbMsg::TradeAlpaca(Trade { dtg: 3, symbol: "U".to_string(), price: 30, size: 3 }));
    match c.process(DbMsg::TradeLatest { symbol: "T".to_string() }) {
        DbReply::Trade(back) => assert_eq!(back.price, 20),
        _ => panic!("trade not read back"),
    }
    assert_eq!(
        c.process(DbMsg::TradeLatest { symbol: "V".to_string() }),
        DbReply::Failed(TradeWebError::SqlxError)
    );
}

#[test]
fn coordinator_buy_scenario() {
    let mut c = Coordinator::new();
    assert_eq!(buy(&mut c, "AAPL", 1), DbReply::Buy(BuyResult::Allowed));
    assert_eq!(
        buy(&mut c, "AAPL", 2),
        DbReply::Buy(BuyResult::NotAllowed { error: TradeWebError::PositionExists })
    );
    c.process(DbMsg::TransactionInsertPosition { position: position("AAPL", 5, 3) });
    c.process(DbMsg::TransactionDecrement { symbol: "AAPL".to_string(), qty: 5 });
    c.process(DbMsg::TransactionClean);
    assert_eq!(buy(&mut c, "AAPL", 4), DbReply::Buy(BuyResult::Allowed));
}

#[test]
fn sell_fill_decrements_and_cleans() {
    let mut c = Coordinator::new();
    c.process(DbMsg::TransactionInsertPosition { position: position("TSLA", 4, 1) });
    let partial = AlpacaOrderLogEvent {
        dtg: 2,
        event: OrderEvent::PartialFill,
        fill_qty: Some(1),
        order: order("TSLA", TradeSide::Sell, 4, Some(1), None),
    };
    c.process(DbMsg::OrderLogEvent(partial));
    assert_eq!(
        buy(&mut c, "TSLA", 3),
        DbReply::Buy(BuyResult::NotAllowed { error: TradeWebError::PositionExists })
    );
    let fill = AlpacaOrderLogEvent {
        dtg: 4,
        event: OrderEvent::Fill,
        fill_qty: Some(3),
        order: order("TSLA", TradeSide::Sell, 4, Some(4), Some(4)),
    };
    c.process(DbMsg::OrderLogEvent(fill));
    assert_eq!(buy(&mut c, "TSLA", 5), DbReply::Buy(BuyResult::Allowed));
}

#[test]
fn buy_fill_leaves_the_ledger() {
    let mut c = Coordinator::new();
    assert_eq!(buy(&mut c, "NIO", 1), DbReply::Buy(BuyResult::Allowed));
    let fill = AlpacaOrderLogEvent {
        dtg: 2,
        event: OrderEvent::Fill,
        fill_qty: Some(3),
        order: order("NIO", TradeSide::Buy, 3, Some(3), Some(2)),
    };
    c.process(DbMsg::OrderLogEvent(fill));
    assert_eq!(
        buy(&mut c, "NIO", 3),
        DbReply::Buy(BuyResult::NotAllowed { error: TradeWebError::PositionExists })
    );
}

#[test]
fn sell_fill_without_fill_qty_uses_filled_qty() {
    let mut c = Coordinator::new();
    c.process(DbMsg::TransactionInsertPosition { position: position("BAC", 2, 1) });
    let fill = AlpacaOrderLogEvent {
        dtg: 2,
        event: OrderEvent::Fill,
        fill_qty: None,
        order: order("BAC", TradeSide::Sell, 2, Some(2), Some(2)),
    };
    c.process(DbMsg::OrderLogEvent(fill));
    assert_eq!(buy(&mut c, "bac", 3), DbReply::Buy(BuyResult::Allowed));
}

#[test]
fn websocket_alive_by_ping_age() {
    let mut c = Coordinator::new();
    assert_eq!(
        c.process(DbMsg::WebsocketAlpacaAlive { now: 100 }),
        DbReply::Failed(TradeWebError::SqlxError)
    );
    c.process(DbMsg::PingAlpaca { dtg: 1_000 });
    c.process(DbMsg::PingAlpaca { dtg: 500 });
    assert_eq!(c.process(DbMsg::WebsocketAlpacaAlive { now: 61_000 }), DbReply::Alive(true));
    assert_eq!(c.process(DbMsg::WebsocketAlpacaAlive { now: 61_001 }), DbReply::Alive(false));
}

#[test]
fn account_and_activity_history() {
    let mut c = Coordinator::new();
    assert_eq!(c.process(DbMsg::AccountGet), DbReply::Failed(TradeWebError::SqlxError));
    assert_eq!(c.process(DbMsg::ActivityLatestDtg), DbReply::Failed(TradeWebError::ReqwestError));
    let acct = |dtg: i64, cash: i64| Account {
        dtg,
        cash,
        buying_power: cash,
        equity: cash,
        daytrade_count: 0,
        position_market_value: 0,
    };
    c.process(DbMsg::AccountSaveToDb { account: acct(1, 100) });
    c.process(DbMsg::AccountSaveToDb { account: acct(2, 200) });
    match c.process(DbMsg::AccountGet) {
        DbReply::Account(a) => assert_eq!(a.cash, 200),
        _ => panic!("no account"),
    }
    let act = |dtg: i64| Activity {
        id: format!("a{}", dtg),
        activity_type: ActivityType::Fill,
        activity_subtype: ActivitySubtype::Fill,
        dtg,
        symbol: "aapl".to_string(),
        side: TradeSide::Buy,
        qty: 1,
        price: 10,
        cum_qty: 1,
        leaves_qty: 0,
        order_id: "o".to_string(),
    };
    c.process(DbMsg::ActivitySaveToDb { activity: act(30) });
    c.process(DbMsg::ActivitySaveToDb { activity: act(50) });
    c.process(DbMsg::ActivitySaveToDb { activity: act(40) });
    assert_eq!(c.process(DbMsg::ActivityLatestDtg), DbReply::LatestDtg(50));
}

#[test]
fn orders_and_positions() {
    let mut c = Coordinator::new();
    c.process(DbMsg::OrderSave { order: order("A", TradeSide::Buy, 1, None, None) });
    c.process(DbMsg::OrderSave { order: order("B", TradeSide::Buy, 1, Some(1), Some(9)) });
    c.process(DbMsg::OrderSave { order: order("C", TradeSide::Sell, 1, None, None) });
    match c.process(DbMsg::OrderLocal) {
        DbReply::Orders(os) => {
            assert_eq!(os.len(), 2);
            assert_eq!(os[0].symbol, "A");
            assert_eq!(os[1].symbol, "C");
        }
        _ => panic!("no orders"),
    }
    c.process(DbMsg::PositionSaveToDb { position: position("A", 1, 1) });
    c.process(DbMsg::PositionDeleteAll);
    c.process(DbMsg::PositionSaveToDb { position: position("B", 2, 2) });
    match c.process(DbMsg::PositionLocalGet) {
        DbReply::Positions(ps) => {
            assert_eq!(ps.len(), 1);
            assert_eq!(ps[0].symbol, "B");
        }
        _ => panic!("no positions"),
    }
}

#[test]
fn settings_with_and_without_secret() {
    let mut c = Coordinator::new();
    assert_eq!(c.process(DbMsg::SettingsWithSecret), DbReply::Failed(TradeWebError::SqlxError));
    let s = Settings {
        dtg: 1,
        alpaca_paper_id: "id".to_string(),
        alpaca_paper_secret: "SECRET-REDACTED".to_string(),
        alpaca_live_id: "lid".to_string(),
        alpaca_live_secret: "ls".to_string(),
        trade_size: 5,
        trade_enable_buy: true,
        finnhub_key: "fk".to_string(),
        acct_min_cash_dollars: 100,
    };
    c.process(DbMsg::SettingsSave { settings: s });
    match c.process(DbMsg::SettingsWithSecret) {
        DbReply::Settings(x) => assert_eq!(x.alpaca_paper_id, "id"),
        _ => panic!("no settings"),
    }
    match c.process(DbMsg::SettingsNoSecret) {
        DbReply::Settings(x) => {
            assert_eq!(x.alpaca_paper_id, "");
            assert_eq!(x.finnhub_key, "");
            assert_eq!(x.trade_size, 5);
        }
        _ => panic!("no settings"),
    }
}

#[test]
fn blank_account_is_all_zero() {
    let a = Account::blank(12);
    assert_eq!(a.dtg, 12);
    assert_eq!(a.cash, 0);
    assert_eq!(a.equity, 0);
    assert_eq!(a.buying_power, 0);
}
