use trade_core::coordinator::{AlpacaOrderLogEvent, DbMsg, OrderEvent};
use trade_core::error::TradeWebError;
use trade_core::model::{
    Account, Activity, ActivitySubtype, ActivityType, Order, OrderType, Position, PositionSide,
    Settings, Symbol, TimeInForce, Trade, TradeSide,
};
use trade_core::orders::{
    buy, fix_alpaca_price_rounding, next_step_after_post, rest_post_order, sell, BuyPlan,
    MaxBuyPossible, OrderLogEntry,
};
use trade_core::poller::AlpacaRest;
use trade_core::session::FrameKind;
use trade_core::stream::{
    AlpacaWebsocket, AuthAction, AuthStatus, DataMesgSuccess, DataMessage, FinnhubPacket,
    MesgAuthorization, RequestAction, WebsocketMessage, WsFinnhub,
};
use trade_core::text::stock_list_to_uppercase;
use trade_core::transaction::{BuyResult, TransactionNextStep};

fn order(symbol: &str) -> Order {
    Order {
        id: "o".to_string(),
        client_order_id: "c".to_string(),
        symbol: symbol.to_string(),
        side: TradeSide::Sell,
        order_type: OrderType::Market,
        time_in_force: TimeInForce::Day,
        qty: 1,
        filled_qty: Some(1),
        limit_price: None,
        status: "filled".to_string(),
        created_at: 1,
        filled_at: Some(2),
    }
}

fn position(symbol: &str, qty: i64) -> Position {
    Position {
        dtg: 7,
        symbol: symbol.to_string(),
        side: PositionSide::Long,
        avg_entry_price: 10,
        qty,
        qty_available: qty,
        market_value: 10 * qty,
        unrealized_pl: 0,
    }
}

fn account() -> Account {
    Account { dtg: 9, cash: 1, buying_power: 2, equity: 3, daytrade_count: 0, position_market_value: 4 }
}

fn activity(id: &str) -> Activity {
    Activity {
        id: id.to_string(),
        activity_type: ActivityType::Fill,
        activity_subtype: ActivitySubtype::PartialFill,
        dtg: 5,
        symbol: "aapl".to_string(),
        side: TradeSide::Buy,
        qty: 1,
        price: 10,
        cum_qty: 1,
        leaves_qty: 1,
        order_id: "o".to_string(),
    }
}

#[test]
fn price_rounding() {
    assert_eq!(fix_alpaca_price_rounding(12_345), 12_300);
    assert_eq!(fix_alpaca_price_rounding(12_355), 12_400);
    assert_eq!(fix_alpaca_price_rounding(12_350), 12_400);
    assert_eq!(fix_alpaca_price_rounding(12_349), 12_300);
    assert_eq!(fix_alpaca_price_rounding(9_999), 9_999);
    assert_eq!(fix_alpaca_price_rounding(10_000), 10_000);
}

#[test]
fn max_buy_from_quote() {
    let m = MaxBuyPossible::from_quote(250_000, 10, 1_000_000).unwrap();
    assert_eq!(m.qty_possible, 4);
    assert_eq!(MaxBuyPossible::from_quote(250_000, 10, -5).unwrap().qty_possible, 0);
    assert_eq!(MaxBuyPossible::from_quote(0, 10, 5), Err(TradeWebError::SqlxError));
}

#[test]
fn buy_plans() {
    let sym = Symbol { symbol: "aapl".to_string(), active: true, trade_size: 3 };
    let refused = BuyResult::NotAllowed { error: TradeWebError::PositionExists };
    assert_eq!(
        buy(&sym, refused, Ok(MaxBuyPossible::from_quote(1, 1, 100).unwrap()), "i".into(), "g".into(), 1),
        BuyPlan::NotAllowed(TradeWebError::PositionExists)
    );
    assert_eq!(
        buy(&sym, BuyResult::Allowed, Err(TradeWebError::SqlxError), "i".into(), "g".into(), 1),
        BuyPlan::NothingToBuy
    );
    let big = Symbol { symbol: "aapl".to_string(), active: true, trade_size: 5000 };
    assert_eq!(
        buy(&big, BuyResult::Allowed, MaxBuyPossible::from_quote(1, 1, 2000), "i".into(), "g".into(), 1),
        BuyPlan::OverSafetyLimit { qty: 2000 }
    );
    match buy(&sym, BuyResult::Allowed, MaxBuyPossible::from_quote(10, 1, 100), "i".into(), "g".into(), 8) {
        BuyPlan::Post { entry, trade } => {
            assert_eq!(entry.symbol, "aapl");
            assert_eq!(entry.qty, 3);
            assert_eq!(trade.symbol, "AAPL");
            assert_eq!(trade.qty, 3);
            assert_eq!(trade.order_type, OrderType::Market);
            assert_eq!(trade.extended_hours, Some(false));
            assert_eq!(trade.client_order_id, "g---i");
        }
        _ => panic!("expected a post"),
    }
    match buy(&sym, BuyResult::Allowed, MaxBuyPossible::from_quote(50, 1, 100), "i".into(), "g".into(), 8) {
        BuyPlan::Post { trade, .. } => assert_eq!(trade.qty, 2),
        _ => panic!("expected a post"),
    }
}

#[test]
fn sell_orders() {
    let (entry, trade, id) = sell("tsla", 4, Some(123_400), "i".into(), "g".into(), 3);
    assert_eq!(entry.symbol, "tsla");
    assert_eq!(trade.symbol, "TSLA");
    assert_eq!(trade.order_type, OrderType::Limit);
    assert_eq!(trade.limit_price, Some(123_400));
    assert_eq!(trade.extended_hours, Some(false));
    assert_eq!(id, Some("g---i".to_string()));
    let (_, trade, id) = sell("tsla", 4, None, "i".into(), "g".into(), 3);
    assert_eq!(trade.order_type, OrderType::Market);
    assert_eq!(trade.extended_hours, None);
    assert_eq!(id, None);
}

#[test]
fn order_log_entry_names() {
    let e = OrderLogEntry::new("NIO", TradeSide::Buy, 2, "id".into(), "grp".into(), 1);
    assert_eq!(e.symbol, "nio");
    assert_eq!(e.symbol(), "NIO");
    assert_eq!(e.id_client(), "grp---id");
}

#[test]
fn post_order_outcomes() {
    assert_eq!(rest_post_order(Some(200), Some(order("A"))), Ok(order("A")));
    assert_eq!(rest_post_order(Some(200), None), Err(TradeWebError::JsonError));
    assert_eq!(rest_post_order(Some(403), None), Err(TradeWebError::Alpaca403));
    assert_eq!(rest_post_order(Some(422), None), Err(TradeWebError::Alpaca422));
    assert_eq!(rest_post_order(Some(500), None), Err(TradeWebError::ReqwestError));
    assert_eq!(rest_post_order(None, None), Err(TradeWebError::ReqwestError));
    assert_eq!(next_step_after_post(&Ok(order("A"))), TransactionNextStep::Continue);
    assert_eq!(
        next_step_after_post(&Err(TradeWebError::Alpaca403)),
        TransactionNextStep::DeleteTransaction
    );
}

#[test]
fn poller_tick_survives_failed_activities() {
    let msgs = AlpacaRest::tick(
        Err(TradeWebError::ReqwestError),
        Ok(vec![position("AAPL", 3)]),
        Ok(account()),
    );
    assert_eq!(
        msgs,
        vec![
            DbMsg::PositionDeleteAll,
            DbMsg::PositionSaveToDb { position: position("AAPL", 3) },
            DbMsg::TransactionInsertPosition { position: position("AAPL", 3) },
            DbMsg::AccountSaveToDb { account: account() },
        ]
    );
}

#[test]
fn poller_tick_all_steps() {
    let msgs = AlpacaRest::tick(
        Ok(vec![activity("a"), activity("b")]),
        Err(TradeWebError::JsonError),
        Err(TradeWebError::ReqwestError),
    );
    assert_eq!(
        msgs,
        vec![
            DbMsg::ActivitySaveToDb { activity: activity("a") },
            DbMsg::ActivitySaveToDb { activity: activity("b") },
        ]
    );
    assert_eq!(AlpacaRest::startup(), DbMsg::TransactionDeleteAll);
}

#[test]
fn activities_url_filter() {
    assert_eq!(
        AlpacaRest::activities_url(None),
        "https://paper-api.alpaca.markets/v2/account/activities/FILL"
    );
    assert_eq!(
        AlpacaRest::activities_url(Some(1689606000000)),
        "https://paper-api.alpaca.markets/v2/account/activities/FILL?after=2023-07-17T15%3A00%3A00%2B00%3A00"
    );
}

#[test]
fn uppercase_symbol_list() {
    let v = vec!["aapl".to_string(), "Tsla".to_string()];
    assert_eq!(stock_list_to_uppercase(&v), vec!["AAPL".to_string(), "TSLA".to_string()]);
    assert_eq!(stock_list_to_uppercase(&vec![]), Vec::<String>::new());
}

#[test]
fn request_action_names() {
    assert_eq!(RequestAction::TradeUpdates.to_string(), "trade_updates");
    assert_eq!(RequestAction::AccountUpdates.to_string(), "account_updates");
    assert_eq!(RequestAction::Auth.to_string(), "auth");
    let l = AlpacaWebsocket::listen_request();
    assert_eq!(l.action, RequestAction::Listen);
    assert_eq!(l.data.streams, vec!["trade_updates".to_string(), "account_updates".to_string()]);
}

#[test]
fn authentication_message_uses_paper_keys() {
    let s = Settings {
        dtg: 1,
        alpaca_paper_id: "pid".to_string(),
        alpaca_paper_secret: "SECRET-REDACTED".to_string(),
        alpaca_live_id: "lid".to_string(),
        alpaca_live_secret: "ls".to_string(),
        trade_size: 1,
        trade_enable_buy: false,
        finnhub_key: "".to_string(),
        acct_min_cash_dollars: 0,
    };
    let a = AlpacaWebsocket::generate_ws_authentication_message(&s);
    assert_eq!(a.action, RequestAction::Auth);
    assert_eq!(a.key, "pid");
    assert_eq!(a.secret, "SECRET-REDACTED");
}

#[test]
fn text_frames() {
    let symbols = vec!["aapl".to_string()];
    let t = Trade { dtg: 1, symbol: "AAPL".to_string(), price: 5, size: 2 };
    let (msgs, req) = AlpacaWebsocket::on_text(
        vec![DataMessage::Success(DataMesgSuccess::Connected), DataMessage::Trade(t.clone()), DataMessage::Unhandled],
        &symbols,
    );
    assert_eq!(msgs, vec![DbMsg::TradeAlpaca(t)]);
    assert!(req.is_none());
    let (msgs, req) = AlpacaWebsocket::on_text(vec![DataMessage::Success(DataMesgSuccess::Authenticated)], &symbols);
    assert!(msgs.is_empty());
    let req = req.unwrap();
    assert_eq!(req.trades, vec!["AAPL".to_string()]);
    assert_eq!(req.bars, vec!["AAPL".to_string()]);
    assert_eq!(
        AlpacaWebsocket::text_frame_kind(&vec![DataMessage::Success(DataMesgSuccess::Authenticated)]),
        FrameKind::AuthAck
    );
    assert_eq!(AlpacaWebsocket::text_frame_kind(&vec![DataMessage::Bar]), FrameKind::Data);
}

#[test]
fn binary_frames() {
    let auth = MesgAuthorization { status: AuthStatus::Authorized, action: AuthAction::Authenticate };
    assert_eq!(
        AlpacaWebsocket::binary_frame_kind(&WebsocketMessage::Authorization(auth)),
        FrameKind::AuthAck
    );
    let (fwd, listen) = AlpacaWebsocket::on_binary(WebsocketMessage::Authorization(auth));
    assert!(fwd.is_none());
    assert!(listen.is_some());
    let refused = MesgAuthorization { status: AuthStatus::Unauthorized, action: AuthAction::Authenticate };
    assert_eq!(
        AlpacaWebsocket::binary_frame_kind(&WebsocketMessage::Authorization(refused)),
        FrameKind::AuthRejected
    );
    let (fwd, listen) = AlpacaWebsocket::on_binary(WebsocketMessage::Authorization(refused));
    assert!(fwd.is_none() && listen.is_none());
    let ev = AlpacaOrderLogEvent { dtg: 1, event: OrderEvent::New, fill_qty: None, order: order("A") };
    let (fwd, _) = AlpacaWebsocket::on_binary(WebsocketMessage::TradeUpdates(ev.clone()));
    assert_eq!(fwd, Some(DbMsg::OrderLogEvent(ev)));
    assert_eq!(AlpacaWebsocket::on_ping(4), DbMsg::PingAlpaca { dtg: 4 });
    assert_eq!(OrderEvent::PartialFill.as_str(), "partial_fill");
}

#[test]
fn finnhub_frames() {
    let subs = WsFinnhub::subscriptions(&vec!["tsla".to_string()]);
    assert_eq!(subs.len(), 1);
    assert_eq!(subs[0].symbol, "TSLA");
    assert_eq!(subs[0].websocket_message_type, "subscribe");
    let t = Trade { dtg: 1, symbol: "TSLA".to_string(), price: 5, size: 2 };
    assert_eq!(
        WsFinnhub::on_packet(FinnhubPacket::Trade(vec![t.clone()]), 3),
        vec![DbMsg::TradeFinnhub(t)]
    );
    assert_eq!(WsFinnhub::on_packet(FinnhubPacket::Ping, 3), vec![DbMsg::PingFinnhub { dtg: 3 }]);
    assert!(WsFinnhub::on_packet(FinnhubPacket::Unhandled, 3).is_empty());
}
