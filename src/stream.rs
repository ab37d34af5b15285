//! The streaming feeds: what each session sends, and what becomes of the
//! frames it receives.
//!
//! Frames are decoded at the boundary into the closed types below, unknown
//! kinds included (`Unhandled`), so that a new harmless frame kind never
//! tears a session down. The handlers decide what goes back to the server
//! and which messages go on to the coordinator.
use vstd::prelude::*;
use crate::coordinator::{AlpacaOrderLogEvent, DbMsg};
use crate::model::{Settings, Trade};
use crate::session::FrameKind;
use crate::text::{stock_list_to_uppercase, upper_of};

verus! {

/// What `snakecase::ascii::to_snakecase` returns for the given characters.
pub uninterp spec fn snake_of(s: Seq<char>) -> Seq<char>;

/// Relies on `snakecase::ascii::to_snakecase`: the result depends on the
/// characters alone.
#[verifier::external_body]
fn snake_case(s: &str) -> (r: String)
    ensures
        r@ == snake_of(s@),
{
    snakecase::ascii::to_snakecase(s).into_owned()
}

/// The actions and stream names of the broker's streaming requests.
#[derive(Debug, Clone, Copy, PartialEq, Eq, Structural)]
pub enum RequestAction {
    Auth,
    Listen,
    TradeUpdates,
    AccountUpdates,
    Subscribe,
    Ping,
}

/// The variant's own name.
pub open spec fn action_name(a: RequestAction) -> Seq<char> {
    match a {
        RequestAction::Auth => "Auth"@,
        RequestAction::Listen => "Listen"@,
        RequestAction::TradeUpdates => "TradeUpdates"@,
        RequestAction::AccountUpdates => "AccountUpdates"@,
        RequestAction::Subscribe => "Subscribe"@,
        RequestAction::Ping => "Ping"@,
    }
}

impl RequestAction {
    fn name(&self) -> (r: &'static str)
        ensures
            r@ == action_name(*self),
    {
        match self {
            RequestAction::Auth => "Auth",
            RequestAction::Listen => "Listen",
            RequestAction::TradeUpdates => "TradeUpdates",
            RequestAction::AccountUpdates => "AccountUpdates",
            RequestAction::Subscribe => "Subscribe",
            RequestAction::Ping => "Ping",
        }
    }

    /// The action as requests spell it: its name in snake case.
    pub fn to_string(&self) -> (r: String)
        ensures
            r@ == snake_of(action_name(*self)),
    {
        snake_case(self.name())
    }
}

/// Whether the broker accepted the credentials.
#[derive(Debug, Clone, Copy, PartialEq, Eq, Structural)]
pub enum AuthStatus {
    Authorized,
    Unauthorized,
}

/// The action an authorization frame answers.
#[derive(Debug, Clone, Copy, PartialEq, Eq, Structural)]
pub enum AuthAction {
    Authenticate,
}

/// The two success frames of the market-data stream.
#[derive(Debug, Clone, Copy, PartialEq, Eq, Structural)]
pub enum DataMesgSuccess {
    Connected,
    Authenticated,
}

/// Which of the broker's two streams a session reads.
#[derive(Debug, Clone, Copy, PartialEq, Eq, Structural)]
pub enum WebsocketMessageFormat {
    TextData,
    BinaryUpdates,
}

/// Which stream a vendor session reads.
#[derive(Debug, Clone, Copy, PartialEq, Eq, Structural)]
pub enum FinnhubStream {
    TextData,
    BinaryUpdates,
}

/// The authentication request of the market-data stream.
#[derive(Debug, Clone, PartialEq, Eq)]
pub struct RequestAuthenticate {
    pub action: RequestAction,
    pub key: String,
    pub secret: String,
}

/// The streams a listen request names.
#[derive(Debug, Clone, PartialEq, Eq)]
pub struct RequestListenData {
    pub streams: Vec<String>,
}

/// The listen request of the account stream.
#[derive(Debug, Clone, PartialEq, Eq)]
pub struct RequestListen {
    pub action: RequestAction,
    pub data: RequestListenData,
}

/// The subscribe request of the market-data stream.
#[derive(Debug, Clone, PartialEq, Eq)]
pub struct SubscribeRequest {
    pub action: RequestAction,
    pub trades: Vec<String>,
    pub bars: Vec<String>,
}

/// A vendor subscribe request for one symbol.
#[derive(Debug, Clone, PartialEq, Eq)]
pub struct FinnhubSubscribe {
    pub websocket_message_type: String,
    pub symbol: String,
}

/// The account stream's answer to authentication.
#[derive(Debug, Clone, Copy, PartialEq, Eq, Structural)]
pub struct MesgAuthorization {
    pub status: AuthStatus,
    pub action: AuthAction,
}

/// The streams the account stream confirms it sends.
#[derive(Debug, Clone, PartialEq, Eq)]
pub struct MesgListening {
    pub streams: Vec<String>,
}

/// The market-data stream's confirmation of a subscription.
#[derive(Debug, Clone, PartialEq, Eq)]
pub struct DataMesgSubscriptionList {
    pub trades: Vec<String>,
    pub quotes: Vec<String>,
    pub updated_bars: Vec<String>,
    pub cancel_errors: Vec<String>,
    pub corrections: Vec<String>,
    pub daily_bars: Vec<String>,
    pub statuses: Vec<String>,
    pub lulds: Vec<String>,
}

/// One message of a market-data frame.
#[derive(Debug, Clone, PartialEq, Eq)]
pub enum DataMessage {
    Success(DataMesgSuccess),
    Subscription(DataMesgSubscriptionList),
    Trade(Trade),
    Bar,
    Quote,
    DailyBar,
    Status,
    Error,
    Unhandled,
}

/// One frame of the account stream.
#[derive(Debug, Clone, PartialEq, Eq)]
pub enum WebsocketMessage {
    Authorization(MesgAuthorization),
    Listening(MesgListening),
    TradeUpdates(AlpacaOrderLogEvent),
    AccountUpdates,
    Unhandled,
}

/// One frame of the vendor stream.
#[derive(Debug, Clone, PartialEq, Eq)]
pub enum FinnhubPacket {
    Ping,
    Trade(Vec<Trade>),
    Unhandled,
}

/// A request to send back to the server.
#[derive(Debug, Clone, PartialEq, Eq)]
pub enum Outbound {
    Subscribe(SubscribeRequest),
    Listen(RequestListen),
}

/// The messages for the coordinator that the trades among `data` give, in order.
pub open spec fn data_forwards(data: Seq<DataMessage>) -> Seq<DbMsg>
    decreases data.len(),
{
    if data.len() == 0 {
        Seq::empty()
    } else {
        match data.last() {
            DataMessage::Trade(t) => data_forwards(data.drop_last()).push(DbMsg::TradeAlpaca(t)),
            _ => data_forwards(data.drop_last()),
        }
    }
}

/// Whether `data` holds the acknowledgement of authentication.
pub open spec fn has_auth_ack(data: Seq<DataMessage>) -> bool {
    exists|i: int| 0 <= i < data.len() && data[i] == DataMessage::Success(DataMesgSuccess::Authenticated)
}

/// The messages for the coordinator that the trades among `trades` give.
pub open spec fn finnhub_forwards(trades: Seq<Trade>) -> Seq<DbMsg>
    decreases trades.len(),
{
    if trades.len() == 0 {
        Seq::empty()
    } else {
        finnhub_forwards(trades.drop_last()).push(DbMsg::TradeFinnhub(trades.last()))
    }
}

/// A broker streaming session.
pub struct AlpacaWebsocket {}

/// A vendor streaming session.
pub struct WsFinnhub {}

/// The vendor streaming session that subscribes per symbol; it sends the
/// same requests as `WsFinnhub`.
pub struct FinnhubWebsocket {}

impl AlpacaWebsocket {
    /// The authentication request, with the paper-trading credentials.
    pub fn generate_ws_authentication_message(settings: &Settings) -> (r: RequestAuthenticate)
        ensures
            r.action == RequestAction::Auth,
            r.key == settings.alpaca_paper_id,
            r.secret == settings.alpaca_paper_secret,
    {
        RequestAuthenticate {
            action: RequestAction::Auth,
            key: settings.alpaca_paper_id.clone(),
            secret: settings.alpaca_paper_secret.clone(),
        }
    }

    /// The listen request for the given streams, each spelled as requests
    /// spell it.
    pub fn generate_ws_listen_message(streams: &Vec<RequestAction>) -> (r: RequestListen)
        ensures
            r.action == RequestAction::Listen,
            r.data.streams@.len() == streams@.len(),
            forall|i: int|
                0 <= i < streams@.len() ==> #[trigger] r.data.streams@[i]@ == snake_of(
                    action_name(streams@[i]),
                ),
    {
        let mut names: Vec<String> = Vec::new();
        let mut i: usize = 0;
        while i < streams.len()
            invariant
                i <= streams@.len(),
                names@.len() == i,
                forall|j: int| 0 <= j < i ==> #[trigger] names@[j]@ == snake_of(action_name(streams@[j])),
            decreases streams@.len() - i,
        {
            names.push(streams[i].to_string());
            i = i + 1;
        }
        RequestListen { action: RequestAction::Listen, data: RequestListenData { streams: names } }
    }

    /// The listen request that follows authorization on the account stream:
    /// trade updates and account updates.
    pub fn listen_request() -> (r: RequestListen)
        ensures
            r.action == RequestAction::Listen,
            r.data.streams@.len() == 2,
            r.data.streams@[0]@ == snake_of(action_name(RequestAction::TradeUpdates)),
            r.data.streams@[1]@ == snake_of(action_name(RequestAction::AccountUpdates)),
    {
        let mut v: Vec<RequestAction> = Vec::new();
        v.push(RequestAction::TradeUpdates);
        v.push(RequestAction::AccountUpdates);
        AlpacaWebsocket::generate_ws_listen_message(&v)
    }

    /// The subscribe request for trades and minute bars of every symbol,
    /// upper-cased.
    pub fn subscribe_request(symbols: &Vec<String>) -> (r: SubscribeRequest)
        ensures
            r.action == RequestAction::Subscribe,
            r.trades@.len() == symbols@.len(),
            r.bars@.len() == symbols@.len(),
            forall|i: int|
                0 <= i < symbols@.len() ==> #[trigger] r.trades@[i]@ == upper_of(symbols@[i]@)
                    && r.bars@[i]@ == upper_of(symbols@[i]@),
    {
        SubscribeRequest {
            action: RequestAction::Subscribe,
            trades: stock_list_to_uppercase(symbols),
            bars: stock_list_to_uppercase(symbols),
        }
    }

    /// What a market-data frame means to the session.
    pub fn text_frame_kind(data: &Vec<DataMessage>) -> (r: FrameKind)
        ensures
            has_auth_ack(data@) ==> r == FrameKind::AuthAck,
            !has_auth_ack(data@) ==> r == FrameKind::Data,
    {
        let mut i: usize = 0;
        while i < data.len()
            invariant
                i <= data@.len(),
                forall|j: int| 0 <= j < i ==> data@[j] != DataMessage::Success(DataMesgSuccess::Authenticated),
            decreases data@.len() - i,
        {
            if let DataMessage::Success(DataMesgSuccess::Authenticated) = data[i] {
                return FrameKind::AuthAck;
            }
            i = i + 1;
        }
        FrameKind::Data
    }

    /// A market-data frame: the trades go on to the coordinator, in order,
    /// and the acknowledgement of authentication is answered with the
    /// subscribe request for `symbols`.
    pub fn on_text(data: Vec<DataMessage>, symbols: &Vec<String>) -> (r: (Vec<DbMsg>, Option<SubscribeRequest>))
        ensures
            r.0@ == data_forwards(data@),
            has_auth_ack(data@) ==> r.1 is Some,
            !has_auth_ack(data@) ==> r.1 is None,
            r.1 matches Some(req) ==> req.action == RequestAction::Subscribe && req.trades@.len()
                == symbols@.len(),
    {
        let kind = AlpacaWebsocket::text_frame_kind(&data);
        let ghost all = data@;
        let mut rest = data;
        let mut out: Vec<DbMsg> = Vec::new();
        let mut i: usize = 0;
        let n = rest.len();
        while i < n
            invariant
                n == all.len(),
                i <= n,
                rest@ == all.skip(i as int),
                out@ == data_forwards(all.take(i as int)),
            decreases n - i,
        {
            proof {
                assert(all.take(i as int + 1).drop_last() =~= all.take(i as int));
                assert(all.take(i as int + 1).last() == all[i as int]);
            }
            let m = rest.remove(0);
            match m {
                DataMessage::Trade(t) => out.push(DbMsg::TradeAlpaca(t)),
                _ => {},
            }
            i = i + 1;
            proof {
                assert(rest@ =~= all.skip(i as int));
            }
        }
        proof {
            assert(all.take(n as int) =~= all);
        }
        let req = match kind {
            FrameKind::AuthAck => Some(AlpacaWebsocket::subscribe_request(symbols)),
            _ => None,
        };
        (out, req)
    }

    /// What an account-stream frame means to the session.
    pub fn binary_frame_kind(msg: &WebsocketMessage) -> (r: FrameKind)
        ensures
            *msg matches WebsocketMessage::Authorization(a) ==> r == (if a.status == AuthStatus::Authorized {
                FrameKind::AuthAck
            } else {
                FrameKind::AuthRejected
            }),
            !(*msg is Authorization) ==> r == FrameKind::Data,
    {
        match msg {
            WebsocketMessage::Authorization(a) => match a.status {
                AuthStatus::Authorized => FrameKind::AuthAck,
                AuthStatus::Unauthorized => FrameKind::AuthRejected,
            },
            _ => FrameKind::Data,
        }
    }

    /// An account-stream frame: authorization is answered with the listen
    /// request, and every trade update goes on to the coordinator for the
    /// order log (where a sell fill also decrements the ledger).
    pub fn on_binary(msg: WebsocketMessage) -> (r: (Option<DbMsg>, Option<RequestListen>))
        ensures
            msg matches WebsocketMessage::TradeUpdates(e) ==> r.0 == Some(DbMsg::OrderLogEvent(e)),
            !(msg is TradeUpdates) ==> r.0 is None,
            msg matches WebsocketMessage::Authorization(a) && a.status == AuthStatus::Authorized ==> r.1 is Some,
            !(msg matches WebsocketMessage::Authorization(a) && a.status == AuthStatus::Authorized) ==> r.1 is None,
    {
        match msg {
            WebsocketMessage::Authorization(a) => match a.status {
                AuthStatus::Authorized => (None, Some(AlpacaWebsocket::listen_request())),
                AuthStatus::Unauthorized => (None, None),
            },
            WebsocketMessage::TradeUpdates(e) => (Some(DbMsg::OrderLogEvent(e)), None),
            _ => (None, None),
        }
    }

    /// A ping or pong control frame at `now`: a liveness ping for the coordinator.
    pub fn on_ping(now: i64) -> (r: DbMsg)
        ensures
            r == (DbMsg::PingAlpaca { dtg: now }),
    {
        DbMsg::PingAlpaca { dtg: now }
    }
}

impl WsFinnhub {
    /// One subscribe request per symbol, upper-cased, in order.
    pub fn subscriptions(symbols: &Vec<String>) -> (r: Vec<FinnhubSubscribe>)
        ensures
            r@.len() == symbols@.len(),
            forall|i: int|
                0 <= i < symbols@.len() ==> #[trigger] r@[i].symbol@ == upper_of(symbols@[i]@)
                    && r@[i].websocket_message_type@ == "subscribe"@,
    {
        let upper = stock_list_to_uppercase(symbols);
        let mut out: Vec<FinnhubSubscribe> = Vec::new();
        let mut i: usize = 0;
        while i < upper.len()
            invariant
                i <= upper@.len(),
                upper@.len() == symbols@.len(),
                out@.len() == i,
                forall|j: int| 0 <= j < upper@.len() ==> #[trigger] upper@[j]@ == upper_of(symbols@[j]@),
                forall|j: int|
                    0 <= j < i ==> #[trigger] out@[j].symbol@ == upper_of(symbols@[j]@)
                        && out@[j].websocket_message_type@ == "subscribe"@,
            decreases upper@.len() - i,
        {
            let kind = String::from_str("subscribe");
            assert(kind@ == "subscribe"@);
            let sym = upper[i].clone();
            assert(sym@ == upper_of(symbols@[i as int]@));
            out.push(FinnhubSubscribe { websocket_message_type: kind, symbol: sym });
            i = i + 1;
        }
        out
    }

    /// A vendor frame at `now`: each trade goes on to the coordinator, in
    /// order; a ping becomes a liveness ping.
    pub fn on_packet(packet: FinnhubPacket, now: i64) -> (r: Vec<DbMsg>)
        ensures
            packet matches FinnhubPacket::Trade(ts) ==> r@ == finnhub_forwards(ts@),
            packet is Ping ==> r@ == seq![DbMsg::PingFinnhub { dtg: now }],
            packet is Unhandled ==> r@.len() == 0,
    {
        match packet {
            FinnhubPacket::Ping => {
                let mut v: Vec<DbMsg> = Vec::new();
                v.push(DbMsg::PingFinnhub { dtg: now });
                proof {
                    assert(v@ =~= seq![DbMsg::PingFinnhub { dtg: now }]);
                }
                v
            },
            FinnhubPacket::Trade(trades) => {
                let ghost all = trades@;
                let mut rest = trades;
                let mut out: Vec<DbMsg> = Vec::new();
                let n = rest.len();
                let mut i: usize = 0;
                while i < n
                    invariant
                        n == all.len(),
                        i <= n,
                        rest@ == all.skip(i as int),
                        out@ == finnhub_forwards(all.take(i as int)),
                    decreases n - i,
                {
                    proof {
                        assert(all.take(i as int + 1).drop_last() =~= all.take(i as int));
                    }
                    let t = rest.remove(0);
                    out.push(DbMsg::TradeFinnhub(t));
                    i = i + 1;
                    proof {
                        assert(rest@ =~= all.skip(i as int));
                    }
                }
                proof {
                    assert(all.take(n as int) =~= all);
                }
                out
            },
            FinnhubPacket::Unhandled => Vec::new(),
        }
    }
}

impl FinnhubWebsocket {
    /// One subscribe request per symbol, upper-cased, in order.
    pub fn subscriptions(symbols: &Vec<String>) -> (r: Vec<FinnhubSubscribe>)
        ensures
            r@.len() == symbols@.len(),
            forall|i: int|
                0 <= i < symbols@.len() ==> #[trigger] r@[i].symbol@ == upper_of(symbols@[i]@)
                    && r@[i].websocket_message_type@ == "subscribe"@,
    {
        WsFinnhub::subscriptions(symbols)
    }
}

} // verus!
