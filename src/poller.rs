//! The REST poller: what one tick hands the coordinator.
//!
//! Each tick pulls fills since the latest stored one, the open positions
//! and the account, one after another. A sub-step that failed contributes
//! nothing and stops none of the others.
use vstd::prelude::*;
use crate::coordinator::{after_all, next_view, CoordinatorView, DbMsg};
use crate::error::TradeWebError;
use crate::market_hours::MAX_ABS_MILLIS;
use crate::model::{Account, Activity, Position};
use crate::text::lower_of;

verus! {

/// What `DateTime::<Utc>::to_rfc3339` writes for the instant `utc_millis`
/// milliseconds after the Unix epoch.
pub uninterp spec fn rfc3339_of(utc_millis: i64) -> Seq<char>;

/// What `urlencoding::encode` writes for the given characters.
pub uninterp spec fn url_encoded(s: Seq<char>) -> Seq<char>;

/// Relies on `DateTime::<Utc>::from_timestamp_millis` and
/// `DateTime::to_rfc3339`: the text depends on the instant alone. chrono
/// accepts every instant within the bound.
#[verifier::external_body]
fn rfc3339(utc_millis: i64) -> (r: String)
    requires
        -MAX_ABS_MILLIS <= utc_millis <= MAX_ABS_MILLIS,
    ensures
        r@ == rfc3339_of(utc_millis),
{
    chrono::DateTime::<chrono::Utc>::from_timestamp_millis(utc_millis)
        .expect("instant within chrono's range")
        .to_rfc3339()
}

/// Relies on `urlencoding::encode`: the encoding depends on the characters
/// alone.
#[verifier::external_body]
fn url_encode(s: &str) -> (r: String)
    ensures
        r@ == url_encoded(s@),
{
    urlencoding::encode(s).into_owned()
}

/// The broker's endpoint for fill activities.
pub open spec fn activities_base() -> Seq<char> {
    "https://paper-api.alpaca.markets/v2/account/activities/FILL"@
}

/// The messages that a pull of fills gives: one save per fill, in order.
pub open spec fn activity_saves(s: Seq<Activity>) -> Seq<DbMsg>
    decreases s.len(),
{
    if s.len() == 0 {
        Seq::empty()
    } else {
        activity_saves(s.drop_last()).push(DbMsg::ActivitySaveToDb { activity: s.last() })
    }
}

/// For each position in order, its save and the reconcile of its ledger row.
pub open spec fn position_saves(s: Seq<Position>) -> Seq<DbMsg>
    decreases s.len(),
{
    if s.len() == 0 {
        Seq::empty()
    } else {
        position_saves(s.drop_last()).push(DbMsg::PositionSaveToDb { position: s.last() }).push(
            DbMsg::TransactionInsertPosition { position: s.last() },
        )
    }
}

/// What the fills step hands on: nothing when the pull failed.
pub open spec fn activity_step(r: Result<Vec<Activity>, TradeWebError>) -> Seq<DbMsg> {
    match r {
        Ok(v) => activity_saves(v@),
        Err(_) => Seq::empty(),
    }
}

/// What the positions step hands on: the stored snapshot is replaced and
/// every ledger row reconciled; nothing when the pull failed.
pub open spec fn position_step(r: Result<Vec<Position>, TradeWebError>) -> Seq<DbMsg> {
    match r {
        Ok(v) => seq![DbMsg::PositionDeleteAll] + position_saves(v@),
        Err(_) => Seq::empty(),
    }
}

/// What the account step hands on: nothing when the pull failed.
pub open spec fn account_step(r: Result<Account, TradeWebError>) -> Seq<DbMsg> {
    match r {
        Ok(a) => seq![DbMsg::AccountSaveToDb { account: a }],
        Err(_) => Seq::empty(),
    }
}

/// The REST poller.
pub struct AlpacaRest {}

impl AlpacaRest {
    /// The URL of the fills pull: filtered to those after `since` when a
    /// latest stored fill is known (and its instant is one the clock
    /// conversion accepts), else unfiltered.
    pub fn activities_url(since: Option<i64>) -> (r: String)
        ensures
            since is Some && -MAX_ABS_MILLIS <= since.unwrap() <= MAX_ABS_MILLIS ==> r@
                == activities_base() + "?after="@ + url_encoded(rfc3339_of(since.unwrap())),
            !(since is Some && -MAX_ABS_MILLIS <= since.unwrap() <= MAX_ABS_MILLIS) ==> r@
                == activities_base(),
    {
        let mut url = String::from_str("https://paper-api.alpaca.markets/v2/account/activities/FILL");
        match since {
            Some(t) => {
                if -MAX_ABS_MILLIS <= t && t <= MAX_ABS_MILLIS {
                    let stamp = rfc3339(t);
                    let encoded = url_encode(stamp.as_str());
                    url.append("?after=");
                    url.append(encoded.as_str());
                }
            },
            None => {},
        }
        url
    }

    /// The message that starts the poller: the ledger's slate is blanked,
    /// to refill from positions and new buys.
    pub fn startup() -> (r: DbMsg)
        ensures
            r == DbMsg::TransactionDeleteAll,
    {
        DbMsg::TransactionDeleteAll
    }

    /// The fills step of a tick.
    pub fn load_activities(activities: Result<Vec<Activity>, TradeWebError>) -> (r: Vec<DbMsg>)
        ensures
            r@ == activity_step(activities),
    {
        match activities {
            Ok(v) => {
                let ghost all = v@;
                let mut rest = v;
                let mut out: Vec<DbMsg> = Vec::new();
                let n = rest.len();
                let mut i: usize = 0;
                while i < n
                    invariant
                        n == all.len(),
                        i <= n,
                        rest@ == all.skip(i as int),
                        out@ == activity_saves(all.take(i as int)),
                    decreases n - i,
                {
                    proof {
                        assert(all.take(i as int + 1).drop_last() =~= all.take(i as int));
                    }
                    let a = rest.remove(0);
                    out.push(DbMsg::ActivitySaveToDb { activity: a });
                    i = i + 1;
                    proof {
                        assert(rest@ =~= all.skip(i as int));
                    }
                }
                proof {
                    assert(all.take(n as int) =~= all);
                }
                out
            },
            Err(_) => Vec::new(),
        }
    }

    /// The positions step of a tick.
    pub fn load_positions(positions: Result<Vec<Position>, TradeWebError>) -> (r: Vec<DbMsg>)
        ensures
            r@ == position_step(positions),
    {
        match positions {
            Ok(v) => {
                let ghost all = v@;
                let mut rest = v;
                let mut out: Vec<DbMsg> = Vec::new();
                out.push(DbMsg::PositionDeleteAll);
                let n = rest.len();
                let mut i: usize = 0;
                while i < n
                    invariant
                        n == all.len(),
                        i <= n,
                        rest@ == all.skip(i as int),
                        out@ == seq![DbMsg::PositionDeleteAll] + position_saves(all.take(i as int)),
                    decreases n - i,
                {
                    proof {
                        assert(all.take(i as int + 1).drop_last() =~= all.take(i as int));
                    }
                    let p = rest.remove(0);
                    let q = p.copy();
                    out.push(DbMsg::PositionSaveToDb { position: p });
                    out.push(DbMsg::TransactionInsertPosition { position: q });
                    i = i + 1;
                    proof {
                        assert(rest@ =~= all.skip(i as int));
                        assert(out@ =~= seq![DbMsg::PositionDeleteAll] + position_saves(all.take(i as int)));
                    }
                }
                proof {
                    assert(all.take(n as int) =~= all);
                }
                out
            },
            Err(_) => Vec::new(),
        }
    }

    /// The account step of a tick.
    pub fn load_account(account: Result<Account, TradeWebError>) -> (r: Vec<DbMsg>)
        ensures
            r@ == account_step(account),
    {
        let mut out: Vec<DbMsg> = Vec::new();
        match account {
            Ok(a) => {
                out.push(DbMsg::AccountSaveToDb { account: a });
                proof {
                    assert(out@ =~= account_step(account));
                }
            },
            Err(_) => {},
        }
        out
    }

    /// One tick: the fills step, then the positions step, then the account
    /// step, each contributing what its own pull allows.
    pub fn tick(
        activities: Result<Vec<Activity>, TradeWebError>,
        positions: Result<Vec<Position>, TradeWebError>,
        account: Result<Account, TradeWebError>,
    ) -> (r: Vec<DbMsg>)
        ensures
            r@ == activity_step(activities) + position_step(positions) + account_step(account),
    {
        let mut out = AlpacaRest::load_activities(activities);
        let mut p = AlpacaRest::load_positions(positions);
        let mut a = AlpacaRest::load_account(account);
        out.append(&mut p);
        out.append(&mut a);
        out
    }
}


proof fn lemma_after_all_append(v: CoordinatorView, a: Seq<DbMsg>, b: Seq<DbMsg>)
    ensures
        after_all(v, a + b) == after_all(after_all(v, a), b),
    decreases b.len(),
{
    if b.len() == 0 {
        assert(a + b =~= a);
    } else {
        lemma_after_all_append(v, a, b.drop_last());
        assert((a + b).drop_last() =~= a + b.drop_last());
        assert((a + b).last() == b.last());
    }
}

proof fn lemma_activity_saves_keep(v: CoordinatorView, s: Seq<Activity>)
    ensures
        after_all(v, activity_saves(s)).positions == v.positions,
        after_all(v, activity_saves(s)).accounts == v.accounts,
        after_all(v, activity_saves(s)).ledger == v.ledger,
    decreases s.len(),
{
    if s.len() > 0 {
        lemma_activity_saves_keep(v, s.drop_last());
        let m = DbMsg::ActivitySaveToDb { activity: s.last() };
        assert(activity_saves(s).drop_last() =~= activity_saves(s.drop_last()));
        assert(activity_saves(s).last() == m);
    }
}

proof fn lemma_position_saves(v: CoordinatorView, s: Seq<Position>)
    ensures
        after_all(v, position_saves(s)).positions == v.positions + s,
        after_all(v, position_saves(s)).accounts == v.accounts,
        forall|k: Seq<char>| v.ledger.contains_key(k) ==> #[trigger] after_all(v, position_saves(s)).ledger.contains_key(k),
        forall|i: int| 0 <= i < s.len() ==> after_all(v, position_saves(s)).ledger.contains_key(lower_of(#[trigger] s[i].symbol@)),
    decreases s.len(),
{
    if s.len() > 0 {
        let t = s.drop_last();
        lemma_position_saves(v, t);
        let p = s.last();
        let x = position_saves(t);
        let y = x.push(DbMsg::PositionSaveToDb { position: p });
        let z = y.push(DbMsg::TransactionInsertPosition { position: p });
        assert(position_saves(s) == z);
        assert(z.drop_last() =~= y);
        assert(y.drop_last() =~= x);
        assert(v.positions + s =~= (v.positions + t).push(p));
        let w0 = after_all(v, x);
        let w1 = next_view(w0, DbMsg::PositionSaveToDb { position: p });
        assert(after_all(v, y) == w1);
        let w = after_all(v, z);
        assert(w == next_view(w1, DbMsg::TransactionInsertPosition { position: p }));
        assert(w.ledger == w0.ledger.insert(lower_of(p.symbol@), (p.qty, p.dtg)));
        assert(w.positions == w0.positions.push(p));
        assert forall|i: int| 0 <= i < s.len() implies w.ledger.contains_key(lower_of(#[trigger] s[i].symbol@)) by {
            if i < s.len() - 1 {
                assert(s[i] == t[i]);
            }
        }
    }
}

/// No partial-tick abort: after a poller tick whose positions and account
/// pulls succeeded, the coordinator's position snapshot is exactly the
/// pulled positions, its latest account is the pulled one, every pulled
/// symbol has a ledger row and no ledger row is lost, whatever became of the
/// fills pull.
pub proof fn lemma_tick_keeps_positions_and_account(
    v: CoordinatorView,
    activities: Result<Vec<Activity>, TradeWebError>,
    positions: Vec<Position>,
    account: Account,
)
    ensures
        after_all(
            v,
            activity_step(activities) + position_step(Ok(positions)) + account_step(Ok(account)),
        ).positions == positions@,
        after_all(
            v,
            activity_step(activities) + position_step(Ok(positions)) + account_step(Ok(account)),
        ).accounts == v.accounts.push(account),
        forall|i: int|
            0 <= i < positions@.len() ==> after_all(
                v,
                activity_step(activities) + position_step(Ok(positions)) + account_step(Ok(account)),
            ).ledger.contains_key(lower_of(#[trigger] positions@[i].symbol@)),
        forall|k: Seq<char>|
            v.ledger.contains_key(k) ==> #[trigger] after_all(
                v,
                activity_step(activities) + position_step(Ok(positions)) + account_step(Ok(account)),
            ).ledger.contains_key(k),
{
    let a = activity_step(activities);
    let p = position_step(Ok::<Vec<Position>, TradeWebError>(positions));
    let c = account_step(Ok::<Account, TradeWebError>(account));
    let del = seq![DbMsg::PositionDeleteAll];
    lemma_after_all_append(v, a + p, c);
    lemma_after_all_append(v, a, p);
    let v1 = after_all(v, a);
    match activities {
        Ok(vs) => lemma_activity_saves_keep(v, vs@),
        Err(_) => {
            assert(after_all(v, a) == v);
        },
    }
    assert(p == del + position_saves(positions@));
    lemma_after_all_append(v1, del, position_saves(positions@));
    let v2 = after_all(v1, del);
    assert(del.drop_last() =~= Seq::<DbMsg>::empty());
    assert(del.last() == DbMsg::PositionDeleteAll);
    assert(v2 == next_view(after_all(v1, Seq::<DbMsg>::empty()), DbMsg::PositionDeleteAll));
    assert(v2.positions == Seq::<Position>::empty());
    lemma_position_saves(v2, positions@);
    assert(Seq::<Position>::empty() + positions@ =~= positions@);
    assert(c.drop_last() =~= Seq::<DbMsg>::empty());
    assert(c.last() == DbMsg::AccountSaveToDb { account: account });
    let v3 = after_all(v2, position_saves(positions@));
    assert(after_all(v, a + p) == v3);
    assert(after_all(v3, c) == next_view(after_all(v3, Seq::<DbMsg>::empty()), DbMsg::AccountSaveToDb { account: account }));
    assert(v2.ledger == v.ledger);
    assert(v2.accounts == v.accounts);
}

} // verus!
