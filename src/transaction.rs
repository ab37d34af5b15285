//! The per-symbol transaction ledger.
//!
//! A row for a symbol means that a buy is outstanding or a position is open
//! for it. Inserting a fresh row is how a buy is admitted: the insert is
//! refused while a row for the symbol exists, so at most one buy per symbol
//! is in flight. Sell fills decrement the row, and the clean-up pass drops
//! every row whose share count has reached zero or below.
use vstd::prelude::*;
use crate::error::TradeWebError;
use crate::model::Position;
use crate::text::{lower_of, lowercase};

verus! {

/// One row of the ledger: the symbol (lower-cased), its share count and the
/// time of its last refresh, in milliseconds since the Unix epoch.
#[derive(Debug, Clone, PartialEq, Eq)]
pub struct AlpacaTransaction {
    pub dtg: i64,
    pub symbol: String,
    pub posn_shares: i64,
}

/// What the ledger holds for one symbol.
#[derive(Debug, Clone, Copy, PartialEq, Eq, Structural)]
pub enum TransactionStatus {
    Found { shares: i64 },
    NotFound,
}

/// What a buy does after posting its order.
#[derive(Debug, Clone, Copy, PartialEq, Eq, Structural)]
pub enum TransactionNextStep {
    Continue,
    DeleteTransaction,
}

/// The answer to a buy check.
#[derive(Debug, Clone, Copy, PartialEq, Eq, Structural)]
pub enum BuyResult {
    Allowed,
    NotAllowed { error: TradeWebError },
}

/// The share count and refresh time of a row, as the ledger's model keeps them.
pub open spec fn row_value(r: AlpacaTransaction) -> (i64, i64) {
    (r.posn_shares, r.dtg)
}

/// The ledger's rows as a map from symbol to (share count, refresh time).
pub open spec fn rows_map(rows: Seq<AlpacaTransaction>) -> Map<Seq<char>, (i64, i64)>
    decreases rows.len(),
{
    if rows.len() == 0 {
        Map::empty()
    } else {
        rows_map(rows.drop_last()).insert(rows.last().symbol@, row_value(rows.last()))
    }
}

/// No two rows name the same symbol.
pub open spec fn keys_unique(rows: Seq<AlpacaTransaction>) -> bool {
    forall|i: int, j: int|
        0 <= i < rows.len() && 0 <= j < rows.len() && i != j ==> rows[i].symbol@ != rows[j].symbol@
}

/// The rows that the clean-up pass keeps: those with a positive share count.
pub open spec fn open_rows(m: Map<Seq<char>, (i64, i64)>) -> Map<Seq<char>, (i64, i64)> {
    Map::new(|k: Seq<char>| m.contains_key(k) && m[k].0 > 0, |k: Seq<char>| m[k])
}

/// `a - b`, held to the range of `i64`.
pub open spec fn sub_clamped(a: i64, b: i64) -> i64 {
    if a - b < i64::MIN {
        i64::MIN
    } else if a - b > i64::MAX {
        i64::MAX
    } else {
        (a - b) as i64
    }
}


/// The answer to a buy check of key `k` against the ledger `m`.
pub open spec fn buy_answer(m: Map<Seq<char>, (i64, i64)>, k: Seq<char>) -> BuyResult {
    if m.contains_key(k) {
        BuyResult::NotAllowed { error: TradeWebError::PositionExists }
    } else {
        BuyResult::Allowed
    }
}

/// The ledger after a buy check of key `k` at time `now`.
pub open spec fn after_buy(m: Map<Seq<char>, (i64, i64)>, k: Seq<char>, now: i64) -> Map<
    Seq<char>,
    (i64, i64),
> {
    if m.contains_key(k) {
        m
    } else {
        m.insert(k, (0i64, now))
    }
}

/// The ledger after `q` shares are taken from key `k`.
pub open spec fn after_decrement(m: Map<Seq<char>, (i64, i64)>, k: Seq<char>, q: i64) -> Map<
    Seq<char>,
    (i64, i64),
> {
    if m.contains_key(k) {
        m.insert(k, (sub_clamped(m[k].0, q), m[k].1))
    } else {
        m
    }
}

/// One write to the ledger, as the coordinator hands it on.
#[derive(Debug, Clone, PartialEq, Eq)]
pub enum LedgerOp {
    BuyCheck { symbol: String, now: i64 },
    Decrement { symbol: String, qty: i64 },
    Clean,
    Reconcile { symbol: String, qty: i64, now: i64 },
    DeleteOne { symbol: String },
    DeleteAll,
}

/// The ledger after `op`.
pub open spec fn apply_op(m: Map<Seq<char>, (i64, i64)>, op: LedgerOp) -> Map<Seq<char>, (i64, i64)> {
    match op {
        LedgerOp::BuyCheck { symbol, now } => after_buy(m, lower_of(symbol@), now),
        LedgerOp::Decrement { symbol, qty } => after_decrement(m, lower_of(symbol@), qty),
        LedgerOp::Clean => open_rows(m),
        LedgerOp::Reconcile { symbol, qty, now } => m.insert(lower_of(symbol@), (qty, now)),
        LedgerOp::DeleteOne { symbol } => m.remove(lower_of(symbol@)),
        LedgerOp::DeleteAll => Map::empty(),
    }
}

/// The ledger before the `n`-th of `ops`, starting from `m`.
pub open spec fn state_before(m: Map<Seq<char>, (i64, i64)>, ops: Seq<LedgerOp>, n: nat) -> Map<
    Seq<char>,
    (i64, i64),
>
    decreases n,
{
    if n == 0 {
        m
    } else {
        apply_op(state_before(m, ops, (n - 1) as nat), ops[n - 1])
    }
}

/// Whether `op` is one that can take the row for key `k` away.
pub open spec fn may_remove(op: LedgerOp, k: Seq<char>) -> bool {
    match op {
        LedgerOp::Clean => true,
        LedgerOp::DeleteAll => true,
        LedgerOp::DeleteOne { symbol } => lower_of(symbol@) == k,
        _ => false,
    }
}

/// Whether `op` is a buy check of key `k`.
pub open spec fn is_buy_of(op: LedgerOp, k: Seq<char>) -> bool {
    match op {
        LedgerOp::BuyCheck { symbol, now } => lower_of(symbol@) == k,
        _ => false,
    }
}

/// Whether `op` sets key `k` from a broker position.
pub open spec fn is_reconcile_of(op: LedgerOp, k: Seq<char>) -> bool {
    match op {
        LedgerOp::Reconcile { symbol, qty, now } => lower_of(symbol@) == k,
        _ => false,
    }
}

/// Whether every decrement among `ops` takes a quantity of zero or more.
pub open spec fn decrements_nonnegative(ops: Seq<LedgerOp>) -> bool {
    forall|n: int| 0 <= n < ops.len() ==> match #[trigger] ops[n] {
        LedgerOp::Decrement { symbol, qty } => qty >= 0,
        _ => true,
    }
}

/// Whether key `k` holds a positive share count in `m`.
pub open spec fn holds_shares(m: Map<Seq<char>, (i64, i64)>, k: Seq<char>) -> bool {
    m.contains_key(k) && m[k].0 > 0
}

proof fn lemma_rows_map_contains(s: Seq<AlpacaTransaction>, k: Seq<char>)
    ensures
        rows_map(s).contains_key(k) <==> exists|i: int| 0 <= i < s.len() && s[i].symbol@ == k,
    decreases s.len(),
{
    if s.len() > 0 {
        let t = s.drop_last();
        lemma_rows_map_contains(t, k);
        if rows_map(s).contains_key(k) {
            if s.last().symbol@ == k {
                assert(s[s.len() - 1].symbol@ == k);
            } else {
                let i = choose|i: int| 0 <= i < t.len() && t[i].symbol@ == k;
                assert(s[i].symbol@ == k);
            }
        }
        if exists|i: int| 0 <= i < s.len() && s[i].symbol@ == k {
            let i = choose|i: int| 0 <= i < s.len() && s[i].symbol@ == k;
            if i < s.len() - 1 {
                assert(t[i].symbol@ == k);
            }
        }
    }
}

proof fn lemma_rows_map_value(s: Seq<AlpacaTransaction>, i: int)
    requires
        keys_unique(s),
        0 <= i < s.len(),
    ensures
        rows_map(s).contains_key(s[i].symbol@),
        rows_map(s)[s[i].symbol@] == row_value(s[i]),
    decreases s.len(),
{
    if i < s.len() - 1 {
        let t = s.drop_last();
        assert(keys_unique(t));
        lemma_rows_map_value(t, i);
        assert(s[i].symbol@ != s[s.len() - 1].symbol@);
    }
}

proof fn lemma_rows_map_remove(s: Seq<AlpacaTransaction>, i: int)
    requires
        keys_unique(s),
        0 <= i < s.len(),
    ensures
        rows_map(s.remove(i)) =~= rows_map(s).remove(s[i].symbol@),
        keys_unique(s.remove(i)),
    decreases s.len(),
{
    let t = s.drop_last();
    assert(keys_unique(t));
    if i == s.len() - 1 {
        assert(s.remove(i) =~= t);
        lemma_rows_map_contains(t, s[i].symbol@);
        if rows_map(t).contains_key(s[i].symbol@) {
            let j = choose|j: int| 0 <= j < t.len() && t[j].symbol@ == s[i].symbol@;
            assert(s[j].symbol@ == s[i].symbol@);
        }
    } else {
        lemma_rows_map_remove(t, i);
        assert(s.remove(i).drop_last() =~= t.remove(i));
        assert(s.remove(i).last() == s.last());
        assert(s[i].symbol@ != s[s.len() - 1].symbol@);
    }
    let r = s.remove(i);
    assert forall|a: int, b: int| 0 <= a < r.len() && 0 <= b < r.len() && a != b implies r[a].symbol@
        != r[b].symbol@ by {
        let sa = if a < i { a } else { a + 1 };
        let sb = if b < i { b } else { b + 1 };
        assert(r[a] == s[sa]);
        assert(r[b] == s[sb]);
    }
}

/// The ledger of transaction status rows, one per symbol at most.
pub struct TransactionTable {
    rows: Vec<AlpacaTransaction>,
}

impl View for TransactionTable {
    type V = Map<Seq<char>, (i64, i64)>;

    closed spec fn view(&self) -> Map<Seq<char>, (i64, i64)> {
        rows_map(self.rows@)
    }
}

impl TransactionTable {
    /// The table's invariant: symbols are unique among its rows.
    pub closed spec fn wf(&self) -> bool {
        keys_unique(self.rows@)
    }

    /// An empty ledger.
    pub fn new() -> (r: TransactionTable)
        ensures
            r.wf(),
            r@ == Map::<Seq<char>, (i64, i64)>::empty(),
    {
        TransactionTable { rows: Vec::new() }
    }

    /// The number of rows.
    pub fn len(&self) -> (r: usize)
        requires
            self.wf(),
        ensures
            r == self@.len(),
    {
        proof {
            self.lemma_len();
        }
        self.rows.len()
    }

    proof fn lemma_len(&self)
        requires
            self.wf(),
        ensures
            self@.len() == self.rows@.len(),
        decreases self.rows@.len(),
    {
        lemma_rows_len(self.rows@);
    }

    /// Where the row for the lower-cased key `key` stands, if there is one.
    fn find(&self, key: &String) -> (r: Option<usize>)
        requires
            self.wf(),
        ensures
            match r {
                Some(i) => i < self.rows@.len() && self.rows@[i as int].symbol@ == key@
                    && self@.contains_key(key@) && self@[key@] == row_value(self.rows@[i as int]),
                None => !self@.contains_key(key@),
            },
    {
        let mut i: usize = 0;
        while i < self.rows.len()
            invariant
                self.wf(),
                i <= self.rows@.len(),
                forall|j: int| 0 <= j < i ==> self.rows@[j].symbol@ != key@,
            decreases self.rows@.len() - i,
        {
            if self.rows[i].symbol == *key {
                proof {
                    lemma_rows_map_value(self.rows@, i as int);
                }
                return Some(i);
            }
            i = i + 1;
        }
        proof {
            lemma_rows_map_contains(self.rows@, key@);
        }
        None
    }

    /// What the ledger holds for `symbol`.
    pub fn status(&self, symbol: &str) -> (r: TransactionStatus)
        requires
            self.wf(),
        ensures
            self@.contains_key(lower_of(symbol@)) ==> r == (TransactionStatus::Found {
                shares: self@[lower_of(symbol@)].0,
            }),
            !self@.contains_key(lower_of(symbol@)) ==> r == TransactionStatus::NotFound,
    {
        let key = lowercase(symbol);
        match self.find(&key) {
            Some(i) => TransactionStatus::Found { shares: self.rows[i].posn_shares },
            None => TransactionStatus::NotFound,
        }
    }
}

impl TransactionTable {
    /// Appends a row for a key that the ledger does not hold.
    fn push_new(&mut self, row: AlpacaTransaction)
        requires
            old(self).wf(),
            !old(self)@.contains_key(row.symbol@),
        ensures
            final(self).wf(),
            final(self)@ == old(self)@.insert(row.symbol@, row_value(row)),
    {
        proof {
            lemma_rows_map_contains(self.rows@, row.symbol@);
        }
        let ghost before = self.rows@;
        self.rows.push(row);
        proof {
            assert(self.rows@.drop_last() =~= before);
            assert forall|a: int, b: int|
                0 <= a < self.rows@.len() && 0 <= b < self.rows@.len() && a != b implies
                self.rows@[a].symbol@ != self.rows@[b].symbol@ by {
                if a == before.len() {
                    assert(before[b].symbol@ != row.symbol@);
                } else if b == before.len() {
                    assert(before[a].symbol@ != row.symbol@);
                } else {
                    assert(self.rows@[a] == before[a]);
                    assert(self.rows@[b] == before[b]);
                }
            }
        }
    }

    /// Removes the row at `i`.
    fn remove_at(&mut self, i: usize) -> (r: AlpacaTransaction)
        requires
            old(self).wf(),
            i < old(self).rows@.len(),
        ensures
            final(self).wf(),
            r == old(self).rows@[i as int],
            final(self)@ == old(self)@.remove(r.symbol@),
    {
        proof {
            lemma_rows_map_remove(self.rows@, i as int);
        }
        self.rows.remove(i)
    }

    /// Buy check: admits a buy of `symbol` by inserting a fresh row with no
    /// shares, stamped `now`. The insert, and so the buy, is refused with
    /// `PositionExists` while a row for the symbol exists.
    pub fn buy_check(&mut self, symbol: &str, now: i64) -> (r: BuyResult)
        requires
            old(self).wf(),
        ensures
            final(self).wf(),
            r == buy_answer(old(self)@, lower_of(symbol@)),
            final(self)@ == after_buy(old(self)@, lower_of(symbol@), now),
    {
        let key = lowercase(symbol);
        match self.find(&key) {
            Some(_) => BuyResult::NotAllowed { error: TradeWebError::PositionExists },
            None => {
                self.push_new(AlpacaTransaction { dtg: now, symbol: key, posn_shares: 0 });
                BuyResult::Allowed
            },
        }
    }

    /// Subtracts `shares_to_decrement` from the share count of `symbol`'s row;
    /// the row's refresh time stays. A symbol without a row is left alone.
    pub fn decrement(&mut self, symbol: &str, shares_to_decrement: i64)
        requires
            old(self).wf(),
        ensures
            final(self).wf(),
            final(self)@ == after_decrement(old(self)@, lower_of(symbol@), shares_to_decrement),
    {
        let key = lowercase(symbol);
        match self.find(&key) {
            Some(i) => {
                let row = self.remove_at(i);
                let shares = match row.posn_shares.checked_sub(shares_to_decrement) {
                    Some(v) => v,
                    None => if shares_to_decrement > 0 {
                        i64::MIN
                    } else {
                        i64::MAX
                    },
                };
                self.push_new(AlpacaTransaction { dtg: row.dtg, symbol: row.symbol, posn_shares: shares });
                proof {
                    assert(self@ =~= old(self)@.insert(
                        lower_of(symbol@),
                        (
                            sub_clamped(old(self)@[lower_of(symbol@)].0, shares_to_decrement),
                            old(self)@[lower_of(symbol@)].1,
                        ),
                    ));
                }
            },
            None => {},
        }
    }

    /// Sets `symbol`'s row to the share count `qty`, refreshed at `now`,
    /// inserting the row if there is none.
    fn reconcile(&mut self, symbol: &str, qty: i64, now: i64)
        requires
            old(self).wf(),
        ensures
            final(self).wf(),
            final(self)@ == old(self)@.insert(lower_of(symbol@), (qty, now)),
    {
        let key = lowercase(symbol);
        match self.find(&key) {
            Some(i) => {
                let row = self.remove_at(i);
                self.push_new(AlpacaTransaction { dtg: now, symbol: row.symbol, posn_shares: qty });
                proof {
                    assert(self@ =~= old(self)@.insert(lower_of(symbol@), (qty, now)));
                }
            },
            None => {
                self.push_new(AlpacaTransaction { dtg: now, symbol: key, posn_shares: qty });
            },
        }
    }

    /// Reconcile with a broker position: the row of its symbol takes the
    /// position's share count and time, and is inserted if there is none.
    pub fn insert_existing_position(&mut self, position: &Position)
        requires
            old(self).wf(),
        ensures
            final(self).wf(),
            final(self)@ == old(self)@.insert(lower_of(position.symbol@), (position.qty, position.dtg)),
    {
        self.reconcile(position.symbol.as_str(), position.qty, position.dtg);
    }

    /// Deletes `symbol`'s row, if there is one.
    pub fn delete_one(&mut self, symbol: &str)
        requires
            old(self).wf(),
        ensures
            final(self).wf(),
            final(self)@ == old(self)@.remove(lower_of(symbol@)),
    {
        let key = lowercase(symbol);
        match self.find(&key) {
            Some(i) => {
                let _ = self.remove_at(i);
            },
            None => {
                proof {
                    assert(self@ =~= old(self)@.remove(lower_of(symbol@)));
                }
            },
        }
    }

    /// Deletes every row: the slate is blank.
    pub fn delete_all(&mut self)
        requires
            old(self).wf(),
        ensures
            final(self).wf(),
            final(self)@ == Map::<Seq<char>, (i64, i64)>::empty(),
    {
        self.rows = Vec::new();
    }

    /// Clean-up: deletes every row whose share count is zero or below.
    pub fn clean(&mut self)
        requires
            old(self).wf(),
        ensures
            final(self).wf(),
            final(self)@ == open_rows(old(self)@),
    {
        let mut kept: Vec<AlpacaTransaction> = Vec::new();
        let mut i: usize = 0;
        while i < self.rows.len()
            invariant
                self.wf(),
                self == old(self),
                i <= self.rows@.len(),
                keys_unique(kept@),
                rows_map(kept@) =~= open_rows(rows_map(self.rows@.take(i as int))),
            decreases self.rows@.len() - i,
        {
            let ghost s = self.rows@;
            let ghost pre = s.take(i as int);
            let ghost k = s[i as int].symbol@;
            proof {
                assert(s.take(i as int + 1).drop_last() =~= pre);
                assert(s.take(i as int + 1).last() == s[i as int]);
                lemma_rows_map_contains(pre, k);
                if rows_map(pre).contains_key(k) {
                    let j = choose|j: int| 0 <= j < pre.len() && pre[j].symbol@ == k;
                    assert(s[j].symbol@ == k);
                }
            }
            let row = &self.rows[i];
            if row.posn_shares > 0 {
                proof {
                    lemma_rows_map_contains(kept@, k);
                    if exists|j: int| 0 <= j < kept@.len() && kept@[j].symbol@ == k {
                        let j = choose|j: int| 0 <= j < kept@.len() && kept@[j].symbol@ == k;
                        lemma_rows_map_value(kept@, j);
                    }
                }
                let ghost before = kept@;
                kept.push(AlpacaTransaction { dtg: row.dtg, symbol: row.symbol.clone(), posn_shares: row.posn_shares });
                proof {
                    assert(kept@.drop_last() =~= before);
                    assert forall|a: int, b: int|
                        0 <= a < kept@.len() && 0 <= b < kept@.len() && a != b implies
                        kept@[a].symbol@ != kept@[b].symbol@ by {
                        if a == before.len() {
                            assert(before[b].symbol@ != k);
                        } else if b == before.len() {
                            assert(before[a].symbol@ != k);
                        } else {
                            assert(kept@[a] == before[a]);
                            assert(kept@[b] == before[b]);
                        }
                    }
                }
            }
            i = i + 1;
            proof {
                assert(rows_map(kept@) =~= open_rows(rows_map(self.rows@.take(i as int))));
            }
        }
        proof {
            assert(self.rows@.take(i as int) =~= self.rows@);
        }
        self.rows = kept;
    }

    /// Applies one write; a buy check also gives its answer.
    pub fn apply(&mut self, op: &LedgerOp) -> (r: Option<BuyResult>)
        requires
            old(self).wf(),
        ensures
            final(self).wf(),
            final(self)@ == apply_op(old(self)@, *op),
            match *op {
                LedgerOp::BuyCheck { symbol, now } => r == Some(buy_answer(old(self)@, lower_of(symbol@))),
                _ => r.is_none(),
            },
    {
        match op {
            LedgerOp::BuyCheck { symbol, now } => Some(self.buy_check(symbol.as_str(), *now)),
            LedgerOp::Decrement { symbol, qty } => {
                self.decrement(symbol.as_str(), *qty);
                None
            },
            LedgerOp::Clean => {
                self.clean();
                None
            },
            LedgerOp::Reconcile { symbol, qty, now } => {
                self.reconcile(symbol.as_str(), *qty, *now);
                None
            },
            LedgerOp::DeleteOne { symbol } => {
                self.delete_one(symbol.as_str());
                None
            },
            LedgerOp::DeleteAll => {
                self.delete_all();
                None
            },
        }
    }
}

proof fn lemma_rows_len(s: Seq<AlpacaTransaction>)
    requires
        keys_unique(s),
    ensures
        rows_map(s).len() == s.len(),
        rows_map(s).dom().finite(),
    decreases s.len(),
{
    if s.len() > 0 {
        let t = s.drop_last();
        assert(keys_unique(t));
        lemma_rows_len(t);
        lemma_rows_map_contains(t, s.last().symbol@);
        if rows_map(t).contains_key(s.last().symbol@) {
            let j = choose|j: int| 0 <= j < t.len() && t[j].symbol@ == s.last().symbol@;
            assert(s[j].symbol@ == s[s.len() - 1].symbol@);
        }
    }
}


proof fn lemma_row_stays(m: Map<Seq<char>, (i64, i64)>, ops: Seq<LedgerOp>, k: Seq<char>, a: nat, b: nat)
    requires
        a <= b <= ops.len(),
        state_before(m, ops, a).contains_key(k),
        forall|n: int| a <= n < b ==> !may_remove(#[trigger] ops[n], k),
    ensures
        state_before(m, ops, b).contains_key(k),
    decreases b - a,
{
    if b > a {
        lemma_row_stays(m, ops, k, a, (b - 1) as nat);
        assert(!may_remove(ops[b - 1], k));
    }
}

/// A second buy check of a symbol, right after one that was allowed, is
/// refused with `PositionExists`.
pub proof fn lemma_second_buy_refused(m: Map<Seq<char>, (i64, i64)>, k: Seq<char>, now1: i64, now2: i64)
    requires
        buy_answer(m, k) == BuyResult::Allowed,
    ensures
        buy_answer(after_buy(m, k, now1), k) == (BuyResult::NotAllowed {
            error: TradeWebError::PositionExists,
        }),
        after_buy(after_buy(m, k, now1), k, now2) == after_buy(m, k, now1),
{
}

/// At most one buy per symbol: between two allowed buy checks of one symbol
/// stands a write that can take that symbol's row away (a delete of it, a
/// delete of every row, or a clean-up).
pub proof fn lemma_one_buy_per_symbol(
    m: Map<Seq<char>, (i64, i64)>,
    ops: Seq<LedgerOp>,
    k: Seq<char>,
    i: int,
    j: int,
)
    requires
        0 <= i < j < ops.len(),
        is_buy_of(ops[i], k),
        is_buy_of(ops[j], k),
        buy_answer(state_before(m, ops, i as nat), k) == BuyResult::Allowed,
        buy_answer(state_before(m, ops, j as nat), k) == BuyResult::Allowed,
    ensures
        exists|n: int| i < n < j && may_remove(#[trigger] ops[n], k),
{
    if !(exists|n: int| i < n < j && may_remove(#[trigger] ops[n], k)) {
        assert(state_before(m, ops, (i + 1) as nat) == apply_op(state_before(m, ops, i as nat), ops[i]));
        lemma_row_stays(m, ops, k, (i + 1) as nat, j as nat);
    }
}

/// Decrement then clean-up, with a positive quantity: the symbol's share
/// count falls by exactly that quantity, its row is gone exactly when the new
/// count is zero or below, and every other row stays if and only if it holds
/// a positive count.
pub proof fn lemma_decrement_then_clean(m: Map<Seq<char>, (i64, i64)>, k: Seq<char>, q: i64)
    requires
        q > 0,
        m.contains_key(k),
    ensures
        open_rows(after_decrement(m, k, q)).contains_key(k) <==> m[k].0 - q > 0,
        open_rows(after_decrement(m, k, q)).contains_key(k) ==> open_rows(after_decrement(m, k, q))[k].0
            == m[k].0 - q,
        open_rows(after_decrement(m, k, q)).contains_key(k) ==> open_rows(after_decrement(m, k, q))[k].0
            < m[k].0,
        forall|k2: Seq<char>|
            k2 != k ==> (#[trigger] open_rows(after_decrement(m, k, q)).contains_key(k2) <==> holds_shares(
                m,
                k2,
            )),
{
}

/// Without a reconcile of the symbol, and with decrements of zero or more, a
/// symbol's share count never rises, and a symbol that holds no positive
/// count never comes to hold one.
pub proof fn lemma_shares_rise_only_by_reconcile(
    m: Map<Seq<char>, (i64, i64)>,
    ops: Seq<LedgerOp>,
    k: Seq<char>,
    a: nat,
    b: nat,
)
    requires
        a <= b <= ops.len(),
        decrements_nonnegative(ops),
        forall|n: int| a <= n < b ==> !is_reconcile_of(#[trigger] ops[n], k),
    ensures
        !holds_shares(state_before(m, ops, a), k) ==> !holds_shares(state_before(m, ops, b), k),
        holds_shares(state_before(m, ops, b), k) ==> holds_shares(state_before(m, ops, a), k)
            && state_before(m, ops, b)[k].0 <= state_before(m, ops, a)[k].0,
    decreases b - a,
{
    if b > a {
        let c = (b - 1) as nat;
        lemma_shares_rise_only_by_reconcile(m, ops, k, a, c);
        let op = ops[c as int];
        assert(!is_reconcile_of(op, k));
        match op {
            LedgerOp::Decrement { symbol, qty } => {
                assert(qty >= 0);
            },
            _ => {},
        }
    }
}

} // verus!
