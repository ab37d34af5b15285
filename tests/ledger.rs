use trade_core::error::TradeWebError;
use trade_core::model::{Position, PositionSide};
use trade_core::transaction::{BuyResult, LedgerOp, TransactionStatus, TransactionTable};

fn pos(symbol: &str, qty: i64, dtg: i64) -> Position {
    Position {
        dtg,
        symbol: symbol.to_string(),
        side: PositionSide::Long,
        avg_entry_price: 0,
        qty,
        qty_available: qty,
        market_value: 0,
        unrealized_pl: 0,
    }
}

#[test]
fn buy_check_scenario_allowed_refused_allowed() {
    let mut t = TransactionTable::new();
    assert_eq!(t.buy_check("AAPL", 1), BuyResult::Allowed);
    assert_eq!(
        t.buy_check("AAPL", 2),
        BuyResult::NotAllowed { error: TradeWebError::PositionExists }
    );
    t.insert_existing_position(&pos("AAPL", 10, 3));
    t.decrement("AAPL", 10);
    t.clean();
    assert_eq!(t.status("AAPL"), TransactionStatus::NotFound);
    assert_eq!(t.buy_check("AAPL", 4), BuyResult::Allowed);
}

#[test]
fn buy_check_ignores_case() {
    let mut t = TransactionTable::new();
    assert_eq!(t.buy_check("aapl", 1), BuyResult::Allowed);
    assert_eq!(
        t.buy_check("AAPL", 2),
        BuyResult::NotAllowed { error: TradeWebError::PositionExists }
    );
    assert_eq!(t.status("Aapl"), TransactionStatus::Found { shares: 0 });
}

#[test]
fn buy_checks_of_other_symbols_are_independent() {
    let mut t = TransactionTable::new();
    assert_eq!(t.buy_check("AAPL", 1), BuyResult::Allowed);
    assert_eq!(t.buy_check("TSLA", 1), BuyResult::Allowed);
    assert_eq!(t.len(), 2);
}

#[test]
fn decrement_then_clean_drives_shares_down() {
    let mut t = TransactionTable::new();
    t.insert_existing_position(&pos("TSLA", 10, 1));
    t.decrement("TSLA", 3);
    t.clean();
    assert_eq!(t.status("TSLA"), TransactionStatus::Found { shares: 7 });
    t.decrement("TSLA", 4);
    t.clean();
    assert_eq!(t.status("TSLA"), TransactionStatus::Found { shares: 3 });
    t.decrement("TSLA", 3);
    t.clean();
    assert_eq!(t.status("TSLA"), TransactionStatus::NotFound);
}

#[test]
fn decrement_below_zero_removes_on_clean() {
    let mut t = TransactionTable::new();
    t.insert_existing_position(&pos("NIO", 2, 1));
    t.decrement("NIO", 5);
    assert_eq!(t.status("NIO"), TransactionStatus::Found { shares: -3 });
    t.clean();
    assert_eq!(t.status("NIO"), TransactionStatus::NotFound);
}

#[test]
fn decrement_saturates_at_the_bottom() {
    let mut t = TransactionTable::new();
    t.insert_existing_position(&pos("NIO", i64::MIN + 1, 1));
    t.decrement("NIO", 5);
    assert_eq!(t.status("NIO"), TransactionStatus::Found { shares: i64::MIN });
}

#[test]
fn decrement_of_unknown_symbol_changes_nothing() {
    let mut t = TransactionTable::new();
    t.insert_existing_position(&pos("BAC", 4, 1));
    t.decrement("AAL", 4);
    assert_eq!(t.status("AAL"), TransactionStatus::NotFound);
    assert_eq!(t.status("BAC"), TransactionStatus::Found { shares: 4 });
    assert_eq!(t.len(), 1);
}

#[test]
fn clean_keeps_only_positive_rows() {
    let mut t = TransactionTable::new();
    t.insert_existing_position(&pos("A", 1, 1));
    t.insert_existing_position(&pos("B", 0, 1));
    t.insert_existing_position(&pos("C", -2, 1));
    t.insert_existing_position(&pos("D", 5, 1));
    t.clean();
    assert_eq!(t.len(), 2);
    assert_eq!(t.status("A"), TransactionStatus::Found { shares: 1 });
    assert_eq!(t.status("B"), TransactionStatus::NotFound);
    assert_eq!(t.status("C"), TransactionStatus::NotFound);
    assert_eq!(t.status("D"), TransactionStatus::Found { shares: 5 });
}

#[test]
fn reconcile_overwrites_existing_row() {
    let mut t = TransactionTable::new();
    assert_eq!(t.buy_check("PLUG", 1), BuyResult::Allowed);
    t.insert_existing_position(&pos("PLUG", 12, 2));
    assert_eq!(t.status("plug"), TransactionStatus::Found { shares: 12 });
    assert_eq!(t.len(), 1);
}

#[test]
fn delete_one_and_delete_all() {
    let mut t = TransactionTable::new();
    t.insert_existing_position(&pos("A", 1, 1));
    t.insert_existing_position(&pos("B", 1, 1));
    t.delete_one("a");
    assert_eq!(t.status("A"), TransactionStatus::NotFound);
    assert_eq!(t.len(), 1);
    t.delete_all();
    assert_eq!(t.len(), 0);
    assert_eq!(t.buy_check("B", 2), BuyResult::Allowed);
}

#[test]
fn apply_answers_buy_checks_only() {
    let mut t = TransactionTable::new();
    let op = LedgerOp::BuyCheck { symbol: "AMD".to_string(), now: 1 };
    assert_eq!(t.apply(&op), Some(BuyResult::Allowed));
    assert_eq!(
        t.apply(&op),
        Some(BuyResult::NotAllowed { error: TradeWebError::PositionExists })
    );
    assert_eq!(t.apply(&LedgerOp::Decrement { symbol: "AMD".to_string(), qty: 1 }), None);
    assert_eq!(t.apply(&LedgerOp::Clean), None);
    assert_eq!(t.apply(&op), Some(BuyResult::Allowed));
    assert_eq!(t.apply(&LedgerOp::DeleteAll), None);
    assert_eq!(t.len(), 0);
}
