use bench_pg_rs::decimal::Dec;
use bench_pg_rs::document::Document;
use bench_pg_rs::domain::{Customer, DebtCredit, LedgerAccount, Material, User, Vendor};
use bench_pg_rs::ledger::{post_differences, post_document, PostError};
use bench_pg_rs::period::Date;

fn d(mantissa: i128, scale: u32) -> Dec {
    Dec { mantissa, scale }
}

fn date() -> Date {
    Date { year: 2025, month: 3, day: 14 }
}

#[test]
fn purchase_document_posts_price_difference() {
    let doc = Document::new_purchase_document(date(), "P-1".to_string(), Material(1), Vendor(2), d(12, 0), d(10, 0),
        d(5, 0), User(3)).unwrap();
    assert_eq!(doc.lines.len(), 3);
    assert_eq!(doc.lines[0].account, LedgerAccount::Inventory);
    assert_eq!(doc.lines[0].amount, d(50, 0));
    assert_eq!(doc.lines[0].quantity, Some(d(5, 0)));
    assert_eq!(doc.lines[1].account, LedgerAccount::InventoryDiff);
    assert_eq!(doc.lines[1].debt_credit, DebtCredit::Debt);
    assert_eq!(doc.lines[1].amount, d(10, 0));
    assert_eq!(doc.lines[2].account, LedgerAccount::Payable);
    assert_eq!(doc.lines[2].amount, d(-60, 0));
    assert_eq!(doc.balance(), Some(d(0, 0)));
}

#[test]
fn purchase_at_standard_price_has_no_difference_line() {
    let doc = Document::new_purchase_document(date(), "P-2".to_string(), Material(1), Vendor(2), d(10, 0), d(10, 0),
        d(5, 0), User(3)).unwrap();
    assert_eq!(doc.lines.len(), 2);
    assert_eq!(doc.balance(), Some(d(0, 0)));
}

#[test]
fn cheaper_purchase_credits_differences() {
    let doc = Document::new_purchase_document(date(), "P-3".to_string(), Material(1), Vendor(2), d(8, 0), d(10, 0),
        d(5, 0), User(3)).unwrap();
    assert_eq!(doc.lines[1].debt_credit, DebtCredit::Credit);
    assert_eq!(doc.lines[1].amount, d(-10, 0));
}

#[test]
fn overflowing_purchase_has_no_document() {
    let big = d(0xFFFF_FFFF_FFFF_FFFF_FFFF_FFFF, 0);
    assert!(Document::new_purchase_document(date(), "P-4".to_string(), Material(1), Vendor(2), big, d(1, 0), big,
        User(3)).is_none());
}

#[test]
fn documents_balance_to_zero() {
    let cost = Document::new_cost_document(date(), "C-1".to_string(), Material(1), Vendor(2), d(1500, 0), User(0));
    assert_eq!(cost.balance(), Some(d(0, 0)));
    let cogs = Document::new_cogs_document(date(), "G-1".to_string(), Customer(1), Material(1), d(150, 0), d(120, 0),
        User(0)).unwrap();
    assert_eq!(cogs.lines[0].amount, d(18000, 0));
    assert_eq!(cogs.balance(), Some(d(0, 0)));
    let sale = Document::new_sale_document(date(), "S-1".to_string(), Customer(1), Material(1), d(300, 0), d(120, 0),
        User(0)).unwrap();
    assert_eq!(sale.lines[0].amount, d(36000, 0));
    assert_eq!(sale.balance(), Some(d(0, 0)));
}

#[test]
fn posting_a_document_writes_one_row_per_line() {
    let doc = Document::new_purchase_document(date(), "P-5".to_string(), Material(4), Vendor(9), d(12, 0), d(10, 0),
        d(5, 0), User(3)).unwrap();
    let rows = post_document(&doc).unwrap();
    assert_eq!(rows.len(), 3);
    assert_eq!(rows[0].period, 202503);
    assert_eq!(rows[0].doc_no, "P-5");
    assert_eq!(rows[0].material_id, Some("MAT-00004".to_string()));
    assert_eq!(rows[0].debt, d(50, 0));
    assert_eq!(rows[0].credit, d(0, 0));
    assert_eq!(rows[0].quantity, d(5, 0));
    assert_eq!(rows[2].business_partner_id, Some("VEND-00009".to_string()));
    assert_eq!(rows[2].debt, d(0, 0));
    assert_eq!(rows[2].credit, d(60, 0));
    assert_eq!(rows[2].quantity, d(0, 0));
    assert_eq!(rows[2].updated_by, "USER-00003");
}

#[test]
fn unbalanced_document_is_refused() {
    let mut doc = Document::new_cost_document(date(), "C-2".to_string(), Material(1), Vendor(2), d(100, 0), User(0));
    doc.lines[1].amount = d(-90, 0);
    assert_eq!(post_document(&doc).unwrap_err(), PostError::Unbalanced(d(10, 0)));
}

#[test]
fn overflowing_balance_is_refused() {
    let big = d(0xFFFF_FFFF_FFFF_FFFF_FFFF_FFFF, 0);
    let mut doc = Document::new_cost_document(date(), "C-3".to_string(), Material(1), Vendor(2), big, User(0));
    doc.lines[1].amount = big;
    assert_eq!(post_document(&doc).unwrap_err(), PostError::BalanceOverflow);
}

#[test]
fn zero_difference_posts_nothing() {
    let rows = post_differences(date(), &"X".to_string(), &"MAT-00001".to_string(), d(0, 2), LedgerAccount::Inventory,
        LedgerAccount::InventoryDiff, &"USER-00001".to_string());
    assert!(rows.is_empty());
}

#[test]
fn positive_difference_debits_the_debit_account() {
    let rows = post_differences(date(), &"X".to_string(), &"MAT-00001".to_string(), d(250, 2), LedgerAccount::Inventory,
        LedgerAccount::InventoryDiff, &"USER-00001".to_string());
    assert_eq!(rows.len(), 2);
    assert_eq!(rows[0].account, LedgerAccount::Inventory);
    assert_eq!(rows[0].debt, d(250, 2));
    assert_eq!(rows[0].amount, d(250, 2));
    assert_eq!(rows[1].account, LedgerAccount::InventoryDiff);
    assert_eq!(rows[1].credit, d(250, 2));
    assert_eq!(rows[1].amount, d(-250, 2));
}

#[test]
fn negative_difference_swaps_the_accounts() {
    let rows = post_differences(date(), &"X".to_string(), &"MAT-00001".to_string(), d(-250, 2), LedgerAccount::Inventory,
        LedgerAccount::InventoryDiff, &"USER-00001".to_string());
    assert_eq!(rows.len(), 2);
    assert_eq!(rows[0].account, LedgerAccount::InventoryDiff);
    assert_eq!(rows[0].debt, d(250, 2));
    assert_eq!(rows[1].account, LedgerAccount::Inventory);
    assert_eq!(rows[1].credit, d(250, 2));
    assert_eq!(rows[0].debt_credit, DebtCredit::Debt);
    assert_eq!(rows[1].debt_credit, DebtCredit::Credit);
}
