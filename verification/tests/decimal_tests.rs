use bench_pg_rs::decimal::Dec;
use bench_pg_rs::document::{Document, DocumentLine};
use bench_pg_rs::domain::{Customer, DebtCredit, LedgerAccount, Material, User, Vendor};
use bench_pg_rs::inventory::{compute_closing, plan_purchase, plan_sale, ClosingData, MaterialPrices, SalePlan};
use bench_pg_rs::operation::{Purchase, Sale};
use bench_pg_rs::period::Date;
use rust_decimal::Decimal;

fn d(mantissa: i128, scale: u32) -> Dec {
    Dec { mantissa, scale }
}

fn value(x: Dec) -> Decimal {
    Decimal::from_i128_with_scale(x.mantissa, x.scale)
}

fn date() -> Date {
    Date { year: 2025, month: 5, day: 5 }
}

fn line(amount: Dec) -> DocumentLine {
    DocumentLine {
        account: LedgerAccount::Inventory,
        business_partner: None,
        material: None,
        debt_credit: DebtCredit::Debt,
        amount,
        quantity: None,
    }
}

#[test]
fn balance_adds_at_the_larger_scale() {
    let doc = Document { posting_date: date(), doc_no: "B".to_string(), updated_by: User(0),
        lines: vec![line(d(150, 2)), line(d(25, 1))] };
    assert_eq!(doc.balance(), Some(d(400, 2)));
    let single = Document { posting_date: date(), doc_no: "B".to_string(), updated_by: User(0),
        lines: vec![line(d(7, 1))] };
    assert_eq!(single.balance(), Some(d(7, 1)));
}

#[test]
fn balance_overflow_is_none() {
    let big = d(0xFFFF_FFFF_FFFF_FFFF_FFFF_FFFF, 0);
    let doc = Document { posting_date: date(), doc_no: "B".to_string(), updated_by: User(0),
        lines: vec![line(big), line(big)] };
    assert_eq!(doc.balance(), None);
}

#[test]
fn purchase_amounts_multiply_and_subtract_exactly() {
    let doc = Document::new_purchase_document(date(), "P".to_string(), Material(0), Vendor(0), d(125, 1), d(15, 1),
        d(3, 0), User(0)).unwrap();
    // 1.5 * 3 = 4.5 at standard price, 12.5 * 3 = 37.5 paid, 33.0 difference
    assert_eq!(doc.lines[0].amount, d(45, 1));
    assert_eq!(doc.lines[1].amount, d(330, 1));
    assert_eq!(doc.lines[2].amount, d(-375, 1));
}

#[test]
fn multiplying_by_zero_gives_plain_zero() {
    let doc = Document::new_cogs_document(date(), "G".to_string(), Customer(0), Material(0), d(125, 2), d(0, 3),
        User(0)).unwrap();
    assert_eq!(doc.lines[0].amount, d(0, 0));
}

#[test]
fn moving_average_is_divided_and_rounded_to_cents() {
    let op = Purchase { material: Material(0), vendor: Vendor(0), quantity: d(2, 0), price: d(100, 0),
        doc_no: "P".to_string(), posting_date: date() };
    let mp = MaterialPrices { std_price: d(100, 0), mov_avg_price: d(101, 0), sell_price: d(200, 0), stock: d(1, 0) };
    let plan = plan_purchase(&op, User(0), mp).unwrap();
    assert_eq!(plan.mov_avg_price, d(10033, 2));
    let mp2 = MaterialPrices { stock: d(4, 0), ..mp };
    let op2 = Purchase { quantity: d(4, 0), price: d(1005, 1), ..op };
    // (101 * 4 + 402) / 8 = 100.75
    assert_eq!(value(plan_purchase(&op2, User(0), mp2).unwrap().mov_avg_price), Decimal::new(10075, 2));
}

#[test]
fn banker_rounding_of_the_moving_average() {
    let op = Purchase { material: Material(0), vendor: Vendor(0), quantity: d(8, 0), price: d(100, 0),
        doc_no: "P".to_string(), posting_date: date() };
    // (100.02 * 0 + 800.2) / 8 = 100.025 -> 100.02 (to even)
    let mp = MaterialPrices { std_price: d(100, 0), mov_avg_price: d(100, 0), sell_price: d(200, 0), stock: d(0, 0) };
    let op = Purchase { price: d(100025, 3), ..op };
    assert_eq!(plan_purchase(&op, User(0), mp).unwrap().mov_avg_price, d(10002, 2));
}

#[test]
fn closing_divides_by_the_stock() {
    let data = ClosingData { std_price: d(10, 0), next_std_price: d(10, 0), prev_stock: d(1, 0), receipt: d(2, 0),
        consumption: d(0, 0), diff_amount: d(1, 0) };
    let f = compute_closing(data).unwrap();
    // 31 / 3
    assert_eq!(value(f.actual_price).round_dp(6), Decimal::new(10333333, 6));
    let none = ClosingData { prev_stock: d(0, 0), receipt: d(0, 0), ..data };
    assert!(compute_closing(none).is_none());
}

#[test]
fn stock_comparison_uses_values() {
    let sale = Sale { material: Material(0), customer: Customer(0), quantity: d(1, 0), sale_doc_no: "S".to_string(),
        cogs_doc_no: "C".to_string(), posting_date: date() };
    let short = MaterialPrices { std_price: d(1, 0), mov_avg_price: d(1, 0), sell_price: d(2, 0), stock: d(99, 2) };
    assert!(matches!(plan_sale(&sale, User(0), short), Some(SalePlan::InsufficientStock)));
    let enough = MaterialPrices { stock: d(100, 2), ..short };
    assert!(matches!(plan_sale(&sale, User(0), enough), Some(SalePlan::Sell { .. })));
}

#[test]
fn negation_keeps_scale() {
    assert_eq!(d(125, 2).neg(), d(-125, 2));
    assert!(Dec::zero().is_zero());
    assert!(Dec::from_int(-3).is_negative());
    assert!(Dec::from_int(3).is_positive());
}
