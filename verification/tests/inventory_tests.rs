use bench_pg_rs::decimal::Dec;
use rust_decimal::Decimal;
use bench_pg_rs::domain::{Customer, LedgerAccount, Material, User, Vendor};
use bench_pg_rs::inventory::{compute_closing, plan_close, plan_open, plan_purchase, plan_sale, ClosingData,
    MaterialPrices, OpenAction, PeriodRow, SalePlan};
use bench_pg_rs::operation::{Purchase, Sale};
use bench_pg_rs::period::{Date, Period};

fn d(mantissa: i128, scale: u32) -> Dec {
    Dec { mantissa, scale }
}

fn value(x: Dec) -> Decimal {
    Decimal::from_i128_with_scale(x.mantissa, x.scale)
}

fn same(a: Dec, b: Dec) -> bool {
    value(a) == value(b)
}

fn prices(stock: i128) -> MaterialPrices {
    MaterialPrices { std_price: d(100, 0), mov_avg_price: d(110, 0), sell_price: d(200, 0), stock: d(stock, 0) }
}

#[test]
fn purchase_updates_the_moving_average() {
    let op = Purchase {
        material: Material(1),
        vendor: Vendor(2),
        quantity: d(10, 0),
        price: d(120, 0),
        doc_no: "PURCH-1".to_string(),
        posting_date: Date { year: 2025, month: 1, day: 10 },
    };
    let plan = plan_purchase(&op, User(1), prices(30)).unwrap();
    // (110 * 30 + 1200) / 40 = 112.5
    assert!(same(plan.mov_avg_price, d(11250, 2)));
    assert_eq!(plan.stock_increase, d(10, 0));
    assert_eq!(plan.document.lines.len(), 3);
    assert_eq!(plan.document.doc_no, "PURCH-1");
}

#[test]
fn purchase_average_is_rounded_to_cents() {
    let op = Purchase {
        material: Material(1),
        vendor: Vendor(2),
        quantity: d(3, 0),
        price: d(100, 0),
        doc_no: "PURCH-2".to_string(),
        posting_date: Date { year: 2025, month: 1, day: 10 },
    };
    let mp = MaterialPrices { std_price: d(100, 0), mov_avg_price: d(101, 0), sell_price: d(200, 0), stock: d(0, 0) };
    let plan = plan_purchase(&op, User(1), mp).unwrap();
    assert!(same(plan.mov_avg_price, d(100, 0)));
    let mp2 = MaterialPrices { std_price: d(100, 0), mov_avg_price: d(101, 0), sell_price: d(200, 0), stock: d(1, 0) };
    let op2 = Purchase { quantity: d(2, 0), ..op };
    // (101 + 200) / 3 = 100.333.. -> 100.33
    assert_eq!(plan_purchase(&op2, User(1), mp2).unwrap().mov_avg_price, d(10033, 2));
}

#[test]
fn purchase_into_no_stock_has_no_plan() {
    let op = Purchase {
        material: Material(1),
        vendor: Vendor(2),
        quantity: d(0, 0),
        price: d(100, 0),
        doc_no: "PURCH-3".to_string(),
        posting_date: Date { year: 2025, month: 1, day: 10 },
    };
    assert!(plan_purchase(&op, User(1), prices(0)).is_none());
}

fn sale(quantity: i128) -> Sale {
    Sale {
        material: Material(1),
        customer: Customer(5),
        quantity: d(quantity, 0),
        sale_doc_no: "SALE-1".to_string(),
        cogs_doc_no: "COGS-1".to_string(),
        posting_date: Date { year: 2025, month: 1, day: 10 },
    }
}

#[test]
fn sale_beyond_stock_is_refused() {
    assert!(matches!(plan_sale(&sale(31), User(1), prices(30)), Some(SalePlan::InsufficientStock)));
}

#[test]
fn sale_within_stock_posts_cogs_and_sale() {
    match plan_sale(&sale(30), User(1), prices(30)) {
        Some(SalePlan::Sell { cogs, sale, stock_decrease }) => {
            assert_eq!(stock_decrease, d(30, 0));
            assert_eq!(cogs.lines[0].amount, d(3000, 0));
            assert_eq!(cogs.doc_no, "COGS-1");
            assert_eq!(sale.lines[0].amount, d(6000, 0));
            assert_eq!(sale.doc_no, "SALE-1");
        },
        _ => panic!("expected a sale"),
    }
}

fn row(std: i128, stock: i128) -> PeriodRow {
    PeriodRow { std_price: d(std, 0), mov_avg_price: d(105, 0), actual_price: d(104, 0), sell_price: d(2 * std, 0),
        stock: d(stock, 0) }
}

#[test]
fn opening_copies_the_previous_row_at_the_next_standard_price() {
    assert_eq!(plan_open(false, d(120, 0), Some(row(100, 7))), OpenAction::Insert(row(120, 7).with_sell(d(200, 0))));
    assert_eq!(plan_open(false, d(120, 0), None), OpenAction::Nothing);
}

#[test]
fn opening_an_existing_row_updates_price_and_stock() {
    assert_eq!(plan_open(true, d(120, 0), Some(row(100, 7))),
        OpenAction::Update { std_price: d(120, 0), stock: Some(d(7, 0)) });
    assert_eq!(plan_open(true, d(120, 0), None), OpenAction::Update { std_price: d(120, 0), stock: None });
}

trait WithSell {
    fn with_sell(self, sell: Dec) -> Self;
}

impl WithSell for PeriodRow {
    fn with_sell(self, sell: Dec) -> Self {
        PeriodRow { sell_price: sell, ..self }
    }
}

fn closing() -> ClosingData {
    ClosingData {
        std_price: d(100, 0),
        next_std_price: d(110, 0),
        prev_stock: d(10, 0),
        receipt: d(30, 0),
        consumption: d(-20, 0),
        diff_amount: d(400, 0),
    }
}

#[test]
fn closing_figures_follow_the_valuation_formulas() {
    let f = compute_closing(closing()).unwrap();
    // (10*100 + 30*100 + 400) / 40 = 110
    assert!(same(f.actual_price, d(110, 0)));
    assert_eq!(f.curr_stock, d(20, 0));
    // 400 * 20 / 40 = 200
    assert!(same(f.diff_to_stock, d(200, 0)));
    assert!(same(f.diff_to_cogs, d(200, 0)));
    // 20*100 + 200 - 20*110 = 0
    assert!(same(f.next_diff, d(0, 0)));
}

#[test]
fn closing_without_stock_has_no_figures() {
    let data = ClosingData { prev_stock: d(0, 0), receipt: d(0, 0), consumption: d(0, 0), ..closing() };
    assert!(compute_closing(data).is_none());
}

#[test]
fn closing_plan_posts_the_differences() {
    let plan = plan_close(Period::new(2025, 1), &"MAT-00003".to_string(), User(2),
        ClosingData { next_std_price: d(105, 0), ..closing() }).unwrap();
    assert_eq!(plan.stock_rows.len(), 2);
    assert_eq!(plan.stock_rows[0].doc_no, "CLOSE-2025.01-MAT-00003");
    assert_eq!(plan.stock_rows[0].account, LedgerAccount::Inventory);
    assert_eq!(plan.stock_rows[0].posting_date, Date { year: 2025, month: 1, day: 31 });
    assert_eq!(plan.cogs_rows[0].account, LedgerAccount::Cogs);
    assert!(same(plan.cogs_rows[0].debt, d(200, 0)));
    // 20*100 + 200 - 20*105 = 100: debit differences, credit inventory
    assert_eq!(plan.next_rows.len(), 2);
    assert_eq!(plan.next_rows[0].doc_no, "OPEN-202502-MAT-00003");
    assert_eq!(plan.next_rows[0].account, LedgerAccount::InventoryDiff);
    assert!(same(plan.next_rows[0].debt, d(100, 0)));
    assert_eq!(plan.next_rows[0].posting_date, Date { year: 2025, month: 2, day: 1 });
    assert_eq!(plan.next_rows[1].account, LedgerAccount::Inventory);
    assert_eq!(plan.next_rows[1].updated_by, "USER-00002");
}

#[test]
fn closing_clears_the_differences_of_the_period() {
    let plan = plan_close(Period::new(2025, 12), &"MAT-00001".to_string(), User(0), closing()).unwrap();
    let mut net = Decimal::ZERO;
    for r in plan.stock_rows.iter().chain(plan.cogs_rows.iter()) {
        if r.account == LedgerAccount::InventoryDiff {
            net += value(r.amount);
        }
    }
    assert_eq!(net, Decimal::from(-400));
    assert!(plan.next_rows.is_empty());
    assert_eq!(plan.stock_rows[0].doc_no, "CLOSE-2025.12-MAT-00001");
}

#[test]
fn closing_revalues_stock_at_the_next_standard_price() {
    let data = ClosingData { next_std_price: d(95, 0), ..closing() };
    let plan = plan_close(Period::new(2025, 6), &"MAT-00001".to_string(), User(0), data).unwrap();
    let mut net = Decimal::from(2000);
    for r in plan.stock_rows.iter().chain(plan.next_rows.iter()) {
        if r.account == LedgerAccount::Inventory {
            net += value(r.amount);
        }
    }
    // 20 * 100 plus what is posted to inventory is 20 * 95
    assert_eq!(net, Decimal::from(1900));
}
