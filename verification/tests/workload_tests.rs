use bench_pg_rs::config::{Config, DbLib};
use bench_pg_rs::decimal::Dec;
use bench_pg_rs::domain::{Customer, Material, Vendor};
use bench_pg_rs::operation::Operation;
use bench_pg_rs::period::{Date, Period};
use bench_pg_rs::workload::{arrange_operations, build_operation, draw_workload, order_slots, prepare_operations, Draw};

#[test]
fn slots_are_ordered_stably() {
    let keys = vec![5, 1, 5, 0, 1, 5];
    assert_eq!(order_slots(&keys), vec![3, 1, 4, 0, 2, 5]);
    assert_eq!(order_slots(&vec![]), Vec::<usize>::new());
    assert_eq!(order_slots(&vec![2, 2, 2]), vec![0, 1, 2]);
}

fn draws_for_ten() -> Vec<Draw> {
    // ten operations draw nine: 2 period reports, 1 year report, 2 costs, 2 purchases, 2 sales
    vec![
        Draw { order: 9, material: 0, partner: 0, value: 0, price: 0 },
        Draw { order: 0, material: 0, partner: 0, value: 0, price: 0 },
        Draw { order: 4, material: 0, partner: 0, value: 0, price: 0 },
        Draw { order: 3, material: 1, partner: 2, value: 1500, price: 0 },
        Draw { order: 4, material: 3, partner: 4, value: 1000, price: 0 },
        Draw { order: 7, material: 5, partner: 6, value: 1200, price: 150 },
        Draw { order: 1, material: 7, partner: 8, value: 1999, price: 199 },
        Draw { order: 2, material: 9, partner: 1, value: 150, price: 0 },
        Draw { order: 8, material: 2, partner: 3, value: 100, price: 0 },
    ]
}

#[test]
fn operations_are_built_from_their_draws() {
    let p = Period::new(2025, 2);
    let draws = draws_for_ten();
    match build_operation(&p, 10, &draws, 3) {
        Operation::Cost(c) => {
            assert_eq!(c.material, Material(1));
            assert_eq!(c.vendor, Vendor(2));
            assert_eq!(c.amount, Dec::from_int(1500));
            assert_eq!(c.doc_no, "COST-2025.02-00000000");
            // day 3 * 28 / 10 = 8
            assert_eq!(c.posting_date, Date { year: 2025, month: 2, day: 8 });
        },
        _ => panic!("expected a cost"),
    }
    match build_operation(&p, 10, &draws, 6) {
        Operation::Purchase(x) => {
            assert_eq!(x.doc_no, "PURCH-2025.02-00000001");
            assert_eq!(x.price, Dec::from_int(199));
            assert_eq!(x.quantity, Dec::from_int(1999));
            // day 1 * 28 / 10 = 2
            assert_eq!(x.posting_date.day, 2);
        },
        _ => panic!("expected a purchase"),
    }
    match build_operation(&p, 10, &draws, 7) {
        Operation::Sale(x) => {
            assert_eq!(x.customer, Customer(1));
            assert_eq!(x.sale_doc_no, "SALE-2025.02-00000000");
            assert_eq!(x.cogs_doc_no, "COGS-2025.02-00000000");
        },
        _ => panic!("expected a sale"),
    }
    assert!(matches!(build_operation(&p, 10, &draws, 1), Operation::PeriodReport(_)));
    assert!(matches!(build_operation(&p, 10, &draws, 2), Operation::YearReport(_)));
    assert!(matches!(build_operation(&p, 10, &draws, 9), Operation::OpenPeriod(_)));
    assert!(matches!(build_operation(&p, 10, &draws, 10), Operation::ClosePeriod(_)));
}

#[test]
fn posting_date_of_order_zero_is_the_first_day() {
    let p = Period::new(2025, 2);
    let mut draws = draws_for_ten();
    draws[3].order = 0;
    match build_operation(&p, 10, &draws, 3) {
        Operation::Cost(c) => assert_eq!(c.posting_date.day, 1),
        _ => panic!("expected a cost"),
    }
}

fn kind(op: &Operation) -> &'static str {
    match op {
        Operation::PeriodReport(_) => "PR",
        Operation::YearReport(_) => "YR",
        Operation::Cost(_) => "C",
        Operation::Purchase(_) => "P",
        Operation::Sale(_) => "S",
        Operation::OpenPeriod(_) => "O",
        Operation::ClosePeriod(_) => "X",
    }
}

#[test]
fn arranged_workload_follows_the_orders() {
    let p = Period::new(2025, 2);
    // close order: 5 * 10 / 28 = 1
    let ops = arrange_operations(&p, 10, &draws_for_ten(), 5);
    let kinds: Vec<&str> = ops.iter().map(kind).collect();
    // orders: PR9 PR0 YR4 C3 C4 P7 P1 S2 S8 O10 X1
    assert_eq!(kinds, vec!["PR", "P", "X", "S", "C", "YR", "C", "P", "S", "PR", "O"]);
}

#[test]
fn drawn_workload_has_the_documented_mix() {
    let (draws, close_factor) = draw_workload(1000, 10, 20, 30);
    assert_eq!(draws.len(), 200 + 100 + 200 + 250 + 250);
    assert!((1..=5).contains(&close_factor));
    for (j, d) in draws.iter().enumerate() {
        assert!(d.order < 1000);
        if (300..500).contains(&j) {
            assert!(d.material < 10 && d.partner < 20 && (1000..2000).contains(&d.value));
        } else if (500..750).contains(&j) {
            assert!(d.material < 10 && d.partner < 20 && (1000..2000).contains(&d.value));
            assert!((100..200).contains(&d.price));
        } else if j >= 750 {
            assert!(d.material < 10 && d.partner < 30 && (100..200).contains(&d.value));
        }
    }
}

fn config(operations: usize) -> Config {
    Config {
        username: "postgres".to_string(),
        password: "postgres".to_string(),
        host: "localhost".to_string(),
        port: 5432,
        connections: 40,
        db: "benchmark".to_string(),
        lib: DbLib::Tokio,
        customers: 100,
        vendors: 100,
        materials: 100,
        users: 40,
        start_year: 2025,
        years: 1,
        operations,
        name: String::new(),
    }
}

#[test]
fn prepared_workload_is_sorted_and_ends_with_the_opening() {
    let p = Period::new(2025, 3);
    let ops = prepare_operations(p, &config(2000));
    assert_eq!(ops.len(), 2002);
    assert!(matches!(ops[2001], Operation::OpenPeriod(_)));
    let mut counts = std::collections::HashMap::new();
    let mut last_day = 0;
    for op in &ops {
        *counts.entry(kind(op)).or_insert(0) += 1;
        let day = match op {
            Operation::Cost(c) => Some(c.posting_date.day),
            Operation::Purchase(c) => Some(c.posting_date.day),
            Operation::Sale(c) => Some(c.posting_date.day),
            _ => None,
        };
        if let Some(day) = day {
            assert!(day >= last_day);
            last_day = day;
        }
    }
    assert_eq!(counts["PR"], 400);
    assert_eq!(counts["YR"], 200);
    assert_eq!(counts["C"], 400);
    assert_eq!(counts["P"], 500);
    assert_eq!(counts["S"], 500);
    assert_eq!(counts["O"], 1);
    assert_eq!(counts["X"], 1);
}

#[test]
fn empty_workload_has_only_period_operations() {
    let ops = prepare_operations(Period::new(2025, 3), &config(0));
    assert_eq!(ops.len(), 2);
    assert!(matches!(ops[0], Operation::OpenPeriod(_)));
    assert!(matches!(ops[1], Operation::ClosePeriod(_)));
}

#[test]
fn workload_documents_have_distinct_numbers() {
    let ops = prepare_operations(Period::new(2025, 7), &config(1000));
    let mut numbers = Vec::new();
    for op in &ops {
        match op {
            Operation::Cost(c) => numbers.push(c.doc_no.clone()),
            Operation::Purchase(c) => numbers.push(c.doc_no.clone()),
            Operation::Sale(c) => {
                numbers.push(c.sale_doc_no.clone());
                numbers.push(c.cogs_doc_no.clone());
            },
            _ => {},
        }
    }
    let total = numbers.len();
    assert_eq!(total, 200 + 250 + 2 * 250);
    numbers.sort();
    numbers.dedup();
    assert_eq!(numbers.len(), total);
}
