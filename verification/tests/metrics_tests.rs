use bench_pg_rs::decimal::Dec;
use bench_pg_rs::dispatch::{DispatchAction, Dispatcher};
use bench_pg_rs::domain::{Customer, Material, User, Vendor};
use bench_pg_rs::metrics::{executor_call, operation_result, period_metric, task_metric, year_metric, Action,
    DomainMetric, ExecutorCall};
use bench_pg_rs::operation::{Cost, Operation, Purchase, Sale};
use bench_pg_rs::period::{Date, Period};
use bench_pg_rs::records::{get_batch, metric_batches, MetricRecord};
use bench_pg_rs::stats::{processing_rules, stat_groups, RULE_COUNT};

fn purchase() -> Purchase {
    Purchase {
        material: Material(3),
        vendor: Vendor(4),
        quantity: Dec::from_int(1200),
        price: Dec::from_int(150),
        doc_no: "PURCH-2025.03-00000001".to_string(),
        posting_date: Date { year: 2025, month: 3, day: 9 },
    }
}

#[test]
fn action_codes() {
    assert_eq!(Action::ProcessYear.code(), "PROCESS_YEAR");
    assert_eq!(Action::ProcessPeriod.code(), "PROCESS_PERIOD");
    assert_eq!(Action::Purchase(purchase()).code(), "PURCHASE");
    assert_eq!(Action::OpenPeriod(Period::new(2025, 1)).code(), "OPEN_PERIOD");
    assert_eq!(Action::YearReport(Period::new(2025, 1)).code(), "YEAR_REPORT");
}

#[test]
fn results_belong_to_the_posting_period() {
    let r = operation_result(Operation::Purchase(purchase()));
    assert_eq!((r.year, r.period), (2025, 3));
    assert!(matches!(r.action, Action::Purchase(_)));
    let r = operation_result(Operation::ClosePeriod(Period::new(2025, 7)));
    assert_eq!((r.year, r.period), (2025, 7));
    assert!(matches!(r.action, Action::ClosePeriod(_)));
}

#[test]
fn metrics_carry_index_user_and_duration() {
    let m = task_metric(operation_result(Operation::PeriodReport(Period::new(2025, 2))), 17, User(5), 1234);
    assert_eq!((m.year, m.period, m.index, m.user_no, m.duration), (2025, Some(2), 17, 5, 1234));
    let p = period_metric(Period::new(2025, 4), 99);
    assert_eq!((p.year, p.period), (2025, Some(4)));
    assert!(matches!(p.action, Action::ProcessPeriod));
    let y = year_metric(2025, 7);
    assert_eq!((y.year, y.period), (2025, None));
    assert!(matches!(y.action, Action::ProcessYear));
}

#[test]
fn executor_calls_target_neighbouring_periods() {
    assert_eq!(executor_call(&Operation::OpenPeriod(Period::new(2025, 12))), ExecutorCall::OpenPeriod(Period::new(2026, 1)));
    assert_eq!(executor_call(&Operation::ClosePeriod(Period::new(2025, 1))), ExecutorCall::ClosePeriod(Period::new(2024, 12)));
    assert_eq!(executor_call(&Operation::YearReport(Period::new(2025, 5))),
        ExecutorCall::Report { start: Period::new(2025, 1), end: Period::new(2025, 12) });
    assert_eq!(executor_call(&Operation::PeriodReport(Period::new(2025, 5))),
        ExecutorCall::Report { start: Period::new(2025, 5), end: Period::new(2025, 5) });
    assert_eq!(executor_call(&Operation::Purchase(purchase())), ExecutorCall::PurchaseMaterial);
}

fn run(total: usize, users: u32, order: &[u32]) -> (Vec<(u32, usize)>, usize) {
    let mut d = Dispatcher::new(total, users);
    let mut sent = Vec::new();
    let mut outstanding: Vec<u32> = Vec::new();
    let mut received = 0;
    let mut next_result = 0;
    let mut action = d.start();
    loop {
        match action {
            DispatchAction::Send { user, index } => {
                sent.push((user, index));
                outstanding.push(user);
                action = d.sent();
            },
            DispatchAction::Receive => {
                let pick = order[next_result % order.len()] as usize % outstanding.len();
                next_result += 1;
                let user = outstanding.remove(pick);
                received += 1;
                action = d.received(user);
            },
            DispatchAction::Finish => break,
        }
    }
    (sent, received)
}

#[test]
fn every_operation_is_handed_out_once_in_order() {
    let (sent, received) = run(10, 3, &[0, 2, 1]);
    let indices: Vec<usize> = sent.iter().map(|s| s.1).collect();
    assert_eq!(indices, (0..10).collect::<Vec<_>>());
    assert_eq!(&sent[..3], &[(0, 0), (1, 1), (2, 2)]);
    assert_eq!(received, 10);
}

#[test]
fn results_earn_their_user_the_next_operation() {
    let (sent, _) = run(5, 2, &[1]);
    // users 0 and 1 start; results come back from the most recent sender
    assert_eq!(sent, vec![(0, 0), (1, 1), (1, 2), (1, 3), (1, 4)]);
}

#[test]
fn fewer_operations_than_users() {
    let (sent, received) = run(2, 5, &[0]);
    assert_eq!(sent, vec![(0, 0), (1, 1)]);
    assert_eq!(received, 2);
    let (sent, received) = run(0, 5, &[0]);
    assert!(sent.is_empty());
    assert_eq!(received, 0);
}

#[test]
fn closed_channel_finishes() {
    let mut d = Dispatcher::new(4, 2);
    assert_eq!(d.start(), DispatchAction::Send { user: 0, index: 0 });
    assert_eq!(d.closed(), DispatchAction::Finish);
    assert!(d.finished);
}

fn metric(action: Action, year: u32, period: Option<u32>, duration: u64) -> DomainMetric {
    DomainMetric { year, period, index: 3, user_no: 2, action, duration }
}

#[test]
fn records_carry_the_operation_data() {
    let r = MetricRecord::from(&metric(Action::Purchase(purchase()), 2025, Some(3), 77), 9);
    assert_eq!((r.benchmark_id, r.year, r.period, r.index, r.user_no, r.duration), (9, 2025, Some(3), 3, 2, 77));
    assert_eq!(r.action, "PURCHASE");
    assert_eq!(r.material_id.as_deref(), Some("MAT-00003"));
    assert_eq!(r.business_partner_id.as_deref(), Some("VEND-00004"));
    assert_eq!(r.price, Some(Dec::from_int(150)));
    assert_eq!(r.quantity, Some(Dec::from_int(1200)));
    assert_eq!(r.amount, None);
    assert_eq!(r.doc_no.as_deref(), Some("PURCH-2025.03-00000001"));
    assert_eq!(r.posting_date, Some(Date { year: 2025, month: 3, day: 9 }));
    let sale = Sale {
        material: Material(1),
        customer: Customer(8),
        quantity: Dec::from_int(120),
        sale_doc_no: "SALE-x".to_string(),
        cogs_doc_no: "COGS-x".to_string(),
        posting_date: Date { year: 2025, month: 3, day: 9 },
    };
    let r = MetricRecord::from(&metric(Action::Sale(sale), 2025, Some(3), 1), 9);
    assert_eq!(r.business_partner_id.as_deref(), Some("CUST-00008"));
    assert_eq!(r.sale_doc_no.as_deref(), Some("SALE-x"));
    assert_eq!(r.cogs_doc_no.as_deref(), Some("COGS-x"));
    assert_eq!(r.price, None);
    let cost = Cost {
        material: Material(1),
        vendor: Vendor(2),
        amount: Dec::from_int(1500),
        doc_no: "COST-x".to_string(),
        posting_date: Date { year: 2025, month: 3, day: 9 },
    };
    let r = MetricRecord::from(&metric(Action::Cost(cost), 2025, Some(3), 1), 9);
    assert_eq!(r.amount, Some(Dec::from_int(1500)));
    assert_eq!(r.quantity, None);
    let r = MetricRecord::from(&metric(Action::ClosePeriod(Period::new(2025, 6)), 2025, Some(7), 1), 9);
    assert_eq!(r.period, Some(6));
    assert_eq!(r.material_id, None);
    let r = MetricRecord::from(&metric(Action::ProcessYear, 2025, None, 1), 9);
    assert_eq!(r.period, None);
}

#[test]
fn batches_hold_every_metric_once_in_order() {
    let metrics: Vec<DomainMetric> = (0..250).map(|i| metric(Action::ProcessPeriod, 2025, Some(1), i)).collect();
    let batches = metric_batches(1, &metrics);
    assert_eq!(batches.iter().map(|b| b.len()).collect::<Vec<_>>(), vec![100, 100, 50]);
    let durations: Vec<u64> = batches.iter().flatten().map(|r| r.duration).collect();
    assert_eq!(durations, (0..250).collect::<Vec<u64>>());
    assert_eq!(get_batch(1, 200, &metrics).len(), 50);
    assert_eq!(get_batch(1, 100, &metrics).len(), 100);
    assert_eq!(get_batch(1, 250, &metrics).len(), 0);
    assert!(metric_batches(1, &Vec::new()).is_empty());
}

#[test]
fn rules_cover_each_action_once() {
    let rules = processing_rules();
    assert_eq!(rules.len(), RULE_COUNT);
    let codes: Vec<&str> = rules.iter().map(|r| r.action).collect();
    assert_eq!(codes, vec!["PROCESS_YEAR", "PROCESS_PERIOD", "YEAR_REPORT", "PERIOD_REPORT", "OPEN_PERIOD",
        "CLOSE_PERIOD", "COST", "SALE", "PURCHASE"]);
    let p = Period::new(2025, 1);
    let actions = vec![Action::ProcessYear, Action::ProcessPeriod, Action::YearReport(p), Action::PeriodReport(p),
        Action::OpenPeriod(p), Action::ClosePeriod(p), Action::Purchase(purchase())];
    for a in actions {
        let m = metric(a.clone(), 2025, Some(1), 1);
        let hits: Vec<&str> = rules.iter().filter(|r| r.accepts(&m)).map(|r| r.action).collect();
        assert_eq!(hits, vec![a.code()]);
    }
}

#[test]
fn statistics_group_durations_by_rule_year_and_month() {
    let p = Period::new(2025, 1);
    let metrics = vec![
        metric(Action::PeriodReport(p), 2025, Some(1), 10),
        metric(Action::PeriodReport(p), 2025, Some(2), 20),
        metric(Action::PeriodReport(p), 2026, Some(1), 30),
        metric(Action::OpenPeriod(p), 2025, Some(1), 40),
        metric(Action::ProcessYear, 2025, None, 50),
    ];
    let groups = stat_groups(&metrics, 2025, 2);
    assert_eq!(groups.len(), 9);
    let reports = &groups[3];
    assert_eq!(reports.action, "PERIOD_REPORT");
    assert_eq!(reports.durations, vec![10, 20, 30]);
    assert_eq!(reports.years.len(), 2);
    assert_eq!(reports.years[0].year, 2025);
    assert_eq!(reports.years[0].durations, vec![10, 20]);
    assert_eq!(reports.years[0].months.len(), 12);
    assert_eq!(reports.years[0].months[0], vec![10]);
    assert_eq!(reports.years[0].months[1], vec![20]);
    assert!(reports.years[0].months[2].is_empty());
    assert_eq!(reports.years[1].durations, vec![30]);
    let open = &groups[4];
    assert_eq!(open.durations, vec![40]);
    assert!(open.years[0].months.is_empty());
    assert_eq!(groups[0].durations, vec![50]);
    assert_eq!(groups[0].years[1].durations, Vec::<u64>::new());
}
