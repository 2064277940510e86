//! Timing metrics of a benchmark run: what each operation was, where it
//! belongs (year and month), which user ran it and how long it took.

use vstd::prelude::*;
use crate::domain::User;
use crate::operation::{Cost, Operation, Purchase, Sale};
use crate::period::{Period, next_of, prev_of};

verus! {

/// What a metric measured.
#[derive(Clone, Debug)]
pub enum Action {
    ProcessPeriod,
    ProcessYear,
    Purchase(Purchase),
    Sale(Sale),
    Cost(Cost),
    ClosePeriod(Period),
    OpenPeriod(Period),
    PeriodReport(Period),
    YearReport(Period),
}

/// The code under which an action is stored.
pub open spec fn action_code(a: Action) -> Seq<char> {
    match a {
        Action::ProcessPeriod => "PROCESS_PERIOD"@,
        Action::ProcessYear => "PROCESS_YEAR"@,
        Action::Purchase(_) => "PURCHASE"@,
        Action::Sale(_) => "SALE"@,
        Action::Cost(_) => "COST"@,
        Action::ClosePeriod(_) => "CLOSE_PERIOD"@,
        Action::OpenPeriod(_) => "OPEN_PERIOD"@,
        Action::PeriodReport(_) => "PERIOD_REPORT"@,
        Action::YearReport(_) => "YEAR_REPORT"@,
    }
}

impl Action {
    /// The code under which the action is stored.
    pub fn code(&self) -> (s: &'static str)
        ensures
            s@ == action_code(*self),
    {
        match self {
            Action::ProcessPeriod => "PROCESS_PERIOD",
            Action::ProcessYear => "PROCESS_YEAR",
            Action::Purchase(_) => "PURCHASE",
            Action::Sale(_) => "SALE",
            Action::Cost(_) => "COST",
            Action::ClosePeriod(_) => "CLOSE_PERIOD",
            Action::OpenPeriod(_) => "OPEN_PERIOD",
            Action::PeriodReport(_) => "PERIOD_REPORT",
            Action::YearReport(_) => "YEAR_REPORT",
        }
    }
}

/// One measurement: the year and month it belongs to (no month for a whole
/// year), the index of the operation in its period, the user that ran it,
/// what was done, and how long it took in nanoseconds.
#[derive(Clone, Debug)]
pub struct DomainMetric {
    pub year: u32,
    pub period: Option<u32>,
    pub index: usize,
    pub user_no: u32,
    pub action: Action,
    pub duration: u64,
}

/// What running an operation reports: the year and month it belongs to and
/// what was done.
#[derive(Clone, Debug)]
pub struct OperationResult {
    pub year: u32,
    pub period: u32,
    pub action: Action,
}

impl OperationResult {
    pub fn new(year: u32, period: u32, action: Action) -> (r: OperationResult)
        ensures
            r == (OperationResult { year, period, action }),
    {
        OperationResult { year, period, action }
    }
}

/// An operation whose dates `chrono` represents.
pub open spec fn operation_dates_valid(op: Operation) -> bool {
    match op {
        Operation::Purchase(p) => p.posting_date.valid(),
        Operation::Sale(s) => s.posting_date.valid(),
        Operation::Cost(c) => c.posting_date.valid(),
        _ => true,
    }
}

/// The result of running `op`: business operations belong to the period
/// of their posting date, period operations and reports to their period.
pub open spec fn result_of(op: Operation) -> OperationResult {
    match op {
        Operation::Purchase(p) => OperationResult {
            year: p.posting_date.year as u32,
            period: p.posting_date.month,
            action: Action::Purchase(p),
        },
        Operation::Sale(s) => OperationResult {
            year: s.posting_date.year as u32,
            period: s.posting_date.month,
            action: Action::Sale(s),
        },
        Operation::Cost(c) => OperationResult {
            year: c.posting_date.year as u32,
            period: c.posting_date.month,
            action: Action::Cost(c),
        },
        Operation::ClosePeriod(p) => OperationResult {
            year: p.0 as u32,
            period: p.1 as u32,
            action: Action::ClosePeriod(p),
        },
        Operation::OpenPeriod(p) => OperationResult {
            year: p.0 as u32,
            period: p.1 as u32,
            action: Action::OpenPeriod(p),
        },
        Operation::PeriodReport(p) => OperationResult {
            year: p.0 as u32,
            period: p.1 as u32,
            action: Action::PeriodReport(p),
        },
        Operation::YearReport(p) => OperationResult {
            year: p.0 as u32,
            period: p.1 as u32,
            action: Action::YearReport(p),
        },
    }
}

/// What running `op` reports, once the executor has run it.
pub fn operation_result(op: Operation) -> (r: OperationResult)
    requires
        operation_dates_valid(op),
    ensures
        r == result_of(op),
{
    match op {
        Operation::Purchase(p) => {
            let yp = Period::from(p.posting_date);
            OperationResult::new(yp.year(), yp.month(), Action::Purchase(p))
        },
        Operation::Sale(s) => {
            let yp = Period::from(s.posting_date);
            OperationResult::new(yp.year(), yp.month(), Action::Sale(s))
        },
        Operation::Cost(c) => {
            let yp = Period::from(c.posting_date);
            OperationResult::new(yp.year(), yp.month(), Action::Cost(c))
        },
        Operation::PeriodReport(p) => OperationResult::new(p.year(), p.month(), Action::PeriodReport(p)),
        Operation::YearReport(p) => OperationResult::new(p.year(), p.month(), Action::YearReport(p)),
        Operation::OpenPeriod(p) => OperationResult::new(p.year(), p.month(), Action::OpenPeriod(p)),
        Operation::ClosePeriod(p) => OperationResult::new(p.year(), p.month(), Action::ClosePeriod(p)),
    }
}

/// The metric of the operation at `index` of its period, run by `user` in
/// `duration` nanoseconds.
pub fn task_metric(result: OperationResult, index: usize, user: User, duration: u64) -> (m: DomainMetric)
    ensures
        m == (DomainMetric {
            year: result.year,
            period: Some(result.period),
            index,
            user_no: user.0,
            action: result.action,
            duration,
        }),
{
    DomainMetric { year: result.year, period: Some(result.period), index, user_no: user.0, action: result.action, duration }
}

/// The metric of processing a whole period.
pub fn period_metric(period: Period, duration: u64) -> (m: DomainMetric)
    ensures
        m == (DomainMetric {
            year: period.0 as u32,
            period: Some(period.1 as u32),
            index: 0,
            user_no: 0,
            action: Action::ProcessPeriod,
            duration,
        }),
{
    DomainMetric {
        year: period.year(),
        period: Some(period.month()),
        index: 0,
        user_no: 0,
        action: Action::ProcessPeriod,
        duration,
    }
}

/// The metric of processing a whole year.
pub fn year_metric(year: u32, duration: u64) -> (m: DomainMetric)
    ensures
        m == (DomainMetric { year, period: None, index: 0, user_no: 0, action: Action::ProcessYear, duration }),
{
    DomainMetric { year, period: None, index: 0, user_no: 0, action: Action::ProcessYear, duration }
}

/// What an executor does for an operation: the business operations as
/// they are, the opening and closing of periods on the neighbouring period
/// (opening at the end of a period opens the next one, closing at its start
/// closes the previous one), and reports over a range of periods.
#[derive(Clone, Copy, Debug, PartialEq, Eq)]
pub enum ExecutorCall {
    PurchaseMaterial,
    SellMaterial,
    AccountCost,
    OpenPeriod(Period),
    ClosePeriod(Period),
    Report { start: Period, end: Period },
}

/// The executor call that runs `op`.
pub open spec fn call_of(op: Operation) -> ExecutorCall {
    match op {
        Operation::Purchase(_) => ExecutorCall::PurchaseMaterial,
        Operation::Sale(_) => ExecutorCall::SellMaterial,
        Operation::Cost(_) => ExecutorCall::AccountCost,
        Operation::OpenPeriod(p) => ExecutorCall::OpenPeriod(next_of(p)),
        Operation::ClosePeriod(p) => ExecutorCall::ClosePeriod(prev_of(p)),
        Operation::PeriodReport(p) => ExecutorCall::Report { start: p, end: p },
        Operation::YearReport(p) => ExecutorCall::Report { start: Period(p.0, 1), end: Period(p.0, 12) },
    }
}

/// A period whose neighbours are periods of `i32` years.
pub open spec fn has_neighbours(p: Period) -> bool {
    &&& p.1 == 12 ==> p.0 < i32::MAX
    &&& p.1 != 12 ==> p.1 < i32::MAX
    &&& p.1 == 1 ==> p.0 > i32::MIN
    &&& p.1 != 1 ==> p.1 > i32::MIN
}

/// The executor call that runs `op`.
pub fn executor_call(op: &Operation) -> (c: ExecutorCall)
    requires
        *op matches Operation::OpenPeriod(p) ==> has_neighbours(p),
        *op matches Operation::ClosePeriod(p) ==> has_neighbours(p),
    ensures
        c == call_of(*op),
{
    match op {
        Operation::Purchase(_) => ExecutorCall::PurchaseMaterial,
        Operation::Sale(_) => ExecutorCall::SellMaterial,
        Operation::Cost(_) => ExecutorCall::AccountCost,
        Operation::OpenPeriod(p) => ExecutorCall::OpenPeriod(p.next_period()),
        Operation::ClosePeriod(p) => ExecutorCall::ClosePeriod(p.prev_period()),
        Operation::PeriodReport(p) => ExecutorCall::Report { start: *p, end: *p },
        Operation::YearReport(p) => ExecutorCall::Report { start: p.first_period(), end: p.last_period() },
    }
}

/// The result of an operation belongs to the period it concerns: a report,
/// an opening or a closing to the period it was generated for, a purchase, a
/// sale or a cost to the period of its posting date; and it records the
/// operation itself.
pub proof fn lemma_result_period(op: Operation)
    ensures
        op matches Operation::PeriodReport(p) ==> result_of(op).year == p.0 as u32 && result_of(op).period == p.1 as u32
            && result_of(op).action == Action::PeriodReport(p),
        op matches Operation::YearReport(p) ==> result_of(op).year == p.0 as u32 && result_of(op).period == p.1 as u32
            && result_of(op).action == Action::YearReport(p),
        op matches Operation::OpenPeriod(p) ==> result_of(op).year == p.0 as u32 && result_of(op).period == p.1 as u32
            && result_of(op).action == Action::OpenPeriod(p),
        op matches Operation::ClosePeriod(p) ==> result_of(op).year == p.0 as u32 && result_of(op).period == p.1 as u32
            && result_of(op).action == Action::ClosePeriod(p),
        op matches Operation::Purchase(x) ==> result_of(op).year == x.posting_date.year as u32
            && result_of(op).period == x.posting_date.month && result_of(op).action == Action::Purchase(x),
        op matches Operation::Sale(x) ==> result_of(op).year == x.posting_date.year as u32
            && result_of(op).period == x.posting_date.month && result_of(op).action == Action::Sale(x),
        op matches Operation::Cost(x) ==> result_of(op).year == x.posting_date.year as u32
            && result_of(op).period == x.posting_date.month && result_of(op).action == Action::Cost(x),
{
}

} // verus!
